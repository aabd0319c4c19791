//! One 128-bit lane: the bit pattern that every vector and every storage value
//! is built from.
//!
//! A lane has no type of its own; it is a `u128`. Bit 0 is the least
//! significant bit. The lane can be read as sixteen bytes, four 32-bit words,
//! two 64-bit words or one 128-bit word: byte `k` is bits `8k..8k+8`, and word
//! `i` of width `W` is bits `W*i..W*i+W`. Reading a lane under one width and
//! building it under another never changes a bit.
use vstd::prelude::*;

verus! {

/// The four 32-bit words of a lane, word 0 first.
pub open spec fn words32(l: u128) -> Seq<u32> {
    seq![l as u32, (l >> 32) as u32, (l >> 64) as u32, (l >> 96) as u32]
}

/// The lane whose four 32-bit words are `w`.
pub open spec fn from_words32(w: Seq<u32>) -> u128
    recommends
        w.len() == 4,
{
    (w[0] as u128) | ((w[1] as u128) << 32) | ((w[2] as u128) << 64) | ((w[3] as u128) << 96)
}

/// The lanes whose 32-bit words are `w`, four words a lane, the first four in
/// lane 0.
pub open spec fn lanes_of_words32(w: Seq<u32>) -> Seq<u128> {
    Seq::new(w.len() / 4, |i: int| from_words32(w.subrange(4 * i, 4 * i + 4)))
}

/// The lanes whose 64-bit words are `w`, two words a lane, the first two in
/// lane 0.
pub open spec fn lanes_of_words64(w: Seq<u64>) -> Seq<u128> {
    Seq::new(w.len() / 2, |i: int| from_words64(w.subrange(2 * i, 2 * i + 2)))
}

/// The two 64-bit words of a lane, word 0 first.
pub open spec fn words64(l: u128) -> Seq<u64> {
    seq![l as u64, (l >> 64) as u64]
}

/// The lane whose two 64-bit words are `w`.
pub open spec fn from_words64(w: Seq<u64>) -> u128
    recommends
        w.len() == 2,
{
    (w[0] as u128) | ((w[1] as u128) << 64)
}

/// Byte `k` of a lane, for `k` in `0..16`.
pub open spec fn byte(l: u128, k: int) -> u8 {
    (l >> ((8 * k) as u128)) as u8
}

/// The sixteen bytes of a lane, byte 0 first: its little-endian image.
pub open spec fn bytes(l: u128) -> Seq<u8> {
    Seq::new(16, |k: int| byte(l, k))
}

/// The lane whose sixteen bytes are `b`.
pub open spec fn from_bytes(b: Seq<u8>) -> u128
    recommends
        b.len() == 16,
{
    (b[0] as u128) | ((b[1] as u128) << 8) | ((b[2] as u128) << 16) | ((b[3] as u128) << 24) | ((
    b[4] as u128) << 32) | ((b[5] as u128) << 40) | ((b[6] as u128) << 48) | ((b[7] as u128) << 56)
        | ((b[8] as u128) << 64) | ((b[9] as u128) << 72) | ((b[10] as u128) << 80) | ((
    b[11] as u128) << 88) | ((b[12] as u128) << 96) | ((b[13] as u128) << 104) | ((b[14] as u128)
        << 112) | ((b[15] as u128) << 120)
}

/// Building a lane from four words and reading the words back returns them.
pub proof fn lemma_words32_of_from_words32(w: Seq<u32>)
    requires
        w.len() == 4,
    ensures
        words32(from_words32(w)) == w,
{
    let (a, b, c, d) = (w[0], w[1], w[2], w[3]);
    let l = from_words32(w);
    assert(l == (a as u128) | ((b as u128) << 32) | ((c as u128) << 64) | ((d as u128) << 96));
    assert(l as u32 == a && (l >> 32) as u32 == b && (l >> 64) as u32 == c && (l >> 96) as u32
        == d) by (bit_vector)
        requires
            l == (a as u128) | ((b as u128) << 32) | ((c as u128) << 64) | ((d as u128) << 96),
    ;
    assert(words32(l) =~= w);
}

/// Reading the four words of a lane and building a lane from them returns it.
pub proof fn lemma_from_words32_of_words32(l: u128)
    ensures
        from_words32(words32(l)) == l,
        words32(l).len() == 4,
{
    assert(l == (l as u32 as u128) | (((l >> 32) as u32 as u128) << 32) | (((l >> 64) as u32
        as u128) << 64) | (((l >> 96) as u32 as u128) << 96)) by (bit_vector);
}

/// Building a lane from two words and reading the words back returns them.
pub proof fn lemma_words64_of_from_words64(w: Seq<u64>)
    requires
        w.len() == 2,
    ensures
        words64(from_words64(w)) == w,
{
    let (a, b) = (w[0], w[1]);
    let l = from_words64(w);
    assert(l as u64 == a && (l >> 64) as u64 == b) by (bit_vector)
        requires
            l == (a as u128) | ((b as u128) << 64),
    ;
    assert(words64(l) =~= w);
}

/// Reading the two words of a lane and building a lane from them returns it.
pub proof fn lemma_from_words64_of_words64(l: u128)
    ensures
        from_words64(words64(l)) == l,
        words64(l).len() == 2,
{
    assert(l == (l as u64 as u128) | (((l >> 64) as u64 as u128) << 64)) by (bit_vector);
}

/// Building a lane from sixteen bytes and reading the bytes back returns them.
pub proof fn lemma_bytes_of_from_bytes(b: Seq<u8>)
    requires
        b.len() == 16,
    ensures
        bytes(from_bytes(b)) == b,
{
    let b0 = b[0];
    let b1 = b[1];
    let b2 = b[2];
    let b3 = b[3];
    let b4 = b[4];
    let b5 = b[5];
    let b6 = b[6];
    let b7 = b[7];
    let b8 = b[8];
    let b9 = b[9];
    let b10 = b[10];
    let b11 = b[11];
    let b12 = b[12];
    let b13 = b[13];
    let b14 = b[14];
    let b15 = b[15];
    let l = from_bytes(b);
    assert(l as u8 == b0 && (l >> 8) as u8 == b1 && (l >> 16) as u8 == b2 && (l >> 24) as u8 == b3 && (l >> 32) as u8 == b4 && (l >> 40) as u8 == b5 && (l >> 48) as u8 == b6 && (l >> 56) as u8 == b7 && (l >> 64) as u8 == b8 && (l >> 72) as u8 == b9 && (l >> 80) as u8 == b10 && (l >> 88) as u8 == b11 && (l >> 96) as u8 == b12 && (l >> 104) as u8 == b13 && (l >> 112) as u8 == b14 && (l >> 120) as u8 == b15) by (bit_vector)
        requires
            l == (b0 as u128) | ((b1 as u128) << 8) | ((b2 as u128) << 16) | ((b3 as u128) << 24) | ((b4 as u128) << 32) | ((b5 as u128) << 40) | ((b6 as u128) << 48) | ((b7 as u128) << 56) | ((b8 as u128) << 64) | ((b9 as u128) << 72) | ((b10 as u128) << 80) | ((b11 as u128) << 88) | ((b12 as u128) << 96) | ((b13 as u128) << 104) | ((b14 as u128) << 112) | ((b15 as u128) << 120),
    ;
    assert forall|k: int| 0 <= k < 16 implies byte(l, k) == b[k] by {
        assert((l >> 0) as u8 == l as u8) by (bit_vector);
    }
    assert(bytes(l) =~= b);
}

/// Reading the sixteen bytes of a lane and building a lane from them returns it.
pub proof fn lemma_from_bytes_of_bytes(l: u128)
    ensures
        from_bytes(bytes(l)) == l,
        bytes(l).len() == 16,
{
    assert(l == (l as u8 as u128) | (((l >> 8) as u8 as u128) << 8) | (((l >> 16) as u8 as u128) << 16) | (((l >> 24) as u8 as u128) << 24) | (((l >> 32) as u8 as u128) << 32) | (((l >> 40) as u8 as u128) << 40) | (((l >> 48) as u8 as u128) << 48) | (((l >> 56) as u8 as u128) << 56) | (((l >> 64) as u8 as u128) << 64) | (((l >> 72) as u8 as u128) << 72) | (((l >> 80) as u8 as u128) << 80) | (((l >> 88) as u8 as u128) << 88) | (((l >> 96) as u8 as u128) << 96) | (((l >> 104) as u8 as u128) << 104) | (((l >> 112) as u8 as u128) << 112) | (((l >> 120) as u8 as u128) << 120)) by (bit_vector);
    assert((l >> 0) as u8 == l as u8) by (bit_vector);
}

/// The little-endian bytes of a 32-bit word, least significant byte first.
pub open spec fn le_bytes32(w: u32) -> Seq<u8> {
    seq![w as u8, (w >> 8) as u8, (w >> 16) as u8, (w >> 24) as u8]
}

/// The little-endian bytes of a 64-bit word, least significant byte first.
pub open spec fn le_bytes64(w: u64) -> Seq<u8> {
    seq![
        w as u8,
        (w >> 8) as u8,
        (w >> 16) as u8,
        (w >> 24) as u8,
        (w >> 32) as u8,
        (w >> 40) as u8,
        (w >> 48) as u8,
        (w >> 56) as u8,
    ]
}

/// The sixteen bytes of a lane are the little-endian bytes of its four 32-bit
/// words, word 0 first.
pub proof fn lemma_bytes_of_words32(l: u128)
    ensures
        bytes(l) == le_bytes32(words32(l)[0]) + le_bytes32(words32(l)[1]) + le_bytes32(
            words32(l)[2],
        ) + le_bytes32(words32(l)[3]),
{
    assert((l >> 0) as u8 == (l as u32) as u8 && (l >> 8) as u8 == ((l as u32) >> 8) as u8 && (l >> 16) as u8 == ((l as u32) >> 16) as u8 && (l >> 24) as u8 == ((l as u32) >> 24) as u8 && (l >> 32) as u8 == ((l >> 32) as u32) as u8 && (l >> 40) as u8 == (((l >> 32) as u32) >> 8) as u8 && (l >> 48) as u8 == (((l >> 32) as u32) >> 16) as u8 && (l >> 56) as u8 == (((l >> 32) as u32) >> 24) as u8 && (l >> 64) as u8 == ((l >> 64) as u32) as u8 && (l >> 72) as u8 == (((l >> 64) as u32) >> 8) as u8 && (l >> 80) as u8 == (((l >> 64) as u32) >> 16) as u8 && (l >> 88) as u8 == (((l >> 64) as u32) >> 24) as u8 && (l >> 96) as u8 == ((l >> 96) as u32) as u8 && (l >> 104) as u8 == (((l >> 96) as u32) >> 8) as u8 && (l >> 112) as u8 == (((l >> 96) as u32) >> 16) as u8 && (l >> 120) as u8 == (((l >> 96) as u32) >> 24) as u8) by (bit_vector);
    assert(bytes(l) =~= le_bytes32(words32(l)[0]) + le_bytes32(words32(l)[1]) + le_bytes32(
        words32(l)[2],
    ) + le_bytes32(words32(l)[3]));
}

/// The sixteen bytes of a lane are the little-endian bytes of its two 64-bit
/// words, word 0 first.
pub proof fn lemma_bytes_of_words64(l: u128)
    ensures
        bytes(l) == le_bytes64(words64(l)[0]) + le_bytes64(words64(l)[1]),
{
    assert((l >> 0) as u8 == (l as u64) as u8 && (l >> 8) as u8 == ((l as u64) >> 8) as u8 && (l >> 16) as u8 == ((l as u64) >> 16) as u8 && (l >> 24) as u8 == ((l as u64) >> 24) as u8 && (l >> 32) as u8 == ((l as u64) >> 32) as u8 && (l >> 40) as u8 == ((l as u64) >> 40) as u8 && (l >> 48) as u8 == ((l as u64) >> 48) as u8 && (l >> 56) as u8 == ((l as u64) >> 56) as u8 && (l >> 64) as u8 == ((l >> 64) as u64) as u8 && (l >> 72) as u8 == (((l >> 64) as u64) >> 8) as u8 && (l >> 80) as u8 == (((l >> 64) as u64) >> 16) as u8 && (l >> 88) as u8 == (((l >> 64) as u64) >> 24) as u8 && (l >> 96) as u8 == (((l >> 64) as u64) >> 32) as u8 && (l >> 104) as u8 == (((l >> 64) as u64) >> 40) as u8 && (l >> 112) as u8 == (((l >> 64) as u64) >> 48) as u8 && (l >> 120) as u8 == (((l >> 64) as u64) >> 56) as u8) by (bit_vector);
    assert(bytes(l) =~= le_bytes64(words64(l)[0]) + le_bytes64(words64(l)[1]));
}

/// A lane built from two 64-bit words, read as four 32-bit words: each 64-bit
/// word gives its low half and then its high half, and nothing is converted.
pub proof fn lemma_words32_of_from_words64(w: Seq<u64>)
    requires
        w.len() == 2,
    ensures
        words32(from_words64(w)) == seq![
            w[0] as u32,
            (w[0] >> 32) as u32,
            w[1] as u32,
            (w[1] >> 32) as u32,
        ],
{
    let (a, b) = (w[0], w[1]);
    let l = from_words64(w);
    assert(l as u32 == a as u32 && (l >> 32) as u32 == (a >> 32) as u32 && (l >> 64) as u32 == b as u32
        && (l >> 96) as u32 == (b >> 32) as u32) by (bit_vector)
        requires
            l == (a as u128) | ((b as u128) << 64),
    ;
    assert(words32(l) =~= seq![a as u32, (a >> 32) as u32, b as u32, (b >> 32) as u32]);
}

/// A lane built from four 32-bit words, read as two 64-bit words: words `2i`
/// and `2i + 1` are the low and the high half of 64-bit word `i`.
pub proof fn lemma_words64_of_from_words32(w: Seq<u32>)
    requires
        w.len() == 4,
    ensures
        words64(from_words32(w)) == seq![
            (w[0] as u64) | ((w[1] as u64) << 32),
            (w[2] as u64) | ((w[3] as u64) << 32),
        ],
{
    let (a, b, c, d) = (w[0], w[1], w[2], w[3]);
    let l = from_words32(w);
    assert(l as u64 == (a as u64) | ((b as u64) << 32) && (l >> 64) as u64 == (c as u64) | ((d as u64) << 32)) by (bit_vector)
        requires
            l == (a as u128) | ((b as u128) << 32) | ((c as u128) << 64) | ((d as u128) << 96),
    ;
    assert(words64(l) =~= seq![(a as u64) | ((b as u64) << 32), (c as u64) | ((d as u64) << 32)]);
}

} // verus!
