//! What the vector operations compute, stated on bit patterns.
//!
//! A vector is a sequence of 128-bit lanes together with the width of its
//! words: 32, 64 or 128 bits. Functions whose name starts with `lane_` work on
//! one lane; those whose name starts with `vec_` apply the same to every lane
//! of a vector. Every backend has to compute exactly these functions.
use crate::lane::{byte, bytes, from_bytes, from_words32, from_words64, words32, words64};
use vstd::prelude::*;

verus! {

/// Whether `bits` is one of the three word widths.
pub open spec fn is_word_width(bits: nat) -> bool {
    bits == 32 || bits == 64 || bits == 128
}

/// Sum of two 32-bit words, wrapping round at 2^32.
pub open spec fn add32(x: u32, y: u32) -> u32 {
    ((x + y) % 0x1_0000_0000) as u32
}

/// Sum of two 64-bit words, wrapping round at 2^64.
pub open spec fn add64(x: u64, y: u64) -> u64 {
    ((x + y) % 0x1_0000_0000_0000_0000) as u64
}

/// Sum of two 128-bit words, wrapping round at 2^128.
pub open spec fn add128(x: u128, y: u128) -> u128 {
    ((x + y) % 0x1_0000_0000_0000_0000_0000_0000_0000_0000int) as u128
}

/// A 32-bit word rotated right by `n` bits; `n` counts modulo 32.
pub open spec fn rotr32(w: u32, n: u32) -> u32 {
    (w >> (n % 32)) | (w << ((32 - n % 32) as u32))
}

/// A 64-bit word rotated right by `n` bits; `n` counts modulo 64.
pub open spec fn rotr64(w: u64, n: u32) -> u64 {
    (w >> ((n % 64) as u64)) | (w << ((64 - n % 64) as u64))
}

/// A 128-bit word rotated right by `n` bits; `n` counts modulo 128.
pub open spec fn rotr128(w: u128, n: u32) -> u128 {
    (w >> ((n % 128) as u128)) | (w << ((128 - n % 128) as u128))
}

/// Word-wise sum of two lanes of `bits`-bit words, each word wrapping round.
pub open spec fn lane_add(bits: nat, a: u128, b: u128) -> u128 {
    if bits == 32 {
        from_words32(Seq::new(4, |i: int| add32(words32(a)[i], words32(b)[i])))
    } else if bits == 64 {
        from_words64(Seq::new(2, |i: int| add64(words64(a)[i], words64(b)[i])))
    } else {
        add128(a, b)
    }
}

/// A lane with each of its `bits`-bit words rotated right by `n` bits.
pub open spec fn lane_rotr(bits: nat, l: u128, n: u32) -> u128 {
    if bits == 32 {
        from_words32(Seq::new(4, |i: int| rotr32(words32(l)[i], n)))
    } else if bits == 64 {
        from_words64(Seq::new(2, |i: int| rotr64(words64(l)[i], n)))
    } else {
        rotr128(l, n)
    }
}

/// A byte sequence with the bytes of each group of `width` bytes in reverse
/// order; the groups stay where they are.
pub open spec fn reverse_each_word(width: int, s: Seq<u8>) -> Seq<u8> {
    Seq::new(s.len(), |i: int| s[i - i % width + (width - 1 - i % width)])
}

/// A lane with the bytes of each of its `bits`-bit words in reverse order.
pub open spec fn lane_swap_bytes(bits: nat, l: u128) -> u128 {
    from_bytes(reverse_each_word(bits as int / 8, bytes(l)))
}

/// A sequence turned round by `k` places: the item at place `i` moves to
/// place `i + k`, and those that fall off the end come back at the start.
#[verifier::opaque]
pub open spec fn rotate_places<T>(w: Seq<T>, k: int) -> Seq<T> {
    Seq::new(w.len(), |i: int| w[(i + w.len() - k) % (w.len() as int)])
}

/// A lane with its four 32-bit words turned round by `k` places.
pub open spec fn lane_shuffle32(l: u128, k: int) -> u128 {
    from_words32(rotate_places(words32(l), k))
}

/// The bits of a lane that lie in the upper half of a group of `2n` bits, for
/// `n` a power of two up to 64.
pub open spec fn upper_halves(n: u32) -> u128 {
    if n == 1 {
        0xaaaa_aaaa_aaaa_aaaa_aaaa_aaaa_aaaa_aaaa
    } else if n == 2 {
        0xcccc_cccc_cccc_cccc_cccc_cccc_cccc_cccc
    } else if n == 4 {
        0xf0f0_f0f0_f0f0_f0f0_f0f0_f0f0_f0f0_f0f0
    } else if n == 8 {
        0xff00_ff00_ff00_ff00_ff00_ff00_ff00_ff00
    } else if n == 16 {
        0xffff_0000_ffff_0000_ffff_0000_ffff_0000
    } else if n == 32 {
        0xffff_ffff_0000_0000_ffff_ffff_0000_0000
    } else {
        0xffff_ffff_ffff_ffff_0000_0000_0000_0000
    }
}

/// A lane with each two neighbouring ranges of `n` bits exchanged, for `n` a
/// power of two up to 64: bit `p` of the result is bit `p ^ n` of `l`.
pub open spec fn lane_swap_ranges(l: u128, n: u32) -> u128 {
    ((l & upper_halves(n)) >> (n as u128)) | ((l << (n as u128)) & upper_halves(n))
}

/// Bit `p` of a lane or of a 128-bit word.
pub open spec fn bit(l: u128, p: u32) -> bool {
    (l >> (p as u128)) & 1 == 1
}

/// Bit `p` of a 32-bit word.
pub open spec fn bit32(w: u32, p: u32) -> bool {
    (w >> p) & 1 == 1
}

/// Bit `p` of a 64-bit word.
pub open spec fn bit64(w: u64, p: u32) -> bool {
    (w >> (p as u64)) & 1 == 1
}

/// Lane by lane, the bitwise AND of two vectors.
pub open spec fn vec_and(a: Seq<u128>, b: Seq<u128>) -> Seq<u128> {
    Seq::new(a.len(), |i: int| a[i] & b[i])
}

/// Lane by lane, the bitwise OR of two vectors.
pub open spec fn vec_or(a: Seq<u128>, b: Seq<u128>) -> Seq<u128> {
    Seq::new(a.len(), |i: int| a[i] | b[i])
}

/// Lane by lane, the bitwise XOR of two vectors.
pub open spec fn vec_xor(a: Seq<u128>, b: Seq<u128>) -> Seq<u128> {
    Seq::new(a.len(), |i: int| a[i] ^ b[i])
}

/// Lane by lane, the bitwise complement of a vector.
pub open spec fn vec_not(a: Seq<u128>) -> Seq<u128> {
    Seq::new(a.len(), |i: int| !a[i])
}

/// Lane by lane, the bits of `a` that are not set in `b`.
pub open spec fn vec_andnot(a: Seq<u128>, b: Seq<u128>) -> Seq<u128> {
    Seq::new(a.len(), |i: int| a[i] & !b[i])
}

/// Word-wise wrapping sum of two vectors of `bits`-bit words.
pub open spec fn vec_add(bits: nat, a: Seq<u128>, b: Seq<u128>) -> Seq<u128> {
    Seq::new(a.len(), |i: int| lane_add(bits, a[i], b[i]))
}

/// A vector with each of its `bits`-bit words rotated right by `n` bits.
pub open spec fn vec_rotr(bits: nat, a: Seq<u128>, n: u32) -> Seq<u128> {
    Seq::new(a.len(), |i: int| lane_rotr(bits, a[i], n))
}

/// A vector with the bytes of each of its `bits`-bit words in reverse order.
pub open spec fn vec_swap_bytes(bits: nat, a: Seq<u128>) -> Seq<u128> {
    Seq::new(a.len(), |i: int| lane_swap_bytes(bits, a[i]))
}

/// A vector with the four 32-bit words of each lane turned round by `k`
/// places within that lane.
pub open spec fn vec_shuffle_lane_words(a: Seq<u128>, k: int) -> Seq<u128> {
    Seq::new(a.len(), |i: int| lane_shuffle32(a[i], k))
}

/// A vector of four words turned round by `k` places. With 32-bit words the
/// four words are one lane; with 64-bit words they are two lanes, and words
/// cross from one lane to the other.
pub open spec fn vec_shuffle_words4(bits: nat, a: Seq<u128>, k: int) -> Seq<u128> {
    if bits == 64 {
        let w = rotate_places(words64(a[0]) + words64(a[1]), k);
        seq![from_words64(w.subrange(0, 2)), from_words64(w.subrange(2, 4))]
    } else {
        seq![lane_shuffle32(a[0], k)]
    }
}

/// A vector with each two neighbouring ranges of `n` bits exchanged.
pub open spec fn vec_swap_ranges(a: Seq<u128>, n: u32) -> Seq<u128> {
    Seq::new(a.len(), |i: int| lane_swap_ranges(a[i], n))
}

/// The little-endian bytes of a vector: sixteen for each lane, lane 0 first.
pub open spec fn vec_le_bytes(a: Seq<u128>) -> Seq<u8> {
    Seq::new(16 * a.len(), |i: int| byte(a[i / 16], i % 16))
}

/// The vector whose little-endian bytes are `b`.
pub open spec fn vec_from_le_bytes(b: Seq<u8>) -> Seq<u128> {
    Seq::new(b.len() / 16, |i: int| from_bytes(b.subrange(16 * i, 16 * i + 16)))
}

/// The big-endian bytes of a vector of `bits`-bit words: the words stay in
/// their order, and the bytes of each word are written most significant first.
pub open spec fn vec_be_bytes(bits: nat, a: Seq<u128>) -> Seq<u8> {
    reverse_each_word(bits as int / 8, vec_le_bytes(a))
}

/// The vector of `bits`-bit words whose big-endian bytes are `b`.
pub open spec fn vec_from_be_bytes(bits: nat, b: Seq<u8>) -> Seq<u128> {
    vec_from_le_bytes(reverse_each_word(bits as int / 8, b))
}

} // verus!
