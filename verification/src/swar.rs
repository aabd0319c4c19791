//! The operations of the algebra computed on one 128-bit lane with ordinary
//! integer arithmetic: the building blocks of the portable backend.
use crate::algebra::{
    add32, add64, lane_add, lane_rotr, lane_shuffle32, lane_swap_bytes, lane_swap_ranges,
    rotate_places, rotr32, rotr64, upper_halves,
};
use crate::lane::{bytes, from_bytes, from_words32, from_words64, words32, words64};
use crate::laws::{
    lemma_rotr128, lemma_rotr32, lemma_rotr64, lemma_swap_bytes_by_ranges32,
    lemma_swap_bytes_by_ranges64,
};
use vstd::prelude::*;

verus! {

/// Reads the four 32-bit words of a lane.
pub fn split32(l: u128) -> (w: [u32; 4])
    ensures
        w@ == words32(l),
{
    let w: [u32; 4] = [
        #[verifier::truncate]
        (l as u32),
        #[verifier::truncate]
        ((l >> 32) as u32),
        #[verifier::truncate]
        ((l >> 64) as u32),
        #[verifier::truncate]
        ((l >> 96) as u32),
    ];
    assert(w@ =~= words32(l));
    w
}

/// Builds a lane from its four 32-bit words.
pub fn join32(w: [u32; 4]) -> (l: u128)
    ensures
        l == from_words32(w@),
{
    (w[0] as u128) | ((w[1] as u128) << 32) | ((w[2] as u128) << 64) | ((w[3] as u128) << 96)
}

/// Reads the two 64-bit words of a lane.
pub fn split64(l: u128) -> (w: [u64; 2])
    ensures
        w@ == words64(l),
{
    let w: [u64; 2] = [
        #[verifier::truncate]
        (l as u64),
        #[verifier::truncate]
        ((l >> 64) as u64),
    ];
    assert(w@ =~= words64(l));
    w
}

/// Builds a lane from its two 64-bit words.
pub fn join64(w: [u64; 2]) -> (l: u128)
    ensures
        l == from_words64(w@),
{
    (w[0] as u128) | ((w[1] as u128) << 64)
}

/// Reads the sixteen bytes of a lane.
pub fn to_bytes(l: u128) -> (b: [u8; 16])
    ensures
        b@ == bytes(l),
{
    let b: [u8; 16] = [
        #[verifier::truncate]
        (l as u8),
        #[verifier::truncate]
        ((l >> 8) as u8),
        #[verifier::truncate]
        ((l >> 16) as u8),
        #[verifier::truncate]
        ((l >> 24) as u8),
        #[verifier::truncate]
        ((l >> 32) as u8),
        #[verifier::truncate]
        ((l >> 40) as u8),
        #[verifier::truncate]
        ((l >> 48) as u8),
        #[verifier::truncate]
        ((l >> 56) as u8),
        #[verifier::truncate]
        ((l >> 64) as u8),
        #[verifier::truncate]
        ((l >> 72) as u8),
        #[verifier::truncate]
        ((l >> 80) as u8),
        #[verifier::truncate]
        ((l >> 88) as u8),
        #[verifier::truncate]
        ((l >> 96) as u8),
        #[verifier::truncate]
        ((l >> 104) as u8),
        #[verifier::truncate]
        ((l >> 112) as u8),
        #[verifier::truncate]
        ((l >> 120) as u8)
    ];
    assert((l >> 0) as u8 == l as u8) by (bit_vector);
    assert(b@ =~= bytes(l));
    b
}

/// Builds a lane from the sixteen bytes of `b` that start at `at`.
pub fn from_bytes_at(b: &[u8], at: usize) -> (l: u128)
    requires
        at + 16 <= b@.len(),
    ensures
        l == from_bytes(b@.subrange(at as int, at + 16)),
{
    let ghost s = b@.subrange(at as int, at + 16);
    proof {
        assert forall|k: int| 0 <= k < 16 implies s[k] == b@[at + k] by {}
    }
    (b[at] as u128) | ((b[at + 1] as u128) << 8) | ((b[at + 2] as u128) << 16) | ((b[at + 3] as u128) << 24) | ((b[at + 4] as u128) << 32) | ((b[at + 5] as u128) << 40) | ((b[at + 6] as u128) << 48) | ((b[at + 7] as u128) << 56) | ((b[at + 8] as u128) << 64) | ((b[at + 9] as u128) << 72) | ((b[at + 10] as u128) << 80) | ((b[at + 11] as u128) << 88) | ((b[at + 12] as u128) << 96) | ((b[at + 13] as u128) << 104) | ((b[at + 14] as u128) << 112) | ((b[at + 15] as u128) << 120)
}

/// Writes the sixteen bytes of a lane into `out`, starting at `at`, and leaves
/// the other bytes of `out` as they were.
pub fn put_bytes_at(l: u128, out: &mut [u8], at: usize)
    requires
        at + 16 <= old(out)@.len(),
    ensures
        final(out)@.len() == old(out)@.len(),
        final(out)@.subrange(at as int, at + 16) == bytes(l),
        forall|i: int|
            0 <= i < old(out)@.len() && !(at <= i < at + 16) ==> final(out)@[i] == old(out)@[i],
{
    let b = to_bytes(l);
    let n: usize = out.len();
    let mut k: usize = 0;
    while k < 16
        invariant
            k <= 16,
            at + 16 <= out@.len(),
            out@.len() == n,
            out@.len() == old(out)@.len(),
            b@ == bytes(l),
            forall|j: int| 0 <= j < k ==> out@[at + j] == b@[j],
            forall|i: int|
                0 <= i < out@.len() && !(at <= i < at + 16) ==> out@[i] == old(out)@[i],
        decreases 16 - k,
    {
        out[at + k] = b[k];
        k += 1;
    }
    assert(out@.subrange(at as int, at + 16) =~= bytes(l));
}

/// Word-wise wrapping sum of two lanes of 32-bit words.
pub fn add_words32(a: u128, b: u128) -> (r: u128)
    ensures
        r == lane_add(32, a, b),
{
    let x = split32(a);
    let y = split32(b);
    let z: [u32; 4] = [
        x[0].wrapping_add(y[0]),
        x[1].wrapping_add(y[1]),
        x[2].wrapping_add(y[2]),
        x[3].wrapping_add(y[3]),
    ];
    assert(z@ =~= Seq::new(4, |i: int| add32(words32(a)[i], words32(b)[i])));
    join32(z)
}

/// Word-wise wrapping sum of two lanes of 64-bit words.
pub fn add_words64(a: u128, b: u128) -> (r: u128)
    ensures
        r == lane_add(64, a, b),
{
    let x = split64(a);
    let y = split64(b);
    let z: [u64; 2] = [x[0].wrapping_add(y[0]), x[1].wrapping_add(y[1])];
    assert(z@ =~= Seq::new(2, |i: int| add64(words64(a)[i], words64(b)[i])));
    join64(z)
}

/// A 32-bit word rotated right by `n` bits; `n` counts modulo 32.
pub fn rotate32(w: u32, n: u32) -> (r: u32)
    ensures
        r == rotr32(w, n),
{
    let k: u32 = n % 32;
    if k == 0 {
        proof {
            lemma_rotr32(w, 0, 0);
        }
        w
    } else {
        (w >> k) | (w << (32 - k))
    }
}

/// A 64-bit word rotated right by `n` bits; `n` counts modulo 64.
pub fn rotate64(w: u64, n: u32) -> (r: u64)
    ensures
        r == rotr64(w, n),
{
    let k: u32 = n % 64;
    if k == 0 {
        proof {
            lemma_rotr64(w, 0, 0);
        }
        w
    } else {
        (w >> k) | (w << (64 - k))
    }
}

/// A lane with each of its 32-bit words rotated right by `n` bits; `n` counts
/// modulo 32.
pub fn rotate_words32(l: u128, n: u32) -> (r: u128)
    ensures
        r == lane_rotr(32, l, n),
{
    let x = split32(l);
    let z: [u32; 4] = [rotate32(x[0], n), rotate32(x[1], n), rotate32(x[2], n), rotate32(x[3], n)];
    assert(z@ =~= Seq::new(4, |i: int| rotr32(words32(l)[i], n)));
    join32(z)
}

/// A lane with each of its 64-bit words rotated right by `n` bits; `n` counts
/// modulo 64.
pub fn rotate_words64(l: u128, n: u32) -> (r: u128)
    ensures
        r == lane_rotr(64, l, n),
{
    let x = split64(l);
    let z: [u64; 2] = [rotate64(x[0], n), rotate64(x[1], n)];
    assert(z@ =~= Seq::new(2, |i: int| rotr64(words64(l)[i], n)));
    join64(z)
}

/// A lane that is one 128-bit word, rotated right by `n` bits; `n` counts
/// modulo 128.
pub fn rotate_words128(l: u128, n: u32) -> (r: u128)
    ensures
        r == lane_rotr(128, l, n),
{
    let k: u32 = n % 128;
    if k == 0 {
        proof {
            lemma_rotr128(l, 0, 0);
        }
        l
    } else {
        (l >> k) | (l << (128 - k))
    }
}

/// The mask of the upper half of every group of `2n` bits.
pub fn upper_halves_mask(n: u32) -> (m: u128)
    ensures
        m == upper_halves(n),
{
    if n == 1 {
        0xaaaa_aaaa_aaaa_aaaa_aaaa_aaaa_aaaa_aaaa
    } else if n == 2 {
        0xcccc_cccc_cccc_cccc_cccc_cccc_cccc_cccc
    } else if n == 4 {
        0xf0f0_f0f0_f0f0_f0f0_f0f0_f0f0_f0f0_f0f0
    } else if n == 8 {
        0xff00_ff00_ff00_ff00_ff00_ff00_ff00_ff00
    } else if n == 16 {
        0xffff_0000_ffff_0000_ffff_0000_ffff_0000
    } else if n == 32 {
        0xffff_ffff_0000_0000_ffff_ffff_0000_0000
    } else {
        0xffff_ffff_ffff_ffff_0000_0000_0000_0000
    }
}

/// A lane with each two neighbouring ranges of `n` bits exchanged.
pub fn swap_ranges(l: u128, n: u32) -> (r: u128)
    requires
        n == 1 || n == 2 || n == 4 || n == 8 || n == 16 || n == 32 || n == 64,
    ensures
        r == lane_swap_ranges(l, n),
{
    let m = upper_halves_mask(n);
    ((l & m) >> n) | ((l << n) & m)
}

/// A lane with its four 32-bit words turned round by `k` places.
pub fn shuffle32(l: u128, k: usize) -> (r: u128)
    requires
        k < 4,
    ensures
        r == lane_shuffle32(l, k as int),
{
    let x = split32(l);
    let z: [u32; 4] = [x[(4 - k) % 4], x[(5 - k) % 4], x[(6 - k) % 4], x[(7 - k) % 4]];
    assert(z@ =~= rotate_places(words32(l), k as int)) by {
        reveal(rotate_places);
    }
    join32(z)
}

/// A lane with the bytes of each of its 32-bit words in reverse order.
pub fn swap_bytes32(l: u128) -> (r: u128)
    ensures
        r == lane_swap_bytes(32, l),
{
    proof {
        lemma_swap_bytes_by_ranges32(l);
    }
    swap_ranges(swap_ranges(l, 8), 16)
}

/// A lane with the bytes of each of its 64-bit words in reverse order.
pub fn swap_bytes64(l: u128) -> (r: u128)
    ensures
        r == lane_swap_bytes(64, l),
{
    proof {
        lemma_swap_bytes_by_ranges64(l);
    }
    swap_ranges(swap_ranges(swap_ranges(l, 8), 16), 32)
}

} // verus!
