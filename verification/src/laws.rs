//! Laws of the vector algebra: what holds of the operations whatever the
//! backend, proved from their definitions on bit patterns.
use crate::algebra::{
    bit, bit32, bit64, is_word_width, lane_rotr, lane_shuffle32, lane_swap_bytes, lane_swap_ranges,
    reverse_each_word, rotate_places, rotr128, rotr32, rotr64, vec_be_bytes, vec_from_be_bytes,
    vec_from_le_bytes, vec_le_bytes, vec_rotr, vec_shuffle_lane_words, vec_shuffle_words4,
    vec_swap_bytes, vec_swap_ranges,
};
use crate::lane::{
    byte, bytes, from_bytes, lemma_bytes_of_from_bytes, lemma_from_bytes_of_bytes,
    lemma_from_words32_of_words32, lemma_from_words64_of_words64, lemma_words32_of_from_words32,
    lemma_words64_of_from_words64, words32, words64,
};
use vstd::prelude::*;

verus! {

/// Adding `b` and then `a` to a place, each time modulo `m`, is adding
/// `a + b` modulo `m`.
proof fn lemma_places_add_up(p: int, a: int, b: int, m: int)
    requires
        m > 0,
        0 <= p,
        0 <= a,
        0 <= b,
    ensures
        ((p + b % m) % m + a % m) % m == (p + ((a + b) % m) % m) % m,
{
    vstd::arithmetic::div_mod::lemma_add_mod_noop(p + b % m, a, m);
    vstd::arithmetic::div_mod::lemma_add_mod_noop_right(p + a, b, m);
    assert((p + b % m) + a == (p + a) + b % m);
    vstd::arithmetic::div_mod::lemma_mod_twice(a + b, m);
    vstd::arithmetic::div_mod::lemma_add_mod_noop_right(p, a + b, m);
    assert((p + a) + b == p + (a + b));
}

/// Two 32-bit words with the same bits are the same word.
pub proof fn lemma_bits_determine32(x: u32, y: u32)
    requires
        forall|p: u32| p < 32 ==> #[trigger] bit32(x, p) == bit32(y, p),
    ensures
        x == y,
{
    assert(x == y) by (bit_vector)
        requires
            bit32(x, 0) == bit32(y, 0),
            bit32(x, 1) == bit32(y, 1),
            bit32(x, 2) == bit32(y, 2),
            bit32(x, 3) == bit32(y, 3),
            bit32(x, 4) == bit32(y, 4),
            bit32(x, 5) == bit32(y, 5),
            bit32(x, 6) == bit32(y, 6),
            bit32(x, 7) == bit32(y, 7),
            bit32(x, 8) == bit32(y, 8),
            bit32(x, 9) == bit32(y, 9),
            bit32(x, 10) == bit32(y, 10),
            bit32(x, 11) == bit32(y, 11),
            bit32(x, 12) == bit32(y, 12),
            bit32(x, 13) == bit32(y, 13),
            bit32(x, 14) == bit32(y, 14),
            bit32(x, 15) == bit32(y, 15),
            bit32(x, 16) == bit32(y, 16),
            bit32(x, 17) == bit32(y, 17),
            bit32(x, 18) == bit32(y, 18),
            bit32(x, 19) == bit32(y, 19),
            bit32(x, 20) == bit32(y, 20),
            bit32(x, 21) == bit32(y, 21),
            bit32(x, 22) == bit32(y, 22),
            bit32(x, 23) == bit32(y, 23),
            bit32(x, 24) == bit32(y, 24),
            bit32(x, 25) == bit32(y, 25),
            bit32(x, 26) == bit32(y, 26),
            bit32(x, 27) == bit32(y, 27),
            bit32(x, 28) == bit32(y, 28),
            bit32(x, 29) == bit32(y, 29),
            bit32(x, 30) == bit32(y, 30),
            bit32(x, 31) == bit32(y, 31),
    ;
}

/// Bit `p` of a 32-bit word rotated right by `n` is bit `p + n` of the word,
/// counted modulo 32.
pub proof fn lemma_rotr32_bit(w: u32, n: u32, p: u32)
    requires
        p < 32,
    ensures
        bit32(rotr32(w, n), p) == bit32(w, ((p + n % 32) % 32) as u32),
{
    assert(bit32(rotr32(w, n), p) == bit32(w, ((p + n % 32) % 32) as u32)) by (bit_vector)
        requires
            p < 32,
    ;
}

/// Rotating a 32-bit word right by `a` and then by `b` is rotating it right
/// by `a + b`, counted modulo 32; rotating it by 0 or by 32 changes nothing.
pub proof fn lemma_rotr32(w: u32, a: u32, b: u32)
    ensures
        rotr32(rotr32(w, a), b) == rotr32(w, ((a + b) % 32) as u32),
        rotr32(w, 0) == w,
        rotr32(w, 32) == w,
{
    let c = ((a + b) % 32) as u32;
    let x = rotr32(rotr32(w, a), b);
    let y = rotr32(w, c);
    assert forall|p: u32| p < 32 implies #[trigger] bit32(x, p) == bit32(y, p) by {
        let q = ((p + b % 32) % 32) as u32;
        lemma_rotr32_bit(rotr32(w, a), b, p);
        lemma_rotr32_bit(w, a, q);
        lemma_rotr32_bit(w, c, p);
        lemma_places_add_up(p as int, a as int, b as int, 32);
    }
    lemma_bits_determine32(x, y);
    assert forall|p: u32| p < 32 implies #[trigger] bit32(rotr32(w, 0), p) == bit32(w, p) by {
        lemma_rotr32_bit(w, 0, p);
    }
    lemma_bits_determine32(rotr32(w, 0), w);
    assert forall|p: u32| p < 32 implies #[trigger] bit32(rotr32(w, 32), p) == bit32(w, p) by {
        lemma_rotr32_bit(w, 32, p);
    }
    lemma_bits_determine32(rotr32(w, 32), w);
}

/// Two 64-bit words with the same bits are the same word.
pub proof fn lemma_bits_determine64(x: u64, y: u64)
    requires
        forall|p: u32| p < 64 ==> #[trigger] bit64(x, p) == bit64(y, p),
    ensures
        x == y,
{
    assert(x == y) by (bit_vector)
        requires
            bit64(x, 0) == bit64(y, 0),
            bit64(x, 1) == bit64(y, 1),
            bit64(x, 2) == bit64(y, 2),
            bit64(x, 3) == bit64(y, 3),
            bit64(x, 4) == bit64(y, 4),
            bit64(x, 5) == bit64(y, 5),
            bit64(x, 6) == bit64(y, 6),
            bit64(x, 7) == bit64(y, 7),
            bit64(x, 8) == bit64(y, 8),
            bit64(x, 9) == bit64(y, 9),
            bit64(x, 10) == bit64(y, 10),
            bit64(x, 11) == bit64(y, 11),
            bit64(x, 12) == bit64(y, 12),
            bit64(x, 13) == bit64(y, 13),
            bit64(x, 14) == bit64(y, 14),
            bit64(x, 15) == bit64(y, 15),
            bit64(x, 16) == bit64(y, 16),
            bit64(x, 17) == bit64(y, 17),
            bit64(x, 18) == bit64(y, 18),
            bit64(x, 19) == bit64(y, 19),
            bit64(x, 20) == bit64(y, 20),
            bit64(x, 21) == bit64(y, 21),
            bit64(x, 22) == bit64(y, 22),
            bit64(x, 23) == bit64(y, 23),
            bit64(x, 24) == bit64(y, 24),
            bit64(x, 25) == bit64(y, 25),
            bit64(x, 26) == bit64(y, 26),
            bit64(x, 27) == bit64(y, 27),
            bit64(x, 28) == bit64(y, 28),
            bit64(x, 29) == bit64(y, 29),
            bit64(x, 30) == bit64(y, 30),
            bit64(x, 31) == bit64(y, 31),
            bit64(x, 32) == bit64(y, 32),
            bit64(x, 33) == bit64(y, 33),
            bit64(x, 34) == bit64(y, 34),
            bit64(x, 35) == bit64(y, 35),
            bit64(x, 36) == bit64(y, 36),
            bit64(x, 37) == bit64(y, 37),
            bit64(x, 38) == bit64(y, 38),
            bit64(x, 39) == bit64(y, 39),
            bit64(x, 40) == bit64(y, 40),
            bit64(x, 41) == bit64(y, 41),
            bit64(x, 42) == bit64(y, 42),
            bit64(x, 43) == bit64(y, 43),
            bit64(x, 44) == bit64(y, 44),
            bit64(x, 45) == bit64(y, 45),
            bit64(x, 46) == bit64(y, 46),
            bit64(x, 47) == bit64(y, 47),
            bit64(x, 48) == bit64(y, 48),
            bit64(x, 49) == bit64(y, 49),
            bit64(x, 50) == bit64(y, 50),
            bit64(x, 51) == bit64(y, 51),
            bit64(x, 52) == bit64(y, 52),
            bit64(x, 53) == bit64(y, 53),
            bit64(x, 54) == bit64(y, 54),
            bit64(x, 55) == bit64(y, 55),
            bit64(x, 56) == bit64(y, 56),
            bit64(x, 57) == bit64(y, 57),
            bit64(x, 58) == bit64(y, 58),
            bit64(x, 59) == bit64(y, 59),
            bit64(x, 60) == bit64(y, 60),
            bit64(x, 61) == bit64(y, 61),
            bit64(x, 62) == bit64(y, 62),
            bit64(x, 63) == bit64(y, 63),
    ;
}

/// Bit `p` of a 64-bit word rotated right by `n` is bit `p + n` of the word,
/// counted modulo 64.
pub proof fn lemma_rotr64_bit(w: u64, n: u32, p: u32)
    requires
        p < 64,
    ensures
        bit64(rotr64(w, n), p) == bit64(w, ((p + n % 64) % 64) as u32),
{
    assert(bit64(rotr64(w, n), p) == bit64(w, ((p + n % 64) % 64) as u32)) by (bit_vector)
        requires
            p < 64,
    ;
}

/// Rotating a 64-bit word right by `a` and then by `b` is rotating it right
/// by `a + b`, counted modulo 64; rotating it by 0 or by 64 changes nothing.
pub proof fn lemma_rotr64(w: u64, a: u32, b: u32)
    ensures
        rotr64(rotr64(w, a), b) == rotr64(w, ((a + b) % 64) as u32),
        rotr64(w, 0) == w,
        rotr64(w, 64) == w,
{
    let c = ((a + b) % 64) as u32;
    let x = rotr64(rotr64(w, a), b);
    let y = rotr64(w, c);
    assert forall|p: u32| p < 64 implies #[trigger] bit64(x, p) == bit64(y, p) by {
        let q = ((p + b % 64) % 64) as u32;
        lemma_rotr64_bit(rotr64(w, a), b, p);
        lemma_rotr64_bit(w, a, q);
        lemma_rotr64_bit(w, c, p);
        lemma_places_add_up(p as int, a as int, b as int, 64);
    }
    lemma_bits_determine64(x, y);
    assert forall|p: u32| p < 64 implies #[trigger] bit64(rotr64(w, 0), p) == bit64(w, p) by {
        lemma_rotr64_bit(w, 0, p);
    }
    lemma_bits_determine64(rotr64(w, 0), w);
    assert forall|p: u32| p < 64 implies #[trigger] bit64(rotr64(w, 64), p) == bit64(w, p) by {
        lemma_rotr64_bit(w, 64, p);
    }
    lemma_bits_determine64(rotr64(w, 64), w);
}

/// Two 128-bit words with the same bits are the same word.
pub proof fn lemma_bits_determine128(x: u128, y: u128)
    requires
        forall|p: u32| p < 128 ==> #[trigger] bit(x, p) == bit(y, p),
    ensures
        x == y,
{
    assert(x == y) by (bit_vector)
        requires
            bit(x, 0) == bit(y, 0),
            bit(x, 1) == bit(y, 1),
            bit(x, 2) == bit(y, 2),
            bit(x, 3) == bit(y, 3),
            bit(x, 4) == bit(y, 4),
            bit(x, 5) == bit(y, 5),
            bit(x, 6) == bit(y, 6),
            bit(x, 7) == bit(y, 7),
            bit(x, 8) == bit(y, 8),
            bit(x, 9) == bit(y, 9),
            bit(x, 10) == bit(y, 10),
            bit(x, 11) == bit(y, 11),
            bit(x, 12) == bit(y, 12),
            bit(x, 13) == bit(y, 13),
            bit(x, 14) == bit(y, 14),
            bit(x, 15) == bit(y, 15),
            bit(x, 16) == bit(y, 16),
            bit(x, 17) == bit(y, 17),
            bit(x, 18) == bit(y, 18),
            bit(x, 19) == bit(y, 19),
            bit(x, 20) == bit(y, 20),
            bit(x, 21) == bit(y, 21),
            bit(x, 22) == bit(y, 22),
            bit(x, 23) == bit(y, 23),
            bit(x, 24) == bit(y, 24),
            bit(x, 25) == bit(y, 25),
            bit(x, 26) == bit(y, 26),
            bit(x, 27) == bit(y, 27),
            bit(x, 28) == bit(y, 28),
            bit(x, 29) == bit(y, 29),
            bit(x, 30) == bit(y, 30),
            bit(x, 31) == bit(y, 31),
            bit(x, 32) == bit(y, 32),
            bit(x, 33) == bit(y, 33),
            bit(x, 34) == bit(y, 34),
            bit(x, 35) == bit(y, 35),
            bit(x, 36) == bit(y, 36),
            bit(x, 37) == bit(y, 37),
            bit(x, 38) == bit(y, 38),
            bit(x, 39) == bit(y, 39),
            bit(x, 40) == bit(y, 40),
            bit(x, 41) == bit(y, 41),
            bit(x, 42) == bit(y, 42),
            bit(x, 43) == bit(y, 43),
            bit(x, 44) == bit(y, 44),
            bit(x, 45) == bit(y, 45),
            bit(x, 46) == bit(y, 46),
            bit(x, 47) == bit(y, 47),
            bit(x, 48) == bit(y, 48),
            bit(x, 49) == bit(y, 49),
            bit(x, 50) == bit(y, 50),
            bit(x, 51) == bit(y, 51),
            bit(x, 52) == bit(y, 52),
            bit(x, 53) == bit(y, 53),
            bit(x, 54) == bit(y, 54),
            bit(x, 55) == bit(y, 55),
            bit(x, 56) == bit(y, 56),
            bit(x, 57) == bit(y, 57),
            bit(x, 58) == bit(y, 58),
            bit(x, 59) == bit(y, 59),
            bit(x, 60) == bit(y, 60),
            bit(x, 61) == bit(y, 61),
            bit(x, 62) == bit(y, 62),
            bit(x, 63) == bit(y, 63),
            bit(x, 64) == bit(y, 64),
            bit(x, 65) == bit(y, 65),
            bit(x, 66) == bit(y, 66),
            bit(x, 67) == bit(y, 67),
            bit(x, 68) == bit(y, 68),
            bit(x, 69) == bit(y, 69),
            bit(x, 70) == bit(y, 70),
            bit(x, 71) == bit(y, 71),
            bit(x, 72) == bit(y, 72),
            bit(x, 73) == bit(y, 73),
            bit(x, 74) == bit(y, 74),
            bit(x, 75) == bit(y, 75),
            bit(x, 76) == bit(y, 76),
            bit(x, 77) == bit(y, 77),
            bit(x, 78) == bit(y, 78),
            bit(x, 79) == bit(y, 79),
            bit(x, 80) == bit(y, 80),
            bit(x, 81) == bit(y, 81),
            bit(x, 82) == bit(y, 82),
            bit(x, 83) == bit(y, 83),
            bit(x, 84) == bit(y, 84),
            bit(x, 85) == bit(y, 85),
            bit(x, 86) == bit(y, 86),
            bit(x, 87) == bit(y, 87),
            bit(x, 88) == bit(y, 88),
            bit(x, 89) == bit(y, 89),
            bit(x, 90) == bit(y, 90),
            bit(x, 91) == bit(y, 91),
            bit(x, 92) == bit(y, 92),
            bit(x, 93) == bit(y, 93),
            bit(x, 94) == bit(y, 94),
            bit(x, 95) == bit(y, 95),
            bit(x, 96) == bit(y, 96),
            bit(x, 97) == bit(y, 97),
            bit(x, 98) == bit(y, 98),
            bit(x, 99) == bit(y, 99),
            bit(x, 100) == bit(y, 100),
            bit(x, 101) == bit(y, 101),
            bit(x, 102) == bit(y, 102),
            bit(x, 103) == bit(y, 103),
            bit(x, 104) == bit(y, 104),
            bit(x, 105) == bit(y, 105),
            bit(x, 106) == bit(y, 106),
            bit(x, 107) == bit(y, 107),
            bit(x, 108) == bit(y, 108),
            bit(x, 109) == bit(y, 109),
            bit(x, 110) == bit(y, 110),
            bit(x, 111) == bit(y, 111),
            bit(x, 112) == bit(y, 112),
            bit(x, 113) == bit(y, 113),
            bit(x, 114) == bit(y, 114),
            bit(x, 115) == bit(y, 115),
            bit(x, 116) == bit(y, 116),
            bit(x, 117) == bit(y, 117),
            bit(x, 118) == bit(y, 118),
            bit(x, 119) == bit(y, 119),
            bit(x, 120) == bit(y, 120),
            bit(x, 121) == bit(y, 121),
            bit(x, 122) == bit(y, 122),
            bit(x, 123) == bit(y, 123),
            bit(x, 124) == bit(y, 124),
            bit(x, 125) == bit(y, 125),
            bit(x, 126) == bit(y, 126),
            bit(x, 127) == bit(y, 127),
    ;
}

/// Bit `p` of a 128-bit word rotated right by `n` is bit `p + n` of the word,
/// counted modulo 128.
pub proof fn lemma_rotr128_bit(w: u128, n: u32, p: u32)
    requires
        p < 128,
    ensures
        bit(rotr128(w, n), p) == bit(w, ((p + n % 128) % 128) as u32),
{
    assert(bit(rotr128(w, n), p) == bit(w, ((p + n % 128) % 128) as u32)) by (bit_vector)
        requires
            p < 128,
    ;
}

/// Rotating a 128-bit word right by `a` and then by `b` is rotating it right
/// by `a + b`, counted modulo 128; rotating it by 0 or by 128 changes nothing.
pub proof fn lemma_rotr128(w: u128, a: u32, b: u32)
    ensures
        rotr128(rotr128(w, a), b) == rotr128(w, ((a + b) % 128) as u32),
        rotr128(w, 0) == w,
        rotr128(w, 128) == w,
{
    let c = ((a + b) % 128) as u32;
    let x = rotr128(rotr128(w, a), b);
    let y = rotr128(w, c);
    assert forall|p: u32| p < 128 implies #[trigger] bit(x, p) == bit(y, p) by {
        let q = ((p + b % 128) % 128) as u32;
        lemma_rotr128_bit(rotr128(w, a), b, p);
        lemma_rotr128_bit(w, a, q);
        lemma_rotr128_bit(w, c, p);
        lemma_places_add_up(p as int, a as int, b as int, 128);
    }
    lemma_bits_determine128(x, y);
    assert forall|p: u32| p < 128 implies #[trigger] bit(rotr128(w, 0), p) == bit(w, p) by {
        lemma_rotr128_bit(w, 0, p);
    }
    lemma_bits_determine128(rotr128(w, 0), w);
    assert forall|p: u32| p < 128 implies #[trigger] bit(rotr128(w, 128), p) == bit(w, p) by {
        lemma_rotr128_bit(w, 128, p);
    }
    lemma_bits_determine128(rotr128(w, 128), w);
}

/// Reversing the bytes of each 32-bit word of a lane is exchanging
/// neighbouring ranges of 8 bits, then of 16 bits, and so on up to half a word.
pub proof fn lemma_swap_bytes_by_ranges32(l: u128)
    ensures
        lane_swap_bytes(32, l) == lane_swap_ranges(lane_swap_ranges(l, 8), 16),
{
    let s = reverse_each_word(4, bytes(l));
    let r = lane_swap_ranges(lane_swap_ranges(l, 8), 16);
    assert(s[0] == byte(l, 3));
    assert(s[1] == byte(l, 2));
    assert(s[2] == byte(l, 1));
    assert(s[3] == byte(l, 0));
    assert(s[4] == byte(l, 7));
    assert(s[5] == byte(l, 6));
    assert(s[6] == byte(l, 5));
    assert(s[7] == byte(l, 4));
    assert(s[8] == byte(l, 11));
    assert(s[9] == byte(l, 10));
    assert(s[10] == byte(l, 9));
    assert(s[11] == byte(l, 8));
    assert(s[12] == byte(l, 15));
    assert(s[13] == byte(l, 14));
    assert(s[14] == byte(l, 13));
    assert(s[15] == byte(l, 12));
    assert((l >> 0) as u8 == l as u8 && r == ((l >> 24) as u8 as u128) | (((l >> 16) as u8 as u128) << 8) | (((l >> 8) as u8 as u128) << 16) | ((l as u8 as u128) << 24) | (((l >> 56) as u8 as u128) << 32) | (((l >> 48) as u8 as u128) << 40) | (((l >> 40) as u8 as u128) << 48) | (((l >> 32) as u8 as u128) << 56) | (((l >> 88) as u8 as u128) << 64) | (((l >> 80) as u8 as u128) << 72) | (((l >> 72) as u8 as u128) << 80) | (((l >> 64) as u8 as u128) << 88) | (((l >> 120) as u8 as u128) << 96) | (((l >> 112) as u8 as u128) << 104) | (((l >> 104) as u8 as u128) << 112) | (((l >> 96) as u8 as u128) << 120)) by (bit_vector)
        requires
            r == lane_swap_ranges(lane_swap_ranges(l, 8), 16),
    ;
}

/// Reversing the bytes of each 64-bit word of a lane is exchanging
/// neighbouring ranges of 8 bits, then of 16 bits, and so on up to half a word.
pub proof fn lemma_swap_bytes_by_ranges64(l: u128)
    ensures
        lane_swap_bytes(64, l) == lane_swap_ranges(lane_swap_ranges(lane_swap_ranges(l, 8), 16), 32),
{
    let s = reverse_each_word(8, bytes(l));
    let r = lane_swap_ranges(lane_swap_ranges(lane_swap_ranges(l, 8), 16), 32);
    assert(s[0] == byte(l, 7));
    assert(s[1] == byte(l, 6));
    assert(s[2] == byte(l, 5));
    assert(s[3] == byte(l, 4));
    assert(s[4] == byte(l, 3));
    assert(s[5] == byte(l, 2));
    assert(s[6] == byte(l, 1));
    assert(s[7] == byte(l, 0));
    assert(s[8] == byte(l, 15));
    assert(s[9] == byte(l, 14));
    assert(s[10] == byte(l, 13));
    assert(s[11] == byte(l, 12));
    assert(s[12] == byte(l, 11));
    assert(s[13] == byte(l, 10));
    assert(s[14] == byte(l, 9));
    assert(s[15] == byte(l, 8));
    assert((l >> 0) as u8 == l as u8 && r == ((l >> 56) as u8 as u128) | (((l >> 48) as u8 as u128) << 8) | (((l >> 40) as u8 as u128) << 16) | (((l >> 32) as u8 as u128) << 24) | (((l >> 24) as u8 as u128) << 32) | (((l >> 16) as u8 as u128) << 40) | (((l >> 8) as u8 as u128) << 48) | ((l as u8 as u128) << 56) | (((l >> 120) as u8 as u128) << 64) | (((l >> 112) as u8 as u128) << 72) | (((l >> 104) as u8 as u128) << 80) | (((l >> 96) as u8 as u128) << 88) | (((l >> 88) as u8 as u128) << 96) | (((l >> 80) as u8 as u128) << 104) | (((l >> 72) as u8 as u128) << 112) | (((l >> 64) as u8 as u128) << 120)) by (bit_vector)
        requires
            r == lane_swap_ranges(lane_swap_ranges(lane_swap_ranges(l, 8), 16), 32),
    ;
}

/// Reading big-endian bytes is reading them as little-endian and then
/// reversing the bytes of each word.
pub proof fn lemma_from_be_bytes_swapped(bits: nat, b: Seq<u8>)
    requires
        is_word_width(bits),
        b.len() % 16 == 0,
    ensures
        vec_from_be_bytes(bits, b) == vec_swap_bytes(bits, vec_from_le_bytes(b)),
{
    let width = bits as int / 8;
    let r = reverse_each_word(width, b);
    let x = vec_from_be_bytes(bits, b);
    let y = vec_swap_bytes(bits, vec_from_le_bytes(b));
    assert(x.len() == y.len());
    assert forall|i: int| 0 <= i < x.len() implies x[i] == y[i] by {
        let chunk = b.subrange(16 * i, 16 * i + 16);
        lemma_bytes_of_from_bytes(chunk);
        let part = r.subrange(16 * i, 16 * i + 16);
        let want = reverse_each_word(width, chunk);
        assert forall|k: int| 0 <= k < 16 implies #[trigger] part[k] == want[k] by {
            lemma_place_in_lane(width, i, k);
        }
        assert(part =~= want);
    }
    assert(x =~= y);
}

/// The big-endian bytes of a vector are the little-endian bytes of the vector
/// with the bytes of each word reversed.
pub proof fn lemma_be_bytes_of_swapped(bits: nat, a: Seq<u128>)
    requires
        is_word_width(bits),
    ensures
        vec_be_bytes(bits, a) == vec_le_bytes(vec_swap_bytes(bits, a)),
{
    let width = bits as int / 8;
    let x = vec_be_bytes(bits, a);
    let y = vec_le_bytes(vec_swap_bytes(bits, a));
    assert(x.len() == y.len());
    assert forall|j: int| 0 <= j < x.len() implies x[j] == y[j] by {
        let i = j / 16;
        let k = j % 16;
        lemma_place_in_lane(width, i, k);
        let s = reverse_each_word(width, bytes(a[i]));
        lemma_bytes_of_from_bytes(s);
        assert(y[j] == byte(from_bytes(s), k));
        assert(bytes(from_bytes(s))[k] == s[k]);
    }
    assert(x =~= y);
}

/// Byte `k` of lane `i` is byte `16i + k` of the vector, and its place within
/// its word does not depend on the lane, as a word never crosses a lane.
proof fn lemma_place_in_lane(width: int, i: int, k: int)
    requires
        width == 4 || width == 8 || width == 16,
        0 <= i,
        0 <= k < 16,
    ensures
        (16 * i + k) % width == k % width,
        (16 * i + k) / 16 == i,
        (16 * i + k) % 16 == k,
        0 <= k - k % width + (width - 1 - k % width) < 16,
        (16 * i + k) - (16 * i + k) % width + (width - 1 - (16 * i + k) % width) == 16 * i + (k
            - k % width + (width - 1 - k % width)),
{
    if width == 4 {
        assert((16 * i + k) % 4 == k % 4);
    } else if width == 8 {
        assert((16 * i + k) % 8 == k % 8);
    } else {
        assert((16 * i + k) % 16 == k % 16);
    }
}

/// The little-endian bytes of a vector of one lane are the bytes of the lane,
/// and sixteen bytes make the vector of the one lane that they make.
pub proof fn lemma_le_bytes_one_lane(l: u128, b: Seq<u8>)
    requires
        b.len() == 16,
    ensures
        vec_le_bytes(seq![l]) == bytes(l),
        vec_from_le_bytes(b) == seq![from_bytes(b)],
{
    assert(vec_le_bytes(seq![l]) =~= bytes(l));
    assert(b.subrange(0, 16) =~= b);
    assert(vec_from_le_bytes(b) =~= seq![from_bytes(b)]);
}

/// The little-endian bytes of two vectors put together are the bytes of the
/// first followed by the bytes of the second.
pub proof fn lemma_le_bytes_concat(a: Seq<u128>, b: Seq<u128>)
    ensures
        vec_le_bytes(a + b) == vec_le_bytes(a) + vec_le_bytes(b),
{
    let x = vec_le_bytes(a + b);
    let y = vec_le_bytes(a) + vec_le_bytes(b);
    assert(x.len() == y.len());
    assert forall|j: int| 0 <= j < x.len() implies x[j] == y[j] by {
        if j >= 16 * a.len() {
            let m = j - 16 * a.len();
            assert(j / 16 == a.len() + m / 16 && j % 16 == m % 16);
        }
    }
    assert(x =~= y);
}

/// The vector of a byte sequence that is whole lanes followed by whole lanes is
/// the vector of the first part followed by the vector of the second.
pub proof fn lemma_from_le_bytes_concat(x: Seq<u8>, y: Seq<u8>)
    requires
        x.len() % 16 == 0,
        y.len() % 16 == 0,
    ensures
        vec_from_le_bytes(x + y) == vec_from_le_bytes(x) + vec_from_le_bytes(y),
{
    let n = (x.len() / 16) as int;
    let l = vec_from_le_bytes(x + y);
    let r = vec_from_le_bytes(x) + vec_from_le_bytes(y);
    assert(l.len() == r.len());
    assert forall|i: int| 0 <= i < l.len() implies l[i] == r[i] by {
        if i < n {
            assert((x + y).subrange(16 * i, 16 * i + 16) =~= x.subrange(16 * i, 16 * i + 16));
        } else {
            assert((x + y).subrange(16 * i, 16 * i + 16) =~= y.subrange(
                16 * (i - n),
                16 * (i - n) + 16,
            ));
        }
    }
    assert(l =~= r);
}

/// Reversing the bytes of each word of two vectors put together is doing so
/// in each of them.
pub proof fn lemma_swap_bytes_concat(bits: nat, a: Seq<u128>, b: Seq<u128>)
    ensures
        vec_swap_bytes(bits, a + b) == vec_swap_bytes(bits, a) + vec_swap_bytes(bits, b),
{
    assert(vec_swap_bytes(bits, a + b) =~= vec_swap_bytes(bits, a) + vec_swap_bytes(bits, b));
}

/// The big-endian bytes of two vectors put together are the bytes of the
/// first followed by the bytes of the second.
pub proof fn lemma_be_bytes_concat(bits: nat, a: Seq<u128>, b: Seq<u128>)
    requires
        is_word_width(bits),
    ensures
        vec_be_bytes(bits, a + b) == vec_be_bytes(bits, a) + vec_be_bytes(bits, b),
{
    lemma_be_bytes_of_swapped(bits, a + b);
    lemma_be_bytes_of_swapped(bits, a);
    lemma_be_bytes_of_swapped(bits, b);
    lemma_swap_bytes_concat(bits, a, b);
    lemma_le_bytes_concat(vec_swap_bytes(bits, a), vec_swap_bytes(bits, b));
}

/// The vector of big-endian bytes that are whole lanes followed by whole lanes
/// is the vector of the first part followed by the vector of the second.
pub proof fn lemma_from_be_bytes_concat(bits: nat, x: Seq<u8>, y: Seq<u8>)
    requires
        is_word_width(bits),
        x.len() % 16 == 0,
        y.len() % 16 == 0,
    ensures
        vec_from_be_bytes(bits, x + y) == vec_from_be_bytes(bits, x) + vec_from_be_bytes(bits, y),
{
    lemma_from_be_bytes_swapped(bits, x + y);
    lemma_from_be_bytes_swapped(bits, x);
    lemma_from_be_bytes_swapped(bits, y);
    lemma_from_le_bytes_concat(x, y);
    lemma_swap_bytes_concat(bits, vec_from_le_bytes(x), vec_from_le_bytes(y));
}

/// Rotating each word of a lane right by `a` and then by `b` is rotating it
/// right by `a + b`, counted modulo the word width; rotating by 0 or by the
/// word width changes nothing.
pub proof fn lemma_lane_rotr(bits: nat, l: u128, a: u32, b: u32)
    requires
        is_word_width(bits),
    ensures
        lane_rotr(bits, lane_rotr(bits, l, a), b) == lane_rotr(bits, l, ((a + b) % bits as int) as u32),
        lane_rotr(bits, l, 0) == l,
        lane_rotr(bits, l, bits as u32) == l,
{
    let c = ((a + b) % bits as int) as u32;
    if bits == 32 {
        let w = words32(l);
        let wa = Seq::new(4, |i: int| rotr32(w[i], a));
        lemma_words32_of_from_words32(wa);
        lemma_from_words32_of_words32(l);
        assert forall|i: int| 0 <= i < 4 implies rotr32(wa[i], b) == rotr32(w[i], c) && rotr32(
            w[i],
            0,
        ) == w[i] && rotr32(w[i], 32) == w[i] by {
            lemma_rotr32(w[i], a, b);
        }
        assert(Seq::new(4, |i: int| rotr32(wa[i], b)) =~= Seq::new(4, |i: int| rotr32(w[i], c)));
        assert(Seq::new(4, |i: int| rotr32(w[i], 0)) =~= w);
        assert(Seq::new(4, |i: int| rotr32(w[i], 32)) =~= w);
    } else if bits == 64 {
        let w = words64(l);
        let wa = Seq::new(2, |i: int| rotr64(w[i], a));
        lemma_words64_of_from_words64(wa);
        lemma_from_words64_of_words64(l);
        assert forall|i: int| 0 <= i < 2 implies rotr64(wa[i], b) == rotr64(w[i], c) && rotr64(
            w[i],
            0,
        ) == w[i] && rotr64(w[i], 64) == w[i] by {
            lemma_rotr64(w[i], a, b);
        }
        assert(Seq::new(2, |i: int| rotr64(wa[i], b)) =~= Seq::new(2, |i: int| rotr64(w[i], c)));
        assert(Seq::new(2, |i: int| rotr64(w[i], 0)) =~= w);
        assert(Seq::new(2, |i: int| rotr64(w[i], 64)) =~= w);
    } else {
        lemma_rotr128(l, a, b);
    }
}

/// Rotating each word of a vector right by `a` and then by `b` is rotating it
/// right by `a + b`, counted modulo the word width; rotating by 0 or by the
/// word width changes nothing.
pub proof fn lemma_vec_rotr(bits: nat, v: Seq<u128>, a: u32, b: u32)
    requires
        is_word_width(bits),
    ensures
        vec_rotr(bits, vec_rotr(bits, v, a), b) == vec_rotr(bits, v, ((a + b) % bits as int) as u32),
        vec_rotr(bits, v, 0) == v,
        vec_rotr(bits, v, bits as u32) == v,
{
    assert forall|i: int| 0 <= i < v.len() implies lane_rotr(bits, lane_rotr(bits, v[i], a), b)
        == lane_rotr(bits, v[i], ((a + b) % bits as int) as u32) && lane_rotr(bits, v[i], 0)
        == v[i] && lane_rotr(bits, v[i], bits as u32) == v[i] by {
        lemma_lane_rotr(bits, v[i], a, b);
    }
    assert(vec_rotr(bits, vec_rotr(bits, v, a), b) =~= vec_rotr(
        bits,
        v,
        ((a + b) % bits as int) as u32,
    ));
    assert(vec_rotr(bits, v, 0) =~= v);
    assert(vec_rotr(bits, v, bits as u32) =~= v);
}

/// Reversing the bytes of each word twice gives the bytes back.
pub proof fn lemma_reverse_each_word_twice(width: int, s: Seq<u8>)
    requires
        width > 0,
        s.len() % (width as nat) == 0,
    ensures
        reverse_each_word(width, reverse_each_word(width, s)) == s,
        reverse_each_word(width, s).len() == s.len(),
{
    let r = reverse_each_word(width, s);
    let t = reverse_each_word(width, r);
    assert forall|i: int| 0 <= i < s.len() implies t[i] == s[i] by {
        lemma_mirror_place(width, i, s.len() as int);
        let j = i - i % width + (width - 1 - i % width);
        lemma_mirror_place(width, j, s.len() as int);
    }
    assert(t =~= s);
}

/// The place that a byte takes when the bytes of its word are reversed lies
/// in the same word, and the byte at that place comes back.
proof fn lemma_mirror_place(width: int, i: int, len: int)
    requires
        width > 0,
        0 <= i < len,
        len % width == 0,
    ensures
        ({
            let j = i - i % width + (width - 1 - i % width);
            &&& 0 <= j < len
            &&& j % width == width - 1 - i % width
            &&& j - j % width + (width - 1 - j % width) == i
        }),
{
    let q = i / width;
    let r = i % width;
    let j = q * width + (width - 1 - r);
    vstd::arithmetic::div_mod::lemma_fundamental_div_mod(i, width);
    vstd::arithmetic::div_mod::lemma_fundamental_div_mod(len, width);
    assert(j == i - i % width + (width - 1 - i % width)) by (nonlinear_arith)
        requires
            i == width * q + r,
            j == q * width + (width - 1 - r),
            r == i % width,
    ;
    vstd::arithmetic::div_mod::lemma_fundamental_div_mod_converse(j, width, q, width - 1 - r);
    assert(q < len / width) by (nonlinear_arith)
        requires
            i == width * q + r,
            0 <= r,
            i < len,
            len == width * (len / width),
            width > 0,
    ;
    assert(j < len) by (nonlinear_arith)
        requires
            j == q * width + (width - 1 - r),
            0 <= r,
            q + 1 <= len / width,
            len == width * (len / width),
            width > 0,
    ;
    assert(0 <= j) by (nonlinear_arith)
        requires
            j == q * width + (width - 1 - r),
            r < width,
            0 <= q,
            width > 0,
    ;
}

/// Writing a vector as little-endian bytes and reading the bytes gives the
/// vector back, and so does reading whole lanes of bytes and writing them.
pub proof fn lemma_le_bytes_round_trip(v: Seq<u128>, b: Seq<u8>)
    requires
        b.len() % 16 == 0,
    ensures
        vec_from_le_bytes(vec_le_bytes(v)) == v,
        vec_le_bytes(vec_from_le_bytes(b)) == b,
{
    let x = vec_from_le_bytes(vec_le_bytes(v));
    assert(x.len() == v.len());
    assert forall|i: int| 0 <= i < v.len() implies x[i] == v[i] by {
        lemma_from_bytes_of_bytes(v[i]);
        assert(vec_le_bytes(v).subrange(16 * i, 16 * i + 16) =~= bytes(v[i]));
    }
    assert(x =~= v);
    let y = vec_le_bytes(vec_from_le_bytes(b));
    assert(y.len() == b.len());
    assert forall|j: int| 0 <= j < b.len() implies y[j] == b[j] by {
        let i = j / 16;
        let part = b.subrange(16 * i, 16 * i + 16);
        lemma_bytes_of_from_bytes(part);
        assert(bytes(from_bytes(part))[j % 16] == part[j % 16]);
    }
    assert(y =~= b);
}

/// Writing a vector as big-endian bytes and reading the bytes gives the vector
/// back, and so does reading whole lanes of bytes and writing them. The
/// big-endian bytes are the little-endian bytes with the bytes of each word
/// reversed and the words in their places.
pub proof fn lemma_be_bytes_round_trip(bits: nat, v: Seq<u128>, b: Seq<u8>)
    requires
        is_word_width(bits),
        b.len() % 16 == 0,
    ensures
        vec_from_be_bytes(bits, vec_be_bytes(bits, v)) == v,
        vec_be_bytes(bits, vec_from_be_bytes(bits, b)) == b,
        vec_be_bytes(bits, v) == reverse_each_word(bits as int / 8, vec_le_bytes(v)),
{
    let width = bits as int / 8;
    let n = vec_le_bytes(v).len();
    assert(n == 16 * v.len());
    assert(n % 4 == 0 && n % 8 == 0 && n % 16 == 0);
    assert(b.len() % 4 == 0 && b.len() % 8 == 0);
    lemma_reverse_each_word_twice(width, vec_le_bytes(v));
    lemma_le_bytes_round_trip(v, reverse_each_word(width, b));
    lemma_reverse_each_word_twice(width, b);
}

/// Turning four items round by `j` places and then by `k` places is turning
/// them round by `j + k` places, counted modulo 4; turning them by no place
/// changes nothing.
pub proof fn lemma_rotate_places<T>(w: Seq<T>, j: int, k: int)
    requires
        w.len() == 4,
        0 <= j < 4,
        0 <= k < 4,
    ensures
        rotate_places(rotate_places(w, j), k) == rotate_places(w, (j + k) % 4),
        rotate_places(w, 0) == w,
        rotate_places(w, j).len() == 4,
{
    reveal(rotate_places);
    let x = rotate_places(rotate_places(w, j), k);
    let y = rotate_places(w, (j + k) % 4);
    assert forall|i: int| 0 <= i < 4 implies x[i] == y[i] by {
        let a = if i >= k { i - k } else { i + 4 - k };
        let b = if a >= j { a - j } else { a + 4 - j };
        let m = if j + k >= 4 { j + k - 4 } else { j + k };
        let c = if i >= m { i - m } else { i + 4 - m };
        assert((i + 4 - k) % 4 == a);
        assert((a + 4 - j) % 4 == b);
        assert((j + k) % 4 == m);
        assert((i + 4 - m) % 4 == c);
        assert(b == c);
    }
    assert(x =~= y);
    assert forall|i: int| 0 <= i < 4 implies rotate_places(w, 0)[i] == w[i] by {
        assert((i + 4 - 0) % 4 == i);
    }
    assert(rotate_places(w, 0) =~= w);
}

/// Shuffling the four 32-bit words of a lane by `j` places and then by `k`
/// places is shuffling them by `j + k` places, counted modulo 4.
pub proof fn lemma_lane_shuffle32(l: u128, j: int, k: int)
    requires
        0 <= j < 4,
        0 <= k < 4,
    ensures
        lane_shuffle32(lane_shuffle32(l, j), k) == lane_shuffle32(l, (j + k) % 4),
        lane_shuffle32(l, 0) == l,
{
    lemma_from_words32_of_words32(l);
    lemma_rotate_places(words32(l), j, k);
    lemma_words32_of_from_words32(rotate_places(words32(l), j));
}

/// The shuffles of the words of each lane form a group of four: one after
/// another they add up, counted modulo 4. So `1230` and `3012` undo each
/// other, `2301` undoes itself, and `1230`, `2301` and `3012` in a row are
/// `2301`.
pub proof fn lemma_shuffle_lane_words(v: Seq<u128>, j: int, k: int)
    requires
        0 <= j < 4,
        0 <= k < 4,
    ensures
        vec_shuffle_lane_words(vec_shuffle_lane_words(v, j), k) == vec_shuffle_lane_words(
            v,
            (j + k) % 4,
        ),
        vec_shuffle_lane_words(v, 0) == v,
        vec_shuffle_lane_words(vec_shuffle_lane_words(vec_shuffle_lane_words(v, 1), 2), 3)
            == vec_shuffle_lane_words(v, 2),
{
    assert forall|i: int| 0 <= i < v.len() implies lane_shuffle32(lane_shuffle32(v[i], j), k)
        == lane_shuffle32(v[i], (j + k) % 4) && lane_shuffle32(v[i], 0) == v[i] && lane_shuffle32(
        lane_shuffle32(lane_shuffle32(v[i], 1), 2),
        3,
    ) == lane_shuffle32(v[i], 2) by {
        lemma_lane_shuffle32(v[i], j, k);
        lemma_lane_shuffle32(v[i], 1, 2);
        lemma_lane_shuffle32(v[i], 3, 3);
    }
    assert(vec_shuffle_lane_words(vec_shuffle_lane_words(v, j), k) =~= vec_shuffle_lane_words(
        v,
        (j + k) % 4,
    ));
    assert(vec_shuffle_lane_words(v, 0) =~= v);
    assert(vec_shuffle_lane_words(vec_shuffle_lane_words(vec_shuffle_lane_words(v, 1), 2), 3)
        =~= vec_shuffle_lane_words(v, 2));
}

/// Whether a vector of `bits`-bit words has exactly four words.
pub open spec fn has_four_words(bits: nat, v: Seq<u128>) -> bool {
    (bits == 32 && v.len() == 1) || (bits == 64 && v.len() == 2)
}

/// The shuffles of a vector of four words form a group of four: one after
/// another they add up, counted modulo 4. So `1230` and `3012` undo each
/// other and `2301` undoes itself.
pub proof fn lemma_shuffle_words4(bits: nat, v: Seq<u128>, j: int, k: int)
    requires
        has_four_words(bits, v),
        0 <= j < 4,
        0 <= k < 4,
    ensures
        vec_shuffle_words4(bits, vec_shuffle_words4(bits, v, j), k) == vec_shuffle_words4(
            bits,
            v,
            (j + k) % 4,
        ),
        vec_shuffle_words4(bits, v, 0) == v,
        has_four_words(bits, vec_shuffle_words4(bits, v, j)),
{
    if bits == 64 {
        lemma_shuffle_words64(v, j, k);
    } else {
        lemma_lane_shuffle32(v[0], j, k);
        assert(vec_shuffle_words4(bits, v, 0) =~= v);
    }
}

/// The law of the shuffles for a vector of four 64-bit words in two lanes.
proof fn lemma_shuffle_words64(v: Seq<u128>, j: int, k: int)
    requires
        v.len() == 2,
        0 <= j < 4,
        0 <= k < 4,
    ensures
        vec_shuffle_words4(64, vec_shuffle_words4(64, v, j), k) == vec_shuffle_words4(
            64,
            v,
            (j + k) % 4,
        ),
        vec_shuffle_words4(64, v, 0) == v,
{
    let w = words64(v[0]) + words64(v[1]);
    lemma_words_of_shuffled64(v, j);
    lemma_rotate_places(w, j, k);
    lemma_rotate_places(w, 0, 0);
    lemma_from_words64_of_words64(v[0]);
    lemma_from_words64_of_words64(v[1]);
    assert(w.subrange(0, 2) =~= words64(v[0]));
    assert(w.subrange(2, 4) =~= words64(v[1]));
    assert(vec_shuffle_words4(64, v, 0) =~= v);
}

/// The four words of a shuffled vector of two lanes are the four words of the
/// vector, turned round.
proof fn lemma_words_of_shuffled64(v: Seq<u128>, j: int)
    requires
        v.len() == 2,
    ensures
        ({
            let u = vec_shuffle_words4(64, v, j);
            &&& u.len() == 2
            &&& words64(u[0]) + words64(u[1]) == rotate_places(words64(v[0]) + words64(v[1]), j)
        }),
{
    let t = rotate_places(words64(v[0]) + words64(v[1]), j);
    let u = vec_shuffle_words4(64, v, j);
    assert(t.len() == 4) by {
        reveal(rotate_places);
    }
    lemma_words64_of_from_words64(t.subrange(0, 2));
    lemma_words64_of_from_words64(t.subrange(2, 4));
    assert(t.subrange(0, 2) + t.subrange(2, 4) =~= t);
}

/// `shuffle1230`, then `shuffle2301`, then `shuffle3012` move every word by
/// six places in all, which is two places: together they are `shuffle2301`.
/// They give the vector back where `shuffle2301` does, which is where its two
/// halves are equal, and only there.
pub proof fn lemma_three_shuffles(bits: nat, v: Seq<u128>)
    requires
        has_four_words(bits, v),
    ensures
        vec_shuffle_words4(bits, vec_shuffle_words4(bits, vec_shuffle_words4(bits, v, 1), 2), 3)
            == vec_shuffle_words4(bits, v, 2),
        vec_shuffle_words4(bits, vec_shuffle_words4(bits, vec_shuffle_words4(bits, v, 1), 2), 3)
            == v <==> vec_shuffle_words4(bits, v, 2) == v,
{
    lemma_shuffle_words4(bits, v, 1, 2);
    lemma_shuffle_words4(bits, v, 3, 3);
}

/// Applied to a vector whose two halves are equal, `shuffle1230`, then
/// `shuffle2301`, then `shuffle3012` return the vector.
pub proof fn lemma_three_shuffles_of_equal_halves(bits: nat, v: Seq<u128>)
    requires
        has_four_words(bits, v),
        vec_shuffle_words4(bits, v, 2) == v,
    ensures
        vec_shuffle_words4(bits, vec_shuffle_words4(bits, vec_shuffle_words4(bits, v, 1), 2), 3)
            == v,
{
    lemma_three_shuffles(bits, v);
}

/// Whether `n` is one of the range sizes that can be exchanged.
pub open spec fn is_range_size(n: u32) -> bool {
    n == 1 || n == 2 || n == 4 || n == 8 || n == 16 || n == 32 || n == 64
}

/// Exchanging neighbouring ranges of `n` bits moves bit `p ^ n` to place `p`,
/// and doing it twice gives the lane back.
pub proof fn lemma_lane_swap_ranges(l: u128, n: u32, p: u32)
    requires
        is_range_size(n),
        p < 128,
    ensures
        bit(lane_swap_ranges(l, n), p) == bit(l, p ^ n),
        lane_swap_ranges(lane_swap_ranges(l, n), n) == l,
{
    assert(bit(lane_swap_ranges(l, n), p) == bit(l, p ^ n)) by (bit_vector)
        requires
            n == 1 || n == 2 || n == 4 || n == 8 || n == 16 || n == 32 || n == 64,
            p < 128,
    ;
    assert(lane_swap_ranges(lane_swap_ranges(l, n), n) == l) by (bit_vector)
        requires
            n == 1 || n == 2 || n == 4 || n == 8 || n == 16 || n == 32 || n == 64,
    ;
}

/// Exchanging neighbouring ranges of `n` bits twice gives the vector back.
pub proof fn lemma_vec_swap_ranges_twice(v: Seq<u128>, n: u32)
    requires
        is_range_size(n),
    ensures
        vec_swap_ranges(vec_swap_ranges(v, n), n) == v,
{
    assert forall|i: int| 0 <= i < v.len() implies lane_swap_ranges(
        lane_swap_ranges(v[i], n),
        n,
    ) == v[i] by {
        lemma_lane_swap_ranges(v[i], n, 0);
    }
    assert(vec_swap_ranges(vec_swap_ranges(v, n), n) =~= v);
}

/// Reversing the bytes of each word twice gives the vector back.
pub proof fn lemma_vec_swap_bytes_twice(bits: nat, v: Seq<u128>)
    requires
        is_word_width(bits),
    ensures
        vec_swap_bytes(bits, vec_swap_bytes(bits, v)) == v,
{
    assert forall|i: int| 0 <= i < v.len() implies lane_swap_bytes(
        bits,
        lane_swap_bytes(bits, v[i]),
    ) == v[i] by {
        let s = reverse_each_word(bits as int / 8, bytes(v[i]));
        assert(bytes(v[i]).len() == 16);
        assert(16nat % 4 == 0 && 16nat % 8 == 0 && 16nat % 16 == 0);
        lemma_bytes_of_from_bytes(s);
        lemma_reverse_each_word_twice(bits as int / 8, bytes(v[i]));
        lemma_from_bytes_of_bytes(v[i]);
    }
    assert(vec_swap_bytes(bits, vec_swap_bytes(bits, v)) =~= v);
}

} // verus!
