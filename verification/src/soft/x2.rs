//! The portable vector of two lanes: two single-lane vectors side by side.
use crate::algebra::{
    vec_add, vec_and, vec_andnot, vec_not, vec_or, vec_rotr, vec_swap_bytes, vec_swap_ranges,
    vec_xor, rotate_places,
};
use crate::crypto_simd_new::{
    AndNot, ArithOps, BSwap, BitOps0, BitOps128, BitOps32, BitOps64, RotateEachWord128,
    RotateEachWord32, RotateEachWord64,
};
use crate::crypto_simd_new_types::{
    u128x1, u128x2, u32x4, u32x4x2, u64x2, u64x2x2, MultiLane, Swap64, Vec2, Words4,
};
use crate::lane::{from_words64, lemma_from_words64_of_words64, words64};
use crate::laws::{
    lemma_be_bytes_concat, lemma_from_be_bytes_concat, lemma_from_le_bytes_concat,
    lemma_le_bytes_concat,
};
use crate::shape::Shape;
use crate::storage::{vec128_storage, vec256_storage};
use crate::store::{Store, StoreBytes};
use core::ops::{Add, AddAssign, BitAnd, BitOr, BitXor, BitXorAssign, Not};
use vstd::prelude::*;
use vstd::std_specs::ops::{AddSpec, BitAndSpec, BitOrSpec, BitXorSpec, NotSpec};

verus! {

/// A vector of two lanes, made of two single-lane vectors of type `W`, lane
/// 0 first. Every operation works on each lane as `W` does.
#[allow(non_camel_case_types)]
pub struct x2<W>(pub [W; 2]);

impl<W: Copy> Clone for x2<W> {
    fn clone(&self) -> (r: Self)
        ensures
            r == *self,
    {
        *self
    }
}

impl<W: Copy> Copy for x2<W> {
}

impl<W: View<V = Seq<u128>>> View for x2<W> {
    type V = Seq<u128>;

    /// The lanes of the two vectors, one after the other.
    open spec fn view(&self) -> Seq<u128> {
        self.0[0]@ + self.0[1]@
    }
}

impl<W: Shape> Shape for x2<W> {
    open spec fn word_bits() -> nat {
        W::word_bits()
    }

    open spec fn lane_count() -> nat {
        2 * W::lane_count()
    }

    proof fn lemma_shape(self) {
        self.0[0].lemma_shape();
        self.0[1].lemma_shape();
    }
}

impl<W: BitOps0> BitAnd for x2<W> {
    type Output = Self;

    fn bitand(self, rhs: Self) -> (r: Self) {
        proof {
            W::lemma_bit_ops(self.0[0], rhs.0[0]);
            W::lemma_bit_ops(self.0[1], rhs.0[1]);
        }
        x2([self.0[0] & rhs.0[0], self.0[1] & rhs.0[1]])
    }
}

impl<W: BitOps0> vstd::std_specs::ops::BitAndSpecImpl for x2<W> {
    open spec fn obeys_bitand_spec() -> bool {
        true
    }

    open spec fn bitand_req(self, rhs: Self) -> bool {
        true
    }

    open spec fn bitand_spec(self, rhs: Self) -> Self {
        x2([self.0[0].bitand_spec(rhs.0[0]), self.0[1].bitand_spec(rhs.0[1])])
    }
}

impl<W: BitOps0> BitOr for x2<W> {
    type Output = Self;

    fn bitor(self, rhs: Self) -> (r: Self) {
        proof {
            W::lemma_bit_ops(self.0[0], rhs.0[0]);
            W::lemma_bit_ops(self.0[1], rhs.0[1]);
        }
        x2([self.0[0] | rhs.0[0], self.0[1] | rhs.0[1]])
    }
}

impl<W: BitOps0> vstd::std_specs::ops::BitOrSpecImpl for x2<W> {
    open spec fn obeys_bitor_spec() -> bool {
        true
    }

    open spec fn bitor_req(self, rhs: Self) -> bool {
        true
    }

    open spec fn bitor_spec(self, rhs: Self) -> Self {
        x2([self.0[0].bitor_spec(rhs.0[0]), self.0[1].bitor_spec(rhs.0[1])])
    }
}

impl<W: BitOps0> BitXor for x2<W> {
    type Output = Self;

    fn bitxor(self, rhs: Self) -> (r: Self) {
        proof {
            W::lemma_bit_ops(self.0[0], rhs.0[0]);
            W::lemma_bit_ops(self.0[1], rhs.0[1]);
        }
        x2([self.0[0] ^ rhs.0[0], self.0[1] ^ rhs.0[1]])
    }
}

impl<W: BitOps0> vstd::std_specs::ops::BitXorSpecImpl for x2<W> {
    open spec fn obeys_bitxor_spec() -> bool {
        true
    }

    open spec fn bitxor_req(self, rhs: Self) -> bool {
        true
    }

    open spec fn bitxor_spec(self, rhs: Self) -> Self {
        x2([self.0[0].bitxor_spec(rhs.0[0]), self.0[1].bitxor_spec(rhs.0[1])])
    }
}

impl<W: BitOps0> Not for x2<W> {
    type Output = Self;

    fn not(self) -> (r: Self) {
        proof {
            W::lemma_bit_ops(self.0[0], self.0[0]);
            W::lemma_bit_ops(self.0[1], self.0[1]);
        }
        x2([!self.0[0], !self.0[1]])
    }
}

impl<W: BitOps0> vstd::std_specs::ops::NotSpecImpl for x2<W> {
    open spec fn obeys_not_spec() -> bool {
        true
    }

    open spec fn not_req(self) -> bool {
        true
    }

    open spec fn not_spec(self) -> Self {
        x2([self.0[0].not_spec(), self.0[1].not_spec()])
    }
}

impl<W: BitOps0> AndNot for x2<W> {
    type Output = Self;

    open spec fn andnot_spec(self, rhs: Self) -> Self {
        x2([self.0[0].andnot_spec(rhs.0[0]), self.0[1].andnot_spec(rhs.0[1])])
    }

    fn andnot(self, rhs: Self) -> (r: Self) {
        x2([self.0[0].andnot(rhs.0[0]), self.0[1].andnot(rhs.0[1])])
    }
}

impl<W: BitOps0> BitXorAssign for x2<W> {
    /// `self` becomes `self ^ rhs`.
    fn bitxor_assign(&mut self, rhs: Self)
        ensures
            final(self)@ == vec_xor(old(self)@, rhs@),
    {
        proof {
            Self::lemma_bit_ops(*self, rhs);
        }
        *self = *self ^ rhs;
    }
}

impl<W: BitOps0> BitOps0 for x2<W> {
    proof fn lemma_bit_ops(a: Self, b: Self) {
        W::lemma_bit_ops(a.0[0], b.0[0]);
        a.0[0].lemma_shape();
        b.0[0].lemma_shape();
        W::lemma_bit_ops(a.0[1], b.0[1]);
        a.0[1].lemma_shape();
        b.0[1].lemma_shape();
        assert(a.bitand_spec(b)@ =~= vec_and(a@, b@));
        assert(a.bitor_spec(b)@ =~= vec_or(a@, b@));
        assert(a.bitxor_spec(b)@ =~= vec_xor(a@, b@));
        assert(a.not_spec()@ =~= vec_not(a@));
        assert(a.andnot_spec(b)@ =~= vec_andnot(a@, b@));
    }
}

impl<W: RotateEachWord32 + Copy> RotateEachWord32 for x2<W> {
    fn rotate_each_word_right7(self) -> (r: Self) {
        let r = x2([self.0[0].rotate_each_word_right7(), self.0[1].rotate_each_word_right7()]);
        assert(r@ =~= vec_rotr(Self::word_bits(), self@, 7));
        r
    }

    fn rotate_each_word_right8(self) -> (r: Self) {
        let r = x2([self.0[0].rotate_each_word_right8(), self.0[1].rotate_each_word_right8()]);
        assert(r@ =~= vec_rotr(Self::word_bits(), self@, 8));
        r
    }

    fn rotate_each_word_right11(self) -> (r: Self) {
        let r = x2([self.0[0].rotate_each_word_right11(), self.0[1].rotate_each_word_right11()]);
        assert(r@ =~= vec_rotr(Self::word_bits(), self@, 11));
        r
    }

    fn rotate_each_word_right12(self) -> (r: Self) {
        let r = x2([self.0[0].rotate_each_word_right12(), self.0[1].rotate_each_word_right12()]);
        assert(r@ =~= vec_rotr(Self::word_bits(), self@, 12));
        r
    }

    fn rotate_each_word_right16(self) -> (r: Self) {
        let r = x2([self.0[0].rotate_each_word_right16(), self.0[1].rotate_each_word_right16()]);
        assert(r@ =~= vec_rotr(Self::word_bits(), self@, 16));
        r
    }

    fn rotate_each_word_right20(self) -> (r: Self) {
        let r = x2([self.0[0].rotate_each_word_right20(), self.0[1].rotate_each_word_right20()]);
        assert(r@ =~= vec_rotr(Self::word_bits(), self@, 20));
        r
    }

    fn rotate_each_word_right24(self) -> (r: Self) {
        let r = x2([self.0[0].rotate_each_word_right24(), self.0[1].rotate_each_word_right24()]);
        assert(r@ =~= vec_rotr(Self::word_bits(), self@, 24));
        r
    }

    fn rotate_each_word_right25(self) -> (r: Self) {
        let r = x2([self.0[0].rotate_each_word_right25(), self.0[1].rotate_each_word_right25()]);
        assert(r@ =~= vec_rotr(Self::word_bits(), self@, 25));
        r
    }

}

impl<W: RotateEachWord64 + Copy> RotateEachWord64 for x2<W> {
    fn rotate_each_word_right32(self) -> (r: Self) {
        let r = x2([self.0[0].rotate_each_word_right32(), self.0[1].rotate_each_word_right32()]);
        assert(r@ =~= vec_rotr(Self::word_bits(), self@, 32));
        r
    }
}

impl<W: RotateEachWord128> RotateEachWord128 for x2<W> {
}

impl<W: BitOps32> BitOps32 for x2<W> {
}

impl<W: BitOps64> BitOps64 for x2<W> {
}

impl<W: BitOps128> BitOps128 for x2<W> {
}

impl<W: ArithOps> Add for x2<W> {
    type Output = Self;

    fn add(self, rhs: Self) -> (r: Self) {
        proof {
            W::lemma_arith_ops(self.0[0], rhs.0[0]);
            W::lemma_arith_ops(self.0[1], rhs.0[1]);
        }
        x2([self.0[0] + rhs.0[0], self.0[1] + rhs.0[1]])
    }
}

impl<W: ArithOps> vstd::std_specs::ops::AddSpecImpl for x2<W> {
    open spec fn obeys_add_spec() -> bool {
        true
    }

    open spec fn add_req(self, rhs: Self) -> bool {
        true
    }

    open spec fn add_spec(self, rhs: Self) -> Self {
        x2([self.0[0].add_spec(rhs.0[0]), self.0[1].add_spec(rhs.0[1])])
    }
}

impl<W: ArithOps> AddAssign for x2<W> {
    /// `self` becomes `self + rhs`.
    fn add_assign(&mut self, rhs: Self)
        ensures
            final(self)@ == vec_add(Self::word_bits(), old(self)@, rhs@),
    {
        proof {
            Self::lemma_arith_ops(*self, rhs);
        }
        *self = *self + rhs;
    }
}

impl<W: BSwap + Copy> BSwap for x2<W> {
    fn bswap(self) -> (r: Self) {
        let r = x2([self.0[0].bswap(), self.0[1].bswap()]);
        assert(r@ =~= vec_swap_bytes(Self::word_bits(), self@));
        r
    }
}

impl<W: ArithOps> ArithOps for x2<W> {
    proof fn lemma_arith_ops(a: Self, b: Self) {
        W::lemma_arith_ops(a.0[0], b.0[0]);
        a.0[0].lemma_shape();
        b.0[0].lemma_shape();
        W::lemma_arith_ops(a.0[1], b.0[1]);
        a.0[1].lemma_shape();
        b.0[1].lemma_shape();
        assert(a.add_spec(b)@ =~= vec_add(Self::word_bits(), a@, b@));
    }
}

impl<W: Swap64 + Copy> Swap64 for x2<W> {
    fn swap1(self) -> (r: Self) {
        let r = x2([self.0[0].swap1(), self.0[1].swap1()]);
        assert(r@ =~= vec_swap_ranges(self@, 1));
        r
    }

    fn swap2(self) -> (r: Self) {
        let r = x2([self.0[0].swap2(), self.0[1].swap2()]);
        assert(r@ =~= vec_swap_ranges(self@, 2));
        r
    }

    fn swap4(self) -> (r: Self) {
        let r = x2([self.0[0].swap4(), self.0[1].swap4()]);
        assert(r@ =~= vec_swap_ranges(self@, 4));
        r
    }

    fn swap8(self) -> (r: Self) {
        let r = x2([self.0[0].swap8(), self.0[1].swap8()]);
        assert(r@ =~= vec_swap_ranges(self@, 8));
        r
    }

    fn swap16(self) -> (r: Self) {
        let r = x2([self.0[0].swap16(), self.0[1].swap16()]);
        assert(r@ =~= vec_swap_ranges(self@, 16));
        r
    }

    fn swap32(self) -> (r: Self) {
        let r = x2([self.0[0].swap32(), self.0[1].swap32()]);
        assert(r@ =~= vec_swap_ranges(self@, 32));
        r
    }

    fn swap64(self) -> (r: Self) {
        let r = x2([self.0[0].swap64(), self.0[1].swap64()]);
        assert(r@ =~= vec_swap_ranges(self@, 64));
        r
    }

}

impl<W: Store<vec128_storage> + Copy> Store<vec256_storage> for x2<W> {
    fn unpack(p: vec256_storage) -> (r: Self) {
        let l = p.lanes();
        let r = x2([W::unpack(vec128_storage::from_lane(l[0])), W::unpack(vec128_storage::from_lane(l[1]))]);
        assert(r@ =~= p@);
        r
    }

    fn pack(self) -> (p: vec256_storage) {
        let l0 = self.0[0].pack().lane();
        let l1 = self.0[1].pack().lane();
        let p = vec256_storage::from_lanes([l0, l1]);
        assert(p@ =~= self@);
        p
    }
}

impl<W: Copy> Vec2<W> for x2<W> {
    /// The two single-lane vectors.
    open spec fn elements(self) -> Seq<W> {
        self.0@
    }

    proof fn lemma_elements(self) {
    }

    fn extract(self, i: u32) -> (w: W) {
        self.0[i as usize]
    }

    fn insert(self, w: W, i: u32) -> (r: Self) {
        let mut lanes = self.0;
        lanes[i as usize] = w;
        x2(lanes)
    }
}

impl<W> MultiLane<[W; 2]> for x2<W> {
    /// The two single-lane vectors.
    open spec fn to_lanes_spec(self) -> [W; 2] {
        self.0
    }

    /// The vector made of the two single-lane vectors.
    open spec fn from_lanes_spec(lanes: [W; 2]) -> Self {
        x2(lanes)
    }

    proof fn lemma_lanes_round_trip(v: Self, lanes: [W; 2]) {
    }

    fn to_lanes(self) -> (lanes: [W; 2]) {
        self.0
    }

    fn from_lanes(lanes: [W; 2]) -> (r: Self) {
        x2(lanes)
    }
}

impl<W: u32x4> u32x4x2<W> for x2<W> {
    proof fn lemma_u32x4x2(self) {
        self.0[0].lemma_u32x4();
    }
}

impl<W: u128x1> u128x2<W> for x2<W> {
    proof fn lemma_u128x2(self) {
        self.0[0].lemma_u128x1();
    }
}

impl<W: u64x2 + StoreBytes> u64x2x2<W> for x2<W> {
    proof fn lemma_u64x2x2(self) {
        self.0[0].lemma_u64x2();
    }
}

impl<W: u64x2> x2<W> {
    /// The vector of two lanes whose four 64-bit words are `w0` to `w3`, made
    /// by putting the words into the lanes of `self`.
    fn with_words(self, w0: u64, w1: u64, w2: u64, w3: u64) -> (r: Self)
        ensures
            r@ == seq![from_words64(seq![w0, w1]), from_words64(seq![w2, w3])],
    {
        let a = self.0[0].insert(w0, 0).insert(w1, 1);
        let b = self.0[1].insert(w2, 0).insert(w3, 1);
        proof {
            a.lemma_u64x2();
            b.lemma_u64x2();
            a.lemma_shape();
            b.lemma_shape();
            self.0[0].lemma_elements();
            self.0[1].lemma_elements();
            lemma_from_words64_of_words64(a@[0]);
            lemma_from_words64_of_words64(b@[0]);
            assert(a.elements() =~= seq![w0, w1]);
            assert(b.elements() =~= seq![w2, w3]);
            assert(a@ =~= seq![from_words64(seq![w0, w1])]);
            assert(b@ =~= seq![from_words64(seq![w2, w3])]);
        }
        let r = x2([a, b]);
        assert(r@ =~= seq![from_words64(seq![w0, w1]), from_words64(seq![w2, w3])]);
        r
    }

    /// The four 64-bit words of the vector.
    fn words(self) -> (w: [u64; 4])
        ensures
            w@ == words64(self@[0]) + words64(self@[1]),
    {
        proof {
            self.0[0].lemma_u64x2();
            self.0[1].lemma_u64x2();
            self.0[0].lemma_shape();
            self.0[1].lemma_shape();
        }
        let w: [u64; 4] = [
            self.0[0].extract(0),
            self.0[0].extract(1),
            self.0[1].extract(0),
            self.0[1].extract(1),
        ];
        assert(w@ =~= words64(self@[0]) + words64(self@[1]));
        w
    }
}

impl<W: u64x2> Words4 for x2<W> {
    proof fn lemma_four_words() {
        let w: W = arbitrary();
        w.lemma_u64x2();
    }

    fn shuffle1230(self) -> (r: Self) {
        let w = self.words();
        let r = self.with_words(w[3], w[0], w[1], w[2]);
        proof {
            self.0[0].lemma_u64x2();
            reveal(rotate_places);
            let t = rotate_places(words64(self@[0]) + words64(self@[1]), 1);
            assert(t.subrange(0, 2) =~= seq![w[3], w[0]]);
            assert(t.subrange(2, 4) =~= seq![w[1], w[2]]);
        }
        r
    }

    fn shuffle2301(self) -> (r: Self) {
        let w = self.words();
        let r = self.with_words(w[2], w[3], w[0], w[1]);
        proof {
            self.0[0].lemma_u64x2();
            reveal(rotate_places);
            let t = rotate_places(words64(self@[0]) + words64(self@[1]), 2);
            assert(t.subrange(0, 2) =~= seq![w[2], w[3]]);
            assert(t.subrange(2, 4) =~= seq![w[0], w[1]]);
        }
        r
    }

    fn shuffle3012(self) -> (r: Self) {
        let w = self.words();
        let r = self.with_words(w[1], w[2], w[3], w[0]);
        proof {
            self.0[0].lemma_u64x2();
            reveal(rotate_places);
            let t = rotate_places(words64(self@[0]) + words64(self@[1]), 3);
            assert(t.subrange(0, 2) =~= seq![w[1], w[2]]);
            assert(t.subrange(2, 4) =~= seq![w[3], w[0]]);
        }
        r
    }
}

impl<W: StoreBytes + Copy> StoreBytes for x2<W> {
    fn unsafe_read_le(input: &[u8]) -> (r: Self) {
        let (lo, hi) = input.split_at(input.len() / 2);
        proof {
            assert(lo@ + hi@ =~= input@);
            lemma_from_le_bytes_concat(lo@, hi@);
        }
        x2([W::unsafe_read_le(lo), W::unsafe_read_le(hi)])
    }

    fn unsafe_read_be(input: &[u8]) -> (r: Self) {
        let (lo, hi) = input.split_at(input.len() / 2);
        proof {
            let w: W = arbitrary();
            w.lemma_shape();
            assert(lo@ + hi@ =~= input@);
            lemma_from_be_bytes_concat(W::word_bits(), lo@, hi@);
        }
        x2([W::unsafe_read_be(lo), W::unsafe_read_be(hi)])
    }

    fn write_le(self, out: &mut [u8]) {
        let half = out.len() / 2;
        let (lo, hi) = out.split_at_mut(half);
        self.0[0].write_le(lo);
        self.0[1].write_le(hi);
        proof {
            lemma_le_bytes_concat(self.0[0]@, self.0[1]@);
        }
    }

    fn write_be(self, out: &mut [u8]) {
        let half = out.len() / 2;
        let (lo, hi) = out.split_at_mut(half);
        self.0[0].write_be(lo);
        self.0[1].write_be(hi);
        proof {
            self.0[0].lemma_shape();
            lemma_be_bytes_concat(W::word_bits(), self.0[0]@, self.0[1]@);
        }
    }
}

} // verus!
