//! The portable vector of four lanes: four single-lane vectors side by side.
use crate::algebra::{
    vec_add, vec_and, vec_andnot, vec_not, vec_or, vec_rotr, vec_shuffle_lane_words, vec_swap_bytes,
    vec_swap_ranges, vec_xor,
};
use crate::crypto_simd_new::{
    AndNot, ArithOps, BSwap, BitOps0, BitOps128, BitOps32, BitOps64, RotateEachWord128,
    RotateEachWord32, RotateEachWord64,
};
use crate::crypto_simd_new_types::{
    u128x1, u128x4, u32x4, u32x4x4, u64x2, u64x2x4, LaneWords4, MultiLane, Swap64, Vec4,
};
use crate::shape::Shape;
use crate::storage::{vec128_storage, vec512_storage};
use crate::store::Store;
use core::ops::{Add, AddAssign, BitAnd, BitOr, BitXor, BitXorAssign, Not};
use vstd::prelude::*;
use vstd::std_specs::ops::{AddSpec, BitAndSpec, BitOrSpec, BitXorSpec, NotSpec};

verus! {

/// A vector of four lanes, made of four single-lane vectors of type `W`, lane
/// 0 first. Every operation works on each lane as `W` does.
#[allow(non_camel_case_types)]
pub struct x4<W>(pub [W; 4]);

impl<W: Copy> Clone for x4<W> {
    fn clone(&self) -> (r: Self)
        ensures
            r == *self,
    {
        *self
    }
}

impl<W: Copy> Copy for x4<W> {
}

impl<W: View<V = Seq<u128>>> View for x4<W> {
    type V = Seq<u128>;

    /// The lanes of the four vectors, one after the other.
    open spec fn view(&self) -> Seq<u128> {
        self.0[0]@ + self.0[1]@ + self.0[2]@ + self.0[3]@
    }
}

impl<W: Shape> Shape for x4<W> {
    open spec fn word_bits() -> nat {
        W::word_bits()
    }

    open spec fn lane_count() -> nat {
        4 * W::lane_count()
    }

    proof fn lemma_shape(self) {
        self.0[0].lemma_shape();
        self.0[1].lemma_shape();
        self.0[2].lemma_shape();
        self.0[3].lemma_shape();
    }
}

impl<W: BitOps0> BitAnd for x4<W> {
    type Output = Self;

    fn bitand(self, rhs: Self) -> (r: Self) {
        proof {
            W::lemma_bit_ops(self.0[0], rhs.0[0]);
            W::lemma_bit_ops(self.0[1], rhs.0[1]);
            W::lemma_bit_ops(self.0[2], rhs.0[2]);
            W::lemma_bit_ops(self.0[3], rhs.0[3]);
        }
        x4([self.0[0] & rhs.0[0], self.0[1] & rhs.0[1], self.0[2] & rhs.0[2], self.0[3] & rhs.0[3]])
    }
}

impl<W: BitOps0> vstd::std_specs::ops::BitAndSpecImpl for x4<W> {
    open spec fn obeys_bitand_spec() -> bool {
        true
    }

    open spec fn bitand_req(self, rhs: Self) -> bool {
        true
    }

    open spec fn bitand_spec(self, rhs: Self) -> Self {
        x4([self.0[0].bitand_spec(rhs.0[0]), self.0[1].bitand_spec(rhs.0[1]), self.0[2].bitand_spec(rhs.0[2]), self.0[3].bitand_spec(rhs.0[3])])
    }
}

impl<W: BitOps0> BitOr for x4<W> {
    type Output = Self;

    fn bitor(self, rhs: Self) -> (r: Self) {
        proof {
            W::lemma_bit_ops(self.0[0], rhs.0[0]);
            W::lemma_bit_ops(self.0[1], rhs.0[1]);
            W::lemma_bit_ops(self.0[2], rhs.0[2]);
            W::lemma_bit_ops(self.0[3], rhs.0[3]);
        }
        x4([self.0[0] | rhs.0[0], self.0[1] | rhs.0[1], self.0[2] | rhs.0[2], self.0[3] | rhs.0[3]])
    }
}

impl<W: BitOps0> vstd::std_specs::ops::BitOrSpecImpl for x4<W> {
    open spec fn obeys_bitor_spec() -> bool {
        true
    }

    open spec fn bitor_req(self, rhs: Self) -> bool {
        true
    }

    open spec fn bitor_spec(self, rhs: Self) -> Self {
        x4([self.0[0].bitor_spec(rhs.0[0]), self.0[1].bitor_spec(rhs.0[1]), self.0[2].bitor_spec(rhs.0[2]), self.0[3].bitor_spec(rhs.0[3])])
    }
}

impl<W: BitOps0> BitXor for x4<W> {
    type Output = Self;

    fn bitxor(self, rhs: Self) -> (r: Self) {
        proof {
            W::lemma_bit_ops(self.0[0], rhs.0[0]);
            W::lemma_bit_ops(self.0[1], rhs.0[1]);
            W::lemma_bit_ops(self.0[2], rhs.0[2]);
            W::lemma_bit_ops(self.0[3], rhs.0[3]);
        }
        x4([self.0[0] ^ rhs.0[0], self.0[1] ^ rhs.0[1], self.0[2] ^ rhs.0[2], self.0[3] ^ rhs.0[3]])
    }
}

impl<W: BitOps0> vstd::std_specs::ops::BitXorSpecImpl for x4<W> {
    open spec fn obeys_bitxor_spec() -> bool {
        true
    }

    open spec fn bitxor_req(self, rhs: Self) -> bool {
        true
    }

    open spec fn bitxor_spec(self, rhs: Self) -> Self {
        x4([self.0[0].bitxor_spec(rhs.0[0]), self.0[1].bitxor_spec(rhs.0[1]), self.0[2].bitxor_spec(rhs.0[2]), self.0[3].bitxor_spec(rhs.0[3])])
    }
}

impl<W: BitOps0> Not for x4<W> {
    type Output = Self;

    fn not(self) -> (r: Self) {
        proof {
            W::lemma_bit_ops(self.0[0], self.0[0]);
            W::lemma_bit_ops(self.0[1], self.0[1]);
            W::lemma_bit_ops(self.0[2], self.0[2]);
            W::lemma_bit_ops(self.0[3], self.0[3]);
        }
        x4([!self.0[0], !self.0[1], !self.0[2], !self.0[3]])
    }
}

impl<W: BitOps0> vstd::std_specs::ops::NotSpecImpl for x4<W> {
    open spec fn obeys_not_spec() -> bool {
        true
    }

    open spec fn not_req(self) -> bool {
        true
    }

    open spec fn not_spec(self) -> Self {
        x4([self.0[0].not_spec(), self.0[1].not_spec(), self.0[2].not_spec(), self.0[3].not_spec()])
    }
}

impl<W: BitOps0> AndNot for x4<W> {
    type Output = Self;

    open spec fn andnot_spec(self, rhs: Self) -> Self {
        x4([self.0[0].andnot_spec(rhs.0[0]), self.0[1].andnot_spec(rhs.0[1]), self.0[2].andnot_spec(rhs.0[2]), self.0[3].andnot_spec(rhs.0[3])])
    }

    fn andnot(self, rhs: Self) -> (r: Self) {
        x4([self.0[0].andnot(rhs.0[0]), self.0[1].andnot(rhs.0[1]), self.0[2].andnot(rhs.0[2]), self.0[3].andnot(rhs.0[3])])
    }
}

impl<W: BitOps0> BitXorAssign for x4<W> {
    /// `self` becomes `self ^ rhs`.
    fn bitxor_assign(&mut self, rhs: Self)
        ensures
            final(self)@ == vec_xor(old(self)@, rhs@),
    {
        proof {
            Self::lemma_bit_ops(*self, rhs);
        }
        *self = *self ^ rhs;
    }
}

impl<W: BitOps0> BitOps0 for x4<W> {
    proof fn lemma_bit_ops(a: Self, b: Self) {
        W::lemma_bit_ops(a.0[0], b.0[0]);
        a.0[0].lemma_shape();
        b.0[0].lemma_shape();
        W::lemma_bit_ops(a.0[1], b.0[1]);
        a.0[1].lemma_shape();
        b.0[1].lemma_shape();
        W::lemma_bit_ops(a.0[2], b.0[2]);
        a.0[2].lemma_shape();
        b.0[2].lemma_shape();
        W::lemma_bit_ops(a.0[3], b.0[3]);
        a.0[3].lemma_shape();
        b.0[3].lemma_shape();
        assert(a.bitand_spec(b)@ =~= vec_and(a@, b@));
        assert(a.bitor_spec(b)@ =~= vec_or(a@, b@));
        assert(a.bitxor_spec(b)@ =~= vec_xor(a@, b@));
        assert(a.not_spec()@ =~= vec_not(a@));
        assert(a.andnot_spec(b)@ =~= vec_andnot(a@, b@));
    }
}

impl<W: RotateEachWord32 + Copy> RotateEachWord32 for x4<W> {
    fn rotate_each_word_right7(self) -> (r: Self) {
        let r = x4([self.0[0].rotate_each_word_right7(), self.0[1].rotate_each_word_right7(), self.0[2].rotate_each_word_right7(), self.0[3].rotate_each_word_right7()]);
        assert(r@ =~= vec_rotr(Self::word_bits(), self@, 7));
        r
    }

    fn rotate_each_word_right8(self) -> (r: Self) {
        let r = x4([self.0[0].rotate_each_word_right8(), self.0[1].rotate_each_word_right8(), self.0[2].rotate_each_word_right8(), self.0[3].rotate_each_word_right8()]);
        assert(r@ =~= vec_rotr(Self::word_bits(), self@, 8));
        r
    }

    fn rotate_each_word_right11(self) -> (r: Self) {
        let r = x4([self.0[0].rotate_each_word_right11(), self.0[1].rotate_each_word_right11(), self.0[2].rotate_each_word_right11(), self.0[3].rotate_each_word_right11()]);
        assert(r@ =~= vec_rotr(Self::word_bits(), self@, 11));
        r
    }

    fn rotate_each_word_right12(self) -> (r: Self) {
        let r = x4([self.0[0].rotate_each_word_right12(), self.0[1].rotate_each_word_right12(), self.0[2].rotate_each_word_right12(), self.0[3].rotate_each_word_right12()]);
        assert(r@ =~= vec_rotr(Self::word_bits(), self@, 12));
        r
    }

    fn rotate_each_word_right16(self) -> (r: Self) {
        let r = x4([self.0[0].rotate_each_word_right16(), self.0[1].rotate_each_word_right16(), self.0[2].rotate_each_word_right16(), self.0[3].rotate_each_word_right16()]);
        assert(r@ =~= vec_rotr(Self::word_bits(), self@, 16));
        r
    }

    fn rotate_each_word_right20(self) -> (r: Self) {
        let r = x4([self.0[0].rotate_each_word_right20(), self.0[1].rotate_each_word_right20(), self.0[2].rotate_each_word_right20(), self.0[3].rotate_each_word_right20()]);
        assert(r@ =~= vec_rotr(Self::word_bits(), self@, 20));
        r
    }

    fn rotate_each_word_right24(self) -> (r: Self) {
        let r = x4([self.0[0].rotate_each_word_right24(), self.0[1].rotate_each_word_right24(), self.0[2].rotate_each_word_right24(), self.0[3].rotate_each_word_right24()]);
        assert(r@ =~= vec_rotr(Self::word_bits(), self@, 24));
        r
    }

    fn rotate_each_word_right25(self) -> (r: Self) {
        let r = x4([self.0[0].rotate_each_word_right25(), self.0[1].rotate_each_word_right25(), self.0[2].rotate_each_word_right25(), self.0[3].rotate_each_word_right25()]);
        assert(r@ =~= vec_rotr(Self::word_bits(), self@, 25));
        r
    }

}

impl<W: RotateEachWord64 + Copy> RotateEachWord64 for x4<W> {
    fn rotate_each_word_right32(self) -> (r: Self) {
        let r = x4([self.0[0].rotate_each_word_right32(), self.0[1].rotate_each_word_right32(), self.0[2].rotate_each_word_right32(), self.0[3].rotate_each_word_right32()]);
        assert(r@ =~= vec_rotr(Self::word_bits(), self@, 32));
        r
    }
}

impl<W: RotateEachWord128> RotateEachWord128 for x4<W> {
}

impl<W: BitOps32> BitOps32 for x4<W> {
}

impl<W: BitOps64> BitOps64 for x4<W> {
}

impl<W: BitOps128> BitOps128 for x4<W> {
}

impl<W: ArithOps> Add for x4<W> {
    type Output = Self;

    fn add(self, rhs: Self) -> (r: Self) {
        proof {
            W::lemma_arith_ops(self.0[0], rhs.0[0]);
            W::lemma_arith_ops(self.0[1], rhs.0[1]);
            W::lemma_arith_ops(self.0[2], rhs.0[2]);
            W::lemma_arith_ops(self.0[3], rhs.0[3]);
        }
        x4([self.0[0] + rhs.0[0], self.0[1] + rhs.0[1], self.0[2] + rhs.0[2], self.0[3] + rhs.0[3]])
    }
}

impl<W: ArithOps> vstd::std_specs::ops::AddSpecImpl for x4<W> {
    open spec fn obeys_add_spec() -> bool {
        true
    }

    open spec fn add_req(self, rhs: Self) -> bool {
        true
    }

    open spec fn add_spec(self, rhs: Self) -> Self {
        x4([self.0[0].add_spec(rhs.0[0]), self.0[1].add_spec(rhs.0[1]), self.0[2].add_spec(rhs.0[2]), self.0[3].add_spec(rhs.0[3])])
    }
}

impl<W: ArithOps> AddAssign for x4<W> {
    /// `self` becomes `self + rhs`.
    fn add_assign(&mut self, rhs: Self)
        ensures
            final(self)@ == vec_add(Self::word_bits(), old(self)@, rhs@),
    {
        proof {
            Self::lemma_arith_ops(*self, rhs);
        }
        *self = *self + rhs;
    }
}

impl<W: BSwap + Copy> BSwap for x4<W> {
    fn bswap(self) -> (r: Self) {
        let r = x4([self.0[0].bswap(), self.0[1].bswap(), self.0[2].bswap(), self.0[3].bswap()]);
        assert(r@ =~= vec_swap_bytes(Self::word_bits(), self@));
        r
    }
}

impl<W: ArithOps> ArithOps for x4<W> {
    proof fn lemma_arith_ops(a: Self, b: Self) {
        W::lemma_arith_ops(a.0[0], b.0[0]);
        a.0[0].lemma_shape();
        b.0[0].lemma_shape();
        W::lemma_arith_ops(a.0[1], b.0[1]);
        a.0[1].lemma_shape();
        b.0[1].lemma_shape();
        W::lemma_arith_ops(a.0[2], b.0[2]);
        a.0[2].lemma_shape();
        b.0[2].lemma_shape();
        W::lemma_arith_ops(a.0[3], b.0[3]);
        a.0[3].lemma_shape();
        b.0[3].lemma_shape();
        assert(a.add_spec(b)@ =~= vec_add(Self::word_bits(), a@, b@));
    }
}

impl<W: Swap64 + Copy> Swap64 for x4<W> {
    fn swap1(self) -> (r: Self) {
        let r = x4([self.0[0].swap1(), self.0[1].swap1(), self.0[2].swap1(), self.0[3].swap1()]);
        assert(r@ =~= vec_swap_ranges(self@, 1));
        r
    }

    fn swap2(self) -> (r: Self) {
        let r = x4([self.0[0].swap2(), self.0[1].swap2(), self.0[2].swap2(), self.0[3].swap2()]);
        assert(r@ =~= vec_swap_ranges(self@, 2));
        r
    }

    fn swap4(self) -> (r: Self) {
        let r = x4([self.0[0].swap4(), self.0[1].swap4(), self.0[2].swap4(), self.0[3].swap4()]);
        assert(r@ =~= vec_swap_ranges(self@, 4));
        r
    }

    fn swap8(self) -> (r: Self) {
        let r = x4([self.0[0].swap8(), self.0[1].swap8(), self.0[2].swap8(), self.0[3].swap8()]);
        assert(r@ =~= vec_swap_ranges(self@, 8));
        r
    }

    fn swap16(self) -> (r: Self) {
        let r = x4([self.0[0].swap16(), self.0[1].swap16(), self.0[2].swap16(), self.0[3].swap16()]);
        assert(r@ =~= vec_swap_ranges(self@, 16));
        r
    }

    fn swap32(self) -> (r: Self) {
        let r = x4([self.0[0].swap32(), self.0[1].swap32(), self.0[2].swap32(), self.0[3].swap32()]);
        assert(r@ =~= vec_swap_ranges(self@, 32));
        r
    }

    fn swap64(self) -> (r: Self) {
        let r = x4([self.0[0].swap64(), self.0[1].swap64(), self.0[2].swap64(), self.0[3].swap64()]);
        assert(r@ =~= vec_swap_ranges(self@, 64));
        r
    }

}

impl<W: Store<vec128_storage> + Copy> Store<vec512_storage> for x4<W> {
    fn unpack(p: vec512_storage) -> (r: Self) {
        let l = p.lanes();
        let r = x4([W::unpack(vec128_storage::from_lane(l[0])), W::unpack(vec128_storage::from_lane(l[1])), W::unpack(vec128_storage::from_lane(l[2])), W::unpack(vec128_storage::from_lane(l[3]))]);
        assert(r@ =~= p@);
        r
    }

    fn pack(self) -> (p: vec512_storage) {
        let l0 = self.0[0].pack().lane();
        let l1 = self.0[1].pack().lane();
        let l2 = self.0[2].pack().lane();
        let l3 = self.0[3].pack().lane();
        let p = vec512_storage::from_lanes([l0, l1, l2, l3]);
        assert(p@ =~= self@);
        p
    }
}

impl<W: Copy> Vec4<W> for x4<W> {
    /// The four single-lane vectors.
    open spec fn elements(self) -> Seq<W> {
        self.0@
    }

    proof fn lemma_elements(self) {
    }

    fn extract(self, i: u32) -> (w: W) {
        self.0[i as usize]
    }

    fn insert(self, w: W, i: u32) -> (r: Self) {
        let mut lanes = self.0;
        lanes[i as usize] = w;
        x4(lanes)
    }
}

impl<W> MultiLane<[W; 4]> for x4<W> {
    /// The four single-lane vectors.
    open spec fn to_lanes_spec(self) -> [W; 4] {
        self.0
    }

    /// The vector made of the four single-lane vectors.
    open spec fn from_lanes_spec(lanes: [W; 4]) -> Self {
        x4(lanes)
    }

    proof fn lemma_lanes_round_trip(v: Self, lanes: [W; 4]) {
    }

    fn to_lanes(self) -> (lanes: [W; 4]) {
        self.0
    }

    fn from_lanes(lanes: [W; 4]) -> (r: Self) {
        x4(lanes)
    }
}

impl<W: u32x4> u32x4x4<W> for x4<W> {
    proof fn lemma_u32x4x4(self) {
        self.0[0].lemma_u32x4();
    }
}

impl<W: u128x1> u128x4<W> for x4<W> {
    proof fn lemma_u128x4(self) {
        self.0[0].lemma_u128x1();
    }
}

impl<W: u64x2> u64x2x4<W> for x4<W> {
    proof fn lemma_u64x2x4(self) {
        self.0[0].lemma_u64x2();
    }
}

impl<W: LaneWords4 + Copy> LaneWords4 for x4<W> {
    fn shuffle_lane_words1230(self) -> (r: Self) {
        let r = x4([self.0[0].shuffle_lane_words1230(), self.0[1].shuffle_lane_words1230(), self.0[2].shuffle_lane_words1230(), self.0[3].shuffle_lane_words1230()]);
        assert(r@ =~= vec_shuffle_lane_words(self@, 1));
        r
    }

    fn shuffle_lane_words2301(self) -> (r: Self) {
        let r = x4([self.0[0].shuffle_lane_words2301(), self.0[1].shuffle_lane_words2301(), self.0[2].shuffle_lane_words2301(), self.0[3].shuffle_lane_words2301()]);
        assert(r@ =~= vec_shuffle_lane_words(self@, 2));
        r
    }

    fn shuffle_lane_words3012(self) -> (r: Self) {
        let r = x4([self.0[0].shuffle_lane_words3012(), self.0[1].shuffle_lane_words3012(), self.0[2].shuffle_lane_words3012(), self.0[3].shuffle_lane_words3012()]);
        assert(r@ =~= vec_shuffle_lane_words(self@, 3));
        r
    }
}

} // verus!
