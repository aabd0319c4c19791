//! The portable vector of one 128-bit word.
use crate::algebra::{vec_and, vec_andnot, vec_not, vec_or, vec_rotr, vec_swap_ranges, vec_xor};
use crate::crypto_simd_new::{
    AndNot, BitOps0, BitOps128, BitOps32, BitOps64, RotateEachWord128, RotateEachWord32,
    RotateEachWord64,
};
use crate::crypto_simd_new_types::{Swap64, UnsafeFrom};
use crate::shape::Shape;
use crate::storage::vec128_storage;
use crate::store::Store;
use crate::swar;
use core::marker::PhantomData;
use core::ops::{BitAnd, BitOr, BitXor, BitXorAssign, Not};
use vstd::prelude::*;

verus! {

/// A vector of one 128-bit word, computed with ordinary integer arithmetic.
/// The three type parameters are the capability tokens of the machine that the
/// type belongs to; they change nothing in what it computes.
#[allow(non_camel_case_types)]
pub struct u128x1_soft<S3, S4, NI> {
    lane: u128,
    s3: PhantomData<S3>,
    s4: PhantomData<S4>,
    ni: PhantomData<NI>,
}

impl<S3, S4, NI> Clone for u128x1_soft<S3, S4, NI> {
    fn clone(&self) -> (r: Self)
        ensures
            r == *self,
    {
        *self
    }
}

impl<S3, S4, NI> Copy for u128x1_soft<S3, S4, NI> {
}

impl<S3, S4, NI> View for u128x1_soft<S3, S4, NI> {
    type V = Seq<u128>;

    /// The one lane.
    closed spec fn view(&self) -> Seq<u128> {
        seq![self.lane]
    }
}

impl<S3, S4, NI> u128x1_soft<S3, S4, NI> {
    /// The vector whose lane is `lane`.
    pub closed spec fn of(lane: u128) -> Self {
        u128x1_soft { lane, s3: PhantomData, s4: PhantomData, ni: PhantomData }
    }

    /// A vector is its lane and nothing else.
    pub proof fn lemma_of(self, lane: u128)
        ensures
            self@.len() == 1,
            Self::of(self@[0]) == self,
            Self::of(lane)@ == seq![lane],
    {
        assert(self@[0] == self.lane);
    }

    fn new(lane: u128) -> (r: Self)
        ensures
            r == Self::of(lane),
            r@ == seq![lane],
    {
        u128x1_soft { lane, s3: PhantomData, s4: PhantomData, ni: PhantomData }
    }
}

impl<S3, S4, NI> Shape for u128x1_soft<S3, S4, NI> {
    open spec fn word_bits() -> nat {
        128
    }

    open spec fn lane_count() -> nat {
        1
    }

    proof fn lemma_shape(self) {
    }
}

impl<S3, S4, NI> BitAnd for u128x1_soft<S3, S4, NI> {
    type Output = Self;

    fn bitand(self, rhs: Self) -> (r: Self) {
        Self::new(self.lane & rhs.lane)
    }
}

impl<S3, S4, NI> vstd::std_specs::ops::BitAndSpecImpl for u128x1_soft<S3, S4, NI> {
    open spec fn obeys_bitand_spec() -> bool {
        true
    }

    open spec fn bitand_req(self, rhs: Self) -> bool {
        true
    }

    open spec fn bitand_spec(self, rhs: Self) -> Self {
        Self::of(vec_and(self@, rhs@)[0])
    }
}

impl<S3, S4, NI> BitOr for u128x1_soft<S3, S4, NI> {
    type Output = Self;

    fn bitor(self, rhs: Self) -> (r: Self) {
        Self::new(self.lane | rhs.lane)
    }
}

impl<S3, S4, NI> vstd::std_specs::ops::BitOrSpecImpl for u128x1_soft<S3, S4, NI> {
    open spec fn obeys_bitor_spec() -> bool {
        true
    }

    open spec fn bitor_req(self, rhs: Self) -> bool {
        true
    }

    open spec fn bitor_spec(self, rhs: Self) -> Self {
        Self::of(vec_or(self@, rhs@)[0])
    }
}

impl<S3, S4, NI> BitXor for u128x1_soft<S3, S4, NI> {
    type Output = Self;

    fn bitxor(self, rhs: Self) -> (r: Self) {
        Self::new(self.lane ^ rhs.lane)
    }
}

impl<S3, S4, NI> vstd::std_specs::ops::BitXorSpecImpl for u128x1_soft<S3, S4, NI> {
    open spec fn obeys_bitxor_spec() -> bool {
        true
    }

    open spec fn bitxor_req(self, rhs: Self) -> bool {
        true
    }

    open spec fn bitxor_spec(self, rhs: Self) -> Self {
        Self::of(vec_xor(self@, rhs@)[0])
    }
}

impl<S3, S4, NI> Not for u128x1_soft<S3, S4, NI> {
    type Output = Self;

    fn not(self) -> (r: Self) {
        Self::new(!self.lane)
    }
}

impl<S3, S4, NI> vstd::std_specs::ops::NotSpecImpl for u128x1_soft<S3, S4, NI> {
    open spec fn obeys_not_spec() -> bool {
        true
    }

    open spec fn not_req(self) -> bool {
        true
    }

    open spec fn not_spec(self) -> Self {
        Self::of(vec_not(self@)[0])
    }
}

impl<S3, S4, NI> AndNot for u128x1_soft<S3, S4, NI> {
    type Output = Self;

    open spec fn andnot_spec(self, rhs: Self) -> Self {
        Self::of(vec_andnot(self@, rhs@)[0])
    }

    fn andnot(self, rhs: Self) -> (r: Self) {
        Self::new(self.lane & !rhs.lane)
    }
}

impl<S3, S4, NI> BitXorAssign for u128x1_soft<S3, S4, NI> {
    /// `self` becomes `self ^ rhs`.
    fn bitxor_assign(&mut self, rhs: Self)
        ensures
            final(self)@ == vec_xor(old(self)@, rhs@),
    {
        self.lane = self.lane ^ rhs.lane;
        assert(self@ =~= vec_xor(old(self)@, rhs@));
    }
}

impl<S3, S4, NI> BitOps0 for u128x1_soft<S3, S4, NI> {
    proof fn lemma_bit_ops(a: Self, b: Self) {
        a.lemma_of(0);
        assert(Self::of(vec_and(a@, b@)[0])@ =~= vec_and(a@, b@)) by {
            a.lemma_of(vec_and(a@, b@)[0]);
        }
        assert(Self::of(vec_or(a@, b@)[0])@ =~= vec_or(a@, b@)) by {
            a.lemma_of(vec_or(a@, b@)[0]);
        }
        assert(Self::of(vec_xor(a@, b@)[0])@ =~= vec_xor(a@, b@)) by {
            a.lemma_of(vec_xor(a@, b@)[0]);
        }
        assert(Self::of(vec_not(a@)[0])@ =~= vec_not(a@)) by {
            a.lemma_of(vec_not(a@)[0]);
        }
        assert(Self::of(vec_andnot(a@, b@)[0])@ =~= vec_andnot(a@, b@)) by {
            a.lemma_of(vec_andnot(a@, b@)[0]);
        }
    }
}

impl<S3, S4, NI> RotateEachWord32 for u128x1_soft<S3, S4, NI> {
    fn rotate_each_word_right7(self) -> (r: Self) {
        let r = Self::new(swar::rotate_words128(self.lane, 7));
        assert(r@ =~= vec_rotr(128, self@, 7));
        r
    }
    fn rotate_each_word_right8(self) -> (r: Self) {
        let r = Self::new(swar::rotate_words128(self.lane, 8));
        assert(r@ =~= vec_rotr(128, self@, 8));
        r
    }
    fn rotate_each_word_right11(self) -> (r: Self) {
        let r = Self::new(swar::rotate_words128(self.lane, 11));
        assert(r@ =~= vec_rotr(128, self@, 11));
        r
    }
    fn rotate_each_word_right12(self) -> (r: Self) {
        let r = Self::new(swar::rotate_words128(self.lane, 12));
        assert(r@ =~= vec_rotr(128, self@, 12));
        r
    }
    fn rotate_each_word_right16(self) -> (r: Self) {
        let r = Self::new(swar::rotate_words128(self.lane, 16));
        assert(r@ =~= vec_rotr(128, self@, 16));
        r
    }
    fn rotate_each_word_right20(self) -> (r: Self) {
        let r = Self::new(swar::rotate_words128(self.lane, 20));
        assert(r@ =~= vec_rotr(128, self@, 20));
        r
    }
    fn rotate_each_word_right24(self) -> (r: Self) {
        let r = Self::new(swar::rotate_words128(self.lane, 24));
        assert(r@ =~= vec_rotr(128, self@, 24));
        r
    }
    fn rotate_each_word_right25(self) -> (r: Self) {
        let r = Self::new(swar::rotate_words128(self.lane, 25));
        assert(r@ =~= vec_rotr(128, self@, 25));
        r
    }
}

impl<S3, S4, NI> BitOps32 for u128x1_soft<S3, S4, NI> {
}

impl<S3, S4, NI> RotateEachWord64 for u128x1_soft<S3, S4, NI> {
    fn rotate_each_word_right32(self) -> (r: Self) {
        let r = Self::new(swar::rotate_words128(self.lane, 32));
        assert(r@ =~= vec_rotr(128, self@, 32));
        r
    }
}

impl<S3, S4, NI> BitOps64 for u128x1_soft<S3, S4, NI> {
}

impl<S3, S4, NI> RotateEachWord128 for u128x1_soft<S3, S4, NI> {
}

impl<S3, S4, NI> BitOps128 for u128x1_soft<S3, S4, NI> {
}

impl<S3, S4, NI> Store<vec128_storage> for u128x1_soft<S3, S4, NI> {
    fn unpack(p: vec128_storage) -> (r: Self) {
        Self::new(p.lane())
    }

    fn pack(self) -> (p: vec128_storage) {
        vec128_storage::from_lane(self.lane)
    }
}

impl<S3, S4, NI> UnsafeFrom<[u128; 1]> for u128x1_soft<S3, S4, NI> {
    /// The vector whose word is `t[0]`.
    closed spec fn unsafe_from_spec(t: [u128; 1]) -> Self {
        Self::of(t[0])
    }

    fn unsafe_from(t: [u128; 1]) -> (r: Self)
        ensures
            r@ == t@,
    {
        let r = Self::new(t[0]);
        assert(r@ =~= t@);
        r
    }
}

impl<S3, S4, NI> Swap64 for u128x1_soft<S3, S4, NI> {
    fn swap1(self) -> (r: Self) {
        let r = Self::new(swar::swap_ranges(self.lane, 1));
        assert(r@ =~= vec_swap_ranges(self@, 1));
        r
    }
    fn swap2(self) -> (r: Self) {
        let r = Self::new(swar::swap_ranges(self.lane, 2));
        assert(r@ =~= vec_swap_ranges(self@, 2));
        r
    }
    fn swap4(self) -> (r: Self) {
        let r = Self::new(swar::swap_ranges(self.lane, 4));
        assert(r@ =~= vec_swap_ranges(self@, 4));
        r
    }
    fn swap8(self) -> (r: Self) {
        let r = Self::new(swar::swap_ranges(self.lane, 8));
        assert(r@ =~= vec_swap_ranges(self@, 8));
        r
    }
    fn swap16(self) -> (r: Self) {
        let r = Self::new(swar::swap_ranges(self.lane, 16));
        assert(r@ =~= vec_swap_ranges(self@, 16));
        r
    }
    fn swap32(self) -> (r: Self) {
        let r = Self::new(swar::swap_ranges(self.lane, 32));
        assert(r@ =~= vec_swap_ranges(self@, 32));
        r
    }
    fn swap64(self) -> (r: Self) {
        let r = Self::new(swar::swap_ranges(self.lane, 64));
        assert(r@ =~= vec_swap_ranges(self@, 64));
        r
    }
}

impl<S3, S4, NI> crate::crypto_simd_new_types::u128x1 for u128x1_soft<S3, S4, NI> {
    proof fn lemma_u128x1(self) {
    }
}

} // verus!
