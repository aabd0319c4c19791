//! The portable vector of four 32-bit words.
use crate::algebra::{
    vec_add, vec_and, vec_andnot, vec_not, vec_or, vec_rotr, vec_shuffle_lane_words,
    vec_shuffle_words4, vec_swap_bytes, vec_xor,
};
use crate::crypto_simd_new::{AndNot, ArithOps, BSwap, BitOps0, BitOps32, RotateEachWord32};
use crate::crypto_simd_new_types::{LaneWords4, UnsafeFrom, Vec4, Words4};
use crate::lane::{from_words32, words32};
use crate::laws::{
    lemma_be_bytes_of_swapped, lemma_from_be_bytes_swapped, lemma_le_bytes_one_lane,
};
use crate::shape::Shape;
use crate::storage::vec128_storage;
use crate::store::{Store, StoreBytes};
use crate::swar;
use core::marker::PhantomData;
use core::ops::{Add, AddAssign, BitAnd, BitOr, BitXor, BitXorAssign, Not};
use vstd::prelude::*;

verus! {

/// A vector of four 32-bit words, computed with ordinary integer arithmetic.
/// The three type parameters are the capability tokens of the machine that the
/// type belongs to; they change nothing in what it computes.
#[allow(non_camel_case_types)]
pub struct u32x4_soft<S3, S4, NI> {
    lane: u128,
    s3: PhantomData<S3>,
    s4: PhantomData<S4>,
    ni: PhantomData<NI>,
}

impl<S3, S4, NI> Clone for u32x4_soft<S3, S4, NI> {
    fn clone(&self) -> (r: Self)
        ensures
            r == *self,
    {
        *self
    }
}

impl<S3, S4, NI> Copy for u32x4_soft<S3, S4, NI> {
}

impl<S3, S4, NI> View for u32x4_soft<S3, S4, NI> {
    type V = Seq<u128>;

    /// The one lane.
    closed spec fn view(&self) -> Seq<u128> {
        seq![self.lane]
    }
}

impl<S3, S4, NI> u32x4_soft<S3, S4, NI> {
    /// The vector whose lane is `lane`.
    pub closed spec fn of(lane: u128) -> Self {
        u32x4_soft { lane, s3: PhantomData, s4: PhantomData, ni: PhantomData }
    }

    /// A vector is its lane and nothing else.
    pub proof fn lemma_of(self, lane: u128)
        ensures
            self@.len() == 1,
            Self::of(self@[0]) == self,
            Self::of(lane)@ == seq![lane],
    {
        assert(self@[0] == self.lane);
    }

    fn new(lane: u128) -> (r: Self)
        ensures
            r == Self::of(lane),
            r@ == seq![lane],
    {
        u32x4_soft { lane, s3: PhantomData, s4: PhantomData, ni: PhantomData }
    }
}

impl<S3, S4, NI> Shape for u32x4_soft<S3, S4, NI> {
    open spec fn word_bits() -> nat {
        32
    }

    open spec fn lane_count() -> nat {
        1
    }

    proof fn lemma_shape(self) {
    }
}

impl<S3, S4, NI> BitAnd for u32x4_soft<S3, S4, NI> {
    type Output = Self;

    fn bitand(self, rhs: Self) -> (r: Self) {
        Self::new(self.lane & rhs.lane)
    }
}

impl<S3, S4, NI> vstd::std_specs::ops::BitAndSpecImpl for u32x4_soft<S3, S4, NI> {
    open spec fn obeys_bitand_spec() -> bool {
        true
    }

    open spec fn bitand_req(self, rhs: Self) -> bool {
        true
    }

    open spec fn bitand_spec(self, rhs: Self) -> Self {
        Self::of(vec_and(self@, rhs@)[0])
    }
}

impl<S3, S4, NI> BitOr for u32x4_soft<S3, S4, NI> {
    type Output = Self;

    fn bitor(self, rhs: Self) -> (r: Self) {
        Self::new(self.lane | rhs.lane)
    }
}

impl<S3, S4, NI> vstd::std_specs::ops::BitOrSpecImpl for u32x4_soft<S3, S4, NI> {
    open spec fn obeys_bitor_spec() -> bool {
        true
    }

    open spec fn bitor_req(self, rhs: Self) -> bool {
        true
    }

    open spec fn bitor_spec(self, rhs: Self) -> Self {
        Self::of(vec_or(self@, rhs@)[0])
    }
}

impl<S3, S4, NI> BitXor for u32x4_soft<S3, S4, NI> {
    type Output = Self;

    fn bitxor(self, rhs: Self) -> (r: Self) {
        Self::new(self.lane ^ rhs.lane)
    }
}

impl<S3, S4, NI> vstd::std_specs::ops::BitXorSpecImpl for u32x4_soft<S3, S4, NI> {
    open spec fn obeys_bitxor_spec() -> bool {
        true
    }

    open spec fn bitxor_req(self, rhs: Self) -> bool {
        true
    }

    open spec fn bitxor_spec(self, rhs: Self) -> Self {
        Self::of(vec_xor(self@, rhs@)[0])
    }
}

impl<S3, S4, NI> Not for u32x4_soft<S3, S4, NI> {
    type Output = Self;

    fn not(self) -> (r: Self) {
        Self::new(!self.lane)
    }
}

impl<S3, S4, NI> vstd::std_specs::ops::NotSpecImpl for u32x4_soft<S3, S4, NI> {
    open spec fn obeys_not_spec() -> bool {
        true
    }

    open spec fn not_req(self) -> bool {
        true
    }

    open spec fn not_spec(self) -> Self {
        Self::of(vec_not(self@)[0])
    }
}

impl<S3, S4, NI> AndNot for u32x4_soft<S3, S4, NI> {
    type Output = Self;

    open spec fn andnot_spec(self, rhs: Self) -> Self {
        Self::of(vec_andnot(self@, rhs@)[0])
    }

    fn andnot(self, rhs: Self) -> (r: Self) {
        Self::new(self.lane & !rhs.lane)
    }
}

impl<S3, S4, NI> BitXorAssign for u32x4_soft<S3, S4, NI> {
    /// `self` becomes `self ^ rhs`.
    fn bitxor_assign(&mut self, rhs: Self)
        ensures
            final(self)@ == vec_xor(old(self)@, rhs@),
    {
        self.lane = self.lane ^ rhs.lane;
        assert(self@ =~= vec_xor(old(self)@, rhs@));
    }
}

impl<S3, S4, NI> BitOps0 for u32x4_soft<S3, S4, NI> {
    proof fn lemma_bit_ops(a: Self, b: Self) {
        a.lemma_of(0);
        assert(Self::of(vec_and(a@, b@)[0])@ =~= vec_and(a@, b@)) by {
            a.lemma_of(vec_and(a@, b@)[0]);
        }
        assert(Self::of(vec_or(a@, b@)[0])@ =~= vec_or(a@, b@)) by {
            a.lemma_of(vec_or(a@, b@)[0]);
        }
        assert(Self::of(vec_xor(a@, b@)[0])@ =~= vec_xor(a@, b@)) by {
            a.lemma_of(vec_xor(a@, b@)[0]);
        }
        assert(Self::of(vec_not(a@)[0])@ =~= vec_not(a@)) by {
            a.lemma_of(vec_not(a@)[0]);
        }
        assert(Self::of(vec_andnot(a@, b@)[0])@ =~= vec_andnot(a@, b@)) by {
            a.lemma_of(vec_andnot(a@, b@)[0]);
        }
    }
}

impl<S3, S4, NI> RotateEachWord32 for u32x4_soft<S3, S4, NI> {
    fn rotate_each_word_right7(self) -> (r: Self) {
        let r = Self::new(swar::rotate_words32(self.lane, 7));
        assert(r@ =~= vec_rotr(32, self@, 7));
        r
    }
    fn rotate_each_word_right8(self) -> (r: Self) {
        let r = Self::new(swar::rotate_words32(self.lane, 8));
        assert(r@ =~= vec_rotr(32, self@, 8));
        r
    }
    fn rotate_each_word_right11(self) -> (r: Self) {
        let r = Self::new(swar::rotate_words32(self.lane, 11));
        assert(r@ =~= vec_rotr(32, self@, 11));
        r
    }
    fn rotate_each_word_right12(self) -> (r: Self) {
        let r = Self::new(swar::rotate_words32(self.lane, 12));
        assert(r@ =~= vec_rotr(32, self@, 12));
        r
    }
    fn rotate_each_word_right16(self) -> (r: Self) {
        let r = Self::new(swar::rotate_words32(self.lane, 16));
        assert(r@ =~= vec_rotr(32, self@, 16));
        r
    }
    fn rotate_each_word_right20(self) -> (r: Self) {
        let r = Self::new(swar::rotate_words32(self.lane, 20));
        assert(r@ =~= vec_rotr(32, self@, 20));
        r
    }
    fn rotate_each_word_right24(self) -> (r: Self) {
        let r = Self::new(swar::rotate_words32(self.lane, 24));
        assert(r@ =~= vec_rotr(32, self@, 24));
        r
    }
    fn rotate_each_word_right25(self) -> (r: Self) {
        let r = Self::new(swar::rotate_words32(self.lane, 25));
        assert(r@ =~= vec_rotr(32, self@, 25));
        r
    }
}

impl<S3, S4, NI> BitOps32 for u32x4_soft<S3, S4, NI> {
}

impl<S3, S4, NI> Add for u32x4_soft<S3, S4, NI> {
    type Output = Self;

    fn add(self, rhs: Self) -> (r: Self) {
        Self::new(swar::add_words32(self.lane, rhs.lane))
    }
}

impl<S3, S4, NI> vstd::std_specs::ops::AddSpecImpl for u32x4_soft<S3, S4, NI> {
    open spec fn obeys_add_spec() -> bool {
        true
    }

    open spec fn add_req(self, rhs: Self) -> bool {
        true
    }

    open spec fn add_spec(self, rhs: Self) -> Self {
        Self::of(vec_add(32, self@, rhs@)[0])
    }
}

impl<S3, S4, NI> AddAssign for u32x4_soft<S3, S4, NI> {
    /// `self` becomes `self + rhs`.
    fn add_assign(&mut self, rhs: Self)
        ensures
            final(self)@ == vec_add(32, old(self)@, rhs@),
    {
        self.lane = swar::add_words32(self.lane, rhs.lane);
        assert(self@ =~= vec_add(32, old(self)@, rhs@));
    }
}

impl<S3, S4, NI> BSwap for u32x4_soft<S3, S4, NI> {
    fn bswap(self) -> (r: Self) {
        let r = Self::new(swar::swap_bytes32(self.lane));
        assert(r@ =~= vec_swap_bytes(32, self@));
        r
    }
}

impl<S3, S4, NI> ArithOps for u32x4_soft<S3, S4, NI> {
    proof fn lemma_arith_ops(a: Self, b: Self) {
        a.lemma_of(vec_add(32, a@, b@)[0]);
        assert(Self::of(vec_add(32, a@, b@)[0])@ =~= vec_add(32, a@, b@));
    }
}

impl<S3, S4, NI> StoreBytes for u32x4_soft<S3, S4, NI> {
    fn unsafe_read_le(input: &[u8]) -> (r: Self) {
        proof {
            assert(input@.subrange(0, 16) =~= input@);
            lemma_le_bytes_one_lane(0, input@);
        }
        Self::new(swar::from_bytes_at(input, 0))
    }

    fn unsafe_read_be(input: &[u8]) -> (r: Self) {
        let l = swar::from_bytes_at(input, 0);
        let r = Self::new(swar::swap_bytes32(l));
        proof {
            assert(input@.subrange(0, 16) =~= input@);
            lemma_le_bytes_one_lane(0, input@);
            lemma_from_be_bytes_swapped(32, input@);
            assert(r@ =~= vec_swap_bytes(32, seq![l]));
        }
        r
    }

    fn write_le(self, out: &mut [u8]) {
        swar::put_bytes_at(self.lane, out, 0);
        proof {
            assert(out@.subrange(0, 16) =~= out@);
            lemma_le_bytes_one_lane(self.lane, out@);
        }
    }

    fn write_be(self, out: &mut [u8]) {
        let l = swar::swap_bytes32(self.lane);
        swar::put_bytes_at(l, out, 0);
        proof {
            assert(out@.subrange(0, 16) =~= out@);
            lemma_le_bytes_one_lane(l, out@);
            lemma_be_bytes_of_swapped(32, self@);
            assert(vec_swap_bytes(32, self@) =~= seq![l]);
        }
    }
}

impl<S3, S4, NI> Store<vec128_storage> for u32x4_soft<S3, S4, NI> {
    fn unpack(p: vec128_storage) -> (r: Self) {
        Self::new(p.lane())
    }

    fn pack(self) -> (p: vec128_storage) {
        vec128_storage::from_lane(self.lane)
    }
}

impl<S3, S4, NI> Vec4<u32> for u32x4_soft<S3, S4, NI> {
    /// The words of the lane.
    closed spec fn elements(self) -> Seq<u32> {
        words32(self.lane)
    }

    proof fn lemma_elements(self) {
    }

    fn extract(self, i: u32) -> (w: u32) {
        let x = swar::split32(self.lane);
        x[i as usize]
    }

    fn insert(self, w: u32, i: u32) -> (r: Self) {
        let mut x = swar::split32(self.lane);
        x[i as usize] = w;
        let r = Self::new(swar::join32(x));
        proof {
            crate::lane::lemma_words32_of_from_words32(x@);
        }
        r
    }
}

impl<S3, S4, NI> UnsafeFrom<[u32; 4]> for u32x4_soft<S3, S4, NI> {
    /// The vector whose words are `t`.
    closed spec fn unsafe_from_spec(t: [u32; 4]) -> Self {
        Self::of(from_words32(t@))
    }

    fn unsafe_from(t: [u32; 4]) -> (r: Self)
        ensures
            r@ == seq![from_words32(t@)],
    {
        Self::new(swar::join32(t))
    }
}

impl<S3, S4, NI> Words4 for u32x4_soft<S3, S4, NI> {
    proof fn lemma_four_words() {
    }

    fn shuffle1230(self) -> (r: Self) {
        let r = Self::new(swar::shuffle32(self.lane, 1));
        assert(r@ =~= vec_shuffle_words4(32, self@, 1));
        r
    }

    fn shuffle2301(self) -> (r: Self) {
        let r = Self::new(swar::shuffle32(self.lane, 2));
        assert(r@ =~= vec_shuffle_words4(32, self@, 2));
        r
    }

    fn shuffle3012(self) -> (r: Self) {
        let r = Self::new(swar::shuffle32(self.lane, 3));
        assert(r@ =~= vec_shuffle_words4(32, self@, 3));
        r
    }
}

impl<S3, S4, NI> LaneWords4 for u32x4_soft<S3, S4, NI> {
    fn shuffle_lane_words1230(self) -> (r: Self) {
        let r = Self::new(swar::shuffle32(self.lane, 1));
        assert(r@ =~= vec_shuffle_lane_words(self@, 1));
        r
    }

    fn shuffle_lane_words2301(self) -> (r: Self) {
        let r = Self::new(swar::shuffle32(self.lane, 2));
        assert(r@ =~= vec_shuffle_lane_words(self@, 2));
        r
    }

    fn shuffle_lane_words3012(self) -> (r: Self) {
        let r = Self::new(swar::shuffle32(self.lane, 3));
        assert(r@ =~= vec_shuffle_lane_words(self@, 3));
        r
    }
}

impl<S3, S4, NI> crate::crypto_simd_new_types::u32x4 for u32x4_soft<S3, S4, NI> {
    proof fn lemma_u32x4(self) {
    }
}

} // verus!
