//! Vector type naming scheme: `uN[xP]xL` is unsigned, `N`-bit words, `P` words
//! a lane, `L` lanes.
//!
//! A lane is always 128 bits: common vector hardware treats 128-bit units of
//! wide vectors specially, with shuffles inside a lane, and has few and slow
//! operations between lanes.
use crate::algebra::{vec_shuffle_lane_words, vec_shuffle_words4, vec_swap_ranges};
use crate::crypto_simd_new::{ArithOps, BitOps128, BitOps32, BitOps64};
use crate::lane::{words32, words64};
use crate::shape::Shape;
use crate::storage::{vec128_storage, vec256_storage, vec512_storage};
use crate::store::{Store, StoreBytes};
use vstd::prelude::*;

verus! {

/// Conversion that is sound only where the hardware has what the target type
/// stands for.
pub trait UnsafeFrom<T> {
    /// What `unsafe_from` returns.
    spec fn unsafe_from_spec(t: T) -> Self where Self: Sized;

    /// The value that `t` converts to.
    fn unsafe_from(t: T) -> (r: Self) where Self: Sized
        ensures
            r == Self::unsafe_from_spec(t),
    ;
}

/// A vector composed of two elements, which may be words or themselves vectors.
pub trait Vec2<W> {
    /// The two elements, element 0 first.
    spec fn elements(self) -> Seq<W> where Self: Sized;

    /// There are two elements.
    proof fn lemma_elements(self) where Self: Sized
        ensures
            self.elements().len() == 2,
    ;

    /// Element `i`.
    fn extract(self, i: u32) -> (w: W) where Self: Sized
        requires
            i < 2,
        ensures
            w == self.elements()[i as int],
    ;

    /// The vector with element `i` replaced by `w`.
    fn insert(self, w: W, i: u32) -> (r: Self) where Self: Sized
        requires
            i < 2,
        ensures
            r.elements() == self.elements().update(i as int, w),
    ;
}

/// A vector composed of four elements, which may be words or themselves vectors.
pub trait Vec4<W> {
    /// The four elements, element 0 first.
    spec fn elements(self) -> Seq<W> where Self: Sized;

    /// There are four elements.
    proof fn lemma_elements(self) where Self: Sized
        ensures
            self.elements().len() == 4,
    ;

    /// Element `i`.
    fn extract(self, i: u32) -> (w: W) where Self: Sized
        requires
            i < 4,
        ensures
            w == self.elements()[i as int],
    ;

    /// The vector with element `i` replaced by `w`.
    fn insert(self, w: W, i: u32) -> (r: Self) where Self: Sized
        requires
            i < 4,
        ensures
            r.elements() == self.elements().update(i as int, w),
    ;
}

/// A vector composed of four words; depending on their size, operations may
/// cross lanes. The digits of a shuffle's name say where the words go: word
/// `i` moves to the place that digit `i` names.
pub trait Words4: Shape {
    /// A vector of this type has four words.
    proof fn lemma_four_words()
        ensures
            4 * Self::word_bits() == 128 * Self::lane_count(),
    ;

    /// Every word moves up one place, and the last word becomes the first.
    fn shuffle1230(self) -> (r: Self)
        ensures
            r@ == vec_shuffle_words4(Self::word_bits(), self@, 1),
    ;

    /// Every word moves up two places: the two halves change places.
    fn shuffle2301(self) -> (r: Self)
        ensures
            r@ == vec_shuffle_words4(Self::word_bits(), self@, 2),
    ;

    /// Every word moves up three places, which is down one place, and the
    /// first word becomes the last.
    fn shuffle3012(self) -> (r: Self)
        ensures
            r@ == vec_shuffle_words4(Self::word_bits(), self@, 3),
    ;
}

/// A vector composed of one or more lanes each composed of four words. The
/// shuffles move the words inside each lane as those of `Words4` do.
pub trait LaneWords4: Shape {
    /// In each lane every word moves up one place, and the last word becomes
    /// the first.
    fn shuffle_lane_words1230(self) -> (r: Self)
        ensures
            r@ == vec_shuffle_lane_words(self@, 1),
    ;

    /// In each lane every word moves up two places: the two halves of the
    /// lane change places.
    fn shuffle_lane_words2301(self) -> (r: Self)
        ensures
            r@ == vec_shuffle_lane_words(self@, 2),
    ;

    /// In each lane every word moves up three places, which is down one
    /// place, and the first word becomes the last.
    fn shuffle_lane_words3012(self) -> (r: Self)
        ensures
            r@ == vec_shuffle_lane_words(self@, 3),
    ;
}

/// Exchange neighbouring ranges of bits of the specified size.
pub trait Swap64: Shape {
    /// The vector with each two neighbouring ranges of 1 bit exchanged.
    fn swap1(self) -> (r: Self)
        ensures
            r@ == vec_swap_ranges(self@, 1),
    ;

    /// The vector with each two neighbouring ranges of 2 bits exchanged.
    fn swap2(self) -> (r: Self)
        ensures
            r@ == vec_swap_ranges(self@, 2),
    ;

    /// The vector with each two neighbouring ranges of 4 bits exchanged.
    fn swap4(self) -> (r: Self)
        ensures
            r@ == vec_swap_ranges(self@, 4),
    ;

    /// The vector with each two neighbouring ranges of 8 bits exchanged.
    fn swap8(self) -> (r: Self)
        ensures
            r@ == vec_swap_ranges(self@, 8),
    ;

    /// The vector with each two neighbouring ranges of 16 bits exchanged.
    fn swap16(self) -> (r: Self)
        ensures
            r@ == vec_swap_ranges(self@, 16),
    ;

    /// The vector with each two neighbouring ranges of 32 bits exchanged.
    fn swap32(self) -> (r: Self)
        ensures
            r@ == vec_swap_ranges(self@, 32),
    ;

    /// The vector with each two neighbouring ranges of 64 bits exchanged.
    fn swap64(self) -> (r: Self)
        ensures
            r@ == vec_swap_ranges(self@, 64),
    ;
}

/// One lane of four 32-bit words.
#[allow(non_camel_case_types)]
pub trait u32x4: BitOps32 + Store<vec128_storage> + ArithOps + Vec4<u32> + Words4 + LaneWords4 + StoreBytes {
    /// The shape of the type, and its elements: the four words of the lane.
    proof fn lemma_u32x4(self)
        ensures
            Self::word_bits() == 32,
            Self::lane_count() == 1,
            self.elements() == words32(self@[0]),
    ;
}

/// One lane of two 64-bit words.
#[allow(non_camel_case_types)]
pub trait u64x2: BitOps64 + Store<vec128_storage> + ArithOps + Vec2<u64> {
    /// The shape of the type, and its elements: the two words of the lane.
    proof fn lemma_u64x2(self)
        ensures
            Self::word_bits() == 64,
            Self::lane_count() == 1,
            self.elements() == words64(self@[0]),
    ;
}

/// One lane that is one 128-bit word.
#[allow(non_camel_case_types)]
pub trait u128x1: BitOps128 + Store<vec128_storage> + Swap64 {
    /// The shape of the type.
    proof fn lemma_u128x1(self)
        ensures
            Self::word_bits() == 128,
            Self::lane_count() == 1,
    ;
}

/// Two lanes of four 32-bit words each.
#[allow(non_camel_case_types)]
pub trait u32x4x2<W: u32x4>: BitOps32 + Store<vec256_storage> + Vec2<W> + MultiLane<[W; 2]> + ArithOps {
    /// The shape of the type, and its elements: its two lanes, which
    /// `to_lanes` gives too.
    proof fn lemma_u32x4x2(self)
        ensures
            Self::word_bits() == 32,
            Self::lane_count() == 2,
            self.elements() == self.to_lanes_spec()@,
            self@ == self.elements()[0]@ + self.elements()[1]@,
    ;
}

/// Two lanes of two 64-bit words each.
#[allow(non_camel_case_types)]
pub trait u64x2x2<W: u64x2>: BitOps64 + Store<vec256_storage> + Vec2<W> + MultiLane<[W; 2]> + ArithOps + Words4 + StoreBytes {
    /// The shape of the type, and its elements: its two lanes, which
    /// `to_lanes` gives too.
    proof fn lemma_u64x2x2(self)
        ensures
            Self::word_bits() == 64,
            Self::lane_count() == 2,
            self.elements() == self.to_lanes_spec()@,
            self@ == self.elements()[0]@ + self.elements()[1]@,
    ;
}

/// Two lanes that are one 128-bit word each.
#[allow(non_camel_case_types)]
pub trait u128x2<W: u128x1>: BitOps128 + Store<vec256_storage> + Vec2<W> + MultiLane<[W; 2]> + Swap64 {
    /// The shape of the type, and its elements: its two lanes, which
    /// `to_lanes` gives too.
    proof fn lemma_u128x2(self)
        ensures
            Self::word_bits() == 128,
            Self::lane_count() == 2,
            self.elements() == self.to_lanes_spec()@,
            self@ == self.elements()[0]@ + self.elements()[1]@,
    ;
}

/// Four lanes of four 32-bit words each.
#[allow(non_camel_case_types)]
pub trait u32x4x4<W: u32x4>: BitOps32 + Store<vec512_storage> + Vec4<W> + MultiLane<[W; 4]> + ArithOps + LaneWords4 {
    /// The shape of the type, and its elements: its four lanes, which
    /// `to_lanes` gives too.
    proof fn lemma_u32x4x4(self)
        ensures
            Self::word_bits() == 32,
            Self::lane_count() == 4,
            self.elements() == self.to_lanes_spec()@,
            self@ == self.elements()[0]@ + self.elements()[1]@ + self.elements()[2]@
                + self.elements()[3]@,
    ;
}

/// Four lanes of two 64-bit words each.
#[allow(non_camel_case_types)]
pub trait u64x2x4<W: u64x2>: BitOps64 + Store<vec512_storage> + Vec4<W> + MultiLane<[W; 4]> + ArithOps {
    /// The shape of the type, and its elements: its four lanes, which
    /// `to_lanes` gives too.
    proof fn lemma_u64x2x4(self)
        ensures
            Self::word_bits() == 64,
            Self::lane_count() == 4,
            self.elements() == self.to_lanes_spec()@,
            self@ == self.elements()[0]@ + self.elements()[1]@ + self.elements()[2]@
                + self.elements()[3]@,
    ;
}

/// Four lanes that are one 128-bit word each.
#[allow(non_camel_case_types)]
pub trait u128x4<W: u128x1>: BitOps128 + Store<vec512_storage> + Vec4<W> + MultiLane<[W; 4]> + Swap64 {
    /// The shape of the type, and its elements: its four lanes, which
    /// `to_lanes` gives too.
    proof fn lemma_u128x4(self)
        ensures
            Self::word_bits() == 128,
            Self::lane_count() == 4,
            self.elements() == self.to_lanes_spec()@,
            self@ == self.elements()[0]@ + self.elements()[1]@ + self.elements()[2]@
                + self.elements()[3]@,
    ;
}

/// Build a vector from words.
#[allow(non_camel_case_types)]
pub trait IntoVec<v: View<V = Seq<u128>>> {
    /// The lanes that the words make up: the first words are those of lane 0,
    /// and within a lane word 0 holds the least significant bits.
    spec fn lanes(self) -> Seq<u128> where Self: Sized;

    /// The storage value that holds the words.
    fn into_vec(self) -> (r: v) where Self: Sized
        ensures
            r@ == self.lanes(),
    ;
}

/// A vector composed of multiple 128-bit lanes.
pub trait MultiLane<Lanes> {
    /// What `to_lanes` returns.
    spec fn to_lanes_spec(self) -> Lanes where Self: Sized;

    /// What `from_lanes` returns.
    spec fn from_lanes_spec(lanes: Lanes) -> Self where Self: Sized;

    /// Splitting a vector and building it again from its lanes returns the
    /// vector, and building a vector and splitting it returns the lanes.
    proof fn lemma_lanes_round_trip(v: Self, lanes: Lanes) where Self: Sized
        ensures
            Self::from_lanes_spec(v.to_lanes_spec()) == v,
            Self::from_lanes_spec(lanes).to_lanes_spec() == lanes,
    ;

    /// Split a multi-lane vector into single-lane vectors.
    fn to_lanes(self) -> (lanes: Lanes) where Self: Sized
        ensures
            lanes == self.to_lanes_spec(),
    ;

    /// Build a multi-lane vector from individual lanes.
    fn from_lanes(lanes: Lanes) -> (r: Self) where Self: Sized
        ensures
            r == Self::from_lanes_spec(lanes),
    ;
}

/// Combine single vectors into a multi-lane vector.
pub trait VZip<V> {
    /// What `vzip` returns.
    spec fn vzip_spec(self) -> V where Self: Sized;

    /// The multi-lane vector whose lanes are `self`.
    fn vzip(self) -> (v: V) where Self: Sized
        ensures
            v == self.vzip_spec(),
    ;
}

impl<V, T> VZip<V> for T where V: MultiLane<T> {
    /// The vector whose lanes are `self`.
    open spec fn vzip_spec(self) -> V {
        V::from_lanes_spec(self)
    }

    fn vzip(self) -> (v: V) {
        V::from_lanes(self)
    }
}

} // verus!
