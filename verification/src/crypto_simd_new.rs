//! The operation sets of the vector algebra that do not depend on how a vector
//! is made up of lanes.
use crate::algebra::{vec_add, vec_and, vec_andnot, vec_not, vec_or, vec_rotr, vec_swap_bytes, vec_xor};
use crate::shape::Shape;
use core::ops::{Add, BitAnd, BitOr, BitXor, Not};
use vstd::prelude::*;
use vstd::std_specs::ops::{AddSpec, BitAndSpec, BitOrSpec, BitXorSpec, NotSpec};

verus! {

/// Bitwise AND of a value with the complement of another.
pub trait AndNot {
    type Output;

    /// What `andnot` returns.
    spec fn andnot_spec(self, rhs: Self) -> Self::Output where Self: Sized;

    /// The bits of `self` that are not set in `rhs`.
    fn andnot(self, rhs: Self) -> (r: Self::Output) where Self: Sized
        ensures
            r == self.andnot_spec(rhs),
    ;
}

/// Byte order swap within each word.
pub trait BSwap: Shape {
    /// The vector with the bytes of each word in reverse order.
    fn bswap(self) -> (r: Self)
        ensures
            r@ == vec_swap_bytes(Self::word_bits(), self@),
    ;
}

/// Operations that depend on the word size: `+` adds word by word, each word
/// wrapping round at its width.
pub trait ArithOps: Add<Output = Self> + Sized + Copy + Clone + BSwap {
    /// `+` is defined on every two values and is the word-wise wrapping sum.
    proof fn lemma_arith_ops(a: Self, b: Self)
        ensures
            Self::obeys_add_spec(),
            a.add_req(b),
            a.add_spec(b)@ == vec_add(Self::word_bits(), a@, b@),
    ;
}

/// Operations that are independent of word size and byte order: `&`, `|`, `^`,
/// `!` and `andnot` work on the bit pattern, lane by lane.
pub trait BitOps0: BitAnd<Output = Self> + BitOr<Output = Self> + BitXor<Output = Self> + Not<
    Output = Self,
> + AndNot<Output = Self> + Shape + Sized + Copy + Clone {
    /// The bitwise operators are defined on every two values and are what
    /// their names say, on each lane.
    proof fn lemma_bit_ops(a: Self, b: Self)
        ensures
            Self::obeys_bitand_spec(),
            Self::obeys_bitor_spec(),
            Self::obeys_bitxor_spec(),
            Self::obeys_not_spec(),
            a.bitand_req(b),
            a.bitor_req(b),
            a.bitxor_req(b),
            a.not_req(),
            a.bitand_spec(b)@ == vec_and(a@, b@),
            a.bitor_spec(b)@ == vec_or(a@, b@),
            a.bitxor_spec(b)@ == vec_xor(a@, b@),
            a.not_spec()@ == vec_not(a@),
            a.andnot_spec(b)@ == vec_andnot(a@, b@),
    ;
}

/// Bitwise operations on vectors whose words have at least 32 bits.
pub trait BitOps32: BitOps0 + RotateEachWord32 {
}

/// Bitwise operations on vectors whose words have at least 64 bits.
pub trait BitOps64: BitOps32 + RotateEachWord64 {
}

/// Bitwise operations on vectors whose words have 128 bits.
pub trait BitOps128: BitOps64 + RotateEachWord128 {
}

/// Rotation of each word to the right by one of the amounts that words of 32
/// bits and more support.
pub trait RotateEachWord32: Shape {
    /// The vector with each word rotated right by 7 bits.
    fn rotate_each_word_right7(self) -> (r: Self)
        ensures
            r@ == vec_rotr(Self::word_bits(), self@, 7),
    ;

    /// The vector with each word rotated right by 8 bits.
    fn rotate_each_word_right8(self) -> (r: Self)
        ensures
            r@ == vec_rotr(Self::word_bits(), self@, 8),
    ;

    /// The vector with each word rotated right by 11 bits.
    fn rotate_each_word_right11(self) -> (r: Self)
        ensures
            r@ == vec_rotr(Self::word_bits(), self@, 11),
    ;

    /// The vector with each word rotated right by 12 bits.
    fn rotate_each_word_right12(self) -> (r: Self)
        ensures
            r@ == vec_rotr(Self::word_bits(), self@, 12),
    ;

    /// The vector with each word rotated right by 16 bits.
    fn rotate_each_word_right16(self) -> (r: Self)
        ensures
            r@ == vec_rotr(Self::word_bits(), self@, 16),
    ;

    /// The vector with each word rotated right by 20 bits.
    fn rotate_each_word_right20(self) -> (r: Self)
        ensures
            r@ == vec_rotr(Self::word_bits(), self@, 20),
    ;

    /// The vector with each word rotated right by 24 bits.
    fn rotate_each_word_right24(self) -> (r: Self)
        ensures
            r@ == vec_rotr(Self::word_bits(), self@, 24),
    ;

    /// The vector with each word rotated right by 25 bits.
    fn rotate_each_word_right25(self) -> (r: Self)
        ensures
            r@ == vec_rotr(Self::word_bits(), self@, 25),
    ;
}

/// Rotation of each word to the right by the amount that words of 64 bits and
/// more add.
pub trait RotateEachWord64: Shape {
    /// The vector with each word rotated right by 32 bits.
    fn rotate_each_word_right32(self) -> (r: Self)
        ensures
            r@ == vec_rotr(Self::word_bits(), self@, 32),
    ;
}

/// Rotations that only words of 128 bits support: none so far.
pub trait RotateEachWord128 {
}

} // verus!
