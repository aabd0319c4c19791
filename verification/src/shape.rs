//! The mathematical content of a vector value.
use crate::algebra::is_word_width;
use vstd::prelude::*;

verus! {

/// A vector type of the machine. A value of it is a bit pattern of one or more
/// 128-bit lanes, which its view gives, lane 0 first; the type fixes how many
/// lanes there are and how wide the words are that arithmetic, rotation and
/// byte order work on. Every operation of the algebra is stated on this
/// content, so two vector types that agree on it agree on every result.
pub trait Shape: View<V = Seq<u128>> + Sized {
    /// Width of a word in bits: 32, 64 or 128.
    spec fn word_bits() -> nat;

    /// Number of 128-bit lanes of a value.
    spec fn lane_count() -> nat;

    /// Every value has the lanes and the word width of its type.
    proof fn lemma_shape(self)
        ensures
            is_word_width(Self::word_bits()),
            1 <= Self::lane_count(),
            self@.len() == Self::lane_count(),
    ;
}

} // verus!
