//! Moving vectors in and out of storage and of byte buffers.
use crate::algebra::{vec_be_bytes, vec_from_be_bytes, vec_from_le_bytes, vec_le_bytes};
use crate::shape::Shape;
use vstd::prelude::*;

verus! {

/// A vector type that can be kept in the storage type `S`. Packing and
/// unpacking copy the bit pattern and change nothing in it.
pub trait Store<S: View<V = Seq<u128>>>: View<V = Seq<u128>> + Sized {
    /// The vector that holds the bit pattern of `p`.
    fn unpack(p: S) -> (r: Self)
        ensures
            r@ == p@,
    ;

    /// The storage value that holds the bit pattern of the vector.
    fn pack(self) -> (p: S)
        ensures
            p@ == self@,
    ;
}

/// A vector type that can be read from and written to a byte buffer. The
/// buffer holds the words in their order; little-endian puts the least
/// significant byte of each word first, big-endian the most significant. The
/// buffer must have exactly the length of the vector, sixteen bytes a lane.
pub trait StoreBytes: Shape {
    /// The vector whose little-endian bytes are `input`.
    fn unsafe_read_le(input: &[u8]) -> (r: Self)
        requires
            input@.len() == 16 * Self::lane_count(),
        ensures
            r@ == vec_from_le_bytes(input@),
    ;

    /// The vector whose big-endian bytes are `input`.
    fn unsafe_read_be(input: &[u8]) -> (r: Self)
        requires
            input@.len() == 16 * Self::lane_count(),
        ensures
            r@ == vec_from_be_bytes(Self::word_bits(), input@),
    ;

    /// Fills `out` with the little-endian bytes of the vector.
    fn write_le(self, out: &mut [u8])
        requires
            old(out)@.len() == 16 * Self::lane_count(),
        ensures
            final(out)@ == vec_le_bytes(self@),
    ;

    /// Fills `out` with the big-endian bytes of the vector.
    fn write_be(self, out: &mut [u8])
        requires
            old(out)@.len() == 16 * Self::lane_count(),
        ensures
            final(out)@ == vec_be_bytes(Self::word_bits(), self@),
    ;
}

} // verus!
