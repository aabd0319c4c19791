//! The machine descriptor and the machines that this library knows.
use crate::algebra::{vec_from_be_bytes, vec_from_le_bytes};
use crate::crypto_simd_new_types::{
    u128x1, u128x2, u128x4, u32x4, u32x4x2, u32x4x4, u64x2, u64x2x2, u64x2x4, IntoVec,
};
use crate::shape::Shape;
use crate::store::{Store, StoreBytes};
use vstd::prelude::*;

pub mod x86;

verus! {

/// A combination of capability tokens together with the vector types that it
/// computes with. A machine has no data: to hold a value of one is to hold the
/// statement that the hardware has the capabilities its tokens name, and it is
/// the way to get vectors out of storage and out of byte buffers. What the
/// vectors then compute is the same on every machine.
#[allow(non_camel_case_types)]
pub trait Machine: Sized + Copy {
    /// The extended byte shuffle: present or absent.
    type S3;

    /// The blend and insert operations: present or absent.
    type S4;

    /// The wide integer operations: present or absent.
    type A2;

    /// The native cipher acceleration: present or absent.
    type NI;

    type u32x4: u32x4;

    type u64x2: u64x2;

    type u128x1: u128x1;

    type u32x4x2: u32x4x2<Self::u32x4>;

    type u64x2x2: u64x2x2<Self::u64x2>;

    type u128x2: u128x2<Self::u128x1>;

    type u32x4x4: u32x4x4<Self::u32x4>;

    type u64x2x4: u64x2x4<Self::u64x2>;

    type u128x4: u128x4<Self::u128x1>;

    /// The vector that holds the bit pattern of the storage value `s`.
    fn unpack<V, S>(self, s: S) -> (r: V) where V: Store<S>, S: View<V = Seq<u128>>
        ensures
            r@ == s@,
    {
        V::unpack(s)
    }

    /// The vector that holds the words `t`.
    fn vec<V, T, S>(self, t: T) -> (r: V) where T: IntoVec<S>, V: Store<S>, S: View<V = Seq<u128>>
        ensures
            r@ == t.lanes(),
    {
        self.unpack(t.into_vec())
    }

    /// The vector whose little-endian bytes are `input`, which must have
    /// exactly the length of the vector.
    fn read_le<V>(self, input: &[u8]) -> (r: V) where V: StoreBytes
        requires
            input@.len() == 16 * V::lane_count(),
        ensures
            r@ == vec_from_le_bytes(input@),
    {
        V::unsafe_read_le(input)
    }

    /// The vector whose big-endian bytes are `input`, which must have exactly
    /// the length of the vector.
    fn read_be<V>(self, input: &[u8]) -> (r: V) where V: StoreBytes
        requires
            input@.len() == 16 * V::lane_count(),
        ensures
            r@ == vec_from_be_bytes(V::word_bits(), input@),
    {
        V::unsafe_read_be(input)
    }
}

} // verus!
