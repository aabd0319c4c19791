//! The machines of the x86 family, from the one every processor of the family
//! is to those with more capabilities.
use crate::features::{NoA2, NoNI, NoS3, NoS4, YesS3, YesS4};
use crate::machine::Machine;
use crate::soft::w128::u128x1_soft;
use crate::soft::w32::u32x4_soft;
use crate::soft::w64::u64x2_soft;
use crate::soft::x2::x2;
use crate::soft::x4::x4;
use vstd::prelude::*;

verus! {

/// The machine without any of the four capabilities.
#[derive(Copy, Clone)]
pub struct SSE2;

impl Machine for SSE2 {
    type S3 = NoS3;

    type S4 = NoS4;

    type A2 = NoA2;

    type NI = NoNI;

    type u32x4 = u32x4_soft<Self::S3, Self::S4, Self::NI>;

    type u64x2 = u64x2_soft<Self::S3, Self::S4, Self::NI>;

    type u128x1 = u128x1_soft<Self::S3, Self::S4, Self::NI>;

    type u32x4x2 = x2<u32x4_soft<Self::S3, Self::S4, Self::NI>>;

    type u64x2x2 = x2<u64x2_soft<Self::S3, Self::S4, Self::NI>>;

    type u128x2 = x2<u128x1_soft<Self::S3, Self::S4, Self::NI>>;

    type u32x4x4 = x4<u32x4_soft<Self::S3, Self::S4, Self::NI>>;

    type u64x2x4 = x4<u64x2_soft<Self::S3, Self::S4, Self::NI>>;

    type u128x4 = x4<u128x1_soft<Self::S3, Self::S4, Self::NI>>;
}

/// The machine with the extended byte shuffle and nothing more.
#[derive(Copy, Clone)]
pub struct SSSE3;

impl Machine for SSSE3 {
    type S3 = YesS3;

    type S4 = NoS4;

    type A2 = NoA2;

    type NI = NoNI;

    type u32x4 = u32x4_soft<Self::S3, Self::S4, Self::NI>;

    type u64x2 = u64x2_soft<Self::S3, Self::S4, Self::NI>;

    type u128x1 = u128x1_soft<Self::S3, Self::S4, Self::NI>;

    type u32x4x2 = x2<u32x4_soft<Self::S3, Self::S4, Self::NI>>;

    type u64x2x2 = x2<u64x2_soft<Self::S3, Self::S4, Self::NI>>;

    type u128x2 = x2<u128x1_soft<Self::S3, Self::S4, Self::NI>>;

    type u32x4x4 = x4<u32x4_soft<Self::S3, Self::S4, Self::NI>>;

    type u64x2x4 = x4<u64x2_soft<Self::S3, Self::S4, Self::NI>>;

    type u128x4 = x4<u128x1_soft<Self::S3, Self::S4, Self::NI>>;
}

/// The machine with the extended byte shuffle and the blend and insert
/// operations.
#[derive(Copy, Clone)]
pub struct SSE41;

impl Machine for SSE41 {
    type S3 = YesS3;

    type S4 = YesS4;

    type A2 = NoA2;

    type NI = NoNI;

    type u32x4 = u32x4_soft<Self::S3, Self::S4, Self::NI>;

    type u64x2 = u64x2_soft<Self::S3, Self::S4, Self::NI>;

    type u128x1 = u128x1_soft<Self::S3, Self::S4, Self::NI>;

    type u32x4x2 = x2<u32x4_soft<Self::S3, Self::S4, Self::NI>>;

    type u64x2x2 = x2<u64x2_soft<Self::S3, Self::S4, Self::NI>>;

    type u128x2 = x2<u128x1_soft<Self::S3, Self::S4, Self::NI>>;

    type u32x4x4 = x4<u32x4_soft<Self::S3, Self::S4, Self::NI>>;

    type u64x2x4 = x4<u64x2_soft<Self::S3, Self::S4, Self::NI>>;

    type u128x4 = x4<u128x1_soft<Self::S3, Self::S4, Self::NI>>;
}

} // verus!
