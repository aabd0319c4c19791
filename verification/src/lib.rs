//! Portable packed vectors for the BLAKE family of hash functions: the vector
//! algebra that a round function is written against, stated on bit patterns
//! and proved of a portable backend, the machines that give the vector types,
//! and the constants of the hash functions.
pub mod algebra;
pub mod backends;
pub mod consts;
pub mod crypto_simd_new;
pub mod crypto_simd_new_types;
pub mod features;
pub mod lane;
pub mod laws;
pub mod machine;
pub mod shape;
pub mod soft;
pub mod storage;
pub mod store;
pub mod swar;

pub use crate::crypto_simd_new::{ArithOps, BSwap, BitOps128, BitOps32, BitOps64};
pub use crate::crypto_simd_new_types::{
    u128x1, u128x2, u128x4, u32x4, u32x4x2, u32x4x4, u64x2, u64x2x2, u64x2x4, IntoVec, LaneWords4,
    MultiLane, Swap64, UnsafeFrom, VZip, Vec2, Vec4, Words4,
};
pub use crate::machine::Machine;
pub use crate::shape::Shape;
pub use crate::storage::{vec128_storage, vec256_storage, vec512_storage};
pub use crate::store::{Store, StoreBytes};
