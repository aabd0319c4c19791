//! The portable backend: vector types that compute the algebra with ordinary
//! integer arithmetic on 128-bit lanes, for every combination of capability
//! tokens.
pub mod w128;
pub mod w32;
pub mod w64;
pub mod x2;
pub mod x4;
