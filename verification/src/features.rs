//! Capability tokens: markers without data, one pair for each hardware
//! capability that a machine can have or lack. A machine is named by the four
//! tokens it is made of. A token of a present capability stands for the fact
//! that the hardware has it; nothing in this library tests that fact.
use vstd::prelude::*;

verus! {

/// The extended byte shuffle is present.
#[derive(Copy, Clone)]
pub struct YesS3;

/// The extended byte shuffle is absent.
#[derive(Copy, Clone)]
pub struct NoS3;

/// The blend and insert operations are present.
#[derive(Copy, Clone)]
pub struct YesS4;

/// The blend and insert operations are absent.
#[derive(Copy, Clone)]
pub struct NoS4;

/// The wide integer operations are present.
#[derive(Copy, Clone)]
pub struct YesA2;

/// The wide integer operations are absent.
#[derive(Copy, Clone)]
pub struct NoA2;

/// The native cipher acceleration is present.
#[derive(Copy, Clone)]
pub struct YesNI;

/// The native cipher acceleration is absent.
#[derive(Copy, Clone)]
pub struct NoNI;

} // verus!
