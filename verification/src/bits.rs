//! Bit patterns of the floating-point numbers that the records start from.
//!
//! Records keep every real number as its IEEE-754 bit pattern: they can then
//! be compared and moved exactly, and nothing here computes with them.

use vstd::prelude::*;

verus! {

/// 1.0 in single precision.
pub const F32_ONE: u32 = 0x3F80_0000;

/// 0.25 in single precision.
pub const F32_QUARTER: u32 = 0x3E80_0000;

/// 0.0 in double precision.
pub const F64_ZERO: u64 = 0;

/// -1.0 in double precision, which marks a bound that is not set.
pub const F64_MINUS_ONE: u64 = 0xBFF0_0000_0000_0000;

} // verus!
