//! Bit patterns of the IEEE-754 values that the renderer's tables hold.
//!
//! The GPU reads these values as binary floating point. The library neither
//! adds nor compares them: it stores each as the integer with the same bits
//! and hands it on unchanged.

use vstd::prelude::*;

verus! {

/// Single precision: 0.
pub const SINGLE_ZERO: u32 = 0x0000_0000;

/// Single precision: 1.
pub const SINGLE_ONE: u32 = 0x3F80_0000;

/// Single precision: -1.
pub const SINGLE_MINUS_ONE: u32 = 0xBF80_0000;

/// Single precision: 2.
pub const SINGLE_TWO: u32 = 0x4000_0000;

/// Single precision: 45.
pub const SINGLE_FORTY_FIVE: u32 = 0x4234_0000;

/// Single precision: the value nearest to one tenth.
pub const SINGLE_TENTH: u32 = 0x3DCC_CCCD;

/// Single precision: 100.
pub const SINGLE_HUNDRED: u32 = 0x42C8_0000;

/// Double precision: the value nearest to one tenth.
pub const DOUBLE_TENTH: u64 = 0x3FB9_9999_9999_999A;

/// Double precision: the value nearest to two tenths.
pub const DOUBLE_TWO_TENTHS: u64 = 0x3FC9_9999_9999_999A;

/// Double precision: the value nearest to three tenths.
pub const DOUBLE_THREE_TENTHS: u64 = 0x3FD3_3333_3333_3333;

/// Double precision: 1.
pub const DOUBLE_ONE: u64 = 0x3FF0_0000_0000_0000;

} // verus!
