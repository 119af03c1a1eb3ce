//! The six status flags of the 6502's P register, plus the two bits of
//! the break/unused pair, as bit masks.

use vstd::prelude::*;

verus! {

pub const CARRY_FLAG: u8 = 0b0000_0001;
pub const ZERO_FLAG: u8 = 0b0000_0010;
pub const INTERRUPT_DISABLE: u8 = 0b0000_0100;
pub const DECIMAL_MODE: u8 = 0b0000_1000;
pub const BREAK: u8 = 0b0001_0000;
pub const BREAK_2: u8 = 0b0010_0000;
pub const OVERFLOW_FLAG: u8 = 0b0100_0000;
pub const NEGATIVE_FLAG: u8 = 0b1000_0000;

} // verus!
