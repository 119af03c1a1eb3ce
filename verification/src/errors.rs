//! Error taxonomy of the emulator core.

use vstd::prelude::*;

verus! {

/// Everything that can go wrong inside the core: cartridge parsing failures
/// (surfaced to the caller as values), and runtime faults that abort the
/// step loop (decode errors, bus access violations, stack discipline
/// violations).
#[derive(Clone, Copy, Debug, PartialEq, Eq, Structural)]
pub enum EmuError {
    /// The ROM image does not begin with the iNES magic, or is shorter
    /// than an iNES header.
    BadMagic,
    /// The iNES version field is not zero, or the declared PRG/CHR sizes
    /// do not describe an NROM cartridge that the data region can fill.
    UnsupportedFormat,
    /// The cartridge asks for a mapper other than NROM (mapper 0).
    UnsupportedMapper,
    /// The fetched opcode byte is not in the opcode table.
    UnknownOpcode(u8),
    /// A read was issued against a write-only location.
    ReadFromWriteOnly(u16),
    /// A write was issued against read-only memory.
    WriteToReadOnly(u16),
    /// A PPU data access landed in the unaddressable 0x3000..=0x3EFF hole,
    /// or in a nametable bank the cartridge does not provide.
    PpuAddressUnusable(u16),
    /// The run loop's step budget (2^64 - 1 instructions) ran out
    /// before the program reached BRK or a fatal error.
    StepLimit,
    /// A push would move the stack pointer below 0x00.
    StackOverflow,
    /// A pop would move the stack pointer above 0xFF.
    StackUnderflow,
}

} // verus!
