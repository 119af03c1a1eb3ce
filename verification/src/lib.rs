//! Core of a software emulator for the NES variant of the MOS 6502
//! microprocessor: the instruction interpreter with its addressing modes,
//! status flags and stack discipline, the memory bus that decodes the NES
//! address map, the iNES cartridge loader, the programmer-visible PPU
//! register file, and a trace formatter in the Nintendulator log format.

pub mod bus;
pub mod cartridge;
pub mod cpu;
pub mod errors;
pub mod interp;
pub mod laws;
pub mod ppu;
