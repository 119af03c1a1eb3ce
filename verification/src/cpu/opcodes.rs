//! The opcode table: every official 6502 opcode and the documented
//! unofficial opcodes, mapped to mnemonic, byte length, base cycle count
//! and addressing mode.

use vstd::prelude::*;

use crate::cpu::AddressingMode;

verus! {

/// Instruction mnemonics. The unofficial opcodes get variants of their
/// own (`NopU`, `Dop` and `Top` are the 1-, 2- and 3-byte unofficial
/// no-ops; `SbcU` is the 0xEB alias of SBC).
#[derive(Clone, Copy, Debug, PartialEq, Eq, Structural)]
pub enum Mnemonic {
    Aac,
    Aax,
    Adc,
    And,
    Arr,
    Asl,
    Asr,
    Atx,
    Axa,
    Axs,
    Bcc,
    Bcs,
    Beq,
    Bit,
    Bmi,
    Bne,
    Bpl,
    Brk,
    Bvc,
    Bvs,
    Clc,
    Cld,
    Cli,
    Clv,
    Cmp,
    Cpx,
    Cpy,
    Dcp,
    Dec,
    Dex,
    Dey,
    Dop,
    Eor,
    Inc,
    Inx,
    Iny,
    Isb,
    Jmp,
    Jsr,
    Lar,
    Lax,
    Lda,
    Ldx,
    Ldy,
    Lsr,
    Nop,
    NopU,
    Ora,
    Pha,
    Php,
    Pla,
    Plp,
    Rla,
    Rol,
    Ror,
    Rra,
    Rti,
    Rts,
    Sbc,
    SbcU,
    Sec,
    Sed,
    Sei,
    Slo,
    Sre,
    Sta,
    Stx,
    Sty,
    Sxa,
    Sya,
    Tax,
    Tay,
    Top,
    Tsx,
    Txa,
    Txs,
    Tya,
    Xas,
}

/// Mnemonics that belong to unofficial opcodes; the trace formatter
/// prefixes them with `*`.
pub open spec fn spec_is_unofficial(m: Mnemonic) -> bool {
    match m {
        Mnemonic::Aac
        | Mnemonic::Aax
        | Mnemonic::Arr
        | Mnemonic::Asr
        | Mnemonic::Atx
        | Mnemonic::Axa
        | Mnemonic::Axs
        | Mnemonic::Dcp
        | Mnemonic::Dop
        | Mnemonic::Isb
        | Mnemonic::Lar
        | Mnemonic::Lax
        | Mnemonic::NopU
        | Mnemonic::Rla
        | Mnemonic::Rra
        | Mnemonic::SbcU
        | Mnemonic::Slo
        | Mnemonic::Sre
        | Mnemonic::Sxa
        | Mnemonic::Sya
        | Mnemonic::Top
        | Mnemonic::Xas => true,
        _ => false,
    }
}

/// One row of the opcode table.
#[derive(Clone, Copy, Debug, PartialEq, Eq, Structural)]
pub struct Opcode {
    pub code: u8,
    pub mnemonic: Mnemonic,
    pub bytes: u8,
    pub cycles: u8,
    pub mode: AddressingMode,
}

impl Opcode {
    pub fn new(code: u8, mnemonic: Mnemonic, bytes: u8, cycles: u8, mode: AddressingMode) -> (r:
        Opcode)
        ensures
            r == (Opcode { code, mnemonic, bytes, cycles, mode }),
    {
        Opcode { code, mnemonic, bytes, cycles, mode }
    }
}

/// The decode table: opcode byte to table row, `None` for the bytes that
/// no documented instruction uses.
#[verifier::opaque]
pub open spec fn opcode_spec(code: u8) -> Option<Opcode> {
    match code {
        0x00 => Some(Opcode { code: 0x00, mnemonic: Mnemonic::Brk, bytes: 1, cycles: 7, mode: AddressingMode::NoneAddressing }),
        0x01 => Some(Opcode { code: 0x01, mnemonic: Mnemonic::Ora, bytes: 2, cycles: 6, mode: AddressingMode::Indirect_X }),
        0x03 => Some(Opcode { code: 0x03, mnemonic: Mnemonic::Slo, bytes: 2, cycles: 8, mode: AddressingMode::Indirect_X }),
        0x04 => Some(Opcode { code: 0x04, mnemonic: Mnemonic::Dop, bytes: 2, cycles: 3, mode: AddressingMode::ZeroPage }),
        0x05 => Some(Opcode { code: 0x05, mnemonic: Mnemonic::Ora, bytes: 2, cycles: 3, mode: AddressingMode::ZeroPage }),
        0x06 => Some(Opcode { code: 0x06, mnemonic: Mnemonic::Asl, bytes: 2, cycles: 5, mode: AddressingMode::ZeroPage }),
        0x07 => Some(Opcode { code: 0x07, mnemonic: Mnemonic::Slo, bytes: 2, cycles: 5, mode: AddressingMode::ZeroPage }),
        0x08 => Some(Opcode { code: 0x08, mnemonic: Mnemonic::Php, bytes: 1, cycles: 3, mode: AddressingMode::Implied }),
        0x09 => Some(Opcode { code: 0x09, mnemonic: Mnemonic::Ora, bytes: 2, cycles: 2, mode: AddressingMode::Immediate }),
        0x0A => Some(Opcode { code: 0x0A, mnemonic: Mnemonic::Asl, bytes: 1, cycles: 2, mode: AddressingMode::Accumulator }),
        0x0B => Some(Opcode { code: 0x0B, mnemonic: Mnemonic::Aac, bytes: 2, cycles: 2, mode: AddressingMode::Immediate }),
        0x0C => Some(Opcode { code: 0x0C, mnemonic: Mnemonic::Top, bytes: 3, cycles: 4, mode: AddressingMode::Absolute }),
        0x0D => Some(Opcode { code: 0x0D, mnemonic: Mnemonic::Ora, bytes: 3, cycles: 4, mode: AddressingMode::Absolute }),
        0x0E => Some(Opcode { code: 0x0E, mnemonic: Mnemonic::Asl, bytes: 3, cycles: 6, mode: AddressingMode::Absolute }),
        0x0F => Some(Opcode { code: 0x0F, mnemonic: Mnemonic::Slo, bytes: 3, cycles: 6, mode: AddressingMode::Absolute }),
        0x10 => Some(Opcode { code: 0x10, mnemonic: Mnemonic::Bpl, bytes: 2, cycles: 2, mode: AddressingMode::Relative }),
        0x11 => Some(Opcode { code: 0x11, mnemonic: Mnemonic::Ora, bytes: 2, cycles: 5, mode: AddressingMode::Indirect_Y }),
        0x13 => Some(Opcode { code: 0x13, mnemonic: Mnemonic::Slo, bytes: 2, cycles: 8, mode: AddressingMode::Indirect_Y }),
        0x14 => Some(Opcode { code: 0x14, mnemonic: Mnemonic::Dop, bytes: 2, cycles: 4, mode: AddressingMode::ZeroPage_X }),
        0x15 => Some(Opcode { code: 0x15, mnemonic: Mnemonic::Ora, bytes: 2, cycles: 4, mode: AddressingMode::ZeroPage_X }),
        0x16 => Some(Opcode { code: 0x16, mnemonic: Mnemonic::Asl, bytes: 2, cycles: 6, mode: AddressingMode::ZeroPage_X }),
        0x17 => Some(Opcode { code: 0x17, mnemonic: Mnemonic::Slo, bytes: 2, cycles: 6, mode: AddressingMode::ZeroPage_X }),
        0x18 => Some(Opcode { code: 0x18, mnemonic: Mnemonic::Clc, bytes: 1, cycles: 2, mode: AddressingMode::Implied }),
        0x19 => Some(Opcode { code: 0x19, mnemonic: Mnemonic::Ora, bytes: 3, cycles: 4, mode: AddressingMode::Absolute_Y }),
        0x1A => Some(Opcode { code: 0x1A, mnemonic: Mnemonic::NopU, bytes: 1, cycles: 2, mode: AddressingMode::Implied }),
        0x1B => Some(Opcode { code: 0x1B, mnemonic: Mnemonic::Slo, bytes: 3, cycles: 7, mode: AddressingMode::Absolute_Y }),
        0x1C => Some(Opcode { code: 0x1C, mnemonic: Mnemonic::Top, bytes: 3, cycles: 4, mode: AddressingMode::Absolute_X }),
        0x1D => Some(Opcode { code: 0x1D, mnemonic: Mnemonic::Ora, bytes: 3, cycles: 4, mode: AddressingMode::Absolute_X }),
        0x1E => Some(Opcode { code: 0x1E, mnemonic: Mnemonic::Asl, bytes: 3, cycles: 7, mode: AddressingMode::Absolute_X }),
        0x1F => Some(Opcode { code: 0x1F, mnemonic: Mnemonic::Slo, bytes: 3, cycles: 7, mode: AddressingMode::Absolute_X }),
        0x20 => Some(Opcode { code: 0x20, mnemonic: Mnemonic::Jsr, bytes: 3, cycles: 6, mode: AddressingMode::Absolute }),
        0x21 => Some(Opcode { code: 0x21, mnemonic: Mnemonic::And, bytes: 2, cycles: 6, mode: AddressingMode::Indirect_X }),
        0x23 => Some(Opcode { code: 0x23, mnemonic: Mnemonic::Rla, bytes: 2, cycles: 8, mode: AddressingMode::Indirect_X }),
        0x24 => Some(Opcode { code: 0x24, mnemonic: Mnemonic::Bit, bytes: 2, cycles: 3, mode: AddressingMode::ZeroPage }),
        0x25 => Some(Opcode { code: 0x25, mnemonic: Mnemonic::And, bytes: 2, cycles: 3, mode: AddressingMode::ZeroPage }),
        0x26 => Some(Opcode { code: 0x26, mnemonic: Mnemonic::Rol, bytes: 2, cycles: 5, mode: AddressingMode::ZeroPage }),
        0x27 => Some(Opcode { code: 0x27, mnemonic: Mnemonic::Rla, bytes: 2, cycles: 5, mode: AddressingMode::ZeroPage }),
        0x28 => Some(Opcode { code: 0x28, mnemonic: Mnemonic::Plp, bytes: 1, cycles: 4, mode: AddressingMode::Implied }),
        0x29 => Some(Opcode { code: 0x29, mnemonic: Mnemonic::And, bytes: 2, cycles: 2, mode: AddressingMode::Immediate }),
        0x2A => Some(Opcode { code: 0x2A, mnemonic: Mnemonic::Rol, bytes: 1, cycles: 2, mode: AddressingMode::Accumulator }),
        0x2B => Some(Opcode { code: 0x2B, mnemonic: Mnemonic::Aac, bytes: 2, cycles: 2, mode: AddressingMode::Immediate }),
        0x2C => Some(Opcode { code: 0x2C, mnemonic: Mnemonic::Bit, bytes: 3, cycles: 4, mode: AddressingMode::Absolute }),
        0x2D => Some(Opcode { code: 0x2D, mnemonic: Mnemonic::And, bytes: 3, cycles: 4, mode: AddressingMode::Absolute }),
        0x2E => Some(Opcode { code: 0x2E, mnemonic: Mnemonic::Rol, bytes: 3, cycles: 6, mode: AddressingMode::Absolute }),
        0x2F => Some(Opcode { code: 0x2F, mnemonic: Mnemonic::Rla, bytes: 3, cycles: 6, mode: AddressingMode::Absolute }),
        0x30 => Some(Opcode { code: 0x30, mnemonic: Mnemonic::Bmi, bytes: 2, cycles: 2, mode: AddressingMode::Relative }),
        0x31 => Some(Opcode { code: 0x31, mnemonic: Mnemonic::And, bytes: 2, cycles: 5, mode: AddressingMode::Indirect_Y }),
        0x33 => Some(Opcode { code: 0x33, mnemonic: Mnemonic::Rla, bytes: 2, cycles: 8, mode: AddressingMode::Indirect_Y }),
        0x34 => Some(Opcode { code: 0x34, mnemonic: Mnemonic::Dop, bytes: 2, cycles: 4, mode: AddressingMode::ZeroPage_X }),
        0x35 => Some(Opcode { code: 0x35, mnemonic: Mnemonic::And, bytes: 2, cycles: 4, mode: AddressingMode::ZeroPage_X }),
        0x36 => Some(Opcode { code: 0x36, mnemonic: Mnemonic::Rol, bytes: 2, cycles: 6, mode: AddressingMode::ZeroPage_X }),
        0x37 => Some(Opcode { code: 0x37, mnemonic: Mnemonic::Rla, bytes: 2, cycles: 6, mode: AddressingMode::ZeroPage_X }),
        0x38 => Some(Opcode { code: 0x38, mnemonic: Mnemonic::Sec, bytes: 1, cycles: 2, mode: AddressingMode::Implied }),
        0x39 => Some(Opcode { code: 0x39, mnemonic: Mnemonic::And, bytes: 3, cycles: 4, mode: AddressingMode::Absolute_Y }),
        0x3A => Some(Opcode { code: 0x3A, mnemonic: Mnemonic::NopU, bytes: 1, cycles: 2, mode: AddressingMode::Implied }),
        0x3B => Some(Opcode { code: 0x3B, mnemonic: Mnemonic::Rla, bytes: 3, cycles: 7, mode: AddressingMode::Absolute_Y }),
        0x3C => Some(Opcode { code: 0x3C, mnemonic: Mnemonic::Top, bytes: 3, cycles: 4, mode: AddressingMode::Absolute_X }),
        0x3D => Some(Opcode { code: 0x3D, mnemonic: Mnemonic::And, bytes: 3, cycles: 4, mode: AddressingMode::Absolute_X }),
        0x3E => Some(Opcode { code: 0x3E, mnemonic: Mnemonic::Rol, bytes: 3, cycles: 7, mode: AddressingMode::Absolute_X }),
        0x3F => Some(Opcode { code: 0x3F, mnemonic: Mnemonic::Rla, bytes: 3, cycles: 7, mode: AddressingMode::Absolute_X }),
        0x40 => Some(Opcode { code: 0x40, mnemonic: Mnemonic::Rti, bytes: 1, cycles: 6, mode: AddressingMode::Implied }),
        0x41 => Some(Opcode { code: 0x41, mnemonic: Mnemonic::Eor, bytes: 2, cycles: 6, mode: AddressingMode::Indirect_X }),
        0x43 => Some(Opcode { code: 0x43, mnemonic: Mnemonic::Sre, bytes: 2, cycles: 8, mode: AddressingMode::Indirect_X }),
        0x44 => Some(Opcode { code: 0x44, mnemonic: Mnemonic::Dop, bytes: 2, cycles: 3, mode: AddressingMode::ZeroPage }),
        0x45 => Some(Opcode { code: 0x45, mnemonic: Mnemonic::Eor, bytes: 2, cycles: 3, mode: AddressingMode::ZeroPage }),
        0x46 => Some(Opcode { code: 0x46, mnemonic: Mnemonic::Lsr, bytes: 2, cycles: 5, mode: AddressingMode::ZeroPage }),
        0x47 => Some(Opcode { code: 0x47, mnemonic: Mnemonic::Sre, bytes: 2, cycles: 5, mode: AddressingMode::ZeroPage }),
        0x48 => Some(Opcode { code: 0x48, mnemonic: Mnemonic::Pha, bytes: 1, cycles: 3, mode: AddressingMode::Implied }),
        0x49 => Some(Opcode { code: 0x49, mnemonic: Mnemonic::Eor, bytes: 2, cycles: 2, mode: AddressingMode::Immediate }),
        0x4A => Some(Opcode { code: 0x4A, mnemonic: Mnemonic::Lsr, bytes: 1, cycles: 2, mode: AddressingMode::Accumulator }),
        0x4B => Some(Opcode { code: 0x4B, mnemonic: Mnemonic::Asr, bytes: 2, cycles: 2, mode: AddressingMode::Immediate }),
        0x4C => Some(Opcode { code: 0x4C, mnemonic: Mnemonic::Jmp, bytes: 3, cycles: 3, mode: AddressingMode::Absolute }),
        0x4D => Some(Opcode { code: 0x4D, mnemonic: Mnemonic::Eor, bytes: 3, cycles: 4, mode: AddressingMode::Absolute }),
        0x4E => Some(Opcode { code: 0x4E, mnemonic: Mnemonic::Lsr, bytes: 3, cycles: 6, mode: AddressingMode::Absolute }),
        0x4F => Some(Opcode { code: 0x4F, mnemonic: Mnemonic::Sre, bytes: 3, cycles: 6, mode: AddressingMode::Absolute }),
        0x50 => Some(Opcode { code: 0x50, mnemonic: Mnemonic::Bvc, bytes: 2, cycles: 2, mode: AddressingMode::Relative }),
        0x51 => Some(Opcode { code: 0x51, mnemonic: Mnemonic::Eor, bytes: 2, cycles: 5, mode: AddressingMode::Indirect_Y }),
        0x53 => Some(Opcode { code: 0x53, mnemonic: Mnemonic::Sre, bytes: 2, cycles: 8, mode: AddressingMode::Indirect_Y }),
        0x54 => Some(Opcode { code: 0x54, mnemonic: Mnemonic::Dop, bytes: 2, cycles: 4, mode: AddressingMode::ZeroPage_X }),
        0x55 => Some(Opcode { code: 0x55, mnemonic: Mnemonic::Eor, bytes: 2, cycles: 4, mode: AddressingMode::ZeroPage_X }),
        0x56 => Some(Opcode { code: 0x56, mnemonic: Mnemonic::Lsr, bytes: 2, cycles: 6, mode: AddressingMode::ZeroPage_X }),
        0x57 => Some(Opcode { code: 0x57, mnemonic: Mnemonic::Sre, bytes: 2, cycles: 6, mode: AddressingMode::ZeroPage_X }),
        0x58 => Some(Opcode { code: 0x58, mnemonic: Mnemonic::Cli, bytes: 1, cycles: 2, mode: AddressingMode::Implied }),
        0x59 => Some(Opcode { code: 0x59, mnemonic: Mnemonic::Eor, bytes: 3, cycles: 4, mode: AddressingMode::Absolute_Y }),
        0x5A => Some(Opcode { code: 0x5A, mnemonic: Mnemonic::NopU, bytes: 1, cycles: 2, mode: AddressingMode::Implied }),
        0x5B => Some(Opcode { code: 0x5B, mnemonic: Mnemonic::Sre, bytes: 3, cycles: 7, mode: AddressingMode::Absolute_Y }),
        0x5C => Some(Opcode { code: 0x5C, mnemonic: Mnemonic::Top, bytes: 3, cycles: 4, mode: AddressingMode::Absolute_X }),
        0x5D => Some(Opcode { code: 0x5D, mnemonic: Mnemonic::Eor, bytes: 3, cycles: 4, mode: AddressingMode::Absolute_X }),
        0x5E => Some(Opcode { code: 0x5E, mnemonic: Mnemonic::Lsr, bytes: 3, cycles: 7, mode: AddressingMode::Absolute_X }),
        0x5F => Some(Opcode { code: 0x5F, mnemonic: Mnemonic::Sre, bytes: 3, cycles: 7, mode: AddressingMode::Absolute_X }),
        0x60 => Some(Opcode { code: 0x60, mnemonic: Mnemonic::Rts, bytes: 1, cycles: 6, mode: AddressingMode::Implied }),
        0x61 => Some(Opcode { code: 0x61, mnemonic: Mnemonic::Adc, bytes: 2, cycles: 6, mode: AddressingMode::Indirect_X }),
        0x63 => Some(Opcode { code: 0x63, mnemonic: Mnemonic::Rra, bytes: 2, cycles: 8, mode: AddressingMode::Indirect_X }),
        0x64 => Some(Opcode { code: 0x64, mnemonic: Mnemonic::Dop, bytes: 2, cycles: 3, mode: AddressingMode::ZeroPage }),
        0x65 => Some(Opcode { code: 0x65, mnemonic: Mnemonic::Adc, bytes: 2, cycles: 3, mode: AddressingMode::ZeroPage }),
        0x66 => Some(Opcode { code: 0x66, mnemonic: Mnemonic::Ror, bytes: 2, cycles: 5, mode: AddressingMode::ZeroPage }),
        0x67 => Some(Opcode { code: 0x67, mnemonic: Mnemonic::Rra, bytes: 2, cycles: 5, mode: AddressingMode::ZeroPage }),
        0x68 => Some(Opcode { code: 0x68, mnemonic: Mnemonic::Pla, bytes: 1, cycles: 4, mode: AddressingMode::Implied }),
        0x69 => Some(Opcode { code: 0x69, mnemonic: Mnemonic::Adc, bytes: 2, cycles: 2, mode: AddressingMode::Immediate }),
        0x6A => Some(Opcode { code: 0x6A, mnemonic: Mnemonic::Ror, bytes: 1, cycles: 2, mode: AddressingMode::Accumulator }),
        0x6B => Some(Opcode { code: 0x6B, mnemonic: Mnemonic::Arr, bytes: 2, cycles: 2, mode: AddressingMode::Immediate }),
        0x6C => Some(Opcode { code: 0x6C, mnemonic: Mnemonic::Jmp, bytes: 3, cycles: 5, mode: AddressingMode::Indirect }),
        0x6D => Some(Opcode { code: 0x6D, mnemonic: Mnemonic::Adc, bytes: 3, cycles: 4, mode: AddressingMode::Absolute }),
        0x6E => Some(Opcode { code: 0x6E, mnemonic: Mnemonic::Ror, bytes: 3, cycles: 6, mode: AddressingMode::Absolute }),
        0x6F => Some(Opcode { code: 0x6F, mnemonic: Mnemonic::Rra, bytes: 3, cycles: 6, mode: AddressingMode::Absolute }),
        0x70 => Some(Opcode { code: 0x70, mnemonic: Mnemonic::Bvs, bytes: 2, cycles: 2, mode: AddressingMode::Relative }),
        0x71 => Some(Opcode { code: 0x71, mnemonic: Mnemonic::Adc, bytes: 2, cycles: 5, mode: AddressingMode::Indirect_Y }),
        0x73 => Some(Opcode { code: 0x73, mnemonic: Mnemonic::Rra, bytes: 2, cycles: 8, mode: AddressingMode::Indirect_Y }),
        0x74 => Some(Opcode { code: 0x74, mnemonic: Mnemonic::Dop, bytes: 2, cycles: 4, mode: AddressingMode::ZeroPage_X }),
        0x75 => Some(Opcode { code: 0x75, mnemonic: Mnemonic::Adc, bytes: 2, cycles: 4, mode: AddressingMode::ZeroPage_X }),
        0x76 => Some(Opcode { code: 0x76, mnemonic: Mnemonic::Ror, bytes: 2, cycles: 6, mode: AddressingMode::ZeroPage_X }),
        0x77 => Some(Opcode { code: 0x77, mnemonic: Mnemonic::Rra, bytes: 2, cycles: 6, mode: AddressingMode::ZeroPage_X }),
        0x78 => Some(Opcode { code: 0x78, mnemonic: Mnemonic::Sei, bytes: 1, cycles: 2, mode: AddressingMode::Implied }),
        0x79 => Some(Opcode { code: 0x79, mnemonic: Mnemonic::Adc, bytes: 3, cycles: 4, mode: AddressingMode::Absolute_Y }),
        0x7A => Some(Opcode { code: 0x7A, mnemonic: Mnemonic::NopU, bytes: 1, cycles: 2, mode: AddressingMode::Implied }),
        0x7B => Some(Opcode { code: 0x7B, mnemonic: Mnemonic::Rra, bytes: 3, cycles: 7, mode: AddressingMode::Absolute_Y }),
        0x7C => Some(Opcode { code: 0x7C, mnemonic: Mnemonic::Top, bytes: 3, cycles: 4, mode: AddressingMode::Absolute_X }),
        0x7D => Some(Opcode { code: 0x7D, mnemonic: Mnemonic::Adc, bytes: 3, cycles: 4, mode: AddressingMode::Absolute_X }),
        0x7E => Some(Opcode { code: 0x7E, mnemonic: Mnemonic::Ror, bytes: 3, cycles: 7, mode: AddressingMode::Absolute_X }),
        0x7F => Some(Opcode { code: 0x7F, mnemonic: Mnemonic::Rra, bytes: 3, cycles: 7, mode: AddressingMode::Absolute_X }),
        0x80 => Some(Opcode { code: 0x80, mnemonic: Mnemonic::Dop, bytes: 2, cycles: 2, mode: AddressingMode::Immediate }),
        0x81 => Some(Opcode { code: 0x81, mnemonic: Mnemonic::Sta, bytes: 2, cycles: 6, mode: AddressingMode::Indirect_X }),
        0x82 => Some(Opcode { code: 0x82, mnemonic: Mnemonic::Dop, bytes: 2, cycles: 2, mode: AddressingMode::Immediate }),
        0x83 => Some(Opcode { code: 0x83, mnemonic: Mnemonic::Aax, bytes: 2, cycles: 6, mode: AddressingMode::Indirect_X }),
        0x84 => Some(Opcode { code: 0x84, mnemonic: Mnemonic::Sty, bytes: 2, cycles: 3, mode: AddressingMode::ZeroPage }),
        0x85 => Some(Opcode { code: 0x85, mnemonic: Mnemonic::Sta, bytes: 2, cycles: 3, mode: AddressingMode::ZeroPage }),
        0x86 => Some(Opcode { code: 0x86, mnemonic: Mnemonic::Stx, bytes: 2, cycles: 3, mode: AddressingMode::ZeroPage }),
        0x87 => Some(Opcode { code: 0x87, mnemonic: Mnemonic::Aax, bytes: 2, cycles: 3, mode: AddressingMode::ZeroPage }),
        0x88 => Some(Opcode { code: 0x88, mnemonic: Mnemonic::Dey, bytes: 1, cycles: 2, mode: AddressingMode::Implied }),
        0x89 => Some(Opcode { code: 0x89, mnemonic: Mnemonic::Dop, bytes: 2, cycles: 2, mode: AddressingMode::Immediate }),
        0x8A => Some(Opcode { code: 0x8A, mnemonic: Mnemonic::Txa, bytes: 1, cycles: 2, mode: AddressingMode::Implied }),
        0x8C => Some(Opcode { code: 0x8C, mnemonic: Mnemonic::Sty, bytes: 3, cycles: 4, mode: AddressingMode::Absolute }),
        0x8D => Some(Opcode { code: 0x8D, mnemonic: Mnemonic::Sta, bytes: 3, cycles: 4, mode: AddressingMode::Absolute }),
        0x8E => Some(Opcode { code: 0x8E, mnemonic: Mnemonic::Stx, bytes: 3, cycles: 4, mode: AddressingMode::Absolute }),
        0x8F => Some(Opcode { code: 0x8F, mnemonic: Mnemonic::Aax, bytes: 3, cycles: 4, mode: AddressingMode::Absolute }),
        0x90 => Some(Opcode { code: 0x90, mnemonic: Mnemonic::Bcc, bytes: 2, cycles: 2, mode: AddressingMode::Relative }),
        0x91 => Some(Opcode { code: 0x91, mnemonic: Mnemonic::Sta, bytes: 2, cycles: 6, mode: AddressingMode::Indirect_Y }),
        0x93 => Some(Opcode { code: 0x93, mnemonic: Mnemonic::Axa, bytes: 2, cycles: 6, mode: AddressingMode::Indirect_Y }),
        0x94 => Some(Opcode { code: 0x94, mnemonic: Mnemonic::Sty, bytes: 2, cycles: 4, mode: AddressingMode::ZeroPage_X }),
        0x95 => Some(Opcode { code: 0x95, mnemonic: Mnemonic::Sta, bytes: 2, cycles: 4, mode: AddressingMode::ZeroPage_X }),
        0x96 => Some(Opcode { code: 0x96, mnemonic: Mnemonic::Stx, bytes: 2, cycles: 4, mode: AddressingMode::ZeroPage_Y }),
        0x97 => Some(Opcode { code: 0x97, mnemonic: Mnemonic::Aax, bytes: 2, cycles: 4, mode: AddressingMode::ZeroPage_Y }),
        0x98 => Some(Opcode { code: 0x98, mnemonic: Mnemonic::Tya, bytes: 1, cycles: 2, mode: AddressingMode::Implied }),
        0x99 => Some(Opcode { code: 0x99, mnemonic: Mnemonic::Sta, bytes: 3, cycles: 5, mode: AddressingMode::Absolute_Y }),
        0x9A => Some(Opcode { code: 0x9A, mnemonic: Mnemonic::Txs, bytes: 1, cycles: 2, mode: AddressingMode::Implied }),
        0x9B => Some(Opcode { code: 0x9B, mnemonic: Mnemonic::Xas, bytes: 3, cycles: 5, mode: AddressingMode::Absolute_Y }),
        0x9C => Some(Opcode { code: 0x9C, mnemonic: Mnemonic::Sya, bytes: 3, cycles: 5, mode: AddressingMode::Absolute_X }),
        0x9D => Some(Opcode { code: 0x9D, mnemonic: Mnemonic::Sta, bytes: 3, cycles: 5, mode: AddressingMode::Absolute_X }),
        0x9E => Some(Opcode { code: 0x9E, mnemonic: Mnemonic::Sxa, bytes: 3, cycles: 5, mode: AddressingMode::Absolute_Y }),
        0x9F => Some(Opcode { code: 0x9F, mnemonic: Mnemonic::Axa, bytes: 3, cycles: 5, mode: AddressingMode::Absolute_Y }),
        0xA0 => Some(Opcode { code: 0xA0, mnemonic: Mnemonic::Ldy, bytes: 2, cycles: 2, mode: AddressingMode::Immediate }),
        0xA1 => Some(Opcode { code: 0xA1, mnemonic: Mnemonic::Lda, bytes: 2, cycles: 6, mode: AddressingMode::Indirect_X }),
        0xA2 => Some(Opcode { code: 0xA2, mnemonic: Mnemonic::Ldx, bytes: 2, cycles: 2, mode: AddressingMode::Immediate }),
        0xA3 => Some(Opcode { code: 0xA3, mnemonic: Mnemonic::Lax, bytes: 2, cycles: 6, mode: AddressingMode::Indirect_X }),
        0xA4 => Some(Opcode { code: 0xA4, mnemonic: Mnemonic::Ldy, bytes: 2, cycles: 3, mode: AddressingMode::ZeroPage }),
        0xA5 => Some(Opcode { code: 0xA5, mnemonic: Mnemonic::Lda, bytes: 2, cycles: 3, mode: AddressingMode::ZeroPage }),
        0xA6 => Some(Opcode { code: 0xA6, mnemonic: Mnemonic::Ldx, bytes: 2, cycles: 3, mode: AddressingMode::ZeroPage }),
        0xA7 => Some(Opcode { code: 0xA7, mnemonic: Mnemonic::Lax, bytes: 2, cycles: 3, mode: AddressingMode::ZeroPage }),
        0xA8 => Some(Opcode { code: 0xA8, mnemonic: Mnemonic::Tay, bytes: 1, cycles: 2, mode: AddressingMode::Implied }),
        0xA9 => Some(Opcode { code: 0xA9, mnemonic: Mnemonic::Lda, bytes: 2, cycles: 2, mode: AddressingMode::Immediate }),
        0xAA => Some(Opcode { code: 0xAA, mnemonic: Mnemonic::Tax, bytes: 1, cycles: 2, mode: AddressingMode::Implied }),
        0xAB => Some(Opcode { code: 0xAB, mnemonic: Mnemonic::Atx, bytes: 2, cycles: 2, mode: AddressingMode::Immediate }),
        0xAC => Some(Opcode { code: 0xAC, mnemonic: Mnemonic::Ldy, bytes: 3, cycles: 4, mode: AddressingMode::Absolute }),
        0xAD => Some(Opcode { code: 0xAD, mnemonic: Mnemonic::Lda, bytes: 3, cycles: 4, mode: AddressingMode::Absolute }),
        0xAE => Some(Opcode { code: 0xAE, mnemonic: Mnemonic::Ldx, bytes: 3, cycles: 4, mode: AddressingMode::Absolute }),
        0xAF => Some(Opcode { code: 0xAF, mnemonic: Mnemonic::Lax, bytes: 3, cycles: 4, mode: AddressingMode::Absolute }),
        0xB0 => Some(Opcode { code: 0xB0, mnemonic: Mnemonic::Bcs, bytes: 2, cycles: 2, mode: AddressingMode::Relative }),
        0xB1 => Some(Opcode { code: 0xB1, mnemonic: Mnemonic::Lda, bytes: 2, cycles: 5, mode: AddressingMode::Indirect_Y }),
        0xB3 => Some(Opcode { code: 0xB3, mnemonic: Mnemonic::Lax, bytes: 2, cycles: 5, mode: AddressingMode::Indirect_Y }),
        0xB4 => Some(Opcode { code: 0xB4, mnemonic: Mnemonic::Ldy, bytes: 2, cycles: 4, mode: AddressingMode::ZeroPage_X }),
        0xB5 => Some(Opcode { code: 0xB5, mnemonic: Mnemonic::Lda, bytes: 2, cycles: 4, mode: AddressingMode::ZeroPage_X }),
        0xB6 => Some(Opcode { code: 0xB6, mnemonic: Mnemonic::Ldx, bytes: 2, cycles: 4, mode: AddressingMode::ZeroPage_Y }),
        0xB7 => Some(Opcode { code: 0xB7, mnemonic: Mnemonic::Lax, bytes: 2, cycles: 4, mode: AddressingMode::ZeroPage_Y }),
        0xB8 => Some(Opcode { code: 0xB8, mnemonic: Mnemonic::Clv, bytes: 1, cycles: 2, mode: AddressingMode::Implied }),
        0xB9 => Some(Opcode { code: 0xB9, mnemonic: Mnemonic::Lda, bytes: 3, cycles: 4, mode: AddressingMode::Absolute_Y }),
        0xBA => Some(Opcode { code: 0xBA, mnemonic: Mnemonic::Tsx, bytes: 1, cycles: 2, mode: AddressingMode::Implied }),
        0xBB => Some(Opcode { code: 0xBB, mnemonic: Mnemonic::Lar, bytes: 3, cycles: 4, mode: AddressingMode::Absolute_Y }),
        0xBC => Some(Opcode { code: 0xBC, mnemonic: Mnemonic::Ldy, bytes: 3, cycles: 4, mode: AddressingMode::Absolute_X }),
        0xBD => Some(Opcode { code: 0xBD, mnemonic: Mnemonic::Lda, bytes: 3, cycles: 4, mode: AddressingMode::Absolute_X }),
        0xBE => Some(Opcode { code: 0xBE, mnemonic: Mnemonic::Ldx, bytes: 3, cycles: 4, mode: AddressingMode::Absolute_Y }),
        0xBF => Some(Opcode { code: 0xBF, mnemonic: Mnemonic::Lax, bytes: 3, cycles: 4, mode: AddressingMode::Absolute_Y }),
        0xC0 => Some(Opcode { code: 0xC0, mnemonic: Mnemonic::Cpy, bytes: 2, cycles: 2, mode: AddressingMode::Immediate }),
        0xC1 => Some(Opcode { code: 0xC1, mnemonic: Mnemonic::Cmp, bytes: 2, cycles: 6, mode: AddressingMode::Indirect_X }),
        0xC2 => Some(Opcode { code: 0xC2, mnemonic: Mnemonic::Dop, bytes: 2, cycles: 2, mode: AddressingMode::Immediate }),
        0xC3 => Some(Opcode { code: 0xC3, mnemonic: Mnemonic::Dcp, bytes: 2, cycles: 8, mode: AddressingMode::Indirect_X }),
        0xC4 => Some(Opcode { code: 0xC4, mnemonic: Mnemonic::Cpy, bytes: 2, cycles: 3, mode: AddressingMode::ZeroPage }),
        0xC5 => Some(Opcode { code: 0xC5, mnemonic: Mnemonic::Cmp, bytes: 2, cycles: 3, mode: AddressingMode::ZeroPage }),
        0xC6 => Some(Opcode { code: 0xC6, mnemonic: Mnemonic::Dec, bytes: 2, cycles: 5, mode: AddressingMode::ZeroPage }),
        0xC7 => Some(Opcode { code: 0xC7, mnemonic: Mnemonic::Dcp, bytes: 2, cycles: 5, mode: AddressingMode::ZeroPage }),
        0xC8 => Some(Opcode { code: 0xC8, mnemonic: Mnemonic::Iny, bytes: 1, cycles: 2, mode: AddressingMode::Implied }),
        0xC9 => Some(Opcode { code: 0xC9, mnemonic: Mnemonic::Cmp, bytes: 2, cycles: 2, mode: AddressingMode::Immediate }),
        0xCA => Some(Opcode { code: 0xCA, mnemonic: Mnemonic::Dex, bytes: 1, cycles: 2, mode: AddressingMode::Implied }),
        0xCB => Some(Opcode { code: 0xCB, mnemonic: Mnemonic::Axs, bytes: 2, cycles: 2, mode: AddressingMode::Immediate }),
        0xCC => Some(Opcode { code: 0xCC, mnemonic: Mnemonic::Cpy, bytes: 3, cycles: 4, mode: AddressingMode::Absolute }),
        0xCD => Some(Opcode { code: 0xCD, mnemonic: Mnemonic::Cmp, bytes: 3, cycles: 4, mode: AddressingMode::Absolute }),
        0xCE => Some(Opcode { code: 0xCE, mnemonic: Mnemonic::Dec, bytes: 3, cycles: 6, mode: AddressingMode::Absolute }),
        0xCF => Some(Opcode { code: 0xCF, mnemonic: Mnemonic::Dcp, bytes: 3, cycles: 6, mode: AddressingMode::Absolute }),
        0xD0 => Some(Opcode { code: 0xD0, mnemonic: Mnemonic::Bne, bytes: 2, cycles: 2, mode: AddressingMode::Relative }),
        0xD1 => Some(Opcode { code: 0xD1, mnemonic: Mnemonic::Cmp, bytes: 2, cycles: 5, mode: AddressingMode::Indirect_Y }),
        0xD3 => Some(Opcode { code: 0xD3, mnemonic: Mnemonic::Dcp, bytes: 2, cycles: 8, mode: AddressingMode::Indirect_Y }),
        0xD4 => Some(Opcode { code: 0xD4, mnemonic: Mnemonic::Dop, bytes: 2, cycles: 4, mode: AddressingMode::ZeroPage_X }),
        0xD5 => Some(Opcode { code: 0xD5, mnemonic: Mnemonic::Cmp, bytes: 2, cycles: 4, mode: AddressingMode::ZeroPage_X }),
        0xD6 => Some(Opcode { code: 0xD6, mnemonic: Mnemonic::Dec, bytes: 2, cycles: 6, mode: AddressingMode::ZeroPage_X }),
        0xD7 => Some(Opcode { code: 0xD7, mnemonic: Mnemonic::Dcp, bytes: 2, cycles: 6, mode: AddressingMode::ZeroPage_X }),
        0xD8 => Some(Opcode { code: 0xD8, mnemonic: Mnemonic::Cld, bytes: 1, cycles: 2, mode: AddressingMode::Implied }),
        0xD9 => Some(Opcode { code: 0xD9, mnemonic: Mnemonic::Cmp, bytes: 3, cycles: 4, mode: AddressingMode::Absolute_Y }),
        0xDA => Some(Opcode { code: 0xDA, mnemonic: Mnemonic::NopU, bytes: 1, cycles: 2, mode: AddressingMode::Implied }),
        0xDB => Some(Opcode { code: 0xDB, mnemonic: Mnemonic::Dcp, bytes: 3, cycles: 7, mode: AddressingMode::Absolute_Y }),
        0xDC => Some(Opcode { code: 0xDC, mnemonic: Mnemonic::Top, bytes: 3, cycles: 4, mode: AddressingMode::Absolute_X }),
        0xDD => Some(Opcode { code: 0xDD, mnemonic: Mnemonic::Cmp, bytes: 3, cycles: 4, mode: AddressingMode::Absolute_X }),
        0xDE => Some(Opcode { code: 0xDE, mnemonic: Mnemonic::Dec, bytes: 3, cycles: 7, mode: AddressingMode::Absolute_X }),
        0xDF => Some(Opcode { code: 0xDF, mnemonic: Mnemonic::Dcp, bytes: 3, cycles: 7, mode: AddressingMode::Absolute_X }),
        0xE0 => Some(Opcode { code: 0xE0, mnemonic: Mnemonic::Cpx, bytes: 2, cycles: 2, mode: AddressingMode::Immediate }),
        0xE1 => Some(Opcode { code: 0xE1, mnemonic: Mnemonic::Sbc, bytes: 2, cycles: 6, mode: AddressingMode::Indirect_X }),
        0xE2 => Some(Opcode { code: 0xE2, mnemonic: Mnemonic::Dop, bytes: 2, cycles: 2, mode: AddressingMode::Immediate }),
        0xE3 => Some(Opcode { code: 0xE3, mnemonic: Mnemonic::Isb, bytes: 2, cycles: 8, mode: AddressingMode::Indirect_X }),
        0xE4 => Some(Opcode { code: 0xE4, mnemonic: Mnemonic::Cpx, bytes: 2, cycles: 3, mode: AddressingMode::ZeroPage }),
        0xE5 => Some(Opcode { code: 0xE5, mnemonic: Mnemonic::Sbc, bytes: 2, cycles: 3, mode: AddressingMode::ZeroPage }),
        0xE6 => Some(Opcode { code: 0xE6, mnemonic: Mnemonic::Inc, bytes: 2, cycles: 5, mode: AddressingMode::ZeroPage }),
        0xE7 => Some(Opcode { code: 0xE7, mnemonic: Mnemonic::Isb, bytes: 2, cycles: 5, mode: AddressingMode::ZeroPage }),
        0xE8 => Some(Opcode { code: 0xE8, mnemonic: Mnemonic::Inx, bytes: 1, cycles: 2, mode: AddressingMode::Implied }),
        0xE9 => Some(Opcode { code: 0xE9, mnemonic: Mnemonic::Sbc, bytes: 2, cycles: 2, mode: AddressingMode::Immediate }),
        0xEA => Some(Opcode { code: 0xEA, mnemonic: Mnemonic::Nop, bytes: 1, cycles: 2, mode: AddressingMode::Implied }),
        0xEB => Some(Opcode { code: 0xEB, mnemonic: Mnemonic::SbcU, bytes: 2, cycles: 2, mode: AddressingMode::Immediate }),
        0xEC => Some(Opcode { code: 0xEC, mnemonic: Mnemonic::Cpx, bytes: 3, cycles: 4, mode: AddressingMode::Absolute }),
        0xED => Some(Opcode { code: 0xED, mnemonic: Mnemonic::Sbc, bytes: 3, cycles: 4, mode: AddressingMode::Absolute }),
        0xEE => Some(Opcode { code: 0xEE, mnemonic: Mnemonic::Inc, bytes: 3, cycles: 6, mode: AddressingMode::Absolute }),
        0xEF => Some(Opcode { code: 0xEF, mnemonic: Mnemonic::Isb, bytes: 3, cycles: 6, mode: AddressingMode::Absolute }),
        0xF0 => Some(Opcode { code: 0xF0, mnemonic: Mnemonic::Beq, bytes: 2, cycles: 2, mode: AddressingMode::Relative }),
        0xF1 => Some(Opcode { code: 0xF1, mnemonic: Mnemonic::Sbc, bytes: 2, cycles: 5, mode: AddressingMode::Indirect_Y }),
        0xF3 => Some(Opcode { code: 0xF3, mnemonic: Mnemonic::Isb, bytes: 2, cycles: 8, mode: AddressingMode::Indirect_Y }),
        0xF4 => Some(Opcode { code: 0xF4, mnemonic: Mnemonic::Dop, bytes: 2, cycles: 4, mode: AddressingMode::ZeroPage_X }),
        0xF5 => Some(Opcode { code: 0xF5, mnemonic: Mnemonic::Sbc, bytes: 2, cycles: 4, mode: AddressingMode::ZeroPage_X }),
        0xF6 => Some(Opcode { code: 0xF6, mnemonic: Mnemonic::Inc, bytes: 2, cycles: 6, mode: AddressingMode::ZeroPage_X }),
        0xF7 => Some(Opcode { code: 0xF7, mnemonic: Mnemonic::Isb, bytes: 2, cycles: 6, mode: AddressingMode::ZeroPage_X }),
        0xF8 => Some(Opcode { code: 0xF8, mnemonic: Mnemonic::Sed, bytes: 1, cycles: 2, mode: AddressingMode::Implied }),
        0xF9 => Some(Opcode { code: 0xF9, mnemonic: Mnemonic::Sbc, bytes: 3, cycles: 4, mode: AddressingMode::Absolute_Y }),
        0xFA => Some(Opcode { code: 0xFA, mnemonic: Mnemonic::NopU, bytes: 1, cycles: 2, mode: AddressingMode::Implied }),
        0xFB => Some(Opcode { code: 0xFB, mnemonic: Mnemonic::Isb, bytes: 3, cycles: 7, mode: AddressingMode::Absolute_Y }),
        0xFC => Some(Opcode { code: 0xFC, mnemonic: Mnemonic::Top, bytes: 3, cycles: 4, mode: AddressingMode::Absolute_X }),
        0xFD => Some(Opcode { code: 0xFD, mnemonic: Mnemonic::Sbc, bytes: 3, cycles: 4, mode: AddressingMode::Absolute_X }),
        0xFE => Some(Opcode { code: 0xFE, mnemonic: Mnemonic::Inc, bytes: 3, cycles: 7, mode: AddressingMode::Absolute_X }),
        0xFF => Some(Opcode { code: 0xFF, mnemonic: Mnemonic::Isb, bytes: 3, cycles: 7, mode: AddressingMode::Absolute_X }),
        _ => None,
    }
}

/// Look an opcode byte up, exactly as `opcode_spec` says. Every row has
/// a byte length of 1 to 3 and repeats its own opcode byte.
pub fn opcode_for(code: u8) -> (r: Option<Opcode>)
    ensures
        r == opcode_spec(code),
        match r {
            Some(op) => op.code == code && 1 <= op.bytes <= 3,
            None => true,
        },
{
    proof {
        reveal(opcode_spec);
    }
    match code {
        0x00 => Some(Opcode { code: 0x00, mnemonic: Mnemonic::Brk, bytes: 1, cycles: 7, mode: AddressingMode::NoneAddressing }),
        0x01 => Some(Opcode { code: 0x01, mnemonic: Mnemonic::Ora, bytes: 2, cycles: 6, mode: AddressingMode::Indirect_X }),
        0x03 => Some(Opcode { code: 0x03, mnemonic: Mnemonic::Slo, bytes: 2, cycles: 8, mode: AddressingMode::Indirect_X }),
        0x04 => Some(Opcode { code: 0x04, mnemonic: Mnemonic::Dop, bytes: 2, cycles: 3, mode: AddressingMode::ZeroPage }),
        0x05 => Some(Opcode { code: 0x05, mnemonic: Mnemonic::Ora, bytes: 2, cycles: 3, mode: AddressingMode::ZeroPage }),
        0x06 => Some(Opcode { code: 0x06, mnemonic: Mnemonic::Asl, bytes: 2, cycles: 5, mode: AddressingMode::ZeroPage }),
        0x07 => Some(Opcode { code: 0x07, mnemonic: Mnemonic::Slo, bytes: 2, cycles: 5, mode: AddressingMode::ZeroPage }),
        0x08 => Some(Opcode { code: 0x08, mnemonic: Mnemonic::Php, bytes: 1, cycles: 3, mode: AddressingMode::Implied }),
        0x09 => Some(Opcode { code: 0x09, mnemonic: Mnemonic::Ora, bytes: 2, cycles: 2, mode: AddressingMode::Immediate }),
        0x0A => Some(Opcode { code: 0x0A, mnemonic: Mnemonic::Asl, bytes: 1, cycles: 2, mode: AddressingMode::Accumulator }),
        0x0B => Some(Opcode { code: 0x0B, mnemonic: Mnemonic::Aac, bytes: 2, cycles: 2, mode: AddressingMode::Immediate }),
        0x0C => Some(Opcode { code: 0x0C, mnemonic: Mnemonic::Top, bytes: 3, cycles: 4, mode: AddressingMode::Absolute }),
        0x0D => Some(Opcode { code: 0x0D, mnemonic: Mnemonic::Ora, bytes: 3, cycles: 4, mode: AddressingMode::Absolute }),
        0x0E => Some(Opcode { code: 0x0E, mnemonic: Mnemonic::Asl, bytes: 3, cycles: 6, mode: AddressingMode::Absolute }),
        0x0F => Some(Opcode { code: 0x0F, mnemonic: Mnemonic::Slo, bytes: 3, cycles: 6, mode: AddressingMode::Absolute }),
        0x10 => Some(Opcode { code: 0x10, mnemonic: Mnemonic::Bpl, bytes: 2, cycles: 2, mode: AddressingMode::Relative }),
        0x11 => Some(Opcode { code: 0x11, mnemonic: Mnemonic::Ora, bytes: 2, cycles: 5, mode: AddressingMode::Indirect_Y }),
        0x13 => Some(Opcode { code: 0x13, mnemonic: Mnemonic::Slo, bytes: 2, cycles: 8, mode: AddressingMode::Indirect_Y }),
        0x14 => Some(Opcode { code: 0x14, mnemonic: Mnemonic::Dop, bytes: 2, cycles: 4, mode: AddressingMode::ZeroPage_X }),
        0x15 => Some(Opcode { code: 0x15, mnemonic: Mnemonic::Ora, bytes: 2, cycles: 4, mode: AddressingMode::ZeroPage_X }),
        0x16 => Some(Opcode { code: 0x16, mnemonic: Mnemonic::Asl, bytes: 2, cycles: 6, mode: AddressingMode::ZeroPage_X }),
        0x17 => Some(Opcode { code: 0x17, mnemonic: Mnemonic::Slo, bytes: 2, cycles: 6, mode: AddressingMode::ZeroPage_X }),
        0x18 => Some(Opcode { code: 0x18, mnemonic: Mnemonic::Clc, bytes: 1, cycles: 2, mode: AddressingMode::Implied }),
        0x19 => Some(Opcode { code: 0x19, mnemonic: Mnemonic::Ora, bytes: 3, cycles: 4, mode: AddressingMode::Absolute_Y }),
        0x1A => Some(Opcode { code: 0x1A, mnemonic: Mnemonic::NopU, bytes: 1, cycles: 2, mode: AddressingMode::Implied }),
        0x1B => Some(Opcode { code: 0x1B, mnemonic: Mnemonic::Slo, bytes: 3, cycles: 7, mode: AddressingMode::Absolute_Y }),
        0x1C => Some(Opcode { code: 0x1C, mnemonic: Mnemonic::Top, bytes: 3, cycles: 4, mode: AddressingMode::Absolute_X }),
        0x1D => Some(Opcode { code: 0x1D, mnemonic: Mnemonic::Ora, bytes: 3, cycles: 4, mode: AddressingMode::Absolute_X }),
        0x1E => Some(Opcode { code: 0x1E, mnemonic: Mnemonic::Asl, bytes: 3, cycles: 7, mode: AddressingMode::Absolute_X }),
        0x1F => Some(Opcode { code: 0x1F, mnemonic: Mnemonic::Slo, bytes: 3, cycles: 7, mode: AddressingMode::Absolute_X }),
        0x20 => Some(Opcode { code: 0x20, mnemonic: Mnemonic::Jsr, bytes: 3, cycles: 6, mode: AddressingMode::Absolute }),
        0x21 => Some(Opcode { code: 0x21, mnemonic: Mnemonic::And, bytes: 2, cycles: 6, mode: AddressingMode::Indirect_X }),
        0x23 => Some(Opcode { code: 0x23, mnemonic: Mnemonic::Rla, bytes: 2, cycles: 8, mode: AddressingMode::Indirect_X }),
        0x24 => Some(Opcode { code: 0x24, mnemonic: Mnemonic::Bit, bytes: 2, cycles: 3, mode: AddressingMode::ZeroPage }),
        0x25 => Some(Opcode { code: 0x25, mnemonic: Mnemonic::And, bytes: 2, cycles: 3, mode: AddressingMode::ZeroPage }),
        0x26 => Some(Opcode { code: 0x26, mnemonic: Mnemonic::Rol, bytes: 2, cycles: 5, mode: AddressingMode::ZeroPage }),
        0x27 => Some(Opcode { code: 0x27, mnemonic: Mnemonic::Rla, bytes: 2, cycles: 5, mode: AddressingMode::ZeroPage }),
        0x28 => Some(Opcode { code: 0x28, mnemonic: Mnemonic::Plp, bytes: 1, cycles: 4, mode: AddressingMode::Implied }),
        0x29 => Some(Opcode { code: 0x29, mnemonic: Mnemonic::And, bytes: 2, cycles: 2, mode: AddressingMode::Immediate }),
        0x2A => Some(Opcode { code: 0x2A, mnemonic: Mnemonic::Rol, bytes: 1, cycles: 2, mode: AddressingMode::Accumulator }),
        0x2B => Some(Opcode { code: 0x2B, mnemonic: Mnemonic::Aac, bytes: 2, cycles: 2, mode: AddressingMode::Immediate }),
        0x2C => Some(Opcode { code: 0x2C, mnemonic: Mnemonic::Bit, bytes: 3, cycles: 4, mode: AddressingMode::Absolute }),
        0x2D => Some(Opcode { code: 0x2D, mnemonic: Mnemonic::And, bytes: 3, cycles: 4, mode: AddressingMode::Absolute }),
        0x2E => Some(Opcode { code: 0x2E, mnemonic: Mnemonic::Rol, bytes: 3, cycles: 6, mode: AddressingMode::Absolute }),
        0x2F => Some(Opcode { code: 0x2F, mnemonic: Mnemonic::Rla, bytes: 3, cycles: 6, mode: AddressingMode::Absolute }),
        0x30 => Some(Opcode { code: 0x30, mnemonic: Mnemonic::Bmi, bytes: 2, cycles: 2, mode: AddressingMode::Relative }),
        0x31 => Some(Opcode { code: 0x31, mnemonic: Mnemonic::And, bytes: 2, cycles: 5, mode: AddressingMode::Indirect_Y }),
        0x33 => Some(Opcode { code: 0x33, mnemonic: Mnemonic::Rla, bytes: 2, cycles: 8, mode: AddressingMode::Indirect_Y }),
        0x34 => Some(Opcode { code: 0x34, mnemonic: Mnemonic::Dop, bytes: 2, cycles: 4, mode: AddressingMode::ZeroPage_X }),
        0x35 => Some(Opcode { code: 0x35, mnemonic: Mnemonic::And, bytes: 2, cycles: 4, mode: AddressingMode::ZeroPage_X }),
        0x36 => Some(Opcode { code: 0x36, mnemonic: Mnemonic::Rol, bytes: 2, cycles: 6, mode: AddressingMode::ZeroPage_X }),
        0x37 => Some(Opcode { code: 0x37, mnemonic: Mnemonic::Rla, bytes: 2, cycles: 6, mode: AddressingMode::ZeroPage_X }),
        0x38 => Some(Opcode { code: 0x38, mnemonic: Mnemonic::Sec, bytes: 1, cycles: 2, mode: AddressingMode::Implied }),
        0x39 => Some(Opcode { code: 0x39, mnemonic: Mnemonic::And, bytes: 3, cycles: 4, mode: AddressingMode::Absolute_Y }),
        0x3A => Some(Opcode { code: 0x3A, mnemonic: Mnemonic::NopU, bytes: 1, cycles: 2, mode: AddressingMode::Implied }),
        0x3B => Some(Opcode { code: 0x3B, mnemonic: Mnemonic::Rla, bytes: 3, cycles: 7, mode: AddressingMode::Absolute_Y }),
        0x3C => Some(Opcode { code: 0x3C, mnemonic: Mnemonic::Top, bytes: 3, cycles: 4, mode: AddressingMode::Absolute_X }),
        0x3D => Some(Opcode { code: 0x3D, mnemonic: Mnemonic::And, bytes: 3, cycles: 4, mode: AddressingMode::Absolute_X }),
        0x3E => Some(Opcode { code: 0x3E, mnemonic: Mnemonic::Rol, bytes: 3, cycles: 7, mode: AddressingMode::Absolute_X }),
        0x3F => Some(Opcode { code: 0x3F, mnemonic: Mnemonic::Rla, bytes: 3, cycles: 7, mode: AddressingMode::Absolute_X }),
        0x40 => Some(Opcode { code: 0x40, mnemonic: Mnemonic::Rti, bytes: 1, cycles: 6, mode: AddressingMode::Implied }),
        0x41 => Some(Opcode { code: 0x41, mnemonic: Mnemonic::Eor, bytes: 2, cycles: 6, mode: AddressingMode::Indirect_X }),
        0x43 => Some(Opcode { code: 0x43, mnemonic: Mnemonic::Sre, bytes: 2, cycles: 8, mode: AddressingMode::Indirect_X }),
        0x44 => Some(Opcode { code: 0x44, mnemonic: Mnemonic::Dop, bytes: 2, cycles: 3, mode: AddressingMode::ZeroPage }),
        0x45 => Some(Opcode { code: 0x45, mnemonic: Mnemonic::Eor, bytes: 2, cycles: 3, mode: AddressingMode::ZeroPage }),
        0x46 => Some(Opcode { code: 0x46, mnemonic: Mnemonic::Lsr, bytes: 2, cycles: 5, mode: AddressingMode::ZeroPage }),
        0x47 => Some(Opcode { code: 0x47, mnemonic: Mnemonic::Sre, bytes: 2, cycles: 5, mode: AddressingMode::ZeroPage }),
        0x48 => Some(Opcode { code: 0x48, mnemonic: Mnemonic::Pha, bytes: 1, cycles: 3, mode: AddressingMode::Implied }),
        0x49 => Some(Opcode { code: 0x49, mnemonic: Mnemonic::Eor, bytes: 2, cycles: 2, mode: AddressingMode::Immediate }),
        0x4A => Some(Opcode { code: 0x4A, mnemonic: Mnemonic::Lsr, bytes: 1, cycles: 2, mode: AddressingMode::Accumulator }),
        0x4B => Some(Opcode { code: 0x4B, mnemonic: Mnemonic::Asr, bytes: 2, cycles: 2, mode: AddressingMode::Immediate }),
        0x4C => Some(Opcode { code: 0x4C, mnemonic: Mnemonic::Jmp, bytes: 3, cycles: 3, mode: AddressingMode::Absolute }),
        0x4D => Some(Opcode { code: 0x4D, mnemonic: Mnemonic::Eor, bytes: 3, cycles: 4, mode: AddressingMode::Absolute }),
        0x4E => Some(Opcode { code: 0x4E, mnemonic: Mnemonic::Lsr, bytes: 3, cycles: 6, mode: AddressingMode::Absolute }),
        0x4F => Some(Opcode { code: 0x4F, mnemonic: Mnemonic::Sre, bytes: 3, cycles: 6, mode: AddressingMode::Absolute }),
        0x50 => Some(Opcode { code: 0x50, mnemonic: Mnemonic::Bvc, bytes: 2, cycles: 2, mode: AddressingMode::Relative }),
        0x51 => Some(Opcode { code: 0x51, mnemonic: Mnemonic::Eor, bytes: 2, cycles: 5, mode: AddressingMode::Indirect_Y }),
        0x53 => Some(Opcode { code: 0x53, mnemonic: Mnemonic::Sre, bytes: 2, cycles: 8, mode: AddressingMode::Indirect_Y }),
        0x54 => Some(Opcode { code: 0x54, mnemonic: Mnemonic::Dop, bytes: 2, cycles: 4, mode: AddressingMode::ZeroPage_X }),
        0x55 => Some(Opcode { code: 0x55, mnemonic: Mnemonic::Eor, bytes: 2, cycles: 4, mode: AddressingMode::ZeroPage_X }),
        0x56 => Some(Opcode { code: 0x56, mnemonic: Mnemonic::Lsr, bytes: 2, cycles: 6, mode: AddressingMode::ZeroPage_X }),
        0x57 => Some(Opcode { code: 0x57, mnemonic: Mnemonic::Sre, bytes: 2, cycles: 6, mode: AddressingMode::ZeroPage_X }),
        0x58 => Some(Opcode { code: 0x58, mnemonic: Mnemonic::Cli, bytes: 1, cycles: 2, mode: AddressingMode::Implied }),
        0x59 => Some(Opcode { code: 0x59, mnemonic: Mnemonic::Eor, bytes: 3, cycles: 4, mode: AddressingMode::Absolute_Y }),
        0x5A => Some(Opcode { code: 0x5A, mnemonic: Mnemonic::NopU, bytes: 1, cycles: 2, mode: AddressingMode::Implied }),
        0x5B => Some(Opcode { code: 0x5B, mnemonic: Mnemonic::Sre, bytes: 3, cycles: 7, mode: AddressingMode::Absolute_Y }),
        0x5C => Some(Opcode { code: 0x5C, mnemonic: Mnemonic::Top, bytes: 3, cycles: 4, mode: AddressingMode::Absolute_X }),
        0x5D => Some(Opcode { code: 0x5D, mnemonic: Mnemonic::Eor, bytes: 3, cycles: 4, mode: AddressingMode::Absolute_X }),
        0x5E => Some(Opcode { code: 0x5E, mnemonic: Mnemonic::Lsr, bytes: 3, cycles: 7, mode: AddressingMode::Absolute_X }),
        0x5F => Some(Opcode { code: 0x5F, mnemonic: Mnemonic::Sre, bytes: 3, cycles: 7, mode: AddressingMode::Absolute_X }),
        0x60 => Some(Opcode { code: 0x60, mnemonic: Mnemonic::Rts, bytes: 1, cycles: 6, mode: AddressingMode::Implied }),
        0x61 => Some(Opcode { code: 0x61, mnemonic: Mnemonic::Adc, bytes: 2, cycles: 6, mode: AddressingMode::Indirect_X }),
        0x63 => Some(Opcode { code: 0x63, mnemonic: Mnemonic::Rra, bytes: 2, cycles: 8, mode: AddressingMode::Indirect_X }),
        0x64 => Some(Opcode { code: 0x64, mnemonic: Mnemonic::Dop, bytes: 2, cycles: 3, mode: AddressingMode::ZeroPage }),
        0x65 => Some(Opcode { code: 0x65, mnemonic: Mnemonic::Adc, bytes: 2, cycles: 3, mode: AddressingMode::ZeroPage }),
        0x66 => Some(Opcode { code: 0x66, mnemonic: Mnemonic::Ror, bytes: 2, cycles: 5, mode: AddressingMode::ZeroPage }),
        0x67 => Some(Opcode { code: 0x67, mnemonic: Mnemonic::Rra, bytes: 2, cycles: 5, mode: AddressingMode::ZeroPage }),
        0x68 => Some(Opcode { code: 0x68, mnemonic: Mnemonic::Pla, bytes: 1, cycles: 4, mode: AddressingMode::Implied }),
        0x69 => Some(Opcode { code: 0x69, mnemonic: Mnemonic::Adc, bytes: 2, cycles: 2, mode: AddressingMode::Immediate }),
        0x6A => Some(Opcode { code: 0x6A, mnemonic: Mnemonic::Ror, bytes: 1, cycles: 2, mode: AddressingMode::Accumulator }),
        0x6B => Some(Opcode { code: 0x6B, mnemonic: Mnemonic::Arr, bytes: 2, cycles: 2, mode: AddressingMode::Immediate }),
        0x6C => Some(Opcode { code: 0x6C, mnemonic: Mnemonic::Jmp, bytes: 3, cycles: 5, mode: AddressingMode::Indirect }),
        0x6D => Some(Opcode { code: 0x6D, mnemonic: Mnemonic::Adc, bytes: 3, cycles: 4, mode: AddressingMode::Absolute }),
        0x6E => Some(Opcode { code: 0x6E, mnemonic: Mnemonic::Ror, bytes: 3, cycles: 6, mode: AddressingMode::Absolute }),
        0x6F => Some(Opcode { code: 0x6F, mnemonic: Mnemonic::Rra, bytes: 3, cycles: 6, mode: AddressingMode::Absolute }),
        0x70 => Some(Opcode { code: 0x70, mnemonic: Mnemonic::Bvs, bytes: 2, cycles: 2, mode: AddressingMode::Relative }),
        0x71 => Some(Opcode { code: 0x71, mnemonic: Mnemonic::Adc, bytes: 2, cycles: 5, mode: AddressingMode::Indirect_Y }),
        0x73 => Some(Opcode { code: 0x73, mnemonic: Mnemonic::Rra, bytes: 2, cycles: 8, mode: AddressingMode::Indirect_Y }),
        0x74 => Some(Opcode { code: 0x74, mnemonic: Mnemonic::Dop, bytes: 2, cycles: 4, mode: AddressingMode::ZeroPage_X }),
        0x75 => Some(Opcode { code: 0x75, mnemonic: Mnemonic::Adc, bytes: 2, cycles: 4, mode: AddressingMode::ZeroPage_X }),
        0x76 => Some(Opcode { code: 0x76, mnemonic: Mnemonic::Ror, bytes: 2, cycles: 6, mode: AddressingMode::ZeroPage_X }),
        0x77 => Some(Opcode { code: 0x77, mnemonic: Mnemonic::Rra, bytes: 2, cycles: 6, mode: AddressingMode::ZeroPage_X }),
        0x78 => Some(Opcode { code: 0x78, mnemonic: Mnemonic::Sei, bytes: 1, cycles: 2, mode: AddressingMode::Implied }),
        0x79 => Some(Opcode { code: 0x79, mnemonic: Mnemonic::Adc, bytes: 3, cycles: 4, mode: AddressingMode::Absolute_Y }),
        0x7A => Some(Opcode { code: 0x7A, mnemonic: Mnemonic::NopU, bytes: 1, cycles: 2, mode: AddressingMode::Implied }),
        0x7B => Some(Opcode { code: 0x7B, mnemonic: Mnemonic::Rra, bytes: 3, cycles: 7, mode: AddressingMode::Absolute_Y }),
        0x7C => Some(Opcode { code: 0x7C, mnemonic: Mnemonic::Top, bytes: 3, cycles: 4, mode: AddressingMode::Absolute_X }),
        0x7D => Some(Opcode { code: 0x7D, mnemonic: Mnemonic::Adc, bytes: 3, cycles: 4, mode: AddressingMode::Absolute_X }),
        0x7E => Some(Opcode { code: 0x7E, mnemonic: Mnemonic::Ror, bytes: 3, cycles: 7, mode: AddressingMode::Absolute_X }),
        0x7F => Some(Opcode { code: 0x7F, mnemonic: Mnemonic::Rra, bytes: 3, cycles: 7, mode: AddressingMode::Absolute_X }),
        0x80 => Some(Opcode { code: 0x80, mnemonic: Mnemonic::Dop, bytes: 2, cycles: 2, mode: AddressingMode::Immediate }),
        0x81 => Some(Opcode { code: 0x81, mnemonic: Mnemonic::Sta, bytes: 2, cycles: 6, mode: AddressingMode::Indirect_X }),
        0x82 => Some(Opcode { code: 0x82, mnemonic: Mnemonic::Dop, bytes: 2, cycles: 2, mode: AddressingMode::Immediate }),
        0x83 => Some(Opcode { code: 0x83, mnemonic: Mnemonic::Aax, bytes: 2, cycles: 6, mode: AddressingMode::Indirect_X }),
        0x84 => Some(Opcode { code: 0x84, mnemonic: Mnemonic::Sty, bytes: 2, cycles: 3, mode: AddressingMode::ZeroPage }),
        0x85 => Some(Opcode { code: 0x85, mnemonic: Mnemonic::Sta, bytes: 2, cycles: 3, mode: AddressingMode::ZeroPage }),
        0x86 => Some(Opcode { code: 0x86, mnemonic: Mnemonic::Stx, bytes: 2, cycles: 3, mode: AddressingMode::ZeroPage }),
        0x87 => Some(Opcode { code: 0x87, mnemonic: Mnemonic::Aax, bytes: 2, cycles: 3, mode: AddressingMode::ZeroPage }),
        0x88 => Some(Opcode { code: 0x88, mnemonic: Mnemonic::Dey, bytes: 1, cycles: 2, mode: AddressingMode::Implied }),
        0x89 => Some(Opcode { code: 0x89, mnemonic: Mnemonic::Dop, bytes: 2, cycles: 2, mode: AddressingMode::Immediate }),
        0x8A => Some(Opcode { code: 0x8A, mnemonic: Mnemonic::Txa, bytes: 1, cycles: 2, mode: AddressingMode::Implied }),
        0x8C => Some(Opcode { code: 0x8C, mnemonic: Mnemonic::Sty, bytes: 3, cycles: 4, mode: AddressingMode::Absolute }),
        0x8D => Some(Opcode { code: 0x8D, mnemonic: Mnemonic::Sta, bytes: 3, cycles: 4, mode: AddressingMode::Absolute }),
        0x8E => Some(Opcode { code: 0x8E, mnemonic: Mnemonic::Stx, bytes: 3, cycles: 4, mode: AddressingMode::Absolute }),
        0x8F => Some(Opcode { code: 0x8F, mnemonic: Mnemonic::Aax, bytes: 3, cycles: 4, mode: AddressingMode::Absolute }),
        0x90 => Some(Opcode { code: 0x90, mnemonic: Mnemonic::Bcc, bytes: 2, cycles: 2, mode: AddressingMode::Relative }),
        0x91 => Some(Opcode { code: 0x91, mnemonic: Mnemonic::Sta, bytes: 2, cycles: 6, mode: AddressingMode::Indirect_Y }),
        0x93 => Some(Opcode { code: 0x93, mnemonic: Mnemonic::Axa, bytes: 2, cycles: 6, mode: AddressingMode::Indirect_Y }),
        0x94 => Some(Opcode { code: 0x94, mnemonic: Mnemonic::Sty, bytes: 2, cycles: 4, mode: AddressingMode::ZeroPage_X }),
        0x95 => Some(Opcode { code: 0x95, mnemonic: Mnemonic::Sta, bytes: 2, cycles: 4, mode: AddressingMode::ZeroPage_X }),
        0x96 => Some(Opcode { code: 0x96, mnemonic: Mnemonic::Stx, bytes: 2, cycles: 4, mode: AddressingMode::ZeroPage_Y }),
        0x97 => Some(Opcode { code: 0x97, mnemonic: Mnemonic::Aax, bytes: 2, cycles: 4, mode: AddressingMode::ZeroPage_Y }),
        0x98 => Some(Opcode { code: 0x98, mnemonic: Mnemonic::Tya, bytes: 1, cycles: 2, mode: AddressingMode::Implied }),
        0x99 => Some(Opcode { code: 0x99, mnemonic: Mnemonic::Sta, bytes: 3, cycles: 5, mode: AddressingMode::Absolute_Y }),
        0x9A => Some(Opcode { code: 0x9A, mnemonic: Mnemonic::Txs, bytes: 1, cycles: 2, mode: AddressingMode::Implied }),
        0x9B => Some(Opcode { code: 0x9B, mnemonic: Mnemonic::Xas, bytes: 3, cycles: 5, mode: AddressingMode::Absolute_Y }),
        0x9C => Some(Opcode { code: 0x9C, mnemonic: Mnemonic::Sya, bytes: 3, cycles: 5, mode: AddressingMode::Absolute_X }),
        0x9D => Some(Opcode { code: 0x9D, mnemonic: Mnemonic::Sta, bytes: 3, cycles: 5, mode: AddressingMode::Absolute_X }),
        0x9E => Some(Opcode { code: 0x9E, mnemonic: Mnemonic::Sxa, bytes: 3, cycles: 5, mode: AddressingMode::Absolute_Y }),
        0x9F => Some(Opcode { code: 0x9F, mnemonic: Mnemonic::Axa, bytes: 3, cycles: 5, mode: AddressingMode::Absolute_Y }),
        0xA0 => Some(Opcode { code: 0xA0, mnemonic: Mnemonic::Ldy, bytes: 2, cycles: 2, mode: AddressingMode::Immediate }),
        0xA1 => Some(Opcode { code: 0xA1, mnemonic: Mnemonic::Lda, bytes: 2, cycles: 6, mode: AddressingMode::Indirect_X }),
        0xA2 => Some(Opcode { code: 0xA2, mnemonic: Mnemonic::Ldx, bytes: 2, cycles: 2, mode: AddressingMode::Immediate }),
        0xA3 => Some(Opcode { code: 0xA3, mnemonic: Mnemonic::Lax, bytes: 2, cycles: 6, mode: AddressingMode::Indirect_X }),
        0xA4 => Some(Opcode { code: 0xA4, mnemonic: Mnemonic::Ldy, bytes: 2, cycles: 3, mode: AddressingMode::ZeroPage }),
        0xA5 => Some(Opcode { code: 0xA5, mnemonic: Mnemonic::Lda, bytes: 2, cycles: 3, mode: AddressingMode::ZeroPage }),
        0xA6 => Some(Opcode { code: 0xA6, mnemonic: Mnemonic::Ldx, bytes: 2, cycles: 3, mode: AddressingMode::ZeroPage }),
        0xA7 => Some(Opcode { code: 0xA7, mnemonic: Mnemonic::Lax, bytes: 2, cycles: 3, mode: AddressingMode::ZeroPage }),
        0xA8 => Some(Opcode { code: 0xA8, mnemonic: Mnemonic::Tay, bytes: 1, cycles: 2, mode: AddressingMode::Implied }),
        0xA9 => Some(Opcode { code: 0xA9, mnemonic: Mnemonic::Lda, bytes: 2, cycles: 2, mode: AddressingMode::Immediate }),
        0xAA => Some(Opcode { code: 0xAA, mnemonic: Mnemonic::Tax, bytes: 1, cycles: 2, mode: AddressingMode::Implied }),
        0xAB => Some(Opcode { code: 0xAB, mnemonic: Mnemonic::Atx, bytes: 2, cycles: 2, mode: AddressingMode::Immediate }),
        0xAC => Some(Opcode { code: 0xAC, mnemonic: Mnemonic::Ldy, bytes: 3, cycles: 4, mode: AddressingMode::Absolute }),
        0xAD => Some(Opcode { code: 0xAD, mnemonic: Mnemonic::Lda, bytes: 3, cycles: 4, mode: AddressingMode::Absolute }),
        0xAE => Some(Opcode { code: 0xAE, mnemonic: Mnemonic::Ldx, bytes: 3, cycles: 4, mode: AddressingMode::Absolute }),
        0xAF => Some(Opcode { code: 0xAF, mnemonic: Mnemonic::Lax, bytes: 3, cycles: 4, mode: AddressingMode::Absolute }),
        0xB0 => Some(Opcode { code: 0xB0, mnemonic: Mnemonic::Bcs, bytes: 2, cycles: 2, mode: AddressingMode::Relative }),
        0xB1 => Some(Opcode { code: 0xB1, mnemonic: Mnemonic::Lda, bytes: 2, cycles: 5, mode: AddressingMode::Indirect_Y }),
        0xB3 => Some(Opcode { code: 0xB3, mnemonic: Mnemonic::Lax, bytes: 2, cycles: 5, mode: AddressingMode::Indirect_Y }),
        0xB4 => Some(Opcode { code: 0xB4, mnemonic: Mnemonic::Ldy, bytes: 2, cycles: 4, mode: AddressingMode::ZeroPage_X }),
        0xB5 => Some(Opcode { code: 0xB5, mnemonic: Mnemonic::Lda, bytes: 2, cycles: 4, mode: AddressingMode::ZeroPage_X }),
        0xB6 => Some(Opcode { code: 0xB6, mnemonic: Mnemonic::Ldx, bytes: 2, cycles: 4, mode: AddressingMode::ZeroPage_Y }),
        0xB7 => Some(Opcode { code: 0xB7, mnemonic: Mnemonic::Lax, bytes: 2, cycles: 4, mode: AddressingMode::ZeroPage_Y }),
        0xB8 => Some(Opcode { code: 0xB8, mnemonic: Mnemonic::Clv, bytes: 1, cycles: 2, mode: AddressingMode::Implied }),
        0xB9 => Some(Opcode { code: 0xB9, mnemonic: Mnemonic::Lda, bytes: 3, cycles: 4, mode: AddressingMode::Absolute_Y }),
        0xBA => Some(Opcode { code: 0xBA, mnemonic: Mnemonic::Tsx, bytes: 1, cycles: 2, mode: AddressingMode::Implied }),
        0xBB => Some(Opcode { code: 0xBB, mnemonic: Mnemonic::Lar, bytes: 3, cycles: 4, mode: AddressingMode::Absolute_Y }),
        0xBC => Some(Opcode { code: 0xBC, mnemonic: Mnemonic::Ldy, bytes: 3, cycles: 4, mode: AddressingMode::Absolute_X }),
        0xBD => Some(Opcode { code: 0xBD, mnemonic: Mnemonic::Lda, bytes: 3, cycles: 4, mode: AddressingMode::Absolute_X }),
        0xBE => Some(Opcode { code: 0xBE, mnemonic: Mnemonic::Ldx, bytes: 3, cycles: 4, mode: AddressingMode::Absolute_Y }),
        0xBF => Some(Opcode { code: 0xBF, mnemonic: Mnemonic::Lax, bytes: 3, cycles: 4, mode: AddressingMode::Absolute_Y }),
        0xC0 => Some(Opcode { code: 0xC0, mnemonic: Mnemonic::Cpy, bytes: 2, cycles: 2, mode: AddressingMode::Immediate }),
        0xC1 => Some(Opcode { code: 0xC1, mnemonic: Mnemonic::Cmp, bytes: 2, cycles: 6, mode: AddressingMode::Indirect_X }),
        0xC2 => Some(Opcode { code: 0xC2, mnemonic: Mnemonic::Dop, bytes: 2, cycles: 2, mode: AddressingMode::Immediate }),
        0xC3 => Some(Opcode { code: 0xC3, mnemonic: Mnemonic::Dcp, bytes: 2, cycles: 8, mode: AddressingMode::Indirect_X }),
        0xC4 => Some(Opcode { code: 0xC4, mnemonic: Mnemonic::Cpy, bytes: 2, cycles: 3, mode: AddressingMode::ZeroPage }),
        0xC5 => Some(Opcode { code: 0xC5, mnemonic: Mnemonic::Cmp, bytes: 2, cycles: 3, mode: AddressingMode::ZeroPage }),
        0xC6 => Some(Opcode { code: 0xC6, mnemonic: Mnemonic::Dec, bytes: 2, cycles: 5, mode: AddressingMode::ZeroPage }),
        0xC7 => Some(Opcode { code: 0xC7, mnemonic: Mnemonic::Dcp, bytes: 2, cycles: 5, mode: AddressingMode::ZeroPage }),
        0xC8 => Some(Opcode { code: 0xC8, mnemonic: Mnemonic::Iny, bytes: 1, cycles: 2, mode: AddressingMode::Implied }),
        0xC9 => Some(Opcode { code: 0xC9, mnemonic: Mnemonic::Cmp, bytes: 2, cycles: 2, mode: AddressingMode::Immediate }),
        0xCA => Some(Opcode { code: 0xCA, mnemonic: Mnemonic::Dex, bytes: 1, cycles: 2, mode: AddressingMode::Implied }),
        0xCB => Some(Opcode { code: 0xCB, mnemonic: Mnemonic::Axs, bytes: 2, cycles: 2, mode: AddressingMode::Immediate }),
        0xCC => Some(Opcode { code: 0xCC, mnemonic: Mnemonic::Cpy, bytes: 3, cycles: 4, mode: AddressingMode::Absolute }),
        0xCD => Some(Opcode { code: 0xCD, mnemonic: Mnemonic::Cmp, bytes: 3, cycles: 4, mode: AddressingMode::Absolute }),
        0xCE => Some(Opcode { code: 0xCE, mnemonic: Mnemonic::Dec, bytes: 3, cycles: 6, mode: AddressingMode::Absolute }),
        0xCF => Some(Opcode { code: 0xCF, mnemonic: Mnemonic::Dcp, bytes: 3, cycles: 6, mode: AddressingMode::Absolute }),
        0xD0 => Some(Opcode { code: 0xD0, mnemonic: Mnemonic::Bne, bytes: 2, cycles: 2, mode: AddressingMode::Relative }),
        0xD1 => Some(Opcode { code: 0xD1, mnemonic: Mnemonic::Cmp, bytes: 2, cycles: 5, mode: AddressingMode::Indirect_Y }),
        0xD3 => Some(Opcode { code: 0xD3, mnemonic: Mnemonic::Dcp, bytes: 2, cycles: 8, mode: AddressingMode::Indirect_Y }),
        0xD4 => Some(Opcode { code: 0xD4, mnemonic: Mnemonic::Dop, bytes: 2, cycles: 4, mode: AddressingMode::ZeroPage_X }),
        0xD5 => Some(Opcode { code: 0xD5, mnemonic: Mnemonic::Cmp, bytes: 2, cycles: 4, mode: AddressingMode::ZeroPage_X }),
        0xD6 => Some(Opcode { code: 0xD6, mnemonic: Mnemonic::Dec, bytes: 2, cycles: 6, mode: AddressingMode::ZeroPage_X }),
        0xD7 => Some(Opcode { code: 0xD7, mnemonic: Mnemonic::Dcp, bytes: 2, cycles: 6, mode: AddressingMode::ZeroPage_X }),
        0xD8 => Some(Opcode { code: 0xD8, mnemonic: Mnemonic::Cld, bytes: 1, cycles: 2, mode: AddressingMode::Implied }),
        0xD9 => Some(Opcode { code: 0xD9, mnemonic: Mnemonic::Cmp, bytes: 3, cycles: 4, mode: AddressingMode::Absolute_Y }),
        0xDA => Some(Opcode { code: 0xDA, mnemonic: Mnemonic::NopU, bytes: 1, cycles: 2, mode: AddressingMode::Implied }),
        0xDB => Some(Opcode { code: 0xDB, mnemonic: Mnemonic::Dcp, bytes: 3, cycles: 7, mode: AddressingMode::Absolute_Y }),
        0xDC => Some(Opcode { code: 0xDC, mnemonic: Mnemonic::Top, bytes: 3, cycles: 4, mode: AddressingMode::Absolute_X }),
        0xDD => Some(Opcode { code: 0xDD, mnemonic: Mnemonic::Cmp, bytes: 3, cycles: 4, mode: AddressingMode::Absolute_X }),
        0xDE => Some(Opcode { code: 0xDE, mnemonic: Mnemonic::Dec, bytes: 3, cycles: 7, mode: AddressingMode::Absolute_X }),
        0xDF => Some(Opcode { code: 0xDF, mnemonic: Mnemonic::Dcp, bytes: 3, cycles: 7, mode: AddressingMode::Absolute_X }),
        0xE0 => Some(Opcode { code: 0xE0, mnemonic: Mnemonic::Cpx, bytes: 2, cycles: 2, mode: AddressingMode::Immediate }),
        0xE1 => Some(Opcode { code: 0xE1, mnemonic: Mnemonic::Sbc, bytes: 2, cycles: 6, mode: AddressingMode::Indirect_X }),
        0xE2 => Some(Opcode { code: 0xE2, mnemonic: Mnemonic::Dop, bytes: 2, cycles: 2, mode: AddressingMode::Immediate }),
        0xE3 => Some(Opcode { code: 0xE3, mnemonic: Mnemonic::Isb, bytes: 2, cycles: 8, mode: AddressingMode::Indirect_X }),
        0xE4 => Some(Opcode { code: 0xE4, mnemonic: Mnemonic::Cpx, bytes: 2, cycles: 3, mode: AddressingMode::ZeroPage }),
        0xE5 => Some(Opcode { code: 0xE5, mnemonic: Mnemonic::Sbc, bytes: 2, cycles: 3, mode: AddressingMode::ZeroPage }),
        0xE6 => Some(Opcode { code: 0xE6, mnemonic: Mnemonic::Inc, bytes: 2, cycles: 5, mode: AddressingMode::ZeroPage }),
        0xE7 => Some(Opcode { code: 0xE7, mnemonic: Mnemonic::Isb, bytes: 2, cycles: 5, mode: AddressingMode::ZeroPage }),
        0xE8 => Some(Opcode { code: 0xE8, mnemonic: Mnemonic::Inx, bytes: 1, cycles: 2, mode: AddressingMode::Implied }),
        0xE9 => Some(Opcode { code: 0xE9, mnemonic: Mnemonic::Sbc, bytes: 2, cycles: 2, mode: AddressingMode::Immediate }),
        0xEA => Some(Opcode { code: 0xEA, mnemonic: Mnemonic::Nop, bytes: 1, cycles: 2, mode: AddressingMode::Implied }),
        0xEB => Some(Opcode { code: 0xEB, mnemonic: Mnemonic::SbcU, bytes: 2, cycles: 2, mode: AddressingMode::Immediate }),
        0xEC => Some(Opcode { code: 0xEC, mnemonic: Mnemonic::Cpx, bytes: 3, cycles: 4, mode: AddressingMode::Absolute }),
        0xED => Some(Opcode { code: 0xED, mnemonic: Mnemonic::Sbc, bytes: 3, cycles: 4, mode: AddressingMode::Absolute }),
        0xEE => Some(Opcode { code: 0xEE, mnemonic: Mnemonic::Inc, bytes: 3, cycles: 6, mode: AddressingMode::Absolute }),
        0xEF => Some(Opcode { code: 0xEF, mnemonic: Mnemonic::Isb, bytes: 3, cycles: 6, mode: AddressingMode::Absolute }),
        0xF0 => Some(Opcode { code: 0xF0, mnemonic: Mnemonic::Beq, bytes: 2, cycles: 2, mode: AddressingMode::Relative }),
        0xF1 => Some(Opcode { code: 0xF1, mnemonic: Mnemonic::Sbc, bytes: 2, cycles: 5, mode: AddressingMode::Indirect_Y }),
        0xF3 => Some(Opcode { code: 0xF3, mnemonic: Mnemonic::Isb, bytes: 2, cycles: 8, mode: AddressingMode::Indirect_Y }),
        0xF4 => Some(Opcode { code: 0xF4, mnemonic: Mnemonic::Dop, bytes: 2, cycles: 4, mode: AddressingMode::ZeroPage_X }),
        0xF5 => Some(Opcode { code: 0xF5, mnemonic: Mnemonic::Sbc, bytes: 2, cycles: 4, mode: AddressingMode::ZeroPage_X }),
        0xF6 => Some(Opcode { code: 0xF6, mnemonic: Mnemonic::Inc, bytes: 2, cycles: 6, mode: AddressingMode::ZeroPage_X }),
        0xF7 => Some(Opcode { code: 0xF7, mnemonic: Mnemonic::Isb, bytes: 2, cycles: 6, mode: AddressingMode::ZeroPage_X }),
        0xF8 => Some(Opcode { code: 0xF8, mnemonic: Mnemonic::Sed, bytes: 1, cycles: 2, mode: AddressingMode::Implied }),
        0xF9 => Some(Opcode { code: 0xF9, mnemonic: Mnemonic::Sbc, bytes: 3, cycles: 4, mode: AddressingMode::Absolute_Y }),
        0xFA => Some(Opcode { code: 0xFA, mnemonic: Mnemonic::NopU, bytes: 1, cycles: 2, mode: AddressingMode::Implied }),
        0xFB => Some(Opcode { code: 0xFB, mnemonic: Mnemonic::Isb, bytes: 3, cycles: 7, mode: AddressingMode::Absolute_Y }),
        0xFC => Some(Opcode { code: 0xFC, mnemonic: Mnemonic::Top, bytes: 3, cycles: 4, mode: AddressingMode::Absolute_X }),
        0xFD => Some(Opcode { code: 0xFD, mnemonic: Mnemonic::Sbc, bytes: 3, cycles: 4, mode: AddressingMode::Absolute_X }),
        0xFE => Some(Opcode { code: 0xFE, mnemonic: Mnemonic::Inc, bytes: 3, cycles: 7, mode: AddressingMode::Absolute_X }),
        0xFF => Some(Opcode { code: 0xFF, mnemonic: Mnemonic::Isb, bytes: 3, cycles: 7, mode: AddressingMode::Absolute_X }),
        _ => None,
    }
}

/// Every row of the table has a byte length of 1 to 3 and repeats its
/// own opcode byte.
pub proof fn lemma_opcode_bytes(code: u8)
    ensures
        match opcode_spec(code) {
            Some(op) => op.code == code && 1 <= op.bytes <= 3,
            None => true,
        },
{
    reveal(opcode_spec);
}

} // verus!
