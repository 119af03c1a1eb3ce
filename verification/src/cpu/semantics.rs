//! The mathematical semantics of the CPU: one spec function per
//! instruction, composed into `spec_step`, the meaning of one iteration
//! of the fetch/decode/execute loop.

use vstd::prelude::*;

use crate::bus::{
    spec_bus_read, spec_bus_read16, spec_bus_wf, spec_bus_write, spec_wrap16, BusView,
};
use crate::cpu::constants::{
    BREAK, BREAK_2, CARRY_FLAG, DECIMAL_MODE, INTERRUPT_DISABLE, NEGATIVE_FLAG, OVERFLOW_FLAG,
    ZERO_FLAG,
};
use crate::cpu::opcodes::{opcode_spec, Mnemonic, Opcode};
use crate::cpu::AddressingMode;
use crate::errors::EmuError;

verus! {

/// Model of the whole machine: the six programmer-visible registers and
/// the bus (RAM, PRG-ROM, PPU register file).
pub ghost struct CpuView {
    pub a: u8,
    pub x: u8,
    pub y: u8,
    pub sp: u8,
    pub p: u8,
    pub pc: u16,
    pub bus: BusView,
}

pub open spec fn spec_cpu_wf(c: CpuView) -> bool {
    spec_bus_wf(c.bus)
}

/// What one instruction step means: the machine runs on, halts (BRK), or
/// aborts with a fatal error.
pub ghost enum SpecStep {
    Run(CpuView),
    Halt(CpuView),
    Fail(EmuError),
}

/// An 8-bit value wrapped into range.
pub open spec fn spec_wrap8(v: int) -> u8 {
    (v % 256) as u8
}

/// The carry flag as the 0-or-1 summand it contributes.
pub open spec fn spec_carry(p: u8) -> int {
    if p & CARRY_FLAG != 0 {
        1
    } else {
        0
    }
}

/// The ZN update rule: Z set exactly when the result byte is zero, N set
/// exactly when its bit 7 is.
pub open spec fn spec_zn(p: u8, v: u8) -> u8 {
    let p1 = if v == 0 {
        p | ZERO_FLAG
    } else {
        p & !ZERO_FLAG
    };
    if v & NEGATIVE_FLAG != 0 {
        p1 | NEGATIVE_FLAG
    } else {
        p1 & !NEGATIVE_FLAG
    }
}

/// ADC's result byte: a + m + C, truncated.
pub open spec fn spec_adc_result(p: u8, a: u8, m: u8) -> u8 {
    spec_wrap8(a + m + spec_carry(p))
}

/// ADC's flag update: V is set exactly when the operands share a sign
/// that the result does not; C is set exactly when the true sum exceeds
/// 0xFF; Z and N follow the result byte.
pub open spec fn spec_adc_flags(p: u8, a: u8, m: u8) -> u8 {
    let r = spec_adc_result(p, a, m);
    let p1 = if (a >= 0x80) == (m >= 0x80) && ((r >= 0x80) != (a >= 0x80)) {
        p | OVERFLOW_FLAG
    } else {
        p & !OVERFLOW_FLAG
    };
    let p2 = if a + m + spec_carry(p) > 0xFF {
        p1 | CARRY_FLAG
    } else {
        p1 & !CARRY_FLAG
    };
    spec_zn(p2, r)
}

/// SBC feeds ADC the one's complement of the operand.
pub open spec fn spec_sbc_operand(m: u8) -> u8 {
    (255 - m) as u8
}

/// ASL: result and flags. C takes the bit shifted out at the top.
pub open spec fn spec_asl_vals(p: u8, data: u8) -> (u8, u8) {
    let res = spec_wrap8(data * 2);
    let p1 = if data >= 0x80 {
        p | CARRY_FLAG
    } else {
        p & !CARRY_FLAG
    };
    (res, spec_zn(p1, res))
}

/// LSR: result and flags. C takes the bit shifted out at the bottom.
pub open spec fn spec_lsr_vals(p: u8, data: u8) -> (u8, u8) {
    let res = data / 2;
    let p1 = if data % 2 == 1 {
        p | CARRY_FLAG
    } else {
        p & !CARRY_FLAG
    };
    (res, spec_zn(p1, res))
}

/// ROL: the old carry enters at bit 0, bit 7 leaves into C.
pub open spec fn spec_rol_vals(p: u8, data: u8) -> (u8, u8) {
    let res = spec_wrap8(data * 2 + spec_carry(p));
    let p1 = if data >= 0x80 {
        p | CARRY_FLAG
    } else {
        p & !CARRY_FLAG
    };
    (res, spec_zn(p1, res))
}

/// ROR: the old carry enters at bit 7, bit 0 leaves into C.
pub open spec fn spec_ror_vals(p: u8, data: u8) -> (u8, u8) {
    let res = (data / 2 + spec_carry(p) * 128) as u8;
    let p1 = if data % 2 == 1 {
        p | CARRY_FLAG
    } else {
        p & !CARRY_FLAG
    };
    (res, spec_zn(p1, res))
}

/// The effective address of an instruction's operand, starting at the
/// program counter (which points just past the opcode byte). Resolution
/// itself reads through the bus, so the bus may change and the whole
/// resolution may fault. The modes without a memory operand resolve to
/// the program counter itself.
pub open spec fn spec_operand_addr(c: CpuView, mode: AddressingMode) -> Result<
    (BusView, u16),
    EmuError,
> {
    match mode {
        AddressingMode::Immediate => Ok((c.bus, c.pc)),
        AddressingMode::ZeroPage => match spec_bus_read(c.bus, c.pc) {
            Err(e) => Err(e),
            Ok((b1, v)) => Ok((b1, v as u16)),
        },
        AddressingMode::ZeroPage_X => match spec_bus_read(c.bus, c.pc) {
            Err(e) => Err(e),
            Ok((b1, v)) => Ok((b1, spec_wrap8(v + c.x) as u16)),
        },
        AddressingMode::ZeroPage_Y => match spec_bus_read(c.bus, c.pc) {
            Err(e) => Err(e),
            Ok((b1, v)) => Ok((b1, spec_wrap8(v + c.y) as u16)),
        },
        AddressingMode::Absolute => spec_bus_read16(c.bus, c.pc),
        AddressingMode::Absolute_X => match spec_bus_read16(c.bus, c.pc) {
            Err(e) => Err(e),
            Ok((b1, base)) => Ok((b1, spec_wrap16(base + c.x))),
        },
        AddressingMode::Absolute_Y => match spec_bus_read16(c.bus, c.pc) {
            Err(e) => Err(e),
            Ok((b1, base)) => Ok((b1, spec_wrap16(base + c.y))),
        },
        AddressingMode::Indirect => match spec_bus_read16(c.bus, c.pc) {
            Err(e) => Err(e),
            Ok((b1, ptr)) => {
                // The 6502's page-boundary quirk: when the pointer's low
                // byte is 0xFF, the high byte is fetched from the start
                // of the same page.
                let hi_addr = if ptr % 256 == 0xFF {
                    (ptr - 0xFF) as u16
                } else {
                    (ptr + 1) as u16
                };
                match spec_bus_read(b1, ptr) {
                    Err(e) => Err(e),
                    Ok((b2, lo)) => match spec_bus_read(b2, hi_addr) {
                        Err(e) => Err(e),
                        Ok((b3, hi)) => Ok((b3, (hi * 256 + lo) as u16)),
                    },
                }
            },
        },
        AddressingMode::Indirect_X => match spec_bus_read(c.bus, c.pc) {
            Err(e) => Err(e),
            Ok((b1, base)) => {
                let ptr = spec_wrap8(base + c.x);
                match spec_bus_read(b1, ptr as u16) {
                    Err(e) => Err(e),
                    Ok((b2, lo)) => match spec_bus_read(b2, spec_wrap8(ptr + 1) as u16) {
                        Err(e) => Err(e),
                        Ok((b3, hi)) => Ok((b3, (hi * 256 + lo) as u16)),
                    },
                }
            },
        },
        AddressingMode::Indirect_Y => match spec_bus_read(c.bus, c.pc) {
            Err(e) => Err(e),
            Ok((b1, base)) => match spec_bus_read(b1, base as u16) {
                Err(e) => Err(e),
                Ok((b2, lo)) => match spec_bus_read(b2, spec_wrap8(base + 1) as u16) {
                    Err(e) => Err(e),
                    Ok((b3, hi)) => Ok((b3, spec_wrap16(hi * 256 + lo + c.y))),
                },
            },
        },
        AddressingMode::Relative => Ok((c.bus, c.pc)),
        AddressingMode::Accumulator => Ok((c.bus, c.pc)),
        AddressingMode::Implied => Ok((c.bus, c.pc)),
        AddressingMode::NoneAddressing => Ok((c.bus, c.pc)),
    }
}

/// Resolve the operand address, then read the operand byte there.
pub open spec fn spec_operand_value(c: CpuView, mode: AddressingMode) -> Result<
    (BusView, u16, u8),
    EmuError,
> {
    match spec_operand_addr(c, mode) {
        Err(e) => Err(e),
        Ok((b1, addr)) => match spec_bus_read(b1, addr) {
            Err(e) => Err(e),
            Ok((b2, v)) => Ok((b2, addr, v)),
        },
    }
}

// Stack discipline: the stack lives on page 0x01. A push writes at
// 0x0100 + SP and decrements SP; a pop increments SP and reads at
// 0x0100 + SP. Crossing the 0x00/0xFF boundary is a fatal error.

pub open spec fn spec_push(c: CpuView, v: u8) -> Result<CpuView, EmuError> {
    if c.sp == 0 {
        Err(EmuError::StackOverflow)
    } else {
        match spec_bus_write(c.bus, (0x100 + c.sp) as u16, v) {
            Err(e) => Err(e),
            Ok(b1) => Ok(CpuView { sp: (c.sp - 1) as u8, bus: b1, ..c }),
        }
    }
}

pub open spec fn spec_pop(c: CpuView) -> Result<(CpuView, u8), EmuError> {
    if c.sp == 0xFF {
        Err(EmuError::StackUnderflow)
    } else {
        match spec_bus_read(c.bus, (0x100 + c.sp + 1) as u16) {
            Err(e) => Err(e),
            Ok((b1, v)) => Ok((CpuView { sp: (c.sp + 1) as u8, bus: b1, ..c }, v)),
        }
    }
}

/// Push a 16-bit value: high byte first, so the low byte sits at the
/// lower stack address.
pub open spec fn spec_push16(c: CpuView, v: u16) -> Result<CpuView, EmuError> {
    match spec_push(c, (v / 256) as u8) {
        Err(e) => Err(e),
        Ok(c1) => spec_push(c1, (v % 256) as u8),
    }
}

/// Pop a 16-bit value: low byte first.
pub open spec fn spec_pop16(c: CpuView) -> Result<(CpuView, u16), EmuError> {
    match spec_pop(c) {
        Err(e) => Err(e),
        Ok((c1, lo)) => match spec_pop(c1) {
            Err(e) => Err(e),
            Ok((c2, hi)) => Ok((c2, (hi * 256 + lo) as u16)),
        },
    }
}

// Loads, stores, transfers, logic.

pub open spec fn spec_lda(c: CpuView, mode: AddressingMode) -> Result<CpuView, EmuError> {
    match spec_operand_value(c, mode) {
        Err(e) => Err(e),
        Ok((b2, addr, v)) => Ok(CpuView { a: v, p: spec_zn(c.p, v), bus: b2, ..c }),
    }
}

pub open spec fn spec_ldx(c: CpuView, mode: AddressingMode) -> Result<CpuView, EmuError> {
    match spec_operand_value(c, mode) {
        Err(e) => Err(e),
        Ok((b2, addr, v)) => Ok(CpuView { x: v, p: spec_zn(c.p, v), bus: b2, ..c }),
    }
}

pub open spec fn spec_ldy(c: CpuView, mode: AddressingMode) -> Result<CpuView, EmuError> {
    match spec_operand_value(c, mode) {
        Err(e) => Err(e),
        Ok((b2, addr, v)) => Ok(CpuView { y: v, p: spec_zn(c.p, v), bus: b2, ..c }),
    }
}

pub open spec fn spec_sta(c: CpuView, mode: AddressingMode) -> Result<CpuView, EmuError> {
    match spec_operand_addr(c, mode) {
        Err(e) => Err(e),
        Ok((b1, addr)) => match spec_bus_write(b1, addr, c.a) {
            Err(e) => Err(e),
            Ok(b2) => Ok(CpuView { bus: b2, ..c }),
        },
    }
}

pub open spec fn spec_stx(c: CpuView, mode: AddressingMode) -> Result<CpuView, EmuError> {
    match spec_operand_addr(c, mode) {
        Err(e) => Err(e),
        Ok((b1, addr)) => match spec_bus_write(b1, addr, c.x) {
            Err(e) => Err(e),
            Ok(b2) => Ok(CpuView { bus: b2, ..c }),
        },
    }
}

pub open spec fn spec_sty(c: CpuView, mode: AddressingMode) -> Result<CpuView, EmuError> {
    match spec_operand_addr(c, mode) {
        Err(e) => Err(e),
        Ok((b1, addr)) => match spec_bus_write(b1, addr, c.y) {
            Err(e) => Err(e),
            Ok(b2) => Ok(CpuView { bus: b2, ..c }),
        },
    }
}

pub open spec fn spec_and(c: CpuView, mode: AddressingMode) -> Result<CpuView, EmuError> {
    match spec_operand_value(c, mode) {
        Err(e) => Err(e),
        Ok((b2, addr, v)) => {
            let a2 = c.a & v;
            Ok(CpuView { a: a2, p: spec_zn(c.p, a2), bus: b2, ..c })
        },
    }
}

pub open spec fn spec_ora(c: CpuView, mode: AddressingMode) -> Result<CpuView, EmuError> {
    match spec_operand_value(c, mode) {
        Err(e) => Err(e),
        Ok((b2, addr, v)) => {
            let a2 = c.a | v;
            Ok(CpuView { a: a2, p: spec_zn(c.p, a2), bus: b2, ..c })
        },
    }
}

pub open spec fn spec_eor(c: CpuView, mode: AddressingMode) -> Result<CpuView, EmuError> {
    match spec_operand_value(c, mode) {
        Err(e) => Err(e),
        Ok((b2, addr, v)) => {
            let a2 = c.a ^ v;
            Ok(CpuView { a: a2, p: spec_zn(c.p, a2), bus: b2, ..c })
        },
    }
}

// Arithmetic and compares.

pub open spec fn spec_adc(c: CpuView, mode: AddressingMode) -> Result<CpuView, EmuError> {
    match spec_operand_value(c, mode) {
        Err(e) => Err(e),
        Ok((b2, addr, m)) => Ok(CpuView {
            a: spec_adc_result(c.p, c.a, m),
            p: spec_adc_flags(c.p, c.a, m),
            bus: b2,
            ..c
        }),
    }
}

pub open spec fn spec_sbc(c: CpuView, mode: AddressingMode) -> Result<CpuView, EmuError> {
    match spec_operand_value(c, mode) {
        Err(e) => Err(e),
        Ok((b2, addr, m)) => {
            let inv = spec_sbc_operand(m);
            Ok(CpuView {
                a: spec_adc_result(c.p, c.a, inv),
                p: spec_adc_flags(c.p, c.a, inv),
                bus: b2,
                ..c
            })
        },
    }
}

/// CMP/CPX/CPY against `value`: C is set exactly when the register is at
/// least the operand; Z and N follow the wrapped difference.
pub open spec fn spec_compare(c: CpuView, mode: AddressingMode, value: u8) -> Result<
    CpuView,
    EmuError,
> {
    match spec_operand_value(c, mode) {
        Err(e) => Err(e),
        Ok((b2, addr, m)) => {
            let p1 = if value >= m {
                c.p | CARRY_FLAG
            } else {
                c.p & !CARRY_FLAG
            };
            Ok(CpuView { p: spec_zn(p1, spec_wrap8(value - m)), bus: b2, ..c })
        },
    }
}

/// BIT: Z from A AND the operand; V and N copied from operand bits 6
/// and 7.
pub open spec fn spec_bit(c: CpuView, mode: AddressingMode) -> Result<CpuView, EmuError> {
    match spec_operand_value(c, mode) {
        Err(e) => Err(e),
        Ok((b2, addr, m)) => {
            let p1 = spec_zn(c.p, c.a & m);
            let p2 = if m & OVERFLOW_FLAG == 0 {
                p1 & !OVERFLOW_FLAG
            } else {
                p1 | OVERFLOW_FLAG
            };
            let p3 = if m & NEGATIVE_FLAG == 0 {
                p2 & !NEGATIVE_FLAG
            } else {
                p2 | NEGATIVE_FLAG
            };
            Ok(CpuView { p: p3, bus: b2, ..c })
        },
    }
}

// Shifts and rotates, on the accumulator or read-modify-write on memory.

pub open spec fn spec_asl(c: CpuView, mode: AddressingMode) -> Result<CpuView, EmuError> {
    if mode == AddressingMode::Accumulator {
        let (res, p2) = spec_asl_vals(c.p, c.a);
        Ok(CpuView { a: res, p: p2, ..c })
    } else {
        match spec_operand_value(c, mode) {
            Err(e) => Err(e),
            Ok((b2, addr, data)) => {
                let (res, p2) = spec_asl_vals(c.p, data);
                match spec_bus_write(b2, addr, res) {
                    Err(e) => Err(e),
                    Ok(b3) => Ok(CpuView { p: p2, bus: b3, ..c }),
                }
            },
        }
    }
}

pub open spec fn spec_lsr(c: CpuView, mode: AddressingMode) -> Result<CpuView, EmuError> {
    if mode == AddressingMode::Accumulator {
        let (res, p2) = spec_lsr_vals(c.p, c.a);
        Ok(CpuView { a: res, p: p2, ..c })
    } else {
        match spec_operand_value(c, mode) {
            Err(e) => Err(e),
            Ok((b2, addr, data)) => {
                let (res, p2) = spec_lsr_vals(c.p, data);
                match spec_bus_write(b2, addr, res) {
                    Err(e) => Err(e),
                    Ok(b3) => Ok(CpuView { p: p2, bus: b3, ..c }),
                }
            },
        }
    }
}

pub open spec fn spec_rol(c: CpuView, mode: AddressingMode) -> Result<CpuView, EmuError> {
    if mode == AddressingMode::Accumulator {
        let (res, p2) = spec_rol_vals(c.p, c.a);
        Ok(CpuView { a: res, p: p2, ..c })
    } else {
        match spec_operand_value(c, mode) {
            Err(e) => Err(e),
            Ok((b2, addr, data)) => {
                let (res, p2) = spec_rol_vals(c.p, data);
                match spec_bus_write(b2, addr, res) {
                    Err(e) => Err(e),
                    Ok(b3) => Ok(CpuView { p: p2, bus: b3, ..c }),
                }
            },
        }
    }
}

pub open spec fn spec_ror(c: CpuView, mode: AddressingMode) -> Result<CpuView, EmuError> {
    if mode == AddressingMode::Accumulator {
        let (res, p2) = spec_ror_vals(c.p, c.a);
        Ok(CpuView { a: res, p: p2, ..c })
    } else {
        match spec_operand_value(c, mode) {
            Err(e) => Err(e),
            Ok((b2, addr, data)) => {
                let (res, p2) = spec_ror_vals(c.p, data);
                match spec_bus_write(b2, addr, res) {
                    Err(e) => Err(e),
                    Ok(b3) => Ok(CpuView { p: p2, bus: b3, ..c }),
                }
            },
        }
    }
}

// Increments and decrements.

pub open spec fn spec_inc(c: CpuView, mode: AddressingMode) -> Result<CpuView, EmuError> {
    match spec_operand_value(c, mode) {
        Err(e) => Err(e),
        Ok((b2, addr, data)) => {
            let res = spec_wrap8(data + 1);
            match spec_bus_write(b2, addr, res) {
                Err(e) => Err(e),
                Ok(b3) => Ok(CpuView { p: spec_zn(c.p, res), bus: b3, ..c }),
            }
        },
    }
}

pub open spec fn spec_dec(c: CpuView, mode: AddressingMode) -> Result<CpuView, EmuError> {
    match spec_operand_value(c, mode) {
        Err(e) => Err(e),
        Ok((b2, addr, data)) => {
            let res = spec_wrap8(data - 1);
            match spec_bus_write(b2, addr, res) {
                Err(e) => Err(e),
                Ok(b3) => Ok(CpuView { p: spec_zn(c.p, res), bus: b3, ..c }),
            }
        },
    }
}

// Control flow.

/// A taken branch lands at the end of the 2-byte instruction plus the
/// sign-extended offset; 0xFF00 + offset is the 16-bit sign extension of
/// a negative offset byte.
pub open spec fn spec_branch_target(pc: u16, off: u8) -> u16 {
    spec_wrap16(
        pc + 1 + (if off >= 0x80 {
            0xFF00 + off
        } else {
            off as int
        }),
    )
}

/// A branch reads its offset only when taken; an untaken branch changes
/// nothing (the step loop then advances the program counter).
pub open spec fn spec_branch(c: CpuView, cond: bool) -> Result<CpuView, EmuError> {
    if !cond {
        Ok(c)
    } else {
        match spec_bus_read(c.bus, c.pc) {
            Err(e) => Err(e),
            Ok((b1, off)) => Ok(CpuView { pc: spec_branch_target(c.pc, off), bus: b1, ..c }),
        }
    }
}

pub open spec fn spec_jmp(c: CpuView, mode: AddressingMode) -> Result<CpuView, EmuError> {
    match spec_operand_addr(c, mode) {
        Err(e) => Err(e),
        Ok((b1, addr)) => Ok(CpuView { pc: addr, bus: b1, ..c }),
    }
}

/// JSR pushes the address of its own last byte (PC + 2 − 1, with PC just
/// past the opcode), then jumps.
pub open spec fn spec_jsr(c: CpuView, mode: AddressingMode) -> Result<CpuView, EmuError> {
    match spec_push16(c, spec_wrap16(c.pc + 1)) {
        Err(e) => Err(e),
        Ok(c1) => match spec_operand_addr(c1, mode) {
            Err(e) => Err(e),
            Ok((b2, addr)) => Ok(CpuView { pc: addr, bus: b2, ..c1 }),
        },
    }
}

/// RTS pops the pushed address and resumes one byte past it.
pub open spec fn spec_rts(c: CpuView) -> Result<CpuView, EmuError> {
    match spec_pop16(c) {
        Err(e) => Err(e),
        Ok((c1, v)) => Ok(CpuView { pc: spec_wrap16(v + 1), ..c1 }),
    }
}

/// RTI pops the flags (forcing B to 0 and U to 1 in the live register),
/// then pops the program counter with no adjustment.
pub open spec fn spec_rti(c: CpuView) -> Result<CpuView, EmuError> {
    match spec_pop(c) {
        Err(e) => Err(e),
        Ok((c1, v)) => {
            let c2 = CpuView { p: (v & !BREAK) | BREAK_2, ..c1 };
            match spec_pop16(c2) {
                Err(e) => Err(e),
                Ok((c3, addr)) => Ok(CpuView { pc: addr, ..c3 }),
            }
        },
    }
}

// Stack instructions.

pub open spec fn spec_pha(c: CpuView) -> Result<CpuView, EmuError> {
    spec_push(c, c.a)
}

/// PHP pushes P with B and U forced on: the "pushed by software" marker.
pub open spec fn spec_php(c: CpuView) -> Result<CpuView, EmuError> {
    spec_push(c, c.p | (BREAK | BREAK_2))
}

pub open spec fn spec_pla(c: CpuView) -> Result<CpuView, EmuError> {
    match spec_pop(c) {
        Err(e) => Err(e),
        Ok((c1, v)) => Ok(CpuView { a: v, p: spec_zn(c.p, v), ..c1 }),
    }
}

/// PLP pops P but forces B back to 0 and U back to 1 in the live
/// register.
pub open spec fn spec_plp(c: CpuView) -> Result<CpuView, EmuError> {
    match spec_pop(c) {
        Err(e) => Err(e),
        Ok((c1, v)) => Ok(CpuView { p: (v & !BREAK) | BREAK_2, ..c1 }),
    }
}

// The unofficial opcodes.

/// LAX: load A and X together.
pub open spec fn spec_lax(c: CpuView, mode: AddressingMode) -> Result<CpuView, EmuError> {
    match spec_operand_value(c, mode) {
        Err(e) => Err(e),
        Ok((b2, addr, v)) => Ok(CpuView { a: v, x: v, p: spec_zn(c.p, v), bus: b2, ..c }),
    }
}

/// SAX: store A AND X, flags untouched.
pub open spec fn spec_aax(c: CpuView, mode: AddressingMode) -> Result<CpuView, EmuError> {
    match spec_operand_addr(c, mode) {
        Err(e) => Err(e),
        Ok((b1, addr)) => match spec_bus_write(b1, addr, c.a & c.x) {
            Err(e) => Err(e),
            Ok(b2) => Ok(CpuView { bus: b2, ..c }),
        },
    }
}

/// DCP: decrement memory, then compare A against it.
pub open spec fn spec_dcp(c: CpuView, mode: AddressingMode) -> Result<CpuView, EmuError> {
    match spec_operand_value(c, mode) {
        Err(e) => Err(e),
        Ok((b2, addr, data)) => {
            let res = spec_wrap8(data - 1);
            let p1 = if res <= c.a {
                c.p | CARRY_FLAG
            } else {
                c.p & !CARRY_FLAG
            };
            let p2 = spec_zn(p1, spec_wrap8(c.a - res));
            match spec_bus_write(b2, addr, res) {
                Err(e) => Err(e),
                Ok(b3) => Ok(CpuView { p: p2, bus: b3, ..c }),
            }
        },
    }
}

/// ISB: increment memory, then SBC A against it.
pub open spec fn spec_isb(c: CpuView, mode: AddressingMode) -> Result<CpuView, EmuError> {
    match spec_operand_value(c, mode) {
        Err(e) => Err(e),
        Ok((b2, addr, data)) => {
            let res = spec_wrap8(data + 1);
            match spec_bus_write(b2, addr, res) {
                Err(e) => Err(e),
                Ok(b3) => {
                    let inv = spec_sbc_operand(res);
                    Ok(CpuView {
                        a: spec_adc_result(c.p, c.a, inv),
                        p: spec_adc_flags(c.p, c.a, inv),
                        bus: b3,
                        ..c
                    })
                },
            }
        },
    }
}

/// SLO: shift memory left, then OR it into A.
pub open spec fn spec_slo(c: CpuView, mode: AddressingMode) -> Result<CpuView, EmuError> {
    match spec_operand_value(c, mode) {
        Err(e) => Err(e),
        Ok((b2, addr, data)) => {
            let p1 = if data >= 0x80 {
                c.p | CARRY_FLAG
            } else {
                c.p & !CARRY_FLAG
            };
            let res = spec_wrap8(data * 2);
            match spec_bus_write(b2, addr, res) {
                Err(e) => Err(e),
                Ok(b3) => {
                    let a2 = c.a | res;
                    Ok(CpuView { a: a2, p: spec_zn(p1, a2), bus: b3, ..c })
                },
            }
        },
    }
}

/// RLA: rotate memory left through carry, then AND it into A.
pub open spec fn spec_rla(c: CpuView, mode: AddressingMode) -> Result<CpuView, EmuError> {
    match spec_operand_value(c, mode) {
        Err(e) => Err(e),
        Ok((b2, addr, data)) => {
            let res = spec_wrap8(data * 2 + spec_carry(c.p));
            let p1 = if data >= 0x80 {
                c.p | CARRY_FLAG
            } else {
                c.p & !CARRY_FLAG
            };
            match spec_bus_write(b2, addr, res) {
                Err(e) => Err(e),
                Ok(b3) => {
                    let a2 = c.a & res;
                    Ok(CpuView { a: a2, p: spec_zn(p1, a2), bus: b3, ..c })
                },
            }
        },
    }
}

/// SRE: shift memory right, then EOR it into A.
pub open spec fn spec_sre(c: CpuView, mode: AddressingMode) -> Result<CpuView, EmuError> {
    match spec_operand_value(c, mode) {
        Err(e) => Err(e),
        Ok((b2, addr, data)) => {
            let p1 = if data % 2 == 1 {
                c.p | CARRY_FLAG
            } else {
                c.p & !CARRY_FLAG
            };
            let res = data / 2;
            match spec_bus_write(b2, addr, res) {
                Err(e) => Err(e),
                Ok(b3) => {
                    let a2 = c.a ^ res;
                    Ok(CpuView { a: a2, p: spec_zn(p1, a2), bus: b3, ..c })
                },
            }
        },
    }
}

/// RRA: rotate memory right through carry, then ADC it into A with the
/// carry the rotate produced.
pub open spec fn spec_rra(c: CpuView, mode: AddressingMode) -> Result<CpuView, EmuError> {
    match spec_operand_value(c, mode) {
        Err(e) => Err(e),
        Ok((b2, addr, data)) => {
            let p1 = if data % 2 == 1 {
                c.p | CARRY_FLAG
            } else {
                c.p & !CARRY_FLAG
            };
            let res = (data / 2 + spec_carry(c.p) * 128) as u8;
            match spec_bus_write(b2, addr, res) {
                Err(e) => Err(e),
                Ok(b3) => Ok(CpuView {
                    a: spec_adc_result(p1, c.a, res),
                    p: spec_adc_flags(p1, c.a, res),
                    bus: b3,
                    ..c
                }),
            }
        },
    }
}

/// AAC (ANC): AND into the flags only; C follows the operand's bit 7.
pub open spec fn spec_aac(c: CpuView, mode: AddressingMode) -> Result<CpuView, EmuError> {
    match spec_operand_value(c, mode) {
        Err(e) => Err(e),
        Ok((b2, addr, data)) => {
            let res = c.a & data;
            let p1 = if data & NEGATIVE_FLAG != 0 {
                c.p | CARRY_FLAG
            } else {
                c.p & !CARRY_FLAG
            };
            Ok(CpuView { p: spec_zn(p1, res), bus: b2, ..c })
        },
    }
}

/// ASR (ALR): AND, then shift right; C follows bit 0 of the shifted
/// result.
pub open spec fn spec_asr(c: CpuView, mode: AddressingMode) -> Result<CpuView, EmuError> {
    match spec_operand_value(c, mode) {
        Err(e) => Err(e),
        Ok((b2, addr, data)) => {
            let res = (c.a & data) / 2;
            let p1 = spec_zn(c.p, res);
            let p2 = if res % 2 == 1 {
                p1 | CARRY_FLAG
            } else {
                p1 & !CARRY_FLAG
            };
            Ok(CpuView { a: res, p: p2, bus: b2, ..c })
        },
    }
}

/// ARR: AND, then rotate the result right within itself; C and V follow
/// bits 4 and 5 of the rotated value.
pub open spec fn spec_arr(c: CpuView, mode: AddressingMode) -> Result<CpuView, EmuError> {
    match spec_operand_value(c, mode) {
        Err(e) => Err(e),
        Ok((b2, addr, data)) => {
            let anded = c.a & data;
            let res = (anded / 2 + (anded % 2) * 128) as u8;
            let bit4 = res & 0x10 != 0;
            let bit5 = res & 0x20 != 0;
            let p1 = if !bit4 && !bit5 {
                (c.p & !CARRY_FLAG) & !OVERFLOW_FLAG
            } else if bit4 && !bit5 {
                (c.p | OVERFLOW_FLAG) | CARRY_FLAG
            } else if !bit4 && bit5 {
                (c.p & !CARRY_FLAG) | OVERFLOW_FLAG
            } else {
                (c.p | CARRY_FLAG) & !OVERFLOW_FLAG
            };
            Ok(CpuView { a: res, p: spec_zn(p1, res), bus: b2, ..c })
        },
    }
}

/// ATX (LXA): AND into A, copy to X.
pub open spec fn spec_atx(c: CpuView, mode: AddressingMode) -> Result<CpuView, EmuError> {
    match spec_operand_value(c, mode) {
        Err(e) => Err(e),
        Ok((b2, addr, data)) => {
            let a2 = c.a & data;
            Ok(CpuView { a: a2, x: a2, p: spec_zn(c.p, a2), bus: b2, ..c })
        },
    }
}

/// AXS (SBX): X gets (A AND X) minus the operand, without borrow.
pub open spec fn spec_axs(c: CpuView, mode: AddressingMode) -> Result<CpuView, EmuError> {
    match spec_operand_value(c, mode) {
        Err(e) => Err(e),
        Ok((b2, addr, data)) => {
            let x_and_a = c.x & c.a;
            let res = spec_wrap8(x_and_a - data);
            let p1 = if data <= x_and_a {
                c.p | CARRY_FLAG
            } else {
                c.p & !CARRY_FLAG
            };
            Ok(CpuView { x: res, p: spec_zn(p1, res), bus: b2, ..c })
        },
    }
}

/// AXA (SHA): store A AND X AND the high byte of the address.
pub open spec fn spec_axa(c: CpuView, mode: AddressingMode) -> Result<CpuView, EmuError> {
    match spec_operand_addr(c, mode) {
        Err(e) => Err(e),
        Ok((b1, addr)) => {
            let data = c.a & c.x & (addr / 256) as u8;
            match spec_bus_write(b1, addr, data) {
                Err(e) => Err(e),
                Ok(b2) => Ok(CpuView { bus: b2, ..c }),
            }
        },
    }
}

/// SXA (SHX): store X AND (high byte of the address plus one).
pub open spec fn spec_sxa(c: CpuView, mode: AddressingMode) -> Result<CpuView, EmuError> {
    match spec_operand_addr(c, mode) {
        Err(e) => Err(e),
        Ok((b1, addr)) => {
            let data = c.x & spec_wrap8(addr / 256 + 1);
            match spec_bus_write(b1, addr, data) {
                Err(e) => Err(e),
                Ok(b2) => Ok(CpuView { bus: b2, ..c }),
            }
        },
    }
}

/// SYA (SHY): store Y AND (high byte of the address plus one).
pub open spec fn spec_sya(c: CpuView, mode: AddressingMode) -> Result<CpuView, EmuError> {
    match spec_operand_addr(c, mode) {
        Err(e) => Err(e),
        Ok((b1, addr)) => {
            let data = c.y & spec_wrap8(addr / 256 + 1);
            match spec_bus_write(b1, addr, data) {
                Err(e) => Err(e),
                Ok(b2) => Ok(CpuView { bus: b2, ..c }),
            }
        },
    }
}

/// XAS (TAS): SP gets A AND X; store SP AND (high byte plus one).
pub open spec fn spec_xas(c: CpuView, mode: AddressingMode) -> Result<CpuView, EmuError> {
    match spec_operand_addr(c, mode) {
        Err(e) => Err(e),
        Ok((b1, addr)) => {
            let sp2 = c.a & c.x;
            let data = sp2 & spec_wrap8(addr / 256 + 1);
            match spec_bus_write(b1, addr, data) {
                Err(e) => Err(e),
                Ok(b2) => Ok(CpuView { sp: sp2, bus: b2, ..c }),
            }
        },
    }
}

/// LAR (LAS): A, X and SP all get the operand AND SP.
pub open spec fn spec_lar(c: CpuView, mode: AddressingMode) -> Result<CpuView, EmuError> {
    match spec_operand_value(c, mode) {
        Err(e) => Err(e),
        Ok((b2, addr, data)) => {
            let res = data & c.sp;
            Ok(CpuView { a: res, x: res, sp: res, p: spec_zn(c.p, res), bus: b2, ..c })
        },
    }
}

/// The 2- and 3-byte unofficial no-ops perform a dummy read at the
/// resolved address, observable only through bus side effects.
pub open spec fn spec_dummy_read(c: CpuView, mode: AddressingMode) -> Result<CpuView, EmuError> {
    match spec_operand_value(c, mode) {
        Err(e) => Err(e),
        Ok((b2, addr, v)) => Ok(CpuView { bus: b2, ..c }),
    }
}

/// Dispatch on the decoded instruction. The state is the machine just
/// after the opcode fetch: the program counter points at the operand.
#[verifier::opaque]
pub open spec fn spec_exec_instr(c: CpuView, op: Opcode) -> Result<CpuView, EmuError> {
    let mode = op.mode;
    match op.mnemonic {
        Mnemonic::Brk => Ok(c),
        Mnemonic::Adc => spec_adc(c, mode),
        Mnemonic::And => spec_and(c, mode),
        Mnemonic::Asl => spec_asl(c, mode),
        Mnemonic::Bcc => spec_branch(c, c.p & CARRY_FLAG == 0),
        Mnemonic::Bcs => spec_branch(c, c.p & CARRY_FLAG != 0),
        Mnemonic::Beq => spec_branch(c, c.p & ZERO_FLAG != 0),
        Mnemonic::Bit => spec_bit(c, mode),
        Mnemonic::Bmi => spec_branch(c, c.p & NEGATIVE_FLAG != 0),
        Mnemonic::Bne => spec_branch(c, c.p & ZERO_FLAG == 0),
        Mnemonic::Bpl => spec_branch(c, c.p & NEGATIVE_FLAG == 0),
        Mnemonic::Bvc => spec_branch(c, c.p & OVERFLOW_FLAG == 0),
        Mnemonic::Bvs => spec_branch(c, c.p & OVERFLOW_FLAG != 0),
        Mnemonic::Clc => Ok(CpuView { p: c.p & !CARRY_FLAG, ..c }),
        Mnemonic::Cld => Ok(CpuView { p: c.p & !DECIMAL_MODE, ..c }),
        Mnemonic::Cli => Ok(CpuView { p: c.p & !INTERRUPT_DISABLE, ..c }),
        Mnemonic::Clv => Ok(CpuView { p: c.p & !OVERFLOW_FLAG, ..c }),
        Mnemonic::Cmp => spec_compare(c, mode, c.a),
        Mnemonic::Cpx => spec_compare(c, mode, c.x),
        Mnemonic::Cpy => spec_compare(c, mode, c.y),
        Mnemonic::Dec => spec_dec(c, mode),
        Mnemonic::Dex => {
            let v = spec_wrap8(c.x - 1);
            Ok(CpuView { x: v, p: spec_zn(c.p, v), ..c })
        },
        Mnemonic::Dey => {
            let v = spec_wrap8(c.y - 1);
            Ok(CpuView { y: v, p: spec_zn(c.p, v), ..c })
        },
        Mnemonic::Eor => spec_eor(c, mode),
        Mnemonic::Inc => spec_inc(c, mode),
        Mnemonic::Inx => {
            let v = spec_wrap8(c.x + 1);
            Ok(CpuView { x: v, p: spec_zn(c.p, v), ..c })
        },
        Mnemonic::Iny => {
            let v = spec_wrap8(c.y + 1);
            Ok(CpuView { y: v, p: spec_zn(c.p, v), ..c })
        },
        Mnemonic::Jmp => spec_jmp(c, mode),
        Mnemonic::Jsr => spec_jsr(c, mode),
        Mnemonic::Lda => spec_lda(c, mode),
        Mnemonic::Ldx => spec_ldx(c, mode),
        Mnemonic::Ldy => spec_ldy(c, mode),
        Mnemonic::Lsr => spec_lsr(c, mode),
        Mnemonic::Nop => Ok(c),
        Mnemonic::Ora => spec_ora(c, mode),
        Mnemonic::Pha => spec_pha(c),
        Mnemonic::Php => spec_php(c),
        Mnemonic::Pla => spec_pla(c),
        Mnemonic::Plp => spec_plp(c),
        Mnemonic::Rol => spec_rol(c, mode),
        Mnemonic::Ror => spec_ror(c, mode),
        Mnemonic::Rti => spec_rti(c),
        Mnemonic::Rts => spec_rts(c),
        Mnemonic::Sbc => spec_sbc(c, mode),
        Mnemonic::Sec => Ok(CpuView { p: c.p | CARRY_FLAG, ..c }),
        Mnemonic::Sed => Ok(CpuView { p: c.p | DECIMAL_MODE, ..c }),
        Mnemonic::Sei => Ok(CpuView { p: c.p | INTERRUPT_DISABLE, ..c }),
        Mnemonic::Sta => spec_sta(c, mode),
        Mnemonic::Stx => spec_stx(c, mode),
        Mnemonic::Sty => spec_sty(c, mode),
        Mnemonic::Tax => Ok(CpuView { x: c.a, p: spec_zn(c.p, c.a), ..c }),
        Mnemonic::Tay => Ok(CpuView { y: c.a, p: spec_zn(c.p, c.a), ..c }),
        Mnemonic::Tsx => Ok(CpuView { x: c.sp, p: spec_zn(c.p, c.sp), ..c }),
        Mnemonic::Txa => Ok(CpuView { a: c.x, p: spec_zn(c.p, c.x), ..c }),
        Mnemonic::Txs => Ok(CpuView { sp: c.x, ..c }),
        Mnemonic::Tya => Ok(CpuView { a: c.y, p: spec_zn(c.p, c.y), ..c }),
        Mnemonic::Aac => spec_aac(c, mode),
        Mnemonic::Aax => spec_aax(c, mode),
        Mnemonic::Arr => spec_arr(c, mode),
        Mnemonic::Asr => spec_asr(c, mode),
        Mnemonic::Atx => spec_atx(c, mode),
        Mnemonic::Axa => spec_axa(c, mode),
        Mnemonic::Axs => spec_axs(c, mode),
        Mnemonic::Dcp => spec_dcp(c, mode),
        Mnemonic::Dop => spec_dummy_read(c, mode),
        Mnemonic::Isb => spec_isb(c, mode),
        Mnemonic::Lar => spec_lar(c, mode),
        Mnemonic::Lax => spec_lax(c, mode),
        Mnemonic::NopU => Ok(c),
        Mnemonic::Rla => spec_rla(c, mode),
        Mnemonic::Rra => spec_rra(c, mode),
        Mnemonic::SbcU => spec_sbc(c, mode),
        Mnemonic::Slo => spec_slo(c, mode),
        Mnemonic::Sre => spec_sre(c, mode),
        Mnemonic::Sxa => spec_sxa(c, mode),
        Mnemonic::Sya => spec_sya(c, mode),
        Mnemonic::Top => spec_dummy_read(c, mode),
        Mnemonic::Xas => spec_xas(c, mode),
    }
}

/// Whether the dispatched instruction explicitly sets the program
/// counter in state `c` (the state just after the opcode fetch): the
/// jumps and returns always, a branch exactly when its condition holds.
pub open spec fn spec_sets_pc(c: CpuView, op: Opcode) -> bool {
    match op.mnemonic {
        Mnemonic::Jmp | Mnemonic::Jsr | Mnemonic::Rts | Mnemonic::Rti => true,
        Mnemonic::Bcc => c.p & CARRY_FLAG == 0,
        Mnemonic::Bcs => c.p & CARRY_FLAG != 0,
        Mnemonic::Beq => c.p & ZERO_FLAG != 0,
        Mnemonic::Bne => c.p & ZERO_FLAG == 0,
        Mnemonic::Bmi => c.p & NEGATIVE_FLAG != 0,
        Mnemonic::Bpl => c.p & NEGATIVE_FLAG == 0,
        Mnemonic::Bvc => c.p & OVERFLOW_FLAG == 0,
        Mnemonic::Bvs => c.p & OVERFLOW_FLAG != 0,
        _ => false,
    }
}

/// One iteration of the step loop: fetch the opcode at PC, advance PC
/// past it, decode, dispatch; BRK halts; if the instruction left PC
/// untouched, advance it past the operand bytes.
pub open spec fn spec_step(c: CpuView) -> SpecStep {
    match spec_bus_read(c.bus, c.pc) {
        Err(e) => SpecStep::Fail(e),
        Ok((b1, byte)) => {
            let c1 = CpuView { pc: spec_wrap16(c.pc + 1), bus: b1, ..c };
            match opcode_spec(byte) {
                None => SpecStep::Fail(EmuError::UnknownOpcode(byte)),
                Some(op) => if op.mnemonic == Mnemonic::Brk {
                    SpecStep::Halt(c1)
                } else {
                    match spec_exec_instr(c1, op) {
                        Err(e) => SpecStep::Fail(e),
                        Ok(c2) => SpecStep::Run(
                            if c2.pc == c1.pc {
                                CpuView { pc: spec_wrap16(c2.pc + op.bytes - 1), ..c2 }
                            } else {
                                c2
                            },
                        ),
                    }
                },
            }
        },
    }
}

/// `c2` is reachable from `c1` by exactly `n` non-halting steps.
pub open spec fn spec_reaches(c1: CpuView, c2: CpuView, n: nat) -> bool
    decreases n,
{
    if n == 0 {
        c1 == c2
    } else {
        match spec_step(c1) {
            SpecStep::Run(m) => spec_reaches(m, c2, (n - 1) as nat),
            _ => false,
        }
    }
}

/// Reachability extends by one more running step.
pub proof fn lemma_reaches_snoc(c1: CpuView, c2: CpuView, c3: CpuView, n: nat)
    requires
        spec_reaches(c1, c2, n),
        spec_step(c2) == SpecStep::Run(c3),
    ensures
        spec_reaches(c1, c3, n + 1),
    decreases n,
{
    if n == 0 {
        assert(spec_reaches(c3, c3, 0));
    } else {
        let m = spec_step(c1)->Run_0;
        lemma_reaches_snoc(m, c2, c3, (n - 1) as nat);
    }
}

} // verus!
