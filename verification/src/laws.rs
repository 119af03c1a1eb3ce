//! The library's laws: properties that hold of the machine as a whole,
//! stated over the spec functions the contracts use and proved once and
//! for all.

use vstd::prelude::*;

use crate::bus::{
    spec_bus_read, spec_bus_wf, spec_prg_index, spec_wrap16, BusView,
};
use crate::cpu::constants::{
    BREAK, BREAK_2, CARRY_FLAG, DECIMAL_MODE, INTERRUPT_DISABLE, NEGATIVE_FLAG, OVERFLOW_FLAG,
    ZERO_FLAG,
};
use crate::cpu::opcodes::{lemma_opcode_bytes, opcode_spec, Mnemonic, Opcode};
use crate::cpu::semantics::{
    spec_exec_instr, spec_adc_flags, spec_adc_result, spec_cpu_wf, spec_php, spec_plp, spec_pop, spec_pop16,
    spec_push, spec_push16, spec_rts, spec_jsr, spec_sbc_operand, spec_sets_pc, spec_step,
    spec_zn, CpuView, SpecStep,
};
use crate::cpu::AddressingMode;
use crate::ppu::{spec_ppu_read_status, spec_ppu_wf, spec_ppu_write_addr, PpuView};

verus! {

// ---------------------------------------------------------------------
// Arithmetic: ADC and SBC are one operation.

/// For every accumulator `a`, operand `m` and incoming flags `p`, ADC of
/// `m` and SBC of `m ^ 0xFF` produce the same result byte and the same
/// C, V, Z and N flags.
pub proof fn lemma_adc_is_sbc_of_complement(p: u8, a: u8, m: u8)
    ensures
        spec_adc_result(p, a, m) == spec_adc_result(p, a, spec_sbc_operand(m ^ 0xFF)),
        spec_adc_flags(p, a, m) == spec_adc_flags(p, a, spec_sbc_operand(m ^ 0xFF)),
{
    assert(255 - (m ^ 0xFF) == m) by (bit_vector);
}

// ---------------------------------------------------------------------
// Bus mirroring.

/// RAM is mirrored every 2 KiB: below 0x2000 a read sees exactly what a
/// read of `addr & 0x07FF` sees.
pub proof fn lemma_ram_mirror(b: BusView, addr: u16)
    requires
        spec_bus_wf(b),
        addr < 0x2000,
    ensures
        spec_bus_read(b, addr) == spec_bus_read(b, addr & 0x07FF),
{
    reveal(crate::bus::spec_bus_read);
    assert(addr & 0x07FF == addr % 0x800) by (bit_vector);
    assert(addr % 0x800 < 0x800) by (bit_vector)
        requires
            addr < 0x2000,
    ;
}

/// A 16 KiB cartridge is mirrored into the upper half of the PRG window:
/// a read at 0x8000 + k sees what a read at 0xC000 + k sees.
pub proof fn lemma_prg_mirror(b: BusView, k: u16)
    requires
        spec_bus_wf(b),
        b.prg.len() == 0x4000,
        k < 0x4000,
    ensures
        spec_bus_read(b, (0x8000 + k) as u16) == spec_bus_read(b, (0xC000 + k) as u16),
{
    reveal(crate::bus::spec_bus_read);
    assert(spec_prg_index(0x4000, (0x8000 + k) as u16) == k);
    assert(spec_prg_index(0x4000, (0xC000 + k) as u16) == k);
}


/// A bus read never changes RAM or PRG-ROM and keeps the bus
/// well-formed; only the PPU register file can move.
pub proof fn lemma_bus_read_frame(b: BusView, addr: u16)
    requires
        spec_bus_wf(b),
    ensures
        spec_bus_read(b, addr) matches Ok(t) ==> spec_bus_wf(t.0) && t.0.ram == b.ram && t.0.prg
            == b.prg,
{
    reveal(crate::bus::spec_bus_read);
}

/// A 16-bit bus read never changes RAM or PRG-ROM and keeps the bus
/// well-formed.
pub proof fn lemma_bus_read16_frame(b: BusView, pos: u16)
    requires
        spec_bus_wf(b),
    ensures
        crate::bus::spec_bus_read16(b, pos) matches Ok(t) ==> spec_bus_wf(t.0) && t.0.ram == b.ram
            && t.0.prg == b.prg,
{
    reveal(crate::bus::spec_bus_read16);
    lemma_bus_read_frame(b, pos);
    if spec_bus_read(b, pos) is Ok {
        let t1 = spec_bus_read(b, pos)->Ok_0;
        lemma_bus_read_frame(t1.0, spec_wrap16(pos + 1));
    }
}

// ---------------------------------------------------------------------
// The PPU address latch.

/// Two PPUADDR writes from a reset latch compose high byte then low
/// byte, masked into 14 bits.
pub proof fn lemma_addr_latch_composes(p: PpuView, hi: u8, lo: u8)
    requires
        spec_ppu_wf(p),
        p.hi_ptr,
    ensures
        spec_ppu_write_addr(spec_ppu_write_addr(p, hi), lo).addr == (((hi as u16) << 8) | (
        lo as u16)) & 0x3FFF,
        spec_ppu_write_addr(spec_ppu_write_addr(p, hi), lo).hi_ptr == p.hi_ptr,
{
    let p1 = spec_ppu_write_addr(p, hi);
    let p2 = spec_ppu_write_addr(p1, lo);
    assert((((hi as u16) << 8) | (lo as u16)) & 0x3FFF == ((hi as u16) % 64) * 256 + lo)
        by (bit_vector);
    assert(p1.addr == (hi * 256 + p.addr % 256) % 0x4000);
    assert(p1.addr % 256 == p.addr % 256 && p1.addr / 256 == (hi as int) % 64) by (nonlinear_arith)
        requires
            p1.addr == (hi * 256 + p.addr % 256) % 0x4000,
            0 <= p.addr,
    ;
    assert(p2.addr == ((p1.addr / 256) * 256 + lo) % 0x4000);
    assert(p2.addr == (hi as int % 64) * 256 + lo) by (nonlinear_arith)
        requires
            p2.addr == ((p1.addr / 256) * 256 + lo) % 0x4000,
            p1.addr / 256 == (hi as int) % 64,
    ;
}

/// A PPUSTATUS read between the two writes resets the latch, so the
/// following write lands in the high byte again.
pub proof fn lemma_status_read_resets_latch(p: PpuView, hi: u8, hi2: u8)
    requires
        spec_ppu_wf(p),
        p.hi_ptr,
    ensures
        ({
            let after_first = spec_ppu_write_addr(p, hi);
            let after_status = spec_ppu_read_status(after_first).0;
            after_status.hi_ptr && spec_ppu_write_addr(after_status, hi2).addr == (hi2 * 256
                + after_status.addr % 256) % 0x4000
        }),
{
}

// ---------------------------------------------------------------------
// Stack round trips.

/// push(v) then pop() hands v back and restores the stack pointer and
/// the registers.
pub proof fn lemma_push_pop_roundtrip(c: CpuView, v: u8)
    requires
        spec_cpu_wf(c),
        c.sp >= 1,
    ensures
        ({
            &&& spec_push(c, v) matches Ok(c1)
            &&& spec_pop(c1) matches Ok((c2, w)) && w == v && c2 == (CpuView {
                bus: c2.bus,
                ..c
            }) && c2.bus == (BusView { ram: c2.bus.ram, ..c.bus }) && c2.bus.ram
                == c.bus.ram.update(0x100 + c.sp, v)
        }),
{
    reveal(crate::bus::spec_bus_read);
    reveal(crate::bus::spec_bus_write);
}

/// push16(v) then pop16() hands v back and restores the stack pointer.
pub proof fn lemma_push16_pop16_roundtrip(c: CpuView, v: u16)
    requires
        spec_cpu_wf(c),
        c.sp >= 2,
    ensures
        ({
            &&& spec_push16(c, v) matches Ok(c1)
            &&& spec_pop16(c1) matches Ok((c2, w)) && w == v && c2.sp == c.sp && c2.a == c.a
                && c2.x == c.x && c2.y == c.y && c2.p == c.p && c2.pc == c.pc
        }),
{
    reveal(crate::bus::spec_bus_read);
    reveal(crate::bus::spec_bus_write);
    assert((v / 256) * 256 + v % 256 == v);
}

// ---------------------------------------------------------------------
// JSR and RTS.

/// JSR followed immediately by RTS resumes at the instruction after the
/// JSR: the operand fetch may touch the PPU but never the stack page,
/// so RTS pops exactly what JSR pushed, plus one.
#[verifier::rlimit(100)]
pub proof fn lemma_jsr_rts_roundtrip(c: CpuView)
    requires
        spec_cpu_wf(c),
        c.sp >= 2,
    ensures
        spec_jsr(c, AddressingMode::Absolute) matches Ok(c1) ==> (spec_rts(c1) matches Ok(c2)
            && c2.pc == spec_wrap16(c.pc + 2) && c2.sp == c.sp),
{
    let ret = spec_wrap16(c.pc + 1);
    let hi: u8 = (ret / 256) as u8;
    let lo: u8 = (ret % 256) as u8;
    assert(spec_push16(c, ret) matches Ok(t) && t.sp == c.sp - 2 && t.bus.ram == c.bus.ram.update(
        0x100 + c.sp,
        hi,
    ).update(0x100 + c.sp - 1, lo) && t.pc == c.pc && spec_bus_wf(t.bus) && t.bus.prg
        == c.bus.prg) by {
        reveal(crate::bus::spec_bus_write);
    }
    let cp2 = spec_push16(c, ret)->Ok_0;
    if spec_jsr(c, AddressingMode::Absolute) is Ok {
        let c1 = spec_jsr(c, AddressingMode::Absolute)->Ok_0;
        lemma_bus_read16_frame(cp2.bus, cp2.pc);
        assert(c1.sp == cp2.sp && c1.bus.ram == cp2.bus.ram && spec_bus_wf(c1.bus));
        assert(c1.bus.ram[0x100 + c1.sp + 1] == lo && c1.bus.ram[0x100 + c1.sp + 2] == hi);
        assert(spec_pop16(c1) matches Ok(t) && t.1 == (hi * 256 + lo) as u16 && t.0.sp == c.sp)
            by {
            reveal(crate::bus::spec_bus_read);
        }
        assert((hi * 256 + lo) as u16 == ret);
        assert(spec_wrap16(ret + 1) == spec_wrap16(c.pc + 2));
    }
}

// ---------------------------------------------------------------------
// PHP and PLP.

/// PHP then PLP leaves C, Z, I, D, V and N exactly as they were; in the
/// live register B reads as 0 and U as 1 afterwards.
pub proof fn lemma_php_plp_roundtrip(c: CpuView)
    requires
        spec_cpu_wf(c),
        c.sp >= 1,
    ensures
        ({
            &&& spec_php(c) matches Ok(c1)
            &&& spec_plp(c1) matches Ok(c2) && c2.sp == c.sp && c2.p & (CARRY_FLAG | ZERO_FLAG
                | INTERRUPT_DISABLE | DECIMAL_MODE | OVERFLOW_FLAG | NEGATIVE_FLAG) == c.p & (
            CARRY_FLAG | ZERO_FLAG | INTERRUPT_DISABLE | DECIMAL_MODE | OVERFLOW_FLAG
                | NEGATIVE_FLAG) && c2.p & BREAK == 0 && c2.p & BREAK_2 != 0
        }),
{
    reveal(crate::bus::spec_bus_read);
    reveal(crate::bus::spec_bus_write);
    let cp = c.p;
    let pushed = cp | (BREAK | BREAK_2);
    let live = (pushed & !BREAK) | BREAK_2;
    assert(spec_push(c, pushed) matches Ok(c1) && c1.sp == c.sp - 1 && c1.bus.ram
        == c.bus.ram.update(0x100 + c.sp, pushed));
    let c1 = spec_push(c, pushed)->Ok_0;
    assert(c1.bus.ram[0x100 + c.sp] == pushed);
    assert(spec_pop(c1) matches Ok(t) && t.1 == pushed && t.0.sp == c.sp);
    assert(live & (0x01u8 | 0x02u8 | 0x04u8 | 0x08u8 | 0x40u8 | 0x80u8) == cp & (0x01u8 | 0x02u8
        | 0x04u8 | 0x08u8 | 0x40u8 | 0x80u8) && live & 0x10u8 == 0 && live & 0x20u8 != 0)
        by (bit_vector)
        requires
            pushed == cp | (0x10u8 | 0x20u8),
            live == (pushed & !0x10u8) | 0x20u8,
    ;
}

// ---------------------------------------------------------------------
// Net-balanced push/pop sequences.

/// One abstract stack operation.
pub ghost enum StackOp {
    Push(u8),
    Pop,
}

/// Apply one operation to (RAM, SP): a push writes at 0x0100 + SP and
/// decrements SP, a pop just increments SP.
pub open spec fn apply_stack_op(ram: Seq<u8>, sp: int, op: StackOp) -> (Seq<u8>, int) {
    match op {
        StackOp::Push(v) => (ram.update(0x100 + sp, v), sp - 1),
        StackOp::Pop => (ram, sp + 1),
    }
}

/// Apply a sequence of operations from the front.
pub open spec fn apply_stack_ops(ram: Seq<u8>, sp: int, ops: Seq<StackOp>) -> (Seq<u8>, int)
    decreases ops.len(),
{
    if ops.len() == 0 {
        (ram, sp)
    } else {
        let stepped = apply_stack_op(ram, sp, ops[0]);
        apply_stack_ops(stepped.0, stepped.1, ops.drop_first())
    }
}

/// `ops` is net-balanced from depth `d`: it never pops below the frame
/// it started in and ends having closed exactly the `d` frames open at
/// the start. `stack_ops_balanced(0, ops)` says pushes and pops match
/// like parentheses.
pub open spec fn stack_ops_balanced(d: int, ops: Seq<StackOp>) -> bool
    decreases ops.len(),
{
    if ops.len() == 0 {
        d == 0
    } else {
        match ops[0] {
            StackOp::Push(_) => stack_ops_balanced(d + 1, ops.drop_first()),
            StackOp::Pop => d >= 1 && stack_ops_balanced(d - 1, ops.drop_first()),
        }
    }
}

/// The generalized frame lemma: running a sequence that closes exactly
/// `d` open frames moves SP up by `d` and never writes above the
/// original stack top at SP + d.
pub proof fn lemma_stack_ops_frame(ram: Seq<u8>, sp: int, d: int, ops: Seq<StackOp>)
    requires
        ram.len() == 0x800,
        stack_ops_balanced(d, ops),
        0 <= d,
        0 <= sp,
        sp + d <= 0xFF,
        ops.len() <= sp,
    ensures
        ({
            let out = apply_stack_ops(ram, sp, ops);
            &&& out.1 == sp + d
            &&& out.0.len() == 0x800
            &&& forall|j: int|
                sp + d < j <= 0xFF ==> #[trigger] out.0[0x100 + j] == ram[0x100 + j]
        }),
    decreases ops.len(),
{
    if ops.len() == 0 {
    } else {
        let stepped = apply_stack_op(ram, sp, ops[0]);
        match ops[0] {
            StackOp::Push(v) => {
                lemma_stack_ops_frame(stepped.0, sp - 1, d + 1, ops.drop_first());
            },
            StackOp::Pop => {
                lemma_stack_ops_frame(stepped.0, sp + 1, d - 1, ops.drop_first());
            },
        }
    }
}

/// After any net-balanced push/pop sequence, SP is unchanged and the
/// bytes at 0x0100 + SP + 1 ..= 0x01FF keep their values.
pub proof fn lemma_balanced_stack_ops(ram: Seq<u8>, sp: int, ops: Seq<StackOp>)
    requires
        ram.len() == 0x800,
        stack_ops_balanced(0, ops),
        0 <= sp <= 0xFF,
        ops.len() <= sp,
    ensures
        apply_stack_ops(ram, sp, ops).1 == sp,
        forall|j: int|
            sp < j <= 0xFF ==> #[trigger] apply_stack_ops(ram, sp, ops).0[0x100 + j] == ram[0x100
                + j],
{
    lemma_stack_ops_frame(ram, sp, 0, ops);
}

/// The abstract stack model is the machine's: a successful `spec_push`
/// performs exactly `apply_stack_op` with a push, and `spec_pop`
/// exactly a pop, on the RAM and stack pointer.
pub proof fn lemma_push_pop_model_stack_ops(c: CpuView, v: u8)
    requires
        spec_cpu_wf(c),
    ensures
        c.sp >= 1 ==> (spec_push(c, v) matches Ok(c1) && (c1.bus.ram, c1.sp as int)
            == apply_stack_op(c.bus.ram, c.sp as int, StackOp::Push(v))),
        c.sp <= 0xFE ==> (spec_pop(c) matches Ok(t) && (t.0.bus.ram, t.0.sp as int)
            == apply_stack_op(c.bus.ram, c.sp as int, StackOp::Pop) && t.1 == c.bus.ram[0x100
            + c.sp + 1]),
{
    reveal(crate::bus::spec_bus_read);
    reveal(crate::bus::spec_bus_write);
}


// ---------------------------------------------------------------------
// The U bit.

/// Bitwise toolbox for the U-bit proof: the ZN update keeps bit 5; OR
/// and AND-NOT with masks that avoid bit 5 keep it; OR with bit 5 sets
/// it; and none of the six instruction flag masks contains bit 5.
proof fn lemma_u_bit_tools()
    by (bit_vector)
    ensures
        forall|p: u8, v: u8| (#[trigger] spec_zn(p, v)) & 0x20 == p & 0x20,
        forall|p: u8, f: u8| f & 0x20 == 0 ==> (#[trigger] (p | f)) & 0x20 == p & 0x20,
        forall|p: u8, f: u8| f & 0x20 == 0 ==> (#[trigger] (p & !f)) & 0x20 == p & 0x20,
        forall|q: u8| (#[trigger] (q | 0x20u8)) & 0x20 != 0,
        0x01u8 & 0x20u8 == 0 && 0x02u8 & 0x20u8 == 0 && 0x04u8 & 0x20u8 == 0,
        0x08u8 & 0x20u8 == 0 && 0x10u8 & 0x20u8 == 0 && 0x40u8 & 0x20u8 == 0,
        0x80u8 & 0x20u8 == 0,
{
}

/// Dispatching any single instruction from a state with U set leaves U
/// set.
proof fn lemma_exec_keeps_u(c1: CpuView, op: Opcode)
    requires
        spec_cpu_wf(c1),
        c1.p & BREAK_2 != 0,
    ensures
        match spec_exec_instr(c1, op) {
            Ok(c2) => c2.p & BREAK_2 != 0,
            Err(e) => true,
        },
{
    match op.mnemonic {
        Mnemonic::Brk => {
            assert(match spec_exec_instr(c1, op) {
                Ok(c2) => c2.p & BREAK_2 != 0,
                Err(e) => true,
            }) by {
                lemma_u_bit_tools();
                reveal(crate::cpu::semantics::spec_exec_instr);
            }
        },
        Mnemonic::Adc => {
            assert(match spec_exec_instr(c1, op) {
                Ok(c2) => c2.p & BREAK_2 != 0,
                Err(e) => true,
            }) by {
                lemma_u_bit_tools();
                reveal(crate::cpu::semantics::spec_exec_instr);
            }
        },
        Mnemonic::And => {
            assert(match spec_exec_instr(c1, op) {
                Ok(c2) => c2.p & BREAK_2 != 0,
                Err(e) => true,
            }) by {
                lemma_u_bit_tools();
                reveal(crate::cpu::semantics::spec_exec_instr);
            }
        },
        Mnemonic::Asl => {
            assert(match spec_exec_instr(c1, op) {
                Ok(c2) => c2.p & BREAK_2 != 0,
                Err(e) => true,
            }) by {
                lemma_u_bit_tools();
                reveal(crate::cpu::semantics::spec_exec_instr);
            }
        },
        Mnemonic::Bcc => {
            assert(match spec_exec_instr(c1, op) {
                Ok(c2) => c2.p & BREAK_2 != 0,
                Err(e) => true,
            }) by {
                lemma_u_bit_tools();
                reveal(crate::cpu::semantics::spec_exec_instr);
            }
        },
        Mnemonic::Bcs => {
            assert(match spec_exec_instr(c1, op) {
                Ok(c2) => c2.p & BREAK_2 != 0,
                Err(e) => true,
            }) by {
                lemma_u_bit_tools();
                reveal(crate::cpu::semantics::spec_exec_instr);
            }
        },
        Mnemonic::Beq => {
            assert(match spec_exec_instr(c1, op) {
                Ok(c2) => c2.p & BREAK_2 != 0,
                Err(e) => true,
            }) by {
                lemma_u_bit_tools();
                reveal(crate::cpu::semantics::spec_exec_instr);
            }
        },
        Mnemonic::Bit => {
            assert(match spec_exec_instr(c1, op) {
                Ok(c2) => c2.p & BREAK_2 != 0,
                Err(e) => true,
            }) by {
                lemma_u_bit_tools();
                reveal(crate::cpu::semantics::spec_exec_instr);
            }
        },
        Mnemonic::Bmi => {
            assert(match spec_exec_instr(c1, op) {
                Ok(c2) => c2.p & BREAK_2 != 0,
                Err(e) => true,
            }) by {
                lemma_u_bit_tools();
                reveal(crate::cpu::semantics::spec_exec_instr);
            }
        },
        Mnemonic::Bne => {
            assert(match spec_exec_instr(c1, op) {
                Ok(c2) => c2.p & BREAK_2 != 0,
                Err(e) => true,
            }) by {
                lemma_u_bit_tools();
                reveal(crate::cpu::semantics::spec_exec_instr);
            }
        },
        Mnemonic::Bpl => {
            assert(match spec_exec_instr(c1, op) {
                Ok(c2) => c2.p & BREAK_2 != 0,
                Err(e) => true,
            }) by {
                lemma_u_bit_tools();
                reveal(crate::cpu::semantics::spec_exec_instr);
            }
        },
        Mnemonic::Bvc => {
            assert(match spec_exec_instr(c1, op) {
                Ok(c2) => c2.p & BREAK_2 != 0,
                Err(e) => true,
            }) by {
                lemma_u_bit_tools();
                reveal(crate::cpu::semantics::spec_exec_instr);
            }
        },
        Mnemonic::Bvs => {
            assert(match spec_exec_instr(c1, op) {
                Ok(c2) => c2.p & BREAK_2 != 0,
                Err(e) => true,
            }) by {
                lemma_u_bit_tools();
                reveal(crate::cpu::semantics::spec_exec_instr);
            }
        },
        Mnemonic::Clc => {
            assert(match spec_exec_instr(c1, op) {
                Ok(c2) => c2.p & BREAK_2 != 0,
                Err(e) => true,
            }) by {
                lemma_u_bit_tools();
                reveal(crate::cpu::semantics::spec_exec_instr);
            }
        },
        Mnemonic::Cld => {
            assert(match spec_exec_instr(c1, op) {
                Ok(c2) => c2.p & BREAK_2 != 0,
                Err(e) => true,
            }) by {
                lemma_u_bit_tools();
                reveal(crate::cpu::semantics::spec_exec_instr);
            }
        },
        Mnemonic::Cli => {
            assert(match spec_exec_instr(c1, op) {
                Ok(c2) => c2.p & BREAK_2 != 0,
                Err(e) => true,
            }) by {
                lemma_u_bit_tools();
                reveal(crate::cpu::semantics::spec_exec_instr);
            }
        },
        Mnemonic::Clv => {
            assert(match spec_exec_instr(c1, op) {
                Ok(c2) => c2.p & BREAK_2 != 0,
                Err(e) => true,
            }) by {
                lemma_u_bit_tools();
                reveal(crate::cpu::semantics::spec_exec_instr);
            }
        },
        Mnemonic::Cmp => {
            assert(match spec_exec_instr(c1, op) {
                Ok(c2) => c2.p & BREAK_2 != 0,
                Err(e) => true,
            }) by {
                lemma_u_bit_tools();
                reveal(crate::cpu::semantics::spec_exec_instr);
            }
        },
        Mnemonic::Cpx => {
            assert(match spec_exec_instr(c1, op) {
                Ok(c2) => c2.p & BREAK_2 != 0,
                Err(e) => true,
            }) by {
                lemma_u_bit_tools();
                reveal(crate::cpu::semantics::spec_exec_instr);
            }
        },
        Mnemonic::Cpy => {
            assert(match spec_exec_instr(c1, op) {
                Ok(c2) => c2.p & BREAK_2 != 0,
                Err(e) => true,
            }) by {
                lemma_u_bit_tools();
                reveal(crate::cpu::semantics::spec_exec_instr);
            }
        },
        Mnemonic::Dec => {
            assert(match spec_exec_instr(c1, op) {
                Ok(c2) => c2.p & BREAK_2 != 0,
                Err(e) => true,
            }) by {
                lemma_u_bit_tools();
                reveal(crate::cpu::semantics::spec_exec_instr);
            }
        },
        Mnemonic::Dex => {
            assert(match spec_exec_instr(c1, op) {
                Ok(c2) => c2.p & BREAK_2 != 0,
                Err(e) => true,
            }) by {
                lemma_u_bit_tools();
                reveal(crate::cpu::semantics::spec_exec_instr);
            }
        },
        Mnemonic::Dey => {
            assert(match spec_exec_instr(c1, op) {
                Ok(c2) => c2.p & BREAK_2 != 0,
                Err(e) => true,
            }) by {
                lemma_u_bit_tools();
                reveal(crate::cpu::semantics::spec_exec_instr);
            }
        },
        Mnemonic::Eor => {
            assert(match spec_exec_instr(c1, op) {
                Ok(c2) => c2.p & BREAK_2 != 0,
                Err(e) => true,
            }) by {
                lemma_u_bit_tools();
                reveal(crate::cpu::semantics::spec_exec_instr);
            }
        },
        Mnemonic::Inc => {
            assert(match spec_exec_instr(c1, op) {
                Ok(c2) => c2.p & BREAK_2 != 0,
                Err(e) => true,
            }) by {
                lemma_u_bit_tools();
                reveal(crate::cpu::semantics::spec_exec_instr);
            }
        },
        Mnemonic::Inx => {
            assert(match spec_exec_instr(c1, op) {
                Ok(c2) => c2.p & BREAK_2 != 0,
                Err(e) => true,
            }) by {
                lemma_u_bit_tools();
                reveal(crate::cpu::semantics::spec_exec_instr);
            }
        },
        Mnemonic::Iny => {
            assert(match spec_exec_instr(c1, op) {
                Ok(c2) => c2.p & BREAK_2 != 0,
                Err(e) => true,
            }) by {
                lemma_u_bit_tools();
                reveal(crate::cpu::semantics::spec_exec_instr);
            }
        },
        Mnemonic::Jmp => {
            assert(match spec_exec_instr(c1, op) {
                Ok(c2) => c2.p & BREAK_2 != 0,
                Err(e) => true,
            }) by {
                lemma_u_bit_tools();
                reveal(crate::cpu::semantics::spec_exec_instr);
            }
        },
        Mnemonic::Jsr => {
            assert(match spec_exec_instr(c1, op) {
                Ok(c2) => c2.p & BREAK_2 != 0,
                Err(e) => true,
            }) by {
                lemma_u_bit_tools();
                reveal(crate::cpu::semantics::spec_exec_instr);
            }
        },
        Mnemonic::Lda => {
            assert(match spec_exec_instr(c1, op) {
                Ok(c2) => c2.p & BREAK_2 != 0,
                Err(e) => true,
            }) by {
                lemma_u_bit_tools();
                reveal(crate::cpu::semantics::spec_exec_instr);
            }
        },
        Mnemonic::Ldx => {
            assert(match spec_exec_instr(c1, op) {
                Ok(c2) => c2.p & BREAK_2 != 0,
                Err(e) => true,
            }) by {
                lemma_u_bit_tools();
                reveal(crate::cpu::semantics::spec_exec_instr);
            }
        },
        Mnemonic::Ldy => {
            assert(match spec_exec_instr(c1, op) {
                Ok(c2) => c2.p & BREAK_2 != 0,
                Err(e) => true,
            }) by {
                lemma_u_bit_tools();
                reveal(crate::cpu::semantics::spec_exec_instr);
            }
        },
        Mnemonic::Lsr => {
            assert(match spec_exec_instr(c1, op) {
                Ok(c2) => c2.p & BREAK_2 != 0,
                Err(e) => true,
            }) by {
                lemma_u_bit_tools();
                reveal(crate::cpu::semantics::spec_exec_instr);
            }
        },
        Mnemonic::Nop => {
            assert(match spec_exec_instr(c1, op) {
                Ok(c2) => c2.p & BREAK_2 != 0,
                Err(e) => true,
            }) by {
                lemma_u_bit_tools();
                reveal(crate::cpu::semantics::spec_exec_instr);
            }
        },
        Mnemonic::Ora => {
            assert(match spec_exec_instr(c1, op) {
                Ok(c2) => c2.p & BREAK_2 != 0,
                Err(e) => true,
            }) by {
                lemma_u_bit_tools();
                reveal(crate::cpu::semantics::spec_exec_instr);
            }
        },
        Mnemonic::Pha => {
            assert(match spec_exec_instr(c1, op) {
                Ok(c2) => c2.p & BREAK_2 != 0,
                Err(e) => true,
            }) by {
                lemma_u_bit_tools();
                reveal(crate::cpu::semantics::spec_exec_instr);
            }
        },
        Mnemonic::Php => {
            assert(match spec_exec_instr(c1, op) {
                Ok(c2) => c2.p & BREAK_2 != 0,
                Err(e) => true,
            }) by {
                lemma_u_bit_tools();
                reveal(crate::cpu::semantics::spec_exec_instr);
            }
        },
        Mnemonic::Pla => {
            assert(match spec_exec_instr(c1, op) {
                Ok(c2) => c2.p & BREAK_2 != 0,
                Err(e) => true,
            }) by {
                lemma_u_bit_tools();
                reveal(crate::cpu::semantics::spec_exec_instr);
            }
        },
        Mnemonic::Plp => {
            assert(match spec_exec_instr(c1, op) {
                Ok(c2) => c2.p & BREAK_2 != 0,
                Err(e) => true,
            }) by {
                lemma_u_bit_tools();
                reveal(crate::cpu::semantics::spec_exec_instr);
            }
        },
        Mnemonic::Rol => {
            assert(match spec_exec_instr(c1, op) {
                Ok(c2) => c2.p & BREAK_2 != 0,
                Err(e) => true,
            }) by {
                lemma_u_bit_tools();
                reveal(crate::cpu::semantics::spec_exec_instr);
            }
        },
        Mnemonic::Ror => {
            assert(match spec_exec_instr(c1, op) {
                Ok(c2) => c2.p & BREAK_2 != 0,
                Err(e) => true,
            }) by {
                lemma_u_bit_tools();
                reveal(crate::cpu::semantics::spec_exec_instr);
            }
        },
        Mnemonic::Rti => {
            assert(match spec_exec_instr(c1, op) {
                Ok(c2) => c2.p & BREAK_2 != 0,
                Err(e) => true,
            }) by {
                lemma_u_bit_tools();
                reveal(crate::cpu::semantics::spec_exec_instr);
            }
        },
        Mnemonic::Rts => {
            assert(match spec_exec_instr(c1, op) {
                Ok(c2) => c2.p & BREAK_2 != 0,
                Err(e) => true,
            }) by {
                lemma_u_bit_tools();
                reveal(crate::cpu::semantics::spec_exec_instr);
            }
        },
        Mnemonic::Sbc => {
            assert(match spec_exec_instr(c1, op) {
                Ok(c2) => c2.p & BREAK_2 != 0,
                Err(e) => true,
            }) by {
                lemma_u_bit_tools();
                reveal(crate::cpu::semantics::spec_exec_instr);
            }
        },
        Mnemonic::Sec => {
            assert(match spec_exec_instr(c1, op) {
                Ok(c2) => c2.p & BREAK_2 != 0,
                Err(e) => true,
            }) by {
                lemma_u_bit_tools();
                reveal(crate::cpu::semantics::spec_exec_instr);
            }
        },
        Mnemonic::Sed => {
            assert(match spec_exec_instr(c1, op) {
                Ok(c2) => c2.p & BREAK_2 != 0,
                Err(e) => true,
            }) by {
                lemma_u_bit_tools();
                reveal(crate::cpu::semantics::spec_exec_instr);
            }
        },
        Mnemonic::Sei => {
            assert(match spec_exec_instr(c1, op) {
                Ok(c2) => c2.p & BREAK_2 != 0,
                Err(e) => true,
            }) by {
                lemma_u_bit_tools();
                reveal(crate::cpu::semantics::spec_exec_instr);
            }
        },
        Mnemonic::Sta => {
            assert(match spec_exec_instr(c1, op) {
                Ok(c2) => c2.p & BREAK_2 != 0,
                Err(e) => true,
            }) by {
                lemma_u_bit_tools();
                reveal(crate::cpu::semantics::spec_exec_instr);
            }
        },
        Mnemonic::Stx => {
            assert(match spec_exec_instr(c1, op) {
                Ok(c2) => c2.p & BREAK_2 != 0,
                Err(e) => true,
            }) by {
                lemma_u_bit_tools();
                reveal(crate::cpu::semantics::spec_exec_instr);
            }
        },
        Mnemonic::Sty => {
            assert(match spec_exec_instr(c1, op) {
                Ok(c2) => c2.p & BREAK_2 != 0,
                Err(e) => true,
            }) by {
                lemma_u_bit_tools();
                reveal(crate::cpu::semantics::spec_exec_instr);
            }
        },
        Mnemonic::Tax => {
            assert(match spec_exec_instr(c1, op) {
                Ok(c2) => c2.p & BREAK_2 != 0,
                Err(e) => true,
            }) by {
                lemma_u_bit_tools();
                reveal(crate::cpu::semantics::spec_exec_instr);
            }
        },
        Mnemonic::Tay => {
            assert(match spec_exec_instr(c1, op) {
                Ok(c2) => c2.p & BREAK_2 != 0,
                Err(e) => true,
            }) by {
                lemma_u_bit_tools();
                reveal(crate::cpu::semantics::spec_exec_instr);
            }
        },
        Mnemonic::Tsx => {
            assert(match spec_exec_instr(c1, op) {
                Ok(c2) => c2.p & BREAK_2 != 0,
                Err(e) => true,
            }) by {
                lemma_u_bit_tools();
                reveal(crate::cpu::semantics::spec_exec_instr);
            }
        },
        Mnemonic::Txa => {
            assert(match spec_exec_instr(c1, op) {
                Ok(c2) => c2.p & BREAK_2 != 0,
                Err(e) => true,
            }) by {
                lemma_u_bit_tools();
                reveal(crate::cpu::semantics::spec_exec_instr);
            }
        },
        Mnemonic::Txs => {
            assert(match spec_exec_instr(c1, op) {
                Ok(c2) => c2.p & BREAK_2 != 0,
                Err(e) => true,
            }) by {
                lemma_u_bit_tools();
                reveal(crate::cpu::semantics::spec_exec_instr);
            }
        },
        Mnemonic::Tya => {
            assert(match spec_exec_instr(c1, op) {
                Ok(c2) => c2.p & BREAK_2 != 0,
                Err(e) => true,
            }) by {
                lemma_u_bit_tools();
                reveal(crate::cpu::semantics::spec_exec_instr);
            }
        },
        Mnemonic::Aac => {
            assert(match spec_exec_instr(c1, op) {
                Ok(c2) => c2.p & BREAK_2 != 0,
                Err(e) => true,
            }) by {
                lemma_u_bit_tools();
                reveal(crate::cpu::semantics::spec_exec_instr);
            }
        },
        Mnemonic::Aax => {
            assert(match spec_exec_instr(c1, op) {
                Ok(c2) => c2.p & BREAK_2 != 0,
                Err(e) => true,
            }) by {
                lemma_u_bit_tools();
                reveal(crate::cpu::semantics::spec_exec_instr);
            }
        },
        Mnemonic::Arr => {
            assert(match spec_exec_instr(c1, op) {
                Ok(c2) => c2.p & BREAK_2 != 0,
                Err(e) => true,
            }) by {
                lemma_u_bit_tools();
                reveal(crate::cpu::semantics::spec_exec_instr);
            }
        },
        Mnemonic::Asr => {
            assert(match spec_exec_instr(c1, op) {
                Ok(c2) => c2.p & BREAK_2 != 0,
                Err(e) => true,
            }) by {
                lemma_u_bit_tools();
                reveal(crate::cpu::semantics::spec_exec_instr);
            }
        },
        Mnemonic::Atx => {
            assert(match spec_exec_instr(c1, op) {
                Ok(c2) => c2.p & BREAK_2 != 0,
                Err(e) => true,
            }) by {
                lemma_u_bit_tools();
                reveal(crate::cpu::semantics::spec_exec_instr);
            }
        },
        Mnemonic::Axa => {
            assert(match spec_exec_instr(c1, op) {
                Ok(c2) => c2.p & BREAK_2 != 0,
                Err(e) => true,
            }) by {
                lemma_u_bit_tools();
                reveal(crate::cpu::semantics::spec_exec_instr);
            }
        },
        Mnemonic::Axs => {
            assert(match spec_exec_instr(c1, op) {
                Ok(c2) => c2.p & BREAK_2 != 0,
                Err(e) => true,
            }) by {
                lemma_u_bit_tools();
                reveal(crate::cpu::semantics::spec_exec_instr);
            }
        },
        Mnemonic::Dcp => {
            assert(match spec_exec_instr(c1, op) {
                Ok(c2) => c2.p & BREAK_2 != 0,
                Err(e) => true,
            }) by {
                lemma_u_bit_tools();
                reveal(crate::cpu::semantics::spec_exec_instr);
            }
        },
        Mnemonic::Dop => {
            assert(match spec_exec_instr(c1, op) {
                Ok(c2) => c2.p & BREAK_2 != 0,
                Err(e) => true,
            }) by {
                lemma_u_bit_tools();
                reveal(crate::cpu::semantics::spec_exec_instr);
            }
        },
        Mnemonic::Isb => {
            assert(match spec_exec_instr(c1, op) {
                Ok(c2) => c2.p & BREAK_2 != 0,
                Err(e) => true,
            }) by {
                lemma_u_bit_tools();
                reveal(crate::cpu::semantics::spec_exec_instr);
            }
        },
        Mnemonic::Lar => {
            assert(match spec_exec_instr(c1, op) {
                Ok(c2) => c2.p & BREAK_2 != 0,
                Err(e) => true,
            }) by {
                lemma_u_bit_tools();
                reveal(crate::cpu::semantics::spec_exec_instr);
            }
        },
        Mnemonic::Lax => {
            assert(match spec_exec_instr(c1, op) {
                Ok(c2) => c2.p & BREAK_2 != 0,
                Err(e) => true,
            }) by {
                lemma_u_bit_tools();
                reveal(crate::cpu::semantics::spec_exec_instr);
            }
        },
        Mnemonic::NopU => {
            assert(match spec_exec_instr(c1, op) {
                Ok(c2) => c2.p & BREAK_2 != 0,
                Err(e) => true,
            }) by {
                lemma_u_bit_tools();
                reveal(crate::cpu::semantics::spec_exec_instr);
            }
        },
        Mnemonic::Rla => {
            assert(match spec_exec_instr(c1, op) {
                Ok(c2) => c2.p & BREAK_2 != 0,
                Err(e) => true,
            }) by {
                lemma_u_bit_tools();
                reveal(crate::cpu::semantics::spec_exec_instr);
            }
        },
        Mnemonic::Rra => {
            assert(match spec_exec_instr(c1, op) {
                Ok(c2) => c2.p & BREAK_2 != 0,
                Err(e) => true,
            }) by {
                lemma_u_bit_tools();
                reveal(crate::cpu::semantics::spec_exec_instr);
            }
        },
        Mnemonic::SbcU => {
            assert(match spec_exec_instr(c1, op) {
                Ok(c2) => c2.p & BREAK_2 != 0,
                Err(e) => true,
            }) by {
                lemma_u_bit_tools();
                reveal(crate::cpu::semantics::spec_exec_instr);
            }
        },
        Mnemonic::Slo => {
            assert(match spec_exec_instr(c1, op) {
                Ok(c2) => c2.p & BREAK_2 != 0,
                Err(e) => true,
            }) by {
                lemma_u_bit_tools();
                reveal(crate::cpu::semantics::spec_exec_instr);
            }
        },
        Mnemonic::Sre => {
            assert(match spec_exec_instr(c1, op) {
                Ok(c2) => c2.p & BREAK_2 != 0,
                Err(e) => true,
            }) by {
                lemma_u_bit_tools();
                reveal(crate::cpu::semantics::spec_exec_instr);
            }
        },
        Mnemonic::Sxa => {
            assert(match spec_exec_instr(c1, op) {
                Ok(c2) => c2.p & BREAK_2 != 0,
                Err(e) => true,
            }) by {
                lemma_u_bit_tools();
                reveal(crate::cpu::semantics::spec_exec_instr);
            }
        },
        Mnemonic::Sya => {
            assert(match spec_exec_instr(c1, op) {
                Ok(c2) => c2.p & BREAK_2 != 0,
                Err(e) => true,
            }) by {
                lemma_u_bit_tools();
                reveal(crate::cpu::semantics::spec_exec_instr);
            }
        },
        Mnemonic::Top => {
            assert(match spec_exec_instr(c1, op) {
                Ok(c2) => c2.p & BREAK_2 != 0,
                Err(e) => true,
            }) by {
                lemma_u_bit_tools();
                reveal(crate::cpu::semantics::spec_exec_instr);
            }
        },
        Mnemonic::Xas => {
            assert(match spec_exec_instr(c1, op) {
                Ok(c2) => c2.p & BREAK_2 != 0,
                Err(e) => true,
            }) by {
                lemma_u_bit_tools();
                reveal(crate::cpu::semantics::spec_exec_instr);
            }
        },
    }
}

/// For every machine state whose U bit is set, every instruction leaves
/// it set: after any non-failing step the post-state has P bit U = 1.
pub proof fn lemma_unused_bit_stays_set(c: CpuView)
    requires
        spec_cpu_wf(c),
        c.p & BREAK_2 != 0,
    ensures
        match spec_step(c) {
            SpecStep::Run(c2) => c2.p & BREAK_2 != 0,
            SpecStep::Halt(c2) => c2.p & BREAK_2 != 0,
            SpecStep::Fail(e) => true,
        },
{
    if spec_bus_read(c.bus, c.pc) is Ok {
        let t = spec_bus_read(c.bus, c.pc)->Ok_0;
        if opcode_spec(t.1) is Some {
            let op = opcode_spec(t.1)->0;
            let c1 = CpuView { pc: spec_wrap16(c.pc + 1), bus: t.0, ..c };
            lemma_bus_read_frame(c.bus, c.pc);
            lemma_exec_keeps_u(c1, op);
        }
    }
}

// ---------------------------------------------------------------------
// The program counter.

/// Dispatching an instruction that does not explicitly set the program
/// counter leaves the program counter where the fetch put it.
proof fn lemma_exec_keeps_pc(c1: CpuView, op: Opcode)
    requires
        spec_cpu_wf(c1),
    ensures
        !spec_sets_pc(c1, op) ==> match spec_exec_instr(c1, op) {
            Ok(c2) => c2.pc == c1.pc,
            Err(e) => true,
        },
{
    match op.mnemonic {
        Mnemonic::Brk => {
            assert(!spec_sets_pc(c1, op) ==> match spec_exec_instr(c1, op) {
                Ok(c2) => c2.pc == c1.pc,
                Err(e) => true,
            }) by {
                reveal(crate::cpu::semantics::spec_exec_instr);
            }
        },
        Mnemonic::Adc => {
            assert(!spec_sets_pc(c1, op) ==> match spec_exec_instr(c1, op) {
                Ok(c2) => c2.pc == c1.pc,
                Err(e) => true,
            }) by {
                reveal(crate::cpu::semantics::spec_exec_instr);
            }
        },
        Mnemonic::And => {
            assert(!spec_sets_pc(c1, op) ==> match spec_exec_instr(c1, op) {
                Ok(c2) => c2.pc == c1.pc,
                Err(e) => true,
            }) by {
                reveal(crate::cpu::semantics::spec_exec_instr);
            }
        },
        Mnemonic::Asl => {
            assert(!spec_sets_pc(c1, op) ==> match spec_exec_instr(c1, op) {
                Ok(c2) => c2.pc == c1.pc,
                Err(e) => true,
            }) by {
                reveal(crate::cpu::semantics::spec_exec_instr);
            }
        },
        Mnemonic::Bcc => {
            assert(!spec_sets_pc(c1, op) ==> match spec_exec_instr(c1, op) {
                Ok(c2) => c2.pc == c1.pc,
                Err(e) => true,
            }) by {
                reveal(crate::cpu::semantics::spec_exec_instr);
            }
        },
        Mnemonic::Bcs => {
            assert(!spec_sets_pc(c1, op) ==> match spec_exec_instr(c1, op) {
                Ok(c2) => c2.pc == c1.pc,
                Err(e) => true,
            }) by {
                reveal(crate::cpu::semantics::spec_exec_instr);
            }
        },
        Mnemonic::Beq => {
            assert(!spec_sets_pc(c1, op) ==> match spec_exec_instr(c1, op) {
                Ok(c2) => c2.pc == c1.pc,
                Err(e) => true,
            }) by {
                reveal(crate::cpu::semantics::spec_exec_instr);
            }
        },
        Mnemonic::Bit => {
            assert(!spec_sets_pc(c1, op) ==> match spec_exec_instr(c1, op) {
                Ok(c2) => c2.pc == c1.pc,
                Err(e) => true,
            }) by {
                reveal(crate::cpu::semantics::spec_exec_instr);
            }
        },
        Mnemonic::Bmi => {
            assert(!spec_sets_pc(c1, op) ==> match spec_exec_instr(c1, op) {
                Ok(c2) => c2.pc == c1.pc,
                Err(e) => true,
            }) by {
                reveal(crate::cpu::semantics::spec_exec_instr);
            }
        },
        Mnemonic::Bne => {
            assert(!spec_sets_pc(c1, op) ==> match spec_exec_instr(c1, op) {
                Ok(c2) => c2.pc == c1.pc,
                Err(e) => true,
            }) by {
                reveal(crate::cpu::semantics::spec_exec_instr);
            }
        },
        Mnemonic::Bpl => {
            assert(!spec_sets_pc(c1, op) ==> match spec_exec_instr(c1, op) {
                Ok(c2) => c2.pc == c1.pc,
                Err(e) => true,
            }) by {
                reveal(crate::cpu::semantics::spec_exec_instr);
            }
        },
        Mnemonic::Bvc => {
            assert(!spec_sets_pc(c1, op) ==> match spec_exec_instr(c1, op) {
                Ok(c2) => c2.pc == c1.pc,
                Err(e) => true,
            }) by {
                reveal(crate::cpu::semantics::spec_exec_instr);
            }
        },
        Mnemonic::Bvs => {
            assert(!spec_sets_pc(c1, op) ==> match spec_exec_instr(c1, op) {
                Ok(c2) => c2.pc == c1.pc,
                Err(e) => true,
            }) by {
                reveal(crate::cpu::semantics::spec_exec_instr);
            }
        },
        Mnemonic::Clc => {
            assert(!spec_sets_pc(c1, op) ==> match spec_exec_instr(c1, op) {
                Ok(c2) => c2.pc == c1.pc,
                Err(e) => true,
            }) by {
                reveal(crate::cpu::semantics::spec_exec_instr);
            }
        },
        Mnemonic::Cld => {
            assert(!spec_sets_pc(c1, op) ==> match spec_exec_instr(c1, op) {
                Ok(c2) => c2.pc == c1.pc,
                Err(e) => true,
            }) by {
                reveal(crate::cpu::semantics::spec_exec_instr);
            }
        },
        Mnemonic::Cli => {
            assert(!spec_sets_pc(c1, op) ==> match spec_exec_instr(c1, op) {
                Ok(c2) => c2.pc == c1.pc,
                Err(e) => true,
            }) by {
                reveal(crate::cpu::semantics::spec_exec_instr);
            }
        },
        Mnemonic::Clv => {
            assert(!spec_sets_pc(c1, op) ==> match spec_exec_instr(c1, op) {
                Ok(c2) => c2.pc == c1.pc,
                Err(e) => true,
            }) by {
                reveal(crate::cpu::semantics::spec_exec_instr);
            }
        },
        Mnemonic::Cmp => {
            assert(!spec_sets_pc(c1, op) ==> match spec_exec_instr(c1, op) {
                Ok(c2) => c2.pc == c1.pc,
                Err(e) => true,
            }) by {
                reveal(crate::cpu::semantics::spec_exec_instr);
            }
        },
        Mnemonic::Cpx => {
            assert(!spec_sets_pc(c1, op) ==> match spec_exec_instr(c1, op) {
                Ok(c2) => c2.pc == c1.pc,
                Err(e) => true,
            }) by {
                reveal(crate::cpu::semantics::spec_exec_instr);
            }
        },
        Mnemonic::Cpy => {
            assert(!spec_sets_pc(c1, op) ==> match spec_exec_instr(c1, op) {
                Ok(c2) => c2.pc == c1.pc,
                Err(e) => true,
            }) by {
                reveal(crate::cpu::semantics::spec_exec_instr);
            }
        },
        Mnemonic::Dec => {
            assert(!spec_sets_pc(c1, op) ==> match spec_exec_instr(c1, op) {
                Ok(c2) => c2.pc == c1.pc,
                Err(e) => true,
            }) by {
                reveal(crate::cpu::semantics::spec_exec_instr);
            }
        },
        Mnemonic::Dex => {
            assert(!spec_sets_pc(c1, op) ==> match spec_exec_instr(c1, op) {
                Ok(c2) => c2.pc == c1.pc,
                Err(e) => true,
            }) by {
                reveal(crate::cpu::semantics::spec_exec_instr);
            }
        },
        Mnemonic::Dey => {
            assert(!spec_sets_pc(c1, op) ==> match spec_exec_instr(c1, op) {
                Ok(c2) => c2.pc == c1.pc,
                Err(e) => true,
            }) by {
                reveal(crate::cpu::semantics::spec_exec_instr);
            }
        },
        Mnemonic::Eor => {
            assert(!spec_sets_pc(c1, op) ==> match spec_exec_instr(c1, op) {
                Ok(c2) => c2.pc == c1.pc,
                Err(e) => true,
            }) by {
                reveal(crate::cpu::semantics::spec_exec_instr);
            }
        },
        Mnemonic::Inc => {
            assert(!spec_sets_pc(c1, op) ==> match spec_exec_instr(c1, op) {
                Ok(c2) => c2.pc == c1.pc,
                Err(e) => true,
            }) by {
                reveal(crate::cpu::semantics::spec_exec_instr);
            }
        },
        Mnemonic::Inx => {
            assert(!spec_sets_pc(c1, op) ==> match spec_exec_instr(c1, op) {
                Ok(c2) => c2.pc == c1.pc,
                Err(e) => true,
            }) by {
                reveal(crate::cpu::semantics::spec_exec_instr);
            }
        },
        Mnemonic::Iny => {
            assert(!spec_sets_pc(c1, op) ==> match spec_exec_instr(c1, op) {
                Ok(c2) => c2.pc == c1.pc,
                Err(e) => true,
            }) by {
                reveal(crate::cpu::semantics::spec_exec_instr);
            }
        },
        Mnemonic::Jmp => {
        },
        Mnemonic::Jsr => {
        },
        Mnemonic::Lda => {
            assert(!spec_sets_pc(c1, op) ==> match spec_exec_instr(c1, op) {
                Ok(c2) => c2.pc == c1.pc,
                Err(e) => true,
            }) by {
                reveal(crate::cpu::semantics::spec_exec_instr);
            }
        },
        Mnemonic::Ldx => {
            assert(!spec_sets_pc(c1, op) ==> match spec_exec_instr(c1, op) {
                Ok(c2) => c2.pc == c1.pc,
                Err(e) => true,
            }) by {
                reveal(crate::cpu::semantics::spec_exec_instr);
            }
        },
        Mnemonic::Ldy => {
            assert(!spec_sets_pc(c1, op) ==> match spec_exec_instr(c1, op) {
                Ok(c2) => c2.pc == c1.pc,
                Err(e) => true,
            }) by {
                reveal(crate::cpu::semantics::spec_exec_instr);
            }
        },
        Mnemonic::Lsr => {
            assert(!spec_sets_pc(c1, op) ==> match spec_exec_instr(c1, op) {
                Ok(c2) => c2.pc == c1.pc,
                Err(e) => true,
            }) by {
                reveal(crate::cpu::semantics::spec_exec_instr);
            }
        },
        Mnemonic::Nop => {
            assert(!spec_sets_pc(c1, op) ==> match spec_exec_instr(c1, op) {
                Ok(c2) => c2.pc == c1.pc,
                Err(e) => true,
            }) by {
                reveal(crate::cpu::semantics::spec_exec_instr);
            }
        },
        Mnemonic::Ora => {
            assert(!spec_sets_pc(c1, op) ==> match spec_exec_instr(c1, op) {
                Ok(c2) => c2.pc == c1.pc,
                Err(e) => true,
            }) by {
                reveal(crate::cpu::semantics::spec_exec_instr);
            }
        },
        Mnemonic::Pha => {
            assert(!spec_sets_pc(c1, op) ==> match spec_exec_instr(c1, op) {
                Ok(c2) => c2.pc == c1.pc,
                Err(e) => true,
            }) by {
                reveal(crate::cpu::semantics::spec_exec_instr);
            }
        },
        Mnemonic::Php => {
            assert(!spec_sets_pc(c1, op) ==> match spec_exec_instr(c1, op) {
                Ok(c2) => c2.pc == c1.pc,
                Err(e) => true,
            }) by {
                reveal(crate::cpu::semantics::spec_exec_instr);
            }
        },
        Mnemonic::Pla => {
            assert(!spec_sets_pc(c1, op) ==> match spec_exec_instr(c1, op) {
                Ok(c2) => c2.pc == c1.pc,
                Err(e) => true,
            }) by {
                reveal(crate::cpu::semantics::spec_exec_instr);
            }
        },
        Mnemonic::Plp => {
            assert(!spec_sets_pc(c1, op) ==> match spec_exec_instr(c1, op) {
                Ok(c2) => c2.pc == c1.pc,
                Err(e) => true,
            }) by {
                reveal(crate::cpu::semantics::spec_exec_instr);
            }
        },
        Mnemonic::Rol => {
            assert(!spec_sets_pc(c1, op) ==> match spec_exec_instr(c1, op) {
                Ok(c2) => c2.pc == c1.pc,
                Err(e) => true,
            }) by {
                reveal(crate::cpu::semantics::spec_exec_instr);
            }
        },
        Mnemonic::Ror => {
            assert(!spec_sets_pc(c1, op) ==> match spec_exec_instr(c1, op) {
                Ok(c2) => c2.pc == c1.pc,
                Err(e) => true,
            }) by {
                reveal(crate::cpu::semantics::spec_exec_instr);
            }
        },
        Mnemonic::Rti => {
        },
        Mnemonic::Rts => {
        },
        Mnemonic::Sbc => {
            assert(!spec_sets_pc(c1, op) ==> match spec_exec_instr(c1, op) {
                Ok(c2) => c2.pc == c1.pc,
                Err(e) => true,
            }) by {
                reveal(crate::cpu::semantics::spec_exec_instr);
            }
        },
        Mnemonic::Sec => {
            assert(!spec_sets_pc(c1, op) ==> match spec_exec_instr(c1, op) {
                Ok(c2) => c2.pc == c1.pc,
                Err(e) => true,
            }) by {
                reveal(crate::cpu::semantics::spec_exec_instr);
            }
        },
        Mnemonic::Sed => {
            assert(!spec_sets_pc(c1, op) ==> match spec_exec_instr(c1, op) {
                Ok(c2) => c2.pc == c1.pc,
                Err(e) => true,
            }) by {
                reveal(crate::cpu::semantics::spec_exec_instr);
            }
        },
        Mnemonic::Sei => {
            assert(!spec_sets_pc(c1, op) ==> match spec_exec_instr(c1, op) {
                Ok(c2) => c2.pc == c1.pc,
                Err(e) => true,
            }) by {
                reveal(crate::cpu::semantics::spec_exec_instr);
            }
        },
        Mnemonic::Sta => {
            assert(!spec_sets_pc(c1, op) ==> match spec_exec_instr(c1, op) {
                Ok(c2) => c2.pc == c1.pc,
                Err(e) => true,
            }) by {
                reveal(crate::cpu::semantics::spec_exec_instr);
            }
        },
        Mnemonic::Stx => {
            assert(!spec_sets_pc(c1, op) ==> match spec_exec_instr(c1, op) {
                Ok(c2) => c2.pc == c1.pc,
                Err(e) => true,
            }) by {
                reveal(crate::cpu::semantics::spec_exec_instr);
            }
        },
        Mnemonic::Sty => {
            assert(!spec_sets_pc(c1, op) ==> match spec_exec_instr(c1, op) {
                Ok(c2) => c2.pc == c1.pc,
                Err(e) => true,
            }) by {
                reveal(crate::cpu::semantics::spec_exec_instr);
            }
        },
        Mnemonic::Tax => {
            assert(!spec_sets_pc(c1, op) ==> match spec_exec_instr(c1, op) {
                Ok(c2) => c2.pc == c1.pc,
                Err(e) => true,
            }) by {
                reveal(crate::cpu::semantics::spec_exec_instr);
            }
        },
        Mnemonic::Tay => {
            assert(!spec_sets_pc(c1, op) ==> match spec_exec_instr(c1, op) {
                Ok(c2) => c2.pc == c1.pc,
                Err(e) => true,
            }) by {
                reveal(crate::cpu::semantics::spec_exec_instr);
            }
        },
        Mnemonic::Tsx => {
            assert(!spec_sets_pc(c1, op) ==> match spec_exec_instr(c1, op) {
                Ok(c2) => c2.pc == c1.pc,
                Err(e) => true,
            }) by {
                reveal(crate::cpu::semantics::spec_exec_instr);
            }
        },
        Mnemonic::Txa => {
            assert(!spec_sets_pc(c1, op) ==> match spec_exec_instr(c1, op) {
                Ok(c2) => c2.pc == c1.pc,
                Err(e) => true,
            }) by {
                reveal(crate::cpu::semantics::spec_exec_instr);
            }
        },
        Mnemonic::Txs => {
            assert(!spec_sets_pc(c1, op) ==> match spec_exec_instr(c1, op) {
                Ok(c2) => c2.pc == c1.pc,
                Err(e) => true,
            }) by {
                reveal(crate::cpu::semantics::spec_exec_instr);
            }
        },
        Mnemonic::Tya => {
            assert(!spec_sets_pc(c1, op) ==> match spec_exec_instr(c1, op) {
                Ok(c2) => c2.pc == c1.pc,
                Err(e) => true,
            }) by {
                reveal(crate::cpu::semantics::spec_exec_instr);
            }
        },
        Mnemonic::Aac => {
            assert(!spec_sets_pc(c1, op) ==> match spec_exec_instr(c1, op) {
                Ok(c2) => c2.pc == c1.pc,
                Err(e) => true,
            }) by {
                reveal(crate::cpu::semantics::spec_exec_instr);
            }
        },
        Mnemonic::Aax => {
            assert(!spec_sets_pc(c1, op) ==> match spec_exec_instr(c1, op) {
                Ok(c2) => c2.pc == c1.pc,
                Err(e) => true,
            }) by {
                reveal(crate::cpu::semantics::spec_exec_instr);
            }
        },
        Mnemonic::Arr => {
            assert(!spec_sets_pc(c1, op) ==> match spec_exec_instr(c1, op) {
                Ok(c2) => c2.pc == c1.pc,
                Err(e) => true,
            }) by {
                reveal(crate::cpu::semantics::spec_exec_instr);
            }
        },
        Mnemonic::Asr => {
            assert(!spec_sets_pc(c1, op) ==> match spec_exec_instr(c1, op) {
                Ok(c2) => c2.pc == c1.pc,
                Err(e) => true,
            }) by {
                reveal(crate::cpu::semantics::spec_exec_instr);
            }
        },
        Mnemonic::Atx => {
            assert(!spec_sets_pc(c1, op) ==> match spec_exec_instr(c1, op) {
                Ok(c2) => c2.pc == c1.pc,
                Err(e) => true,
            }) by {
                reveal(crate::cpu::semantics::spec_exec_instr);
            }
        },
        Mnemonic::Axa => {
            assert(!spec_sets_pc(c1, op) ==> match spec_exec_instr(c1, op) {
                Ok(c2) => c2.pc == c1.pc,
                Err(e) => true,
            }) by {
                reveal(crate::cpu::semantics::spec_exec_instr);
            }
        },
        Mnemonic::Axs => {
            assert(!spec_sets_pc(c1, op) ==> match spec_exec_instr(c1, op) {
                Ok(c2) => c2.pc == c1.pc,
                Err(e) => true,
            }) by {
                reveal(crate::cpu::semantics::spec_exec_instr);
            }
        },
        Mnemonic::Dcp => {
            assert(!spec_sets_pc(c1, op) ==> match spec_exec_instr(c1, op) {
                Ok(c2) => c2.pc == c1.pc,
                Err(e) => true,
            }) by {
                reveal(crate::cpu::semantics::spec_exec_instr);
            }
        },
        Mnemonic::Dop => {
            assert(!spec_sets_pc(c1, op) ==> match spec_exec_instr(c1, op) {
                Ok(c2) => c2.pc == c1.pc,
                Err(e) => true,
            }) by {
                reveal(crate::cpu::semantics::spec_exec_instr);
            }
        },
        Mnemonic::Isb => {
            assert(!spec_sets_pc(c1, op) ==> match spec_exec_instr(c1, op) {
                Ok(c2) => c2.pc == c1.pc,
                Err(e) => true,
            }) by {
                reveal(crate::cpu::semantics::spec_exec_instr);
            }
        },
        Mnemonic::Lar => {
            assert(!spec_sets_pc(c1, op) ==> match spec_exec_instr(c1, op) {
                Ok(c2) => c2.pc == c1.pc,
                Err(e) => true,
            }) by {
                reveal(crate::cpu::semantics::spec_exec_instr);
            }
        },
        Mnemonic::Lax => {
            assert(!spec_sets_pc(c1, op) ==> match spec_exec_instr(c1, op) {
                Ok(c2) => c2.pc == c1.pc,
                Err(e) => true,
            }) by {
                reveal(crate::cpu::semantics::spec_exec_instr);
            }
        },
        Mnemonic::NopU => {
            assert(!spec_sets_pc(c1, op) ==> match spec_exec_instr(c1, op) {
                Ok(c2) => c2.pc == c1.pc,
                Err(e) => true,
            }) by {
                reveal(crate::cpu::semantics::spec_exec_instr);
            }
        },
        Mnemonic::Rla => {
            assert(!spec_sets_pc(c1, op) ==> match spec_exec_instr(c1, op) {
                Ok(c2) => c2.pc == c1.pc,
                Err(e) => true,
            }) by {
                reveal(crate::cpu::semantics::spec_exec_instr);
            }
        },
        Mnemonic::Rra => {
            assert(!spec_sets_pc(c1, op) ==> match spec_exec_instr(c1, op) {
                Ok(c2) => c2.pc == c1.pc,
                Err(e) => true,
            }) by {
                reveal(crate::cpu::semantics::spec_exec_instr);
            }
        },
        Mnemonic::SbcU => {
            assert(!spec_sets_pc(c1, op) ==> match spec_exec_instr(c1, op) {
                Ok(c2) => c2.pc == c1.pc,
                Err(e) => true,
            }) by {
                reveal(crate::cpu::semantics::spec_exec_instr);
            }
        },
        Mnemonic::Slo => {
            assert(!spec_sets_pc(c1, op) ==> match spec_exec_instr(c1, op) {
                Ok(c2) => c2.pc == c1.pc,
                Err(e) => true,
            }) by {
                reveal(crate::cpu::semantics::spec_exec_instr);
            }
        },
        Mnemonic::Sre => {
            assert(!spec_sets_pc(c1, op) ==> match spec_exec_instr(c1, op) {
                Ok(c2) => c2.pc == c1.pc,
                Err(e) => true,
            }) by {
                reveal(crate::cpu::semantics::spec_exec_instr);
            }
        },
        Mnemonic::Sxa => {
            assert(!spec_sets_pc(c1, op) ==> match spec_exec_instr(c1, op) {
                Ok(c2) => c2.pc == c1.pc,
                Err(e) => true,
            }) by {
                reveal(crate::cpu::semantics::spec_exec_instr);
            }
        },
        Mnemonic::Sya => {
            assert(!spec_sets_pc(c1, op) ==> match spec_exec_instr(c1, op) {
                Ok(c2) => c2.pc == c1.pc,
                Err(e) => true,
            }) by {
                reveal(crate::cpu::semantics::spec_exec_instr);
            }
        },
        Mnemonic::Top => {
            assert(!spec_sets_pc(c1, op) ==> match spec_exec_instr(c1, op) {
                Ok(c2) => c2.pc == c1.pc,
                Err(e) => true,
            }) by {
                reveal(crate::cpu::semantics::spec_exec_instr);
            }
        },
        Mnemonic::Xas => {
            assert(!spec_sets_pc(c1, op) ==> match spec_exec_instr(c1, op) {
                Ok(c2) => c2.pc == c1.pc,
                Err(e) => true,
            }) by {
                reveal(crate::cpu::semantics::spec_exec_instr);
            }
        },
    }
}

/// For every instruction with byte length L that does not explicitly
/// set the program counter, the step loop advances the program counter
/// by exactly L (modulo the 16-bit space).
pub proof fn lemma_pc_advance(c: CpuView)
    requires
        spec_cpu_wf(c),
    ensures
        match spec_bus_read(c.bus, c.pc) {
            Ok(t) => match opcode_spec(t.1) {
                Some(op) => (op.mnemonic != Mnemonic::Brk && !spec_sets_pc(
                    (CpuView { pc: spec_wrap16(c.pc + 1), bus: t.0, ..c }),
                    op,
                )) ==> match spec_step(c) {
                    SpecStep::Run(c2) => c2.pc == spec_wrap16(c.pc + op.bytes),
                    _ => true,
                },
                None => true,
            },
            Err(e) => true,
        },
{
    if spec_bus_read(c.bus, c.pc) is Ok {
        let t = spec_bus_read(c.bus, c.pc)->Ok_0;
        if opcode_spec(t.1) is Some {
            let op = opcode_spec(t.1)->0;
            let c1 = CpuView { pc: spec_wrap16(c.pc + 1), bus: t.0, ..c };
            lemma_bus_read_frame(c.bus, c.pc);
            lemma_exec_keeps_pc(c1, op);
            lemma_opcode_bytes(t.1);
            if op.mnemonic != Mnemonic::Brk && !spec_sets_pc(c1, op) {
                if spec_exec_instr(c1, op) is Ok {
                    assert(spec_wrap16(spec_wrap16(c.pc + 1) + op.bytes - 1) == spec_wrap16(
                        c.pc + op.bytes,
                    ));
                }
            }
        }
    }
}

} // verus!
