//! The CPU core: registers, flags, stack discipline, addressing-mode
//! resolution, the instruction set, and the step loop.

use vstd::prelude::*;

use crate::bus::{
    spec_bus_peek, spec_bus_read, spec_bus_read16, spec_bus_write, spec_bus_write16, Bus, BusView,
};
use crate::cartridge::{Mirroring, Rom};
use crate::cpu::constants::{
    BREAK_2, CARRY_FLAG, DECIMAL_MODE, INTERRUPT_DISABLE, NEGATIVE_FLAG, OVERFLOW_FLAG, ZERO_FLAG,
};
use crate::cpu::instructions::spec_sem_post;
use crate::cpu::opcodes::{opcode_for, Mnemonic, Opcode};
use crate::cpu::semantics::{
    lemma_reaches_snoc, spec_aac, spec_aax, spec_adc, spec_and, spec_arr, spec_asl, spec_asr,
    spec_atx, spec_axa, spec_axs, spec_bit, spec_branch, spec_carry, spec_compare, spec_cpu_wf,
    spec_dcp, spec_dec, spec_dummy_read, spec_eor, spec_exec_instr, spec_inc, spec_isb, spec_jmp,
    spec_jsr, spec_lar, spec_lax, spec_lda, spec_ldx, spec_ldy, spec_lsr, spec_operand_addr,
    spec_operand_value, spec_ora, spec_pha, spec_php, spec_pla, spec_plp, spec_pop, spec_pop16,
    spec_push, spec_push16, spec_reaches, spec_rla, spec_rol, spec_ror, spec_rra, spec_rti,
    spec_rts, spec_sbc, spec_slo, spec_sre, spec_sta, spec_step, spec_stx, spec_sty, spec_sxa,
    spec_sya, spec_wrap8, spec_xas, spec_zn, CpuView, SpecStep,
};
use crate::errors::EmuError;

pub mod constants;
pub mod trace_fmt;
pub mod instructions;
pub mod opcodes;
pub mod semantics;

pub use trace_fmt::trace;

verus! {

/// Stack pointer after reset.
pub const STACK_RESET: u8 = 0xFD;

/// The twelve addressing modes, plus the marker modes for instructions
/// without a memory operand.
#[allow(non_camel_case_types)]
#[derive(Clone, Copy, Debug, PartialEq, Eq, Structural)]
pub enum AddressingMode {
    Accumulator,
    Immediate,
    ZeroPage,
    ZeroPage_X,
    ZeroPage_Y,
    Absolute,
    Absolute_X,
    Absolute_Y,
    Indirect,
    Indirect_X,
    Indirect_Y,
    NoneAddressing,
    Implied,
    Relative,
}

/// The CPU aggregate: the six registers and the bus it owns.
pub struct CPU {
    pub register_a: u8,
    pub register_x: u8,
    pub register_y: u8,
    pub stack_pointer: u8,
    pub flags: u8,
    pub program_counter: u16,
    pub bus: Bus,
}

impl View for CPU {
    type V = CpuView;

    open spec fn view(&self) -> CpuView {
        CpuView {
            a: self.register_a,
            x: self.register_x,
            y: self.register_y,
            sp: self.stack_pointer,
            p: self.flags,
            pc: self.program_counter,
            bus: self.bus@,
        }
    }
}

/// Memory as the CPU addresses it. Both the bus and the CPU itself (which
/// forwards to its bus) implement this.
pub trait Mem {
    spec fn mem_wf(&self) -> bool;

    fn mem_read(&mut self, addr: u16) -> (r: Result<u8, EmuError>)
        requires
            old(self).mem_wf(),
        ensures
            final(self).mem_wf(),
    ;

    fn mem_write(&mut self, addr: u16, data: u8) -> (r: Result<(), EmuError>)
        requires
            old(self).mem_wf(),
        ensures
            final(self).mem_wf(),
    ;

    fn mem_read_u16(&mut self, pos: u16) -> (r: Result<u16, EmuError>)
        requires
            old(self).mem_wf(),
        ensures
            final(self).mem_wf(),
    ;

    fn mem_write_u16(&mut self, pos: u16, data: u16) -> (r: Result<(), EmuError>)
        requires
            old(self).mem_wf(),
        ensures
            final(self).mem_wf(),
    ;
}

impl Mem for Bus {
    open spec fn mem_wf(&self) -> bool {
        self.wf()
    }

    fn mem_read(&mut self, addr: u16) -> (r: Result<u8, EmuError>) {
        Bus::mem_read(self, addr)
    }

    fn mem_write(&mut self, addr: u16, data: u8) -> (r: Result<(), EmuError>) {
        Bus::mem_write(self, addr, data)
    }

    fn mem_read_u16(&mut self, pos: u16) -> (r: Result<u16, EmuError>) {
        Bus::mem_read_u16(self, pos)
    }

    fn mem_write_u16(&mut self, pos: u16, data: u16) -> (r: Result<(), EmuError>) {
        Bus::mem_write_u16(self, pos, data)
    }
}

impl Mem for CPU {
    open spec fn mem_wf(&self) -> bool {
        self.wf()
    }

    fn mem_read(&mut self, addr: u16) -> (r: Result<u8, EmuError>) {
        CPU::mem_read(self, addr)
    }

    fn mem_write(&mut self, addr: u16, data: u8) -> (r: Result<(), EmuError>) {
        CPU::mem_write(self, addr, data)
    }

    fn mem_read_u16(&mut self, pos: u16) -> (r: Result<u16, EmuError>) {
        CPU::mem_read_u16(self, pos)
    }

    fn mem_write_u16(&mut self, pos: u16, data: u16) -> (r: Result<(), EmuError>) {
        CPU::mem_write_u16(self, pos, data)
    }
}

impl CPU {
    pub open spec fn wf(&self) -> bool {
        spec_cpu_wf(self@)
    }

    /// A CPU over a blank synthetic NROM cartridge (32 KiB of zeroed
    /// PRG-ROM, zeroed CHR-ROM), for programs installed with `load`.
    pub fn new() -> (r: CPU)
        ensures
            r.wf(),
            r@.a == 0 && r@.x == 0 && r@.y == 0,
            r@.sp == STACK_RESET && r@.p == 0 && r@.pc == 0,
            forall|i: int| 0 <= i < 0x800 ==> r@.bus.ram[i] == 0,
            r@.bus.prg.len() == 0x8000,
            forall|i: int| 0 <= i < 0x8000 ==> r@.bus.prg[i] == 0,
    {
        let mut prg_rom: Vec<u8> = Vec::new();
        while prg_rom.len() < 0x8000
            invariant
                prg_rom@.len() <= 0x8000,
                forall|i: int| 0 <= i < prg_rom@.len() ==> prg_rom@[i] == 0,
            decreases 0x8000 - prg_rom@.len(),
        {
            prg_rom.push(0);
        }
        let mut chr_rom: Vec<u8> = Vec::new();
        while chr_rom.len() < 0x2000
            invariant
                chr_rom@.len() <= 0x2000,
                forall|i: int| 0 <= i < chr_rom@.len() ==> chr_rom@[i] == 0,
            decreases 0x2000 - chr_rom@.len(),
        {
            chr_rom.push(0);
        }
        let rom = Rom { prg_rom, chr_rom, mapper: 0, screen_mirroring: Mirroring::Horizontal };
        CPU {
            register_a: 0,
            register_x: 0,
            register_y: 0,
            stack_pointer: STACK_RESET,
            flags: 0,
            program_counter: 0,
            bus: Bus::new(rom),
        }
    }

    /// A CPU over a parsed iNES image, exactly as `spec_parse_rom`
    /// accepts or rejects it.
    pub fn load_rom(raw: Vec<u8>) -> (r: Result<CPU, EmuError>)
        ensures
            match r {
                Ok(cpu) => {
                    &&& cpu.wf()
                    &&& crate::cartridge::spec_parse_rom(raw@) matches Ok(rv) && cpu@.bus.prg
                        == rv.prg
                    &&& cpu@.a == 0 && cpu@.x == 0 && cpu@.y == 0
                    &&& cpu@.sp == STACK_RESET && cpu@.p == 0 && cpu@.pc == 0
                    &&& forall|i: int| 0 <= i < 0x800 ==> cpu@.bus.ram[i] == 0
                },
                Err(e) => crate::cartridge::spec_parse_rom(raw@) == Err::<
                    crate::cartridge::RomView,
                    EmuError,
                >(e),
            },
    {
        let rom = match Rom::new(&raw) {
            Ok(rom) => rom,
            Err(e) => {
                return Err(e);
            },
        };
        Ok(
            CPU {
                register_a: 0,
                register_x: 0,
                register_y: 0,
                stack_pointer: STACK_RESET,
                flags: 0,
                program_counter: 0,
                bus: Bus::new(rom),
            },
        )
    }

    /// Install a program into the synthetic cartridge: the bytes land at
    /// 0x8000, the reset vector points at 0x8000, the rest of PRG-ROM is
    /// zero. RAM and the PPU keep their contents.
    pub fn load(&mut self, program: Vec<u8>)
        requires
            old(self).wf(),
            program@.len() <= 0x7FFC,
        ensures
            final(self).wf(),
            final(self)@ == (CpuView { bus: final(self)@.bus, ..old(self)@ }),
            final(self)@.bus == (BusView { prg: spec_loaded_prg(program@), ..old(self)@.bus }),
    {
        let mut prg: Vec<u8> = Vec::new();
        let mut i: usize = 0;
        while i < program.len()
            invariant
                i == prg@.len(),
                i <= program@.len() <= 0x7FFC,
                forall|j: int| 0 <= j < i ==> prg@[j] == program@[j],
            decreases program@.len() - i,
        {
            prg.push(program[i]);
            i = i + 1;
        }
        while prg.len() < 0x8000
            invariant
                program@.len() <= prg@.len() <= 0x8000,
                forall|j: int| 0 <= j < program@.len() ==> prg@[j] == program@[j],
                forall|j: int| program@.len() <= j < prg@.len() ==> prg@[j] == 0,
            decreases 0x8000 - prg@.len(),
        {
            prg.push(0);
        }
        prg[0x7FFC] = 0x00;
        prg[0x7FFD] = 0x80;
        proof {
            assert(prg@ =~= spec_loaded_prg(program@));
        }
        self.bus.load_prg(prg);
    }

    /// Reset: registers cleared, SP at 0xFD, P holding I and U, and the
    /// program counter fetched from the reset vector at 0xFFFC.
    pub fn reset(&mut self)
        requires
            old(self).wf(),
        ensures
            final(self).wf(),
            final(self)@ == (CpuView {
                a: 0,
                x: 0,
                y: 0,
                sp: STACK_RESET,
                p: INTERRUPT_DISABLE | BREAK_2,
                pc: (spec_bus_peek(old(self)@.bus, 0xFFFC) + spec_bus_peek(
                    old(self)@.bus,
                    0xFFFD,
                ) * 256) as u16,
                bus: old(self)@.bus,
            }),
    {
        self.register_a = 0;
        self.register_x = 0;
        self.register_y = 0;
        self.stack_pointer = STACK_RESET;
        self.flags = INTERRUPT_DISABLE | BREAK_2;
        let lo = self.bus.peek(0xFFFC);
        let hi = self.bus.peek(0xFFFD);
        self.program_counter = (lo as u16) + (hi as u16) * 256;
    }

    /// Forward one read to the bus.
    pub fn mem_read(&mut self, addr: u16) -> (r: Result<u8, EmuError>)
        requires
            old(self).wf(),
        ensures
            final(self).wf(),
            final(self)@ == (CpuView { bus: final(self)@.bus, ..old(self)@ }),
            match r {
                Ok(v) => spec_bus_read(old(self)@.bus, addr) == Ok::<(BusView, u8), EmuError>((
                    final(self)@.bus,
                    v,
                )),
                Err(e) => spec_bus_read(old(self)@.bus, addr) == Err::<(BusView, u8), EmuError>(e),
            },
    {
        self.bus.mem_read(addr)
    }

    /// Forward one write to the bus.
    pub fn mem_write(&mut self, addr: u16, data: u8) -> (r: Result<(), EmuError>)
        requires
            old(self).wf(),
        ensures
            final(self).wf(),
            final(self)@ == (CpuView { bus: final(self)@.bus, ..old(self)@ }),
            match r {
                Ok(()) => spec_bus_write(old(self)@.bus, addr, data) == Ok::<BusView, EmuError>(
                    final(self)@.bus,
                ),
                Err(e) => spec_bus_write(old(self)@.bus, addr, data) == Err::<BusView, EmuError>(
                    e,
                ),
            },
    {
        self.bus.mem_write(addr, data)
    }

    /// Forward one little-endian 16-bit read to the bus.
    pub fn mem_read_u16(&mut self, pos: u16) -> (r: Result<u16, EmuError>)
        requires
            old(self).wf(),
        ensures
            final(self).wf(),
            final(self)@ == (CpuView { bus: final(self)@.bus, ..old(self)@ }),
            match r {
                Ok(v) => spec_bus_read16(old(self)@.bus, pos) == Ok::<(BusView, u16), EmuError>((
                    final(self)@.bus,
                    v,
                )),
                Err(e) => spec_bus_read16(old(self)@.bus, pos) == Err::<(BusView, u16), EmuError>(
                    e,
                ),
            },
    {
        self.bus.mem_read_u16(pos)
    }

    /// Forward one little-endian 16-bit write to the bus.
    pub fn mem_write_u16(&mut self, pos: u16, data: u16) -> (r: Result<(), EmuError>)
        requires
            old(self).wf(),
        ensures
            final(self).wf(),
            final(self)@ == (CpuView { bus: final(self)@.bus, ..old(self)@ }),
            match r {
                Ok(()) => spec_bus_write16(old(self)@.bus, pos, data) == Ok::<BusView, EmuError>(
                    final(self)@.bus,
                ),
                Err(e) => spec_bus_write16(old(self)@.bus, pos, data) == Err::<BusView, EmuError>(
                    e,
                ),
            },
    {
        self.bus.mem_write_u16(pos, data)
    }

    /// Whether every flag in `flag` is clear or any is set.
    pub fn check_flag(&self, flag: u8) -> (r: bool)
        ensures
            r == (self@.p & flag != 0),
    {
        self.flags & flag != 0
    }

    fn set_flag(&mut self, flag: u8)
        ensures
            final(self)@ == (CpuView { p: old(self)@.p | flag, ..old(self)@ }),
    {
        self.flags = self.flags | flag;
    }

    fn remove_flag(&mut self, flag: u8)
        ensures
            final(self)@ == (CpuView { p: old(self)@.p & !flag, ..old(self)@ }),
    {
        self.flags = self.flags & !flag;
    }

    fn get_carry(&self) -> (r: u8)
        ensures
            r == spec_carry(self@.p),
    {
        if self.flags & CARRY_FLAG != 0 {
            1
        } else {
            0
        }
    }

    fn update_neg_and_zero_status(&mut self, value: u8)
        ensures
            final(self)@ == (CpuView { p: spec_zn(old(self)@.p, value), ..old(self)@ }),
    {
        if value == 0 {
            self.flags = self.flags | constants::ZERO_FLAG;
        } else {
            self.flags = self.flags & !constants::ZERO_FLAG;
        }
        if value & constants::NEGATIVE_FLAG != 0 {
            self.flags = self.flags | constants::NEGATIVE_FLAG;
        } else {
            self.flags = self.flags & !constants::NEGATIVE_FLAG;
        }
    }

    /// Push one byte, exactly as `spec_push` says.
    pub fn push(&mut self, data: u8) -> (r: Result<(), EmuError>)
        requires
            old(self).wf(),
        ensures
            final(self).wf(),
            match r {
                Ok(()) => spec_push(old(self)@, data) == Ok::<CpuView, EmuError>(final(self)@),
                Err(e) => spec_push(old(self)@, data) == Err::<CpuView, EmuError>(e) && final(self)@ == old(self)@,
            },
    {
        proof {
            reveal(crate::bus::spec_bus_write);
        }
        if self.stack_pointer == 0 {
            return Err(EmuError::StackOverflow);
        }
        let stack_top: u16 = 0x100 + self.stack_pointer as u16;
        self.stack_pointer = self.stack_pointer - 1;
        match self.bus.mem_write(stack_top, data) {
            Ok(()) => Ok(()),
            Err(e) => Err(e),
        }
    }

    /// Pop one byte, exactly as `spec_pop` says.
    pub fn pop(&mut self) -> (r: Result<u8, EmuError>)
        requires
            old(self).wf(),
        ensures
            final(self).wf(),
            match r {
                Ok(v) => spec_pop(old(self)@) == Ok::<(CpuView, u8), EmuError>((final(self)@, v)),
                Err(e) => spec_pop(old(self)@) == Err::<(CpuView, u8), EmuError>(e) && final(self)@ == old(self)@,
            },
    {
        proof {
            reveal(crate::bus::spec_bus_read);
        }
        if self.stack_pointer == 0xFF {
            return Err(EmuError::StackUnderflow);
        }
        let stack_top: u16 = 0x100 + self.stack_pointer as u16 + 1;
        self.stack_pointer = self.stack_pointer + 1;
        match self.bus.mem_read(stack_top) {
            Ok(v) => Ok(v),
            Err(e) => Err(e),
        }
    }

    /// Push a 16-bit value, high byte first, exactly as `spec_push16`.
    pub fn push_u16(&mut self, data: u16) -> (r: Result<(), EmuError>)
        requires
            old(self).wf(),
        ensures
            final(self).wf(),
            match r {
                Ok(()) => spec_push16(old(self)@, data) == Ok::<CpuView, EmuError>(final(self)@),
                Err(e) => spec_push16(old(self)@, data) == Err::<CpuView, EmuError>(e),
            },
    {
        let hi: u8 = (data / 256) as u8;
        let lo: u8 = (data % 256) as u8;
        match self.push(hi) {
            Ok(()) => (),
            Err(e) => {
                return Err(e);
            },
        }
        match self.push(lo) {
            Ok(()) => (),
            Err(e) => {
                return Err(e);
            },
        }
        Ok(())
    }

    /// Pop a 16-bit value, low byte first, exactly as `spec_pop16`.
    pub fn pop_u16(&mut self) -> (r: Result<u16, EmuError>)
        requires
            old(self).wf(),
        ensures
            final(self).wf(),
            match r {
                Ok(v) => spec_pop16(old(self)@) == Ok::<(CpuView, u16), EmuError>((
                    final(self)@,
                    v,
                )),
                Err(e) => spec_pop16(old(self)@) == Err::<(CpuView, u16), EmuError>(e),
            },
    {
        let lo = match self.pop() {
            Ok(v) => v,
            Err(e) => {
                return Err(e);
            },
        };
        let hi = match self.pop() {
            Ok(v) => v,
            Err(e) => {
                return Err(e);
            },
        };
        Ok((hi as u16) * 256 + (lo as u16))
    }

    /// The byte on top of the stack.
    pub fn get_stack_top(&mut self) -> (r: Result<u8, EmuError>)
        requires
            old(self).wf(),
        ensures
            final(self).wf(),
            final(self)@ == old(self)@,
            old(self)@.sp < 0xFF ==> r == Ok::<u8, EmuError>(
                old(self)@.bus.ram[0x100 + old(self)@.sp + 1],
            ),
    {
        proof {
            reveal(crate::bus::spec_bus_read);
        }
        self.bus.mem_read(0x100 + self.stack_pointer as u16 + 1)
    }

    /// The 16-bit value whose low byte sits just above the stack
    /// pointer, as a pushed address is laid out.
    pub fn get_stack_top_u16(&mut self) -> (r: Result<u16, EmuError>)
        requires
            old(self).wf(),
        ensures
            final(self).wf(),
            final(self)@ == old(self)@,
            old(self)@.sp < 0xFE ==> r == Ok::<u16, EmuError>(
                (old(self)@.bus.ram[0x100 + old(self)@.sp + 1]
                    + old(self)@.bus.ram[0x100 + old(self)@.sp + 2] * 256) as u16,
            ),
    {
        proof {
            reveal(crate::bus::spec_bus_read);
            reveal(crate::bus::spec_bus_read16);
        }
        self.bus.mem_read_u16(0x100 + self.stack_pointer as u16 + 1)
    }

    /// The contract every addressing-mode helper meets for its mode:
    /// registers stay untouched, the bus may change through the reads
    /// resolution performs, and the outcome is `spec_operand_addr`'s.
    pub open spec fn operand_addr_post(
        pre: CpuView,
        post: CpuView,
        mode: AddressingMode,
        r: Result<u16, EmuError>,
    ) -> bool {
        &&& spec_cpu_wf(post)
        &&& post == (CpuView { bus: post.bus, ..pre })
        &&& match r {
            Ok(addr) => spec_operand_addr(pre, mode) == Ok::<(BusView, u16), EmuError>(
                (post.bus, addr),
            ),
            Err(e) => spec_operand_addr(pre, mode) == Err::<(BusView, u16), EmuError>(e),
        }
    }

    #[verifier::rlimit(100)]
    fn addr_zero_page(&mut self, reg: u8, mode: AddressingMode) -> (r: Result<u16, EmuError>)
        requires
            old(self).wf(),
            mode == AddressingMode::ZeroPage || mode == AddressingMode::ZeroPage_X || mode
                == AddressingMode::ZeroPage_Y,
            mode == AddressingMode::ZeroPage ==> reg == 0,
            mode == AddressingMode::ZeroPage_X ==> reg == old(self)@.x,
            mode == AddressingMode::ZeroPage_Y ==> reg == old(self)@.y,
        ensures
            Self::operand_addr_post(old(self)@, final(self)@, mode, r),
    {
        let v = match self.mem_read(self.program_counter) {
            Ok(v) => v,
            Err(e) => {
                return Err(e);
            },
        };
        Ok(v.wrapping_add(reg) as u16)
    }

    #[verifier::rlimit(100)]
    fn addr_absolute(&mut self, reg: u8, mode: AddressingMode) -> (r: Result<u16, EmuError>)
        requires
            old(self).wf(),
            mode == AddressingMode::Absolute || mode == AddressingMode::Absolute_X || mode
                == AddressingMode::Absolute_Y,
            mode == AddressingMode::Absolute ==> reg == 0,
            mode == AddressingMode::Absolute_X ==> reg == old(self)@.x,
            mode == AddressingMode::Absolute_Y ==> reg == old(self)@.y,
        ensures
            Self::operand_addr_post(old(self)@, final(self)@, mode, r),
    {
        let base = match self.mem_read_u16(self.program_counter) {
            Ok(v) => v,
            Err(e) => {
                return Err(e);
            },
        };
        Ok(base.wrapping_add(reg as u16))
    }

    #[verifier::rlimit(100)]
    fn addr_indirect(&mut self) -> (r: Result<u16, EmuError>)
        requires
            old(self).wf(),
        ensures
            Self::operand_addr_post(old(self)@, final(self)@, AddressingMode::Indirect, r),
    {
        let ptr = match self.mem_read_u16(self.program_counter) {
            Ok(v) => v,
            Err(e) => {
                return Err(e);
            },
        };
        let hi_addr: u16 = if ptr % 256 == 0xFF {
            ptr - 0xFF
        } else {
            ptr + 1
        };
        let lo = match self.mem_read(ptr) {
            Ok(v) => v,
            Err(e) => {
                return Err(e);
            },
        };
        let hi = match self.mem_read(hi_addr) {
            Ok(v) => v,
            Err(e) => {
                return Err(e);
            },
        };
        Ok((hi as u16) * 256 + (lo as u16))
    }

    #[verifier::rlimit(100)]
    fn addr_indirect_x(&mut self) -> (r: Result<u16, EmuError>)
        requires
            old(self).wf(),
        ensures
            Self::operand_addr_post(old(self)@, final(self)@, AddressingMode::Indirect_X, r),
    {
        let base = match self.mem_read(self.program_counter) {
            Ok(v) => v,
            Err(e) => {
                return Err(e);
            },
        };
        let ptr: u8 = base.wrapping_add(self.register_x);
        let lo = match self.mem_read(ptr as u16) {
            Ok(v) => v,
            Err(e) => {
                return Err(e);
            },
        };
        let hi = match self.mem_read(ptr.wrapping_add(1) as u16) {
            Ok(v) => v,
            Err(e) => {
                return Err(e);
            },
        };
        Ok((hi as u16) * 256 + (lo as u16))
    }

    #[verifier::rlimit(100)]
    fn addr_indirect_y(&mut self) -> (r: Result<u16, EmuError>)
        requires
            old(self).wf(),
        ensures
            Self::operand_addr_post(old(self)@, final(self)@, AddressingMode::Indirect_Y, r),
    {
        let base = match self.mem_read(self.program_counter) {
            Ok(v) => v,
            Err(e) => {
                return Err(e);
            },
        };
        let lo = match self.mem_read(base as u16) {
            Ok(v) => v,
            Err(e) => {
                return Err(e);
            },
        };
        let hi = match self.mem_read(base.wrapping_add(1) as u16) {
            Ok(v) => v,
            Err(e) => {
                return Err(e);
            },
        };
        let ptr = (hi as u16) * 256 + (lo as u16);
        Ok(ptr.wrapping_add(self.register_y as u16))
    }

    /// Resolve an addressing mode against the program counter, exactly
    /// as `spec_operand_addr` says. Registers stay untouched; the bus
    /// may change through the reads resolution performs.
    fn get_operand_address(&mut self, mode: AddressingMode) -> (r: Result<u16, EmuError>)
        requires
            old(self).wf(),
        ensures
            Self::operand_addr_post(old(self)@, final(self)@, mode, r),
    {
        match mode {
            AddressingMode::Immediate => Ok(self.program_counter),
            AddressingMode::ZeroPage => self.addr_zero_page(0, mode),
            AddressingMode::ZeroPage_X => {
                let reg = self.register_x;
                self.addr_zero_page(reg, mode)
            },
            AddressingMode::ZeroPage_Y => {
                let reg = self.register_y;
                self.addr_zero_page(reg, mode)
            },
            AddressingMode::Absolute => self.addr_absolute(0, mode),
            AddressingMode::Absolute_X => {
                let reg = self.register_x;
                self.addr_absolute(reg, mode)
            },
            AddressingMode::Absolute_Y => {
                let reg = self.register_y;
                self.addr_absolute(reg, mode)
            },
            AddressingMode::Indirect => self.addr_indirect(),
            AddressingMode::Indirect_X => self.addr_indirect_x(),
            AddressingMode::Indirect_Y => self.addr_indirect_y(),
            AddressingMode::Relative => Ok(self.program_counter),
            AddressingMode::Accumulator => Ok(self.program_counter),
            AddressingMode::Implied => Ok(self.program_counter),
            AddressingMode::NoneAddressing => Ok(self.program_counter),
        }
    }

    /// Resolve the operand address and read the operand byte, exactly as
    /// `spec_operand_value` says.
    fn operand_value(&mut self, mode: AddressingMode) -> (r: Result<(u16, u8), EmuError>)
        requires
            old(self).wf(),
        ensures
            final(self).wf(),
            final(self)@ == (CpuView { bus: final(self)@.bus, ..old(self)@ }),
            match r {
                Ok((addr, v)) => spec_operand_value(old(self)@, mode) == Ok::<
                    (BusView, u16, u8),
                    EmuError,
                >((final(self)@.bus, addr, v)),
                Err(e) => spec_operand_value(old(self)@, mode) == Err::<
                    (BusView, u16, u8),
                    EmuError,
                >(e),
            },
    {
        let addr = match self.get_operand_address(mode) {
            Ok(a) => a,
            Err(e) => {
                return Err(e);
            },
        };
        let v = match self.mem_read(addr) {
            Ok(v) => v,
            Err(e) => {
                return Err(e);
            },
        };
        Ok((addr, v))
    }
}

} // verus!

verus! {

/// What one call of `step` reports: the machine ran one instruction, or
/// it halted on BRK.
#[derive(Clone, Copy, Debug, PartialEq, Eq, Structural)]
pub enum StepStatus {
    Running,
    Halted,
}

/// The PRG-ROM image that `load` installs: the program at the start,
/// the reset vector at 0xFFFC pointing at 0x8000, zero elsewhere.
pub open spec fn spec_loaded_prg(program: Seq<u8>) -> Seq<u8> {
    Seq::new(
        0x8000,
        |i: int|
            if i < program.len() {
                program[i]
            } else if i == 0x7FFD {
                0x80
            } else {
                0
            },
    )
}

/// The mnemonics `dispatch` handles.
pub open spec fn dispatch_handles(m: Mnemonic) -> bool {
    match m {
        Mnemonic::Brk
        | Mnemonic::Adc
        | Mnemonic::And
        | Mnemonic::Asl
        | Mnemonic::Bcc
        | Mnemonic::Bcs
        | Mnemonic::Beq
        | Mnemonic::Bit
        | Mnemonic::Bmi
        | Mnemonic::Bne
        | Mnemonic::Bpl
        | Mnemonic::Bvc
        | Mnemonic::Bvs
        | Mnemonic::Clc
        | Mnemonic::Cld
        | Mnemonic::Cli
        | Mnemonic::Clv
        | Mnemonic::Cmp
        | Mnemonic::Cpx => true,
        _ => false,
    }
}

/// The mnemonics the `dispatch_b` chain (through `dispatch_b2`)
/// covers as a whole.
pub open spec fn dispatch_b_handles(m: Mnemonic) -> bool {
    match m {
        Mnemonic::Cpy
        | Mnemonic::Dec
        | Mnemonic::Dex
        | Mnemonic::Dey
        | Mnemonic::Eor
        | Mnemonic::Inc
        | Mnemonic::Inx
        | Mnemonic::Iny
        | Mnemonic::Jmp
        | Mnemonic::Jsr
        | Mnemonic::Lda
        | Mnemonic::Ldx
        | Mnemonic::Ldy
        | Mnemonic::Lsr
        | Mnemonic::Nop
        | Mnemonic::Ora
        | Mnemonic::Pha
        | Mnemonic::Php
        | Mnemonic::Pla => true,
        _ => false,
    }
}

/// The mnemonics `dispatch_c` handles.
pub open spec fn dispatch_c_handles(m: Mnemonic) -> bool {
    match m {
        Mnemonic::Plp
        | Mnemonic::Rol
        | Mnemonic::Ror
        | Mnemonic::Rti
        | Mnemonic::Rts
        | Mnemonic::Sbc
        | Mnemonic::Sec
        | Mnemonic::Sed
        | Mnemonic::Sei
        | Mnemonic::Sta
        | Mnemonic::Stx
        | Mnemonic::Sty
        | Mnemonic::Tax
        | Mnemonic::Tay
        | Mnemonic::Tsx
        | Mnemonic::Txa
        | Mnemonic::Txs
        | Mnemonic::Tya => true,
        _ => false,
    }
}

/// The mnemonics `dispatch_b` and `dispatch_b1x` together cover.
pub open spec fn dispatch_b1_handles(m: Mnemonic) -> bool {
    match m {
        Mnemonic::Cpy
        | Mnemonic::Dec
        | Mnemonic::Dex
        | Mnemonic::Dey
        | Mnemonic::Eor
        | Mnemonic::Inc
        | Mnemonic::Inx
        | Mnemonic::Iny
        | Mnemonic::Jmp
        | Mnemonic::Jsr => true,
        _ => false,
    }
}

/// The mnemonics `dispatch_unofficial` itself covers.
pub open spec fn dispatch_u_handles(m: Mnemonic) -> bool {
    match m {
        Mnemonic::Aac
        | Mnemonic::Aax
        | Mnemonic::Arr
        | Mnemonic::Asr
        | Mnemonic::Atx
        | Mnemonic::Axa
        | Mnemonic::Axs
        | Mnemonic::Dcp
        | Mnemonic::Dop
        | Mnemonic::Isb
        | Mnemonic::Lar => true,
        _ => false,
    }
}

/// The mnemonics `dispatch_b` itself covers.
pub open spec fn dispatch_b_first_handles(m: Mnemonic) -> bool {
    match m {
        Mnemonic::Cpy
        | Mnemonic::Dec
        | Mnemonic::Dex
        | Mnemonic::Dey
        | Mnemonic::Eor => true,
        _ => false,
    }
}

impl CPU {
    /// Execute one decoded instruction, exactly as `spec_exec_instr`
    /// dispatches it. The dispatch is chained through helpers, each
    /// covering part of the mnemonic set.
    #[verifier::rlimit(100)]
    fn dispatch(&mut self, op: Opcode) -> (r: Result<(), EmuError>)
        requires
            old(self).wf(),
        ensures
            spec_sem_post(spec_exec_instr(old(self)@, op), final(self)@, r),
    {
        match op.mnemonic {
            Mnemonic::Brk => {
                proof {
                    assert(spec_exec_instr(old(self)@, op) == Ok::<CpuView, EmuError>(old(self)@)) by {
                        reveal(crate::cpu::semantics::spec_exec_instr);
                    }
                }
                Ok(())
            },
            Mnemonic::Adc => {
                proof {
                    assert(spec_exec_instr(old(self)@, op) == spec_adc(old(self)@, op.mode)) by {
                        reveal(crate::cpu::semantics::spec_exec_instr);
                    }
                }
                self.adc(op.mode)
            },
            Mnemonic::And => {
                proof {
                    assert(spec_exec_instr(old(self)@, op) == spec_and(old(self)@, op.mode)) by {
                        reveal(crate::cpu::semantics::spec_exec_instr);
                    }
                }
                self.and(op.mode)
            },
            Mnemonic::Asl => {
                proof {
                    assert(spec_exec_instr(old(self)@, op) == spec_asl(old(self)@, op.mode)) by {
                        reveal(crate::cpu::semantics::spec_exec_instr);
                    }
                }
                self.asl(op.mode)
            },
            Mnemonic::Bcc => {
                proof {
                    assert(spec_exec_instr(old(self)@, op) == spec_branch(old(self)@, old(self)@.p & CARRY_FLAG == 0)) by {
                        reveal(crate::cpu::semantics::spec_exec_instr);
                    }
                }
                let c = self.check_flag(CARRY_FLAG);
                self.branch(!c)
            },
            Mnemonic::Bcs => {
                proof {
                    assert(spec_exec_instr(old(self)@, op) == spec_branch(old(self)@, old(self)@.p & CARRY_FLAG != 0)) by {
                        reveal(crate::cpu::semantics::spec_exec_instr);
                    }
                }
                let c = self.check_flag(CARRY_FLAG);
                self.branch(c)
            },
            Mnemonic::Beq => {
                proof {
                    assert(spec_exec_instr(old(self)@, op) == spec_branch(old(self)@, old(self)@.p & ZERO_FLAG != 0)) by {
                        reveal(crate::cpu::semantics::spec_exec_instr);
                    }
                }
                let c = self.check_flag(ZERO_FLAG);
                self.branch(c)
            },
            Mnemonic::Bit => {
                proof {
                    assert(spec_exec_instr(old(self)@, op) == spec_bit(old(self)@, op.mode)) by {
                        reveal(crate::cpu::semantics::spec_exec_instr);
                    }
                }
                self.bit(op.mode)
            },
            Mnemonic::Bmi => {
                proof {
                    assert(spec_exec_instr(old(self)@, op) == spec_branch(old(self)@, old(self)@.p & NEGATIVE_FLAG != 0)) by {
                        reveal(crate::cpu::semantics::spec_exec_instr);
                    }
                }
                let c = self.check_flag(NEGATIVE_FLAG);
                self.branch(c)
            },
            Mnemonic::Bne => {
                proof {
                    assert(spec_exec_instr(old(self)@, op) == spec_branch(old(self)@, old(self)@.p & ZERO_FLAG == 0)) by {
                        reveal(crate::cpu::semantics::spec_exec_instr);
                    }
                }
                let c = self.check_flag(ZERO_FLAG);
                self.branch(!c)
            },
            Mnemonic::Bpl => {
                proof {
                    assert(spec_exec_instr(old(self)@, op) == spec_branch(old(self)@, old(self)@.p & NEGATIVE_FLAG == 0)) by {
                        reveal(crate::cpu::semantics::spec_exec_instr);
                    }
                }
                let c = self.check_flag(NEGATIVE_FLAG);
                self.branch(!c)
            },
            Mnemonic::Bvc => {
                proof {
                    assert(spec_exec_instr(old(self)@, op) == spec_branch(old(self)@, old(self)@.p & OVERFLOW_FLAG == 0)) by {
                        reveal(crate::cpu::semantics::spec_exec_instr);
                    }
                }
                let c = self.check_flag(OVERFLOW_FLAG);
                self.branch(!c)
            },
            Mnemonic::Bvs => {
                proof {
                    assert(spec_exec_instr(old(self)@, op) == spec_branch(old(self)@, old(self)@.p & OVERFLOW_FLAG != 0)) by {
                        reveal(crate::cpu::semantics::spec_exec_instr);
                    }
                }
                let c = self.check_flag(OVERFLOW_FLAG);
                self.branch(c)
            },
            Mnemonic::Clc => {
                proof {
                    assert(spec_exec_instr(old(self)@, op) == Ok::<CpuView, EmuError>(CpuView { p: old(self)@.p & !CARRY_FLAG, ..old(self)@ })) by {
                        reveal(crate::cpu::semantics::spec_exec_instr);
                    }
                }
                self.remove_flag(CARRY_FLAG);
                Ok(())
            },
            Mnemonic::Cld => {
                proof {
                    assert(spec_exec_instr(old(self)@, op) == Ok::<CpuView, EmuError>(CpuView { p: old(self)@.p & !DECIMAL_MODE, ..old(self)@ })) by {
                        reveal(crate::cpu::semantics::spec_exec_instr);
                    }
                }
                self.remove_flag(DECIMAL_MODE);
                Ok(())
            },
            Mnemonic::Cli => {
                proof {
                    assert(spec_exec_instr(old(self)@, op) == Ok::<CpuView, EmuError>(CpuView { p: old(self)@.p & !INTERRUPT_DISABLE, ..old(self)@ })) by {
                        reveal(crate::cpu::semantics::spec_exec_instr);
                    }
                }
                self.remove_flag(INTERRUPT_DISABLE);
                Ok(())
            },
            Mnemonic::Clv => {
                proof {
                    assert(spec_exec_instr(old(self)@, op) == Ok::<CpuView, EmuError>(CpuView { p: old(self)@.p & !OVERFLOW_FLAG, ..old(self)@ })) by {
                        reveal(crate::cpu::semantics::spec_exec_instr);
                    }
                }
                self.remove_flag(OVERFLOW_FLAG);
                Ok(())
            },
            Mnemonic::Cmp => {
                proof {
                    assert(spec_exec_instr(old(self)@, op) == spec_compare(old(self)@, op.mode, old(self)@.a)) by {
                        reveal(crate::cpu::semantics::spec_exec_instr);
                    }
                }
                let v = self.register_a;
                self.compare(op.mode, v)
            },
            Mnemonic::Cpx => {
                proof {
                    assert(spec_exec_instr(old(self)@, op) == spec_compare(old(self)@, op.mode, old(self)@.x)) by {
                        reveal(crate::cpu::semantics::spec_exec_instr);
                    }
                }
                let v = self.register_x;
                self.compare(op.mode, v)
            },
            _ => self.dispatch_b(op),
        }
    }

    /// The second part of the dispatch chain.
    /// The second part of the dispatch chain.
    #[verifier::rlimit(100)]
    fn dispatch_b(&mut self, op: Opcode) -> (r: Result<(), EmuError>)
        requires
            old(self).wf(),
            !dispatch_handles(op.mnemonic),
        ensures
            spec_sem_post(spec_exec_instr(old(self)@, op), final(self)@, r),
    {
        match op.mnemonic {
            Mnemonic::Cpy => {
                proof {
                    assert(spec_exec_instr(old(self)@, op) == spec_compare(old(self)@, op.mode, old(self)@.y)) by {
                        reveal(crate::cpu::semantics::spec_exec_instr);
                    }
                }
                let v = self.register_y;
                self.compare(op.mode, v)
            },
            Mnemonic::Dec => {
                proof {
                    assert(spec_exec_instr(old(self)@, op) == spec_dec(old(self)@, op.mode)) by {
                        reveal(crate::cpu::semantics::spec_exec_instr);
                    }
                }
                self.dec(op.mode)
            },
            Mnemonic::Dex => {
                proof {
                    assert(spec_exec_instr(old(self)@, op) == Ok::<CpuView, EmuError>(CpuView { x: spec_wrap8(old(self)@.x - 1), p: spec_zn(old(self)@.p, spec_wrap8(old(self)@.x - 1)), ..old(self)@ })) by {
                        reveal(crate::cpu::semantics::spec_exec_instr);
                    }
                }
                self.register_x = self.register_x.wrapping_sub(1);
                let v = self.register_x;
                self.update_neg_and_zero_status(v);
                Ok(())
            },
            Mnemonic::Dey => {
                proof {
                    assert(spec_exec_instr(old(self)@, op) == Ok::<CpuView, EmuError>(CpuView { y: spec_wrap8(old(self)@.y - 1), p: spec_zn(old(self)@.p, spec_wrap8(old(self)@.y - 1)), ..old(self)@ })) by {
                        reveal(crate::cpu::semantics::spec_exec_instr);
                    }
                }
                self.register_y = self.register_y.wrapping_sub(1);
                let v = self.register_y;
                self.update_neg_and_zero_status(v);
                Ok(())
            },
            Mnemonic::Eor => {
                proof {
                    assert(spec_exec_instr(old(self)@, op) == spec_eor(old(self)@, op.mode)) by {
                        reveal(crate::cpu::semantics::spec_exec_instr);
                    }
                }
                self.eor(op.mode)
            },
            _ => self.dispatch_b1x(op),
        }
    }

    /// The continuation of `dispatch_b`.
    #[verifier::rlimit(100)]
    fn dispatch_b1x(&mut self, op: Opcode) -> (r: Result<(), EmuError>)
        requires
            old(self).wf(),
            !dispatch_handles(op.mnemonic),
            !dispatch_b_first_handles(op.mnemonic),
        ensures
            spec_sem_post(spec_exec_instr(old(self)@, op), final(self)@, r),
    {
        match op.mnemonic {
            Mnemonic::Inc => {
                proof {
                    assert(spec_exec_instr(old(self)@, op) == spec_inc(old(self)@, op.mode)) by {
                        reveal(crate::cpu::semantics::spec_exec_instr);
                    }
                }
                self.inc(op.mode)
            },
            Mnemonic::Inx => {
                proof {
                    assert(spec_exec_instr(old(self)@, op) == Ok::<CpuView, EmuError>(CpuView { x: spec_wrap8(old(self)@.x + 1), p: spec_zn(old(self)@.p, spec_wrap8(old(self)@.x + 1)), ..old(self)@ })) by {
                        reveal(crate::cpu::semantics::spec_exec_instr);
                    }
                }
                self.register_x = self.register_x.wrapping_add(1);
                let v = self.register_x;
                self.update_neg_and_zero_status(v);
                Ok(())
            },
            Mnemonic::Iny => {
                proof {
                    assert(spec_exec_instr(old(self)@, op) == Ok::<CpuView, EmuError>(CpuView { y: spec_wrap8(old(self)@.y + 1), p: spec_zn(old(self)@.p, spec_wrap8(old(self)@.y + 1)), ..old(self)@ })) by {
                        reveal(crate::cpu::semantics::spec_exec_instr);
                    }
                }
                self.register_y = self.register_y.wrapping_add(1);
                let v = self.register_y;
                self.update_neg_and_zero_status(v);
                Ok(())
            },
            Mnemonic::Jmp => {
                proof {
                    assert(spec_exec_instr(old(self)@, op) == spec_jmp(old(self)@, op.mode)) by {
                        reveal(crate::cpu::semantics::spec_exec_instr);
                    }
                }
                self.jmp(op.mode)
            },
            Mnemonic::Jsr => {
                proof {
                    assert(spec_exec_instr(old(self)@, op) == spec_jsr(old(self)@, op.mode)) by {
                        reveal(crate::cpu::semantics::spec_exec_instr);
                    }
                }
                self.jsr(op.mode)
            },
            _ => self.dispatch_b2(op),
        }
    }

    /// The third part of the dispatch chain.
    #[verifier::rlimit(100)]
    fn dispatch_b2(&mut self, op: Opcode) -> (r: Result<(), EmuError>)
        requires
            old(self).wf(),
            !dispatch_handles(op.mnemonic),
            !dispatch_b1_handles(op.mnemonic),
        ensures
            spec_sem_post(spec_exec_instr(old(self)@, op), final(self)@, r),
    {
        match op.mnemonic {
            Mnemonic::Lda => {
                proof {
                    assert(spec_exec_instr(old(self)@, op) == spec_lda(old(self)@, op.mode)) by {
                        reveal(crate::cpu::semantics::spec_exec_instr);
                    }
                }
                self.lda(op.mode)
            },
            Mnemonic::Ldx => {
                proof {
                    assert(spec_exec_instr(old(self)@, op) == spec_ldx(old(self)@, op.mode)) by {
                        reveal(crate::cpu::semantics::spec_exec_instr);
                    }
                }
                self.ldx(op.mode)
            },
            Mnemonic::Ldy => {
                proof {
                    assert(spec_exec_instr(old(self)@, op) == spec_ldy(old(self)@, op.mode)) by {
                        reveal(crate::cpu::semantics::spec_exec_instr);
                    }
                }
                self.ldy(op.mode)
            },
            Mnemonic::Lsr => {
                proof {
                    assert(spec_exec_instr(old(self)@, op) == spec_lsr(old(self)@, op.mode)) by {
                        reveal(crate::cpu::semantics::spec_exec_instr);
                    }
                }
                self.lsr(op.mode)
            },
            Mnemonic::Nop => {
                proof {
                    assert(spec_exec_instr(old(self)@, op) == Ok::<CpuView, EmuError>(old(self)@)) by {
                        reveal(crate::cpu::semantics::spec_exec_instr);
                    }
                }
                Ok(())
            },
            Mnemonic::Ora => {
                proof {
                    assert(spec_exec_instr(old(self)@, op) == spec_ora(old(self)@, op.mode)) by {
                        reveal(crate::cpu::semantics::spec_exec_instr);
                    }
                }
                self.ora(op.mode)
            },
            Mnemonic::Pha => {
                proof {
                    assert(spec_exec_instr(old(self)@, op) == spec_pha(old(self)@)) by {
                        reveal(crate::cpu::semantics::spec_exec_instr);
                    }
                }
                self.pha()
            },
            Mnemonic::Php => {
                proof {
                    assert(spec_exec_instr(old(self)@, op) == spec_php(old(self)@)) by {
                        reveal(crate::cpu::semantics::spec_exec_instr);
                    }
                }
                self.php()
            },
            Mnemonic::Pla => {
                proof {
                    assert(spec_exec_instr(old(self)@, op) == spec_pla(old(self)@)) by {
                        reveal(crate::cpu::semantics::spec_exec_instr);
                    }
                }
                self.pla()
            },
            _ => self.dispatch_c(op),
        }
    }

    /// The third part of the dispatch chain.
    #[verifier::rlimit(100)]
    fn dispatch_c(&mut self, op: Opcode) -> (r: Result<(), EmuError>)
        requires
            old(self).wf(),
            !dispatch_handles(op.mnemonic),
            !dispatch_b_handles(op.mnemonic),
        ensures
            spec_sem_post(spec_exec_instr(old(self)@, op), final(self)@, r),
    {
        match op.mnemonic {
            Mnemonic::Plp => {
                proof {
                    assert(spec_exec_instr(old(self)@, op) == spec_plp(old(self)@)) by {
                        reveal(crate::cpu::semantics::spec_exec_instr);
                    }
                }
                self.plp()
            },
            Mnemonic::Rol => {
                proof {
                    assert(spec_exec_instr(old(self)@, op) == spec_rol(old(self)@, op.mode)) by {
                        reveal(crate::cpu::semantics::spec_exec_instr);
                    }
                }
                self.rol(op.mode)
            },
            Mnemonic::Ror => {
                proof {
                    assert(spec_exec_instr(old(self)@, op) == spec_ror(old(self)@, op.mode)) by {
                        reveal(crate::cpu::semantics::spec_exec_instr);
                    }
                }
                self.ror(op.mode)
            },
            Mnemonic::Rti => {
                proof {
                    assert(spec_exec_instr(old(self)@, op) == spec_rti(old(self)@)) by {
                        reveal(crate::cpu::semantics::spec_exec_instr);
                    }
                }
                self.rti()
            },
            Mnemonic::Rts => {
                proof {
                    assert(spec_exec_instr(old(self)@, op) == spec_rts(old(self)@)) by {
                        reveal(crate::cpu::semantics::spec_exec_instr);
                    }
                }
                self.rts()
            },
            Mnemonic::Sbc => {
                proof {
                    assert(spec_exec_instr(old(self)@, op) == spec_sbc(old(self)@, op.mode)) by {
                        reveal(crate::cpu::semantics::spec_exec_instr);
                    }
                }
                self.sbc(op.mode)
            },
            Mnemonic::Sec => {
                proof {
                    assert(spec_exec_instr(old(self)@, op) == Ok::<CpuView, EmuError>(CpuView { p: old(self)@.p | CARRY_FLAG, ..old(self)@ })) by {
                        reveal(crate::cpu::semantics::spec_exec_instr);
                    }
                }
                self.set_flag(CARRY_FLAG);
                Ok(())
            },
            Mnemonic::Sed => {
                proof {
                    assert(spec_exec_instr(old(self)@, op) == Ok::<CpuView, EmuError>(CpuView { p: old(self)@.p | DECIMAL_MODE, ..old(self)@ })) by {
                        reveal(crate::cpu::semantics::spec_exec_instr);
                    }
                }
                self.set_flag(DECIMAL_MODE);
                Ok(())
            },
            Mnemonic::Sei => {
                proof {
                    assert(spec_exec_instr(old(self)@, op) == Ok::<CpuView, EmuError>(CpuView { p: old(self)@.p | INTERRUPT_DISABLE, ..old(self)@ })) by {
                        reveal(crate::cpu::semantics::spec_exec_instr);
                    }
                }
                self.set_flag(INTERRUPT_DISABLE);
                Ok(())
            },
            Mnemonic::Sta => {
                proof {
                    assert(spec_exec_instr(old(self)@, op) == spec_sta(old(self)@, op.mode)) by {
                        reveal(crate::cpu::semantics::spec_exec_instr);
                    }
                }
                self.sta(op.mode)
            },
            Mnemonic::Stx => {
                proof {
                    assert(spec_exec_instr(old(self)@, op) == spec_stx(old(self)@, op.mode)) by {
                        reveal(crate::cpu::semantics::spec_exec_instr);
                    }
                }
                self.stx(op.mode)
            },
            Mnemonic::Sty => {
                proof {
                    assert(spec_exec_instr(old(self)@, op) == spec_sty(old(self)@, op.mode)) by {
                        reveal(crate::cpu::semantics::spec_exec_instr);
                    }
                }
                self.sty(op.mode)
            },
            Mnemonic::Tax => {
                proof {
                    assert(spec_exec_instr(old(self)@, op) == Ok::<CpuView, EmuError>(CpuView { x: old(self)@.a, p: spec_zn(old(self)@.p, old(self)@.a), ..old(self)@ })) by {
                        reveal(crate::cpu::semantics::spec_exec_instr);
                    }
                }
                self.register_x = self.register_a;
                let v = self.register_x;
                self.update_neg_and_zero_status(v);
                Ok(())
            },
            Mnemonic::Tay => {
                proof {
                    assert(spec_exec_instr(old(self)@, op) == Ok::<CpuView, EmuError>(CpuView { y: old(self)@.a, p: spec_zn(old(self)@.p, old(self)@.a), ..old(self)@ })) by {
                        reveal(crate::cpu::semantics::spec_exec_instr);
                    }
                }
                self.register_y = self.register_a;
                let v = self.register_y;
                self.update_neg_and_zero_status(v);
                Ok(())
            },
            Mnemonic::Tsx => {
                proof {
                    assert(spec_exec_instr(old(self)@, op) == Ok::<CpuView, EmuError>(CpuView { x: old(self)@.sp, p: spec_zn(old(self)@.p, old(self)@.sp), ..old(self)@ })) by {
                        reveal(crate::cpu::semantics::spec_exec_instr);
                    }
                }
                self.register_x = self.stack_pointer;
                let v = self.register_x;
                self.update_neg_and_zero_status(v);
                Ok(())
            },
            Mnemonic::Txa => {
                proof {
                    assert(spec_exec_instr(old(self)@, op) == Ok::<CpuView, EmuError>(CpuView { a: old(self)@.x, p: spec_zn(old(self)@.p, old(self)@.x), ..old(self)@ })) by {
                        reveal(crate::cpu::semantics::spec_exec_instr);
                    }
                }
                self.register_a = self.register_x;
                let v = self.register_a;
                self.update_neg_and_zero_status(v);
                Ok(())
            },
            Mnemonic::Txs => {
                proof {
                    assert(spec_exec_instr(old(self)@, op) == Ok::<CpuView, EmuError>(CpuView { sp: old(self)@.x, ..old(self)@ })) by {
                        reveal(crate::cpu::semantics::spec_exec_instr);
                    }
                }
                self.stack_pointer = self.register_x;
                Ok(())
            },
            Mnemonic::Tya => {
                proof {
                    assert(spec_exec_instr(old(self)@, op) == Ok::<CpuView, EmuError>(CpuView { a: old(self)@.y, p: spec_zn(old(self)@.p, old(self)@.y), ..old(self)@ })) by {
                        reveal(crate::cpu::semantics::spec_exec_instr);
                    }
                }
                self.register_a = self.register_y;
                let v = self.register_a;
                self.update_neg_and_zero_status(v);
                Ok(())
            },
            _ => self.dispatch_unofficial(op),
        }
    }

    /// The unofficial opcodes' part of the dispatch chain.
    #[verifier::rlimit(100)]
    fn dispatch_unofficial(&mut self, op: Opcode) -> (r: Result<(), EmuError>)
        requires
            old(self).wf(),
            !dispatch_handles(op.mnemonic),
            !dispatch_b_handles(op.mnemonic),
            !dispatch_c_handles(op.mnemonic),
        ensures
            spec_sem_post(spec_exec_instr(old(self)@, op), final(self)@, r),
    {
        match op.mnemonic {
            Mnemonic::Aac => {
                proof {
                    assert(spec_exec_instr(old(self)@, op) == spec_aac(old(self)@, op.mode)) by {
                        reveal(crate::cpu::semantics::spec_exec_instr);
                    }
                }
                self.aac(op.mode)
            },
            Mnemonic::Aax => {
                proof {
                    assert(spec_exec_instr(old(self)@, op) == spec_aax(old(self)@, op.mode)) by {
                        reveal(crate::cpu::semantics::spec_exec_instr);
                    }
                }
                self.aax(op.mode)
            },
            Mnemonic::Arr => {
                proof {
                    assert(spec_exec_instr(old(self)@, op) == spec_arr(old(self)@, op.mode)) by {
                        reveal(crate::cpu::semantics::spec_exec_instr);
                    }
                }
                self.arr(op.mode)
            },
            Mnemonic::Asr => {
                proof {
                    assert(spec_exec_instr(old(self)@, op) == spec_asr(old(self)@, op.mode)) by {
                        reveal(crate::cpu::semantics::spec_exec_instr);
                    }
                }
                self.asr(op.mode)
            },
            Mnemonic::Atx => {
                proof {
                    assert(spec_exec_instr(old(self)@, op) == spec_atx(old(self)@, op.mode)) by {
                        reveal(crate::cpu::semantics::spec_exec_instr);
                    }
                }
                self.atx(op.mode)
            },
            Mnemonic::Axa => {
                proof {
                    assert(spec_exec_instr(old(self)@, op) == spec_axa(old(self)@, op.mode)) by {
                        reveal(crate::cpu::semantics::spec_exec_instr);
                    }
                }
                self.axa(op.mode)
            },
            Mnemonic::Axs => {
                proof {
                    assert(spec_exec_instr(old(self)@, op) == spec_axs(old(self)@, op.mode)) by {
                        reveal(crate::cpu::semantics::spec_exec_instr);
                    }
                }
                self.axs(op.mode)
            },
            Mnemonic::Dcp => {
                proof {
                    assert(spec_exec_instr(old(self)@, op) == spec_dcp(old(self)@, op.mode)) by {
                        reveal(crate::cpu::semantics::spec_exec_instr);
                    }
                }
                self.dcp(op.mode)
            },
            Mnemonic::Dop => {
                proof {
                    assert(spec_exec_instr(old(self)@, op) == spec_dummy_read(old(self)@, op.mode)) by {
                        reveal(crate::cpu::semantics::spec_exec_instr);
                    }
                }
                self.dummy_read(op.mode)
            },
            Mnemonic::Isb => {
                proof {
                    assert(spec_exec_instr(old(self)@, op) == spec_isb(old(self)@, op.mode)) by {
                        reveal(crate::cpu::semantics::spec_exec_instr);
                    }
                }
                self.isc(op.mode)
            },
            Mnemonic::Lar => {
                proof {
                    assert(spec_exec_instr(old(self)@, op) == spec_lar(old(self)@, op.mode)) by {
                        reveal(crate::cpu::semantics::spec_exec_instr);
                    }
                }
                self.lar(op.mode)
            },
            _ => self.dispatch_u2(op),
        }
    }

    /// The last part of the dispatch chain.
    #[verifier::rlimit(100)]
    fn dispatch_u2(&mut self, op: Opcode) -> (r: Result<(), EmuError>)
        requires
            old(self).wf(),
            !dispatch_handles(op.mnemonic),
            !dispatch_b_handles(op.mnemonic),
            !dispatch_c_handles(op.mnemonic),
            !dispatch_u_handles(op.mnemonic),
        ensures
            spec_sem_post(spec_exec_instr(old(self)@, op), final(self)@, r),
    {
        match op.mnemonic {
            Mnemonic::Lax => {
                proof {
                    assert(spec_exec_instr(old(self)@, op) == spec_lax(old(self)@, op.mode)) by {
                        reveal(crate::cpu::semantics::spec_exec_instr);
                    }
                }
                self.lax(op.mode)
            },
            Mnemonic::NopU => {
                proof {
                    assert(spec_exec_instr(old(self)@, op) == Ok::<CpuView, EmuError>(old(self)@)) by {
                        reveal(crate::cpu::semantics::spec_exec_instr);
                    }
                }
                Ok(())
            },
            Mnemonic::Rla => {
                proof {
                    assert(spec_exec_instr(old(self)@, op) == spec_rla(old(self)@, op.mode)) by {
                        reveal(crate::cpu::semantics::spec_exec_instr);
                    }
                }
                self.rla(op.mode)
            },
            Mnemonic::Rra => {
                proof {
                    assert(spec_exec_instr(old(self)@, op) == spec_rra(old(self)@, op.mode)) by {
                        reveal(crate::cpu::semantics::spec_exec_instr);
                    }
                }
                self.rra(op.mode)
            },
            Mnemonic::SbcU => {
                proof {
                    assert(spec_exec_instr(old(self)@, op) == spec_sbc(old(self)@, op.mode)) by {
                        reveal(crate::cpu::semantics::spec_exec_instr);
                    }
                }
                self.sbc(op.mode)
            },
            Mnemonic::Slo => {
                proof {
                    assert(spec_exec_instr(old(self)@, op) == spec_slo(old(self)@, op.mode)) by {
                        reveal(crate::cpu::semantics::spec_exec_instr);
                    }
                }
                self.slo(op.mode)
            },
            Mnemonic::Sre => {
                proof {
                    assert(spec_exec_instr(old(self)@, op) == spec_sre(old(self)@, op.mode)) by {
                        reveal(crate::cpu::semantics::spec_exec_instr);
                    }
                }
                self.sre(op.mode)
            },
            Mnemonic::Sxa => {
                proof {
                    assert(spec_exec_instr(old(self)@, op) == spec_sxa(old(self)@, op.mode)) by {
                        reveal(crate::cpu::semantics::spec_exec_instr);
                    }
                }
                self.sxa(op.mode)
            },
            Mnemonic::Sya => {
                proof {
                    assert(spec_exec_instr(old(self)@, op) == spec_sya(old(self)@, op.mode)) by {
                        reveal(crate::cpu::semantics::spec_exec_instr);
                    }
                }
                self.sya(op.mode)
            },
            Mnemonic::Top => {
                proof {
                    assert(spec_exec_instr(old(self)@, op) == spec_dummy_read(old(self)@, op.mode)) by {
                        reveal(crate::cpu::semantics::spec_exec_instr);
                    }
                }
                self.dummy_read(op.mode)
            },
            Mnemonic::Xas => {
                proof {
                    assert(spec_exec_instr(old(self)@, op) == spec_xas(old(self)@, op.mode)) by {
                        reveal(crate::cpu::semantics::spec_exec_instr);
                    }
                }
                self.xas(op.mode)
            },
            _ => {
                proof {
                    assert(false);
                }
                Ok(())
            },
        }
    }

    /// Execute one instruction, exactly as `spec_step` says: `Halted`
    /// comes back for BRK, a fatal error aborts the step and leaves the
    /// machine well-formed.
    pub fn step(&mut self) -> (r: Result<StepStatus, EmuError>)
        requires
            old(self).wf(),
        ensures
            final(self).wf(),
            match spec_step(old(self)@) {
                SpecStep::Run(c2) => r == Ok::<StepStatus, EmuError>(StepStatus::Running)
                    && final(self)@ == c2,
                SpecStep::Halt(c2) => r == Ok::<StepStatus, EmuError>(StepStatus::Halted)
                    && final(self)@ == c2,
                SpecStep::Fail(e) => r == Err::<StepStatus, EmuError>(e),
            },
    {
        let byte = match self.mem_read(self.program_counter) {
            Ok(v) => v,
            Err(e) => {
                return Err(e);
            },
        };
        self.program_counter = self.program_counter.wrapping_add(1);
        let op = match opcode_for(byte) {
            Some(op) => op,
            None => {
                return Err(EmuError::UnknownOpcode(byte));
            },
        };
        if matches!(op.mnemonic, Mnemonic::Brk) {
            return Ok(StepStatus::Halted);
        }
        let pc_state = self.program_counter;
        match self.dispatch(op) {
            Ok(()) => (),
            Err(e) => {
                return Err(e);
            },
        }
        if self.program_counter == pc_state {
            self.program_counter = self.program_counter.wrapping_add((op.bytes - 1) as u16);
        }
        Ok(StepStatus::Running)
    }

    /// Run instruction by instruction until BRK or a fatal error: the
    /// final state is one the step relation reaches from the initial
    /// one, ending in a halt or in the reported error. The loop carries
    /// a step budget of 2^64 - 1 instructions; a program still running
    /// after that many steps comes back as `StepLimit`, with the state
    /// reached by exactly that many steps.
    pub fn run(&mut self) -> (r: Result<(), EmuError>)
        requires
            old(self).wf(),
        ensures
            final(self).wf(),
            match r {
                Ok(()) => exists|n: nat, m: CpuView|
                    #[trigger] spec_reaches(old(self)@, m, n) && spec_step(m) == SpecStep::Halt(
                        final(self)@,
                    ),
                Err(e) => (e == EmuError::StepLimit && spec_reaches(
                    old(self)@,
                    final(self)@,
                    0xFFFF_FFFF_FFFF_FFFFnat,
                )) || (exists|n: nat, m: CpuView|
                    #[trigger] spec_reaches(old(self)@, m, n) && spec_step(m) == SpecStep::Fail(
                        e,
                    )),
            },
    {
        let ghost start = self@;
        let ghost mut n: nat = 0nat;
        let mut fuel: u64 = 0xFFFF_FFFF_FFFF_FFFF;
        while fuel > 0
            invariant
                self.wf(),
                spec_reaches(start, self@, n),
                start == old(self)@,
                n + fuel == 0xFFFF_FFFF_FFFF_FFFFnat,
            decreases fuel,
        {
            fuel = fuel - 1;
            let ghost pre = self@;
            match self.step() {
                Ok(StepStatus::Running) => {
                    proof {
                        lemma_reaches_snoc(start, pre, self@, n);
                        n = n + 1;
                    }
                },
                Ok(StepStatus::Halted) => {
                    proof {
                        assert(spec_reaches(start, pre, n) && spec_step(pre) == SpecStep::Halt(
                            self@,
                        ));
                    }
                    return Ok(());
                },
                Err(e) => {
                    proof {
                        assert(spec_reaches(start, pre, n) && spec_step(pre) == SpecStep::Fail(
                            e,
                        ));
                    }
                    return Err(e);
                },
            }
        }
        Err(EmuError::StepLimit)
    }

    /// Run as `run` does, invoking the callback with the machine before
    /// every step. The callback must be callable on any well-formed
    /// machine.
    pub fn run_with_callback<F: Fn(&CPU)>(&mut self, callback: F) -> (r: Result<(), EmuError>)
        requires
            old(self).wf(),
            forall|s: &CPU| s.wf() ==> #[trigger] callback.requires((s,)),
        ensures
            final(self).wf(),
            match r {
                Ok(()) => exists|n: nat, m: CpuView|
                    #[trigger] spec_reaches(old(self)@, m, n) && spec_step(m) == SpecStep::Halt(
                        final(self)@,
                    ),
                Err(e) => (e == EmuError::StepLimit && spec_reaches(
                    old(self)@,
                    final(self)@,
                    0xFFFF_FFFF_FFFF_FFFFnat,
                )) || (exists|n: nat, m: CpuView|
                    #[trigger] spec_reaches(old(self)@, m, n) && spec_step(m) == SpecStep::Fail(
                        e,
                    )),
            },
    {
        let ghost start = self@;
        let ghost mut n: nat = 0nat;
        let mut fuel: u64 = 0xFFFF_FFFF_FFFF_FFFF;
        while fuel > 0
            invariant
                self.wf(),
                spec_reaches(start, self@, n),
                start == old(self)@,
                n + fuel == 0xFFFF_FFFF_FFFF_FFFFnat,
                forall|s: &CPU| s.wf() ==> #[trigger] callback.requires((s,)),
            decreases fuel,
        {
            fuel = fuel - 1;
            callback(&*self);
            let ghost pre = self@;
            match self.step() {
                Ok(StepStatus::Running) => {
                    proof {
                        lemma_reaches_snoc(start, pre, self@, n);
                        n = n + 1;
                    }
                },
                Ok(StepStatus::Halted) => {
                    proof {
                        assert(spec_reaches(start, pre, n) && spec_step(pre) == SpecStep::Halt(
                            self@,
                        ));
                    }
                    return Ok(());
                },
                Err(e) => {
                    proof {
                        assert(spec_reaches(start, pre, n) && spec_step(pre) == SpecStep::Fail(
                            e,
                        ));
                    }
                    return Err(e);
                },
            }
        }
        Err(EmuError::StepLimit)
    }

    /// Install a program, reset, and run it: the whole execution is the
    /// step relation applied from the freshly reset machine over the
    /// loaded image.
    pub fn load_and_run(&mut self, program: Vec<u8>) -> (r: Result<(), EmuError>)
        requires
            old(self).wf(),
            program@.len() <= 0x7FFC,
        ensures
            final(self).wf(),
            ({
                let c0 = CpuView {
                    a: 0,
                    x: 0,
                    y: 0,
                    sp: STACK_RESET,
                    p: INTERRUPT_DISABLE | BREAK_2,
                    pc: 0x8000,
                    bus: BusView { prg: spec_loaded_prg(program@), ..old(self)@.bus },
                };
                match r {
                    Ok(()) => exists|n: nat, m: CpuView|
                        #[trigger] spec_reaches(c0, m, n) && spec_step(m) == SpecStep::Halt(
                            final(self)@,
                        ),
                    Err(e) => (e == EmuError::StepLimit && spec_reaches(
                        c0,
                        final(self)@,
                        0xFFFF_FFFF_FFFF_FFFFnat,
                    )) || (exists|n: nat, m: CpuView|
                        #[trigger] spec_reaches(c0, m, n) && spec_step(m) == SpecStep::Fail(e)),
                }
            }),
    {
        let ghost pre = self@;
        self.load(program);
        self.reset();
        proof {
            reveal(crate::bus::spec_bus_peek);
            assert(self@.bus.prg[0x7FFC] == 0 && self@.bus.prg[0x7FFD] == 0x80);
            assert(spec_bus_peek(self@.bus, 0xFFFC) == 0);
            assert(spec_bus_peek(self@.bus, 0xFFFD) == 0x80);
        }
        self.run()
    }
}

} // verus!
