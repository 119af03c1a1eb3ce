//! The instruction set: one executable function per instruction, each
//! proved to do exactly what its spec function in `semantics` says.

use vstd::prelude::*;

use crate::cpu::constants::{BREAK, BREAK_2, CARRY_FLAG, NEGATIVE_FLAG, OVERFLOW_FLAG};
use crate::cpu::semantics::{
    spec_aac, spec_aax, spec_adc, spec_adc_flags, spec_adc_result, spec_and, spec_arr, spec_asl,
    spec_asl_vals, spec_asr, spec_atx, spec_axa, spec_axs, spec_bit, spec_branch, spec_compare,
    spec_cpu_wf, spec_dcp, spec_dec, spec_dummy_read, spec_eor, spec_inc, spec_isb, spec_jmp,
    spec_jsr, spec_lar, spec_lax, spec_lda, spec_ldx, spec_ldy, spec_lsr, spec_lsr_vals, spec_ora,
    spec_pha, spec_php, spec_pla, spec_plp, spec_rla, spec_rol, spec_rol_vals, spec_ror,
    spec_ror_vals, spec_rra, spec_rti, spec_rts, spec_sbc, spec_sbc_operand, spec_slo, spec_sre,
    spec_sta, spec_stx, spec_sty, spec_sxa, spec_sya, spec_xas, CpuView,
};
use crate::cpu::{AddressingMode, CPU};
use crate::errors::EmuError;

verus! {

/// The contract every instruction helper meets: the machine stays
/// well-formed, and the outcome is exactly the one its spec function
/// gives for the pre-state.
pub open spec fn spec_sem_post(
    sem: Result<CpuView, EmuError>,
    post: CpuView,
    r: Result<(), EmuError>,
) -> bool {
    &&& spec_cpu_wf(post)
    &&& match r {
        Ok(()) => sem == Ok::<CpuView, EmuError>(post),
        Err(e) => sem == Err::<CpuView, EmuError>(e),
    }
}

impl CPU {
    /// The ADC core: A + operand + C, with C, V, Z, N updated, exactly
    /// `spec_adc_result` / `spec_adc_flags`.
    #[verifier::rlimit(100)]
    fn add_with_carry(&mut self, a: u8, b: u8) -> (r: u8)
        ensures
            r == spec_adc_result(old(self)@.p, a, b),
            final(self)@ == (CpuView { p: spec_adc_flags(old(self)@.p, a, b), ..old(self)@ }),
    {
        let carry: u16 = if self.check_flag(CARRY_FLAG) {
            1
        } else {
            0
        };
        let sum: u16 = a as u16 + b as u16 + carry;
        let res: u8 = (sum % 256) as u8;
        if (a >= 0x80) == (b >= 0x80) && ((res >= 0x80) != (a >= 0x80)) {
            self.set_flag(OVERFLOW_FLAG);
        } else {
            self.remove_flag(OVERFLOW_FLAG);
        }
        if sum > 0xFF {
            self.set_flag(CARRY_FLAG);
        } else {
            self.remove_flag(CARRY_FLAG);
        }
        self.update_neg_and_zero_status(res);
        res
    }

    /// SBC is ADC of the one's complement.
    #[verifier::rlimit(100)]
    fn subtract_with_carry(&mut self, a: u8, b: u8) -> (r: u8)
        ensures
            r == spec_adc_result(old(self)@.p, a, spec_sbc_operand(b)),
            final(self)@ == (CpuView {
                p: spec_adc_flags(old(self)@.p, a, spec_sbc_operand(b)),
                ..old(self)@
            }),
    {
        self.add_with_carry(a, 255 - b)
    }

    /// ROL of one byte through the carry, exactly `spec_rol_vals`.
    #[verifier::rlimit(100)]
    fn rotate_left(&mut self, data: u8) -> (r: u8)
        ensures
            ({
                let (res, p2) = spec_rol_vals(old(self)@.p, data);
                r == res && final(self)@ == (CpuView { p: p2, ..old(self)@ })
            }),
    {
        let carry = self.get_carry();
        let res: u8 = ((data as u16 * 2 + carry as u16) % 256) as u8;
        if data >= 0x80 {
            self.set_flag(CARRY_FLAG);
        } else {
            self.remove_flag(CARRY_FLAG);
        }
        self.update_neg_and_zero_status(res);
        res
    }

    /// ROR of one byte through the carry, exactly `spec_ror_vals`.
    #[verifier::rlimit(100)]
    fn rotate_right(&mut self, data: u8) -> (r: u8)
        ensures
            ({
                let (res, p2) = spec_ror_vals(old(self)@.p, data);
                r == res && final(self)@ == (CpuView { p: p2, ..old(self)@ })
            }),
    {
        let carry = self.get_carry();
        let res: u8 = data / 2 + carry * 128;
        if data % 2 == 1 {
            self.set_flag(CARRY_FLAG);
        } else {
            self.remove_flag(CARRY_FLAG);
        }
        self.update_neg_and_zero_status(res);
        res
    }

    /// LSR of one byte, exactly `spec_lsr_vals`.
    #[verifier::rlimit(100)]
    fn logical_shift_right(&mut self, data: u8) -> (r: u8)
        ensures
            ({
                let (res, p2) = spec_lsr_vals(old(self)@.p, data);
                r == res && final(self)@ == (CpuView { p: p2, ..old(self)@ })
            }),
    {
        let res: u8 = data / 2;
        if data % 2 == 1 {
            self.set_flag(CARRY_FLAG);
        } else {
            self.remove_flag(CARRY_FLAG);
        }
        self.update_neg_and_zero_status(res);
        res
    }

    #[verifier::rlimit(100)]
    pub(crate) fn lda(&mut self, mode: AddressingMode) -> (r: Result<(), EmuError>)
        requires
            old(self).wf(),
        ensures
            spec_sem_post(spec_lda(old(self)@, mode), final(self)@, r),
    {
        let (_addr, v) = match self.operand_value(mode) {
            Ok(t) => t,
            Err(e) => {
                return Err(e);
            },
        };
        self.register_a = v;
        self.update_neg_and_zero_status(v);
        Ok(())
    }

    #[verifier::rlimit(100)]
    pub(crate) fn ldx(&mut self, mode: AddressingMode) -> (r: Result<(), EmuError>)
        requires
            old(self).wf(),
        ensures
            spec_sem_post(spec_ldx(old(self)@, mode), final(self)@, r),
    {
        let (_addr, v) = match self.operand_value(mode) {
            Ok(t) => t,
            Err(e) => {
                return Err(e);
            },
        };
        self.register_x = v;
        self.update_neg_and_zero_status(v);
        Ok(())
    }

    #[verifier::rlimit(100)]
    pub(crate) fn ldy(&mut self, mode: AddressingMode) -> (r: Result<(), EmuError>)
        requires
            old(self).wf(),
        ensures
            spec_sem_post(spec_ldy(old(self)@, mode), final(self)@, r),
    {
        let (_addr, v) = match self.operand_value(mode) {
            Ok(t) => t,
            Err(e) => {
                return Err(e);
            },
        };
        self.register_y = v;
        self.update_neg_and_zero_status(v);
        Ok(())
    }

    #[verifier::rlimit(100)]
    pub(crate) fn sta(&mut self, mode: AddressingMode) -> (r: Result<(), EmuError>)
        requires
            old(self).wf(),
        ensures
            spec_sem_post(spec_sta(old(self)@, mode), final(self)@, r),
    {
        let addr = match self.get_operand_address(mode) {
            Ok(a) => a,
            Err(e) => {
                return Err(e);
            },
        };
        let v = self.register_a;
        self.mem_write(addr, v)
    }

    #[verifier::rlimit(100)]
    pub(crate) fn stx(&mut self, mode: AddressingMode) -> (r: Result<(), EmuError>)
        requires
            old(self).wf(),
        ensures
            spec_sem_post(spec_stx(old(self)@, mode), final(self)@, r),
    {
        let addr = match self.get_operand_address(mode) {
            Ok(a) => a,
            Err(e) => {
                return Err(e);
            },
        };
        let v = self.register_x;
        self.mem_write(addr, v)
    }

    #[verifier::rlimit(100)]
    pub(crate) fn sty(&mut self, mode: AddressingMode) -> (r: Result<(), EmuError>)
        requires
            old(self).wf(),
        ensures
            spec_sem_post(spec_sty(old(self)@, mode), final(self)@, r),
    {
        let addr = match self.get_operand_address(mode) {
            Ok(a) => a,
            Err(e) => {
                return Err(e);
            },
        };
        let v = self.register_y;
        self.mem_write(addr, v)
    }

    #[verifier::rlimit(100)]
    pub(crate) fn and(&mut self, mode: AddressingMode) -> (r: Result<(), EmuError>)
        requires
            old(self).wf(),
        ensures
            spec_sem_post(spec_and(old(self)@, mode), final(self)@, r),
    {
        let (_addr, v) = match self.operand_value(mode) {
            Ok(t) => t,
            Err(e) => {
                return Err(e);
            },
        };
        let a2 = self.register_a & v;
        self.register_a = a2;
        self.update_neg_and_zero_status(a2);
        Ok(())
    }

    #[verifier::rlimit(100)]
    pub(crate) fn ora(&mut self, mode: AddressingMode) -> (r: Result<(), EmuError>)
        requires
            old(self).wf(),
        ensures
            spec_sem_post(spec_ora(old(self)@, mode), final(self)@, r),
    {
        let (_addr, v) = match self.operand_value(mode) {
            Ok(t) => t,
            Err(e) => {
                return Err(e);
            },
        };
        let a2 = self.register_a | v;
        self.register_a = a2;
        self.update_neg_and_zero_status(a2);
        Ok(())
    }

    #[verifier::rlimit(100)]
    pub(crate) fn eor(&mut self, mode: AddressingMode) -> (r: Result<(), EmuError>)
        requires
            old(self).wf(),
        ensures
            spec_sem_post(spec_eor(old(self)@, mode), final(self)@, r),
    {
        let (_addr, v) = match self.operand_value(mode) {
            Ok(t) => t,
            Err(e) => {
                return Err(e);
            },
        };
        let a2 = self.register_a ^ v;
        self.register_a = a2;
        self.update_neg_and_zero_status(a2);
        Ok(())
    }

    #[verifier::rlimit(100)]
    pub(crate) fn adc(&mut self, mode: AddressingMode) -> (r: Result<(), EmuError>)
        requires
            old(self).wf(),
        ensures
            spec_sem_post(spec_adc(old(self)@, mode), final(self)@, r),
    {
        let (_addr, m) = match self.operand_value(mode) {
            Ok(t) => t,
            Err(e) => {
                return Err(e);
            },
        };
        let a = self.register_a;
        let res = self.add_with_carry(a, m);
        self.register_a = res;
        Ok(())
    }

    #[verifier::rlimit(100)]
    pub(crate) fn sbc(&mut self, mode: AddressingMode) -> (r: Result<(), EmuError>)
        requires
            old(self).wf(),
        ensures
            spec_sem_post(spec_sbc(old(self)@, mode), final(self)@, r),
    {
        let (_addr, m) = match self.operand_value(mode) {
            Ok(t) => t,
            Err(e) => {
                return Err(e);
            },
        };
        let a = self.register_a;
        let res = self.subtract_with_carry(a, m);
        self.register_a = res;
        Ok(())
    }

    #[verifier::rlimit(50)]
    pub(crate) fn compare(&mut self, mode: AddressingMode, value: u8) -> (r: Result<
        (),
        EmuError,
    >)
        requires
            old(self).wf(),
        ensures
            spec_sem_post(spec_compare(old(self)@, mode, value), final(self)@, r),
    {
        let (_addr, m) = match self.operand_value(mode) {
            Ok(t) => t,
            Err(e) => {
                return Err(e);
            },
        };
        if value >= m {
            self.set_flag(CARRY_FLAG);
        } else {
            self.remove_flag(CARRY_FLAG);
        }
        let diff = value.wrapping_sub(m);
        proof {
            assert(diff == crate::cpu::semantics::spec_wrap8(value - m));
        }
        self.update_neg_and_zero_status(diff);
        Ok(())
    }

    #[verifier::rlimit(100)]
    pub(crate) fn bit(&mut self, mode: AddressingMode) -> (r: Result<(), EmuError>)
        requires
            old(self).wf(),
        ensures
            spec_sem_post(spec_bit(old(self)@, mode), final(self)@, r),
    {
        let (_addr, m) = match self.operand_value(mode) {
            Ok(t) => t,
            Err(e) => {
                return Err(e);
            },
        };
        let res = self.register_a & m;
        self.update_neg_and_zero_status(res);
        if m & OVERFLOW_FLAG == 0 {
            self.remove_flag(OVERFLOW_FLAG);
        } else {
            self.set_flag(OVERFLOW_FLAG);
        }
        if m & NEGATIVE_FLAG == 0 {
            self.remove_flag(NEGATIVE_FLAG);
        } else {
            self.set_flag(NEGATIVE_FLAG);
        }
        Ok(())
    }

    #[verifier::rlimit(100)]
    pub(crate) fn asl(&mut self, mode: AddressingMode) -> (r: Result<(), EmuError>)
        requires
            old(self).wf(),
        ensures
            spec_sem_post(spec_asl(old(self)@, mode), final(self)@, r),
    {
        if matches!(mode, AddressingMode::Accumulator) {
            let data = self.register_a;
            if data >= 0x80 {
                self.set_flag(CARRY_FLAG);
            } else {
                self.remove_flag(CARRY_FLAG);
            }
            let res: u8 = ((data as u16 * 2) % 256) as u8;
            self.register_a = res;
            self.update_neg_and_zero_status(res);
            return Ok(());
        }
        let (addr, data) = match self.operand_value(mode) {
            Ok(t) => t,
            Err(e) => {
                return Err(e);
            },
        };
        if data >= 0x80 {
            self.set_flag(CARRY_FLAG);
        } else {
            self.remove_flag(CARRY_FLAG);
        }
        let res: u8 = ((data as u16 * 2) % 256) as u8;
        self.update_neg_and_zero_status(res);
        self.mem_write(addr, res)
    }

    #[verifier::rlimit(100)]
    pub(crate) fn lsr(&mut self, mode: AddressingMode) -> (r: Result<(), EmuError>)
        requires
            old(self).wf(),
        ensures
            spec_sem_post(spec_lsr(old(self)@, mode), final(self)@, r),
    {
        if matches!(mode, AddressingMode::Accumulator) {
            let data = self.register_a;
            let res = self.logical_shift_right(data);
            self.register_a = res;
            return Ok(());
        }
        let (addr, data) = match self.operand_value(mode) {
            Ok(t) => t,
            Err(e) => {
                return Err(e);
            },
        };
        let res = self.logical_shift_right(data);
        self.mem_write(addr, res)
    }

    #[verifier::rlimit(100)]
    pub(crate) fn rol(&mut self, mode: AddressingMode) -> (r: Result<(), EmuError>)
        requires
            old(self).wf(),
        ensures
            spec_sem_post(spec_rol(old(self)@, mode), final(self)@, r),
    {
        if matches!(mode, AddressingMode::Accumulator) {
            let data = self.register_a;
            let res = self.rotate_left(data);
            self.register_a = res;
            return Ok(());
        }
        let (addr, data) = match self.operand_value(mode) {
            Ok(t) => t,
            Err(e) => {
                return Err(e);
            },
        };
        let res = self.rotate_left(data);
        self.mem_write(addr, res)
    }

    #[verifier::rlimit(100)]
    pub(crate) fn ror(&mut self, mode: AddressingMode) -> (r: Result<(), EmuError>)
        requires
            old(self).wf(),
        ensures
            spec_sem_post(spec_ror(old(self)@, mode), final(self)@, r),
    {
        if matches!(mode, AddressingMode::Accumulator) {
            let data = self.register_a;
            let res = self.rotate_right(data);
            self.register_a = res;
            return Ok(());
        }
        let (addr, data) = match self.operand_value(mode) {
            Ok(t) => t,
            Err(e) => {
                return Err(e);
            },
        };
        let res = self.rotate_right(data);
        self.mem_write(addr, res)
    }

    #[verifier::rlimit(100)]
    pub(crate) fn inc(&mut self, mode: AddressingMode) -> (r: Result<(), EmuError>)
        requires
            old(self).wf(),
        ensures
            spec_sem_post(spec_inc(old(self)@, mode), final(self)@, r),
    {
        let (addr, data) = match self.operand_value(mode) {
            Ok(t) => t,
            Err(e) => {
                return Err(e);
            },
        };
        let res = data.wrapping_add(1);
        proof {
            assert(res == crate::cpu::semantics::spec_wrap8(data + 1));
        }
        match self.mem_write(addr, res) {
            Ok(()) => (),
            Err(e) => {
                return Err(e);
            },
        }
        self.update_neg_and_zero_status(res);
        Ok(())
    }

    #[verifier::rlimit(50)]
    pub(crate) fn dec(&mut self, mode: AddressingMode) -> (r: Result<(), EmuError>)
        requires
            old(self).wf(),
        ensures
            spec_sem_post(spec_dec(old(self)@, mode), final(self)@, r),
    {
        let (addr, data) = match self.operand_value(mode) {
            Ok(t) => t,
            Err(e) => {
                return Err(e);
            },
        };
        let res = data.wrapping_sub(1);
        proof {
            assert(res == crate::cpu::semantics::spec_wrap8(data - 1));
        }
        match self.mem_write(addr, res) {
            Ok(()) => (),
            Err(e) => {
                return Err(e);
            },
        }
        self.update_neg_and_zero_status(res);
        Ok(())
    }

    /// A taken branch jumps to the end of the instruction plus the
    /// signed offset; an untaken one falls through.
    #[verifier::rlimit(100)]
    pub(crate) fn branch(&mut self, condition: bool) -> (r: Result<(), EmuError>)
        requires
            old(self).wf(),
        ensures
            spec_sem_post(spec_branch(old(self)@, condition), final(self)@, r),
    {
        if condition {
            let off = match self.mem_read(self.program_counter) {
                Ok(v) => v,
                Err(e) => {
                    return Err(e);
                },
            };
            let ext: u16 = if off >= 0x80 {
                0xFF00 + off as u16
            } else {
                off as u16
            };
            self.program_counter = self.program_counter.wrapping_add(1).wrapping_add(ext);
        }
        Ok(())
    }

    #[verifier::rlimit(100)]
    pub(crate) fn jmp(&mut self, mode: AddressingMode) -> (r: Result<(), EmuError>)
        requires
            old(self).wf(),
        ensures
            spec_sem_post(spec_jmp(old(self)@, mode), final(self)@, r),
    {
        let addr = match self.get_operand_address(mode) {
            Ok(a) => a,
            Err(e) => {
                return Err(e);
            },
        };
        self.program_counter = addr;
        Ok(())
    }

    #[verifier::rlimit(100)]
    #[verifier::spinoff_prover]
    pub(crate) fn jsr(&mut self, mode: AddressingMode) -> (r: Result<(), EmuError>)
        requires
            old(self).wf(),
        ensures
            spec_sem_post(spec_jsr(old(self)@, mode), final(self)@, r),
    {
        let ret = self.program_counter.wrapping_add(1);
        match self.push_u16(ret) {
            Ok(()) => (),
            Err(e) => {
                return Err(e);
            },
        }
        self.jmp(mode)
    }

    #[verifier::rlimit(100)]
    pub(crate) fn rts(&mut self) -> (r: Result<(), EmuError>)
        requires
            old(self).wf(),
        ensures
            spec_sem_post(spec_rts(old(self)@), final(self)@, r),
    {
        let v = match self.pop_u16() {
            Ok(v) => v,
            Err(e) => {
                return Err(e);
            },
        };
        self.program_counter = v.wrapping_add(1);
        Ok(())
    }

    #[verifier::rlimit(100)]
    pub(crate) fn rti(&mut self) -> (r: Result<(), EmuError>)
        requires
            old(self).wf(),
        ensures
            spec_sem_post(spec_rti(old(self)@), final(self)@, r),
    {
        let v = match self.pop() {
            Ok(v) => v,
            Err(e) => {
                return Err(e);
            },
        };
        self.flags = (v & !BREAK) | BREAK_2;
        let addr = match self.pop_u16() {
            Ok(v) => v,
            Err(e) => {
                return Err(e);
            },
        };
        self.program_counter = addr;
        Ok(())
    }

    #[verifier::rlimit(100)]
    pub(crate) fn pha(&mut self) -> (r: Result<(), EmuError>)
        requires
            old(self).wf(),
        ensures
            spec_sem_post(spec_pha(old(self)@), final(self)@, r),
    {
        let a = self.register_a;
        self.push(a)
    }

    #[verifier::rlimit(100)]
    pub(crate) fn php(&mut self) -> (r: Result<(), EmuError>)
        requires
            old(self).wf(),
        ensures
            spec_sem_post(spec_php(old(self)@), final(self)@, r),
    {
        let v = self.flags | (BREAK | BREAK_2);
        self.push(v)
    }

    #[verifier::rlimit(100)]
    pub(crate) fn pla(&mut self) -> (r: Result<(), EmuError>)
        requires
            old(self).wf(),
        ensures
            spec_sem_post(spec_pla(old(self)@), final(self)@, r),
    {
        let v = match self.pop() {
            Ok(v) => v,
            Err(e) => {
                return Err(e);
            },
        };
        self.register_a = v;
        self.update_neg_and_zero_status(v);
        Ok(())
    }

    #[verifier::rlimit(100)]
    pub(crate) fn plp(&mut self) -> (r: Result<(), EmuError>)
        requires
            old(self).wf(),
        ensures
            spec_sem_post(spec_plp(old(self)@), final(self)@, r),
    {
        let v = match self.pop() {
            Ok(v) => v,
            Err(e) => {
                return Err(e);
            },
        };
        self.flags = (v & !BREAK) | BREAK_2;
        Ok(())
    }

    #[verifier::rlimit(100)]
    pub(crate) fn lax(&mut self, mode: AddressingMode) -> (r: Result<(), EmuError>)
        requires
            old(self).wf(),
        ensures
            spec_sem_post(spec_lax(old(self)@, mode), final(self)@, r),
    {
        let (_addr, v) = match self.operand_value(mode) {
            Ok(t) => t,
            Err(e) => {
                return Err(e);
            },
        };
        self.update_neg_and_zero_status(v);
        self.register_a = v;
        self.register_x = v;
        Ok(())
    }

    #[verifier::rlimit(100)]
    pub(crate) fn aax(&mut self, mode: AddressingMode) -> (r: Result<(), EmuError>)
        requires
            old(self).wf(),
        ensures
            spec_sem_post(spec_aax(old(self)@, mode), final(self)@, r),
    {
        let addr = match self.get_operand_address(mode) {
            Ok(a) => a,
            Err(e) => {
                return Err(e);
            },
        };
        let res = self.register_a & self.register_x;
        self.mem_write(addr, res)
    }

    #[verifier::rlimit(100)]
    pub(crate) fn dcp(&mut self, mode: AddressingMode) -> (r: Result<(), EmuError>)
        requires
            old(self).wf(),
        ensures
            spec_sem_post(spec_dcp(old(self)@, mode), final(self)@, r),
    {
        let (addr, data) = match self.operand_value(mode) {
            Ok(t) => t,
            Err(e) => {
                return Err(e);
            },
        };
        let res = data.wrapping_sub(1);
        proof {
            assert(res == crate::cpu::semantics::spec_wrap8(data - 1));
        }
        if res <= self.register_a {
            self.set_flag(CARRY_FLAG);
        } else {
            self.remove_flag(CARRY_FLAG);
        }
        let diff = self.register_a.wrapping_sub(res);
        proof {
            assert(diff == crate::cpu::semantics::spec_wrap8(old(self)@.a - res));
        }
        self.update_neg_and_zero_status(diff);
        self.mem_write(addr, res)
    }

    #[verifier::rlimit(100)]
    #[verifier::spinoff_prover]
    pub(crate) fn isc(&mut self, mode: AddressingMode) -> (r: Result<(), EmuError>)
        requires
            old(self).wf(),
        ensures
            spec_sem_post(spec_isb(old(self)@, mode), final(self)@, r),
    {
        let (addr, data) = match self.operand_value(mode) {
            Ok(t) => t,
            Err(e) => {
                return Err(e);
            },
        };
        let res = data.wrapping_add(1);
        proof {
            assert(res == crate::cpu::semantics::spec_wrap8(data + 1));
        }
        match self.mem_write(addr, res) {
            Ok(()) => (),
            Err(e) => {
                return Err(e);
            },
        }
        let a = self.register_a;
        let a2 = self.subtract_with_carry(a, res);
        self.register_a = a2;
        Ok(())
    }

    #[verifier::rlimit(100)]
    pub(crate) fn slo(&mut self, mode: AddressingMode) -> (r: Result<(), EmuError>)
        requires
            old(self).wf(),
        ensures
            spec_sem_post(spec_slo(old(self)@, mode), final(self)@, r),
    {
        let (addr, data) = match self.operand_value(mode) {
            Ok(t) => t,
            Err(e) => {
                return Err(e);
            },
        };
        if data >= 0x80 {
            self.set_flag(CARRY_FLAG);
        } else {
            self.remove_flag(CARRY_FLAG);
        }
        let res: u8 = ((data as u16 * 2) % 256) as u8;
        match self.mem_write(addr, res) {
            Ok(()) => (),
            Err(e) => {
                return Err(e);
            },
        }
        let a2 = self.register_a | res;
        self.register_a = a2;
        self.update_neg_and_zero_status(a2);
        Ok(())
    }

    #[verifier::rlimit(100)]
    pub(crate) fn rla(&mut self, mode: AddressingMode) -> (r: Result<(), EmuError>)
        requires
            old(self).wf(),
        ensures
            spec_sem_post(spec_rla(old(self)@, mode), final(self)@, r),
    {
        let (addr, data) = match self.operand_value(mode) {
            Ok(t) => t,
            Err(e) => {
                return Err(e);
            },
        };
        let carry = self.get_carry();
        let res: u8 = ((data as u16 * 2 + carry as u16) % 256) as u8;
        if data >= 0x80 {
            self.set_flag(CARRY_FLAG);
        } else {
            self.remove_flag(CARRY_FLAG);
        }
        match self.mem_write(addr, res) {
            Ok(()) => (),
            Err(e) => {
                return Err(e);
            },
        }
        let a2 = self.register_a & res;
        self.register_a = a2;
        self.update_neg_and_zero_status(a2);
        Ok(())
    }

    #[verifier::rlimit(100)]
    pub(crate) fn sre(&mut self, mode: AddressingMode) -> (r: Result<(), EmuError>)
        requires
            old(self).wf(),
        ensures
            spec_sem_post(spec_sre(old(self)@, mode), final(self)@, r),
    {
        let (addr, data) = match self.operand_value(mode) {
            Ok(t) => t,
            Err(e) => {
                return Err(e);
            },
        };
        if data % 2 == 1 {
            self.set_flag(CARRY_FLAG);
        } else {
            self.remove_flag(CARRY_FLAG);
        }
        let res: u8 = data / 2;
        match self.mem_write(addr, res) {
            Ok(()) => (),
            Err(e) => {
                return Err(e);
            },
        }
        let a2 = self.register_a ^ res;
        self.register_a = a2;
        self.update_neg_and_zero_status(a2);
        Ok(())
    }

    #[verifier::rlimit(100)]
    pub(crate) fn rra(&mut self, mode: AddressingMode) -> (r: Result<(), EmuError>)
        requires
            old(self).wf(),
        ensures
            spec_sem_post(spec_rra(old(self)@, mode), final(self)@, r),
    {
        let (addr, data) = match self.operand_value(mode) {
            Ok(t) => t,
            Err(e) => {
                return Err(e);
            },
        };
        let carry = self.get_carry();
        let res: u8 = data / 2 + carry * 128;
        if data % 2 == 1 {
            self.set_flag(CARRY_FLAG);
        } else {
            self.remove_flag(CARRY_FLAG);
        }
        match self.mem_write(addr, res) {
            Ok(()) => (),
            Err(e) => {
                return Err(e);
            },
        }
        let a = self.register_a;
        let a2 = self.add_with_carry(a, res);
        self.register_a = a2;
        Ok(())
    }

    #[verifier::rlimit(100)]
    pub(crate) fn aac(&mut self, mode: AddressingMode) -> (r: Result<(), EmuError>)
        requires
            old(self).wf(),
        ensures
            spec_sem_post(spec_aac(old(self)@, mode), final(self)@, r),
    {
        let (_addr, data) = match self.operand_value(mode) {
            Ok(t) => t,
            Err(e) => {
                return Err(e);
            },
        };
        let res = self.register_a & data;
        if data & NEGATIVE_FLAG != 0 {
            self.set_flag(CARRY_FLAG);
        } else {
            self.remove_flag(CARRY_FLAG);
        }
        self.update_neg_and_zero_status(res);
        Ok(())
    }

    #[verifier::rlimit(100)]
    pub(crate) fn asr(&mut self, mode: AddressingMode) -> (r: Result<(), EmuError>)
        requires
            old(self).wf(),
        ensures
            spec_sem_post(spec_asr(old(self)@, mode), final(self)@, r),
    {
        let (_addr, data) = match self.operand_value(mode) {
            Ok(t) => t,
            Err(e) => {
                return Err(e);
            },
        };
        let res = (self.register_a & data) / 2;
        self.update_neg_and_zero_status(res);
        if res % 2 == 1 {
            self.set_flag(CARRY_FLAG);
        } else {
            self.remove_flag(CARRY_FLAG);
        }
        self.register_a = res;
        Ok(())
    }

    #[verifier::rlimit(100)]
    pub(crate) fn arr(&mut self, mode: AddressingMode) -> (r: Result<(), EmuError>)
        requires
            old(self).wf(),
        ensures
            spec_sem_post(spec_arr(old(self)@, mode), final(self)@, r),
    {
        let (_addr, data) = match self.operand_value(mode) {
            Ok(t) => t,
            Err(e) => {
                return Err(e);
            },
        };
        let anded = self.register_a & data;
        let res: u8 = anded / 2 + (anded % 2) * 128;
        let bit4 = res & 0x10 != 0;
        let bit5 = res & 0x20 != 0;
        if !bit4 && !bit5 {
            self.remove_flag(CARRY_FLAG);
            self.remove_flag(OVERFLOW_FLAG);
        } else if bit4 && !bit5 {
            self.set_flag(OVERFLOW_FLAG);
            self.set_flag(CARRY_FLAG);
        } else if !bit4 && bit5 {
            self.remove_flag(CARRY_FLAG);
            self.set_flag(OVERFLOW_FLAG);
        } else {
            self.set_flag(CARRY_FLAG);
            self.remove_flag(OVERFLOW_FLAG);
        }
        self.update_neg_and_zero_status(res);
        self.register_a = res;
        Ok(())
    }

    #[verifier::rlimit(100)]
    pub(crate) fn atx(&mut self, mode: AddressingMode) -> (r: Result<(), EmuError>)
        requires
            old(self).wf(),
        ensures
            spec_sem_post(spec_atx(old(self)@, mode), final(self)@, r),
    {
        let (_addr, data) = match self.operand_value(mode) {
            Ok(t) => t,
            Err(e) => {
                return Err(e);
            },
        };
        let a2 = self.register_a & data;
        self.register_a = a2;
        self.register_x = a2;
        self.update_neg_and_zero_status(a2);
        Ok(())
    }

    #[verifier::rlimit(50)]
    pub(crate) fn axs(&mut self, mode: AddressingMode) -> (r: Result<(), EmuError>)
        requires
            old(self).wf(),
        ensures
            spec_sem_post(spec_axs(old(self)@, mode), final(self)@, r),
    {
        let (_addr, data) = match self.operand_value(mode) {
            Ok(t) => t,
            Err(e) => {
                return Err(e);
            },
        };
        let x_and_a = self.register_x & self.register_a;
        let result = x_and_a.wrapping_sub(data);
        if data <= x_and_a {
            self.set_flag(CARRY_FLAG);
        } else {
            self.remove_flag(CARRY_FLAG);
        }
        self.register_x = result;
        self.update_neg_and_zero_status(result);
        Ok(())
    }

    #[verifier::rlimit(100)]
    pub(crate) fn axa(&mut self, mode: AddressingMode) -> (r: Result<(), EmuError>)
        requires
            old(self).wf(),
        ensures
            spec_sem_post(spec_axa(old(self)@, mode), final(self)@, r),
    {
        let addr = match self.get_operand_address(mode) {
            Ok(a) => a,
            Err(e) => {
                return Err(e);
            },
        };
        let data = self.register_a & self.register_x & ((addr / 256) as u8);
        self.mem_write(addr, data)
    }

    #[verifier::rlimit(100)]
    pub(crate) fn sxa(&mut self, mode: AddressingMode) -> (r: Result<(), EmuError>)
        requires
            old(self).wf(),
        ensures
            spec_sem_post(spec_sxa(old(self)@, mode), final(self)@, r),
    {
        let addr = match self.get_operand_address(mode) {
            Ok(a) => a,
            Err(e) => {
                return Err(e);
            },
        };
        let h1: u8 = ((addr / 256 + 1) % 256) as u8;
        let data = self.register_x & h1;
        self.mem_write(addr, data)
    }

    #[verifier::rlimit(100)]
    pub(crate) fn sya(&mut self, mode: AddressingMode) -> (r: Result<(), EmuError>)
        requires
            old(self).wf(),
        ensures
            spec_sem_post(spec_sya(old(self)@, mode), final(self)@, r),
    {
        let addr = match self.get_operand_address(mode) {
            Ok(a) => a,
            Err(e) => {
                return Err(e);
            },
        };
        let h1: u8 = ((addr / 256 + 1) % 256) as u8;
        let data = self.register_y & h1;
        self.mem_write(addr, data)
    }

    #[verifier::rlimit(100)]
    pub(crate) fn xas(&mut self, mode: AddressingMode) -> (r: Result<(), EmuError>)
        requires
            old(self).wf(),
        ensures
            spec_sem_post(spec_xas(old(self)@, mode), final(self)@, r),
    {
        let addr = match self.get_operand_address(mode) {
            Ok(a) => a,
            Err(e) => {
                return Err(e);
            },
        };
        self.stack_pointer = self.register_a & self.register_x;
        let h1: u8 = ((addr / 256 + 1) % 256) as u8;
        let data = self.stack_pointer & h1;
        self.mem_write(addr, data)
    }

    #[verifier::rlimit(100)]
    pub(crate) fn lar(&mut self, mode: AddressingMode) -> (r: Result<(), EmuError>)
        requires
            old(self).wf(),
        ensures
            spec_sem_post(spec_lar(old(self)@, mode), final(self)@, r),
    {
        let (_addr, data) = match self.operand_value(mode) {
            Ok(t) => t,
            Err(e) => {
                return Err(e);
            },
        };
        let res = data & self.stack_pointer;
        self.update_neg_and_zero_status(res);
        self.register_a = res;
        self.register_x = res;
        self.stack_pointer = res;
        Ok(())
    }

    /// The dummy read the 2- and 3-byte unofficial no-ops perform.
    #[verifier::rlimit(100)]
    pub(crate) fn dummy_read(&mut self, mode: AddressingMode) -> (r: Result<(), EmuError>)
        requires
            old(self).wf(),
        ensures
            spec_sem_post(spec_dummy_read(old(self)@, mode), final(self)@, r),
    {
        let (_addr, _data) = match self.operand_value(mode) {
            Ok(t) => t,
            Err(e) => {
                return Err(e);
            },
        };
        Ok(())
    }
}

} // verus!
