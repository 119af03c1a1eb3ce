//! A minimal stand-alone interpreter over a bare byte program: LDA
//! immediate, TAX, INX and BRK, with Z and N tracked. It runs the
//! program from index zero and stops at BRK, at an opcode it does not
//! know, or at the end of the program.

use vstd::prelude::*;

use crate::cpu::constants::{NEGATIVE_FLAG, ZERO_FLAG};
use crate::cpu::semantics::{spec_wrap8, spec_zn};

verus! {

/// Registers of the minimal interpreter.
pub ghost struct InterpView {
    pub a: u8,
    pub x: u8,
    pub y: u8,
    pub status: u8,
    pub pc: u16,
}

/// The whole run of the minimal interpreter from state `s`: it consumes
/// opcodes until BRK, an unknown opcode, the end of the program, or the
/// end of the 16-bit program counter's range.
pub open spec fn spec_interpret(s: InterpView, program: Seq<u8>) -> InterpView
    decreases program.len() - s.pc,
{
    if s.pc >= program.len() || s.pc == 0xFFFF {
        s
    } else {
        let op = program[s.pc as int];
        let s1 = InterpView { pc: (s.pc + 1) as u16, ..s };
        if op == 0x00 {
            s1
        } else if op == 0xA9 {
            if s1.pc >= program.len() || s1.pc == 0xFFFF {
                s1
            } else {
                let v = program[s1.pc as int];
                spec_interpret(
                    InterpView {
                        a: v,
                        status: spec_zn(s1.status, v),
                        pc: (s1.pc + 1) as u16,
                        ..s1
                    },
                    program,
                )
            }
        } else if op == 0xAA {
            spec_interpret(InterpView { x: s1.a, status: spec_zn(s1.status, s1.a), ..s1 }, program)
        } else if op == 0xE8 {
            let v = spec_wrap8(s1.x + 1);
            spec_interpret(InterpView { x: v, status: spec_zn(s1.status, v), ..s1 }, program)
        } else {
            s1
        }
    }
}

/// The minimal interpreter's registers.
pub struct CPU {
    pub register_a: u8,
    pub register_x: u8,
    pub register_y: u8,
    pub status: u8,
    pub program_counter: u16,
}

impl View for CPU {
    type V = InterpView;

    open spec fn view(&self) -> InterpView {
        InterpView {
            a: self.register_a,
            x: self.register_x,
            y: self.register_y,
            status: self.status,
            pc: self.program_counter,
        }
    }
}

impl CPU {
    pub fn new() -> (r: CPU)
        ensures
            r@ == (InterpView { a: 0, x: 0, y: 0, status: 0, pc: 0 }),
    {
        CPU { register_a: 0, register_x: 0, register_y: 0, status: 0, program_counter: 0 }
    }

    fn apply_status(&mut self, flag: u8)
        ensures
            final(self)@ == (InterpView { status: old(self)@.status | flag, ..old(self)@ }),
    {
        self.status = self.status | flag;
    }

    fn remove_status(&mut self, flag: u8)
        ensures
            final(self)@ == (InterpView { status: old(self)@.status & !flag, ..old(self)@ }),
    {
        self.status = self.status & !flag;
    }

    fn update_neg_and_zero_status(&mut self, reg: u8)
        ensures
            final(self)@ == (InterpView {
                status: spec_zn(old(self)@.status, reg),
                ..old(self)@
            }),
    {
        if reg == 0 {
            self.apply_status(ZERO_FLAG);
        } else {
            self.remove_status(ZERO_FLAG);
        }
        if reg & NEGATIVE_FLAG != 0 {
            self.apply_status(NEGATIVE_FLAG);
        } else {
            self.remove_status(NEGATIVE_FLAG);
        }
    }

    /// Run the program from its start, exactly as `spec_interpret` says.
    pub fn interpret(&mut self, program: Vec<u8>)
        ensures
            final(self)@ == spec_interpret(
                (InterpView { pc: 0, ..old(self)@ }),
                program@,
            ),
    {
        self.program_counter = 0;
        let ghost init = InterpView { pc: 0, ..old(self)@ };
        loop
            invariant
                self@.pc <= program@.len(),
                init == (InterpView { pc: 0, ..old(self)@ }),
                spec_interpret(self@, program@) == spec_interpret(init, program@),
            decreases program@.len() - self@.pc,
        {
            let ghost head = self@;
            let pc = self.program_counter;
            if pc as usize >= program.len() || pc == 0xFFFF {
                return ;
            }
            let op = program[pc as usize];
            self.program_counter = pc + 1;
            if op == 0x00 {
                proof {
                    assert(spec_interpret(head, program@) == self@) by {
                        reveal_with_fuel(spec_interpret, 2);
                    }
                }
                return ;
            } else if op == 0xA9 {
                let pc1 = self.program_counter;
                if pc1 as usize >= program.len() || pc1 == 0xFFFF {
                    proof {
                        assert(spec_interpret(head, program@) == self@) by {
                            reveal_with_fuel(spec_interpret, 2);
                        }
                    }
                    return ;
                }
                let v = program[pc1 as usize];
                self.register_a = v;
                self.update_neg_and_zero_status(v);
                self.program_counter = pc1 + 1;
            } else if op == 0xAA {
                self.register_x = self.register_a;
                let v = self.register_x;
                self.update_neg_and_zero_status(v);
            } else if op == 0xE8 {
                self.register_x = self.register_x.wrapping_add(1);
                let v = self.register_x;
                self.update_neg_and_zero_status(v);
            } else {
                proof {
                    assert(spec_interpret(head, program@) == self@) by {
                        reveal_with_fuel(spec_interpret, 2);
                    }
                }
                return ;
            }
        }
    }
}

} // verus!
