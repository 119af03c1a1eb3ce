//! The trace formatter: one 73-column line per instruction in the
//! Nintendulator nestest.log format, specified character by character.

use vstd::prelude::*;

use crate::bus::{spec_bus_peek, spec_wrap16};
use crate::cpu::opcodes::{opcode_for, opcode_spec, spec_is_unofficial, Mnemonic, Opcode};
use crate::cpu::semantics::{spec_wrap8, CpuView};
use crate::cpu::{AddressingMode, CPU};
use crate::errors::EmuError;

verus! {

/// One hexadecimal digit, upper case.
pub open spec fn spec_hex_digit(d: int) -> char {
    if d == 0 {
        '0'
    } else if d == 1 {
        '1'
    } else if d == 2 {
        '2'
    } else if d == 3 {
        '3'
    } else if d == 4 {
        '4'
    } else if d == 5 {
        '5'
    } else if d == 6 {
        '6'
    } else if d == 7 {
        '7'
    } else if d == 8 {
        '8'
    } else if d == 9 {
        '9'
    } else if d == 10 {
        'A'
    } else if d == 11 {
        'B'
    } else if d == 12 {
        'C'
    } else if d == 13 {
        'D'
    } else if d == 14 {
        'E'
    } else {
        'F'
    }
}

/// A byte as two hex digits.
#[verifier::opaque]
pub open spec fn spec_hex2(v: u8) -> Seq<char> {
    seq![spec_hex_digit(v as int / 16), spec_hex_digit(v as int % 16)]
}

/// A 16-bit value as four hex digits.
pub open spec fn spec_hex4(v: u16) -> Seq<char> {
    spec_hex2((v / 256) as u8) + spec_hex2((v % 256) as u8)
}

/// Left-aligned padding with spaces up to `n` characters.
pub open spec fn spec_pad_to(s: Seq<char>, n: int) -> Seq<char> {
    if s.len() >= n {
        s
    } else {
        s + Seq::new((n - s.len()) as nat, |i: int| ' ')
    }
}

/// The printed mnemonic: three letters, with the unofficial no-op
/// variants collapsing to NOP and the 0xEB alias printing as SBC.
#[verifier::opaque]
pub open spec fn spec_mnemonic_chars(m: Mnemonic) -> Seq<char> {
    match m {
        Mnemonic::Brk => seq!['B', 'R', 'K'],
        Mnemonic::Adc => seq!['A', 'D', 'C'],
        Mnemonic::And => seq!['A', 'N', 'D'],
        Mnemonic::Asl => seq!['A', 'S', 'L'],
        Mnemonic::Bcc => seq!['B', 'C', 'C'],
        Mnemonic::Bcs => seq!['B', 'C', 'S'],
        Mnemonic::Beq => seq!['B', 'E', 'Q'],
        Mnemonic::Bit => seq!['B', 'I', 'T'],
        Mnemonic::Bmi => seq!['B', 'M', 'I'],
        Mnemonic::Bne => seq!['B', 'N', 'E'],
        Mnemonic::Bpl => seq!['B', 'P', 'L'],
        Mnemonic::Bvc => seq!['B', 'V', 'C'],
        Mnemonic::Bvs => seq!['B', 'V', 'S'],
        Mnemonic::Clc => seq!['C', 'L', 'C'],
        Mnemonic::Cld => seq!['C', 'L', 'D'],
        Mnemonic::Cli => seq!['C', 'L', 'I'],
        Mnemonic::Clv => seq!['C', 'L', 'V'],
        Mnemonic::Cmp => seq!['C', 'M', 'P'],
        Mnemonic::Cpx => seq!['C', 'P', 'X'],
        Mnemonic::Cpy => seq!['C', 'P', 'Y'],
        Mnemonic::Dec => seq!['D', 'E', 'C'],
        Mnemonic::Dex => seq!['D', 'E', 'X'],
        Mnemonic::Dey => seq!['D', 'E', 'Y'],
        Mnemonic::Eor => seq!['E', 'O', 'R'],
        Mnemonic::Inc => seq!['I', 'N', 'C'],
        Mnemonic::Inx => seq!['I', 'N', 'X'],
        Mnemonic::Iny => seq!['I', 'N', 'Y'],
        Mnemonic::Jmp => seq!['J', 'M', 'P'],
        Mnemonic::Jsr => seq!['J', 'S', 'R'],
        Mnemonic::Lda => seq!['L', 'D', 'A'],
        Mnemonic::Ldx => seq!['L', 'D', 'X'],
        Mnemonic::Ldy => seq!['L', 'D', 'Y'],
        Mnemonic::Lsr => seq!['L', 'S', 'R'],
        Mnemonic::Nop => seq!['N', 'O', 'P'],
        Mnemonic::Ora => seq!['O', 'R', 'A'],
        Mnemonic::Pha => seq!['P', 'H', 'A'],
        Mnemonic::Php => seq!['P', 'H', 'P'],
        Mnemonic::Pla => seq!['P', 'L', 'A'],
        Mnemonic::Plp => seq!['P', 'L', 'P'],
        Mnemonic::Rol => seq!['R', 'O', 'L'],
        Mnemonic::Ror => seq!['R', 'O', 'R'],
        Mnemonic::Rti => seq!['R', 'T', 'I'],
        Mnemonic::Rts => seq!['R', 'T', 'S'],
        Mnemonic::Sbc => seq!['S', 'B', 'C'],
        Mnemonic::Sec => seq!['S', 'E', 'C'],
        Mnemonic::Sed => seq!['S', 'E', 'D'],
        Mnemonic::Sei => seq!['S', 'E', 'I'],
        Mnemonic::Sta => seq!['S', 'T', 'A'],
        Mnemonic::Stx => seq!['S', 'T', 'X'],
        Mnemonic::Sty => seq!['S', 'T', 'Y'],
        Mnemonic::Tax => seq!['T', 'A', 'X'],
        Mnemonic::Tay => seq!['T', 'A', 'Y'],
        Mnemonic::Tsx => seq!['T', 'S', 'X'],
        Mnemonic::Txa => seq!['T', 'X', 'A'],
        Mnemonic::Txs => seq!['T', 'X', 'S'],
        Mnemonic::Tya => seq!['T', 'Y', 'A'],
        Mnemonic::Aac => seq!['A', 'A', 'C'],
        Mnemonic::Aax => seq!['S', 'A', 'X'],
        Mnemonic::Arr => seq!['A', 'R', 'R'],
        Mnemonic::Asr => seq!['A', 'S', 'R'],
        Mnemonic::Atx => seq!['A', 'T', 'X'],
        Mnemonic::Axa => seq!['A', 'X', 'A'],
        Mnemonic::Axs => seq!['A', 'X', 'S'],
        Mnemonic::Dcp => seq!['D', 'C', 'P'],
        Mnemonic::Dop => seq!['N', 'O', 'P'],
        Mnemonic::Isb => seq!['I', 'S', 'B'],
        Mnemonic::Lar => seq!['L', 'A', 'R'],
        Mnemonic::Lax => seq!['L', 'A', 'X'],
        Mnemonic::NopU => seq!['N', 'O', 'P'],
        Mnemonic::Rla => seq!['R', 'L', 'A'],
        Mnemonic::Rra => seq!['R', 'R', 'A'],
        Mnemonic::SbcU => seq!['S', 'B', 'C'],
        Mnemonic::Slo => seq!['S', 'L', 'O'],
        Mnemonic::Sre => seq!['S', 'R', 'E'],
        Mnemonic::Sxa => seq!['S', 'X', 'A'],
        Mnemonic::Sya => seq!['S', 'Y', 'A'],
        Mnemonic::Top => seq!['N', 'O', 'P'],
        Mnemonic::Xas => seq!['X', 'A', 'S'],
    }
}

/// The first operand byte, as the trace shows it (a side-effect-free
/// peek past the opcode).
pub open spec fn spec_arg1(c: CpuView) -> u8 {
    spec_bus_peek(c.bus, spec_wrap16(c.pc + 1))
}

/// The second operand byte.
pub open spec fn spec_arg2(c: CpuView) -> u8 {
    spec_bus_peek(c.bus, spec_wrap16(c.pc + 2))
}

/// The raw instruction bytes, left-aligned in a nine-character column.
pub open spec fn spec_bytes_field(c: CpuView, op: Opcode) -> Seq<char> {
    if op.bytes == 1 {
        spec_hex2(op.code) + seq![' ', ' ', ' ', ' ', ' ', ' ', ' ']
    } else if op.bytes == 2 {
        spec_hex2(op.code) + seq![' '] + spec_hex2(spec_arg1(c)) + seq![' ', ' ', ' ', ' ']
    } else {
        spec_hex2(op.code) + seq![' '] + spec_hex2(spec_arg1(c)) + seq![' '] + spec_hex2(
            spec_arg2(c),
        ) + seq![' ']
    }
}

/// The mnemonic column: four characters, right-aligned, a `*` marking
/// unofficial opcodes.
pub open spec fn spec_mnemonic_field(op: Opcode) -> Seq<char> {
    if spec_is_unofficial(op.mnemonic) {
        seq!['*'] + spec_mnemonic_chars(op.mnemonic)
    } else {
        seq![' '] + spec_mnemonic_chars(op.mnemonic)
    }
}

/// The operand disassembly, before padding, exactly as nestest.log
/// prints each addressing mode. All memory values are side-effect-free
/// peeks.
pub open spec fn spec_operand_field(c: CpuView, op: Opcode) -> Seq<char> {
    let a1 = spec_arg1(c);
    let a2 = spec_arg2(c);
    let base16 = (a2 * 256 + a1) as u16;
    match op.mode {
        AddressingMode::Accumulator => seq!['A'],
        AddressingMode::Immediate => seq!['#', '$'] + spec_hex2(a1),
        AddressingMode::ZeroPage => seq!['$'] + spec_hex2(a1) + seq![' ', '=', ' '] + spec_hex2(
            spec_bus_peek(c.bus, a1 as u16),
        ),
        AddressingMode::ZeroPage_X => {
            let addr = spec_wrap8(a1 + c.x);
            seq!['$'] + spec_hex2(a1) + seq![',', 'X', ' ', '@', ' '] + spec_hex2(addr) + seq![
                ' ',
                '=',
                ' ',
            ] + spec_hex2(spec_bus_peek(c.bus, addr as u16))
        },
        AddressingMode::ZeroPage_Y => {
            let addr = spec_wrap8(a1 + c.y);
            seq!['$'] + spec_hex2(a1) + seq![',', 'Y', ' ', '@', ' '] + spec_hex2(addr) + seq![
                ' ',
                '=',
                ' ',
            ] + spec_hex2(spec_bus_peek(c.bus, addr as u16))
        },
        AddressingMode::Relative => {
            let target = spec_wrap16(
                c.pc + 2 + (if a1 >= 0x80 {
                    0xFF00 + a1
                } else {
                    a1 as int
                }),
            );
            seq!['$'] + spec_hex4(target)
        },
        AddressingMode::Absolute => if op.mnemonic == Mnemonic::Jmp || op.mnemonic
            == Mnemonic::Jsr {
            seq!['$'] + spec_hex4(base16)
        } else {
            seq!['$'] + spec_hex4(base16) + seq![' ', '=', ' '] + spec_hex2(
                spec_bus_peek(c.bus, base16),
            )
        },
        AddressingMode::Absolute_X => {
            let eff = spec_wrap16(base16 + c.x);
            seq!['$'] + spec_hex4(base16) + seq![',', 'X', ' ', '@', ' '] + spec_hex4(eff)
                + seq![' ', '=', ' '] + spec_hex2(spec_bus_peek(c.bus, eff))
        },
        AddressingMode::Absolute_Y => {
            let eff = spec_wrap16(base16 + c.y);
            seq!['$'] + spec_hex4(base16) + seq![',', 'Y', ' ', '@', ' '] + spec_hex4(eff)
                + seq![' ', '=', ' '] + spec_hex2(spec_bus_peek(c.bus, eff))
        },
        AddressingMode::Indirect => {
            let hi_addr: u16 = if base16 % 256 == 0xFF {
                (base16 - 0xFF) as u16
            } else {
                (base16 + 1) as u16
            };
            let target = (spec_bus_peek(c.bus, hi_addr) * 256 + spec_bus_peek(
                c.bus,
                base16,
            )) as u16;
            seq!['(', '$'] + spec_hex4(base16) + seq![')', ' ', '=', ' '] + spec_hex4(target)
        },
        AddressingMode::Indirect_X => {
            let ptr = spec_wrap8(a1 + c.x);
            let target = (spec_bus_peek(c.bus, spec_wrap8(ptr + 1) as u16) * 256 + spec_bus_peek(
                c.bus,
                ptr as u16,
            )) as u16;
            seq!['(', '$'] + spec_hex2(a1) + seq![',', 'X', ')', ' ', '@', ' '] + spec_hex2(ptr)
                + seq![' ', '=', ' '] + spec_hex4(target) + seq![' ', '=', ' '] + spec_hex2(
                spec_bus_peek(c.bus, target),
            )
        },
        AddressingMode::Indirect_Y => {
            let ptr = (spec_bus_peek(c.bus, spec_wrap8(a1 + 1) as u16) * 256 + spec_bus_peek(
                c.bus,
                a1 as u16,
            )) as u16;
            let eff = spec_wrap16(ptr + c.y);
            seq!['(', '$'] + spec_hex2(a1) + seq![')', ',', 'Y', ' ', '=', ' '] + spec_hex4(ptr)
                + seq![' ', '@', ' '] + spec_hex4(eff) + seq![' ', '=', ' '] + spec_hex2(
                spec_bus_peek(c.bus, eff),
            )
        },
        AddressingMode::Implied => Seq::empty(),
        AddressingMode::NoneAddressing => Seq::empty(),
    }
}

/// The register dump that closes each line.
pub open spec fn spec_regs_field(c: CpuView) -> Seq<char> {
    seq!['A', ':'] + spec_hex2(c.a) + seq![' ', 'X', ':'] + spec_hex2(c.x) + seq![' ', 'Y', ':']
        + spec_hex2(c.y) + seq![' ', 'P', ':'] + spec_hex2(c.p) + seq![' ', 'S', 'P', ':']
        + spec_hex2(c.sp)
}

/// The whole 73-column trace line for the instruction at the current
/// program counter.
pub open spec fn spec_trace_line(c: CpuView, op: Opcode) -> Seq<char> {
    spec_hex4(c.pc) + seq![' ', ' '] + spec_bytes_field(c, op) + spec_mnemonic_field(op) + seq![
        ' ',
    ] + spec_pad_to(spec_operand_field(c, op), 28) + spec_regs_field(c)
}

/// Relies on `String`'s `FromIterator` implementation: collecting
/// characters yields a string holding exactly those characters.
#[verifier::external_body]
fn chars_to_string(v: Vec<char>) -> (r: String)
    ensures
        r@ == v@,
{
    v.into_iter().collect()
}

impl CPU {
    fn lit1(a: char) -> (r: Vec<char>)
        ensures
            r@ == seq![a],
    {
        let mut v: Vec<char> = Vec::new();
        v.push(a);
        proof {
            assert(v@ =~= seq![a]);
        }
        v
    }

    fn lit2(a: char, b: char) -> (r: Vec<char>)
        ensures
            r@ == seq![a, b],
    {
        let mut v: Vec<char> = Vec::new();
        v.push(a);
        v.push(b);
        proof {
            assert(v@ =~= seq![a, b]);
        }
        v
    }

    fn lit3(a: char, b: char, c: char) -> (r: Vec<char>)
        ensures
            r@ == seq![a, b, c],
    {
        let mut v: Vec<char> = Vec::new();
        v.push(a);
        v.push(b);
        v.push(c);
        proof {
            assert(v@ =~= seq![a, b, c]);
        }
        v
    }

    fn hex_digit(d: u8) -> (r: char)
        requires
            d < 16,
        ensures
            r == spec_hex_digit(d as int),
    {
        if d == 0 {
            '0'
        } else if d == 1 {
            '1'
        } else if d == 2 {
            '2'
        } else if d == 3 {
            '3'
        } else if d == 4 {
            '4'
        } else if d == 5 {
            '5'
        } else if d == 6 {
            '6'
        } else if d == 7 {
            '7'
        } else if d == 8 {
            '8'
        } else if d == 9 {
            '9'
        } else if d == 10 {
            'A'
        } else if d == 11 {
            'B'
        } else if d == 12 {
            'C'
        } else if d == 13 {
            'D'
        } else if d == 14 {
            'E'
        } else {
            'F'
        }
    }

    fn hex2_chars(v: u8) -> (r: Vec<char>)
        ensures
            r@ == spec_hex2(v),
    {
        proof {
            reveal(spec_hex2);
        }
        let hi = Self::hex_digit(v / 16);
        let lo = Self::hex_digit(v % 16);
        Self::lit2(hi, lo)
    }

    fn hex4_chars(v: u16) -> (r: Vec<char>)
        ensures
            r@ == spec_hex4(v),
    {
        let mut r = Self::hex2_chars((v / 256) as u8);
        let mut t = Self::hex2_chars((v % 256) as u8);
        r.append(&mut t);
        r
    }

    fn mnemonic_chars(m: Mnemonic) -> (r: Vec<char>)
        ensures
            r@ == spec_mnemonic_chars(m),
    {
        proof {
            reveal(spec_mnemonic_chars);
        }
        match m {
            Mnemonic::Brk => Self::lit3('B', 'R', 'K'),
            Mnemonic::Adc => Self::lit3('A', 'D', 'C'),
            Mnemonic::And => Self::lit3('A', 'N', 'D'),
            Mnemonic::Asl => Self::lit3('A', 'S', 'L'),
            Mnemonic::Bcc => Self::lit3('B', 'C', 'C'),
            Mnemonic::Bcs => Self::lit3('B', 'C', 'S'),
            Mnemonic::Beq => Self::lit3('B', 'E', 'Q'),
            Mnemonic::Bit => Self::lit3('B', 'I', 'T'),
            Mnemonic::Bmi => Self::lit3('B', 'M', 'I'),
            Mnemonic::Bne => Self::lit3('B', 'N', 'E'),
            Mnemonic::Bpl => Self::lit3('B', 'P', 'L'),
            Mnemonic::Bvc => Self::lit3('B', 'V', 'C'),
            Mnemonic::Bvs => Self::lit3('B', 'V', 'S'),
            Mnemonic::Clc => Self::lit3('C', 'L', 'C'),
            Mnemonic::Cld => Self::lit3('C', 'L', 'D'),
            Mnemonic::Cli => Self::lit3('C', 'L', 'I'),
            Mnemonic::Clv => Self::lit3('C', 'L', 'V'),
            Mnemonic::Cmp => Self::lit3('C', 'M', 'P'),
            Mnemonic::Cpx => Self::lit3('C', 'P', 'X'),
            Mnemonic::Cpy => Self::lit3('C', 'P', 'Y'),
            Mnemonic::Dec => Self::lit3('D', 'E', 'C'),
            Mnemonic::Dex => Self::lit3('D', 'E', 'X'),
            Mnemonic::Dey => Self::lit3('D', 'E', 'Y'),
            Mnemonic::Eor => Self::lit3('E', 'O', 'R'),
            Mnemonic::Inc => Self::lit3('I', 'N', 'C'),
            Mnemonic::Inx => Self::lit3('I', 'N', 'X'),
            Mnemonic::Iny => Self::lit3('I', 'N', 'Y'),
            Mnemonic::Jmp => Self::lit3('J', 'M', 'P'),
            Mnemonic::Jsr => Self::lit3('J', 'S', 'R'),
            Mnemonic::Lda => Self::lit3('L', 'D', 'A'),
            Mnemonic::Ldx => Self::lit3('L', 'D', 'X'),
            Mnemonic::Ldy => Self::lit3('L', 'D', 'Y'),
            Mnemonic::Lsr => Self::lit3('L', 'S', 'R'),
            Mnemonic::Nop => Self::lit3('N', 'O', 'P'),
            Mnemonic::Ora => Self::lit3('O', 'R', 'A'),
            Mnemonic::Pha => Self::lit3('P', 'H', 'A'),
            Mnemonic::Php => Self::lit3('P', 'H', 'P'),
            Mnemonic::Pla => Self::lit3('P', 'L', 'A'),
            Mnemonic::Plp => Self::lit3('P', 'L', 'P'),
            Mnemonic::Rol => Self::lit3('R', 'O', 'L'),
            Mnemonic::Ror => Self::lit3('R', 'O', 'R'),
            Mnemonic::Rti => Self::lit3('R', 'T', 'I'),
            Mnemonic::Rts => Self::lit3('R', 'T', 'S'),
            Mnemonic::Sbc => Self::lit3('S', 'B', 'C'),
            Mnemonic::Sec => Self::lit3('S', 'E', 'C'),
            Mnemonic::Sed => Self::lit3('S', 'E', 'D'),
            Mnemonic::Sei => Self::lit3('S', 'E', 'I'),
            Mnemonic::Sta => Self::lit3('S', 'T', 'A'),
            Mnemonic::Stx => Self::lit3('S', 'T', 'X'),
            Mnemonic::Sty => Self::lit3('S', 'T', 'Y'),
            Mnemonic::Tax => Self::lit3('T', 'A', 'X'),
            Mnemonic::Tay => Self::lit3('T', 'A', 'Y'),
            Mnemonic::Tsx => Self::lit3('T', 'S', 'X'),
            Mnemonic::Txa => Self::lit3('T', 'X', 'A'),
            Mnemonic::Txs => Self::lit3('T', 'X', 'S'),
            Mnemonic::Tya => Self::lit3('T', 'Y', 'A'),
            Mnemonic::Aac => Self::lit3('A', 'A', 'C'),
            Mnemonic::Aax => Self::lit3('S', 'A', 'X'),
            Mnemonic::Arr => Self::lit3('A', 'R', 'R'),
            Mnemonic::Asr => Self::lit3('A', 'S', 'R'),
            Mnemonic::Atx => Self::lit3('A', 'T', 'X'),
            Mnemonic::Axa => Self::lit3('A', 'X', 'A'),
            Mnemonic::Axs => Self::lit3('A', 'X', 'S'),
            Mnemonic::Dcp => Self::lit3('D', 'C', 'P'),
            Mnemonic::Dop => Self::lit3('N', 'O', 'P'),
            Mnemonic::Isb => Self::lit3('I', 'S', 'B'),
            Mnemonic::Lar => Self::lit3('L', 'A', 'R'),
            Mnemonic::Lax => Self::lit3('L', 'A', 'X'),
            Mnemonic::NopU => Self::lit3('N', 'O', 'P'),
            Mnemonic::Rla => Self::lit3('R', 'L', 'A'),
            Mnemonic::Rra => Self::lit3('R', 'R', 'A'),
            Mnemonic::SbcU => Self::lit3('S', 'B', 'C'),
            Mnemonic::Slo => Self::lit3('S', 'L', 'O'),
            Mnemonic::Sre => Self::lit3('S', 'R', 'E'),
            Mnemonic::Sxa => Self::lit3('S', 'X', 'A'),
            Mnemonic::Sya => Self::lit3('S', 'Y', 'A'),
            Mnemonic::Top => Self::lit3('N', 'O', 'P'),
            Mnemonic::Xas => Self::lit3('X', 'A', 'S'),
        }
    }

    fn is_unofficial(m: Mnemonic) -> (r: bool)
        ensures
            r == spec_is_unofficial(m),
    {
        match m {
            Mnemonic::Aac
        | Mnemonic::Aax
        | Mnemonic::Arr
        | Mnemonic::Asr
        | Mnemonic::Atx
        | Mnemonic::Axa
        | Mnemonic::Axs
        | Mnemonic::Dcp
        | Mnemonic::Dop
        | Mnemonic::Isb
        | Mnemonic::Lar
        | Mnemonic::Lax
        | Mnemonic::NopU
        | Mnemonic::Rla
        | Mnemonic::Rra
        | Mnemonic::SbcU
        | Mnemonic::Slo
        | Mnemonic::Sre
        | Mnemonic::Sxa
        | Mnemonic::Sya
        | Mnemonic::Top
        | Mnemonic::Xas => true,
            _ => false,
        }
    }

    fn pad_spaces(out: &mut Vec<char>, target: usize)
        ensures
            final(out)@ == spec_pad_to(old(out)@, target as int),
    {
        if out.len() >= target {
            return ;
        }
        let ghost orig = out@;
        let ghost total = target - orig.len();
        while out.len() < target
            invariant
                orig.len() <= out@.len() <= target,
                out@ == orig + Seq::new((out@.len() - orig.len()) as nat, |i: int| ' '),
            decreases target - out@.len(),
        {
            out.push(' ');
            proof {
                assert(out@ =~= orig + Seq::new((out@.len() - orig.len()) as nat, |i: int| ' '));
            }
        }
        proof {
            assert(out@ =~= spec_pad_to(orig, target as int));
        }
    }
}


impl CPU {
    fn spaces4() -> (r: Vec<char>)
        ensures
            r@ == seq![' ', ' ', ' ', ' '],
    {
        let mut v = Self::lit2(' ', ' ');
        let mut t = Self::lit2(' ', ' ');
        v.append(&mut t);
        proof {
            assert(v@ =~= seq![' ', ' ', ' ', ' ']);
        }
        v
    }

    fn spaces7() -> (r: Vec<char>)
        ensures
            r@ == seq![' ', ' ', ' ', ' ', ' ', ' ', ' '],
    {
        let mut v = Self::spaces4();
        let mut t = Self::lit3(' ', ' ', ' ');
        v.append(&mut t);
        proof {
            assert(v@ =~= seq![' ', ' ', ' ', ' ', ' ', ' ', ' ']);
        }
        v
    }

    /// The first operand byte, as the trace peeks it.
    fn arg1(&self) -> (r: u8)
        requires
            self.wf(),
        ensures
            r == spec_arg1(self@),
    {
        self.bus.peek(self.program_counter.wrapping_add(1))
    }

    /// The second operand byte.
    fn arg2(&self) -> (r: u8)
        requires
            self.wf(),
        ensures
            r == spec_arg2(self@),
    {
        self.bus.peek(self.program_counter.wrapping_add(2))
    }

    fn trace_bytes_field(&self, op: Opcode) -> (r: Vec<char>)
        requires
            self.wf(),
        ensures
            r@ == spec_bytes_field(self@, op),
    {
        if op.bytes == 1 {
            let mut r = Self::hex2_chars(op.code);
            let mut t = Self::spaces7();
            r.append(&mut t);
            r
        } else if op.bytes == 2 {
            let mut r = Self::hex2_chars(op.code);
            let mut t1 = Self::lit1(' ');
            r.append(&mut t1);
            let mut t2 = Self::hex2_chars(self.arg1());
            r.append(&mut t2);
            let mut t3 = Self::spaces4();
            r.append(&mut t3);
            r
        } else {
            let mut r = Self::hex2_chars(op.code);
            let mut t1 = Self::lit1(' ');
            r.append(&mut t1);
            let mut t2 = Self::hex2_chars(self.arg1());
            r.append(&mut t2);
            let mut t3 = Self::lit1(' ');
            r.append(&mut t3);
            let mut t4 = Self::hex2_chars(self.arg2());
            r.append(&mut t4);
            let mut t5 = Self::lit1(' ');
            r.append(&mut t5);
            r
        }
    }

    fn trace_mnemonic_field(op: Opcode) -> (r: Vec<char>)
        ensures
            r@ == spec_mnemonic_field(op),
    {
        let mut r = if Self::is_unofficial(op.mnemonic) {
            Self::lit1('*')
        } else {
            Self::lit1(' ')
        };
        let mut t = Self::mnemonic_chars(op.mnemonic);
        r.append(&mut t);
        r
    }

    #[verifier::rlimit(100)]
    fn operand_field_zp(&self, op: Opcode) -> (r: Vec<char>)
        requires
            self.wf(),
            op.mode == AddressingMode::Accumulator || op.mode == AddressingMode::Immediate || op.mode == AddressingMode::ZeroPage || op.mode == AddressingMode::ZeroPage_X || op.mode == AddressingMode::ZeroPage_Y || op.mode == AddressingMode::Relative,
        ensures
            r@ == spec_operand_field(self@, op),
    {
        let a1 = self.arg1();
        let a2 = self.arg2();
        let base16: u16 = (a2 as u16) * 256 + (a1 as u16);
        match op.mode {
            AddressingMode::Accumulator => Self::lit1('A'),
            AddressingMode::Immediate => {
                let mut r = Self::lit2('#', '$');
                let mut t = Self::hex2_chars(a1);
                r.append(&mut t);
                r
            },
            AddressingMode::ZeroPage => {
                let mut r = Self::lit1('$');
                let mut t1 = Self::hex2_chars(a1);
                r.append(&mut t1);
                let mut t2 = Self::lit3(' ', '=', ' ');
                r.append(&mut t2);
                let mut t3 = Self::hex2_chars(self.bus.peek(a1 as u16));
                r.append(&mut t3);
                r
            },
            AddressingMode::ZeroPage_X => {
                let addr = a1.wrapping_add(self.register_x);
                let mut r = Self::lit1('$');
                let mut t1 = Self::hex2_chars(a1);
                r.append(&mut t1);
                let mut t2 = Self::lit2(',', 'X');
                r.append(&mut t2);
                let mut t3 = Self::lit3(' ', '@', ' ');
                r.append(&mut t3);
                let mut t4 = Self::hex2_chars(addr);
                r.append(&mut t4);
                let mut t5 = Self::lit3(' ', '=', ' ');
                r.append(&mut t5);
                let mut t6 = Self::hex2_chars(self.bus.peek(addr as u16));
                r.append(&mut t6);
                proof {
                    assert(seq![',', 'X'] + seq![' ', '@', ' '] =~= seq![',', 'X', ' ', '@', ' ']);
                }
                r
            },
            AddressingMode::ZeroPage_Y => {
                let addr = a1.wrapping_add(self.register_y);
                let mut r = Self::lit1('$');
                let mut t1 = Self::hex2_chars(a1);
                r.append(&mut t1);
                let mut t2 = Self::lit2(',', 'Y');
                r.append(&mut t2);
                let mut t3 = Self::lit3(' ', '@', ' ');
                r.append(&mut t3);
                let mut t4 = Self::hex2_chars(addr);
                r.append(&mut t4);
                let mut t5 = Self::lit3(' ', '=', ' ');
                r.append(&mut t5);
                let mut t6 = Self::hex2_chars(self.bus.peek(addr as u16));
                r.append(&mut t6);
                proof {
                    assert(seq![',', 'Y'] + seq![' ', '@', ' '] =~= seq![',', 'Y', ' ', '@', ' ']);
                }
                r
            },
            AddressingMode::Relative => {
                let ext: u16 = if a1 >= 0x80 {
                    0xFF00 + a1 as u16
                } else {
                    a1 as u16
                };
                let target = self.program_counter.wrapping_add(2).wrapping_add(ext);
                let mut r = Self::lit1('$');
                let mut t = Self::hex4_chars(target);
                r.append(&mut t);
                r
            },
            _ => Vec::new(),
        }
    }

    #[verifier::rlimit(100)]
    fn operand_field_abs(&self, op: Opcode) -> (r: Vec<char>)
        requires
            self.wf(),
            op.mode == AddressingMode::Absolute || op.mode == AddressingMode::Absolute_X || op.mode == AddressingMode::Absolute_Y || op.mode == AddressingMode::Indirect,
        ensures
            r@ == spec_operand_field(self@, op),
    {
        let a1 = self.arg1();
        let a2 = self.arg2();
        let base16: u16 = (a2 as u16) * 256 + (a1 as u16);
        match op.mode {
            AddressingMode::Absolute => {
                if matches!(op.mnemonic, Mnemonic::Jmp) || matches!(op.mnemonic, Mnemonic::Jsr) {
                    let mut r = Self::lit1('$');
                    let mut t = Self::hex4_chars(base16);
                    r.append(&mut t);
                    r
                } else {
                    let mut r = Self::lit1('$');
                    let mut t1 = Self::hex4_chars(base16);
                    r.append(&mut t1);
                    let mut t2 = Self::lit3(' ', '=', ' ');
                    r.append(&mut t2);
                    let mut t3 = Self::hex2_chars(self.bus.peek(base16));
                    r.append(&mut t3);
                    r
                }
            },
            AddressingMode::Absolute_X => {
                let eff = base16.wrapping_add(self.register_x as u16);
                let mut r = Self::lit1('$');
                let mut t1 = Self::hex4_chars(base16);
                r.append(&mut t1);
                let mut t2 = Self::lit2(',', 'X');
                r.append(&mut t2);
                let mut t3 = Self::lit3(' ', '@', ' ');
                r.append(&mut t3);
                let mut t4 = Self::hex4_chars(eff);
                r.append(&mut t4);
                let mut t5 = Self::lit3(' ', '=', ' ');
                r.append(&mut t5);
                let mut t6 = Self::hex2_chars(self.bus.peek(eff));
                r.append(&mut t6);
                proof {
                    assert(seq![',', 'X'] + seq![' ', '@', ' '] =~= seq![',', 'X', ' ', '@', ' ']);
                }
                r
            },
            AddressingMode::Absolute_Y => {
                let eff = base16.wrapping_add(self.register_y as u16);
                let mut r = Self::lit1('$');
                let mut t1 = Self::hex4_chars(base16);
                r.append(&mut t1);
                let mut t2 = Self::lit2(',', 'Y');
                r.append(&mut t2);
                let mut t3 = Self::lit3(' ', '@', ' ');
                r.append(&mut t3);
                let mut t4 = Self::hex4_chars(eff);
                r.append(&mut t4);
                let mut t5 = Self::lit3(' ', '=', ' ');
                r.append(&mut t5);
                let mut t6 = Self::hex2_chars(self.bus.peek(eff));
                r.append(&mut t6);
                proof {
                    assert(seq![',', 'Y'] + seq![' ', '@', ' '] =~= seq![',', 'Y', ' ', '@', ' ']);
                }
                r
            },
            AddressingMode::Indirect => {
                let hi_addr: u16 = if base16 % 256 == 0xFF {
                    base16 - 0xFF
                } else {
                    base16 + 1
                };
                let target: u16 = (self.bus.peek(hi_addr) as u16) * 256 + (self.bus.peek(
                    base16,
                ) as u16);
                let mut r = Self::lit2('(', '$');
                let mut t1 = Self::hex4_chars(base16);
                r.append(&mut t1);
                let mut t2 = Self::lit2(')', ' ');
                r.append(&mut t2);
                let mut t3 = Self::lit2('=', ' ');
                r.append(&mut t3);
                let mut t4 = Self::hex4_chars(target);
                r.append(&mut t4);
                proof {
                    assert(seq![')', ' '] + seq!['=', ' '] =~= seq![')', ' ', '=', ' ']);
                }
                r
            },
            _ => Vec::new(),
        }
    }

    #[verifier::rlimit(100)]
    fn operand_field_ind_x(&self, op: Opcode) -> (r: Vec<char>)
        requires
            self.wf(),
            op.mode == AddressingMode::Indirect_X,
        ensures
            r@ == spec_operand_field(self@, op),
    {
        let a1 = self.arg1();
        match op.mode {
            AddressingMode::Indirect_X => {
                let ptr = a1.wrapping_add(self.register_x);
                let target: u16 = (self.bus.peek(ptr.wrapping_add(1) as u16) as u16) * 256 + (
                self.bus.peek(ptr as u16) as u16);
                let mut r = Self::lit2('(', '$');
                let mut t1 = Self::hex2_chars(a1);
                r.append(&mut t1);
                let mut t2 = Self::lit3(',', 'X', ')');
                r.append(&mut t2);
                let mut t3 = Self::lit3(' ', '@', ' ');
                r.append(&mut t3);
                let mut t4 = Self::hex2_chars(ptr);
                r.append(&mut t4);
                let mut t5 = Self::lit3(' ', '=', ' ');
                r.append(&mut t5);
                let mut t6 = Self::hex4_chars(target);
                r.append(&mut t6);
                let mut t7 = Self::lit3(' ', '=', ' ');
                r.append(&mut t7);
                let mut t8 = Self::hex2_chars(self.bus.peek(target));
                r.append(&mut t8);
                proof {
                    assert(seq![',', 'X', ')'] + seq![' ', '@', ' '] =~= seq![
                        ',',
                        'X',
                        ')',
                        ' ',
                        '@',
                        ' ',
                    ]);
                }
                r
            },
            _ => Vec::new(),
        }
    }

    #[verifier::rlimit(100)]
    fn operand_field_ind_y(&self, op: Opcode) -> (r: Vec<char>)
        requires
            self.wf(),
            op.mode == AddressingMode::Indirect_Y,
        ensures
            r@ == spec_operand_field(self@, op),
    {
        let a1 = self.arg1();
        match op.mode {
            AddressingMode::Indirect_Y => {
                let ptr: u16 = (self.bus.peek(a1.wrapping_add(1) as u16) as u16) * 256 + (
                self.bus.peek(a1 as u16) as u16);
                let eff = ptr.wrapping_add(self.register_y as u16);
                let mut r = Self::lit2('(', '$');
                let mut t1 = Self::hex2_chars(a1);
                r.append(&mut t1);
                let mut t2 = Self::lit3(')', ',', 'Y');
                r.append(&mut t2);
                let mut t3 = Self::lit3(' ', '=', ' ');
                r.append(&mut t3);
                let mut t4 = Self::hex4_chars(ptr);
                r.append(&mut t4);
                let mut t5 = Self::lit3(' ', '@', ' ');
                r.append(&mut t5);
                let mut t6 = Self::hex4_chars(eff);
                r.append(&mut t6);
                let mut t7 = Self::lit3(' ', '=', ' ');
                r.append(&mut t7);
                let mut t8 = Self::hex2_chars(self.bus.peek(eff));
                r.append(&mut t8);
                proof {
                    assert(seq![')', ',', 'Y'] + seq![' ', '=', ' '] =~= seq![
                        ')',
                        ',',
                        'Y',
                        ' ',
                        '=',
                        ' ',
                    ]);
                }
                r
            },
            _ => Vec::new(),
        }
    }

    fn trace_operand_field(&self, op: Opcode) -> (r: Vec<char>)
        requires
            self.wf(),
        ensures
            r@ == spec_operand_field(self@, op),
    {
        match op.mode {
            AddressingMode::Accumulator
            | AddressingMode::Immediate
            | AddressingMode::ZeroPage
            | AddressingMode::ZeroPage_X
            | AddressingMode::ZeroPage_Y
            | AddressingMode::Relative => self.operand_field_zp(op),
            AddressingMode::Absolute
            | AddressingMode::Absolute_X
            | AddressingMode::Absolute_Y
            | AddressingMode::Indirect => self.operand_field_abs(op),
            AddressingMode::Indirect_X => self.operand_field_ind_x(op),
            AddressingMode::Indirect_Y => self.operand_field_ind_y(op),
            AddressingMode::Implied => Vec::new(),
            AddressingMode::NoneAddressing => Vec::new(),
        }
    }

    fn trace_regs_field(&self) -> (r: Vec<char>)
        ensures
            r@ == spec_regs_field(self@),
    {
        let mut r = Self::lit2('A', ':');
        let mut t1 = Self::hex2_chars(self.register_a);
        r.append(&mut t1);
        let mut t2 = Self::lit3(' ', 'X', ':');
        r.append(&mut t2);
        let mut t3 = Self::hex2_chars(self.register_x);
        r.append(&mut t3);
        let mut t4 = Self::lit3(' ', 'Y', ':');
        r.append(&mut t4);
        let mut t5 = Self::hex2_chars(self.register_y);
        r.append(&mut t5);
        let mut t6 = Self::lit3(' ', 'P', ':');
        r.append(&mut t6);
        let mut t7 = Self::hex2_chars(self.flags);
        r.append(&mut t7);
        let mut t8 = Self::lit2(' ', 'S');
        r.append(&mut t8);
        let mut t9 = Self::lit2('P', ':');
        r.append(&mut t9);
        let mut t10 = Self::hex2_chars(self.stack_pointer);
        r.append(&mut t10);
        proof {
            assert(seq![' ', 'S'] + seq!['P', ':'] =~= seq![' ', 'S', 'P', ':']);
        }
        r
    }
}

/// One line of the instruction trace for the current program counter,
/// exactly `spec_trace_line`, or `UnknownOpcode` when the byte at the
/// program counter is not in the opcode table.
pub fn trace(cpu: &CPU) -> (r: Result<String, EmuError>)
    requires
        cpu.wf(),
    ensures
        ({
            let code = spec_bus_peek(cpu@.bus, cpu@.pc);
            match r {
                Ok(s) => opcode_spec(code) matches Some(op) && s@ == spec_trace_line(cpu@, op),
                Err(e) => opcode_spec(code) is None && e == EmuError::UnknownOpcode(code),
            }
        }),
{
    let code = cpu.bus.peek(cpu.program_counter);
    let op = match opcode_for(code) {
        Some(op) => op,
        None => {
            return Err(EmuError::UnknownOpcode(code));
        },
    };
    let mut out = CPU::hex4_chars(cpu.program_counter);
    let mut t1 = CPU::lit2(' ', ' ');
    out.append(&mut t1);
    let mut t2 = cpu.trace_bytes_field(op);
    out.append(&mut t2);
    let mut t3 = CPU::trace_mnemonic_field(op);
    out.append(&mut t3);
    let mut t4 = CPU::lit1(' ');
    out.append(&mut t4);
    let mut opf = cpu.trace_operand_field(op);
    CPU::pad_spaces(&mut opf, 28);
    out.append(&mut opf);
    let mut t5 = cpu.trace_regs_field();
    out.append(&mut t5);
    Ok(chars_to_string(out))
}


} // verus!
