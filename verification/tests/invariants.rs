//! Concrete runs of the machine-wide invariants: the always-set U bit,
//! plain program-counter advance, balanced stack traffic, and the
//! push/pop, JSR/RTS and PHP/PLP round trips.

use nes_emulator::cpu::constants::{BREAK, BREAK_2, NEGATIVE_FLAG, ZERO_FLAG};
use nes_emulator::cpu::{StepStatus, CPU};

#[test]
fn unused_bit_reads_as_one_after_every_instruction() {
    let mut cpu = CPU::new();
    cpu.load(vec![0xA9, 0xFF, 0xAA, 0xE8, 0x38, 0x28, 0x00]);
    cpu.reset();
    loop {
        match cpu.step().unwrap() {
            StepStatus::Running => assert!(cpu.flags & BREAK_2 != 0),
            StepStatus::Halted => break,
        }
    }
    assert!(cpu.flags & BREAK_2 != 0);
}

#[test]
fn plain_instructions_advance_pc_by_their_length() {
    let mut cpu = CPU::new();
    // LDA #$01 (2 bytes), LDA $0010 (3 bytes), NOP (1 byte).
    cpu.load(vec![0xA9, 0x01, 0xAD, 0x10, 0x00, 0xEA, 0x00]);
    cpu.reset();
    assert_eq!(cpu.program_counter, 0x8000);
    cpu.step().unwrap();
    assert_eq!(cpu.program_counter, 0x8002);
    cpu.step().unwrap();
    assert_eq!(cpu.program_counter, 0x8005);
    cpu.step().unwrap();
    assert_eq!(cpu.program_counter, 0x8006);
}

#[test]
fn balanced_pushes_and_pops_restore_the_stack() {
    let mut cpu = CPU::new();
    cpu.mem_write(0x01FF, 0x77).unwrap();
    cpu.mem_write(0x01FE, 0x66).unwrap();
    // PHA, PHA, PLA, PLA: net-balanced.
    cpu.load(vec![0xA9, 0x11, 0x48, 0x48, 0x68, 0x68, 0x00]);
    cpu.reset();
    cpu.run().unwrap();
    assert_eq!(cpu.stack_pointer, 0xFD);
    assert_eq!(cpu.mem_read(0x01FF).unwrap(), 0x77);
    assert_eq!(cpu.mem_read(0x01FE).unwrap(), 0x66);
}

#[test]
fn push_pop_round_trip_returns_the_value() {
    let mut cpu = CPU::new();
    cpu.load(vec![0x00]);
    cpu.reset();
    cpu.push(0xC3).unwrap();
    assert_eq!(cpu.stack_pointer, 0xFC);
    assert_eq!(cpu.pop().unwrap(), 0xC3);
    assert_eq!(cpu.stack_pointer, 0xFD);
    cpu.push_u16(0xBEEF).unwrap();
    assert_eq!(cpu.pop_u16().unwrap(), 0xBEEF);
    assert_eq!(cpu.stack_pointer, 0xFD);
}

#[test]
fn jsr_rts_resumes_after_the_jsr() {
    let mut cpu = CPU::new();
    // JSR $8004; BRK; RTS — the subroutine returns straight to the BRK.
    cpu.load(vec![0x20, 0x04, 0x80, 0x00, 0x60]);
    cpu.reset();
    cpu.run().unwrap();
    assert_eq!(cpu.program_counter, 0x8004);
    assert_eq!(cpu.stack_pointer, 0xFD);
}

#[test]
fn php_plp_keeps_flags_with_b_clear_and_u_set() {
    let mut cpu = CPU::new();
    // LDA #$FF sets N; PHP; LDA #$01 clears N; PLP restores it.
    cpu.load(vec![0xA9, 0xFF, 0x08, 0xA9, 0x01, 0x28, 0x00]);
    cpu.reset();
    cpu.run().unwrap();
    assert!(cpu.check_flag(NEGATIVE_FLAG));
    assert!(!cpu.check_flag(ZERO_FLAG));
    assert!(!cpu.check_flag(BREAK));
    assert!(cpu.check_flag(BREAK_2));
}

#[test]
fn branch_offsets_are_signed() {
    let mut cpu = CPU::new();
    // INX; CPX #$03; BNE -5 loops back to the INX until X reaches 3.
    cpu.load(vec![0xE8, 0xE0, 0x03, 0xD0, 0xFB, 0x00]);
    cpu.reset();
    cpu.run().unwrap();
    assert_eq!(cpu.register_x, 3);
}
