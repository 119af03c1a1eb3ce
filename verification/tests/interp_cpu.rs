//! Tests of the minimal stand-alone interpreter.

use nes_emulator::cpu::constants::{NEGATIVE_FLAG, ZERO_FLAG};
use nes_emulator::interp::CPU;

#[test]
fn cpu_test_0xa9_immediate_load_data() {
    let mut cpu = CPU::new();
    cpu.interpret(vec![0xA9, 0x05, 0x00]);
    assert_eq!(cpu.register_a, 0x05);
    assert!(cpu.status & ZERO_FLAG == 0b00);
    assert!(cpu.status & NEGATIVE_FLAG == 0b00);
}

#[test]
fn cpu_test_0xa9_lda_zero_flag() {
    let mut cpu = CPU::new();
    cpu.interpret(vec![0xA9, 0x00, 0x00]);
    assert!(cpu.status & ZERO_FLAG == 0b10)
}

#[test]
fn cpu_test_0xaa_tax_move_a_to_x() {
    let mut cpu = CPU::new();
    cpu.register_a = 10;
    cpu.interpret(vec![0xAA, 0x0]);

    assert_eq!(cpu.register_x, 10);
}

#[test]
fn cpu_test_5_ops_working_together() {
    let mut cpu = CPU::new();
    cpu.interpret(vec![0xa9, 0xc0, 0xaa, 0xe8, 0x00]);

    assert_eq!(cpu.register_x, 0xc1)
}

#[test]
fn cpu_test_inx_overflow() {
    let mut cpu = CPU::new();
    cpu.register_x = 0xff;
    cpu.interpret(vec![0xe8, 0xe8, 0x00]);

    assert_eq!(cpu.register_x, 1)
}
