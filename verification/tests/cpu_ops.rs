//! The CPU instruction tests: each loads a small synthetic program at
//! 0x8000 (reset vector pointing there) and checks registers, flags,
//! memory and the stack afterwards.

use nes_emulator::cpu::constants::{CARRY_FLAG, NEGATIVE_FLAG, OVERFLOW_FLAG, ZERO_FLAG};
use nes_emulator::cpu::CPU;

#[test]
fn mod_test_0xa9_immediate_load_data() {
    let mut cpu = CPU::new();
    cpu.load_and_run(vec![0xA9, 0x05, 0x00]).unwrap();
    assert_eq!(cpu.register_a, 0x05);
    assert!(cpu.flags & ZERO_FLAG == 0b00);
    assert!(cpu.flags & NEGATIVE_FLAG == 0b00);
}

#[test]
fn mod_test_0xa9_lda_zero_flag() {
    let mut cpu = CPU::new();
    cpu.load_and_run(vec![0xA9, 0x00, 0x00]).unwrap();
    assert!(cpu.flags & ZERO_FLAG == 0b10)
}

#[test]
fn mod_test_0xaa_tax_move_a_to_x() {
    let mut cpu = CPU::new();
    cpu.load(vec![0xAA, 0x0]);
    cpu.reset();
    cpu.register_a = 10;
    cpu.run().unwrap();

    assert_eq!(cpu.register_x, 10);
}

#[test]
fn mod_test_5_ops_working_together() {
    let mut cpu = CPU::new();
    cpu.load_and_run(vec![0xa9, 0xc0, 0xaa, 0xe8, 0x00]).unwrap();

    assert_eq!(cpu.register_x, 0xc1)
}

#[test]
fn mod_test_inx_overflow() {
    let mut cpu = CPU::new();
    cpu.load(vec![0xE8, 0xE8, 0x00]);
    cpu.reset();
    cpu.register_x = 0xff;
    cpu.run().unwrap();

    assert_eq!(cpu.register_x, 1)
}

#[test]
fn test_lda_from_memory() {
    let mut cpu = CPU::new();
    cpu.mem_write(0x10, 0x55).unwrap();

    cpu.load_and_run(vec![0xa5, 0x10, 0x00]).unwrap();

    assert_eq!(cpu.register_a, 0x55);
}

#[test]
fn test_adc_immediate() {
    let mut cpu = CPU::new();

    cpu.load_and_run(vec![0x69, 0x10, 0x00]).unwrap();

    assert_eq!(cpu.register_a, 0x10);
}

#[test]
fn test_adc_from_memory() {
    let mut cpu = CPU::new();
    cpu.mem_write(0x10, 0x55).unwrap();

    cpu.load_and_run(vec![0x65, 0x10, 0x00]).unwrap();

    assert_eq!(cpu.register_a, 0x55);
}

#[test]
fn test_adc_known_correctnes() {
    let table = [
        (80, 16, 96, false, false),
        (80, 80, 160, true, false),
        (80, 144, 224, false, false),
        (80, 208, 32, false, true),
        (208, 16, 224, false, false),
        (208, 80, 32, false, true),
        (208, 144, 96, true, true),
        (208, 208, 160, false, true),
    ];

    for entry in table {
        let (a, b, ans, overflow, carry) = entry;

        let mut cpu = CPU::new();
        cpu.load(vec![0x69, b, 0x00]);
        cpu.reset();
        cpu.register_a = a;
        cpu.run().unwrap();

        assert_eq!(cpu.register_a, ans);
        assert_eq!(cpu.check_flag(OVERFLOW_FLAG), overflow);
        assert_eq!(cpu.check_flag(CARRY_FLAG), carry);
    }
}

#[test]
fn test_and_immediate() {
    let mut cpu = CPU::new();

    cpu.load_and_run(vec![0x29, 0b1111_1111, 0x00]).unwrap();

    assert_eq!(cpu.register_a, 0x0);

    cpu.load(vec![0x29, 0b0000_0100, 0x00]);
    cpu.reset();
    cpu.register_a = 0b1010_0101;
    cpu.run().unwrap();
    assert_eq!(cpu.register_a, 0b0000_0100);
}

#[test]
fn test_and_from_memory() {
    let mut cpu = CPU::new();

    cpu.mem_write(0x10, 0b1111_1111).unwrap();
    cpu.load(vec![0x25, 0x10, 0x00]);
    cpu.reset();
    cpu.register_a = 0b1010_0101;
    cpu.run().unwrap();
    assert_eq!(cpu.register_a, 0b1010_0101);
}

#[test]
fn test_asl_immediate() {
    let mut cpu = CPU::new();
    cpu.load(vec![0x0A, 0x00]);
    cpu.reset();
    cpu.run().unwrap();
    assert_eq!(cpu.register_a, 0);

    cpu.load(vec![0x0A, 0x00]);
    cpu.reset();
    cpu.register_a = 0b0010_1000;
    cpu.run().unwrap();
    assert_eq!(cpu.register_a, 0b0101_0000);
    assert_eq!(cpu.check_flag(CARRY_FLAG), false);

    cpu.load(vec![0x0A, 0x00]);
    cpu.reset();
    cpu.register_a = 0b1000_0001;
    cpu.run().unwrap();
    assert_eq!(cpu.register_a, 0b0000_0010);
    assert_eq!(cpu.check_flag(CARRY_FLAG), true);
}

#[test]
fn test_asl_from_memory() {
    let mut cpu = CPU::new();
    cpu.mem_write(0x10, 0b0010_1000).unwrap();
    cpu.load_and_run(vec![0x06, 0x10, 0x00]).unwrap();
    assert_eq!(cpu.mem_read(0x10).unwrap(), 0b0101_0000);
}

#[test]
fn test_bcc() {
    let mut cpu = CPU::new();
    cpu.load_and_run(vec![0xE8, 0x90, 0x02, 0x85, 0x22, 0x00]).unwrap();
    assert_ne!(cpu.register_a, 0x22);
}

#[test]
fn test_bit() {
    let mut cpu = CPU::new();
    cpu.mem_write(0x10, 0b0000_1010).unwrap();
    cpu.mem_write(0x11, 0b1000_1111).unwrap();
    cpu.mem_write(0x12, 0b0100_0101).unwrap();
    cpu.load_and_run(vec![0xA5, 0x10, 0x24, 0x11, 0x00]).unwrap();
    assert!(!cpu.check_flag(ZERO_FLAG));
    assert!(!cpu.check_flag(OVERFLOW_FLAG));
    assert!(cpu.check_flag(NEGATIVE_FLAG));

    cpu.load_and_run(vec![0x24, 0x12, 0x00]).unwrap();
    assert!(cpu.check_flag(ZERO_FLAG));
    assert!(cpu.check_flag(OVERFLOW_FLAG));
    assert!(!cpu.check_flag(NEGATIVE_FLAG));
}

#[test]
fn test_cmp() {
    let mut cpu = CPU::new();
    cpu.load_and_run(vec![0xA9, 0x22, 0xC9, 0x22, 0x00]).unwrap();
    assert!(cpu.check_flag(ZERO_FLAG));

    cpu.mem_write(0x10, 0x23).unwrap();
    cpu.load_and_run(vec![0xA9, 0x22, 0xC5, 0x10, 0x00]).unwrap();
    assert!(cpu.check_flag(NEGATIVE_FLAG));

    cpu.mem_write(0x10, 0x21).unwrap();
    cpu.load_and_run(vec![0xA9, 0x22, 0xC5, 0x10, 0x00]).unwrap();
    assert!(cpu.check_flag(CARRY_FLAG));
}

#[test]
fn test_dec() {
    let mut cpu = CPU::new();
    cpu.mem_write(0x10, 0x11).unwrap();
    cpu.load_and_run(vec![0xC6, 0x10, 0xC6, 0x10, 0x00]).unwrap();
    assert_eq!(cpu.mem_read(0x10).unwrap(), 0x0F);

    cpu.mem_write(0x10, 0x00).unwrap();
    cpu.load_and_run(vec![0xC6, 0x10, 0x00]).unwrap();
    assert_eq!(cpu.mem_read(0x10).unwrap(), 0xFF);
}

#[test]
fn test_eor() {
    let mut cpu = CPU::new();
    cpu.load_and_run(vec![0xA9, 0xFF, 0x49, 0xAA, 0x00]).unwrap();
    assert_eq!(cpu.register_a, 0xFF ^ 0xAA);
}

#[test]
fn test_inc() {
    let mut cpu = CPU::new();
    cpu.mem_write(0x10, 0xFF).unwrap();
    cpu.load_and_run(vec![0xE6, 0x10, 0xE6, 0x10, 0x00]).unwrap();
    assert_eq!(cpu.mem_read(0x10).unwrap(), 0x01);
}

#[test]
fn test_jmp_abs() {
    /*
        LDA #$8
        STA $11
    loop:
        BIT $11
        BNE end
        INC $10
        LDA $10
        JMP loop
    end:
        BRK
    */

    let mut cpu = CPU::new();
    cpu.load_and_run(vec![
        0xA9, 0x08, 0x85, 0x11, 0x24, 0x11, 0xD0, 0x07, 0xE6, 0x10, 0xA5, 0x10, 0x4C, 0x04,
        0x06, 0x00,
    ])
    .unwrap();

    assert_eq!(cpu.register_a, 0x08);
}

#[test]
fn test_lsr() {
    let mut cpu = CPU::new();
    cpu.load_and_run(vec![0xA9, 0xFF, 0x4A, 0x00]).unwrap();
    assert_eq!(cpu.register_a, 0x7F);
    assert!(cpu.check_flag(CARRY_FLAG));
}

#[test]
fn test_ora() {
    let mut cpu = CPU::new();
    cpu.load_and_run(vec![0xA9, 0x0F, 0x09, 0x0A, 0x00]).unwrap();
    assert_eq!(cpu.register_a, 0x0F);
}

#[test]
fn test_pha() {
    let mut cpu = CPU::new();
    cpu.load_and_run(vec![0xA9, 0x55, 0x48, 0x00]).unwrap();
    assert_eq!(cpu.get_stack_top().unwrap(), 0x55);
}

#[test]
fn test_pla() {
    let mut cpu = CPU::new();
    cpu.load_and_run(vec![0xA9, 0x55, 0x48, 0xA9, 0x00, 0x68, 0x00]).unwrap();
    assert_eq!(cpu.register_a, 0x55);
}

#[test]
fn test_plp() {
    let mut cpu = CPU::new();
    cpu.mem_write(0x10, 0xFF).unwrap();
    cpu.load_and_run(vec![0xE6, 0x10, 0x08, 0xE6, 0x10, 0x28, 0x00]).unwrap();
    assert!(cpu.check_flag(ZERO_FLAG));
}

#[test]
fn test_rol() {
    let mut cpu = CPU::new();
    cpu.load_and_run(vec![0xA9, 0xFE, 0x2A, 0x00]).unwrap();
    assert_eq!(cpu.register_a, 0xFC);
    assert!(cpu.check_flag(CARRY_FLAG));
}

#[test]
fn test_ror() {
    let mut cpu = CPU::new();
    cpu.load_and_run(vec![0xA9, 0x7F, 0x6A, 0x00]).unwrap();
    assert_eq!(cpu.register_a, 0x3F);
    assert!(cpu.check_flag(CARRY_FLAG));
}

#[test]
fn rti_pops_flags_then_pc() {
    // PHA twice leaves 0x33 0x33 on the stack under the pushed flags;
    // RTI pops the flags (N came from LDA #$FF) and then the address
    // 0x3333. The fetch there hits a write-only PPU register mirror and
    // aborts the run with the registers as RTI left them.
    let mut cpu = CPU::new();
    let err = cpu
        .load_and_run(vec![0xA9, 0x33, 0x48, 0x48, 0xA9, 0xFF, 0x08, 0x40, 0x00])
        .unwrap_err();
    assert_eq!(err, nes_emulator::errors::EmuError::ReadFromWriteOnly(0x3333));
    assert_eq!(cpu.program_counter, 0x3333);
    assert!(cpu.check_flag(NEGATIVE_FLAG));
    assert!(!cpu.check_flag(nes_emulator::cpu::constants::BREAK));
    assert!(cpu.check_flag(nes_emulator::cpu::constants::BREAK_2));
}

#[test]
fn test_jsr_rts() {
    let mut cpu = CPU::new();
    cpu.load_and_run(vec![
        0x20, 0x09, 0x80, 0x20, 0x0c, 0x80,
        0x20, 0x12, 0x80, 0xa2, 0x00, 0x80, 0xe8,
        0xe0, 0x05, 0xd0, 0xfb, 0x60, 0x00,
    ])
    .unwrap();
}

#[test]
fn test_sbc() {
    let mut cpu = CPU::new();
    cpu.load_and_run(vec![0xA9, 0x22, 0xE9, 0x12, 0x00]).unwrap();
    assert_eq!(cpu.register_a, 0x0F);
}
