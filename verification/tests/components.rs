//! Tests of the cartridge loader, the bus address decoding and
//! mirroring, the PPU register file, the trace formatter, and the
//! error taxonomy.

use nes_emulator::bus::Bus;
use nes_emulator::cartridge::{Mirroring, Rom};
use nes_emulator::cpu::trace;
use nes_emulator::cpu::{StepStatus, CPU};
use nes_emulator::errors::EmuError;
use nes_emulator::interp;
use nes_emulator::ppu::registers::{AddrRegister, ControlRegister, StatusRegister};
use nes_emulator::ppu::PPU;

/// A minimal 16 KiB NROM image: header, PRG pattern, zero CHR.
fn small_ines_image() -> Vec<u8> {
    let mut raw = vec![0x4E, 0x45, 0x53, 0x1A, 1, 1, 0x01, 0x00];
    raw.resize(16, 0);
    for i in 0..0x4000usize {
        raw.push((i % 251) as u8);
    }
    raw.resize(16 + 0x4000 + 0x2000, 0);
    raw
}

#[test]
fn rom_rejects_bad_magic() {
    let mut raw = small_ines_image();
    raw[0] = 0x4D;
    assert_eq!(Rom::new(&raw).unwrap_err(), EmuError::BadMagic);
    assert_eq!(Rom::new(&vec![0x4E, 0x45]).unwrap_err(), EmuError::BadMagic);
}

#[test]
fn rom_rejects_later_ines_versions() {
    let mut raw = small_ines_image();
    raw[7] = 0b0000_1000;
    assert_eq!(Rom::new(&raw).unwrap_err(), EmuError::UnsupportedFormat);
}

#[test]
fn rom_rejects_other_mappers() {
    let mut raw = small_ines_image();
    raw[6] = 0x41;
    assert_eq!(Rom::new(&raw).unwrap_err(), EmuError::UnsupportedMapper);
}

#[test]
fn rom_rejects_truncated_data() {
    let mut raw = small_ines_image();
    raw.truncate(16 + 0x4000);
    assert_eq!(Rom::new(&raw).unwrap_err(), EmuError::UnsupportedFormat);
}

#[test]
fn rom_parses_fields() {
    let rom = Rom::new(&small_ines_image()).unwrap();
    assert_eq!(rom.mapper, 0);
    assert_eq!(rom.screen_mirroring, Mirroring::Vertical);
    assert_eq!(rom.prg_rom.len(), 0x4000);
    assert_eq!(rom.chr_rom.len(), 0x2000);
    assert_eq!(rom.prg_rom[5], 5);
}

#[test]
fn ram_is_mirrored_every_2kib() {
    let mut cpu = CPU::new();
    cpu.mem_write(0x0102, 9).unwrap();
    assert_eq!(cpu.mem_read(0x0102).unwrap(), 9);
    assert_eq!(cpu.mem_read(0x0902).unwrap(), 9);
    assert_eq!(cpu.mem_read(0x1102).unwrap(), 9);
    assert_eq!(cpu.mem_read(0x1902).unwrap(), 9);
    cpu.mem_write(0x1F00, 3).unwrap();
    assert_eq!(cpu.mem_read(0x0700).unwrap(), 3);
}

#[test]
fn prg_rom_16kib_is_mirrored() {
    let mut cpu = CPU::load_rom(small_ines_image()).unwrap();
    for k in [0u16, 1, 0x123, 0x2FFF, 0x3FFF] {
        let lo = cpu.mem_read(0x8000 + k).unwrap();
        let hi = cpu.mem_read(0xC000 + k).unwrap();
        assert_eq!(lo, hi);
        assert_eq!(lo, ((k as usize) % 251) as u8);
    }
}

#[test]
fn apu_space_reads_zero_and_ignores_writes() {
    let mut cpu = CPU::new();
    cpu.mem_write(0x4000, 0x12).unwrap();
    assert_eq!(cpu.mem_read(0x4000).unwrap(), 0);
    assert_eq!(cpu.mem_read(0x401F).unwrap(), 0);
}

#[test]
fn prg_rom_rejects_writes() {
    let mut cpu = CPU::new();
    assert_eq!(cpu.mem_write(0x8000, 1).unwrap_err(), EmuError::WriteToReadOnly(0x8000));
    let err = cpu.load_and_run(vec![0x8D, 0x00, 0x90, 0x00]).unwrap_err();
    assert_eq!(err, EmuError::WriteToReadOnly(0x9000));
}

#[test]
fn write_only_ppu_registers_reject_reads() {
    let mut cpu = CPU::new();
    assert_eq!(cpu.mem_read(0x2000).unwrap_err(), EmuError::ReadFromWriteOnly(0x2000));
    assert_eq!(cpu.mem_read(0x2006).unwrap_err(), EmuError::ReadFromWriteOnly(0x2006));
    assert_eq!(cpu.mem_read(0x4014).unwrap_err(), EmuError::ReadFromWriteOnly(0x4014));
    let err = cpu.load_and_run(vec![0xAD, 0x05, 0x20, 0x00]).unwrap_err();
    assert_eq!(err, EmuError::ReadFromWriteOnly(0x2005));
}

#[test]
fn unknown_opcode_is_fatal() {
    let mut cpu = CPU::new();
    let err = cpu.load_and_run(vec![0x02]).unwrap_err();
    assert_eq!(err, EmuError::UnknownOpcode(0x02));
}

#[test]
fn stack_overflow_and_underflow_are_fatal() {
    let mut cpu = CPU::new();
    cpu.load(vec![0x48, 0x00]);
    cpu.reset();
    cpu.stack_pointer = 0x00;
    assert_eq!(cpu.run().unwrap_err(), EmuError::StackOverflow);

    let mut cpu = CPU::new();
    cpu.load(vec![0x68, 0x00]);
    cpu.reset();
    cpu.stack_pointer = 0xFF;
    assert_eq!(cpu.run().unwrap_err(), EmuError::StackUnderflow);
}

#[test]
fn step_reports_running_then_halted() {
    let mut cpu = CPU::new();
    cpu.load(vec![0xEA, 0x00]);
    cpu.reset();
    assert_eq!(cpu.step().unwrap(), StepStatus::Running);
    assert_eq!(cpu.program_counter, 0x8001);
    assert_eq!(cpu.step().unwrap(), StepStatus::Halted);
}

#[test]
fn ppu_addr_latch_composes_and_masks() {
    // Two writes compose high then low; values past 0x3FFF mirror down.
    let mut cpu = CPU::new();
    cpu.mem_write(0x2006, 0x21).unwrap();
    cpu.mem_write(0x2006, 0x08).unwrap();
    cpu.mem_write(0x2007, 0x77).unwrap();
    // Read it back through the buffered data port.
    cpu.mem_write(0x2006, 0x21).unwrap();
    cpu.mem_write(0x2006, 0x08).unwrap();
    let first = cpu.mem_read(0x2007).unwrap();
    let second = cpu.mem_read(0x2007).unwrap();
    assert_eq!(first, 0x00);
    assert_eq!(second, 0x77);
}

#[test]
fn ppu_status_read_resets_latch() {
    let mut cpu = CPU::new();
    // One write, then a status read, then a full high/low pair: the
    // interrupted write must not leave the latch pointing at the low
    // byte.
    cpu.mem_write(0x2006, 0x3F).unwrap();
    let _ = cpu.mem_read(0x2002).unwrap();
    cpu.mem_write(0x2006, 0x21).unwrap();
    cpu.mem_write(0x2006, 0x00).unwrap();
    cpu.mem_write(0x2007, 0x5A).unwrap();
    cpu.mem_write(0x2006, 0x21).unwrap();
    cpu.mem_write(0x2006, 0x00).unwrap();
    let _ = cpu.mem_read(0x2007).unwrap();
    assert_eq!(cpu.mem_read(0x2007).unwrap(), 0x5A);
}

#[test]
fn ppu_register_mirror_window() {
    // 0x2008..=0x3FFF mirrors the eight PPU registers.
    let mut cpu = CPU::new();
    cpu.mem_write(0x200E, 0x20).unwrap();
    cpu.mem_write(0x3FFE, 0x04).unwrap();
    cpu.mem_write(0x200F, 0x42).unwrap();
    cpu.mem_write(0x2006, 0x20).unwrap();
    cpu.mem_write(0x2006, 0x04).unwrap();
    let _ = cpu.mem_read(0x2007).unwrap();
    assert_eq!(cpu.mem_read(0x2007).unwrap(), 0x42);
}

#[test]
fn ppu_hole_is_unusable() {
    let mut cpu = CPU::new();
    cpu.mem_write(0x2006, 0x30).unwrap();
    cpu.mem_write(0x2006, 0x00).unwrap();
    assert_eq!(cpu.mem_read(0x2007).unwrap_err(), EmuError::PpuAddressUnusable(0x3000));
}

#[test]
fn ppu_palette_reads_are_immediate() {
    let mut cpu = CPU::new();
    cpu.mem_write(0x2006, 0x3F).unwrap();
    cpu.mem_write(0x2006, 0x01).unwrap();
    cpu.mem_write(0x2007, 0x2A).unwrap();
    cpu.mem_write(0x2006, 0x3F).unwrap();
    cpu.mem_write(0x2006, 0x01).unwrap();
    assert_eq!(cpu.mem_read(0x2007).unwrap(), 0x2A);
}

#[test]
fn ppu_ctrl_selects_increment_step() {
    let mut cpu = CPU::new();
    // Increment of 32: two data writes land 32 bytes apart.
    cpu.mem_write(0x2000, 0b0000_0100).unwrap();
    cpu.mem_write(0x2006, 0x20).unwrap();
    cpu.mem_write(0x2006, 0x00).unwrap();
    cpu.mem_write(0x2007, 0x11).unwrap();
    cpu.mem_write(0x2007, 0x22).unwrap();
    cpu.mem_write(0x2000, 0).unwrap();
    cpu.mem_write(0x2006, 0x20).unwrap();
    cpu.mem_write(0x2006, 0x20).unwrap();
    let _ = cpu.mem_read(0x2007).unwrap();
    assert_eq!(cpu.mem_read(0x2007).unwrap(), 0x22);
}

#[test]
fn vram_mirroring_banks() {
    let chr = vec![0u8; 0x2000];
    let vertical = PPU::new(chr.clone(), Mirroring::Vertical);
    assert_eq!(vertical.mirror_vram_addr(0x2005), 0x005);
    assert_eq!(vertical.mirror_vram_addr(0x2405), 0x405);
    assert_eq!(vertical.mirror_vram_addr(0x2805), 0x005);
    assert_eq!(vertical.mirror_vram_addr(0x2C05), 0x405);
    assert_eq!(vertical.mirror_vram_addr(0x3005), 0x005);

    let horizontal = PPU::new(chr, Mirroring::Horizontal);
    assert_eq!(horizontal.mirror_vram_addr(0x2005), 0x005);
    assert_eq!(horizontal.mirror_vram_addr(0x2405), 0x005);
    assert_eq!(horizontal.mirror_vram_addr(0x2805), 0x405);
    assert_eq!(horizontal.mirror_vram_addr(0x2C05), 0x405);
}

#[test]
fn four_screen_needs_cartridge_ram() {
    // A four-screen cartridge addresses nametable banks 2 and 3, which
    // the 2 KiB of console RAM cannot hold: such accesses are rejected.
    let mut ppu = PPU::new(vec![0u8; 0x2000], Mirroring::FourScreen);
    assert_eq!(ppu.mirror_vram_addr(0x2805), 0x805);
    ppu.write_to_ppu_addr(0x28);
    ppu.write_to_ppu_addr(0x05);
    assert_eq!(ppu.write_to_data(1).unwrap_err(), EmuError::PpuAddressUnusable(0x2805));
    let mut ppu = PPU::new(vec![0u8; 0x2000], Mirroring::FourScreen);
    ppu.write_to_ppu_addr(0x24);
    ppu.write_to_ppu_addr(0x05);
    assert!(ppu.write_to_data(7).is_ok());
}

#[test]
fn chr_rom_rejects_data_writes() {
    let mut ppu = PPU::new(vec![0u8; 0x2000], Mirroring::Vertical);
    ppu.write_to_ppu_addr(0x10);
    ppu.write_to_ppu_addr(0x00);
    assert_eq!(ppu.write_to_data(1).unwrap_err(), EmuError::WriteToReadOnly(0x1000));
}

#[test]
fn control_register_decoding() {
    let mut ctrl = ControlRegister::new();
    assert_eq!(ctrl.get_nametable_addr(), 0x2000);
    assert_eq!(ctrl.vram_add_increment(), 1);
    assert_eq!(ctrl.get_sprite_size(), 8);
    ctrl.update(0b0010_0111);
    assert_eq!(ctrl.get_nametable_addr(), 0x2C00);
    assert_eq!(ctrl.vram_add_increment(), 32);
    assert_eq!(ctrl.get_sprite_size(), 16);
    assert_eq!(ctrl.sprite_pattern_addr(), 0x0000);
    assert_eq!(ctrl.get_bgrnd_patt_addr(), 0x0000);
    assert!(!ctrl.generate_vblank_nmi());
    ctrl.update(0b1001_1000);
    assert_eq!(ctrl.sprite_pattern_addr(), 0x1000);
    assert_eq!(ctrl.get_bgrnd_patt_addr(), 0x1000);
    assert!(ctrl.generate_vblank_nmi());
}

#[test]
fn status_register_read_clears_vblank() {
    let mut status = StatusRegister::new();
    status.set_vblank_status(true);
    assert!(status.is_in_v_blank());
    assert_eq!(status.get(), 0b1000_0000);
    assert!(!status.is_in_v_blank());
    assert_eq!(status.get(), 0);
}

#[test]
fn addr_register_wraps_in_14_bits() {
    let mut reg = AddrRegister::new();
    reg.update(0x3F);
    reg.update(0xFF);
    assert_eq!(reg.get(), 0x3FFF);
    reg.increment(1);
    assert_eq!(reg.get(), 0x0000);
    reg.update(0xFF);
    reg.update(0x10);
    assert_eq!(reg.get(), 0x3F10);
    reg.reset_latch();
    reg.update(0x12);
    reg.update(0x34);
    assert_eq!(reg.get(), 0x1234);
    reg.increment(32);
    assert_eq!(reg.get(), 0x1254);
}

#[test]
fn bus_serves_loaded_cartridge() {
    let rom = Rom::new(&small_ines_image()).unwrap();
    let mut bus = Bus::new(rom);
    assert_eq!(bus.mem_read(0x8005).unwrap(), 5);
    bus.mem_write(0x01FD, 0xAB).unwrap();
    assert_eq!(bus.mem_read(0x01FD).unwrap(), 0xAB);
    assert_eq!(bus.peek(0x01FD), 0xAB);
    assert_eq!(bus.peek(0x8005), 5);
}

#[test]
fn trace_formats_immediate_line() {
    let mut cpu = CPU::new();
    cpu.load(vec![0xA9, 0x05, 0x00]);
    cpu.reset();
    let line = trace(&cpu).unwrap();
    assert_eq!(
        line,
        "8000  A9 05     LDA #$05                        A:00 X:00 Y:00 P:24 SP:FD"
    );
    assert_eq!(line.len(), 73);
}

#[test]
fn trace_formats_memory_operands() {
    let mut cpu = CPU::new();
    cpu.mem_write(0x10, 0x42).unwrap();
    cpu.load(vec![0xA5, 0x10, 0x00]);
    cpu.reset();
    assert_eq!(
        trace(&cpu).unwrap(),
        "8000  A5 10     LDA $10 = 42                    A:00 X:00 Y:00 P:24 SP:FD"
    );

    // An unofficial opcode prints with a star; DOP collapses to NOP.
    let mut cpu = CPU::new();
    cpu.load(vec![0x04, 0x10, 0x00]);
    cpu.reset();
    assert_eq!(
        trace(&cpu).unwrap(),
        "8000  04 10    *NOP $10 = 00                    A:00 X:00 Y:00 P:24 SP:FD"
    );

    // JSR absolute omits the value suffix.
    let mut cpu = CPU::new();
    cpu.load(vec![0x20, 0x05, 0x80, 0x00]);
    cpu.reset();
    assert_eq!(
        trace(&cpu).unwrap(),
        "8000  20 05 80  JSR $8005                       A:00 X:00 Y:00 P:24 SP:FD"
    );
}

#[test]
fn trace_rejects_unknown_opcode() {
    let mut cpu = CPU::new();
    cpu.load(vec![0x02]);
    cpu.reset();
    assert_eq!(trace(&cpu).unwrap_err(), EmuError::UnknownOpcode(0x02));
}

#[test]
fn interp_stops_at_program_end() {
    let mut cpu = interp::CPU::new();
    cpu.interpret(vec![0xA9]);
    assert_eq!(cpu.register_a, 0);
    assert_eq!(cpu.program_counter, 1);
    let mut cpu = interp::CPU::new();
    cpu.interpret(vec![0x60]);
    assert_eq!(cpu.program_counter, 1);
}
