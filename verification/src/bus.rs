//! The memory bus: decodes the 16-bit CPU address space into mirrored RAM,
//! the PPU register window, ignored APU/IO space, and PRG-ROM.

use vstd::prelude::*;

use crate::cartridge::Rom;
use crate::errors::EmuError;
use crate::ppu::{
    spec_ppu_read_data, spec_ppu_read_status, spec_ppu_wf, spec_ppu_write_addr,
    spec_ppu_write_data, PpuView, PPU,
};

verus! {

/// A 16-bit value wrapped into range.
pub open spec fn spec_wrap16(v: int) -> u16 {
    (v % 0x10000) as u16
}

/// Owns the 2 KiB CPU RAM, the cartridge, and the PPU register file.
pub struct Bus {
    cpu_vram: Vec<u8>,
    rom: Rom,
    pub ppu: PPU,
}

/// Mathematical model of the bus: RAM contents, PRG-ROM contents, and the
/// PPU register file.
pub ghost struct BusView {
    pub ram: Seq<u8>,
    pub prg: Seq<u8>,
    pub ppu: PpuView,
}

impl View for Bus {
    type V = BusView;

    closed spec fn view(&self) -> BusView {
        BusView { ram: self.cpu_vram@, prg: self.rom@.prg, ppu: self.ppu@ }
    }
}

pub open spec fn spec_bus_wf(b: BusView) -> bool {
    &&& b.ram.len() == 0x800
    &&& (b.prg.len() == 0x4000 || b.prg.len() == 0x8000)
    &&& spec_ppu_wf(b.ppu)
}

/// Index into PRG-ROM for a CPU address at or above 0x8000: a 16 KiB
/// cartridge is mirrored into the upper half of the window.
pub open spec fn spec_prg_index(prg_len: int, addr: u16) -> int {
    if prg_len == 0x4000 && addr - 0x8000 >= 0x4000 {
        addr - 0x8000 - 0x4000
    } else {
        addr - 0x8000
    }
}

/// One read on the bus. RAM is mirrored every 2 KiB; 0x2002 and 0x2007
/// (and their mirrors up to 0x3FFF) reach the PPU and may change it; the
/// remaining PPU registers are write-only and fatal to read; 0x4014 is
/// write-only; the rest of 0x4000..=0x7FFF reads as zero; 0x8000 and up
/// is PRG-ROM.
#[verifier::opaque]
pub open spec fn spec_bus_read(b: BusView, addr: u16) -> Result<(BusView, u8), EmuError> {
    if addr < 0x2000 {
        Ok((b, b.ram[addr as int % 0x800]))
    } else if addr < 0x4000 {
        let reg = 0x2000 + (addr % 8);
        if reg == 0x2002 {
            let (p2, v) = spec_ppu_read_status(b.ppu);
            Ok((BusView { ppu: p2, ..b }, v))
        } else if reg == 0x2007 {
            match spec_ppu_read_data(b.ppu) {
                Ok((p2, v)) => Ok((BusView { ppu: p2, ..b }, v)),
                Err(e) => Err(e),
            }
        } else {
            Err(EmuError::ReadFromWriteOnly(addr))
        }
    } else if addr == 0x4014 {
        Err(EmuError::ReadFromWriteOnly(addr))
    } else if addr < 0x8000 {
        Ok((b, 0))
    } else {
        Ok((b, b.prg[spec_prg_index(b.prg.len() as int, addr)]))
    }
}

/// One write on the bus. RAM is mirrored; PPU registers dispatch to the
/// register file (CTRL, MASK, ADDR, DATA), PPUSTATUS is read-only, and
/// the registers this core does not model (OAMADDR, OAMDATA, scroll) are
/// ignored, as is all of 0x4000..=0x7FFF; PRG-ROM is read-only.
#[verifier::opaque]
pub open spec fn spec_bus_write(b: BusView, addr: u16, data: u8) -> Result<BusView, EmuError> {
    if addr < 0x2000 {
        Ok(BusView { ram: b.ram.update(addr as int % 0x800, data), ..b })
    } else if addr < 0x4000 {
        let reg = 0x2000 + (addr % 8);
        if reg == 0x2000 {
            Ok(BusView { ppu: PpuView { ctrl: data, ..b.ppu }, ..b })
        } else if reg == 0x2001 {
            Ok(BusView { ppu: PpuView { mask: data, ..b.ppu }, ..b })
        } else if reg == 0x2002 {
            Err(EmuError::WriteToReadOnly(addr))
        } else if reg == 0x2006 {
            Ok(BusView { ppu: spec_ppu_write_addr(b.ppu, data), ..b })
        } else if reg == 0x2007 {
            match spec_ppu_write_data(b.ppu, data) {
                Ok(p2) => Ok(BusView { ppu: p2, ..b }),
                Err(e) => Err(e),
            }
        } else {
            Ok(b)
        }
    } else if addr < 0x8000 {
        Ok(b)
    } else {
        Err(EmuError::WriteToReadOnly(addr))
    }
}

/// A side-effect-free view of memory, as the trace formatter shows it:
/// RAM and PRG-ROM read their real contents, everything else shows zero.
#[verifier::opaque]
pub open spec fn spec_bus_peek(b: BusView, addr: u16) -> u8 {
    if addr < 0x2000 {
        b.ram[addr as int % 0x800]
    } else if addr < 0x8000 {
        0
    } else {
        b.prg[spec_prg_index(b.prg.len() as int, addr)]
    }
}

/// A little-endian 16-bit read: low byte at `pos`, high byte at `pos`+1,
/// the position wrapping at 0xFFFF.
#[verifier::opaque]
pub open spec fn spec_bus_read16(b: BusView, pos: u16) -> Result<(BusView, u16), EmuError> {
    match spec_bus_read(b, pos) {
        Err(e) => Err(e),
        Ok((b1, lo)) => match spec_bus_read(b1, spec_wrap16(pos + 1)) {
            Err(e) => Err(e),
            Ok((b2, hi)) => Ok((b2, (hi * 256 + lo) as u16)),
        },
    }
}

/// A little-endian 16-bit write: low byte at `pos`, high byte at `pos`+1,
/// the position wrapping at 0xFFFF.
#[verifier::opaque]
pub open spec fn spec_bus_write16(b: BusView, pos: u16, data: u16) -> Result<BusView, EmuError> {
    match spec_bus_write(b, pos, (data % 256) as u8) {
        Err(e) => Err(e),
        Ok(b1) => spec_bus_write(b1, spec_wrap16(pos + 1), (data / 256) as u8),
    }
}

impl Bus {
    pub open spec fn wf(&self) -> bool {
        spec_bus_wf(self@)
    }

    /// A bus over a freshly parsed cartridge: zeroed RAM, the cartridge's
    /// PRG-ROM, and a fresh PPU register file over its CHR-ROM.
    pub fn new(rom: Rom) -> (r: Bus)
        requires
            rom.wf(),
        ensures
            r.wf(),
            r@.prg == rom@.prg,
            r@.ppu.chr == rom@.chr,
            r@.ppu.mirroring == rom@.mirroring,
            r@.ppu.ctrl == 0 && r@.ppu.status == 0 && r@.ppu.buf == 0,
            r@.ppu.addr == 0 && r@.ppu.hi_ptr == true,
            forall|i: int| 0 <= i < 0x800 ==> r@.ram[i] == 0,
    {
        let chr_copy = vstd::slice::slice_to_vec(rom.chr_rom.as_slice());
        let ppu = PPU::new(chr_copy, rom.screen_mirroring);
        let mut cpu_vram: Vec<u8> = Vec::new();
        while cpu_vram.len() < 0x800
            invariant
                cpu_vram@.len() <= 0x800,
                forall|i: int| 0 <= i < cpu_vram@.len() ==> cpu_vram@[i] == 0,
            decreases 0x800 - cpu_vram@.len(),
        {
            cpu_vram.push(0);
        }
        Bus { cpu_vram, rom, ppu }
    }

    /// Swap in a new PRG-ROM image, leaving RAM and the PPU untouched.
    /// For synthetic test cartridges built around a small program.
    pub fn load_prg(&mut self, prg: Vec<u8>)
        requires
            old(self).wf(),
            prg@.len() == 0x4000 || prg@.len() == 0x8000,
        ensures
            final(self).wf(),
            final(self)@ == (BusView { prg: prg@, ..old(self)@ }),
    {
        self.rom.prg_rom = prg;
    }

    fn read_prg_rom(&self, addr: u16) -> (r: u8)
        requires
            self.wf(),
            addr >= 0x8000,
        ensures
            r == self@.prg[spec_prg_index(self@.prg.len() as int, addr)],
    {
        let mut idx: usize = (addr - 0x8000) as usize;
        if self.rom.prg_rom.len() == 0x4000 && idx >= 0x4000 {
            idx = idx - 0x4000;
        }
        self.rom.prg_rom[idx]
    }

    /// One read on the bus, exactly as `spec_bus_read` says. A read of a
    /// write-only register is fatal.
    pub fn mem_read(&mut self, addr: u16) -> (r: Result<u8, EmuError>)
        requires
            old(self).wf(),
        ensures
            final(self).wf(),
            match r {
                Ok(v) => spec_bus_read(old(self)@, addr) == Ok::<(BusView, u8), EmuError>((
                    final(self)@,
                    v,
                )),
                Err(e) => spec_bus_read(old(self)@, addr) == Err::<(BusView, u8), EmuError>(e),
            },
    {
        proof {
            reveal(spec_bus_read);
        }
        if addr < 0x2000 {
            let idx: usize = (addr % 0x800) as usize;
            Ok(self.cpu_vram[idx])
        } else if addr < 0x4000 {
            let reg: u16 = 0x2000 + (addr % 8);
            if reg == 0x2002 {
                Ok(self.ppu.read_from_status())
            } else if reg == 0x2007 {
                match self.ppu.read_to_data() {
                    Ok(v) => Ok(v),
                    Err(e) => Err(e),
                }
            } else {
                Err(EmuError::ReadFromWriteOnly(addr))
            }
        } else if addr == 0x4014 {
            Err(EmuError::ReadFromWriteOnly(addr))
        } else if addr < 0x8000 {
            Ok(0)
        } else {
            Ok(self.read_prg_rom(addr))
        }
    }

    /// One write on the bus, exactly as `spec_bus_write` says. A write to
    /// read-only memory is fatal.
    pub fn mem_write(&mut self, addr: u16, data: u8) -> (r: Result<(), EmuError>)
        requires
            old(self).wf(),
        ensures
            final(self).wf(),
            match r {
                Ok(()) => spec_bus_write(old(self)@, addr, data) == Ok::<BusView, EmuError>(
                    final(self)@,
                ),
                Err(e) => spec_bus_write(old(self)@, addr, data) == Err::<BusView, EmuError>(e),
            },
    {
        proof {
            reveal(spec_bus_write);
        }
        if addr < 0x2000 {
            let idx: usize = (addr % 0x800) as usize;
            self.cpu_vram[idx] = data;
            Ok(())
        } else if addr < 0x4000 {
            let reg: u16 = 0x2000 + (addr % 8);
            if reg == 0x2000 {
                self.ppu.write_to_ctrl(data);
                Ok(())
            } else if reg == 0x2001 {
                self.ppu.write_to_mask(data);
                Ok(())
            } else if reg == 0x2002 {
                Err(EmuError::WriteToReadOnly(addr))
            } else if reg == 0x2006 {
                self.ppu.write_to_ppu_addr(data);
                Ok(())
            } else if reg == 0x2007 {
                match self.ppu.write_to_data(data) {
                    Ok(()) => Ok(()),
                    Err(e) => Err(e),
                }
            } else {
                Ok(())
            }
        } else if addr < 0x8000 {
            Ok(())
        } else {
            Err(EmuError::WriteToReadOnly(addr))
        }
    }

    /// A little-endian 16-bit read, exactly as `spec_bus_read16` says.
    pub fn mem_read_u16(&mut self, pos: u16) -> (r: Result<u16, EmuError>)
        requires
            old(self).wf(),
        ensures
            final(self).wf(),
            match r {
                Ok(v) => spec_bus_read16(old(self)@, pos) == Ok::<(BusView, u16), EmuError>((
                    final(self)@,
                    v,
                )),
                Err(e) => spec_bus_read16(old(self)@, pos) == Err::<(BusView, u16), EmuError>(e),
            },
    {
        proof {
            reveal(spec_bus_read16);
        }
        let lo = match self.mem_read(pos) {
            Ok(v) => v,
            Err(e) => {
                return Err(e);
            },
        };
        let hi = match self.mem_read(pos.wrapping_add(1)) {
            Ok(v) => v,
            Err(e) => {
                return Err(e);
            },
        };
        Ok((hi as u16) * 256 + (lo as u16))
    }

    /// A little-endian 16-bit write, exactly as `spec_bus_write16` says.
    pub fn mem_write_u16(&mut self, pos: u16, data: u16) -> (r: Result<(), EmuError>)
        requires
            old(self).wf(),
        ensures
            final(self).wf(),
            match r {
                Ok(()) => spec_bus_write16(old(self)@, pos, data) == Ok::<BusView, EmuError>(
                    final(self)@,
                ),
                Err(e) => spec_bus_write16(old(self)@, pos, data) == Err::<BusView, EmuError>(e),
            },
    {
        proof {
            reveal(spec_bus_write16);
        }
        let lo: u8 = (data % 256) as u8;
        let hi: u8 = (data / 256) as u8;
        match self.mem_write(pos, lo) {
            Ok(()) => (),
            Err(e) => {
                return Err(e);
            },
        }
        match self.mem_write(pos.wrapping_add(1), hi) {
            Ok(()) => (),
            Err(e) => {
                return Err(e);
            },
        }
        Ok(())
    }

    /// Side-effect-free memory view for the trace formatter, exactly
    /// `spec_bus_peek`.
    pub fn peek(&self, addr: u16) -> (r: u8)
        requires
            self.wf(),
        ensures
            r == spec_bus_peek(self@, addr),
    {
        proof {
            reveal(spec_bus_peek);
        }
        if addr < 0x2000 {
            let idx: usize = (addr % 0x800) as usize;
            self.cpu_vram[idx]
        } else if addr < 0x8000 {
            0
        } else {
            self.read_prg_rom(addr)
        }
    }

    /// A side-effect-free 16-bit view at `pos`, little-endian, the
    /// position wrapping at 0xFFFF.
    pub fn peek_u16(&self, pos: u16) -> (r: u16)
        requires
            self.wf(),
        ensures
            r == spec_bus_peek(self@, pos) + spec_bus_peek(self@, spec_wrap16(pos + 1)) * 256,
    {
        let lo = self.peek(pos);
        let hi = self.peek(pos.wrapping_add(1));
        (hi as u16) * 256 + (lo as u16)
    }
}

} // verus!
