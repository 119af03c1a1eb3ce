//! The PPU register file as the CPU sees it: CTRL, MASK, STATUS, the
//! two-phase address latch, the buffered data port, and VRAM mirroring.

use vstd::prelude::*;

use crate::cartridge::Mirroring;
use crate::errors::EmuError;
use crate::ppu::registers::{AddrRegister, ControlRegister, MaskRegister, StatusRegister};
use crate::ppu::registers::{spec_addr_composed, spec_vram_increment, V_BLANK_STARTED};

pub mod registers;

verus! {

/// The PPU state visible through the register file.
pub struct PPU {
    pub chr_rom: Vec<u8>,
    pub palette_table: Vec<u8>,
    pub vram: Vec<u8>,
    pub oam_data: Vec<u8>,
    pub mirroring: Mirroring,
    pub ctrl: ControlRegister,
    pub mask: MaskRegister,
    pub status: StatusRegister,
    internal_data_buf: u8,
    addr: AddrRegister,
}

/// Mathematical model of the PPU register file. `addr` is the composed
/// 14-bit VRAM address; `hi_ptr` is the write-toggle latch.
pub ghost struct PpuView {
    pub chr: Seq<u8>,
    pub palette: Seq<u8>,
    pub vram: Seq<u8>,
    pub oam: Seq<u8>,
    pub mirroring: Mirroring,
    pub ctrl: u8,
    pub mask: u8,
    pub status: u8,
    pub buf: u8,
    pub addr: int,
    pub hi_ptr: bool,
}

impl View for PPU {
    type V = PpuView;

    closed spec fn view(&self) -> PpuView {
        PpuView {
            chr: self.chr_rom@,
            palette: self.palette_table@,
            vram: self.vram@,
            oam: self.oam_data@,
            mirroring: self.mirroring,
            ctrl: self.ctrl@,
            mask: self.mask@,
            status: self.status@,
            buf: self.internal_data_buf,
            addr: spec_addr_composed(self.addr@),
            hi_ptr: self.addr@.hi_ptr,
        }
    }
}

pub open spec fn spec_ppu_wf(p: PpuView) -> bool {
    &&& p.chr.len() == 0x2000
    &&& p.palette.len() == 32
    &&& p.vram.len() == 0x800
    &&& p.oam.len() == 256
    &&& 0 <= p.addr <= 0x3FFF
}

/// Map a nametable byte address (0x2000..=0x3EFF) to an index into the
/// nametable RAM, per the cartridge's screen mirroring: Vertical uses
/// banks 0,1,0,1; Horizontal 0,0,1,1; FourScreen 0,1,2,3.
pub open spec fn spec_mirror_vram(m: Mirroring, addr: int) -> int {
    let mirrored = if addr >= 0x3000 {
        addr - 0x1000
    } else {
        addr
    };
    let idx = mirrored - 0x2000;
    let table = idx / 0x400;
    match m {
        Mirroring::Vertical => if table == 2 || table == 3 {
            idx - 0x800
        } else {
            idx
        },
        Mirroring::Horizontal => if table == 1 || table == 2 {
            idx - 0x400
        } else if table == 3 {
            idx - 0x800
        } else {
            idx
        },
        Mirroring::FourScreen => idx,
    }
}

/// Index into the 32-byte palette RAM for a data-port address in
/// 0x3F00..=0x3FFF, with the write aliases 0x3F10/14/18/1C folded onto
/// 0x3F00/04/08/0C.
pub open spec fn spec_palette_write_index(addr: int) -> int {
    let idx = (addr - 0x3F00) % 32;
    if idx == 0x10 || idx == 0x14 || idx == 0x18 || idx == 0x1C {
        idx - 0x10
    } else {
        idx
    }
}

/// One read through the PPUDATA port: CHR-ROM and nametable reads return
/// the previous buffer contents and refill the buffer; palette reads are
/// immediate. The address then advances by the CTRL-selected step.
/// The 0x3000..=0x3EFF hole, and nametable banks the cartridge does not
/// provide, are unusable.
pub open spec fn spec_ppu_read_data(p: PpuView) -> Result<(PpuView, u8), EmuError> {
    let a = p.addr;
    let stepped = (a + spec_vram_increment(p.ctrl)) % 0x4000;
    if a < 0x2000 {
        Ok((PpuView { buf: p.chr[a], addr: stepped, ..p }, p.buf))
    } else if a < 0x3000 {
        let idx = spec_mirror_vram(p.mirroring, a);
        if idx < 0x800 {
            Ok((PpuView { buf: p.vram[idx], addr: stepped, ..p }, p.buf))
        } else {
            Err(EmuError::PpuAddressUnusable(a as u16))
        }
    } else if a < 0x3F00 {
        Err(EmuError::PpuAddressUnusable(a as u16))
    } else {
        Ok((PpuView { addr: stepped, ..p }, p.palette[(a - 0x3F00) % 32]))
    }
}

/// One write through the PPUDATA port: CHR-ROM is read-only, the
/// 0x3000..=0x3EFF hole is unusable, nametable writes go through the
/// mirroring function, palette writes go through the alias fold. The
/// address then advances by the CTRL-selected step.
pub open spec fn spec_ppu_write_data(p: PpuView, data: u8) -> Result<PpuView, EmuError> {
    let a = p.addr;
    let stepped = (a + spec_vram_increment(p.ctrl)) % 0x4000;
    if a < 0x2000 {
        Err(EmuError::WriteToReadOnly(a as u16))
    } else if a < 0x3000 {
        let idx = spec_mirror_vram(p.mirroring, a);
        if idx < 0x800 {
            Ok(PpuView { vram: p.vram.update(idx, data), addr: stepped, ..p })
        } else {
            Err(EmuError::PpuAddressUnusable(a as u16))
        }
    } else if a < 0x3F00 {
        Err(EmuError::PpuAddressUnusable(a as u16))
    } else {
        Ok(PpuView { palette: p.palette.update(spec_palette_write_index(a), data), addr: stepped, ..p })
    }
}

/// A write through PPUADDR: the byte lands in the half the latch points
/// at, the composed value is mirrored down into 14 bits, and the latch
/// flips.
pub open spec fn spec_ppu_write_addr(p: PpuView, data: u8) -> PpuView {
    let composed = if p.hi_ptr {
        data * 256 + p.addr % 256
    } else {
        (p.addr / 256) * 256 + data
    };
    PpuView { addr: composed % 0x4000, hi_ptr: !p.hi_ptr, ..p }
}

/// A read of PPUSTATUS: the current bits come back, V-blank clears, and
/// the address latch resets to the high byte.
pub open spec fn spec_ppu_read_status(p: PpuView) -> (PpuView, u8) {
    (PpuView { status: p.status & !V_BLANK_STARTED, hi_ptr: true, ..p }, p.status)
}

impl PPU {
    pub open spec fn wf(&self) -> bool {
        spec_ppu_wf(self@)
    }

    /// A fresh register file over the cartridge's CHR-ROM: empty palette,
    /// nametable and OAM RAM, zeroed registers, latch at the high byte.
    pub fn new(chr_rom: Vec<u8>, mirroring: Mirroring) -> (r: PPU)
        requires
            chr_rom@.len() == 0x2000,
        ensures
            r.wf(),
            r@.chr == chr_rom@,
            r@.mirroring == mirroring,
            r@.ctrl == 0 && r@.mask == 0 && r@.status == 0 && r@.buf == 0,
            r@.addr == 0 && r@.hi_ptr == true,
            forall|i: int| 0 <= i < 0x800 ==> r@.vram[i] == 0,
            forall|i: int| 0 <= i < 32 ==> r@.palette[i] == 0,
            forall|i: int| 0 <= i < 256 ==> r@.oam[i] == 0,
    {
        let mut palette_table: Vec<u8> = Vec::new();
        while palette_table.len() < 32
            invariant
                palette_table@.len() <= 32,
                forall|i: int| 0 <= i < palette_table@.len() ==> palette_table@[i] == 0,
            decreases 32 - palette_table@.len(),
        {
            palette_table.push(0);
        }
        let mut vram: Vec<u8> = Vec::new();
        while vram.len() < 0x800
            invariant
                vram@.len() <= 0x800,
                forall|i: int| 0 <= i < vram@.len() ==> vram@[i] == 0,
            decreases 0x800 - vram@.len(),
        {
            vram.push(0);
        }
        let mut oam_data: Vec<u8> = Vec::new();
        while oam_data.len() < 256
            invariant
                oam_data@.len() <= 256,
                forall|i: int| 0 <= i < oam_data@.len() ==> oam_data@[i] == 0,
            decreases 256 - oam_data@.len(),
        {
            oam_data.push(0);
        }
        PPU {
            chr_rom,
            palette_table,
            vram,
            oam_data,
            mirroring,
            internal_data_buf: 0,
            addr: AddrRegister::new(),
            mask: MaskRegister::new(),
            status: StatusRegister::new(),
            ctrl: ControlRegister::new(),
        }
    }

    /// One write through PPUADDR, exactly as `spec_ppu_write_addr` says.
    pub fn write_to_ppu_addr(&mut self, data: u8)
        requires
            old(self).wf(),
        ensures
            final(self).wf(),
            final(self)@ == spec_ppu_write_addr(old(self)@, data),
    {
        proof {
            let v = self.addr@;
            assert(v.lo == spec_addr_composed(v) % 256);
            assert(v.hi == spec_addr_composed(v) / 256);
        }
        self.addr.update(data);
    }

    fn increment_vram_addr(&mut self)
        requires
            old(self).wf(),
        ensures
            final(self).wf(),
            final(self)@ == (PpuView {
                addr: (old(self)@.addr + spec_vram_increment(old(self)@.ctrl)) % 0x4000,
                ..old(self)@
            }),
    {
        let step = self.ctrl.vram_add_increment();
        self.addr.increment(step);
    }

    /// Store a byte written through PPUCTRL.
    pub fn write_to_ctrl(&mut self, data: u8)
        requires
            old(self).wf(),
        ensures
            final(self).wf(),
            final(self)@ == (PpuView { ctrl: data, ..old(self)@ }),
    {
        self.ctrl.update(data);
    }

    /// Store a byte written through PPUMASK.
    pub fn write_to_mask(&mut self, data: u8)
        requires
            old(self).wf(),
        ensures
            final(self).wf(),
            final(self)@ == (PpuView { mask: data, ..old(self)@ }),
    {
        self.mask.update(data);
    }

    /// Read PPUSTATUS, exactly as `spec_ppu_read_status` says.
    pub fn read_from_status(&mut self) -> (r: u8)
        requires
            old(self).wf(),
        ensures
            final(self).wf(),
            (final(self)@, r) == spec_ppu_read_status(old(self)@),
    {
        let res = self.status.get();
        self.addr.reset_latch();
        res
    }

    /// One read through PPUDATA, exactly as `spec_ppu_read_data` says.
    /// On an unusable address the error is returned and the register
    /// file stays well-formed.
    pub fn read_to_data(&mut self) -> (r: Result<u8, EmuError>)
        requires
            old(self).wf(),
        ensures
            final(self).wf(),
            match r {
                Ok(v) => spec_ppu_read_data(old(self)@) == Ok::<(PpuView, u8), EmuError>((
                    final(self)@,
                    v,
                )),
                Err(e) => spec_ppu_read_data(old(self)@) == Err::<(PpuView, u8), EmuError>(e),
            },
    {
        let addr = self.addr.get();
        self.increment_vram_addr();
        if addr < 0x2000 {
            let result = self.internal_data_buf;
            self.internal_data_buf = self.chr_rom[addr as usize];
            Ok(result)
        } else if addr < 0x3000 {
            let idx = self.mirror_vram_addr(addr);
            if idx < 0x800 {
                let result = self.internal_data_buf;
                self.internal_data_buf = self.vram[idx as usize];
                Ok(result)
            } else {
                Err(EmuError::PpuAddressUnusable(addr))
            }
        } else if addr < 0x3F00 {
            Err(EmuError::PpuAddressUnusable(addr))
        } else {
            Ok(self.palette_table[((addr - 0x3F00) % 32) as usize])
        }
    }

    /// One write through PPUDATA, exactly as `spec_ppu_write_data` says.
    pub fn write_to_data(&mut self, data: u8) -> (r: Result<(), EmuError>)
        requires
            old(self).wf(),
        ensures
            final(self).wf(),
            match r {
                Ok(()) => spec_ppu_write_data(old(self)@, data) == Ok::<PpuView, EmuError>(
                    final(self)@,
                ),
                Err(e) => spec_ppu_write_data(old(self)@, data) == Err::<PpuView, EmuError>(e),
            },
    {
        let addr = self.addr.get();
        if addr < 0x2000 {
            return Err(EmuError::WriteToReadOnly(addr));
        }
        if addr < 0x3000 {
            let idx = self.mirror_vram_addr(addr);
            if idx >= 0x800 {
                return Err(EmuError::PpuAddressUnusable(addr));
            }
            self.vram[idx as usize] = data;
            self.increment_vram_addr();
            return Ok(());
        }
        if addr < 0x3F00 {
            return Err(EmuError::PpuAddressUnusable(addr));
        }
        let idx = (addr - 0x3F00) % 32;
        let folded: u16 = if idx == 0x10 || idx == 0x14 || idx == 0x18 || idx == 0x1C {
            idx - 0x10
        } else {
            idx
        };
        self.palette_table[folded as usize] = data;
        self.increment_vram_addr();
        Ok(())
    }

    /// The nametable mirroring function, exactly `spec_mirror_vram`.
    pub fn mirror_vram_addr(&self, addr: u16) -> (r: u16)
        requires
            0x2000 <= addr < 0x3F00,
        ensures
            r == spec_mirror_vram(self@.mirroring, addr as int),
    {
        let mirrored: u16 = if addr >= 0x3000 {
            addr - 0x1000
        } else {
            addr
        };
        let idx: u16 = mirrored - 0x2000;
        let table: u16 = idx / 0x400;
        match self.mirroring {
            Mirroring::Vertical => if table == 2 || table == 3 {
                idx - 0x800
            } else {
                idx
            },
            Mirroring::Horizontal => if table == 1 || table == 2 {
                idx - 0x400
            } else if table == 3 {
                idx - 0x800
            } else {
                idx
            },
            Mirroring::FourScreen => idx,
        }
    }
}

} // verus!
