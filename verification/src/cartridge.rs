//! iNES 1.0 cartridge loader: parses the 16-byte header, skips an optional
//! trainer, and extracts PRG-ROM, CHR-ROM and the screen mirroring policy.

use vstd::prelude::*;

use crate::errors::EmuError;

verus! {

/// How the 2 KiB of nametable RAM is replicated across the four 1 KiB
/// name-table slots of the PPU address space.
#[derive(Clone, Copy, Debug, PartialEq, Eq, Structural)]
pub enum Mirroring {
    Vertical,
    Horizontal,
    FourScreen,
}

/// A parsed NROM cartridge, immutable after parsing.
#[derive(Debug)]
pub struct Rom {
    pub prg_rom: Vec<u8>,
    pub chr_rom: Vec<u8>,
    pub mapper: u8,
    pub screen_mirroring: Mirroring,
}

/// Mathematical model of a parsed cartridge.
pub ghost struct RomView {
    pub prg: Seq<u8>,
    pub chr: Seq<u8>,
    pub mapper: u8,
    pub mirroring: Mirroring,
}

impl View for Rom {
    type V = RomView;

    open spec fn view(&self) -> RomView {
        RomView {
            prg: self.prg_rom@,
            chr: self.chr_rom@,
            mapper: self.mapper,
            mirroring: self.screen_mirroring,
        }
    }
}

/// The image begins with the iNES magic {0x4E, 0x45, 0x53, 0x1A}.
pub open spec fn spec_magic_ok(raw: Seq<u8>) -> bool {
    &&& raw.len() >= 16
    &&& raw[0] == 0x4E
    &&& raw[1] == 0x45
    &&& raw[2] == 0x53
    &&& raw[3] == 0x1A
}

/// Offset of the PRG-ROM data: 16 header bytes, plus a 512-byte trainer
/// when control byte 1 has bit 2 set.
pub open spec fn spec_prg_start(raw: Seq<u8>) -> int {
    if raw[6] & 0x04 != 0 {
        528int
    } else {
        16int
    }
}

/// Screen mirroring encoded in control byte 1: bit 3 selects four-screen,
/// else bit 0 selects vertical over horizontal.
pub open spec fn spec_mirroring_of(cb1: u8) -> Mirroring {
    if cb1 & 0x08 != 0 {
        Mirroring::FourScreen
    } else if cb1 & 0x01 != 0 {
        Mirroring::Vertical
    } else {
        Mirroring::Horizontal
    }
}

/// Full functional specification of the iNES parser. Errors, in order of
/// precedence: `BadMagic` for a short image or a wrong magic;
/// `UnsupportedFormat` for an iNES version other than 1.0;
/// `UnsupportedMapper` for any mapper but NROM; `UnsupportedFormat` again
/// when the declared sizes are not the NROM shape (16 or 32 KiB PRG, 8 KiB
/// CHR) or the image is too short to hold the declared data.
pub open spec fn spec_parse_rom(raw: Seq<u8>) -> Result<RomView, EmuError> {
    if !spec_magic_ok(raw) {
        Err(EmuError::BadMagic)
    } else if (raw[7] >> 2) & 0x03 != 0 {
        Err(EmuError::UnsupportedFormat)
    } else if ((raw[7] & 0xF0) | (raw[6] >> 4)) != 0 {
        Err(EmuError::UnsupportedMapper)
    } else if !(raw[4] == 1 || raw[4] == 2) || raw[5] != 1 {
        Err(EmuError::UnsupportedFormat)
    } else if raw.len() < spec_prg_start(raw) + raw[4] * 0x4000 + 0x2000 {
        Err(EmuError::UnsupportedFormat)
    } else {
        let prg_start = spec_prg_start(raw);
        let prg_end = prg_start + raw[4] * 0x4000;
        Ok(RomView {
            prg: raw.subrange(prg_start, prg_end),
            chr: raw.subrange(prg_end, prg_end + 0x2000),
            mapper: 0,
            mirroring: spec_mirroring_of(raw[6]),
        })
    }
}

impl Rom {
    /// An NROM cartridge as the bus relies on it: mapper 0, a 16 KiB or
    /// 32 KiB PRG-ROM, and an 8 KiB CHR-ROM.
    pub open spec fn wf(&self) -> bool {
        &&& self@.mapper == 0
        &&& (self@.prg.len() == 0x4000 || self@.prg.len() == 0x8000)
        &&& self@.chr.len() == 0x2000
    }

    /// Parse an iNES image, exactly as `spec_parse_rom` describes.
    pub fn new(raw: &Vec<u8>) -> (r: Result<Rom, EmuError>)
        ensures
            match r {
                Ok(rom) => spec_parse_rom(raw@) == Ok::<RomView, EmuError>(rom@) && rom.wf(),
                Err(e) => spec_parse_rom(raw@) == Err::<RomView, EmuError>(e),
            },
    {
        if raw.len() < 16 {
            return Err(EmuError::BadMagic);
        }
        if !(raw[0] == 0x4E && raw[1] == 0x45 && raw[2] == 0x53 && raw[3] == 0x1A) {
            return Err(EmuError::BadMagic);
        }
        let cb1 = raw[6];
        let cb2 = raw[7];
        if (cb2 >> 2) & 0x03 != 0 {
            return Err(EmuError::UnsupportedFormat);
        }
        if ((cb2 & 0xF0) | (cb1 >> 4)) != 0 {
            return Err(EmuError::UnsupportedMapper);
        }
        let prg_pages = raw[4];
        let chr_pages = raw[5];
        if !(prg_pages == 1 || prg_pages == 2) || chr_pages != 1 {
            return Err(EmuError::UnsupportedFormat);
        }
        let prg_start: usize = if cb1 & 0x04 != 0 {
            16 + 512
        } else {
            16
        };
        let prg_size: usize = prg_pages as usize * 0x4000;
        let prg_end: usize = prg_start + prg_size;
        let data_end: usize = prg_end + 0x2000;
        if raw.len() < data_end {
            return Err(EmuError::UnsupportedFormat);
        }
        let prg_rom = vstd::slice::slice_to_vec(
            vstd::slice::slice_subrange(raw.as_slice(), prg_start, prg_end),
        );
        let chr_rom = vstd::slice::slice_to_vec(
            vstd::slice::slice_subrange(raw.as_slice(), prg_end, data_end),
        );
        Ok(Rom { prg_rom, chr_rom, mapper: 0, screen_mirroring: if cb1 & 0x08 != 0 {
            Mirroring::FourScreen
        } else if cb1 & 0x01 != 0 {
            Mirroring::Vertical
        } else {
            Mirroring::Horizontal
        } })
    }
}

} // verus!
