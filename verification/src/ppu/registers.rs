//! The PPU's programmer-visible registers: PPUCTRL, PPUMASK, PPUSTATUS and
//! the two-phase PPUADDR latch.

use vstd::prelude::*;

verus! {

// PPUCTRL bits.
pub const NAMETABLE1: u8 = 0b0000_0001;
pub const NAMETABLE2: u8 = 0b0000_0010;
pub const VRAM_ADD_INCREMENT: u8 = 0b0000_0100;
pub const SPRITE_PATTERN_ADDR: u8 = 0b0000_1000;
pub const BACKGROUND_PATTERN_ADDR: u8 = 0b0001_0000;
pub const SPRITE_SIZE: u8 = 0b0010_0000;
pub const MASTER_SLAVE_SELECT: u8 = 0b0100_0000;
pub const GENERATE_NMI: u8 = 0b1000_0000;

// PPUMASK bits.
pub const GREYSCALE: u8 = 0b0000_0001;
pub const BACKGROUND_CTRL: u8 = 0b0000_0010;
pub const SPRITES_CTRL: u8 = 0b0000_0100;
pub const BACKGROUND_SHOW: u8 = 0b0000_1000;
pub const SPRITES_SHOW: u8 = 0b0001_0000;
pub const RED: u8 = 0b0010_0000;
pub const GREEN: u8 = 0b0100_0000;
pub const BLUE: u8 = 0b1000_0000;

// PPUSTATUS bits.
pub const SPRITE_OVERFLOW: u8 = 0b0010_0000;
pub const SPRITE_0_HIT: u8 = 0b0100_0000;
pub const V_BLANK_STARTED: u8 = 0b1000_0000;

/// PPUCTRL. Bit 2 selects the VRAM address increment applied after each
/// PPUDATA access: 1 across, 32 down.
pub struct ControlRegister {
    bits: u8,
}

/// The VRAM address step that a control byte selects.
pub open spec fn spec_vram_increment(ctrl: u8) -> int {
    if ctrl & VRAM_ADD_INCREMENT != 0 {
        32
    } else {
        1
    }
}

/// The base nametable address selected by the low two control bits.
pub open spec fn spec_nametable_addr(ctrl: u8) -> u16 {
    if ctrl & 0x03 == 0 {
        0x2000
    } else if ctrl & 0x03 == 1 {
        0x2400
    } else if ctrl & 0x03 == 2 {
        0x2800
    } else {
        0x2C00
    }
}

impl View for ControlRegister {
    type V = u8;

    closed spec fn view(&self) -> u8 {
        self.bits
    }
}

impl ControlRegister {
    pub fn new() -> (r: Self)
        ensures
            r@ == 0,
    {
        ControlRegister { bits: 0 }
    }

    pub fn get_nametable_addr(&self) -> (r: u16)
        ensures
            r == spec_nametable_addr(self@),
    {
        let low = self.bits & 0x03;
        if low == 0 {
            0x2000
        } else if low == 1 {
            0x2400
        } else if low == 2 {
            0x2800
        } else {
            0x2C00
        }
    }

    pub fn sprite_pattern_addr(&self) -> (r: u16)
        ensures
            r == (if self@ & SPRITE_PATTERN_ADDR != 0 {
                0x1000u16
            } else {
                0x0u16
            }),
    {
        if self.bits & SPRITE_PATTERN_ADDR != 0 {
            0x1000
        } else {
            0x0
        }
    }

    pub fn get_sprite_size(&self) -> (r: u8)
        ensures
            r == (if self@ & SPRITE_SIZE != 0 {
                16u8
            } else {
                8u8
            }),
    {
        if self.bits & SPRITE_SIZE != 0 {
            16
        } else {
            8
        }
    }

    pub fn get_bgrnd_patt_addr(&self) -> (r: u16)
        ensures
            r == (if self@ & BACKGROUND_PATTERN_ADDR != 0 {
                0x1000u16
            } else {
                0x0u16
            }),
    {
        if self.bits & BACKGROUND_PATTERN_ADDR != 0 {
            0x1000
        } else {
            0x0000
        }
    }

    pub fn generate_vblank_nmi(&mut self) -> (r: bool)
        ensures
            final(self)@ == old(self)@,
            r == (old(self)@ & GENERATE_NMI != 0),
    {
        self.bits & GENERATE_NMI != 0
    }

    pub fn vram_add_increment(&self) -> (r: u8)
        ensures
            r == spec_vram_increment(self@),
    {
        if self.bits & VRAM_ADD_INCREMENT == 0 {
            1
        } else {
            32
        }
    }

    /// Store a byte written through PPUCTRL.
    pub fn update(&mut self, data: u8)
        ensures
            final(self)@ == data,
    {
        self.bits = data;
    }
}

/// PPUMASK. Held for the embedder; no bit influences this core.
pub struct MaskRegister {
    bits: u8,
}

impl View for MaskRegister {
    type V = u8;

    closed spec fn view(&self) -> u8 {
        self.bits
    }
}

impl MaskRegister {
    pub fn new() -> (r: Self)
        ensures
            r@ == 0,
    {
        MaskRegister { bits: 0 }
    }

    /// Store a byte written through PPUMASK.
    pub fn update(&mut self, data: u8)
        ensures
            final(self)@ == data,
    {
        self.bits = data;
    }
}

/// PPUSTATUS. Reading it hands out the current bits and clears V-blank.
pub struct StatusRegister {
    bits: u8,
}

impl View for StatusRegister {
    type V = u8;

    closed spec fn view(&self) -> u8 {
        self.bits
    }
}

impl StatusRegister {
    pub fn new() -> (r: Self)
        ensures
            r@ == 0,
    {
        StatusRegister { bits: 0 }
    }

    /// Read PPUSTATUS: return the bits, then clear the V-blank flag.
    pub fn get(&mut self) -> (r: u8)
        ensures
            r == old(self)@,
            final(self)@ == (old(self)@ & !V_BLANK_STARTED),
    {
        let res = self.bits;
        self.bits = self.bits & !V_BLANK_STARTED;
        res
    }

    pub fn set_vblank_status(&mut self, status: bool)
        ensures
            final(self)@ == (if status {
                old(self)@ | V_BLANK_STARTED
            } else {
                old(self)@ & !V_BLANK_STARTED
            }),
    {
        if status {
            self.bits = self.bits | V_BLANK_STARTED;
        } else {
            self.bits = self.bits & !V_BLANK_STARTED;
        }
    }

    pub fn is_in_v_blank(&self) -> (r: bool)
        ensures
            r == (self@ & V_BLANK_STARTED != 0),
    {
        self.bits & V_BLANK_STARTED != 0
    }

    pub fn update(&mut self, data: u8)
        ensures
            final(self)@ == data,
    {
        self.bits = data;
    }
}

/// The 14-bit PPUADDR register with its write-toggle latch. The first
/// write after a latch reset lands in the high byte, the second in the
/// low byte; each write mirrors the composed value down into 14 bits.
pub struct AddrRegister {
    hi: u8,
    lo: u8,
    hi_ptr: bool,
}

/// Model of the address register: the two stored bytes and the latch.
pub ghost struct AddrRegView {
    pub hi: u8,
    pub lo: u8,
    pub hi_ptr: bool,
}

impl View for AddrRegister {
    type V = AddrRegView;

    closed spec fn view(&self) -> AddrRegView {
        AddrRegView { hi: self.hi, lo: self.lo, hi_ptr: self.hi_ptr }
    }
}

/// The 14-bit address currently held by the register.
pub open spec fn spec_addr_composed(v: AddrRegView) -> int {
    v.hi * 256 + v.lo
}

impl AddrRegister {
    /// The stored bytes never compose to more than 0x3FFF.
    pub open spec fn wf(&self) -> bool {
        spec_addr_composed(self@) <= 0x3FFF
    }

    pub fn new() -> (r: Self)
        ensures
            r.wf(),
            spec_addr_composed(r@) == 0,
            r@.hi_ptr == true,
    {
        AddrRegister { hi: 0, lo: 0, hi_ptr: true }
    }

    /// One write through PPUADDR: the byte lands in the half the latch
    /// points at, the composed value is mirrored down into 14 bits, and
    /// the latch flips.
    pub fn update(&mut self, data: u8)
        requires
            old(self).wf(),
        ensures
            final(self).wf(),
            final(self)@.hi_ptr == !old(self)@.hi_ptr,
            spec_addr_composed(final(self)@) == (if old(self)@.hi_ptr {
                (data * 256 + old(self)@.lo) % 0x4000
            } else {
                (old(self)@.hi * 256 + data) % 0x4000
            }),
    {
        if self.hi_ptr {
            self.hi = data;
        } else {
            self.lo = data;
        }
        let composed: u32 = (self.hi as u32) * 256 + (self.lo as u32);
        let masked: u32 = composed % 0x4000;
        self.hi = (masked / 256) as u8;
        self.lo = (masked % 256) as u8;
        self.hi_ptr = !self.hi_ptr;
    }

    /// Advance the address by the control register's step, wrapping
    /// within the 14-bit space.
    pub fn increment(&mut self, inc: u8)
        requires
            old(self).wf(),
        ensures
            final(self).wf(),
            final(self)@.hi_ptr == old(self)@.hi_ptr,
            spec_addr_composed(final(self)@) == (spec_addr_composed(old(self)@) + inc) % 0x4000,
    {
        let composed: u32 = (self.hi as u32) * 256 + (self.lo as u32);
        let sum: u32 = composed + inc as u32;
        let masked: u32 = sum % 0x4000;
        self.hi = (masked / 256) as u8;
        self.lo = (masked % 256) as u8;
    }

    /// A read of PPUSTATUS resets the latch so the next write lands in
    /// the high byte.
    pub fn reset_latch(&mut self)
        ensures
            final(self)@ == (AddrRegView { hi_ptr: true, ..old(self)@ }),
    {
        self.hi_ptr = true;
    }

    pub fn get(&self) -> (r: u16)
        requires
            self.wf(),
        ensures
            r == spec_addr_composed(self@),
    {
        (self.hi as u16) * 256 + (self.lo as u16)
    }
}

} // verus!
