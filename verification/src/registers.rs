use vstd::prelude::*;

verus! {

// Memory-mapped registers read from and written to by the CPU.
//
// Each register is a typed bitmask with named masks and predicate/update
// methods, so the semantic bit names stay traceable while the exact bit
// layout is preserved.
// PPUCTRL bit masks (register 0x2000, write-only).
pub const CTRL_BASE_NAMETABLE_0: u8 = 0x01;

pub const CTRL_BASE_NAMETABLE_1: u8 = 0x02;

pub const CTRL_VRAM_ADDR_INCR: u8 = 0x04;

pub const CTRL_SPRITE_TABLE_ADDR: u8 = 0x08;

pub const CTRL_BACKGROUND_PATTERN_TABLE: u8 = 0x10;

pub const CTRL_SPRITE_SIZE: u8 = 0x20;

pub const CTRL_PPU_MASTER_SLAVE: u8 = 0x40;

pub const CTRL_GENERATE_NMI: u8 = 0x80;

// PPUMASK bit masks (register 0x2001, write-only).
pub const MASK_GRAYSCALE: u8 = 0x01;

pub const MASK_SHOW_BACKGROUND_LEFTMOST: u8 = 0x02;

pub const MASK_SHOW_SPRITES_LEFTMOST: u8 = 0x04;

pub const MASK_SHOW_BACKGROUND: u8 = 0x08;

pub const MASK_SHOW_SPRITE: u8 = 0x10;

pub const MASK_EMPH_RED: u8 = 0x20;

pub const MASK_EMPH_GREEN: u8 = 0x40;

pub const MASK_EMPH_BLUE: u8 = 0x80;

// PPUSTATUS bit masks (register 0x2002, read-only).
pub const STATUS_SPRITE_OVERFLOW: u8 = 0x20;

pub const STATUS_SPRITE_0_HIT: u8 = 0x40;

pub const STATUS_VBLANK_START: u8 = 0x80;

/// Whether every bit of `mask` is set in `bits`.
pub open spec fn spec_contains(bits: u8, mask: u8) -> bool {
    bits & mask == mask
}

/// `bits` with every bit of `mask` forced to 1 (`b` true) or to 0.
pub open spec fn spec_apply_mask(bits: u8, mask: u8, b: bool) -> u8 {
    if b {
        bits | mask
    } else {
        bits & !mask
    }
}

/// The 14-bit address held by PPUADDR as the pair (high byte, low byte).
pub open spec fn spec_ppuaddr_get(hi: u8, lo: u8) -> u16 {
    crate::utils::spec_join_hi_low(lo, hi) & 0x3fff
}

/// Control register (0x2000): base-nametable select, VRAM address increment
/// step, pattern-table selects, sprite size, master/slave, and whether a
/// non-maskable interrupt is generated when the vertical blank starts.
pub struct PPUCTRL {
    pub bits: u8,
}

impl View for PPUCTRL {
    type V = u8;

    open spec fn view(&self) -> u8 {
        self.bits
    }
}

impl PPUCTRL {
    pub fn new() -> (r: Self)
        ensures
            r@ == 0u8,
    {
        PPUCTRL { bits: 0 }
    }

    pub fn update(&mut self, value: u8)
        ensures
            final(self)@ == value,
    {
        self.bits = value
    }

    pub fn contains(&self, mask: u8) -> (r: bool)
        ensures
            r == spec_contains(self@, mask),
    {
        self.bits & mask == mask
    }

    /// The two-bit base-nametable selector (bits 0 and 1).
    pub fn get_base_nt(&self) -> (r: u8)
        ensures
            r == self@ & 3,
            r < 4,
    {
        proof {
            let b = self.bits;
            assert(b & 3 < 4) by (bit_vector);
        }
        self.bits & 3
    }
}

/// Rendering-enable register (0x2001).
pub struct PPUMASK {
    pub bits: u8,
}

impl View for PPUMASK {
    type V = u8;

    open spec fn view(&self) -> u8 {
        self.bits
    }
}

impl PPUMASK {
    pub fn new() -> (r: Self)
        ensures
            r@ == 0u8,
    {
        PPUMASK { bits: 0 }
    }

    pub fn update(&mut self, value: u8)
        ensures
            final(self)@ == value,
    {
        self.bits = value
    }
}

/// Status register (0x2002): sprite overflow, sprite-0 hit, and the
/// vblank-started bit. Reading it through the bus clears the vblank bit and
/// resets the shared write latch; that side effect lives on the PPU itself.
pub struct PPUSTATUS {
    pub bits: u8,
}

impl View for PPUSTATUS {
    type V = u8;

    open spec fn view(&self) -> u8 {
        self.bits
    }
}

impl PPUSTATUS {
    pub fn new() -> (r: Self)
        ensures
            r@ == 0u8,
    {
        PPUSTATUS { bits: 0 }
    }

    pub fn contains(&self, mask: u8) -> (r: bool)
        ensures
            r == spec_contains(self@, mask),
    {
        self.bits & mask == mask
    }

    /// Forces the bits of `mask` to 1 (`b` true) or to 0.
    pub fn set(&mut self, mask: u8, b: bool)
        ensures
            final(self)@ == spec_apply_mask(old(self)@, mask, b),
    {
        if b {
            self.bits = self.bits | mask
        } else {
            self.bits = self.bits & !mask
        }
    }

    pub fn bits(&self) -> (r: u8)
        ensures
            r == self@,
    {
        self.bits
    }
}

/// OAM cursor register (0x2003).
pub struct OAMADDR(pub u8);

/// OAM data port register (0x2004).
pub struct OAMDATA(pub u8);

/// Scroll register (0x2005): a two-write pair (x scroll, y scroll)
/// disambiguated by the PPU's shared write latch.
pub struct PPUSCROLL {
    pub value: (u8, u8),
}

impl View for PPUSCROLL {
    type V = (u8, u8);

    open spec fn view(&self) -> (u8, u8) {
        self.value
    }
}

impl PPUSCROLL {
    pub fn new() -> (r: Self)
        ensures
            r@ == (0u8, 0u8),
    {
        PPUSCROLL { value: (0, 0) }
    }

    /// First write (`w` false) sets the x component, second write sets y.
    pub fn update(&mut self, value: u8, w: bool)
        ensures
            final(self)@ == if w {
                (old(self)@.0, value)
            } else {
                (value, old(self)@.1)
            },
    {
        if w {
            self.value.1 = value
        } else {
            self.value.0 = value
        }
    }
}

/// VRAM address register (0x2006): a two-write pair (high byte, low byte)
/// disambiguated by the PPU's shared write latch; the assembled address is
/// always masked to 14 bits.
pub struct PPUADDR {
    pub value: (u8, u8),
}

impl View for PPUADDR {
    type V = (u8, u8);

    open spec fn view(&self) -> (u8, u8) {
        self.value
    }
}

impl PPUADDR {
    pub fn new() -> (r: Self)
        ensures
            r@ == (0u8, 0u8),
    {
        PPUADDR { value: (0, 0) }
    }

    /// The held address, mirrored into the 14-bit PPU address space.
    pub fn get(&self) -> (r: u16)
        ensures
            r == spec_ppuaddr_get(self@.0, self@.1),
            r < 0x4000,
    {
        proof {
            crate::utils::lemma_mask_bounds();
        }
        (((self.value.0 as u16) << 8) | (self.value.1 as u16)) & 0x3fff
    }

    fn set(&mut self, data: u16)
        ensures
            final(self)@ == (((data >> 8) & 0xff) as u8, (data & 0xff) as u8),
    {
        proof {
            crate::utils::lemma_mask_bounds();
        }
        let hi = (data >> 8) & 0xff;
        let lo = data & 0xff;
        self.value = (hi as u8, lo as u8)
    }

    /// First write (`w` false) sets the high byte, second write sets the low.
    pub fn update(&mut self, data: u8, w: bool)
        ensures
            final(self)@ == if w {
                (old(self)@.0, data)
            } else {
                (data, old(self)@.1)
            },
    {
        if w {
            self.value.1 = data
        } else {
            self.value.0 = data
        }
    }

    /// Advances the held address by 32 (`bit` true) or by 1.
    pub fn increment_by(&mut self, bit: bool)
        ensures
            ({
                let next = spec_ppuaddr_get(old(self)@.0, old(self)@.1) + (if bit {
                    32int
                } else {
                    1int
                });
                final(self)@ == (((next as u16 >> 8) & 0xff) as u8, (next as u16 & 0xff) as u8)
            }),
    {
        let incr_by: u16 = if bit {
            32
        } else {
            1
        };
        let next = self.get() + incr_by;
        self.set(next)
    }
}

/// Data port register (0x2007): the one-byte read buffer through which the
/// PPU's own address space is read and written.
pub struct PPUDATA(pub u8);

} // verus!
