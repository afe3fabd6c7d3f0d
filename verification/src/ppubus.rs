use vstd::prelude::*;

use crate::cartridge::Mirroring;
use crate::errors::EmuError;

verus! {

/// Address of the universal background color in the palette window.
pub const BACKGROUND_COLOR: u16 = 0x3f00;

/// Ghost view of the PPU's own 14-bit address space: pattern data, the 2KB
/// of physical nametable RAM, the 32-byte palette table, and the cartridge's
/// mirroring mode.
#[verifier::ext_equal]
pub ghost struct PpuBusV {
    pub chr: Seq<u8>,
    pub nt: Seq<u8>,
    pub pal: Seq<u8>,
    pub mirroring: Mirroring,
}

pub open spec fn spec_ppubus_wf(b: PpuBusV) -> bool {
    &&& b.chr.len() == 0x2000
    &&& b.nt.len() == 0x800
    &&& b.pal.len() == 32
}

/// Palette offsets mirror every 32 bytes, and the four background-mirror
/// slots 0x10/0x14/0x18/0x1c alias the slots 16 bytes below them.
pub open spec fn spec_mirror_palette(addr: u16) -> int {
    let a = (addr - 0x3f00) % 32;
    if a == 0x10 || a == 0x14 || a == 0x18 || a == 0x1c {
        a - 0x10
    } else {
        a
    }
}

/// Where a nametable address lands in the 2KB of physical RAM.
///
/// The four 1KB logical tables at 0x2000/0x2400/0x2800/0x2c00 (their images
/// at 0x3000-0x3eff included) fold onto two physical tables: under vertical
/// mirroring the left column is real and the bottom row repeats the top;
/// under horizontal mirroring the top row is real and the right column
/// repeats the left. Meaningful only below 0x3f00 and outside four-screen
/// mode.
pub open spec fn spec_mirror_nametable(addr: u16, mirroring: Mirroring) -> int {
    let base = if addr < 0x3000 {
        addr - 0x2000
    } else {
        addr - 0x3000
    };
    let table = base / 0x400;
    let idx = base % 0x400;
    if table == 0 {
        base
    } else if mirroring is Vertical {
        if table == 2 {
            idx
        } else {
            0x400 + idx
        }
    } else {
        if table == 1 {
            idx
        } else {
            0x400 + idx
        }
    }
}

/// The byte a PPU-space read returns: pattern data below 0x2000, mirrored
/// nametable RAM up to 0x3eff, the mirrored palette table up to 0x3fff.
/// Nametable access under four-screen mirroring is unimplemented, and
/// nothing answers above 0x3fff.
pub open spec fn spec_ppubus_read(b: PpuBusV, addr: u16) -> Result<u8, EmuError> {
    if addr < 0x2000 {
        Ok(b.chr[addr as int])
    } else if addr < 0x3f00 {
        if b.mirroring is FourScreen {
            Err(EmuError::UnsupportedMirroring)
        } else {
            Ok(b.nt[spec_mirror_nametable(addr, b.mirroring)])
        }
    } else if addr < 0x4000 {
        Ok(b.pal[spec_mirror_palette(addr)])
    } else {
        Err(EmuError::UnmappedRead { addr })
    }
}

/// The PPU address space after a write, under the same mapping as reads; on
/// a fault nothing changes.
pub open spec fn spec_ppubus_write(b: PpuBusV, addr: u16, value: u8) -> (PpuBusV, Result<
    (),
    EmuError,
>) {
    if addr < 0x2000 {
        (PpuBusV { chr: b.chr.update(addr as int, value), ..b }, Ok(()))
    } else if addr < 0x3f00 {
        if b.mirroring is FourScreen {
            (b, Err(EmuError::UnsupportedMirroring))
        } else {
            (
                PpuBusV { nt: b.nt.update(spec_mirror_nametable(addr, b.mirroring), value), ..b },
                Ok(()),
            )
        }
    } else if addr < 0x4000 {
        (PpuBusV { pal: b.pal.update(spec_mirror_palette(addr), value), ..b }, Ok(()))
    } else {
        (b, Err(EmuError::UnmappedWrite { addr }))
    }
}

/// Palette mirroring law: a read at any of the four background-mirror slots
/// returns the same byte as the slot it aliases.
pub proof fn lemma_palette_mirroring(b: PpuBusV)
    requires
        spec_ppubus_wf(b),
    ensures
        spec_ppubus_read(b, 0x3f10) == spec_ppubus_read(b, 0x3f00),
        spec_ppubus_read(b, 0x3f14) == spec_ppubus_read(b, 0x3f04),
        spec_ppubus_read(b, 0x3f18) == spec_ppubus_read(b, 0x3f08),
        spec_ppubus_read(b, 0x3f1c) == spec_ppubus_read(b, 0x3f0c),
{
}

/// The PPU's own address space: graphics pattern data from the cartridge,
/// nametable RAM, and the palette table, accessed only by the PPU itself.
pub struct PPUBus {
    pub chr_rom: Vec<u8>,
    pub name_tables: Vec<u8>,
    pub palette_table: Vec<u8>,
    pub mirroring: Mirroring,
}

impl View for PPUBus {
    type V = PpuBusV;

    open spec fn view(&self) -> PpuBusV {
        PpuBusV {
            chr: self.chr_rom@,
            nt: self.name_tables@,
            pal: self.palette_table@,
            mirroring: self.mirroring,
        }
    }
}

impl PPUBus {
    pub fn new() -> (r: PPUBus)
        ensures
            spec_ppubus_wf(r@),
            r@.mirroring == Mirroring::Horizontal,
            forall|i: int| 0 <= i < r@.chr.len() ==> r@.chr[i] == 0u8,
            forall|i: int| 0 <= i < r@.nt.len() ==> r@.nt[i] == 0u8,
            forall|i: int| 0 <= i < r@.pal.len() ==> r@.pal[i] == 0u8,
    {
        PPUBus {
            chr_rom: vec![0u8; 0x2000],
            name_tables: vec![0u8; 0x800],
            palette_table: vec![0u8; 32],
            mirroring: Mirroring::Horizontal,
        }
    }

    pub fn load_chr_rom(&mut self, chr_rom: Vec<u8>, mirroring: Mirroring)
        requires
            spec_ppubus_wf(old(self)@),
            chr_rom@.len() == 0x2000,
        ensures
            final(self)@ == (PpuBusV { chr: chr_rom@, mirroring, ..old(self)@ }),
            spec_ppubus_wf(final(self)@),
    {
        self.chr_rom = chr_rom;
        self.mirroring = mirroring
    }

    pub fn mirror_palette_addr(addr: u16) -> (r: u16)
        requires
            0x3f00 <= addr < 0x4000,
        ensures
            r == spec_mirror_palette(addr),
            r < 32,
    {
        let a = (addr - 0x3f00) % 32;
        match a {
            0x10 | 0x14 | 0x18 | 0x1c => a - 0x10,
            _ => a,
        }
    }

    pub fn mirror_nametable_addr(addr: u16, mirroring: &Mirroring) -> (r: u16)
        requires
            0x2000 <= addr < 0x3f00,
            !(mirroring is FourScreen),
        ensures
            r == spec_mirror_nametable(addr, *mirroring),
            r < 0x800,
    {
        let base = if addr < 0x3000 {
            addr - 0x2000
        } else {
            addr - 0x3000
        };
        let table = base / 0x400;
        let idx = base % 0x400;
        match (table, *mirroring) {
            (0, _) => base,
            (1, Mirroring::Vertical) | (3, Mirroring::Vertical) => 0x400 + idx,
            (2, Mirroring::Vertical) => idx,
            (1, Mirroring::Horizontal) => idx,
            (2, Mirroring::Horizontal) | (3, Mirroring::Horizontal) => 0x400 + idx,
            _ => vstd::pervasive::unreached(),
        }
    }

    pub fn read_memory(&self, addr: u16) -> (r: Result<u8, EmuError>)
        requires
            spec_ppubus_wf(self@),
        ensures
            r == spec_ppubus_read(self@, addr),
    {
        if addr < 0x2000 {
            Ok(self.chr_rom[addr as usize])
        } else if addr < 0x3f00 {
            if matches!(self.mirroring, Mirroring::FourScreen) {
                Err(EmuError::UnsupportedMirroring)
            } else {
                let mirrored = PPUBus::mirror_nametable_addr(addr, &self.mirroring);
                Ok(self.name_tables[mirrored as usize])
            }
        } else if addr < 0x4000 {
            let mirrored = PPUBus::mirror_palette_addr(addr);
            Ok(self.palette_table[mirrored as usize])
        } else {
            Err(EmuError::UnmappedRead { addr })
        }
    }

    pub fn write_memory(&mut self, addr: u16, value: u8) -> (r: Result<(), EmuError>)
        requires
            spec_ppubus_wf(old(self)@),
        ensures
            final(self)@ == spec_ppubus_write(old(self)@, addr, value).0,
            r == spec_ppubus_write(old(self)@, addr, value).1,
            spec_ppubus_wf(final(self)@),
    {
        if addr < 0x2000 {
            self.chr_rom[addr as usize] = value;
            Ok(())
        } else if addr < 0x3f00 {
            if matches!(self.mirroring, Mirroring::FourScreen) {
                Err(EmuError::UnsupportedMirroring)
            } else {
                let mirrored = PPUBus::mirror_nametable_addr(addr, &self.mirroring);
                self.name_tables[mirrored as usize] = value;
                Ok(())
            }
        } else if addr < 0x4000 {
            let mirrored = PPUBus::mirror_palette_addr(addr);
            self.palette_table[mirrored as usize] = value;
            Ok(())
        } else {
            Err(EmuError::UnmappedWrite { addr })
        }
    }
}

} // verus!
