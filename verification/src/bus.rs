use vstd::prelude::*;

use crate::errors::EmuError;
use crate::ppu::PPU;
use crate::ppu::PpuV;
use crate::ppu::spec_ppu_wf;
use crate::ppu::spec_read_ppudata;
use crate::ppu::spec_read_ppustatus;
use crate::ppu::spec_write_dma;
use crate::ppu::spec_write_oamdata;
use crate::ppu::spec_write_ppu_ctrl;
use crate::ppu::spec_write_ppudata;
use crate::utils::lemma_mask_bounds;

verus! {

pub const CPU_INTERNAL_RAM: usize = 2048;

/// Ghost view of the CPU-visible address space: internal work RAM, the
/// program-ROM window, and the PPU behind the register window.
#[verifier::ext_equal]
pub ghost struct BusV {
    pub ram: Seq<u8>,
    pub rom: Seq<u8>,
    pub ppu: PpuV,
}

/// The bus invariant: 2KB of internal RAM, a program image of exactly 16KB
/// or 32KB, and a well-formed PPU.
pub open spec fn spec_bus_wf(b: BusV) -> bool {
    &&& b.ram.len() == 2048
    &&& (b.rom.len() == 0x4000 || b.rom.len() == 0x8000)
    &&& spec_ppu_wf(b.ppu)
}

/// Masking to 11 bits is reduction modulo 0x800, and to 4 bits modulo 0x10:
/// the bridges between the mirroring masks and their congruence statements.
pub proof fn lemma_mask_is_mod()
    by (bit_vector)
    ensures
        forall|x: u16| #[trigger] (x & 0x7ff) == x % 0x800,
        forall|x: u16| #[trigger] (x & 0xf) == x % 0x10,
{
}

/// A program-ROM read: a 16KB image is mirrored into both halves of the
/// 32KB window; a 32KB image is addressed directly.
pub open spec fn spec_rom_byte(rom: Seq<u8>, addr: u16) -> u8 {
    let off = addr - 0x8000;
    if rom.len() == 0x4000 {
        rom[off % 0x4000]
    } else {
        rom[off as int]
    }
}

/// Which of the eight PPU registers an address in the register window
/// targets: the window mirrors every 8 bytes.
pub open spec fn spec_reg_index(addr: u16) -> u16 {
    (addr & 0xf) % 8
}

/// A read of PPU register `reg`: PPUSTATUS, OAMDATA and PPUDATA are
/// readable, with their side effects; every other register faults, reported
/// at its canonical address.
pub open spec fn spec_io_read(p: PpuV, reg: u16) -> (PpuV, Result<u8, EmuError>) {
    if reg == 2 {
        let (p2, v) = spec_read_ppustatus(p);
        (p2, Ok(v))
    } else if reg == 4 {
        (p, Ok(p.oamdata))
    } else if reg == 7 {
        spec_read_ppudata(p)
    } else {
        (p, Err(EmuError::UnreadableRegister { addr: (0x2000 + reg) as u16 }))
    }
}

/// A write of PPU register `reg`: every register but PPUSTATUS is writable;
/// a PPUSTATUS write faults, reported at its canonical address.
pub open spec fn spec_io_write(p: PpuV, reg: u16, data: u8) -> (PpuV, Result<(), EmuError>) {
    if reg == 0 {
        (spec_write_ppu_ctrl(p, data), Ok(()))
    } else if reg == 1 {
        (PpuV { mask: data, ..p }, Ok(()))
    } else if reg == 3 {
        (PpuV { oamaddr: data, ..p }, Ok(()))
    } else if reg == 4 {
        (spec_write_oamdata(p, data), Ok(()))
    } else if reg == 5 {
        (
            PpuV {
                scroll: if p.w {
                    (p.scroll.0, data)
                } else {
                    (data, p.scroll.1)
                },
                w: !p.w,
                ..p
            },
            Ok(()),
        )
    } else if reg == 6 {
        (
            PpuV {
                addr: if p.w {
                    (p.addr.0, data)
                } else {
                    (data, p.addr.1)
                },
                w: !p.w,
                ..p
            },
            Ok(()),
        )
    } else if reg == 7 {
        spec_write_ppudata(p, data)
    } else {
        (p, Err(EmuError::UnwritableRegister { addr: (0x2000 + reg) as u16 }))
    }
}

/// The 256 bytes OAM DMA reads from page `page`: only internal RAM (with
/// its mirroring) and the ROM window are honored; any other page faults at
/// its first address.
pub open spec fn spec_dma_source(b: BusV, page: u8) -> Result<Seq<u8>, EmuError> {
    if page < 0x20 {
        Ok(Seq::new(256, |k: int| b.ram[(((page as int * 256 + k) as u16) & 0x7ff) as int]))
    } else if page >= 0x80 {
        Ok(Seq::new(256, |k: int| spec_rom_byte(b.rom, (page as int * 256 + k) as u16)))
    } else {
        Err(EmuError::UnmappedRead { addr: (page as int * 256) as u16 })
    }
}

/// OAM DMA: one synchronous 256-byte burst from CPU space into the PPU's
/// OAM; a bad source page faults and nothing moves.
pub open spec fn spec_oamdma(b: BusV, page: u8) -> (BusV, Result<(), EmuError>) {
    match spec_dma_source(b, page) {
        Ok(bytes) => (BusV { ppu: spec_write_dma(b.ppu, bytes), ..b }, Ok(())),
        Err(e) => (b, Err(e)),
    }
}

/// A CPU-space read: ROM from 0x8000 up, internal RAM below 0x2000 mirrored
/// every 0x800 bytes, the PPU registers from 0x2000 to 0x3fff mirrored
/// every 8 bytes, and a fault anywhere else.
pub open spec fn spec_bus_read(b: BusV, addr: u16) -> (BusV, Result<u8, EmuError>) {
    if addr >= 0x8000 {
        (b, Ok(spec_rom_byte(b.rom, addr)))
    } else if addr < 0x2000 {
        (b, Ok(b.ram[(addr & 0x7ff) as int]))
    } else if addr < 0x4000 {
        let (p2, r) = spec_io_read(b.ppu, spec_reg_index(addr));
        (BusV { ppu: p2, ..b }, r)
    } else {
        (b, Err(EmuError::UnmappedRead { addr }))
    }
}

/// A CPU-space write: RAM and the PPU registers as for reads, the OAM DMA
/// trigger at 0x4014, a fault on the rest of the I/O range, and a fault on
/// the immutable ROM window.
pub open spec fn spec_bus_write(b: BusV, addr: u16, byte: u8) -> (BusV, Result<(), EmuError>) {
    if addr < 0x2000 {
        (BusV { ram: b.ram.update((addr & 0x7ff) as int, byte), ..b }, Ok(()))
    } else if addr < 0x4000 {
        let (p2, r) = spec_io_write(b.ppu, spec_reg_index(addr), byte);
        (BusV { ppu: p2, ..b }, r)
    } else if addr == 0x4014 {
        spec_oamdma(b, byte)
    } else if addr < 0x8000 {
        (b, Err(EmuError::UnmappedWrite { addr }))
    } else {
        (b, Err(EmuError::RomWrite { addr }))
    }
}

/// RAM mirroring law: a read anywhere in the RAM window is a read at the
/// address truncated to 11 bits, and a value written at `a1` is observable
/// at every window address congruent to it modulo 0x800. Reads there leave
/// the machine unchanged.
pub proof fn lemma_ram_mirroring(b: BusV, a1: u16, a2: u16, v: u8)
    requires
        spec_bus_wf(b),
        a1 < 0x2000,
        a2 < 0x2000,
        a1 % 0x800 == a2 % 0x800,
    ensures
        spec_bus_read(b, a1).1 == spec_bus_read(b, (a1 & 0x7ff) as u16).1,
        spec_bus_read(b, a1).0 == b,
        spec_bus_read(spec_bus_write(b, a1, v).0, a2).1 == Ok::<u8, EmuError>(v),
{
    lemma_mask_is_mod();
    lemma_mask_bounds();
}

/// Register mirroring law: every address in the register window targets
/// register (addr & 0x0F) % 8, so two addresses with the same index are
/// indistinguishable, for reads and for writes alike.
pub proof fn lemma_register_mirroring(b: BusV, a1: u16, a2: u16, v: u8)
    requires
        spec_bus_wf(b),
        0x2000 <= a1 < 0x4000,
        0x2000 <= a2 < 0x4000,
        spec_reg_index(a1) == spec_reg_index(a2),
    ensures
        spec_bus_read(b, a1) == spec_bus_read(b, a2),
        spec_bus_write(b, a1, v) == spec_bus_write(b, a2, v),
{
}

/// The CPU-visible address space: internal work RAM, the program image, and
/// the PPU, which the bus exclusively owns. The sole point where address
/// mirroring is applied.
pub struct Bus {
    pub ram: Vec<u8>,
    pub rom: Vec<u8>,
    pub ppu: PPU,
}

impl View for Bus {
    type V = BusV;

    open spec fn view(&self) -> BusV {
        BusV { ram: self.ram@, rom: self.rom@, ppu: self.ppu@ }
    }
}

impl Bus {
    pub fn new(ppu: PPU) -> (r: Bus)
        requires
            spec_ppu_wf(ppu@),
        ensures
            spec_bus_wf(r@),
            r@.ppu == ppu@,
            r@.rom.len() == 0x4000,
            forall|i: int| 0 <= i < r@.ram.len() ==> r@.ram[i] == 0u8,
            forall|i: int| 0 <= i < r@.rom.len() ==> r@.rom[i] == 0u8,
    {
        Bus { ram: vec![0u8; CPU_INTERNAL_RAM], rom: vec![0u8; 0x4000], ppu }
    }

    /// Loads a program image into the ROM window: exactly one 16KB bank,
    /// which is then mirrored into both halves of the window, or two banks.
    pub fn load_rom(&mut self, bytes: Vec<u8>)
        requires
            spec_bus_wf(old(self)@),
            bytes@.len() == 0x4000 || bytes@.len() == 0x8000,
        ensures
            final(self)@ == (BusV { rom: bytes@, ..old(self)@ }),
            spec_bus_wf(final(self)@),
    {
        self.rom = bytes
    }

    fn read_rom(&self, addr: u16) -> (r: u8)
        requires
            spec_bus_wf(self@),
            addr >= 0x8000,
        ensures
            r == spec_rom_byte(self@.rom, addr),
    {
        let off = (addr - 0x8000) as usize;
        if self.rom.len() == 0x4000 {
            self.rom[off % 0x4000]
        } else {
            self.rom[off]
        }
    }

    fn read_io_registers(&mut self, reg: u8) -> (r: Result<u8, EmuError>)
        requires
            spec_bus_wf(old(self)@),
            reg < 8,
        ensures
            final(self)@ == (BusV { ppu: spec_io_read(old(self)@.ppu, reg as u16).0, ..old(self)@ }),
            r == spec_io_read(old(self)@.ppu, reg as u16).1,
            spec_bus_wf(final(self)@),
    {
        match reg {
            0x2 => Ok(self.ppu.read_ppustatus()),
            0x4 => Ok(self.ppu.read_oamdata()),
            0x7 => self.ppu.read_ppudata(),
            _ => Err(EmuError::UnreadableRegister { addr: 0x2000 + reg as u16 }),
        }
    }

    fn write_io_registers(&mut self, reg: u8, data: u8) -> (r: Result<(), EmuError>)
        requires
            spec_bus_wf(old(self)@),
            reg < 8,
        ensures
            final(self)@ == (BusV {
                ppu: spec_io_write(old(self)@.ppu, reg as u16, data).0,
                ..old(self)@
            }),
            r == spec_io_write(old(self)@.ppu, reg as u16, data).1,
            spec_bus_wf(final(self)@),
    {
        match reg {
            0x0 => {
                self.ppu.write_ppu_ctrl(data);
                Ok(())
            },
            0x1 => {
                self.ppu.write_ppumask(data);
                Ok(())
            },
            0x3 => {
                self.ppu.write_oamaddr(data);
                Ok(())
            },
            0x4 => {
                self.ppu.write_oamdata(data);
                Ok(())
            },
            0x5 => {
                self.ppu.write_ppuscroll(data);
                Ok(())
            },
            0x6 => {
                self.ppu.write_ppuaddr(data);
                Ok(())
            },
            0x7 => self.ppu.write_ppudata(data),
            _ => Err(EmuError::UnwritableRegister { addr: 0x2000 + reg as u16 }),
        }
    }

    /// Copies 256 bytes from CPU page `page` into the PPU's OAM in one
    /// synchronous burst; only internal RAM and the ROM window are honored
    /// as sources.
    fn oamdma(&mut self, page: u8) -> (r: Result<(), EmuError>)
        requires
            spec_bus_wf(old(self)@),
        ensures
            final(self)@ == spec_oamdma(old(self)@, page).0,
            r == spec_oamdma(old(self)@, page).1,
            spec_bus_wf(final(self)@),
    {
        let base: u16 = (page as u16) * 256;
        let mut bytes: Vec<u8> = Vec::new();
        if page < 0x20 {
            let ghost target = spec_dma_source(self@, page)->Ok_0;
            let mut i: u16 = 0;
            while i < 256
                invariant
                    spec_bus_wf(self@),
                    self@ == old(self)@,
                    page < 0x20,
                    base == page as int * 256,
                    i <= 256,
                    target == spec_dma_source(self@, page)->Ok_0,
                    bytes@ =~= target.take(i as int),
                decreases 256 - i,
            {
                proof {
                    lemma_mask_bounds();
                }
                bytes.push(self.ram[((base + i) & 0x7ff) as usize]);
                i = i + 1;
            }
            proof {
                assert(bytes@ =~= target);
            }
            self.ppu.write_dma(&bytes);
            Ok(())
        } else if page >= 0x80 {
            let ghost target = spec_dma_source(self@, page)->Ok_0;
            let mut i: u16 = 0;
            while i < 256
                invariant
                    spec_bus_wf(self@),
                    self@ == old(self)@,
                    page >= 0x80,
                    base == page as int * 256,
                    i <= 256,
                    target == spec_dma_source(self@, page)->Ok_0,
                    bytes@ =~= target.take(i as int),
                decreases 256 - i,
            {
                let b = self.read_rom(base + i);
                bytes.push(b);
                i = i + 1;
            }
            proof {
                assert(bytes@ =~= target);
            }
            self.ppu.write_dma(&bytes);
            Ok(())
        } else {
            Err(EmuError::UnmappedRead { addr: base })
        }
    }

    /// Routes a CPU read: ROM from 0x8000 up, mirrored internal RAM below
    /// 0x2000, the mirrored PPU register window below 0x4000, and a fault
    /// anywhere else.
    pub fn read_memory(&mut self, addr: u16) -> (r: Result<u8, EmuError>)
        requires
            spec_bus_wf(old(self)@),
        ensures
            final(self)@ == spec_bus_read(old(self)@, addr).0,
            r == spec_bus_read(old(self)@, addr).1,
            spec_bus_wf(final(self)@),
    {
        if addr >= 0x8000 {
            Ok(self.read_rom(addr))
        } else if addr < 0x2000 {
            proof {
                lemma_mask_bounds();
            }
            let mirrored = (addr & 0x7ff) as usize;
            Ok(self.ram[mirrored])
        } else if addr < 0x4000 {
            proof {
                lemma_mask_bounds();
            }
            let mirrored = ((addr & 0xf) % 8) as u8;
            self.read_io_registers(mirrored)
        } else {
            Err(EmuError::UnmappedRead { addr })
        }
    }

    /// Routes a CPU write: mirrored internal RAM, the mirrored PPU register
    /// window, the OAM DMA trigger at 0x4014; all other I/O addresses fault,
    /// and the ROM window is immutable.
    pub fn write_memory(&mut self, addr: u16, byte: u8) -> (r: Result<(), EmuError>)
        requires
            spec_bus_wf(old(self)@),
        ensures
            final(self)@ == spec_bus_write(old(self)@, addr, byte).0,
            r == spec_bus_write(old(self)@, addr, byte).1,
            spec_bus_wf(final(self)@),
    {
        if addr < 0x2000 {
            proof {
                lemma_mask_bounds();
            }
            let mirrored = (addr & 0x7ff) as usize;
            self.ram[mirrored] = byte;
            Ok(())
        } else if addr < 0x4000 {
            proof {
                lemma_mask_bounds();
            }
            let mirrored = ((addr & 0xf) % 8) as u8;
            self.write_io_registers(mirrored, byte)
        } else if addr == 0x4014 {
            self.oamdma(byte)
        } else if addr < 0x8000 {
            Err(EmuError::UnmappedWrite { addr })
        } else {
            Err(EmuError::RomWrite { addr })
        }
    }
}

} // verus!
