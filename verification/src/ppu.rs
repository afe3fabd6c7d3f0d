use vstd::prelude::*;

use crate::cartridge::Mirroring;
use crate::errors::EmuError;
use crate::frame::Frame;
use crate::frame::spec_frame_wf;
use crate::frame::spec_set_pixel;
use crate::palette::spec_system_palette;
use crate::palette::system_palette;
use crate::ppubus::BACKGROUND_COLOR;
use crate::ppubus::PPUBus;
use crate::ppubus::PpuBusV;
use crate::ppubus::spec_ppubus_read;
use crate::ppubus::spec_ppubus_wf;
use crate::ppubus::spec_ppubus_write;
use crate::registers::CTRL_BACKGROUND_PATTERN_TABLE;
use crate::registers::CTRL_GENERATE_NMI;
use crate::registers::CTRL_VRAM_ADDR_INCR;
use crate::registers::OAMADDR;
use crate::registers::OAMDATA;
use crate::registers::PPUADDR;
use crate::registers::PPUCTRL;
use crate::registers::PPUDATA;
use crate::registers::PPUMASK;
use crate::registers::PPUSCROLL;
use crate::registers::PPUSTATUS;
use crate::registers::STATUS_VBLANK_START;
use crate::registers::spec_apply_mask;
use crate::registers::spec_contains;
use crate::registers::spec_ppuaddr_get;

verus! {

/// The render cursor: coarse coordinates track the current tile (32 x 30
/// grid), fine coordinates the current pixel, and `w` is the shared toggle
/// latch that disambiguates the two-write registers.
pub struct InternalRegisters {
    pub coarse_col: u16,
    pub coarse_row: u16,
    pub fine_col: u8,
    pub fine_row: u8,
    pub w: bool,
}

/// Ghost view of the whole PPU: its address space, the frame buffer, sprite
/// memory, every memory-mapped register, the interrupt pin, and the
/// cycle/scanline counters that drive the rendering state machine.
#[verifier::ext_equal]
pub ghost struct PpuV {
    pub bus: PpuBusV,
    pub frame: Seq<u8>,
    pub oam: Seq<u8>,
    pub ctrl: u8,
    pub mask: u8,
    pub status: u8,
    pub oamaddr: u8,
    pub oamdata: u8,
    pub scroll: (u8, u8),
    pub addr: (u8, u8),
    pub data_buf: u8,
    pub nmi: bool,
    pub cycles: u16,
    pub scanline: u16,
    pub coarse_col: u16,
    pub coarse_row: u16,
    pub fine_col: u8,
    pub fine_row: u8,
    pub w: bool,
}

/// The PPU invariant: the stores have their fixed sizes, the counters stay
/// inside one frame (cycles 0-340, scanlines 0-261), and the render cursor
/// stays inside the 32 x 30 tile grid with the fine column tracking the
/// coarse one.
pub open spec fn spec_ppu_wf(p: PpuV) -> bool {
    &&& spec_ppubus_wf(p.bus)
    &&& p.oam.len() == 256
    &&& spec_frame_wf(p.frame)
    &&& p.cycles <= 340
    &&& p.scanline <= 261
    &&& p.coarse_col < 32
    &&& p.coarse_row < 30
    &&& p.fine_row < 240
    &&& p.fine_col == 8 * p.coarse_col
}

/// Writing PPUCTRL replaces its bits; if the generate-NMI bit goes from 0 to
/// 1 while vblank-started is already set, the NMI request is raised at once.
pub open spec fn spec_write_ppu_ctrl(p: PpuV, data: u8) -> PpuV {
    let nmi = if !spec_contains(p.ctrl, CTRL_GENERATE_NMI) && spec_contains(
        data,
        CTRL_GENERATE_NMI,
    ) && spec_contains(p.status, STATUS_VBLANK_START) {
        true
    } else {
        p.nmi
    };
    PpuV { ctrl: data, nmi, ..p }
}

/// Reading PPUSTATUS clears the vblank-started bit, resets the shared write
/// latch, and returns the register as cleared.
pub open spec fn spec_read_ppustatus(p: PpuV) -> (PpuV, u8) {
    let st = spec_apply_mask(p.status, STATUS_VBLANK_START, false);
    (PpuV { status: st, w: false, ..p }, st)
}

/// Writing OAMDATA stores through the OAM cursor, keeps the written byte on
/// the port, and advances the cursor by one, wrapping.
pub open spec fn spec_write_oamdata(p: PpuV, data: u8) -> PpuV {
    PpuV {
        oam: p.oam.update(p.oamaddr as int, data),
        oamdata: data,
        oamaddr: p.oamaddr.wrapping_add(1),
        ..p
    }
}

/// The address register advances by 32 or 1 after each data-port access,
/// per PPUCTRL's increment-step bit.
pub open spec fn spec_increment_ppu_addr(p: PpuV) -> PpuV {
    let next = spec_ppuaddr_get(p.addr.0, p.addr.1) + (if spec_contains(
        p.ctrl,
        CTRL_VRAM_ADDR_INCR,
    ) {
        32int
    } else {
        1int
    });
    PpuV { addr: ((((next as u16) >> 8) & 0xff) as u8, ((next as u16) & 0xff) as u8), ..p }
}

/// Reading PPUDATA returns the previous buffered byte, primes the buffer
/// from the current address, and advances the address; a faulted read
/// leaves everything unchanged.
pub open spec fn spec_read_ppudata(p: PpuV) -> (PpuV, Result<u8, EmuError>) {
    match spec_ppubus_read(p.bus, spec_ppuaddr_get(p.addr.0, p.addr.1)) {
        Ok(v) => (spec_increment_ppu_addr(PpuV { data_buf: v, ..p }), Ok(p.data_buf)),
        Err(e) => (p, Err(e)),
    }
}

/// Writing PPUDATA stores at the current address and advances it; a faulted
/// write leaves everything unchanged.
pub open spec fn spec_write_ppudata(p: PpuV, data: u8) -> (PpuV, Result<(), EmuError>) {
    let (b2, r) = spec_ppubus_write(p.bus, spec_ppuaddr_get(p.addr.0, p.addr.1), data);
    match r {
        Ok(_) => (spec_increment_ppu_addr(PpuV { bus: b2, ..p }), Ok(())),
        Err(e) => (p, Err(e)),
    }
}

/// OAM after a DMA burst: byte `j` of `bytes` lands at cursor + j, wrapping
/// at the end of OAM just as the cursor itself wraps; slots the burst does
/// not reach keep their old contents.
pub open spec fn spec_dma_oam(oam: Seq<u8>, start: u8, bytes: Seq<u8>) -> Seq<u8> {
    Seq::new(
        oam.len(),
        |i: int|
            {
                let j = (i + 256 - start) % 256;
                if j < bytes.len() {
                    bytes[j]
                } else {
                    oam[i]
                }
            },
    )
}

pub open spec fn spec_write_dma(p: PpuV, bytes: Seq<u8>) -> PpuV {
    PpuV { oam: spec_dma_oam(p.oam, p.oamaddr, bytes), ..p }
}

/// The byte a PPU-space read returns where the read cannot fault.
pub open spec fn spec_read_or0(b: PpuBusV, addr: u16) -> u8 {
    match spec_ppubus_read(b, addr) {
        Ok(v) => v,
        Err(_) => 0,
    }
}

/// One background pixel: the two pattern planes give a 2-bit color index,
/// the index selects a palette entry (index 0 aliases the universal
/// background color), and the entry, masked to six bits, selects the RGB
/// color from the fixed hardware table.
pub open spec fn spec_pixel_rgb(lo: u8, hi: u8, pal: (u8, u8, u8, u8), n: u8) -> (u8, u8, u8) {
    let cidx = (((hi >> n) & 1) << 1) | ((lo >> n) & 1);
    let color = if cidx == 0 {
        pal.0
    } else if cidx == 1 {
        pal.1
    } else if cidx == 2 {
        pal.2
    } else {
        pal.3
    };
    spec_system_palette(color & 0x3f)
}

/// The frame buffer after drawing the first `k` pixels of a tile row at
/// (x0, y); pixel `i` takes bit `7 - i` of each pattern plane.
pub open spec fn spec_draw_tile_pixels(
    f: Seq<u8>,
    x0: u8,
    y: u8,
    lo: u8,
    hi: u8,
    pal: (u8, u8, u8, u8),
    k: nat,
) -> Seq<u8>
    decreases k,
{
    if k == 0 {
        f
    } else {
        let f1 = spec_draw_tile_pixels(f, x0, y, lo, hi, pal, (k - 1) as nat);
        spec_set_pixel(f1, (x0 + k - 1) as u8, y, spec_pixel_rgb(lo, hi, pal, (8 - k) as u8))
    }
}

/// The render cursor after one tile: the coarse column advances and wraps at
/// 32; on a wrap the fine row advances (wrapping at the bottom of the
/// screen) and every eighth fine row bumps the coarse row, which wraps at
/// the 30-tile grid height.
pub open spec fn spec_advance_cursor(p: PpuV) -> PpuV {
    if p.coarse_col == 31 {
        PpuV {
            coarse_col: 0,
            fine_col: 0,
            coarse_row: if p.fine_row % 8 == 0 {
                if p.coarse_row == 29 {
                    0
                } else {
                    (p.coarse_row + 1) as u16
                }
            } else {
                p.coarse_row
            },
            fine_row: if p.fine_row == 239 {
                0
            } else {
                (p.fine_row + 1) as u8
            },
            ..p
        }
    } else {
        PpuV { coarse_col: (p.coarse_col + 1) as u16, fine_col: (p.fine_col + 8) as u8, ..p }
    }
}

/// One step of the background pipeline, for the tile under the render
/// cursor: fetch the nametable byte, the attribute byte (whose quadrant
/// bits pick the palette group), the palette entries and the two pattern
/// planes, draw the eight pixels, and advance the cursor. Nametable reads
/// fault under four-screen mirroring, leaving everything unchanged.
pub open spec fn spec_render_tile(p: PpuV) -> (PpuV, Result<(), EmuError>) {
    let sel = p.ctrl & 3;
    let base_nt: u16 = if sel == 0 {
        0x2000
    } else if sel == 1 {
        0x2400
    } else if sel == 2 {
        0x2800
    } else {
        0x2c00
    };
    let nt_addr = (base_nt + p.coarse_row * 32 + p.coarse_col) as u16;
    match spec_ppubus_read(p.bus, nt_addr) {
        Err(e) => (p, Err(e)),
        Ok(chr_idx) => {
            let attr_addr = (base_nt + 0x3c0 + (p.coarse_row / 4) * 8 + p.coarse_col / 4) as u16;
            match spec_ppubus_read(p.bus, attr_addr) {
                Err(e) => (p, Err(e)),
                Ok(attr) => {
                    let base_chr: u16 = if spec_contains(p.ctrl, CTRL_BACKGROUND_PATTERN_TABLE) {
                        0x1000
                    } else {
                        0
                    };
                    let qx = p.coarse_col % 4 / 2;
                    let qy = p.coarse_row % 4 / 2;
                    let palette_idx: u8 = if qx == 0 && qy == 0 {
                        attr & 0x03
                    } else if qx == 1 && qy == 0 {
                        (attr >> 2) & 0x03
                    } else if qx == 0 && qy == 1 {
                        (attr >> 4) & 0x03
                    } else {
                        (attr >> 6) & 0x03
                    };
                    let palette_choice: u16 = if palette_idx == 0 {
                        0x3f01
                    } else if palette_idx == 1 {
                        0x3f05
                    } else if palette_idx == 2 {
                        0x3f09
                    } else {
                        0x3f0d
                    };
                    let pal = (
                        spec_read_or0(p.bus, BACKGROUND_COLOR),
                        spec_read_or0(p.bus, palette_choice),
                        spec_read_or0(p.bus, (palette_choice + 1) as u16),
                        spec_read_or0(p.bus, (palette_choice + 2) as u16),
                    );
                    let lo_plane = spec_read_or0(p.bus, (base_chr + chr_idx) as u16);
                    let hi_plane = spec_read_or0(p.bus, (base_chr + chr_idx + 8) as u16);
                    let frame2 = spec_draw_tile_pixels(
                        p.frame,
                        p.fine_col,
                        p.fine_row,
                        lo_plane,
                        hi_plane,
                        pal,
                        8,
                    );
                    (spec_advance_cursor(PpuV { frame: frame2, ..p }), Ok(()))
                },
            }
        },
    }
}

/// One scanline transition: the counter wraps from 261 to 0; entering
/// scanline 241 sets vblank-started and, if PPUCTRL asks for it, raises the
/// NMI request; entering scanline 261 clears both.
pub open spec fn spec_scanline_advance(p: PpuV) -> PpuV {
    let s2: u16 = if p.scanline == 261 {
        0
    } else {
        (p.scanline + 1) as u16
    };
    if s2 == 241 {
        PpuV {
            scanline: s2,
            status: spec_apply_mask(p.status, STATUS_VBLANK_START, true),
            nmi: if spec_contains(p.ctrl, CTRL_GENERATE_NMI) {
                true
            } else {
                p.nmi
            },
            ..p
        }
    } else if s2 == 261 {
        PpuV {
            scanline: s2,
            status: spec_apply_mask(p.status, STATUS_VBLANK_START, false),
            nmi: false,
            ..p
        }
    } else {
        PpuV { scanline: s2, ..p }
    }
}

/// Advancing the clock: `total` cycles are left to spend in the current
/// scanline; each full scanline of 341 cycles triggers one scanline
/// transition, and entering a visible scanline (1-256) runs the background
/// pipeline for one tile. A pipeline fault stops the clock where it stands.
pub open spec fn spec_tick_from(p: PpuV, total: int) -> (PpuV, Result<(), EmuError>)
    decreases total,
{
    if total <= 340 {
        (PpuV { cycles: total as u16, ..p }, Ok(()))
    } else {
        let p1 = spec_scanline_advance(p);
        if 1 <= p1.scanline <= 256 {
            let (p2, r) = spec_render_tile(p1);
            if r is Err {
                (p2, r)
            } else {
                spec_tick_from(p2, total - 341)
            }
        } else {
            spec_tick_from(p1, total - 341)
        }
    }
}

/// Entering scanline 241 with NMI generation enabled raises both the
/// vblank-started status bit and the NMI request; entering scanline 261
/// clears both again.
pub proof fn lemma_vblank_edges(p: PpuV)
    ensures
        p.scanline == 240 && spec_contains(p.ctrl, CTRL_GENERATE_NMI) ==> spec_scanline_advance(
            p,
        ).nmi && spec_contains(spec_scanline_advance(p).status, STATUS_VBLANK_START),
        p.scanline == 260 ==> !spec_scanline_advance(p).nmi && !spec_contains(
            spec_scanline_advance(p).status,
            STATUS_VBLANK_START,
        ),
{
    let s = p.status;
    assert((s | 0x80u8) & 0x80u8 == 0x80u8) by (bit_vector);
    assert((s & !0x80u8) & 0x80u8 != 0x80u8) by (bit_vector);
}

/// The graphics co-processor: its own address space, the frame under
/// construction, sprite memory, the CPU-visible register file, the NMI
/// request pin, and the cycle/scanline counters.
pub struct PPU {
    pub bus: PPUBus,
    pub curr_frame: Frame,
    pub oam: Vec<u8>,
    // IO mapped registers
    pub ppuctrl: PPUCTRL,
    pub ppumask: PPUMASK,
    pub ppustatus: PPUSTATUS,
    pub oamaddr: OAMADDR,
    pub oamdata: OAMDATA,
    pub ppuscroll: PPUSCROLL,
    pub ppuaddr: PPUADDR,
    pub ppudata: PPUDATA,
    pub nmi_pin: bool,
    pub cycles: u16,
    pub scanline: u16,
    pub internal_reg: InternalRegisters,
}

impl View for PPU {
    type V = PpuV;

    open spec fn view(&self) -> PpuV {
        PpuV {
            bus: self.bus@,
            frame: self.curr_frame@,
            oam: self.oam@,
            ctrl: self.ppuctrl@,
            mask: self.ppumask@,
            status: self.ppustatus@,
            oamaddr: self.oamaddr.0,
            oamdata: self.oamdata.0,
            scroll: self.ppuscroll@,
            addr: self.ppuaddr@,
            data_buf: self.ppudata.0,
            nmi: self.nmi_pin,
            cycles: self.cycles,
            scanline: self.scanline,
            coarse_col: self.internal_reg.coarse_col,
            coarse_row: self.internal_reg.coarse_row,
            fine_col: self.internal_reg.fine_col,
            fine_row: self.internal_reg.fine_row,
            w: self.internal_reg.w,
        }
    }
}

impl PPU {
    pub fn new() -> (r: PPU)
        ensures
            spec_ppu_wf(r@),
            r@.ctrl == 0u8,
            r@.mask == 0u8,
            r@.status == 0u8,
            r@.oamaddr == 0u8,
            r@.oamdata == 0u8,
            r@.scroll == (0u8, 0u8),
            r@.addr == (0u8, 0u8),
            r@.data_buf == 0u8,
            r@.nmi == false,
            r@.cycles == 0u16,
            r@.scanline == 0u16,
            r@.coarse_col == 0u16,
            r@.coarse_row == 0u16,
            r@.fine_col == 0u8,
            r@.fine_row == 0u8,
            r@.w == false,
            r@.bus.mirroring == Mirroring::Horizontal,
            forall|i: int| 0 <= i < 256 ==> r@.oam[i] == 0u8,
            forall|i: int| 0 <= i < r@.bus.nt.len() ==> r@.bus.nt[i] == 0u8,
            forall|i: int| 0 <= i < r@.bus.pal.len() ==> r@.bus.pal[i] == 0u8,
            forall|i: int| 0 <= i < r@.bus.chr.len() ==> r@.bus.chr[i] == 0u8,
    {
        PPU {
            bus: PPUBus::new(),
            curr_frame: Frame::new(),
            oam: vec![0u8; 256],
            ppuctrl: PPUCTRL::new(),
            ppumask: PPUMASK::new(),
            ppustatus: PPUSTATUS::new(),
            oamaddr: OAMADDR(0),
            oamdata: OAMDATA(0),
            ppuscroll: PPUSCROLL::new(),
            ppuaddr: PPUADDR::new(),
            ppudata: PPUDATA(0),
            nmi_pin: false,
            cycles: 0,
            scanline: 0,
            internal_reg: InternalRegisters {
                coarse_col: 0,
                coarse_row: 0,
                fine_col: 0,
                fine_row: 0,
                w: false,
            },
        }
    }

    /// Hands the cartridge's graphics bank and mirroring mode to the PPU's
    /// own bus.
    pub fn load_chr_rom(&mut self, chr_rom: Vec<u8>, mirroring: Mirroring)
        requires
            spec_ppu_wf(old(self)@),
            chr_rom@.len() == 0x2000,
        ensures
            final(self)@ == (PpuV {
                bus: PpuBusV { chr: chr_rom@, mirroring, ..old(self)@.bus },
                ..old(self)@
            }),
            spec_ppu_wf(final(self)@),
    {
        self.bus.load_chr_rom(chr_rom, mirroring)
    }

    pub fn poll_generate_nmi(&self) -> (r: bool)
        ensures
            r == self@.nmi,
    {
        self.nmi_pin
    }

    pub fn clear_generate_nmi(&mut self)
        ensures
            final(self)@ == (PpuV { nmi: false, ..old(self)@ }),
    {
        self.nmi_pin = false
    }

    /// Reads a PPU-space byte that the invariant shows cannot fault.
    fn read_infallible(bus: &PPUBus, addr: u16) -> (r: u8)
        requires
            spec_ppubus_wf(bus@),
            spec_ppubus_read(bus@, addr) is Ok,
        ensures
            r == spec_read_or0(bus@, addr),
    {
        match bus.read_memory(addr) {
            Ok(v) => v,
            Err(_) => vstd::pervasive::unreached(),
        }
    }

    /// The two bit planes of one pattern-table row: the low plane at `addr`,
    /// the high plane eight bytes above it.
    pub fn fetch_chr_row(&self, addr: u16) -> (r: (u8, u8))
        requires
            spec_ppu_wf(self@),
            addr <= 0x1ff7,
        ensures
            r.0 == spec_read_or0(self@.bus, addr),
            r.1 == spec_read_or0(self@.bus, (addr + 8) as u16),
    {
        (Self::read_infallible(&self.bus, addr), Self::read_infallible(&self.bus, addr + 8))
    }

    /// One pixel of the current tile row, resolved through the palette and
    /// the fixed hardware color table.
    fn pixel_rgb(lo: u8, hi: u8, pal: (u8, u8, u8, u8), n: u8) -> (r: (u8, u8, u8))
        requires
            n < 8,
        ensures
            r == spec_pixel_rgb(lo, hi, pal, n),
    {
        let cidx = (((hi >> n) & 1) << 1) | ((lo >> n) & 1);
        let color = if cidx == 0 {
            pal.0
        } else if cidx == 1 {
            pal.1
        } else if cidx == 2 {
            pal.2
        } else {
            pal.3
        };
        system_palette(color & 0x3f)
    }

    /// Draws the eight pixels of one tile row into the frame buffer.
    fn draw_tile_row(&mut self, x0: u8, y: u8, lo: u8, hi: u8, pal: (u8, u8, u8, u8))
        requires
            spec_frame_wf(old(self)@.frame),
            x0 <= 248,
            y < 240,
        ensures
            final(self)@ == (PpuV {
                frame: spec_draw_tile_pixels(old(self)@.frame, x0, y, lo, hi, pal, 8),
                ..old(self)@
            }),
            spec_frame_wf(final(self)@.frame),
    {
        let mut i: u8 = 0;
        while i < 8
            invariant
                i <= 8,
                x0 <= 248,
                y < 240,
                spec_frame_wf(self@.frame),
                self@ == (PpuV {
                    frame: spec_draw_tile_pixels(old(self)@.frame, x0, y, lo, hi, pal, i as nat),
                    ..old(self)@
                }),
            decreases 8 - i,
        {
            let rgb = Self::pixel_rgb(lo, hi, pal, 7 - i);
            self.curr_frame.set_pixel(x0 + i, y, rgb);
            i = i + 1;
        }
    }

    /// Moves the render cursor past the tile just drawn.
    fn advance_cursor(&mut self)
        requires
            old(self)@.coarse_col < 32,
            old(self)@.coarse_row < 30,
            old(self)@.fine_row < 240,
            old(self)@.fine_col == 8 * old(self)@.coarse_col,
        ensures
            final(self)@ == spec_advance_cursor(old(self)@),
            final(self)@.coarse_col < 32,
            final(self)@.coarse_row < 30,
            final(self)@.fine_row < 240,
            final(self)@.fine_col == 8 * final(self)@.coarse_col,
    {
        if self.internal_reg.coarse_col == 31 {
            self.internal_reg.fine_col = 0;
            self.internal_reg.coarse_col = 0;
            if self.internal_reg.fine_row % 8 == 0 {
                self.internal_reg.coarse_row = if self.internal_reg.coarse_row == 29 {
                    0
                } else {
                    self.internal_reg.coarse_row + 1
                };
            }
            self.internal_reg.fine_row = if self.internal_reg.fine_row == 239 {
                0
            } else {
                self.internal_reg.fine_row + 1
            };
        } else {
            self.internal_reg.coarse_col = self.internal_reg.coarse_col + 1;
            self.internal_reg.fine_col = self.internal_reg.fine_col + 8;
        }
    }

    /// Runs the background pipeline for the tile under the render cursor and
    /// advances the cursor; under four-screen mirroring the nametable fetch
    /// faults and nothing changes.
    pub fn fetch_bg_tile_row(&mut self) -> (r: Result<(), EmuError>)
        requires
            spec_ppu_wf(old(self)@),
        ensures
            final(self)@ == spec_render_tile(old(self)@).0,
            r == spec_render_tile(old(self)@).1,
            spec_ppu_wf(final(self)@),
    {
        let sel = self.ppuctrl.get_base_nt();
        let base_nt: u16 = if sel == 0 {
            0x2000
        } else if sel == 1 {
            0x2400
        } else if sel == 2 {
            0x2800
        } else {
            0x2c00
        };
        let nt_off: u16 = self.internal_reg.coarse_row * 32 + self.internal_reg.coarse_col;
        let chr_idx = match self.bus.read_memory(base_nt + nt_off) {
            Ok(v) => v,
            Err(e) => {
                return Err(e);
            },
        };
        let attr_idx: u16 = (self.internal_reg.coarse_row / 4) * 8 + self.internal_reg.coarse_col
            / 4;
        let attr = match self.bus.read_memory(base_nt + 0x3c0 + attr_idx) {
            Ok(v) => v,
            Err(e) => {
                return Err(e);
            },
        };
        let base_chr: u16 = if self.ppuctrl.contains(CTRL_BACKGROUND_PATTERN_TABLE) {
            0x1000
        } else {
            0
        };
        let qx = self.internal_reg.coarse_col % 4 / 2;
        let qy = self.internal_reg.coarse_row % 4 / 2;
        let palette_idx: u8 = if qx == 0 && qy == 0 {
            attr & 0x03
        } else if qx == 1 && qy == 0 {
            (attr >> 2) & 0x03
        } else if qx == 0 && qy == 1 {
            (attr >> 4) & 0x03
        } else {
            (attr >> 6) & 0x03
        };
        let palette_choice: u16 = if palette_idx == 0 {
            0x3f01
        } else if palette_idx == 1 {
            0x3f05
        } else if palette_idx == 2 {
            0x3f09
        } else {
            0x3f0d
        };
        let pal = (
            Self::read_infallible(&self.bus, BACKGROUND_COLOR),
            Self::read_infallible(&self.bus, palette_choice),
            Self::read_infallible(&self.bus, palette_choice + 1),
            Self::read_infallible(&self.bus, palette_choice + 2),
        );
        let planes = self.fetch_chr_row(base_chr + (chr_idx as u16));
        let x0 = self.internal_reg.fine_col;
        let y = self.internal_reg.fine_row;
        self.draw_tile_row(x0, y, planes.0, planes.1, pal);
        self.advance_cursor();
        Ok(())
    }

    /// One scanline transition, with the vblank and NMI edges of entering
    /// scanlines 241 and 261.
    fn advance_scanline(&mut self)
        requires
            old(self)@.scanline <= 261,
        ensures
            final(self)@ == spec_scanline_advance(old(self)@),
            final(self)@.scanline <= 261,
    {
        if self.scanline == 261 {
            self.scanline = 0;
        } else {
            self.scanline = self.scanline + 1;
        }
        if self.scanline == 241 {
            self.ppustatus.set(STATUS_VBLANK_START, true);
            if self.ppuctrl.contains(CTRL_GENERATE_NMI) {
                self.nmi_pin = true;
            }
        } else if self.scanline == 261 {
            self.ppustatus.set(STATUS_VBLANK_START, false);
            self.nmi_pin = false;
        }
    }

    /// Advances the clock by `cycles`. Each completed scanline of 341 cycles
    /// moves the scanline counter once (wrapping 261 to 0), with the vblank
    /// and NMI edges at scanlines 241 and 261, and runs the background
    /// pipeline for one tile when a visible scanline (1-256) is entered.
    pub fn tick(&mut self, cycles: usize) -> (r: Result<(), EmuError>)
        requires
            spec_ppu_wf(old(self)@),
            old(self)@.cycles + cycles <= usize::MAX,
        ensures
            final(self)@ == spec_tick_from(old(self)@, old(self)@.cycles + cycles).0,
            r == spec_tick_from(old(self)@, old(self)@.cycles + cycles).1,
            spec_ppu_wf(final(self)@),
    {
        let mut total: usize = self.cycles as usize + cycles;
        while total > 340
            invariant
                spec_ppu_wf(self@),
                spec_tick_from(old(self)@, old(self)@.cycles + cycles) == spec_tick_from(
                    self@,
                    total as int,
                ),
            decreases total,
        {
            self.advance_scanline();
            if 1 <= self.scanline && self.scanline <= 256 {
                match self.fetch_bg_tile_row() {
                    Ok(_) => {},
                    Err(e) => {
                        return Err(e);
                    },
                }
            }
            total = total - 341;
        }
        self.cycles = total as u16;
        Ok(())
    }

    pub fn write_ppu_ctrl(&mut self, data: u8)
        ensures
            final(self)@ == spec_write_ppu_ctrl(old(self)@, data),
    {
        let prev_nmi_out = self.ppuctrl.contains(CTRL_GENERATE_NMI);
        self.ppuctrl.update(data);
        if !prev_nmi_out && self.ppuctrl.contains(CTRL_GENERATE_NMI) && self.ppustatus.contains(
            STATUS_VBLANK_START,
        ) {
            self.nmi_pin = true
        }
    }

    pub fn write_ppumask(&mut self, data: u8)
        ensures
            final(self)@ == (PpuV { mask: data, ..old(self)@ }),
    {
        self.ppumask.update(data)
    }

    /// A side-effecting read: clears the vblank bit and resets the shared
    /// write latch, returning the register as cleared.
    pub fn read_ppustatus(&mut self) -> (r: u8)
        ensures
            final(self)@ == spec_read_ppustatus(old(self)@).0,
            r == spec_read_ppustatus(old(self)@).1,
    {
        self.ppustatus.set(STATUS_VBLANK_START, false);
        self.internal_reg.w = false;
        self.ppustatus.bits()
    }

    pub fn write_oamaddr(&mut self, data: u8)
        ensures
            final(self)@ == (PpuV { oamaddr: data, ..old(self)@ }),
    {
        self.oamaddr.0 = data
    }

    pub fn read_oamdata(&self) -> (r: u8)
        ensures
            r == self@.oamdata,
    {
        self.oamdata.0
    }

    pub fn write_oamdata(&mut self, data: u8)
        requires
            spec_ppu_wf(old(self)@),
        ensures
            final(self)@ == spec_write_oamdata(old(self)@, data),
            spec_ppu_wf(final(self)@),
    {
        self.oam[self.oamaddr.0 as usize] = data;
        self.oamdata.0 = data;
        self.oamaddr.0 = self.oamaddr.0.wrapping_add(1)
    }

    pub fn write_ppuscroll(&mut self, data: u8)
        ensures
            final(self)@ == (PpuV {
                scroll: if old(self)@.w {
                    (old(self)@.scroll.0, data)
                } else {
                    (data, old(self)@.scroll.1)
                },
                w: !old(self)@.w,
                ..old(self)@
            }),
    {
        self.ppuscroll.update(data, self.internal_reg.w);
        self.internal_reg.w = !self.internal_reg.w;
    }

    pub fn write_ppuaddr(&mut self, data: u8)
        ensures
            final(self)@ == (PpuV {
                addr: if old(self)@.w {
                    (old(self)@.addr.0, data)
                } else {
                    (data, old(self)@.addr.1)
                },
                w: !old(self)@.w,
                ..old(self)@
            }),
    {
        self.ppuaddr.update(data, self.internal_reg.w);
        self.internal_reg.w = !self.internal_reg.w;
    }

    pub fn increment_ppu_addr(&mut self)
        ensures
            final(self)@ == spec_increment_ppu_addr(old(self)@),
    {
        self.ppuaddr.increment_by(self.ppuctrl.contains(CTRL_VRAM_ADDR_INCR))
    }

    /// The buffered data-port read: returns the byte buffered by the
    /// previous read and primes the buffer from the current address.
    pub fn read_ppudata(&mut self) -> (r: Result<u8, EmuError>)
        requires
            spec_ppu_wf(old(self)@),
        ensures
            final(self)@ == spec_read_ppudata(old(self)@).0,
            r == spec_read_ppudata(old(self)@).1,
            spec_ppu_wf(final(self)@),
    {
        let read = self.ppudata.0;
        match self.bus.read_memory(self.ppuaddr.get()) {
            Ok(v) => {
                self.ppudata.0 = v;
                self.increment_ppu_addr();
                Ok(read)
            },
            Err(e) => Err(e),
        }
    }

    pub fn write_ppudata(&mut self, data: u8) -> (r: Result<(), EmuError>)
        requires
            spec_ppu_wf(old(self)@),
        ensures
            final(self)@ == spec_write_ppudata(old(self)@, data).0,
            r == spec_write_ppudata(old(self)@, data).1,
            spec_ppu_wf(final(self)@),
    {
        match self.bus.write_memory(self.ppuaddr.get(), data) {
            Ok(_) => {
                self.increment_ppu_addr();
                Ok(())
            },
            Err(e) => Err(e),
        }
    }

    /// Receives one DMA burst: the bytes land in OAM from the cursor
    /// onward, wrapping at the end of OAM. A burst is at most one page.
    pub fn write_dma(&mut self, bytes: &Vec<u8>)
        requires
            spec_ppu_wf(old(self)@),
            bytes@.len() <= 256,
        ensures
            final(self)@ == spec_write_dma(old(self)@, bytes@),
            spec_ppu_wf(final(self)@),
    {
        let start = self.oamaddr.0 as usize;
        let n = bytes.len();
        let mut j: usize = 0;
        while j < n
            invariant
                n == bytes@.len(),
                n <= 256,
                start == old(self)@.oamaddr,
                start < 256,
                j <= n,
                self@ == (PpuV {
                    oam: spec_dma_oam(old(self)@.oam, start as u8, bytes@.take(j as int)),
                    ..old(self)@
                }),
                spec_ppu_wf(self@),
            decreases n - j,
        {
            let idx = if start + j < 256 {
                start + j
            } else {
                start + j - 256
            };
            self.oam[idx] = bytes[j];
            j = j + 1;
            proof {
                assert forall|i: int| 0 <= i < 256 implies self@.oam[i] == spec_dma_oam(
                    old(self)@.oam,
                    start as u8,
                    bytes@.take(j as int),
                )[i] by {
                    let jj = (i + 256 - start) % 256;
                    if i == idx {
                        assert(jj == j - 1);
                    } else {
                        assert(jj != j - 1);
                    }
                }
                assert(self@.oam =~= spec_dma_oam(
                    old(self)@.oam,
                    start as u8,
                    bytes@.take(j as int),
                ));
            }
        }
        proof {
            assert(spec_dma_oam(old(self)@.oam, start as u8, bytes@.take(j as int)) =~= spec_dma_oam(
                old(self)@.oam,
                start as u8,
                bytes@,
            ));
        }
    }
}

} // verus!
