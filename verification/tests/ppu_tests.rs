use nes_core::cartridge::Mirroring;
use nes_core::errors::EmuError;
use nes_core::ppu::PPU;
use nes_core::registers::CTRL_GENERATE_NMI;
use nes_core::registers::STATUS_VBLANK_START;

const SCANLINE: usize = 341;

#[test]
fn nmi_edge_on_vblank_entry_and_exit() {
    let mut ppu = PPU::new();
    ppu.write_ppu_ctrl(CTRL_GENERATE_NMI);
    // 241 whole scanlines from power-on enter scanline 241.
    ppu.tick(SCANLINE * 241).unwrap();
    assert_eq!(ppu.scanline, 241);
    assert!(ppu.poll_generate_nmi());
    assert_ne!(ppu.ppustatus.bits & STATUS_VBLANK_START, 0);
    // Twenty more scanlines enter scanline 261: vblank over, request gone.
    ppu.tick(SCANLINE * 20).unwrap();
    assert_eq!(ppu.scanline, 261);
    assert!(!ppu.poll_generate_nmi());
    assert_eq!(ppu.ppustatus.bits & STATUS_VBLANK_START, 0);
}

#[test]
fn vblank_sets_without_nmi_when_disabled() {
    let mut ppu = PPU::new();
    ppu.tick(SCANLINE * 241).unwrap();
    assert_ne!(ppu.ppustatus.bits & STATUS_VBLANK_START, 0);
    assert!(!ppu.poll_generate_nmi());
}

#[test]
fn ctrl_write_retriggers_nmi_mid_vblank() {
    let mut ppu = PPU::new();
    // Enter vblank with NMI generation off.
    ppu.tick(SCANLINE * 241).unwrap();
    assert!(!ppu.poll_generate_nmi());
    // Turning the generate-NMI bit on while vblank-started is set raises
    // the request at once.
    ppu.write_ppu_ctrl(CTRL_GENERATE_NMI);
    assert!(ppu.poll_generate_nmi());
}

#[test]
fn tick_wraps_scanline_261_to_0() {
    let mut ppu = PPU::new();
    ppu.tick(SCANLINE * 262).unwrap();
    assert_eq!(ppu.scanline, 0);
    assert_eq!(ppu.cycles, 0);
    ppu.tick(100).unwrap();
    assert_eq!(ppu.cycles, 100);
    assert_eq!(ppu.scanline, 0);
    ppu.tick(241).unwrap();
    assert_eq!(ppu.cycles, 0);
    assert_eq!(ppu.scanline, 1);
}

#[test]
fn tick_faults_under_four_screen_mirroring() {
    let mut ppu = PPU::new();
    ppu.load_chr_rom(vec![0u8; 0x2000], Mirroring::FourScreen);
    // Entering the first visible scanline starts the background pipeline,
    // whose nametable fetch is unimplemented under four-screen mirroring.
    assert_eq!(ppu.tick(SCANLINE * 2), Err(EmuError::UnsupportedMirroring));
}

#[test]
fn status_read_clears_vblank_and_latch() {
    let mut ppu = PPU::new();
    ppu.ppustatus.bits = 0xe0;
    ppu.write_ppuscroll(0x01);  // flips the latch
    let read = ppu.read_ppustatus();
    assert_eq!(read, 0x60);
    assert_eq!(ppu.ppustatus.bits, 0x60);
    // The latch was reset: the next scroll write is an x write again.
    ppu.write_ppuscroll(0x44);
    assert_eq!(ppu.ppuscroll.value, (0x44, 0x00));
}

#[test]
fn ppuscroll_two_write_sequence() {
    let mut ppu = PPU::new();
    ppu.write_ppuscroll(0x12);
    ppu.write_ppuscroll(0x34);
    assert_eq!(ppu.ppuscroll.value, (0x12, 0x34));
}

#[test]
fn ppudata_read_is_buffered_and_increments() {
    let mut ppu = PPU::new();
    ppu.write_ppuaddr(0x20);
    ppu.write_ppuaddr(0x05);
    ppu.write_ppudata(0x42).unwrap();
    assert_eq!(ppu.ppuaddr.get(), 0x2006);
    // Point back at the written cell; the first read returns the stale
    // buffer, the second the byte itself.
    ppu.read_ppustatus();
    ppu.write_ppuaddr(0x20);
    ppu.write_ppuaddr(0x05);
    let first = ppu.read_ppudata().unwrap();
    let second = ppu.read_ppudata().unwrap();
    assert_eq!(first, 0x00);
    assert_eq!(second, 0x42);
    assert_eq!(ppu.ppuaddr.get(), 0x2007);
}

#[test]
fn ppudata_increment_step_follows_ctrl() {
    let mut ppu = PPU::new();
    ppu.write_ppu_ctrl(0x04);
    ppu.write_ppuaddr(0x20);
    ppu.write_ppuaddr(0x00);
    ppu.write_ppudata(0x01).unwrap();
    assert_eq!(ppu.ppuaddr.get(), 0x2020);
}

#[test]
fn ppuaddr_masks_to_14_bits() {
    let mut ppu = PPU::new();
    ppu.write_ppuaddr(0xff);
    ppu.write_ppuaddr(0xff);
    assert_eq!(ppu.ppuaddr.get(), 0x3fff);
}

#[test]
fn oamdata_write_stores_and_advances_cursor() {
    let mut ppu = PPU::new();
    ppu.write_oamaddr(5);
    ppu.write_oamdata(0xab);
    assert_eq!(ppu.oam[5], 0xab);
    assert_eq!(ppu.oamaddr.0, 6);
    assert_eq!(ppu.read_oamdata(), 0xab);
    // The cursor wraps at the end of OAM.
    ppu.write_oamaddr(0xff);
    ppu.write_oamdata(0xcd);
    assert_eq!(ppu.oam[0xff], 0xcd);
    assert_eq!(ppu.oamaddr.0, 0);
}

#[test]
fn dma_burst_wraps_at_end_of_oam() {
    let mut ppu = PPU::new();
    let bytes: Vec<u8> = (0..=255u16).map(|i| i as u8).collect();
    ppu.write_oamaddr(0xfe);
    ppu.write_dma(&bytes);
    // The whole page lands: byte i at (cursor + i) mod 256.
    assert_eq!(ppu.oam[0xfe], 0);
    assert_eq!(ppu.oam[0xff], 1);
    assert_eq!(ppu.oam[0x00], 2);
    assert_eq!(ppu.oam[0x01], 3);
    assert_eq!(ppu.oam[0xfd], 255);
}
