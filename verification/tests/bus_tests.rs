use nes_core::bus::Bus;
use nes_core::errors::EmuError;
use nes_core::ppu::PPU;

fn make_bus() -> Bus {
    Bus::new(PPU::new())
}

#[test]
fn ram_mirroring_idempotence() {
    let mut bus = make_bus();
    bus.write_memory(0x0005, 7).unwrap();
    // The value is observable at every address congruent modulo 0x800.
    assert_eq!(bus.read_memory(0x0005).unwrap(), 7);
    assert_eq!(bus.read_memory(0x0805).unwrap(), 7);
    assert_eq!(bus.read_memory(0x1005).unwrap(), 7);
    assert_eq!(bus.read_memory(0x1805).unwrap(), 7);
    // Writing through a mirror lands in the same cell.
    bus.write_memory(0x1805, 9).unwrap();
    assert_eq!(bus.read_memory(0x0005).unwrap(), 9);
    // read(a) == read(a & 0x07ff) across the window.
    for a in [0x0123u16, 0x0923, 0x1123, 0x1fff] {
        assert_eq!(bus.read_memory(a).unwrap(), bus.read_memory(a & 0x07ff).unwrap());
    }
}

#[test]
fn register_window_mirrors_every_8_bytes() {
    let mut bus = make_bus();
    // 0x2008 targets register (0x2008 & 0x0f) % 8 == 0, i.e. PPUCTRL.
    bus.write_memory(0x2008, 0x5a).unwrap();
    assert_eq!(bus.ppu.ppuctrl.bits, 0x5a);
    // 0x3ff5 targets register 5, PPUSCROLL's first (x) write.
    bus.write_memory(0x3ff5, 0x17).unwrap();
    assert_eq!(bus.ppu.ppuscroll.value.0, 0x17);
    // A status read through a distant mirror still clears the vblank bit.
    bus.ppu.ppustatus.bits = 0xe0;
    let read = bus.read_memory(0x3ff2).unwrap();
    assert_eq!(read, 0x60);
    assert_eq!(bus.ppu.ppustatus.bits, 0x60);
}

#[test]
fn rom_window_is_immutable() {
    let mut bus = make_bus();
    assert_eq!(bus.write_memory(0x8000, 1), Err(EmuError::RomWrite { addr: 0x8000 }));
    assert_eq!(bus.write_memory(0xffff, 1), Err(EmuError::RomWrite { addr: 0xffff }));
}

#[test]
fn rom_16k_image_is_mirrored() {
    let mut bus = make_bus();
    let mut image = vec![0u8; 0x4000];
    image[0x0123] = 0xab;
    bus.load_rom(image);
    assert_eq!(bus.read_memory(0x8123).unwrap(), 0xab);
    assert_eq!(bus.read_memory(0xc123).unwrap(), 0xab);
}

#[test]
fn rom_32k_image_is_direct() {
    let mut bus = make_bus();
    let mut image = vec![0u8; 0x8000];
    image[0x0123] = 0x11;
    image[0x4123] = 0x22;
    bus.load_rom(image);
    assert_eq!(bus.read_memory(0x8123).unwrap(), 0x11);
    assert_eq!(bus.read_memory(0xc123).unwrap(), 0x22);
}

#[test]
fn unmapped_access_faults() {
    let mut bus = make_bus();
    assert_eq!(bus.read_memory(0x4000), Err(EmuError::UnmappedRead { addr: 0x4000 }));
    assert_eq!(bus.read_memory(0x4014), Err(EmuError::UnmappedRead { addr: 0x4014 }));
    assert_eq!(bus.write_memory(0x5000, 1), Err(EmuError::UnmappedWrite { addr: 0x5000 }));
}

#[test]
fn register_fault_reports_canonical_address() {
    let mut bus = make_bus();
    // PPUCTRL is write-only; a mirrored read reports the canonical address.
    assert_eq!(bus.read_memory(0x2000), Err(EmuError::UnreadableRegister { addr: 0x2000 }));
    assert_eq!(bus.read_memory(0x3ff8), Err(EmuError::UnreadableRegister { addr: 0x2000 }));
    // PPUSTATUS is read-only.
    assert_eq!(bus.write_memory(0x200a, 1), Err(EmuError::UnwritableRegister { addr: 0x2002 }));
}

#[test]
fn oam_dma_copies_a_ram_page() {
    let mut bus = make_bus();
    for i in 0..256u16 {
        bus.write_memory(0x0200 + i, i as u8).unwrap();
    }
    bus.write_memory(0x2003, 0).unwrap();
    bus.write_memory(0x4014, 0x02).unwrap();
    for i in 0..256usize {
        assert_eq!(bus.ppu.oam[i], i as u8);
    }
    // With a nonzero cursor the burst wraps past the end of OAM.
    bus.write_memory(0x2003, 0x80).unwrap();
    bus.write_memory(0x4014, 0x02).unwrap();
    for i in 0..256usize {
        assert_eq!(bus.ppu.oam[(0x80 + i) % 256], i as u8);
    }
}

#[test]
fn oam_dma_rejects_unmapped_pages() {
    let mut bus = make_bus();
    assert_eq!(bus.write_memory(0x4014, 0x40), Err(EmuError::UnmappedRead { addr: 0x4000 }));
}
