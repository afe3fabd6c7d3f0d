use nes_core::cartridge::Mirroring;
use nes_core::errors::EmuError;
use nes_core::ppubus::PPUBus;

#[test]
fn test_mirror_nametable_addr() {
    let vertical0 = PPUBus::mirror_nametable_addr(0x2005, &Mirroring::Vertical);
    assert_eq!(vertical0, 0x05, "actual: {:#x}", vertical0);

    let vertical1 = PPUBus::mirror_nametable_addr(0x2405, &Mirroring::Vertical);
    assert_eq!(vertical1, 0x405, "actual: {:#x}", vertical1);

    let vertical2 = PPUBus::mirror_nametable_addr(0x2805, &Mirroring::Vertical);
    assert_eq!(vertical2, 0x05, "actual: {:#x}", vertical2);

    let vertical3 = PPUBus::mirror_nametable_addr(0x2c05, &Mirroring::Vertical);
    assert_eq!(vertical3, 0x405, "actual: {:#x}", vertical3);

    let horiztonal0 = PPUBus::mirror_nametable_addr(0x2005, &Mirroring::Horizontal);
    assert_eq!(horiztonal0, 0x05, "actual: {:#x}", horiztonal0);

    let horiztontal1 = PPUBus::mirror_nametable_addr(0x2405, &Mirroring::Horizontal);
    assert_eq!(horiztontal1, 0x05, "actual: {:#x}", horiztontal1);

    let horizontal2 = PPUBus::mirror_nametable_addr(0x2805, &Mirroring::Horizontal);
    assert_eq!(horizontal2, 0x405, "actual: {:#x}", horizontal2);

    let horizontal3 = PPUBus::mirror_nametable_addr(0x2c05, &Mirroring::Horizontal);
    assert_eq!(horizontal3, 0x405, "actual: {:#x}", horizontal3);
}

#[test]
fn palette_background_mirror_slots() {
    let mut bus = PPUBus::new();
    bus.write_memory(0x3f00, 0x21).unwrap();
    bus.write_memory(0x3f04, 0x22).unwrap();
    bus.write_memory(0x3f08, 0x23).unwrap();
    bus.write_memory(0x3f0c, 0x24).unwrap();
    assert_eq!(bus.read_memory(0x3f10).unwrap(), bus.read_memory(0x3f00).unwrap());
    assert_eq!(bus.read_memory(0x3f14).unwrap(), bus.read_memory(0x3f04).unwrap());
    assert_eq!(bus.read_memory(0x3f18).unwrap(), bus.read_memory(0x3f08).unwrap());
    assert_eq!(bus.read_memory(0x3f1c).unwrap(), bus.read_memory(0x3f0c).unwrap());
    assert_eq!(bus.read_memory(0x3f10).unwrap(), 0x21);
    // Writes through a mirror slot land in the aliased slot.
    bus.write_memory(0x3f14, 0x31).unwrap();
    assert_eq!(bus.read_memory(0x3f04).unwrap(), 0x31);
    // The whole palette window repeats every 32 bytes.
    assert_eq!(bus.read_memory(0x3f20).unwrap(), 0x21);
    assert_eq!(bus.read_memory(0x3fe0).unwrap(), 0x21);
}

#[test]
fn mirror_palette_addr_values() {
    assert_eq!(PPUBus::mirror_palette_addr(0x3f10), 0x00);
    assert_eq!(PPUBus::mirror_palette_addr(0x3f14), 0x04);
    assert_eq!(PPUBus::mirror_palette_addr(0x3f18), 0x08);
    assert_eq!(PPUBus::mirror_palette_addr(0x3f1c), 0x0c);
    assert_eq!(PPUBus::mirror_palette_addr(0x3f11), 0x11);
    assert_eq!(PPUBus::mirror_palette_addr(0x3f3f), 0x1f);
}

#[test]
fn nametable_write_read_through_mirror() {
    let mut bus = PPUBus::new();
    bus.load_chr_rom(vec![0u8; 0x2000], Mirroring::Vertical);
    // 0x2805 and 0x2005 share physical storage under vertical mirroring.
    bus.write_memory(0x2005, 0x7a).unwrap();
    assert_eq!(bus.read_memory(0x2805).unwrap(), 0x7a);
    // The 0x3000-0x3eff window images the nametables.
    assert_eq!(bus.read_memory(0x3005).unwrap(), 0x7a);
}

#[test]
fn ppu_space_fault_reporting() {
    let mut bus = PPUBus::new();
    assert_eq!(bus.read_memory(0x4000), Err(EmuError::UnmappedRead { addr: 0x4000 }));
    assert_eq!(bus.write_memory(0x7fff, 1), Err(EmuError::UnmappedWrite { addr: 0x7fff }));
    bus.load_chr_rom(vec![0u8; 0x2000], Mirroring::FourScreen);
    assert_eq!(bus.read_memory(0x2005), Err(EmuError::UnsupportedMirroring));
    assert_eq!(bus.write_memory(0x2005, 1), Err(EmuError::UnsupportedMirroring));
}
