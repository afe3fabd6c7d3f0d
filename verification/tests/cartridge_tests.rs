use nes_core::bus::Bus;
use nes_core::cartridge::Cartridge;
use nes_core::cartridge::Mirroring;
use nes_core::cpu::CPU;
use nes_core::errors::CartridgeError;
use nes_core::ppu::PPU;

/// A minimal valid iNES image: one 16KB program bank, one 8KB graphics
/// bank, with the given flag bytes.
fn make_image(flag6: u8, flag7: u8) -> Vec<u8> {
    let mut bytes = vec![0u8; 16 + 0x4000 + 0x2000];
    bytes[0] = 0x4e;
    bytes[1] = 0x45;
    bytes[2] = 0x53;
    bytes[3] = 0x1a;
    bytes[4] = 1;
    bytes[5] = 1;
    bytes[6] = flag6;
    bytes[7] = flag7;
    bytes
}

#[test]
fn load_parses_banks_and_flags() {
    let mut bytes = make_image(0x11, 0x20);
    bytes[16] = 0xaa;  // first program byte
    bytes[16 + 0x4000] = 0xbb;  // first graphics byte
    let cart = Cartridge::load(&bytes).unwrap();
    assert_eq!(cart.prgrom.len(), 0x4000);
    assert_eq!(cart.chrrom.len(), 0x2000);
    assert_eq!(cart.prgrom[0], 0xaa);
    assert_eq!(cart.chrrom[0], 0xbb);
    assert_eq!(cart.mirroring, Mirroring::Vertical);
    assert_eq!(cart.mapper, 0x21);
}

#[test]
fn load_honors_trainer_offset() {
    let mut bytes = vec![0u8; 16 + 512 + 0x4000 + 0x2000];
    bytes[0] = 0x4e;
    bytes[1] = 0x45;
    bytes[2] = 0x53;
    bytes[3] = 0x1a;
    bytes[4] = 1;
    bytes[5] = 1;
    bytes[6] = 0x04;  // trainer present
    bytes[16 + 512] = 0xcc;
    let cart = Cartridge::load(&bytes).unwrap();
    assert_eq!(cart.prgrom[0], 0xcc);
    assert_eq!(cart.mirroring, Mirroring::Horizontal);
}

#[test]
fn load_detects_four_screen() {
    let bytes = make_image(0x09, 0x00);
    let cart = Cartridge::load(&bytes).unwrap();
    assert_eq!(cart.mirroring, Mirroring::FourScreen);
}

#[test]
fn load_rejects_short_image() {
    let bytes = vec![0x4e, 0x45, 0x53];
    assert!(matches!(
        Cartridge::load(&bytes),
        Err(CartridgeError::TruncatedImage { expected_len: 16, actual_len: 3 })
    ));
}

#[test]
fn load_rejects_bad_tag() {
    let mut bytes = make_image(0, 0);
    bytes[3] = 0x00;
    assert!(matches!(Cartridge::load(&bytes), Err(CartridgeError::BadHeaderTag)));
}

#[test]
fn load_rejects_unsupported_version() {
    let bytes = make_image(0x00, 0x08);
    assert!(matches!(
        Cartridge::load(&bytes),
        Err(CartridgeError::UnsupportedVersion { version: 2 })
    ));
}

#[test]
fn load_rejects_truncated_banks() {
    let mut bytes = make_image(0, 0);
    bytes.truncate(16);
    let expected = 16 + 0x4000 + 0x2000;
    assert!(matches!(
        Cartridge::load(&bytes),
        Err(CartridgeError::TruncatedImage { expected_len, actual_len: 16 }) if expected_len == expected
    ));
}

#[test]
fn load_cartridge_resets_from_vector() {
    let mut bytes = make_image(0x01, 0x00);
    // Reset vector inside the program bank: 16KB images mirror, so the
    // vector at 0xfffc reads bank offset 0x3ffc.
    bytes[16 + 0x3ffc] = 0x00;
    bytes[16 + 0x3ffd] = 0xc0;
    let cart = Cartridge::load(&bytes).unwrap();
    let mut cpu = CPU::new(Bus::new(PPU::new()));
    cpu.st = 0xff;
    cpu.load_cartridge(cart);
    assert_eq!(cpu.pc, 0xc000);
    assert_eq!(cpu.st, 0x00);
    assert_eq!(cpu.rx, 0x00);
    assert_eq!(cpu.ry, 0x00);
}
