use nes_core::debug::CpuState;
use nes_core::frame::Frame;
use nes_core::registers::PPUADDR;
use nes_core::utils::as_lo_hi;
use nes_core::utils::get_bit;
use nes_core::utils::join_hi_low;
use nes_core::utils::msb;

#[test]
fn bit_utilities() {
    assert_eq!(msb(0x80), 1);
    assert_eq!(msb(0x7f), 0);
    assert_eq!(join_hi_low(0x34, 0x12), 0x1234);
    assert_eq!(as_lo_hi(0x1234), (0x34, 0x12));
    assert_eq!(get_bit(&0b0000_0100, 2), 1);
    assert_eq!(get_bit(&0b0000_0100, 3), 0);
}

#[test]
fn ppuaddr_assembles_and_increments() {
    let mut addr = PPUADDR::new();
    addr.update(0x21, false);
    addr.update(0x08, true);
    assert_eq!(addr.get(), 0x2108);
    addr.increment_by(false);
    assert_eq!(addr.get(), 0x2109);
    addr.increment_by(true);
    assert_eq!(addr.get(), 0x2129);
}

#[test]
fn frame_pixels_are_flat_rgb() {
    let mut frame = Frame::new();
    frame.set_pixel(3, 2, (10, 20, 30));
    let base = (2 * 256 + 3) * 3;
    assert_eq!(frame.data[base], 10);
    assert_eq!(frame.data[base + 1], 20);
    assert_eq!(frame.data[base + 2], 30);
    assert_eq!(frame.data.len(), 256 * 240 * 3);
}

#[test]
fn trace_status_forces_bit5_and_clears_break() {
    let mut state = CpuState::default();
    state.set_status(0x00);
    assert_eq!(state.p, 0x20);
    state.set_status(0xff);
    assert_eq!(state.p, 0xef);
    state.set_status(0x6e);
    assert_eq!(state.p, 0x6e);
}

#[test]
fn trace_line_renders_every_field() {
    let mut state = CpuState::default();
    state.addr = 0xc000;
    state.opcode = 0x4c;
    state.cycles = 7;
    let line = state.render();
    assert!(line.contains("Address=0xc000"));
    assert!(line.contains("Opcode=0x4c"));
    assert!(line.contains("Cycles:7"));
}
