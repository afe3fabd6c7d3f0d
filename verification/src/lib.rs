//! Instruction- and peripheral-level simulator of an 8-bit home console:
//! a 6502-family CPU, the bus that maps its 16-bit address space onto
//! internal RAM, memory-mapped graphics registers and cartridge ROM, and a
//! scanline-driven graphics co-processor (PPU) with its own 14-bit bus.
//!
//! The crate is a library: loading a cartridge image from disk and
//! presenting the frame buffer are left to the surrounding application.

pub mod bus;
pub mod cartridge;
pub mod cpu;
pub mod debug;
pub mod errors;
pub mod frame;
pub mod palette;
pub mod ppu;
pub mod ppubus;
pub mod registers;
pub mod utils;
