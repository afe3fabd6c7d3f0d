use vstd::prelude::*;

verus! {

/// A fault raised while the machine is running. Every variant carries the
/// address (and, for decode faults, the opcode) that triggered it, so a host
/// can halt and report rather than guess.
#[derive(Clone, Copy, Debug, PartialEq, Eq, Structural)]
pub enum EmuError {
    /// A read from an address that no device answers.
    UnmappedRead { addr: u16 },
    /// A write to an address that no device accepts.
    UnmappedWrite { addr: u16 },
    /// A write into the program-ROM window, which is immutable.
    RomWrite { addr: u16 },
    /// A read from a write-only memory-mapped register; the address is the
    /// register's canonical location.
    UnreadableRegister { addr: u16 },
    /// A write to a read-only memory-mapped register; the address is the
    /// register's canonical location.
    UnwritableRegister { addr: u16 },
    /// An opcode outside the legal instruction set, found at `addr`.
    IllegalOpcode { opcode: u8, addr: u16 },
    /// A nametable access under four-screen mirroring, which this core
    /// leaves unimplemented.
    UnsupportedMirroring,
}

/// A defect found in a cartridge image at load time; the core never begins
/// execution on an invalid image.
#[derive(Clone, Copy, Debug, PartialEq, Eq, Structural)]
pub enum CartridgeError {
    /// The image does not begin with the iNES magic tag.
    BadHeaderTag,
    /// The header names a format version this core does not support.
    UnsupportedVersion { version: u8 },
    /// The image ends before the banks its header promises.
    TruncatedImage { expected_len: usize, actual_len: usize },
}

} // verus!
