use vstd::prelude::*;

use crate::errors::CartridgeError;

verus! {

// The iNES header begins with "NES" followed by an MS-DOS end-of-file byte.
pub const NES_TAG_0: u8 = 0x4e;

pub const NES_TAG_1: u8 = 0x45;

pub const NES_TAG_2: u8 = 0x53;

pub const NES_TAG_3: u8 = 0x1a;

pub const PRG_ROM_PAGE: usize = 0x4000;

pub const CHR_ROM_PAGE: usize = 0x2000;

/// How the four logical nametables map onto the PPU's 2KB of physical RAM.
#[derive(Clone, Copy, Debug, PartialEq, Eq, Structural)]
pub enum Mirroring {
    Horizontal,
    Vertical,
    FourScreen,
}

/// A parsed cartridge image: program-bank bytes, graphics-bank bytes, the
/// nametable mirroring mode, and the mapper number.
pub struct Cartridge {
    pub prgrom: Vec<u8>,
    pub chrrom: Vec<u8>,
    pub mirroring: Mirroring,
    pub mapper: u8,
}

pub open spec fn spec_tag_ok(b: Seq<u8>) -> bool {
    b[0] == 0x4e && b[1] == 0x45 && b[2] == 0x53 && b[3] == 0x1a
}

pub open spec fn spec_ines_version(b: Seq<u8>) -> u8 {
    (b[7] >> 2) & 0x03
}

pub open spec fn spec_has_trainer(b: Seq<u8>) -> bool {
    (b[6] >> 2) & 0x01 == 1
}

pub open spec fn spec_prg_start(b: Seq<u8>) -> int {
    16 + if spec_has_trainer(b) {
        512int
    } else {
        0int
    }
}

pub open spec fn spec_prg_size(b: Seq<u8>) -> int {
    0x4000 * b[4]
}

pub open spec fn spec_chr_start(b: Seq<u8>) -> int {
    spec_prg_start(b) + spec_prg_size(b)
}

pub open spec fn spec_chr_size(b: Seq<u8>) -> int {
    0x2000 * b[5]
}

pub open spec fn spec_mirroring(b: Seq<u8>) -> Mirroring {
    if (b[6] >> 3) & 0x01 == 1 {
        Mirroring::FourScreen
    } else if b[6] & 0x01 == 1 {
        Mirroring::Vertical
    } else {
        Mirroring::Horizontal
    }
}

pub open spec fn spec_mapper(b: Seq<u8>) -> u8 {
    (b[7] & 0xf0) | (b[6] >> 4)
}

/// What loading an image yields: the program bytes, the graphics bytes, the
/// mirroring mode and the mapper number, or the first defect found, checked
/// in this order: a complete header, the magic tag, the format version, and
/// the full length the header promises.
pub open spec fn spec_load(b: Seq<u8>) -> Result<(Seq<u8>, Seq<u8>, Mirroring, u8), CartridgeError> {
    if b.len() < 16 {
        Err(
            CartridgeError::TruncatedImage {
                expected_len: 16 as usize,
                actual_len: b.len() as usize,
            },
        )
    } else if !spec_tag_ok(b) {
        Err(CartridgeError::BadHeaderTag)
    } else if spec_ines_version(b) != 0 {
        Err(CartridgeError::UnsupportedVersion { version: spec_ines_version(b) })
    } else if b.len() < spec_chr_start(b) + spec_chr_size(b) {
        Err(
            CartridgeError::TruncatedImage {
                expected_len: (spec_chr_start(b) + spec_chr_size(b)) as usize,
                actual_len: b.len() as usize,
            },
        )
    } else {
        Ok(
            (
                b.subrange(spec_prg_start(b), spec_prg_start(b) + spec_prg_size(b)),
                b.subrange(spec_chr_start(b), spec_chr_start(b) + spec_chr_size(b)),
                spec_mirroring(b),
                spec_mapper(b),
            ),
        )
    }
}

/// Copies `len` bytes of `bytes` starting at `start` into a fresh vector.
fn copy_range(bytes: &Vec<u8>, start: usize, len: usize) -> (r: Vec<u8>)
    requires
        start + len <= bytes@.len(),
    ensures
        r@ == bytes@.subrange(start as int, start as int + len as int),
{
    let mut out: Vec<u8> = Vec::new();
    let n = bytes.len();
    let mut i: usize = 0;
    while i < len
        invariant
            i <= len,
            start + len <= n,
            n == bytes@.len(),
            out@ == bytes@.subrange(start as int, start as int + i as int),
        decreases len - i,
    {
        out.push(bytes[start + i]);
        i = i + 1;
        proof {
            assert(out@ =~= bytes@.subrange(start as int, start as int + i as int));
        }
    }
    out
}

impl Cartridge {
    /// Parses a raw iNES image into a cartridge, validating the header and
    /// the promised bank lengths before any bank is copied.
    pub fn load(bytes: &Vec<u8>) -> (r: Result<Cartridge, CartridgeError>)
        ensures
            ({
                let s = spec_load(bytes@);
                match r {
                    Ok(c) => s == Ok::<_, CartridgeError>(
                        (c.prgrom@, c.chrrom@, c.mirroring, c.mapper),
                    ),
                    Err(e) => s == Err::<(Seq<u8>, Seq<u8>, Mirroring, u8), _>(e),
                }
            }),
    {
        if bytes.len() < 16 {
            return Err(
                CartridgeError::TruncatedImage { expected_len: 16, actual_len: bytes.len() },
            );
        }
        if !(bytes[0] == NES_TAG_0 && bytes[1] == NES_TAG_1 && bytes[2] == NES_TAG_2 && bytes[3]
            == NES_TAG_3) {
            return Err(CartridgeError::BadHeaderTag);
        }
        let flag6 = bytes[6];
        let flag7 = bytes[7];
        let ines_version = (flag7 >> 2) & 0x03;
        if ines_version != 0 {
            return Err(CartridgeError::UnsupportedVersion { version: ines_version });
        }
        let has_trainer = (flag6 >> 2) & 0x01 == 1;
        let prgrom_start: usize = if has_trainer {
            512 + 16
        } else {
            16
        };
        let prgrom_size: usize = PRG_ROM_PAGE * (bytes[4] as usize);
        let chrrom_start: usize = prgrom_start + prgrom_size;
        let chrrom_size: usize = CHR_ROM_PAGE * (bytes[5] as usize);
        if bytes.len() < chrrom_start + chrrom_size {
            return Err(
                CartridgeError::TruncatedImage {
                    expected_len: chrrom_start + chrrom_size,
                    actual_len: bytes.len(),
                },
            );
        }
        let prgrom = copy_range(bytes, prgrom_start, prgrom_size);
        let chrrom = copy_range(bytes, chrrom_start, chrrom_size);
        let four_screen = (flag6 >> 3) & 0x01 == 1;
        let vertical = flag6 & 0x01 == 1;
        let mirroring = if four_screen {
            Mirroring::FourScreen
        } else if vertical {
            Mirroring::Vertical
        } else {
            Mirroring::Horizontal
        };
        let mapper = (flag7 & 0xf0) | (flag6 >> 4);
        Ok(Cartridge { prgrom, chrrom, mirroring, mapper })
    }
}

} // verus!
