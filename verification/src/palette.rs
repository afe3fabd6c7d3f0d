use vstd::prelude::*;

verus! {

/// The fixed hardware color lookup table: the 64 RGB colors the video chip
/// can emit, indexed by a palette-table entry masked to six bits.
pub open spec fn spec_system_palette(idx: u8) -> (u8, u8, u8) {
    if idx == 0 {
        (0x80, 0x80, 0x80)
    } else if idx == 1 {
        (0x00, 0x3d, 0xa6)
    } else if idx == 2 {
        (0x00, 0x12, 0xb0)
    } else if idx == 3 {
        (0x44, 0x00, 0x96)
    } else if idx == 4 {
        (0xa1, 0x00, 0x5e)
    } else if idx == 5 {
        (0xc7, 0x00, 0x28)
    } else if idx == 6 {
        (0xba, 0x06, 0x00)
    } else if idx == 7 {
        (0x8c, 0x17, 0x00)
    } else if idx == 8 {
        (0x5c, 0x2f, 0x00)
    } else if idx == 9 {
        (0x10, 0x45, 0x00)
    } else if idx == 10 {
        (0x05, 0x4a, 0x00)
    } else if idx == 11 {
        (0x00, 0x47, 0x2e)
    } else if idx == 12 {
        (0x00, 0x41, 0x66)
    } else if idx == 13 {
        (0x00, 0x00, 0x00)
    } else if idx == 14 {
        (0x05, 0x05, 0x05)
    } else if idx == 15 {
        (0x05, 0x05, 0x05)
    } else if idx == 16 {
        (0xc7, 0xc7, 0xc7)
    } else if idx == 17 {
        (0x00, 0x77, 0xff)
    } else if idx == 18 {
        (0x21, 0x55, 0xff)
    } else if idx == 19 {
        (0x82, 0x37, 0xfa)
    } else if idx == 20 {
        (0xeb, 0x2f, 0xb5)
    } else if idx == 21 {
        (0xff, 0x29, 0x50)
    } else if idx == 22 {
        (0xff, 0x22, 0x00)
    } else if idx == 23 {
        (0xd6, 0x32, 0x00)
    } else if idx == 24 {
        (0xc4, 0x62, 0x00)
    } else if idx == 25 {
        (0x35, 0x80, 0x00)
    } else if idx == 26 {
        (0x05, 0x8f, 0x00)
    } else if idx == 27 {
        (0x00, 0x8a, 0x55)
    } else if idx == 28 {
        (0x00, 0x99, 0xcc)
    } else if idx == 29 {
        (0x21, 0x21, 0x21)
    } else if idx == 30 {
        (0x09, 0x09, 0x09)
    } else if idx == 31 {
        (0x09, 0x09, 0x09)
    } else if idx == 32 {
        (0xff, 0xff, 0xff)
    } else if idx == 33 {
        (0x0f, 0xd7, 0xff)
    } else if idx == 34 {
        (0x69, 0xa2, 0xff)
    } else if idx == 35 {
        (0xd4, 0x80, 0xff)
    } else if idx == 36 {
        (0xff, 0x45, 0xf3)
    } else if idx == 37 {
        (0xff, 0x61, 0x8b)
    } else if idx == 38 {
        (0xff, 0x88, 0x33)
    } else if idx == 39 {
        (0xff, 0x9c, 0x12)
    } else if idx == 40 {
        (0xfa, 0xbc, 0x20)
    } else if idx == 41 {
        (0x9f, 0xe3, 0x0e)
    } else if idx == 42 {
        (0x2b, 0xf0, 0x35)
    } else if idx == 43 {
        (0x0c, 0xf0, 0xa4)
    } else if idx == 44 {
        (0x05, 0xfb, 0xff)
    } else if idx == 45 {
        (0x5e, 0x5e, 0x5e)
    } else if idx == 46 {
        (0x0d, 0x0d, 0x0d)
    } else if idx == 47 {
        (0x0d, 0x0d, 0x0d)
    } else if idx == 48 {
        (0xff, 0xff, 0xff)
    } else if idx == 49 {
        (0xa6, 0xfc, 0xff)
    } else if idx == 50 {
        (0xb3, 0xec, 0xff)
    } else if idx == 51 {
        (0xda, 0xab, 0xeb)
    } else if idx == 52 {
        (0xff, 0xa8, 0xf9)
    } else if idx == 53 {
        (0xff, 0xab, 0xb3)
    } else if idx == 54 {
        (0xff, 0xd2, 0xb0)
    } else if idx == 55 {
        (0xff, 0xef, 0xa6)
    } else if idx == 56 {
        (0xff, 0xf7, 0x9c)
    } else if idx == 57 {
        (0xd7, 0xe8, 0x95)
    } else if idx == 58 {
        (0xa6, 0xed, 0xaf)
    } else if idx == 59 {
        (0xa2, 0xf2, 0xda)
    } else if idx == 60 {
        (0x99, 0xff, 0xfc)
    } else if idx == 61 {
        (0xdd, 0xdd, 0xdd)
    } else if idx == 62 {
        (0x11, 0x11, 0x11)
    } else {
        (0x11, 0x11, 0x11)
    }
}

/// Looks `idx` up in the fixed hardware color table.
pub fn system_palette(idx: u8) -> (r: (u8, u8, u8))
    ensures
        r == spec_system_palette(idx),
{
    if idx == 0 {
        (0x80, 0x80, 0x80)
    } else if idx == 1 {
        (0x00, 0x3d, 0xa6)
    } else if idx == 2 {
        (0x00, 0x12, 0xb0)
    } else if idx == 3 {
        (0x44, 0x00, 0x96)
    } else if idx == 4 {
        (0xa1, 0x00, 0x5e)
    } else if idx == 5 {
        (0xc7, 0x00, 0x28)
    } else if idx == 6 {
        (0xba, 0x06, 0x00)
    } else if idx == 7 {
        (0x8c, 0x17, 0x00)
    } else if idx == 8 {
        (0x5c, 0x2f, 0x00)
    } else if idx == 9 {
        (0x10, 0x45, 0x00)
    } else if idx == 10 {
        (0x05, 0x4a, 0x00)
    } else if idx == 11 {
        (0x00, 0x47, 0x2e)
    } else if idx == 12 {
        (0x00, 0x41, 0x66)
    } else if idx == 13 {
        (0x00, 0x00, 0x00)
    } else if idx == 14 {
        (0x05, 0x05, 0x05)
    } else if idx == 15 {
        (0x05, 0x05, 0x05)
    } else if idx == 16 {
        (0xc7, 0xc7, 0xc7)
    } else if idx == 17 {
        (0x00, 0x77, 0xff)
    } else if idx == 18 {
        (0x21, 0x55, 0xff)
    } else if idx == 19 {
        (0x82, 0x37, 0xfa)
    } else if idx == 20 {
        (0xeb, 0x2f, 0xb5)
    } else if idx == 21 {
        (0xff, 0x29, 0x50)
    } else if idx == 22 {
        (0xff, 0x22, 0x00)
    } else if idx == 23 {
        (0xd6, 0x32, 0x00)
    } else if idx == 24 {
        (0xc4, 0x62, 0x00)
    } else if idx == 25 {
        (0x35, 0x80, 0x00)
    } else if idx == 26 {
        (0x05, 0x8f, 0x00)
    } else if idx == 27 {
        (0x00, 0x8a, 0x55)
    } else if idx == 28 {
        (0x00, 0x99, 0xcc)
    } else if idx == 29 {
        (0x21, 0x21, 0x21)
    } else if idx == 30 {
        (0x09, 0x09, 0x09)
    } else if idx == 31 {
        (0x09, 0x09, 0x09)
    } else if idx == 32 {
        (0xff, 0xff, 0xff)
    } else if idx == 33 {
        (0x0f, 0xd7, 0xff)
    } else if idx == 34 {
        (0x69, 0xa2, 0xff)
    } else if idx == 35 {
        (0xd4, 0x80, 0xff)
    } else if idx == 36 {
        (0xff, 0x45, 0xf3)
    } else if idx == 37 {
        (0xff, 0x61, 0x8b)
    } else if idx == 38 {
        (0xff, 0x88, 0x33)
    } else if idx == 39 {
        (0xff, 0x9c, 0x12)
    } else if idx == 40 {
        (0xfa, 0xbc, 0x20)
    } else if idx == 41 {
        (0x9f, 0xe3, 0x0e)
    } else if idx == 42 {
        (0x2b, 0xf0, 0x35)
    } else if idx == 43 {
        (0x0c, 0xf0, 0xa4)
    } else if idx == 44 {
        (0x05, 0xfb, 0xff)
    } else if idx == 45 {
        (0x5e, 0x5e, 0x5e)
    } else if idx == 46 {
        (0x0d, 0x0d, 0x0d)
    } else if idx == 47 {
        (0x0d, 0x0d, 0x0d)
    } else if idx == 48 {
        (0xff, 0xff, 0xff)
    } else if idx == 49 {
        (0xa6, 0xfc, 0xff)
    } else if idx == 50 {
        (0xb3, 0xec, 0xff)
    } else if idx == 51 {
        (0xda, 0xab, 0xeb)
    } else if idx == 52 {
        (0xff, 0xa8, 0xf9)
    } else if idx == 53 {
        (0xff, 0xab, 0xb3)
    } else if idx == 54 {
        (0xff, 0xd2, 0xb0)
    } else if idx == 55 {
        (0xff, 0xef, 0xa6)
    } else if idx == 56 {
        (0xff, 0xf7, 0x9c)
    } else if idx == 57 {
        (0xd7, 0xe8, 0x95)
    } else if idx == 58 {
        (0xa6, 0xed, 0xaf)
    } else if idx == 59 {
        (0xa2, 0xf2, 0xda)
    } else if idx == 60 {
        (0x99, 0xff, 0xfc)
    } else if idx == 61 {
        (0xdd, 0xdd, 0xdd)
    } else if idx == 62 {
        (0x11, 0x11, 0x11)
    } else {
        (0x11, 0x11, 0x11)
    }
}

} // verus!
