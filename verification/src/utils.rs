use vstd::prelude::*;

verus! {

/// Bit `n` (0-indexed from the least significant end) of `byte`, as 0 or 1.
pub open spec fn spec_get_bit(byte: u8, n: u8) -> u8 {
    (byte >> n) & 1
}

/// The most significant bit of `value`, as 0 or 1.
pub open spec fn spec_msb(value: u8) -> u8 {
    (value & 0x80) >> 7
}

/// The 16-bit value with high byte `hi` and low byte `lo`.
pub open spec fn spec_join_hi_low(lo: u8, hi: u8) -> u16 {
    ((hi as u16) << 8) | (lo as u16)
}

/// The low byte of `addr`.
pub open spec fn spec_lo(addr: u16) -> u8 {
    (addr & 0xff) as u8
}

/// The high byte of `addr`.
pub open spec fn spec_hi(addr: u16) -> u8 {
    ((addr >> 8) & 0xff) as u8
}

/// `byte` with bit `n` forced to 1 (when `b` is true) or to 0.
pub open spec fn spec_set_bit(byte: u8, n: u8, b: bool) -> u8 {
    if b {
        byte | (1u8 << n)
    } else {
        byte & !(1u8 << n)
    }
}

/// Joining a value's own low and high bytes gives the value back, and the
/// join is plain positional arithmetic.
pub proof fn lemma_join_split(addr: u16)
    by (bit_vector)
    ensures
        spec_join_hi_low(spec_lo(addr), spec_hi(addr)) == addr,
        spec_join_hi_low(spec_lo(addr), spec_hi(addr)) == spec_hi(addr) as int * 256 + spec_lo(
            addr,
        ) as int,
{
}

/// Mask bounds used wherever a masked value indexes a fixed-size store.
pub proof fn lemma_mask_bounds()
    by (bit_vector)
    ensures
        forall|x: u16| #[trigger] (x & 0x7ff) < 0x800,
        forall|x: u16| #[trigger] (x & 0xf) < 0x10,
        forall|x: u16| #[trigger] (x & 0xff) < 0x100,
        forall|x: u16| #[trigger] (x & 0x3fff) < 0x4000,
        forall|x: u16| #[trigger] (x >> 8) < 0x100,
{
}

/// The lowest bit of a byte is 0 or 1: the bound needed wherever a masked
/// byte feeds a single-bit flag setter.
pub proof fn lemma_u8_mask_bounds()
    by (bit_vector)
    ensures
        forall|x: u8| #[trigger] (x & 1) <= 1,
{
}

pub fn msb(value: u8) -> (r: u8)
    ensures
        r == spec_msb(value),
        r == if value >= 0x80 {
            1u8
        } else {
            0u8
        },
{
    proof {
        assert((value & 0x80) >> 7 == if value >= 0x80 {
            1u8
        } else {
            0u8
        }) by (bit_vector);
    }
    (value & 0x80) >> 7
}

pub fn join_hi_low(lo: u8, hi: u8) -> (r: u16)
    ensures
        r == spec_join_hi_low(lo, hi),
        r == hi as int * 256 + lo as int,
{
    proof {
        assert(((hi as u16) << 8) | (lo as u16) == hi as int * 256 + lo as int) by (bit_vector);
    }
    ((hi as u16) << 8) | (lo as u16)
}

/// Breaks `addr` into its (low, high) bytes.
pub fn as_lo_hi(addr: u16) -> (r: (u8, u8))
    ensures
        r.0 == spec_lo(addr),
        r.1 == spec_hi(addr),
        spec_join_hi_low(r.0, r.1) == addr,
{
    proof {
        lemma_mask_bounds();
        lemma_join_split(addr);
    }
    ((addr & 0xff) as u8, ((addr >> 8) & 0xff) as u8)
}

pub fn get_bit(byte: &u8, n: u8) -> (r: u8)
    requires
        n < 8,
    ensures
        r == spec_get_bit(*byte, n),
        r <= 1,
{
    proof {
        let b = *byte;
        assert((b >> n) & 0x01 <= 1) by (bit_vector);
    }
    (*byte >> n) & 0x01
}

} // verus!
