//! Bit fields inside 64-bit little-endian words.

use vstd::prelude::*;

verus! {

/// The value with the low `width` bits set.
pub open spec fn low_mask(width: u64) -> u64 {
    if width >= 64 {
        0xffff_ffff_ffff_ffffu64
    } else {
        ((1u64 << width) - 1) as u64
    }
}

/// The `width` bits of `w` that start at bit `lo`.
pub open spec fn field(w: u64, lo: u64, width: u64) -> u64 {
    (w >> lo) & low_mask(width)
}

/// Reads the `width` bits of `w` that start at bit `lo`.
pub fn get_field(w: u64, lo: u64, width: u64) -> (r: u64)
    requires
        0 < width,
        lo + width <= 64,
    ensures
        r == field(w, lo, width),
        r <= low_mask(width),
{
    let mask: u64 = if width == 64 {
        0xffff_ffff_ffff_ffff
    } else {
        assert(1u64 << width >= 1) by (bit_vector)
            requires
                width < 64,
        ;
        (1u64 << width) - 1
    };
    assert(mask == low_mask(width));
    let r = (w >> lo) & mask;
    assert((w >> lo) & mask <= mask) by (bit_vector);
    r
}

/// The masks of the field widths used by the descriptors.
pub proof fn lemma_low_masks()
    ensures
        low_mask(1) == 1,
        low_mask(2) == 3,
        low_mask(3) == 7,
        low_mask(4) == 0xf,
        low_mask(5) == 0x1f,
        low_mask(6) == 0x3f,
        low_mask(7) == 0x7f,
        low_mask(8) == 0xff,
        low_mask(16) == 0xffff,
        low_mask(17) == 0x1_ffff,
        low_mask(20) == 0xf_ffff,
        low_mask(24) == 0xff_ffff,
        low_mask(32) == 0xffff_ffff,
        low_mask(48) == 0xffff_ffff_ffff,
        low_mask(64) == 0xffff_ffff_ffff_ffff,
{
    assert(((1u64 << 1u64) - 1) as u64 == 1) by (bit_vector);
    assert(((1u64 << 2u64) - 1) as u64 == 3) by (bit_vector);
    assert(((1u64 << 3u64) - 1) as u64 == 7) by (bit_vector);
    assert(((1u64 << 4u64) - 1) as u64 == 0xf) by (bit_vector);
    assert(((1u64 << 5u64) - 1) as u64 == 0x1f) by (bit_vector);
    assert(((1u64 << 6u64) - 1) as u64 == 0x3f) by (bit_vector);
    assert(((1u64 << 7u64) - 1) as u64 == 0x7f) by (bit_vector);
    assert(((1u64 << 8u64) - 1) as u64 == 0xff) by (bit_vector);
    assert(((1u64 << 16u64) - 1) as u64 == 0xffff) by (bit_vector);
    assert(((1u64 << 17u64) - 1) as u64 == 0x1_ffff) by (bit_vector);
    assert(((1u64 << 20u64) - 1) as u64 == 0xf_ffff) by (bit_vector);
    assert(((1u64 << 24u64) - 1) as u64 == 0xff_ffff) by (bit_vector);
    assert(((1u64 << 32u64) - 1) as u64 == 0xffff_ffff) by (bit_vector);
    assert(((1u64 << 48u64) - 1) as u64 == 0xffff_ffff_ffff) by (bit_vector);
}

/// Fields of a word as arithmetic on it: the two 32-bit halves, and the
/// narrower fields that the send descriptors use.
pub proof fn lemma_fields_arith(w: u64)
    ensures
        field(w, 0, 32) == w % 0x1_0000_0000,
        field(w, 32, 32) == w / 0x1_0000_0000,
        field(w, 0, 24) == w % 0x100_0000,
        field(w, 0, 3) == w % 8,
        field(w, 8, 5) == (w / 0x100) % 32,
        field(w, 16, 4) == (w / 0x1_0000) % 16,
        field(w, 24, 3) == (w / 0x100_0000) % 8,
{
    lemma_low_masks();
    assert({
        &&& (w >> 0u64) & 0xffff_ffff == w % 0x1_0000_0000
        &&& (w >> 32u64) & 0xffff_ffff == w / 0x1_0000_0000
        &&& (w >> 0u64) & 0xff_ffff == w % 0x100_0000
        &&& (w >> 0u64) & 7 == w % 8
        &&& (w >> 8u64) & 0x1f == (w / 0x100) % 32
        &&& (w >> 16u64) & 0xf == (w / 0x1_0000) % 16
        &&& (w >> 24u64) & 7 == (w / 0x100_0000) % 8
    }) by (bit_vector);
}

} // verus!
