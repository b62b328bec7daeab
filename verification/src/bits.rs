//! Small facts about byte masks.
//!
//! The register protocol speaks in masked bytes; these lemmas are the few
//! bit-level facts the rest of the crate needs.

use vstd::prelude::*;

verus! {

/// Masking can only keep bits of the mask: the result never exceeds it.
pub proof fn lemma_u8_and_le(x: u8, m: u8)
    ensures
        x & m <= m,
{
    assert(x & m <= m) by (bit_vector);
}

/// A right shift never grows a 16-bit value.
pub proof fn lemma_u16_shr_le(x: u16, n: u16)
    ensures
        x >> n <= x,
{
    assert(x >> n <= x) by (bit_vector);
}

/// The sweep divider field, bits 4 to 6, is at most 7.
pub proof fn lemma_u8_sweep_period(x: u8)
    ensures
        (x & 0x70) >> 4 <= 7,
{
    assert((x & 0x70) >> 4 <= 7) by (bit_vector);
}

/// Clearing bit 7 makes it read as 0.
pub proof fn lemma_u8_clear_top(x: u8)
    ensures
        (x & 0x7F) & 0x80 == 0,
{
    assert((x & 0x7F) & 0x80 == 0) by (bit_vector);
}

/// Masking VBlank and the sprite-0 hit off makes both read as 0 and
/// keeps the rest.
pub proof fn lemma_u8_clear_status(x: u8)
    ensures
        (x & 0x3F) & 0xC0 == 0,
        (x & 0x3F) & 0x80 == 0,
        (x & 0x3F) & 0x40 == 0,
{
    assert((x & 0x3F) & 0xC0 == 0 && (x & 0x3F) & 0x80 == 0 && (x & 0x3F) & 0x40 == 0)
        by (bit_vector);
}

/// Setting one status bit makes it read back and leaves the other alone.
pub proof fn lemma_u8_set_status(x: u8)
    ensures
        (x | 0x80) & 0x80 == 0x80,
        (x | 0x80) & 0x40 == x & 0x40,
        (x | 0x40) & 0x40 == 0x40,
        (x | 0x40) & 0x80 == x & 0x80,
{
    assert((x | 0x80) & 0x80 == 0x80 && (x | 0x80) & 0x40 == x & 0x40 && (x | 0x40) & 0x40 == 0x40
        && (x | 0x40) & 0x80 == x & 0x80) by (bit_vector);
}

/// Setting bits already set changes nothing.
pub proof fn lemma_u8_or_idem(x: u8, m: u8)
    ensures
        (x | m) | m == x | m,
{
    assert((x | m) | m == x | m) by (bit_vector);
}

} // verus!
