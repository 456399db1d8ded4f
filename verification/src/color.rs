//! Packed 24-bit RGB colors.
//!
//! A color travels through the cell grid as one machine word: red in bits
//! 16..24, green in bits 8..16, blue in bits 0..8.  The diff renderer
//! decomposes such a word back into its three 8-bit channels before emitting
//! a terminal command.

use vstd::prelude::*;

verus! {

/// The packed word for the channels `(r, g, b)`.
pub open spec fn spec_pack_rgb(r: u8, g: u8, b: u8) -> u64 {
    ((r as u64) << 16) | ((g as u64) << 8) | (b as u64)
}

/// The red channel of a packed color word.
pub open spec fn spec_red(v: u64) -> u8 {
    ((v >> 16) & 0xFF) as u8
}

/// The green channel of a packed color word.
pub open spec fn spec_green(v: u64) -> u8 {
    ((v >> 8) & 0xFF) as u8
}

/// The blue channel of a packed color word.
pub open spec fn spec_blue(v: u64) -> u8 {
    (v & 0xFF) as u8
}

/// Packs three 8-bit channels into one 24-bit color word.
pub fn pack_rgb(r: u8, g: u8, b: u8) -> (v: u64)
    ensures
        v == spec_pack_rgb(r, g, b),
        v <= 0xFFFFFF,
{
    proof {
        assert(((r as u64) << 16) | ((g as u64) << 8) | (b as u64) <= 0xFFFFFF) by (bit_vector);
    }
    ((r as u64) << 16) | ((g as u64) << 8) | (b as u64)
}

/// Extracts the red channel of a packed color word.
pub fn red_channel(v: u64) -> (r: u8)
    ensures
        r == spec_red(v),
{
    proof {
        assert((v >> 16) & 0xFF < 256) by (bit_vector);
    }
    ((v >> 16) & 0xFF) as u8
}

/// Extracts the green channel of a packed color word.
pub fn green_channel(v: u64) -> (g: u8)
    ensures
        g == spec_green(v),
{
    proof {
        assert((v >> 8) & 0xFF < 256) by (bit_vector);
    }
    ((v >> 8) & 0xFF) as u8
}

/// Extracts the blue channel of a packed color word.
pub fn blue_channel(v: u64) -> (b: u8)
    ensures
        b == spec_blue(v),
{
    proof {
        assert(v & 0xFF < 256) by (bit_vector);
    }
    (v & 0xFF) as u8
}

/// Packing three 8-bit channels into a 24-bit word and unpacking the word
/// recovers the channels exactly.
pub proof fn lemma_rgb_round_trip(r: u8, g: u8, b: u8)
    ensures
        spec_red(spec_pack_rgb(r, g, b)) == r,
        spec_green(spec_pack_rgb(r, g, b)) == g,
        spec_blue(spec_pack_rgb(r, g, b)) == b,
{
    assert((((((r as u64) << 16) | ((g as u64) << 8) | (b as u64)) >> 16) & 0xFF) as u8 == r)
        by (bit_vector);
    assert((((((r as u64) << 16) | ((g as u64) << 8) | (b as u64)) >> 8) & 0xFF) as u8 == g)
        by (bit_vector);
    assert(((((r as u64) << 16) | ((g as u64) << 8) | (b as u64)) & 0xFF) as u8 == b)
        by (bit_vector);
}

} // verus!
