//! Colour packing at the GPU register boundary.
use vstd::prelude::*;

verus! {

/// The ABGR word that `rgba_to_packed` produces: red in bits [7:0], green in
/// [15:8], blue in [23:16] and alpha in [31:24].
pub open spec fn abgr_word(r: u8, g: u8, b: u8, a: u8) -> int {
    r + g * 0x100 + b * 0x1_0000 + a * 0x100_0000
}

/// Pack RGBA bytes into a u32 (ABGR format matching GPU COLOR register).
pub fn rgba_to_packed(r: u8, g: u8, b: u8, a: u8) -> (packed: u32)
    ensures
        packed == abgr_word(r, g, b, a),
{
    assert(((a as u32) << 24) | ((b as u32) << 16) | ((g as u32) << 8) | (r as u32)
        == r + g * 0x100u32 + b * 0x1_0000u32 + a * 0x100_0000u32) by (bit_vector);
    ((a as u32) << 24) | ((b as u32) << 16) | ((g as u32) << 8) | (r as u32)
}

} // verus!
