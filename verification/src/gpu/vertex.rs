//! GpuVertex: pre-packed vertex data for GPU register writes, and the integer
//! packing of colour, texture coordinates and position into register words.
use vstd::prelude::*;

use crate::math::fixed::abgr_word;

verus! {

/// A vertex packed into GPU register format, ready for submission.
#[derive(Clone, Copy, Debug)]
pub struct GpuVertex {
    /// Packed COLOR register value (0x00): \[7:0\]=R, \[15:8\]=G, \[23:16\]=B, \[31:24\]=A.
    pub color_packed: u64,
    /// Packed UV0_UV1 register value (0x01): \[15:0\]=U*Q, \[31:16\]=V*Q,
    /// \[47:32\]=Q=1/W (Q1.15 signed fixed-point).
    pub uv_packed: u64,
    /// Packed vertex position for VERTEX_NOKICK (0x06) / VERTEX_KICK_012 (0x07):
    /// \[15:0\]=X (Q12.4), \[31:16\]=Y (Q12.4), \[63:32\]=Z (25-bit unsigned).
    pub position_packed: u64,
}

/// Pack RGBA color into GPU COLOR register format.
pub fn pack_color(r: u8, g: u8, b: u8, a: u8) -> (c: u64)
    ensures
        c == abgr_word(r, g, b, a),
{
    assert(((a as u64) << 24u64) | ((b as u64) << 16u64) | ((g as u64) << 8u64) | (r as u64) == r
        + g * 0x100u64 + b * 0x1_0000u64 + a * 0x100_0000u64) by (bit_vector);
    ((a as u64) << 24) | ((b as u64) << 16) | ((g as u64) << 8) | (r as u64)
}

/// The UV0 word for fixed-point U*Q, V*Q and Q: U*Q in \[15:0\], V*Q in
/// \[31:16\], Q in \[47:32\].
pub open spec fn uv_word(uq: u16, vq: u16, q: u16) -> int {
    uq + vq * 0x1_0000 + q * 0x1_0000_0000
}

/// Pack already-converted Q1.15 texture coordinates into the UV0 register
/// format.
pub fn pack_uv_fixed(uq: u16, vq: u16, q: u16) -> (w: u64)
    ensures
        w == uv_word(uq, vq, q),
{
    assert((((q as u64) & 0xFFFF) << 32u64) | (((vq as u64) & 0xFFFF) << 16u64) | ((uq as u64)
        & 0xFFFF) == uq + vq * 0x1_0000u64 + q * 0x1_0000_0000u64) by (bit_vector);
    (((q as u64) & 0xFFFF) << 32) | (((vq as u64) & 0xFFFF) << 16) | ((uq as u64) & 0xFFFF)
}

/// The VERTEX word for a Q12.4 X and Y and a depth code Z: X in \[15:0\],
/// Y in \[31:16\], Z from bit 32.
pub open spec fn position_word(x: u16, y: u16, z: u32) -> int {
    x + y * 0x1_0000 + z * 0x1_0000_0000
}

/// Pack an already-converted Q12.4 screen position and depth code into the
/// VERTEX register format.
pub fn pack_position_fixed(x: u16, y: u16, z: u32) -> (w: u64)
    ensures
        w == position_word(x, y, z),
{
    assert(((z as u64) << 32u64) | (((y as u64) & 0xFFFF) << 16u64) | ((x as u64) & 0xFFFF) == x
        + y * 0x1_0000u64 + z * 0x1_0000_0000u64) by (bit_vector);
    ((z as u64) << 32) | (((y as u64) & 0xFFFF) << 16) | ((x as u64) & 0xFFFF)
}

} // verus!
