//! Demo definitions.
use vstd::prelude::*;

use crate::gpu::vertex::{pack_color, pack_position_fixed, pack_uv_fixed, position_word, uv_word, GpuVertex};
use crate::math::fixed::abgr_word;

verus! {

/// Active demo selection.
#[derive(Clone, Copy, Debug, Default, PartialEq, Eq, Structural)]
pub enum Demo {
    #[default]
    GouraudTriangle,
    TexturedTriangle,
    SpinningTeapot,
}

/// The demo that a selection index names, if any.
pub open spec fn demo_for_index(index: u8) -> Option<Demo> {
    if index == 0 {
        Some(Demo::GouraudTriangle)
    } else if index == 1 {
        Some(Demo::TexturedTriangle)
    } else if index == 2 {
        Some(Demo::SpinningTeapot)
    } else {
        None
    }
}

impl Demo {
    /// Convert from a `u8` index (as used by `InputEvent::SelectDemo`).
    pub fn from_index(index: u8) -> (d: Option<Self>)
        ensures
            d == demo_for_index(index),
    {
        match index {
            0 => Some(Demo::GouraudTriangle),
            1 => Some(Demo::TexturedTriangle),
            2 => Some(Demo::SpinningTeapot),
            _ => None,
        }
    }
}

/// Depth code (25-bit Z) of depth 0.5, halfway between the near and far planes.
pub const HALF_DEPTH_Z25: u32 = 0x100_0000;

/// Q1.15 code of 0.5.
pub const Q1_15_HALF: u16 = 0x4000;

/// Q1.15 code of 1.0, which saturates at the largest positive value.
pub const Q1_15_ONE: u16 = 0x7FFF;

/// Q12.4 code of a whole pixel coordinate.
pub open spec fn q12_4(pixels: int) -> int {
    pixels * 16
}

/// A demo vertex: opaque colour, screen position, depth 0.5, and the given UV word.
pub open spec fn demo_vertex(r: u8, g: u8, b: u8, x: int, y: int, uv: int) -> GpuVertex {
    GpuVertex {
        color_packed: abgr_word(r, g, b, 255) as u64,
        uv_packed: uv as u64,
        position_packed: position_word(q12_4(x) as u16, q12_4(y) as u16, HALF_DEPTH_Z25) as u64,
    }
}

/// Gouraud-shaded triangle demo: red at (320, 80), green at (120, 400), blue
/// at (520, 400), all at depth 0.5, untextured.
pub fn gouraud_triangle_vertices() -> (v: [GpuVertex; 3])
    ensures
        v[0] == demo_vertex(255, 0, 0, 320, 80, 0),
        v[1] == demo_vertex(0, 255, 0, 120, 400, 0),
        v[2] == demo_vertex(0, 0, 255, 520, 400, 0),
{
    [
        GpuVertex {
            color_packed: pack_color(255, 0, 0, 255),
            uv_packed: 0,
            position_packed: pack_position_fixed(320 * 16, 80 * 16, HALF_DEPTH_Z25),
        },
        GpuVertex {
            color_packed: pack_color(0, 255, 0, 255),
            uv_packed: 0,
            position_packed: pack_position_fixed(120 * 16, 400 * 16, HALF_DEPTH_Z25),
        },
        GpuVertex {
            color_packed: pack_color(0, 0, 255, 255),
            uv_packed: 0,
            position_packed: pack_position_fixed(520 * 16, 400 * 16, HALF_DEPTH_Z25),
        },
    ]
}

/// Textured triangle demo: white vertices at the same positions as the
/// Gouraud demo with UV (0.5, 0.0), (0.0, 1.0) and (1.0, 1.0) and W = 1.
pub fn textured_triangle_vertices() -> (v: [GpuVertex; 3])
    ensures
        v[0] == demo_vertex(255, 255, 255, 320, 80, uv_word(Q1_15_HALF, 0, Q1_15_ONE)),
        v[1] == demo_vertex(255, 255, 255, 120, 400, uv_word(0, Q1_15_ONE, Q1_15_ONE)),
        v[2] == demo_vertex(255, 255, 255, 520, 400, uv_word(Q1_15_ONE, Q1_15_ONE, Q1_15_ONE)),
{
    [
        GpuVertex {
            color_packed: pack_color(255, 255, 255, 255),
            uv_packed: pack_uv_fixed(Q1_15_HALF, 0, Q1_15_ONE),
            position_packed: pack_position_fixed(320 * 16, 80 * 16, HALF_DEPTH_Z25),
        },
        GpuVertex {
            color_packed: pack_color(255, 255, 255, 255),
            uv_packed: pack_uv_fixed(0, Q1_15_ONE, Q1_15_ONE),
            position_packed: pack_position_fixed(120 * 16, 400 * 16, HALF_DEPTH_Z25),
        },
        GpuVertex {
            color_packed: pack_color(255, 255, 255, 255),
            uv_packed: pack_uv_fixed(Q1_15_ONE, Q1_15_ONE, Q1_15_ONE),
            position_packed: pack_position_fixed(520 * 16, 400 * 16, HALF_DEPTH_Z25),
        },
    ]
}

/// Teapot base surface color (light gray, opaque).
pub const TEAPOT_COLOR: [u8; 4] = [200, 200, 210, 255];

} // verus!
