//! Render command types and data structures.
//!
//! Platform-agnostic render types; on the dual-core target they flow through
//! an SPSC queue from the scene core to the render core.
pub mod commands;
pub mod laws;

use vstd::prelude::*;

use crate::gpu::registers;
use crate::gpu::vertex::GpuVertex;

verus! {

/// Maximum vertices per mesh patch.
pub const MAX_PATCH_VERTICES: usize = 128;

/// Maximum indices per mesh patch (128 vertices x ~3 triangles each, rounded up).
pub const MAX_PATCH_INDICES: usize = 384;

/// Rendering flags for a mesh patch.
#[derive(Clone, Copy, Debug)]
pub struct RenderFlags {
    pub gouraud: bool,
    pub textured: bool,
    pub z_test: bool,
    pub z_write: bool,
    /// Enable color buffer writes. False = Z-only prepass.
    pub color_write: bool,
}

/// The RENDER_MODE value for a set of flags: the GOURAUD, Z_TEST, Z_WRITE and
/// COLOR_WRITE bits for the flags that are set, nothing else (`textured` is
/// not part of RENDER_MODE).
pub open spec fn render_flags_word(f: RenderFlags) -> u64 {
    (if f.gouraud { registers::RENDER_MODE_GOURAUD } else { 0 }) | (if f.z_test {
        registers::RENDER_MODE_Z_TEST
    } else {
        0
    }) | (if f.z_write { registers::RENDER_MODE_Z_WRITE } else { 0 }) | (if f.color_write {
        registers::RENDER_MODE_COLOR_WRITE
    } else {
        0
    })
}

impl RenderFlags {
    /// Convert to GPU RENDER_MODE register value.
    pub fn to_render_mode(&self) -> (mode: u64)
        ensures
            mode == render_flags_word(*self),
    {
        let g: u64 = if self.gouraud { registers::RENDER_MODE_GOURAUD } else { 0 };
        let zt: u64 = if self.z_test { registers::RENDER_MODE_Z_TEST } else { 0 };
        let zw: u64 = if self.z_write { registers::RENDER_MODE_Z_WRITE } else { 0 };
        let cw: u64 = if self.color_write { registers::RENDER_MODE_COLOR_WRITE } else { 0 };
        g | zt | zw | cw
    }

    /// Backward-compatible alias for `to_render_mode()`.
    pub fn to_tri_mode(&self) -> (mode: u64)
        ensures
            mode == render_flags_word(*self),
    {
        self.to_render_mode()
    }
}

/// Render command: the unit of work for GPU submission.
#[derive(Clone, Copy, Debug)]
pub enum RenderCommand {
    /// Submit a pre-packed screen-space triangle directly to the GPU.
    SubmitScreenTriangle(ScreenTriangleCommand),
    /// Wait for GPU vertical sync and swap framebuffers.
    WaitVsync,
    /// Clear the framebuffer to a solid color.
    ClearFramebuffer(ClearCommand),
    /// Set the rendering mode (RENDER_MODE register).
    SetRenderMode(RenderFlags),
    /// Set depth range clipping (Z_RANGE register).
    SetZRange {
        /// Minimum Z value (inclusive). Fragments with Z < min are discarded.
        z_min: u16,
        /// Maximum Z value (inclusive). Fragments with Z > max are discarded.
        z_max: u16,
    },
    /// Upload texture data to GPU memory (by texture ID).
    UploadTexture(UploadTextureCommand),
}

/// Command to submit a pre-packed triangle (3 GpuVertex).
#[derive(Clone, Copy, Debug)]
pub struct ScreenTriangleCommand {
    pub v0: GpuVertex,
    pub v1: GpuVertex,
    pub v2: GpuVertex,
    pub textured: bool,
}

/// Command to upload texture data to GPU memory.
#[derive(Clone, Copy, Debug)]
pub struct UploadTextureCommand {
    /// GPU SDRAM dword address (22-bit, byte address >> 3).
    pub gpu_dword_addr: u32,
    /// Index into a global texture data table.
    pub texture_id: u8,
}

/// Command to clear the framebuffer using hardware MEM_FILL.
#[derive(Clone, Copy, Debug)]
pub struct ClearCommand {
    /// Fill color (R, G, B, A). Converted to RGB565 for MEM_FILL.
    pub color: [u8; 4],
    /// Also clear the Z-buffer.
    pub clear_depth: bool,
    /// Z-buffer fill value (16-bit unsigned depth). Default: 0xFFFF (far plane).
    pub depth_value: u16,
}

} // verus!
