//! GPU register addresses, bit-field positions and field encodings.
//!
//! The register map is byte-addressed MMIO on the GPU side; the constants
//! here are the 7-bit SPI register indices (byte_offset / 8).
use vstd::prelude::*;

verus! {

// --- Vertex State (0x00–0x0F) ---

/// Vertex color register (MMIO 0x000).
pub const COLOR: u8 = 0x00;

/// Packed UV coordinates for texture units 0 and 1 (MMIO 0x008).
pub const UV0_UV1: u8 = 0x01;

/// Barycentric interpolation area normalization (MMIO 0x028).
pub const AREA_SETUP: u8 = 0x05;

/// Vertex position, no triangle draw (MMIO 0x030).
pub const VERTEX_NOKICK: u8 = 0x06;

/// Vertex position, draw triangle (v0,v1,v2) (MMIO 0x038).
pub const VERTEX_KICK_012: u8 = 0x07;

/// Vertex position, draw triangle (v0,v2,v1) (MMIO 0x040).
pub const VERTEX_KICK_021: u8 = 0x08;

/// Vertex position, rectangle emit (MMIO 0x048).
pub const VERTEX_KICK_RECT: u8 = 0x09;

// --- Texture Configuration (0x10–0x11) ---

/// Texture unit 0 configuration (unified 64-bit register) (MMIO 0x080).
pub const TEX0_CFG: u8 = 0x10;

/// Texture unit 1 configuration (unified 64-bit register) (MMIO 0x088).
pub const TEX1_CFG: u8 = 0x11;

// --- Color Combiner (0x18–0x19) ---

/// Color combiner mode (MMIO 0x0C0).
pub const CC_MODE: u8 = 0x18;

/// Constant colors 0 + 1 packed (MMIO 0x0C8).
pub const CONST_COLOR: u8 = 0x19;

// --- Rendering Configuration (0x30–0x32) ---

/// Unified rendering state register (MMIO 0x180).
pub const RENDER_MODE: u8 = 0x30;

/// Depth range clipping min/max (MMIO 0x188).
pub const Z_RANGE: u8 = 0x31;

/// 8x8 stipple pattern (MMIO 0x190).
pub const STIPPLE_PATTERN: u8 = 0x32;

// --- Framebuffer & Z-Buffer (0x40–0x44) ---

/// Render target configuration (MMIO 0x200).
pub const FB_CONFIG: u8 = 0x40;

/// Display scanout framebuffer (MMIO 0x208).
pub const FB_DISPLAY: u8 = 0x41;

/// Scissor rectangle (MMIO 0x218).
pub const FB_CONTROL: u8 = 0x43;

/// Hardware memory fill (MMIO 0x220).
pub const MEM_FILL: u8 = 0x44;

// --- Performance (0x50) ---

/// Performance timestamp marker (MMIO 0x280).
pub const PERF_TIMESTAMP: u8 = 0x50;

// --- Status & Control (0x70–0x7F) ---

/// Memory access dword address pointer (MMIO 0x380).
pub const MEM_ADDR: u8 = 0x70;

/// Memory data register, auto-increments address (MMIO 0x388).
pub const MEM_DATA: u8 = 0x71;

/// GPU identification register (MMIO 0x3F8).
pub const ID: u8 = 0x7F;

// --- FB_CONFIG field positions: [15:0] COLOR_BASE, [31:16] Z_BASE,
// [35:32] WIDTH_LOG2, [39:36] HEIGHT_LOG2 ---

/// Z_BASE field shift in FB_CONFIG (bits [31:16]).
pub const FB_CONFIG_Z_BASE_SHIFT: u32 = 16;

/// WIDTH_LOG2 field shift in FB_CONFIG (bits [35:32]).
pub const FB_CONFIG_WIDTH_LOG2_SHIFT: u32 = 32;

/// HEIGHT_LOG2 field shift in FB_CONFIG (bits [39:36]).
pub const FB_CONFIG_HEIGHT_LOG2_SHIFT: u32 = 36;

// --- FB_DISPLAY field positions: [0] COLOR_GRADE_ENABLE, [1] LINE_DOUBLE,
// [31:16] LUT_ADDR, [47:32] FB_ADDR, [51:48] WIDTH_LOG2 ---

/// FB_ADDR field shift in FB_DISPLAY.
pub const FB_DISPLAY_FB_ADDR_SHIFT: u32 = 32;

/// WIDTH_LOG2 field shift in FB_DISPLAY.
pub const FB_DISPLAY_WIDTH_LOG2_SHIFT: u32 = 48;

// --- MEM_FILL field positions: [23:0] BASE, [39:24] FILL_VALUE,
// [59:40] FILL_COUNT ---

/// FILL_VALUE field shift in MEM_FILL.
pub const MEM_FILL_VALUE_SHIFT: u32 = 24;

/// FILL_COUNT field shift in MEM_FILL.
pub const MEM_FILL_COUNT_SHIFT: u32 = 40;

// --- TEXn_CFG field positions: [0] ENABLE, [11:8] WIDTH_LOG2,
// [15:12] HEIGHT_LOG2, [47:32] BASE_ADDR (512-byte units) ---

/// WIDTH_LOG2 field shift in TEXn_CFG.
pub const TEX_CFG_WIDTH_LOG2_SHIFT: u32 = 8;

/// HEIGHT_LOG2 field shift in TEXn_CFG.
pub const TEX_CFG_HEIGHT_LOG2_SHIFT: u32 = 12;

/// BASE_ADDR field shift in TEXn_CFG.
pub const TEX_CFG_BASE_ADDR_SHIFT: u32 = 32;

// --- RENDER_MODE bit flags ---

/// Gouraud shading enable (bit 0).
pub const RENDER_MODE_GOURAUD: u64 = 0x1;

/// Depth testing enable (bit 2).
pub const RENDER_MODE_Z_TEST: u64 = 0x4;

/// Depth write enable (bit 3).
pub const RENDER_MODE_Z_WRITE: u64 = 0x8;

/// Color buffer write enable (bit 4).
pub const RENDER_MODE_COLOR_WRITE: u64 = 0x10;

// --- Memory map ---

/// Framebuffer A base address.
pub const FB_A_ADDR: u32 = 0x000000;

/// Framebuffer B base address.
pub const FB_B_ADDR: u32 = 0x080000;

/// Z-buffer base address.
pub const ZBUFFER_ADDR: u32 = 0x100000;

/// Texture memory start address.
pub const TEXTURE_BASE_ADDR: u32 = 0x180000;

/// Framebuffer A base in 512-byte units (`FB_A_ADDR >> 9`).
pub const FB_A_BASE_512: u16 = 0x0000;

/// Framebuffer B base in 512-byte units (`FB_B_ADDR >> 9`).
pub const FB_B_BASE_512: u16 = 0x0400;

/// Z-buffer base in 512-byte units (`ZBUFFER_ADDR >> 9`).
pub const ZBUFFER_BASE_512: u16 = 0x0800;

// --- Device identification ---

/// Expected device ID for GPU v2.0.
pub const EXPECTED_DEVICE_ID: u16 = 0x6702;

// --- Display dimensions ---

/// Display width in pixels.
pub const SCREEN_WIDTH: u16 = 640;

/// Display height in pixels.
pub const SCREEN_HEIGHT: u16 = 480;

/// Depth comparison function (RENDER_MODE bits [15:13]).
/// The declaration order is the 3-bit encoding.
#[derive(Clone, Copy, Debug, PartialEq, Eq, Structural)]
pub enum ZCompare {
    Less,
    Lequal,
    Equal,
    Gequal,
    Greater,
    Notequal,
    Always,
    Never,
}

/// The 3-bit encoding of a depth comparison function.
pub open spec fn z_compare_code(z: ZCompare) -> u64 {
    match z {
        ZCompare::Less => 0,
        ZCompare::Lequal => 1,
        ZCompare::Equal => 2,
        ZCompare::Gequal => 3,
        ZCompare::Greater => 4,
        ZCompare::Notequal => 5,
        ZCompare::Always => 6,
        ZCompare::Never => 7,
    }
}

impl ZCompare {
    /// The 3-bit field value of this comparison function.
    pub fn code(self) -> (c: u64)
        ensures
            c == z_compare_code(self),
    {
        match self {
            ZCompare::Less => 0,
            ZCompare::Lequal => 1,
            ZCompare::Equal => 2,
            ZCompare::Gequal => 3,
            ZCompare::Greater => 4,
            ZCompare::Notequal => 5,
            ZCompare::Always => 6,
            ZCompare::Never => 7,
        }
    }
}

/// Backface culling mode (RENDER_MODE bits [6:5]).
/// The declaration order is the 2-bit encoding.
#[derive(Clone, Copy, Debug, PartialEq, Eq, Structural)]
pub enum CullMode {
    CullNone,
    CullCw,
    CullCcw,
}

/// The 2-bit encoding of a culling mode.
pub open spec fn cull_mode_code(c: CullMode) -> u64 {
    match c {
        CullMode::CullNone => 0,
        CullMode::CullCw => 1,
        CullMode::CullCcw => 2,
    }
}

impl CullMode {
    /// The 2-bit field value of this culling mode.
    pub fn code(self) -> (c: u64)
        ensures
            c == cull_mode_code(self),
    {
        match self {
            CullMode::CullNone => 0,
            CullMode::CullCw => 1,
            CullMode::CullCcw => 2,
        }
    }
}

/// Alpha test comparison function (RENDER_MODE bits [18:17]).
/// The declaration order is the 2-bit encoding.
#[derive(Clone, Copy, Debug, PartialEq, Eq, Structural)]
pub enum AlphaTestFunc {
    AtAlways,
    AtLess,
    AtGequal,
    AtNotequal,
}

/// The 2-bit encoding of an alpha test function.
pub open spec fn alpha_test_code(a: AlphaTestFunc) -> u64 {
    match a {
        AlphaTestFunc::AtAlways => 0,
        AlphaTestFunc::AtLess => 1,
        AlphaTestFunc::AtGequal => 2,
        AlphaTestFunc::AtNotequal => 3,
    }
}

impl AlphaTestFunc {
    /// The 2-bit field value of this alpha test function.
    pub fn code(self) -> (c: u64)
        ensures
            c == alpha_test_code(self),
    {
        match self {
            AlphaTestFunc::AtAlways => 0,
            AlphaTestFunc::AtLess => 1,
            AlphaTestFunc::AtGequal => 2,
            AlphaTestFunc::AtNotequal => 3,
        }
    }
}

} // verus!
