//! Platform-agnostic GPU driver, generic over `SpiTransport`.
//!
//! Every register access goes through the transport, whose contract keeps
//! the list of operations it has carried out (`SpiTransport::history`). The
//! driver's `log` is that history, so each method's contract says exactly
//! which register accesses reached the transport, in which order, and what
//! the driver did with each answer.
use vstd::prelude::*;

use crate::gpu::registers::{
    self, alpha_test_code, cull_mode_code, z_compare_code, AlphaTestFunc, CullMode, ZCompare,
};
use crate::gpu::vertex::GpuVertex;
pub use crate::hal::BusOp;
use crate::hal::{FlowControl, SpiTransport};

verus! {

/// Error type for GPU driver operations, generic over transport errors.
#[derive(Debug)]
pub enum GpuError<E> {
    /// GPU not detected: ID register returned unexpected value.
    GpuNotDetected,
    /// SPI transport error.
    Transport(E),
}

/// Color combiner input source (4-bit, used for A/B/D slots and alpha A/B/C/D).
/// The declaration order is the 4-bit encoding.
#[derive(Clone, Copy, Debug, PartialEq, Eq, Structural)]
pub enum CcSource {
    /// Previous cycle output.
    Combined,
    /// Texture unit 0 output.
    TexColor0,
    /// Texture unit 1 output.
    TexColor1,
    /// Vertex color 0 (diffuse).
    Shade0,
    /// Constant color 0.
    Const0,
    /// Constant color 1 / fog color.
    Const1,
    /// Constant 1.0.
    One,
    /// Constant 0.0.
    Zero,
    /// Vertex color 1 (specular).
    Shade1,
}

/// The 4-bit encoding of a combiner source.
pub open spec fn cc_source_code(s: CcSource) -> u64 {
    match s {
        CcSource::Combined => 0x0,
        CcSource::TexColor0 => 0x1,
        CcSource::TexColor1 => 0x2,
        CcSource::Shade0 => 0x3,
        CcSource::Const0 => 0x4,
        CcSource::Const1 => 0x5,
        CcSource::One => 0x6,
        CcSource::Zero => 0x7,
        CcSource::Shade1 => 0x8,
    }
}

impl CcSource {
    /// The 4-bit field value of this source.
    pub fn code(self) -> (c: u64)
        ensures
            c == cc_source_code(self),
    {
        match self {
            CcSource::Combined => 0x0,
            CcSource::TexColor0 => 0x1,
            CcSource::TexColor1 => 0x2,
            CcSource::Shade0 => 0x3,
            CcSource::Const0 => 0x4,
            CcSource::Const1 => 0x5,
            CcSource::One => 0x6,
            CcSource::Zero => 0x7,
            CcSource::Shade1 => 0x8,
        }
    }
}

/// Color combiner RGB C-slot source (4-bit, extended set for blend factor).
/// The declaration order is the 4-bit encoding.
#[derive(Clone, Copy, Debug, PartialEq, Eq, Structural)]
pub enum CcRgbCSource {
    /// Previous cycle output.
    Combined,
    /// Texture unit 0 output.
    TexColor0,
    /// Texture unit 1 output.
    TexColor1,
    /// Vertex color 0 (diffuse).
    Shade0,
    /// Constant color 0.
    Const0,
    /// Constant color 1 / fog color.
    Const1,
    /// Constant 1.0.
    One,
    /// Constant 0.0.
    Zero,
    /// TEX0 alpha broadcast to RGB.
    TexColor0Alpha,
    /// TEX1 alpha broadcast to RGB.
    TexColor1Alpha,
    /// Shade0 alpha broadcast to RGB.
    Shade0Alpha,
    /// Const0 alpha broadcast to RGB.
    Const0Alpha,
    /// Combined alpha broadcast to RGB.
    CombinedAlpha,
    /// Shade1 RGB.
    Shade1,
    /// Shade1 alpha broadcast to RGB.
    Shade1Alpha,
}

/// The 4-bit encoding of an RGB C-slot source.
pub open spec fn cc_rgb_c_code(s: CcRgbCSource) -> u64 {
    match s {
        CcRgbCSource::Combined => 0x0,
        CcRgbCSource::TexColor0 => 0x1,
        CcRgbCSource::TexColor1 => 0x2,
        CcRgbCSource::Shade0 => 0x3,
        CcRgbCSource::Const0 => 0x4,
        CcRgbCSource::Const1 => 0x5,
        CcRgbCSource::One => 0x6,
        CcRgbCSource::Zero => 0x7,
        CcRgbCSource::TexColor0Alpha => 0x8,
        CcRgbCSource::TexColor1Alpha => 0x9,
        CcRgbCSource::Shade0Alpha => 0xA,
        CcRgbCSource::Const0Alpha => 0xB,
        CcRgbCSource::CombinedAlpha => 0xC,
        CcRgbCSource::Shade1 => 0xD,
        CcRgbCSource::Shade1Alpha => 0xE,
    }
}

impl CcRgbCSource {
    /// The 4-bit field value of this source.
    pub fn code(self) -> (c: u64)
        ensures
            c == cc_rgb_c_code(self),
    {
        match self {
            CcRgbCSource::Combined => 0x0,
            CcRgbCSource::TexColor0 => 0x1,
            CcRgbCSource::TexColor1 => 0x2,
            CcRgbCSource::Shade0 => 0x3,
            CcRgbCSource::Const0 => 0x4,
            CcRgbCSource::Const1 => 0x5,
            CcRgbCSource::One => 0x6,
            CcRgbCSource::Zero => 0x7,
            CcRgbCSource::TexColor0Alpha => 0x8,
            CcRgbCSource::TexColor1Alpha => 0x9,
            CcRgbCSource::Shade0Alpha => 0xA,
            CcRgbCSource::Const0Alpha => 0xB,
            CcRgbCSource::CombinedAlpha => 0xC,
            CcRgbCSource::Shade1 => 0xD,
            CcRgbCSource::Shade1Alpha => 0xE,
        }
    }
}

/// One cycle of the two-stage color combiner equation `(A - B) * C + D`.
#[derive(Clone, Copy, Debug)]
pub struct CombinerCycle {
    /// RGB A source.
    pub rgb_a: CcSource,
    /// RGB B source.
    pub rgb_b: CcSource,
    /// RGB C source (extended set for blend factor).
    pub rgb_c: CcRgbCSource,
    /// RGB D source.
    pub rgb_d: CcSource,
    /// Alpha A source.
    pub alpha_a: CcSource,
    /// Alpha B source.
    pub alpha_b: CcSource,
    /// Alpha C source.
    pub alpha_c: CcSource,
    /// Alpha D source.
    pub alpha_d: CcSource,
}

/// Vertex kick mode for `submit_vertex_kicked()`.
#[derive(Clone, Copy, Debug, PartialEq, Eq, Structural)]
pub enum VertexKick {
    /// No triangle emitted.
    NoKick,
    /// Emit triangle (v\[0\], v\[1\], v\[2\]).
    Kick012,
    /// Emit triangle (v\[0\], v\[2\], v\[1\]).
    Kick021,
}

/// Framebuffer configuration tuple: (color_base, z_base, width_log2, height_log2).
///
/// `color_base` and `z_base` are in 512-byte granularity units (byte address / 512).
/// `width_log2` and `height_log2` are power-of-two exponents (e.g. 9 = 512 pixels).
pub type FbConfig = (u16, u16, u8, u8);

/// The register writes `ops` as bus operations, in order.
pub open spec fn writes(ops: Seq<(u8, u64)>) -> Seq<BusOp> {
    ops.map_values(|w: (u8, u64)| BusOp::Write { addr: w.0, data: w.1 })
}

/// What a driver call that meant to carry out `ops` leaves in the log: all of
/// them when it succeeded, and a proper prefix of them (the ones before the
/// transport failed) when it did not.
pub open spec fn log_after(before: Seq<BusOp>, after: Seq<BusOp>, ops: Seq<BusOp>, ok: bool) -> bool {
    if ok {
        after == before + ops
    } else {
        exists|k: int| 0 <= k < ops.len() && after == before + ops.take(k)
    }
}

/// Platform-agnostic GPU driver. Owns a transport that implements SPI
/// communication with the GPU hardware.
pub struct GpuDriver<S: SpiTransport> {
    spi: S,
    /// Current draw framebuffer (color_base, z_base, width_log2, height_log2).
    draw_fb: FbConfig,
    /// Current display framebuffer (color_base, z_base, width_log2, height_log2).
    display_fb: FbConfig,
}

/// The FB_CONFIG word: \[15:0\] COLOR_BASE, \[31:16\] Z_BASE,
/// \[35:32\] WIDTH_LOG2, \[39:36\] HEIGHT_LOG2 (the exponents are OR-ed in as given).
pub open spec fn fb_config_word(color_base: u16, z_base: u16, width_log2: u8, height_log2: u8) -> u64 {
    (color_base as u64) | ((z_base as u64) << 16u64) | ((width_log2 as u64) << 32u64)
        | ((height_log2 as u64) << 36u64)
}

/// The FB_DISPLAY word: \[47:32\] FB_ADDR, \[51:48\] WIDTH_LOG2 (OR-ed in as given),
/// every other bit clear.
pub open spec fn fb_display_word(fb_addr: u16, width_log2: u8) -> u64 {
    ((fb_addr as u64) << 32u64) | ((width_log2 as u64) << 48u64)
}

/// The 32-bit CC_MODE half for one combiner cycle: \[3:0\] ALPHA_A, \[7:4\] ALPHA_B,
/// \[11:8\] ALPHA_C, \[15:12\] ALPHA_D, \[19:16\] RGB_A, \[23:20\] RGB_B,
/// \[27:24\] RGB_C, \[31:28\] RGB_D.
pub open spec fn combiner_cycle_word(c: CombinerCycle) -> u64 {
    cc_source_code(c.alpha_a) | (cc_source_code(c.alpha_b) << 4u64)
        | (cc_source_code(c.alpha_c) << 8u64) | (cc_source_code(c.alpha_d) << 12u64)
        | (cc_source_code(c.rgb_a) << 16u64) | (cc_source_code(c.rgb_b) << 20u64)
        | (cc_rgb_c_code(c.rgb_c) << 24u64) | (cc_source_code(c.rgb_d) << 28u64)
}

/// Pack FB_CONFIG register value from its component fields.
pub fn pack_fb_config(color_base: u16, z_base: u16, width_log2: u8, height_log2: u8) -> (w: u64)
    ensures
        w == fb_config_word(color_base, z_base, width_log2, height_log2),
{
    (color_base as u64) | ((z_base as u64) << registers::FB_CONFIG_Z_BASE_SHIFT)
        | ((width_log2 as u64) << registers::FB_CONFIG_WIDTH_LOG2_SHIFT)
        | ((height_log2 as u64) << registers::FB_CONFIG_HEIGHT_LOG2_SHIFT)
}

/// Pack FB_DISPLAY register value for display scanout.
pub fn pack_fb_display(fb_addr: u16, width_log2: u8) -> (w: u64)
    ensures
        w == fb_display_word(fb_addr, width_log2),
{
    ((fb_addr as u64) << registers::FB_DISPLAY_FB_ADDR_SHIFT) | ((width_log2 as u64)
        << registers::FB_DISPLAY_WIDTH_LOG2_SHIFT)
}

/// Pack one combiner cycle into 32 bits per the CC_MODE layout.
pub fn pack_combiner_cycle(cycle: &CombinerCycle) -> (w: u64)
    ensures
        w == combiner_cycle_word(*cycle),
        w < 0x1_0000_0000,
{
    let aa = cycle.alpha_a.code();
    let ab = cycle.alpha_b.code();
    let ac = cycle.alpha_c.code();
    let ad = cycle.alpha_d.code();
    let ra = cycle.rgb_a.code();
    let rb = cycle.rgb_b.code();
    let rc = cycle.rgb_c.code();
    let rd = cycle.rgb_d.code();
    assert((aa & 0xF) == aa && (ab & 0xF) == ab && (ac & 0xF) == ac && (ad & 0xF) == ad && (ra
        & 0xF) == ra && (rb & 0xF) == rb && (rc & 0xF) == rc && (rd & 0xF) == rd) by (bit_vector)
        requires
            aa < 16 && ab < 16 && ac < 16 && ad < 16 && ra < 16 && rb < 16 && rc < 16 && rd < 16,
    ;
    assert(aa | (ab << 4u64) | (ac << 8u64) | (ad << 12u64) | (ra << 16u64) | (rb << 20u64) | (rc
        << 24u64) | (rd << 28u64) < 0x1_0000_0000) by (bit_vector)
        requires
            aa < 16 && ab < 16 && ac < 16 && ad < 16 && ra < 16 && rb < 16 && rc < 16 && rd < 16,
    ;
    (aa & 0xF) | ((ab & 0xF) << 4) | ((ac & 0xF) << 8) | ((ad & 0xF) << 12) | ((ra & 0xF) << 16)
        | ((rb & 0xF) << 20) | ((rc & 0xF) << 24) | ((rd & 0xF) << 28)
}

/// True when the low 16 bits of an ID register value name the expected device.
pub open spec fn device_id_matches(id: u64) -> bool {
    (id & 0xFFFF) == registers::EXPECTED_DEVICE_ID as u64
}

/// What the driver makes of the value read from the ID register: `Ok` when
/// its low 16 bits are the expected device ID, `GpuNotDetected` otherwise.
pub fn identify_device<E>(id: u64) -> (r: Result<(), GpuError<E>>)
    ensures
        r is Ok <==> device_id_matches(id),
        r matches Err(e) ==> e is GpuNotDetected,
{
    assert(id & 0xFFFF <= 0xFFFF) by (bit_vector);
    let device_id = (id & 0xFFFF) as u16;
    if device_id != registers::EXPECTED_DEVICE_ID {
        Err(GpuError::GpuNotDetected)
    } else {
        Ok(())
    }
}

/// The draw framebuffer a freshly initialised driver renders into.
pub open spec fn initial_draw_fb() -> FbConfig {
    (registers::FB_A_BASE_512, registers::ZBUFFER_BASE_512, 9u8, 9u8)
}

/// The framebuffer a freshly initialised driver scans out.
pub open spec fn initial_display_fb() -> FbConfig {
    (registers::FB_B_BASE_512, 0u16, 9u8, 9u8)
}

/// The FB_CONFIG write that selects `fb` as the render target.
pub open spec fn fb_config_op(fb: FbConfig) -> BusOp {
    BusOp::Write { addr: registers::FB_CONFIG, data: fb_config_word(fb.0, fb.1, fb.2, fb.3) }
}

/// The FB_DISPLAY write that scans out `fb`.
pub open spec fn fb_display_op(fb: FbConfig) -> BusOp {
    BusOp::Write { addr: registers::FB_DISPLAY, data: fb_display_word(fb.0, fb.2) }
}


/// 1 for a set flag, 0 for a clear one.
pub open spec fn flag_bit(b: bool) -> u64 {
    if b { 1 } else { 0 }
}

/// The RENDER_MODE word: \[0\] GOURAUD, \[2\] Z_TEST_EN, \[3\] Z_WRITE_EN,
/// \[4\] COLOR_WRITE_EN, \[6:5\] CULL_MODE, \[10\] DITHER_EN, \[15:13\] Z_COMPARE,
/// \[16\] STIPPLE_EN, \[18:17\] ALPHA_TEST, \[26:19\] ALPHA_REF; other bits clear.
pub open spec fn render_mode_word(
    gouraud: bool,
    z_test: bool,
    z_write: bool,
    color_write: bool,
    z_compare: ZCompare,
    cull_mode: CullMode,
    dither: bool,
    stipple_en: bool,
    alpha_test: AlphaTestFunc,
    alpha_ref: u8,
) -> u64 {
    flag_bit(gouraud) | (flag_bit(z_test) << 2u64) | (flag_bit(z_write) << 3u64) | (flag_bit(
        color_write,
    ) << 4u64) | (cull_mode_code(cull_mode) << 5u64) | (flag_bit(dither) << 10u64) | (
    z_compare_code(z_compare) << 13u64) | (flag_bit(stipple_en) << 16u64) | (alpha_test_code(
        alpha_test,
    ) << 17u64) | ((alpha_ref as u64) << 19u64)
}

/// The Z_RANGE word: \[15:0\] Z_MIN, \[31:16\] Z_MAX.
pub open spec fn z_range_word(z_min: u16, z_max: u16) -> u64 {
    ((z_max as u64) << 16u64) | (z_min as u64)
}

/// The FB_CONTROL scissor word: the low 10 bits of x, y, width and height at
/// bits \[9:0\], \[19:10\], \[29:20\] and \[39:30\].
pub open spec fn scissor_word(x: u16, y: u16, width: u16, height: u16) -> u64 {
    ((x as u64) & 0x3FF) | (((y as u64) & 0x3FF) << 10u64) | (((width as u64) & 0x3FF) << 20u64)
        | (((height as u64) & 0x3FF) << 30u64)
}

/// The MEM_FILL word: BASE from bit 0, FILL_VALUE from bit 24, FILL_COUNT from
/// bit 40 (its bits above 63 fall off).
pub open spec fn mem_fill_word(base: u16, value: u16, count: u32) -> u64 {
    (base as u64) | ((value as u64) << 24u64) | ((count as u64) << 40u64)
}

/// The CONST_COLOR word: CONST0 in \[31:0\], CONST1 in \[63:32\].
pub open spec fn const_color_word(const0: u32, const1: u32) -> u64 {
    (const0 as u64) | ((const1 as u64) << 32u64)
}

/// The CC_MODE word: cycle 0 in \[31:0\], cycle 1 in \[63:32\].
pub open spec fn cc_mode_word(c0: CombinerCycle, c1: CombinerCycle) -> u64 {
    combiner_cycle_word(c0) | (combiner_cycle_word(c1) << 32u64)
}

/// The pass-through cycle: A=COMBINED, B=ZERO, C=ONE, D=ZERO for RGB and alpha.
pub open spec fn passthrough_cycle() -> CombinerCycle {
    CombinerCycle {
        rgb_a: CcSource::Combined,
        rgb_b: CcSource::Zero,
        rgb_c: CcRgbCSource::One,
        rgb_d: CcSource::Zero,
        alpha_a: CcSource::Combined,
        alpha_b: CcSource::Zero,
        alpha_c: CcSource::One,
        alpha_d: CcSource::Zero,
    }
}

/// The register writes that submit one vertex: COLOR, then UV0_UV1 when
/// textured, then the position to `position_reg`.
pub open spec fn vertex_writes(v: GpuVertex, position_reg: u8, textured: bool) -> Seq<(u8, u64)> {
    if textured {
        seq![
            (registers::COLOR, v.color_packed),
            (registers::UV0_UV1, v.uv_packed),
            (position_reg, v.position_packed),
        ]
    } else {
        seq![(registers::COLOR, v.color_packed), (position_reg, v.position_packed)]
    }
}

/// The register writes that submit a triangle: v0 and v1 without a kick, then
/// v2 kicking triangle (v0, v1, v2).
pub open spec fn triangle_writes(v0: GpuVertex, v1: GpuVertex, v2: GpuVertex, textured: bool) -> Seq<(u8, u64)> {
    vertex_writes(v0, registers::VERTEX_NOKICK, textured) + vertex_writes(
        v1,
        registers::VERTEX_NOKICK,
        textured,
    ) + vertex_writes(v2, registers::VERTEX_KICK_012, textured)
}

/// The vertex register that a kick mode writes the position to.
pub open spec fn kick_register(kick: VertexKick) -> u8 {
    match kick {
        VertexKick::NoKick => registers::VERTEX_NOKICK,
        VertexKick::Kick012 => registers::VERTEX_KICK_012,
        VertexKick::Kick021 => registers::VERTEX_KICK_021,
    }
}

/// The register writes that upload `data` to SDRAM from `dword_addr`: MEM_ADDR,
/// then one MEM_DATA write per dword in order.
pub open spec fn upload_writes(dword_addr: u32, data: Seq<u64>) -> Seq<(u8, u64)> {
    seq![(registers::MEM_ADDR, dword_addr as u64)] + data.map_values(
        |d: u64| (registers::MEM_DATA, d),
    )
}

/// The 9-byte SPI frame for a register write: the address with bit 7 clear,
/// then the data most significant byte first.
pub open spec fn write_frame(addr: u8, data: u64) -> Seq<u8> {
    seq![
        addr & 0x7F,
        ((data >> 56u64) & 0xFF) as u8,
        ((data >> 48u64) & 0xFF) as u8,
        ((data >> 40u64) & 0xFF) as u8,
        ((data >> 32u64) & 0xFF) as u8,
        ((data >> 24u64) & 0xFF) as u8,
        ((data >> 16u64) & 0xFF) as u8,
        ((data >> 8u64) & 0xFF) as u8,
        (data & 0xFF) as u8,
    ]
}


/// Pack the Z_RANGE register value: \[15:0\] Z_MIN, \[31:16\] Z_MAX.
pub fn pack_z_range(z_min: u16, z_max: u16) -> (w: u64)
    ensures
        w == z_range_word(z_min, z_max),
{
    ((z_max as u64) << 16) | (z_min as u64)
}

/// Pack the RENDER_MODE register value from its fields.
pub fn pack_render_mode(
    gouraud: bool,
    z_test: bool,
    z_write: bool,
    color_write: bool,
    z_compare: ZCompare,
    cull_mode: CullMode,
    dither: bool,
    stipple_en: bool,
    alpha_test: AlphaTestFunc,
    alpha_ref: u8,
) -> (w: u64)
    ensures
        w == render_mode_word(
            gouraud,
            z_test,
            z_write,
            color_write,
            z_compare,
            cull_mode,
            dither,
            stipple_en,
            alpha_test,
            alpha_ref,
        ),
{
    let g: u64 = if gouraud { 1 } else { 0 };
    let zt: u64 = if z_test { 1 } else { 0 };
    let zw: u64 = if z_write { 1 } else { 0 };
    let cw: u64 = if color_write { 1 } else { 0 };
    let d: u64 = if dither { 1 } else { 0 };
    let st: u64 = if stipple_en { 1 } else { 0 };
    g | (zt << 2) | (zw << 3) | (cw << 4) | (cull_mode.code() << 5) | (d << 10) | (z_compare.code()
        << 13) | (st << 16) | (alpha_test.code() << 17) | ((alpha_ref as u64) << 19)
}

/// Pack the FB_CONTROL scissor rectangle (10 bits per field).
pub fn pack_scissor(x: u16, y: u16, width: u16, height: u16) -> (w: u64)
    ensures
        w == scissor_word(x, y, width, height),
{
    ((x as u64) & 0x3FF) | (((y as u64) & 0x3FF) << 10) | (((width as u64) & 0x3FF) << 20) | (((
    height as u64) & 0x3FF) << 30)
}

/// Pack the MEM_FILL register value.
pub fn pack_mem_fill(base: u16, value: u16, count: u32) -> (w: u64)
    ensures
        w == mem_fill_word(base, value, count),
{
    (base as u64) | ((value as u64) << registers::MEM_FILL_VALUE_SHIFT) | ((count as u64)
        << registers::MEM_FILL_COUNT_SHIFT)
}

/// Pack the CONST_COLOR register value from two RGBA8888 words.
pub fn pack_const_color(const0: u32, const1: u32) -> (w: u64)
    ensures
        w == const_color_word(const0, const1),
{
    (const0 as u64) | ((const1 as u64) << 32)
}

impl<S: SpiTransport> GpuDriver<S> {
    /// The operations the driver's transport has carried out, oldest first:
    /// its `history`.
    pub closed spec fn log(&self) -> Seq<BusOp> {
        self.spi.history()
    }

    /// The current draw framebuffer.
    pub closed spec fn draw_target(&self) -> FbConfig {
        self.draw_fb
    }

    /// The current display framebuffer.
    pub closed spec fn display_target(&self) -> FbConfig {
        self.display_fb
    }

    /// One register write through the transport, recorded in the log when it
    /// succeeds.
    fn bus_write(&mut self, addr: u8, data: u64) -> (r: Result<(), GpuError<S::Error>>)
        ensures
            final(self).draw_fb == old(self).draw_fb,
            final(self).display_fb == old(self).display_fb,
            r is Ok ==> final(self).spi.history() == old(self).spi.history().push(
                BusOp::Write { addr, data },
            ),
            r is Err ==> final(self).spi.history() == old(self).spi.history() && r->Err_0 is Transport,
    {
        match self.spi.write_register(addr, data) {
            Ok(()) => {
                Ok(())
            },
            Err(e) => Err(GpuError::Transport(e)),
        }
    }

    /// One register read through the transport, recorded in the log when it
    /// succeeds.
    fn bus_read(&mut self, addr: u8) -> (r: Result<u64, GpuError<S::Error>>)
        ensures
            final(self).draw_fb == old(self).draw_fb,
            final(self).display_fb == old(self).display_fb,
            r is Ok ==> final(self).spi.history() == old(self).spi.history().push(
                BusOp::Read { addr, data: r->Ok_0 },
            ),
            r is Err ==> final(self).spi.history() == old(self).spi.history() && r->Err_0 is Transport,
    {
        match self.spi.read_register(addr) {
            Ok(v) => {
                Ok(v)
            },
            Err(e) => Err(GpuError::Transport(e)),
        }
    }

    /// Initialize the GPU driver. Verifies GPU presence by reading the ID register,
    /// then configures initial framebuffer addresses.
    ///
    /// On success the transport has carried out exactly: a read of ID whose low
    /// 16 bits are the expected device ID, the FB_CONFIG write for framebuffer A
    /// with the Z-buffer, and the FB_DISPLAY write for framebuffer B. Whether
    /// the transport answers, and with which ID, is the transport's;
    /// `identify_device` decides on the ID it gives.
    pub fn new(spi: S) -> (r: Result<Self, GpuError<S::Error>>)
        ensures
            r matches Ok(d) ==> {
                &&& exists|id: u64|
                    device_id_matches(id) && d.log() == spi.history() + seq![
                        BusOp::Read { addr: registers::ID, data: id },
                        fb_config_op(initial_draw_fb()),
                        fb_display_op(initial_display_fb()),
                    ]
                &&& d.draw_target() == initial_draw_fb()
                &&& d.display_target() == initial_display_fb()
            },
    {
        let mut driver = GpuDriver {
            spi,
            draw_fb: (registers::FB_A_BASE_512, registers::ZBUFFER_BASE_512, 9, 9),
            display_fb: (registers::FB_B_BASE_512, 0, 9, 9),
        };
        let id = match driver.bus_read(registers::ID) {
            Ok(v) => v,
            Err(e) => return Err(e),
        };
        match identify_device(id) {
            Ok(()) => {},
            Err(e) => return Err(e),
        }
        let cfg = pack_fb_config(driver.draw_fb.0, driver.draw_fb.1, driver.draw_fb.2, driver.draw_fb.3);
        match driver.bus_write(registers::FB_CONFIG, cfg) {
            Ok(()) => {},
            Err(e) => return Err(e),
        }
        let disp = pack_fb_display(driver.display_fb.0, driver.display_fb.2);
        match driver.bus_write(registers::FB_DISPLAY, disp) {
            Ok(()) => {},
            Err(e) => return Err(e),
        }
        Ok(driver)
    }

    /// Carry out `ops` in order, stopping at the first transport failure.
    fn write_all(&mut self, ops: &[(u8, u64)]) -> (r: Result<(), GpuError<S::Error>>)
        ensures
            final(self).draw_fb == old(self).draw_fb,
            final(self).display_fb == old(self).display_fb,
            log_after(old(self).spi.history(), final(self).spi.history(), writes(ops@), r is Ok),
            r matches Err(e) ==> e is Transport,
    {
        let ghost before = self.spi.history();
        let mut i: usize = 0;
        while i < ops.len()
            invariant
                i <= ops.len(),
                self.draw_fb == old(self).draw_fb,
                self.display_fb == old(self).display_fb,
                before == old(self).spi.history(),
                self.spi.history() == before + writes(ops@).take(i as int),
            decreases ops.len() - i,
        {
            let (addr, data) = ops[i];
            match self.bus_write(addr, data) {
                Ok(()) => {},
                Err(e) => {
                    return Err(e);
                },
            }
            assert(writes(ops@).take(i + 1) =~= writes(ops@).take(i as int).push(
                BusOp::Write { addr, data },
            ));
            i = i + 1;
        }
        assert(writes(ops@).take(i as int) =~= writes(ops@));
        Ok(())
    }

    /// Write a 64-bit value to a GPU register.
    pub fn write(&mut self, addr: u8, data: u64) -> (r: Result<(), GpuError<S::Error>>)
        ensures
            final(self).draw_target() == old(self).draw_target(),
            final(self).display_target() == old(self).display_target(),
            log_after(old(self).log(), final(self).log(), seq![BusOp::Write { addr, data }], r is Ok),
            r matches Err(e) ==> e is Transport,
    {
        let r = self.bus_write(addr, data);
        proof {
            if r is Err {
                assert(final(self).log() == old(self).log() + seq![BusOp::Write { addr, data }].take(0));
            } else {
                assert(final(self).log() =~= old(self).log() + seq![BusOp::Write { addr, data }]);
            }
        }
        r
    }

    /// Read a 64-bit value from a GPU register.
    pub fn read(&mut self, addr: u8) -> (r: Result<u64, GpuError<S::Error>>)
        ensures
            final(self).draw_target() == old(self).draw_target(),
            final(self).display_target() == old(self).display_target(),
            r matches Ok(v) ==> final(self).log() == old(self).log().push(BusOp::Read { addr, data: v }),
            r matches Err(e) ==> e is Transport && final(self).log() == old(self).log(),
    {
        self.bus_read(addr)
    }

    /// Upload a block of 64-bit dwords to GPU SDRAM via MEM_ADDR/MEM_DATA.
    pub fn upload_memory(&mut self, dword_addr: u32, data: &[u64]) -> (r: Result<(), GpuError<S::Error>>)
        ensures
            final(self).draw_target() == old(self).draw_target(),
            final(self).display_target() == old(self).display_target(),
            log_after(old(self).log(), final(self).log(), writes(upload_writes(dword_addr, data@)), r is Ok),
            r matches Err(e) ==> e is Transport,
    {
        let ghost ops = writes(upload_writes(dword_addr, data@));
        let ghost before = self.spi.history();
        match self.bus_write(registers::MEM_ADDR, dword_addr as u64) {
            Ok(()) => {},
            Err(e) => {
                assert(self.spi.history() == before + ops.take(0));
                return Err(e);
            },
        }
        assert(upload_writes(dword_addr, data@)[0] == (registers::MEM_ADDR, dword_addr as u64));
        assert(ops.take(1) =~= seq![BusOp::Write { addr: registers::MEM_ADDR, data: dword_addr as u64 }]);
        assert(self.spi.history() =~= before + ops.take(1));
        let mut i: usize = 0;
        while i < data.len()
            invariant
                i <= data.len(),
                ops == writes(upload_writes(dword_addr, data@)),
                ops.len() == data.len() + 1,
                self.draw_fb == old(self).draw_fb,
                self.display_fb == old(self).display_fb,
                before == old(self).spi.history(),
                self.spi.history() == before + ops.take(i + 1),
            decreases data.len() - i,
        {
            let dword = data[i];
            match self.bus_write(registers::MEM_DATA, dword) {
                Ok(()) => {},
                Err(e) => {
                    return Err(e);
                },
            }
            assert(ops[i + 1] == BusOp::Write { addr: registers::MEM_DATA, data: dword });
            assert(ops.take(i + 2) =~= ops.take(i + 1).push(ops[i + 1]));
            i = i + 1;
        }
        assert(ops.take(i + 1) =~= ops);
        Ok(())
    }

    /// Read a block of 64-bit dwords from GPU SDRAM via MEM_ADDR/MEM_DATA.
    ///
    /// Writing MEM_ADDR triggers a prefetch; each subsequent MEM_DATA read
    /// returns the prefetched dword and pipelines the next. On success `buf`
    /// holds the replies to the MEM_DATA reads, in order.
    pub fn read_memory(&mut self, dword_addr: u32, buf: &mut [u64]) -> (r: Result<(), GpuError<S::Error>>)
        ensures
            final(self).draw_target() == old(self).draw_target(),
            final(self).display_target() == old(self).display_target(),
            final(buf)@.len() == old(buf)@.len(),
            r is Ok ==> final(self).log() == old(self).log() + seq![
                BusOp::Write { addr: registers::MEM_ADDR, data: dword_addr as u64 },
            ] + final(buf)@.map_values(|d: u64| BusOp::Read { addr: registers::MEM_DATA, data: d }),
            r is Err ==> (final(self).log() == old(self).log() && final(buf)@ == old(buf)@) || exists|k: int|
                0 <= k < final(buf)@.len() && final(self).log() == old(self).log() + seq![
                    BusOp::Write { addr: registers::MEM_ADDR, data: dword_addr as u64 },
                ] + final(buf)@.take(k).map_values(
                    |d: u64| BusOp::Read { addr: registers::MEM_DATA, data: d },
                ) && final(buf)@.skip(k) == old(buf)@.skip(k),
            r matches Err(e) ==> e is Transport,
    {
        match self.bus_write(registers::MEM_ADDR, dword_addr as u64) {
            Ok(()) => {},
            Err(e) => {
                return Err(e);
            },
        }
        let ghost start = self.spi.history();
        let mut i: usize = 0;
        assert(buf@.skip(0) =~= buf@);
        assert(old(buf)@.skip(0) =~= old(buf)@);
        while i < buf.len()
            invariant
                i <= buf.len(),
                buf@.len() == old(buf)@.len(),
                self.draw_fb == old(self).draw_fb,
                self.display_fb == old(self).display_fb,
                start == old(self).spi.history().push(
                    BusOp::Write { addr: registers::MEM_ADDR, data: dword_addr as u64 },
                ),
                self.spi.history() == start + buf@.take(i as int).map_values(
                    |d: u64| BusOp::Read { addr: registers::MEM_DATA, data: d },
                ),
                buf@.skip(i as int) == old(buf)@.skip(i as int),
            decreases buf.len() - i,
        {
            let v = match self.bus_read(registers::MEM_DATA) {
                Ok(v) => v,
                Err(e) => {
                    assert(start =~= old(self).spi.history() + seq![
                        BusOp::Write { addr: registers::MEM_ADDR, data: dword_addr as u64 },
                    ]);
                    assert(self.spi.history() == old(self).spi.history() + seq![
                        BusOp::Write { addr: registers::MEM_ADDR, data: dword_addr as u64 },
                    ] + buf@.take(i as int).map_values(
                        |d: u64| BusOp::Read { addr: registers::MEM_DATA, data: d },
                    ));
                    return Err(e);
                },
            };
            let ghost prev = buf@;
            buf[i] = v;
            assert(buf@.skip(i + 1) =~= prev.skip(i + 1));
            assert(prev.skip(i + 1) =~= prev.skip(i as int).drop_first());
            assert(old(buf)@.skip(i + 1) =~= old(buf)@.skip(i as int).drop_first());
            assert(buf@.take(i + 1) =~= prev.take(i as int).push(v));
            assert(buf@.take(i + 1).map_values(
                |d: u64| BusOp::Read { addr: registers::MEM_DATA, data: d },
            ) =~= prev.take(i as int).map_values(
                |d: u64| BusOp::Read { addr: registers::MEM_DATA, data: d },
            ).push(BusOp::Read { addr: registers::MEM_DATA, data: v }));
            i = i + 1;
        }
        assert(buf@.take(i as int) =~= buf@);
        Ok(())
    }

    /// Submit a single triangle (3 vertices) to the GPU.
    ///
    /// First two vertices use VERTEX_NOKICK; the third uses VERTEX_KICK_012
    /// to trigger rasterization with standard winding order. UV0_UV1 is
    /// written for each vertex when `textured`.
    pub fn submit_triangle(&mut self, v0: &GpuVertex, v1: &GpuVertex, v2: &GpuVertex, textured: bool) -> (r: Result<(), GpuError<S::Error>>)
        ensures
            final(self).draw_target() == old(self).draw_target(),
            final(self).display_target() == old(self).display_target(),
            log_after(old(self).log(), final(self).log(), writes(triangle_writes(*v0, *v1, *v2, textured)), r is Ok),
            r matches Err(e) ==> e is Transport,
    {
        if textured {
            let ops = [
                (registers::COLOR, v0.color_packed),
                (registers::UV0_UV1, v0.uv_packed),
                (registers::VERTEX_NOKICK, v0.position_packed),
                (registers::COLOR, v1.color_packed),
                (registers::UV0_UV1, v1.uv_packed),
                (registers::VERTEX_NOKICK, v1.position_packed),
                (registers::COLOR, v2.color_packed),
                (registers::UV0_UV1, v2.uv_packed),
                (registers::VERTEX_KICK_012, v2.position_packed),
            ];
            assert(ops@ =~= triangle_writes(*v0, *v1, *v2, textured));
            self.write_all(&ops)
        } else {
            let ops = [
                (registers::COLOR, v0.color_packed),
                (registers::VERTEX_NOKICK, v0.position_packed),
                (registers::COLOR, v1.color_packed),
                (registers::VERTEX_NOKICK, v1.position_packed),
                (registers::COLOR, v2.color_packed),
                (registers::VERTEX_KICK_012, v2.position_packed),
            ];
            assert(ops@ =~= triangle_writes(*v0, *v1, *v2, textured));
            self.write_all(&ops)
        }
    }

    /// Submit a single vertex with explicit kick mode.
    ///
    /// Writes COLOR, optionally UV0_UV1, then the VERTEX register that the
    /// kick mode selects.
    pub fn submit_vertex_kicked(&mut self, vertex: &GpuVertex, kick: VertexKick, textured: bool) -> (r: Result<(), GpuError<S::Error>>)
        ensures
            final(self).draw_target() == old(self).draw_target(),
            final(self).display_target() == old(self).display_target(),
            log_after(old(self).log(), final(self).log(), writes(vertex_writes(*vertex, kick_register(kick), textured)), r is Ok),
            r matches Err(e) ==> e is Transport,
    {
        let reg = match kick {
            VertexKick::NoKick => registers::VERTEX_NOKICK,
            VertexKick::Kick012 => registers::VERTEX_KICK_012,
            VertexKick::Kick021 => registers::VERTEX_KICK_021,
        };
        if textured {
            let ops = [
                (registers::COLOR, vertex.color_packed),
                (registers::UV0_UV1, vertex.uv_packed),
                (reg, vertex.position_packed),
            ];
            assert(ops@ =~= vertex_writes(*vertex, kick_register(kick), textured));
            self.write_all(&ops)
        } else {
            let ops = [(registers::COLOR, vertex.color_packed), (reg, vertex.position_packed)];
            assert(ops@ =~= vertex_writes(*vertex, kick_register(kick), textured));
            self.write_all(&ops)
        }
    }

    /// Configure per-material rendering state in a single RENDER_MODE register write.
    pub fn set_render_mode(
        &mut self,
        gouraud: bool,
        z_test: bool,
        z_write: bool,
        color_write: bool,
        z_compare: ZCompare,
        cull_mode: CullMode,
        dither: bool,
        stipple_en: bool,
        alpha_test: AlphaTestFunc,
        alpha_ref: u8,
    ) -> (r: Result<(), GpuError<S::Error>>)
        ensures
            final(self).draw_target() == old(self).draw_target(),
            final(self).display_target() == old(self).display_target(),
            log_after(
                old(self).log(),
                final(self).log(),
                seq![
                    BusOp::Write {
                        addr: registers::RENDER_MODE,
                        data: render_mode_word(
                            gouraud,
                            z_test,
                            z_write,
                            color_write,
                            z_compare,
                            cull_mode,
                            dither,
                            stipple_en,
                            alpha_test,
                            alpha_ref,
                        ),
                    },
                ],
                r is Ok,
            ),
            r matches Err(e) ==> e is Transport,
    {
        let value = pack_render_mode(
            gouraud,
            z_test,
            z_write,
            color_write,
            z_compare,
            cull_mode,
            dither,
            stipple_en,
            alpha_test,
            alpha_ref,
        );
        self.write(registers::RENDER_MODE, value)
    }

    /// Configure depth range clipping (Z scissor): fragments with Z outside
    /// \[z_min, z_max\] are discarded.
    pub fn set_z_range(&mut self, z_min: u16, z_max: u16) -> (r: Result<(), GpuError<S::Error>>)
        ensures
            final(self).draw_target() == old(self).draw_target(),
            final(self).display_target() == old(self).display_target(),
            log_after(
                old(self).log(),
                final(self).log(),
                seq![BusOp::Write { addr: registers::Z_RANGE, data: z_range_word(z_min, z_max) }],
                r is Ok,
            ),
            r matches Err(e) ==> e is Transport,
    {
        let value = pack_z_range(z_min, z_max);
        self.write(registers::Z_RANGE, value)
    }

    /// Configure the render target (color buffer + Z-buffer) for subsequent
    /// rendering. The driver's draw framebuffer becomes the given one whatever
    /// the transport answers.
    pub fn gpu_set_fb_config(&mut self, color_base: u16, z_base: u16, width_log2: u8, height_log2: u8) -> (r: Result<(), GpuError<S::Error>>)
        ensures
            final(self).draw_target() == (color_base, z_base, width_log2, height_log2),
            final(self).display_target() == old(self).display_target(),
            log_after(
                old(self).log(),
                final(self).log(),
                seq![fb_config_op((color_base, z_base, width_log2, height_log2))],
                r is Ok,
            ),
            r matches Err(e) ==> e is Transport,
    {
        self.draw_fb = (color_base, z_base, width_log2, height_log2);
        let value = pack_fb_config(color_base, z_base, width_log2, height_log2);
        self.write(registers::FB_CONFIG, value)
    }

    /// Set the pixel-precision scissor rectangle (FB_CONTROL).
    pub fn gpu_set_scissor(&mut self, x: u16, y: u16, width: u16, height: u16) -> (r: Result<(), GpuError<S::Error>>)
        ensures
            final(self).draw_target() == old(self).draw_target(),
            final(self).display_target() == old(self).display_target(),
            log_after(
                old(self).log(),
                final(self).log(),
                seq![BusOp::Write { addr: registers::FB_CONTROL, data: scissor_word(x, y, width, height) }],
                r is Ok,
            ),
            r matches Err(e) ==> e is Transport,
    {
        let value = pack_scissor(x, y, width, height);
        self.write(registers::FB_CONTROL, value)
    }

    /// Fill a contiguous region of SDRAM with a 16-bit constant value using the
    /// hardware MEM_FILL engine. `base` is in 512-byte units; `count` is the
    /// number of 16-bit words.
    pub fn gpu_mem_fill(&mut self, base: u16, value: u16, count: u32) -> (r: Result<(), GpuError<S::Error>>)
        ensures
            final(self).draw_target() == old(self).draw_target(),
            final(self).display_target() == old(self).display_target(),
            log_after(
                old(self).log(),
                final(self).log(),
                seq![BusOp::Write { addr: registers::MEM_FILL, data: mem_fill_word(base, value, count) }],
                r is Ok,
            ),
            r matches Err(e) ==> e is Transport,
    {
        let reg_value = pack_mem_fill(base, value, count);
        self.write(registers::MEM_FILL, reg_value)
    }

    /// Set the 8x8 stipple bitmask (bit index = y\[2:0\] * 8 + x\[2:0\]).
    pub fn gpu_set_stipple_pattern(&mut self, pattern: u64) -> (r: Result<(), GpuError<S::Error>>)
        ensures
            final(self).draw_target() == old(self).draw_target(),
            final(self).display_target() == old(self).display_target(),
            log_after(
                old(self).log(),
                final(self).log(),
                seq![BusOp::Write { addr: registers::STIPPLE_PATTERN, data: pattern }],
                r is Ok,
            ),
            r matches Err(e) ==> e is Transport,
    {
        self.write(registers::STIPPLE_PATTERN, pattern)
    }

    /// Configure the two-stage color combiner equation `(A - B) * C + D`:
    /// cycle 0 in CC_MODE\[31:0\], cycle 1 in CC_MODE\[63:32\].
    pub fn gpu_set_combiner_mode(&mut self, c0: &CombinerCycle, c1: &CombinerCycle) -> (r: Result<(), GpuError<S::Error>>)
        ensures
            final(self).draw_target() == old(self).draw_target(),
            final(self).display_target() == old(self).display_target(),
            log_after(
                old(self).log(),
                final(self).log(),
                seq![BusOp::Write { addr: registers::CC_MODE, data: cc_mode_word(*c0, *c1) }],
                r is Ok,
            ),
            r matches Err(e) ==> e is Transport,
    {
        let cycle0 = pack_combiner_cycle(c0);
        let cycle1 = pack_combiner_cycle(c1);
        let value = cycle0 | (cycle1 << 32);
        self.write(registers::CC_MODE, value)
    }

    /// Set single-stage combiner mode: cycle 0 as given, cycle 1 as
    /// pass-through (A=COMBINED, B=ZERO, C=ONE, D=ZERO).
    pub fn gpu_set_combiner_simple(&mut self, c0: &CombinerCycle) -> (r: Result<(), GpuError<S::Error>>)
        ensures
            final(self).draw_target() == old(self).draw_target(),
            final(self).display_target() == old(self).display_target(),
            log_after(
                old(self).log(),
                final(self).log(),
                seq![BusOp::Write { addr: registers::CC_MODE, data: cc_mode_word(*c0, passthrough_cycle()) }],
                r is Ok,
            ),
            r matches Err(e) ==> e is Transport,
    {
        let passthrough = CombinerCycle {
            rgb_a: CcSource::Combined,
            rgb_b: CcSource::Zero,
            rgb_c: CcRgbCSource::One,
            rgb_d: CcSource::Zero,
            alpha_a: CcSource::Combined,
            alpha_b: CcSource::Zero,
            alpha_c: CcSource::One,
            alpha_d: CcSource::Zero,
        };
        self.gpu_set_combiner_mode(c0, &passthrough)
    }

    /// Set the two per-draw-call constant colors (RGBA8888 each).
    pub fn gpu_set_const_color(&mut self, const0: u32, const1: u32) -> (r: Result<(), GpuError<S::Error>>)
        ensures
            final(self).draw_target() == old(self).draw_target(),
            final(self).display_target() == old(self).display_target(),
            log_after(
                old(self).log(),
                final(self).log(),
                seq![BusOp::Write { addr: registers::CONST_COLOR, data: const_color_word(const0, const1) }],
                r is Ok,
            ),
            r matches Err(e) ==> e is Transport,
    {
        let value = pack_const_color(const0, const1);
        self.write(registers::CONST_COLOR, value)
    }

    /// Upload color grading LUT data to SDRAM (MEM_ADDR, then MEM_DATA per dword).
    pub fn gpu_prepare_lut(&mut self, lut_sdram_addr: u32, lut_data: &[u64]) -> (r: Result<(), GpuError<S::Error>>)
        ensures
            final(self).draw_target() == old(self).draw_target(),
            final(self).display_target() == old(self).display_target(),
            log_after(old(self).log(), final(self).log(), writes(upload_writes(lut_sdram_addr, lut_data@)), r is Ok),
            r matches Err(e) ==> e is Transport,
    {
        self.upload_memory(lut_sdram_addr, lut_data)
    }

    /// Swap draw and display framebuffers, then write FB_CONFIG for the new
    /// draw target and FB_DISPLAY for the new display target. The swap of the
    /// driver's state happens whatever the transport answers.
    pub fn swap_buffers(&mut self) -> (r: Result<(), GpuError<S::Error>>)
        ensures
            final(self).draw_target() == old(self).display_target(),
            final(self).display_target() == old(self).draw_target(),
            log_after(
                old(self).log(),
                final(self).log(),
                seq![fb_config_op(old(self).display_target()), fb_display_op(old(self).draw_target())],
                r is Ok,
            ),
            r matches Err(e) ==> e is Transport,
    {
        let tmp = self.draw_fb;
        self.draw_fb = self.display_fb;
        self.display_fb = tmp;
        let cfg = pack_fb_config(self.draw_fb.0, self.draw_fb.1, self.draw_fb.2, self.draw_fb.3);
        let disp = pack_fb_display(self.display_fb.0, self.display_fb.2);
        let ops = [(registers::FB_CONFIG, cfg), (registers::FB_DISPLAY, disp)];
        assert(writes(ops@) =~= seq![fb_config_op(old(self).display_target()), fb_display_op(old(self).draw_target())]);
        self.write_all(&ops)
    }

    /// Get the current draw framebuffer configuration.
    pub fn draw_fb(&self) -> (fb: FbConfig)
        ensures
            fb == self.draw_target(),
    {
        self.draw_fb
    }

    /// Get the current display framebuffer configuration.
    pub fn display_fb(&self) -> (fb: FbConfig)
        ensures
            fb == self.display_target(),
    {
        self.display_fb
    }

    /// Insert a timestamp marker into the command stream: the GPU writes its
    /// cycle counter to the given SDRAM word address when it gets there.
    pub fn timestamp(&mut self, sdram_word_addr: u32) -> (r: Result<(), GpuError<S::Error>>)
        ensures
            final(self).draw_target() == old(self).draw_target(),
            final(self).display_target() == old(self).display_target(),
            log_after(
                old(self).log(),
                final(self).log(),
                seq![BusOp::Write { addr: registers::PERF_TIMESTAMP, data: sdram_word_addr as u64 }],
                r is Ok,
            ),
            r matches Err(e) ==> e is Transport,
    {
        self.write(registers::PERF_TIMESTAMP, sdram_word_addr as u64)
    }

    /// Read the GPU's current cycle counter value: the low 32 bits of a read of
    /// PERF_TIMESTAMP.
    pub fn read_cycle_counter(&mut self) -> (r: Result<u32, GpuError<S::Error>>)
        ensures
            final(self).draw_target() == old(self).draw_target(),
            final(self).display_target() == old(self).display_target(),
            r matches Ok(c) ==> exists|v: u64|
                final(self).log() == old(self).log().push(BusOp::Read { addr: registers::PERF_TIMESTAMP, data: v })
                    && c == v as u32,
            r matches Err(e) ==> e is Transport && final(self).log() == old(self).log(),
    {
        match self.read(registers::PERF_TIMESTAMP) {
            Ok(val) => Ok(val as u32),
            Err(e) => Err(e),
        }
    }

    /// Pack a 9-byte SPI register write frame into `buffer` at `offset`:
    /// the address with bit 7 clear, then the data most significant byte
    /// first. Returns `offset + 9`, the next free position.
    pub fn pack_write(buffer: &mut [u8], offset: usize, addr: u8, data: u64) -> (next: usize)
        requires
            offset + 9 <= old(buffer)@.len(),
        ensures
            next == offset + 9,
            final(buffer)@ == old(buffer)@.take(offset as int) + write_frame(addr, data) + old(
                buffer,
            )@.skip(offset + 9),
    {
        buffer[offset] = addr & 0x7F;
        buffer[offset + 1] = ((data >> 56) & 0xFF) as u8;
        buffer[offset + 2] = ((data >> 48) & 0xFF) as u8;
        buffer[offset + 3] = ((data >> 40) & 0xFF) as u8;
        buffer[offset + 4] = ((data >> 32) & 0xFF) as u8;
        buffer[offset + 5] = ((data >> 24) & 0xFF) as u8;
        buffer[offset + 6] = ((data >> 16) & 0xFF) as u8;
        buffer[offset + 7] = ((data >> 8) & 0xFF) as u8;
        buffer[offset + 8] = (data & 0xFF) as u8;
        assert(buffer@ =~= old(buffer)@.take(offset as int) + write_frame(addr, data) + old(
            buffer,
        )@.skip(offset + 9));
        offset + 9
    }
}

/// Methods available when the transport also implements FlowControl. None of
/// them performs a register access; each asks the transport about one of its
/// flow-control lines, and the log records the question and the answer.
impl<S: SpiTransport + FlowControl> GpuDriver<S> {
    /// Block until VSYNC rising edge: the transport waits for it, and the log
    /// records the wait.
    pub fn wait_vsync(&mut self)
        ensures
            final(self).log() == old(self).log().push(BusOp::VsyncWait),
            final(self).draw_target() == old(self).draw_target(),
            final(self).display_target() == old(self).display_target(),
    {
        self.spi.wait_vsync();
    }

    /// Check if the GPU command FIFO is almost full: the transport's reading
    /// of CMD_FULL, which the log records.
    pub fn is_fifo_full(&mut self) -> (full: bool)
        ensures
            final(self).log() == old(self).log().push(BusOp::CmdFullQuery { full }),
            final(self).draw_target() == old(self).draw_target(),
            final(self).display_target() == old(self).display_target(),
    {
        let full = self.spi.is_cmd_full();
        full
    }

    /// Check if the GPU command FIFO is empty: the transport's reading of
    /// CMD_EMPTY, which the log records.
    pub fn is_fifo_empty(&mut self) -> (empty: bool)
        ensures
            final(self).log() == old(self).log().push(BusOp::CmdEmptyQuery { empty }),
            final(self).draw_target() == old(self).draw_target(),
            final(self).display_target() == old(self).display_target(),
    {
        let empty = self.spi.is_cmd_empty();
        empty
    }
}

} // verus!
