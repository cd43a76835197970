//! Render command execution: clear, triangle submit, texture upload, vsync.
use vstd::prelude::*;

use crate::gpu::driver::{
    fb_config_op, fb_display_op, log_after, mem_fill_word, triangle_writes, upload_writes,
    writes, z_range_word, BusOp, GpuDriver, GpuError,
};
use crate::gpu::registers;
use crate::hal::{FlowControl, SpiTransport};
use crate::render::{
    render_flags_word, ClearCommand, RenderCommand, ScreenTriangleCommand, UploadTextureCommand,
};

verus! {

/// The RGB565 value of an RGB888 colour: the top 5 bits of red in \[15:11\],
/// the top 6 bits of green in \[10:5\], the top 5 bits of blue in \[4:0\].
pub open spec fn rgb565(r: u8, g: u8, b: u8) -> int {
    (r / 8) * 2048 + (g / 4) * 32 + b / 8
}

/// Convert RGBA8888 color to RGB565 (the alpha channel is dropped).
pub fn rgba_to_rgb565(r: u8, g: u8, b: u8) -> (c: u16)
    ensures
        c == rgb565(r, g, b),
{
    assert((((r as u16) >> 3u16) << 11u16) | (((g as u16) >> 2u16) << 5u16) | ((b as u16) >> 3u16)
        == ((r as u16) / 8) * 2048 + ((g as u16) / 4) * 32 + (b as u16) / 8) by (bit_vector);
    (((r as u16) >> 3) << 11) | (((g as u16) >> 2) << 5) | ((b as u16) >> 3)
}

/// Texture metadata for the command executor.
pub struct TextureInfo<'a> {
    pub data: &'a [u64],
    pub width: u16,
    pub height: u16,
    pub width_log2: u8,
    pub height_log2: u8,
}

/// A texture as values: its data words and its dimensions.
pub struct TextureData {
    pub data: Seq<u64>,
    pub width: u16,
    pub height: u16,
    pub width_log2: u8,
    pub height_log2: u8,
}

/// The values of a texture handed out by a source.
pub open spec fn texture_data(t: TextureInfo) -> TextureData {
    TextureData {
        data: t.data@,
        width: t.width,
        height: t.height,
        width_log2: t.width_log2,
        height_log2: t.height_log2,
    }
}

/// Trait for looking up texture data by ID.
pub trait TextureSource {
    /// The texture stored under `id`, if any. A source verified against this
    /// trait defines it from its own contents; the default, none, is for
    /// sources outside verification, which nothing here can hold to
    /// `get_texture`'s contract.
    closed spec fn texture(&self, id: u8) -> Option<TextureData> {
        None
    }

    /// The texture stored under `id`, if any.
    fn get_texture(&self, id: u8) -> (r: Option<TextureInfo<'_>>)
        ensures
            match r {
                Some(t) => self.texture(id) == Some(texture_data(t)),
                None => self.texture(id) is None,
            };
}

/// Number of 16-bit words in a surface of 2^width_log2 x 2^height_log2 pixels.
pub open spec fn surface_words(width_log2: u8, height_log2: u8) -> u32 {
    (1u32 << ((width_log2 as u32) + (height_log2 as u32))) as u32
}

/// The register writes that clear the draw framebuffer `fb`: a MEM_FILL of the
/// colour buffer with the RGB565 colour, then, when depth is cleared, a
/// MEM_FILL of the Z-buffer with the depth value; both over the whole surface.
pub open spec fn clear_writes(fb: (u16, u16, u8, u8), cmd: ClearCommand) -> Seq<BusOp> {
    let words = surface_words(fb.2, fb.3);
    let color = seq![
        BusOp::Write {
            addr: registers::MEM_FILL,
            data: mem_fill_word(fb.0, rgb565(cmd.color[0], cmd.color[1], cmd.color[2]) as u16, words),
        },
    ];
    if cmd.clear_depth {
        color.push(BusOp::Write { addr: registers::MEM_FILL, data: mem_fill_word(fb.1, cmd.depth_value, words) })
    } else {
        color
    }
}

/// The TEX0_CFG word for a texture at `dword_addr`: ENABLE, WIDTH_LOG2,
/// HEIGHT_LOG2 and the base address in 512-byte units (`dword_addr >> 6`,
/// truncated to 16 bits).
pub open spec fn tex_cfg_word(dword_addr: u32, width_log2: u8, height_log2: u8) -> u64 {
    1u64 | ((width_log2 as u64) << 8u64) | ((height_log2 as u64) << 12u64) | ((((dword_addr >> 6u32)
        as u16) as u64) << 32u64)
}

/// The register writes that upload a found texture: its data to SDRAM at the
/// command's address, then the TEX0_CFG write that points texture unit 0 at it.
pub open spec fn texture_writes(cmd: UploadTextureCommand, tex: TextureData) -> Seq<BusOp> {
    writes(upload_writes(cmd.gpu_dword_addr, tex.data)) + seq![
        BusOp::Write {
            addr: registers::TEX0_CFG,
            data: tex_cfg_word(cmd.gpu_dword_addr, tex.width_log2, tex.height_log2),
        },
    ]
}

/// The two writes of a buffer swap from draw target `draw` and display target `display`.
pub open spec fn swap_writes(draw: (u16, u16, u8, u8), display: (u16, u16, u8, u8)) -> Seq<BusOp> {
    seq![fb_config_op(display), fb_display_op(draw)]
}

/// What a VSYNC command does from draw target `draw` and display target
/// `display`: a wait for VSYNC, then the two writes of the buffer swap.
pub open spec fn vsync_ops(draw: (u16, u16, u8, u8), display: (u16, u16, u8, u8)) -> Seq<BusOp> {
    seq![BusOp::VsyncWait] + swap_writes(draw, display)
}

/// The texture that an upload command finds in `textures` (none for every
/// other command).
pub open spec fn upload_lookup<T: TextureSource>(textures: &T, cmd: RenderCommand) -> Option<TextureData> {
    match cmd {
        RenderCommand::UploadTexture(u) => textures.texture(u.texture_id),
        _ => None,
    }
}

/// What a command does when the texture lookup (for an upload) gave `tex`:
/// the bus operations it carries out.
pub open spec fn command_writes(
    draw: (u16, u16, u8, u8),
    display: (u16, u16, u8, u8),
    cmd: RenderCommand,
    tex: Option<TextureData>,
) -> Seq<BusOp> {
    match cmd {
        RenderCommand::ClearFramebuffer(c) => clear_writes(draw, c),
        RenderCommand::WaitVsync => vsync_ops(draw, display),
        RenderCommand::SubmitScreenTriangle(t) => writes(triangle_writes(t.v0, t.v1, t.v2, t.textured)),
        RenderCommand::SetRenderMode(flags) => seq![
            BusOp::Write { addr: registers::RENDER_MODE, data: render_flags_word(flags) },
        ],
        RenderCommand::SetZRange { z_min, z_max } => seq![
            BusOp::Write { addr: registers::Z_RANGE, data: z_range_word(z_min, z_max) },
        ],
        RenderCommand::UploadTexture(u) => match tex {
            Some(t) => texture_writes(u, t),
            None => Seq::empty(),
        },
    }
}

/// Execute a single render command against the GPU.
///
/// For an upload, what is written is the texture that `textures` holds under
/// the command's texture ID (nothing at all when it holds none); every other
/// command's writes are fixed by the command and the driver's framebuffers.
/// Only `WaitVsync` changes the framebuffers: it swaps them.
pub fn execute<S: SpiTransport + FlowControl, T: TextureSource>(
    gpu: &mut GpuDriver<S>,
    cmd: &RenderCommand,
    textures: &T,
) -> (r: Result<(), GpuError<S::Error>>)
    requires
        cmd is ClearFramebuffer ==> old(gpu).draw_target().2 + old(gpu).draw_target().3 < 32,
    ensures
        log_after(
            old(gpu).log(),
            final(gpu).log(),
            command_writes(old(gpu).draw_target(), old(gpu).display_target(), *cmd, upload_lookup(textures, *cmd)),
            r is Ok,
        ),
        cmd is WaitVsync ==> final(gpu).draw_target() == old(gpu).display_target()
            && final(gpu).display_target() == old(gpu).draw_target(),
        !(cmd is WaitVsync) ==> final(gpu).draw_target() == old(gpu).draw_target()
            && final(gpu).display_target() == old(gpu).display_target(),
        r matches Err(e) ==> e is Transport,
{
    let r = match cmd {
        RenderCommand::ClearFramebuffer(clear) => execute_clear(gpu, clear),
        RenderCommand::WaitVsync => execute_vsync(gpu),
        RenderCommand::SubmitScreenTriangle(tri) => execute_screen_triangle(gpu, tri),
        RenderCommand::SetRenderMode(flags) => gpu.write(registers::RENDER_MODE, flags.to_render_mode()),
        RenderCommand::SetZRange { z_min, z_max } => gpu.set_z_range(*z_min, *z_max),
        RenderCommand::UploadTexture(upload_cmd) => {
            let tex = textures.get_texture(upload_cmd.texture_id);
            let r = execute_upload_texture(gpu, upload_cmd, tex);
            assert(log_after(
                old(gpu).log(),
                gpu.log(),
                command_writes(old(gpu).draw_target(), old(gpu).display_target(), *cmd, upload_lookup(textures, *cmd)),
                r is Ok,
            ));
            return r;
        },
    };
    assert(log_after(
        old(gpu).log(),
        gpu.log(),
        command_writes(old(gpu).draw_target(), old(gpu).display_target(), *cmd, None),
        r is Ok,
    ));
    r
}

/// Submit a pre-packed screen-space triangle to the GPU.
pub fn execute_screen_triangle<S: SpiTransport>(gpu: &mut GpuDriver<S>, cmd: &ScreenTriangleCommand) -> (r: Result<(), GpuError<S::Error>>)
    ensures
        final(gpu).draw_target() == old(gpu).draw_target(),
        final(gpu).display_target() == old(gpu).display_target(),
        log_after(old(gpu).log(), final(gpu).log(), writes(triangle_writes(cmd.v0, cmd.v1, cmd.v2, cmd.textured)), r is Ok),
        r matches Err(e) ==> e is Transport,
{
    gpu.submit_triangle(&cmd.v0, &cmd.v1, &cmd.v2, cmd.textured)
}

/// Clear the framebuffer with hardware MEM_FILL: the colour buffer with the
/// RGB565 form of the colour, then the Z-buffer with the depth value when
/// `clear_depth` is set, each over the whole draw surface
/// (2^(width_log2 + height_log2) words) of the driver's current draw
/// framebuffer.
pub fn execute_clear<S: SpiTransport>(gpu: &mut GpuDriver<S>, cmd: &ClearCommand) -> (r: Result<(), GpuError<S::Error>>)
    requires
        old(gpu).draw_target().2 + old(gpu).draw_target().3 < 32,
    ensures
        final(gpu).draw_target() == old(gpu).draw_target(),
        final(gpu).display_target() == old(gpu).display_target(),
        log_after(old(gpu).log(), final(gpu).log(), clear_writes(old(gpu).draw_target(), *cmd), r is Ok),
        r matches Err(e) ==> e is Transport,
{
    let (color_base, z_base, width_log2, height_log2) = gpu.draw_fb();
    let word_count = 1u32 << (width_log2 as u32 + height_log2 as u32);
    let r = cmd.color[0];
    let g = cmd.color[1];
    let b = cmd.color[2];
    let rgb = rgba_to_rgb565(r, g, b);
    let ghost ops = clear_writes(old(gpu).draw_target(), *cmd);
    match gpu.gpu_mem_fill(color_base, rgb, word_count) {
        Ok(()) => {},
        Err(e) => {
            assert(ops.take(0) =~= Seq::<BusOp>::empty());
            return Err(e);
        },
    }
    if cmd.clear_depth {
        let ghost mid = gpu.log();
        match gpu.gpu_mem_fill(z_base, cmd.depth_value, word_count) {
            Ok(()) => {},
            Err(e) => {
                assert(ops.take(1) =~= seq![ops[0]]);
                assert(gpu.log() =~= old(gpu).log() + ops.take(1));
                return Err(e);
            },
        }
        assert(gpu.log() =~= old(gpu).log() + ops);
    } else {
        assert(gpu.log() =~= old(gpu).log() + ops);
    }
    Ok(())
}

/// Upload a looked-up texture to GPU SDRAM and configure texture unit 0 for
/// it; nothing is written when the lookup found no texture.
pub fn execute_upload_texture<S: SpiTransport>(
    gpu: &mut GpuDriver<S>,
    cmd: &UploadTextureCommand,
    tex: Option<TextureInfo<'_>>,
) -> (r: Result<(), GpuError<S::Error>>)
    ensures
        final(gpu).draw_target() == old(gpu).draw_target(),
        final(gpu).display_target() == old(gpu).display_target(),
        log_after(
            old(gpu).log(),
            final(gpu).log(),
            match tex {
                Some(t) => texture_writes(*cmd, texture_data(t)),
                None => Seq::empty(),
            },
            r is Ok,
        ),
        r matches Err(e) ==> e is Transport,
{
    let tex = match tex {
        Some(t) => t,
        None => {
            assert(gpu.log() =~= old(gpu).log() + Seq::<BusOp>::empty());
            return Ok(());
        },
    };
    let ghost up = writes(upload_writes(cmd.gpu_dword_addr, tex.data@));
    let ghost ops = texture_writes(*cmd, texture_data(tex));
    match gpu.upload_memory(cmd.gpu_dword_addr, tex.data) {
        Ok(()) => {},
        Err(e) => {
            let ghost k = choose|k: int| 0 <= k < up.len() && gpu.log() == old(gpu).log() + up.take(k);
            assert(ops.take(k) =~= up.take(k));
            return Err(e);
        },
    }
    let base_512 = (cmd.gpu_dword_addr >> 6) as u16;
    let cfg: u64 = 1u64 | ((tex.width_log2 as u64) << registers::TEX_CFG_WIDTH_LOG2_SHIFT) | ((
    tex.height_log2 as u64) << registers::TEX_CFG_HEIGHT_LOG2_SHIFT) | ((base_512 as u64)
        << registers::TEX_CFG_BASE_ADDR_SHIFT);
    let ghost mid = gpu.log();
    match gpu.write(registers::TEX0_CFG, cfg) {
        Ok(()) => {},
        Err(e) => {
            assert(ops.take(up.len() as int) =~= up);
            assert(gpu.log() =~= old(gpu).log() + ops.take(up.len() as int));
            return Err(e);
        },
    }
    assert(gpu.log() =~= old(gpu).log() + ops);
    Ok(())
}

/// Wait for vsync and swap framebuffers.
pub fn execute_vsync<S: SpiTransport + FlowControl>(gpu: &mut GpuDriver<S>) -> (r: Result<(), GpuError<S::Error>>)
    ensures
        final(gpu).draw_target() == old(gpu).display_target(),
        final(gpu).display_target() == old(gpu).draw_target(),
        log_after(old(gpu).log(), final(gpu).log(), vsync_ops(old(gpu).draw_target(), old(gpu).display_target()), r is Ok),
        r matches Err(e) ==> e is Transport,
{
    gpu.wait_vsync();
    let ghost waited = gpu.log();
    let r = gpu.swap_buffers();
    let ghost ops = vsync_ops(old(gpu).draw_target(), old(gpu).display_target());
    let ghost swap = swap_writes(old(gpu).draw_target(), old(gpu).display_target());
    proof {
        if r is Ok {
            assert(gpu.log() =~= old(gpu).log() + ops);
        } else {
            let k = choose|k: int| 0 <= k < swap.len() && gpu.log() == waited + swap.take(k);
            assert(ops.take(k + 1) =~= seq![BusOp::VsyncWait] + swap.take(k));
            assert(gpu.log() =~= old(gpu).log() + ops.take(k + 1));
        }
    }
    r
}

/// A clear fills memory with MEM_FILL only: one fill for the colour buffer,
/// a second for the Z-buffer exactly when depth is cleared, and no other
/// register (RENDER_MODE in particular) is touched. Both fills cover the
/// same number of words.
pub proof fn law_clear_uses_mem_fill_only(fb: (u16, u16, u8, u8), cmd: ClearCommand)
    ensures
        clear_writes(fb, cmd).len() == (if cmd.clear_depth { 2int } else { 1int }),
        forall|i: int|
            0 <= i < clear_writes(fb, cmd).len() ==> (#[trigger] clear_writes(fb, cmd)[i] matches BusOp::Write { addr, .. } && addr == registers::MEM_FILL),
{
}

} // verus!
