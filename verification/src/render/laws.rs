//! What the register words of vertex submission, render flags, texture setup
//! and framebuffer clears mean, read back bit by bit.
use vstd::prelude::*;

use vstd::arithmetic::power2::{lemma2_to64, lemma_pow2_strictly_increases, pow2};
use vstd::bits::{lemma_u32_pow2_no_overflow, lemma_u32_shl_is_mul};

use crate::gpu::driver::{kick_register, triangle_writes, vertex_writes, BusOp, VertexKick};
use crate::gpu::laws::law_mem_fill_fields;
use crate::gpu::vertex::GpuVertex;
use crate::render::commands::{clear_writes, rgb565, surface_words, tex_cfg_word, texture_writes, TextureData};
use crate::render::{render_flags_word, ClearCommand, RenderFlags, UploadTextureCommand};

verus! {

/// Each kick mode sends the vertex position, last of the vertex's writes, to
/// a register of its own: no kick to VERTEX_NOKICK (0x06), the kick that
/// emits triangle (v0, v1, v2) to VERTEX_KICK_012 (0x07), and the one that
/// emits it with reversed winding (v0, v2, v1) to VERTEX_KICK_021 (0x08).
/// Submitting a whole triangle kicks with the standard winding.
pub proof fn law_kick_registers(
    v: GpuVertex,
    kick: VertexKick,
    other: VertexKick,
    textured: bool,
    v0: GpuVertex,
    v1: GpuVertex,
)
    ensures
        vertex_writes(v, kick_register(kick), textured).last() == (kick_register(kick), v.position_packed),
        kick_register(VertexKick::NoKick) == 0x06u8,
        kick_register(VertexKick::Kick012) == 0x07u8,
        kick_register(VertexKick::Kick021) == 0x08u8,
        kick_register(kick) == kick_register(other) ==> kick == other,
        triangle_writes(v0, v1, v, textured).last() == (0x07u8, v.position_packed),
{
}

proof fn lemma_flag_bits(g: bool, zt: bool, zw: bool, cw: bool, w: u64)
    by (bit_vector)
    requires
        w == (if g { 1u64 } else { 0u64 }) | (if zt { 4u64 } else { 0u64 }) | (if zw { 8u64 } else { 0u64 }) | (
        if cw { 0x10u64 } else { 0u64 }),
    ensures
        (w & 0x1 != 0) == g,
        (w & 0x4 != 0) == zt,
        (w & 0x8 != 0) == zw,
        (w & 0x10 != 0) == cw,
        w & !0x1Du64 == 0,
{
}

/// Each RENDER_MODE bit of a patch's render flags follows its own flag
/// alone: GOURAUD is bit 0, Z_TEST bit 2, Z_WRITE bit 3, COLOR_WRITE bit 4,
/// and no other bit is set (texturing is not a RENDER_MODE bit).
pub proof fn law_render_flags_bits(f: RenderFlags)
    ensures
        (render_flags_word(f) & 0x1 != 0) == f.gouraud,
        (render_flags_word(f) & 0x4 != 0) == f.z_test,
        (render_flags_word(f) & 0x8 != 0) == f.z_write,
        (render_flags_word(f) & 0x10 != 0) == f.color_write,
        render_flags_word(f) & !0x1Du64 == 0,
{
    lemma_flag_bits(f.gouraud, f.z_test, f.z_write, f.color_write, render_flags_word(f));
}

proof fn lemma_tex_cfg_bits(addr: u32, w: u8, h: u8, word: u64)
    by (bit_vector)
    requires
        w < 16,
        h < 16,
        word == 1u64 | ((w as u64) << 8u64) | ((h as u64) << 12u64) | ((((addr >> 6u32) as u16) as u64) << 32u64),
    ensures
        word & 1 == 1,
        (word >> 8u64) & 0xF == w as u64,
        (word >> 12u64) & 0xF == h as u64,
        (word >> 32u64) & 0xFFFF == ((addr >> 6u32) & 0xFFFF) as u64,
        (word >> 48u64) == 0,
        word & 0xFFFF_00FE == 0,
{
}

/// An upload ends by pointing texture unit 0 at the texture: a TEX0_CFG
/// (0x10) write whose bit 0 enables the unit, bits \[11:8\] hold the width
/// exponent and \[15:12\] the height exponent of the texture, and \[47:32\]
/// the base address in 512-byte units (the dword address over 64, low 16
/// bits); every other bit is clear. Exponents fit the 4-bit fields.
pub proof fn law_texture_config(cmd: UploadTextureCommand, tex: TextureData)
    requires
        tex.width_log2 < 16,
        tex.height_log2 < 16,
    ensures
        texture_writes(cmd, tex).last() matches BusOp::Write { addr, data } && addr == 0x10u8 && data & 1 == 1
            && (data >> 8u64) & 0xF == tex.width_log2 as u64 && (data >> 12u64) & 0xF == tex.height_log2 as u64
            && (data >> 32u64) & 0xFFFF == ((cmd.gpu_dword_addr >> 6u32) & 0xFFFF) as u64 && (data >> 48u64) == 0
            && data & 0xFFFF_00FE == 0,
{
    lemma_tex_cfg_bits(
        cmd.gpu_dword_addr,
        tex.width_log2,
        tex.height_log2,
        tex_cfg_word(cmd.gpu_dword_addr, tex.width_log2, tex.height_log2),
    );
}

/// The number of 16-bit words in a 2^w x 2^h surface is 2^(w + h).
proof fn lemma_surface_words(w: u8, h: u8)
    requires
        w + h < 32,
    ensures
        surface_words(w, h) == pow2((w + h) as nat),
{
    let k: u32 = (w as u32 + h as u32) as u32;
    lemma_u32_pow2_no_overflow(k as nat);
    lemma_u32_shl_is_mul(1u32, k);
    assert(surface_words(w, h) == 1u32 << k);
}

/// A clear covers the whole draw surface: each of its MEM_FILL writes (one
/// for the colour buffer, at the framebuffer's colour base, and one for the
/// Z-buffer, at its Z base, when depth is cleared) has FILL_COUNT \[59:40\]
/// equal to 2^(width_log2 + height_log2), the number of 16-bit words of a
/// 2^width_log2 x 2^height_log2 surface, as long as that fits the 20-bit
/// field.
pub proof fn law_clear_fills_whole_surface(fb: (u16, u16, u8, u8), cmd: ClearCommand)
    requires
        fb.2 + fb.3 < 20,
    ensures
        forall|i: int|
            0 <= i < clear_writes(fb, cmd).len() ==> (#[trigger] clear_writes(fb, cmd)[i] matches BusOp::Write {
                addr,
                data,
            } && addr == 0x44u8 && (data >> 40u64) & 0xF_FFFF == pow2((fb.2 + fb.3) as nat) && data & 0xFF_FFFF == (
            if i == 0 {
                fb.0
            } else {
                fb.1
            }) as u64),
{
    let n = surface_words(fb.2, fb.3);
    lemma_surface_words(fb.2, fb.3);
    lemma2_to64();
    lemma_pow2_strictly_increases((fb.2 + fb.3) as nat, 20);
    assert(n < 0x10_0000);
    law_mem_fill_fields(fb.0, rgb565(cmd.color[0], cmd.color[1], cmd.color[2]) as u16, n);
    law_mem_fill_fields(fb.1, cmd.depth_value, n);
}

} // verus!
