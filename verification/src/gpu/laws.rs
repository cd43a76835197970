//! Properties of the register formats and of the driver as a whole.
use vstd::prelude::*;

use crate::gpu::driver::{
    combiner_cycle_word, const_color_word, fb_config_word, log_after, mem_fill_word,
    render_mode_word, scissor_word, write_frame, z_range_word, BusOp, CombinerCycle, GpuDriver,
    cc_mode_word, cc_rgb_c_code, cc_source_code, flag_bit,
};
use crate::gpu::registers::{alpha_test_code, cull_mode_code, z_compare_code};
use crate::hal::SpiTransport;
use crate::math::fixed::abgr_word;
use crate::render::commands::rgb565;
use crate::transport::be_value;

verus! {

/// Every driver call only appends to the bus log, successful or not: what the
/// transport did earlier is never rewritten.
pub proof fn law_log_only_grows(before: Seq<BusOp>, after: Seq<BusOp>, ops: Seq<BusOp>, ok: bool)
    requires
        log_after(before, after, ops, ok),
    ensures
        after.len() >= before.len(),
        after.subrange(0, before.len() as int) == before,
{
    if ok {
        assert(after.subrange(0, before.len() as int) =~= before);
    } else {
        let k = choose|k: int| 0 <= k < ops.len() && after == before + ops.take(k);
        assert(after.subrange(0, before.len() as int) =~= before);
    }
}

/// Swapping the framebuffers twice gives back the draw and display targets
/// that were there before.
pub proof fn law_swap_twice_restores<S: SpiTransport>(
    d0: GpuDriver<S>,
    d1: GpuDriver<S>,
    d2: GpuDriver<S>,
)
    requires
        d1.draw_target() == d0.display_target(),
        d1.display_target() == d0.draw_target(),
        d2.draw_target() == d1.display_target(),
        d2.display_target() == d1.draw_target(),
    ensures
        d2.draw_target() == d0.draw_target(),
        d2.display_target() == d0.display_target(),
{
}

/// FB_CONFIG fields read back from the packed word: COLOR_BASE from bits
/// \[15:0\], Z_BASE from \[31:16\], and the exponents from \[35:32\] and \[39:36\]
/// when they fit in four bits.
pub proof fn law_fb_config_fields(color_base: u16, z_base: u16, width_log2: u8, height_log2: u8)
    by (bit_vector)
    requires
        width_log2 < 16,
        height_log2 < 16,
    ensures
        fb_config_word(color_base, z_base, width_log2, height_log2) & 0xFFFF == color_base as u64,
        (fb_config_word(color_base, z_base, width_log2, height_log2) >> 16u64) & 0xFFFF
            == z_base as u64,
        (fb_config_word(color_base, z_base, width_log2, height_log2) >> 32u64) & 0xF
            == width_log2 as u64,
        (fb_config_word(color_base, z_base, width_log2, height_log2) >> 36u64) & 0xF
            == height_log2 as u64,
        fb_config_word(color_base, z_base, width_log2, height_log2) >> 40u64 == 0,
{
}

/// MEM_FILL fields read back from the packed word: BASE from bits \[23:0\],
/// FILL_VALUE from \[39:24\], and FILL_COUNT from \[59:40\] when it fits in 20 bits.
pub proof fn law_mem_fill_fields(base: u16, value: u16, count: u32)
    by (bit_vector)
    requires
        count < 0x10_0000,
    ensures
        mem_fill_word(base, value, count) & 0xFF_FFFF == base as u64,
        (mem_fill_word(base, value, count) >> 24u64) & 0xFFFF == value as u64,
        (mem_fill_word(base, value, count) >> 40u64) & 0xF_FFFF == count as u64,
        mem_fill_word(base, value, count) >> 60u64 == 0,
{
}

/// Scissor fields read back from the FB_CONTROL word when each fits in 10 bits.
pub proof fn law_scissor_fields(x: u16, y: u16, width: u16, height: u16)
    by (bit_vector)
    requires
        x < 1024,
        y < 1024,
        width < 1024,
        height < 1024,
    ensures
        scissor_word(x, y, width, height) & 0x3FF == x as u64,
        (scissor_word(x, y, width, height) >> 10u64) & 0x3FF == y as u64,
        (scissor_word(x, y, width, height) >> 20u64) & 0x3FF == width as u64,
        (scissor_word(x, y, width, height) >> 30u64) & 0x3FF == height as u64,
        scissor_word(x, y, width, height) >> 40u64 == 0,
{
}

/// CONST_COLOR holds CONST0 in its low half and CONST1 in its high half.
pub proof fn law_const_color_halves(const0: u32, const1: u32)
    by (bit_vector)
    ensures
        const_color_word(const0, const1) & 0xFFFF_FFFF == const0 as u64,
        const_color_word(const0, const1) >> 32u64 == const1 as u64,
{
}

/// Z_RANGE holds Z_MIN in bits \[15:0\] and Z_MAX in \[31:16\]; the upper 32
/// bits are zero.
pub proof fn law_z_range_fields(z_min: u16, z_max: u16)
    by (bit_vector)
    ensures
        z_range_word(z_min, z_max) & 0xFFFF == z_min as u64,
        (z_range_word(z_min, z_max) >> 16u64) & 0xFFFF == z_max as u64,
        z_range_word(z_min, z_max) >> 32u64 == 0,
{
}

proof fn cycle_nibbles(aa: u64, ab: u64, ac: u64, ad: u64, ra: u64, rb: u64, rc: u64, rd: u64)
    by (bit_vector)
    requires
        aa < 16 && ab < 16 && ac < 16 && ad < 16 && ra < 16 && rb < 16 && rc < 16 && rd < 16,
    ensures
        ({
            let w = aa | (ab << 4u64) | (ac << 8u64) | (ad << 12u64) | (ra << 16u64) | (rb
                << 20u64) | (rc << 24u64) | (rd << 28u64);
            &&& w & 0xF == aa
            &&& (w >> 4u64) & 0xF == ab
            &&& (w >> 8u64) & 0xF == ac
            &&& (w >> 12u64) & 0xF == ad
            &&& (w >> 16u64) & 0xF == ra
            &&& (w >> 20u64) & 0xF == rb
            &&& (w >> 24u64) & 0xF == rc
            &&& (w >> 28u64) & 0xF == rd
            &&& w < 0x1_0000_0000
        }),
{
}

proof fn split_halves(lo: u64, hi: u64)
    by (bit_vector)
    requires
        lo < 0x1_0000_0000,
        hi < 0x1_0000_0000,
    ensures
        (lo | (hi << 32u64)) & 0xFFFF_FFFF == lo,
        (lo | (hi << 32u64)) >> 32u64 == hi,
{
}

/// Each source selector of a combiner cycle reads back from its nibble of the
/// cycle word: ALPHA_A..D in \[15:0\], RGB_A..D in \[31:16\].
pub proof fn law_combiner_cycle_fields(c: CombinerCycle)
    ensures
        combiner_cycle_word(c) & 0xF == cc_source_code(c.alpha_a),
        (combiner_cycle_word(c) >> 4u64) & 0xF == cc_source_code(c.alpha_b),
        (combiner_cycle_word(c) >> 8u64) & 0xF == cc_source_code(c.alpha_c),
        (combiner_cycle_word(c) >> 12u64) & 0xF == cc_source_code(c.alpha_d),
        (combiner_cycle_word(c) >> 16u64) & 0xF == cc_source_code(c.rgb_a),
        (combiner_cycle_word(c) >> 20u64) & 0xF == cc_source_code(c.rgb_b),
        (combiner_cycle_word(c) >> 24u64) & 0xF == cc_rgb_c_code(c.rgb_c),
        (combiner_cycle_word(c) >> 28u64) & 0xF == cc_source_code(c.rgb_d),
        combiner_cycle_word(c) < 0x1_0000_0000,
{
    cycle_nibbles(
        cc_source_code(c.alpha_a),
        cc_source_code(c.alpha_b),
        cc_source_code(c.alpha_c),
        cc_source_code(c.alpha_d),
        cc_source_code(c.rgb_a),
        cc_source_code(c.rgb_b),
        cc_rgb_c_code(c.rgb_c),
        cc_source_code(c.rgb_d),
    );
}

/// CC_MODE holds cycle 0 in its low half and cycle 1 in its high half.
pub proof fn law_cc_mode_halves(c0: CombinerCycle, c1: CombinerCycle)
    ensures
        cc_mode_word(c0, c1) & 0xFFFF_FFFF == combiner_cycle_word(c0),
        cc_mode_word(c0, c1) >> 32u64 == combiner_cycle_word(c1),
{
    law_combiner_cycle_fields(c0);
    law_combiner_cycle_fields(c1);
    split_halves(combiner_cycle_word(c0), combiner_cycle_word(c1));
}

proof fn render_mode_bits(
    g: u64,
    zt: u64,
    zw: u64,
    cw: u64,
    cm: u64,
    d: u64,
    zc: u64,
    st: u64,
    at: u64,
    ar: u64,
)
    by (bit_vector)
    requires
        g < 2 && zt < 2 && zw < 2 && cw < 2 && d < 2 && st < 2,
        cm < 4,
        zc < 8,
        at < 4,
        ar < 256,
    ensures
        ({
            let w = g | (zt << 2u64) | (zw << 3u64) | (cw << 4u64) | (cm << 5u64) | (d << 10u64) | (
            zc << 13u64) | (st << 16u64) | (at << 17u64) | (ar << 19u64);
            &&& w & 1 == g
            &&& (w >> 1u64) & 1 == 0
            &&& (w >> 2u64) & 1 == zt
            &&& (w >> 3u64) & 1 == zw
            &&& (w >> 4u64) & 1 == cw
            &&& (w >> 5u64) & 3 == cm
            &&& (w >> 7u64) & 7 == 0
            &&& (w >> 10u64) & 1 == d
            &&& (w >> 11u64) & 3 == 0
            &&& (w >> 13u64) & 7 == zc
            &&& (w >> 16u64) & 1 == st
            &&& (w >> 17u64) & 3 == at
            &&& (w >> 19u64) & 0xFF == ar
            &&& w >> 27u64 == 0
        }),
{
}

/// Each RENDER_MODE field reads back from its bit position; the reserved
/// bits \[1\], \[9:7\], \[12:11\] and everything from bit 27 up are zero.
pub proof fn law_render_mode_fields(
    gouraud: bool,
    z_test: bool,
    z_write: bool,
    color_write: bool,
    z_compare: crate::gpu::registers::ZCompare,
    cull_mode: crate::gpu::registers::CullMode,
    dither: bool,
    stipple_en: bool,
    alpha_test: crate::gpu::registers::AlphaTestFunc,
    alpha_ref: u8,
)
    ensures
        ({
            let w = render_mode_word(
                gouraud,
                z_test,
                z_write,
                color_write,
                z_compare,
                cull_mode,
                dither,
                stipple_en,
                alpha_test,
                alpha_ref,
            );
            &&& w & 1 == flag_bit(gouraud)
            &&& (w >> 1u64) & 1 == 0
            &&& (w >> 2u64) & 1 == flag_bit(z_test)
            &&& (w >> 3u64) & 1 == flag_bit(z_write)
            &&& (w >> 4u64) & 1 == flag_bit(color_write)
            &&& (w >> 5u64) & 3 == cull_mode_code(cull_mode)
            &&& (w >> 7u64) & 7 == 0
            &&& (w >> 10u64) & 1 == flag_bit(dither)
            &&& (w >> 11u64) & 3 == 0
            &&& (w >> 13u64) & 7 == z_compare_code(z_compare)
            &&& (w >> 16u64) & 1 == flag_bit(stipple_en)
            &&& (w >> 17u64) & 3 == alpha_test_code(alpha_test)
            &&& (w >> 19u64) & 0xFF == alpha_ref as u64
            &&& w >> 27u64 == 0
        }),
{
    render_mode_bits(
        flag_bit(gouraud),
        flag_bit(z_test),
        flag_bit(z_write),
        flag_bit(color_write),
        cull_mode_code(cull_mode),
        flag_bit(dither),
        z_compare_code(z_compare),
        flag_bit(stipple_en),
        alpha_test_code(alpha_test),
        alpha_ref as u64,
    );
}

proof fn frame_bytes(data: u64)
    by (bit_vector)
    ensures
        ((data >> 56u64) & 0xFF) * 0x100_0000_0000_0000u64 + ((data >> 48u64) & 0xFF)
            * 0x1_0000_0000_0000u64 + ((data >> 40u64) & 0xFF) * 0x100_0000_0000u64 + ((data
            >> 32u64) & 0xFF) * 0x1_0000_0000u64 + ((data >> 24u64) & 0xFF) * 0x100_0000u64 + ((
        data >> 16u64) & 0xFF) * 0x1_0000u64 + ((data >> 8u64) & 0xFF) * 0x100u64 + (data & 0xFF)
            == data,
{
}

/// A register write frame carries the address with bit 7 clear (a write) and
/// the data, which reads back exactly as the big-endian value of bytes 1..9.
pub proof fn law_write_frame_round_trip(addr: u8, data: u64)
    ensures
        write_frame(addr, data).len() == 9,
        write_frame(addr, data)[0] < 0x80,
        write_frame(addr, data)[0] == addr % 0x80,
        be_value(write_frame(addr, data)) == data,
{
    assert((addr & 0x7F) < 0x80 && (addr & 0x7F) == addr % 0x80) by (bit_vector);
    frame_bytes(data);
    assert(((data >> 56u64) & 0xFF) < 256 && ((data >> 48u64) & 0xFF) < 256 && ((data >> 40u64)
        & 0xFF) < 256 && ((data >> 32u64) & 0xFF) < 256 && ((data >> 24u64) & 0xFF) < 256 && ((
    data >> 16u64) & 0xFF) < 256 && ((data >> 8u64) & 0xFF) < 256 && (data & 0xFF) < 256)
        by (bit_vector);
}

/// The 64-bit COLOR word and the 32-bit packed colour agree: the ABGR layout
/// fits in 32 bits, with each channel in its own byte.
pub proof fn law_abgr_channels(r: u8, g: u8, b: u8, a: u8)
    ensures
        abgr_word(r, g, b, a) < 0x1_0000_0000,
        abgr_word(r, g, b, a) % 0x100 == r,
        (abgr_word(r, g, b, a) / 0x100) % 0x100 == g,
        (abgr_word(r, g, b, a) / 0x1_0000) % 0x100 == b,
        abgr_word(r, g, b, a) / 0x100_0000 == a,
{
    assert(abgr_word(r, g, b, a) < 0x1_0000_0000 && abgr_word(r, g, b, a) % 0x100 == r && (
    abgr_word(r, g, b, a) / 0x100) % 0x100 == g && (abgr_word(r, g, b, a) / 0x1_0000) % 0x100
        == b && abgr_word(r, g, b, a) / 0x100_0000 == a) by (nonlinear_arith)
        requires
            abgr_word(r, g, b, a) == r + g * 0x100 + b * 0x1_0000 + a * 0x100_0000,
            r < 256 && g < 256 && b < 256 && a < 256,
    ;
}

/// RGB565 keeps the top 5 bits of red in \[15:11\], the top 6 of green in
/// \[10:5\] and the top 5 of blue in \[4:0\].
pub proof fn law_rgb565_channels(r: u8, g: u8, b: u8)
    ensures
        rgb565(r, g, b) < 0x1_0000,
        rgb565(r, g, b) / 2048 == r / 8,
        (rgb565(r, g, b) / 32) % 64 == g / 4,
        rgb565(r, g, b) % 32 == b / 8,
{
    assert(rgb565(r, g, b) < 0x1_0000 && rgb565(r, g, b) / 2048 == r / 8 && (rgb565(r, g, b) / 32)
        % 64 == g / 4 && rgb565(r, g, b) % 32 == b / 8) by (nonlinear_arith)
        requires
            rgb565(r, g, b) == (r / 8) * 2048 + (g / 4) * 32 + b / 8,
            r < 256 && g < 256 && b < 256,
    ;
}

} // verus!
