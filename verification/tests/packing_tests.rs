//! Register constants and packing helpers.

use pico_racer::gpu::driver::{
    pack_combiner_cycle, pack_const_color, pack_fb_config, pack_fb_display, pack_mem_fill,
    pack_render_mode, pack_scissor, pack_z_range, CcRgbCSource, CcSource, CombinerCycle,
};
use pico_racer::gpu::registers;
use pico_racer::gpu::registers::{AlphaTestFunc, CullMode, ZCompare};
use pico_racer::gpu::vertex::{pack_color, pack_position_fixed, pack_uv_fixed};
use pico_racer::math::fixed::rgba_to_packed;
use pico_racer::render::commands::rgba_to_rgb565;
use pico_racer::render::RenderFlags;

#[test]
fn white_opaque() {
    assert_eq!(rgba_to_packed(255, 255, 255, 255), 0xFFFF_FFFF);
}

#[test]
fn red_opaque() {
    assert_eq!(rgba_to_packed(255, 0, 0, 255), 0xFF00_00FF);
}

#[test]
fn green_opaque() {
    assert_eq!(rgba_to_packed(0, 255, 0, 255), 0xFF00_FF00);
}

#[test]
fn blue_opaque() {
    assert_eq!(rgba_to_packed(0, 0, 255, 255), 0xFFFF_0000);
}

#[test]
fn transparent_black() {
    assert_eq!(rgba_to_packed(0, 0, 0, 0), 0x0000_0000);
}

#[test]
fn pack_color_matches_u64() {
    let r = 128u8;
    let g = 64u8;
    let b = 32u8;
    let a = 255u8;
    let packed32 = rgba_to_packed(r, g, b, a);
    let packed64 = pack_color(r, g, b, a);
    assert_eq!(packed32 as u64, packed64);
}

#[test]
fn render_mode_address() {
    assert_eq!(registers::RENDER_MODE, 0x30);
}

#[test]
fn z_range_address() {
    assert_eq!(registers::Z_RANGE, 0x31);
}

#[test]
fn gouraud_bit_0() {
    assert_eq!(registers::RENDER_MODE_GOURAUD, 1 << 0);
}

#[test]
fn z_test_bit_2() {
    assert_eq!(registers::RENDER_MODE_Z_TEST, 1 << 2);
}

#[test]
fn z_write_bit_3() {
    assert_eq!(registers::RENDER_MODE_Z_WRITE, 1 << 3);
}

#[test]
fn color_write_bit_4() {
    assert_eq!(registers::RENDER_MODE_COLOR_WRITE, 0x10);
}

#[test]
fn z_compare_enum_discriminants() {
    assert_eq!(ZCompare::Less as u8, 0);
    assert_eq!(ZCompare::Lequal as u8, 1);
    assert_eq!(ZCompare::Always as u8, 6);
}

#[test]
fn color_write_true_sets_bit4() {
    let flags = RenderFlags {
        gouraud: false,
        textured: false,
        z_test: false,
        z_write: false,
        color_write: true,
    };
    assert_ne!(flags.to_render_mode() & registers::RENDER_MODE_COLOR_WRITE, 0);
}

#[test]
fn color_write_false_clears_bit4() {
    let flags = RenderFlags {
        gouraud: false,
        textured: false,
        z_test: false,
        z_write: false,
        color_write: false,
    };
    assert_eq!(flags.to_render_mode() & registers::RENDER_MODE_COLOR_WRITE, 0);
}

#[test]
fn to_tri_mode_alias_matches() {
    let flags = RenderFlags {
        gouraud: true,
        textured: false,
        z_test: true,
        z_write: true,
        color_write: true,
    };
    assert_eq!(flags.to_tri_mode(), flags.to_render_mode());
}

#[test]
fn z_prepass_flags() {
    let flags = RenderFlags {
        gouraud: false,
        textured: false,
        z_test: true,
        z_write: true,
        color_write: false,
    };
    let mode = flags.to_render_mode();
    assert_ne!(mode & registers::RENDER_MODE_Z_TEST, 0);
    assert_ne!(mode & registers::RENDER_MODE_Z_WRITE, 0);
    assert_eq!(mode & registers::RENDER_MODE_COLOR_WRITE, 0);
}

#[test]
fn all_flags_set() {
    let flags = RenderFlags {
        gouraud: true,
        textured: true,
        z_test: true,
        z_write: true,
        color_write: true,
    };
    let mode = flags.to_render_mode();
    let expected = registers::RENDER_MODE_GOURAUD
        | registers::RENDER_MODE_Z_TEST
        | registers::RENDER_MODE_Z_WRITE
        | registers::RENDER_MODE_COLOR_WRITE;
    assert_eq!(mode, expected);
}

#[test]
fn full_range_disabled() {
    assert_eq!(pack_z_range(0x0000, 0xFFFF), 0x0000_0000_FFFF_0000);
}

#[test]
fn restricted_range() {
    assert_eq!(pack_z_range(0x1000, 0xF000), 0x0000_0000_F000_1000);
}

#[test]
fn min_field_in_lower_16() {
    let packed = pack_z_range(0xABCD, 0x0000);
    assert_eq!(packed & 0xFFFF, 0xABCD);
}

#[test]
fn max_field_in_bits_31_16() {
    let packed = pack_z_range(0x0000, 0x1234);
    assert_eq!((packed >> 16) & 0xFFFF, 0x1234);
}

#[test]
fn upper_32_bits_zero() {
    let packed = pack_z_range(0xFFFF, 0xFFFF);
    assert_eq!(packed >> 32, 0);
}

// Position packing over the GPU fixed-point conversions.

fn f32_to_12_4(val: f32) -> u16 {
    let clamped = val.clamp(-2048.0, 2047.9375);
    let scaled = (clamped * 16.0) as i16;
    scaled as u16
}

fn f32_to_z25(val: f32) -> u32 {
    let clamped = val.clamp(0.0, 1.0);
    let scaled = (clamped * 0x1FF_FFFFu32 as f32) as u32;
    scaled.min(0x1FF_FFFF)
}

fn f32_to_1_15(val: f32) -> u16 {
    let clamped = val.clamp(-1.0, 0.99997);
    let scaled = (clamped * 32768.0) as i16;
    scaled as u16
}

fn pack_position(x: f32, y: f32, z: f32) -> u64 {
    pack_position_fixed(f32_to_12_4(x), f32_to_12_4(y), f32_to_z25(z))
}

#[test]
fn origin_near() {
    assert_eq!(pack_position(0.0, 0.0, 0.0), 0);
}

#[test]
fn x_field_position() {
    let packed = pack_position(1.0, 0.0, 0.0);
    assert_eq!(packed & 0xFFFF, 16);
}

#[test]
fn y_field_position() {
    let packed = pack_position(0.0, 1.0, 0.0);
    assert_eq!((packed >> 16) & 0xFFFF, 16);
}

#[test]
fn z_field_far() {
    let packed = pack_position(0.0, 0.0, 1.0);
    let z = ((packed >> 32) & 0x1FF_FFFF) as u32;
    assert_eq!(z, 0x1FF_FFFF);
}

#[test]
fn screen_center() {
    let packed = pack_position(320.0, 240.0, 0.5);
    let x = (packed & 0xFFFF) as u16 as i16;
    let y = ((packed >> 16) & 0xFFFF) as u16 as i16;
    assert_eq!(x, 320 * 16);
    assert_eq!(y, 240 * 16);
}

#[test]
fn negative_coordinate_keeps_sign_bits_in_field() {
    let packed = pack_position(-1.0, 0.0, 0.0);
    assert_eq!(packed, 0xFFF0);
}

#[test]
fn uv_fields() {
    let packed = pack_uv_fixed(f32_to_1_15(0.5), f32_to_1_15(-0.5), f32_to_1_15(1.0));
    assert_eq!(packed & 0xFFFF, 0x4000);
    assert_eq!((packed >> 16) & 0xFFFF, 0xC000);
    assert_eq!(packed >> 32, 0x7FFF);
}

#[test]
fn rgb565_conversion() {
    assert_eq!(rgba_to_rgb565(255, 255, 255), 0xFFFF);
    assert_eq!(rgba_to_rgb565(255, 0, 0), 0xF800);
    assert_eq!(rgba_to_rgb565(0, 255, 0), 0x07E0);
    assert_eq!(rgba_to_rgb565(0, 0, 255), 0x001F);
    assert_eq!(rgba_to_rgb565(7, 3, 7), 0);
}

#[test]
fn fb_config_and_display_words() {
    assert_eq!(pack_fb_config(0x0100, 0x0200, 9, 8), 0x0000_0089_0200_0100);
    assert_eq!(pack_fb_display(0x0400, 9), 0x0009_0400_0000_0000);
}

#[test]
fn mem_fill_count_above_field_wraps() {
    // Bits of the count above bit 63 of the word fall off.
    assert_eq!(pack_mem_fill(1, 2, 0x0100_0001), (2u64 << 24) | 1 | (1u64 << 40));
}

#[test]
fn scissor_masks_to_ten_bits() {
    assert_eq!(pack_scissor(1024, 1025, 1, 0), (1u64 << 10) | (1u64 << 20));
}

#[test]
fn const_color_word() {
    assert_eq!(pack_const_color(0x1122_3344, 0x5566_7788), 0x5566_7788_1122_3344);
}

#[test]
fn render_mode_every_field() {
    let w = pack_render_mode(
        true,
        false,
        true,
        false,
        ZCompare::Never,
        CullMode::CullCcw,
        false,
        true,
        AlphaTestFunc::AtNotequal,
        0xAB,
    );
    assert_eq!(w, 1 | (1 << 3) | (2 << 5) | (7 << 13) | (1 << 16) | (3 << 17) | (0xAB << 19));
}

#[test]
fn combiner_cycle_nibbles() {
    let c = CombinerCycle {
        rgb_a: CcSource::Shade1,
        rgb_b: CcSource::Const1,
        rgb_c: CcRgbCSource::Shade1Alpha,
        rgb_d: CcSource::One,
        alpha_a: CcSource::Combined,
        alpha_b: CcSource::TexColor1,
        alpha_c: CcSource::Const0,
        alpha_d: CcSource::Shade0,
    };
    assert_eq!(pack_combiner_cycle(&c), 0x6E58_3420);
}
