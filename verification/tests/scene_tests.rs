use pico_racer::assets::teapot::{teapot_indices, MAX_TRIANGLES, MAX_VERTICES};
use pico_racer::assets::textures::{checkerboard_64, StaticTextureSource, CHECKER_DARK, CHECKER_LIGHT};
use pico_racer::camera::CameraMode;
use pico_racer::hal::InputEvent;
use pico_racer::input::{latch_keycode, map_keycode, poll_keyboard, KeyEvent, HID_KEY_1, HID_KEY_2, HID_KEY_3};
use pico_racer::render::commands::TextureSource;
use pico_racer::scene::demos::{gouraud_triangle_vertices, textured_triangle_vertices, Demo};
use pico_racer::transport::{decode_read_response, register_read_frame, register_write_frame};
use pico_racer::vehicle::WheelIndex;

fn f32_to_12_4(val: f32) -> u16 {
    let clamped = val.clamp(-2048.0, 2047.9375);
    ((clamped * 16.0) as i16) as u16
}

fn f32_to_z25(val: f32) -> u32 {
    let clamped = val.clamp(0.0, 1.0);
    ((clamped * 0x1FF_FFFFu32 as f32) as u32).min(0x1FF_FFFF)
}

fn f32_to_1_15(val: f32) -> u16 {
    let clamped = val.clamp(-1.0, 0.99997);
    ((clamped * 32768.0) as i16) as u16
}

fn position(x: f32, y: f32, z: f32) -> u64 {
    ((f32_to_z25(z) as u64) << 32) | ((f32_to_12_4(y) as u64) << 16) | (f32_to_12_4(x) as u64)
}

fn uv(u: f32, v: f32, w: f32) -> u64 {
    let inv_w = 1.0 / w;
    ((f32_to_1_15(inv_w) as u64) << 32)
        | ((f32_to_1_15(v * inv_w) as u64) << 16)
        | (f32_to_1_15(u * inv_w) as u64)
}

#[test]
fn demo_from_index() {
    assert_eq!(Demo::from_index(0), Some(Demo::GouraudTriangle));
    assert_eq!(Demo::from_index(1), Some(Demo::TexturedTriangle));
    assert_eq!(Demo::from_index(2), Some(Demo::SpinningTeapot));
    assert_eq!(Demo::from_index(3), None);
    assert_eq!(Demo::from_index(255), None);
    assert_eq!(Demo::default(), Demo::GouraudTriangle);
}

#[test]
fn keys_select_demos() {
    assert_eq!(map_keycode(HID_KEY_1), Some(KeyEvent::SelectDemo(Demo::GouraudTriangle)));
    assert_eq!(map_keycode(HID_KEY_2), Some(KeyEvent::SelectDemo(Demo::TexturedTriangle)));
    assert_eq!(map_keycode(HID_KEY_3), Some(KeyEvent::SelectDemo(Demo::SpinningTeapot)));
    assert_eq!(map_keycode(0x21), None);
    assert_eq!(map_keycode(0), None);
    let mut pending = None;
    assert_eq!(poll_keyboard(&mut pending), None);
    latch_keycode(&mut pending, HID_KEY_2);
    latch_keycode(&mut pending, 0);
    assert_eq!(poll_keyboard(&mut pending), Some(KeyEvent::SelectDemo(Demo::TexturedTriangle)));
    assert_eq!(pending, None);
    assert_eq!(poll_keyboard(&mut pending), None);
    latch_keycode(&mut pending, 0x04);
    assert_eq!(poll_keyboard(&mut pending), None);
}

#[test]
fn key_and_input_event_agree() {
    for i in 0u8..3 {
        let InputEvent::SelectDemo(idx) = InputEvent::SelectDemo(i);
        assert_eq!(
            map_keycode(HID_KEY_1 + i),
            Demo::from_index(idx).map(KeyEvent::SelectDemo)
        );
    }
}

#[test]
fn gouraud_vertices_match_float_packing() {
    let v = gouraud_triangle_vertices();
    assert_eq!(v[0].color_packed, 0xFF00_00FF);
    assert_eq!(v[1].color_packed, 0xFF00_FF00);
    assert_eq!(v[2].color_packed, 0xFFFF_0000);
    assert_eq!(v[0].position_packed, position(320.0, 80.0, 0.5));
    assert_eq!(v[1].position_packed, position(120.0, 400.0, 0.5));
    assert_eq!(v[2].position_packed, position(520.0, 400.0, 0.5));
    assert!(v.iter().all(|x| x.uv_packed == 0));
}

#[test]
fn textured_vertices_match_float_packing() {
    let v = textured_triangle_vertices();
    assert!(v.iter().all(|x| x.color_packed == 0xFFFF_FFFF));
    assert_eq!(v[0].uv_packed, uv(0.5, 0.0, 1.0));
    assert_eq!(v[1].uv_packed, uv(0.0, 1.0, 1.0));
    assert_eq!(v[2].uv_packed, uv(1.0, 1.0, 1.0));
    assert_eq!(v[0].position_packed, position(320.0, 80.0, 0.5));
    assert_eq!(v[2].position_packed, position(520.0, 400.0, 0.5));
}

#[test]
fn teapot_topology() {
    let tris = teapot_indices();
    assert_eq!(tris.len(), MAX_TRIANGLES);
    assert_eq!(tris.len(), 288);
    for t in &tris {
        assert!(t.iter().all(|&i| (i as usize) < MAX_VERTICES));
        assert!(t[0] != t[1] && t[1] != t[2] && t[0] != t[2]);
    }
    assert_eq!(tris[0], [0, 2, 1]);
    assert_eq!(tris[15], [0, 1, 16]);
    assert_eq!(tris[16], [1, 2, 18]);
    assert_eq!(tris[17], [1, 18, 17]);
    assert_eq!(tris[287], [144, 129, 145]);
}

#[test]
fn checkerboard_pattern() {
    let t = checkerboard_64();
    assert_eq!((t.width, t.height, t.width_log2, t.height_log2), (64, 64, 6, 6));
    assert_eq!(t.data.len(), 2048);
    let light = (CHECKER_LIGHT as u64) | ((CHECKER_LIGHT as u64) << 32);
    let dark = (CHECKER_DARK as u64) | ((CHECKER_DARK as u64) << 32);
    assert_eq!(t.data[0], light);
    assert_eq!(t.data[4], dark); // x = 8..9, row 0
    assert_eq!(t.data[8 * 32], dark); // x = 0, row 8
    assert_eq!(t.data[8 * 32 + 4], light);
    assert_eq!(t.data[2047], light); // x = 62..63, row 63: blocks (7, 7)
}

#[test]
fn static_texture_source_lookup() {
    let src = StaticTextureSource::new();
    let tex = src.get_texture(0).expect("checkerboard present");
    assert_eq!((tex.width, tex.height, tex.width_log2, tex.height_log2), (64, 64, 6, 6));
    assert_eq!(tex.data.len(), 2048);
    assert!(src.get_texture(1).is_none());
}

#[test]
fn wheels() {
    assert!(WheelIndex::FrontLeft.is_front());
    assert!(WheelIndex::FrontRight.is_front());
    assert!(!WheelIndex::RearLeft.is_front());
    assert!(!WheelIndex::RearRight.is_front());
    let all = WheelIndex::all();
    for (i, w) in all.iter().enumerate() {
        assert_eq!(w.index(), i);
    }
    assert_ne!(CameraMode::Chase, CameraMode::Bumper);
}

#[test]
fn spi_frames_round_trip() {
    let data = 0x1234_5678_9ABC_DEF0u64;
    let frame = register_write_frame(0xC4, data);
    assert_eq!(frame, [0x44, 0x12, 0x34, 0x56, 0x78, 0x9A, 0xBC, 0xDE, 0xF0]);
    assert_eq!(decode_read_response(&frame), data);
    assert_eq!(register_read_frame(0x7F), [0xFF, 0, 0, 0, 0, 0, 0, 0, 0]);
    assert_eq!(register_read_frame(0x01)[0], 0x81);
}
