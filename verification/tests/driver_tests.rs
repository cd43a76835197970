//! GpuDriver register packing through a mock SPI transport that captures
//! (addr, data) write tuples.

use std::cell::RefCell;
use std::rc::Rc;

use pico_racer::assets::textures::{StaticTextureSource, TEX_ID_CHECKERBOARD};
use pico_racer::gpu::driver::{identify_device, CcRgbCSource, CcSource, CombinerCycle, GpuDriver, GpuError};
use pico_racer::gpu::registers;
use pico_racer::gpu::registers::{AlphaTestFunc, CullMode, ZCompare};
use pico_racer::gpu::vertex::GpuVertex;
use pico_racer::hal::{FlowControl, InputSource, SpiTransport};
use pico_racer::render::commands::{execute, TextureInfo, TextureSource};
use pico_racer::render::{ClearCommand, RenderCommand, RenderFlags, ScreenTriangleCommand, UploadTextureCommand};

/// Captured register write: (address, data).
type WriteRecord = (u8, u64);

/// Mock SPI transport that records all register writes and returns
/// configurable read values.
#[derive(Clone)]
struct MockTransport {
    writes: Rc<RefCell<Vec<WriteRecord>>>,
    read_values: Rc<RefCell<Vec<(u8, u64)>>>,
    fail_after: Rc<RefCell<Option<usize>>>,
    reads_left: Rc<RefCell<Option<usize>>>,
}

impl MockTransport {
    fn new() -> Self {
        Self {
            writes: Rc::new(RefCell::new(Vec::new())),
            read_values: Rc::new(RefCell::new(Vec::new())),
            fail_after: Rc::new(RefCell::new(None)),
            reads_left: Rc::new(RefCell::new(None)),
        }
    }

    fn set_read_value(&self, addr: u8, value: u64) {
        self.read_values.borrow_mut().push((addr, value));
    }

    fn get_writes(&self) -> Vec<WriteRecord> {
        self.writes.borrow().clone()
    }

    fn last_write_to(&self, addr: u8) -> Option<u64> {
        self.writes
            .borrow()
            .iter()
            .rev()
            .find(|(a, _)| *a == addr)
            .map(|(_, d)| *d)
    }
}

#[derive(Debug)]
struct MockError;

impl SpiTransport for MockTransport {
    type Error = MockError;

    fn write_register(&mut self, addr: u8, data: u64) -> Result<(), Self::Error> {
        let limit = *self.fail_after.borrow();
        if let Some(n) = limit {
            if self.writes.borrow().len() >= n {
                return Err(MockError);
            }
        }
        self.writes.borrow_mut().push((addr, data));
        Ok(())
    }

    fn read_register(&mut self, addr: u8) -> Result<u64, Self::Error> {
        if let Some(n) = self.reads_left.borrow_mut().as_mut() {
            if *n == 0 {
                return Err(MockError);
            }
            *n -= 1;
        }
        let vals = self.read_values.borrow();
        for (a, v) in vals.iter().rev() {
            if *a == addr {
                return Ok(*v);
            }
        }
        Ok(0)
    }
}

impl FlowControl for MockTransport {
    fn is_cmd_full(&mut self) -> bool {
        false
    }

    fn is_cmd_empty(&mut self) -> bool {
        true
    }

    fn wait_vsync(&mut self) {}
}

/// Helper: create a GpuDriver with mock transport that returns correct ID.
fn make_driver() -> (GpuDriver<MockTransport>, MockTransport) {
    let transport = MockTransport::new();
    // GPU ID register: version 10.0, device 0x6702
    let gpu_id: u64 = 0x0000_0A00_0000_6702;
    transport.set_read_value(registers::ID, gpu_id);

    let transport_clone = transport.clone();
    let driver = GpuDriver::new(transport).expect("GpuDriver::new should succeed with correct ID");
    (driver, transport_clone)
}

struct EmptyTextureSource;

impl TextureSource for EmptyTextureSource {
    fn get_texture(&self, _id: u8) -> Option<TextureInfo<'_>> {
        None
    }
}

#[test]
fn mem_fill_packs_correctly() {
    let (mut driver, transport) = make_driver();
    driver
        .gpu_mem_fill(0, 0x1234, 0x800)
        .expect("gpu_mem_fill should succeed");
    let data = transport
        .last_write_to(registers::MEM_FILL)
        .expect("MEM_FILL write should exist");
    // Expected: base[23:0]=0x000000, value[39:24]=0x1234, count[59:40]=0x00800
    let expected: u64 = (0x1234u64 << registers::MEM_FILL_VALUE_SHIFT)
        | (0x0800u64 << registers::MEM_FILL_COUNT_SHIFT);
    assert_eq!(
        data, expected,
        "MEM_FILL packing: expected 0x{expected:016X}, got 0x{data:016X}"
    );
}

#[test]
fn mem_fill_large_count() {
    let (mut driver, transport) = make_driver();
    driver
        .gpu_mem_fill(0x100, 0xFFFF, 0xFFFFF)
        .expect("gpu_mem_fill should succeed");
    let data = transport
        .last_write_to(registers::MEM_FILL)
        .expect("MEM_FILL write should exist");
    let base = data & 0x00FF_FFFF;
    let value = (data >> registers::MEM_FILL_VALUE_SHIFT) & 0xFFFF;
    let count = (data >> registers::MEM_FILL_COUNT_SHIFT) & 0xFFFFF;
    assert_eq!(base, 0x100);
    assert_eq!(value, 0xFFFF);
    assert_eq!(count, 0xFFFFF);
}

#[test]
fn modulate_preset() {
    let (mut driver, transport) = make_driver();
    // Modulate: TEX0 * SHADE0
    let modulate = CombinerCycle {
        rgb_a: CcSource::TexColor0,
        rgb_b: CcSource::Zero,
        rgb_c: CcRgbCSource::Shade0,
        rgb_d: CcSource::Zero,
        alpha_a: CcSource::TexColor0,
        alpha_b: CcSource::Zero,
        alpha_c: CcSource::Shade0,
        alpha_d: CcSource::Zero,
    };
    driver
        .gpu_set_combiner_simple(&modulate)
        .expect("gpu_set_combiner_simple should succeed");
    let data = transport
        .last_write_to(registers::CC_MODE)
        .expect("CC_MODE write should exist");
    let expected_c0: u64 = 0x1
        | (0x7 << 4)
        | (0x3 << 8)
        | (0x7 << 12)
        | (0x1 << 16)
        | (0x7 << 20)
        | (0x3 << 24)
        | (0x7 << 28);
    // Cycle 1 (passthrough): A=COMBINED(0), B=ZERO(7), C=ONE(6), D=ZERO(7)
    let expected_c1: u64 = (0x7 << 4)
        | (0x6 << 8)
        | (0x7 << 12)
        | (0x7 << 20)
        | (0x6 << 24)
        | (0x7 << 28);
    let expected = expected_c0 | (expected_c1 << 32);
    assert_eq!(
        data, expected,
        "CC_MODE modulate: expected 0x{expected:016X}, got 0x{data:016X}"
    );
}

#[test]
fn const_color_packs_correctly() {
    let (mut driver, transport) = make_driver();
    driver
        .gpu_set_const_color(0xFF0000FF, 0x00FF00FF)
        .expect("gpu_set_const_color should succeed");
    let data = transport
        .last_write_to(registers::CONST_COLOR)
        .expect("CONST_COLOR write should exist");
    let expected: u64 = 0xFF0000FF | (0x00FF00FFu64 << 32);
    assert_eq!(
        data, expected,
        "CONST_COLOR packing: expected 0x{expected:016X}, got 0x{data:016X}"
    );
}

#[test]
fn dither_bit_set() {
    let (mut driver, transport) = make_driver();
    driver
        .set_render_mode(
            false,
            false,
            false,
            true,
            ZCompare::Less,
            CullMode::CullNone,
            true,
            false,
            AlphaTestFunc::AtAlways,
            0,
        )
        .expect("set_render_mode should succeed");
    let data = transport
        .last_write_to(registers::RENDER_MODE)
        .expect("RENDER_MODE write should exist");
    assert_ne!(data & (1 << 10), 0, "RENDER_MODE dither bit 10 should be set");
    assert_ne!(data & (1 << 4), 0, "RENDER_MODE color_write bit 4 should be set");
}

#[test]
fn full_render_mode_packing() {
    let (mut driver, transport) = make_driver();
    driver
        .set_render_mode(
            false,
            true,
            false,
            true,
            ZCompare::Less,
            CullMode::CullCw,
            true,
            false,
            AlphaTestFunc::AtAlways,
            0,
        )
        .expect("set_render_mode should succeed");
    let data = transport
        .last_write_to(registers::RENDER_MODE)
        .expect("RENDER_MODE write should exist");
    let expected: u64 = (1 << 2) | (1 << 4) | (1 << 5) | (1 << 10);
    assert_eq!(
        data, expected,
        "RENDER_MODE full pack: expected 0x{expected:016X}, got 0x{data:016X}"
    );
}

#[test]
fn fb_config_packs_correctly() {
    let (mut driver, transport) = make_driver();
    driver
        .gpu_set_fb_config(0x0100, 0x0200, 9, 9)
        .expect("gpu_set_fb_config should succeed");
    let data = transport
        .last_write_to(registers::FB_CONFIG)
        .expect("FB_CONFIG write should exist");
    let color_base = data & 0xFFFF;
    let z_base = (data >> 16) & 0xFFFF;
    let width_log2 = (data >> 32) & 0xF;
    let height_log2 = (data >> 36) & 0xF;
    assert_eq!(color_base, 0x0100);
    assert_eq!(z_base, 0x0200);
    assert_eq!(width_log2, 9);
    assert_eq!(height_log2, 9);
}

#[test]
fn scissor_packs_correctly() {
    let (mut driver, transport) = make_driver();
    driver
        .gpu_set_scissor(10, 20, 640, 480)
        .expect("gpu_set_scissor should succeed");
    let data = transport
        .last_write_to(registers::FB_CONTROL)
        .expect("FB_CONTROL write should exist");
    let x = data & 0x3FF;
    let y = (data >> 10) & 0x3FF;
    let w = (data >> 20) & 0x3FF;
    let h = (data >> 30) & 0x3FF;
    assert_eq!(x, 10);
    assert_eq!(y, 20);
    assert_eq!(w, 640);
    assert_eq!(h, 480);
}

#[test]
fn stipple_pattern_passthrough() {
    let (mut driver, transport) = make_driver();
    let pattern: u64 = 0xAAAA_AAAA_AAAA_AAAA;
    driver
        .gpu_set_stipple_pattern(pattern)
        .expect("gpu_set_stipple_pattern should succeed");
    let data = transport
        .last_write_to(registers::STIPPLE_PATTERN)
        .expect("STIPPLE_PATTERN write should exist");
    assert_eq!(data, pattern);
}

#[test]
fn init_fails_on_wrong_id() {
    let transport = MockTransport::new();
    transport.set_read_value(registers::ID, 0x0000_0000_0000_0000);
    let result = GpuDriver::new(transport);
    assert!(result.is_err(), "GpuDriver::new should fail with wrong ID");
}

#[test]
fn init_writes_fb_config_and_display() {
    let (_, transport) = make_driver();
    let writes = transport.get_writes();
    let has_fb_config = writes.iter().any(|(a, _)| *a == registers::FB_CONFIG);
    let has_fb_display = writes.iter().any(|(a, _)| *a == registers::FB_DISPLAY);
    assert!(has_fb_config, "Init should write FB_CONFIG");
    assert!(has_fb_display, "Init should write FB_DISPLAY");
}

#[test]
fn pack_write_format() {
    let mut buffer = [0u8; 18];
    let offset =
        GpuDriver::<MockTransport>::pack_write(&mut buffer, 0, 0x44, 0x1234_5678_9ABC_DEF0);
    assert_eq!(offset, 9, "pack_write should return offset + 9");
    assert_eq!(buffer[0], 0x44, "Address byte should have bit 7 clear");
    assert_eq!(buffer[1], 0x12, "Data MSB");
    assert_eq!(buffer[8], 0xF0, "Data LSB");
}

#[test]
fn execute_clear_uses_mem_fill() {
    let (mut driver, transport) = make_driver();
    let clear_cmd = RenderCommand::ClearFramebuffer(ClearCommand {
        color: [0, 0, 0, 255],
        clear_depth: true,
        depth_value: 0xFFFF,
    });
    execute(&mut driver, &clear_cmd, &EmptyTextureSource).expect("execute clear should succeed");
    let writes = transport.get_writes();
    let mem_fill_writes: Vec<_> = writes
        .iter()
        .filter(|(a, _)| *a == registers::MEM_FILL)
        .collect();
    assert_eq!(
        mem_fill_writes.len(),
        2,
        "Clear with depth should produce 2 MEM_FILL writes"
    );
    let render_mode_writes: Vec<_> = writes
        .iter()
        .filter(|(a, _)| *a == registers::RENDER_MODE)
        .collect();
    assert_eq!(
        render_mode_writes.len(),
        0,
        "Clear path should not write RENDER_MODE"
    );
}

#[test]
fn execute_clear_color_only() {
    let (mut driver, transport) = make_driver();
    let clear_cmd = RenderCommand::ClearFramebuffer(ClearCommand {
        color: [255, 0, 0, 255],
        clear_depth: false,
        depth_value: 0xFFFF,
    });
    execute(&mut driver, &clear_cmd, &EmptyTextureSource).expect("execute clear should succeed");
    let writes = transport.get_writes();
    let mem_fill_writes: Vec<_> = writes
        .iter()
        .filter(|(a, _)| *a == registers::MEM_FILL)
        .collect();
    assert_eq!(
        mem_fill_writes.len(),
        1,
        "Clear without depth should produce 1 MEM_FILL write"
    );
}

#[test]
fn init_writes_exact_framebuffer_words() {
    let (driver, transport) = make_driver();
    // FB A (0x000) with Z-buffer (0x800), 512x512; display FB B (0x400), 512 wide.
    assert_eq!(
        transport.get_writes(),
        vec![
            (registers::FB_CONFIG, 0x0000_0099_0800_0000),
            (registers::FB_DISPLAY, 0x0009_0400_0000_0000),
        ]
    );
    assert_eq!(driver.draw_fb(), (0x0000, 0x0800, 9, 9));
    assert_eq!(driver.display_fb(), (0x0400, 0x0000, 9, 9));
}

#[test]
fn init_accepts_id_with_any_upper_bits() {
    let transport = MockTransport::new();
    transport.set_read_value(registers::ID, 0xFFFF_FFFF_FFFF_6702);
    assert!(GpuDriver::new(transport).is_ok());
}

#[test]
fn init_wrong_id_is_not_detected_error() {
    let transport = MockTransport::new();
    transport.set_read_value(registers::ID, 0x6703);
    match GpuDriver::new(transport) {
        Err(GpuError::GpuNotDetected) => {}
        _ => panic!("expected GpuNotDetected"),
    }
}

#[test]
fn swap_buffers_twice_restores_targets() {
    let (mut driver, transport) = make_driver();
    let draw = driver.draw_fb();
    let display = driver.display_fb();
    driver.swap_buffers().unwrap();
    assert_eq!(driver.draw_fb(), display);
    assert_eq!(driver.display_fb(), draw);
    driver.swap_buffers().unwrap();
    assert_eq!(driver.draw_fb(), draw);
    assert_eq!(driver.display_fb(), display);
    let writes = transport.get_writes();
    // Init wrote 2; each swap writes FB_CONFIG then FB_DISPLAY.
    assert_eq!(writes.len(), 6);
    assert_eq!(writes[2].0, registers::FB_CONFIG);
    assert_eq!(writes[3].0, registers::FB_DISPLAY);
}

#[test]
fn clear_fills_whole_surface_with_rgb565() {
    let (mut driver, transport) = make_driver();
    let clear_cmd = RenderCommand::ClearFramebuffer(ClearCommand {
        color: [255, 0, 0, 255],
        clear_depth: true,
        depth_value: 0x1234,
    });
    execute(&mut driver, &clear_cmd, &EmptyTextureSource).unwrap();
    let writes = transport.get_writes();
    let words: u64 = 1 << 18; // 512 x 512
    assert_eq!(writes[2], (registers::MEM_FILL, 0x0000 | (0xF800u64 << 24) | (words << 40)));
    assert_eq!(writes[3], (registers::MEM_FILL, 0x0800 | (0x1234u64 << 24) | (words << 40)));
}

#[test]
fn submit_triangle_write_order() {
    let (mut driver, transport) = make_driver();
    let v = |c: u64| GpuVertex { color_packed: c, uv_packed: c + 10, position_packed: c + 20 };
    driver.submit_triangle(&v(1), &v(2), &v(3), true).unwrap();
    let writes = transport.get_writes();
    assert_eq!(
        writes[2..].to_vec(),
        vec![
            (registers::COLOR, 1),
            (registers::UV0_UV1, 11),
            (registers::VERTEX_NOKICK, 21),
            (registers::COLOR, 2),
            (registers::UV0_UV1, 12),
            (registers::VERTEX_NOKICK, 22),
            (registers::COLOR, 3),
            (registers::UV0_UV1, 13),
            (registers::VERTEX_KICK_012, 23),
        ]
    );
}

#[test]
fn execute_untextured_triangle_skips_uv() {
    let (mut driver, transport) = make_driver();
    let v = GpuVertex { color_packed: 7, uv_packed: 8, position_packed: 9 };
    let cmd = RenderCommand::SubmitScreenTriangle(ScreenTriangleCommand { v0: v, v1: v, v2: v, textured: false });
    execute(&mut driver, &cmd, &EmptyTextureSource).unwrap();
    let writes = transport.get_writes();
    assert_eq!(writes.len(), 2 + 6);
    assert!(writes.iter().all(|(a, _)| *a != registers::UV0_UV1));
    assert_eq!(writes[7], (registers::VERTEX_KICK_012, 9));
}

#[test]
fn upload_texture_writes_data_then_config() {
    let (mut driver, transport) = make_driver();
    let textures = StaticTextureSource::new();
    let cmd = RenderCommand::UploadTexture(UploadTextureCommand {
        gpu_dword_addr: 0x3_0000,
        texture_id: TEX_ID_CHECKERBOARD,
    });
    execute(&mut driver, &cmd, &textures).unwrap();
    let writes = transport.get_writes();
    assert_eq!(writes.len(), 2 + 1 + 2048 + 1);
    assert_eq!(writes[2], (registers::MEM_ADDR, 0x3_0000));
    assert!(writes[3..2051].iter().all(|(a, _)| *a == registers::MEM_DATA));
    let cfg = writes[2051];
    assert_eq!(cfg.0, registers::TEX0_CFG);
    assert_eq!(cfg.1 & 1, 1);
    assert_eq!((cfg.1 >> registers::TEX_CFG_WIDTH_LOG2_SHIFT) & 0xF, 6);
    assert_eq!((cfg.1 >> registers::TEX_CFG_HEIGHT_LOG2_SHIFT) & 0xF, 6);
    assert_eq!(cfg.1 >> registers::TEX_CFG_BASE_ADDR_SHIFT, 0x3_0000 >> 6);
}

#[test]
fn upload_unknown_texture_writes_nothing() {
    let (mut driver, transport) = make_driver();
    let textures = StaticTextureSource::new();
    let cmd = RenderCommand::UploadTexture(UploadTextureCommand { gpu_dword_addr: 0, texture_id: 5 });
    execute(&mut driver, &cmd, &textures).unwrap();
    assert_eq!(transport.get_writes().len(), 2);
}

#[test]
fn set_render_mode_command_and_z_range_command() {
    let (mut driver, transport) = make_driver();
    let flags = RenderFlags { gouraud: true, textured: true, z_test: false, z_write: true, color_write: false };
    execute(&mut driver, &RenderCommand::SetRenderMode(flags), &EmptyTextureSource).unwrap();
    execute(&mut driver, &RenderCommand::SetZRange { z_min: 0x10, z_max: 0x20 }, &EmptyTextureSource).unwrap();
    let writes = transport.get_writes();
    assert_eq!(writes[2], (registers::RENDER_MODE, 0x9));
    assert_eq!(writes[3], (registers::Z_RANGE, 0x0020_0010));
}

#[test]
fn vsync_command_swaps_buffers() {
    let (mut driver, _transport) = make_driver();
    let draw = driver.draw_fb();
    execute(&mut driver, &RenderCommand::WaitVsync, &EmptyTextureSource).unwrap();
    assert_eq!(driver.display_fb(), draw);
}

#[test]
fn transport_failure_stops_upload() {
    let (mut driver, transport) = make_driver();
    *transport.fail_after.borrow_mut() = Some(4);
    let data = [1u64, 2, 3, 4];
    match driver.upload_memory(0x40, &data) {
        Err(GpuError::Transport(_)) => {}
        _ => panic!("expected a transport error"),
    }
    let writes = transport.get_writes();
    assert_eq!(writes.len(), 4);
    assert_eq!(writes[2], (registers::MEM_ADDR, 0x40));
    assert_eq!(writes[3], (registers::MEM_DATA, 1));
}

#[test]
fn read_memory_fills_buffer_from_mem_data() {
    let (mut driver, transport) = make_driver();
    transport.set_read_value(registers::MEM_DATA, 0xABCD);
    let mut buf = [0u64; 3];
    driver.read_memory(0x80, &mut buf).unwrap();
    assert_eq!(buf, [0xABCD; 3]);
    assert_eq!(transport.last_write_to(registers::MEM_ADDR), Some(0x80));
}

#[test]
fn read_cycle_counter_keeps_low_32_bits() {
    let (mut driver, transport) = make_driver();
    transport.set_read_value(registers::PERF_TIMESTAMP, 0x1234_5678_9ABC_DEF0);
    assert_eq!(driver.read_cycle_counter().unwrap(), 0x9ABC_DEF0);
}

#[test]
fn submit_vertex_kick021_uses_kick_register() {
    let (mut driver, transport) = make_driver();
    let v = GpuVertex { color_packed: 1, uv_packed: 2, position_packed: 3 };
    driver
        .submit_vertex_kicked(&v, pico_racer::gpu::driver::VertexKick::Kick021, false)
        .unwrap();
    let writes = transport.get_writes();
    assert_eq!(writes[2..].to_vec(), vec![(registers::COLOR, 1), (registers::VERTEX_KICK_021, 3)]);
}

#[test]
fn pack_write_at_offset_keeps_other_bytes() {
    let mut buffer = [0xEEu8; 18];
    let next = GpuDriver::<MockTransport>::pack_write(&mut buffer, 9, 0xC4, 0x0102_0304_0506_0708);
    assert_eq!(next, 18);
    assert_eq!(buffer[..9], [0xEE; 9]);
    assert_eq!(buffer[9..], [0x44, 1, 2, 3, 4, 5, 6, 7, 8]);
}

#[test]
fn flow_control_passes_through() {
    let (mut driver, _t) = make_driver();
    assert!(!driver.is_fifo_full());
    assert!(driver.is_fifo_empty());
    driver.wait_vsync();
}

#[test]
fn timestamp_writes_address() {
    let (mut driver, transport) = make_driver();
    driver.timestamp(0x7_FFFF).unwrap();
    assert_eq!(transport.last_write_to(registers::PERF_TIMESTAMP), Some(0x7_FFFF));
}

#[test]
fn prepare_lut_uploads_data() {
    let (mut driver, transport) = make_driver();
    driver.gpu_prepare_lut(0x40, &[9, 8]).unwrap();
    let writes = transport.get_writes();
    assert_eq!(
        writes[2..].to_vec(),
        vec![(registers::MEM_ADDR, 0x40), (registers::MEM_DATA, 9), (registers::MEM_DATA, 8)]
    );
}

#[test]
fn identify_device_checks_low_sixteen_bits() {
    let expected = registers::EXPECTED_DEVICE_ID as u64;
    assert!(identify_device::<()>(expected).is_ok());
    assert!(identify_device::<()>(0xABCD_0000_0000 | expected).is_ok());
    assert!(matches!(identify_device::<()>(expected ^ 1), Err(GpuError::GpuNotDetected)));
    assert!(matches!(identify_device::<()>(0), Err(GpuError::GpuNotDetected)));
}

#[test]
fn terminal_input_reports_no_key() {
    let mut input = pico_racer::pc::TerminalInput;
    input.init();
    assert!(input.poll().is_none());
}

#[test]
fn read_memory_failure_leaves_unread_slots() {
    let mock = MockTransport::new();
    mock.set_read_value(registers::ID, registers::EXPECTED_DEVICE_ID as u64);
    let mut driver = GpuDriver::new(mock.clone()).unwrap();
    mock.set_read_value(registers::MEM_DATA, 0x55);
    *mock.reads_left.borrow_mut() = Some(2);
    let mut buf = [7u64; 5];
    assert!(matches!(driver.read_memory(0x80, &mut buf), Err(GpuError::Transport(_))));
    assert_eq!(buf, [0x55, 0x55, 7, 7, 7]);
}
