use inkframe::framebuffer::{
    FixScreenInfo, Framebuffer, Mode, VarScreenInfo, TEMP_USE_AMBIENT, UPDATE_MODE_FULL,
    UPDATE_MODE_PARTIAL, WAVEFORM_A2, WAVEFORM_AUTO, WAVEFORM_GC16,
};
use inkframe::math::Vec2;

fn small_geometry() -> (VarScreenInfo, FixScreenInfo) {
    let mut var = VarScreenInfo::default();
    var.xres = 8;
    var.yres = 8;
    var.xres_virtual = 8;
    var.yres_virtual = 8;
    var.bits_per_pixel = 32;
    let mut fix = FixScreenInfo::default();
    fix.line_length = 32;
    fix.smem_len = 256;
    (var, fix)
}

#[test]
fn frame_length_from_virtual_area() {
    let (var, fix) = small_geometry();
    let fb = Framebuffer::new(var, fix).unwrap();
    assert_eq!(fb.frame_size(), 256);
    assert_eq!(fb.bytes_per_pixel, 4);
    assert_eq!(fb.token(), 1);
}

#[test]
fn frame_length_capped_by_reported_memory() {
    let (mut var, mut fix) = small_geometry();
    var.yres_virtual = 16; // virtual area would want 512 bytes
    fix.smem_len = 300;
    fix.line_length = 32;
    var.yres = 8;
    let fb = Framebuffer::new(var, fix).unwrap();
    // capped by the device-reported length, still >= yres * line_length
    assert_eq!(fb.frame_size(), 300);
    assert!(fb.frame_size() >= 8 * 32);
}

#[test]
fn bits_per_pixel_not_byte_aligned_rejected() {
    let (mut var, fix) = small_geometry();
    var.bits_per_pixel = 12;
    assert!(Framebuffer::new(var, fix).is_none());
}

#[test]
fn unaddressable_rows_rejected() {
    let (var, mut fix) = small_geometry();
    fix.smem_len = 128; // frame capped below yres * line_length
    assert!(Framebuffer::new(var, fix).is_none());
}

#[test]
fn set_pixel_packs_word_reversed() {
    let (var, fix) = small_geometry();
    let mut fb = Framebuffer::new(var, fix).unwrap();
    fb.set_pixel(Vec2::new(1, 2), [10, 20, 30]);
    let off = 1 * 4 + 2 * 32;
    let frame = fb.frame();
    assert_eq!(frame[off], 30); // blue first
    assert_eq!(frame[off + 1], 20);
    assert_eq!(frame[off + 2], 10);
    assert_eq!(frame[off + 3], 0);
    // everything else untouched
    assert!(frame.iter().enumerate().all(|(k, &b)| (off..off + 4).contains(&k) || b == 0));
}

#[test]
fn pan_offsets_shift_the_address() {
    let (mut var, mut fix) = small_geometry();
    var.xoffset = 1;
    var.yoffset = 1;
    var.xres = 6;
    var.yres = 6;
    fix.line_length = 32;
    fix.smem_len = 256;
    let mut fb = Framebuffer::new(var, fix).unwrap();
    fb.set_pixel(Vec2::new(0, 0), [1, 2, 3]);
    let off = (1 + 0) * 4 + (1 + 0) * 32;
    assert_eq!(fb.frame()[off], 3);
    assert_eq!(fb.frame()[off + 2], 1);
}

#[test]
fn refresh_mode_table() {
    let (var, fix) = small_geometry();
    let fb = Framebuffer::new(var, fix).unwrap();
    let rect = inkframe::framebuffer::MxcfbRect { top: 0, left: 0, width: 8, height: 8 };
    let cases = [
        (Mode::Fast, UPDATE_MODE_PARTIAL, WAVEFORM_A2),
        (Mode::Partial, UPDATE_MODE_PARTIAL, WAVEFORM_AUTO),
        (Mode::Gui, UPDATE_MODE_FULL, WAVEFORM_AUTO),
        (Mode::Full, UPDATE_MODE_FULL, WAVEFORM_GC16),
    ];
    for (mode, update_mode, waveform) in cases {
        let cmd = fb.refresh_command(rect.clone(), mode);
        assert_eq!(cmd.update_mode, update_mode);
        assert_eq!(cmd.waveform_mode, waveform);
        assert_eq!(cmd.temp, TEMP_USE_AMBIENT);
        assert_eq!(cmd.flags, 0);
        assert_eq!(cmd.update_marker, 1);
        assert_eq!(cmd.alt_buffer_data.virt_addr, 0);
        assert_eq!(cmd.alt_buffer_data.alt_update_region.width, 0);
    }
}

#[test]
fn refresh_marker_advances() {
    let (var, fix) = small_geometry();
    let mut fb = Framebuffer::new(var, fix).unwrap();
    assert_eq!(fb.refresh_issued(), 1);
    assert_eq!(fb.refresh_issued(), 2);
    assert_eq!(fb.token(), 3);
}

#[test]
fn refresh_marker_wraps() {
    let (var, fix) = small_geometry();
    let mut fb = Framebuffer::new(var, fix).unwrap();
    fb.token = u32::MAX;
    assert_eq!(fb.refresh_issued(), u32::MAX);
    assert_eq!(fb.token(), 0);
}

#[test]
fn distinct_pixels_get_distinct_words() {
    // write a distinct colour to every pixel of a 4x4 panel; if any two
    // addresses collided, some word would have been overwritten
    let mut var = VarScreenInfo::default();
    var.xres = 4;
    var.yres = 4;
    var.xres_virtual = 4;
    var.yres_virtual = 4;
    var.bits_per_pixel = 32;
    let mut fix = FixScreenInfo::default();
    fix.line_length = 16;
    fix.smem_len = 64;
    let mut fb = Framebuffer::new(var, fix).unwrap();
    for y in 0..4u16 {
        for x in 0..4u16 {
            let tag = (y * 4 + x) as u8;
            fb.set_pixel(Vec2::new(x, y), [tag, tag, tag]);
        }
    }
    for y in 0..4usize {
        for x in 0..4usize {
            let off = x * 4 + y * 16;
            let tag = (y * 4 + x) as u8;
            assert!(off + 4 <= fb.frame_size());
            assert_eq!(fb.frame()[off], tag);
            assert_eq!(fb.frame()[off + 1], tag);
            assert_eq!(fb.frame()[off + 2], tag);
            assert_eq!(fb.frame()[off + 3], 0);
        }
    }
}
