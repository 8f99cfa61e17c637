use inkframe::framebuffer::{
    FixScreenInfo, Framebuffer, VarScreenInfo, UPDATE_MODE_FULL, WAVEFORM_GC16,
};
use inkframe::gui::Drawable;
use inkframe::gui::gui::Position;
use inkframe::gui::image::Image;
use inkframe::math::Vec2;
use inkframe::page::Page;
use inkframe::screen::Screen;
use inkframe::util::Color;

fn screen_sized(width: u16, height: u16) -> Screen {
    let mut var = VarScreenInfo::default();
    var.xres = width as u32;
    var.yres = height as u32;
    var.xres_virtual = width as u32;
    var.yres_virtual = height as u32;
    var.bits_per_pixel = 32;
    let mut fix = FixScreenInfo::default();
    fix.line_length = width as u32 * 4;
    fix.smem_len = width as u32 * height as u32 * 4;
    let fb = Framebuffer::new(var, fix).unwrap();
    Screen::new(fb).unwrap()
}

#[test]
fn full_flush_of_a_white_page() {
    // An 8x8 all-white page with no drawables: rendering writes all 64
    // pixel words as (0xFF, 0xFF, 0xFF, 0x00), and one full-mode refresh
    // command over {0, 0, 8, 8} follows, after which the caller issues the
    // single blocking completion wait.
    let mut screen = screen_sized(8, 8);
    let page = Page::new(&screen);
    screen.add_page(page);
    assert!(screen.render().is_ok());

    let frame = screen.fb.frame();
    assert_eq!(frame.len(), 256);
    for px in 0..64 {
        let off = px * 4;
        assert_eq!(frame[off], 0xFF);
        assert_eq!(frame[off + 1], 0xFF);
        assert_eq!(frame[off + 2], 0xFF);
        assert_eq!(frame[off + 3], 0x00);
    }

    let (cmd, marker) = screen.update();
    assert_eq!(cmd.update_mode, UPDATE_MODE_FULL);
    assert_eq!(cmd.waveform_mode, WAVEFORM_GC16);
    assert_eq!(cmd.update_region.top, 0);
    assert_eq!(cmd.update_region.left, 0);
    assert_eq!(cmd.update_region.width, 8);
    assert_eq!(cmd.update_region.height, 8);
    assert_eq!(marker, 1);
    assert_eq!(screen.fb.token(), 2);
}

#[test]
fn plot_rejects_out_of_bounds() {
    let mut screen = screen_sized(8, 8);
    assert!(screen.plot(Vec2::new(8, 0), Color::new(0, 0, 0)).is_err());
    assert!(screen.plot(Vec2::new(0, 8), Color::new(0, 0, 0)).is_err());
    assert!(screen.plot(Vec2::new(7, 7), Color::new(0, 0, 0)).is_ok());
}

#[test]
fn plot_writes_one_word() {
    let mut screen = screen_sized(8, 8);
    assert!(screen.plot(Vec2::new(3, 1), Color::new(9, 8, 7)).is_ok());
    let off = 3 * 4 + 1 * 32;
    let frame = screen.fb.frame();
    assert_eq!(frame[off], 7);
    assert_eq!(frame[off + 1], 8);
    assert_eq!(frame[off + 2], 9);
    assert_eq!(frame[off + 3], 0);
}

#[test]
fn clear_paints_everything_white() {
    let mut screen = screen_sized(4, 4);
    assert!(screen.plot(Vec2::new(1, 1), Color::new(0, 0, 0)).is_ok());
    screen.clear();
    let frame = screen.fb.frame();
    for px in 0..16 {
        let off = px * 4;
        assert_eq!(frame[off], 0xFF);
        assert_eq!(frame[off + 1], 0xFF);
        assert_eq!(frame[off + 2], 0xFF);
        assert_eq!(frame[off + 3], 0x00);
    }
}

#[test]
fn render_shows_the_last_page() {
    let mut screen = screen_sized(4, 4);
    let mut first = Page::new(&screen);
    let black = vec![Color::new(0, 0, 0); 16];
    first.add(Drawable::Image(
        Image::new(4, 4, black, Position::Absolute(Vec2::new(0, 0))).unwrap(),
    ));
    let mut second = Page::new(&screen);
    let gray = vec![Color::new(64, 64, 64); 16];
    second.add(Drawable::Image(
        Image::new(4, 4, gray, Position::Absolute(Vec2::new(0, 0))).unwrap(),
    ));
    screen.add_page(first);
    screen.add_page(second);
    assert!(screen.render().is_ok());
    let frame = screen.fb.frame();
    for px in 0..16 {
        let off = px * 4;
        assert_eq!(frame[off], 64);
        assert_eq!(frame[off + 1], 64);
        assert_eq!(frame[off + 2], 64);
        assert_eq!(frame[off + 3], 0);
    }
}

#[test]
fn render_fails_whole_on_out_of_bounds_page() {
    let mut screen = screen_sized(4, 4);
    let mut page = Page::new(&screen);
    let pixels = vec![Color::new(0, 0, 0); 9];
    page.add(Drawable::Image(
        Image::new(3, 3, pixels, Position::Absolute(Vec2::new(2, 0))).unwrap(),
    ));
    screen.add_page(page);
    assert!(screen.render().is_err());
    // nothing was written to the frame
    assert!(screen.fb.frame().iter().all(|&b| b == 0));
    // and the page buffer is untouched
    assert!(screen.pages[0].buffer.iter().all(|c| *c == Color::new(255, 255, 255)));
}
