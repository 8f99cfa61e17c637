use inkframe::framebuffer::{FixScreenInfo, Framebuffer, VarScreenInfo};
use inkframe::gui::Drawable;
use inkframe::gui::graph::Graph;
use inkframe::gui::gui::Position;
use inkframe::gui::image::Image;
use inkframe::math::Vec2;
use inkframe::page::Page;
use inkframe::screen::Screen;
use inkframe::util::Color;

fn screen_sized(width: u16, height: u16) -> Screen {
    let mut var = VarScreenInfo::default();
    var.xres = width as u32;
    var.yres = height as u32;
    var.xres_virtual = width as u32;
    var.yres_virtual = height as u32;
    var.bits_per_pixel = 32;
    let mut fix = FixScreenInfo::default();
    fix.line_length = width as u32 * 4;
    fix.smem_len = width as u32 * height as u32 * 4;
    let fb = Framebuffer::new(var, fix).unwrap();
    Screen::new(fb).unwrap()
}

fn flat_image(w: u16, h: u16, level: u8, x: u16, y: u16) -> Drawable {
    let pixels = vec![Color::new(level, level, level); w as usize * h as usize];
    Drawable::Image(
        Image::new(w, h, pixels, Position::Absolute(Vec2::new(x, y))).unwrap(),
    )
}

#[test]
fn empty_page_stays_white() {
    let screen = screen_sized(8, 8);
    let mut page = Page::new(&screen);
    assert!(page.composite().is_ok());
    assert_eq!(page.buffer.len(), 64);
    assert!(page.buffer.iter().all(|c| *c == Color::new(255, 255, 255)));
}

#[test]
fn later_widget_wins_in_overlap() {
    let screen = screen_sized(10, 10);
    let mut page = Page::new(&screen);
    page.add(flat_image(4, 4, 0, 2, 2)); // first: black square
    page.add(flat_image(4, 4, 128, 4, 4)); // second: gray square, overlapping
    assert!(page.composite().is_ok());
    let at = |x: usize, y: usize| page.buffer[y * 10 + x];
    // overlap region (4..6) x (4..6): the later widget's pixels
    assert_eq!(at(4, 4), Color::new(128, 128, 128));
    assert_eq!(at(5, 5), Color::new(128, 128, 128));
    // region only the first covers
    assert_eq!(at(2, 2), Color::new(0, 0, 0));
    assert_eq!(at(3, 3), Color::new(0, 0, 0));
    // region only the second covers
    assert_eq!(at(7, 7), Color::new(128, 128, 128));
    // untouched background
    assert_eq!(at(9, 9), Color::new(255, 255, 255));
}

#[test]
fn composite_twice_is_byte_identical() {
    let screen = screen_sized(10, 10);
    let mut page = Page::new(&screen);
    page.add(flat_image(4, 4, 0, 2, 2));
    page.add(flat_image(4, 4, 128, 4, 4));
    assert!(page.composite().is_ok());
    let first = page.buffer.clone();
    assert!(page.composite().is_ok());
    assert_eq!(page.buffer, first);
}

#[test]
fn out_of_bounds_widget_fails_before_any_write() {
    let screen = screen_sized(10, 10);
    let mut page = Page::new(&screen);
    page.add(flat_image(4, 4, 0, 2, 2)); // in bounds
    page.add(flat_image(4, 4, 0, 8, 0)); // 8 + 4 > 10: out of bounds
    let before = page.buffer.clone();
    assert!(page.composite().is_err());
    assert_eq!(page.buffer, before);
    assert!(page.buffer.iter().all(|c| *c == Color::new(255, 255, 255)));
}

#[test]
fn graph_draws_axes() {
    let g = Graph::new(12, 12, 0, 30, 5);
    let d = Drawable::Graph(g);
    let pixels = d.make();
    assert_eq!(pixels.len(), 144);
    let at = |x: usize, y: usize| pixels[y * 12 + x];
    let black = Color::new(0, 0, 0);
    let white = Color::new(255, 255, 255);
    assert_eq!(at(0, 0), black); // y axis along the left edge
    assert_eq!(at(9, 0), black);
    assert_eq!(at(10, 0), white); // past the y axis, above the x axis
    assert_eq!(at(11, 1), white);
    assert_eq!(at(11, 2), black); // x axis band along the bottom
    assert_eq!(at(11, 11), black);
}

#[test]
fn rectangle_enumerates_row_major() {
    let pixels = inkframe::util::Rectangle::new(Vec2::new(1, 2), 3, 2);
    let expected = vec![
        Vec2::new(1, 2),
        Vec2::new(2, 2),
        Vec2::new(3, 2),
        Vec2::new(1, 3),
        Vec2::new(2, 3),
        Vec2::new(3, 3),
    ];
    assert_eq!(pixels, expected);
}

#[test]
fn rectangle_of_zero_size_is_empty() {
    assert!(inkframe::util::Rectangle::new(Vec2::new(5, 5), 0, 7).is_empty());
    assert!(inkframe::util::Rectangle::new(Vec2::new(5, 5), 7, 0).is_empty());
}
