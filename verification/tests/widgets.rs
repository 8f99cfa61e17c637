use inkframe::gui::BoundingBox;
use inkframe::gui::gui::{Position, Widget};
use inkframe::gui::image::Image;
use inkframe::gui::text::Text;
use inkframe::math::{Mat2, Vec2};
use inkframe::util::Color;

fn mask(w: u16, h: u16, level: u8) -> Vec<Color> {
    vec![Color::new(level, level, level); w as usize * h as usize]
}

#[test]
fn text_mask_length_must_match() {
    assert!(Text::new(3, 2, mask(3, 3, 0), Position::Absolute(Vec2::new(0, 0))).is_none());
    assert!(Text::new(3, 2, mask(3, 2, 0), Position::Absolute(Vec2::new(0, 0))).is_some());
}

#[test]
fn image_mask_length_must_match() {
    assert!(Image::new(4, 4, mask(4, 3, 0), Position::Absolute(Vec2::new(0, 0))).is_none());
    assert!(Image::new(4, 4, mask(4, 4, 0), Position::Absolute(Vec2::new(0, 0))).is_some());
}

#[test]
fn make_reproduces_the_mask() {
    let pixels = mask(3, 2, 77);
    let t = Text::new(3, 2, pixels.clone(), Position::Absolute(Vec2::new(5, 5))).unwrap();
    assert_eq!(t.make(), pixels);
}

#[test]
fn set_pos_moves_only_the_position() {
    let t = Text::new(3, 2, mask(3, 2, 0), Position::Absolute(Vec2::new(0, 0))).unwrap();
    let t = t.set_pos_abs(Vec2::new(9, 4));
    assert_eq!(t.get_pos(), Vec2::new(9, 4));
    assert_eq!(t.get_width(), 3);
    assert_eq!(t.get_height(), 2);
}

#[test]
fn bounding_box_chaining_points() {
    let t = Text::new(10, 4, mask(10, 4, 0), Position::Absolute(Vec2::new(20, 30))).unwrap();
    assert_eq!(t.right_of(2), Vec2::new(32, 30));
    assert_eq!(t.below_of(3), Vec2::new(20, 37));
}

#[test]
fn vec2_construction_and_perp() {
    let v = Vec2::new(3i16, 4i16);
    assert_eq!(v.x, 3);
    assert_eq!(v.y, 4);
    let p = v.perp();
    assert_eq!(p, Vec2::new(4i16, -3i16));
}

#[test]
fn mat2_is_column_major() {
    let m = Mat2::new((1u16, 2u16, 3u16, 4u16));
    assert_eq!(m.m[0][0], 1);
    assert_eq!(m.m[1][0], 2);
    assert_eq!(m.m[0][1], 3);
    assert_eq!(m.m[1][1], 4);
}

#[test]
fn color_holds_its_channels() {
    let c = Color::new(1, 2, 3);
    assert_eq!(c.r, 1);
    assert_eq!(c.g, 2);
    assert_eq!(c.b, 3);
}
