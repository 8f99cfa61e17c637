use inkframe::gui::gui::{
    HAlign, Placement, Position, Positioner, VAlign, Widget, resolve_position,
};
use inkframe::gui::text::Text;
use inkframe::math::Vec2;
use inkframe::util::Color;

fn reference(x: u16, y: u16, w: u16, h: u16) -> Placement {
    Placement { pos: Vec2::new(x, y), width: w, height: h }
}

fn mask(w: u16, h: u16) -> Vec<Color> {
    vec![Color::new(0, 0, 0); w as usize * h as usize]
}

#[test]
fn anchor_trailing_edge_round_trip() {
    // Anchor at the reference's right edge and top edge; alignment
    // selectors contributing no offset; zero margin: the widget lands at
    // (x + width, y).
    let p = Positioner {
        rel: reference(100, 50, 20, 10),
        anchor: (HAlign::Right, VAlign::Up),
        align: (HAlign::Right, VAlign::Down),
        margin: (0, 0),
    };
    assert_eq!(resolve_position(7, 9, &p), Some(Vec2::new(120, 50)));
}

#[test]
fn margin_added_verbatim() {
    let base = Positioner {
        rel: reference(100, 50, 20, 10),
        anchor: (HAlign::Right, VAlign::Up),
        align: (HAlign::Right, VAlign::Down),
        margin: (0, 0),
    };
    let with_margin = Positioner { margin: (3, -5), ..base };
    assert_eq!(resolve_position(7, 9, &with_margin), Some(Vec2::new(123, 45)));
}

#[test]
fn center_selectors_use_half_dimensions() {
    let p = Positioner {
        rel: reference(100, 100, 21, 11),
        anchor: (HAlign::Center, VAlign::Center),
        align: (HAlign::Center, VAlign::Center),
        margin: (0, 0),
    };
    // anchor point (100+10, 100+5); subtract widget halves (4, 3)
    assert_eq!(resolve_position(8, 6, &p), Some(Vec2::new(106, 102)));
}

#[test]
fn negative_result_fails_instead_of_wrapping() {
    // A leading alignment subtracts the widget's full width; at the origin
    // that goes negative and must fail.
    let p = Positioner {
        rel: reference(0, 0, 4, 4),
        anchor: (HAlign::Left, VAlign::Up),
        align: (HAlign::Left, VAlign::Down),
        margin: (0, 0),
    };
    assert_eq!(resolve_position(5, 5, &p), None);
}

#[test]
fn oversized_result_fails() {
    let p = Positioner {
        rel: reference(u16::MAX, 0, 1, 1),
        anchor: (HAlign::Right, VAlign::Up),
        align: (HAlign::Right, VAlign::Down),
        margin: (0, 0),
    };
    assert_eq!(resolve_position(1, 1, &p), None);
}

#[test]
fn widget_positioned_absolutely() {
    let t = Text::new(3, 2, mask(3, 2), Position::Absolute(Vec2::new(11, 13))).unwrap();
    assert_eq!(t.get_pos(), Vec2::new(11, 13));
    assert_eq!(t.get_width(), 3);
    assert_eq!(t.get_height(), 2);
}

#[test]
fn widget_positioned_relatively() {
    let anchor_widget =
        Text::new(20, 10, mask(20, 10), Position::Absolute(Vec2::new(100, 50))).unwrap();
    let rule = Positioner {
        rel: anchor_widget.placement(),
        anchor: (HAlign::Right, VAlign::Up),
        align: (HAlign::Right, VAlign::Down),
        margin: (0, 0),
    };
    let t = Text::new(7, 9, mask(7, 9), Position::Relative(rule)).unwrap();
    assert_eq!(t.get_pos(), Vec2::new(120, 50));
}

#[test]
fn widget_relative_out_of_range_fails() {
    let anchor_widget =
        Text::new(4, 4, mask(4, 4), Position::Absolute(Vec2::new(0, 0))).unwrap();
    let rule = Positioner {
        rel: anchor_widget.placement(),
        anchor: (HAlign::Left, VAlign::Up),
        align: (HAlign::Left, VAlign::Down),
        margin: (0, 0),
    };
    assert!(Text::new(5, 5, mask(5, 5), Position::Relative(rule)).is_none());
}
