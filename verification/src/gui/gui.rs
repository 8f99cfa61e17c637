use vstd::prelude::*;
use crate::math::{UVec, Vec2};
use crate::util::Color;

verus! {

/// Legacy combined alignment rules. Kept for callers that name one of the
/// fixed combinations; positioning itself picks a selector per axis.
#[derive(Clone, Copy, Debug)]
pub enum Align {
    Left,
    Right,
    RightCenter,
    BelowLeft,
    BelowRight,
    BelowCenter,
    AboveLeft,
    AboveRight,
    AboveCenter,
}

/// The vertical selector of an anchor or alignment point.
#[derive(Clone, Copy, Debug, PartialEq, Eq, Structural)]
pub enum VAlign {
    Up,
    Center,
    Down,
}

/// The horizontal selector of an anchor or alignment point.
#[derive(Clone, Copy, Debug, PartialEq, Eq, Structural)]
pub enum HAlign {
    Left,
    Center,
    Right,
}

/// The resolved place of a widget: its absolute position and its size. A
/// relative rule references its peer through this, so only a widget whose
/// own position is already settled can serve as a reference.
#[derive(Clone, Copy, Debug, PartialEq, Eq, Structural)]
pub struct Placement {
    pub pos: UVec,
    pub width: u16,
    pub height: u16,
}

/// A relative positioning rule: an anchor point on the reference widget, an
/// alignment point on the widget being placed, and a signed margin added to
/// the result.
#[derive(Clone, Copy, Debug)]
pub struct Positioner {
    pub rel: Placement,
    pub anchor: (HAlign, VAlign),
    pub align: (HAlign, VAlign),
    pub margin: (i16, i16),
}

/// Where a widget is to stand: at an absolute coordinate, or relative to an
/// already-placed widget.
#[derive(Clone, Copy, Debug)]
pub enum Position {
    Absolute(UVec),
    Relative(Positioner),
}

/// The horizontal offset of the anchor point on the reference widget: its
/// leading edge, its middle, or its trailing edge.
pub open spec fn spec_anchor_x(sel: HAlign, dim: u16) -> int {
    match sel {
        HAlign::Left => 0,
        HAlign::Center => dim as int / 2,
        HAlign::Right => dim as int,
    }
}

/// The vertical offset of the anchor point on the reference widget.
pub open spec fn spec_anchor_y(sel: VAlign, dim: u16) -> int {
    match sel {
        VAlign::Up => 0,
        VAlign::Center => dim as int / 2,
        VAlign::Down => dim as int,
    }
}

/// The horizontal offset subtracted for the widget's own alignment. The sign
/// convention is inverted against the anchor's, since alignment subtracts: a
/// leading selector moves the widget fully left of the anchor point.
pub open spec fn spec_align_x(sel: HAlign, dim: u16) -> int {
    match sel {
        HAlign::Left => dim as int,
        HAlign::Center => dim as int / 2,
        HAlign::Right => 0,
    }
}

/// The vertical offset subtracted for the widget's own alignment.
pub open spec fn spec_align_y(sel: VAlign, dim: u16) -> int {
    match sel {
        VAlign::Up => dim as int,
        VAlign::Center => dim as int / 2,
        VAlign::Down => 0,
    }
}

/// The signed x coordinate a relative rule resolves to, for a widget of the
/// given width: reference position plus anchor offset, minus the widget's
/// alignment offset, plus the margin.
pub open spec fn spec_resolved_x(p: Positioner, width: u16) -> int {
    p.rel.pos.x + spec_anchor_x(p.anchor.0, p.rel.width) - spec_align_x(p.align.0, width)
        + p.margin.0
}

/// The signed y coordinate a relative rule resolves to, for a widget of the
/// given height.
pub open spec fn spec_resolved_y(p: Positioner, height: u16) -> int {
    p.rel.pos.y + spec_anchor_y(p.anchor.1, p.rel.height) - spec_align_y(p.align.1, height)
        + p.margin.1
}

fn anchor_x(sel: HAlign, dim: u16) -> (r: u16)
    ensures
        r == spec_anchor_x(sel, dim),
{
    match sel {
        HAlign::Left => 0,
        HAlign::Center => dim / 2,
        HAlign::Right => dim,
    }
}

fn anchor_y(sel: VAlign, dim: u16) -> (r: u16)
    ensures
        r == spec_anchor_y(sel, dim),
{
    match sel {
        VAlign::Up => 0,
        VAlign::Center => dim / 2,
        VAlign::Down => dim,
    }
}

fn align_x(sel: HAlign, dim: u16) -> (r: u16)
    ensures
        r == spec_align_x(sel, dim),
{
    match sel {
        HAlign::Left => dim,
        HAlign::Center => dim / 2,
        HAlign::Right => 0,
    }
}

fn align_y(sel: VAlign, dim: u16) -> (r: u16)
    ensures
        r == spec_align_y(sel, dim),
{
    match sel {
        VAlign::Up => dim,
        VAlign::Center => dim / 2,
        VAlign::Down => 0,
    }
}

/// Resolves a relative rule for a widget of the given size. The arithmetic
/// runs signed, so a margin may push an intermediate result left of or above
/// the reference; a final coordinate outside the unsigned screen space fails
/// rather than wrapping.
pub fn resolve_position(width: u16, height: u16, p: &Positioner) -> (r: Option<UVec>)
    ensures
        ({
            let x = spec_resolved_x(*p, width);
            let y = spec_resolved_y(*p, height);
            if 0 <= x <= u16::MAX && 0 <= y <= u16::MAX {
                r == Some(Vec2 { x: x as u16, y: y as u16 })
            } else {
                r is None
            }
        }),
{
    let x: i32 = p.rel.pos.x as i32 + anchor_x(p.anchor.0, p.rel.width) as i32
        - align_x(p.align.0, width) as i32 + p.margin.0 as i32;
    let y: i32 = p.rel.pos.y as i32 + anchor_y(p.anchor.1, p.rel.height) as i32
        - align_y(p.align.1, height) as i32 + p.margin.1 as i32;
    if x >= 0 && x <= u16::MAX as i32 && y >= 0 && y <= u16::MAX as i32 {
        Some(Vec2 { x: x as u16, y: y as u16 })
    } else {
        None
    }
}

/// A GUI element the panel can draw: a fixed size, a mutable position, and a
/// production function yielding exactly width x height pixels row-major.
pub trait Widget: Sized {
    /// The element's width in pixels, fixed at construction.
    spec fn spec_width(&self) -> u16;

    /// The element's height in pixels, fixed at construction.
    spec fn spec_height(&self) -> u16;

    /// The element's absolute top-left position.
    spec fn spec_pos(&self) -> UVec;

    /// The pixels `make` produces, row-major.
    spec fn spec_pixels(&self) -> Seq<Color>;

    /// Well-formed: the pixel data matches the reported size.
    spec fn wf(&self) -> bool;

    /// A well-formed element produces exactly width x height pixels.
    proof fn lemma_wf_pixels(&self)
        requires
            self.wf(),
        ensures
            self.spec_pixels().len() == self.spec_width() * self.spec_height(),
    ;

    fn get_width(&self) -> (r: u16)
        ensures
            r == self.spec_width(),
    ;

    fn get_height(&self) -> (r: u16)
        ensures
            r == self.spec_height(),
    ;

    fn get_pos(&self) -> (r: UVec)
        ensures
            r == self.spec_pos(),
    ;

    fn set_pos(&mut self, pos: UVec)
        requires
            old(self).wf(),
        ensures
            final(self).wf(),
            final(self).spec_pos() == pos,
            final(self).spec_width() == old(self).spec_width(),
            final(self).spec_height() == old(self).spec_height(),
            final(self).spec_pixels() == old(self).spec_pixels(),
    ;

    /// Produces the element's pixel buffer.
    fn make(&self) -> (v: Vec<Color>)
        requires
            self.wf(),
        ensures
            v@ == self.spec_pixels(),
    ;

    /// The element's resolved place, for anchoring other elements to it.
    fn placement(&self) -> (r: Placement)
        ensures
            r == (Placement {
                pos: self.spec_pos(),
                width: self.spec_width(),
                height: self.spec_height(),
            }),
    {
        Placement { pos: self.get_pos(), width: self.get_width(), height: self.get_height() }
    }

    /// Positions the element at an absolute coordinate.
    fn set_pos_abs(self, pos: UVec) -> (r: Self)
        requires
            self.wf(),
        ensures
            r.wf(),
            r.spec_pos() == pos,
            r.spec_width() == self.spec_width(),
            r.spec_height() == self.spec_height(),
            r.spec_pixels() == self.spec_pixels(),
    {
        let mut w = self;
        w.set_pos(pos);
        w
    }

    /// Positions the element relative to an already-placed one. Fails
    /// exactly where the resolved coordinate falls outside the unsigned
    /// screen space.
    fn set_pos_rel(self, pos: &Positioner) -> (r: Option<Self>)
        requires
            self.wf(),
        ensures
            ({
                let x = spec_resolved_x(*pos, self.spec_width());
                let y = spec_resolved_y(*pos, self.spec_height());
                if 0 <= x <= u16::MAX && 0 <= y <= u16::MAX {
                    match r {
                        Some(w) => {
                            &&& w.wf()
                            &&& w.spec_pos() == (Vec2 { x: x as u16, y: y as u16 })
                            &&& w.spec_width() == self.spec_width()
                            &&& w.spec_height() == self.spec_height()
                            &&& w.spec_pixels() == self.spec_pixels()
                        },
                        None => false,
                    }
                } else {
                    r is None
                }
            }),
    {
        match resolve_position(self.get_width(), self.get_height(), pos) {
            Some(p) => {
                let mut w = self;
                w.set_pos(p);
                Some(w)
            },
            None => None,
        }
    }
}

/// Anchoring at the reference's trailing x edge and leading y edge, with the
/// alignment selectors that contribute no offset and a zero margin, resolves
/// to the reference's top-right corner: `(x + width, y)`.
pub proof fn lemma_relative_round_trip(rel: Placement, width: u16, height: u16)
    ensures
        ({
            let p = Positioner {
                rel,
                anchor: (HAlign::Right, VAlign::Up),
                align: (HAlign::Right, VAlign::Down),
                margin: (0, 0),
            };
            &&& spec_resolved_x(p, width) == rel.pos.x + rel.width
            &&& spec_resolved_y(p, height) == rel.pos.y
        }),
{
}

/// The margin is added verbatim to the anchor-minus-align result: a rule
/// with margin `(mx, my)` resolves exactly `(mx, my)` away from the same
/// rule with a zero margin.
pub proof fn lemma_margin_verbatim(p: Positioner, width: u16, height: u16)
    ensures
        spec_resolved_x(p, width) == spec_resolved_x(
            (Positioner { margin: (0, 0), ..p }),
            width,
        ) + p.margin.0,
        spec_resolved_y(p, height) == spec_resolved_y(
            (Positioner { margin: (0, 0), ..p }),
            height,
        ) + p.margin.1,
{
}

} // verus!
