use vstd::prelude::*;
use crate::math::{UVec, Vec2};
use crate::util::Color;
use super::gui::{Position, Widget, spec_resolved_x, spec_resolved_y};

verus! {

/// A picture, held as the grayscale mask a decoder produced from the image
/// file and scale factor: width x height pixels, row-major, with any alpha
/// already folded into the intensities.
pub struct Image {
    pub pos: UVec,
    pub width: u16,
    pub height: u16,
    pub pixels: Vec<Color>,
}

impl Image {
    /// Wraps a decoded image mask and positions it. Fails where the mask's
    /// length does not match the reported size, or where a relative rule
    /// resolves outside the screen space.
    pub fn new(width: u16, height: u16, pixels: Vec<Color>, pos: Position) -> (r: Option<Image>)
        ensures
            ({
                match r {
                    Some(t) => {
                        &&& pixels@.len() == width * height
                        &&& t.wf()
                        &&& t.width == width
                        &&& t.height == height
                        &&& t.pixels@ == pixels@
                        &&& match pos {
                            Position::Absolute(p) => t.pos == p,
                            Position::Relative(q) => {
                                let x = spec_resolved_x(q, width);
                                let y = spec_resolved_y(q, height);
                                &&& 0 <= x <= u16::MAX
                                &&& 0 <= y <= u16::MAX
                                &&& t.pos == (Vec2 { x: x as u16, y: y as u16 })
                            },
                        }
                    },
                    None => pixels@.len() != width * height || match pos {
                        Position::Absolute(_) => false,
                        Position::Relative(q) => !(0 <= spec_resolved_x(q, width) <= u16::MAX
                            && 0 <= spec_resolved_y(q, height) <= u16::MAX),
                    },
                }
            }),
    {
        proof {
            crate::util::lemma_dims_fit(width as int, height as int);
        }
        if pixels.len() != (width as usize) * (height as usize) {
            return None;
        }
        let t = Image { pos: Vec2 { x: 0, y: 0 }, width, height, pixels };
        match pos {
            Position::Absolute(p) => Some(t.set_pos_abs(p)),
            Position::Relative(q) => t.set_pos_rel(&q),
        }
    }
}

impl Widget for Image {
    open spec fn spec_width(&self) -> u16 {
        self.width
    }

    open spec fn spec_height(&self) -> u16 {
        self.height
    }

    open spec fn spec_pos(&self) -> UVec {
        self.pos
    }

    open spec fn spec_pixels(&self) -> Seq<Color> {
        self.pixels@
    }

    open spec fn wf(&self) -> bool {
        self.pixels@.len() == self.width * self.height
    }

    proof fn lemma_wf_pixels(&self) {
    }

    fn get_width(&self) -> u16 {
        self.width
    }

    fn get_height(&self) -> u16 {
        self.height
    }

    fn get_pos(&self) -> UVec {
        self.pos
    }

    fn set_pos(&mut self, pos: UVec) {
        self.pos = pos;
    }

    fn make(&self) -> Vec<Color> {
        crate::util::copy_vec(&self.pixels)
    }
}

} // verus!
