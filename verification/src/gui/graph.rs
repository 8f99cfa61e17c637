use vstd::prelude::*;
use crate::math::{UVec, Vec2};
use crate::util::Color;
use super::gui::Widget;

verus! {

/// The thickness, in pixels, of a chart's axis bars.
pub const AXIS_THICKNESS: u16 = 10;

/// A chart: a white field with a black x axis along the bottom edge and a
/// black y axis along the left edge. The value range and step count are
/// recorded for the data series the chart is to carry.
pub struct Graph {
    pub pos: UVec,
    pub width: u16,
    pub height: u16,
    pub min: i16,
    pub max: i16,
    pub step_count: u16,
}

/// The pixels of a chart of the given size, row-major: black on the axis
/// bars, white elsewhere.
pub open spec fn graph_pixels(width: u16, height: u16) -> Seq<Color> {
    Seq::new(
        (width * height) as nat,
        |i: int| {
            let x = i % (width as int);
            let y = i / (width as int);
            if y >= height - AXIS_THICKNESS || x < AXIS_THICKNESS {
                Color { r: 0, g: 0, b: 0 }
            } else {
                Color { r: 255, g: 255, b: 255 }
            }
        },
    )
}

impl Graph {
    /// Builds a chart at the origin; the axes need room for their bars, so
    /// the size must admit them.
    pub fn new(width: u16, height: u16, min: i16, max: i16, step_count: u16) -> (r: Graph)
        requires
            width >= AXIS_THICKNESS,
            height >= AXIS_THICKNESS,
        ensures
            r.wf(),
            r.width == width,
            r.height == height,
            r.min == min,
            r.max == max,
            r.step_count == step_count,
            r.pos == (Vec2 { x: 0u16, y: 0u16 }),
    {
        Graph { pos: Vec2 { x: 0, y: 0 }, width, height, min, max, step_count }
    }
}

impl Widget for Graph {
    open spec fn spec_width(&self) -> u16 {
        self.width
    }

    open spec fn spec_height(&self) -> u16 {
        self.height
    }

    open spec fn spec_pos(&self) -> UVec {
        self.pos
    }

    open spec fn spec_pixels(&self) -> Seq<Color> {
        graph_pixels(self.width, self.height)
    }

    open spec fn wf(&self) -> bool {
        self.width >= AXIS_THICKNESS && self.height >= AXIS_THICKNESS
    }

    proof fn lemma_wf_pixels(&self) {
    }

    fn get_width(&self) -> u16 {
        self.width
    }

    fn get_height(&self) -> u16 {
        self.height
    }

    fn get_pos(&self) -> UVec {
        self.pos
    }

    fn set_pos(&mut self, pos: UVec) {
        self.pos = pos;
    }

    fn make(&self) -> (v: Vec<Color>)
    {
        let width = self.width;
        let height = self.height;
        proof {
            crate::util::lemma_dims_fit(width as int, height as int);
        }
        let mut v: Vec<Color> = Vec::new();
        let mut y: u16 = 0;
        while y < height
            invariant
                width >= AXIS_THICKNESS,
                height >= AXIS_THICKNESS,
                y <= height,
                v@.len() == y * width,
                forall|i: int| 0 <= i < v@.len() ==> v@[i] == graph_pixels(width, height)[i],
            decreases height - y,
        {
            let mut x: u16 = 0;
            while x < width
                invariant
                    width >= AXIS_THICKNESS,
                    height >= AXIS_THICKNESS,
                    y < height,
                    x <= width,
                    v@.len() == y * width + x,
                    forall|i: int| 0 <= i < v@.len() ==> v@[i] == graph_pixels(width, height)[i],
                decreases width - x,
            {
                proof {
                    crate::util::lemma_dims_fit(width as int, height as int);
                    crate::util::lemma_row_major(width as int, height as int, x as int, y as int);
                }
                let c = if y >= height - AXIS_THICKNESS || x < AXIS_THICKNESS {
                    Color { r: 0, g: 0, b: 0 }
                } else {
                    Color { r: 255, g: 255, b: 255 }
                };
                v.push(c);
                x = x + 1;
            }
            proof {
                assert(y * width + width == (y + 1) * width) by (nonlinear_arith);
            }
            y = y + 1;
        }
        proof {
            assert(height * width == width * height) by (nonlinear_arith);
            assert(v@ =~= graph_pixels(width, height));
        }
        v
    }
}

} // verus!
