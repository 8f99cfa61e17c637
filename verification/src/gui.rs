use vstd::prelude::*;

pub mod graph;
pub mod gui;
pub mod image;
pub mod text;

use crate::math::{UVec, Vec2};
use crate::util::Color;
use graph::Graph;
use gui::Widget;
use image::Image;
use text::Text;

verus! {

/// Anything a page can draw: a rasterized text mask, an image mask, or a
/// chart. Each kind reports a size and position and produces its pixels.
pub enum Drawable {
    Text(Text),
    Image(Image),
    Graph(Graph),
}

impl Drawable {
    /// The element's width in pixels.
    pub open spec fn spec_width(&self) -> u16 {
        match self {
            Drawable::Text(w) => w.spec_width(),
            Drawable::Image(w) => w.spec_width(),
            Drawable::Graph(w) => w.spec_width(),
        }
    }

    /// The element's height in pixels.
    pub open spec fn spec_height(&self) -> u16 {
        match self {
            Drawable::Text(w) => w.spec_height(),
            Drawable::Image(w) => w.spec_height(),
            Drawable::Graph(w) => w.spec_height(),
        }
    }

    /// The element's absolute top-left position.
    pub open spec fn spec_pos(&self) -> UVec {
        match self {
            Drawable::Text(w) => w.spec_pos(),
            Drawable::Image(w) => w.spec_pos(),
            Drawable::Graph(w) => w.spec_pos(),
        }
    }

    /// The pixels the element produces, row-major.
    pub open spec fn spec_pixels(&self) -> Seq<Color> {
        match self {
            Drawable::Text(w) => w.spec_pixels(),
            Drawable::Image(w) => w.spec_pixels(),
            Drawable::Graph(w) => w.spec_pixels(),
        }
    }

    /// Well-formed: the element's pixel data matches its reported size.
    pub open spec fn wf(&self) -> bool {
        match self {
            Drawable::Text(w) => w.wf(),
            Drawable::Image(w) => w.wf(),
            Drawable::Graph(w) => w.wf(),
        }
    }

    /// A well-formed element produces exactly width x height pixels.
    pub proof fn lemma_wf_pixels(&self)
        requires
            self.wf(),
        ensures
            self.spec_pixels().len() == self.spec_width() * self.spec_height(),
    {
        match self {
            Drawable::Text(w) => w.lemma_wf_pixels(),
            Drawable::Image(w) => w.lemma_wf_pixels(),
            Drawable::Graph(w) => w.lemma_wf_pixels(),
        }
    }

    pub fn get_width(&self) -> (r: u16)
        ensures
            r == self.spec_width(),
    {
        match self {
            Drawable::Text(w) => w.get_width(),
            Drawable::Image(w) => w.get_width(),
            Drawable::Graph(w) => w.get_width(),
        }
    }

    pub fn get_height(&self) -> (r: u16)
        ensures
            r == self.spec_height(),
    {
        match self {
            Drawable::Text(w) => w.get_height(),
            Drawable::Image(w) => w.get_height(),
            Drawable::Graph(w) => w.get_height(),
        }
    }

    pub fn get_pos(&self) -> (r: UVec)
        ensures
            r == self.spec_pos(),
    {
        match self {
            Drawable::Text(w) => w.get_pos(),
            Drawable::Image(w) => w.get_pos(),
            Drawable::Graph(w) => w.get_pos(),
        }
    }

    /// Produces the element's pixel buffer.
    pub fn make(&self) -> (v: Vec<Color>)
        requires
            self.wf(),
        ensures
            v@ == self.spec_pixels(),
    {
        match self {
            Drawable::Text(w) => w.make(),
            Drawable::Image(w) => w.make(),
            Drawable::Graph(w) => w.make(),
        }
    }
}

/// The corner points a laid-out element offers for chaining further
/// elements after it: just right of it, or just below it.
pub trait BoundingBox: Widget {
    /// The point one margin right of the element's top-right corner.
    fn right_of(&self, margin: u16) -> (r: UVec)
        requires
            self.spec_pos().x + self.spec_width() + margin <= u16::MAX,
        ensures
            r.x == self.spec_pos().x + self.spec_width() + margin,
            r.y == self.spec_pos().y,
    {
        let p = self.get_pos();
        Vec2 { x: p.x + self.get_width() + margin, y: p.y }
    }

    /// The point one margin below the element's bottom-left corner.
    fn below_of(&self, margin: u16) -> (r: UVec)
        requires
            self.spec_pos().y + self.spec_height() + margin <= u16::MAX,
        ensures
            r.x == self.spec_pos().x,
            r.y == self.spec_pos().y + self.spec_height() + margin,
    {
        let p = self.get_pos();
        Vec2 { x: p.x, y: p.y + self.get_height() + margin }
    }
}

impl BoundingBox for Text {
}

impl BoundingBox for Image {
}

impl BoundingBox for Graph {
}

} // verus!
