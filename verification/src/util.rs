use vstd::prelude::*;
use crate::math::{UVec, Vec2};

verus! {

/// One pixel's colour: three 8-bit channel intensities.
#[derive(Copy, Clone, Debug, PartialEq, Eq, Structural)]
pub struct Color {
    pub r: u8,
    pub g: u8,
    pub b: u8,
}

impl Color {
    pub fn new(r: u8, g: u8, b: u8) -> (c: Color)
        ensures
            c == (Color { r, g, b }),
    {
        Color { r, g, b }
    }
}

/// A vector of `n` copies of `val`.
pub(crate) fn filled_vec<T: Copy>(val: T, n: usize) -> (v: Vec<T>)
    ensures
        v@ == Seq::new(n as nat, |i: int| val),
{
    let mut v: Vec<T> = Vec::new();
    while v.len() < n
        invariant
            v@.len() <= n,
            forall|i: int| 0 <= i < v@.len() ==> v@[i] == val,
        decreases n - v@.len(),
    {
        v.push(val);
    }
    proof {
        assert(v@ =~= Seq::new(n as nat, |i: int| val));
    }
    v
}

/// A screen-sized pixel count fits comfortably in 32 bits.
pub(crate) proof fn lemma_dims_fit(w: int, h: int)
    requires
        0 <= w <= u16::MAX,
        0 <= h <= u16::MAX,
    ensures
        0 <= w * h <= 0xFFFE0001,
{
    assert(0 <= w * h <= 0xFFFE0001) by (nonlinear_arith)
        requires
            0 <= w <= 0xFFFF,
            0 <= h <= 0xFFFF,
    ;
}

/// In a row-major pixel field of the given width, the cell at column `x`,
/// row `y` stands at index `y * width + x`, and that index recovers the
/// coordinates.
pub(crate) proof fn lemma_row_major(width: int, height: int, x: int, y: int)
    requires
        width >= 1,
        0 <= x < width,
        0 <= y < height,
    ensures
        0 <= y * width + x < width * height,
        (y * width + x) % width == x,
        (y * width + x) / width == y,
{
    assert(0 <= y * width + x < width * height && (y * width + x) % width == x
        && (y * width + x) / width == y) by (nonlinear_arith)
        requires
            width >= 1,
            0 <= x < width,
            0 <= y < height,
    ;
}

/// A copy of a vector of plain values.
pub(crate) fn copy_vec<T: Copy>(v: &Vec<T>) -> (r: Vec<T>)
    ensures
        r@ == v@,
{
    let mut r: Vec<T> = Vec::new();
    let mut i: usize = 0;
    while i < v.len()
        invariant
            i <= v@.len(),
            r@ == v@.take(i as int),
        decreases v@.len() - i,
    {
        r.push(v[i]);
        proof {
            assert(r@ =~= v@.take(i + 1));
        }
        i = i + 1;
    }
    proof {
        assert(r@ =~= v@);
    }
    r
}

/// The pixels of a filled axis-aligned rectangle, row-major.
pub struct Rectangle;

/// The coordinates a rectangle at `pos` of size `width` x `height` covers,
/// row-major: entry `i` is `(pos.x + i % width, pos.y + i / width)`.
pub open spec fn rect_coords(pos: UVec, width: u16, height: u16) -> Seq<UVec> {
    Seq::new(
        (width * height) as nat,
        |i: int| Vec2 { x: (pos.x + i % (width as int)) as u16, y: (pos.y + i / (width as int)) as u16 },
    )
}

impl Rectangle {
    /// Enumerates the rectangle's pixels row by row.
    pub fn new(pos: Vec2<u16>, width: u16, height: u16) -> (r: Vec<UVec>)
        requires
            pos.x + width <= u16::MAX + 1,
            pos.y + height <= u16::MAX + 1,
        ensures
            r@ == rect_coords(pos, width, height),
    {
        let mut pixels: Vec<UVec> = Vec::new();
        let x_end: u32 = pos.x as u32 + width as u32;
        let y_end: u32 = pos.y as u32 + height as u32;
        let mut y: u32 = pos.y as u32;
        while y < y_end
            invariant
                x_end == pos.x + width <= u16::MAX + 1,
                y_end == pos.y + height <= u16::MAX + 1,
                pos.y <= y <= y_end,
                pixels@.len() == (y - pos.y) * width,
                forall|i: int|
                    0 <= i < pixels@.len() ==> pixels@[i] == rect_coords(pos, width, height)[i],
            decreases y_end - y,
        {
            let mut x: u32 = pos.x as u32;
            while x < x_end
                invariant
                    x_end == pos.x + width <= u16::MAX + 1,
                    y_end == pos.y + height <= u16::MAX + 1,
                    pos.y <= y < y_end,
                    pos.x <= x <= x_end,
                    pixels@.len() == (y - pos.y) * width + (x - pos.x),
                    forall|i: int|
                        0 <= i < pixels@.len() ==> pixels@[i] == rect_coords(pos, width, height)[i],
                decreases x_end - x,
            {
                proof {
                    let i = pixels@.len() as int;
                    assert(i == (y - pos.y) * width + (x - pos.x));
                    lemma_row_major_index(pos.x as int, pos.y as int, width as int, height as int,
                        x as int, y as int);
                }
                pixels.push(Vec2 { x: x as u16, y: y as u16 });
                x = x + 1;
            }
            proof {
                assert((y - pos.y) * width + width == (y + 1 - pos.y) * width) by (nonlinear_arith);
            }
            y = y + 1;
        }
        proof {
            assert((y_end - pos.y) * width == width * height) by (nonlinear_arith)
                requires
                    y_end - pos.y == height,
            ;
            assert(pixels@ =~= rect_coords(pos, width, height));
        }
        pixels
    }
}

/// In a row-major enumeration of a `width`-wide rectangle, the pixel at
/// column `x`, row `y` stands at index `(y - pos_y) * width + (x - pos_x)`.
proof fn lemma_row_major_index(px: int, py: int, width: int, height: int, x: int, y: int)
    requires
        width >= 1,
        px <= x < px + width,
        py <= y < py + height,
    ensures
        ({
            let i = (y - py) * width + (x - px);
            &&& 0 <= i < width * height
            &&& i % width == x - px
            &&& i / width == y - py
        }),
{
    lemma_row_major(width, height, x - px, y - py);
}

} // verus!
