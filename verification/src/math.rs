use vstd::prelude::*;

verus! {

/// A two-component vector over any scalar type.
#[derive(Clone, Copy, Debug, PartialEq, Eq, Structural)]
pub struct Vec2<T> {
    pub x: T,
    pub y: T,
}

/// Unsigned screen coordinates, in pixel units.
pub type UVec = Vec2<u16>;

/// Signed coordinates, used for intermediate layout arithmetic.
pub type IVec = Vec2<i16>;

impl<T> Vec2<T> {
    pub fn new(x: T, y: T) -> (r: Vec2<T>)
        ensures
            r.x == x,
            r.y == y,
    {
        Vec2 { x, y }
    }
}

impl Vec2<i16> {
    /// The perpendicular vector, rotated a quarter turn.
    pub fn perp(&self) -> (r: Vec2<i16>)
        requires
            self.x > i16::MIN,
        ensures
            r.x == self.y,
            r.y == -self.x,
    {
        Vec2 { x: self.y, y: -self.x }
    }
}

/// A 2x2 matrix, stored column-major.
#[derive(Clone, Copy, Debug)]
pub struct Mat2<T> {
    pub m: [[T; 2]; 2],
}

impl<T> Mat2<T> {
    /// Builds the matrix from the four values in column-major order.
    pub fn new(vals: (T, T, T, T)) -> (r: Mat2<T>)
        ensures
            r.m@[0]@[0] == vals.0,
            r.m@[0]@[1] == vals.2,
            r.m@[1]@[0] == vals.1,
            r.m@[1]@[1] == vals.3,
    {
        Mat2 { m: [[vals.0, vals.2], [vals.1, vals.3]] }
    }
}

} // verus!
