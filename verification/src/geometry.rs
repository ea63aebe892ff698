//! Geometry primitives: a 2D integer vector and an axis-aligned rectangle.
//! Coordinates live in a small bounded screen range, so the arithmetic
//! contracts only ask that the sums fit in the machine integers.

use vstd::prelude::*;

verus! {

/// A 2D point or displacement with integer components.
#[derive(Clone, Copy, Debug, PartialEq, Eq, Structural)]
pub struct Vector2 {
    pub x: i32,
    pub y: i32,
}

impl Vector2 {
    /// Componentwise vector addition.
    pub fn add(self, other: Vector2) -> (r: Vector2)
        requires
            i32::MIN <= self.x + other.x <= i32::MAX,
            i32::MIN <= self.y + other.y <= i32::MAX,
        ensures
            r.x == self.x + other.x,
            r.y == self.y + other.y,
    {
        Vector2 { x: self.x + other.x, y: self.y + other.y }
    }
}

/// An axis-aligned rectangle: a position (top-left corner) and a size.
/// Well-formed rectangles have non-negative extents.
#[derive(Clone, Copy, Debug, PartialEq, Eq, Structural)]
pub struct Rect {
    pub x: i32,
    pub y: i32,
    pub w: i32,
    pub h: i32,
}

impl Rect {
    /// Non-negative extents; the one invariant a rectangle carries.
    pub open spec fn wf(self) -> bool {
        self.w >= 0 && self.h >= 0
    }

    pub fn new(x: i32, y: i32, w: i32, h: i32) -> (r: Rect)
        requires
            w >= 0,
            h >= 0,
        ensures
            r == (Rect { x, y, w, h }),
            r.wf(),
    {
        Rect { x, y, w, h }
    }
}

} // verus!
