//! Points on the integer plane.

use vstd::prelude::*;

verus! {

/// A point with integer coordinates.
#[derive(Debug, Clone, Copy, PartialEq, Eq, Structural)]
pub struct Point {
    pub x: i32,
    pub y: i32,
}

impl Point {
    /// A point from its two coordinates.
    pub fn new(x: i32, y: i32) -> (p: Point)
        ensures
            p == (Point { x, y }),
    {
        Point { x, y }
    }

    /// The componentwise sum of two points.
    pub fn add(&self, other: &Point) -> (p: Point)
        requires
            i32::MIN <= self.x + other.x <= i32::MAX,
            i32::MIN <= self.y + other.y <= i32::MAX,
        ensures
            p.x == self.x + other.x,
            p.y == self.y + other.y,
    {
        Point { x: self.x + other.x, y: self.y + other.y }
    }
}

/// Moves a point to the given coordinates.
pub fn move_point(p: &mut Point, x: i32, y: i32)
    ensures
        *final(p) == (Point { x, y }),
{
    p.x = x;
    p.y = y;
}

} // verus!
