//! Two-dimensional vectors of lengths or velocities.

use vstd::prelude::*;

verus! {

/// A vector over the integers: what a [`Vec2`] stands for in contracts.
pub ghost struct Point {
    pub x: int,
    pub y: int,
}

/// A pair of coordinates.
#[derive(Clone, Copy, Debug, PartialEq, Eq, Structural)]
pub struct Vec2 {
    pub x: i64,
    pub y: i64,
}

impl View for Vec2 {
    type V = Point;

    open spec fn view(&self) -> Point {
        Point { x: self.x as int, y: self.y as int }
    }
}

impl Vec2 {
    /// The vector with the coordinates `x` and `y`.
    pub fn new(x: i64, y: i64) -> (v: Vec2)
        ensures
            v@ == (Point { x: x as int, y: y as int }),
    {
        Vec2 { x, y }
    }
}

} // verus!
