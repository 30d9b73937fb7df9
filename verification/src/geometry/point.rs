//! A place on a canvas.
use vstd::prelude::*;

verus! {

/// The coordinates of a pixel, counted from the top left corner.
#[derive(Clone, Copy, Debug, PartialEq, Eq, Structural)]
pub struct Point {
    /// The distance from the left edge.
    pub x: u32,
    /// The distance from the top edge.
    pub y: u32,
}

impl Point {
    /// The point with the given coordinates.
    pub fn new(x: u32, y: u32) -> (point: Point)
        ensures
            point == (Point { x, y }),
    {
        Point { x, y }
    }

    /// The distance from the left edge.
    pub fn x(&self) -> (x: u32)
        ensures
            x == self.x,
    {
        self.x
    }

    /// The distance from the top edge.
    pub fn y(&self) -> (y: u32)
        ensures
            y == self.y,
    {
        self.y
    }
}

} // verus!
