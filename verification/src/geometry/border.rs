//! The widths in pixels of the four sides of a frame.
use vstd::prelude::*;

verus! {

/// The widths of the frame above, right of, below and left of the picture.
#[derive(Clone, Copy, Debug, PartialEq, Eq, Structural)]
pub struct Border {
    /// The width of the top side.
    pub top: u32,
    /// The width of the right side.
    pub right: u32,
    /// The width of the bottom side.
    pub bottom: u32,
    /// The width of the left side.
    pub left: u32,
}

impl Border {
    /// A border with the given widths.
    pub fn new(top: u32, right: u32, bottom: u32, left: u32) -> (border: Border)
        ensures
            border == (Border { top, right, bottom, left }),
    {
        Border { top, right, bottom, left }
    }

    /// The width of the top side.
    pub fn top(&self) -> (w: u32)
        ensures
            w == self.top,
    {
        self.top
    }

    /// The width of the right side.
    pub fn right(&self) -> (w: u32)
        ensures
            w == self.right,
    {
        self.right
    }

    /// The width of the bottom side.
    pub fn bottom(&self) -> (w: u32)
        ensures
            w == self.bottom,
    {
        self.bottom
    }

    /// The width of the left side.
    pub fn left(&self) -> (w: u32)
        ensures
            w == self.left,
    {
        self.left
    }
}

} // verus!
