//! The size of a picture or of a canvas.
use vstd::prelude::*;

verus! {

/// A width and a height in pixels.
#[derive(Clone, Copy, Debug, PartialEq, Eq, Structural)]
pub struct Size {
    /// The distance from the left to the right side.
    pub width: u32,
    /// The distance from the top to the bottom.
    pub height: u32,
}

impl Size {
    /// A size of the given width and height.
    pub fn new(width: u32, height: u32) -> (size: Size)
        ensures
            size == (Size { width, height }),
    {
        Size { width, height }
    }

    /// The width and the height as a pair.
    pub fn dimensions(&self) -> (pair: (u32, u32))
        ensures
            pair == (self.width, self.height),
    {
        (self.width, self.height)
    }

    /// The width.
    pub fn width(&self) -> (w: u32)
        ensures
            w == self.width,
    {
        self.width
    }

    /// The height.
    pub fn height(&self) -> (h: u32)
        ensures
            h == self.height,
    {
        self.height
    }
}

impl From<(u32, u32)> for Size {
    fn from(values: (u32, u32)) -> (size: Size) {
        Size { width: values.0, height: values.1 }
    }
}

impl vstd::std_specs::convert::FromSpecImpl<(u32, u32)> for Size {
    open spec fn obeys_from_spec() -> bool {
        true
    }

    open spec fn from_spec(values: (u32, u32)) -> Size {
        Size { width: values.0, height: values.1 }
    }
}

} // verus!
