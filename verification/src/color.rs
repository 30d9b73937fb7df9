//! Colours with eight bits for each of red, green, blue and opacity.
use vstd::prelude::*;

verus! {

/// A colour: red, green, blue and opacity, in this order.
#[derive(Clone, Copy, Debug, PartialEq, Eq)]
pub struct Rgba(pub [u8; 4]);

impl Rgba {
    /// The four channels as a sequence.
    pub open spec fn channels(self) -> Seq<u8> {
        self.0@
    }

    /// The channel at place `index`: 0 for red, 1 for green, 2 for blue, 3
    /// for opacity.
    pub fn channel(&self, index: usize) -> (value: u8)
        requires
            index < 4,
        ensures
            value == self.channels()[index as int],
    {
        self.0[index]
    }
}

} // verus!
