//! How a frame is to look.
use crate::color::Rgba;
use crate::decimal::BILLION;
use crate::geometry::{
    AspectRatio, HorizontalPosition, Margins, RelativePosition, VerticalPosition,
};
use vstd::prelude::*;

verus! {

/// The wishes for a frame, the same for every picture of a run.
#[derive(Debug)]
pub struct FrameConfig {
    /// The proportion of the canvas, if it is fixed.
    pub aspect_ratio: Option<AspectRatio>,
    /// The colour of the frame.
    pub color: Rgba,
    /// The radius of the picture's rounded corners, if they are rounded.
    pub corner_radius: Option<u32>,
    /// The margins around the picture.
    pub margins: Margins,
    /// The place of the picture on the canvas.
    pub position: RelativePosition,
}

impl FrameConfig {
    /// A configuration of the given parts.
    pub fn new(
        aspect_ratio: Option<AspectRatio>,
        color: Rgba,
        corner_radius: Option<u32>,
        margins: Margins,
        position: RelativePosition,
    ) -> (config: FrameConfig)
        ensures
            config.aspect_ratio == aspect_ratio,
            config.color == color,
            config.corner_radius == corner_radius,
            config.margins == margins,
            config.position == position,
    {
        FrameConfig { aspect_ratio, color, corner_radius, margins, position }
    }

    /// The proportion of the canvas, if it is fixed.
    pub fn aspect_ratio(&self) -> (r: &Option<AspectRatio>)
        ensures
            *r == self.aspect_ratio,
    {
        &self.aspect_ratio
    }

    /// The colour of the frame.
    pub fn color(&self) -> (r: &Rgba)
        ensures
            *r == self.color,
    {
        &self.color
    }

    /// The radius of the picture's rounded corners, if they are rounded.
    pub fn corner_radius(&self) -> (r: &Option<u32>)
        ensures
            *r == self.corner_radius,
    {
        &self.corner_radius
    }

    /// The margins around the picture.
    pub fn margins(&self) -> (r: &Margins)
        ensures
            *r == self.margins,
    {
        &self.margins
    }

    /// The place of the picture on the canvas.
    pub fn position(&self) -> (r: &RelativePosition)
        ensures
            *r == self.position,
    {
        &self.position
    }
}

impl Default for FrameConfig {
    /// A white frame of five percent on all sides, with square corners and
    /// the picture in the middle.
    fn default() -> (config: FrameConfig)
        ensures
            config.aspect_ratio is None,
            config.color.channels() == seq![255u8, 255u8, 255u8, 255u8],
            config.corner_radius is None,
            config.margins@.len() == 1,
            config.position == (RelativePosition {
                horizontal: HorizontalPosition::Center,
                vertical: VerticalPosition::Center,
            }),
            config.margins.wf(),
            config.margins@[0].num() == 5 * BILLION,
            config.margins@[0].den() == 100 * BILLION,
    {
        let config = FrameConfig {
            aspect_ratio: None,
            color: Rgba([255, 255, 255, 255]),
            corner_radius: None,
            margins: Margins::default(),
            position: RelativePosition::default(),
        };
        assert(config.color.channels() =~= seq![255u8, 255u8, 255u8, 255u8]);
        config
    }
}

} // verus!
