//! The framing options of the command line.
use crate::color::Rgba;
use crate::config::FrameConfig;
use crate::decimal::BILLION;
use crate::errors::OliframeError;
use crate::geometry::aspect_ratio::{parsed_as, read_ratio};
use crate::geometry::margins::{made_of_matches, numbers_in, NUMBER_PATTERN};
use crate::geometry::relative_position::read_position;
use crate::geometry::{
    AspectRatio, HorizontalPosition, Margins, RelativePosition, VerticalPosition,
};
use vstd::prelude::*;
use vstd::string::*;

verus! {

/// The framing options as the command line gives them.
#[derive(Debug)]
pub struct FrameOptions {
    /// The proportion of the canvas, as a fraction (`16:9`) or a decimal
    /// number (`1.777`).
    pub aspect_ratio: Option<String>,
    /// The colour of the frame, in any way that CSS writes colours.
    pub color: String,
    /// The radius in pixels of the picture's rounded corners.
    pub corner_radius: Option<u32>,
    /// The margins: one to four numbers.
    pub margins: Option<String>,
    /// The place of the picture on the canvas.
    pub position: Option<String>,
}

#[verifier::external_type_specification]
#[verifier::external_body]
pub struct ExColor(csscolorparser::Color);

/// The colour that `text` denotes in CSS, or `None` where the crate reads
/// none from it.
///
/// Trusted: `Color::from_str` of the crate `csscolorparser`, which reads a
/// colour in the notations of CSS or refuses the text. Nothing is claimed of
/// the result: for some notations the crate computes with powers, roots and
/// arc tangents of std, whose last digit std leaves to the platform, and
/// both the colour and, where the text divides by such a value, the success
/// can turn on it.
#[verifier::external_body]
fn parse_css_color(text: &str) -> (color: Option<csscolorparser::Color>) {
    text.parse::<csscolorparser::Color>().ok()
}

/// The four channels of a colour.
///
/// Trusted: `Color::to_rgba8` of the crate `csscolorparser`, which scales
/// each channel to the range 0 to 255. Nothing is claimed of the result.
#[verifier::external_body]
fn rgba8_of(color: &csscolorparser::Color) -> (channels: (u8, u8, u8, u8)) {
    let [r, g, b, a] = color.to_rgba8();
    (r, g, b, a)
}

/// The channels of the colour that the crate reads from `text`; `None` where it
/// reads none.
fn read_color(text: &str) -> (channels: Option<(u8, u8, u8, u8)>) {
    match parse_css_color(text) {
        Some(color) => Some(rgba8_of(&color)),
        None => None,
    }
}

/// The frame colour for what the parser made of the user's text.
pub fn color_of(parsed: Option<(u8, u8, u8, u8)>) -> (result: Result<Rgba, OliframeError>)
    ensures
        match parsed {
            Some((r, g, b, a)) => result matches Ok(color) && color.channels() == seq![r, g, b, a],
            None => result matches Err(OliframeError::InvalidInput(detail)) && detail@
                == "Invalid color."@,
        },
{
    match parsed {
        Some((r, g, b, a)) => {
            let color = Rgba([r, g, b, a]);
            assert(color.channels() =~= seq![r, g, b, a]);
            Ok(color)
        },
        None => Err(OliframeError::InvalidInput(String::from_str("Invalid color."))),
    }
}

/// The aspect ratio of `options` can be read, or none is given.
pub open spec fn ratio_reads(options: FrameOptions) -> bool {
    options.aspect_ratio matches Some(text) ==> read_ratio(text@) is Value
}

/// The margins of `options` can be read, or none are given.
pub open spec fn margins_read(options: FrameOptions) -> bool {
    options.margins matches Some(text) ==> exists|margins: Margins| #[trigger]
        made_of_matches(numbers_in(NUMBER_PATTERN@, text@), Ok::<Margins, OliframeError>(margins))
}

/// `config` is what the options `options` stand for, `parsed` being the
/// channels of the colour that was read from the colour option.
pub open spec fn config_of(
    options: FrameOptions,
    parsed: Option<(u8, u8, u8, u8)>,
    config: FrameConfig,
) -> bool {
    &&& match options.aspect_ratio {
        Some(text) => config.aspect_ratio matches Some(ratio) && parsed_as(
            text@,
            read_ratio(text@),
            Ok(ratio),
        ),
        None => config.aspect_ratio is None,
    }
    &&& parsed matches Some((r, g, b, a)) && config.color.channels() == seq![r, g, b, a]
    &&& config.corner_radius == options.corner_radius
    &&& match options.margins {
        Some(text) => made_of_matches(numbers_in(NUMBER_PATTERN@, text@), Ok(config.margins)),
        None => {
            &&& config.margins.wf()
            &&& config.margins@.len() == 1
            &&& config.margins@[0].num() == 5 * BILLION
            &&& config.margins@[0].den() == 100 * BILLION
        },
    }
    &&& match options.position {
        Some(text) => read_position(text@, Ok(config.position)),
        None => config.position == (RelativePosition {
            horizontal: HorizontalPosition::Center,
            vertical: VerticalPosition::Center,
        }),
    }
}

/// `error` is the error of the first option of `options` that cannot be
/// read, in the order aspect ratio, colour, margins, position; `parsed` is
/// what was read from the colour option, `None` where no colour was.
pub open spec fn refusal_of(
    options: FrameOptions,
    parsed: Option<(u8, u8, u8, u8)>,
    error: OliframeError,
) -> bool {
    ||| options.aspect_ratio matches Some(text) && parsed_as(
        text@,
        read_ratio(text@),
        Err(error),
    )
    ||| {
        &&& ratio_reads(options)
        &&& parsed is None
        &&& error matches OliframeError::InvalidInput(detail)
        &&& detail@ == "Invalid color."@
    }
    ||| {
        &&& ratio_reads(options)
        &&& parsed is Some
        &&& options.margins matches Some(text)
        &&& made_of_matches(numbers_in(NUMBER_PATTERN@, text@), Err(error))
    }
    ||| {
        &&& ratio_reads(options)
        &&& parsed is Some
        &&& margins_read(options)
        &&& options.position matches Some(text)
        &&& read_position(text@, Err(error))
    }
}

/// `result` is what is owed for the options `options` once `parsed` was
/// read from the colour option.
pub open spec fn outcome_of(
    options: FrameOptions,
    parsed: Option<(u8, u8, u8, u8)>,
    result: Result<FrameConfig, OliframeError>,
) -> bool {
    match result {
        Ok(config) => config_of(options, parsed, config),
        Err(error) => refusal_of(options, parsed, error),
    }
}

impl FrameConfig {
    /// The configuration that the options stand for, or the error of the
    /// first option that cannot be read. The colour is the one that the
    /// colour option was read as; what that is, the reader of colours
    /// decides.
    pub fn try_from(options: FrameOptions) -> (result: Result<FrameConfig, OliframeError>)
        ensures
            exists|parsed: Option<(u8, u8, u8, u8)>| #[trigger] outcome_of(options, parsed, result),
    {
        let parsed = read_color(options.color.as_str());
        FrameConfig::with_color(options, parsed)
    }

    /// The configuration that the options stand for once the colour option
    /// has been read as the channels `parsed` (`None`: as no colour), or
    /// the error of the first option that cannot be read.
    pub fn with_color(options: FrameOptions, parsed: Option<(u8, u8, u8, u8)>) -> (result: Result<
        FrameConfig,
        OliframeError,
    >)
        ensures
            outcome_of(options, parsed, result),
    {
        let aspect_ratio = match &options.aspect_ratio {
            Some(text) => match AspectRatio::parse(text.as_str()) {
                Ok(ratio) => Some(ratio),
                Err(error) => {
                    return Err(error);
                },
            },
            None => None,
        };
        let color = match color_of(parsed) {
            Ok(color) => color,
            Err(error) => {
                return Err(error);
            },
        };
        let margins = match &options.margins {
            Some(text) => match Margins::parse(text.as_str()) {
                Ok(margins) => margins,
                Err(error) => {
                    return Err(error);
                },
            },
            None => Margins::default(),
        };
        let position = match &options.position {
            Some(text) => match RelativePosition::parse(text.as_str()) {
                Ok(position) => position,
                Err(error) => {
                    return Err(error);
                },
            },
            None => RelativePosition::default(),
        };
        Ok(FrameConfig::new(aspect_ratio, color, options.corner_radius, margins, position))
    }
}

} // verus!
