//! The framing of one picture: layout, classification of pixels, compositing.
pub mod layout;
pub mod picture;
pub mod pixel_source;

use crate::color::Rgba;
use crate::config::FrameConfig;
use crate::errors::OliframeError;
use crate::file_collector::FilePair;
use crate::geometry::margins::border_of;
use crate::geometry::{Point, Size};
use crate::ratio::{lemma_round_div_bounds, round_div, round_div_u128, Ratio};
use layout::{canvas_size, frame_fits, holds_frame, placement};
use picture::{channel_count, ImageFormat, Painter, Picture};
use pixel_source::{
    classify, is_blend_weight, lemma_blend_weight_exists, PixelClass, ALPHA_SCALE,
};
pub use pixel_source::PixelSource;
use std::path::PathBuf;
use vstd::prelude::*;

verus! {

/// One picture on its way to being framed.
#[derive(Debug)]
pub struct Frame {
    /// The picture: the one that was read until the frame is drawn, the
    /// framed one from then on.
    pub img: Picture,
    /// The format that the picture was read from.
    pub fmt: ImageFormat,
    /// The size of the picture that was read.
    pub input_size: Size,
    /// The path to write the framed picture to.
    pub output_path: PathBuf,
    /// The size of the canvas.
    pub output_size: Size,
    /// The place of the picture's top left corner on the canvas.
    pub position: Point,
}

/// What is to be done with a frame that has been drawn.
#[derive(Clone, Copy, Debug, PartialEq, Eq, Structural)]
pub enum SaveAction {
    /// The framed picture is to be written to its output path.
    Write,
    /// Nothing is to be written; the output path is only to be told.
    Report,
}

/// The mix of a channel of the picture with that of the background, the
/// picture weighing `n / d`, rounded to the nearest value.
pub open spec fn blend_value(source: u8, background: u8, n: int, d: int) -> int {
    round_div(source * n + background * (d - n), d)
}

/// The weight of a pixel on the blend band, in parts of `ALPHA_SCALE`.
pub open spec fn blend_numerator(distance_squared: nat, radius: nat) -> nat {
    choose|n: nat| is_blend_weight(n, distance_squared, radius)
}

/// Channel `c` of the canvas pixel in column `x` of row `y`: the
/// background's, the picture's, or on a rounded corner's edge their mix.
pub open spec fn canvas_channel(
    source: Picture,
    position: Point,
    background: Rgba,
    corner_radius: Option<u32>,
    x: int,
    y: int,
    c: int,
) -> u8 {
    match classify(Point { x: x as u32, y: y as u32 }, position, source.size(), corner_radius) {
        PixelClass::Background => background.channels()[c],
        PixelClass::Image => source.channel(x - position.x, y - position.y, c),
        PixelClass::Blend { distance_squared, radius } => blend_value(
            source.channel(x - position.x, y - position.y, c),
            background.channels()[c],
            blend_numerator(distance_squared, radius) as int,
            ALPHA_SCALE as int,
        ) as u8,
    }
}

/// On the blend band `blend_numerator` is the weight of the pixel:
/// `1 - sqrt(distance_squared) / radius`, rounded down to a multiple of
/// `1 / ALPHA_SCALE`.
pub proof fn lemma_blend_numerator(distance_squared: nat, radius: nat)
    requires
        radius * radius - radius < distance_squared <= radius * radius,
    ensures
        is_blend_weight(blend_numerator(distance_squared, radius), distance_squared, radius),
{
    lemma_blend_weight_exists(distance_squared, radius);
}

/// Only one weight fits a pixel on the blend band.
pub proof fn lemma_blend_weight_unique(a: nat, b: nat, distance_squared: nat, radius: nat)
    requires
        is_blend_weight(a, distance_squared, radius),
        is_blend_weight(b, distance_squared, radius),
    ensures
        a == b,
{
    let s = ALPHA_SCALE as int;
    let r2 = (radius * radius) as int;
    if a < b {
        assert(r2 * ((s - a - 1) * (s - a - 1)) >= r2 * ((s - b) * (s - b))) by (nonlinear_arith)
            requires
                s - a - 1 >= s - b,
                s - b >= 0,
                r2 >= 0,
        ;
    } else if b < a {
        assert(r2 * ((s - b - 1) * (s - b - 1)) >= r2 * ((s - a) * (s - a))) by (nonlinear_arith)
            requires
                s - b - 1 >= s - a,
                s - a >= 0,
                r2 >= 0,
        ;
    }
}

/// A mix of two channel values is a channel value.
pub proof fn lemma_blend_value_range(source: u8, background: u8, n: int, d: int)
    requires
        0 <= n <= d,
        0 < d,
    ensures
        0 <= blend_value(source, background, n, d) <= 255,
{
    let m = source * n + background * (d - n);
    assert(0 <= m <= 255 * d) by (nonlinear_arith)
        requires
            m == source * n + background * (d - n),
            0 <= n <= d,
            0 <= source <= 255,
            0 <= background <= 255,
    ;
    lemma_round_div_bounds(m, d);
    let q = round_div(m, d);
    if q > 255 {
        assert(2 * d * q >= 2 * d * 256) by (nonlinear_arith)
            requires
                q >= 256,
                d > 0,
        ;
    }
}

/// A mix lies between the two values that it mixes.
pub proof fn lemma_blend_value_between(source: u8, background: u8, n: int, d: int)
    requires
        0 <= n <= d,
        0 < d,
    ensures
        source <= background ==> source <= blend_value(source, background, n, d) <= background,
        background <= source ==> background <= blend_value(source, background, n, d) <= source,
{
    let m = source * n + background * (d - n);
    let low = if source <= background {
        source as int
    } else {
        background as int
    };
    let high = if source <= background {
        background as int
    } else {
        source as int
    };
    assert(low * d <= m <= high * d) by (nonlinear_arith)
        requires
            m == source * n + background * (d - n),
            0 <= n <= d,
            low <= source <= high,
            low <= background <= high,
    ;
    lemma_round_div_bounds(m, d);
    let q = round_div(m, d);
    if q > high {
        assert(2 * d * q >= 2 * d * (high + 1)) by (nonlinear_arith)
            requires
                q >= high + 1,
                d > 0,
        ;
        assert(2 * d * (high + 1) == 2 * (high * d) + 2 * d) by (nonlinear_arith);
    }
    if q < low {
        assert(2 * d * q <= 2 * d * (low - 1)) by (nonlinear_arith)
            requires
                q <= low - 1,
                d > 0,
        ;
        assert(2 * d * (low - 1) == 2 * (low * d) - 2 * d) by (nonlinear_arith);
    }
}

/// With square corners the canvas shows the picture where the picture lies
/// and the background everywhere else.
pub proof fn lemma_canvas_with_square_corners(
    source: Picture,
    position: Point,
    background: Rgba,
    x: int,
    y: int,
    c: int,
)
    requires
        0 <= x <= u32::MAX,
        0 <= y <= u32::MAX,
    ensures
        canvas_channel(source, position, background, None, x, y, c) == if position.x <= x
            < position.x + source.size().width && position.y <= y < position.y
            + source.size().height {
            source.channel(x - position.x, y - position.y, c)
        } else {
            background.channels()[c]
        },
{
}

/// Mixes a channel of the picture with that of the background, the picture
/// weighing `weight`.
pub fn blend(source: u8, background: u8, weight: &Ratio) -> (mixed: u8)
    requires
        weight.num() <= weight.den(),
    ensures
        mixed == blend_value(source, background, weight.num() as int, weight.den() as int),
{
    let n = weight.numerator();
    let d = weight.denominator();
    proof {
        lemma_blend_value_range(source, background, n as int, d as int);
        assert(source * n + background * (d - n) <= 255 * d && source * n >= 0 && background * (d
            - n) >= 0 && source * n <= 255 * d && background * (d - n) <= 255 * d)
            by (nonlinear_arith)
            requires
                0 <= n <= d,
                0 <= source <= 255,
                0 <= background <= 255,
        ;
    }
    let sum: u128 = (source as u128) * (n as u128) + (background as u128) * ((d - n) as u128);
    round_div_u128(sum, d as u128) as u8
}

/// The canvas of a frame: the picture at its place on the background.
pub struct Canvas<'a> {
    /// The picture.
    pub source: &'a Picture,
    /// The place of the picture's top left corner.
    pub position: Point,
    /// The colour of the frame.
    pub background: Rgba,
    /// The radius of the picture's rounded corners, if they are rounded.
    pub corner_radius: Option<u32>,
}

impl<'a> Painter for Canvas<'a> {
    open spec fn channel_at(&self, x: int, y: int, c: int) -> u8 {
        canvas_channel(*self.source, self.position, self.background, self.corner_radius, x, y, c)
    }

    fn pixel_at(&self, x: u32, y: u32) -> (pixel: Rgba) {
        let size = self.source.dimensions();
        match PixelSource::at(Point::new(x, y), &self.position, &size, &self.corner_radius) {
            PixelSource::Background => self.background,
            PixelSource::Image => self.source.get_pixel(x - self.position.x, y - self.position.y),
            PixelSource::Blend(weight) => {
                let ghost class = classify(Point { x, y }, self.position, size, self.corner_radius);
                proof {
                    lemma_blend_weight_unique(
                        weight.num(),
                        blend_numerator(class->distance_squared, class->radius),
                        class->distance_squared,
                        class->radius,
                    );
                }
                let own = self.source.get_pixel(x - self.position.x, y - self.position.y);
                Rgba(
                    [
                        blend(own.channel(0), self.background.channel(0), &weight),
                        blend(own.channel(1), self.background.channel(1), &weight),
                        blend(own.channel(2), self.background.channel(2), &weight),
                        blend(own.channel(3), self.background.channel(3), &weight),
                    ],
                )
            },
        }
    }
}

impl Frame {
    /// The frame holds the picture that was read, laid out under `config`:
    /// the canvas is the one that the layout asks for, and the picture has
    /// its place on it.
    pub open spec fn built(self, config: FrameConfig) -> bool {
        let border = border_of(config.margins@, self.input_size);
        &&& self.img.wf()
        &&& self.img.size() == self.input_size
        &&& frame_fits(self.input_size, border)
        &&& self.output_size == canvas_size(self.input_size, border, config.aspect_ratio)
        &&& self.position == placement(self.input_size, self.output_size, config.position, border)
    }

    /// The frame of `before` has been drawn under `config`: the picture is
    /// the canvas, pixel by pixel, with opacity only if the format stores it.
    pub open spec fn drawn(self, before: Frame, config: FrameConfig) -> bool {
        &&& self.img.wf()
        &&& self.img.size() == before.output_size
        &&& self.img.has_alpha() == before.fmt.has_alpha()
        &&& self.fmt == before.fmt
        &&& self.input_size == before.input_size
        &&& self.output_path == before.output_path
        &&& self.output_size == before.output_size
        &&& self.position == before.position
        &&& forall|x: int, y: int, c: int|
            0 <= x < before.output_size.width && 0 <= y < before.output_size.height && 0 <= c
                < channel_count(before.fmt.has_alpha()) ==> self.img.bytes()[self.img.offset(
                x,
                y,
                c,
            )] == #[trigger] canvas_channel(
                before.img,
                before.position,
                config.color,
                config.corner_radius,
                x,
                y,
                c,
            )
    }

    /// Lays out the frame for a picture that was read from a file of format
    /// `fmt`, to be written to the output path of `file_pair`.
    pub fn build(img: Picture, fmt: ImageFormat, file_pair: FilePair, config: &FrameConfig) -> (frame:
        Frame)
        requires
            frame_fits(img.size(), border_of(config.margins@, img.size())),
        ensures
            frame.built(*config),
            frame.img == img,
            frame.fmt == fmt,
            frame.output_path == file_pair.output_path,
            holds_frame(frame.output_size, frame.input_size, border_of(config.margins@, img.size())),
            frame.position.x + frame.input_size.width <= frame.output_size.width,
            frame.position.y + frame.input_size.height <= frame.output_size.height,
    {
        let input_size = img.dimensions();
        let border = config.margins().to_border_with_size(&input_size);
        let (_, output_path) = file_pair.into_parts();
        let output_size = layout::output_dimensions(&input_size, &border, config);
        let position = layout::position(&input_size, &output_size, config.position(), &border);
        Frame { img, fmt, input_size, output_path, output_size, position }
    }

    /// Draws the frame around the picture: every pixel of the canvas is
    /// taken from the picture, from the background colour, or mixed of both.
    pub fn draw(self, config: &FrameConfig) -> (framed: Frame)
        ensures
            framed.drawn(self, *config),
    {
        let canvas = Canvas {
            source: &self.img,
            position: self.position,
            background: config.color,
            corner_radius: config.corner_radius,
        };
        let img = Picture::paint(self.output_size, self.fmt.keeps_alpha(), &canvas);
        proof {
            assert forall|x: int, y: int, c: int|
                0 <= x < self.output_size.width && 0 <= y < self.output_size.height && 0 <= c
                    < channel_count(self.fmt.has_alpha()) implies img.bytes()[img.offset(x, y, c)]
                == #[trigger] canvas_channel(
                self.img,
                self.position,
                config.color,
                config.corner_radius,
                x,
                y,
                c,
            ) by {
                assert(img.bytes()[img.offset(x, y, c)] == canvas.channel_at(x, y, c));
            }
        }
        Frame {
            img,
            fmt: self.fmt,
            input_size: self.input_size,
            output_path: self.output_path,
            output_size: self.output_size,
            position: self.position,
        }
    }

    /// What is to be done with the drawn frame: in a dry run it is only
    /// reported, else it is written.
    pub fn save(&self, dry_run: bool) -> (action: SaveAction)
        ensures
            action == if dry_run {
                SaveAction::Report
            } else {
                SaveAction::Write
            },
    {
        if dry_run {
            SaveAction::Report
        } else {
            SaveAction::Write
        }
    }

    /// The error for a framed picture that could not be written, `cause`
    /// saying why.
    pub fn save_failed(self, cause: String) -> (error: OliframeError)
        ensures
            error == OliframeError::SaveError(self.output_path, cause),
    {
        OliframeError::SaveError(self.output_path, cause)
    }

    /// Frames a picture that was read: lays the frame out, draws it, and
    /// says what is to be done with it.
    pub fn process(
        img: Picture,
        fmt: ImageFormat,
        file_pair: FilePair,
        config: &FrameConfig,
        dry_run: bool,
    ) -> (outcome: (Frame, SaveAction))
        requires
            frame_fits(img.size(), border_of(config.margins@, img.size())),
        ensures
            outcome.1 == if dry_run {
                SaveAction::Report
            } else {
                SaveAction::Write
            },
            outcome.0.output_path == file_pair.output_path,
            outcome.0.output_size == canvas_size(
                img.size(),
                border_of(config.margins@, img.size()),
                config.aspect_ratio,
            ),
            outcome.0.img.size() == outcome.0.output_size,
            outcome.0.img.has_alpha() == fmt.has_alpha(),
            exists|before: Frame|
                before.built(*config) && before.img == img && before.fmt == fmt
                    && #[trigger] outcome.0.drawn(before, *config),
    {
        let built = Frame::build(img, fmt, file_pair, config);
        let drawn = built.draw(config);
        let action = drawn.save(dry_run);
        (drawn, action)
    }
}

} // verus!
