//! The layout of a frame: how large the canvas is and where the picture sits.
use crate::config::FrameConfig;
use crate::geometry::{
    AspectRatio, Border, HorizontalPosition, Point, RelativePosition, Size, VerticalPosition,
};
use crate::ratio::{
    lemma_round_div_at_least, lemma_round_div_bounds, round_div, round_div_u128, saturate_u32,
    saturating_u32, Ratio,
};
use vstd::prelude::*;

verus! {

/// The width of the picture with its left and right border.
pub open spec fn framed_width(img_size: Size, border: Border) -> int {
    img_size.width + border.left + border.right
}

/// The height of the picture with its top and bottom border.
pub open spec fn framed_height(img_size: Size, border: Border) -> int {
    img_size.height + border.top + border.bottom
}

/// Picture and border together are no larger than a size can say.
pub open spec fn frame_fits(img_size: Size, border: Border) -> bool {
    framed_width(img_size, border) <= u32::MAX && framed_height(img_size, border) <= u32::MAX
}

/// The canvas `output_size` holds the picture with its border on both axes.
pub open spec fn holds_frame(output_size: Size, img_size: Size, border: Border) -> bool {
    &&& output_size.width >= framed_width(img_size, border)
    &&& output_size.height >= framed_height(img_size, border)
}

/// The size of the picture with its border.
pub open spec fn bordered_size(img_size: Size, border: Border) -> Size {
    Size {
        width: framed_width(img_size, border) as u32,
        height: framed_height(img_size, border) as u32,
    }
}

/// The frame of `width` by `height` is narrower than the proportion `ratio`:
/// `width / height < ratio`.
pub open spec fn narrower_than(width: int, height: int, ratio: Ratio) -> bool {
    width * ratio.den() < height * ratio.num()
}

/// The smallest canvas of the proportion `ratio`, which is above zero, that
/// holds a frame of `width` by `height`: the axis that is long enough stays,
/// the other grows to the nearest pixel. A length beyond `u32::MAX` stops
/// there.
pub open spec fn ratio_size(width: int, height: int, ratio: Ratio) -> Size {
    if narrower_than(width, height, ratio) {
        Size {
            width: saturate_u32(round_div(height * ratio.num(), ratio.den() as int)) as u32,
            height: height as u32,
        }
    } else {
        Size {
            width: width as u32,
            height: saturate_u32(round_div(width * ratio.den(), ratio.num() as int)) as u32,
        }
    }
}

/// The size of the canvas for a picture of size `img_size` with the border
/// `border`, under the proportion `aspect_ratio` if one is given.
pub open spec fn canvas_size(
    img_size: Size,
    border: Border,
    aspect_ratio: Option<AspectRatio>,
) -> Size {
    match aspect_ratio {
        None => bordered_size(img_size, border),
        Some(ratio) => ratio_size(
            framed_width(img_size, border),
            framed_height(img_size, border),
            ratio.value(),
        ),
    }
}

/// The distance of the picture from the left edge of the canvas.
pub open spec fn left_offset(
    img_width: int,
    output_width: int,
    horizontal: HorizontalPosition,
    border: Border,
) -> int {
    match horizontal {
        HorizontalPosition::Left => border.left as int,
        HorizontalPosition::Center => (output_width - img_width) / 2,
        HorizontalPosition::Right => output_width - img_width - border.right,
    }
}

/// The distance of the picture from the top edge of the canvas.
pub open spec fn top_offset(
    img_height: int,
    output_height: int,
    vertical: VerticalPosition,
    border: Border,
) -> int {
    match vertical {
        VerticalPosition::Top => border.top as int,
        VerticalPosition::Center => (output_height - img_height) / 2,
        VerticalPosition::Bottom => output_height - img_height - border.bottom,
    }
}

/// The place of the picture's top left corner on the canvas.
pub open spec fn placement(
    img_size: Size,
    output_size: Size,
    relative_position: RelativePosition,
    border: Border,
) -> Point {
    Point {
        x: left_offset(
            img_size.width as int,
            output_size.width as int,
            relative_position.horizontal,
            border,
        ) as u32,
        y: top_offset(
            img_size.height as int,
            output_size.height as int,
            relative_position.vertical,
            border,
        ) as u32,
    }
}

/// Whether picture and border together are no larger than a size can say.
pub fn fits(img_size: &Size, border: &Border) -> (fitting: bool)
    ensures
        fitting == frame_fits(*img_size, *border),
{
    let width: u64 = img_size.width as u64 + border.left as u64 + border.right as u64;
    let height: u64 = img_size.height as u64 + border.top as u64 + border.bottom as u64;
    width <= u32::MAX as u64 && height <= u32::MAX as u64
}

/// The size of the canvas for a picture with its border.
pub fn output_dimensions(input_size: &Size, border: &Border, config: &FrameConfig) -> (output: Size)
    requires
        frame_fits(*input_size, *border),
    ensures
        output == canvas_size(*input_size, *border, config.aspect_ratio),
        holds_frame(output, *input_size, *border),
{
    match config.aspect_ratio() {
        Some(aspect_ratio) => size_with_ratio(input_size, aspect_ratio, border),
        None => size_with_border(input_size, border),
    }
}

/// The place of the picture's top left corner on the canvas.
pub fn position(
    img_size: &Size,
    output_size: &Size,
    relative_position: &RelativePosition,
    border: &Border,
) -> (point: Point)
    requires
        holds_frame(*output_size, *img_size, *border),
    ensures
        point == placement(*img_size, *output_size, *relative_position, *border),
        point.x + img_size.width <= output_size.width,
        point.y + img_size.height <= output_size.height,
{
    let x = match relative_position.horizontal() {
        HorizontalPosition::Left => border.left(),
        HorizontalPosition::Center => (output_size.width() - img_size.width()) / 2,
        HorizontalPosition::Right => output_size.width() - img_size.width() - border.right(),
    };
    let y = match relative_position.vertical() {
        VerticalPosition::Top => border.top(),
        VerticalPosition::Center => (output_size.height() - img_size.height()) / 2,
        VerticalPosition::Bottom => output_size.height() - img_size.height() - border.bottom(),
    };
    Point::new(x, y)
}

/// The size of the picture with its border.
pub fn size_with_border(img_size: &Size, border: &Border) -> (output: Size)
    requires
        frame_fits(*img_size, *border),
    ensures
        output == bordered_size(*img_size, *border),
        holds_frame(output, *img_size, *border),
{
    let new_width = img_size.width() + border.left() + border.right();
    let new_height = img_size.height() + border.top() + border.bottom();
    Size::from((new_width, new_height))
}

/// The size of the smallest canvas of the given proportion that holds the
/// picture with its border.
pub fn size_with_ratio(img_size: &Size, aspect_ratio: &AspectRatio, border: &Border) -> (output:
    Size)
    requires
        frame_fits(*img_size, *border),
    ensures
        output == ratio_size(
            framed_width(*img_size, *border),
            framed_height(*img_size, *border),
            aspect_ratio.value(),
        ),
        holds_frame(output, *img_size, *border),
{
    let (img_width, img_height) = img_size.dimensions();
    let frame_width: u32 = img_width + border.left() + border.right();
    let frame_height: u32 = img_height + border.top() + border.bottom();
    let ratio = aspect_ratio.inner();
    let numerator = ratio.numerator();
    let denominator = ratio.denominator();
    assert(frame_width * denominator <= u32::MAX * u64::MAX && frame_height * numerator
        <= u32::MAX * u64::MAX && frame_width * denominator >= 0 && frame_height * numerator >= 0)
        by (nonlinear_arith)
        requires
            frame_width <= u32::MAX,
            frame_height <= u32::MAX,
            0 <= numerator <= u64::MAX,
            0 <= denominator <= u64::MAX,
    ;
    let across: u128 = (frame_width as u128) * (denominator as u128);
    let along: u128 = (frame_height as u128) * (numerator as u128);
    proof {
        lemma_canvas_holds_frame(frame_width as int, frame_height as int, ratio);
    }
    if across < along {
        Size::from((saturating_u32(round_div_u128(along, denominator as u128)), frame_height))
    } else {
        Size::from((frame_width, saturating_u32(round_div_u128(across, numerator as u128))))
    }
}

/// A canvas of a fixed proportion holds the whole frame: one axis is the
/// frame's own, the other is at least the frame's.
pub proof fn lemma_canvas_holds_frame(width: int, height: int, ratio: Ratio)
    requires
        0 <= width <= u32::MAX,
        0 <= height <= u32::MAX,
        ratio.wf(),
        ratio.num() > 0,
    ensures
        ratio_size(width, height, ratio).width >= width,
        ratio_size(width, height, ratio).height >= height,
        ratio_size(width, height, ratio).width == width || ratio_size(width, height, ratio).height
            == height,
{
    let n = ratio.num() as int;
    let d = ratio.den() as int;
    if narrower_than(width, height, ratio) {
        assert(height * n >= 0) by (nonlinear_arith)
            requires
                height >= 0,
                n >= 0,
        ;
        lemma_round_div_at_least(height * n, d, width);
    } else {
        assert(width * d >= 0) by (nonlinear_arith)
            requires
                width >= 0,
                d >= 0,
        ;
        lemma_round_div_at_least(width * d, n, height);
    }
}

/// Where no length had to stop at `u32::MAX`, the canvas has the wanted
/// proportion up to the rounding of one axis to whole pixels: the axis that
/// grew is within half a pixel of its exact length.
pub proof fn lemma_canvas_has_ratio(width: int, height: int, ratio: Ratio)
    requires
        0 <= width <= u32::MAX,
        0 <= height <= u32::MAX,
        ratio.wf(),
        ratio.num() > 0,
        ratio_size(width, height, ratio).width < u32::MAX,
        ratio_size(width, height, ratio).height < u32::MAX,
    ensures
        ({
            let size = ratio_size(width, height, ratio);
            let n = ratio.num() as int;
            let d = ratio.den() as int;
            if narrower_than(width, height, ratio) {
                2 * d * size.width - d <= 2 * (size.height * n) < 2 * d * size.width + d
            } else {
                2 * n * size.height - n <= 2 * (size.width * d) < 2 * n * size.height + n
            }
        }),
{
    let n = ratio.num() as int;
    let d = ratio.den() as int;
    if narrower_than(width, height, ratio) {
        assert(height * n >= 0) by (nonlinear_arith)
            requires
                height >= 0,
                n >= 0,
        ;
        lemma_round_div_bounds(height * n, d);
    } else {
        assert(width * d >= 0) by (nonlinear_arith)
            requires
                width >= 0,
                d >= 0,
        ;
        lemma_round_div_bounds(width * d, n);
    }
}

/// The picture lies on the canvas wherever it is placed, and a picture that
/// is pushed to a side keeps exactly the border of that side.
pub proof fn lemma_placement_on_canvas(
    img_size: Size,
    output_size: Size,
    relative_position: RelativePosition,
    border: Border,
)
    requires
        holds_frame(output_size, img_size, border),
    ensures
        ({
            let point = placement(img_size, output_size, relative_position, border);
            &&& point.x + img_size.width <= output_size.width
            &&& point.y + img_size.height <= output_size.height
            &&& relative_position.horizontal == HorizontalPosition::Left ==> point.x == border.left
            &&& relative_position.horizontal == HorizontalPosition::Right ==> point.x
                + img_size.width + border.right == output_size.width
            &&& relative_position.vertical == VerticalPosition::Top ==> point.y == border.top
            &&& relative_position.vertical == VerticalPosition::Bottom ==> point.y + img_size.height
                + border.bottom == output_size.height
        }),
{
}

} // verus!
