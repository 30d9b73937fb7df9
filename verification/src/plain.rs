//! The plain frame: a border of one width on all four sides, with corners
//! that can be rounded without smoothing.
use crate::color::Rgba;
use crate::frame::picture::{Painter, Picture};
use crate::geometry::Size;
use crate::ratio::{saturate_u32, saturating_u32};
use vstd::prelude::*;

verus! {

/// The width of a plain border.
#[derive(Clone, Copy, Debug, PartialEq, Eq, Structural)]
pub enum BorderWidth {
    /// Hundredths of the mean of the picture's width and height, the mean
    /// and the result both rounded down.
    Percent(u32),
    /// Pixels.
    Pixels(u32),
}

/// The width in pixels that `width` stands for with a picture of size
/// `size`; a width beyond `u32::MAX` stops there.
pub open spec fn border_pixels(width: BorderWidth, size: Size) -> int {
    match width {
        BorderWidth::Percent(pct) => saturate_u32(((size.width + size.height) / 2) * pct / 100),
        BorderWidth::Pixels(px) => px as int,
    }
}

/// Of the two edges of the picture along one axis, the one that the
/// coordinate `v` is nearer to: the picture begins at `border` and is `extent`
/// long.
pub open spec fn near_edge(v: int, extent: int, border: int) -> int {
    if v < (extent + border) / 2 {
        border
    } else {
        extent + border
    }
}

/// The coordinate of the centre of the corner circle that belongs to the
/// edge that `v` is nearer to.
pub open spec fn circle_centre(v: int, extent: int, border: int, radius: int) -> int {
    if v < (extent + border) / 2 {
        border + radius
    } else {
        extent + border - radius
    }
}

/// The square of the distance between two points.
pub open spec fn distance_squared(ax: int, ay: int, bx: int, by: int) -> int {
    (ax - bx) * (ax - bx) + (ay - by) * (ay - by)
}

/// The pixel is cut off by the rounding of the corner that it is nearest
/// to: it is less than `radius` from that corner of the picture and more
/// than `radius` from the centre of the corner's circle.
pub open spec fn cut_by_radius(x: int, y: int, width: int, height: int, border: int, radius: int) -> bool {
    let to_centre = distance_squared(
        x,
        y,
        circle_centre(x, width, border, radius),
        circle_centre(y, height, border, radius),
    );
    let to_corner = distance_squared(
        x,
        y,
        near_edge(x, width, border),
        near_edge(y, height, border),
    );
    to_centre > radius * radius && to_corner < radius * radius
}

/// The pixel belongs to the border: it lies outside the picture, or a
/// rounded corner cuts it off.
pub open spec fn border_pixel(
    x: int,
    y: int,
    width: int,
    height: int,
    border: int,
    radius: Option<u32>,
) -> bool {
    ||| x < border
    ||| x >= width + border
    ||| y < border
    ||| y >= height + border
    ||| (radius matches Some(r) && cut_by_radius(x, y, width, height, border, r as int))
}

/// A border of `border` pixels on both sides of both axes leaves the canvas
/// within what a size can say.
pub open spec fn plain_fits(size: Size, border: int) -> bool {
    size.width + 2 * border <= u32::MAX && size.height + 2 * border <= u32::MAX
}

/// Channel `c` of the pixel in column `x` of row `y` of the canvas of a
/// plain frame: the border's colour, or the picture's pixel.
pub open spec fn plain_channel(
    source: Picture,
    border: int,
    color: Rgba,
    radius: Option<u32>,
    x: int,
    y: int,
    c: int,
) -> u8 {
    if border_pixel(
        x,
        y,
        source.size().width as int,
        source.size().height as int,
        border,
        radius,
    ) {
        color.channels()[c]
    } else {
        source.channel(x - border, y - border, c)
    }
}

/// The square of the distance between two points.
fn square_distance(ax: i64, ay: i64, bx: i64, by: i64) -> (d: u128)
    requires
        -0x2_0000_0000 <= ax <= 0x2_0000_0000,
        -0x2_0000_0000 <= ay <= 0x2_0000_0000,
        -0x2_0000_0000 <= bx <= 0x2_0000_0000,
        -0x2_0000_0000 <= by <= 0x2_0000_0000,
    ensures
        d == distance_squared(ax as int, ay as int, bx as int, by as int),
{
    let dx: i64 = ax - bx;
    let dy: i64 = ay - by;
    assert(0 <= dx * dx <= 0x4_0000_0000 * 0x4_0000_0000 && 0 <= dy * dy <= 0x4_0000_0000
        * 0x4_0000_0000) by (nonlinear_arith)
        requires
            -0x4_0000_0000 <= dx <= 0x4_0000_0000,
            -0x4_0000_0000 <= dy <= 0x4_0000_0000,
    ;
    ((dx as i128) * (dx as i128) + (dy as i128) * (dy as i128)) as u128
}

/// Whether a rounded corner cuts the pixel off.
pub fn in_radius(x: u32, y: u32, width: u32, height: u32, border: u32, radius: u32) -> (cut: bool)
    ensures
        cut == cut_by_radius(
            x as int,
            y as int,
            width as int,
            height as int,
            border as int,
            radius as int,
        ),
{
    let (x, y, width, height, border, radius) = (
        x as i64,
        y as i64,
        width as i64,
        height as i64,
        border as i64,
        radius as i64,
    );
    let (corner_x, centre_x) = if x < (width + border) / 2 {
        (border, border + radius)
    } else {
        (width + border, width + border - radius)
    };
    let (corner_y, centre_y) = if y < (height + border) / 2 {
        (border, border + radius)
    } else {
        (height + border, height + border - radius)
    };
    assert(radius * radius <= 0x1_0000_0000 * 0x1_0000_0000 && radius * radius >= 0)
        by (nonlinear_arith)
        requires
            0 <= radius <= 0x1_0000_0000,
    ;
    let reach: u128 = (radius as u128) * (radius as u128);
    square_distance(x, y, centre_x, centre_y) > reach && square_distance(x, y, corner_x, corner_y)
        < reach
}

/// Whether the pixel belongs to the border.
pub fn in_border(x: u32, y: u32, width: u32, height: u32, border: u32, radius: Option<u32>) -> (inside:
    bool)
    ensures
        inside == border_pixel(
            x as int,
            y as int,
            width as int,
            height as int,
            border as int,
            radius,
        ),
{
    if x < border || x as u64 >= width as u64 + border as u64 || y < border || y as u64
        >= height as u64 + border as u64 {
        return true;
    }
    match radius {
        Some(radius) => in_radius(x, y, width, height, border, radius),
        None => false,
    }
}

impl BorderWidth {
    /// The width in pixels for a picture of size `size`.
    pub fn for_image(&self, size: &Size) -> (pixels: u32)
        ensures
            pixels == border_pixels(*self, *size),
    {
        match self {
            BorderWidth::Percent(pct) => {
                let mean: u64 = (size.width as u64 + size.height as u64) / 2;
                assert(mean * *pct <= u32::MAX * u32::MAX) by (nonlinear_arith)
                    requires
                        mean <= u32::MAX,
                        *pct <= u32::MAX,
                ;
                saturating_u32((mean * (*pct as u64) / 100) as u128)
            },
            BorderWidth::Pixels(px) => *px,
        }
    }
}

/// The canvas of a plain frame.
pub struct PlainCanvas<'a> {
    /// The picture.
    pub source: &'a Picture,
    /// The width of the border.
    pub border: u32,
    /// The colour of the border.
    pub color: Rgba,
    /// The radius of the picture's rounded corners, if they are rounded.
    pub radius: Option<u32>,
}

impl<'a> Painter for PlainCanvas<'a> {
    open spec fn channel_at(&self, x: int, y: int, c: int) -> u8 {
        plain_channel(*self.source, self.border as int, self.color, self.radius, x, y, c)
    }

    fn pixel_at(&self, x: u32, y: u32) -> (pixel: Rgba) {
        let size = self.source.dimensions();
        if in_border(x, y, size.width, size.height, self.border, self.radius) {
            self.color
        } else {
            self.source.get_pixel(x - self.border, y - self.border)
        }
    }
}

/// The picture with a border of the given width and colour around it, its
/// corners rounded by `radius` if one is given. The result stores opacity.
pub fn add_border(img: &Picture, width: BorderWidth, color: &Rgba, radius: Option<u32>) -> (framed:
    Picture)
    requires
        plain_fits(img.size(), border_pixels(width, img.size())),
    ensures
        framed.wf(),
        framed.has_alpha(),
        framed.size().width == img.size().width + 2 * border_pixels(width, img.size()),
        framed.size().height == img.size().height + 2 * border_pixels(width, img.size()),
        forall|x: int, y: int, c: int|
            0 <= x < framed.size().width && 0 <= y < framed.size().height && 0 <= c < 4
                ==> framed.bytes()[framed.offset(x, y, c)] == #[trigger] plain_channel(
                *img,
                border_pixels(width, img.size()),
                *color,
                radius,
                x,
                y,
                c,
            ),
{
    let size = img.dimensions();
    let border = width.for_image(&size);
    let canvas = PlainCanvas { source: img, border, color: *color, radius };
    let framed = Picture::paint(
        Size::new(size.width + border * 2, size.height + border * 2),
        true,
        &canvas,
    );
    proof {
        assert forall|x: int, y: int, c: int|
            0 <= x < framed.size().width && 0 <= y < framed.size().height && 0 <= c
                < 4 implies framed.bytes()[framed.offset(x, y, c)] == #[trigger] plain_channel(
            *img,
            border as int,
            *color,
            radius,
            x,
            y,
            c,
        ) by {
            assert(framed.bytes()[framed.offset(x, y, c)] == canvas.channel_at(x, y, c));
        }
    }
    framed
}

} // verus!
