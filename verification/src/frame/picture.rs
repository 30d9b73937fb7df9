//! Pictures as rows of pixels in memory.
use crate::color::Rgba;
use crate::geometry::Size;
use vstd::prelude::*;

verus! {

/// The formats that a picture can be stored in. Each says whether a
/// picture in it can carry opacity.
#[derive(Clone, Copy, Debug, PartialEq, Eq, Structural)]
pub enum ImageFormat {
    /// PNG, which stores opacity.
    Png,
    /// JPEG, which stores no opacity.
    Jpeg,
    /// GIF, which stores opacity: a pixel can be see-through.
    Gif,
    /// WebP, which stores opacity.
    WebP,
    /// The portable bitmap, graymap and pixmap formats, which store no
    /// opacity.
    Pnm,
    /// TIFF, which stores opacity.
    Tiff,
    /// TGA, which stores opacity.
    Tga,
    /// DDS, which stores opacity.
    Dds,
    /// BMP, which stores opacity in its pixels of 32 bits.
    Bmp,
    /// ICO, which stores opacity.
    Ico,
    /// Radiance HDR, which stores no opacity.
    Hdr,
    /// OpenEXR, which stores opacity.
    OpenExr,
    /// farbfeld, which stores opacity.
    Farbfeld,
    /// AVIF, which stores opacity.
    Avif,
    /// QOI, which stores opacity.
    Qoi,
    /// A format that has no name here. Nothing is known against opacity in
    /// it, so it counts as storing opacity.
    Other,
}

impl ImageFormat {
    /// The format stores opacity. JPEG, the portable pixmap family and
    /// Radiance HDR are the ones that do not.
    pub open spec fn has_alpha(self) -> bool {
        match self {
            ImageFormat::Jpeg | ImageFormat::Pnm | ImageFormat::Hdr => false,
            ImageFormat::Png
            | ImageFormat::Gif
            | ImageFormat::WebP
            | ImageFormat::Tiff
            | ImageFormat::Tga
            | ImageFormat::Dds
            | ImageFormat::Bmp
            | ImageFormat::Ico
            | ImageFormat::OpenExr
            | ImageFormat::Farbfeld
            | ImageFormat::Avif
            | ImageFormat::Qoi
            | ImageFormat::Other => true,
        }
    }

    /// Whether the format stores opacity.
    pub fn keeps_alpha(&self) -> (keeps: bool)
        ensures
            keeps == self.has_alpha(),
    {
        match self {
            ImageFormat::Jpeg | ImageFormat::Pnm | ImageFormat::Hdr => false,
            ImageFormat::Png
            | ImageFormat::Gif
            | ImageFormat::WebP
            | ImageFormat::Tiff
            | ImageFormat::Tga
            | ImageFormat::Dds
            | ImageFormat::Bmp
            | ImageFormat::Ico
            | ImageFormat::OpenExr
            | ImageFormat::Farbfeld
            | ImageFormat::Avif
            | ImageFormat::Qoi
            | ImageFormat::Other => true,
        }
    }
}

/// The bytes that one pixel takes: four with opacity, three without.
pub open spec fn channel_count(alpha: bool) -> int {
    if alpha {
        4
    } else {
        3
    }
}

/// What can say the colour of every pixel of a canvas.
pub trait Painter {
    /// Channel `c` of the pixel in column `x` of row `y`.
    spec fn channel_at(&self, x: int, y: int, c: int) -> u8;

    /// The pixel in column `x` of row `y`.
    fn pixel_at(&self, x: u32, y: u32) -> (pixel: Rgba)
        ensures
            forall|c: int|
                0 <= c < 4 ==> pixel.channels()[c] == #[trigger] self.channel_at(
                    x as int,
                    y as int,
                    c,
                ),
    ;
}

/// A picture: its pixels row by row from the top, each pixel from the left,
/// each with red, green and blue and, if the picture has it, opacity.
#[derive(Debug)]
pub struct Picture {
    size: Size,
    alpha: bool,
    data: Vec<u8>,
}

impl Picture {
    #[verifier::type_invariant]
    spec fn complete(self) -> bool {
        self.data@.len() == self.size.width * self.size.height * channel_count(self.alpha)
    }

    /// Width and height in pixels.
    pub closed spec fn size(self) -> Size {
        self.size
    }

    /// The picture stores opacity.
    pub closed spec fn has_alpha(self) -> bool {
        self.alpha
    }

    /// The bytes of the picture.
    pub closed spec fn bytes(self) -> Seq<u8> {
        self.data@
    }

    /// What every picture that executable code holds satisfies.
    pub open spec fn wf(self) -> bool {
        self.bytes().len() == self.size().width * self.size().height * channel_count(
            self.has_alpha(),
        )
    }

    /// The place in `bytes` of channel `channel` of the pixel in column `x`
    /// of row `y`.
    pub open spec fn offset(self, x: int, y: int, channel: int) -> int {
        (y * self.size().width + x) * channel_count(self.has_alpha()) + channel
    }

    /// Channel `channel` of the pixel in column `x` of row `y`, a picture
    /// without opacity being opaque everywhere.
    pub open spec fn channel(self, x: int, y: int, channel: int) -> u8 {
        if channel == 3 && !self.has_alpha() {
            255u8
        } else {
            self.bytes()[self.offset(x, y, channel)]
        }
    }

    /// A picture with opacity of the given bytes; `None` where they are not
    /// four for each pixel.
    pub fn from_rgba(width: u32, height: u32, data: Vec<u8>) -> (picture: Option<Picture>)
        ensures
            picture is Some <==> data@.len() == width * height * 4,
            picture matches Some(p) ==> {
                &&& p.wf()
                &&& p.size() == Size { width, height }
                &&& p.has_alpha()
                &&& p.bytes() == data@
            },
    {
        assert(width * height <= u32::MAX * u32::MAX) by (nonlinear_arith)
            requires
                width <= u32::MAX,
                height <= u32::MAX,
        ;
        let needed: u128 = (width as u128) * (height as u128) * 4;
        if data.len() as u128 == needed {
            Some(Picture { size: Size { width, height }, alpha: true, data })
        } else {
            None
        }
    }

    /// Width and height in pixels.
    pub fn dimensions(&self) -> (size: Size)
        ensures
            size == self.size(),
            self.wf(),
    {
        proof {
            use_type_invariant(self);
        }
        self.size
    }

    /// Whether the picture stores opacity.
    pub fn stores_alpha(&self) -> (alpha: bool)
        ensures
            alpha == self.has_alpha(),
    {
        self.alpha
    }

    /// The bytes of the picture.
    pub fn data(&self) -> (data: &Vec<u8>)
        ensures
            data@ == self.bytes(),
            self.wf(),
    {
        proof {
            use_type_invariant(self);
        }
        &self.data
    }

    /// The bytes of the picture, the picture being given up.
    pub fn into_data(self) -> (data: Vec<u8>)
        ensures
            data@ == self.bytes(),
    {
        self.data
    }

    /// The pixel in column `x` of row `y`.
    pub fn get_pixel(&self, x: u32, y: u32) -> (pixel: Rgba)
        requires
            x < self.size().width,
            y < self.size().height,
        ensures
            forall|c: int| 0 <= c < 4 ==> pixel.channels()[c] == self.channel(x as int, y as int, c),
    {
        proof {
            use_type_invariant(self);
            lemma_offset_in_bounds(
                self.size.width as int,
                self.size.height as int,
                channel_count(self.alpha),
                x as int,
                y as int,
            );
        }
        let length = self.data.len();
        let step: usize = if self.alpha {
            4
        } else {
            3
        };
        let first: usize = (y as usize * self.size.width as usize + x as usize) * step;
        assert(first + step <= length);
        let opacity: u8 = if self.alpha {
            self.data[first + 3]
        } else {
            255
        };
        Rgba([self.data[first], self.data[first + 1], self.data[first + 2], opacity])
    }

    /// The picture of the given size whose every pixel is the one that
    /// `painter` says, with opacity if `alpha` asks for it.
    pub fn paint<P: Painter>(size: Size, alpha: bool, painter: &P) -> (picture: Picture)
        ensures
            picture.wf(),
            picture.size() == size,
            picture.has_alpha() == alpha,
            forall|x: int, y: int, c: int|
                0 <= x < size.width && 0 <= y < size.height && 0 <= c < channel_count(alpha)
                    ==> picture.bytes()[picture.offset(x, y, c)] == #[trigger] painter.channel_at(
                    x,
                    y,
                    c,
                ),
    {
        let width = size.width;
        let height = size.height;
        let ghost step = channel_count(alpha);
        let mut data: Vec<u8> = Vec::new();
        let mut y: u32 = 0;
        while y < height
            invariant
                y <= height,
                step == channel_count(alpha),
                data@.len() == (y * width) * step,
                forall|xx: int, yy: int, c: int|
                    0 <= xx < width && 0 <= yy < y && 0 <= c < step ==> data@[(yy * width + xx)
                        * step + c] == #[trigger] painter.channel_at(xx, yy, c),
            decreases height - y,
        {
            let mut x: u32 = 0;
            while x < width
                invariant
                    x <= width,
                    y < height,
                    step == channel_count(alpha),
                    data@.len() == (y * width + x) * step,
                    forall|xx: int, yy: int, c: int|
                        0 <= xx < width && (0 <= yy < y || (yy == y && xx < x)) && 0 <= c < step
                            ==> data@[(yy * width + xx) * step + c]
                            == #[trigger] painter.channel_at(xx, yy, c),
                decreases width - x,
            {
                let pixel = painter.pixel_at(x, y);
                let ghost before = data@;
                data.push(pixel.channel(0));
                data.push(pixel.channel(1));
                data.push(pixel.channel(2));
                if alpha {
                    data.push(pixel.channel(3));
                }
                proof {
                    let first = (y * width + x) * step;
                    assert((y * width + (x + 1)) * step == first + step) by (nonlinear_arith)
                        requires
                            first == (y * width + x) * step,
                    ;
                    assert forall|xx: int, yy: int, c: int|
                        0 <= xx < width && (0 <= yy < y || (yy == y && xx < x + 1)) && 0 <= c
                            < step implies data@[(yy * width + xx) * step + c]
                        == #[trigger] painter.channel_at(xx, yy, c) by {
                        if yy == y && xx == x {
                            assert(data@[first + c] == pixel.channels()[c]);
                        } else {
                            lemma_earlier_pixel(width as int, step, x as int, y as int, xx, yy, c);
                            assert(data@[(yy * width + xx) * step + c] == before[(yy * width + xx)
                                * step + c]);
                        }
                    }
                }
                x += 1;
            }
            proof {
                assert(((y + 1) * width) * step == (y * width + width) * step) by (nonlinear_arith);
            }
            y += 1;
        }
        proof {
            assert((height * width) * step == width * height * step) by (nonlinear_arith);
        }
        let picture = Picture { size, alpha, data };
        proof {
            assert forall|x: int, y: int, c: int|
                0 <= x < width && 0 <= y < height && 0 <= c < step implies picture.bytes()[picture.offset(
                x,
                y,
                c,
            )] == #[trigger] painter.channel_at(x, y, c) by {
                assert(picture.offset(x, y, c) == (y * width + x) * step + c);
            }
        }
        picture
    }
}

/// A pixel that comes before column `x` of row `y` has its bytes before
/// that pixel's bytes.
proof fn lemma_earlier_pixel(width: int, step: int, x: int, y: int, xx: int, yy: int, c: int)
    requires
        0 <= x <= width,
        0 <= y,
        0 <= xx < width,
        0 <= yy,
        yy < y || (yy == y && xx < x),
        0 <= c < step,
    ensures
        0 <= (yy * width + xx) * step + c < (y * width + x) * step,
{
    assert(yy * width + xx + 1 <= y * width + x && yy * width + xx >= 0) by (nonlinear_arith)
        requires
            0 <= x <= width,
            0 <= xx < width,
            0 <= yy,
            yy < y || (yy == y && xx < x),
    ;
    assert((yy * width + xx) * step + step <= (y * width + x) * step && (yy * width + xx) * step
        >= 0) by (nonlinear_arith)
        requires
            yy * width + xx + 1 <= y * width + x,
            yy * width + xx >= 0,
            step > 0,
    ;
}

/// The bytes of a pixel inside a picture lie inside the picture's bytes, and
/// pixels that come earlier have their bytes earlier.
pub proof fn lemma_offset_in_bounds(width: int, height: int, step: int, x: int, y: int)
    requires
        0 <= x < width,
        0 <= y < height,
        step > 0,
    ensures
        0 <= y * width <= y * width + x < width * height,
        y * width + x <= (y * width + x) * step,
        (y * width + x) * step + step <= width * height * step,
{
    assert(y * width + x + 1 <= width * height && y * width >= 0) by (nonlinear_arith)
        requires
            0 <= x < width,
            0 <= y < height,
    ;
    assert((y * width + x) * step + step <= width * height * step && (y * width + x) * step >= y
        * width + x) by (nonlinear_arith)
        requires
            0 <= y * width + x,
            y * width + x + 1 <= width * height,
            step > 0,
    ;
}

} // verus!
