//! Where a pixel of the canvas comes from: the picture, the background, or a
//! blend of both on the one-pixel band along a rounded corner.
use crate::geometry::{Point, Size};
use crate::ratio::Ratio;
use vstd::prelude::*;

verus! {

/// The weight of a blended pixel is a multiple of one part in `ALPHA_SCALE`.
pub const ALPHA_SCALE: u64 = 1_000_000_000;

/// The source of one pixel of the canvas.
#[derive(Clone, Copy, Debug, PartialEq)]
pub enum PixelSource {
    /// The pixel is the picture's.
    Image,
    /// The pixel is the picture's with the given weight, and the
    /// background's with the rest.
    Blend(Ratio),
    /// The pixel is the background's.
    Background,
}

/// What [`PixelSource::at`] decides, with the weight of a blend left as the
/// squared distance and the radius that determine it.
pub enum PixelClass {
    /// The pixel is the picture's.
    Image,
    /// The pixel lies on the band between the two circles of a corner.
    Blend { distance_squared: nat, radius: nat },
    /// The pixel is the background's.
    Background,
}

/// The pixel lies outside the rectangle that the picture covers.
pub open spec fn outside_image(pixel: Point, position: Point, size: Size) -> bool {
    ||| pixel.x < position.x
    ||| pixel.x >= position.x + size.width
    ||| pixel.y < position.y
    ||| pixel.y >= position.y + size.height
}

/// For the picture's pixel `(x, y)`, its offset from the straight edges of the
/// corner square it lies in; `None` where it lies in no corner square. Where
/// squares overlap, the left one and then the top one is taken.
pub open spec fn corner_offset(x: int, y: int, width: int, height: int, radius: int) -> Option<
    (int, int),
> {
    if x < radius && y < radius {
        Some((radius - x, radius - y))
    } else if x < radius && y >= height - radius {
        Some((radius - x, y - height + radius + 1))
    } else if x >= width - radius && y < radius {
        Some((x - width + radius + 1, radius - y))
    } else if x >= width - radius && y >= height - radius {
        Some((x - width + radius + 1, y - height + radius + 1))
    } else {
        None
    }
}

/// The class of a pixel at squared distance `distance_squared` in a corner
/// of radius `radius`.
pub open spec fn corner_class(distance_squared: int, radius: int) -> PixelClass {
    if distance_squared > radius * radius {
        PixelClass::Background
    } else if distance_squared <= radius * radius - radius {
        PixelClass::Image
    } else {
        PixelClass::Blend { distance_squared: distance_squared as nat, radius: radius as nat }
    }
}

/// The class of the canvas pixel `pixel`, for a picture of size `size` whose
/// top left corner is at `position`.
pub open spec fn classify(
    pixel: Point,
    position: Point,
    size: Size,
    corner_radius: Option<u32>,
) -> PixelClass {
    if outside_image(pixel, position, size) {
        PixelClass::Background
    } else {
        match corner_radius {
            None => PixelClass::Image,
            Some(radius) => match corner_offset(
                pixel.x - position.x,
                pixel.y - position.y,
                size.width as int,
                size.height as int,
                radius as int,
            ) {
                None => PixelClass::Image,
                Some((dx, dy)) => corner_class(dx * dx + dy * dy, radius as int),
            },
        }
    }
}

/// `n / ALPHA_SCALE` is the weight `1 - sqrt(distance_squared) / radius`,
/// rounded down to a multiple of `1 / ALPHA_SCALE`:
/// `n / S <= 1 - sqrt(d2) / r < (n + 1) / S`, written without roots.
pub open spec fn is_blend_weight(n: nat, distance_squared: nat, radius: nat) -> bool {
    let s = ALPHA_SCALE as int;
    &&& n < s
    &&& s * s * distance_squared <= radius * radius * ((s - n) * (s - n))
    &&& radius * radius * ((s - n - 1) * (s - n - 1)) < s * s * distance_squared
}

/// `u / S` is the least multiple of `1 / S` that reaches `sqrt(d2) / r`:
/// `u / S >= sqrt(d2) / r > (u - 1) / S`, written without roots.
spec fn is_least_reach(u: nat, distance_squared: nat, radius: nat) -> bool {
    let s = ALPHA_SCALE as int;
    &&& 1 <= u
    &&& s * s * distance_squared <= radius * radius * (u * u)
    &&& radius * radius * ((u - 1) * (u - 1)) < s * s * distance_squared
}

/// Where `t / S` reaches `sqrt(d2) / r`, some least multiple up to `t` does.
proof fn lemma_least_reach(t: nat, distance_squared: nat, radius: nat)
    requires
        t >= 1,
        distance_squared >= 1,
        ALPHA_SCALE * ALPHA_SCALE * distance_squared <= radius * radius * (t * t),
    ensures
        exists|u: nat| u <= t && #[trigger] is_least_reach(u, distance_squared, radius),
    decreases t,
{
    let s = ALPHA_SCALE as int;
    let goal = s * s * distance_squared;
    assert(goal >= 1) by (nonlinear_arith)
        requires
            goal == s * s * distance_squared,
            s == 1_000_000_000,
            distance_squared >= 1,
    ;
    if radius * radius * ((t - 1) * (t - 1)) < goal {
        assert(is_least_reach(t, distance_squared, radius));
    } else {
        if t == 1 {
            assert(radius * radius * ((t - 1) * (t - 1)) == 0) by (nonlinear_arith)
                requires
                    t == 1,
            ;
        }
        lemma_least_reach((t - 1) as nat, distance_squared, radius);
        let u = choose|u: nat| u <= t - 1 && #[trigger] is_least_reach(u, distance_squared, radius);
        assert(u <= t && is_least_reach(u, distance_squared, radius));
    }
}

/// Every pixel on the band between the two circles of a corner has a
/// weight.
pub proof fn lemma_blend_weight_exists(distance_squared: nat, radius: nat)
    requires
        radius * radius - radius < distance_squared <= radius * radius,
    ensures
        exists|n: nat| is_blend_weight(n, distance_squared, radius),
{
    let s = ALPHA_SCALE as nat;
    assert(radius * radius - radius >= 0) by (nonlinear_arith);
    assert(ALPHA_SCALE * ALPHA_SCALE * distance_squared <= radius * radius * (s * s))
        by (nonlinear_arith)
        requires
            distance_squared <= radius * radius,
            s == ALPHA_SCALE,
    ;
    lemma_least_reach(s, distance_squared, radius);
    let u = choose|u: nat| u <= s && #[trigger] is_least_reach(u, distance_squared, radius);
    let n = (s - u) as nat;
    assert(ALPHA_SCALE - n == u);
    assert(is_blend_weight(n, distance_squared, radius));
}

/// `source` is the source that a pixel of class `class` has.
pub open spec fn source_of_class(source: PixelSource, class: PixelClass) -> bool {
    match class {
        PixelClass::Image => source == PixelSource::Image,
        PixelClass::Background => source == PixelSource::Background,
        PixelClass::Blend { distance_squared, radius } => {
            &&& source matches PixelSource::Blend(weight)
            &&& weight.wf()
            &&& weight.den() == ALPHA_SCALE
            &&& is_blend_weight(weight.num(), distance_squared, radius)
        },
    }
}

/// Whether the pixel lies outside the picture.
pub fn is_border_pixel(pixel: &Point, img_position: &Point, img_size: &Size) -> (outside: bool)
    ensures
        outside == outside_image(*pixel, *img_position, *img_size),
{
    let right: u64 = img_position.x as u64 + img_size.width as u64;
    let bottom: u64 = img_position.y as u64 + img_size.height as u64;
    pixel.x < img_position.x || pixel.x as u64 >= right || pixel.y < img_position.y || pixel.y as u64
        >= bottom
}

/// The least `t` with `t * t >= q`, for a `q` that is at most `limit * limit`.
fn ceil_sqrt(q: u128, limit: u64) -> (t: u64)
    requires
        q <= limit * limit,
        limit <= ALPHA_SCALE,
    ensures
        t <= limit,
        t * t >= q,
        t > 0 ==> (t - 1) * (t - 1) < q,
{
    let mut low: u64 = 0;
    let mut high: u64 = limit;
    while low < high
        invariant
            low <= high <= limit,
            limit <= ALPHA_SCALE,
            high * high >= q,
            low > 0 ==> (low - 1) * (low - 1) < q,
        decreases high - low,
    {
        let mid: u64 = low + (high - low) / 2;
        assert(mid * mid <= ALPHA_SCALE * ALPHA_SCALE) by (nonlinear_arith)
            requires
                mid <= ALPHA_SCALE,
        ;
        if (mid as u128) * (mid as u128) >= q {
            high = mid;
        } else {
            low = mid + 1;
        }
    }
    low
}

/// The weight of a pixel on the blend band, in parts of `ALPHA_SCALE`.
fn blend_weight(distance_squared: u128, radius: u32) -> (n: u64)
    requires
        radius * radius - radius < distance_squared <= radius * radius,
    ensures
        is_blend_weight(n as nat, distance_squared as nat, radius as nat),
{
    let s: u128 = ALPHA_SCALE as u128;
    assert(radius * radius <= u32::MAX * u32::MAX) by (nonlinear_arith)
        requires
            radius <= u32::MAX,
    ;
    let r2: u128 = (radius as u128) * (radius as u128);
    assert(radius >= 1 && radius * radius - radius >= 0) by (nonlinear_arith)
        requires
            radius * radius - radius < distance_squared <= radius * radius,
            radius >= 0,
    ;
    assert(r2 >= 1) by (nonlinear_arith)
        requires
            r2 == radius * radius,
            radius >= 1,
    ;
    assert(s * s * distance_squared <= s * s * r2 && s * s * r2 <= 1_000_000_000_000_000_000
        * 0xFFFF_FFFF_0000_0000 && s * s == 1_000_000_000_000_000_000) by (nonlinear_arith)
        requires
            s == 1_000_000_000,
            distance_squared <= r2,
            r2 <= u32::MAX * u32::MAX,
    ;
    let scaled: u128 = s * s * distance_squared;
    // The least q with q * r2 >= scaled.
    let q: u128 = (scaled + (r2 - 1)) / r2;
    proof {
        let a = scaled as int;
        let b = r2 as int;
        vstd::arithmetic::div_mod::lemma_fundamental_div_mod(a + b - 1, b);
        vstd::arithmetic::div_mod::lemma_mod_bound(a + b - 1, b);
        assert(b * (q as int) == (q as int) * b) by (nonlinear_arith);
        assert(q * r2 >= scaled);
        assert((q - 1) * b == (q as int) * b - b) by (nonlinear_arith);
        assert((q - 1) * r2 < scaled);
        assert(q - 1 < s * s) by (nonlinear_arith)
            requires
                (q - 1) * r2 < s * s * r2,
                r2 >= 1,
        ;
        assert(scaled >= 1) by (nonlinear_arith)
            requires
                scaled == s * s * distance_squared,
                s == 1_000_000_000,
                distance_squared >= 1,
        ;
        assert(q >= 1) by (nonlinear_arith)
            requires
                q * r2 >= scaled,
                scaled >= 1,
                r2 >= 1,
        ;
    }
    let t: u64 = ceil_sqrt(q, ALPHA_SCALE);
    proof {
        let ti = t as int;
        let qi = q as int;
        let r2i = r2 as int;
        assert(t >= 1) by (nonlinear_arith)
            requires
                t * t >= q,
                q >= 1,
        ;
        assert(r2i * (ti * ti) >= qi * r2i) by (nonlinear_arith)
            requires
                ti * ti >= qi,
                r2i >= 0,
        ;
        assert(r2i * ((ti - 1) * (ti - 1)) <= (qi - 1) * r2i) by (nonlinear_arith)
            requires
                (ti - 1) * (ti - 1) <= qi - 1,
                r2i >= 0,
        ;
        assert(radius * radius == r2i);
    }
    ALPHA_SCALE - t
}

impl PixelSource {
    /// The source of the canvas pixel `pixel`, for a picture of size
    /// `img_size` whose top left corner is at `img_position`, with corners
    /// rounded by `corner_radius` if one is given.
    pub fn at(
        pixel: Point,
        img_position: &Point,
        img_size: &Size,
        corner_radius: &Option<u32>,
    ) -> (source: PixelSource)
        ensures
            source_of_class(source, classify(pixel, *img_position, *img_size, *corner_radius)),
    {
        if is_border_pixel(&pixel, img_position, img_size) {
            return PixelSource::Background;
        }
        let radius: u32 = match corner_radius {
            None => {
                return PixelSource::Image;
            },
            Some(radius) => *radius,
        };
        let r: i64 = radius as i64;
        let x: i64 = (pixel.x - img_position.x) as i64;
        let y: i64 = (pixel.y - img_position.y) as i64;
        let width: i64 = img_size.width as i64;
        let height: i64 = img_size.height as i64;

        let (dx, dy): (i64, i64) = if x < r && y < r {
            (r - x, r - y)
        } else if x < r && y >= height - r {
            (r - x, y - height + r + 1)
        } else if x >= width - r && y < r {
            (x - width + r + 1, r - y)
        } else if x >= width - r && y >= height - r {
            (x - width + r + 1, y - height + r + 1)
        } else {
            return PixelSource::Image;
        };
        assert(1 <= dx <= r && 1 <= dy <= r);
        assert(dx * dx + dy * dy <= 2 * (u32::MAX * u32::MAX) && r * r <= u32::MAX * u32::MAX
            && dx * dx >= 0 && dy * dy >= 0 && r * r >= r) by (nonlinear_arith)
            requires
                1 <= dx <= r,
                1 <= dy <= r,
                r <= u32::MAX,
        ;
        let distance_squared: u128 = (dx as u128) * (dx as u128) + (dy as u128) * (dy as u128);
        let radius_squared: u128 = (r as u128) * (r as u128);
        if distance_squared > radius_squared {
            PixelSource::Background
        } else if distance_squared <= radius_squared - r as u128 {
            PixelSource::Image
        } else {
            let n = blend_weight(distance_squared, radius);
            match Ratio::new(n, ALPHA_SCALE) {
                Some(weight) => PixelSource::Blend(weight),
                None => unreached(),
            }
        }
    }
}

/// Without a corner radius no pixel is blended: a pixel inside the picture's
/// rectangle is the picture's, every other the background's.
pub proof fn lemma_square_corners_never_blend(pixel: Point, position: Point, size: Size)
    ensures
        classify(pixel, position, size, None) == if outside_image(pixel, position, size) {
            PixelClass::Background
        } else {
            PixelClass::Image
        },
{
}

/// A pixel that is not the background's lies inside the picture, so that the
/// picture has a pixel for it.
pub proof fn lemma_source_within_picture(
    pixel: Point,
    position: Point,
    size: Size,
    corner_radius: Option<u32>,
)
    requires
        classify(pixel, position, size, corner_radius) != PixelClass::Background,
    ensures
        position.x <= pixel.x,
        position.y <= pixel.y,
        pixel.x - position.x < size.width,
        pixel.y - position.y < size.height,
{
}

/// The weight of a blend is at least zero and less than one, and a blend
/// arises under a corner radius only.
pub proof fn lemma_blend_weight_range(
    pixel: Point,
    position: Point,
    size: Size,
    corner_radius: Option<u32>,
    source: PixelSource,
)
    requires
        source_of_class(source, classify(pixel, position, size, corner_radius)),
        source is Blend,
    ensures
        corner_radius is Some,
        source->Blend_0.num() < source->Blend_0.den(),
{
}

} // verus!
