use oliframe::color::Rgba;
use oliframe::config::FrameConfig;
use oliframe::file_collector::FilePair;
use oliframe::frame::layout::{output_dimensions, position, size_with_border, size_with_ratio};
use oliframe::frame::picture::{ImageFormat, Picture};
use oliframe::frame::{blend, Frame, PixelSource, SaveAction};
use oliframe::geometry::{AspectRatio, Border, Margins, Point, RelativePosition, Size};
use oliframe::ratio::Ratio;
use std::path::PathBuf;
use std::str::FromStr;

fn ratio(numerator: u64, denominator: u64) -> Ratio {
    Ratio::new(numerator, denominator).unwrap()
}

/// A picture whose pixel in column x of row y is (x, y, x + y, 255 - x).
fn gradient(width: u32, height: u32) -> Picture {
    let mut data = Vec::new();
    for y in 0..height {
        for x in 0..width {
            data.push(x as u8);
            data.push(y as u8);
            data.push((x + y) as u8);
            data.push(255 - x as u8);
        }
    }
    Picture::from_rgba(width, height, data).unwrap()
}

fn pair() -> FilePair {
    FilePair::new(PathBuf::from("in/picture.png"), PathBuf::from("out/picture.png"))
}

fn pixel_of(frame: &Frame, x: u32, y: u32) -> Rgba {
    frame.img.get_pixel(x, y)
}

#[test]
fn output_dimensions_with_border() {
    let input_size = Size::from((100, 100));
    let border = Margins::from_str("10")
        .unwrap()
        .to_border_with_size(&input_size);
    let config = FrameConfig::default();
    let output_size = output_dimensions(&input_size, &border, &config);
    assert_eq!(output_size, Size::from((120, 120)));
}

#[test]
fn output_dimensions_with_tall_ar() {
    let input_size = Size::from((100, 100));
    let margins = Margins::from_str("10").unwrap();
    let border = margins.to_border_with_size(&input_size);
    let config = FrameConfig::new(
        Some(AspectRatio::from_str("9:16").unwrap()),
        Rgba([0, 0, 0, 0]),
        None,
        margins,
        RelativePosition::default(),
    );
    let output_size = output_dimensions(&input_size, &border, &config);
    assert_eq!(output_size, Size::from((120, 213)));
}

#[test]
fn output_dimensions_with_wide_ar() {
    let input_size = Size::from((100, 100));
    let margins = Margins::from_str("10").unwrap();
    let border = margins.to_border_with_size(&input_size);
    let config = FrameConfig::new(
        Some(AspectRatio::from_str("16:9").unwrap()),
        Rgba([0, 0, 0, 0]),
        None,
        margins,
        RelativePosition::default(),
    );
    let output_size = output_dimensions(&input_size, &border, &config);
    assert_eq!(output_size, Size::from((213, 120)));
}

#[test]
fn position_in_frame() {
    let img_size = Size::from((100, 100));
    let output_size = Size::from((200, 200));
    let border = Margins::from_str("10")
        .unwrap()
        .to_border_with_size(&img_size);

    let relative_position = RelativePosition::from_str("center").unwrap();
    let pos = position(&img_size, &output_size, &relative_position, &border);
    assert_eq!(pos, Point::new(50, 50));

    let relative_position = RelativePosition::from_str("left,top").unwrap();
    let pos = position(&img_size, &output_size, &relative_position, &border);
    assert_eq!(pos, Point::new(10, 10));

    let relative_position = RelativePosition::from_str("right,bottom").unwrap();
    let pos = position(&img_size, &output_size, &relative_position, &border);
    assert_eq!(pos, Point::new(90, 90));

    let relative_position = RelativePosition::from_str("left,bottom").unwrap();
    let pos = position(&img_size, &output_size, &relative_position, &border);
    assert_eq!(pos, Point::new(10, 90));

    let relative_position = RelativePosition::from_str("right,top").unwrap();
    let pos = position(&img_size, &output_size, &relative_position, &border);
    assert_eq!(pos, Point::new(90, 10));

    let relative_position = RelativePosition::from_str("center,bottom").unwrap();
    let pos = position(&img_size, &output_size, &relative_position, &border);
    assert_eq!(pos, Point::new(50, 90));

    let relative_position = RelativePosition::from_str("center,top").unwrap();
    let pos = position(&img_size, &output_size, &relative_position, &border);
    assert_eq!(pos, Point::new(50, 10));

    let relative_position = RelativePosition::from_str("left,center").unwrap();
    let pos = position(&img_size, &output_size, &relative_position, &border);
    assert_eq!(pos, Point::new(10, 50));

    let relative_position = RelativePosition::from_str("right,center").unwrap();
    let pos = position(&img_size, &output_size, &relative_position, &border);
    assert_eq!(pos, Point::new(90, 50));
}

#[test]
fn canvas_of_a_ratio_holds_the_frame() {
    let img = Size::new(100, 50);
    let border = Border::new(1, 2, 3, 4);
    assert_eq!(size_with_border(&img, &border), Size::new(106, 54));
    let with = |n: u64, d: u64| {
        size_with_ratio(&img, &AspectRatio::new(ratio(n, d)).unwrap(), &border)
    };
    // The frame is 106 by 54; at its own proportion nothing changes.
    assert_eq!(with(106, 54), Size::new(106, 54));
    assert_eq!(with(1, 1), Size::new(106, 106));
    assert_eq!(with(4, 1), Size::new(216, 54));
    assert_eq!(with(3, 2), Size::new(106, 71));
    // 106 / 1.5 is 70.67, 106 / 4 * 3 is 79.5, which goes up.
    assert_eq!(with(4, 3), Size::new(106, 80));
    assert_eq!(with(u64::MAX, 1), Size::new(u32::MAX, 54));
    assert_eq!(with(1, u64::MAX), Size::new(106, u32::MAX));
    let empty = Size::new(0, 0);
    let none = Border::new(0, 0, 0, 0);
    assert_eq!(
        size_with_ratio(&empty, &AspectRatio::new(ratio(16, 9)).unwrap(), &none),
        Size::new(0, 0)
    );
}

#[test]
fn image_pixels() {
    let img_position = Point::new(10, 10);
    let img_size = Size::new(100, 100);
    let corner_radius = Some(10);

    let mid_image_pixel = Point::new(60, 60);
    assert_eq!(
        PixelSource::at(mid_image_pixel, &img_position, &img_size, &corner_radius),
        PixelSource::Image
    );

    let top_left_in_corner_radius_pixel = Point::new(15, 15);
    assert_eq!(
        PixelSource::at(
            top_left_in_corner_radius_pixel,
            &img_position,
            &img_size,
            &corner_radius
        ),
        PixelSource::Image
    );

    let top_right_in_corner_radius_pixel = Point::new(105, 15);
    assert_eq!(
        PixelSource::at(
            top_right_in_corner_radius_pixel,
            &img_position,
            &img_size,
            &corner_radius
        ),
        PixelSource::Image
    );

    let bottom_left_in_corner_radius_pixel = Point::new(15, 105);
    assert_eq!(
        PixelSource::at(
            bottom_left_in_corner_radius_pixel,
            &img_position,
            &img_size,
            &corner_radius
        ),
        PixelSource::Image
    );

    let bottom_right_in_corner_radius_pixel = Point::new(105, 105);
    assert_eq!(
        PixelSource::at(
            bottom_right_in_corner_radius_pixel,
            &img_position,
            &img_size,
            &corner_radius
        ),
        PixelSource::Image
    );

    let corner_radius = None;

    let top_left_pixel = Point::new(10, 10);
    assert_eq!(
        PixelSource::at(top_left_pixel, &img_position, &img_size, &corner_radius),
        PixelSource::Image
    );

    let top_right_pixel = Point::new(109, 10);
    assert_eq!(
        PixelSource::at(top_right_pixel, &img_position, &img_size, &corner_radius),
        PixelSource::Image
    );

    let bottom_left_pixel = Point::new(10, 109);
    assert_eq!(
        PixelSource::at(bottom_left_pixel, &img_position, &img_size, &corner_radius),
        PixelSource::Image
    );

    let bottom_right_pixel = Point::new(109, 109);
    assert_eq!(
        PixelSource::at(bottom_right_pixel, &img_position, &img_size, &corner_radius),
        PixelSource::Image
    );
}

#[test]
fn border_pixels() {
    let img_position = Point::new(10, 10);
    let img_size = Size::new(100, 100);
    let corner_radius = Some(10);

    let left_border_pixel = Point::new(5, 60);
    assert_eq!(
        PixelSource::at(left_border_pixel, &img_position, &img_size, &corner_radius),
        PixelSource::Background
    );

    let right_border_pixel = Point::new(115, 60);
    assert_eq!(
        PixelSource::at(right_border_pixel, &img_position, &img_size, &corner_radius),
        PixelSource::Background
    );

    let top_border_pixel = Point::new(60, 5);
    assert_eq!(
        PixelSource::at(top_border_pixel, &img_position, &img_size, &corner_radius),
        PixelSource::Background
    );

    let bottom_border_pixel = Point::new(60, 115);
    assert_eq!(
        PixelSource::at(
            bottom_border_pixel,
            &img_position,
            &img_size,
            &corner_radius
        ),
        PixelSource::Background
    );

    let top_left_corner_pixel = Point::new(5, 5);
    assert_eq!(
        PixelSource::at(
            top_left_corner_pixel,
            &img_position,
            &img_size,
            &corner_radius
        ),
        PixelSource::Background
    );

    let top_right_corner_pixel = Point::new(115, 5);
    assert_eq!(
        PixelSource::at(
            top_right_corner_pixel,
            &img_position,
            &img_size,
            &corner_radius
        ),
        PixelSource::Background
    );

    let bottom_left_corner_pixel = Point::new(5, 115);
    assert_eq!(
        PixelSource::at(
            bottom_left_corner_pixel,
            &img_position,
            &img_size,
            &corner_radius
        ),
        PixelSource::Background
    );

    let bottom_right_corner_pixel = Point::new(115, 115);
    assert_eq!(
        PixelSource::at(
            bottom_right_corner_pixel,
            &img_position,
            &img_size,
            &corner_radius
        ),
        PixelSource::Background
    );

    let top_left_outside_corner_radius_pixel = Point::new(12, 12);
    assert_eq!(
        PixelSource::at(
            top_left_outside_corner_radius_pixel,
            &img_position,
            &img_size,
            &corner_radius
        ),
        PixelSource::Background
    );

    let top_right_outside_corner_radius_pixel = Point::new(108, 12);
    assert_eq!(
        PixelSource::at(
            top_right_outside_corner_radius_pixel,
            &img_position,
            &img_size,
            &corner_radius
        ),
        PixelSource::Background
    );

    let bottom_left_outside_corner_radius_pixel = Point::new(12, 108);
    assert_eq!(
        PixelSource::at(
            bottom_left_outside_corner_radius_pixel,
            &img_position,
            &img_size,
            &corner_radius
        ),
        PixelSource::Background
    );

    let bottom_right_outside_corner_radius_pixel = Point::new(108, 108);
    assert_eq!(
        PixelSource::at(
            bottom_right_outside_corner_radius_pixel,
            &img_position,
            &img_size,
            &corner_radius
        ),
        PixelSource::Background
    );
}

#[test]
fn blended_pixels() {
    let img_position = Point::new(10, 10);
    let img_size = Size::new(100, 100);
    let corner_radius = Some(10);

    let top_left_corner_pixel = Point::new(13, 13);
    let pixel_source = PixelSource::at(
        top_left_corner_pixel,
        &img_position,
        &img_size,
        &corner_radius,
    );
    match pixel_source {
        PixelSource::Blend(blend) => {
            assert!(ratio(1, 100).less_than(&blend));
            assert!(blend.less_than(&ratio(2, 100)));
        }
        _ => panic!("Expected PixelSource::Blend"),
    }

    let top_right_corner_pixel = Point::new(106, 13);
    let pixel_source = PixelSource::at(
        top_right_corner_pixel,
        &img_position,
        &img_size,
        &corner_radius,
    );
    match pixel_source {
        PixelSource::Blend(blend) => {
            assert!(ratio(1, 100).less_than(&blend));
            assert!(blend.less_than(&ratio(2, 100)));
        }
        _ => panic!("Expected PixelSource::Blend"),
    }

    let bottom_left_corner_pixel = Point::new(13, 106);
    let pixel_source = PixelSource::at(
        bottom_left_corner_pixel,
        &img_position,
        &img_size,
        &corner_radius,
    );
    match pixel_source {
        PixelSource::Blend(blend) => {
            assert!(ratio(1, 100).less_than(&blend));
            assert!(blend.less_than(&ratio(2, 100)));
        }
        _ => panic!("Expected PixelSource::Blend"),
    }

    let bottom_right_corner_pixel = Point::new(106, 106);
    let pixel_source = PixelSource::at(
        bottom_right_corner_pixel,
        &img_position,
        &img_size,
        &corner_radius,
    );
    match pixel_source {
        PixelSource::Blend(blend) => {
            assert!(ratio(1, 100).less_than(&blend));
            assert!(blend.less_than(&ratio(2, 100)));
        }
        _ => panic!("Expected PixelSource::Blend"),
    }
}

#[test]
fn blend_weights_are_exact_to_a_billionth() {
    let at = |x: u32, y: u32, radius: u32| {
        PixelSource::at(Point::new(x, y), &Point::new(0, 0), &Size::new(100, 100), &Some(radius))
    };
    // 1 - sqrt(98) / 10 = 0.010050506338...
    assert_eq!(at(3, 3, 10), PixelSource::Blend(ratio(10_050_506, 1_000_000_000)));
    // On the circle itself the picture weighs nothing: 6, 8 and 10 are a right triangle.
    assert_eq!(at(4, 2, 10), PixelSource::Blend(ratio(0, 1)));
    // 1 - sqrt(8) / 3 = 0.057190958417...
    assert_eq!(at(1, 1, 3), PixelSource::Blend(ratio(57_190_958, 1_000_000_000)));
    assert_eq!(at(1, 1, 2), PixelSource::Image);
    assert_eq!(at(0, 0, 1), PixelSource::Background);
    assert_eq!(at(0, 0, 0), PixelSource::Image);
    assert_eq!(at(50, 0, 10), PixelSource::Image);
    assert_eq!(at(99, 99, 10), PixelSource::Background);
    assert_eq!(at(96, 96, 10), PixelSource::Blend(ratio(10_050_506, 1_000_000_000)));
    assert_eq!(at(100, 50, 10), PixelSource::Background);
    assert_eq!(at(3, 3, u32::MAX), PixelSource::Background);
}

#[test]
fn without_a_radius_nothing_is_blended() {
    let position = Point::new(2, 3);
    let size = Size::new(4, 5);
    for y in 0..12 {
        for x in 0..10 {
            let inside = (2..6).contains(&x) && (3..8).contains(&y);
            let expected = if inside { PixelSource::Image } else { PixelSource::Background };
            assert_eq!(PixelSource::at(Point::new(x, y), &position, &size, &None), expected);
        }
    }
}

#[test]
fn channels_are_mixed_by_weight() {
    assert_eq!(blend(0, 255, &ratio(0, 1)), 255);
    assert_eq!(blend(0, 255, &ratio(1, 1)), 0);
    assert_eq!(blend(100, 200, &ratio(1, 2)), 150);
    assert_eq!(blend(0, 255, &ratio(10_050_506, 1_000_000_000)), 252);
    // 0.5 goes up, 0.25 goes down.
    assert_eq!(blend(1, 0, &ratio(1, 2)), 1);
    assert_eq!(blend(1, 0, &ratio(1, 4)), 0);
    assert_eq!(blend(255, 255, &ratio(1, 3)), 255);
}

#[test]
fn a_frame_is_drawn_around_the_picture() {
    // 50% of the mean of 4 and 2 is a border of two pixels (1.5 goes up).
    let config = FrameConfig::new(
        None,
        Rgba([9, 8, 7, 6]),
        None,
        Margins::from_str("50").unwrap(),
        RelativePosition::default(),
    );
    let built = Frame::build(gradient(4, 2), ImageFormat::Png, pair(), &config);
    assert_eq!(built.input_size, Size::new(4, 2));
    assert_eq!(built.output_size, Size::new(8, 6));
    assert_eq!(built.position, Point::new(2, 2));
    assert_eq!(built.output_path, PathBuf::from("out/picture.png"));
    let drawn = built.draw(&config);
    assert_eq!(drawn.img.dimensions(), Size::new(8, 6));
    assert!(drawn.img.stores_alpha());
    assert_eq!(drawn.img.data().len(), 8 * 6 * 4);
    for y in 0..6u32 {
        for x in 0..8u32 {
            let expected = if (2..6).contains(&x) && (2..4).contains(&y) {
                let (sx, sy) = (x - 2, y - 2);
                Rgba([sx as u8, sy as u8, (sx + sy) as u8, 255 - sx as u8])
            } else {
                Rgba([9, 8, 7, 6])
            };
            assert_eq!(pixel_of(&drawn, x, y), expected);
        }
    }
}

#[test]
fn a_picture_without_opacity_stays_without() {
    let config = FrameConfig::new(
        None,
        Rgba([9, 8, 7, 6]),
        None,
        Margins::from_str("50").unwrap(),
        RelativePosition::default(),
    );
    let drawn = Frame::build(gradient(4, 2), ImageFormat::Jpeg, pair(), &config).draw(&config);
    assert!(!drawn.img.stores_alpha());
    assert_eq!(drawn.img.data().len(), 8 * 6 * 3);
    assert_eq!(&drawn.img.data()[0..3], &[9, 8, 7]);
    assert_eq!(pixel_of(&drawn, 0, 0), Rgba([9, 8, 7, 255]));
    assert_eq!(pixel_of(&drawn, 3, 3), Rgba([1, 1, 2, 255]));
    let first = (3 * 8 + 3) * 3;
    assert_eq!(&drawn.img.data()[first..first + 3], &[1, 1, 2]);
    for fmt in [ImageFormat::Jpeg, ImageFormat::Pnm, ImageFormat::Hdr] {
        assert!(!fmt.keeps_alpha());
        let drawn = Frame::build(gradient(4, 2), fmt, pair(), &config).draw(&config);
        assert!(!drawn.img.stores_alpha());
        assert_eq!(drawn.img.data().len(), 8 * 6 * 3);
    }
    for fmt in [
        ImageFormat::Png,
        ImageFormat::Gif,
        ImageFormat::WebP,
        ImageFormat::Tiff,
        ImageFormat::Tga,
        ImageFormat::Dds,
        ImageFormat::Bmp,
        ImageFormat::Ico,
        ImageFormat::OpenExr,
        ImageFormat::Farbfeld,
        ImageFormat::Avif,
        ImageFormat::Qoi,
        ImageFormat::Other,
    ] {
        assert!(fmt.keeps_alpha());
        let drawn = Frame::build(gradient(4, 2), fmt, pair(), &config).draw(&config);
        assert!(drawn.img.stores_alpha());
        assert_eq!(drawn.img.data().len(), 8 * 6 * 4);
    }
}

#[test]
fn rounded_corners_are_cut_and_smoothed() {
    let black = Picture::from_rgba(20, 20, [0, 0, 0, 255].repeat(400)).unwrap();
    let config = FrameConfig::new(
        None,
        Rgba([255, 255, 255, 255]),
        Some(10),
        Margins::from_str("0").unwrap(),
        RelativePosition::default(),
    );
    let drawn = Frame::build(black, ImageFormat::Png, pair(), &config).draw(&config);
    assert_eq!(drawn.img.dimensions(), Size::new(20, 20));
    assert_eq!(pixel_of(&drawn, 0, 0), Rgba([255, 255, 255, 255]));
    assert_eq!(pixel_of(&drawn, 2, 2), Rgba([255, 255, 255, 255]));
    assert_eq!(pixel_of(&drawn, 3, 3), Rgba([252, 252, 252, 255]));
    assert_eq!(pixel_of(&drawn, 16, 16), Rgba([252, 252, 252, 255]));
    assert_eq!(pixel_of(&drawn, 4, 2), Rgba([255, 255, 255, 255]));
    assert_eq!(pixel_of(&drawn, 5, 5), Rgba([0, 0, 0, 255]));
    assert_eq!(pixel_of(&drawn, 10, 1), Rgba([0, 0, 0, 255]));
    assert_eq!(pixel_of(&drawn, 10, 0), Rgba([255, 255, 255, 255]));
}

#[test]
fn a_fixed_ratio_leaves_the_slack_to_the_placement() {
    let place = |text: &str| {
        let config = FrameConfig::new(
            Some(AspectRatio::from_str("2:1").unwrap()),
            Rgba([0, 0, 0, 0]),
            None,
            Margins::from_str("10").unwrap(),
            RelativePosition::from_str(text).unwrap(),
        );
        let frame = Frame::build(gradient(100, 100), ImageFormat::Png, pair(), &config);
        assert_eq!(frame.output_size, Size::new(240, 120));
        frame.position
    };
    assert_eq!(place("left"), Point::new(10, 10));
    assert_eq!(place("center"), Point::new(70, 10));
    assert_eq!(place("right"), Point::new(130, 10));
    assert_eq!(place("right,bottom"), Point::new(130, 10));
}

#[test]
fn a_dry_run_writes_nothing() {
    let config = FrameConfig::default();
    let (frame, action) = Frame::process(gradient(3, 3), ImageFormat::Png, pair(), &config, true);
    assert_eq!(action, SaveAction::Report);
    assert_eq!(frame.save(true), SaveAction::Report);
    assert_eq!(frame.save(false), SaveAction::Write);
    let (frame, action) = Frame::process(gradient(3, 3), ImageFormat::Png, pair(), &config, false);
    assert_eq!(action, SaveAction::Write);
    assert_eq!(frame.img.dimensions(), frame.output_size);
    assert_eq!(
        frame.save_failed("disk full".to_string()).message(),
        "Unable to save image: out/picture.png. disk full"
    );
}

#[test]
fn pictures_need_four_bytes_for_each_pixel() {
    assert!(Picture::from_rgba(2, 2, vec![0; 16]).is_some());
    assert!(Picture::from_rgba(2, 2, vec![0; 15]).is_none());
    assert!(Picture::from_rgba(2, 2, vec![0; 12]).is_none());
    assert!(Picture::from_rgba(0, 7, vec![]).is_some());
    let picture = gradient(3, 2);
    assert_eq!(picture.get_pixel(2, 1), Rgba([2, 1, 3, 253]));
    assert_eq!(picture.get_pixel(2, 1).channel(3), 253);
    assert_eq!(picture.into_data().len(), 24);
}
