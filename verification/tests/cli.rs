use oliframe::cli::{
    Cli, FrameOptions, InputOptions, LevelFilter, OutputOptions, VerbosityOptions,
};
use oliframe::color::Rgba;
use oliframe::config::{FrameConfig, OutputConfig};
use oliframe::geometry::{HorizontalPosition, RelativePosition, VerticalPosition};
use oliframe::ratio::Ratio;
use std::path::PathBuf;

fn ratio(numerator: u64, denominator: u64) -> Ratio {
    Ratio::new(numerator, denominator).unwrap()
}

#[test]
fn parse_frame_options() {
    let opts = FrameOptions {
        aspect_ratio: Some("16:9".to_string()),
        color: "black".to_string(),
        corner_radius: Some(5),
        margins: Some("10".to_string()),
        position: Some("center".to_string()),
    };

    let config = FrameConfig::try_from(opts).unwrap();
    assert_eq!(config.aspect_ratio().as_ref().unwrap().inner(), ratio(16, 9));
    assert_eq!(config.color(), &Rgba([0, 0, 0, 255]));
    assert_eq!(config.corner_radius(), &Some(5));
    assert_eq!(config.margins().values().as_slice(), &[ratio(1, 10)]);
    assert_eq!(config.position(), &RelativePosition::default());
}

#[test]
fn parse_frame_options_with_defaults() {
    let opts = FrameOptions {
        aspect_ratio: None,
        color: "white".to_string(),
        corner_radius: None,
        margins: None,
        position: None,
    };

    let config = FrameConfig::try_from(opts).unwrap();
    assert!(config.aspect_ratio().is_none());
    assert_eq!(config.color(), &Rgba([255, 255, 255, 255]));
    assert!(config.corner_radius().is_none());
    assert_eq!(config.margins().values().as_slice(), &[ratio(5, 100)]);
    assert_eq!(config.position(), &RelativePosition::default());
}

#[test]
fn parsing_with_invalid_color_fails() {
    let opts = FrameOptions {
        aspect_ratio: None,
        color: "invalid".to_string(),
        corner_radius: None,
        margins: None,
        position: None,
    };

    let result = FrameConfig::try_from(opts);
    assert!(result.is_err());
    assert_eq!(result.unwrap_err().message(), "Invalid input: Invalid color.");
}

#[test]
fn frame_options_report_the_first_option_that_fails() {
    let opts = FrameOptions {
        aspect_ratio: Some("16:0".to_string()),
        color: "invalid".to_string(),
        corner_radius: None,
        margins: Some("-1".to_string()),
        position: Some("left right".to_string()),
    };
    assert_eq!(
        FrameConfig::try_from(opts).unwrap_err().message(),
        "Invalid input: Denominator cannot be zero: 16:0"
    );

    let opts = FrameOptions {
        aspect_ratio: Some("16:9".to_string()),
        color: "#ff8000".to_string(),
        corner_radius: None,
        margins: Some("-1".to_string()),
        position: Some("left right".to_string()),
    };
    assert_eq!(
        FrameConfig::try_from(opts).unwrap_err().message(),
        "Invalid input: Negative margin values are not allowed."
    );

    let opts = FrameOptions {
        aspect_ratio: Some("16:9".to_string()),
        color: "#ff8000".to_string(),
        corner_radius: None,
        margins: Some("3".to_string()),
        position: Some("left right".to_string()),
    };
    assert_eq!(
        FrameConfig::try_from(opts).unwrap_err().message(),
        "Invalid input: Please provide only one horizontal position."
    );
}

#[test]
fn a_colour_that_was_read_is_the_colour_of_the_frame() {
    let options = |ratio: &str| FrameOptions {
        aspect_ratio: Some(ratio.to_string()),
        color: "whatever".to_string(),
        corner_radius: Some(3),
        margins: Some("10 20".to_string()),
        position: Some("left".to_string()),
    };
    let config = FrameConfig::with_color(options("4:3"), Some((1, 2, 3, 4))).unwrap();
    assert_eq!(config.color(), &Rgba([1, 2, 3, 4]));
    assert_eq!(config.aspect_ratio().as_ref().unwrap().inner(), ratio(4, 3));
    assert_eq!(config.corner_radius(), &Some(3));
    assert_eq!(config.margins().values().as_slice(), &[ratio(1, 10), ratio(2, 10)]);
    assert_eq!(config.position().horizontal(), HorizontalPosition::Left);
    assert_eq!(
        FrameConfig::with_color(options("4:3"), None).unwrap_err().message(),
        "Invalid input: Invalid color."
    );
    assert_eq!(
        FrameConfig::with_color(options("4:0"), None).unwrap_err().message(),
        "Invalid input: Denominator cannot be zero: 4:0"
    );
}

#[test]
fn css_colors_are_read_in_their_notations() {
    let color_of = |text: &str| {
        let opts = FrameOptions {
            aspect_ratio: None,
            color: text.to_string(),
            corner_radius: None,
            margins: None,
            position: None,
        };
        *FrameConfig::try_from(opts).unwrap().color()
    };
    assert_eq!(color_of("#ff8000"), Rgba([255, 128, 0, 255]));
    assert_eq!(color_of("rgb(0, 0, 255)"), Rgba([0, 0, 255, 255]));
    assert_eq!(color_of("red"), Rgba([255, 0, 0, 255]));
    assert_eq!(color_of("transparent"), Rgba([0, 0, 0, 0]));
}

#[test]
fn parse_input_options() {
    let opts = InputOptions {
        inputs: vec![PathBuf::from("input.jpg")],
        recursive: true,
        extensions: vec!["jpg".into()],
    };

    let config = opts.into_config(PathBuf::from("/here"));

    assert_eq!(config.extensions().as_slice(), &["jpg"]);
    assert_eq!(config.inputs().as_slice(), &[PathBuf::from("input.jpg")]);
    assert_eq!(config.recursive(), true);
}

#[test]
fn parse_input_options_no_inputs() {
    let opts = InputOptions {
        inputs: vec![],
        recursive: true,
        extensions: vec!["jpg".into()],
    };

    let config = opts.into_config(PathBuf::from("/here"));

    assert_eq!(config.extensions().as_slice(), &["jpg"]);
    assert_eq!(config.inputs().as_slice(), &[PathBuf::from("/here")]);
    assert_eq!(config.recursive(), true);
}

#[test]
fn extensions_lose_their_leading_points() {
    let opts = InputOptions {
        inputs: vec![],
        recursive: false,
        extensions: vec![".jpg".into(), "..png".into(), "tar.gz".into(), ".".into()],
    };
    let config = opts.into_config(PathBuf::from("."));
    assert_eq!(config.extensions().as_slice(), &["jpg", "png", "tar.gz", ""]);
    assert_eq!(config.recursive(), false);
}

#[test]
fn parse_output_options() {
    let opts = OutputOptions {
        dry_run: true,
        output: Some(PathBuf::from("output")),
        flatten: true,
        prefix: Some("prefix".to_string()),
        suffix: Some("suffix".to_string()),
        overwrite: true,
    };

    let config = OutputConfig::from(opts);

    assert_eq!(config.dry_run(), true);
    assert_eq!(config.flatten(), true);
    assert_eq!(config.output_root(), &Some(PathBuf::from("output")));
    assert_eq!(config.overwrite(), true);
    assert_eq!(config.prefix(), &Some("prefix".to_string()));
    assert_eq!(config.suffix(), &Some("suffix".to_string()));
}

#[test]
fn quiet_option_sets_log_level_to_error() {
    let opts = VerbosityOptions {
        quiet: true,
        verbose: false,
    };
    assert_eq!(opts.log_level(), LevelFilter::Error);
}

#[test]
fn verbose_option_sets_log_level_to_debug() {
    let opts = VerbosityOptions {
        quiet: false,
        verbose: true,
    };
    assert_eq!(opts.log_level(), LevelFilter::Debug);
}

#[test]
fn default_log_level_is_info() {
    let opts = VerbosityOptions {
        quiet: false,
        verbose: false,
    };
    assert_eq!(opts.log_level(), LevelFilter::Info);
}

#[test]
fn quiet_wins_over_verbose() {
    assert_eq!(VerbosityOptions::new(true, true).log_level(), LevelFilter::Error);
}

#[test]
fn parse_cli() {
    let cli = Cli {
        verbosity: VerbosityOptions::new(false, false),
        input_opts: InputOptions {
            inputs: vec![PathBuf::from("input.jpg")],
            recursive: true,
            extensions: vec!["jpg".to_string()],
        },
        output_opts: OutputOptions {
            dry_run: false,
            output: Some(PathBuf::from("output")),
            flatten: true,
            prefix: Some("prefix".to_string()),
            suffix: Some("suffix".to_string()),
            overwrite: true,
        },
        frame_opts: FrameOptions {
            aspect_ratio: None,
            color: "white".to_string(),
            corner_radius: None,
            margins: Some("10px,20px".to_string()),
            position: Some("top-left".to_string()),
        },
    };
    assert_eq!(cli.verbosity().log_level(), LevelFilter::Info);
    let config = cli.into_config(PathBuf::from("/here")).unwrap();
    assert_eq!(config.input_config().extensions().as_slice(), &["jpg"]);
    assert_eq!(config.output_config().prefix(), &Some("prefix".to_string()));
    assert_eq!(
        config.frame_config().margins().values().as_slice(),
        &[ratio(1, 10), ratio(2, 10)]
    );
    assert_eq!(
        config.frame_config().position(),
        &RelativePosition {
            horizontal: HorizontalPosition::Left,
            vertical: VerticalPosition::Top,
        }
    );
}

#[test]
fn command_line_with_a_bad_option_is_refused() {
    let cli = Cli {
        verbosity: VerbosityOptions::new(false, false),
        input_opts: InputOptions { inputs: vec![], recursive: false, extensions: vec![] },
        output_opts: OutputOptions {
            dry_run: false,
            output: None,
            flatten: false,
            prefix: None,
            suffix: None,
            overwrite: false,
        },
        frame_opts: FrameOptions {
            aspect_ratio: Some("wide".to_string()),
            color: "white".to_string(),
            corner_radius: None,
            margins: None,
            position: None,
        },
    };
    assert_eq!(
        cli.into_config(PathBuf::from("/here")).unwrap_err().message(),
        "Invalid input: Invalid ratio: wide"
    );
}
