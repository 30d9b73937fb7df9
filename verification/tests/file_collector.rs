use oliframe::config::{InputConfig, OutputConfig};
use oliframe::file_collector::walker::{is_hidden, max_depth};
use oliframe::file_collector::{authorize_overwrite, match_extensions, FileCollector, FilePair};
use std::path::PathBuf;

#[test]
fn build_paths() {
    let base_path = PathBuf::from("/base");
    let input_path = PathBuf::from("/base/input/file.txt");
    let output_config = OutputConfig::default();
    let file_pair = FilePair::build(&base_path, input_path.clone(), &output_config);
    assert_eq!(file_pair.input_path, input_path);
    assert_eq!(file_pair.output_path, input_path);

    let output_config = OutputConfig::new(
        false,
        false,
        Some(PathBuf::from("/output")),
        false,
        Some("prefix".to_string()),
        Some("suffix".to_string()),
    );
    let file_pair = FilePair::build(&base_path, input_path.clone(), &output_config);
    assert_eq!(file_pair.input_path, input_path);
    assert_eq!(
        file_pair.output_path,
        PathBuf::from("/output/input/prefixfilesuffix.txt")
    );

    let output_config = OutputConfig::new(
        false,
        true,
        Some(PathBuf::from("/output")),
        false,
        Some("prefix".to_string()),
        Some("suffix".to_string()),
    );
    let file_pair = FilePair::build(&base_path, input_path.clone(), &output_config);
    assert_eq!(file_pair.input_path, input_path);
    assert_eq!(
        file_pair.output_path,
        PathBuf::from("/output/prefixfilesuffix.txt")
    );
}

#[test]
fn pair_into_parts() {
    let input_path = PathBuf::from("/base/input/file.txt");
    let output_path = PathBuf::from("/output/input/file.txt");
    let file_pair = FilePair {
        input_path,
        output_path,
    };
    let (input, output) = file_pair.into_parts();
    assert_eq!(input, PathBuf::from("/base/input/file.txt"));
    assert_eq!(output, PathBuf::from("/output/input/file.txt"));
}

#[test]
fn pairs_keep_their_paths() {
    let pair = FilePair::new(PathBuf::from("a.png"), PathBuf::from("b.png"));
    assert_eq!(pair.input_path(), &PathBuf::from("a.png"));
    assert_eq!(pair.output_path(), &PathBuf::from("b.png"));
}

#[test]
fn output_names_without_extension_or_affixes() {
    let base = PathBuf::from("/base");
    let beside = OutputConfig::new(false, false, None, false, None, Some("_framed".to_string()));
    let pair = FilePair::build(&base, PathBuf::from("/base/dir/picture"), &beside);
    assert_eq!(pair.output_path, PathBuf::from("/base/dir/picture_framed"));
    let pair = FilePair::build(&base, PathBuf::from("/base/a.tar.gz"), &beside);
    assert_eq!(pair.output_path, PathBuf::from("/base/a.tar_framed.gz"));
    let prefixed = OutputConfig::new(
        false,
        false,
        Some(PathBuf::from("out")),
        false,
        Some("new-".to_string()),
        None,
    );
    let pair = FilePair::build(&base, PathBuf::from("/base/x/y/z.jpeg"), &prefixed);
    assert_eq!(pair.output_path, PathBuf::from("out/x/y/new-z.jpeg"));
    let pair = FilePair::build(&base, PathBuf::from("/base/.hidden"), &prefixed);
    assert_eq!(pair.output_path, PathBuf::from("out/new-.hidden"));
}

#[test]
fn no_pair_for_a_path_outside_the_base_or_without_a_name() {
    let config = OutputConfig::default();
    let outside = FilePair::try_build(&PathBuf::from("/base"), PathBuf::from("/other/a.png"), &config);
    assert_eq!(outside.unwrap_err(), PathBuf::from("/other/a.png"));
    let nameless = FilePair::try_build(&PathBuf::from("/base"), PathBuf::from("/base/.."), &config);
    assert_eq!(nameless.unwrap_err(), PathBuf::from("/base/.."));
    let fine = FilePair::try_build(&PathBuf::from("/base"), PathBuf::from("/base/a.png"), &config);
    assert_eq!(fine.unwrap().output_path, PathBuf::from("/base/a.png"));
}

#[test]
fn extensions_are_matched_exactly() {
    let wanted = vec!["jpg".to_string(), "png".to_string()];
    assert!(match_extensions(&PathBuf::from("a/b.jpg"), &wanted));
    assert!(match_extensions(&PathBuf::from("a/b.png"), &wanted));
    assert!(!match_extensions(&PathBuf::from("a/b.JPG"), &wanted));
    assert!(!match_extensions(&PathBuf::from("a/b.jpeg"), &wanted));
    assert!(!match_extensions(&PathBuf::from("a/jpg"), &wanted));
    assert!(!match_extensions(&PathBuf::from("a/b"), &wanted));
    assert!(match_extensions(&PathBuf::from("a/b"), &vec![]));
    assert!(match_extensions(&PathBuf::from("a/b.txt"), &vec![]));
}

#[test]
fn files_are_replaced_only_with_leave() {
    assert!(authorize_overwrite(false, false));
    assert!(authorize_overwrite(false, true));
    assert!(authorize_overwrite(true, true));
    assert!(!authorize_overwrite(true, false));
}

#[test]
fn names_with_a_leading_point_are_hidden() {
    assert!(is_hidden(Some(".im_hidden")));
    assert!(is_hidden(Some(".")));
    assert!(!is_hidden(Some("file1.txt")));
    assert!(!is_hidden(Some("")));
    assert!(!is_hidden(None));
    assert_eq!(max_depth(true), usize::MAX);
    assert_eq!(max_depth(false), 1);
}

#[test]
fn the_collector_keeps_what_it_accepts() {
    let input_config = InputConfig::new(vec!["jpg".to_string()], vec![PathBuf::from("/base")], false);
    let output_config =
        OutputConfig::new(false, false, Some(PathBuf::from("/output")), false, None, None);
    let base = PathBuf::from("/base");
    let mut collector = FileCollector::new();
    assert_eq!(collector.len(), 0);

    let text = FileCollector::candidate(&base, PathBuf::from("/base/a.txt"), &input_config, &output_config);
    assert!(text.is_none());
    let outside = FileCollector::candidate(&base, PathBuf::from("/else/a.jpg"), &input_config, &output_config);
    assert!(outside.is_none());

    let first = FileCollector::candidate(&base, PathBuf::from("/base/a.jpg"), &input_config, &output_config).unwrap();
    assert_eq!(first.output_path, PathBuf::from("/output/a.jpg"));
    assert!(collector.accept(first, false, false));
    let second = FileCollector::candidate(&base, PathBuf::from("/base/b.jpg"), &input_config, &output_config).unwrap();
    assert!(!collector.accept(second, true, false));
    let third = FileCollector::candidate(&base, PathBuf::from("/base/c/d.jpg"), &input_config, &output_config).unwrap();
    assert!(collector.accept(third, true, true));

    assert_eq!(collector.len(), 2);
    assert_eq!(collector.files()[0].input_path, PathBuf::from("/base/a.jpg"));
    assert_eq!(collector.files()[1].output_path, PathBuf::from("/output/c/d.jpg"));
    assert_eq!(collector.into_files().len(), 2);
}

#[test]
fn configurations_hold_what_they_are_given() {
    let input = InputConfig::new(vec!["png".to_string()], vec![PathBuf::from("x")], true);
    assert_eq!(input.extensions().as_slice(), &["png"]);
    assert_eq!(input.inputs().as_slice(), &[PathBuf::from("x")]);
    assert!(input.recursive());
    let default = InputConfig::default();
    assert!(default.extensions().is_empty() && default.inputs().is_empty() && !default.recursive());
    let output = OutputConfig::default();
    assert!(!output.dry_run() && !output.flatten() && !output.overwrite());
    assert!(output.output_root().is_none() && output.prefix().is_none() && output.suffix().is_none());
}
