//! A picture to read and the place to write its framed copy to.
use crate::config::OutputConfig;
use crate::file_collector::paths::{
    append, extension, file_stem, join, path_append, path_extension, path_file_stem, path_from,
    path_join, path_of_text, path_strip_prefix, path_with_file_name, strip_prefix, with_file_name,
};
use std::path::PathBuf;
use vstd::prelude::*;

verus! {

/// The path of a picture and the path of its framed copy.
#[derive(Debug)]
pub struct FilePair {
    /// The path to read the picture from.
    pub input_path: PathBuf,
    /// The path to write the framed picture to.
    pub output_path: PathBuf,
}

/// The name of the output file for a picture with the given stem and
/// extension: prefix, stem and suffix, then a point and the extension if
/// there is one.
pub open spec fn output_name(
    stem: PathBuf,
    extension: Option<PathBuf>,
    prefix: Option<String>,
    suffix: Option<String>,
) -> PathBuf {
    let start = match prefix {
        Some(text) => path_of_text(text@),
        None => path_of_text(""@),
    };
    let stemmed = path_append(start, stem);
    let ended = match suffix {
        Some(text) => path_append(stemmed, path_of_text(text@)),
        None => stemmed,
    };
    match extension {
        Some(extension) => path_append(path_append(ended, path_of_text("."@)), extension),
        None => ended,
    }
}

/// The path of the output file named `name` for the picture at `input_path`,
/// which lies at `relative_path` below the directory it was found from:
/// beside the picture where no output directory is given, else in that
/// directory, at once if the output is flattened and else at the picture's
/// relative place.
pub open spec fn output_place(
    output_config: OutputConfig,
    input_path: PathBuf,
    relative_path: PathBuf,
    name: PathBuf,
) -> PathBuf {
    match output_config.output_root {
        Some(root) => if output_config.flatten {
            path_join(root, name)
        } else {
            path_with_file_name(path_join(root, relative_path), name)
        },
        None => path_with_file_name(input_path, name),
    }
}

/// A pair can be built for the picture at `input_path` that was found from
/// `base_path`: the path starts with `base_path` and has a file name.
pub open spec fn can_build(base_path: PathBuf, input_path: PathBuf) -> bool {
    path_strip_prefix(input_path, base_path) is Some && path_file_stem(input_path) is Some
}

/// The output path for the picture at `input_path` that was found from
/// `base_path`.
pub open spec fn output_path_of(
    base_path: PathBuf,
    input_path: PathBuf,
    output_config: OutputConfig,
) -> PathBuf {
    output_place(
        output_config,
        input_path,
        path_strip_prefix(input_path, base_path)->0,
        output_name(
            path_file_stem(input_path)->0,
            path_extension(input_path),
            output_config.prefix,
            output_config.suffix,
        ),
    )
}

/// The name of the output file for a picture with the given stem, at the
/// given path.
fn filename(stem: &PathBuf, input_path: &PathBuf, output_config: &OutputConfig) -> (name: PathBuf)
    ensures
        name == output_name(
            *stem,
            path_extension(*input_path),
            output_config.prefix,
            output_config.suffix,
        ),
{
    let start = match output_config.prefix() {
        Some(prefix) => path_from(prefix.as_str()),
        None => path_from(""),
    };
    let stemmed = append(start, stem);
    let ended = match output_config.suffix() {
        Some(suffix) => append(stemmed, &path_from(suffix.as_str())),
        None => stemmed,
    };
    match extension(input_path) {
        Some(extension) => append(append(ended, &path_from(".")), &extension),
        None => ended,
    }
}

/// The path of the output file named `name`.
fn output_path(
    output_config: &OutputConfig,
    input_path: &PathBuf,
    relative_path: &PathBuf,
    name: PathBuf,
) -> (path: PathBuf)
    ensures
        path == output_place(*output_config, *input_path, *relative_path, name),
{
    match output_config.output_root() {
        Some(root) => {
            if output_config.flatten() {
                join(root, &name)
            } else {
                with_file_name(&join(root, relative_path), &name)
            }
        },
        None => with_file_name(input_path, &name),
    }
}

impl FilePair {
    /// The pair for the picture at `input_path`, which was found from
    /// `base_path`.
    pub fn build(base_path: &PathBuf, input_path: PathBuf, output_config: &OutputConfig) -> (pair:
        FilePair)
        requires
            can_build(*base_path, input_path),
        ensures
            pair.input_path == input_path,
            pair.output_path == output_path_of(*base_path, input_path, *output_config),
    {
        match FilePair::try_build(base_path, input_path, output_config) {
            Ok(pair) => pair,
            Err(_) => unreached(),
        }
    }

    /// The pair for the picture at `input_path`, which was found from
    /// `base_path`; the path itself where no pair can be built for it.
    pub fn try_build(base_path: &PathBuf, input_path: PathBuf, output_config: &OutputConfig) -> (result:
        Result<FilePair, PathBuf>)
        ensures
            match result {
                Ok(pair) => {
                    &&& can_build(*base_path, input_path)
                    &&& pair.input_path == input_path
                    &&& pair.output_path == output_path_of(*base_path, input_path, *output_config)
                },
                Err(path) => !can_build(*base_path, input_path) && path == input_path,
            },
    {
        let relative_path = match strip_prefix(&input_path, base_path) {
            Some(relative_path) => relative_path,
            None => {
                return Err(input_path);
            },
        };
        let stem = match file_stem(&input_path) {
            Some(stem) => stem,
            None => {
                return Err(input_path);
            },
        };
        let name = filename(&stem, &input_path, output_config);
        let output_path = output_path(output_config, &input_path, &relative_path, name);
        Ok(FilePair { input_path, output_path })
    }

    /// The pair of the two given paths.
    pub fn new(input_path: PathBuf, output_path: PathBuf) -> (pair: FilePair)
        ensures
            pair.input_path == input_path,
            pair.output_path == output_path,
    {
        FilePair { input_path, output_path }
    }

    /// The two paths, the input path first.
    pub fn into_parts(self) -> (parts: (PathBuf, PathBuf))
        ensures
            parts.0 == self.input_path,
            parts.1 == self.output_path,
    {
        (self.input_path, self.output_path)
    }

    /// The path to read the picture from.
    pub fn input_path(&self) -> (path: &PathBuf)
        ensures
            *path == self.input_path,
    {
        &self.input_path
    }

    /// The path to write the framed picture to.
    pub fn output_path(&self) -> (path: &PathBuf)
        ensures
            *path == self.output_path,
    {
        &self.output_path
    }
}

} // verus!
