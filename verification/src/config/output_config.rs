//! Where and how the framed pictures are written.
use std::path::PathBuf;
use vstd::prelude::*;

verus! {

/// The wishes for the output of a run.
#[derive(Clone, Debug)]
pub struct OutputConfig {
    /// Nothing is to be written.
    pub dry_run: bool,
    /// All output goes into one directory, whatever directory a picture
    /// was found in.
    pub flatten: bool,
    /// The directory for the output, if it is not that of each picture.
    pub output_root: Option<PathBuf>,
    /// Files that exist may be replaced.
    pub overwrite: bool,
    /// What the name of each output file starts with.
    pub prefix: Option<String>,
    /// What the name of each output file ends with, before its extension.
    pub suffix: Option<String>,
}

impl OutputConfig {
    /// A configuration of the given parts.
    pub fn new(
        dry_run: bool,
        flatten: bool,
        output_root: Option<PathBuf>,
        overwrite: bool,
        prefix: Option<String>,
        suffix: Option<String>,
    ) -> (config: OutputConfig)
        ensures
            config == (OutputConfig { dry_run, flatten, output_root, overwrite, prefix, suffix }),
    {
        OutputConfig { dry_run, flatten, output_root, overwrite, prefix, suffix }
    }

    /// Whether nothing is to be written.
    pub fn dry_run(&self) -> (r: bool)
        ensures
            r == self.dry_run,
    {
        self.dry_run
    }

    /// Whether all output goes into one directory.
    pub fn flatten(&self) -> (r: bool)
        ensures
            r == self.flatten,
    {
        self.flatten
    }

    /// The directory for the output, if it is not that of each picture.
    pub fn output_root(&self) -> (r: &Option<PathBuf>)
        ensures
            *r == self.output_root,
    {
        &self.output_root
    }

    /// Whether files that exist may be replaced.
    pub fn overwrite(&self) -> (r: bool)
        ensures
            r == self.overwrite,
    {
        self.overwrite
    }

    /// What the name of each output file starts with.
    pub fn prefix(&self) -> (r: &Option<String>)
        ensures
            *r == self.prefix,
    {
        &self.prefix
    }

    /// What the name of each output file ends with, before its extension.
    pub fn suffix(&self) -> (r: &Option<String>)
        ensures
            *r == self.suffix,
    {
        &self.suffix
    }
}

impl Default for OutputConfig {
    /// Output beside each picture, under the picture's own name, nothing
    /// replaced.
    fn default() -> (config: OutputConfig)
        ensures
            config == (OutputConfig {
                dry_run: false,
                flatten: false,
                output_root: None,
                overwrite: false,
                prefix: None,
                suffix: None,
            }),
    {
        OutputConfig {
            dry_run: false,
            flatten: false,
            output_root: None,
            overwrite: false,
            prefix: None,
            suffix: None,
        }
    }
}

} // verus!
