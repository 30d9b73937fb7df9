//! The output options of the command line.
use crate::config::OutputConfig;
use std::path::PathBuf;
use vstd::prelude::*;

verus! {

/// The output options as the command line gives them.
#[derive(Debug)]
pub struct OutputOptions {
    /// Write nothing.
    pub dry_run: bool,
    /// The directory for the output.
    pub output: Option<PathBuf>,
    /// Put all output into one directory.
    pub flatten: bool,
    /// What the name of each output file starts with.
    pub prefix: Option<String>,
    /// What the name of each output file ends with, before its extension.
    pub suffix: Option<String>,
    /// Replace files that exist.
    pub overwrite: bool,
}

/// The configuration that the options `options` stand for.
pub open spec fn output_config_of(options: OutputOptions) -> OutputConfig {
    OutputConfig {
        dry_run: options.dry_run,
        flatten: options.flatten,
        output_root: options.output,
        overwrite: options.overwrite,
        prefix: options.prefix,
        suffix: options.suffix,
    }
}

impl From<OutputOptions> for OutputConfig {
    fn from(options: OutputOptions) -> (config: OutputConfig) {
        OutputConfig::new(
            options.dry_run,
            options.flatten,
            options.output,
            options.overwrite,
            options.prefix,
            options.suffix,
        )
    }
}

impl vstd::std_specs::convert::FromSpecImpl<OutputOptions> for OutputConfig {
    open spec fn obeys_from_spec() -> bool {
        true
    }

    open spec fn from_spec(options: OutputOptions) -> OutputConfig {
        output_config_of(options)
    }
}

} // verus!
