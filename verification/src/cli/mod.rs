//! The options of the command line, as plain values.
pub mod frame_options;
pub mod input_options;
pub mod output_options;
pub mod verbosity_options;

pub use frame_options::FrameOptions;
pub use input_options::InputOptions;
pub use output_options::OutputOptions;
pub use verbosity_options::{LevelFilter, VerbosityOptions};

use crate::cli::frame_options::outcome_of;
use crate::cli::input_options::without_leading_points;
use crate::cli::output_options::output_config_of;
use crate::config::{Config, FrameConfig, OutputConfig};
use crate::errors::OliframeError;
use std::path::PathBuf;
use vstd::prelude::*;

verus! {

/// All options of the command line.
#[derive(Debug)]
pub struct Cli {
    /// How much to say.
    pub verbosity: VerbosityOptions,
    /// What to read.
    pub input_opts: InputOptions,
    /// Where to write.
    pub output_opts: OutputOptions,
    /// How to frame.
    pub frame_opts: FrameOptions,
}

/// The part of the outcome of [`Cli::into_config`] that concerns the
/// framing options.
pub open spec fn frame_part(result: Result<Config, OliframeError>) -> Result<
    FrameConfig,
    OliframeError,
> {
    match result {
        Ok(config) => Ok(config.frame_config),
        Err(error) => Err(error),
    }
}

impl Cli {
    /// How much to say.
    pub fn verbosity(&self) -> (options: &VerbosityOptions)
        ensures
            *options == self.verbosity,
    {
        &self.verbosity
    }

    /// The configuration that the options stand for, with `current_dir` as
    /// the input where none is named; or the error of the first framing
    /// option that cannot be read.
    pub fn into_config(self, current_dir: PathBuf) -> (result: Result<Config, OliframeError>)
        ensures
            exists|parsed: Option<(u8, u8, u8, u8)>| #[trigger]
                outcome_of(self.frame_opts, parsed, frame_part(result)),
            result matches Ok(config) ==> {
                &&& config.output_config == output_config_of(self.output_opts)
                &&& config.input_config.recursive == self.input_opts.recursive
                &&& config.input_config.inputs@ == if self.input_opts.inputs@.len() == 0 {
                    seq![current_dir]
                } else {
                    self.input_opts.inputs@
                }
                &&& config.input_config.extensions@.len() == self.input_opts.extensions@.len()
                &&& forall|i: int|
                    0 <= i < self.input_opts.extensions@.len() ==> (
                    #[trigger] config.input_config.extensions@[i])@ == without_leading_points(
                        self.input_opts.extensions@[i]@,
                    )
            },
    {
        let input_config = self.input_opts.into_config(current_dir);
        let output_config = OutputConfig::from(self.output_opts);
        match FrameConfig::try_from(self.frame_opts) {
            Ok(frame_config) => Ok(Config::new(input_config, output_config, frame_config)),
            Err(error) => Err(error),
        }
    }
}

} // verus!
