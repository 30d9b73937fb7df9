//! The configuration of a run.
pub mod frame_config;
pub mod input_config;
pub mod output_config;

pub use frame_config::FrameConfig;
pub use input_config::InputConfig;
pub use output_config::OutputConfig;

use vstd::prelude::*;

verus! {

/// All that a run is told: what to read, where to write, how to frame.
#[derive(Debug)]
pub struct Config {
    /// What to read.
    pub input_config: InputConfig,
    /// Where to write.
    pub output_config: OutputConfig,
    /// How to frame.
    pub frame_config: FrameConfig,
}

impl Config {
    /// A configuration of the given parts.
    pub fn new(input_config: InputConfig, output_config: OutputConfig, frame_config: FrameConfig) -> (config:
        Config)
        ensures
            config == (Config { input_config, output_config, frame_config }),
    {
        Config { input_config, output_config, frame_config }
    }

    /// What to read.
    pub fn input_config(&self) -> (r: &InputConfig)
        ensures
            *r == self.input_config,
    {
        &self.input_config
    }

    /// Where to write.
    pub fn output_config(&self) -> (r: &OutputConfig)
        ensures
            *r == self.output_config,
    {
        &self.output_config
    }

    /// How to frame.
    pub fn frame_config(&self) -> (r: &FrameConfig)
        ensures
            *r == self.frame_config,
    {
        &self.frame_config
    }
}

} // verus!
