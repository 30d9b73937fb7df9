//! How much a run says.
use vstd::prelude::*;

verus! {

/// The least important kind of message that is still shown.
#[derive(Clone, Copy, Debug, PartialEq, Eq, Structural)]
pub enum LevelFilter {
    Off,
    Error,
    Warn,
    Info,
    Debug,
    Trace,
}

/// The two switches for the amount of output. At most one is on.
#[derive(Clone, Copy, Debug, PartialEq, Eq, Structural)]
pub struct VerbosityOptions {
    /// Say more.
    pub verbose: bool,
    /// Say nothing but errors.
    pub quiet: bool,
}

impl VerbosityOptions {
    /// The switches as given.
    pub fn new(verbose: bool, quiet: bool) -> (options: VerbosityOptions)
        ensures
            options == (VerbosityOptions { verbose, quiet }),
    {
        VerbosityOptions { verbose, quiet }
    }

    /// The messages to show: errors only when quiet, down to debugging
    /// when verbose, else down to information. Quiet wins.
    pub fn log_level(&self) -> (level: LevelFilter)
        ensures
            level == if self.quiet {
                LevelFilter::Error
            } else if self.verbose {
                LevelFilter::Debug
            } else {
                LevelFilter::Info
            },
    {
        if self.quiet {
            LevelFilter::Error
        } else if self.verbose {
            LevelFilter::Debug
        } else {
            LevelFilter::Info
        }
    }
}

} // verus!
