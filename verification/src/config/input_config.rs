//! Which pictures a run reads.
use std::path::PathBuf;
use vstd::prelude::*;

verus! {

/// The wishes for the input of a run.
#[derive(Clone, Debug)]
pub struct InputConfig {
    /// The file extensions to accept, without a leading point; all, where
    /// there is none.
    pub extensions: Vec<String>,
    /// The files and directories to read.
    pub inputs: Vec<PathBuf>,
    /// Directories are searched with all that lies below them.
    pub recursive: bool,
}

impl InputConfig {
    /// A configuration of the given parts.
    pub fn new(extensions: Vec<String>, inputs: Vec<PathBuf>, recursive: bool) -> (config:
        InputConfig)
        ensures
            config == (InputConfig { extensions, inputs, recursive }),
    {
        InputConfig { extensions, inputs, recursive }
    }

    /// The file extensions to accept.
    pub fn extensions(&self) -> (r: &Vec<String>)
        ensures
            *r == self.extensions,
    {
        &self.extensions
    }

    /// The files and directories to read.
    pub fn inputs(&self) -> (r: &Vec<PathBuf>)
        ensures
            *r == self.inputs,
    {
        &self.inputs
    }

    /// Whether directories are searched with all that lies below them.
    pub fn recursive(&self) -> (r: bool)
        ensures
            r == self.recursive,
    {
        self.recursive
    }
}

impl Default for InputConfig {
    /// No inputs, every extension, no recursion.
    fn default() -> (config: InputConfig)
        ensures
            config.extensions@.len() == 0,
            config.inputs@.len() == 0,
            !config.recursive,
    {
        InputConfig { extensions: Vec::new(), inputs: Vec::new(), recursive: false }
    }
}

} // verus!
