//! The pictures of a run: which files to read and where to write.
pub mod file_pair;
pub mod paths;
pub mod walker;

pub use file_pair::FilePair;

use crate::config::{InputConfig, OutputConfig};
use crate::file_collector::file_pair::{can_build, output_path_of};
use crate::file_collector::paths::{extension_text, path_extension_text};
use std::path::PathBuf;
use vstd::prelude::*;

verus! {

/// The pairs of input and output paths that a run works on, in the order in
/// which they were accepted.
#[derive(Debug)]
pub struct FileCollector {
    files: Vec<FilePair>,
}

/// The extension `extension` of a file is among the wanted `extensions`;
/// every file is wanted where no extension is named.
pub open spec fn extension_wanted(extension: Option<Seq<char>>, extensions: Seq<String>) -> bool {
    extensions.len() == 0 || (extension matches Some(text) && exists|i: int|
        0 <= i < extensions.len() && (#[trigger] extensions[i])@ == text)
}

/// Whether the file at `entry` has one of the wanted extensions.
pub fn match_extensions(entry: &PathBuf, extensions: &Vec<String>) -> (wanted: bool)
    ensures
        wanted == extension_wanted(path_extension_text(*entry), extensions@),
{
    if extensions.len() == 0 {
        return true;
    }
    match extension_text(entry) {
        Some(extension) => {
            let mut i: usize = 0;
            while i < extensions.len()
                invariant
                    i <= extensions.len(),
                    path_extension_text(*entry) == Some(extension@),
                    forall|j: int| 0 <= j < i ==> (#[trigger] extensions@[j])@ != extension@,
                decreases extensions.len() - i,
            {
                if extensions[i] == extension {
                    assert(extensions@[i as int]@ == extension@);
                    return true;
                }
                i += 1;
            }
            false
        },
        None => false,
    }
}

/// Whether a file may be written to a path: where no file is `present` there, or
/// where replacing is allowed.
pub fn authorize_overwrite(present: bool, overwrite: bool) -> (allowed: bool)
    ensures
        allowed == (!present || overwrite),
{
    !present || overwrite
}

impl FileCollector {
    /// A collector without files.
    pub fn new() -> (collector: FileCollector)
        ensures
            collector@.len() == 0,
    {
        FileCollector { files: Vec::new() }
    }

    /// The pairs that were accepted, in their order.
    pub closed spec fn view(&self) -> Seq<FilePair> {
        self.files@
    }

    /// The number of files.
    pub fn len(&self) -> (count: usize)
        ensures
            count == self@.len(),
    {
        self.files.len()
    }

    /// The files.
    pub fn files(&self) -> (files: &Vec<FilePair>)
        ensures
            files@ == self@,
    {
        &self.files
    }

    /// The files, the collector being given up.
    pub fn into_files(self) -> (files: Vec<FilePair>)
        ensures
            files@ == self@,
    {
        self.files
    }

    /// The pair for a file that a walk from `base_path` found at
    /// `input_path`; `None` where its extension is not wanted or where no
    /// pair can be built for it.
    pub fn candidate(
        base_path: &PathBuf,
        input_path: PathBuf,
        input_config: &InputConfig,
        output_config: &OutputConfig,
    ) -> (pair: Option<FilePair>)
        ensures
            pair is Some <==> extension_wanted(
                path_extension_text(input_path),
                input_config.extensions@,
            ) && can_build(*base_path, input_path),
            pair matches Some(p) ==> p.input_path == input_path && p.output_path
                == output_path_of(*base_path, input_path, *output_config),
    {
        if !match_extensions(&input_path, input_config.extensions()) {
            return None;
        }
        match FilePair::try_build(base_path, input_path, output_config) {
            Ok(pair) => Some(pair),
            Err(_) => None,
        }
    }

    /// Accepts `pair` unless a file is `present` at its output path that may not
    /// be replaced. Tells whether the pair was accepted.
    pub fn accept(&mut self, pair: FilePair, present: bool, overwrite: bool) -> (accepted: bool)
        ensures
            accepted == (!present || overwrite),
            final(self)@ == if accepted {
                old(self)@.push(pair)
            } else {
                old(self)@
            },
    {
        if authorize_overwrite(present, overwrite) {
            self.files.push(pair);
            true
        } else {
            false
        }
    }
}

} // verus!
