//! The input options of the command line.
use crate::config::InputConfig;
use crate::text::{chars_of, slice_of, string_of};
use std::path::PathBuf;
use vstd::prelude::*;

verus! {

/// The input options as the command line gives them.
#[derive(Debug)]
pub struct InputOptions {
    /// The files and directories to read; the current directory, where
    /// there is none.
    pub inputs: Vec<PathBuf>,
    /// Search directories with all that lies below them.
    pub recursive: bool,
    /// The file extensions to accept, with or without leading points.
    pub extensions: Vec<String>,
}

/// `s` without the points at its start.
pub open spec fn without_leading_points(s: Seq<char>) -> Seq<char>
    decreases s.len(),
{
    if s.len() > 0 && s[0] == '.' {
        without_leading_points(s.drop_first())
    } else {
        s
    }
}

proof fn lemma_without_leading_points(s: Seq<char>, i: int)
    requires
        0 <= i <= s.len(),
        forall|j: int| 0 <= j < i ==> s[j] == '.',
        i < s.len() ==> s[i] != '.',
    ensures
        without_leading_points(s) == s.skip(i),
    decreases i,
{
    if i == 0 {
        assert(s.skip(0) == s);
    } else {
        let rest = s.drop_first();
        assert forall|j: int| 0 <= j < i - 1 implies rest[j] == '.' by {
            assert(rest[j] == s[j + 1]);
        }
        lemma_without_leading_points(rest, i - 1);
        assert(rest.skip(i - 1) == s.skip(i));
    }
}

/// The extension `extension` without the points at its start.
pub fn strip_points(extension: &str) -> (stripped: String)
    ensures
        stripped@ == without_leading_points(extension@),
{
    let chars = chars_of(extension);
    let mut start: usize = 0;
    while start < chars.len() && chars[start] == '.'
        invariant
            start <= chars.len(),
            forall|j: int| 0 <= j < start ==> chars@[j] == '.',
        decreases chars.len() - start,
    {
        start += 1;
    }
    proof {
        lemma_without_leading_points(chars@, start as int);
        assert(chars@.subrange(start as int, chars@.len() as int) == chars@.skip(start as int));
    }
    string_of(&slice_of(&chars, start, chars.len()))
}

impl InputOptions {
    /// The files and directories to read.
    pub fn inputs(&self) -> (r: &Vec<PathBuf>)
        ensures
            *r == self.inputs,
    {
        &self.inputs
    }

    /// Whether directories are searched with all that lies below them.
    pub fn recursive(&self) -> (r: bool)
        ensures
            r == self.recursive,
    {
        self.recursive
    }

    /// The file extensions to accept.
    pub fn extensions(&self) -> (r: &Vec<String>)
        ensures
            *r == self.extensions,
    {
        &self.extensions
    }

    /// The configuration that the options stand for: the extensions lose
    /// their leading points, and where no input is named the directory
    /// `current_dir` is the one input.
    pub fn into_config(self, current_dir: PathBuf) -> (config: InputConfig)
        ensures
            config.recursive == self.recursive,
            config.inputs@ == if self.inputs@.len() == 0 {
                seq![current_dir]
            } else {
                self.inputs@
            },
            config.extensions@.len() == self.extensions@.len(),
            forall|i: int|
                0 <= i < self.extensions@.len() ==> (#[trigger] config.extensions@[i])@
                    == without_leading_points(self.extensions@[i]@),
    {
        let mut extensions: Vec<String> = Vec::new();
        let mut i: usize = 0;
        while i < self.extensions.len()
            invariant
                i <= self.extensions.len(),
                extensions@.len() == i,
                forall|j: int|
                    0 <= j < i ==> (#[trigger] extensions@[j])@ == without_leading_points(
                        self.extensions@[j]@,
                    ),
            decreases self.extensions.len() - i,
        {
            extensions.push(strip_points(self.extensions[i].as_str()));
            i += 1;
        }
        let inputs = if self.inputs.len() == 0 {
            let mut inputs: Vec<PathBuf> = Vec::new();
            inputs.push(current_dir);
            inputs
        } else {
            self.inputs
        };
        InputConfig::new(extensions, inputs, self.recursive)
    }
}

} // verus!
