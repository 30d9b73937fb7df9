//! Which entries of a directory a walk passes over.
use crate::text::chars_of;
use vstd::prelude::*;

verus! {

/// The name starts with a point, which hides a file.
pub open spec fn hidden_name(name: Seq<char>) -> bool {
    name.len() > 0 && name[0] == '.'
}

/// Whether an entry of the given name is hidden. `None` stands for a name
/// that is not Unicode, which counts as not hidden.
pub fn is_hidden(file_name: Option<&str>) -> (hidden: bool)
    ensures
        hidden == (file_name matches Some(name) && hidden_name(name@)),
{
    match file_name {
        Some(name) => {
            let chars = chars_of(name);
            chars.len() > 0 && chars[0] == '.'
        },
        None => false,
    }
}

/// How deep a walk goes below its start: without bound if it is
/// recursive, else to the entries of the start itself.
pub fn max_depth(recursive: bool) -> (depth: usize)
    ensures
        depth == if recursive {
            usize::MAX
        } else {
            1usize
        },
{
    if recursive {
        usize::MAX
    } else {
        1
    }
}

} // verus!
