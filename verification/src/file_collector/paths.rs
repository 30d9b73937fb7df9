//! The operations of std on paths that the library uses, each with a name
//! for its result.
use std::path::PathBuf;
use vstd::prelude::*;

verus! {

/// What is left of `path` once the leading `base` is taken off; `None` where
/// `path` does not start with `base`.
pub uninterp spec fn path_strip_prefix(path: PathBuf, base: PathBuf) -> Option<PathBuf>;

/// The file name of `path` without its extension; `None` where `path` has no
/// file name.
pub uninterp spec fn path_file_stem(path: PathBuf) -> Option<PathBuf>;

/// The extension of the file name of `path`; `None` where it has none.
pub uninterp spec fn path_extension(path: PathBuf) -> Option<PathBuf>;

/// The extension of the file name of `path` as text; `None` where it has
/// none or where it is not Unicode.
pub uninterp spec fn path_extension_text(path: PathBuf) -> Option<Seq<char>>;

/// `path` with `tail` adjoined.
pub uninterp spec fn path_join(path: PathBuf, tail: PathBuf) -> PathBuf;

/// `path` with its file name replaced by `name`.
pub uninterp spec fn path_with_file_name(path: PathBuf, name: PathBuf) -> PathBuf;

/// The path that the text `text` spells.
pub uninterp spec fn path_of_text(text: Seq<char>) -> PathBuf;

/// The path whose text is that of `path` followed by that of `more`, with
/// nothing between them.
pub uninterp spec fn path_append(path: PathBuf, more: PathBuf) -> PathBuf;

/// Trusted: `Path::strip_prefix` of std, which returns the path that, joined
/// onto `base`, yields `path`, and fails where `base` is no prefix of `path`.
#[verifier::external_body]
pub(crate) fn strip_prefix(path: &PathBuf, base: &PathBuf) -> (rest: Option<PathBuf>)
    ensures
        rest == path_strip_prefix(*path, *base),
{
    path.strip_prefix(base).ok().map(|rest| rest.to_path_buf())
}

/// Trusted: `Path::file_stem` of std, the file name without its extension.
#[verifier::external_body]
pub(crate) fn file_stem(path: &PathBuf) -> (stem: Option<PathBuf>)
    ensures
        stem == path_file_stem(*path),
{
    path.file_stem().map(PathBuf::from)
}

/// Trusted: `Path::extension` of std, the extension of the file name.
#[verifier::external_body]
pub(crate) fn extension(path: &PathBuf) -> (extension: Option<PathBuf>)
    ensures
        extension == path_extension(*path),
{
    path.extension().map(PathBuf::from)
}

/// Trusted: `Path::extension` of std, its result turned to text where it is
/// Unicode.
#[verifier::external_body]
pub(crate) fn extension_text(path: &PathBuf) -> (extension: Option<String>)
    ensures
        extension is None <==> path_extension_text(*path) is None,
        extension matches Some(text) ==> text@ == path_extension_text(*path)->0,
{
    path.extension().and_then(|extension| extension.to_str()).map(|text| text.to_string())
}

/// Trusted: `Path::join` of std, which adjoins `tail` to `path`.
#[verifier::external_body]
pub(crate) fn join(path: &PathBuf, tail: &PathBuf) -> (joined: PathBuf)
    ensures
        joined == path_join(*path, *tail),
{
    path.join(tail)
}

/// Trusted: `Path::with_file_name` of std, which gives a path like `path` but
/// with the given file name.
#[verifier::external_body]
pub(crate) fn with_file_name(path: &PathBuf, name: &PathBuf) -> (renamed: PathBuf)
    ensures
        renamed == path_with_file_name(*path, *name),
{
    path.with_file_name(name)
}

/// Trusted: `PathBuf::from` of std on a text.
#[verifier::external_body]
pub(crate) fn path_from(text: &str) -> (path: PathBuf)
    ensures
        path == path_of_text(text@),
{
    PathBuf::from(text)
}

/// Trusted: `OsString::push` of std, which extends the text of `path` by that
/// of `more`.
#[verifier::external_body]
pub(crate) fn append(path: PathBuf, more: &PathBuf) -> (longer: PathBuf)
    ensures
        longer == path_append(path, *more),
{
    let mut longer = path.into_os_string();
    longer.push(more);
    PathBuf::from(longer)
}

} // verus!
