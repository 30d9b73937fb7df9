//! What can go wrong while framing pictures.
use std::path::PathBuf;
use vstd::prelude::*;
use vstd::string::*;

verus! {

#[verifier::external_type_specification]
#[verifier::external_body]
pub struct ExPathBuf(PathBuf);

/// The text that a path is shown as.
pub uninterp spec fn path_text(path: PathBuf) -> Seq<char>;

/// The text that `path` is shown as to a user.
///
/// Trusted: `Path::display` of std, whose result is written out here. The
/// text depends on the path alone; nothing more is claimed of it.
#[verifier::external_body]
pub(crate) fn display_path(path: &PathBuf) -> (text: String)
    ensures
        text@ == path_text(*path),
{
    format!("{}", path.display())
}

/// The errors of the library.
#[derive(Debug, PartialEq)]
pub enum OliframeError {
    /// A picture could not be read or decoded.
    ImageUnreadable(PathBuf),
    /// The user's input was not valid.
    InvalidInput(String),
    /// A picture could not be saved.
    SaveError(PathBuf, String),
}

impl OliframeError {
    /// The message that describes the error.
    pub open spec fn message_text(self) -> Seq<char> {
        match self {
            OliframeError::ImageUnreadable(path) => "Unable to open image file at: "@ + path_text(
                path,
            ),
            OliframeError::InvalidInput(detail) => "Invalid input: "@ + detail@,
            OliframeError::SaveError(path, cause) => "Unable to save image: "@ + path_text(path)
                + ". "@ + cause@,
        }
    }

    /// The message that describes the error.
    pub fn message(&self) -> (text: String)
        ensures
            text@ == self.message_text(),
    {
        match self {
            OliframeError::ImageUnreadable(path) => {
                let shown = display_path(path);
                String::from_str("Unable to open image file at: ").concat(shown.as_str())
            },
            OliframeError::InvalidInput(detail) => {
                String::from_str("Invalid input: ").concat(detail.as_str())
            },
            OliframeError::SaveError(path, cause) => {
                let shown = display_path(path);
                String::from_str("Unable to save image: ").concat(shown.as_str()).concat(
                    ". ",
                ).concat(cause.as_str())
            },
        }
    }
}

} // verus!
