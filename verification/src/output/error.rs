//! The failures a sink can report while it is prepared, written to, or torn
//! down. They are logged by the caller and never abort more than the write
//! at hand.

use vstd::prelude::*;
use vstd::string::*;

verus! {

/// Which stage of a sink's life failed, with the sink's name.
#[derive(Debug, Clone, Eq, PartialEq)]
pub enum OutputErrorKind {
    PrepareError(String),
    WriteError(String),
    CleanupError(String),
}

/// A sink failure, with an optional message from the underlying cause.
#[derive(Debug, Clone, Eq, PartialEq)]
pub struct OutputError {
    pub kind: OutputErrorKind,
    pub cause: Option<String>,
}

impl OutputError {
    /// A human-readable description of the error.
    pub fn describe(&self) -> (r: String)
        ensures
            (match self.kind {
                OutputErrorKind::PrepareError(s) => r@ == "failed to prepare output "@ + s@,
                OutputErrorKind::WriteError(s) => r@ == "failed writing values to output "@ + s@,
                OutputErrorKind::CleanupError(s) => r@ == "cleanup of output "@ + s@
                    + " returned an error"@,
            }),
    {
        match &self.kind {
            OutputErrorKind::PrepareError(s) => String::from_str(
                "failed to prepare output ",
            ).concat(s.as_str()),
            OutputErrorKind::WriteError(s) => String::from_str(
                "failed writing values to output ",
            ).concat(s.as_str()),
            OutputErrorKind::CleanupError(s) => String::from_str("cleanup of output ").concat(
                s.as_str(),
            ).concat(" returned an error"),
        }
    }
}

} // verus!
