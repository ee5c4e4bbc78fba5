//! The closed set of failures surfaced to the user interface.

use vstd::prelude::*;

verus! {

/// Coarse, platform-independent classification of a failed file read.
#[derive(Clone, Copy, Debug, PartialEq, Eq, Structural)]
pub enum IoErrorKind {
    NotFound,
    PermissionDenied,
    Other,
}

/// A failure of a fallible asynchronous operation. Failures are routed into
/// the editor state as values; none of them aborts the process.
#[derive(Clone, Copy, Debug, PartialEq, Eq, Structural)]
pub enum Error {
    /// The file picker was dismissed without a choice.
    DialogClosed,
    /// Reading the target path failed.
    IoFailure(IoErrorKind),
}

/// The description shown in the status bar for a failed read.
pub open spec fn kind_text(k: IoErrorKind) -> Seq<char> {
    match k {
        IoErrorKind::NotFound => "file not found"@,
        IoErrorKind::PermissionDenied => "permission denied"@,
        IoErrorKind::Other => "input/output error"@,
    }
}

impl IoErrorKind {
    /// Human-readable description of the failure.
    pub fn describe(&self) -> (s: String)
        ensures
            s@ == kind_text(*self),
    {
        match self {
            IoErrorKind::NotFound => "file not found".to_owned(),
            IoErrorKind::PermissionDenied => "permission denied".to_owned(),
            IoErrorKind::Other => "input/output error".to_owned(),
        }
    }
}

} // verus!
