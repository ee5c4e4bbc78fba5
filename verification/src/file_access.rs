//! Decision logic of the file-access service.
//!
//! The actual reading of a file and the file-picker dialog are asynchronous
//! work of the host; the functions here make every decision around them.
//! The host hands in what came back (the picker's answer, the outcome of a
//! read) and these functions turn it into the value the state machine takes.

use vstd::prelude::*;
use crate::error::Error;
use crate::error::IoErrorKind;

verus! {

/// Model of a finished read: the text on success, the classified failure
/// otherwise.
pub open spec fn read_view(read: Result<String, IoErrorKind>) -> Result<Seq<char>, IoErrorKind> {
    match read {
        Ok(content) => Ok(content@),
        Err(k) => Err(k),
    }
}

/// Model of a finished load: path and content on success, the error
/// otherwise.
pub open spec fn loaded_view(r: Result<(String, String), Error>) -> Result<
    (Seq<char>, Seq<char>),
    Error,
> {
    match r {
        Ok(pc) => Ok((pc.0@, pc.1@)),
        Err(e) => Err(e),
    }
}

/// What a load of `path` yields once the read of the file has finished:
/// the path together with the exact text that was read, or the read's
/// failure classified as an `IoFailure`.
pub open spec fn load_outcome_of(path: Seq<char>, read: Result<Seq<char>, IoErrorKind>) -> Result<
    (Seq<char>, Seq<char>),
    Error,
> {
    match read {
        Ok(content) => Ok((path, content)),
        Err(k) => Err(Error::IoFailure(k)),
    }
}

/// Completes a load of `path` from the outcome of the read: a successful
/// read yields `Ok((path, content))` with the content unchanged; a failed
/// read yields `Err(IoFailure(kind))`, and never anything else.
pub fn load_outcome(path: String, read: Result<String, IoErrorKind>) -> (r: Result<
    (String, String),
    Error,
>)
    ensures
        loaded_view(r) == load_outcome_of(path@, read_view(read)),
{
    match read {
        Ok(content) => Ok((path, content)),
        Err(k) => Err(Error::IoFailure(k)),
    }
}

/// What the picker's answer decides: a dismissed dialog is `DialogClosed`;
/// a chosen path is handed on, to be read.
pub open spec fn pick_outcome_of(selection: Option<Seq<char>>) -> Result<Seq<char>, Error> {
    match selection {
        Some(path) => Ok(path),
        None => Err(Error::DialogClosed),
    }
}

/// Decides the follow-up to the picker's answer. Dismissal yields
/// `Err(DialogClosed)` — no read is to be attempted — and a chosen path
/// comes back unchanged as the one to read.
pub fn pick_outcome(selection: Option<String>) -> (r: Result<String, Error>)
    ensures
        (match r {
            Ok(path) => Ok(path@),
            Err(e) => Err(e),
        }) == pick_outcome_of(
            match selection {
                Some(s) => Some(s@),
                None => None,
            },
        ),
{
    match selection {
        Some(path) => Ok(path),
        None => Err(Error::DialogClosed),
    }
}

/// The path of the document loaded once at startup, relative to the host
/// program's own source location.
pub open spec fn default_path_text() -> Seq<char> {
    "src/main.rs"@
}

/// The startup document's path. The host joins it to its own base directory
/// before reading.
pub fn default_path() -> (p: String)
    ensures
        p@ == default_path_text(),
{
    "src/main.rs".to_owned()
}

/// A dismissed picker yields `DialogClosed`, and asks for no read at all.
pub proof fn dismissed_picker_reads_nothing()
    ensures
        pick_outcome_of(None) == Err::<Seq<char>, Error>(Error::DialogClosed),
{
}

} // verus!
