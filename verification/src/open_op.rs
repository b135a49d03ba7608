//! The open operation: resolving what the native open dialog returned.
//!
//! The host presents the dialog, restricted to the extensions of
//! [`crate::dialog::open_filter_extensions`], and passes the chosen path —
//! or `None` on dismissal — to [`resolve_open_choice`]. No file is read by
//! this operation either way.

use vstd::prelude::*;
use crate::error::FileError;

verus! {

/// The outcome of the open operation for a given dialog answer: a chosen
/// path is handed through unchanged, wrapped to signal presence, and a
/// dismissal becomes the `NoSelection` error.
pub open spec fn open_outcome(choice: Option<String>) -> Result<Option<String>, FileError> {
    match choice {
        Some(path) => Ok(Some(path)),
        None => Err(FileError::NoSelection),
    }
}

/// Resolves the open dialog's answer: the chosen path, or `NoSelection` if
/// the user cancelled.
pub fn resolve_open_choice(choice: Option<String>) -> (r: Result<Option<String>, FileError>)
    ensures
        r == open_outcome(choice),
{
    match choice {
        Some(path) => Ok(Some(path)),
        None => Err(FileError::NoSelection),
    }
}

} // verus!
