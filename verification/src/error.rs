//! The error taxonomy of the backend and the exact text each error surfaces.

use vstd::prelude::*;
use vstd::string::StringExecFns;

verus! {

/// Which file operation an OS-level failure came from; it selects the prefix
/// of the rendered message.
#[derive(Clone, Copy, Debug, PartialEq, Eq, Structural)]
pub enum IoAction {
    Read,
    Save,
}

/// Every failure an operation can surface: a cancelled dialog, a missing file
/// at read time, or an OS-level I/O failure. The OS detail is kept as a nested
/// cause rather than pre-formatted text, so callers retain the structure.
#[derive(Debug, PartialEq, Eq)]
pub enum FileError {
    /// The user dismissed a dialog without choosing a path.
    NoSelection,
    /// The path named no filesystem entry when a read was requested.
    NotFound,
    /// The OS reported a failure; `detail` is its own description of it.
    IoFailure { action: IoAction, detail: String },
}

/// The message shown for a cancelled dialog.
pub open spec fn no_selection_text() -> Seq<char> {
    "No file selected"@
}

/// The message shown for a read of a path with no filesystem entry.
pub open spec fn not_found_text() -> Seq<char> {
    "File does not exist"@
}

/// The prefix of a read failure message; the OS detail follows it.
pub open spec fn read_failure_prefix() -> Seq<char> {
    "Failed to read file: "@
}

/// The prefix of a save failure message; the OS detail follows it.
pub open spec fn save_failure_prefix() -> Seq<char> {
    "Failed to save file: "@
}

/// The plain text that an error surfaces to the UI.
pub open spec fn error_text(e: FileError) -> Seq<char> {
    match e {
        FileError::NoSelection => no_selection_text(),
        FileError::NotFound => not_found_text(),
        FileError::IoFailure { action, detail } => match action {
            IoAction::Read => read_failure_prefix() + detail@,
            IoAction::Save => save_failure_prefix() + detail@,
        },
    }
}

impl FileError {
    /// Renders the error as the descriptive text handed verbatim to the UI.
    pub fn message(&self) -> (r: String)
        ensures
            r@ == error_text(*self),
    {
        match self {
            FileError::NoSelection => String::from_str("No file selected"),
            FileError::NotFound => String::from_str("File does not exist"),
            FileError::IoFailure { action, detail } => {
                let prefix: &str = match action {
                    IoAction::Read => "Failed to read file: ",
                    IoAction::Save => "Failed to save file: ",
                };
                String::from_str(prefix).concat(detail.as_str())
            },
        }
    }
}

} // verus!
