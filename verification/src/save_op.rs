//! The save operation: resolving the destination — given directly or chosen
//! through the native save dialog — and folding the host's write result into
//! the returned path.
//!
//! The optional destination is consumed as an explicit two-variant choice,
//! [`SaveStep`]: either the write is fully resolved at once, or the dialog
//! must be prompted first. The host performs the dialog (with the defaults of
//! [`crate::dialog::save_default_file_name`] and
//! [`crate::dialog::save_filter_extensions`]) and the write itself.

use vstd::prelude::*;
use crate::data::WriteRequest;
use crate::error::{FileError, IoAction};
use crate::read_op::read_finish_outcome;

verus! {

/// The first decision of the save operation: a supplied destination resolves
/// to a write at once, and only an absent one prompts the dialog.
#[derive(Debug, PartialEq, Eq)]
pub enum SaveStep {
    /// Write these bytes to this path now; no dialog is shown.
    Write(WriteRequest),
    /// Prompt the save dialog; the bytes wait for the chosen path.
    Prompt(Vec<u8>),
}

/// The step the save operation takes for a given optional destination.
pub open spec fn save_start_outcome(contents: Vec<u8>, default_path: Option<String>) -> SaveStep {
    match default_path {
        Some(path) => SaveStep::Write((WriteRequest { path, contents })),
        None => SaveStep::Prompt(contents),
    }
}

/// The outcome of the save dialog for the waiting bytes: a chosen path
/// resolves the write of exactly those bytes to it, and a dismissal becomes
/// the `NoSelection` error — and no write is directed.
pub open spec fn save_resolve_outcome(contents: Vec<u8>, choice: Option<String>) -> Result<
    WriteRequest,
    FileError,
> {
    match choice {
        Some(path) => Ok((WriteRequest { path, contents })),
        None => Err(FileError::NoSelection),
    }
}

/// What the save operation returns once the host has performed the write:
/// the resolved path on success, for the caller to display or log, and
/// `IoFailure` carrying the OS detail otherwise.
pub open spec fn save_finish_outcome(path: String, write: Result<(), String>) -> Result<
    String,
    FileError,
> {
    match write {
        Ok(_) => Ok(path),
        Err(detail) => Err((FileError::IoFailure { action: IoAction::Save, detail })),
    }
}

/// First step of the save operation: consume the optional destination as an
/// explicit choice between writing at once and prompting the dialog.
pub fn save_file_start(contents: Vec<u8>, default_path: Option<String>) -> (r: SaveStep)
    ensures
        r == save_start_outcome(contents, default_path),
{
    match default_path {
        Some(path) => SaveStep::Write(WriteRequest { path, contents }),
        None => SaveStep::Prompt(contents),
    }
}

/// Resolves the save dialog's answer for the waiting bytes: the write to
/// perform, or `NoSelection` if the user cancelled.
pub fn save_file_resolve(contents: Vec<u8>, choice: Option<String>) -> (r: Result<
    WriteRequest,
    FileError,
>)
    ensures
        r == save_resolve_outcome(contents, choice),
{
    match choice {
        Some(path) => Ok(WriteRequest { path, contents }),
        None => Err(FileError::NoSelection),
    }
}

/// Last step of the save operation: folds the host's write result into the
/// resolved path, or surfaces the OS failure.
pub fn save_file_finish(path: String, write: Result<(), String>) -> (r: Result<String, FileError>)
    ensures
        r == save_finish_outcome(path, write),
{
    match write {
        Ok(_) => Ok(path),
        Err(detail) => Err(FileError::IoFailure { action: IoAction::Save, detail }),
    }
}

/// Supplying a destination path bypasses the dialog entirely: the save
/// operation's first step is already the write of exactly the given bytes to
/// the given path, never a prompt.
pub proof fn lemma_default_path_bypasses_dialog(contents: Vec<u8>, path: String)
    ensures
        save_start_outcome(contents, Some(path)) == SaveStep::Write(
            (WriteRequest { path, contents }),
        ),
        save_start_outcome(contents, Some(path)) !is Prompt,
{
}

/// With no destination supplied, the save operation prompts the dialog with
/// the bytes intact; a chosen path `path` then directs the write of exactly
/// those bytes to `path`, and once the host reports the write done, the
/// returned path text equals `path`.
pub proof fn lemma_save_via_dialog(contents: Vec<u8>, path: String)
    ensures
        save_start_outcome(contents, None) == SaveStep::Prompt(contents),
        save_resolve_outcome(contents, Some(path)) == Ok::<WriteRequest, FileError>(
            (WriteRequest { path, contents }),
        ),
        save_finish_outcome(path, Ok::<(), String>(())) == Ok::<String, FileError>(path),
{
}

/// Round-trip identity: saving bytes to a destination path and then reading
/// that path back returns contents equal to those bytes. The library's part,
/// proved here, is that it passes both path and bytes through unchanged in
/// each direction: the resolved write carries exactly the given bytes, and a
/// read that hands back what the write stored bundles exactly those bytes
/// with that path.
pub proof fn lemma_save_then_read_round_trip(contents: Vec<u8>, path: String)
    ensures
        save_start_outcome(contents, Some(path)) matches SaveStep::Write(req) && req.path == path
            && req.contents == contents,
        read_finish_outcome(path, Ok(contents)) matches Ok(data) && data.path == path
            && data.contents == contents,
{
}

} // verus!
