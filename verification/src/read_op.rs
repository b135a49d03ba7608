//! The read operation: the existence decision, then folding the host's read
//! result into the path-plus-bytes bundle.
//!
//! The host makes the two OS calls — the existence check and the read — and
//! this module decides everything between them. The two calls are separate:
//! a file deleted after the check surfaces as `IoFailure` from
//! [`read_file_finish`], not as `NotFound`; that non-atomic window is kept
//! deliberately.

use vstd::prelude::*;
use crate::data::FileData;
use crate::error::{FileError, IoAction};

verus! {

/// The decision taken on the existence check: an existing entry directs the
/// host to read `path`, a missing one is rejected with `NotFound` — and no
/// read is directed.
pub open spec fn read_check_outcome(path: String, exists: bool) -> Result<String, FileError> {
    if exists {
        Ok(path)
    } else {
        Err(FileError::NotFound)
    }
}

/// What the read operation returns once the host has read the bytes, or
/// failed to: the bytes are bundled with the path unchanged, and an OS
/// failure becomes `IoFailure` carrying the OS detail as its cause.
pub open spec fn read_finish_outcome(path: String, read: Result<Vec<u8>, String>) -> Result<
    FileData,
    FileError,
> {
    match read {
        Ok(contents) => Ok((FileData { path, contents })),
        Err(detail) => Err((FileError::IoFailure { action: IoAction::Read, detail })),
    }
}

/// First step of the read operation. The host reports whether `path` names
/// an existing filesystem entry; only an `Ok` result directs it to go on and
/// read that path.
pub fn read_file_check(path: String, exists: bool) -> (r: Result<String, FileError>)
    ensures
        r == read_check_outcome(path, exists),
{
    if exists {
        Ok(path)
    } else {
        Err(FileError::NotFound)
    }
}

/// Second step of the read operation: folds the host's read result into the
/// `FileData` bundle, or surfaces the OS failure.
pub fn read_file_finish(path: String, read: Result<Vec<u8>, String>) -> (r: Result<
    FileData,
    FileError,
>)
    ensures
        r == read_finish_outcome(path, read),
{
    match read {
        Ok(contents) => Ok(FileData { path, contents }),
        Err(detail) => Err(FileError::IoFailure { action: IoAction::Read, detail }),
    }
}

/// A path with no filesystem entry is rejected with exactly the `NotFound`
/// error, and the outcome is never a directive to read: no read is performed
/// for such a path.
pub proof fn lemma_missing_file_rejected(path: String)
    ensures
        read_check_outcome(path, false) == Err::<String, FileError>(FileError::NotFound),
        read_check_outcome(path, false) !is Ok,
{
}

} // verus!
