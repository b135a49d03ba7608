//! The value bundles that cross the boundary between the host and the logic.

use vstd::prelude::*;

verus! {

/// The bundle returned by a successful read: the path exactly as the caller
/// supplied it, and the full byte content found there at read time. It is
/// built fresh on every read and never mutated afterwards.
#[derive(Debug, PartialEq, Eq)]
pub struct FileData {
    pub path: String,
    pub contents: Vec<u8>,
}

/// A fully resolved write: the destination path and the exact bytes to put
/// there. The host performs it by writing `contents` to `path`, overwriting
/// any existing file.
#[derive(Debug, PartialEq, Eq)]
pub struct WriteRequest {
    pub path: String,
    pub contents: Vec<u8>,
}

} // verus!
