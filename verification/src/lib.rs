//! A minimal native backend for a desktop application shell.
//!
//! Three independent operations are exposed to a UI layer: opening a native
//! file-selection dialog, reading a file's bytes from disk, and writing bytes
//! to disk via a save dialog. The host runtime performs the dialogs and the
//! filesystem calls; this library holds every decision in between — which
//! action follows which event, which error surfaces on which outcome, and the
//! exact text of each error — and proves those decisions against their
//! contracts.

pub mod data;
pub mod dialog;
pub mod error;
pub mod open_op;
pub mod read_op;
pub mod save_op;
