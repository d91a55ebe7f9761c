//! The error taxonomy of the file-access pipeline and the window manager.

use vstd::prelude::*;

verus! {

/// Why a file request or a window operation failed.
///
/// `NotFound`: the path is missing or unresolvable (a canonicalization
/// failure counts as missing).  `UnsupportedType`: the extension is not on
/// the document allow-list.  `IoError`: the entry exists but reading it
/// failed; the payload carries the underlying detail.  `PreconditionError`:
/// a window operation needed another window that does not exist.
#[derive(Debug, Clone, PartialEq, Eq)]
pub enum FileError {
    NotFound,
    UnsupportedType,
    IoError(String),
    PreconditionError,
}

} // verus!
