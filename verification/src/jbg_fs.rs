//! Errors of the filesystem helpers that drive the library from a working
//! directory.

use vstd::prelude::*;

verus! {

/// A failure while running a callback against the current working
/// directory: either the directory could not be determined, or the
/// callback itself failed; the message says which.
#[derive(Debug)]
pub enum JbgFsError {
    CwdError(String),
}

} // verus!
