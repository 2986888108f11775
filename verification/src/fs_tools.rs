//! Errors of the working-directory helpers bundled with the configuration
//! tool.

use vstd::prelude::*;

verus! {

/// A failure of the working-directory helpers.
#[derive(Clone, Copy, Debug, PartialEq, Eq, Structural)]
pub enum FSToolsError {
    /// The current working directory could not be determined.
    CwdError,
}

} // verus!
