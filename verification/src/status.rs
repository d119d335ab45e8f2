//! The failures that a call can end with.

use vstd::prelude::*;

verus! {

/// Why a call failed.
#[derive(Clone, Copy, Debug, PartialEq, Eq, Structural)]
pub enum CallError {
    /// The method identifier names no method of this endpoint.
    Unimplemented,
    /// The call could not be served as it was handed over.
    Internal,
}

} // verus!
