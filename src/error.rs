//! Why a lookup produced no answer.

use vstd::prelude::*;

verus! {

/// The ways a lookup fails. Finding nothing is not one of them.
#[derive(Debug, Clone, Copy, PartialEq, Eq, Structural)]
pub enum LookupError {
    /// The fetched page is not well-formed UTF-8 text.
    Decode,
}

} // verus!
