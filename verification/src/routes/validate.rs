//! Validation responses.

use vstd::prelude::*;

verus! {

/// Whether a reported identity state is valid, and why.
pub struct ValidationResult {
    pub valid: bool,
    pub reason: String,
}

} // verus!
