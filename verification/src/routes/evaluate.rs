//! Evaluation requests.

use vstd::prelude::*;

verus! {

/// A request to evaluate validator `id`.
pub struct EvaluateRequest {
    pub id: u32,
}

} // verus!
