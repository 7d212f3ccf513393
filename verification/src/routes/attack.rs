//! Attack simulation requests.

use vstd::prelude::*;

verus! {

/// A request to attack validator `id`.
pub struct AttackRequest {
    pub id: u32,
}

} // verus!
