//! Access decisions for validators.

use vstd::prelude::*;

use crate::engine::identity_validator::MATURITY_EPOCHS;
use crate::network_state::{first_with_id, no_validator, same_except, same_identity, NetworkState, Validator};

verus! {

/// A request for access by validator `id`.
pub struct AccessRequest {
    pub id: u32,
}

/// Which check decided an access request.
#[derive(Clone, Copy, Debug, PartialEq, Eq)]
pub enum AccessGate {
    /// No validator has the id.
    NotFound,
    /// Its identity chain is invalid (confidence 0).
    ChainInvalid,
    /// It is still maturing (confidence 0.2).
    Maturing,
    /// The network has not accepted it (half its confidence).
    NotAccepted,
    /// Access is granted (its confidence, clamped to [0, 1]).
    Granted,
}

/// The decision on an access request: whether it is allowed, which check
/// decided it, the reason, and the validator's status and age as reported.
pub struct AccessDecision {
    pub allowed: bool,
    pub gate: AccessGate,
    pub reason: String,
    pub status: String,
    pub epoch_age: u64,
}

/// The security gates in order: identity chain, maturity, network acceptance.
pub open spec fn gate_for(v: Validator) -> AccessGate {
    if !v.chain_valid {
        AccessGate::ChainInvalid
    } else if v.epoch_age < MATURITY_EPOCHS {
        AccessGate::Maturing
    } else if !v.network_accepted {
        AccessGate::NotAccepted
    } else {
        AccessGate::Granted
    }
}

/// The reason reported for each gate.
pub open spec fn access_reason(gate: AccessGate) -> Seq<char> {
    match gate {
        AccessGate::NotFound => "validator not found"@,
        AccessGate::ChainInvalid => "identity chain invalid"@,
        AccessGate::Maturing => "identity still maturing"@,
        AccessGate::NotAccepted => "network has not accepted identity"@,
        AccessGate::Granted => "access granted (consensus verified identity)"@,
    }
}

/// Decides an access request against the first validator with the
/// requested id.
pub fn access(state: &NetworkState, payload: &AccessRequest) -> (d: AccessDecision)
    ensures
        no_validator(state.validators@, payload.id) ==> d.gate == AccessGate::NotFound
            && d.status@ == "unknown"@ && d.epoch_age == 0,
        forall|j: int| #[trigger]
            first_with_id(state.validators@, payload.id, j) ==> d.gate == gate_for(
                state.validators@[j],
            ) && d.status == state.validators@[j].status && d.epoch_age
                == state.validators@[j].epoch_age,
        d.allowed == (d.gate == AccessGate::Granted),
        d.reason@ == access_reason(d.gate),
        forall|j: int| #[trigger]
            first_with_id(state.validators@, payload.id, j) ==> (d.allowed <==> (
            state.validators@[j].chain_valid && state.validators@[j].epoch_age >= MATURITY_EPOCHS
                && state.validators@[j].network_accepted)),
        no_validator(state.validators@, payload.id) ==> !d.allowed,
{
    let j = match state.find_validator(payload.id) {
        Some(j) => j,
        None => {
            return AccessDecision {
                allowed: false,
                gate: AccessGate::NotFound,
                reason: String::from_str("validator not found"),
                status: String::from_str("unknown"),
                epoch_age: 0,
            };
        },
    };
    let v = &state.validators[j];
    let status = v.status.clone();
    if !v.chain_valid {
        return AccessDecision {
            allowed: false,
            gate: AccessGate::ChainInvalid,
            reason: String::from_str("identity chain invalid"),
            status,
            epoch_age: v.epoch_age,
        };
    }
    if v.epoch_age < MATURITY_EPOCHS {
        return AccessDecision {
            allowed: false,
            gate: AccessGate::Maturing,
            reason: String::from_str("identity still maturing"),
            status,
            epoch_age: v.epoch_age,
        };
    }
    if !v.network_accepted {
        return AccessDecision {
            allowed: false,
            gate: AccessGate::NotAccepted,
            reason: String::from_str("network has not accepted identity"),
            status,
            epoch_age: v.epoch_age,
        };
    }
    AccessDecision {
        allowed: true,
        gate: AccessGate::Granted,
        reason: String::from_str("access granted (consensus verified identity)"),
        status,
        epoch_age: v.epoch_age,
    }
}

/// A breached validator is denied access: after a breach of the first
/// validator with id `id`, it is still the first with that id and its
/// access gate is the invalid chain.
pub proof fn lemma_breach_denies_access(before: Seq<Validator>, after: Seq<Validator>, id: u32, j: int)
    requires
        first_with_id(before, id, j),
        same_except(before, after, j),
        same_identity(before[j], after[j]),
        !after[j].chain_valid,
    ensures
        first_with_id(after, id, j),
        gate_for(after[j]) == AccessGate::ChainInvalid,
{
    assert forall|l: int| 0 <= l < j implies #[trigger] after[l].id != id by {
        assert(after[l] == before[l]);
    }
}

/// Access is granted exactly to a validator whose chain is valid, which is
/// mature and which the network accepted; nothing else about it (its status,
/// its lineage, its votes) changes which check decides.
pub proof fn lemma_access_checks(v: Validator, w: Validator)
    ensures
        gate_for(v) == AccessGate::Granted <==> (v.chain_valid && v.epoch_age >= MATURITY_EPOCHS
            && v.network_accepted),
        v.chain_valid == w.chain_valid && v.epoch_age == w.epoch_age && v.network_accepted
            == w.network_accepted ==> gate_for(v) == gate_for(w),
{
}

} // verus!
