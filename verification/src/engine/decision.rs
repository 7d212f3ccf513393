//! The consensus decision taken on a validator.

use vstd::prelude::*;

use crate::engine::identity_validator::MATURITY_EPOCHS;
use crate::network_state::Validator;

verus! {

/// How the weight of a decision is computed from the validator's measures.
#[derive(Clone, Copy, Debug, PartialEq, Eq)]
pub enum WeightRule {
    /// Weight 0.
    Zero,
    /// Weight 0.2.
    Maturing,
    /// `trust / 100 * (1 - min(recovery_timer / 200, 1))`, clamped to [0.1, 0.6].
    RecoveryPenalty,
    /// `trust / 100 * 0.5`, clamped to [0.2, 0.7].
    PartialTrust,
    /// `trust / 100`, clamped to [0.6, 1].
    FullTrust,
}

/// A decision on a validator: ACCEPT, REJECT or WEIGHTED, with the rule for
/// its weight, a health status and a reason.
pub struct Decision {
    pub decision: String,
    pub weight: WeightRule,
    pub status: String,
    pub reason: String,
}

/// The decision gates in order: broken identity chain, immaturity, recent
/// instability (recovery timer), extreme drift, partial trust, full acceptance.
pub open spec fn decision_for(
    chain_valid: bool,
    epoch_age: u64,
    recovery_timer: u64,
    drift_extreme: bool,
    unstable: bool,
) -> (Seq<char>, WeightRule, Seq<char>, Seq<char>) {
    if !chain_valid {
        ("REJECT"@, WeightRule::Zero, "compromised"@, "identity chain invalid"@)
    } else if epoch_age < MATURITY_EPOCHS {
        ("WEIGHTED"@, WeightRule::Maturing, "recovering"@, "identity still maturing"@)
    } else if recovery_timer > 0 {
        (
            "WEIGHTED"@,
            WeightRule::RecoveryPenalty,
            "recovering"@,
            "recent instability (recovery phase)"@,
        )
    } else if drift_extreme {
        ("REJECT"@, WeightRule::Zero, "attacked"@, "extreme instability"@)
    } else if unstable {
        ("WEIGHTED"@, WeightRule::PartialTrust, "warning"@, "unstable identity"@)
    } else {
        ("ACCEPT"@, WeightRule::FullTrust, "healthy"@, "identity stable and trusted"@)
    }
}

/// Decides on validator `v`. `drift_extreme` is whether its drift is above
/// 120; `unstable` whether its drift is above 40 or its trust below 60.
pub fn evaluate_validator(v: &Validator, drift_extreme: bool, unstable: bool) -> (d: Decision)
    ensures
        (d.decision@, d.weight, d.status@, d.reason@) == decision_for(
            v.chain_valid,
            v.epoch_age,
            v.recovery_timer,
            drift_extreme,
            unstable,
        ),
        !v.chain_valid ==> d.decision@ == "REJECT"@ && d.weight == WeightRule::Zero && d.status@
            == "compromised"@ && d.reason@ == "identity chain invalid"@,
        d.weight == WeightRule::FullTrust <==> (v.chain_valid && v.epoch_age >= MATURITY_EPOCHS
            && v.recovery_timer == 0 && !drift_extreme && !unstable),
{
    if !v.chain_valid {
        return Decision {
            decision: String::from_str("REJECT"),
            weight: WeightRule::Zero,
            status: String::from_str("compromised"),
            reason: String::from_str("identity chain invalid"),
        };
    }
    if v.epoch_age < MATURITY_EPOCHS {
        return Decision {
            decision: String::from_str("WEIGHTED"),
            weight: WeightRule::Maturing,
            status: String::from_str("recovering"),
            reason: String::from_str("identity still maturing"),
        };
    }
    if v.recovery_timer > 0 {
        return Decision {
            decision: String::from_str("WEIGHTED"),
            weight: WeightRule::RecoveryPenalty,
            status: String::from_str("recovering"),
            reason: String::from_str("recent instability (recovery phase)"),
        };
    }
    if drift_extreme {
        return Decision {
            decision: String::from_str("REJECT"),
            weight: WeightRule::Zero,
            status: String::from_str("attacked"),
            reason: String::from_str("extreme instability"),
        };
    }
    if unstable {
        return Decision {
            decision: String::from_str("WEIGHTED"),
            weight: WeightRule::PartialTrust,
            status: String::from_str("warning"),
            reason: String::from_str("unstable identity"),
        };
    }
    Decision {
        decision: String::from_str("ACCEPT"),
        weight: WeightRule::FullTrust,
        status: String::from_str("healthy"),
        reason: String::from_str("identity stable and trusted"),
    }
}

/// A validator whose identity chain is invalid is always rejected with
/// weight zero as compromised, whatever its age, recovery timer and
/// measures; full trust is given only to a mature, stable validator with a
/// valid chain and no recent instability.
pub proof fn lemma_decision_gates(
    chain_valid: bool,
    epoch_age: u64,
    recovery_timer: u64,
    drift_extreme: bool,
    unstable: bool,
)
    ensures
        !chain_valid ==> decision_for(chain_valid, epoch_age, recovery_timer, drift_extreme, unstable)
            == ("REJECT"@, WeightRule::Zero, "compromised"@, "identity chain invalid"@),
        decision_for(chain_valid, epoch_age, recovery_timer, drift_extreme, unstable).1
            == WeightRule::FullTrust <==> (chain_valid && epoch_age >= MATURITY_EPOCHS
            && recovery_timer == 0 && !drift_extreme && !unstable),
{
}

} // verus!
