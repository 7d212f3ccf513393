use fluxlock::engine::decision::{evaluate_validator, WeightRule};
use fluxlock::engine::identity_validator::validate_identity_logic;
use fluxlock::network_state::NetworkState;
use fluxlock::state::KeyStore;

#[test]
fn validation_gates_in_order() {
    let r = validate_identity_logic(true, true, 0, false, true, false);
    assert!(!r.valid);
    assert_eq!(r.reason, "identity compromised");
    let r = validate_identity_logic(false, false, 500, false, false, true);
    assert!(!r.valid);
    assert_eq!(r.reason, "invalid identity chain");
    let r = validate_identity_logic(false, false, 119, true, false, true);
    assert!(!r.valid);
    assert_eq!(r.reason, "identity too new (maturing)");
    let r = validate_identity_logic(false, false, 120, true, false, false);
    assert!(!r.valid);
    assert_eq!(r.reason, "network has not accepted identity");
    let r = validate_identity_logic(true, true, 120, true, false, true);
    assert!(!r.valid);
    assert_eq!(r.reason, "unstable identity (high drift)");
    let r = validate_identity_logic(true, false, 120, true, false, true);
    assert!(r.valid);
    assert_eq!(r.reason, "recovering identity");
    let r = validate_identity_logic(false, false, 120, true, false, true);
    assert!(r.valid);
    assert_eq!(r.reason, "identity stable and verified");
}

fn genesis() -> NetworkState {
    let mut keys = KeyStore::new();
    NetworkState::new(&mut keys)
}

#[test]
fn decision_full_acceptance() {
    let state = genesis();
    let d = evaluate_validator(&state.validators[0], false, false);
    assert_eq!(d.decision, "ACCEPT");
    assert_eq!(d.weight, WeightRule::FullTrust);
    assert_eq!(d.status, "healthy");
    assert_eq!(d.reason, "identity stable and trusted");
}

#[test]
fn decision_gates() {
    let mut state = genesis();
    let d = evaluate_validator(&state.validators[0], false, true);
    assert_eq!((d.decision.as_str(), d.weight, d.status.as_str()), ("WEIGHTED", WeightRule::PartialTrust, "warning"));
    assert_eq!(d.reason, "unstable identity");
    let d = evaluate_validator(&state.validators[0], true, true);
    assert_eq!((d.decision.as_str(), d.weight, d.status.as_str()), ("REJECT", WeightRule::Zero, "attacked"));
    assert_eq!(d.reason, "extreme instability");
    state.validators[0].recovery_timer = 5;
    let d = evaluate_validator(&state.validators[0], true, true);
    assert_eq!((d.decision.as_str(), d.weight, d.status.as_str()), ("WEIGHTED", WeightRule::RecoveryPenalty, "recovering"));
    assert_eq!(d.reason, "recent instability (recovery phase)");
    state.validators[0].epoch_age = 119;
    let d = evaluate_validator(&state.validators[0], true, true);
    assert_eq!((d.decision.as_str(), d.weight, d.status.as_str()), ("WEIGHTED", WeightRule::Maturing, "recovering"));
    assert_eq!(d.reason, "identity still maturing");
    state.validators[0].chain_valid = false;
    let d = evaluate_validator(&state.validators[0], false, false);
    assert_eq!((d.decision.as_str(), d.weight, d.status.as_str()), ("REJECT", WeightRule::Zero, "compromised"));
    assert_eq!(d.reason, "identity chain invalid");
}
