use fluxlock::network_state::{Health, NetworkState, GENESIS_VALIDATORS};
use fluxlock::routes::access::{access, AccessGate, AccessRequest};
use fluxlock::state::KeyStore;

fn genesis() -> (NetworkState, KeyStore) {
    let mut keys = KeyStore::new();
    let state = NetworkState::new(&mut keys);
    (state, keys)
}

#[test]
fn genesis_network() {
    let (state, keys) = genesis();
    assert_eq!(state.validators.len(), GENESIS_VALIDATORS as usize);
    assert_eq!(state.global_epoch, 0);
    assert!(state.identities.identities.is_empty());
    for (i, v) in state.validators.iter().enumerate() {
        assert_eq!(v.id, i as u32);
        assert_eq!(v.epoch_age, 180);
        assert!(v.chain_valid && v.network_accepted && v.local_valid && v.global_valid);
        assert_eq!(v.recovery_timer, 0);
        assert_eq!((v.peer_votes_valid, v.peer_votes_invalid), (8, 1));
        assert_eq!(v.status, "healthy");
        assert!(v.identity_chain[0].signature.is_none());
        assert!(keys.contains(v.id));
    }
    assert!(!keys.contains(GENESIS_VALIDATORS));
}

#[test]
fn tick_ages_and_checks_health() {
    let (mut state, _keys) = genesis();
    let mut drift_high = vec![false; state.validators.len()];
    drift_high[3] = true;
    let report = state.tick(&drift_high);
    assert_eq!(state.global_epoch, 1);
    assert_eq!(report.validators.len(), 12);
    for (i, v) in state.validators.iter().enumerate() {
        assert_eq!(v.epoch_age, 181);
        assert!(v.chain_valid);
        if i == 3 {
            assert_eq!(report.validators[i], Health::Drifting);
            assert_eq!(v.status, "recovering");
        } else {
            assert_eq!(report.validators[i], Health::Steady);
            assert_eq!(v.status, "healthy");
        }
    }
    assert!(report.idle_identities.is_empty());
}

#[test]
fn tick_fractures_a_broken_lineage() {
    let (mut state, mut keys) = genesis();
    state.evolve_identity(&mut keys, 6);
    state.validators[6].identity_chain[1].signature = None;
    let drift_high = vec![false; state.validators.len()];
    let report = state.tick(&drift_high);
    assert_eq!(report.validators[6], Health::Fractured);
    let v = &state.validators[6];
    assert!(!v.chain_valid && !v.network_accepted && !v.local_valid && !v.global_valid);
    assert_eq!(v.status, "fractured");
}

#[test]
fn spike_attack_marks_recovering() {
    let (mut state, _keys) = genesis();
    state.spike_attack(2);
    assert_eq!(state.validators[2].status, "recovering");
    assert!(state.validators[2].chain_valid);
    assert_eq!(state.validators[3].status, "healthy");
    state.spike_attack(77);
    assert_eq!(state.validators.len(), 12);
}

#[test]
fn breach_then_access_is_denied() {
    let (mut state, _keys) = genesis();
    let d = access(&state, &AccessRequest { id: 5 });
    assert!(d.allowed);
    assert_eq!(d.gate, AccessGate::Granted);
    assert_eq!(d.reason, "access granted (consensus verified identity)");
    state.breach_attack(5);
    let v = &state.validators[5];
    assert!(!v.chain_valid && !v.network_accepted && !v.local_valid && !v.global_valid);
    assert_eq!(v.status, "breached");
    let d = access(&state, &AccessRequest { id: 5 });
    assert!(!d.allowed);
    assert_eq!(d.gate, AccessGate::ChainInvalid);
    assert_eq!(d.reason, "identity chain invalid");
    assert_eq!(d.status, "breached");
}

#[test]
fn breach_chain_flag_is_restored_by_tick_but_not_acceptance() {
    let (mut state, _keys) = genesis();
    state.breach_attack(5);
    let drift_high = vec![false; state.validators.len()];
    state.tick(&drift_high);
    let v = &state.validators[5];
    assert!(v.chain_valid);
    assert!(!v.network_accepted);
    assert_eq!(v.status, "healthy");
    let d = access(&state, &AccessRequest { id: 5 });
    assert_eq!(d.gate, AccessGate::NotAccepted);
    assert_eq!(d.reason, "network has not accepted identity");
}

#[test]
fn access_gates() {
    let (mut state, _keys) = genesis();
    let d = access(&state, &AccessRequest { id: 40 });
    assert!(!d.allowed);
    assert_eq!(d.gate, AccessGate::NotFound);
    assert_eq!(d.reason, "validator not found");
    assert_eq!(d.status, "unknown");
    assert_eq!(d.epoch_age, 0);
    state.validators[1].epoch_age = 100;
    let d = access(&state, &AccessRequest { id: 1 });
    assert_eq!(d.gate, AccessGate::Maturing);
    assert_eq!(d.reason, "identity still maturing");
    assert_eq!(d.epoch_age, 100);
    state.validators[1].epoch_age = 120;
    let d = access(&state, &AccessRequest { id: 1 });
    assert_eq!(d.gate, AccessGate::Granted);
}
