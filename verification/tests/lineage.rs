use fluxlock::crypto::{PUBLIC_KEY_BYTES, SIGNATURE_BYTES};
use fluxlock::engine::identity_validator::{
    generate_identity, rotate_identity, rotation_message, verify_lineage, verify_link,
};
use fluxlock::network_state::{Evolution, IdentityLink, NetworkState, MAX_LINEAGE};
use fluxlock::state::KeyStore;

#[test]
fn rotation_message_text() {
    assert_eq!(rotation_message(7, 3), "validator:7:rotation:3");
    assert_eq!(rotation_message(0, 0), "validator:0:rotation:0");
    assert_eq!(rotation_message(4294967295, 64), "validator:4294967295:rotation:64");
}

#[test]
fn rotated_signature_verifies_under_the_old_key() {
    let mut keys = KeyStore::new();
    let old_public = generate_identity(&mut keys, 5);
    assert_eq!(old_public.len(), PUBLIC_KEY_BYTES);
    let message = rotation_message(5, 1);
    let signature = rotate_identity(&mut keys, 5, message.as_bytes());
    assert_eq!(signature.len(), SIGNATURE_BYTES);
    assert!(verify_link(&old_public, message.as_bytes(), &signature));
    // The pair was replaced.
    assert_ne!(keys.get(5).unwrap().public, old_public);
    // Another message, or the new key, does not verify.
    assert!(!verify_link(&old_public, b"validator:5:rotation:2", &signature));
    let new_public = keys.get(5).unwrap().public.clone();
    assert!(!verify_link(&new_public, message.as_bytes(), &signature));
}

#[test]
fn verify_link_rejects_malformed_inputs() {
    let mut keys = KeyStore::new();
    let public = generate_identity(&mut keys, 1);
    let signature = rotate_identity(&mut keys, 1, b"x");
    assert!(!verify_link(&public[..100], b"x", &signature));
    let mut long = signature.clone();
    long.push(0);
    assert!(!verify_link(&public, b"x", &long));
    assert!(!verify_link(&public, b"x", &signature[..10]));
}

#[test]
fn empty_lineage_is_invalid() {
    assert!(!verify_lineage(&Vec::new(), 1));
}

#[test]
fn genesis_lineage_is_valid() {
    let mut keys = KeyStore::new();
    let state = NetworkState::new(&mut keys);
    for v in &state.validators {
        assert_eq!(v.identity_chain.len(), 1);
        assert!(verify_lineage(&v.identity_chain, v.id));
        assert_eq!(keys.get(v.id).unwrap().public, v.identity_chain[0].public_key);
    }
}

#[test]
fn evolve_keeps_lineage_valid() {
    let mut keys = KeyStore::new();
    let mut state = NetworkState::new(&mut keys);
    for round in 0..3 {
        assert_eq!(state.evolve_identity(&mut keys, 4), Evolution::Intact);
        let v = &state.validators[4];
        assert_eq!(v.identity_chain.len(), round + 2);
        assert!(v.chain_valid);
        assert!(verify_lineage(&v.identity_chain, 4));
        assert_eq!(keys.get(4).unwrap().public, v.identity_chain.last().unwrap().public_key);
    }
    // The lineage does not verify under another validator id's rotation texts.
    assert!(!verify_lineage(&state.validators[4].identity_chain, 5));
}

#[test]
fn evolve_unknown_validator() {
    let mut keys = KeyStore::new();
    let mut state = NetworkState::new(&mut keys);
    assert_eq!(state.evolve_identity(&mut keys, 99), Evolution::NotFound);
}

#[test]
fn tampered_lineage_is_invalid() {
    let mut keys = KeyStore::new();
    let mut state = NetworkState::new(&mut keys);
    state.evolve_identity(&mut keys, 0);
    state.evolve_identity(&mut keys, 0);
    let mut chain: Vec<IdentityLink> = state.validators[0]
        .identity_chain
        .iter()
        .map(|l| IdentityLink { public_key: l.public_key.clone(), signature: l.signature.clone() })
        .collect();
    assert!(verify_lineage(&chain, 0));
    chain[2].signature = None;
    assert!(!verify_lineage(&chain, 0));
    chain[2].signature = chain[1].signature.clone();
    assert!(!verify_lineage(&chain, 0));
}

#[test]
fn evolve_on_a_fractured_lineage_reports_it() {
    let mut keys = KeyStore::new();
    let mut state = NetworkState::new(&mut keys);
    state.evolve_identity(&mut keys, 2);
    state.validators[2].identity_chain[1].signature = Some(vec![0u8; SIGNATURE_BYTES]);
    assert_eq!(state.evolve_identity(&mut keys, 2), Evolution::Fractured);
    let v = &state.validators[2];
    assert!(!v.chain_valid);
    assert!(!v.network_accepted);
    assert!(!v.local_valid);
    assert!(!v.global_valid);
    assert_eq!(v.status, "fractured");
}

#[test]
fn lineage_is_capped() {
    let mut keys = KeyStore::new();
    let mut state = NetworkState::new(&mut keys);
    for _ in 0..(MAX_LINEAGE - 1) {
        assert_eq!(state.evolve_identity(&mut keys, 1), Evolution::Intact);
    }
    assert_eq!(state.validators[1].identity_chain.len(), MAX_LINEAGE);
    // One more rotation is verified before the oldest link is dropped.
    assert_eq!(state.evolve_identity(&mut keys, 1), Evolution::Intact);
    assert_eq!(state.validators[1].identity_chain.len(), MAX_LINEAGE);
    assert!(state.validators[1].chain_valid);
    // The shifted lineage no longer lines up with its rotation texts.
    assert!(!verify_lineage(&state.validators[1].identity_chain, 1));
}

#[test]
fn rotations_and_ticks_keep_every_lineage_valid() {
    let mut keys = KeyStore::new();
    let mut state = NetworkState::new(&mut keys);
    let drift_high = vec![false; state.validators.len()];
    for id in [0u32, 3, 3, 11] {
        assert_eq!(state.evolve_identity(&mut keys, id), Evolution::Intact);
        state.tick(&drift_high);
    }
    for v in &state.validators {
        assert!(v.chain_valid);
        assert!(verify_lineage(&v.identity_chain, v.id));
        assert_eq!(keys.get(v.id).unwrap().public, v.identity_chain.last().unwrap().public_key);
    }
    assert_eq!(state.validators[3].identity_chain.len(), 3);
}
