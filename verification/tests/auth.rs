use fluxlock::network_state::{Evolution, NetworkState};
use fluxlock::routes::access::AccessGate;
use fluxlock::routes::auth::{auth_flow, complete_auth, AuthFailure, AuthRequest, NonceStore};
use fluxlock::routes::sign::{sign, SignRequest};
use fluxlock::state::KeyStore;

const NOW: u64 = 1_700_000_000;

fn setup() -> (NetworkState, KeyStore, NonceStore) {
    let mut keys = KeyStore::new();
    let state = NetworkState::new(&mut keys);
    (state, keys, NonceStore::new())
}

fn signed_request(keys: &mut KeyStore, message: &str, validator_id: u32, nonce: &str, timestamp: Option<u64>) -> AuthRequest {
    let signed = sign(keys, &SignRequest { message: message.to_string(), validator_id });
    AuthRequest {
        message: message.to_string(),
        signature: signed.signature,
        validator_id,
        identity_id: "user-1".to_string(),
        nonce: nonce.to_string(),
        timestamp,
    }
}

#[test]
fn signed_request_is_granted_and_completes() {
    let (mut state, mut keys, mut nonces) = setup();
    let req = signed_request(&mut keys, "login", 3, "n1", Some(NOW - 10));
    let grant = match auth_flow(&mut state, &keys, &mut nonces, &req, NOW) {
        Ok(g) => g,
        Err(f) => panic!("refused: {:?}", f),
    };
    assert!(grant.allowed);
    assert!(grant.identity_valid);
    assert_eq!(grant.gate, AccessGate::Granted);
    assert_eq!(grant.reason, "authenticated (fluxlock verified identity)");
    assert_eq!(state.identities.identities.len(), 1);
    let outcome = complete_auth(&mut state, &mut keys, &req, true, false);
    assert_eq!(outcome.evolution, Some(Evolution::Intact));
    assert_eq!(outcome.lineage_depth, 2);
    assert_eq!(outcome.identity_id, "user-1");
    assert_eq!(outcome.session_count, 1);
    assert_eq!(outcome.credential_depth, 2);
    assert_eq!(outcome.status, "healthy");
    assert_eq!(outcome.epoch_age, 180);
    assert_eq!(state.identities.identities[0].status, "maturing");
}

#[test]
fn refused_request_records_failure() {
    let (mut state, mut keys, mut nonces) = setup();
    state.validators[3].network_accepted = false;
    let req = signed_request(&mut keys, "login", 3, "n1", Some(NOW));
    let grant = auth_flow(&mut state, &keys, &mut nonces, &req, NOW).ok().unwrap();
    assert!(!grant.allowed);
    assert!(grant.identity_valid);
    assert_eq!(grant.gate, AccessGate::NotAccepted);
    assert_eq!(grant.reason, "network rejected identity");
    let outcome = complete_auth(&mut state, &mut keys, &req, false, false);
    assert_eq!(outcome.evolution, None);
    assert_eq!(outcome.lineage_depth, 1);
    assert_eq!(state.identities.identities[0].failed_auths, 1);
    assert_eq!(state.identities.identities[0].status, "recovering");
}

#[test]
fn maturing_and_broken_validators_are_not_allowed() {
    let (mut state, mut keys, mut nonces) = setup();
    state.validators[3].epoch_age = 3;
    let req = signed_request(&mut keys, "m", 3, "n1", Some(NOW));
    let grant = auth_flow(&mut state, &keys, &mut nonces, &req, NOW).ok().unwrap();
    assert_eq!(grant.gate, AccessGate::Maturing);
    assert!(!grant.identity_valid);
    assert_eq!(grant.reason, "identity still maturing");
    state.validators[3].chain_valid = false;
    let req = signed_request(&mut keys, "m", 3, "n2", Some(NOW));
    let grant = auth_flow(&mut state, &keys, &mut nonces, &req, NOW).ok().unwrap();
    assert_eq!(grant.gate, AccessGate::ChainInvalid);
    assert_eq!(grant.reason, "identity chain invalid");
}

#[test]
fn expired_timestamp_is_refused() {
    let (mut state, mut keys, mut nonces) = setup();
    let req = signed_request(&mut keys, "m", 1, "n1", Some(NOW - 31));
    assert_eq!(auth_flow(&mut state, &keys, &mut nonces, &req, NOW).err(), Some(AuthFailure::Expired));
    let req = signed_request(&mut keys, "m", 1, "n1", Some(NOW + 31));
    assert_eq!(auth_flow(&mut state, &keys, &mut nonces, &req, NOW).err(), Some(AuthFailure::Expired));
    // A missing timestamp counts as 0.
    let req = signed_request(&mut keys, "m", 1, "n1", None);
    assert_eq!(auth_flow(&mut state, &keys, &mut nonces, &req, NOW).err(), Some(AuthFailure::Expired));
    // The nonce was not used up.
    let req = signed_request(&mut keys, "m", 1, "n1", Some(NOW + 30));
    assert!(auth_flow(&mut state, &keys, &mut nonces, &req, NOW).is_ok());
    assert!(state.identities.identities.len() == 1);
}

#[test]
fn replayed_nonce_is_refused() {
    let (mut state, mut keys, mut nonces) = setup();
    let req = signed_request(&mut keys, "m", 1, "once", Some(NOW));
    assert!(auth_flow(&mut state, &keys, &mut nonces, &req, NOW).is_ok());
    assert_eq!(auth_flow(&mut state, &keys, &mut nonces, &req, NOW).err(), Some(AuthFailure::Replay));
}

#[test]
fn nonce_is_used_up_by_a_failed_check() {
    let (mut state, mut keys, mut nonces) = setup();
    let mut req = signed_request(&mut keys, "m", 1, "n", Some(NOW));
    req.signature = "%%%".to_string();
    assert_eq!(auth_flow(&mut state, &keys, &mut nonces, &req, NOW).err(), Some(AuthFailure::BadEncoding));
    let req = signed_request(&mut keys, "m", 1, "n", Some(NOW));
    assert_eq!(auth_flow(&mut state, &keys, &mut nonces, &req, NOW).err(), Some(AuthFailure::Replay));
    assert!(state.identities.identities.is_empty());
}

#[test]
fn unknown_validator_is_refused() {
    let (mut state, mut keys, mut nonces) = setup();
    let mut req = signed_request(&mut keys, "m", 1, "n", Some(NOW));
    req.validator_id = 500;
    assert_eq!(
        auth_flow(&mut state, &keys, &mut nonces, &req, NOW).err(),
        Some(AuthFailure::UnknownValidator)
    );
}

#[test]
fn wrong_key_is_refused() {
    let (mut state, mut keys, mut nonces) = setup();
    let mut req = signed_request(&mut keys, "m", 1, "n", Some(NOW));
    req.validator_id = 2;
    assert_eq!(
        auth_flow(&mut state, &keys, &mut nonces, &req, NOW).err(),
        Some(AuthFailure::SignatureRejected)
    );
}

#[test]
fn other_message_is_refused() {
    let (mut state, mut keys, mut nonces) = setup();
    let mut req = signed_request(&mut keys, "pay 1", 1, "n", Some(NOW));
    req.message = "pay 100".to_string();
    assert_eq!(
        auth_flow(&mut state, &keys, &mut nonces, &req, NOW).err(),
        Some(AuthFailure::MessageMismatch)
    );
}

#[test]
fn validator_without_state_is_missing() {
    let (mut state, mut keys, mut nonces) = setup();
    let req = signed_request(&mut keys, "m", 40, "n", Some(NOW));
    assert_eq!(
        auth_flow(&mut state, &keys, &mut nonces, &req, NOW).err(),
        Some(AuthFailure::ValidatorMissing)
    );
    // The identity was registered before the validator lookup.
    assert_eq!(state.identities.identities.len(), 1);
}

#[test]
fn failure_reasons_and_statuses() {
    let cases = [
        (AuthFailure::Expired, "timestamp expired", "expired"),
        (AuthFailure::Replay, "replay detected", "replay"),
        (AuthFailure::UnknownValidator, "validator not found", "unknown"),
        (AuthFailure::BadEncoding, "invalid signature encoding", "invalid"),
        (AuthFailure::SignatureRejected, "signature verification failed", "invalid"),
        (AuthFailure::MessageMismatch, "message mismatch", "invalid"),
        (AuthFailure::ValidatorMissing, "validator missing", "unknown"),
    ];
    for (f, reason, status) in cases {
        assert_eq!(f.reason(), reason);
        assert_eq!(f.status(), status);
    }
}

#[test]
fn nonce_store_membership() {
    let mut nonces = NonceStore::new();
    assert!(!nonces.contains(&"a".to_string()));
    nonces.insert("a".to_string());
    assert!(nonces.contains(&"a".to_string()));
    assert!(!nonces.contains(&"b".to_string()));
}
