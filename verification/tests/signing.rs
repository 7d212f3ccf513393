use fluxlock::crypto::{PUBLIC_KEY_BYTES, SECRET_KEY_BYTES};
use fluxlock::routes::sign::{get_or_create_keypair, sign, SignRequest};
use fluxlock::routes::verify::{verify, VerifyRequest};
use fluxlock::state::KeyStore;

fn sign_request(message: &str, validator_id: u32) -> SignRequest {
    SignRequest { message: message.to_string(), validator_id }
}

#[test]
fn sign_then_verify_is_valid() {
    let mut keys = KeyStore::new();
    let signed = sign(&mut keys, &sign_request("hello fluxlock", 3));
    let response = verify(
        &keys,
        &VerifyRequest { message: "hello fluxlock".to_string(), signature: signed.signature, validator_id: 3 },
    );
    assert!(response.signature_valid);
    assert!(response.identity_valid);
}

#[test]
fn sign_creates_the_key_once() {
    let mut keys = KeyStore::new();
    assert!(!keys.contains(9));
    let first = sign(&mut keys, &sign_request("a", 9));
    assert!(keys.contains(9));
    let public = keys.get(9).unwrap().public.clone();
    let second = sign(&mut keys, &sign_request("a", 9));
    assert_eq!(keys.get(9).unwrap().public, public);
    // Dilithium2 signing here is deterministic: same key, same message, same text.
    assert_eq!(first.signature, second.signature);
}

#[test]
fn signatures_differ_per_message() {
    let mut keys = KeyStore::new();
    let a = sign(&mut keys, &sign_request("a", 1));
    let b = sign(&mut keys, &sign_request("b", 1));
    assert_ne!(a.signature, b.signature);
}

#[test]
fn verify_unknown_validator_is_invalid() {
    let mut keys = KeyStore::new();
    let signed = sign(&mut keys, &sign_request("m", 1));
    let response = verify(
        &keys,
        &VerifyRequest { message: "m".to_string(), signature: signed.signature, validator_id: 2 },
    );
    assert!(!response.signature_valid);
    assert!(!response.identity_valid);
}

#[test]
fn verify_malformed_base64_is_invalid() {
    let mut keys = KeyStore::new();
    let _ = sign(&mut keys, &sign_request("m", 1));
    let response = verify(
        &keys,
        &VerifyRequest { message: "m".to_string(), signature: "not base64 !!".to_string(), validator_id: 1 },
    );
    assert!(!response.signature_valid);
}

#[test]
fn verify_with_another_validators_key_is_invalid() {
    let mut keys = KeyStore::new();
    let signed = sign(&mut keys, &sign_request("m", 1));
    let _ = sign(&mut keys, &sign_request("m", 2));
    let response = verify(
        &keys,
        &VerifyRequest { message: "m".to_string(), signature: signed.signature, validator_id: 2 },
    );
    assert!(!response.signature_valid);
}

#[test]
fn verify_short_signed_message_is_invalid() {
    let mut keys = KeyStore::new();
    let _ = sign(&mut keys, &sign_request("m", 1));
    // "AAAA" decodes to three zero bytes: far shorter than a signature.
    let response = verify(
        &keys,
        &VerifyRequest { message: "m".to_string(), signature: "AAAA".to_string(), validator_id: 1 },
    );
    assert!(!response.signature_valid);
}

#[test]
fn keypair_has_dilithium2_lengths() {
    let mut keys = KeyStore::new();
    let pair = get_or_create_keypair(&mut keys, 4);
    assert_eq!(pair.public.len(), PUBLIC_KEY_BYTES);
    assert_eq!(pair.secret.len(), SECRET_KEY_BYTES);
    let again = get_or_create_keypair(&mut keys, 4);
    assert_eq!(again.public, pair.public);
    assert_eq!(again.secret, pair.secret);
}
