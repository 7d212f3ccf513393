//! Verifying a signed message against a validator's key.

use vstd::prelude::*;
use vstd::utf8::encode_utf8;

use crate::crypto::{
    base64_decode, base64_decoding, dilithium2_open, dilithium2_verifies, is_signing_pair,
    opened_message, signed_message, SIGNATURE_BYTES,
};
use crate::state::{holds_signing_pairs, KeyStore};

verus! {

/// A request to check `signature` (base64 of a signed message) against the
/// key of validator `validator_id`.
pub struct VerifyRequest {
    pub message: String,
    pub signature: String,
    pub validator_id: u32,
}

/// Whether the signature verified, and whether the identity is taken as valid.
pub struct VerifyResponse {
    pub signature_valid: bool,
    pub identity_valid: bool,
}

/// The signed message that `signature` encodes opens under the public key
/// held for `validator_id`.
pub open spec fn signature_opens(
    keys: Map<u32, (Seq<u8>, Seq<u8>)>,
    validator_id: u32,
    signature: Seq<char>,
) -> bool {
    &&& keys.contains_key(validator_id)
    &&& match base64_decoding(signature) {
        Some(signed) => opened_message(signed, keys[validator_id].0) is Some,
        None => false,
    }
}

/// Checks the request's signature against its validator's key. An unknown
/// validator or a malformed encoding gives a negative answer; identity
/// validity follows signature validity.
pub fn verify(store: &KeyStore, payload: &VerifyRequest) -> (response: VerifyResponse)
    requires
        store.wf(),
    ensures
        response.signature_valid == signature_opens(store@, payload.validator_id, payload.signature@),
        response.identity_valid == response.signature_valid,
{
    let pair = match store.get(payload.validator_id) {
        Some(pair) => pair,
        None => return VerifyResponse { signature_valid: false, identity_valid: false },
    };
    let decoded = match base64_decode(payload.signature.as_str()) {
        Some(bytes) => bytes,
        None => return VerifyResponse { signature_valid: false, identity_valid: false },
    };
    let signature_valid = dilithium2_open(decoded.as_slice(), pair.public.as_slice()).is_some();
    VerifyResponse { signature_valid, identity_valid: signature_valid }
}

/// A message signed with a held key opens under that key's public half, and
/// what it opens to is the message itself.
pub proof fn lemma_signed_message_opens(
    keys: Map<u32, (Seq<u8>, Seq<u8>)>,
    validator_id: u32,
    message: Seq<u8>,
)
    requires
        holds_signing_pairs(keys),
        keys.contains_key(validator_id),
    ensures
        opened_message(signed_message(message, keys[validator_id].1), keys[validator_id].0)
            == Some(message),
{
    let (public, secret) = keys[validator_id];
    assert(is_signing_pair(public, secret));
    let signed = signed_message(message, secret);
    let sig = crate::crypto::dilithium2_detached_signature(message, secret);
    assert(dilithium2_verifies(sig, message, public));
    assert(signed.subrange(0, SIGNATURE_BYTES as int) =~= sig);
    assert(signed.subrange(SIGNATURE_BYTES as int, signed.len() as int) =~= message);
}

/// Sign then verify: a signature that `sign` issued for a validator, checked
/// by `verify` against the same key store, is valid.
pub proof fn lemma_sign_then_verify(
    keys: Map<u32, (Seq<u8>, Seq<u8>)>,
    validator_id: u32,
    message: Seq<char>,
    signature: Seq<char>,
)
    requires
        holds_signing_pairs(keys),
        keys.contains_key(validator_id),
        base64_decoding(signature) == Some(
            signed_message(encode_utf8(message), keys[validator_id].1),
        ),
    ensures
        signature_opens(keys, validator_id, signature),
{
    lemma_signed_message_opens(keys, validator_id, encode_utf8(message));
}

} // verus!
