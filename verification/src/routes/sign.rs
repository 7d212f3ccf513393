//! Signing a message with a validator's key.

use vstd::prelude::*;
use vstd::utf8::encode_utf8;

use crate::crypto::{base64_decoding, base64_encode, base64_encoding, dilithium2_sign, signed_message, KeyPair};
use crate::state::KeyStore;

verus! {

/// A request to sign `message` with the key of validator `validator_id`.
pub struct SignRequest {
    pub message: String,
    pub validator_id: u32,
}

/// The base64 text of the Dilithium2 signed message.
pub struct SignResponse {
    pub signature: String,
}

/// The base64 text of `message` (UTF-8 encoded) signed with `secret_key`.
pub open spec fn signature_text(message: Seq<char>, secret_key: Seq<u8>) -> Seq<char> {
    base64_encoding(signed_message(encode_utf8(message), secret_key))
}

/// The key pair held for `id`; if none is held, a fresh one is drawn and held.
pub fn get_or_create_keypair(store: &mut KeyStore, id: u32) -> (pair: KeyPair)
    requires
        old(store).wf(),
    ensures
        final(store).wf(),
        final(store)@.contains_key(id),
        pair.bytes() == final(store)@[id],
        old(store)@.contains_key(id) ==> final(store)@ == old(store)@,
        !old(store)@.contains_key(id) ==> final(store)@ == old(store)@.insert(id, pair.bytes()),
{
    match store.get(id) {
        Some(pair) => pair.duplicate(),
        None => store.fresh_pair(id),
    }
}

/// Signs the request's message with the key of its validator (created if
/// the validator has none yet) and returns the signed message in base64.
pub fn sign(store: &mut KeyStore, payload: &SignRequest) -> (response: SignResponse)
    requires
        old(store).wf(),
    ensures
        final(store).wf(),
        final(store)@.contains_key(payload.validator_id),
        old(store)@.contains_key(payload.validator_id) ==> final(store)@ == old(store)@,
        !old(store)@.contains_key(payload.validator_id) ==> final(store)@ == old(store)@.insert(
            payload.validator_id,
            final(store)@[payload.validator_id],
        ),
        response.signature@ == signature_text(payload.message@, final(store)@[payload.validator_id].1),
        base64_decoding(response.signature@) == Some(
            signed_message(encode_utf8(payload.message@), final(store)@[payload.validator_id].1),
        ),
{
    let pair = get_or_create_keypair(store, payload.validator_id);
    let msg = payload.message.as_str().as_bytes();
    let signed = dilithium2_sign(msg, pair.secret.as_slice());
    let encoded = base64_encode(signed.as_slice());
    SignResponse { signature: encoded }
}

} // verus!
