//! The cryptographic and encoding primitives the library relies on, each
//! reached through one trusted item.
//!
//! Signing and verification are Dilithium2 as implemented by
//! `pqcrypto-dilithium`; text encoding of signed messages is standard,
//! padded base64 from `base64`.

use vstd::prelude::*;
use vstd::utf8::*;

use base64::Engine as _;
use pqcrypto_dilithium::dilithium2;
use pqcrypto_traits::sign::DetachedSignature as _;
use pqcrypto_traits::sign::PublicKey as _;
use pqcrypto_traits::sign::SecretKey as _;
use pqcrypto_traits::sign::SignedMessage as _;

verus! {

/// Length in bytes of a Dilithium2 public key.
pub const PUBLIC_KEY_BYTES: usize = 1312;

/// Length in bytes of a Dilithium2 secret key.
pub const SECRET_KEY_BYTES: usize = 2560;

/// Length in bytes of a Dilithium2 detached signature.
pub const SIGNATURE_BYTES: usize = 2420;

/// A Dilithium2 key pair held as raw bytes.
pub struct KeyPair {
    pub public: Vec<u8>,
    pub secret: Vec<u8>,
}

/// The deterministic Dilithium2 detached signature of `msg` under `secret_key`.
pub uninterp spec fn dilithium2_detached_signature(msg: Seq<u8>, secret_key: Seq<u8>) -> Seq<u8>;

/// Whether `signature` is a valid Dilithium2 signature of `msg` under `public_key`.
pub uninterp spec fn dilithium2_verifies(signature: Seq<u8>, msg: Seq<u8>, public_key: Seq<u8>) -> bool;

/// The standard (padded) base64 text of `bytes`.
pub uninterp spec fn base64_encoding(bytes: Seq<u8>) -> Seq<char>;

/// The bytes that standard (padded) base64 decoding gives for `text`, if it is well formed.
pub uninterp spec fn base64_decoding(text: Seq<char>) -> Option<Seq<u8>>;

/// The text that lossy UTF-8 decoding gives for `bytes`.
pub uninterp spec fn utf8_lossy_decoding(bytes: Seq<u8>) -> Seq<char>;

/// The text of `bytes` read as UTF-8, invalid sequences replaced.
pub open spec fn lossy_text(bytes: Seq<u8>) -> Seq<char> {
    if valid_utf8(bytes) {
        decode_utf8(bytes)
    } else {
        utf8_lossy_decoding(bytes)
    }
}

/// A well-formed key pair: both halves have their fixed lengths, and every
/// message's detached signature under the secret half has the fixed
/// signature length and verifies under the public half.
pub open spec fn is_signing_pair(public: Seq<u8>, secret: Seq<u8>) -> bool {
    &&& public.len() == PUBLIC_KEY_BYTES
    &&& secret.len() == SECRET_KEY_BYTES
    &&& forall|m: Seq<u8>|
        #![trigger dilithium2_detached_signature(m, secret)]
        dilithium2_detached_signature(m, secret).len() == SIGNATURE_BYTES
            && dilithium2_verifies(dilithium2_detached_signature(m, secret), m, public)
}

/// The bytes of a Dilithium2 signed message: the detached signature followed by the message.
pub open spec fn signed_message(msg: Seq<u8>, secret_key: Seq<u8>) -> Seq<u8> {
    dilithium2_detached_signature(msg, secret_key) + msg
}

/// What opening a Dilithium2 signed message gives: the embedded message when
/// its leading signature verifies under `public_key`.
pub open spec fn opened_message(signed: Seq<u8>, public_key: Seq<u8>) -> Option<Seq<u8>> {
    if signed.len() >= SIGNATURE_BYTES && dilithium2_verifies(
        signed.subrange(0, SIGNATURE_BYTES as int),
        signed.subrange(SIGNATURE_BYTES as int, signed.len() as int),
        public_key,
    ) {
        Some(signed.subrange(SIGNATURE_BYTES as int, signed.len() as int))
    } else {
        None
    }
}

/// Calls `dilithium2::keypair` and returns both keys as bytes.
/// Claims: the keys have the Dilithium2 lengths, and the pair is correct:
/// a detached signature made with the secret key has the fixed length (the
/// PQClean code always writes that many bytes) and verifies under the
/// public key, as the crate's own tests check. Nothing is claimed of which pair
/// comes back: it is drawn from system randomness.
#[verifier::external_body]
pub(crate) fn dilithium2_keypair() -> (keys: KeyPair)
    ensures
        is_signing_pair(keys.public@, keys.secret@),
{
    let (pk, sk) = dilithium2::keypair();
    KeyPair { public: pk.as_bytes().to_vec(), secret: sk.as_bytes().to_vec() }
}

/// Calls `dilithium2::detached_sign` on a secret key given as bytes.
/// Claims: the signature is the (deterministic) detached signature of the
/// message under that key, and has the fixed signature length.
#[verifier::external_body]
pub(crate) fn dilithium2_detached_sign(msg: &[u8], secret_key: &[u8]) -> (signature: Vec<u8>)
    requires
        secret_key@.len() == SECRET_KEY_BYTES,
    ensures
        signature@ == dilithium2_detached_signature(msg@, secret_key@),
        signature@.len() == SIGNATURE_BYTES,
{
    let sk = dilithium2::SecretKey::from_bytes(secret_key).unwrap();
    dilithium2::detached_sign(msg, &sk).as_bytes().to_vec()
}

/// Calls `dilithium2::verify_detached_signature` on a signature and a public
/// key given as bytes. Claims: the result is whether the signature verifies;
/// a signature of another length than the fixed one never does.
#[verifier::external_body]
pub(crate) fn dilithium2_verify_detached(signature: &[u8], msg: &[u8], public_key: &[u8]) -> (ok: bool)
    requires
        signature@.len() <= SIGNATURE_BYTES,
        public_key@.len() == PUBLIC_KEY_BYTES,
    ensures
        ok == dilithium2_verifies(signature@, msg@, public_key@),
        ok ==> signature@.len() == SIGNATURE_BYTES,
{
    match (
        dilithium2::DetachedSignature::from_bytes(signature),
        dilithium2::PublicKey::from_bytes(public_key),
    ) {
        (Ok(sig), Ok(pk)) => dilithium2::verify_detached_signature(&sig, msg, &pk).is_ok(),
        _ => false,
    }
}

/// Calls `dilithium2::sign` on a secret key given as bytes.
/// Claims: the signed message is the detached signature followed by the
/// message, as the PQClean implementation lays it out.
#[verifier::external_body]
pub(crate) fn dilithium2_sign(msg: &[u8], secret_key: &[u8]) -> (signed: Vec<u8>)
    requires
        secret_key@.len() == SECRET_KEY_BYTES,
    ensures
        signed@ == signed_message(msg@, secret_key@),
{
    let sk = dilithium2::SecretKey::from_bytes(secret_key).unwrap();
    dilithium2::sign(msg, &sk).as_bytes().to_vec()
}

/// Calls `dilithium2::open` on a signed message and a public key given as
/// bytes. Claims: the message comes back exactly when the leading signature
/// verifies over the rest, as the PQClean implementation checks it.
#[verifier::external_body]
pub(crate) fn dilithium2_open(signed: &[u8], public_key: &[u8]) -> (opened: Option<Vec<u8>>)
    requires
        public_key@.len() == PUBLIC_KEY_BYTES,
    ensures
        match opened {
            Some(m) => opened_message(signed@, public_key@) == Some(m@),
            None => opened_message(signed@, public_key@) is None,
        },
{
    let pk = dilithium2::PublicKey::from_bytes(public_key).unwrap();
    let sm = dilithium2::SignedMessage::from_bytes(signed).unwrap();
    dilithium2::open(&sm, &pk).ok()
}

/// Calls `Engine::encode` of `base64::engine::general_purpose::STANDARD`.
/// Claims: the text is the base64 encoding of the bytes, and decoding that
/// text gives the bytes back.
#[verifier::external_body]
pub(crate) fn base64_encode(bytes: &[u8]) -> (text: String)
    ensures
        text@ == base64_encoding(bytes@),
        base64_decoding(text@) == Some(bytes@),
{
    base64::engine::general_purpose::STANDARD.encode(bytes)
}

/// Calls `Engine::decode` of `base64::engine::general_purpose::STANDARD`.
/// Claims: the result is the decoding of the text (`None` where the crate
/// reports a decode error).
#[verifier::external_body]
pub(crate) fn base64_decode(text: &str) -> (bytes: Option<Vec<u8>>)
    ensures
        match bytes {
            Some(b) => base64_decoding(text@) == Some(b@),
            None => base64_decoding(text@) is None,
        },
{
    base64::engine::general_purpose::STANDARD.decode(text).ok()
}

/// Calls `String::from_utf8_lossy`. Claims: valid UTF-8 is decoded as it
/// stands (as the standard library documents); other bytes give their lossy
/// decoding, which is left unnamed beyond that.
#[verifier::external_body]
pub(crate) fn utf8_lossy(bytes: &[u8]) -> (text: String)
    ensures
        valid_utf8(bytes@) ==> text@ == decode_utf8(bytes@),
        !valid_utf8(bytes@) ==> text@ == utf8_lossy_decoding(bytes@),
{
    String::from_utf8_lossy(bytes).into_owned()
}

} // verus!
