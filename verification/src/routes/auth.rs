//! Authentication: credential checks on a signed request, then the
//! identity and validator decisions that follow.

use vstd::prelude::*;
use vstd::utf8::{encode_utf8, encode_utf8_decode_utf8, encode_utf8_valid_utf8};

use crate::crypto::{
    base64_decode, base64_decoding, dilithium2_open, lossy_text, opened_message, signed_message,
    utf8_lossy,
};
use crate::engine::identity_validator::MATURITY_EPOCHS;
use crate::identity::{failure_recorded, failure_room, success_recorded, success_room};
use crate::network_state::{
    evolved, first_with_id, keys_cover, lineage_anchored, no_validator, same_except, Evolution,
    NetworkState,
};
use crate::routes::access::{gate_for, AccessGate};
use crate::routes::verify::lemma_signed_message_opens;
use crate::state::{holds_signing_pairs, KeyStore};

verus! {

/// Largest accepted gap, in seconds, between a request's timestamp and now.
pub const MAX_TIME_WINDOW: u64 = 30;

/// An authentication request: a message, its signed form in base64, the
/// signing validator, the identity authenticating, a single-use nonce and
/// the request's timestamp (absent when it is not an unsigned integer).
pub struct AuthRequest {
    pub message: String,
    pub signature: String,
    pub validator_id: u32,
    pub identity_id: String,
    pub nonce: String,
    pub timestamp: Option<u64>,
}

/// Why an authentication request was refused.
#[derive(Clone, Copy, Debug, PartialEq, Eq)]
pub enum AuthFailure {
    Expired,
    Replay,
    UnknownValidator,
    BadEncoding,
    SignatureRejected,
    MessageMismatch,
    ValidatorMissing,
}

/// The reason reported for each refusal.
pub open spec fn failure_reason(f: AuthFailure) -> Seq<char> {
    match f {
        AuthFailure::Expired => "timestamp expired"@,
        AuthFailure::Replay => "replay detected"@,
        AuthFailure::UnknownValidator => "validator not found"@,
        AuthFailure::BadEncoding => "invalid signature encoding"@,
        AuthFailure::SignatureRejected => "signature verification failed"@,
        AuthFailure::MessageMismatch => "message mismatch"@,
        AuthFailure::ValidatorMissing => "validator missing"@,
    }
}

/// The status reported for each refusal.
pub open spec fn failure_status(f: AuthFailure) -> Seq<char> {
    match f {
        AuthFailure::Expired => "expired"@,
        AuthFailure::Replay => "replay"@,
        AuthFailure::UnknownValidator => "unknown"@,
        AuthFailure::ValidatorMissing => "unknown"@,
        _ => "invalid"@,
    }
}

impl AuthFailure {
    /// The reason reported for this refusal.
    pub fn reason(&self) -> (s: String)
        ensures
            s@ == failure_reason(*self),
    {
        match self {
            AuthFailure::Expired => String::from_str("timestamp expired"),
            AuthFailure::Replay => String::from_str("replay detected"),
            AuthFailure::UnknownValidator => String::from_str("validator not found"),
            AuthFailure::BadEncoding => String::from_str("invalid signature encoding"),
            AuthFailure::SignatureRejected => String::from_str("signature verification failed"),
            AuthFailure::MessageMismatch => String::from_str("message mismatch"),
            AuthFailure::ValidatorMissing => String::from_str("validator missing"),
        }
    }

    /// The status reported for this refusal.
    pub fn status(&self) -> (s: String)
        ensures
            s@ == failure_status(*self),
    {
        match self {
            AuthFailure::Expired => String::from_str("expired"),
            AuthFailure::Replay => String::from_str("replay"),
            AuthFailure::UnknownValidator => String::from_str("unknown"),
            AuthFailure::ValidatorMissing => String::from_str("unknown"),
            _ => String::from_str("invalid"),
        }
    }
}

/// The nonces already used.
pub struct NonceStore {
    seen: Vec<String>,
}

impl View for NonceStore {
    type V = Set<Seq<char>>;

    closed spec fn view(&self) -> Set<Seq<char>> {
        Set::new(|n: Seq<char>| exists|i: int| 0 <= i < self.seen@.len() && #[trigger] self.seen@[i]@ == n)
    }
}

impl NonceStore {
    /// A store with no nonce used.
    pub fn new() -> (store: NonceStore)
        ensures
            store@ == Set::<Seq<char>>::empty(),
    {
        let store = NonceStore { seen: Vec::new() };
        assert(store@ =~= Set::<Seq<char>>::empty());
        store
    }

    /// Whether `nonce` was used.
    pub fn contains(&self, nonce: &String) -> (r: bool)
        ensures
            r == self@.contains(nonce@),
    {
        let mut i: usize = 0;
        while i < self.seen.len()
            invariant
                i <= self.seen@.len(),
                forall|l: int| 0 <= l < i ==> #[trigger] self.seen@[l]@ != nonce@,
            decreases self.seen@.len() - i,
        {
            if self.seen[i] == *nonce {
                assert(self.seen@[i as int]@ == nonce@);
                return true;
            }
            i = i + 1;
        }
        false
    }

    /// Records `nonce` as used.
    pub fn insert(&mut self, nonce: String)
        ensures
            final(self)@ == old(self)@.insert(nonce@),
    {
        let ghost n = nonce@;
        self.seen.push(nonce);
        assert forall|m: Seq<char>| #[trigger] self@.contains(m) <==> old(self)@.contains(m) || m == n by {
            if old(self)@.contains(m) {
                let i = choose|i: int| 0 <= i < old(self).seen@.len() && #[trigger] old(self).seen@[i]@ == m;
                assert(self.seen@[i]@ == m);
            }
            if m == n {
                assert(self.seen@[old(self).seen@.len() as int]@ == m);
            }
            if self@.contains(m) {
                let i = choose|i: int| 0 <= i < self.seen@.len() && #[trigger] self.seen@[i]@ == m;
                if i < old(self).seen@.len() {
                    assert(old(self).seen@[i]@ == m);
                }
            }
        }
        assert(self@ =~= old(self)@.insert(n));
    }
}

/// The request's timestamp, 0 when it has none.
pub open spec fn request_timestamp(r: AuthRequest) -> u64 {
    match r.timestamp {
        Some(t) => t,
        None => 0,
    }
}

/// The distance between two instants.
pub open spec fn time_gap(now: u64, timestamp: u64) -> nat {
    if now >= timestamp {
        (now - timestamp) as nat
    } else {
        (timestamp - now) as nat
    }
}

/// The credential checks in order: freshness of the timestamp, single use of
/// the nonce, a key held for the validator, a well-formed base64 signed
/// message, a signature that opens under the validator's key, and an opened
/// message (read as UTF-8) equal to the request's. `None` when all pass.
pub open spec fn credential_check(
    r: AuthRequest,
    now: u64,
    seen: Set<Seq<char>>,
    keys: Map<u32, (Seq<u8>, Seq<u8>)>,
) -> Option<AuthFailure> {
    if time_gap(now, request_timestamp(r)) > MAX_TIME_WINDOW {
        Some(AuthFailure::Expired)
    } else if seen.contains(r.nonce@) {
        Some(AuthFailure::Replay)
    } else if !keys.contains_key(r.validator_id) {
        Some(AuthFailure::UnknownValidator)
    } else {
        match base64_decoding(r.signature@) {
            None => Some(AuthFailure::BadEncoding),
            Some(signed) => match opened_message(signed, keys[r.validator_id].0) {
                None => Some(AuthFailure::SignatureRejected),
                Some(m) => if lossy_text(m) == r.message@ {
                    None
                } else {
                    Some(AuthFailure::MessageMismatch)
                },
            },
        }
    }
}

/// The reason reported for an authentication gate.
pub open spec fn auth_reason(gate: AccessGate) -> Seq<char> {
    match gate {
        AccessGate::ChainInvalid => "identity chain invalid"@,
        AccessGate::Maturing => "identity still maturing"@,
        AccessGate::NotAccepted => "network rejected identity"@,
        _ => "authenticated (fluxlock verified identity)"@,
    }
}

/// An authenticated request's standing: which access check its validator met or
/// failed, whether the identity is valid, whether it is allowed, and why.
pub struct AuthGrant {
    pub gate: AccessGate,
    pub identity_valid: bool,
    pub allowed: bool,
    pub reason: String,
}

/// Runs the credential checks of an authentication request at time `now`
/// (the nonce is used up once the timestamp is fresh); on success, registers
/// the identity and decides on the validator by the access gates.
pub fn auth_flow(
    state: &mut NetworkState,
    keys: &KeyStore,
    nonces: &mut NonceStore,
    payload: &AuthRequest,
    now: u64,
) -> (result: Result<AuthGrant, AuthFailure>)
    requires
        old(state).wf(),
        keys.wf(),
    ensures
        final(state).wf(),
        final(state).validators == old(state).validators,
        final(state).global_epoch == old(state).global_epoch,
        time_gap(now, request_timestamp(*payload)) > MAX_TIME_WINDOW ==> final(nonces)@ == old(nonces)@,
        time_gap(now, request_timestamp(*payload)) <= MAX_TIME_WINDOW ==> final(nonces)@ == old(nonces)@.insert(payload.nonce@),
        result is Ok ==> {
            &&& time_gap(now, request_timestamp(*payload)) <= MAX_TIME_WINDOW
            &&& !old(nonces)@.contains(payload.nonce@)
            &&& keys@.contains_key(payload.validator_id)
            &&& base64_decoding(payload.signature@) matches Some(signed)
            &&& opened_message(signed, keys@[payload.validator_id].0) matches Some(m)
            &&& lossy_text(m) == payload.message@
        },
        forall|j: int| #[trigger]
            first_with_id(old(state).validators@, payload.validator_id, j) ==> (result matches Ok(g)
                ==> (g.allowed <==> (old(state).validators@[j].chain_valid
                && old(state).validators@[j].epoch_age >= MATURITY_EPOCHS
                && old(state).validators@[j].network_accepted))),
        credential_check(*payload, now, old(nonces)@, keys@) matches Some(f) ==> result == Err::<
            AuthGrant,
            AuthFailure,
        >(f) && final(state).identities == old(state).identities,
        credential_check(*payload, now, old(nonces)@, keys@) is None ==> {
            &&& final(state).identities@.contains_key(payload.identity_id@)
            &&& old(state).identities@.contains_key(payload.identity_id@) ==> final(state).identities@ == old(state).identities@
            &&& !old(state).identities@.contains_key(payload.identity_id@) ==> final(state).identities@ == old(state).identities@.insert(
                payload.identity_id@,
                final(state).identities@[payload.identity_id@],
            ) && crate::identity::is_new_identity(
                final(state).identities@[payload.identity_id@],
                payload.identity_id@,
                payload.validator_id,
                old(state).global_epoch,
            )
            &&& no_validator(old(state).validators@, payload.validator_id) ==> result == Err::<
                AuthGrant,
                AuthFailure,
            >(AuthFailure::ValidatorMissing)
            &&& forall|j: int| #[trigger]
                first_with_id(old(state).validators@, payload.validator_id, j) ==> {
                    let v = old(state).validators@[j];
                    result matches Ok(g) && g.gate == gate_for(v) && g.allowed == (g.gate
                        == AccessGate::Granted) && g.identity_valid == (v.chain_valid
                        && v.epoch_age >= MATURITY_EPOCHS) && g.reason@ == auth_reason(g.gate)
                }
        },
{
    let timestamp = match payload.timestamp {
        Some(t) => t,
        None => 0,
    };
    let gap = if now >= timestamp {
        now - timestamp
    } else {
        timestamp - now
    };
    if gap > MAX_TIME_WINDOW {
        return Err(AuthFailure::Expired);
    }
    if nonces.contains(&payload.nonce) {
        assert(old(nonces)@.insert(payload.nonce@) =~= old(nonces)@);
        return Err(AuthFailure::Replay);
    }
    nonces.insert(payload.nonce.clone());
    let pair = match keys.get(payload.validator_id) {
        Some(pair) => pair,
        None => return Err(AuthFailure::UnknownValidator),
    };
    let decoded = match base64_decode(payload.signature.as_str()) {
        Some(bytes) => bytes,
        None => return Err(AuthFailure::BadEncoding),
    };
    let opened = match dilithium2_open(decoded.as_slice(), pair.public.as_slice()) {
        Some(m) => m,
        None => return Err(AuthFailure::SignatureRejected),
    };
    let opened_text = utf8_lossy(opened.as_slice());
    if opened_text != payload.message {
        return Err(AuthFailure::MessageMismatch);
    }
    state.get_or_create_identity(payload.identity_id.clone(), payload.validator_id);
    let j = match state.find_validator(payload.validator_id) {
        Some(j) => j,
        None => return Err(AuthFailure::ValidatorMissing),
    };
    let v = &state.validators[j];
    let identity_valid = v.chain_valid && v.epoch_age >= MATURITY_EPOCHS;
    if !v.chain_valid {
        return Ok(
            AuthGrant {
                gate: AccessGate::ChainInvalid,
                identity_valid,
                allowed: false,
                reason: String::from_str("identity chain invalid"),
            },
        );
    }
    if v.epoch_age < MATURITY_EPOCHS {
        return Ok(
            AuthGrant {
                gate: AccessGate::Maturing,
                identity_valid,
                allowed: false,
                reason: String::from_str("identity still maturing"),
            },
        );
    }
    if !v.network_accepted {
        return Ok(
            AuthGrant {
                gate: AccessGate::NotAccepted,
                identity_valid,
                allowed: false,
                reason: String::from_str("network rejected identity"),
            },
        );
    }
    Ok(
        AuthGrant {
            gate: AccessGate::Granted,
            identity_valid,
            allowed: true,
            reason: String::from_str("authenticated (fluxlock verified identity)"),
        },
    )
}

/// What an authentication left behind, as reported back: the rotation of
/// the validator's identity (when allowed), the validator's age, status and
/// lineage depth, and the identity's id, session count and credential depth.
pub struct AuthOutcome {
    pub evolution: Option<Evolution>,
    pub epoch_age: u64,
    pub status: String,
    pub lineage_depth: usize,
    pub identity_id: String,
    pub session_count: u64,
    pub credential_depth: u64,
}

/// Completes an authentication that `auth_flow` granted or refused at its
/// gates: an allowed request records the identity's success (`established`
/// is whether its continuity, once raised, is above 80) and rotates the
/// validator's identity; a refused one records the identity's failure.
pub fn complete_auth(
    state: &mut NetworkState,
    keys: &mut KeyStore,
    payload: &AuthRequest,
    allowed: bool,
    established: bool,
) -> (outcome: AuthOutcome)
    requires
        old(state).wf(),
        old(keys).wf(),
        keys_cover(old(state).validators@, old(keys)@),
        !no_validator(old(state).validators@, payload.validator_id),
        old(state).identities@.contains_key(payload.identity_id@),
        allowed ==> success_room(old(state).identities@[payload.identity_id@]),
        !allowed ==> failure_room(old(state).identities@[payload.identity_id@]),
    ensures
        final(state).wf(),
        final(keys).wf(),
        keys_cover(final(state).validators@, final(keys)@),
        final(state).global_epoch == old(state).global_epoch,
        final(state).identities@ == old(state).identities@.insert(
            payload.identity_id@,
            final(state).identities@[payload.identity_id@],
        ),
        allowed ==> success_recorded(
            old(state).identities@[payload.identity_id@],
            final(state).identities@[payload.identity_id@],
            old(state).global_epoch,
            established,
        ),
        !allowed ==> failure_recorded(
            old(state).identities@[payload.identity_id@],
            final(state).identities@[payload.identity_id@],
            old(state).global_epoch,
        ),
        !allowed ==> final(state).validators == old(state).validators && final(keys)@ == old(keys)@
            && outcome.evolution is None,
        outcome.identity_id@ == payload.identity_id@,
        outcome.session_count == final(state).identities@[payload.identity_id@].session_count,
        outcome.credential_depth == final(state).identities@[payload.identity_id@].credential_depth,
        forall|j: int| #[trigger]
            first_with_id(old(state).validators@, payload.validator_id, j) ==> {
                let after = final(state).validators@[j];
                &&& outcome.epoch_age == after.epoch_age
                &&& outcome.status == after.status
                &&& outcome.lineage_depth == after.identity_chain@.len()
                &&& allowed ==> {
                    &&& same_except(old(state).validators@, final(state).validators@, j)
                    &&& evolved(
                        old(state).validators@[j],
                        after,
                        after.identity_chain@.last(),
                        old(keys)@[payload.validator_id].1,
                    )
                    &&& final(keys)@ == old(keys)@.insert(
                        payload.validator_id,
                        final(keys)@[payload.validator_id],
                    )
                    &&& lineage_anchored(after, final(keys)@)
                    &&& outcome.evolution == Some(
                        if after.chain_valid {
                            Evolution::Intact
                        } else {
                            Evolution::Fractured
                        },
                    )
                }
            },
{
    let j = match state.find_validator(payload.validator_id) {
        Some(j) => j,
        None => {
            proof {
                assert(false);
            }
            0
        },
    };
    let evolution = if allowed {
        state.identity_success(payload.identity_id.as_str(), established);
        Some(state.evolve_identity(keys, payload.validator_id))
    } else {
        state.identity_failure(payload.identity_id.as_str());
        None
    };
    let p = match state.identities.position(payload.identity_id.as_str()) {
        Some(p) => p,
        None => {
            proof {
                assert(false);
            }
            0
        },
    };
    let v = &state.validators[j];
    let identity = &state.identities.identities[p];
    AuthOutcome {
        evolution,
        epoch_age: v.epoch_age,
        status: v.status.clone(),
        lineage_depth: v.identity_chain.len(),
        identity_id: identity.identity_id.clone(),
        session_count: identity.session_count,
        credential_depth: identity.credential_depth,
    }
}

/// A nonce is used once: a request whose timestamp is fresh, checked again
/// against the nonces recorded after its first check, is refused as a replay.
pub proof fn lemma_nonce_single_use(
    r: AuthRequest,
    now: u64,
    seen: Set<Seq<char>>,
    keys: Map<u32, (Seq<u8>, Seq<u8>)>,
)
    requires
        time_gap(now, request_timestamp(r)) <= MAX_TIME_WINDOW,
    ensures
        credential_check(r, now, seen.insert(r.nonce@), keys) == Some(AuthFailure::Replay),
{
}

/// A request carrying the signature that `sign` issued for its message and
/// validator passes every credential check, given a fresh timestamp and an
/// unused nonce.
pub proof fn lemma_signed_request_passes(
    r: AuthRequest,
    now: u64,
    seen: Set<Seq<char>>,
    keys: Map<u32, (Seq<u8>, Seq<u8>)>,
)
    requires
        holds_signing_pairs(keys),
        keys.contains_key(r.validator_id),
        base64_decoding(r.signature@) == Some(
            signed_message(encode_utf8(r.message@), keys[r.validator_id].1),
        ),
        time_gap(now, request_timestamp(r)) <= MAX_TIME_WINDOW,
        !seen.contains(r.nonce@),
    ensures
        credential_check(r, now, seen, keys) is None,
{
    lemma_signed_message_opens(keys, r.validator_id, encode_utf8(r.message@));
    encode_utf8_valid_utf8(r.message@);
    encode_utf8_decode_utf8(r.message@);
}

/// The credential checks pass only when the timestamp is fresh, the nonce
/// unused, a key is held for the validator, the signature text decodes to a
/// signed message that opens under that key, and the message it opens to,
/// read as UTF-8, is exactly the request's message.
pub proof fn lemma_credentials_pass_only_on_match(
    r: AuthRequest,
    now: u64,
    seen: Set<Seq<char>>,
    keys: Map<u32, (Seq<u8>, Seq<u8>)>,
)
    requires
        credential_check(r, now, seen, keys) is None,
    ensures
        time_gap(now, request_timestamp(r)) <= MAX_TIME_WINDOW,
        !seen.contains(r.nonce@),
        keys.contains_key(r.validator_id),
        base64_decoding(r.signature@) is Some,
        opened_message(base64_decoding(r.signature@).unwrap(), keys[r.validator_id].0) is Some,
        lossy_text(
            opened_message(base64_decoding(r.signature@).unwrap(), keys[r.validator_id].0).unwrap(),
        ) == r.message@,
{
}

} // verus!
