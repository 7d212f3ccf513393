//! Identity lineage: key generation and rotation, link and lineage
//! verification, and the identity validation rule.

use vstd::prelude::*;
use vstd::utf8::*;

use crate::crypto::{
    dilithium2_detached_sign, dilithium2_detached_signature, dilithium2_verifies,
    dilithium2_verify_detached, PUBLIC_KEY_BYTES, SIGNATURE_BYTES,
};
use crate::network_state::IdentityLink;
use crate::state::{copy_bytes, KeyStore};

verus! {

/// Age, in epochs, below which an identity is still maturing.
pub const MATURITY_EPOCHS: u64 = 120;

/// The decimal digit character for `d` (`d < 10`).
pub open spec fn digit_char(d: nat) -> char {
    seq!['0', '1', '2', '3', '4', '5', '6', '7', '8', '9'][d as int]
}

/// The decimal text of `n`, without leading zeros.
pub open spec fn decimal_text(n: nat) -> Seq<char>
    decreases n,
{
    if n < 10 {
        seq![digit_char(n)]
    } else {
        decimal_text(n / 10).push(digit_char(n % 10))
    }
}

/// Calls `ToString::to_string` on a `u64`, whose `Display` writes the value
/// in decimal without leading zeros or sign. Claims exactly that text.
#[verifier::external_body]
fn decimal_string(n: u64) -> (s: String)
    ensures
        s@ == decimal_text(n as nat),
{
    n.to_string()
}

/// The text signed when a validator's identity is rotated to position
/// `rotation_index` of its lineage.
pub open spec fn rotation_text(validator_id: nat, rotation_index: nat) -> Seq<char> {
    "validator:"@ + decimal_text(validator_id) + ":rotation:"@ + decimal_text(rotation_index)
}

/// The bytes signed for a rotation: the UTF-8 encoding of its text.
pub open spec fn rotation_bytes(validator_id: nat, rotation_index: nat) -> Seq<u8> {
    encode_utf8(rotation_text(validator_id, rotation_index))
}

/// Builds the rotation text `validator:{id}:rotation:{index}`.
pub fn rotation_message(validator_id: u32, rotation_index: usize) -> (m: String)
    ensures
        m@ == rotation_text(validator_id as nat, rotation_index as nat),
{
    let mut m = String::from_str("validator:");
    let id_text = decimal_string(validator_id as u64);
    m.append(id_text.as_str());
    m.append(":rotation:");
    let index_text = decimal_string(rotation_index as u64);
    m.append(index_text.as_str());
    m
}

/// A link verifies when the previous public key and the signature have
/// usable lengths and the signature verifies over the message.
pub open spec fn link_verifies(old_public_key: Seq<u8>, message: Seq<u8>, signature: Seq<u8>) -> bool {
    &&& old_public_key.len() == PUBLIC_KEY_BYTES
    &&& signature.len() <= SIGNATURE_BYTES
    &&& dilithium2_verifies(signature, message, old_public_key)
}

/// Link `i` of `chain` carries a signature, by the key of link `i - 1`,
/// over the rotation text for position `i`.
pub open spec fn link_is_rotation(chain: Seq<IdentityLink>, validator_id: nat, i: int) -> bool {
    match chain[i].signature {
        Some(sig) => link_verifies(
            chain[i - 1].public_key@,
            rotation_bytes(validator_id, i as nat),
            sig@,
        ),
        None => false,
    }
}

/// A lineage is valid when it is not empty and every link after the first
/// is a rotation signed by the link before it.
pub open spec fn lineage_valid(chain: Seq<IdentityLink>, validator_id: nat) -> bool {
    &&& chain.len() > 0
    &&& forall|i: int| 1 <= i < chain.len() ==> #[trigger] link_is_rotation(chain, validator_id, i)
}

/// Draws a fresh key pair for `id`, holds it in the store and returns its
/// public key.
pub fn generate_identity(store: &mut KeyStore, id: u32) -> (public_key: Vec<u8>)
    requires
        old(store).wf(),
    ensures
        final(store).wf(),
        final(store)@ == old(store)@.insert(id, final(store)@[id]),
        final(store)@[id].0 == public_key@,
{
    let pair = store.fresh_pair(id);
    pair.public
}

/// Signs `new_message` with the secret key currently held for `id`, then
/// replaces that pair with a fresh one. Returns the signature.
pub fn rotate_identity(store: &mut KeyStore, id: u32, new_message: &[u8]) -> (signature: Vec<u8>)
    requires
        old(store).wf(),
        old(store)@.contains_key(id),
    ensures
        final(store).wf(),
        final(store)@ == old(store)@.insert(id, final(store)@[id]),
        signature@ == dilithium2_detached_signature(new_message@, old(store)@[id].1),
        signature@.len() == SIGNATURE_BYTES,
{
    let old_secret = match store.get(id) {
        Some(pair) => copy_bytes(&pair.secret),
        None => {
            proof { assert(false); }
            Vec::new()
        },
    };
    let signature = dilithium2_detached_sign(new_message, old_secret.as_slice());
    let _fresh = store.fresh_pair(id);
    signature
}

/// Whether `sig_bytes` is a valid signature of `new_message` under the
/// public key `old_pk_bytes`; malformed keys or signatures do not verify.
pub fn verify_link(old_pk_bytes: &[u8], new_message: &[u8], sig_bytes: &[u8]) -> (ok: bool)
    ensures
        ok == link_verifies(old_pk_bytes@, new_message@, sig_bytes@),
{
    if old_pk_bytes.len() != PUBLIC_KEY_BYTES {
        return false;
    }
    if sig_bytes.len() > SIGNATURE_BYTES {
        return false;
    }
    dilithium2_verify_detached(sig_bytes, new_message, old_pk_bytes)
}

/// Whether the whole lineage of validator `validator_id` is valid.
pub fn verify_lineage(chain: &Vec<IdentityLink>, validator_id: u32) -> (ok: bool)
    ensures
        ok == lineage_valid(chain@, validator_id as nat),
        ok == (chain@.len() > 0 && forall|i: int|
            #![trigger chain@[i]]
            1 <= i < chain@.len() ==> (chain@[i].signature matches Some(sig) && link_verifies(
                chain@[i - 1].public_key@,
                rotation_bytes(validator_id as nat, i as nat),
                sig@,
            ))),
{
    if chain.len() == 0 {
        return false;
    }
    let mut i: usize = 1;
    while i < chain.len()
        invariant
            1 <= i <= chain@.len(),
            forall|j: int| 1 <= j < i ==> #[trigger] link_is_rotation(chain@, validator_id as nat, j),
        decreases chain@.len() - i,
    {
        let message = rotation_message(validator_id, i);
        let bytes = message.as_str().as_bytes();
        let ok = match &chain[i].signature {
            Some(sig) => verify_link(chain[i - 1].public_key.as_slice(), bytes, sig.as_slice()),
            None => false,
        };
        if !ok {
            assert(!link_is_rotation(chain@, validator_id as nat, i as int));
            return false;
        }
        i = i + 1;
    }
    assert forall|l: int| #![trigger chain@[l]] 1 <= l < chain@.len() implies (
    chain@[l].signature matches Some(sig) && link_verifies(
        chain@[l - 1].public_key@,
        rotation_bytes(validator_id as nat, l as nat),
        sig@,
    )) by {
        assert(link_is_rotation(chain@, validator_id as nat, l));
    }
    true
}

/// The outcome of validating an identity's reported state.
pub struct ValidationResult {
    pub valid: bool,
    pub reason: String,
}

/// The validation rule: hard failures first (compromise, broken chain,
/// immaturity, missing network acceptance, high drift), then a valid
/// identity that is either recovering (low trust) or healthy.
pub open spec fn identity_validation(
    trust_low: bool,
    drift_high: bool,
    epoch_age: u64,
    epoch_valid: bool,
    compromised: bool,
    network_accepted: bool,
) -> (bool, Seq<char>) {
    if compromised {
        (false, "identity compromised"@)
    } else if !epoch_valid {
        (false, "invalid identity chain"@)
    } else if epoch_age < MATURITY_EPOCHS {
        (false, "identity too new (maturing)"@)
    } else if !network_accepted {
        (false, "network has not accepted identity"@)
    } else if drift_high {
        (false, "unstable identity (high drift)"@)
    } else if trust_low {
        (true, "recovering identity"@)
    } else {
        (true, "identity stable and verified"@)
    }
}

/// Validates an identity's reported state. `trust_low` is whether its trust
/// is below 60, `drift_high` whether its drift is above 80.
pub fn validate_identity_logic(
    trust_low: bool,
    drift_high: bool,
    epoch_age: u64,
    epoch_valid: bool,
    compromised: bool,
    network_accepted: bool,
) -> (r: ValidationResult)
    ensures
        (r.valid, r.reason@) == identity_validation(
            trust_low,
            drift_high,
            epoch_age,
            epoch_valid,
            compromised,
            network_accepted,
        ),
        compromised ==> !r.valid && r.reason@ == "identity compromised"@,
        r.valid <==> (!compromised && epoch_valid && epoch_age >= MATURITY_EPOCHS && network_accepted
            && !drift_high),
{
    if compromised {
        return ValidationResult { valid: false, reason: String::from_str("identity compromised") };
    }
    if !epoch_valid {
        return ValidationResult { valid: false, reason: String::from_str("invalid identity chain") };
    }
    if epoch_age < MATURITY_EPOCHS {
        return ValidationResult {
            valid: false,
            reason: String::from_str("identity too new (maturing)"),
        };
    }
    if !network_accepted {
        return ValidationResult {
            valid: false,
            reason: String::from_str("network has not accepted identity"),
        };
    }
    if drift_high {
        return ValidationResult {
            valid: false,
            reason: String::from_str("unstable identity (high drift)"),
        };
    }
    if trust_low {
        return ValidationResult { valid: true, reason: String::from_str("recovering identity") };
    }
    ValidationResult { valid: true, reason: String::from_str("identity stable and verified") }
}

/// Every link after the first of a valid lineage carries a signature, and
/// that signature verifies under the previous link's key over the rotation
/// text for its position; a lineage with an unsigned later link is invalid.
pub proof fn lemma_valid_lineage_links_signed(chain: Seq<IdentityLink>, validator_id: nat, i: int)
    requires
        lineage_valid(chain, validator_id),
        1 <= i < chain.len(),
    ensures
        chain[i].signature is Some,
        link_verifies(
            chain[i - 1].public_key@,
            rotation_bytes(validator_id, i as nat),
            chain[i].signature.unwrap()@,
        ),
{
    assert(link_is_rotation(chain, validator_id, i));
}

/// A lineage with a later link that carries no signature is invalid.
pub proof fn lemma_unsigned_link_breaks_lineage(chain: Seq<IdentityLink>, validator_id: nat, i: int)
    requires
        1 <= i < chain.len(),
        chain[i].signature is None,
    ensures
        !lineage_valid(chain, validator_id),
{
    if lineage_valid(chain, validator_id) {
        lemma_valid_lineage_links_signed(chain, validator_id, i);
    }
}

/// An identity is valid only when it is not compromised, its chain is
/// valid, it is mature, the network accepted it and its drift is not high;
/// a compromised identity is always refused as compromised, whatever else
/// holds.
pub proof fn lemma_validation_gates(
    trust_low: bool,
    drift_high: bool,
    epoch_age: u64,
    epoch_valid: bool,
    compromised: bool,
    network_accepted: bool,
)
    ensures
        identity_validation(trust_low, drift_high, epoch_age, epoch_valid, compromised, network_accepted).0
            <==> (!compromised && epoch_valid && epoch_age >= MATURITY_EPOCHS && network_accepted
            && !drift_high),
        compromised ==> identity_validation(
            trust_low,
            drift_high,
            epoch_age,
            epoch_valid,
            compromised,
            network_accepted,
        ) == (false, "identity compromised"@),
{
}

} // verus!
