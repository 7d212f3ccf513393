//! The network state: validators, their identity lineages, and the identity registry.

use vstd::prelude::*;

use crate::crypto::{
    dilithium2_detached_signature, dilithium2_verifies, is_signing_pair, SIGNATURE_BYTES,
};
use crate::engine::identity_validator::{
    generate_identity, lineage_valid, link_is_rotation, rotate_identity, rotation_bytes, rotation_message,
    verify_lineage,
};
use crate::identity::{
    failure_room, success_room, FluxIdentity, IdentityRegistry, IDLE_EPOCHS,
};
use crate::state::{holds_signing_pairs, KeyStore};

verus! {

/// One link of a validator's identity lineage: a public key and, after the
/// genesis link, the previous key's signature over the rotation text.
pub struct IdentityLink {
    pub public_key: Vec<u8>,
    pub signature: Option<Vec<u8>>,
}

/// A validator's discrete state: identity, age, validation flags, lineage
/// and health status. Its continuous measures (confidence, trust, drift)
/// are kept by the caller beside it, in the same order.
pub struct Validator {
    pub id: u32,
    pub epoch_age: u64,
    pub chain_valid: bool,
    pub network_accepted: bool,
    pub recovery_timer: u64,
    pub peer_votes_valid: u32,
    pub peer_votes_invalid: u32,
    pub local_valid: bool,
    pub global_valid: bool,
    pub identity_chain: Vec<IdentityLink>,
    pub status: String,
}

/// Number of validators the network starts with.
pub const GENESIS_VALIDATORS: u32 = 12;

/// Longest lineage kept; older links are dropped beyond it.
pub const MAX_LINEAGE: usize = 64;

/// What a tick found for one validator, and so how its measures move.
#[derive(Clone, Copy, Debug, PartialEq, Eq)]
pub enum Health {
    /// The lineage no longer verifies: trust and confidence decay, drift grows.
    Fractured,
    /// Drift is above 25: confidence and trust decay slightly.
    Drifting,
    /// Drift is at most 25: confidence and trust grow slightly.
    Steady,
}

/// What a tick found: per validator (in order) and, per identity (in
/// registry order), whether it is idle.
pub struct TickReport {
    pub validators: Vec<Health>,
    pub idle_identities: Vec<bool>,
}

/// The result of rotating a validator's identity.
#[derive(Clone, Copy, Debug, PartialEq, Eq)]
pub enum Evolution {
    /// No validator has the id.
    NotFound,
    /// The extended lineage verifies.
    Intact,
    /// The extended lineage does not verify: trust and confidence are halved.
    Fractured,
}

/// The state of the network.
pub struct NetworkState {
    pub validators: Vec<Validator>,
    pub identities: IdentityRegistry,
    pub global_epoch: u64,
}

/// `v` is genesis validator `i` whose single link carries `public_key`.
pub open spec fn is_genesis_validator(v: Validator, i: u32, public_key: Seq<u8>) -> bool {
    &&& v.id == i
    &&& v.epoch_age == 180
    &&& v.chain_valid
    &&& v.network_accepted
    &&& v.recovery_timer == 0
    &&& v.peer_votes_valid == 8
    &&& v.peer_votes_invalid == 1
    &&& v.local_valid
    &&& v.global_valid
    &&& v.identity_chain@.len() == 1
    &&& v.identity_chain@[0].public_key@ == public_key
    &&& v.identity_chain@[0].signature is None
    &&& v.status@ == "healthy"@
}

/// `j` is the first position of a validator with id `id`.
pub open spec fn first_with_id(vs: Seq<Validator>, id: u32, j: int) -> bool {
    &&& 0 <= j < vs.len()
    &&& vs[j].id == id
    &&& forall|l: int| 0 <= l < j ==> #[trigger] vs[l].id != id
}

/// No validator has id `id`.
pub open spec fn no_validator(vs: Seq<Validator>, id: u32) -> bool {
    forall|l: int| 0 <= l < vs.len() ==> #[trigger] vs[l].id != id
}

/// `after` equals `before` everywhere but at position `j`.
pub open spec fn same_except(before: Seq<Validator>, after: Seq<Validator>, j: int) -> bool {
    &&& after.len() == before.len()
    &&& forall|l: int| 0 <= l < before.len() && l != j ==> #[trigger] after[l] == before[l]
}

/// The fields a health check leaves alone are unchanged.
pub open spec fn same_identity(before: Validator, after: Validator) -> bool {
    &&& after.id == before.id
    &&& after.identity_chain == before.identity_chain
    &&& after.recovery_timer == before.recovery_timer
    &&& after.peer_votes_valid == before.peer_votes_valid
    &&& after.peer_votes_invalid == before.peer_votes_invalid
}

/// The validation flags a fracture clears are unchanged.
pub open spec fn same_flags(before: Validator, after: Validator) -> bool {
    &&& after.network_accepted == before.network_accepted
    &&& after.local_valid == before.local_valid
    &&& after.global_valid == before.global_valid
}

/// `after` is `before` marked fractured: chain invalid, not accepted, not
/// valid locally or globally.
pub open spec fn marked_fractured(after: Validator) -> bool {
    &&& !after.chain_valid
    &&& !after.network_accepted
    &&& !after.local_valid
    &&& !after.global_valid
    &&& after.status@ == "fractured"@
}

/// `after` is `before` after one tick, with `drift_high` whether its
/// (decayed) drift is above 25, and `health` what the tick found.
pub open spec fn ticked(before: Validator, after: Validator, drift_high: bool, health: Health) -> bool {
    &&& same_identity(before, after)
    &&& after.epoch_age == before.epoch_age + 1
    &&& after.chain_valid == lineage_valid(before.identity_chain@, before.id as nat)
    &&& if after.chain_valid {
        &&& same_flags(before, after)
        &&& health == (if drift_high { Health::Drifting } else { Health::Steady })
        &&& after.status@ == (if drift_high { "recovering"@ } else { "healthy"@ })
    } else {
        &&& health == Health::Fractured
        &&& marked_fractured(after)
    }
}

/// The key store holds a pair for every validator.
pub open spec fn keys_cover(vs: Seq<Validator>, keys: Map<u32, (Seq<u8>, Seq<u8>)>) -> bool {
    forall|l: int| 0 <= l < vs.len() ==> keys.contains_key(#[trigger] vs[l].id)
}

/// The key held for validator `v` is the public key at the end of its lineage.
pub open spec fn lineage_anchored(v: Validator, keys: Map<u32, (Seq<u8>, Seq<u8>)>) -> bool {
    &&& v.identity_chain@.len() > 0
    &&& keys.contains_key(v.id)
    &&& keys[v.id].0 == v.identity_chain@.last().public_key@
}

/// No two validators share an id.
pub open spec fn ids_distinct(vs: Seq<Validator>) -> bool {
    forall|a: int, b: int|
        0 <= a < vs.len() && 0 <= b < vs.len() && #[trigger] vs[a].id == #[trigger] vs[b].id ==> a == b
}

/// Every validator's lineage is anchored in the key store.
pub open spec fn all_anchored(vs: Seq<Validator>, keys: Map<u32, (Seq<u8>, Seq<u8>)>) -> bool {
    forall|l: int| 0 <= l < vs.len() ==> #[trigger] lineage_anchored(vs[l], keys)
}

/// Every validator's lineage is valid.
pub open spec fn all_lineages_valid(vs: Seq<Validator>) -> bool {
    forall|l: int| 0 <= l < vs.len() ==> lineage_valid(#[trigger] vs[l].identity_chain@, vs[l].id as nat)
}

/// `after` is `before` after a rotation whose new link is `link`, with
/// `old_secret` the secret key held for it before: the lineage is extended
/// by the link (and its oldest link dropped past `MAX_LINEAGE`), re-verified,
/// and the validator marked fractured if it no longer verifies.
pub open spec fn evolved(before: Validator, after: Validator, link: IdentityLink, old_secret: Seq<u8>) -> bool {
    let extended = before.identity_chain@.push(link);
    &&& link.signature matches Some(sig) && sig@ == dilithium2_detached_signature(
        rotation_bytes(before.id as nat, before.identity_chain@.len()),
        old_secret,
    ) && sig@.len() == SIGNATURE_BYTES
    &&& after.id == before.id
    &&& after.epoch_age == before.epoch_age
    &&& after.recovery_timer == before.recovery_timer
    &&& after.peer_votes_valid == before.peer_votes_valid
    &&& after.peer_votes_invalid == before.peer_votes_invalid
    &&& after.identity_chain@ == (if extended.len() > MAX_LINEAGE {
        extended.subrange(1, extended.len() as int)
    } else {
        extended
    })
    &&& after.chain_valid == lineage_valid(extended, before.id as nat)
    &&& if after.chain_valid {
        &&& same_flags(before, after)
        &&& after.status == before.status
    } else {
        marked_fractured(after)
    }
}

impl NetworkState {
    /// The state's invariant: the identity registry's.
    pub open spec fn wf(&self) -> bool {
        self.identities.wf()
    }

    /// The genesis network: validators 0 to 11, each with a fresh identity
    /// whose key pair is put in `keys`, fully trusted and healthy.
    pub fn new(keys: &mut KeyStore) -> (s: NetworkState)
        requires
            old(keys).wf(),
        ensures
            s.wf(),
            final(keys).wf(),
            s.validators@.len() == GENESIS_VALIDATORS,
            forall|i: int|
                0 <= i < GENESIS_VALIDATORS ==> #[trigger] final(keys)@.contains_key(i as u32)
                    && is_genesis_validator(s.validators@[i], i as u32, final(keys)@[i as u32].0),
            forall|id: u32| id >= GENESIS_VALIDATORS ==> #[trigger] final(keys)@.contains_key(id)
                == old(keys)@.contains_key(id) && final(keys)@[id] == old(keys)@[id],
            s.identities@ == Map::<Seq<char>, FluxIdentity>::empty(),
            s.global_epoch == 0,
            ids_distinct(s.validators@),
            all_anchored(s.validators@, final(keys)@),
            all_lineages_valid(s.validators@),
    {
        let mut validators: Vec<Validator> = Vec::new();
        let mut i: u32 = 0;
        while i < GENESIS_VALIDATORS
            invariant
                i <= GENESIS_VALIDATORS,
                keys.wf(),
                validators@.len() == i,
                forall|l: int|
                    0 <= l < i ==> #[trigger] keys@.contains_key(l as u32) && is_genesis_validator(
                        validators@[l],
                        l as u32,
                        keys@[l as u32].0,
                    ),
                forall|id: u32| id >= i ==> #[trigger] keys@.contains_key(id)
                    == old(keys)@.contains_key(id) && keys@[id] == old(keys)@[id],
            decreases GENESIS_VALIDATORS - i,
        {
            let genesis_key = generate_identity(keys, i);
            let genesis_link = IdentityLink { public_key: genesis_key, signature: None };
            let mut chain: Vec<IdentityLink> = Vec::new();
            chain.push(genesis_link);
            validators.push(
                Validator {
                    id: i,
                    epoch_age: 180,
                    chain_valid: true,
                    network_accepted: true,
                    recovery_timer: 0,
                    peer_votes_valid: 8,
                    peer_votes_invalid: 1,
                    local_valid: true,
                    global_valid: true,
                    identity_chain: chain,
                    status: String::from_str("healthy"),
                },
            );
            i = i + 1;
        }
        proof {
            assert forall|a: int, b: int|
                0 <= a < validators@.len() && 0 <= b < validators@.len()
                    && #[trigger] validators@[a].id == #[trigger] validators@[b].id implies a == b by {
                assert(keys@.contains_key(a as u32));
                assert(keys@.contains_key(b as u32));
            }
            assert forall|l: int| 0 <= l < validators@.len() implies #[trigger] lineage_anchored(
                validators@[l],
                keys@,
            ) by {
                assert(keys@.contains_key(l as u32));
                assert(is_genesis_validator(validators@[l], l as u32, keys@[l as u32].0));
            }
            assert forall|l: int| 0 <= l < validators@.len() implies lineage_valid(
                #[trigger] validators@[l].identity_chain@,
                validators@[l].id as nat,
            ) by {
                assert(keys@.contains_key(l as u32));
                assert(is_genesis_validator(validators@[l], l as u32, keys@[l as u32].0));
            }
        }
        NetworkState { validators, identities: IdentityRegistry::new(), global_epoch: 0 }
    }

    /// The position of the first validator with id `id`, if any.
    pub fn find_validator(&self, id: u32) -> (pos: Option<usize>)
        ensures
            match pos {
                Some(j) => first_with_id(self.validators@, id, j as int),
                None => no_validator(self.validators@, id),
            },
    {
        let mut j: usize = 0;
        while j < self.validators.len()
            invariant
                j <= self.validators@.len(),
                forall|l: int| 0 <= l < j ==> #[trigger] self.validators@[l].id != id,
            decreases self.validators@.len() - j,
        {
            if self.validators[j].id == id {
                return Some(j);
            }
            j = j + 1;
        }
        None
    }
    /// Advances the network by one epoch. Every validator ages by one epoch
    /// and has its lineage re-verified: a lineage that fails fractures the
    /// validator; otherwise it is recovering when `drift_high[i]` (its
    /// decayed drift is above 25) and healthy when not. The report also
    /// tells, per identity, whether it is idle as of the new epoch.
    pub fn tick(&mut self, drift_high: &Vec<bool>) -> (report: TickReport)
        requires
            old(self).wf(),
            drift_high@.len() == old(self).validators@.len(),
            old(self).global_epoch < u64::MAX,
            forall|l: int|
                0 <= l < old(self).validators@.len() ==> #[trigger] old(self).validators@[l].epoch_age
                    < u64::MAX,
        ensures
            final(self).wf(),
            final(self).global_epoch == old(self).global_epoch + 1,
            final(self).identities == old(self).identities,
            final(self).validators@.len() == old(self).validators@.len(),
            report.validators@.len() == old(self).validators@.len(),
            forall|l: int|
                0 <= l < old(self).validators@.len() ==> #[trigger] ticked(
                    old(self).validators@[l],
                    final(self).validators@[l],
                    drift_high@[l],
                    report.validators@[l],
                ),
            report.idle_identities@.len() == old(self).identities.identities@.len(),
            forall|i: int|
                0 <= i < report.idle_identities@.len() ==> #[trigger] report.idle_identities@[i] == (
                final(self).global_epoch.saturating_sub(
                    old(self).identities.identities@[i].last_active_epoch,
                ) > IDLE_EPOCHS),
    {
        self.global_epoch = self.global_epoch + 1;
        let ghost before = self.validators@;
        let mut health: Vec<Health> = Vec::new();
        let mut i: usize = 0;
        while i < self.validators.len()
            invariant
                i <= self.validators@.len(),
                self.validators@.len() == before.len(),
                self.global_epoch == old(self).global_epoch + 1,
                self.identities == old(self).identities,
                drift_high@.len() == before.len(),
                health@.len() == i,
                forall|l: int| 0 <= l < before.len() ==> #[trigger] before[l].epoch_age < u64::MAX,
                forall|l: int|
                    0 <= l < i ==> #[trigger] ticked(
                        before[l],
                        self.validators@[l],
                        drift_high@[l],
                        health@[l],
                    ),
                forall|l: int| i <= l < before.len() ==> #[trigger] self.validators@[l] == before[l],
            decreases before.len() - i,
        {
            let valid = verify_lineage(&self.validators[i].identity_chain, self.validators[i].id);
            self.validators[i].epoch_age = self.validators[i].epoch_age + 1;
            self.validators[i].chain_valid = valid;
            if !valid {
                self.validators[i].status = String::from_str("fractured");
                self.validators[i].network_accepted = false;
                self.validators[i].local_valid = false;
                self.validators[i].global_valid = false;
                health.push(Health::Fractured);
            } else if drift_high[i] {
                self.validators[i].status = String::from_str("recovering");
                health.push(Health::Drifting);
            } else {
                self.validators[i].status = String::from_str("healthy");
                health.push(Health::Steady);
            }
            i = i + 1;
        }
        let idle = self.identities.idle_flags(self.global_epoch);
        TickReport { validators: health, idle_identities: idle }
    }

    /// Moves each recovering identity whose drift has calmed (`calm[i]`:
    /// its drift, in registry order, is below 10) back to maturing.
    pub fn settle_identities(&mut self, calm: &Vec<bool>)
        requires
            old(self).wf(),
            calm@.len() == old(self).identities.identities@.len(),
        ensures
            final(self).wf(),
            final(self).validators == old(self).validators,
            final(self).global_epoch == old(self).global_epoch,
            final(self).identities.identities@.len() == old(self).identities.identities@.len(),
            forall|i: int|
                0 <= i < calm@.len() ==> #[trigger] crate::identity::settled(
                    old(self).identities.identities@[i],
                    final(self).identities.identities@[i],
                    calm@[i],
                ),
    {
        self.identities.settle_recovering(calm);
    }

    /// Rotates the identity of the first validator with id `validator_id`:
    /// its current secret key signs the rotation text for the next lineage
    /// position, a fresh pair replaces it in `keys`, and the new public key is
    /// linked with that signature. The extended lineage is re-verified (the
    /// validator fractures if it fails) and then cut to `MAX_LINEAGE` links.
    #[verifier::rlimit(40)]
    pub fn evolve_identity(&mut self, keys: &mut KeyStore, validator_id: u32) -> (outcome: Evolution)
        requires
            old(self).wf(),
            old(keys).wf(),
            keys_cover(old(self).validators@, old(keys)@),
        ensures
            final(self).wf(),
            final(keys).wf(),
            final(self).identities == old(self).identities,
            final(self).global_epoch == old(self).global_epoch,
            keys_cover(final(self).validators@, final(keys)@),
            ids_distinct(old(self).validators@) ==> ids_distinct(final(self).validators@),
            ids_distinct(old(self).validators@) && all_anchored(old(self).validators@, old(keys)@)
                ==> all_anchored(final(self).validators@, final(keys)@),
            no_validator(old(self).validators@, validator_id) ==> outcome == Evolution::NotFound
                && final(self).validators == old(self).validators && final(keys)@ == old(keys)@,
            forall|j: int| #[trigger]
                first_with_id(old(self).validators@, validator_id, j) ==> {
                    let after = final(self).validators@[j];
                    &&& same_except(old(self).validators@, final(self).validators@, j)
                    &&& evolved(
                        old(self).validators@[j],
                        after,
                        after.identity_chain@.last(),
                        old(keys)@[validator_id].1,
                    )
                    &&& final(keys)@ == old(keys)@.insert(validator_id, final(keys)@[validator_id])
                    &&& lineage_anchored(after, final(keys)@)
                    &&& outcome == (if after.chain_valid {
                        Evolution::Intact
                    } else {
                        Evolution::Fractured
                    })
                },
    {
        let j = match self.find_validator(validator_id) {
            Some(j) => j,
            None => return Evolution::NotFound,
        };
        let ghost before = self.validators@;
        let ghost keys_before = keys@;
        let rotation_index = self.validators[j].identity_chain.len();
        let message = rotation_message(validator_id, rotation_index);
        let signature = rotate_identity(keys, validator_id, message.as_str().as_bytes());
        let ghost keys_mid = keys@;
        let new_key = generate_identity(keys, validator_id);
        assert(keys@ =~= keys_before.insert(validator_id, keys@[validator_id]));
        self.validators[j].identity_chain.push(
            IdentityLink { public_key: new_key, signature: Some(signature) },
        );
        let ghost extended = self.validators@[j as int].identity_chain@;
        let valid = verify_lineage(&self.validators[j].identity_chain, validator_id);
        self.validators[j].chain_valid = valid;
        if !valid {
            self.validators[j].status = String::from_str("fractured");
            self.validators[j].network_accepted = false;
            self.validators[j].local_valid = false;
            self.validators[j].global_valid = false;
        }
        if self.validators[j].identity_chain.len() > MAX_LINEAGE {
            self.validators[j].identity_chain.remove(0);
            assert(self.validators@[j as int].identity_chain@ =~= extended.subrange(
                1,
                extended.len() as int,
            ));
        }
        proof {
            assert forall|l: int| 0 <= l < self.validators@.len() implies keys@.contains_key(
                #[trigger] self.validators@[l].id,
            ) by {
                if l != j {
                    assert(self.validators@[l] == before[l]);
                }
            }
            if ids_distinct(before) {
                assert forall|a: int, b: int|
                    0 <= a < self.validators@.len() && 0 <= b < self.validators@.len()
                        && #[trigger] self.validators@[a].id == #[trigger] self.validators@[b].id
                    implies a == b by {
                    assert(self.validators@[a].id == before[a].id);
                    assert(self.validators@[b].id == before[b].id);
                }
                if all_anchored(before, keys_before) {
                    assert forall|l: int| 0 <= l < self.validators@.len() implies #[trigger] lineage_anchored(
                        self.validators@[l],
                        keys@,
                    ) by {
                        if l != j {
                            assert(self.validators@[l] == before[l]);
                            assert(lineage_anchored(before[l], keys_before));
                            assert(before[l].id != validator_id);
                        }
                    }
                }
            }
        }
        if valid {
            Evolution::Intact
        } else {
            Evolution::Fractured
        }
    }
    /// A spike attack on the first validator with id `id`: it becomes
    /// recovering (its drift and trust move with the caller's measures).
    pub fn spike_attack(&mut self, id: u32)
        requires
            old(self).wf(),
        ensures
            final(self).wf(),
            final(self).identities == old(self).identities,
            final(self).global_epoch == old(self).global_epoch,
            no_validator(old(self).validators@, id) ==> final(self).validators == old(self).validators,
            forall|j: int| #[trigger]
                first_with_id(old(self).validators@, id, j) ==> {
                    let after = final(self).validators@[j];
                    let before = old(self).validators@[j];
                    &&& same_except(old(self).validators@, final(self).validators@, j)
                    &&& same_identity(before, after)
                    &&& same_flags(before, after)
                    &&& after.epoch_age == before.epoch_age
                    &&& after.chain_valid == before.chain_valid
                    &&& after.status@ == "recovering"@
                },
    {
        if let Some(j) = self.find_validator(id) {
            self.validators[j].status = String::from_str("recovering");
        }
    }

    /// A breach of the first validator with id `id`: its chain is declared
    /// invalid, it loses network acceptance and both validity flags, and it
    /// is marked breached.
    pub fn breach_attack(&mut self, id: u32)
        requires
            old(self).wf(),
        ensures
            final(self).wf(),
            final(self).identities == old(self).identities,
            final(self).global_epoch == old(self).global_epoch,
            no_validator(old(self).validators@, id) ==> final(self).validators == old(self).validators,
            forall|j: int| #[trigger]
                first_with_id(old(self).validators@, id, j) ==> {
                    let after = final(self).validators@[j];
                    let before = old(self).validators@[j];
                    &&& same_except(old(self).validators@, final(self).validators@, j)
                    &&& same_identity(before, after)
                    &&& after.epoch_age == before.epoch_age
                    &&& !after.chain_valid
                    &&& !after.network_accepted
                    &&& !after.local_valid
                    &&& !after.global_valid
                    &&& after.status@ == "breached"@
                },
    {
        if let Some(j) = self.find_validator(id) {
            self.validators[j].chain_valid = false;
            self.validators[j].network_accepted = false;
            self.validators[j].local_valid = false;
            self.validators[j].global_valid = false;
            self.validators[j].status = String::from_str("breached");
        }
    }

    /// Makes sure identity `identity_id` is registered, bound to
    /// `validator_id` at the current epoch if it is new.
    pub fn get_or_create_identity(&mut self, identity_id: String, validator_id: u32)
        requires
            old(self).wf(),
        ensures
            final(self).wf(),
            final(self).validators == old(self).validators,
            final(self).global_epoch == old(self).global_epoch,
            old(self).identities@.contains_key(identity_id@) ==> final(self).identities@
                == old(self).identities@,
            !old(self).identities@.contains_key(identity_id@) ==> final(self).identities@
                == old(self).identities@.insert(identity_id@, final(self).identities@[identity_id@])
                && crate::identity::is_new_identity(
                final(self).identities@[identity_id@],
                identity_id@,
                validator_id,
                old(self).global_epoch,
            ),
    {
        let epoch = self.global_epoch;
        let _identity = self.identities.get_or_create(identity_id, validator_id, epoch);
    }

    /// Records a successful authentication of `identity_id` at the current
    /// epoch; `established` is whether its continuity, once raised, is above 80.
    pub fn identity_success(&mut self, identity_id: &str, established: bool)
        requires
            old(self).wf(),
            old(self).identities@.contains_key(identity_id@) ==> success_room(
                old(self).identities@[identity_id@],
            ),
        ensures
            final(self).wf(),
            final(self).validators == old(self).validators,
            final(self).global_epoch == old(self).global_epoch,
            old(self).identities@.contains_key(identity_id@) ==> final(self).identities@
                == old(self).identities@.insert(identity_id@, final(self).identities@[identity_id@])
                && crate::identity::success_recorded(
                old(self).identities@[identity_id@],
                final(self).identities@[identity_id@],
                old(self).global_epoch,
                established,
            ),
            !old(self).identities@.contains_key(identity_id@) ==> final(self).identities@
                == old(self).identities@,
    {
        let epoch = self.global_epoch;
        self.identities.successful_auth(identity_id, epoch, established);
    }

    /// Records a failed authentication of `identity_id` at the current epoch.
    pub fn identity_failure(&mut self, identity_id: &str)
        requires
            old(self).wf(),
            old(self).identities@.contains_key(identity_id@) ==> failure_room(
                old(self).identities@[identity_id@],
            ),
        ensures
            final(self).wf(),
            final(self).validators == old(self).validators,
            final(self).global_epoch == old(self).global_epoch,
            old(self).identities@.contains_key(identity_id@) ==> final(self).identities@
                == old(self).identities@.insert(identity_id@, final(self).identities@[identity_id@])
                && crate::identity::failure_recorded(
                old(self).identities@[identity_id@],
                final(self).identities@[identity_id@],
                old(self).global_epoch,
            ),
            !old(self).identities@.contains_key(identity_id@) ==> final(self).identities@
                == old(self).identities@,
    {
        let epoch = self.global_epoch;
        self.identities.failed_auth(identity_id, epoch);
    }
}

/// A genesis validator's lineage (its single link) is valid.
pub proof fn lemma_genesis_lineage_valid(v: Validator, i: u32, public_key: Seq<u8>)
    requires
        is_genesis_validator(v, i, public_key),
    ensures
        lineage_valid(v.identity_chain@, v.id as nat),
{
}

/// Rotating the identity of a validator whose lineage is valid, and whose
/// held key pair ends its lineage, leaves it valid and unfractured: the new
/// link's signature verifies under the previous key. When the lineage was
/// shorter than `MAX_LINEAGE`, the stored lineage itself stays valid, so
/// later ticks keep it so.
pub proof fn lemma_rotation_keeps_lineage(
    before: Validator,
    after: Validator,
    link: IdentityLink,
    keys: Map<u32, (Seq<u8>, Seq<u8>)>,
)
    requires
        lineage_valid(before.identity_chain@, before.id as nat),
        lineage_anchored(before, keys),
        holds_signing_pairs(keys),
        evolved(before, after, link, keys[before.id].1),
    ensures
        after.chain_valid,
        same_flags(before, after),
        after.status == before.status,
        before.identity_chain@.len() < MAX_LINEAGE ==> lineage_valid(
            after.identity_chain@,
            after.id as nat,
        ),
{
    let chain = before.identity_chain@;
    let extended = chain.push(link);
    let id = before.id as nat;
    let n = chain.len() as int;
    assert(is_signing_pair(keys[before.id].0, keys[before.id].1));
    assert forall|i: int| 1 <= i < extended.len() implies #[trigger] link_is_rotation(
        extended,
        id,
        i,
    ) by {
        if i < n {
            assert(link_is_rotation(chain, id, i));
            assert(extended[i] == chain[i]);
            assert(extended[i - 1] == chain[i - 1]);
        } else {
            let m = rotation_bytes(id, n as nat);
            assert(dilithium2_verifies(
                dilithium2_detached_signature(m, keys[before.id].1),
                m,
                keys[before.id].0,
            ));
            assert(extended[i - 1] == chain.last());
        }
    }
}

/// A rotation never leaves a lineage longer than `MAX_LINEAGE` when it was
/// at most that long before.
pub proof fn lemma_lineage_bounded(before: Validator, after: Validator, link: IdentityLink, old_secret: Seq<u8>)
    requires
        before.identity_chain@.len() <= MAX_LINEAGE,
        evolved(before, after, link, old_secret),
    ensures
        after.identity_chain@.len() <= MAX_LINEAGE,
        after.identity_chain@.len() > 0,
        after.identity_chain@.last() == link,
{
}

/// A tick keeps every lineage, its anchoring in the key store and its
/// validity: it leaves ids and lineages as they were.
pub proof fn lemma_tick_keeps_lineages(
    before: Seq<Validator>,
    after: Seq<Validator>,
    drift_high: Seq<bool>,
    health: Seq<Health>,
    keys: Map<u32, (Seq<u8>, Seq<u8>)>,
)
    requires
        after.len() == before.len(),
        drift_high.len() == before.len(),
        health.len() == before.len(),
        forall|l: int| 0 <= l < before.len() ==> #[trigger] ticked(before[l], after[l], drift_high[l], health[l]),
    ensures
        ids_distinct(before) ==> ids_distinct(after),
        all_anchored(before, keys) ==> all_anchored(after, keys),
        all_lineages_valid(before) ==> all_lineages_valid(after),
        all_lineages_valid(before) ==> forall|l: int| 0 <= l < after.len() ==> #[trigger] after[l].chain_valid,
{
    if ids_distinct(before) {
        assert forall|a: int, b: int|
            0 <= a < after.len() && 0 <= b < after.len() && #[trigger] after[a].id == #[trigger] after[b].id
            implies a == b by {
            assert(ticked(before[a], after[a], drift_high[a], health[a]));
            assert(ticked(before[b], after[b], drift_high[b], health[b]));
        }
    }
    if all_anchored(before, keys) {
        assert forall|l: int| 0 <= l < after.len() implies #[trigger] lineage_anchored(after[l], keys) by {
            assert(lineage_anchored(before[l], keys));
            assert(ticked(before[l], after[l], drift_high[l], health[l]));
        }
    }
    if all_lineages_valid(before) {
        assert forall|l: int| 0 <= l < after.len() implies lineage_valid(
            #[trigger] after[l].identity_chain@,
            after[l].id as nat,
        ) by {
            assert(lineage_valid(before[l].identity_chain@, before[l].id as nat));
            assert(ticked(before[l], after[l], drift_high[l], health[l]));
        }
        assert forall|l: int| 0 <= l < after.len() implies #[trigger] after[l].chain_valid by {
            assert(lineage_valid(before[l].identity_chain@, before[l].id as nat));
            assert(ticked(before[l], after[l], drift_high[l], health[l]));
        }
    }
}

/// Adding a key pair for an id no validator holds, or leaving the store as
/// it was (as signing does), keeps every lineage anchored.
pub proof fn lemma_new_key_keeps_anchors(
    vs: Seq<Validator>,
    keys: Map<u32, (Seq<u8>, Seq<u8>)>,
    id: u32,
    pair: (Seq<u8>, Seq<u8>),
)
    requires
        all_anchored(vs, keys),
        !keys.contains_key(id),
    ensures
        all_anchored(vs, keys.insert(id, pair)),
{
    assert forall|l: int| 0 <= l < vs.len() implies #[trigger] lineage_anchored(vs[l], keys.insert(id, pair)) by {
        assert(lineage_anchored(vs[l], keys));
    }
}

/// Rotating one validator's identity, in a network whose validators have
/// distinct ids and valid lineages anchored in a well-formed key store,
/// keeps every lineage valid and the rotated validator unfractured, as long
/// as the rotated lineage was shorter than `MAX_LINEAGE`.
pub proof fn lemma_rotation_keeps_all_lineages(
    before: Seq<Validator>,
    after: Seq<Validator>,
    id: u32,
    j: int,
    keys: Map<u32, (Seq<u8>, Seq<u8>)>,
)
    requires
        ids_distinct(before),
        all_anchored(before, keys),
        all_lineages_valid(before),
        holds_signing_pairs(keys),
        first_with_id(before, id, j),
        same_except(before, after, j),
        evolved(before[j], after[j], after[j].identity_chain@.last(), keys[id].1),
        before[j].identity_chain@.len() < MAX_LINEAGE,
    ensures
        after[j].chain_valid,
        all_lineages_valid(after),
{
    assert(lineage_anchored(before[j], keys));
    assert(lineage_valid(before[j].identity_chain@, before[j].id as nat));
    lemma_rotation_keeps_lineage(before[j], after[j], after[j].identity_chain@.last(), keys);
    assert forall|l: int| 0 <= l < after.len() implies lineage_valid(
        #[trigger] after[l].identity_chain@,
        after[l].id as nat,
    ) by {
        if l != j {
            assert(after[l] == before[l]);
            assert(lineage_valid(before[l].identity_chain@, before[l].id as nat));
        }
    }
}

} // verus!
