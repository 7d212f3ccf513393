//! The key store: the Dilithium2 key pair currently held for each validator id.

use std::collections::HashMap;
use vstd::prelude::*;

use crate::crypto::{dilithium2_keypair, is_signing_pair, KeyPair};

verus! {

broadcast use vstd::std_specs::hash::group_hash_axioms;

impl KeyPair {
    /// The two halves of the pair as byte sequences: (public, secret).
    pub open spec fn bytes(&self) -> (Seq<u8>, Seq<u8>) {
        (self.public@, self.secret@)
    }

    /// A copy of the pair.
    pub fn duplicate(&self) -> (r: KeyPair)
        ensures
            r.bytes() == self.bytes(),
    {
        KeyPair { public: copy_bytes(&self.public), secret: copy_bytes(&self.secret) }
    }
}

/// A copy of a byte vector.
pub fn copy_bytes(v: &Vec<u8>) -> (r: Vec<u8>)
    ensures
        r@ == v@,
{
    let r = v.clone();
    assert(r@ =~= v@);
    r
}

/// The key pairs held for each validator id.
pub struct KeyStore {
    keys: HashMap<u32, KeyPair>,
}

impl View for KeyStore {
    type V = Map<u32, (Seq<u8>, Seq<u8>)>;

    closed spec fn view(&self) -> Map<u32, (Seq<u8>, Seq<u8>)> {
        self.keys@.map_values(|kp: KeyPair| kp.bytes())
    }
}

/// Every pair held in the map is a well-formed signing pair.
pub open spec fn holds_signing_pairs(m: Map<u32, (Seq<u8>, Seq<u8>)>) -> bool {
    forall|id: u32| #[trigger] m.contains_key(id) ==> is_signing_pair(m[id].0, m[id].1)
}

impl KeyStore {
    /// The store's invariant: every pair it holds is a well-formed signing pair.
    pub open spec fn wf(&self) -> bool {
        holds_signing_pairs(self@)
    }

    /// An empty store.
    pub fn new() -> (store: KeyStore)
        ensures
            store@ == Map::<u32, (Seq<u8>, Seq<u8>)>::empty(),
            store.wf(),
    {
        let store = KeyStore { keys: HashMap::new() };
        assert(store@ =~= Map::<u32, (Seq<u8>, Seq<u8>)>::empty());
        store
    }

    /// The pair held for `id`, if any.
    pub fn get(&self, id: u32) -> (r: Option<&KeyPair>)
        ensures
            match r {
                Some(kp) => self@.contains_key(id) && self@[id] == kp.bytes(),
                None => !self@.contains_key(id),
            },
    {
        self.keys.get(&id)
    }

    /// Whether a pair is held for `id`.
    pub fn contains(&self, id: u32) -> (r: bool)
        ensures
            r == self@.contains_key(id),
    {
        self.keys.get(&id).is_some()
    }

    /// Holds `pair` for `id`, replacing any pair held before.
    pub fn insert(&mut self, id: u32, pair: KeyPair)
        ensures
            final(self)@ == old(self)@.insert(id, pair.bytes()),
    {
        let ghost b = pair.bytes();
        self.keys.insert(id, pair);
        assert(self@ =~= old(self)@.insert(id, b));
    }

    /// Draws a fresh key pair, holds it for `id` and returns a copy of it.
    pub fn fresh_pair(&mut self, id: u32) -> (pair: KeyPair)
        requires
            old(self).wf(),
        ensures
            final(self).wf(),
            final(self)@ == old(self)@.insert(id, pair.bytes()),
            is_signing_pair(pair.public@, pair.secret@),
    {
        let pair = dilithium2_keypair();
        let copy = pair.duplicate();
        self.insert(id, pair);
        copy
    }
}

} // verus!
