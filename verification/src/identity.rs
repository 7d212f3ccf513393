//! Flux identities: the records kept for each authenticating identity, and
//! the registry that holds them by id.

use vstd::prelude::*;

verus! {

/// The discrete state of an identity: lifecycle epochs, session and
/// credential counters, the validator it is bound to, authentication
/// history and status. Its continuous scores (trust, continuity, drift) are
/// kept by the caller beside it, under the same id.
pub struct FluxIdentity {
    pub identity_id: String,
    pub created_epoch: u64,
    pub last_active_epoch: u64,
    pub session_count: u64,
    pub credential_depth: u64,
    pub bound_validator: u32,
    pub successful_auths: u64,
    pub failed_auths: u64,
    pub recovery_events: u64,
    pub status: String,
}

/// Epochs of inactivity after which an identity counts as idle.
pub const IDLE_EPOCHS: u64 = 600;

impl FluxIdentity {
    /// A copy of the record.
    pub fn duplicate(&self) -> (r: FluxIdentity)
        ensures
            r == *self,
    {
        FluxIdentity {
            identity_id: self.identity_id.clone(),
            created_epoch: self.created_epoch,
            last_active_epoch: self.last_active_epoch,
            session_count: self.session_count,
            credential_depth: self.credential_depth,
            bound_validator: self.bound_validator,
            successful_auths: self.successful_auths,
            failed_auths: self.failed_auths,
            recovery_events: self.recovery_events,
            status: self.status.clone(),
        }
    }
}

/// `r` is the record of a newly created identity `id`, bound to
/// `validator_id`, at epoch `epoch`.
pub open spec fn is_new_identity(r: FluxIdentity, id: Seq<char>, validator_id: u32, epoch: u64) -> bool {
    &&& r.identity_id@ == id
    &&& r.created_epoch == epoch
    &&& r.last_active_epoch == epoch
    &&& r.session_count == 0
    &&& r.credential_depth == 1
    &&& r.bound_validator == validator_id
    &&& r.successful_auths == 0
    &&& r.failed_auths == 0
    &&& r.recovery_events == 0
    &&& r.status@ == "emerging"@
}

/// The counters that a successful authentication advances can still grow.
pub open spec fn success_room(r: FluxIdentity) -> bool {
    &&& r.session_count < u64::MAX
    &&& r.successful_auths < u64::MAX
    &&& r.credential_depth < u64::MAX
}

/// The counters that a failed authentication advances can still grow.
pub open spec fn failure_room(r: FluxIdentity) -> bool {
    &&& r.failed_auths < u64::MAX
    &&& r.recovery_events < u64::MAX
}

/// `after` is `before` once a successful authentication at `epoch` is
/// recorded; it becomes established when its continuity passed 80.
pub open spec fn success_recorded(before: FluxIdentity, after: FluxIdentity, epoch: u64, established: bool) -> bool {
    &&& after.identity_id == before.identity_id
    &&& after.created_epoch == before.created_epoch
    &&& after.last_active_epoch == epoch
    &&& after.session_count == before.session_count + 1
    &&& after.credential_depth == before.credential_depth + 1
    &&& after.bound_validator == before.bound_validator
    &&& after.successful_auths == before.successful_auths + 1
    &&& after.failed_auths == before.failed_auths
    &&& after.recovery_events == before.recovery_events
    &&& after.status@ == (if established { "established"@ } else { "maturing"@ })
}

/// `after` is `before` once a failed authentication at `epoch` is recorded.
pub open spec fn failure_recorded(before: FluxIdentity, after: FluxIdentity, epoch: u64) -> bool {
    &&& after.identity_id == before.identity_id
    &&& after.created_epoch == before.created_epoch
    &&& after.last_active_epoch == epoch
    &&& after.session_count == before.session_count
    &&& after.credential_depth == before.credential_depth
    &&& after.bound_validator == before.bound_validator
    &&& after.successful_auths == before.successful_auths
    &&& after.failed_auths == before.failed_auths + 1
    &&& after.recovery_events == before.recovery_events + 1
    &&& after.status@ == "recovering"@
}

/// No two records carry the same id.
pub open spec fn ids_unique(s: Seq<FluxIdentity>) -> bool {
    forall|i: int, j: int|
        0 <= i < s.len() && 0 <= j < s.len() && #[trigger] s[i].identity_id@
            == #[trigger] s[j].identity_id@ ==> i == j
}

/// Some record carries the id `k`.
pub open spec fn has_id(s: Seq<FluxIdentity>, k: Seq<char>) -> bool {
    exists|i: int| 0 <= i < s.len() && #[trigger] s[i].identity_id@ == k
}

/// The records as a map from id to record.
pub open spec fn id_map(s: Seq<FluxIdentity>) -> Map<Seq<char>, FluxIdentity> {
    Map::new(
        |k: Seq<char>| has_id(s, k),
        |k: Seq<char>| s[choose|i: int| 0 <= i < s.len() && #[trigger] s[i].identity_id@ == k],
    )
}

/// With unique ids, the map gives the record at the position of its id.
proof fn lemma_id_map_at(s: Seq<FluxIdentity>, j: int)
    requires
        ids_unique(s),
        0 <= j < s.len(),
    ensures
        id_map(s).contains_key(s[j].identity_id@),
        id_map(s)[s[j].identity_id@] == s[j],
{
    let k = s[j].identity_id@;
    assert(has_id(s, k));
    let i = choose|i: int| 0 <= i < s.len() && #[trigger] s[i].identity_id@ == k;
    assert(s[i].identity_id@ == s[j].identity_id@);
}

/// Replacing the record at `j` by one with the same id updates the map at that id.
proof fn lemma_id_map_update(s: Seq<FluxIdentity>, j: int, v: FluxIdentity)
    requires
        ids_unique(s),
        0 <= j < s.len(),
        v.identity_id@ == s[j].identity_id@,
    ensures
        ids_unique(s.update(j, v)),
        id_map(s.update(j, v)) == id_map(s).insert(v.identity_id@, v),
{
    let t = s.update(j, v);
    assert forall|i: int, l: int|
        0 <= i < t.len() && 0 <= l < t.len() && #[trigger] t[i].identity_id@
            == #[trigger] t[l].identity_id@ implies i == l by {
        assert(t[i].identity_id@ == s[i].identity_id@);
        assert(t[l].identity_id@ == s[l].identity_id@);
    }
    assert forall|k: Seq<char>| has_id(t, k) <==> has_id(s, k) || k == v.identity_id@ by {
        if has_id(t, k) {
            let i = choose|i: int| 0 <= i < t.len() && #[trigger] t[i].identity_id@ == k;
            assert(s[i].identity_id@ == k);
        }
        if has_id(s, k) {
            let i = choose|i: int| 0 <= i < s.len() && #[trigger] s[i].identity_id@ == k;
            assert(t[i].identity_id@ == k);
        }
        if k == v.identity_id@ {
            assert(t[j].identity_id@ == k);
        }
    }
    lemma_id_map_at(t, j);
    assert forall|k: Seq<char>| #[trigger] id_map(t).contains_key(k) && k != v.identity_id@
        implies id_map(t)[k] == id_map(s)[k] by {
        let i = choose|i: int| 0 <= i < t.len() && #[trigger] t[i].identity_id@ == k;
        assert(i != j);
        assert(s[i].identity_id@ == k);
        lemma_id_map_at(t, i);
        lemma_id_map_at(s, i);
    }
    assert(id_map(t) =~= id_map(s).insert(v.identity_id@, v));
}

/// Appending a record with a new id adds it to the map.
proof fn lemma_id_map_push(s: Seq<FluxIdentity>, v: FluxIdentity)
    requires
        ids_unique(s),
        !has_id(s, v.identity_id@),
    ensures
        ids_unique(s.push(v)),
        id_map(s.push(v)) == id_map(s).insert(v.identity_id@, v),
{
    let t = s.push(v);
    let n = s.len() as int;
    assert forall|i: int, l: int|
        0 <= i < t.len() && 0 <= l < t.len() && #[trigger] t[i].identity_id@
            == #[trigger] t[l].identity_id@ implies i == l by {
        if i < n && l == n {
            assert(s[i].identity_id@ == v.identity_id@);
        } else if l < n && i == n {
            assert(s[l].identity_id@ == v.identity_id@);
        } else if i < n && l < n {
            assert(s[i].identity_id@ == s[l].identity_id@);
        }
    }
    assert forall|k: Seq<char>| has_id(t, k) <==> has_id(s, k) || k == v.identity_id@ by {
        if has_id(t, k) {
            let i = choose|i: int| 0 <= i < t.len() && #[trigger] t[i].identity_id@ == k;
            if i < n {
                assert(s[i].identity_id@ == k);
            }
        }
        if has_id(s, k) {
            let i = choose|i: int| 0 <= i < s.len() && #[trigger] s[i].identity_id@ == k;
            assert(t[i].identity_id@ == k);
        }
        if k == v.identity_id@ {
            assert(t[n].identity_id@ == k);
        }
    }
    lemma_id_map_at(t, n);
    assert forall|k: Seq<char>| #[trigger] id_map(t).contains_key(k) && k != v.identity_id@
        implies id_map(t)[k] == id_map(s)[k] by {
        let i = choose|i: int| 0 <= i < t.len() && #[trigger] t[i].identity_id@ == k;
        assert(i != n);
        assert(s[i].identity_id@ == k);
        lemma_id_map_at(t, i);
        lemma_id_map_at(s, i);
    }
    assert(id_map(t) =~= id_map(s).insert(v.identity_id@, v));
}

/// The identities known to the network, at most one record per id.
pub struct IdentityRegistry {
    pub identities: Vec<FluxIdentity>,
}

impl View for IdentityRegistry {
    type V = Map<Seq<char>, FluxIdentity>;

    open spec fn view(&self) -> Map<Seq<char>, FluxIdentity> {
        id_map(self.identities@)
    }
}

impl IdentityRegistry {
    /// The registry's invariant: ids are unique.
    pub open spec fn wf(&self) -> bool {
        ids_unique(self.identities@)
    }

    /// An empty registry.
    pub fn new() -> (r: IdentityRegistry)
        ensures
            r.wf(),
            r@ == Map::<Seq<char>, FluxIdentity>::empty(),
    {
        let r = IdentityRegistry { identities: Vec::new() };
        assert(r@ =~= Map::<Seq<char>, FluxIdentity>::empty());
        r
    }

    /// The position of the record for `identity_id`, if any.
    pub fn position(&self, identity_id: &str) -> (pos: Option<usize>)
        requires
            self.wf(),
        ensures
            match pos {
                Some(j) => j < self.identities@.len() && self.identities@[j as int].identity_id@
                    == identity_id@ && self@.contains_key(identity_id@) && self@[identity_id@]
                    == self.identities@[j as int],
                None => !self@.contains_key(identity_id@),
            },
    {
        let key = String::from_str(identity_id);
        let mut i: usize = 0;
        while i < self.identities.len()
            invariant
                self.wf(),
                key@ == identity_id@,
                i <= self.identities@.len(),
                forall|l: int| 0 <= l < i ==> #[trigger] self.identities@[l].identity_id@ != key@,
            decreases self.identities@.len() - i,
        {
            if self.identities[i].identity_id == key {
                proof {
                    lemma_id_map_at(self.identities@, i as int);
                }
                return Some(i);
            }
            i = i + 1;
        }
        assert(!has_id(self.identities@, identity_id@));
        None
    }

    /// Creates the record of a new identity bound to `validator_id` at
    /// `current_epoch`, replacing any record with that id, and returns it.
    pub fn create_identity(&mut self, identity_id: String, validator_id: u32, current_epoch: u64) -> (r: FluxIdentity)
        requires
            old(self).wf(),
        ensures
            final(self).wf(),
            is_new_identity(r, identity_id@, validator_id, current_epoch),
            final(self)@ == old(self)@.insert(identity_id@, r),
    {
        let identity = FluxIdentity {
            identity_id: identity_id.clone(),
            created_epoch: current_epoch,
            last_active_epoch: current_epoch,
            session_count: 0,
            credential_depth: 1,
            bound_validator: validator_id,
            successful_auths: 0,
            failed_auths: 0,
            recovery_events: 0,
            status: String::from_str("emerging"),
        };
        let copy = identity.duplicate();
        match self.position(identity_id.as_str()) {
            Some(j) => {
                proof {
                    lemma_id_map_update(self.identities@, j as int, identity);
                }
                self.identities.set(j, identity);
            },
            None => {
                proof {
                    if has_id(self.identities@, identity_id@) {
                        let i = choose|i: int|
                            0 <= i < self.identities@.len() && #[trigger] self.identities@[i].identity_id@
                                == identity_id@;
                        lemma_id_map_at(self.identities@, i);
                    }
                    lemma_id_map_push(self.identities@, identity);
                }
                self.identities.push(identity);
            },
        }
        copy
    }

    /// The record for `identity_id`; if there is none, creates it as
    /// `create_identity` does.
    pub fn get_or_create(&mut self, identity_id: String, validator_id: u32, current_epoch: u64) -> (r: FluxIdentity)
        requires
            old(self).wf(),
        ensures
            final(self).wf(),
            final(self)@.contains_key(identity_id@),
            r == final(self)@[identity_id@],
            old(self)@.contains_key(identity_id@) ==> final(self)@ == old(self)@,
            !old(self)@.contains_key(identity_id@) ==> final(self)@ == old(self)@.insert(identity_id@, r)
                && is_new_identity(r, identity_id@, validator_id, current_epoch),
    {
        match self.position(identity_id.as_str()) {
            Some(j) => self.identities[j].duplicate(),
            None => self.create_identity(identity_id, validator_id, current_epoch),
        }
    }

    /// Records a successful authentication of `identity_id` at
    /// `current_epoch`; `established` is whether its continuity, once
    /// raised, is above 80. Unknown ids are left alone.
    pub fn successful_auth(&mut self, identity_id: &str, current_epoch: u64, established: bool)
        requires
            old(self).wf(),
            old(self)@.contains_key(identity_id@) ==> success_room(old(self)@[identity_id@]),
        ensures
            final(self).wf(),
            old(self)@.contains_key(identity_id@) ==> final(self)@ == old(self)@.insert(
                identity_id@,
                final(self)@[identity_id@],
            ) && success_recorded(
                old(self)@[identity_id@],
                final(self)@[identity_id@],
                current_epoch,
                established,
            ),
            !old(self)@.contains_key(identity_id@) ==> final(self)@ == old(self)@,
    {
        match self.position(identity_id) {
            Some(j) => {
                let mut r = self.identities[j].duplicate();
                r.last_active_epoch = current_epoch;
                r.session_count = r.session_count + 1;
                r.successful_auths = r.successful_auths + 1;
                r.credential_depth = r.credential_depth + 1;
                if established {
                    r.status = String::from_str("established");
                } else {
                    r.status = String::from_str("maturing");
                }
                proof {
                    lemma_id_map_update(self.identities@, j as int, r);
                    lemma_id_map_at(self.identities@.update(j as int, r), j as int);
                }
                self.identities.set(j, r);
            },
            None => {},
        }
    }

    /// Records a failed authentication of `identity_id` at `current_epoch`;
    /// the identity becomes recovering. Unknown ids are left alone.
    pub fn failed_auth(&mut self, identity_id: &str, current_epoch: u64)
        requires
            old(self).wf(),
            old(self)@.contains_key(identity_id@) ==> failure_room(old(self)@[identity_id@]),
        ensures
            final(self).wf(),
            old(self)@.contains_key(identity_id@) ==> final(self)@ == old(self)@.insert(
                identity_id@,
                final(self)@[identity_id@],
            ) && failure_recorded(old(self)@[identity_id@], final(self)@[identity_id@], current_epoch),
            !old(self)@.contains_key(identity_id@) ==> final(self)@ == old(self)@,
    {
        match self.position(identity_id) {
            Some(j) => {
                let mut r = self.identities[j].duplicate();
                r.last_active_epoch = current_epoch;
                r.failed_auths = r.failed_auths + 1;
                r.recovery_events = r.recovery_events + 1;
                r.status = String::from_str("recovering");
                proof {
                    lemma_id_map_update(self.identities@, j as int, r);
                    lemma_id_map_at(self.identities@.update(j as int, r), j as int);
                }
                self.identities.set(j, r);
            },
            None => {},
        }
    }
    /// For each record, in order, whether it has been inactive for more
    /// than `IDLE_EPOCHS` epochs as of `global_epoch`.
    pub fn idle_flags(&self, global_epoch: u64) -> (idle: Vec<bool>)
        ensures
            idle@.len() == self.identities@.len(),
            forall|i: int|
                0 <= i < idle@.len() ==> #[trigger] idle@[i] == (global_epoch.saturating_sub(
                    self.identities@[i].last_active_epoch,
                ) > IDLE_EPOCHS),
    {
        let mut idle: Vec<bool> = Vec::new();
        let mut i: usize = 0;
        while i < self.identities.len()
            invariant
                i <= self.identities@.len(),
                idle@.len() == i,
                forall|l: int|
                    0 <= l < i ==> #[trigger] idle@[l] == (global_epoch.saturating_sub(
                        self.identities@[l].last_active_epoch,
                    ) > IDLE_EPOCHS),
            decreases self.identities@.len() - i,
        {
            let age = global_epoch.saturating_sub(self.identities[i].last_active_epoch);
            idle.push(age > IDLE_EPOCHS);
            i = i + 1;
        }
        idle
    }

    /// Moves each recovering identity whose drift has calmed (`calm[i]`:
    /// its drift is below 10) back to maturing.
    pub fn settle_recovering(&mut self, calm: &Vec<bool>)
        requires
            old(self).wf(),
            calm@.len() == old(self).identities@.len(),
        ensures
            final(self).wf(),
            final(self).identities@.len() == old(self).identities@.len(),
            forall|i: int|
                0 <= i < calm@.len() ==> #[trigger] settled(
                    old(self).identities@[i],
                    final(self).identities@[i],
                    calm@[i],
                ),
    {
        let recovering = String::from_str("recovering");
        let mut i: usize = 0;
        while i < self.identities.len()
            invariant
                i <= self.identities@.len(),
                self.identities@.len() == old(self).identities@.len(),
                calm@.len() == old(self).identities@.len(),
                recovering@ == "recovering"@,
                forall|l: int|
                    0 <= l < i ==> #[trigger] settled(
                        old(self).identities@[l],
                        self.identities@[l],
                        calm@[l],
                    ),
                forall|l: int| i <= l < self.identities@.len() ==> self.identities@[l] == old(self).identities@[l],
            decreases self.identities@.len() - i,
        {
            if calm[i] && self.identities[i].status == recovering {
                let mut r = self.identities[i].duplicate();
                r.status = String::from_str("maturing");
                self.identities.set(i, r);
            }
            i = i + 1;
        }
        proof {
            assert forall|a: int, b: int|
                0 <= a < self.identities@.len() && 0 <= b < self.identities@.len()
                    && #[trigger] self.identities@[a].identity_id@
                    == #[trigger] self.identities@[b].identity_id@ implies a == b by {
                assert(settled(old(self).identities@[a], self.identities@[a], calm@[a]));
                assert(settled(old(self).identities@[b], self.identities@[b], calm@[b]));
                assert(old(self).identities@[a].identity_id@ == old(self).identities@[b].identity_id@);
            }
        }
    }
}

/// `after` is `before`, moved from recovering to maturing when `calm`.
pub open spec fn settled(before: FluxIdentity, after: FluxIdentity, calm: bool) -> bool {
    &&& after.identity_id == before.identity_id
    &&& after.created_epoch == before.created_epoch
    &&& after.last_active_epoch == before.last_active_epoch
    &&& after.session_count == before.session_count
    &&& after.credential_depth == before.credential_depth
    &&& after.bound_validator == before.bound_validator
    &&& after.successful_auths == before.successful_auths
    &&& after.failed_auths == before.failed_auths
    &&& after.recovery_events == before.recovery_events
    &&& after.status@ == (if calm && before.status@ == "recovering"@ {
        "maturing"@
    } else {
        before.status@
    })
}

} // verus!
