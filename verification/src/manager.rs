//! The bookkeeping of the monitor manager: which monitors run, at which version, and what
//! to start or stop so that the running set follows the config store.
//!
//! The manager's loop itself (waiting for events, spawning and cancelling monitor tasks)
//! lives with the runtime; every decision it takes is made here.
use vstd::prelude::*;

use crate::config_store::{ConfigStoreError, StoredMonitor};
use crate::text::str_eq;

verus! {

/// A change to the configuration, announced to the manager.
#[derive(Debug, Clone)]
pub enum ConfigChangeEvent {
    MonitorCreated(String),
    MonitorUpdated(String),
    MonitorDeleted(String),
    FullReconcile,
}

/// What woke the manager's loop.
pub enum ManagerInput {
    /// A change event arrived.
    Event(ConfigChangeEvent),
    /// The event channel dropped this many events.
    Lagged(u64),
    /// The event channel closed.
    Closed,
    /// The poll interval passed and the store gave this fingerprint (or failed to).
    Poll(Result<u64, ConfigStoreError>),
}

/// What the manager's loop does next.
pub enum ManagerStep {
    /// Reconcile every monitor against the store.
    Reconcile,
    /// Reconcile this monitor against the store.
    ReconcileSingle(String),
    /// Stop this monitor.
    Stop(String),
    /// Stop every monitor and end the loop.
    Shutdown,
    /// Nothing to do.
    Idle,
}

/// One thing to do to the running monitors during a full reconcile.
pub enum ReconcileAction {
    /// Stop the monitor with this name.
    Stop(String),
    /// Start the monitor stored at this index of the listing, at its stored version.
    Start(usize),
}

/// What a single-monitor reconcile asks of the running monitors.
#[derive(Debug, Clone, Copy, PartialEq, Eq, Structural)]
pub enum SingleAction {
    /// The monitor runs at its stored version already.
    Unchanged,
    /// Start the monitor, which does not run.
    Start,
    /// Stop the running monitor and start it at its stored version.
    Restart,
    /// Stop the monitor (it is gone from the store) if it runs.
    Stop,
    /// The store failed; nothing changes.
    Failed,
}

// ---------------------------------------------------------------------------------------------
// The running set as a map from names to versions
// ---------------------------------------------------------------------------------------------

pub open spec fn pairs_unique(s: Seq<(Seq<char>, i64)>) -> bool {
    forall|i: int, j: int| 0 <= i < s.len() && 0 <= j < s.len() && i != j ==> s[i].0 != s[j].0
}

pub open spec fn index_of(s: Seq<(Seq<char>, i64)>, n: Seq<char>) -> Option<int> {
    if exists|i: int| 0 <= i < s.len() && #[trigger] s[i].0 == n {
        Some(choose|i: int| 0 <= i < s.len() && #[trigger] s[i].0 == n)
    } else {
        None
    }
}

/// The name-to-version map that a list of distinct (name, version) pairs describes.
pub open spec fn as_map(s: Seq<(Seq<char>, i64)>) -> Map<Seq<char>, i64> {
    Map::new(|n: Seq<char>| index_of(s, n) is Some, |n: Seq<char>| s[index_of(s, n)->0].1)
}

proof fn lemma_index_of(s: Seq<(Seq<char>, i64)>, n: Seq<char>, i: int)
    requires
        pairs_unique(s),
        0 <= i < s.len(),
        s[i].0 == n,
    ensures
        index_of(s, n) == Some(i),
{
    let c = choose|k: int| 0 <= k < s.len() && #[trigger] s[k].0 == n;
    assert(0 <= c < s.len() && s[c].0 == n);
}

proof fn lemma_map_at(s: Seq<(Seq<char>, i64)>, i: int)
    requires
        pairs_unique(s),
        0 <= i < s.len(),
    ensures
        as_map(s).contains_key(s[i].0),
        as_map(s)[s[i].0] == s[i].1,
{
    lemma_index_of(s, s[i].0, i);
}

proof fn lemma_map_remove(s: Seq<(Seq<char>, i64)>, k: int)
    requires
        pairs_unique(s),
        0 <= k < s.len(),
    ensures
        pairs_unique(s.remove(k)),
        as_map(s.remove(k)) == as_map(s).remove(s[k].0),
{
    let t = s.remove(k);
    assert(pairs_unique(t)) by {
        assert forall|i: int, j: int| 0 <= i < t.len() && 0 <= j < t.len() && i != j implies t[i].0
            != t[j].0 by {
            let ii = if i < k { i } else { i + 1 };
            let jj = if j < k { j } else { j + 1 };
            assert(t[i] == s[ii] && t[j] == s[jj]);
        }
    }
    assert forall|n: Seq<char>| #[trigger] as_map(t).contains_key(n) == as_map(s).remove(s[k].0).contains_key(n) by {
        if as_map(t).contains_key(n) {
            let i = index_of(t, n)->0;
            let ii = if i < k { i } else { i + 1 };
            assert(t[i] == s[ii]);
            lemma_map_at(s, ii);
            assert(ii != k);
            assert(n != s[k].0);
        }
        if as_map(s).remove(s[k].0).contains_key(n) {
            let ii = index_of(s, n)->0;
            assert(ii != k);
            let i = if ii < k { ii } else { ii - 1 };
            assert(t[i] == s[ii]);
            lemma_map_at(t, i);
        }
    }
    assert forall|n: Seq<char>| #[trigger] as_map(t).contains_key(n) implies as_map(t)[n] == as_map(s)[n] by {
        let i = index_of(t, n)->0;
        let ii = if i < k { i } else { i + 1 };
        assert(t[i] == s[ii]);
        lemma_map_at(s, ii);
        lemma_map_at(t, i);
    }
    assert(as_map(t) =~= as_map(s).remove(s[k].0));
}

proof fn lemma_map_update(s: Seq<(Seq<char>, i64)>, k: int, v: i64)
    requires
        pairs_unique(s),
        0 <= k < s.len(),
    ensures
        pairs_unique(s.update(k, (s[k].0, v))),
        as_map(s.update(k, (s[k].0, v))) == as_map(s).insert(s[k].0, v),
{
    let t = s.update(k, (s[k].0, v));
    assert(pairs_unique(t)) by {
        assert forall|i: int, j: int| 0 <= i < t.len() && 0 <= j < t.len() && i != j implies t[i].0
            != t[j].0 by {
            assert(t[i].0 == s[i].0 && t[j].0 == s[j].0);
        }
    }
    assert forall|n: Seq<char>| #[trigger] as_map(t).contains_key(n) == as_map(s).insert(s[k].0, v).contains_key(n) by {
        if as_map(t).contains_key(n) {
            let i = index_of(t, n)->0;
            assert(t[i].0 == s[i].0);
            lemma_map_at(s, i);
        }
        if as_map(s).contains_key(n) {
            let i = index_of(s, n)->0;
            assert(t[i].0 == s[i].0);
            lemma_map_at(t, i);
        }
        lemma_map_at(t, k);
    }
    assert forall|n: Seq<char>| #[trigger] as_map(t).contains_key(n) implies as_map(t)[n] == as_map(s).insert(s[k].0, v)[n] by {
        let i = index_of(t, n)->0;
        assert(t[i].0 == s[i].0);
        lemma_map_at(t, i);
        if i != k {
            lemma_map_at(s, i);
        }
    }
    assert(as_map(t) =~= as_map(s).insert(s[k].0, v));
}

proof fn lemma_map_push(s: Seq<(Seq<char>, i64)>, n: Seq<char>, v: i64)
    requires
        pairs_unique(s),
        !as_map(s).contains_key(n),
    ensures
        pairs_unique(s.push((n, v))),
        as_map(s.push((n, v))) == as_map(s).insert(n, v),
{
    let t = s.push((n, v));
    assert forall|i: int| 0 <= i < s.len() implies s[i].0 != n by {
        if s[i].0 == n {
            lemma_map_at(s, i);
        }
    }
    assert(pairs_unique(t)) by {
        assert forall|i: int, j: int| 0 <= i < t.len() && 0 <= j < t.len() && i != j implies t[i].0
            != t[j].0 by {
            if i < s.len() && j < s.len() {
                assert(t[i] == s[i] && t[j] == s[j]);
            } else if i < s.len() {
                assert(t[i] == s[i]);
            } else {
                assert(t[j] == s[j]);
            }
        }
    }
    assert forall|m: Seq<char>| #[trigger] as_map(t).contains_key(m) == as_map(s).insert(n, v).contains_key(m) by {
        if as_map(t).contains_key(m) {
            let i = index_of(t, m)->0;
            if i < s.len() {
                assert(t[i] == s[i]);
                lemma_map_at(s, i);
            }
        }
        if as_map(s).contains_key(m) {
            let i = index_of(s, m)->0;
            assert(t[i] == s[i]);
            lemma_map_at(t, i);
        }
        lemma_map_at(t, s.len() as int);
    }
    assert forall|m: Seq<char>| #[trigger] as_map(t).contains_key(m) implies as_map(t)[m] == as_map(s).insert(n, v)[m] by {
        let i = index_of(t, m)->0;
        lemma_map_at(t, i);
        if i < s.len() {
            assert(t[i] == s[i]);
            lemma_map_at(s, i);
        }
    }
    assert(as_map(t) =~= as_map(s).insert(n, v));
}

// ---------------------------------------------------------------------------------------------
// The store's listing and what a reconcile makes of it
// ---------------------------------------------------------------------------------------------

/// Some stored monitor is named `n`.
pub open spec fn in_listing(db: Seq<StoredMonitor>, n: Seq<char>) -> bool {
    exists|i: int| 0 <= i < db.len() && #[trigger] db[i].monitor.name@ == n
}

/// No later stored monitor has the name of the one at `i`.
pub open spec fn is_last_of_name(db: Seq<StoredMonitor>, i: int) -> bool {
    forall|j: int| i < j < db.len() ==> #[trigger] db[j].monitor.name@ != db[i].monitor.name@
}

/// The version of the last stored monitor named `n`.
pub open spec fn latest_version(db: Seq<StoredMonitor>, n: Seq<char>) -> i64
    decreases db.len(),
{
    if db.len() == 0 {
        0
    } else if db.last().monitor.name@ == n {
        db.last().version
    } else {
        latest_version(db.drop_last(), n)
    }
}

/// The running set that matches a listing: each listed name at the version of its last
/// listing.
pub open spec fn listing_map(db: Seq<StoredMonitor>) -> Map<Seq<char>, i64> {
    Map::new(|n: Seq<char>| in_listing(db, n), |n: Seq<char>| latest_version(db, n))
}

proof fn lemma_latest_version(db: Seq<StoredMonitor>, i: int)
    requires
        0 <= i < db.len(),
        is_last_of_name(db, i),
    ensures
        latest_version(db, db[i].monitor.name@) == db[i].version,
    decreases db.len(),
{
    if i != db.len() - 1 {
        assert(db.last().monitor.name@ != db[i].monitor.name@);
        let d = db.drop_last();
        assert(d[i] == db[i]);
        assert forall|j: int| i < j < d.len() implies #[trigger] d[j].monitor.name@ != d[i].monitor.name@ by {
            assert(d[j] == db[j]);
        }
        lemma_latest_version(d, i);
    }
}

proof fn lemma_has_last(db: Seq<StoredMonitor>, n: Seq<char>) -> (k: int)
    requires
        in_listing(db, n),
    ensures
        0 <= k < db.len(),
        db[k].monitor.name@ == n,
        is_last_of_name(db, k),
    decreases db.len(),
{
    if db.last().monitor.name@ == n {
        (db.len() - 1) as int
    } else {
        let d = db.drop_last();
        let i = choose|i: int| 0 <= i < db.len() && #[trigger] db[i].monitor.name@ == n;
        assert(i != db.len() - 1);
        assert(d[i] == db[i]);
        let k = lemma_has_last(d, n);
        assert(d[k] == db[k]);
        assert forall|j: int| k < j < db.len() implies #[trigger] db[j].monitor.name@ != db[k].monitor.name@ by {
            if j < d.len() {
                assert(d[j] == db[j]);
            }
        }
        k
    }
}

/// The name an action concerns.
pub open spec fn action_name(db: Seq<StoredMonitor>, a: ReconcileAction) -> Seq<char> {
    match a {
        ReconcileAction::Stop(n) => n@,
        ReconcileAction::Start(i) => db[i as int].monitor.name@,
    }
}

/// Performs one action on a running set: stopping needs the monitor to run, starting
/// needs it not to run; `None` when the action does not fit.
pub open spec fn apply_action(
    m: Map<Seq<char>, i64>,
    db: Seq<StoredMonitor>,
    a: ReconcileAction,
) -> Option<Map<Seq<char>, i64>> {
    match a {
        ReconcileAction::Stop(n) => if m.contains_key(n@) {
            Some(m.remove(n@))
        } else {
            None
        },
        ReconcileAction::Start(i) => if 0 <= i < db.len() && !m.contains_key(db[i as int].monitor.name@) {
            Some(m.insert(db[i as int].monitor.name@, db[i as int].version))
        } else {
            None
        },
    }
}

/// Performs the actions in order; `None` when one of them does not fit.
pub open spec fn replay(
    m: Map<Seq<char>, i64>,
    db: Seq<StoredMonitor>,
    acts: Seq<ReconcileAction>,
) -> Option<Map<Seq<char>, i64>>
    decreases acts.len(),
{
    if acts.len() == 0 {
        Some(m)
    } else {
        match replay(m, db, acts.drop_last()) {
            Some(m2) => apply_action(m2, db, acts.last()),
            None => None,
        }
    }
}

/// The action is needed: it stops a monitor that is gone from the listing or listed at
/// another version, or starts the last listing of a name that does not run at that version.
pub open spec fn action_needed(
    old: Map<Seq<char>, i64>,
    db: Seq<StoredMonitor>,
    a: ReconcileAction,
) -> bool {
    match a {
        ReconcileAction::Stop(n) => old.contains_key(n@) && !(in_listing(db, n@) && latest_version(
            db,
            n@,
        ) == old[n@]),
        ReconcileAction::Start(i) => 0 <= i < db.len() && is_last_of_name(db, i as int) && !(
        old.contains_key(db[i as int].monitor.name@) && old[db[i as int].monitor.name@]
            == db[i as int].version),
    }
}

/// The step of the manager's loop for what woke it: a full reconcile on request, after
/// lost events, or when the polled fingerprint differs from the last one seen; a
/// single-monitor reconcile on a creation or update; a stop on a deletion; shutdown
/// when the channel closed.
pub open spec fn step_for(last_fingerprint: u64, input: ManagerInput) -> ManagerStep {
    match input {
        ManagerInput::Event(ConfigChangeEvent::FullReconcile) => ManagerStep::Reconcile,
        ManagerInput::Event(ConfigChangeEvent::MonitorCreated(n)) => ManagerStep::ReconcileSingle(n),
        ManagerInput::Event(ConfigChangeEvent::MonitorUpdated(n)) => ManagerStep::ReconcileSingle(n),
        ManagerInput::Event(ConfigChangeEvent::MonitorDeleted(n)) => ManagerStep::Stop(n),
        ManagerInput::Lagged(_) => ManagerStep::Reconcile,
        ManagerInput::Closed => ManagerStep::Shutdown,
        ManagerInput::Poll(Ok(fp)) => if fp != last_fingerprint {
            ManagerStep::Reconcile
        } else {
            ManagerStep::Idle
        },
        ManagerInput::Poll(Err(_)) => ManagerStep::Idle,
    }
}

/// Some listing before index `i` is the last one of name `n`.
pub open spec fn processed(db: Seq<StoredMonitor>, n: Seq<char>, i: int) -> bool {
    exists|t: int| 0 <= t < i && #[trigger] db[t].monitor.name@ == n && is_last_of_name(db, t)
}

proof fn lemma_processed_step(db: Seq<StoredMonitor>, i: int)
    requires
        0 <= i < db.len(),
    ensures
        forall|n: Seq<char>| #[trigger] processed(db, n, i + 1) == (processed(db, n, i) || (n
            == db[i].monitor.name@ && is_last_of_name(db, i))),
{
    assert forall|n: Seq<char>| #[trigger] processed(db, n, i + 1) == (processed(db, n, i) || (n
        == db[i].monitor.name@ && is_last_of_name(db, i))) by {
        if processed(db, n, i + 1) {
            let t = choose|t: int| 0 <= t < i + 1 && #[trigger] db[t].monitor.name@ == n && is_last_of_name(db, t);
            if t < i {
                assert(processed(db, n, i));
            }
        }
        if processed(db, n, i) {
            let t = choose|t: int| 0 <= t < i && #[trigger] db[t].monitor.name@ == n && is_last_of_name(db, t);
            assert(0 <= t < i + 1);
        }
    }
}

proof fn lemma_replay_push(
    m: Map<Seq<char>, i64>,
    db: Seq<StoredMonitor>,
    acts: Seq<ReconcileAction>,
    a: ReconcileAction,
)
    ensures
        replay(m, db, acts.push(a)) == match replay(m, db, acts) {
            Some(m2) => apply_action(m2, db, a),
            None => None,
        },
{
    assert(acts.push(a).drop_last() =~= acts);
}

/// Whether some listing is named `name`.
fn listed(db: &Vec<StoredMonitor>, name: &str) -> (r: bool)
    ensures
        r == in_listing(db@, name@),
{
    let mut i: usize = 0;
    while i < db.len()
        invariant
            i <= db@.len(),
            forall|k: int| 0 <= k < i ==> #[trigger] db@[k].monitor.name@ != name@,
        decreases db@.len() - i,
    {
        if str_eq(db[i].monitor.name.as_str(), name) {
            return true;
        }
        i = i + 1;
    }
    false
}

/// Whether no later listing has the name of listing `i`.
fn last_listing_of_name(db: &Vec<StoredMonitor>, i: usize) -> (r: bool)
    requires
        i < db@.len(),
    ensures
        r == is_last_of_name(db@, i as int),
{
    let n = db.len();
    assert(i < n);
    let mut j: usize = i + 1;
    while j < db.len()
        invariant
            i < j <= db@.len(),
            forall|k: int| i < k < j ==> #[trigger] db@[k].monitor.name@ != db@[i as int].monitor.name@,
        decreases db@.len() - j,
    {
        if str_eq(db[j].monitor.name.as_str(), db[i].monitor.name.as_str()) {
            return false;
        }
        j = j + 1;
    }
    true
}

/// A second full reconcile against an unchanged listing has nothing to do: once the
/// running set matches the listing, no action is needed.
pub proof fn law_reconcile_idempotent(db: Seq<StoredMonitor>, acts: Seq<ReconcileAction>)
    requires
        forall|k: int| 0 <= k < acts.len() ==> action_needed(listing_map(db), db, #[trigger] acts[k]),
    ensures
        acts.len() == 0,
{
    if acts.len() > 0 {
        let a = acts[0];
        assert(action_needed(listing_map(db), db, a));
        match a {
            ReconcileAction::Stop(n) => {}
            ReconcileAction::Start(i) => {
                lemma_latest_version(db, i as int);
                assert(in_listing(db, db[i as int].monitor.name@));
            }
        }
    }
}

/// A poll that finds the configuration fingerprint changed, to any other value whether
/// larger or smaller, leads to a full reconcile; a poll that finds the fingerprint last
/// seen leads to nothing.
pub proof fn law_poll_reconciles_on_any_change(last: u64, polled: u64)
    ensures
        polled != last ==> step_for(last, ManagerInput::Poll(Ok(polled))) == ManagerStep::Reconcile,
        polled == last ==> step_for(last, ManagerInput::Poll(Ok(polled))) == ManagerStep::Idle,
{
}

/// After a full reconcile against listing `db`, every listed monitor runs at the version
/// of its last listing; so a single-monitor reconcile given that listing finds it running
/// at its stored version and leaves it alone.
pub proof fn law_reconciled_monitor_is_current(db: Seq<StoredMonitor>, i: int)
    requires
        0 <= i < db.len(),
        is_last_of_name(db, i),
    ensures
        listing_map(db).contains_key(db[i].monitor.name@),
        listing_map(db)[db[i].monitor.name@] == db[i].version,
{
    lemma_latest_version(db, i);
    assert(in_listing(db, db[i].monitor.name@));
}

/// The manager's view of which monitors run (by name, with the version they run at) and
/// of the last configuration fingerprint it saw.
pub struct ManagerState {
    running: Vec<(String, i64)>,
    last_fingerprint: u64,
}

pub open spec fn pairs_view(v: Seq<(String, i64)>) -> Seq<(Seq<char>, i64)> {
    v.map_values(|p: (String, i64)| (p.0@, p.1))
}

impl ManagerState {
    #[verifier::type_invariant]
    spec fn inv(self) -> bool {
        pairs_unique(pairs_view(self.running@))
    }

    /// The running monitors: name to version.
    pub closed spec fn running(self) -> Map<Seq<char>, i64> {
        as_map(pairs_view(self.running@))
    }

    /// The last configuration fingerprint seen.
    pub closed spec fn last_fingerprint(self) -> u64 {
        self.last_fingerprint
    }

    /// Nothing runs and no fingerprint was seen (it reads 0).
    pub fn new() -> (r: Self)
        ensures
            r.running() == Map::<Seq<char>, i64>::empty(),
            r.last_fingerprint() == 0,
    {
        let r = ManagerState { running: Vec::new(), last_fingerprint: 0 };
        assert(r.running() =~= Map::<Seq<char>, i64>::empty());
        r
    }

    fn find(&self, name: &str) -> (r: Option<usize>)
        ensures
            match r {
                Some(i) => i < self.running@.len() && self.running@[i as int].0@ == name@,
                None => !self.running().contains_key(name@),
            },
    {
        let mut i: usize = 0;
        while i < self.running.len()
            invariant
                i <= self.running@.len(),
                forall|k: int| 0 <= k < i ==> self.running@[k].0@ != name@,
            decreases self.running@.len() - i,
        {
            if str_eq(self.running[i].0.as_str(), name) {
                return Some(i);
            }
            i = i + 1;
        }
        proof {
            let s = pairs_view(self.running@);
            if self.running().contains_key(name@) {
                let k = index_of(s, name@)->0;
                assert(s[k].0 == self.running@[k].0@);
            }
        }
        None
    }

    /// The version at which `name` runs, if it runs.
    pub fn running_version(&self, name: &str) -> (r: Option<i64>)
        ensures
            r == (if self.running().contains_key(name@) {
                Some(self.running()[name@])
            } else {
                None::<i64>
            }),
    {
        proof {
            use_type_invariant(self);
        }
        match self.find(name) {
            Some(i) => {
                proof {
                    lemma_map_at(pairs_view(self.running@), i as int);
                }
                Some(self.running[i].1)
            },
            None => None,
        }
    }

    /// Forgets monitor `name`; tells whether it ran.
    pub fn stop_monitor(&mut self, name: &str) -> (r: bool)
        ensures
            r == old(self).running().contains_key(name@),
            final(self).running() == old(self).running().remove(name@),
            final(self).last_fingerprint() == old(self).last_fingerprint(),
    {
        proof {
            use_type_invariant(&*self);
        }
        match self.find(name) {
            Some(i) => {
                let mut running: Vec<(String, i64)> = Vec::new();
                std::mem::swap(&mut running, &mut self.running);
                let ghost s = pairs_view(running@);
                proof {
                    lemma_map_at(s, i as int);
                    lemma_map_remove(s, i as int);
                }
                running.remove(i);
                assert(pairs_view(running@) =~= s.remove(i as int));
                self.running = running;
                true
            },
            None => {
                assert(self.running().remove(name@) =~= self.running());
                false
            },
        }
    }

    /// Records that `name` runs at version `version`.
    fn set_running(&mut self, name: &str, version: i64)
        ensures
            final(self).running() == old(self).running().insert(name@, version),
            final(self).last_fingerprint() == old(self).last_fingerprint(),
    {
        proof {
            use_type_invariant(&*self);
        }
        let found = self.find(name);
        let mut running: Vec<(String, i64)> = Vec::new();
        std::mem::swap(&mut running, &mut self.running);
        let ghost s = pairs_view(running@);
        match found {
            Some(i) => {
                proof {
                    lemma_map_update(s, i as int, version);
                }
                let entry = (running[i].0.clone(), version);
                running.set(i, entry);
                assert(pairs_view(running@) =~= s.update(i as int, (s[i as int].0, version)));
            },
            None => {
                proof {
                    lemma_map_push(s, name@, version);
                }
                running.push((name.to_owned(), version));
                assert(pairs_view(running@) =~= s.push((name@, version)));
            },
        }
        self.running = running;
    }

    /// The names of running monitors that the listing does not hold.
    fn names_not_listed(&self, db: &Vec<StoredMonitor>) -> (r: Vec<String>)
        ensures
            forall|k: int| 0 <= k < r@.len() ==> self.running().contains_key(#[trigger] r@[k]@)
                && !in_listing(db@, r@[k]@),
            forall|n: Seq<char>| self.running().contains_key(n) && !in_listing(db@, n)
                ==> exists|k: int| 0 <= k < r@.len() && #[trigger] r@[k]@ == n,
            forall|j: int, k: int| 0 <= j < k < r@.len() ==> r@[j]@ != r@[k]@,
    {
        proof {
            use_type_invariant(self);
        }
        let ghost s = pairs_view(self.running@);
        let mut out: Vec<String> = Vec::new();
        let mut i: usize = 0;
        while i < self.running.len()
            invariant
                i <= self.running@.len(),
                s == pairs_view(self.running@),
                pairs_unique(s),
                forall|k: int| #![trigger out@[k]] 0 <= k < out@.len() ==> exists|t: int| 0 <= t < i && #[trigger] s[t].0 == out@[k]@,
                forall|k: int| 0 <= k < out@.len() ==> !in_listing(db@, #[trigger] out@[k]@),
                forall|t: int| 0 <= t < i && !in_listing(db@, #[trigger] s[t].0)
                    ==> exists|k: int| 0 <= k < out@.len() && #[trigger] out@[k]@ == s[t].0,
                forall|j: int, k: int| 0 <= j < k < out@.len() ==> out@[j]@ != out@[k]@,
            decreases self.running@.len() - i,
        {
            let name = &self.running[i].0;
            assert(s[i as int].0 == name@);
            let ghost old_out = out@;
            if !listed(db, name.as_str()) {
                proof {
                    assert forall|k: int| 0 <= k < out@.len() implies out@[k]@ != name@ by {
                        let t = choose|t: int| 0 <= t < i && #[trigger] s[t].0 == out@[k]@;
                        assert(s[t].0 != s[i as int].0);
                    }
                }
                out.push(name.clone());
                proof {
                    assert(out@[out@.len() - 1]@ == s[i as int].0);
                }
            }
            proof {
                assert forall|t: int| 0 <= t < i + 1 && !in_listing(db@, #[trigger] s[t].0)
                    implies exists|k: int| 0 <= k < out@.len() && #[trigger] out@[k]@ == s[t].0 by {
                    if t < i {
                        let k = choose|k: int| 0 <= k < old_out.len() && #[trigger] old_out[k]@ == s[t].0;
                        assert(out@[k] == old_out[k]);
                    } else {
                        assert(out@[out@.len() - 1]@ == s[i as int].0);
                    }
                }
            }
            i = i + 1;
        }
        proof {
            assert forall|k: int| 0 <= k < out@.len() implies self.running().contains_key(#[trigger] out@[k]@) by {
                let t = choose|t: int| 0 <= t < i && #[trigger] s[t].0 == out@[k]@;
                lemma_map_at(s, t);
            }
            assert forall|n: Seq<char>| self.running().contains_key(n) && !in_listing(db@, n)
                implies exists|k: int| 0 <= k < out@.len() && #[trigger] out@[k]@ == n by {
                let t = index_of(s, n)->0;
                assert(s[t].0 == n);
            }
        }
        out
    }

    /// Full reconciliation against the store's listing `db`: afterwards exactly the listed
    /// monitors run, each at the version of its last listing. The actions returned,
    /// performed in order on the monitors that ran before, each stop a running monitor or
    /// start one that does not run, and lead to that state; none is needless (a monitor
    /// already running at its listed version is left alone).
    pub fn reconcile(&mut self, db: &Vec<StoredMonitor>) -> (acts: Vec<ReconcileAction>)
        ensures
            final(self).running() == listing_map(db@),
            replay(old(self).running(), db@, acts@) == Some(listing_map(db@)),
            forall|k: int| 0 <= k < acts@.len() ==> action_needed(old(self).running(), db@, #[trigger] acts@[k]),
            final(self).last_fingerprint() == old(self).last_fingerprint(),
    {
        let ghost old_map = self.running();
        let to_stop = self.names_not_listed(db);
        let mut acts: Vec<ReconcileAction> = Vec::new();
        let mut k: usize = 0;
        while k < to_stop.len()
            invariant
                k <= to_stop@.len(),
                forall|t: int| 0 <= t < to_stop@.len() ==> old_map.contains_key(#[trigger] to_stop@[t]@)
                    && !in_listing(db@, to_stop@[t]@),
                forall|j: int, t: int| 0 <= j < t < to_stop@.len() ==> to_stop@[j]@ != to_stop@[t]@,
                forall|n: Seq<char>| #[trigger] self.running().contains_key(n) <==> (old_map.contains_key(n)
                    && !(exists|t: int| 0 <= t < k && #[trigger] to_stop@[t]@ == n)),
                forall|n: Seq<char>| #[trigger] self.running().contains_key(n) ==> self.running()[n] == old_map[n],
                replay(old_map, db@, acts@) == Some(self.running()),
                forall|t: int| 0 <= t < acts@.len() ==> action_needed(old_map, db@, #[trigger] acts@[t]),
                self.last_fingerprint() == old(self).last_fingerprint(),
            decreases to_stop@.len() - k,
        {
            let ghost before = self.running();
            let ghost acts_before = acts@;
            let name = &to_stop[k];
            assert(before.contains_key(name@)) by {
                assert forall|t: int| 0 <= t < k implies to_stop@[t]@ != name@ by {}
            }
            self.stop_monitor(name.as_str());
            let a = ReconcileAction::Stop(name.clone());
            acts.push(a);
            proof {
                lemma_replay_push(old_map, db@, acts_before, a);
                assert(self.running() =~= before.remove(name@));
                assert forall|n: Seq<char>| #[trigger] self.running().contains_key(n) <==> (old_map.contains_key(n)
                    && !(exists|t: int| 0 <= t < k + 1 && #[trigger] to_stop@[t]@ == n)) by {
                    if n == name@ {
                        assert(to_stop@[k as int]@ == n);
                    }
                }
            }
            k = k + 1;
        }
        proof {
            assert forall|n: Seq<char>| #[trigger] self.running().contains_key(n) <==> (old_map.contains_key(n)
                && in_listing(db@, n)) by {
                if old_map.contains_key(n) && !in_listing(db@, n) {
                    let t = choose|t: int| 0 <= t < to_stop@.len() && #[trigger] to_stop@[t]@ == n;
                }
                if exists|t: int| 0 <= t < k && #[trigger] to_stop@[t]@ == n {
                    let t = choose|t: int| 0 <= t < k && #[trigger] to_stop@[t]@ == n;
                    assert(!in_listing(db@, to_stop@[t]@));
                }
            }
        }
        let mut i: usize = 0;
        while i < db.len()
            invariant
                i <= db@.len(),
                forall|n: Seq<char>| #[trigger] self.running().contains_key(n) <==> (in_listing(db@, n)
                    && (old_map.contains_key(n) || processed(db@, n, i as int))),
                forall|n: Seq<char>| #[trigger] self.running().contains_key(n) ==> self.running()[n] == (if processed(db@, n, i as int) {
                    latest_version(db@, n)
                } else {
                    old_map[n]
                }),
                replay(old_map, db@, acts@) == Some(self.running()),
                forall|t: int| 0 <= t < acts@.len() ==> action_needed(old_map, db@, #[trigger] acts@[t]),
                self.last_fingerprint() == old(self).last_fingerprint(),
            decreases db@.len() - i,
        {
            let ghost before = self.running();
            let ghost acts_before = acts@;
            let ghost n = db@[i as int].monitor.name@;
            proof {
                lemma_processed_step(db@, i as int);
            }
            if last_listing_of_name(db, i) {
                proof {
                    lemma_latest_version(db@, i as int);
                    assert(!processed(db@, n, i as int)) by {
                        if processed(db@, n, i as int) {
                            let t = choose|t: int| 0 <= t < i && #[trigger] db@[t].monitor.name@ == n
                                && is_last_of_name(db@, t);
                            assert(db@[i as int].monitor.name@ != db@[t].monitor.name@);
                        }
                    }
                    assert(in_listing(db@, n));
                }
                let name = db[i].monitor.name.as_str();
                let version = db[i].version;
                match self.running_version(name) {
                    None => {
                        let a = ReconcileAction::Start(i);
                        acts.push(a);
                        self.set_running(name, version);
                        proof {
                            lemma_replay_push(old_map, db@, acts_before, a);
                        }
                    },
                    Some(w) => {
                        if w != version {
                            let a1 = ReconcileAction::Stop(db[i].monitor.name.clone());
                            acts.push(a1);
                            let a2 = ReconcileAction::Start(i);
                            acts.push(a2);
                            self.set_running(name, version);
                            proof {
                                lemma_replay_push(old_map, db@, acts_before, a1);
                                lemma_replay_push(old_map, db@, acts_before.push(a1), a2);
                                assert(acts@ =~= acts_before.push(a1).push(a2));
                                assert(before.remove(n).insert(n, version) =~= before.insert(n, version));
                            }
                        }
                    },
                }
            }
            i = i + 1;
        }
        proof {
            assert forall|n: Seq<char>| in_listing(db@, n) implies processed(db@, n, db@.len() as int) by {
                let t = lemma_has_last(db@, n);
            }
            assert(self.running() =~= listing_map(db@));
        }
        acts
    }

    /// Reconciles monitor `name` with what the store answered when asked for it. A stored
    /// monitor that does not run is started; one that runs at another version is
    /// restarted; one that runs at its stored version is left alone. A monitor the store
    /// no longer has is stopped. A failure of the store changes nothing.
    pub fn reconcile_single(&mut self, name: &str, lookup: &Result<StoredMonitor, ConfigStoreError>) -> (r: SingleAction)
        ensures
            final(self).last_fingerprint() == old(self).last_fingerprint(),
            lookup matches Ok(s) ==> {
                let before = old(self).running();
                &&& !before.contains_key(name@) ==> r == SingleAction::Start && final(self).running()
                    == before.insert(s.monitor.name@, s.version)
                &&& before.contains_key(name@) && before[name@] != s.version ==> r == SingleAction::Restart
                    && final(self).running() == before.remove(name@).insert(s.monitor.name@, s.version)
                &&& before.contains_key(name@) && before[name@] == s.version ==> r == SingleAction::Unchanged
                    && final(self).running() == before
            },
            lookup matches Err(ConfigStoreError::NotFound(_)) ==> r == SingleAction::Stop
                && final(self).running() == old(self).running().remove(name@),
            lookup matches Err(e) ==> (!(e is NotFound) ==> r == SingleAction::Failed
                && final(self).running() == old(self).running()),
    {
        match lookup {
            Ok(stored) => {
                let current = self.running_version(name);
                match current {
                    None => {
                        self.set_running(stored.monitor.name.as_str(), stored.version);
                        SingleAction::Start
                    },
                    Some(v) => {
                        if v != stored.version {
                            self.stop_monitor(name);
                            self.set_running(stored.monitor.name.as_str(), stored.version);
                            SingleAction::Restart
                        } else {
                            SingleAction::Unchanged
                        }
                    },
                }
            },
            Err(ConfigStoreError::NotFound(_)) => {
                self.stop_monitor(name);
                SingleAction::Stop
            },
            Err(_) => SingleAction::Failed,
        }
    }

    /// Forgets every running monitor and gives their names, each once.
    pub fn stop_all(&mut self) -> (r: Vec<String>)
        ensures
            final(self).running() == Map::<Seq<char>, i64>::empty(),
            final(self).last_fingerprint() == old(self).last_fingerprint(),
            forall|n: Seq<char>| old(self).running().contains_key(n) <==> exists|k: int| 0 <= k < r@.len() && #[trigger] r@[k]@ == n,
            forall|j: int, k: int| 0 <= j < k < r@.len() ==> r@[j]@ != r@[k]@,
    {
        proof {
            use_type_invariant(&*self);
        }
        let ghost s = pairs_view(self.running@);
        let mut names: Vec<String> = Vec::new();
        let mut i: usize = 0;
        while i < self.running.len()
            invariant
                i <= self.running@.len(),
                s == pairs_view(self.running@),
                names@.len() == i,
                forall|k: int| 0 <= k < i ==> #[trigger] names@[k]@ == s[k].0,
            decreases self.running@.len() - i,
        {
            names.push(self.running[i].0.clone());
            i = i + 1;
        }
        proof {
            assert forall|n: Seq<char>| self.running().contains_key(n) <==> exists|k: int| 0 <= k < names@.len() && #[trigger] names@[k]@ == n by {
                if self.running().contains_key(n) {
                    let t = index_of(s, n)->0;
                    assert(names@[t]@ == n);
                }
                if exists|k: int| 0 <= k < names@.len() && #[trigger] names@[k]@ == n {
                    let k = choose|k: int| 0 <= k < names@.len() && #[trigger] names@[k]@ == n;
                    lemma_map_at(s, k);
                }
            }
            assert forall|j: int, k: int| 0 <= j < k < names@.len() implies names@[j]@ != names@[k]@ by {
                assert(names@[j]@ == s[j].0 && names@[k]@ == s[k].0);
            }
        }
        self.running = Vec::new();
        assert(self.running() =~= Map::<Seq<char>, i64>::empty());
        names
    }

    /// Records the fingerprint the store gave, if it gave one.
    pub fn record_fingerprint(&mut self, fingerprint: Result<u64, ConfigStoreError>)
        ensures
            final(self).running() == old(self).running(),
            fingerprint matches Ok(fp) ==> final(self).last_fingerprint() == fp,
            fingerprint is Err ==> final(self).last_fingerprint() == old(self).last_fingerprint(),
    {
        proof {
            use_type_invariant(&*self);
        }
        if let Ok(fp) = fingerprint {
            self.last_fingerprint = fp;
        }
    }

    /// The step to take for what woke the manager's loop.
    pub fn next_step(&self, input: ManagerInput) -> (r: ManagerStep)
        ensures
            r == step_for(self.last_fingerprint(), input),
    {
        match input {
            ManagerInput::Event(ConfigChangeEvent::FullReconcile) => ManagerStep::Reconcile,
            ManagerInput::Event(ConfigChangeEvent::MonitorCreated(n)) => ManagerStep::ReconcileSingle(n),
            ManagerInput::Event(ConfigChangeEvent::MonitorUpdated(n)) => ManagerStep::ReconcileSingle(n),
            ManagerInput::Event(ConfigChangeEvent::MonitorDeleted(n)) => ManagerStep::Stop(n),
            ManagerInput::Lagged(_) => ManagerStep::Reconcile,
            ManagerInput::Closed => ManagerStep::Shutdown,
            ManagerInput::Poll(Ok(fp)) => {
                if fp != self.last_fingerprint {
                    ManagerStep::Reconcile
                } else {
                    ManagerStep::Idle
                }
            },
            ManagerInput::Poll(Err(_)) => ManagerStep::Idle,
        }
    }
}

} // verus!
