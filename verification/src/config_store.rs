//! The persistent monitor configuration: its error type, what a stored monitor carries,
//! and the decisions a SQL-backed store makes around its queries.
//!
//! Creating a monitor gives it version 1; each update must name the version it replaces
//! and moves the monitor to the next version (optimistic concurrency); updating or deleting
//! a missing monitor fails with `NotFound`.
use std::collections::hash_map::DefaultHasher;
use std::hash::Hasher;
use vstd::prelude::*;
use vstd::std_specs::hash::*;
use vstd::string::*;
use vstd::utf8::*;

use crate::model::Monitor;
use crate::text::{concat2, concat3, contains, contains_text, decimal, decimal_string, owned};

verus! {

/// Why a config store operation failed.
pub enum ConfigStoreError {
    NotFound(String),
    AlreadyExists(String),
    VersionConflict { name: String, expected: i64, actual: i64 },
    /// A failure of the database itself, with the database's own description of it.
    Database(String),
}

/// The text describing an error.
pub open spec fn error_message(e: ConfigStoreError) -> Seq<char> {
    match e {
        ConfigStoreError::NotFound(name) => "Monitor not found: "@ + name@,
        ConfigStoreError::AlreadyExists(name) => "Monitor already exists: "@ + name@,
        ConfigStoreError::VersionConflict { name, expected, actual } => "Version conflict for monitor "@
            + name@ + ": expected "@ + decimal(expected as int) + ", found "@ + decimal(actual as int),
        ConfigStoreError::Database(detail) => "Database error: "@ + detail@,
    }
}

impl ConfigStoreError {
    /// The text describing this error.
    pub fn message(&self) -> (r: String)
        ensures
            r@ == error_message(*self),
    {
        match self {
            ConfigStoreError::NotFound(name) => concat2("Monitor not found: ", name.as_str()),
            ConfigStoreError::AlreadyExists(name) => concat2("Monitor already exists: ", name.as_str()),
            ConfigStoreError::VersionConflict { name, expected, actual } => {
                let e = decimal_string(*expected);
                let a = decimal_string(*actual);
                let mut s = concat3("Version conflict for monitor ", name.as_str(), ": expected ");
                s.append(e.as_str());
                s.append(", found ");
                s.append(a.as_str());
                s
            },
            ConfigStoreError::Database(detail) => concat2("Database error: ", detail.as_str()),
        }
    }
}

/// A monitor as the store holds it.
pub struct StoredMonitor {
    pub monitor: Monitor,
    pub version: i64,
    pub created_at: chrono::NaiveDateTime,
    pub updated_at: chrono::NaiveDateTime,
}

/// A store used when no database is configured: it holds no monitor and accepts no change.
pub struct NoopConfigStore;

impl NoopConfigStore {
    /// Lists no monitor.
    pub fn list_monitors(&self) -> (r: Result<Vec<StoredMonitor>, ConfigStoreError>)
        ensures
            r matches Ok(v) && v@.len() == 0,
    {
        Ok(Vec::new())
    }

    /// Finds no monitor.
    pub fn get_monitor(&self, name: &str) -> (r: Result<StoredMonitor, ConfigStoreError>)
        ensures
            r matches Err(ConfigStoreError::NotFound(n)) && n@ == name@,
    {
        Err(ConfigStoreError::NotFound(owned(name)))
    }

    /// Creates nothing: this store keeps no monitor, so the monitor is not found in it.
    pub fn create_monitor(&self, monitor: &Monitor) -> (r: Result<StoredMonitor, ConfigStoreError>)
        ensures
            r matches Err(ConfigStoreError::NotFound(n)) && n@ == monitor.name@,
    {
        Err(ConfigStoreError::NotFound(monitor.name.clone()))
    }

    /// Finds no monitor to update.
    pub fn update_monitor(&self, name: &str, monitor: &Monitor, expected_version: i64) -> (r: Result<StoredMonitor, ConfigStoreError>)
        ensures
            r matches Err(ConfigStoreError::NotFound(n)) && n@ == name@,
    {
        Err(ConfigStoreError::NotFound(owned(name)))
    }

    /// Finds no monitor to delete.
    pub fn delete_monitor(&self, name: &str) -> (r: Result<(), ConfigStoreError>)
        ensures
            r matches Err(ConfigStoreError::NotFound(n)) && n@ == name@,
    {
        Err(ConfigStoreError::NotFound(owned(name)))
    }

    /// The fingerprint of an empty configuration, 0.
    pub fn get_config_fingerprint(&self) -> (r: Result<u64, ConfigStoreError>)
        ensures
            r == Ok::<u64, ConfigStoreError>(0),
    {
        Ok(0)
    }
}

/// The text with which SQLite reports a duplicate primary key.
pub open spec fn unique_violation_text() -> Seq<char> {
    "UNIQUE constraint failed"@
}

/// The result of creating `monitor` at time `now`: the stored monitor at version 1 when
/// the insert succeeded; `AlreadyExists` when the database reported a UNIQUE constraint
/// violation; otherwise a database error carrying the database's text.
pub fn create_outcome(
    monitor: Monitor,
    now: chrono::NaiveDateTime,
    insert: Result<(), String>,
) -> (r: Result<StoredMonitor, ConfigStoreError>)
    ensures
        insert is Ok ==> (r matches Ok(s) && s.monitor == monitor && s.version == 1
            && s.created_at == now && s.updated_at == now),
        insert matches Err(f) ==> (contains_text(f@, unique_violation_text()) ==> (r matches Err(
            ConfigStoreError::AlreadyExists(n),
        ) && n@ == monitor.name@)),
        insert matches Err(f) ==> (!contains_text(f@, unique_violation_text()) ==> (r matches Err(
            ConfigStoreError::Database(d),
        ) && d@ == f@)),
{
    match insert {
        Ok(()) => Ok(StoredMonitor { monitor, version: 1, created_at: now, updated_at: now }),
        Err(failure) => {
            if contains(failure.as_str(), "UNIQUE constraint failed") {
                Err(ConfigStoreError::AlreadyExists(monitor.name))
            } else {
                Err(ConfigStoreError::Database(failure))
            }
        },
    }
}

/// What the database showed of an update guarded by the expected version.
pub enum UpdateRow {
    /// The row with the expected version was rewritten; the monitor was created at this time.
    Updated(chrono::NaiveDateTime),
    /// No monitor has that name.
    Missing,
    /// The monitor exists at this other version.
    VersionIs(i64),
}

/// The result of updating monitor `name` from `expected_version`: the monitor at the
/// next version when the row was rewritten, `NotFound` when there is no such monitor,
/// `VersionConflict` (with the version found) when it is at another version.
pub fn update_outcome(
    name: &str,
    monitor: Monitor,
    expected_version: i64,
    now: chrono::NaiveDateTime,
    row: UpdateRow,
) -> (r: Result<StoredMonitor, ConfigStoreError>)
    requires
        expected_version < i64::MAX,
    ensures
        row matches UpdateRow::Updated(created) ==> (r matches Ok(s) && s.monitor == monitor && s.version
            == expected_version + 1 && s.updated_at == now && s.created_at == created),
        row is Missing ==> (r matches Err(ConfigStoreError::NotFound(n)) && n@ == name@),
        row matches UpdateRow::VersionIs(actual) ==> (r matches Err(
            ConfigStoreError::VersionConflict { name: n, expected, actual: a },
        ) && n@ == name@ && expected == expected_version && a == actual),
{
    match row {
        UpdateRow::Updated(created) => Ok(StoredMonitor {
            monitor,
            version: expected_version + 1,
            created_at: created,
            updated_at: now,
        }),
        UpdateRow::Missing => Err(ConfigStoreError::NotFound(owned(name))),
        UpdateRow::VersionIs(actual) => Err(ConfigStoreError::VersionConflict {
            name: owned(name),
            expected: expected_version,
            actual,
        }),
    }
}

/// The result of looking up monitor `name`: the row found, or `NotFound`.
pub fn get_outcome(name: &str, row: Option<StoredMonitor>) -> (r: Result<StoredMonitor, ConfigStoreError>)
    ensures
        row matches Some(s) ==> r == Ok::<StoredMonitor, ConfigStoreError>(s),
        row is None ==> (r matches Err(ConfigStoreError::NotFound(n)) && n@ == name@),
{
    match row {
        Some(s) => Ok(s),
        None => Err(ConfigStoreError::NotFound(owned(name))),
    }
}

/// The result of deleting monitor `name` when the delete touched `rows_affected` rows:
/// `NotFound` when it touched none.
pub fn delete_outcome(name: &str, rows_affected: u64) -> (r: Result<(), ConfigStoreError>)
    ensures
        rows_affected == 0 ==> (r matches Err(ConfigStoreError::NotFound(n)) && n@ == name@),
        rows_affected != 0 ==> r is Ok,
{
    if rows_affected == 0 {
        Err(ConfigStoreError::NotFound(owned(name)))
    } else {
        Ok(())
    }
}

/// The bytes that `Hash` feeds a hasher for a string: its UTF-8 bytes, then 0xff.
pub open spec fn str_hash_writes(name: Seq<u8>) -> Seq<Seq<u8>> {
    seq![name, seq![0xffu8]]
}

/// The little-endian bytes of a 64-bit integer.
pub open spec fn le_bytes(v: u64) -> Seq<u8> {
    Seq::new(8, |i: int| ((v as int / vstd::arithmetic::power2::pow2((8 * i) as nat) as int) % 256) as u8)
}

/// The writes that fingerprinting makes for the (name, version) pairs `entries`, in order.
pub open spec fn fingerprint_writes(entries: Seq<(Seq<u8>, i64)>) -> Seq<Seq<u8>>
    decreases entries.len(),
{
    if entries.len() == 0 {
        seq![]
    } else {
        fingerprint_writes(entries.drop_last()) + str_hash_writes(entries.last().0)
            + seq![le_bytes(entries.last().1 as u64)]
    }
}

/// The fingerprint of a configuration whose monitors, ordered by name, have these
/// (name bytes, version) pairs: std's `DefaultHasher` fed each name as `str`'s `Hash`
/// feeds it and each version as its eight little-endian bytes.
pub open spec fn fingerprint_of(entries: Seq<(Seq<u8>, i64)>) -> u64 {
    DefaultHasher::spec_finish(fingerprint_writes(entries))
}

/// `a` comes before `b` in byte order: the order in which the store lists names (bytes
/// compared one by one, a proper prefix first).
pub open spec fn bytes_less(a: Seq<u8>, b: Seq<u8>) -> bool
    decreases a.len(),
{
    if a.len() == 0 {
        b.len() > 0
    } else if b.len() == 0 {
        false
    } else if a[0] != b[0] {
        a[0] < b[0]
    } else {
        bytes_less(a.drop_first(), b.drop_first())
    }
}

/// The (name, version) pairs are listed with names strictly increasing in byte order.
pub open spec fn listed_by_name(s: Seq<(Seq<u8>, i64)>) -> bool {
    forall|i: int, j: int| 0 <= i < j < s.len() ==> bytes_less(#[trigger] s[i].0, #[trigger] s[j].0)
}

proof fn lemma_bytes_less_irreflexive(a: Seq<u8>)
    ensures
        !bytes_less(a, a),
    decreases a.len(),
{
    if a.len() > 0 {
        lemma_bytes_less_irreflexive(a.drop_first());
    }
}

proof fn lemma_bytes_less_asymmetric(a: Seq<u8>, b: Seq<u8>)
    ensures
        !(bytes_less(a, b) && bytes_less(b, a)),
    decreases a.len(),
{
    if a.len() > 0 && b.len() > 0 && a[0] == b[0] {
        lemma_bytes_less_asymmetric(a.drop_first(), b.drop_first());
    }
}

proof fn lemma_listed_equal(a: Seq<(Seq<u8>, i64)>, b: Seq<(Seq<u8>, i64)>)
    requires
        listed_by_name(a),
        listed_by_name(b),
        a.to_set() == b.to_set(),
    ensures
        a == b,
    decreases a.len(),
{
    if a.len() == 0 {
        if b.len() > 0 {
            assert(b.to_set().contains(b[0]));
        }
        assert(b =~= a);
    } else {
        assert(a.to_set().contains(a[0]));
        assert(b.len() > 0) by {
            if b.len() == 0 {
                assert(b.to_set().contains(a[0]));
            }
        }
        assert(b.to_set().contains(b[0]));
        let i = choose|i: int| 0 <= i < a.len() && a[i] == b[0];
        let j = choose|j: int| 0 <= j < b.len() && b[j] == a[0];
        assert(a[0] == b[0]) by {
            if i > 0 && j > 0 {
                assert(bytes_less(a[0].0, a[i].0));
                assert(bytes_less(b[0].0, b[j].0));
                lemma_bytes_less_asymmetric(a[0].0, b[0].0);
            } else if i > 0 {
                assert(bytes_less(a[0].0, a[i].0));
                lemma_bytes_less_irreflexive(a[0].0);
            } else if j > 0 {
                assert(bytes_less(b[0].0, b[j].0));
                lemma_bytes_less_irreflexive(b[0].0);
            }
        }
        let a1 = a.drop_first();
        let b1 = b.drop_first();
        assert forall|k: int| 0 <= k < a1.len() implies a1[k] != a[0] by {
            assert(bytes_less(a[0].0, a[k + 1].0));
            lemma_bytes_less_irreflexive(a[0].0);
        }
        assert forall|k: int| 0 <= k < b1.len() implies b1[k] != b[0] by {
            assert(bytes_less(b[0].0, b[k + 1].0));
            lemma_bytes_less_irreflexive(b[0].0);
        }
        assert(a1.to_set() =~= b1.to_set()) by {
            assert forall|x| a1.to_set().contains(x) implies b1.to_set().contains(x) by {
                let k = choose|k: int| 0 <= k < a1.len() && a1[k] == x;
                assert(a.to_set().contains(a[k + 1]));
                let m = choose|m: int| 0 <= m < b.len() && b[m] == x;
                assert(m != 0);
                assert(b1[m - 1] == x);
            }
            assert forall|x| b1.to_set().contains(x) implies a1.to_set().contains(x) by {
                let k = choose|k: int| 0 <= k < b1.len() && b1[k] == x;
                assert(b.to_set().contains(b[k + 1]));
                let m = choose|m: int| 0 <= m < a.len() && a[m] == x;
                assert(m != 0);
                assert(a1[m - 1] == x);
            }
        }
        assert(listed_by_name(a1)) by {
            assert forall|p: int, q: int| 0 <= p < q < a1.len() implies bytes_less(#[trigger] a1[p].0, #[trigger] a1[q].0) by {
                assert(a1[p] == a[p + 1] && a1[q] == a[q + 1]);
            }
        }
        assert(listed_by_name(b1)) by {
            assert forall|p: int, q: int| 0 <= p < q < b1.len() implies bytes_less(#[trigger] b1[p].0, #[trigger] b1[q].0) by {
                assert(b1[p] == b[p + 1] && b1[q] == b[q + 1]);
            }
        }
        lemma_listed_equal(a1, b1);
        assert(a =~= b) by {
            assert forall|k: int| 0 <= k < a.len() implies a[k] == b[k] by {
                if k > 0 {
                    assert(a[k] == a1[k - 1] && b[k] == b1[k - 1]);
                }
            }
        }
    }
}

/// The fingerprint depends only on which (name, version) pairs the store holds: two
/// configurations listed by name, as the store lists them, that hold the same pairs have
/// the same fingerprint.
pub proof fn law_fingerprint_depends_on_pairs(a: Seq<(Seq<u8>, i64)>, b: Seq<(Seq<u8>, i64)>)
    requires
        listed_by_name(a),
        listed_by_name(b),
        a.to_set() == b.to_set(),
    ensures
        fingerprint_of(a) == fingerprint_of(b),
{
    lemma_listed_equal(a, b);
}

fn le_bytes_of(v: u64) -> (r: Vec<u8>)
    ensures
        r@ == le_bytes(v),
{
    let mut out: Vec<u8> = Vec::new();
    let mut x: u64 = v;
    proof {
        vstd::arithmetic::power2::lemma2_to64();
        assert(vstd::arithmetic::power2::pow2(0) == 1);
        assert(v as int / 1 == v as int);
    }
    let mut i: usize = 0;
    while i < 8
        invariant
            i <= 8,
            out@.len() == i,
            x as int == v as int / vstd::arithmetic::power2::pow2((8 * i) as nat) as int,
            forall|k: int| 0 <= k < i ==> out@[k] == le_bytes(v)[k],
        decreases 8 - i,
    {
        proof {
            vstd::arithmetic::power2::lemma_pow2_adds((8 * i) as nat, 8);
            vstd::arithmetic::power2::lemma_pow2_pos((8 * i) as nat);
            vstd::arithmetic::power2::lemma2_to64();
            vstd::arithmetic::div_mod::lemma_div_denominator(
                v as int,
                vstd::arithmetic::power2::pow2((8 * i) as nat) as int,
                256,
            );
        }
        out.push((x % 256) as u8);
        x = x / 256;
        i = i + 1;
    }
    assert(out@ =~= le_bytes(v));
    out
}

/// The fingerprint of the (name, version) pairs, in the given order.
pub fn config_fingerprint(entries: &Vec<(String, i64)>) -> (r: u64)
    ensures
        r == fingerprint_of(entries@.map_values(|e: (String, i64)| (encode_utf8(e.0@), e.1))),
{
    let ghost spec_entries = entries@.map_values(|e: (String, i64)| (encode_utf8(e.0@), e.1));
    let mut hasher = DefaultHasher::new();
    let mut i: usize = 0;
    while i < entries.len()
        invariant
            i <= entries@.len(),
            spec_entries == entries@.map_values(|e: (String, i64)| (encode_utf8(e.0@), e.1)),
            hasher@ == fingerprint_writes(spec_entries.take(i as int)),
        decreases entries@.len() - i,
    {
        let name = &entries[i].0;
        let version = entries[i].1;
        hasher.write(name.as_str().as_bytes());
        let sep: Vec<u8> = vec![0xffu8];
        hasher.write(sep.as_slice());
        let bytes = le_bytes_of(#[verifier::truncate] (version as u64));
        hasher.write(bytes.as_slice());
        assert(spec_entries[i as int] == (encode_utf8(name@), version));
        assert(sep@ == seq![0xffu8]);
        assert(spec_entries.take(i + 1).last() == spec_entries[i as int]);
        assert(spec_entries.take(i + 1).drop_last() =~= spec_entries.take(i as int));
        assert(fingerprint_writes(spec_entries.take(i + 1)) == fingerprint_writes(spec_entries.take(i as int))
            + str_hash_writes(encode_utf8(name@)) + seq![le_bytes(#[verifier::truncate] (version as u64))]);
        assert(hasher@ =~= fingerprint_writes(spec_entries.take(i + 1)));
        i = i + 1;
    }
    assert(spec_entries.take(entries@.len() as int) =~= spec_entries);
    hasher.finish()
}

/// One step of seeding the store from a YAML configuration: `seeded` monitors were
/// created so far and the store answered `outcome` to the next creation. A created
/// monitor counts; one that already exists is skipped; any other failure ends seeding.
pub fn seed_step(seeded: usize, outcome: Result<StoredMonitor, ConfigStoreError>) -> (r: Result<usize, ConfigStoreError>)
    requires
        seeded < usize::MAX,
    ensures
        outcome is Ok ==> r == Ok::<usize, ConfigStoreError>((seeded + 1) as usize),
        outcome matches Err(ConfigStoreError::AlreadyExists(_)) ==> r == Ok::<usize, ConfigStoreError>(seeded),
        outcome matches Err(e) ==> (!(e is AlreadyExists) ==> r == Err::<usize, ConfigStoreError>(e)),
{
    match outcome {
        Ok(_) => Ok(seeded + 1),
        Err(ConfigStoreError::AlreadyExists(_)) => Ok(seeded),
        Err(e) => Err(e),
    }
}

} // verus!
