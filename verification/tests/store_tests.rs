use std::hash::{DefaultHasher, Hash, Hasher};
use prodzilla::config_store::{
    config_fingerprint, create_outcome, delete_outcome, get_outcome, seed_step, update_outcome,
    ConfigStoreError, NoopConfigStore, StoredMonitor, UpdateRow,
};
use prodzilla::model::{Monitor, ScheduleParameters};
use prodzilla::text::{contains, decimal_string};

fn ts(secs: i64) -> chrono::NaiveDateTime {
    chrono::DateTime::from_timestamp(secs, 0).unwrap().naive_utc()
}

fn monitor(name: &str) -> Monitor {
    Monitor {
        name: name.to_string(),
        url: Some("https://example.com".to_string()),
        http_method: Some("GET".to_string()),
        with: None,
        expectations: None,
        sensitive: false,
        steps: None,
        script: None,
        script_path: None,
        script_timeout_seconds: None,
        schedule: ScheduleParameters { initial_delay: 0, interval: 60 },
        alerts: None,
        tags: None,
    }
}

fn stored(name: &str, version: i64) -> StoredMonitor {
    StoredMonitor { monitor: monitor(name), version, created_at: ts(0), updated_at: ts(0) }
}

#[test]
fn store_error_messages() {
    assert_eq!(ConfigStoreError::NotFound("m".to_string()).message(), "Monitor not found: m");
    assert_eq!(
        ConfigStoreError::AlreadyExists("m".to_string()).message(),
        "Monitor already exists: m"
    );
    assert_eq!(
        ConfigStoreError::VersionConflict { name: "m".to_string(), expected: 3, actual: -12 }.message(),
        "Version conflict for monitor m: expected 3, found -12"
    );
    assert_eq!(ConfigStoreError::Database("boom".to_string()).message(), "Database error: boom");
}

#[test]
fn decimal_rendering_matches_display() {
    for v in [0i64, 7, 10, 99, 100, 123456789, -1, -10, i64::MAX, i64::MIN] {
        assert_eq!(decimal_string(v), v.to_string());
    }
}

#[test]
fn substring_search() {
    assert!(contains("error: UNIQUE constraint failed: monitors.name", "UNIQUE constraint failed"));
    assert!(!contains("UNIQUE constraint", "UNIQUE constraint failed"));
    assert!(contains("abc", ""));
    assert!(contains("aab", "ab"));
    assert!(!contains("", "a"));
}

#[test]
fn create_outcome_success_is_version_one() {
    let r = create_outcome(monitor("new"), ts(5), Ok(())).ok().unwrap();
    assert_eq!(r.version, 1);
    assert_eq!(r.monitor.name, "new");
    assert_eq!(r.created_at, ts(5));
    assert_eq!(r.updated_at, ts(5));
}

#[test]
fn create_outcome_duplicate_is_already_exists() {
    let r = create_outcome(
        monitor("dup"),
        ts(5),
        Err("error returned from database: (code: 1555) UNIQUE constraint failed: monitors.name".to_string()),
    );
    assert!(matches!(r, Err(ConfigStoreError::AlreadyExists(ref n)) if n == "dup"));
}

#[test]
fn create_outcome_other_failure_is_database_error() {
    let r = create_outcome(monitor("x"), ts(5), Err("disk I/O error".to_string()));
    assert!(matches!(r, Err(ConfigStoreError::Database(ref d)) if d == "disk I/O error"));
}

#[test]
fn update_outcome_increments_version() {
    let r = update_outcome("m", monitor("m"), 1, ts(9), UpdateRow::Updated(ts(3))).ok().unwrap();
    assert_eq!(r.version, 2);
    assert_eq!(r.updated_at, ts(9));
    assert_eq!(r.created_at, ts(3));
}

#[test]
fn update_outcome_conflict_and_missing() {
    let r = update_outcome("m", monitor("m"), 99, ts(9), UpdateRow::VersionIs(1));
    assert!(matches!(
        r,
        Err(ConfigStoreError::VersionConflict { ref name, expected: 99, actual: 1 }) if name == "m"
    ));
    let r = update_outcome("ghost", monitor("ghost"), 1, ts(9), UpdateRow::Missing);
    assert!(matches!(r, Err(ConfigStoreError::NotFound(ref n)) if n == "ghost"));
}

#[test]
fn get_and_delete_outcomes() {
    assert!(get_outcome("a", Some(stored("a", 4))).is_ok());
    assert!(matches!(get_outcome("a", None), Err(ConfigStoreError::NotFound(ref n)) if n == "a"));
    assert!(delete_outcome("a", 1).is_ok());
    assert!(matches!(delete_outcome("a", 0), Err(ConfigStoreError::NotFound(ref n)) if n == "a"));
}

#[test]
fn fingerprint_tracks_names_and_versions() {
    let empty = config_fingerprint(&vec![]);
    let one = config_fingerprint(&vec![("fp-test".to_string(), 1)]);
    let updated = config_fingerprint(&vec![("fp-test".to_string(), 2)]);
    assert_ne!(empty, one);
    assert_ne!(one, updated);
    assert_eq!(empty, config_fingerprint(&vec![]));
    assert_eq!(one, config_fingerprint(&vec![("fp-test".to_string(), 1)]));
}

#[test]
fn fingerprint_equals_hashing_names_and_versions() {
    let entries = vec![("alpha".to_string(), 3i64), ("beta".to_string(), 1i64)];
    let mut h = DefaultHasher::new();
    for (n, v) in &entries {
        n.hash(&mut h);
        v.hash(&mut h);
    }
    assert_eq!(config_fingerprint(&entries), h.finish());
}

#[test]
fn seed_counts_created_and_skips_existing() {
    let mut seeded = 0usize;
    seeded = seed_step(seeded, Ok(stored("a", 1))).ok().unwrap();
    seeded = seed_step(seeded, Err(ConfigStoreError::AlreadyExists("b".to_string()))).ok().unwrap();
    seeded = seed_step(seeded, Ok(stored("c", 1))).ok().unwrap();
    assert_eq!(seeded, 2);
    let stop = seed_step(seeded, Err(ConfigStoreError::Database("down".to_string())));
    assert!(matches!(stop, Err(ConfigStoreError::Database(_))));
}

#[test]
fn noop_store_holds_nothing() {
    let store = NoopConfigStore;
    assert!(store.list_monitors().ok().unwrap().is_empty());
    assert!(matches!(store.get_monitor("x"), Err(ConfigStoreError::NotFound(ref n)) if n == "x"));
    assert!(matches!(
        store.create_monitor(&monitor("x")),
        Err(ConfigStoreError::NotFound(ref n)) if n == "x"
    ));
    assert!(matches!(store.update_monitor("x", &monitor("x"), 1), Err(ConfigStoreError::NotFound(_))));
    assert!(matches!(store.delete_monitor("x"), Err(ConfigStoreError::NotFound(_))));
    assert_eq!(store.get_config_fingerprint().ok(), Some(0));
}

#[test]
fn fingerprint_of_same_pairs_listed_by_name_is_equal() {
    let mut a = vec![("b".to_string(), 2i64), ("a".to_string(), 1i64)];
    a.sort();
    let b = vec![("a".to_string(), 1i64), ("b".to_string(), 2i64)];
    assert_eq!(config_fingerprint(&a), config_fingerprint(&b));
}
