use prodzilla::config_store::{ConfigStoreError, StoredMonitor};
use prodzilla::manager::{
    ConfigChangeEvent, ManagerInput, ManagerState, ManagerStep, ReconcileAction, SingleAction,
};
use prodzilla::model::{Monitor, ScheduleParameters};

fn ts() -> chrono::NaiveDateTime {
    chrono::DateTime::from_timestamp(0, 0).unwrap().naive_utc()
}

fn stored(name: &str, version: i64) -> StoredMonitor {
    StoredMonitor {
        monitor: Monitor {
            name: name.to_string(),
            url: Some("https://example.com".to_string()),
            http_method: Some("GET".to_string()),
            with: None,
            expectations: None,
            sensitive: false,
            steps: None,
            script: None,
            script_path: None,
            script_timeout_seconds: None,
            schedule: ScheduleParameters { initial_delay: 0, interval: 60 },
            alerts: None,
            tags: None,
        },
        version,
        created_at: ts(),
        updated_at: ts(),
    }
}

fn describe(db: &[StoredMonitor], acts: &[ReconcileAction]) -> Vec<String> {
    acts.iter()
        .map(|a| match a {
            ReconcileAction::Stop(n) => format!("stop {n}"),
            ReconcileAction::Start(i) => format!("start {} v{}", db[*i].monitor.name, db[*i].version),
        })
        .collect()
}

#[test]
fn reconcile_starts_new_monitors() {
    let mut state = ManagerState::new();
    let db = vec![stored("a", 1), stored("b", 3)];
    let acts = state.reconcile(&db);
    assert_eq!(describe(&db, &acts), vec!["start a v1", "start b v3"]);
    assert_eq!(state.running_version("a"), Some(1));
    assert_eq!(state.running_version("b"), Some(3));
}

#[test]
fn reconcile_stops_removed_and_restarts_changed() {
    let mut state = ManagerState::new();
    state.reconcile(&vec![stored("a", 1), stored("b", 1), stored("c", 1)]);
    let db = vec![stored("b", 2), stored("c", 1), stored("d", 1)];
    let acts = state.reconcile(&db);
    assert_eq!(describe(&db, &acts), vec!["stop a", "stop b", "start b v2", "start d v1"]);
    assert_eq!(state.running_version("a"), None);
    assert_eq!(state.running_version("b"), Some(2));
    assert_eq!(state.running_version("c"), Some(1));
    assert_eq!(state.running_version("d"), Some(1));
}

#[test]
fn reconcile_twice_does_nothing_the_second_time() {
    let mut state = ManagerState::new();
    let db = vec![stored("a", 1), stored("b", 4)];
    state.reconcile(&db);
    let again = state.reconcile(&db);
    assert!(again.is_empty());
}

#[test]
fn reconcile_takes_the_last_listing_of_a_name() {
    let mut state = ManagerState::new();
    let db = vec![stored("a", 1), stored("a", 5)];
    let acts = state.reconcile(&db);
    assert_eq!(describe(&db, &acts), vec!["start a v5"]);
    assert_eq!(state.running_version("a"), Some(5));
}

#[test]
fn reconcile_single_decisions() {
    let mut state = ManagerState::new();
    assert_eq!(state.reconcile_single("a", &Ok(stored("a", 1))), SingleAction::Start);
    assert_eq!(state.reconcile_single("a", &Ok(stored("a", 1))), SingleAction::Unchanged);
    assert_eq!(state.reconcile_single("a", &Ok(stored("a", 2))), SingleAction::Restart);
    assert_eq!(state.running_version("a"), Some(2));
    assert_eq!(
        state.reconcile_single("a", &Err(ConfigStoreError::Database("x".to_string()))),
        SingleAction::Failed
    );
    assert_eq!(state.running_version("a"), Some(2));
    assert_eq!(
        state.reconcile_single("a", &Err(ConfigStoreError::NotFound("a".to_string()))),
        SingleAction::Stop
    );
    assert_eq!(state.running_version("a"), None);
}

#[test]
fn stop_monitor_and_stop_all() {
    let mut state = ManagerState::new();
    state.reconcile(&vec![stored("a", 1), stored("b", 1)]);
    assert!(state.stop_monitor("a"));
    assert!(!state.stop_monitor("a"));
    let names = state.stop_all();
    assert_eq!(names, vec!["b".to_string()]);
    assert_eq!(state.running_version("b"), None);
}

#[test]
fn loop_steps_for_inputs() {
    let mut state = ManagerState::new();
    assert!(matches!(
        state.next_step(ManagerInput::Event(ConfigChangeEvent::FullReconcile)),
        ManagerStep::Reconcile
    ));
    assert!(matches!(
        state.next_step(ManagerInput::Event(ConfigChangeEvent::MonitorCreated("n".to_string()))),
        ManagerStep::ReconcileSingle(ref n) if n == "n"
    ));
    assert!(matches!(
        state.next_step(ManagerInput::Event(ConfigChangeEvent::MonitorUpdated("n".to_string()))),
        ManagerStep::ReconcileSingle(_)
    ));
    assert!(matches!(
        state.next_step(ManagerInput::Event(ConfigChangeEvent::MonitorDeleted("n".to_string()))),
        ManagerStep::Stop(ref n) if n == "n"
    ));
    assert!(matches!(state.next_step(ManagerInput::Lagged(3)), ManagerStep::Reconcile));
    assert!(matches!(state.next_step(ManagerInput::Closed), ManagerStep::Shutdown));
    assert!(matches!(state.next_step(ManagerInput::Poll(Ok(0))), ManagerStep::Idle));
    assert!(matches!(state.next_step(ManagerInput::Poll(Ok(42))), ManagerStep::Reconcile));
    state.record_fingerprint(Ok(42));
    assert!(matches!(state.next_step(ManagerInput::Poll(Ok(42))), ManagerStep::Idle));
    state.record_fingerprint(Err(ConfigStoreError::Database("x".to_string())));
    assert!(matches!(state.next_step(ManagerInput::Poll(Ok(42))), ManagerStep::Idle));
    assert!(matches!(
        state.next_step(ManagerInput::Poll(Err(ConfigStoreError::Database("x".to_string())))),
        ManagerStep::Idle
    ));
}

#[test]
fn single_reconcile_after_full_reconcile_leaves_monitors_alone() {
    let mut state = ManagerState::new();
    let db = vec![stored("a", 1), stored("b", 2), stored("a", 3)];
    state.reconcile(&db);
    assert_eq!(state.reconcile_single("a", &Ok(stored("a", 3))), SingleAction::Unchanged);
    assert_eq!(state.reconcile_single("b", &Ok(stored("b", 2))), SingleAction::Unchanged);
    assert_eq!(state.running_version("a"), Some(3));
}
