use prodzilla::api::{
    build_completions, check_update, execution_timeout_secs, get_monitor_results, prepare_execution,
    scripting_validate, select_trigger_target, validate_script, validation_response, ApiError,
    ApiErrorDetails, ExecuteScriptRequest, MonitorApiResponse, MonitorListResponse, TriggerTarget,
    UpdateMonitorRequest, ValidateScriptRequest,
};
use prodzilla::config_store::{ConfigStoreError, StoredMonitor};
use prodzilla::model::{Monitor, MonitorResult, ScheduleParameters};
use prodzilla::results::ResultHistory;
use prodzilla::scripting::{ScriptDiagnostic, ScriptError};

fn ts(secs: i64) -> chrono::NaiveDateTime {
    chrono::DateTime::from_timestamp(secs, 0).unwrap().naive_utc()
}

fn test_monitor(name: &str) -> Monitor {
    Monitor {
        name: name.to_string(),
        url: Some("https://example.com".to_string()),
        http_method: Some("GET".to_string()),
        with: None,
        expectations: None,
        sensitive: false,
        steps: None,
        script: None,
        script_path: None,
        script_timeout_seconds: None,
        schedule: ScheduleParameters { initial_delay: 0, interval: 60 },
        alerts: None,
        tags: None,
    }
}

fn stored(name: &str, version: i64) -> StoredMonitor {
    StoredMonitor { monitor: test_monitor(name), version, created_at: ts(1), updated_at: ts(2) }
}

#[test]
fn status_codes_of_error_responses() {
    assert_eq!(ApiError::new("not_found", String::new()).status_code(), 404);
    assert_eq!(ApiError::new("already_exists", String::new()).status_code(), 409);
    assert_eq!(ApiError::new("version_conflict", String::new()).status_code(), 409);
    assert_eq!(ApiError::new("validation_error", String::new()).status_code(), 400);
    assert_eq!(ApiError::new("internal_error", String::new()).status_code(), 500);
}

#[test]
fn store_errors_become_responses() {
    let e = ApiError::from_store_error(ConfigStoreError::NotFound("m".to_string()));
    assert_eq!(e.error, "not_found");
    assert_eq!(e.message, "Monitor not found: m");
    let e = ApiError::from_store_error(ConfigStoreError::AlreadyExists("m".to_string()));
    assert_eq!(e.error, "already_exists");
    assert_eq!(e.status_code(), 409);
    let e = ApiError::from_store_error(ConfigStoreError::VersionConflict {
        name: "m".to_string(),
        expected: 99,
        actual: 1,
    });
    assert_eq!(e.error, "version_conflict");
    assert_eq!(e.message, "Version conflict for monitor m: expected 99, found 1");
    assert!(matches!(
        e.details,
        Some(ApiErrorDetails::VersionConflict { expected_version: 99, actual_version: 1 })
    ));
    let e = ApiError::from_store_error(ConfigStoreError::Database("secret".to_string()));
    assert_eq!(e.error, "internal_error");
    assert_eq!(e.message, "An internal error occurred");
    assert_eq!(e.status_code(), 500);
}

#[test]
fn api_response_for_stored_monitor() {
    let r = MonitorApiResponse::from_stored(stored("test-mon", 1));
    assert_eq!(r.name, "test-mon");
    assert_eq!(r.version, 1);
    assert_eq!(r.created_at, ts(1));
    let list = MonitorListResponse::from_stored(vec![stored("a", 1), stored("b", 2)]);
    assert_eq!(list.monitors.len(), 2);
    assert_eq!(list.monitors[1].name, "b");
    assert_eq!(list.monitors[1].version, 2);
    assert!(MonitorListResponse::from_stored(vec![]).monitors.is_empty());
}

#[test]
fn script_path_is_refused_through_the_api() {
    let mut m = test_monitor("p");
    m.url = None;
    m.http_method = None;
    m.script_path = Some("/path/to/script.rhai".to_string());
    let e = validate_script(&m).err().unwrap();
    assert_eq!(e.error, "validation_error");
    assert_eq!(
        e.message,
        "script_path is only valid in YAML config files. Use 'script' with inline content."
    );
}

#[test]
fn invalid_script_is_refused_with_diagnostics() {
    let mut m = test_monitor("bad-script-mon");
    m.url = None;
    m.http_method = None;
    m.script = Some("let x = !".to_string());
    let e = validate_script(&m).err().unwrap();
    assert_eq!(e.error, "validation_error");
    assert_eq!(e.status_code(), 400);
    assert!(e.message.starts_with("Script compilation failed: Script parse error: "));
    match e.details {
        Some(ApiErrorDetails::Diagnostics(d)) => {
            assert_eq!(d.len(), 1);
            assert_eq!(d[0].line, Some(1));
        }
        _ => panic!("Should include diagnostics in details"),
    }
    let mut ok = test_monitor("scripted-mon");
    ok.url = None;
    ok.http_method = None;
    ok.script = Some("let x = 1;".to_string());
    assert!(validate_script(&ok).is_ok());
}

#[test]
fn update_name_must_match_url() {
    let req = UpdateMonitorRequest { monitor: test_monitor("different-name"), version: 1 };
    let e = check_update("orig-mon", &req).err().unwrap();
    assert_eq!(e.status_code(), 400);
    assert_eq!(e.message, "Monitor name in body (different-name) does not match URL (orig-mon)");
    let req = UpdateMonitorRequest { monitor: test_monitor("orig-mon"), version: 1 };
    assert!(check_update("orig-mon", &req).is_ok());
}

#[test]
fn monitor_results_endpoint() {
    let mut h = ResultHistory::new();
    let e = get_monitor_results(&h, "nonexistent", None).err().unwrap();
    assert_eq!(e.status_code(), 404);
    assert_eq!(e.message, "Monitor not found: nonexistent");
    h.add_monitor_result(
        "test-mon".to_string(),
        MonitorResult { monitor_name: "test-mon".to_string(), timestamp_started: ts(3), success: true, step_results: vec![] },
    );
    let v = get_monitor_results(&h, "test-mon", Some(true)).ok().unwrap();
    assert_eq!(v.len(), 1);
    assert!(v[0].success);
}

#[test]
fn trigger_target_selection() {
    let configured = vec![test_monitor("static-a"), test_monitor("static-b")];
    match select_trigger_target("x", Ok(stored("x", 1)), &configured) {
        Ok(TriggerTarget::Stored(m)) => assert_eq!(m.name, "x"),
        _ => panic!("expected the stored monitor"),
    }
    match select_trigger_target("static-b", Err(ConfigStoreError::NotFound("static-b".to_string())), &configured) {
        Ok(TriggerTarget::Configured(i)) => assert_eq!(i, 1),
        _ => panic!("expected the configured monitor"),
    }
    let e = select_trigger_target("nonexistent", Err(ConfigStoreError::NotFound("nonexistent".to_string())), &configured)
        .err()
        .unwrap();
    assert_eq!(e.status_code(), 404);
    let e = select_trigger_target("x", Err(ConfigStoreError::Database("down".to_string())), &configured)
        .err()
        .unwrap();
    assert_eq!(e.status_code(), 500);
}

#[test]
fn completions_list_host_functions_and_properties() {
    let completions = build_completions();
    assert_eq!(completions.items.len(), 21);
    let item = completions.items.iter().find(|i| i.label == "http_get").unwrap();
    assert!(item.detail.contains("ScriptResponse"));
    assert!(item.insert_text.is_some());
    let labels: Vec<&str> = completions.items.iter().map(|i| i.label.as_str()).collect();
    for name in &[
        "http_get", "http_post", "http_put", "http_delete", "http_request", "assert", "assert_eq",
        "parse_json", "to_json", "env", "uuid", "timestamp", "timestamp_epoch", "log_info",
        "log_warn", "log_debug", "step",
    ] {
        assert!(labels.contains(name), "Missing completion for: {}", name);
    }
    for prop in &["status", "body", "headers", "duration_ms"] {
        let p = completions.items.iter().find(|i| i.label == *prop).unwrap();
        assert_eq!(p.kind, "property");
        assert!(p.insert_text.is_none());
    }
}

#[test]
fn editor_validation_of_scripts() {
    let r = scripting_validate(ValidateScriptRequest { script: "let x = 1;".to_string() });
    assert!(r.valid);
    assert!(r.diagnostics.is_empty());
    let r = scripting_validate(ValidateScriptRequest { script: "let x = !".to_string() });
    assert!(!r.valid);
    assert_eq!(r.diagnostics[0].start_line, 1);
    let r = scripting_validate(ValidateScriptRequest { script: "let x = 1;\nlet y = 2;\nlet z = !".to_string() });
    assert_eq!(r.diagnostics[0].start_line, 3);
    let r = scripting_validate(ValidateScriptRequest { script: String::new() });
    assert!(r.valid);
}

#[test]
fn validation_markers() {
    let r = validation_response(Err(ScriptError::ParseError {
        message: "m".to_string(),
        diagnostics: vec![ScriptDiagnostic { line: None, column: Some(7), message: "bad".to_string() }],
    }));
    assert!(!r.valid);
    assert_eq!(r.diagnostics[0].start_line, 1);
    assert_eq!(r.diagnostics[0].end_line, 1);
    assert_eq!(r.diagnostics[0].start_column, 7);
    assert_eq!(r.diagnostics[0].end_column, 8);
    assert_eq!(r.diagnostics[0].severity, 8);
    assert_eq!(r.diagnostics[0].message, "bad");
    let r = validation_response(Err(ScriptError::RuntimeError("x".to_string())));
    assert_eq!(r.diagnostics[0].end_column, 2);
    assert_eq!(r.diagnostics[0].message, "Script runtime error: x");
}

#[test]
fn one_off_runs() {
    assert_eq!(execution_timeout_secs(None), 30);
    assert_eq!(execution_timeout_secs(Some(1)), 1);
    assert_eq!(execution_timeout_secs(Some(500)), 120);
    let ok = prepare_execution(&ExecuteScriptRequest { script: "let x = 1 + 1;".to_string(), timeout_seconds: Some(10) });
    assert_eq!(ok.ok().unwrap().1, 10);
    let bad = prepare_execution(&ExecuteScriptRequest { script: "let x = !".to_string(), timeout_seconds: None });
    let e = bad.err().unwrap();
    assert_eq!(e.status_code(), 400);
    assert!(e.message.starts_with("Script compilation failed: "));
}

#[test]
fn store_error_statuses() {
    let status = |e: ConfigStoreError| ApiError::from_store_error(e).status_code();
    assert_eq!(status(ConfigStoreError::NotFound("m".to_string())), 404);
    assert_eq!(status(ConfigStoreError::AlreadyExists("m".to_string())), 409);
    assert_eq!(
        status(ConfigStoreError::VersionConflict { name: "m".to_string(), expected: 2, actual: 3 }),
        409
    );
    assert_eq!(status(ConfigStoreError::Database("x".to_string())), 500);
}
