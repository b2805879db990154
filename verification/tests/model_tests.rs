use std::collections::HashMap;

use prodzilla::model::{
    EndpointResponse, EndpointResult, ExpectField, ExpectOperation, Expectation, InputParameters,
    Monitor, ScheduleParameters, Step,
};

fn schedule() -> ScheduleParameters {
    ScheduleParameters { initial_delay: 0, interval: 60 }
}

fn bare_monitor(name: &str) -> Monitor {
    Monitor {
        name: name.to_string(),
        url: None,
        http_method: None,
        with: None,
        expectations: None,
        sensitive: false,
        steps: None,
        script: None,
        script_path: None,
        script_timeout_seconds: None,
        schedule: schedule(),
        alerts: None,
        tags: None,
    }
}

fn single_step(name: &str, url: &str) -> Monitor {
    let mut m = bare_monitor(name);
    m.url = Some(url.to_string());
    m.http_method = Some("GET".to_string());
    m.expectations = Some(vec![Expectation {
        field: ExpectField::StatusCode,
        operation: ExpectOperation::Equals,
        value: "200".to_string(),
    }]);
    m
}

fn step(name: &str) -> Step {
    Step {
        name: name.to_string(),
        url: format!("https://example.com/{name}"),
        http_method: "GET".to_string(),
        with: None,
        expectations: None,
        sensitive: false,
    }
}

fn expect_error(m: Monitor) -> String {
    match m.validated() {
        Ok(_) => panic!("expected the monitor to be refused"),
        Err(e) => e,
    }
}

#[test]
fn single_step_monitor_is_valid() {
    let m = single_step("health", "https://example.com/health");
    let v = m.validated().ok().unwrap();
    assert_eq!(v.name, "health");
    assert!(!v.is_multi_step());
    assert!(!v.is_scripted());
}

#[test]
fn multi_step_monitor_is_valid() {
    let mut m = bare_monitor("flow");
    m.steps = Some(vec![step("a"), step("b")]);
    let v = m.validated().ok().unwrap();
    assert!(v.is_multi_step());
}

#[test]
fn scripted_monitor_is_valid() {
    let mut m = bare_monitor("scripted");
    m.script = Some("let x = 1;".to_string());
    let v = m.validated().ok().unwrap();
    assert!(v.is_scripted());
    assert!(v.get_steps().is_empty());
}

#[test]
fn script_and_script_path_are_exclusive() {
    let mut m = bare_monitor("both");
    m.script = Some("1".to_string());
    m.script_path = Some("/x.rhai".to_string());
    assert_eq!(expect_error(m), "Monitor 'both' cannot have both 'script' and 'script_path'");
}

#[test]
fn no_kind_is_refused() {
    let m = bare_monitor("empty");
    assert_eq!(
        expect_error(m),
        "Monitor 'empty' must have exactly one of: steps, url+http_method, or script/script_path"
    );
}

#[test]
fn empty_steps_are_refused() {
    let mut m = bare_monitor("hollow");
    m.steps = Some(vec![]);
    assert_eq!(expect_error(m), "Monitor 'hollow' has 'steps' field but it is empty");
}

#[test]
fn empty_steps_beside_request_fields_are_refused() {
    let mut m = single_step("both", "https://e.com");
    m.steps = Some(vec![]);
    assert_eq!(
        expect_error(m),
        "Monitor 'both' must have exactly one of: steps, url+http_method, or script/script_path"
    );
}

#[test]
fn monitor_with_script_path_has_no_steps() {
    let mut m = bare_monitor("file");
    m.script_path = Some("a.rhai".to_string());
    assert!(m.get_steps().is_empty());
}

#[test]
fn two_kinds_are_refused() {
    let mut m = single_step("mixed", "https://example.com");
    m.script = Some("1".to_string());
    assert_eq!(
        expect_error(m),
        "Monitor 'mixed' must have exactly one of: steps, url+http_method, or script/script_path"
    );
}

#[test]
fn missing_url_is_refused() {
    let mut m = bare_monitor("nourl");
    m.http_method = Some("GET".to_string());
    assert_eq!(expect_error(m), "Monitor 'nourl' is missing required field 'url'");
}

#[test]
fn missing_method_is_refused() {
    let mut m = bare_monitor("nomethod");
    m.url = Some("https://example.com".to_string());
    assert_eq!(expect_error(m), "Monitor 'nomethod' is missing required field 'http_method'");
}

#[test]
fn duplicate_step_names_are_refused() {
    let mut m = bare_monitor("dups");
    m.steps = Some(vec![step("a"), step("b"), step("a"), step("b")]);
    assert_eq!(expect_error(m), "Duplicate step name 'a' in monitor 'dups'");
}

#[test]
fn validate_step_names_accepts_distinct_names() {
    let mut m = bare_monitor("ok");
    m.steps = Some(vec![step("a"), step("b"), step("c")]);
    assert!(m.validate_step_names().is_ok());
    let single = single_step("s", "https://example.com");
    assert!(single.validate_step_names().is_ok());
}

#[test]
fn get_steps_of_single_step_monitor() {
    let mut m = single_step("single", "https://example.com/x");
    m.sensitive = true;
    m.with = Some(InputParameters {
        headers: Some(HashMap::from([("A".to_string(), "b".to_string())])),
        body: Some("payload".to_string()),
        timeout_seconds: Some(7),
    });
    let steps = m.get_steps();
    assert_eq!(steps.len(), 1);
    assert_eq!(steps[0].name, "single");
    assert_eq!(steps[0].url, "https://example.com/x");
    assert_eq!(steps[0].http_method, "GET");
    assert!(steps[0].sensitive);
    let with = steps[0].with.as_ref().unwrap();
    assert_eq!(with.body.as_deref(), Some("payload"));
    assert_eq!(with.timeout_seconds, Some(7));
    assert_eq!(with.headers.as_ref().unwrap().get("A").unwrap(), "b");
    assert_eq!(steps[0].expectations.as_ref().unwrap().len(), 1);
}

#[test]
fn get_steps_of_multi_step_monitor() {
    let mut m = bare_monitor("multi");
    m.steps = Some(vec![step("first"), step("second")]);
    let steps = m.get_steps();
    assert_eq!(steps.len(), 2);
    assert_eq!(steps[0].name, "first");
    assert_eq!(steps[1].name, "second");
    assert_eq!(steps[1].url, "https://example.com/second");
}

fn ts(secs: i64) -> chrono::NaiveDateTime {
    chrono::DateTime::from_timestamp(secs, 0).unwrap().naive_utc()
}

#[test]
fn truncated_body_counts_characters() {
    let r = EndpointResponse {
        timestamp_received: ts(0),
        status_code: 200,
        body: "héllo wörld".to_string(),
        sensitive: false,
    };
    assert_eq!(r.truncated_body(4), "héll");
    assert_eq!(r.truncated_body(0), "");
    assert_eq!(r.truncated_body(100), "héllo wörld");
}

#[test]
fn endpoint_result_to_response() {
    let res = EndpointResult {
        timestamp_request_started: ts(10),
        timestamp_response_received: ts(12),
        status_code: 503,
        body: "down".to_string(),
        trace_id: "t".to_string(),
        span_id: "s".to_string(),
        sensitive: true,
    };
    let r = res.to_endpoint_response();
    assert_eq!(r.timestamp_received, ts(12));
    assert_eq!(r.status_code, 503);
    assert_eq!(r.body, "down");
    assert!(r.sensitive);
}

#[test]
fn script_path_is_resolved_to_its_text() {
    let mut m = bare_monitor("file");
    m.script_path = Some("check.rhai".to_string());
    let r = prodzilla::scripting::resolve_script_path(m, "let x = 1;".to_string()).ok().unwrap();
    assert_eq!(r.script.as_deref(), Some("let x = 1;"));
    assert!(r.script_path.is_none());
    assert_eq!(r.name, "file");
    let mut m = bare_monitor("bad");
    m.script_path = Some("bad.rhai".to_string());
    assert!(prodzilla::scripting::resolve_script_path(m, "let x = !".to_string()).is_err());
}
