use prodzilla::model::{EndpointResponse, MonitorResult, StepResult};
use prodzilla::results::{ResultHistory, RESULT_LIMIT};

fn ts(secs: i64) -> chrono::NaiveDateTime {
    chrono::DateTime::from_timestamp(secs, 0).unwrap().naive_utc()
}

fn result(name: &str, at: i64, success: bool) -> MonitorResult {
    MonitorResult {
        monitor_name: name.to_string(),
        timestamp_started: ts(at),
        success,
        step_results: vec![StepResult {
            step_name: "s".to_string(),
            timestamp_started: ts(at),
            success,
            error_message: None,
            response: Some(EndpointResponse {
                timestamp_received: ts(at),
                status_code: 200,
                body: "ok".to_string(),
                sensitive: false,
            }),
            trace_id: None,
            span_id: None,
        }],
    }
}

#[test]
fn history_keeps_only_the_latest_results() {
    let mut h = ResultHistory::new();
    for i in 0..(RESULT_LIMIT as i64 + 5) {
        h.add_monitor_result("m".to_string(), result("m", i, true));
    }
    let newest = h.results_newest_first("m", true).unwrap();
    assert_eq!(newest.len(), RESULT_LIMIT);
    assert_eq!(newest[0].timestamp_started, ts(RESULT_LIMIT as i64 + 4));
    assert_eq!(newest[RESULT_LIMIT - 1].timestamp_started, ts(5));
}

#[test]
fn histories_of_monitors_are_separate() {
    let mut h = ResultHistory::new();
    h.add_monitor_result("a".to_string(), result("a", 1, true));
    h.add_monitor_result("b".to_string(), result("b", 2, false));
    h.add_monitor_result("a".to_string(), result("a", 3, false));
    assert_eq!(h.results_newest_first("a", true).unwrap().len(), 2);
    assert_eq!(h.results_newest_first("b", true).unwrap().len(), 1);
    assert!(h.results_newest_first("c", true).is_none());
}

#[test]
fn summary_reports_latest_status() {
    let mut h = ResultHistory::new();
    assert!(h.monitor_summary().is_empty());
    h.add_monitor_result("a".to_string(), result("a", 1, false));
    h.add_monitor_result("a".to_string(), result("a", 2, true));
    h.add_monitor_result("b".to_string(), result("b", 3, false));
    let s = h.monitor_summary();
    assert_eq!(s.len(), 2);
    assert_eq!(s[0].name, "a");
    assert_eq!(s[0].status, "OK");
    assert_eq!(s[0].last_probed, ts(2));
    assert_eq!(s[1].name, "b");
    assert_eq!(s[1].status, "FAILING");
}

#[test]
fn results_are_newest_first_and_hide_responses() {
    let mut h = ResultHistory::new();
    h.add_monitor_result("m".to_string(), result("m", 1, true));
    h.add_monitor_result("m".to_string(), result("m", 2, false));
    let hidden = h.results_newest_first("m", false).unwrap();
    assert_eq!(hidden[0].timestamp_started, ts(2));
    assert!(!hidden[0].success);
    assert_eq!(hidden[1].timestamp_started, ts(1));
    assert!(hidden[0].step_results[0].response.is_none());
    let shown = h.results_newest_first("m", true).unwrap();
    assert_eq!(shown[0].step_results[0].response.as_ref().unwrap().body, "ok");
}
