use prodzilla::model::{StepResult};
use prodzilla::scripting::{
    check_assert, check_assert_eq, clean_error_message, create_engine, finish_execution, parse_error_to_script_error, parse_http_method, script_timeout_secs,
    resolve_http_request, EvalFailure, LogEntry, LogLevel, ScriptError, ScriptOutcome, ScriptRunner,
};

fn ts(secs: i64) -> chrono::NaiveDateTime {
    chrono::DateTime::from_timestamp(secs, 0).unwrap().naive_utc()
}

#[test]
fn test_engine_creation() {
    let engine = create_engine().into_engine();
    let result = engine.eval::<i64>("1 + 1");
    assert_eq!(result.unwrap(), 2);
}

#[test]
fn test_script_compilation_valid() {
    let runner = ScriptRunner::new("let x = 1;");
    assert!(runner.is_ok());
}

#[test]
fn test_script_compilation_invalid() {
    let runner = ScriptRunner::new("let x = !");
    assert!(runner.is_err());
    match runner.err().unwrap() {
        ScriptError::ParseError { diagnostics, message } => {
            assert!(!message.is_empty());
            assert!(!diagnostics.is_empty());
        }
        _ => panic!("Expected ParseError"),
    }
}

#[test]
fn test_validate_valid() {
    let result = ScriptRunner::validate("1 + 1");
    assert!(result.is_ok());
}

#[test]
fn test_validate_invalid() {
    let result = ScriptRunner::validate("fn foo() {");
    assert!(result.is_err());
}

#[test]
fn test_validate_returns_position_info() {
    let result = ScriptRunner::validate("let x = !");
    match result.err().unwrap() {
        ScriptError::ParseError { diagnostics, .. } => {
            assert_eq!(diagnostics.len(), 1);
            assert!(diagnostics[0].line.is_some(), "Should have line info");
            assert_eq!(diagnostics[0].line, Some(1));
            assert!(diagnostics[0].column.is_some(), "Should have column info");
        }
        _ => panic!("Expected ParseError"),
    }
}

#[test]
fn test_validate_multiline_error_position() {
    let script = "let x = 1;\nlet y = 2;\nlet z = !";
    let result = ScriptRunner::validate(script);
    match result.err().unwrap() {
        ScriptError::ParseError { diagnostics, .. } => {
            assert_eq!(diagnostics.len(), 1);
            assert_eq!(diagnostics[0].line, Some(3), "Error should be on line 3");
        }
        _ => panic!("Expected ParseError"),
    }
}

#[test]
fn parse_error_message_carries_position_and_diagnostic_does_not() {
    match ScriptRunner::validate("let x = !").err().unwrap() {
        ScriptError::ParseError { message, diagnostics } => {
            assert!(message.contains("line 1"));
            assert!(!diagnostics[0].message.contains("line 1"));
            assert!(message.starts_with(diagnostics[0].message.as_str()));
        }
        _ => panic!("Expected ParseError"),
    }
}

#[test]
fn script_error_texts() {
    let e = ScriptError::RuntimeError("x".to_string());
    assert_eq!(e.message(), "Script runtime error: x");
    assert_eq!(ScriptError::AssertionFailed("y".to_string()).message(), "Assertion failed: y");
    assert_eq!(ScriptError::ResourceLimit("z".to_string()).message(), "Resource limit exceeded: z");
    assert_eq!(
        ScriptError::Timeout(std::time::Duration::from_millis(200)).message(),
        "Script timeout after 200ms"
    );
    assert_eq!(
        ScriptError::ParseError { message: "bad".to_string(), diagnostics: vec![] }.message(),
        "Script parse error: bad"
    );
}

fn step(name: &str, success: bool, error: Option<&str>) -> StepResult {
    StepResult {
        step_name: name.to_string(),
        timestamp_started: ts(1),
        success,
        error_message: error.map(|e| e.to_string()),
        response: None,
        trace_id: None,
        span_id: None,
    }
}

#[test]
fn run_without_steps_reports_one_step_named_after_monitor() {
    let out = finish_execution("mon".to_string(), ts(5), ScriptOutcome::Completed, vec![], vec![]);
    assert!(out.result.success);
    assert_eq!(out.result.step_results.len(), 1);
    assert_eq!(out.result.step_results[0].step_name, "mon");
    assert!(out.result.step_results[0].success);
    assert!(out.result.step_results[0].error_message.is_none());
    assert_eq!(out.result.timestamp_started, ts(5));
}

#[test]
fn failed_run_without_steps_carries_the_error() {
    let out = finish_execution(
        "mon".to_string(),
        ts(5),
        ScriptOutcome::Failed("Runtime error: boom".to_string()),
        vec![],
        vec![],
    );
    assert!(!out.result.success);
    assert_eq!(out.result.step_results[0].error_message.as_deref(), Some("Runtime error: boom"));
}

#[test]
fn failure_after_successful_step_marks_last_step() {
    let out = finish_execution(
        "mon".to_string(),
        ts(5),
        ScriptOutcome::Failed("post-step failure".to_string()),
        vec![step("setup", true, None)],
        vec![],
    );
    assert!(!out.result.success);
    let last = out.result.step_results.last().unwrap();
    assert!(!last.success);
    assert_eq!(last.error_message.as_deref(), Some("post-step failure"));
}

#[test]
fn step_with_own_error_keeps_it() {
    let out = finish_execution(
        "mon".to_string(),
        ts(5),
        ScriptOutcome::Failed("Runtime error: step-level failure (line 3)".to_string()),
        vec![step("check", false, Some("step-level failure"))],
        vec![],
    );
    let last = out.result.step_results.last().unwrap();
    assert!(!last.success);
    assert_eq!(last.error_message.as_deref(), Some("step-level failure"));
}

#[test]
fn successful_run_keeps_steps_and_logs() {
    let logs = vec![LogEntry::new(LogLevel::Info, "hello".to_string(), ts(1))];
    let out = finish_execution(
        "mon".to_string(),
        ts(5),
        ScriptOutcome::Completed,
        vec![step("my-step", true, None)],
        logs,
    );
    assert!(out.result.success);
    assert_eq!(out.result.step_results.len(), 1);
    assert_eq!(out.result.step_results[0].step_name, "my-step");
    assert_eq!(out.logs.len(), 1);
    assert_eq!(out.logs[0].level, "info");
    assert_eq!(out.logs[0].message, "hello");
}

#[test]
fn timeout_and_panic_texts() {
    let out = finish_execution("m".to_string(), ts(0), ScriptOutcome::TimedOut("200ms".to_string()), vec![], vec![]);
    assert_eq!(out.result.step_results[0].error_message.as_deref(), Some("Script timed out after 200ms"));
    let out = finish_execution("m".to_string(), ts(0), ScriptOutcome::Panicked("oops".to_string()), vec![], vec![]);
    assert_eq!(
        out.result.step_results[0].error_message.as_deref(),
        Some("Script execution panicked: oops")
    );
}

#[test]
fn log_levels_are_named() {
    assert_eq!(LogEntry::new(LogLevel::Warn, "w".to_string(), ts(0)).level, "warn");
    assert_eq!(LogEntry::new(LogLevel::Debug, "d".to_string(), ts(0)).level, "debug");
}

#[test]
fn assertions_in_scripts() {
    assert!(check_assert(true, "fine".to_string()).is_ok());
    assert_eq!(check_assert(false, "intentional failure".to_string()).err().unwrap(), "intentional failure");
    assert!(check_assert_eq("1", "1", "should be equal").is_ok());
    assert_eq!(
        check_assert_eq("1", "2", "numbers").err().unwrap(),
        "numbers: expected '1' == '2'"
    );
}

#[test]
fn clean_error_unwraps_calls() {
    let e = EvalFailure::InFunctionCall(Box::new(EvalFailure::InFunctionCall(Box::new(
        EvalFailure::Runtime("health check failed".to_string()),
    ))));
    assert_eq!(clean_error_message(&e), "health check failed");
    let o = EvalFailure::Other("Function not found: foo".to_string());
    assert_eq!(clean_error_message(&o), "Function not found: foo");
}

#[test]
fn http_request_options() {
    let e = resolve_http_request(None, None, None, vec![], None).err().unwrap();
    assert_eq!(e, "http_request: 'url' is required");
    let r = resolve_http_request(Some("https://x".to_string()), None, None, vec![], None).ok().unwrap();
    assert_eq!(r.method, "GET");
    assert_eq!(r.timeout_seconds, 30);
    assert_eq!(r.url, "https://x");
    let r = resolve_http_request(
        Some("https://x".to_string()),
        Some("POST".to_string()),
        Some("{}".to_string()),
        vec![("A".to_string(), "b".to_string())],
        Some(5),
    )
    .ok()
    .unwrap();
    assert_eq!(r.timeout_seconds, 5);
    assert_eq!(r.method, "POST");
    assert_eq!(r.body.as_deref(), Some("{}"));
    assert_eq!(r.headers.len(), 1);
}

#[test]
fn new_and_validate_agree() {
    for script in ["let x = 1;", "1 + 1", "", "let x = !", "fn foo() {"] {
        let a = ScriptRunner::new(script);
        let b = ScriptRunner::validate(script);
        assert_eq!(a.is_ok(), b.is_ok(), "{script}");
        if let (Err(ScriptError::ParseError { message: m1, diagnostics: d1 }), Err(ScriptError::ParseError { message: m2, diagnostics: d2 })) = (a, b) {
            assert_eq!(m1, m2);
            assert_eq!(d1.len(), 1);
            assert_eq!(d2.len(), 1);
            assert_eq!(d1[0].line, d2[0].line);
            assert_eq!(d1[0].column, d2[0].column);
            assert_eq!(d1[0].message, d2[0].message);
        }
    }
}

#[test]
fn parse_failure_becomes_one_diagnostic() {
    match parse_error_to_script_error("full (line 2, position 3)".to_string(), "kind".to_string(), Some(2), Some(3)) {
        ScriptError::ParseError { message, diagnostics } => {
            assert_eq!(message, "full (line 2, position 3)");
            assert_eq!(diagnostics.len(), 1);
            assert_eq!(diagnostics[0].line, Some(2));
            assert_eq!(diagnostics[0].column, Some(3));
            assert_eq!(diagnostics[0].message, "kind");
        }
        _ => panic!("Expected ParseError"),
    }
}

#[test]
fn http_methods_of_script_requests() {
    assert_eq!(parse_http_method("GET").unwrap(), reqwest::Method::GET);
    assert_eq!(parse_http_method("PATCH").unwrap(), reqwest::Method::PATCH);
    assert_eq!(parse_http_method("PURGE").unwrap().as_str(), "PURGE");
    assert_eq!(parse_http_method("").unwrap_err(), "Invalid HTTP method: invalid HTTP method");
    assert_eq!(parse_http_method("GE T").unwrap_err(), "Invalid HTTP method: invalid HTTP method");
}

#[test]
fn request_and_script_timeouts() {
    let r = resolve_http_request(Some("https://x".to_string()), None, None, vec![], Some(-1)).ok().unwrap();
    assert_eq!(r.timeout_seconds, 30);
    assert_eq!(script_timeout_secs(None), 60);
    assert_eq!(script_timeout_secs(Some(45)), 45);
}

#[test]
fn runner_keeps_its_script_text() {
    let run = ScriptRunner::new("let x = 1;").ok().unwrap();
    assert_eq!(run.script(), "let x = 1;");
}

#[test]
fn engine_carries_the_script_limits() {
    let engine = create_engine().into_engine();
    assert_eq!(engine.max_operations(), 1_000_000);
    assert_eq!(engine.max_call_levels(), 64);
    assert_eq!(engine.max_string_size(), 1_048_576);
    assert_eq!(engine.max_array_size(), 10_000);
    assert_eq!(engine.max_map_size(), 10_000);
}

#[test]
fn failed_run_has_one_failed_step() {
    let r = prodzilla::scripting::failed_run("m".to_string(), ts(5), "boom".to_string());
    assert_eq!(r.monitor_name, "m");
    assert!(!r.success);
    assert_eq!(r.step_results.len(), 1);
    assert_eq!(r.step_results[0].step_name, "m");
    assert_eq!(r.step_results[0].timestamp_started, ts(5));
    assert_eq!(r.step_results[0].error_message.as_deref(), Some("boom"));
}
