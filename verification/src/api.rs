//! The decisions of the HTTP API: request checks, error responses and their status codes,
//! response bodies, and the scripting helpers' answers.
use vstd::prelude::*;
use vstd::string::*;

use crate::config_store::{error_message, ConfigStoreError, StoredMonitor};
use crate::model::{Monitor, MonitorResult};
use crate::results::{find_entry, shown_steps, ResultHistory};
use crate::scripting::{
    compiles, rhai_compile_error, script_error_text, ExecutionOutput, LogEntry, ScriptDiagnostic, ScriptError,
    ScriptRunner,
};
use crate::text::{concat2, concat5, owned, str_eq};

verus! {

/// Extra data of an error response.
pub enum ApiErrorDetails {
    /// The diagnostics of a script that does not compile.
    Diagnostics(Vec<ScriptDiagnostic>),
    /// The versions of a refused update.
    VersionConflict { expected_version: i64, actual_version: i64 },
}

/// The body of an error response.
pub struct ApiError {
    pub error: String,
    pub message: String,
    pub details: Option<ApiErrorDetails>,
}

/// The HTTP status of an error response, by its error code.
pub open spec fn status_for(error: Seq<char>) -> u16 {
    if error == "not_found"@ {
        404
    } else if error == "already_exists"@ || error == "version_conflict"@ {
        409
    } else if error == "validation_error"@ {
        400
    } else {
        500
    }
}

/// The error response a config store failure becomes.
pub open spec fn store_error_response(e: ConfigStoreError, r: ApiError) -> bool {
    match e {
        ConfigStoreError::NotFound(name) => r.error@ == "not_found"@ && r.message@ == "Monitor not found: "@
            + name@ && r.details is None,
        ConfigStoreError::AlreadyExists(name) => r.error@ == "already_exists"@ && r.message@
            == "Monitor already exists: "@ + name@ && r.details is None,
        ConfigStoreError::VersionConflict { name, expected, actual } => r.error@ == "version_conflict"@
            && r.message@ == error_message(e) && r.details == Some(
            ApiErrorDetails::VersionConflict { expected_version: expected, actual_version: actual },
        ),
        ConfigStoreError::Database(_) => r.error@ == "internal_error"@ && r.message@
            == "An internal error occurred"@ && r.details is None,
    }
}

/// The status of the response to a config store failure: 404 when the monitor is
/// missing, 409 when it already exists or its version moved on, 500 when the database
/// failed.
pub proof fn law_store_error_status(e: ConfigStoreError, a: ApiError)
    requires
        store_error_response(e, a),
    ensures
        status_for(a.error@) == match e {
            ConfigStoreError::NotFound(_) => 404u16,
            ConfigStoreError::AlreadyExists(_) => 409u16,
            ConfigStoreError::VersionConflict { .. } => 409u16,
            ConfigStoreError::Database(_) => 500u16,
        },
{
    reveal_strlit("not_found");
    reveal_strlit("already_exists");
    reveal_strlit("version_conflict");
    reveal_strlit("validation_error");
    reveal_strlit("internal_error");
    let nf = "not_found"@;
    let ae = "already_exists"@;
    let vc = "version_conflict"@;
    let ve = "validation_error"@;
    let ie = "internal_error"@;
    assert(ae.len() != nf.len());
    assert(vc.len() != nf.len() && vc[1] != ve[1]);
    assert(ie.len() != nf.len() && ie[0] != ae[0] && ie.len() != vc.len() && ie.len() != ve.len());
}

impl ApiError {
    /// An error response without details.
    pub fn new(error: &str, message: String) -> (r: ApiError)
        ensures
            r.error@ == error@,
            r.message == message,
            r.details is None,
    {
        ApiError { error: owned(error), message, details: None }
    }

    /// The HTTP status of this error response: 404 for "not_found", 409 for
    /// "already_exists" and "version_conflict", 400 for "validation_error", 500 otherwise.
    pub fn status_code(&self) -> (r: u16)
        ensures
            r == status_for(self.error@),
    {
        let e = self.error.as_str();
        if str_eq(e, "not_found") {
            404
        } else if str_eq(e, "already_exists") || str_eq(e, "version_conflict") {
            409
        } else if str_eq(e, "validation_error") {
            400
        } else {
            500
        }
    }

    /// The error response for a config store failure: not found, a conflict (with the
    /// versions for a version conflict), or an internal error that does not reveal the
    /// database's own text.
    pub fn from_store_error(err: ConfigStoreError) -> (r: ApiError)
        ensures
            store_error_response(err, r),
    {
        let message = err.message();
        match err {
            ConfigStoreError::NotFound(_) => ApiError::new("not_found", message),
            ConfigStoreError::AlreadyExists(_) => ApiError::new("already_exists", message),
            ConfigStoreError::VersionConflict { expected, actual, .. } => ApiError {
                error: owned("version_conflict"),
                message,
                details: Some(ApiErrorDetails::VersionConflict { expected_version: expected, actual_version: actual }),
            },
            ConfigStoreError::Database(_) => ApiError::new("internal_error", owned("An internal error occurred")),
        }
    }

    /// "Monitor not found: <name>", as a not-found response.
    pub fn monitor_not_found(name: &str) -> (r: ApiError)
        ensures
            r.error@ == "not_found"@,
            r.message@ == "Monitor not found: "@ + name@,
            r.details is None,
    {
        ApiError::new("not_found", concat2("Monitor not found: ", name))
    }
}

/// A monitor with its stored version and timestamps, as the API returns it.
pub struct MonitorApiResponse {
    pub name: String,
    pub monitor: Monitor,
    pub version: i64,
    pub created_at: chrono::NaiveDateTime,
    pub updated_at: chrono::NaiveDateTime,
}

impl MonitorApiResponse {
    /// The response for a stored monitor, named after it.
    pub fn from_stored(stored: StoredMonitor) -> (r: MonitorApiResponse)
        ensures
            r.name == stored.monitor.name,
            r.monitor == stored.monitor,
            r.version == stored.version,
            r.created_at == stored.created_at,
            r.updated_at == stored.updated_at,
    {
        MonitorApiResponse {
            name: stored.monitor.name.clone(),
            monitor: stored.monitor,
            version: stored.version,
            created_at: stored.created_at,
            updated_at: stored.updated_at,
        }
    }
}

/// The list of monitors the API returns.
pub struct MonitorListResponse {
    pub monitors: Vec<MonitorApiResponse>,
}

impl MonitorListResponse {
    /// The response for the store's listing, in listing order.
    pub fn from_stored(stored: Vec<StoredMonitor>) -> (r: MonitorListResponse)
        ensures
            r.monitors@.len() == stored@.len(),
            forall|i: int| 0 <= i < stored@.len() ==> {
                &&& #[trigger] r.monitors@[i].monitor == stored@[i].monitor
                &&& r.monitors@[i].name == stored@[i].monitor.name
                &&& r.monitors@[i].version == stored@[i].version
                &&& r.monitors@[i].created_at == stored@[i].created_at
                &&& r.monitors@[i].updated_at == stored@[i].updated_at
            },
    {
        let ghost orig = stored@;
        let mut rest = stored;
        let mut monitors: Vec<MonitorApiResponse> = Vec::new();
        let n = rest.len();
        while rest.len() > 0
            invariant
                rest@.len() + monitors@.len() == n,
                n == orig.len(),
                rest@ == orig.skip(monitors@.len() as int),
                forall|i: int| 0 <= i < monitors@.len() ==> {
                    &&& #[trigger] monitors@[i].monitor == orig[i].monitor
                    &&& monitors@[i].name == orig[i].monitor.name
                    &&& monitors@[i].version == orig[i].version
                    &&& monitors@[i].created_at == orig[i].created_at
                    &&& monitors@[i].updated_at == orig[i].updated_at
                },
            decreases rest@.len(),
        {
            let s = rest.remove(0);
            monitors.push(MonitorApiResponse::from_stored(s));
            assert(rest@ =~= orig.skip(monitors@.len() as int));
        }
        MonitorListResponse { monitors }
    }
}

/// A request to replace a monitor's configuration, naming the version it replaces.
pub struct UpdateMonitorRequest {
    pub monitor: Monitor,
    pub version: i64,
}

/// The message refusing a `script_path` through the API.
pub open spec fn script_path_message() -> Seq<char> {
    "script_path is only valid in YAML config files. Use 'script' with inline content."@
}

/// The response refusing a script that failed to compile: for a parse error,
/// "Script compilation failed: " and the error's text, with its diagnostics; for any other
/// error, "Script error: " and its text.
pub fn script_rejection(e: ScriptError) -> (r: ApiError)
    ensures
        r.error@ == "validation_error"@,
        e matches ScriptError::ParseError { diagnostics, .. } ==> (r.details == Some(ApiErrorDetails::Diagnostics(diagnostics))
            && r.message@ == "Script compilation failed: "@ + script_error_text(e)->0),
        !(e is ParseError) ==> r.details is None,
        !(e is ParseError) ==> (script_error_text(e) matches Some(t) ==> r.message@ == "Script error: "@ + t),
{
    let text = e.message();
    match e {
        ScriptError::ParseError { diagnostics, .. } => ApiError {
            error: owned("validation_error"),
            message: concat2("Script compilation failed: ", text.as_str()),
            details: Some(ApiErrorDetails::Diagnostics(diagnostics)),
        },
        _ => ApiError::new("validation_error", concat2("Script error: ", text.as_str())),
    }
}

/// The refusal of a script `source` that does not compile: a validation error with
/// "Script compilation failed: Script parse error: " and rhai's text for the failure, and
/// as details the one diagnostic at the failure's line and column, with the text of its kind.
pub open spec fn script_refusal(source: Seq<char>, e: ApiError) -> bool {
    match rhai_compile_error(source) {
        Some(f) => e.error@ == "validation_error"@ && e.message@ == "Script compilation failed: Script parse error: "@
            + f.0 && (e.details matches Some(ApiErrorDetails::Diagnostics(d)) && d@.len() == 1 && d@[0].message@
            == f.1 && d@[0].line == f.2 && d@[0].column == f.3),
        None => false,
    }
}

proof fn lemma_compile_failed_text(message: Seq<char>)
    ensures
        "Script compilation failed: "@ + ("Script parse error: "@ + message) == "Script compilation failed: Script parse error: "@
            + message,
{
    reveal_strlit("Script compilation failed: ");
    reveal_strlit("Script parse error: ");
    reveal_strlit("Script compilation failed: Script parse error: ");
    assert("Script compilation failed: "@ + ("Script parse error: "@ + message) =~= "Script compilation failed: Script parse error: "@
        + message);
}

/// Checks the script of a monitor submitted through the API: `script_path` is refused
/// (it belongs in YAML files only), and an inline `script` must compile; a script that
/// does not compile is refused with its diagnostics (see `script_rejection`).
pub fn validate_script(monitor: &Monitor) -> (r: Result<(), ApiError>)
    ensures
        monitor.script_path is Some ==> (r matches Err(e) && e.error@ == "validation_error"@
            && e.message@ == script_path_message() && e.details is None),
        monitor.script_path is None && monitor.script is None ==> r is Ok,
        r matches Err(e) ==> e.error@ == "validation_error"@,
        monitor.script_path is None ==> (monitor.script matches Some(s) ==> (r is Ok <==> compiles(s@))),
        monitor.script_path is None ==> (monitor.script matches Some(s) ==> (r matches Err(e) ==> script_refusal(s@, e))),
{
    if monitor.script_path.is_some() {
        return Err(ApiError::new(
            "validation_error",
            owned("script_path is only valid in YAML config files. Use 'script' with inline content."),
        ));
    }
    if let Some(script) = &monitor.script {
        match ScriptRunner::validate(script.as_str()) {
            Ok(()) => {},
            Err(e) => {
                proof {
                    if let ScriptError::ParseError { message, .. } = &e {
                        lemma_compile_failed_text(message@);
                    }
                }
                return Err(script_rejection(e));
            },
        }
    }
    Ok(())
}

/// Checks an update of monitor `name`: the monitor in the body must carry the name of the
/// URL, and its script must pass `validate_script`.
pub fn check_update(name: &str, req: &UpdateMonitorRequest) -> (r: Result<(), ApiError>)
    ensures
        req.monitor.name@ != name@ ==> (r matches Err(e) && e.error@ == "validation_error"@
            && e.message@ == "Monitor name in body ("@ + req.monitor.name@ + ") does not match URL ("@
            + name@ + ")"@ && e.details is None),
        req.monitor.name@ == name@ && req.monitor.script_path is None && req.monitor.script is None ==> r is Ok,
        req.monitor.name@ == name@ && req.monitor.script_path is Some ==> (r matches Err(e)
            && e.message@ == script_path_message() && e.details is None),
        req.monitor.name@ == name@ && req.monitor.script_path is None ==> (req.monitor.script matches Some(s) ==> (r is Ok
            <==> compiles(s@))),
        req.monitor.name@ == name@ && req.monitor.script_path is None ==> (req.monitor.script matches Some(s) ==> (
        r matches Err(e) ==> script_refusal(s@, e))),
        r matches Err(e) ==> e.error@ == "validation_error"@,
{
    if !str_eq(req.monitor.name.as_str(), name) {
        let mut m = concat5("Monitor name in body (", req.monitor.name.as_str(), ") does not match URL (", name, ")");
        return Err(ApiError::new("validation_error", m));
    }
    validate_script(&req.monitor)
}

/// The results of monitor `name`, newest first, with step responses only when asked for;
/// not found when the monitor has produced no result.
pub fn get_monitor_results(
    history: &ResultHistory,
    name: &str,
    show_response: Option<bool>,
) -> (r: Result<Vec<MonitorResult>, ApiError>)
    ensures
        find_entry(history.entries(), name@) is None ==> (r matches Err(e) && e.error@ == "not_found"@
            && e.message@ == "Monitor not found: "@ + name@ && e.details is None),
        find_entry(history.entries(), name@) is Some ==> (r matches Ok(v) && {
            let h = history.history_of(name@);
            let show = show_response == Some(true);
            &&& v@.len() == h.len()
            &&& forall|k: int| 0 <= k < h.len() ==> {
                let src = #[trigger] h[h.len() - 1 - k];
                &&& v@[k].monitor_name == src.monitor_name
                &&& v@[k].timestamp_started == src.timestamp_started
                &&& v@[k].success == src.success
                &&& v@[k].step_results@ == shown_steps(src.step_results@, show)
            }
        }),
{
    let show = match show_response {
        Some(b) => b,
        None => false,
    };
    match history.results_newest_first(name, show) {
        Some(v) => Ok(v),
        None => Err(ApiError::monitor_not_found(name)),
    }
}

/// Which monitor a manual trigger runs.
pub enum TriggerTarget {
    /// The monitor the store holds.
    Stored(Monitor),
    /// The monitor at this index of the static configuration.
    Configured(usize),
}

/// Picks the monitor a trigger of `name` runs: the one the store gave; when the store has
/// none, the first of the static configuration with that name; otherwise not found. Other
/// store failures become their error response.
pub fn select_trigger_target(
    name: &str,
    lookup: Result<StoredMonitor, ConfigStoreError>,
    configured: &Vec<Monitor>,
) -> (r: Result<TriggerTarget, ApiError>)
    ensures
        lookup matches Ok(s) ==> r == Ok::<TriggerTarget, ApiError>(TriggerTarget::Stored(s.monitor)),
        lookup matches Err(ConfigStoreError::NotFound(_)) ==> match r {
            Ok(TriggerTarget::Configured(i)) => i < configured@.len() && configured@[i as int].name@
                == name@ && forall|k: int| 0 <= k < i ==> #[trigger] configured@[k].name@ != name@,
            Err(e) => e.error@ == "not_found"@ && e.message@ == "Monitor not found: "@ + name@ && e.details is None
                && forall|k: int| 0 <= k < configured@.len() ==> #[trigger] configured@[k].name@ != name@,
            _ => false,
        },
        lookup matches Err(e) ==> (!(e is NotFound) ==> (r matches Err(a) && store_error_response(e, a))),
{
    match lookup {
        Ok(stored) => Ok(TriggerTarget::Stored(stored.monitor)),
        Err(ConfigStoreError::NotFound(_)) => {
            let mut i: usize = 0;
            while i < configured.len()
                invariant
                    i <= configured@.len(),
                    lookup matches Err(ConfigStoreError::NotFound(_)),
                    forall|k: int| 0 <= k < i ==> #[trigger] configured@[k].name@ != name@,
                decreases configured@.len() - i,
            {
                if str_eq(configured[i].name.as_str(), name) {
                    return Ok(TriggerTarget::Configured(i));
                }
                i = i + 1;
            }
            Err(ApiError::monitor_not_found(name))
        },
        Err(e) => Err(ApiError::from_store_error(e)),
    }
}

// ---------------------------------------------------------------------------------------------
// Scripting endpoints
// ---------------------------------------------------------------------------------------------

/// An entry of the script editor's completion list.
pub struct ScriptingCompletionItem {
    pub label: String,
    pub kind: String,
    pub detail: String,
    pub documentation: Option<String>,
    pub insert_text: Option<String>,
    pub insert_text_rules: Option<i32>,
}

/// The content of a completion entry.
pub struct CompletionItemView {
    pub label: Seq<char>,
    pub kind: Seq<char>,
    pub detail: Seq<char>,
    pub documentation: Option<Seq<char>>,
    pub insert_text: Option<Seq<char>>,
    pub insert_text_rules: Option<i32>,
}

pub open spec fn opt_text(s: Option<String>) -> Option<Seq<char>> {
    match s {
        Some(s) => Some(s@),
        None => None,
    }
}

impl View for ScriptingCompletionItem {
    type V = CompletionItemView;

    open spec fn view(&self) -> CompletionItemView {
        CompletionItemView {
            label: self.label@,
            kind: self.kind@,
            detail: self.detail@,
            documentation: opt_text(self.documentation),
            insert_text: opt_text(self.insert_text),
            insert_text_rules: self.insert_text_rules,
        }
    }
}

/// The completion list of the script editor.
pub struct CompletionsResponse {
    pub items: Vec<ScriptingCompletionItem>,
}

/// The completion entries: the host functions scripts can call (with a snippet inserted
/// by the editor) and the properties of a `ScriptResponse`.
pub open spec fn completion_entries() -> Seq<CompletionItemView> {
    seq![
        CompletionItemView {
            label: "http_get"@,
            kind: "function"@,
            detail: "http_get(url: String) -> ScriptResponse"@,
            documentation: Some("Perform an HTTP GET request.\n\nReturns a `ScriptResponse` with `.status` (i64), `.body` (String), `.headers` (Map), `.duration_ms` (i64)."@),
            insert_text: Some("http_get(\"${1:url}\")"@),
            insert_text_rules: Some(4i32),
        },
        CompletionItemView {
            label: "http_post"@,
            kind: "function"@,
            detail: "http_post(url: String, body: String) -> ScriptResponse"@,
            documentation: Some("Perform an HTTP POST request with a body.\n\nReturns a `ScriptResponse` with `.status` (i64), `.body` (String), `.headers` (Map), `.duration_ms` (i64)."@),
            insert_text: Some("http_post(\"${1:url}\", \"${2:body}\")"@),
            insert_text_rules: Some(4i32),
        },
        CompletionItemView {
            label: "http_put"@,
            kind: "function"@,
            detail: "http_put(url: String, body: String) -> ScriptResponse"@,
            documentation: Some("Perform an HTTP PUT request with a body.\n\nReturns a `ScriptResponse` with `.status` (i64), `.body` (String), `.headers` (Map), `.duration_ms` (i64)."@),
            insert_text: Some("http_put(\"${1:url}\", \"${2:body}\")"@),
            insert_text_rules: Some(4i32),
        },
        CompletionItemView {
            label: "http_delete"@,
            kind: "function"@,
            detail: "http_delete(url: String) -> ScriptResponse"@,
            documentation: Some("Perform an HTTP DELETE request.\n\nReturns a `ScriptResponse` with `.status` (i64), `.body` (String), `.headers` (Map), `.duration_ms` (i64)."@),
            insert_text: Some("http_delete(\"${1:url}\")"@),
            insert_text_rules: Some(4i32),
        },
        CompletionItemView {
            label: "http_request"@,
            kind: "function"@,
            detail: "http_request(options: Map) -> ScriptResponse"@,
            documentation: Some("Perform a fully configurable HTTP request.\n\nOptions map keys: `url` (String, required), `method` (String, required), `body` (String, optional), `headers` (Map, optional).\n\nReturns a `ScriptResponse` with `.status` (i64), `.body` (String), `.headers` (Map), `.duration_ms` (i64)."@),
            insert_text: Some("http_request(#{url: \"${1:url}\", method: \"${2:GET}\"})"@),
            insert_text_rules: Some(4i32),
        },
        CompletionItemView {
            label: "assert"@,
            kind: "function"@,
            detail: "assert(condition: bool, message: String)"@,
            documentation: Some("Assert that a condition is true. If false, the script fails with the given message."@),
            insert_text: Some("assert(${1:condition}, \"${2:message}\")"@),
            insert_text_rules: Some(4i32),
        },
        CompletionItemView {
            label: "assert_eq"@,
            kind: "function"@,
            detail: "assert_eq(actual: Dynamic, expected: Dynamic, message: String)"@,
            documentation: Some("Assert that two values are equal. If not, the script fails with the given message."@),
            insert_text: Some("assert_eq(${1:actual}, ${2:expected}, \"${3:message}\")"@),
            insert_text_rules: Some(4i32),
        },
        CompletionItemView {
            label: "parse_json"@,
            kind: "function"@,
            detail: "parse_json(text: String) -> Dynamic"@,
            documentation: Some("Parse a JSON string into a Rhai object (Map or Array)."@),
            insert_text: Some("parse_json(${1:text})"@),
            insert_text_rules: Some(4i32),
        },
        CompletionItemView {
            label: "to_json"@,
            kind: "function"@,
            detail: "to_json(value: Dynamic) -> String"@,
            documentation: Some("Serialize a Rhai value to a JSON string."@),
            insert_text: Some("to_json(${1:value})"@),
            insert_text_rules: Some(4i32),
        },
        CompletionItemView {
            label: "env"@,
            kind: "function"@,
            detail: "env(name: String) -> String"@,
            documentation: Some("Read an environment variable. Returns an empty string if not set."@),
            insert_text: Some("env(\"${1:VAR_NAME}\")"@),
            insert_text_rules: Some(4i32),
        },
        CompletionItemView {
            label: "uuid"@,
            kind: "function"@,
            detail: "uuid() -> String"@,
            documentation: Some("Generate a random UUID v4 string."@),
            insert_text: Some("uuid()"@),
            insert_text_rules: Some(4i32),
        },
        CompletionItemView {
            label: "timestamp"@,
            kind: "function"@,
            detail: "timestamp() -> String"@,
            documentation: Some("Get the current UTC time as an RFC 3339 / ISO 8601 string."@),
            insert_text: Some("timestamp()"@),
            insert_text_rules: Some(4i32),
        },
        CompletionItemView {
            label: "timestamp_epoch"@,
            kind: "function"@,
            detail: "timestamp_epoch() -> i64"@,
            documentation: Some("Get the current UTC time as a Unix epoch timestamp (seconds)."@),
            insert_text: Some("timestamp_epoch()"@),
            insert_text_rules: Some(4i32),
        },
        CompletionItemView {
            label: "log_info"@,
            kind: "function"@,
            detail: "log_info(message: String)"@,
            documentation: Some("Log a message at INFO level."@),
            insert_text: Some("log_info(\"${1:message}\")"@),
            insert_text_rules: Some(4i32),
        },
        CompletionItemView {
            label: "log_warn"@,
            kind: "function"@,
            detail: "log_warn(message: String)"@,
            documentation: Some("Log a message at WARN level."@),
            insert_text: Some("log_warn(\"${1:message}\")"@),
            insert_text_rules: Some(4i32),
        },
        CompletionItemView {
            label: "log_debug"@,
            kind: "function"@,
            detail: "log_debug(message: String)"@,
            documentation: Some("Log a message at DEBUG level."@),
            insert_text: Some("log_debug(\"${1:message}\")"@),
            insert_text_rules: Some(4i32),
        },
        CompletionItemView {
            label: "step"@,
            kind: "function"@,
            detail: "step(name: String, body: FnPtr) -> Dynamic"@,
            documentation: Some("Execute a named step. The closure is executed and its result is tracked.\n\nStep results (pass/fail, error messages) are automatically recorded.\n\n```rhai\nstep(\"check-api\", || {\n    let resp = http_get(\"https://api.example.com/health\");\n    assert(resp.status == 200, \"health check failed\");\n});\n```"@),
            insert_text: Some("step(\"${1:name}\", || {\n\t${2}\n})"@),
            insert_text_rules: Some(4i32),
        },
        CompletionItemView {
            label: "status"@,
            kind: "property"@,
            detail: "ScriptResponse.status: i64"@,
            documentation: Some("HTTP status code of the response (e.g. 200, 404, 500)."@),
            insert_text: None,
            insert_text_rules: None,
        },
        CompletionItemView {
            label: "body"@,
            kind: "property"@,
            detail: "ScriptResponse.body: String"@,
            documentation: Some("Response body as a string. Use `parse_json(resp.body)` to parse JSON responses."@),
            insert_text: None,
            insert_text_rules: None,
        },
        CompletionItemView {
            label: "headers"@,
            kind: "property"@,
            detail: "ScriptResponse.headers: Map"@,
            documentation: Some("Response headers as a key-value map."@),
            insert_text: None,
            insert_text_rules: None,
        },
        CompletionItemView {
            label: "duration_ms"@,
            kind: "property"@,
            detail: "ScriptResponse.duration_ms: i64"@,
            documentation: Some("Time taken for the HTTP request in milliseconds."@),
            insert_text: None,
            insert_text_rules: None,
        }
    ]
}

pub open spec fn opt_str(s: Option<&str>) -> Option<Seq<char>> {
    match s {
        Some(s) => Some(s@),
        None => None,
    }
}

fn opt_owned(s: Option<&str>) -> (r: Option<String>)
    ensures
        opt_text(r) == opt_str(s),
{
    match s {
        Some(s) => Some(owned(s)),
        None => None,
    }
}

fn completion_item(
    label: &str,
    kind: &str,
    detail: &str,
    documentation: Option<&str>,
    insert_text: Option<&str>,
    insert_text_rules: Option<i32>,
) -> (r: ScriptingCompletionItem)
    ensures
        r@ == (CompletionItemView {
            label: label@,
            kind: kind@,
            detail: detail@,
            documentation: opt_str(documentation),
            insert_text: opt_str(insert_text),
            insert_text_rules,
        }),
{
    ScriptingCompletionItem {
        label: owned(label),
        kind: owned(kind),
        detail: owned(detail),
        documentation: opt_owned(documentation),
        insert_text: opt_owned(insert_text),
        insert_text_rules,
    }
}

/// The snippet a function's completion inserts calls that very function: its text starts
/// with the function's name followed by "(".
pub open spec fn calls_own_function(e: CompletionItemView) -> bool {
    &&& e.insert_text is Some
    &&& e.insert_text->0.len() > e.label.len()
    &&& e.insert_text->0.subrange(0, e.label.len() as int) == e.label
    &&& e.insert_text->0[e.label.len() as int] == '('
}

/// Choosing a function in the editor inserts a call to that function: every completion of
/// kind "function" has a snippet that starts with its own label and "(".
pub proof fn law_function_completions_call_themselves()
    ensures
        forall|k: int| 0 <= k < completion_entries().len() && (#[trigger] completion_entries()[k]).kind == "function"@
            ==> calls_own_function(completion_entries()[k]),
{
    let es = completion_entries();
    assert(es.len() == 21);
    assert(calls_own_function(es[0])) by {
        reveal_strlit("http_get");
        reveal_strlit("http_get(\"${1:url}\")");
        assert("http_get(\"${1:url}\")"@.subrange(0, "http_get"@.len() as int) =~= "http_get"@);
    }
    assert(calls_own_function(es[1])) by {
        reveal_strlit("http_post");
        reveal_strlit("http_post(\"${1:url}\", \"${2:body}\")");
        assert("http_post(\"${1:url}\", \"${2:body}\")"@.subrange(0, "http_post"@.len() as int) =~= "http_post"@);
    }
    assert(calls_own_function(es[2])) by {
        reveal_strlit("http_put");
        reveal_strlit("http_put(\"${1:url}\", \"${2:body}\")");
        assert("http_put(\"${1:url}\", \"${2:body}\")"@.subrange(0, "http_put"@.len() as int) =~= "http_put"@);
    }
    assert(calls_own_function(es[3])) by {
        reveal_strlit("http_delete");
        reveal_strlit("http_delete(\"${1:url}\")");
        assert("http_delete(\"${1:url}\")"@.subrange(0, "http_delete"@.len() as int) =~= "http_delete"@);
    }
    assert(calls_own_function(es[4])) by {
        reveal_strlit("http_request");
        reveal_strlit("http_request(#{url: \"${1:url}\", method: \"${2:GET}\"})");
        assert("http_request(#{url: \"${1:url}\", method: \"${2:GET}\"})"@.subrange(0, "http_request"@.len() as int) =~= "http_request"@);
    }
    assert(calls_own_function(es[5])) by {
        reveal_strlit("assert");
        reveal_strlit("assert(${1:condition}, \"${2:message}\")");
        assert("assert(${1:condition}, \"${2:message}\")"@.subrange(0, "assert"@.len() as int) =~= "assert"@);
    }
    assert(calls_own_function(es[6])) by {
        reveal_strlit("assert_eq");
        reveal_strlit("assert_eq(${1:actual}, ${2:expected}, \"${3:message}\")");
        assert("assert_eq(${1:actual}, ${2:expected}, \"${3:message}\")"@.subrange(0, "assert_eq"@.len() as int) =~= "assert_eq"@);
    }
    assert(calls_own_function(es[7])) by {
        reveal_strlit("parse_json");
        reveal_strlit("parse_json(${1:text})");
        assert("parse_json(${1:text})"@.subrange(0, "parse_json"@.len() as int) =~= "parse_json"@);
    }
    assert(calls_own_function(es[8])) by {
        reveal_strlit("to_json");
        reveal_strlit("to_json(${1:value})");
        assert("to_json(${1:value})"@.subrange(0, "to_json"@.len() as int) =~= "to_json"@);
    }
    assert(calls_own_function(es[9])) by {
        reveal_strlit("env");
        reveal_strlit("env(\"${1:VAR_NAME}\")");
        assert("env(\"${1:VAR_NAME}\")"@.subrange(0, "env"@.len() as int) =~= "env"@);
    }
    assert(calls_own_function(es[10])) by {
        reveal_strlit("uuid");
        reveal_strlit("uuid()");
        assert("uuid()"@.subrange(0, "uuid"@.len() as int) =~= "uuid"@);
    }
    assert(calls_own_function(es[11])) by {
        reveal_strlit("timestamp");
        reveal_strlit("timestamp()");
        assert("timestamp()"@.subrange(0, "timestamp"@.len() as int) =~= "timestamp"@);
    }
    assert(calls_own_function(es[12])) by {
        reveal_strlit("timestamp_epoch");
        reveal_strlit("timestamp_epoch()");
        assert("timestamp_epoch()"@.subrange(0, "timestamp_epoch"@.len() as int) =~= "timestamp_epoch"@);
    }
    assert(calls_own_function(es[13])) by {
        reveal_strlit("log_info");
        reveal_strlit("log_info(\"${1:message}\")");
        assert("log_info(\"${1:message}\")"@.subrange(0, "log_info"@.len() as int) =~= "log_info"@);
    }
    assert(calls_own_function(es[14])) by {
        reveal_strlit("log_warn");
        reveal_strlit("log_warn(\"${1:message}\")");
        assert("log_warn(\"${1:message}\")"@.subrange(0, "log_warn"@.len() as int) =~= "log_warn"@);
    }
    assert(calls_own_function(es[15])) by {
        reveal_strlit("log_debug");
        reveal_strlit("log_debug(\"${1:message}\")");
        assert("log_debug(\"${1:message}\")"@.subrange(0, "log_debug"@.len() as int) =~= "log_debug"@);
    }
    assert(calls_own_function(es[16])) by {
        reveal_strlit("step");
        reveal_strlit("step(\"${1:name}\", || {\n\t${2}\n})");
        assert("step(\"${1:name}\", || {\n\t${2}\n})"@.subrange(0, "step"@.len() as int) =~= "step"@);
    }
    assert(es[17].kind != "function"@) by {
        reveal_strlit("property");
        reveal_strlit("function");
        assert("property"@[0] != "function"@[0]);
    }
    assert(es[18].kind != "function"@) by {
        reveal_strlit("property");
        reveal_strlit("function");
        assert("property"@[0] != "function"@[0]);
    }
    assert(es[19].kind != "function"@) by {
        reveal_strlit("property");
        reveal_strlit("function");
        assert("property"@[0] != "function"@[0]);
    }
    assert(es[20].kind != "function"@) by {
        reveal_strlit("property");
        reveal_strlit("function");
        assert("property"@[0] != "function"@[0]);
    }
    assert forall|k: int| 0 <= k < es.len() && (#[trigger] es[k]).kind == "function"@ implies calls_own_function(es[k]) by {
        assert(k == 0 || k == 1 || k == 2 || k == 3 || k == 4 || k == 5 || k == 6 || k == 7 || k == 8 || k == 9 || k == 10 || k == 11 || k == 12 || k == 13 || k == 14 || k == 15 || k == 16 || k == 17 || k == 18 || k == 19 || k == 20);
    }
}

/// The completion list of the script editor (see `completion_entries`).
#[verifier::rlimit(50)]
pub fn build_completions() -> (r: CompletionsResponse)
    ensures
        r.items@.map_values(|i: ScriptingCompletionItem| i@) == completion_entries(),
{
    let mut items: Vec<ScriptingCompletionItem> = Vec::new();
    items.push(completion_item(
        "http_get",
        "function",
        "http_get(url: String) -> ScriptResponse",
        Some("Perform an HTTP GET request.\n\nReturns a `ScriptResponse` with `.status` (i64), `.body` (String), `.headers` (Map), `.duration_ms` (i64)."),
        Some("http_get(\"${1:url}\")"),
        Some(4i32),
    ));
    items.push(completion_item(
        "http_post",
        "function",
        "http_post(url: String, body: String) -> ScriptResponse",
        Some("Perform an HTTP POST request with a body.\n\nReturns a `ScriptResponse` with `.status` (i64), `.body` (String), `.headers` (Map), `.duration_ms` (i64)."),
        Some("http_post(\"${1:url}\", \"${2:body}\")"),
        Some(4i32),
    ));
    items.push(completion_item(
        "http_put",
        "function",
        "http_put(url: String, body: String) -> ScriptResponse",
        Some("Perform an HTTP PUT request with a body.\n\nReturns a `ScriptResponse` with `.status` (i64), `.body` (String), `.headers` (Map), `.duration_ms` (i64)."),
        Some("http_put(\"${1:url}\", \"${2:body}\")"),
        Some(4i32),
    ));
    items.push(completion_item(
        "http_delete",
        "function",
        "http_delete(url: String) -> ScriptResponse",
        Some("Perform an HTTP DELETE request.\n\nReturns a `ScriptResponse` with `.status` (i64), `.body` (String), `.headers` (Map), `.duration_ms` (i64)."),
        Some("http_delete(\"${1:url}\")"),
        Some(4i32),
    ));
    items.push(completion_item(
        "http_request",
        "function",
        "http_request(options: Map) -> ScriptResponse",
        Some("Perform a fully configurable HTTP request.\n\nOptions map keys: `url` (String, required), `method` (String, required), `body` (String, optional), `headers` (Map, optional).\n\nReturns a `ScriptResponse` with `.status` (i64), `.body` (String), `.headers` (Map), `.duration_ms` (i64)."),
        Some("http_request(#{url: \"${1:url}\", method: \"${2:GET}\"})"),
        Some(4i32),
    ));
    items.push(completion_item(
        "assert",
        "function",
        "assert(condition: bool, message: String)",
        Some("Assert that a condition is true. If false, the script fails with the given message."),
        Some("assert(${1:condition}, \"${2:message}\")"),
        Some(4i32),
    ));
    items.push(completion_item(
        "assert_eq",
        "function",
        "assert_eq(actual: Dynamic, expected: Dynamic, message: String)",
        Some("Assert that two values are equal. If not, the script fails with the given message."),
        Some("assert_eq(${1:actual}, ${2:expected}, \"${3:message}\")"),
        Some(4i32),
    ));
    items.push(completion_item(
        "parse_json",
        "function",
        "parse_json(text: String) -> Dynamic",
        Some("Parse a JSON string into a Rhai object (Map or Array)."),
        Some("parse_json(${1:text})"),
        Some(4i32),
    ));
    items.push(completion_item(
        "to_json",
        "function",
        "to_json(value: Dynamic) -> String",
        Some("Serialize a Rhai value to a JSON string."),
        Some("to_json(${1:value})"),
        Some(4i32),
    ));
    items.push(completion_item(
        "env",
        "function",
        "env(name: String) -> String",
        Some("Read an environment variable. Returns an empty string if not set."),
        Some("env(\"${1:VAR_NAME}\")"),
        Some(4i32),
    ));
    items.push(completion_item(
        "uuid",
        "function",
        "uuid() -> String",
        Some("Generate a random UUID v4 string."),
        Some("uuid()"),
        Some(4i32),
    ));
    items.push(completion_item(
        "timestamp",
        "function",
        "timestamp() -> String",
        Some("Get the current UTC time as an RFC 3339 / ISO 8601 string."),
        Some("timestamp()"),
        Some(4i32),
    ));
    items.push(completion_item(
        "timestamp_epoch",
        "function",
        "timestamp_epoch() -> i64",
        Some("Get the current UTC time as a Unix epoch timestamp (seconds)."),
        Some("timestamp_epoch()"),
        Some(4i32),
    ));
    items.push(completion_item(
        "log_info",
        "function",
        "log_info(message: String)",
        Some("Log a message at INFO level."),
        Some("log_info(\"${1:message}\")"),
        Some(4i32),
    ));
    items.push(completion_item(
        "log_warn",
        "function",
        "log_warn(message: String)",
        Some("Log a message at WARN level."),
        Some("log_warn(\"${1:message}\")"),
        Some(4i32),
    ));
    items.push(completion_item(
        "log_debug",
        "function",
        "log_debug(message: String)",
        Some("Log a message at DEBUG level."),
        Some("log_debug(\"${1:message}\")"),
        Some(4i32),
    ));
    items.push(completion_item(
        "step",
        "function",
        "step(name: String, body: FnPtr) -> Dynamic",
        Some("Execute a named step. The closure is executed and its result is tracked.\n\nStep results (pass/fail, error messages) are automatically recorded.\n\n```rhai\nstep(\"check-api\", || {\n    let resp = http_get(\"https://api.example.com/health\");\n    assert(resp.status == 200, \"health check failed\");\n});\n```"),
        Some("step(\"${1:name}\", || {\n\t${2}\n})"),
        Some(4i32),
    ));
    items.push(completion_item(
        "status",
        "property",
        "ScriptResponse.status: i64",
        Some("HTTP status code of the response (e.g. 200, 404, 500)."),
        None,
        None,
    ));
    items.push(completion_item(
        "body",
        "property",
        "ScriptResponse.body: String",
        Some("Response body as a string. Use `parse_json(resp.body)` to parse JSON responses."),
        None,
        None,
    ));
    items.push(completion_item(
        "headers",
        "property",
        "ScriptResponse.headers: Map",
        Some("Response headers as a key-value map."),
        None,
        None,
    ));
    items.push(completion_item(
        "duration_ms",
        "property",
        "ScriptResponse.duration_ms: i64",
        Some("Time taken for the HTTP request in milliseconds."),
        None,
        None,
    ));
    assert(items@.map_values(|i: ScriptingCompletionItem| i@) =~= completion_entries());
    CompletionsResponse { items }
}

/// A request to check a script.
pub struct ValidateScriptRequest {
    pub script: String,
}

/// A problem in a script, as the editor marks it.
pub struct DiagnosticDto {
    pub start_line: usize,
    pub start_column: usize,
    pub end_line: usize,
    pub end_column: usize,
    pub message: String,
    pub severity: i32,
}

/// The editor's severity for errors.
pub const SEVERITY_ERROR: i32 = 8;

/// Whether a script compiles, with the problems found.
pub struct ValidateScriptResponse {
    pub valid: bool,
    pub diagnostics: Vec<DiagnosticDto>,
}

/// The marker for a parse diagnostic: one column wide at its position, where a missing
/// line or column counts as 1.
pub open spec fn marker_for(d: ScriptDiagnostic, m: DiagnosticDto) -> bool {
    let line = match d.line { Some(l) => l, None => 1 };
    let col = match d.column { Some(c) => c, None => 1 };
    &&& m.start_line == line
    &&& m.end_line == line
    &&& m.start_column == col
    &&& m.end_column == col + 1
    &&& m.message == d.message
    &&& m.severity == SEVERITY_ERROR
}

fn marker(d: ScriptDiagnostic) -> (m: DiagnosticDto)
    requires
        d.column matches Some(c) ==> c < usize::MAX,
    ensures
        marker_for(d, m),
{
    let line = match d.line { Some(l) => l, None => 1 };
    let col = match d.column { Some(c) => c, None => 1 };
    DiagnosticDto {
        start_line: line,
        start_column: col,
        end_line: line,
        end_column: col + 1,
        message: d.message,
        severity: SEVERITY_ERROR,
    }
}

/// The editor's answer for the result of compiling a script: valid with no problem when
/// it compiled; for a parse error, invalid with one marker per diagnostic, in order; for
/// any other error, invalid with one marker at line 1, column 1 carrying the error's text.
pub fn validation_response(result: Result<(), ScriptError>) -> (r: ValidateScriptResponse)
    requires
        result matches Err(ScriptError::ParseError { diagnostics, .. }) ==> forall|k: int| 0 <= k < diagnostics@.len()
            ==> (#[trigger] diagnostics@[k].column matches Some(c) ==> c < usize::MAX),
    ensures
        r.valid == result is Ok,
        result is Ok ==> r.diagnostics@.len() == 0,
        result matches Err(ScriptError::ParseError { diagnostics, .. }) ==> r.diagnostics@.len() == diagnostics@.len()
            && forall|k: int| 0 <= k < diagnostics@.len() ==> marker_for(diagnostics@[k], #[trigger] r.diagnostics@[k]),
        result matches Err(e) ==> (!(e is ParseError) ==> r.diagnostics@.len() == 1
            && r.diagnostics@[0].start_line == 1 && r.diagnostics@[0].start_column == 1
            && r.diagnostics@[0].end_line == 1 && r.diagnostics@[0].end_column == 2
            && r.diagnostics@[0].severity == SEVERITY_ERROR
            && (script_error_text(e) matches Some(t) ==> r.diagnostics@[0].message@ == t)),
{
    match result {
        Ok(()) => ValidateScriptResponse { valid: true, diagnostics: Vec::new() },
        Err(ScriptError::ParseError { diagnostics, .. }) => {
            let ghost ds = diagnostics@;
            let mut out: Vec<DiagnosticDto> = Vec::new();
            let mut rest = diagnostics;
            while rest.len() > 0
                invariant
                    rest@.len() + out@.len() == ds.len(),
                    rest@ == ds.skip(out@.len() as int),
                    forall|k: int| 0 <= k < ds.len() ==> (#[trigger] ds[k].column matches Some(c) ==> c < usize::MAX),
                    forall|i: int| 0 <= i < out@.len() ==> marker_for(ds[i], #[trigger] out@[i]),
                decreases rest@.len(),
            {
                let d = rest.remove(0);
                out.push(marker(d));
                assert(rest@ =~= ds.skip(out@.len() as int));
            }
            ValidateScriptResponse { valid: false, diagnostics: out }
        },
        Err(e) => {
            let mut out: Vec<DiagnosticDto> = Vec::new();
            out.push(DiagnosticDto {
                start_line: 1,
                start_column: 1,
                end_line: 1,
                end_column: 2,
                message: e.message(),
                severity: SEVERITY_ERROR,
            });
            ValidateScriptResponse { valid: false, diagnostics: out }
        },
    }
}

/// The editor's marker for rhai's failure `f`: one column wide at its line and column
/// (a missing one counts as 1), with the text of the failure's kind.
pub open spec fn failure_marker(f: (Seq<char>, Seq<char>, Option<usize>, Option<usize>), m: DiagnosticDto) -> bool {
    let line = match f.2 { Some(l) => l, None => 1 };
    let col = match f.3 { Some(c) => c, None => 1 };
    &&& m.start_line == line
    &&& m.end_line == line
    &&& m.start_column == col
    &&& m.end_column == col + 1
    &&& m.message@ == f.1
    &&& m.severity == SEVERITY_ERROR
}

/// Checks a script for the editor: compiles it and answers as `validation_response` does.
pub fn scripting_validate(req: ValidateScriptRequest) -> (r: ValidateScriptResponse)
    ensures
        r.valid <==> compiles(req.script@),
        r.valid ==> r.diagnostics@.len() == 0,
        !r.valid ==> (rhai_compile_error(req.script@) matches Some(f) && r.diagnostics@.len() == 1
            && failure_marker(f, r.diagnostics@[0])),
{
    validation_response(ScriptRunner::validate(req.script.as_str()))
}

/// A request to run a script once.
pub struct ExecuteScriptRequest {
    pub script: String,
    pub timeout_seconds: Option<u64>,
}

/// What a run of a script reported.
pub struct ExecuteScriptResponse {
    pub result: MonitorResult,
    pub logs: Vec<LogEntry>,
}

impl ExecuteScriptResponse {
    /// The response for a run's output.
    pub fn from_output(output: ExecutionOutput) -> (r: ExecuteScriptResponse)
        ensures
            r.result == output.result,
            r.logs == output.logs,
    {
        ExecuteScriptResponse { result: output.result, logs: output.logs }
    }
}

/// The timeout of a one-off run: the requested number of seconds (30 when none is
/// given), at most 120.
pub fn execution_timeout_secs(requested: Option<u64>) -> (r: u64)
    ensures
        r == (match requested {
            Some(t) => if t < 120 { t } else { 120 },
            None => 30,
        }),
{
    let t = match requested {
        Some(t) => t,
        None => 30,
    };
    if t < 120 { t } else { 120 }
}

/// Prepares a one-off run of a script: its compiled form and timeout in seconds; a
/// script that does not compile is refused.
pub fn prepare_execution(req: &ExecuteScriptRequest) -> (r: Result<(ScriptRunner, u64), ApiError>)
    ensures
        r matches Ok((run, t)) ==> t == execution_timeout_secs_spec(req.timeout_seconds) && run.script_text()
            == req.script@,
        r is Ok <==> compiles(req.script@),
        r matches Err(e) ==> e.error@ == "validation_error"@ && e.details is None
            && (rhai_compile_error(req.script@) matches Some(f) && e.message@
            == "Script compilation failed: Script parse error: "@ + f.0),
{
    let timeout = execution_timeout_secs(req.timeout_seconds);
    match ScriptRunner::new(req.script.as_str()) {
        Ok(runner) => Ok((runner, timeout)),
        Err(e) => {
            let text = e.message();
            proof {
                if let ScriptError::ParseError { message, .. } = e {
                    lemma_compile_failed_text(message@);
                }
            }
            Err(ApiError::new("validation_error", concat2("Script compilation failed: ", text.as_str())))
        },
    }
}

/// The timeout `execution_timeout_secs` gives.
pub open spec fn execution_timeout_secs_spec(requested: Option<u64>) -> u64 {
    match requested {
        Some(t) => if t < 120 { t } else { 120 },
        None => 30,
    }
}

} // verus!
