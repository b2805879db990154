//! Scripted monitors: compiling Rhai scripts, the errors a script can raise, and what a run
//! of a script reports.
//!
//! A script runs in an engine with fixed resource limits. A run that records no step
//! reports one step named after the monitor; a run that fails marks its last step failed,
//! keeping the error that step raised itself.
use std::collections::HashMap;
use vstd::prelude::*;
use vstd::string::*;

use crate::model::{Monitor, MonitorResult, StepResult};
use crate::text::{concat2, concat5, owned, str_eq};

verus! {

#[verifier::external_type_specification]
#[verifier::external_body]
pub struct ExEngine(rhai::Engine);

#[verifier::external_type_specification]
#[verifier::external_body]
pub struct ExAst(rhai::AST);


/// Operations a script may perform in one run.
pub const MAX_OPERATIONS: u64 = 1_000_000;
/// Nesting depth of function calls a script may reach.
pub const MAX_CALL_LEVELS: usize = 64;
/// Largest string a script may build, in bytes.
pub const MAX_STRING_SIZE: usize = 1_048_576;
/// Largest array a script may build.
pub const MAX_ARRAY_SIZE: usize = 10_000;
/// Largest object map a script may build.
pub const MAX_MAP_SIZE: usize = 10_000;

/// The resource limits of a script engine.
pub struct EngineLimits {
    pub max_operations: u64,
    pub max_call_levels: usize,
    pub max_string_size: usize,
    pub max_array_size: usize,
    pub max_map_size: usize,
}

/// The limits scripts run under: `MAX_OPERATIONS`, `MAX_CALL_LEVELS`, `MAX_STRING_SIZE`,
/// `MAX_ARRAY_SIZE` and `MAX_MAP_SIZE`.
pub open spec fn script_limits() -> EngineLimits {
    EngineLimits {
        max_operations: MAX_OPERATIONS,
        max_call_levels: MAX_CALL_LEVELS,
        max_string_size: MAX_STRING_SIZE,
        max_array_size: MAX_ARRAY_SIZE,
        max_map_size: MAX_MAP_SIZE,
    }
}

/// A Rhai engine together with a model of the resource limits set on it. Its fields are
/// private: the limits change only through the setters below, each of which changes the
/// engine's own limit and the model alike.
pub struct ScriptEngine {
    engine: rhai::Engine,
    limits: Ghost<EngineLimits>,
}

impl ScriptEngine {
    /// The limits set on this engine.
    pub closed spec fn limits(&self) -> EngineLimits {
        self.limits@
    }

    /// The Rhai engine itself, to register host functions on and run scripts with.
    pub fn into_engine(self) -> rhai::Engine {
        self.engine
    }
}

/// A new engine with Rhai's standard packages (`rhai::Engine::new`).
#[verifier::external_body]
fn engine_new() -> rhai::Engine {
    rhai::Engine::new()
}

/// Sets how many operations a script may perform (`Engine::set_max_operations`, which
/// changes only that limit).
#[verifier::external_body]
fn set_max_operations(engine: &mut ScriptEngine, operations: u64)
    ensures
        final(engine).limits() == (EngineLimits { max_operations: operations, ..old(engine).limits() }),
{
    engine.engine.set_max_operations(operations);
}

/// Sets the nesting depth of function calls (`Engine::set_max_call_levels`, which changes
/// only that limit).
#[verifier::external_body]
fn set_max_call_levels(engine: &mut ScriptEngine, levels: usize)
    ensures
        final(engine).limits() == (EngineLimits { max_call_levels: levels, ..old(engine).limits() }),
{
    engine.engine.set_max_call_levels(levels);
}

/// Sets the largest string a script may build (`Engine::set_max_string_size`, which
/// changes only that limit).
#[verifier::external_body]
fn set_max_string_size(engine: &mut ScriptEngine, size: usize)
    ensures
        final(engine).limits() == (EngineLimits { max_string_size: size, ..old(engine).limits() }),
{
    engine.engine.set_max_string_size(size);
}

/// Sets the largest array a script may build (`Engine::set_max_array_size`, which changes
/// only that limit).
#[verifier::external_body]
fn set_max_array_size(engine: &mut ScriptEngine, size: usize)
    ensures
        final(engine).limits() == (EngineLimits { max_array_size: size, ..old(engine).limits() }),
{
    engine.engine.set_max_array_size(size);
}

/// Sets the largest object map a script may build (`Engine::set_max_map_size`, which
/// changes only that limit).
#[verifier::external_body]
fn set_max_map_size(engine: &mut ScriptEngine, size: usize)
    ensures
        final(engine).limits() == (EngineLimits { max_map_size: size, ..old(engine).limits() }),
{
    engine.engine.set_max_map_size(size);
}

/// The text of a duration as `Debug` writes it (`Duration`'s `Debug`).
#[verifier::external_body]
fn duration_debug_text(d: &std::time::Duration) -> String {
    format!("{:?}", d)
}

/// The engine scripts run in: Rhai's standard engine with the resource limits
/// `MAX_OPERATIONS`, `MAX_CALL_LEVELS`, `MAX_STRING_SIZE`, `MAX_ARRAY_SIZE` and `MAX_MAP_SIZE`.
pub fn create_engine() -> (r: ScriptEngine)
    ensures
        r.limits() == script_limits(),
{
    let mut engine = ScriptEngine { engine: engine_new(), limits: Ghost(arbitrary()) };
    set_max_operations(&mut engine, MAX_OPERATIONS);
    set_max_call_levels(&mut engine, MAX_CALL_LEVELS);
    set_max_string_size(&mut engine, MAX_STRING_SIZE);
    set_max_array_size(&mut engine, MAX_ARRAY_SIZE);
    set_max_map_size(&mut engine, MAX_MAP_SIZE);
    engine
}

/// Where and why a script failed to parse.
pub struct ScriptDiagnostic {
    pub line: Option<usize>,
    pub column: Option<usize>,
    pub message: String,
}

/// An error a script raised.
pub enum ScriptError {
    ParseError { message: String, diagnostics: Vec<ScriptDiagnostic> },
    RuntimeError(String),
    AssertionFailed(String),
    Timeout(std::time::Duration),
    ResourceLimit(String),
}

/// The text describing an error; `None` for a timeout, whose text writes the limit as
/// `Duration`'s `Debug` does.
pub open spec fn script_error_text(e: ScriptError) -> Option<Seq<char>> {
    match e {
        ScriptError::ParseError { message, .. } => Some("Script parse error: "@ + message@),
        ScriptError::RuntimeError(m) => Some("Script runtime error: "@ + m@),
        ScriptError::AssertionFailed(m) => Some("Assertion failed: "@ + m@),
        ScriptError::Timeout(_) => None,
        ScriptError::ResourceLimit(m) => Some("Resource limit exceeded: "@ + m@),
    }
}

impl ScriptError {
    /// The text describing this error (see `script_error_text`); for a timeout,
    /// "Script timeout after " followed by the limit.
    pub fn message(&self) -> (r: String)
        ensures
            script_error_text(*self) matches Some(t) ==> r@ == t,
            self is Timeout ==> exists|d: Seq<char>| r@ == "Script timeout after "@ + d,
    {
        match self {
            ScriptError::ParseError { message, .. } => concat2("Script parse error: ", message.as_str()),
            ScriptError::RuntimeError(m) => concat2("Script runtime error: ", m.as_str()),
            ScriptError::AssertionFailed(m) => concat2("Assertion failed: ", m.as_str()),
            ScriptError::Timeout(d) => {
                let t = duration_debug_text(d);
                concat2("Script timeout after ", t.as_str())
            },
            ScriptError::ResourceLimit(m) => concat2("Resource limit exceeded: ", m.as_str()),
        }
    }
}

/// What rhai reports when `source` does not parse in the engine `create_engine` builds:
/// the error's full text (with its position), the text of its kind (without position),
/// its line and its position within the line; `None` when the source compiles. The
/// engine's settings are fixed, so the outcome depends on the source alone.
pub uninterp spec fn rhai_compile_error(source: Seq<char>) -> Option<(Seq<char>, Seq<char>, Option<usize>, Option<usize>)>;

/// Compiles `source` (`Engine::compile`) in an engine with the scripts' limits, as
/// `create_engine` builds it (the only way to make a `ScriptEngine`). A source that
/// does not parse gives the `ParseError` converted to plain values: its `Display` text, the
/// `Display` text of its kind (`e.0`), the line of its position (`Position::line`) and the
/// character position within the line (`Position::position`). The outcome is named
/// `rhai_compile_error`. rhai keeps lines and positions as `u16`, and reads a position of 0
/// as `None`, so a column is between 1 and 65535; a line is at most 65535.
#[verifier::external_body]
fn compile(engine: &ScriptEngine, source: &str) -> (r: Result<rhai::AST, (String, String, Option<usize>, Option<usize>)>)
    requires
        engine.limits() == script_limits(),
    ensures
        r is Ok <==> rhai_compile_error(source@) is None,
        r matches Err((m, k, l, c)) ==> rhai_compile_error(source@) == Some((m@, k@, l, c)),
        r matches Err((_, _, l, c)) ==> (l matches Some(x) ==> x <= 65535) && (c matches Some(y) ==> 1 <= y <= 65535),
{
    match engine.engine.compile(source) {
        Ok(ast) => Ok(ast),
        Err(e) => Err((e.to_string(), e.0.to_string(), e.1.line(), e.1.position())),
    }
}

/// `e` is the parse error for the failure `f` of `rhai_compile_error`: its message is
/// the full text, and its one diagnostic carries the line, the column and the text of
/// the error's kind.
pub open spec fn is_parse_error_of(e: ScriptError, f: (Seq<char>, Seq<char>, Option<usize>, Option<usize>)) -> bool {
    e matches ScriptError::ParseError { message, diagnostics } && message@ == f.0 && diagnostics@.len() == 1
        && diagnostics@[0].message@ == f.1 && diagnostics@[0].line == f.2 && diagnostics@[0].column == f.3
}

/// The error for a script that failed to parse: a parse error with the full text of the
/// failure, and one diagnostic at its position carrying the text of its kind.
pub fn parse_error_to_script_error(
    message: String,
    kind_message: String,
    line: Option<usize>,
    column: Option<usize>,
) -> (r: ScriptError)
    ensures
        is_parse_error_of(r, (message@, kind_message@, line, column)),
{
    let mut diagnostics: Vec<ScriptDiagnostic> = Vec::new();
    diagnostics.push(ScriptDiagnostic { line, column, message: kind_message });
    ScriptError::ParseError { message, diagnostics }
}

/// The script compiles: rhai reports no parse error for it.
pub open spec fn compiles(source: Seq<char>) -> bool {
    rhai_compile_error(source) is None
}

/// What compiling `source` gives when it fails: the parse error for rhai's failure, with
/// a line of at most 65535 and a column between 1 and 65535.
pub open spec fn compile_failure(source: Seq<char>, e: ScriptError) -> bool {
    match rhai_compile_error(source) {
        Some(f) => is_parse_error_of(e, f) && (f.2 matches Some(l) ==> l <= 65535) && (f.3 matches Some(c)
            ==> 1 <= c <= 65535),
        None => false,
    }
}

/// A compiled script, ready to run, with the text it was compiled from. The compiled
/// form itself is left unnamed: rhai stores in it function-call hashes made with a hasher
/// keyed at random in each process, so it is not a function of the text alone.
pub struct ScriptRunner {
    ast: rhai::AST,
    source: String,
}

impl ScriptRunner {
    /// Compiles `script_source` in the script engine; a script that does not parse gives
    /// its parse error.
    pub fn new(script_source: &str) -> (r: Result<ScriptRunner, ScriptError>)
        ensures
            r is Ok <==> compiles(script_source@),
            r matches Ok(run) ==> run.script_text() == script_source@,
            r matches Err(e) ==> compile_failure(script_source@, e),
    {
        let engine = create_engine();
        match compile(&engine, script_source) {
            Ok(ast) => Ok(ScriptRunner { ast, source: script_source.to_string() }),
            Err((message, kind, line, column)) => Err(parse_error_to_script_error(message, kind, line, column)),
        }
    }

    /// Checks that `script_source` compiles in the script engine, as `new` does: it
    /// succeeds exactly when `new` does, and fails with the same error.
    pub fn validate(script_source: &str) -> (r: Result<(), ScriptError>)
        ensures
            r is Ok <==> compiles(script_source@),
            r matches Err(e) ==> compile_failure(script_source@, e),
    {
        let engine = create_engine();
        match compile(&engine, script_source) {
            Ok(_) => Ok(()),
            Err((message, kind, line, column)) => Err(parse_error_to_script_error(message, kind, line, column)),
        }
    }

    /// The text of the script this runner compiled.
    pub closed spec fn script_text(&self) -> Seq<char> {
        self.source@
    }

    /// The text of the script this runner compiled.
    pub fn script(&self) -> (r: &str)
        ensures
            r@ == self.script_text(),
    {
        self.source.as_str()
    }

    /// The compiled script.
    pub closed spec fn compiled(&self) -> rhai::AST {
        self.ast
    }

    /// The compiled script.
    pub fn ast(&self) -> (r: &rhai::AST)
        ensures
            *r == self.compiled(),
    {
        &self.ast
    }
}

/// A captured log line of a script.
pub struct LogEntry {
    pub level: String,
    pub message: String,
    pub timestamp: chrono::NaiveDateTime,
}

/// The log levels a script can write at.
#[derive(Debug, Clone, Copy, PartialEq, Eq, Structural)]
pub enum LogLevel {
    Info,
    Warn,
    Debug,
}

/// The name a log level is recorded under.
pub open spec fn level_name(level: LogLevel) -> Seq<char> {
    match level {
        LogLevel::Info => "info"@,
        LogLevel::Warn => "warn"@,
        LogLevel::Debug => "debug"@,
    }
}

impl LogEntry {
    /// A log line at `level`.
    pub fn new(level: LogLevel, message: String, timestamp: chrono::NaiveDateTime) -> (r: LogEntry)
        ensures
            r.level@ == level_name(level),
            r.message == message,
            r.timestamp == timestamp,
    {
        let name = match level {
            LogLevel::Info => owned("info"),
            LogLevel::Warn => owned("warn"),
            LogLevel::Debug => owned("debug"),
        };
        LogEntry { level: name, message, timestamp }
    }
}

/// A response as a script sees it.
#[derive(Debug, Clone)]
pub struct ScriptResponse {
    pub status: i64,
    pub body: String,
    pub headers: HashMap<String, String>,
    pub duration_ms: i64,
}

/// All a run of a script reports: the monitor result and the log lines captured.
pub struct ExecutionOutput {
    pub result: MonitorResult,
    pub logs: Vec<LogEntry>,
}

/// How a run of a script ended.
pub enum ScriptOutcome {
    /// The script ran to its end.
    Completed,
    /// The script raised an error, with its text.
    Failed(String),
    /// The task running the script panicked, with the panic's text.
    Panicked(String),
    /// The run took longer than its timeout, written as `Duration`'s `Debug` writes it.
    TimedOut(String),
}

/// Whether the run succeeded, and the error it ended with.
pub open spec fn outcome_status(o: ScriptOutcome) -> (bool, Option<Seq<char>>) {
    match o {
        ScriptOutcome::Completed => (true, None),
        ScriptOutcome::Failed(t) => (false, Some(t@)),
        ScriptOutcome::Panicked(t) => (false, Some("Script execution panicked: "@ + t@)),
        ScriptOutcome::TimedOut(d) => (false, Some("Script timed out after "@ + d@)),
    }
}

pub open spec fn opt_view(s: Option<String>) -> Option<Seq<char>> {
    match s {
        Some(s) => Some(s@),
        None => None,
    }
}

/// Whether a run succeeded and the error it ended with.
pub fn execution_status(outcome: ScriptOutcome) -> (r: (bool, Option<String>))
    ensures
        r.0 == outcome_status(outcome).0,
        opt_view(r.1) == outcome_status(outcome).1,
{
    match outcome {
        ScriptOutcome::Completed => (true, None),
        ScriptOutcome::Failed(t) => (false, Some(t)),
        ScriptOutcome::Panicked(t) => (false, Some(concat2("Script execution panicked: ", t.as_str()))),
        ScriptOutcome::TimedOut(d) => (false, Some(concat2("Script timed out after ", d.as_str()))),
    }
}

/// The step results a run reports, from those its `step` calls recorded: with none
/// recorded, one step named after the monitor that carries the run's success and error;
/// when the run failed, its last step is marked failed, and takes the run's error unless
/// it had failed already with an error of its own.
pub open spec fn reported_steps(
    recorded: Seq<StepResult>,
    monitor_name: String,
    timestamp_started: chrono::NaiveDateTime,
    success: bool,
    error: Option<String>,
) -> Seq<StepResult> {
    if recorded.len() == 0 {
        seq![StepResult {
            step_name: monitor_name,
            timestamp_started,
            success,
            error_message: error,
            response: None,
            trace_id: None,
            span_id: None,
        }]
    } else if success {
        recorded
    } else {
        let last = recorded.last();
        let kept = if last.success {
            error
        } else if last.error_message is Some {
            last.error_message
        } else {
            error
        };
        recorded.update(recorded.len() - 1, StepResult { success: false, error_message: kept, ..last })
    }
}

/// How a run reports its recorded steps. A successful run reports them as recorded. A
/// failed run reports every step but the last exactly as recorded; the last keeps its
/// name, start time, response and trace ids, is marked failed, and keeps an error it
/// raised itself, or else takes the run's error. A run that recorded no step reports one
/// step named after the monitor with the run's success and error.
pub proof fn law_failed_run_marks_only_last_step(
    recorded: Seq<StepResult>,
    monitor_name: String,
    timestamp_started: chrono::NaiveDateTime,
    success: bool,
    error: Option<String>,
)
    ensures
        ({
            let r = reported_steps(recorded, monitor_name, timestamp_started, success, error);
            &&& recorded.len() > 0 && success ==> r == recorded
            &&& recorded.len() > 0 && !success ==> {
                &&& r.len() == recorded.len()
                &&& forall|k: int| 0 <= k < recorded.len() - 1 ==> #[trigger] r[k] == recorded[k]
                &&& !r.last().success
                &&& r.last().step_name == recorded.last().step_name
                &&& r.last().timestamp_started == recorded.last().timestamp_started
                &&& r.last().response == recorded.last().response
                &&& r.last().trace_id == recorded.last().trace_id
                &&& r.last().span_id == recorded.last().span_id
                &&& (!recorded.last().success && recorded.last().error_message is Some) ==> r.last().error_message
                    == recorded.last().error_message
                &&& (recorded.last().success || recorded.last().error_message is None) ==> r.last().error_message == error
            }
            &&& recorded.len() == 0 ==> r.len() == 1 && r[0].step_name == monitor_name && r[0].success == success
                && r[0].error_message == error && r[0].timestamp_started == timestamp_started
        }),
{
}

fn clone_opt(s: &Option<String>) -> (r: Option<String>)
    ensures
        r == *s,
{
    match s {
        Some(s) => Some(s.clone()),
        None => None,
    }
}

/// What a run of the script of monitor `monitor_name` that started at `timestamp_started`
/// and ended with `outcome` reports, given the step results its `step` calls recorded and
/// the log lines it wrote.
pub fn finish_execution(
    monitor_name: String,
    timestamp_started: chrono::NaiveDateTime,
    outcome: ScriptOutcome,
    recorded: Vec<StepResult>,
    logs: Vec<LogEntry>,
) -> (r: ExecutionOutput)
    ensures
        r.result.monitor_name == monitor_name,
        r.result.timestamp_started == timestamp_started,
        r.result.success == outcome_status(outcome).0,
        r.logs == logs,
        exists|error: Option<String>| opt_view(error) == outcome_status(outcome).1
            && r.result.step_results@ == reported_steps(recorded@, monitor_name, timestamp_started,
            outcome_status(outcome).0, error),
{
    let (success, error) = execution_status(outcome);
    let mut steps = recorded;
    let ghost rec = steps@;
    let n = steps.len();
    if n == 0 {
        steps.push(StepResult {
            step_name: monitor_name.clone(),
            timestamp_started,
            success,
            error_message: clone_opt(&error),
            response: None,
            trace_id: None,
            span_id: None,
        });
        assert(steps@ =~= reported_steps(rec, monitor_name, timestamp_started, success, error));
    } else if !success {
        let mut last = steps[n - 1].clone();
        if last.success {
            last.success = false;
            last.error_message = clone_opt(&error);
        }
        if last.error_message.is_none() {
            last.error_message = clone_opt(&error);
        }
        steps.set(n - 1, last);
        assert(steps@ =~= reported_steps(rec, monitor_name, timestamp_started, success, error));
    }
    ExecutionOutput {
        result: MonitorResult { monitor_name, timestamp_started, success, step_results: steps },
        logs,
    }
}

/// The result of a run of monitor `monitor_name` that could not be carried out: a failed
/// run with one failed step, named after the monitor, carrying `message`.
pub fn failed_run(monitor_name: String, timestamp_started: chrono::NaiveDateTime, message: String) -> (r: MonitorResult)
    ensures
        r.monitor_name == monitor_name,
        r.timestamp_started == timestamp_started,
        !r.success,
        r.step_results@.len() == 1,
        r.step_results@[0].step_name@ == monitor_name@,
        r.step_results@[0].timestamp_started == timestamp_started,
        !r.step_results@[0].success,
        r.step_results@[0].error_message == Some(message),
        r.step_results@[0].response is None,
        r.step_results@[0].trace_id is None,
        r.step_results@[0].span_id is None,
{
    let mut steps: Vec<StepResult> = Vec::new();
    steps.push(StepResult {
        step_name: monitor_name.clone(),
        timestamp_started,
        success: false,
        error_message: Some(message),
        response: None,
        trace_id: None,
        span_id: None,
    });
    MonitorResult { monitor_name, timestamp_started, success: false, step_results: steps }
}

/// `assert(cond, msg)` in scripts: fails with `msg` when the condition is false.
pub fn check_assert(cond: bool, msg: String) -> (r: Result<(), String>)
    ensures
        cond ==> r is Ok,
        !cond ==> r == Err::<(), String>(msg),
{
    if !cond {
        Err(msg)
    } else {
        Ok(())
    }
}

/// `assert_eq(a, b, msg)` in scripts, on the texts of the two values: fails with
/// "<msg>: expected '<a>' == '<b>'" when they differ.
pub fn check_assert_eq(a_text: &str, b_text: &str, msg: &str) -> (r: Result<(), String>)
    ensures
        a_text@ == b_text@ ==> r is Ok,
        a_text@ != b_text@ ==> (r matches Err(e) && e@ == msg@ + ": expected '"@ + a_text@ + "' == '"@
            + b_text@ + "'"@),
{
    if !str_eq(a_text, b_text) {
        let mut s = concat5(msg, ": expected '", a_text, "' == '", b_text);
        s.append("'");
        Err(s)
    } else {
        Ok(())
    }
}

/// An error raised while a script ran, as far as its text matters: a runtime error raised
/// by the script (with the text of its value), an error inside a function call (with the
/// error that caused it), or any other error (with its full text).
pub enum EvalFailure {
    Runtime(String),
    InFunctionCall(Box<EvalFailure>),
    Other(String),
}

/// The clean text of an error: calls are unwrapped down to the error that caused them,
/// and a runtime error gives the text of its value, without position.
pub open spec fn clean_text(e: EvalFailure) -> Seq<char>
    decreases e,
{
    match e {
        EvalFailure::Runtime(t) => t@,
        EvalFailure::InFunctionCall(inner) => clean_text(*inner),
        EvalFailure::Other(t) => t@,
    }
}

/// The clean text of an error (see `clean_text`).
pub fn clean_error_message(err: &EvalFailure) -> (r: String)
    ensures
        r@ == clean_text(*err),
    decreases err,
{
    match err {
        EvalFailure::Runtime(t) => t.clone(),
        EvalFailure::InFunctionCall(inner) => clean_error_message(inner),
        EvalFailure::Other(t) => t.clone(),
    }
}

#[verifier::external_type_specification]
#[verifier::external_body]
pub struct ExMethod(reqwest::Method);

/// A character an HTTP method may hold (a `tchar` of RFC 9110): a letter, a digit, or
/// one of ``!#$%&'*+-.^_`|~``.
pub open spec fn is_method_char(c: char) -> bool {
    ('a' <= c && c <= 'z') || ('A' <= c && c <= 'Z') || ('0' <= c && c <= '9') || c == '!' || c == '#'
        || c == '$' || c == '%' || c == '&' || c == '\'' || c == '*' || c == '+' || c == '-' || c == '.'
        || c == '^' || c == '_' || c == '`' || c == '|' || c == '~'
}

/// The text is a valid HTTP method: not empty, and made of method characters only.
pub open spec fn is_method_text(s: Seq<char>) -> bool {
    s.len() > 0 && forall|i: int| 0 <= i < s.len() ==> is_method_char(#[trigger] s[i])
}

/// The HTTP method that `Method`'s `FromStr` makes of a text: a standard method for its
/// name, an extension method holding the text otherwise. It depends on the text alone.
pub uninterp spec fn http_method_of(text: Seq<char>) -> reqwest::Method;

/// Parses an HTTP method (`Method`'s `FromStr`): it accepts a non-empty text of method
/// characters, giving the method `http_method_of` names, and otherwise fails with
/// `InvalidMethod`, whose `Display` text is "invalid HTTP method".
#[verifier::external_body]
fn method_from_str(s: &str) -> (r: Result<reqwest::Method, String>)
    ensures
        r is Ok <==> is_method_text(s@),
        r matches Ok(m) ==> m == http_method_of(s@),
        r matches Err(e) ==> e@ == "invalid HTTP method"@,
{
    match <reqwest::Method as std::str::FromStr>::from_str(s) {
        Ok(m) => Ok(m),
        Err(e) => Err(e.to_string()),
    }
}

/// The HTTP method of a script's request: refused with "Invalid HTTP method: invalid HTTP
/// method" unless it is a non-empty text of method characters.
pub fn parse_http_method(method: &str) -> (r: Result<reqwest::Method, String>)
    ensures
        r is Ok <==> is_method_text(method@),
        r matches Ok(m) ==> m == http_method_of(method@),
        r matches Err(e) ==> e@ == "Invalid HTTP method: invalid HTTP method"@,
{
    match method_from_str(method) {
        Ok(m) => Ok(m),
        Err(e) => {
            proof {
                reveal_strlit("Invalid HTTP method: ");
                reveal_strlit("invalid HTTP method");
                reveal_strlit("Invalid HTTP method: invalid HTTP method");
                assert("Invalid HTTP method: "@ + "invalid HTTP method"@ =~= "Invalid HTTP method: invalid HTTP method"@);
            }
            Err(concat2("Invalid HTTP method: ", e.as_str()))
        },
    }
}

/// How long a script's HTTP request may take, in seconds, when the script names no timeout.
pub const DEFAULT_REQUEST_TIMEOUT_SECS: u64 = 30;

/// A request a script asked for with `http_request`.
pub struct HttpRequestSpec {
    pub method: String,
    pub url: String,
    pub body: Option<String>,
    pub headers: Vec<(String, String)>,
    pub timeout_seconds: u64,
}

/// The timeout of an `http_request`: the `timeout_seconds` option when it is a
/// non-negative integer, otherwise `DEFAULT_REQUEST_TIMEOUT_SECS`.
pub open spec fn request_timeout(timeout_seconds: Option<i64>) -> u64 {
    match timeout_seconds {
        Some(t) => if t >= 0 { t as u64 } else { DEFAULT_REQUEST_TIMEOUT_SECS },
        None => DEFAULT_REQUEST_TIMEOUT_SECS,
    }
}

/// The request `http_request` makes from its options: `url` is required, `method`
/// defaults to "GET"; `body` and the text-valued `headers` are passed on; the timeout is
/// `timeout_seconds` when given (see `request_timeout`), 30 seconds otherwise.
pub fn resolve_http_request(
    url: Option<String>,
    method: Option<String>,
    body: Option<String>,
    headers: Vec<(String, String)>,
    timeout_seconds: Option<i64>,
) -> (r: Result<HttpRequestSpec, String>)
    ensures
        url is None ==> (r matches Err(e) && e@ == "http_request: 'url' is required"@),
        url matches Some(u) ==> (r matches Ok(spec) && spec.url == u && spec.body == body
            && spec.headers == headers && (method matches Some(m) ==> spec.method == m)
            && (method is None ==> spec.method@ == "GET"@)
            && spec.timeout_seconds == request_timeout(timeout_seconds)),
{
    match url {
        None => Err(owned("http_request: 'url' is required")),
        Some(u) => {
            let m = match method {
                Some(m) => m,
                None => owned("GET"),
            };
            let timeout = match timeout_seconds {
                Some(t) => if t >= 0 { t as u64 } else { DEFAULT_REQUEST_TIMEOUT_SECS },
                None => DEFAULT_REQUEST_TIMEOUT_SECS,
            };
            Ok(HttpRequestSpec { method: m, url: u, body, headers, timeout_seconds: timeout })
        },
    }
}

/// How long a scripted monitor's run may take, in seconds, when its configuration names no
/// `script_timeout_seconds`.
pub const DEFAULT_SCRIPT_TIMEOUT_SECS: u64 = 60;

/// The timeout of a scripted monitor's run: its `script_timeout_seconds`, 60 seconds when
/// it has none.
pub fn script_timeout_secs(configured: Option<u64>) -> (r: u64)
    ensures
        r == (match configured {
            Some(t) => t,
            None => DEFAULT_SCRIPT_TIMEOUT_SECS,
        }),
{
    match configured {
        Some(t) => t,
        None => DEFAULT_SCRIPT_TIMEOUT_SECS,
    }
}

/// A monitor from a YAML file whose `script_path` names a file with text `content`, made
/// ready for the store: the script must compile; the monitor then carries the text as its
/// `script` and no longer a `script_path`, and is otherwise unchanged.
pub fn resolve_script_path(monitor: Monitor, content: String) -> (r: Result<Monitor, ScriptError>)
    ensures
        r is Ok <==> compiles(content@),
        r matches Err(e) ==> compile_failure(content@, e),
        r matches Ok(m) ==> m == (Monitor { script: Some(content), script_path: None, ..monitor }),
{
    match ScriptRunner::validate(content.as_str()) {
        Ok(()) => Ok(Monitor { script: Some(content), script_path: None, ..monitor }),
        Err(e) => Err(e),
    }
}

} // verus!
