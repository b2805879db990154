//! Monitor configuration and execution results.
//!
//! A monitor is exactly one of three kinds: a single HTTP step given by root-level fields,
//! a list of named steps, or a script. `Monitor::validated` holds a freshly decoded
//! configuration to those rules.
use std::collections::HashMap;
use vstd::prelude::*;
use vstd::string::*;

use crate::text::{concat3, concat5};

verus! {

// ---------------------------------------------------------------------------------------------
// Configuration types
// ---------------------------------------------------------------------------------------------

/// Optional request inputs of a step.
pub struct InputParameters {
    pub headers: Option<HashMap<String, String>>,
    pub body: Option<String>,
    pub timeout_seconds: Option<u64>,
}

/// The content of `InputParameters`, with the header map taken by its contents.
pub struct InputParametersView {
    pub headers: Option<Map<String, String>>,
    pub body: Option<String>,
    pub timeout_seconds: Option<u64>,
}

impl View for InputParameters {
    type V = InputParametersView;

    open spec fn view(&self) -> InputParametersView {
        InputParametersView {
            headers: match self.headers {
                Some(h) => Some(h@),
                None => None,
            },
            body: self.body,
            timeout_seconds: self.timeout_seconds,
        }
    }
}

impl Clone for InputParameters {
    fn clone(&self) -> (r: Self)
        ensures
            r@ == self@,
    {
        let headers = match &self.headers {
            Some(h) => Some(h.clone()),
            None => None,
        };
        InputParameters { headers, body: self.body.clone(), timeout_seconds: self.timeout_seconds }
    }
}

/// A check made on a response.
pub struct Expectation {
    pub field: ExpectField,
    pub operation: ExpectOperation,
    pub value: String,
}

impl Clone for Expectation {
    fn clone(&self) -> (r: Self)
        ensures
            r == *self,
    {
        Expectation { field: self.field, operation: self.operation, value: self.value.clone() }
    }
}

#[derive(Debug, Clone, Copy, PartialEq, Eq, Structural)]
pub enum ExpectOperation {
    Equals,
    NotEquals,
    IsOneOf,
    Contains,
    NotContains,
    Matches,
}

#[derive(Debug, Clone, Copy, PartialEq, Eq, Structural)]
pub enum ExpectField {
    Body,
    StatusCode,
}

#[derive(Debug, Clone, Copy, PartialEq, Eq, Structural)]
pub struct ScheduleParameters {
    pub initial_delay: u32,
    pub interval: u32,
}

pub struct Alert {
    pub url: String,
}

impl Clone for Alert {
    fn clone(&self) -> (r: Self)
        ensures
            r == *self,
    {
        Alert { url: self.url.clone() }
    }
}

/// One HTTP request of a monitor, with the checks made on its response.
pub struct Step {
    pub name: String,
    pub url: String,
    pub http_method: String,
    pub with: Option<InputParameters>,
    pub expectations: Option<Vec<Expectation>>,
    pub sensitive: bool,
}

/// The content of a `Step`.
pub struct StepView {
    pub name: String,
    pub url: String,
    pub http_method: String,
    pub with: Option<InputParametersView>,
    pub expectations: Option<Seq<Expectation>>,
    pub sensitive: bool,
}

pub open spec fn params_view(p: Option<InputParameters>) -> Option<InputParametersView> {
    match p {
        Some(p) => Some(p@),
        None => None,
    }
}

pub open spec fn expectations_view(e: Option<Vec<Expectation>>) -> Option<Seq<Expectation>> {
    match e {
        Some(v) => Some(v@),
        None => None,
    }
}

impl View for Step {
    type V = StepView;

    open spec fn view(&self) -> StepView {
        StepView {
            name: self.name,
            url: self.url,
            http_method: self.http_method,
            with: params_view(self.with),
            expectations: expectations_view(self.expectations),
            sensitive: self.sensitive,
        }
    }
}

fn clone_params(p: &Option<InputParameters>) -> (r: Option<InputParameters>)
    ensures
        params_view(r) == params_view(*p),
{
    match p {
        Some(p) => Some(p.clone()),
        None => None,
    }
}

fn clone_expectations(e: &Option<Vec<Expectation>>) -> (r: Option<Vec<Expectation>>)
    ensures
        expectations_view(r) == expectations_view(*e),
{
    match e {
        Some(v) => {
            let c = v.clone();
            assert(c@ =~= v@);
            Some(c)
        },
        None => None,
    }
}

impl Clone for Step {
    fn clone(&self) -> (r: Self)
        ensures
            r@ == self@,
    {
        Step {
            name: self.name.clone(),
            url: self.url.clone(),
            http_method: self.http_method.clone(),
            with: clone_params(&self.with),
            expectations: clone_expectations(&self.expectations),
            sensitive: self.sensitive,
        }
    }
}

/// The contents of a sequence of steps.
pub open spec fn steps_view(s: Seq<Step>) -> Seq<StepView> {
    s.map_values(|st: Step| st@)
}

/// A monitor's configuration: a single-step test (root-level `url` and `http_method`),
/// a multi-step test (`steps`) or a scripted monitor (`script`, or `script_path` in YAML files).
pub struct Monitor {
    pub name: String,
    pub url: Option<String>,
    pub http_method: Option<String>,
    pub with: Option<InputParameters>,
    pub expectations: Option<Vec<Expectation>>,
    pub sensitive: bool,
    pub steps: Option<Vec<Step>>,
    pub script: Option<String>,
    pub script_path: Option<String>,
    pub script_timeout_seconds: Option<u64>,
    pub schedule: ScheduleParameters,
    pub alerts: Option<Vec<Alert>>,
    pub tags: Option<HashMap<String, String>>,
}

/// "Monitor '<name>'" followed by `rest`.
pub open spec fn monitor_message(name: Seq<char>, rest: Seq<char>) -> Seq<char> {
    "Monitor '"@ + name + rest
}

pub open spec fn both_script_message(name: Seq<char>) -> Seq<char> {
    monitor_message(name, "' cannot have both 'script' and 'script_path'"@)
}

pub open spec fn kind_count_message(name: Seq<char>) -> Seq<char> {
    monitor_message(
        name,
        "' must have exactly one of: steps, url+http_method, or script/script_path"@,
    )
}

pub open spec fn missing_url_message(name: Seq<char>) -> Seq<char> {
    monitor_message(name, "' is missing required field 'url'"@)
}

pub open spec fn missing_method_message(name: Seq<char>) -> Seq<char> {
    monitor_message(name, "' is missing required field 'http_method'"@)
}

pub open spec fn empty_steps_message(name: Seq<char>) -> Seq<char> {
    monitor_message(name, "' has 'steps' field but it is empty"@)
}

pub open spec fn duplicate_step_message(step: Seq<char>, monitor: Seq<char>) -> Seq<char> {
    "Duplicate step name '"@ + step + "' in monitor '"@ + monitor + "'"@
}

/// Step `j` repeats the name of an earlier step.
pub open spec fn repeats_earlier_name(steps: Seq<Step>, j: int) -> bool {
    exists|i: int| 0 <= i < j && #[trigger] steps[i].name@ == steps[j].name@
}

/// The first step, from `j` on, whose name an earlier step already has.
pub open spec fn first_repeat_from(steps: Seq<Step>, j: nat) -> Option<int>
    decreases steps.len() - j,
{
    if j >= steps.len() {
        None
    } else if repeats_earlier_name(steps, j as int) {
        Some(j as int)
    } else {
        first_repeat_from(steps, j + 1)
    }
}

/// The first step whose name an earlier step already has, if any.
pub open spec fn first_repeat(steps: Seq<Step>) -> Option<int> {
    first_repeat_from(steps, 0)
}

/// No two of the steps have the same name.
pub open spec fn step_names_distinct(steps: Seq<Step>) -> bool {
    forall|i: int, j: int| 0 <= i < j < steps.len() ==> #[trigger] steps[i].name@ != #[trigger] steps[j].name@
}

proof fn lemma_no_repeat_from(steps: Seq<Step>, j: nat)
    ensures
        first_repeat_from(steps, j) is None <==> forall|k: int| j <= k < steps.len() ==> !#[trigger] repeats_earlier_name(steps, k),
    decreases steps.len() - j,
{
    if j < steps.len() {
        lemma_no_repeat_from(steps, j + 1);
        if first_repeat_from(steps, j) is None {
            assert forall|k: int| j <= k < steps.len() implies !#[trigger] repeats_earlier_name(steps, k) by {
                if k == j {
                } else {
                    assert(j + 1 <= k);
                }
            }
        }
    }
}

proof fn lemma_distinct_iff_no_repeat(steps: Seq<Step>)
    ensures
        first_repeat(steps) is None <==> step_names_distinct(steps),
{
    lemma_no_repeat_from(steps, 0);
    if first_repeat(steps) is None {
        assert forall|i: int, j: int| 0 <= i < j < steps.len() implies #[trigger] steps[i].name@ != #[trigger] steps[j].name@ by {
            assert(!repeats_earlier_name(steps, j));
        }
    }
    if step_names_distinct(steps) {
        assert forall|k: int| 0 <= k < steps.len() implies !#[trigger] repeats_earlier_name(steps, k) by {
            if repeats_earlier_name(steps, k) {
                let i = choose|i: int| 0 <= i < k && #[trigger] steps[i].name@ == steps[k].name@;
                assert(steps[i].name@ != steps[k].name@);
            }
        }
    }
}

/// Step names are checked in full: a monitor's steps pass the name check exactly when no
/// two of them, anywhere in the list, have the same name.
pub proof fn law_step_names_distinct(m: Monitor)
    ensures
        m.step_name_error() is None <==> (m.steps matches Some(s) ==> step_names_distinct(s@)),
{
    if let Some(s) = m.steps {
        lemma_distinct_iff_no_repeat(s@);
    }
}

/// A monitor that passes validation is exactly one kind of monitor: multi-step (with at
/// least one step, all named differently), single-step (with both `url` and `http_method`),
/// or scripted (with `script` or `script_path`, not both). A present `steps` field counts
/// as the multi-step kind, and must not be empty.
pub proof fn law_valid_monitor_is_one_kind(m: Monitor)
    requires
        m.validation_error() is None,
    ensures
        m.kind_count() == 1,
        !(m.script is Some && m.script_path is Some),
        m.spec_has_request_fields() ==> m.url is Some && m.http_method is Some,
        m.spec_has_steps() ==> first_repeat(m.steps->0@) is None && m.steps->0@.len() > 0,
        m.steps is None && !m.spec_has_script() ==> m.url is Some && m.http_method is Some,
{
}

impl Monitor {
    pub open spec fn spec_has_steps(self) -> bool {
        self.steps is Some
    }

    pub open spec fn spec_has_request_fields(self) -> bool {
        self.url is Some || self.http_method is Some
    }

    pub open spec fn spec_has_script(self) -> bool {
        self.script is Some || self.script_path is Some
    }

    /// How many of the three kinds of monitor the fields describe.
    pub open spec fn kind_count(self) -> int {
        (if self.spec_has_steps() { 1int } else { 0int })
            + (if self.spec_has_request_fields() { 1int } else { 0int })
            + (if self.spec_has_script() { 1int } else { 0int })
    }

    /// The message for a repeated step name, if any.
    pub open spec fn step_name_error(self) -> Option<Seq<char>> {
        match self.steps {
            Some(steps) => match first_repeat(steps@) {
                Some(j) => Some(duplicate_step_message(steps@[j].name@, self.name@)),
                None => None,
            },
            None => None,
        }
    }

    /// Why the fields do not form a valid monitor, or `None` when they do.
    pub open spec fn validation_error(self) -> Option<Seq<char>> {
        if self.script is Some && self.script_path is Some {
            Some(both_script_message(self.name@))
        } else if self.kind_count() != 1 {
            Some(kind_count_message(self.name@))
        } else if self.spec_has_request_fields() && self.url is None {
            Some(missing_url_message(self.name@))
        } else if self.spec_has_request_fields() && self.http_method is None {
            Some(missing_method_message(self.name@))
        } else if self.steps matches Some(s) && s@.len() == 0 {
            Some(empty_steps_message(self.name@))
        } else {
            self.step_name_error()
        }
    }

    /// Whether this monitor is a multi-step monitor.
    pub fn is_multi_step(&self) -> (r: bool)
        ensures
            r == self.steps is Some,
    {
        self.steps.is_some()
    }

    /// Whether this monitor runs an inline script.
    pub fn is_scripted(&self) -> (r: bool)
        ensures
            r == self.script is Some,
    {
        self.script.is_some()
    }

    /// The steps to execute: the configured steps of a multi-step monitor, none for a
    /// scripted monitor (`script` or `script_path`), and for a single-step monitor one step built from the root-level
    /// fields and named after the monitor.
    pub fn get_steps(&self) -> (r: Vec<Step>)
        requires
            self.steps is None && !self.spec_has_script() ==> self.url is Some
                && self.http_method is Some,
        ensures
            self.steps is Some ==> steps_view(r@) == steps_view(self.steps->0@),
            self.steps is None && self.spec_has_script() ==> r@.len() == 0,
            self.steps is None && !self.spec_has_script() ==> r@.len() == 1 && r@[0]@ == (StepView {
                name: self.name,
                url: self.url->0,
                http_method: self.http_method->0,
                with: params_view(self.with),
                expectations: expectations_view(self.expectations),
                sensitive: self.sensitive,
            }),
    {
        match &self.steps {
            Some(steps) => {
                let mut out: Vec<Step> = Vec::new();
                let mut i: usize = 0;
                while i < steps.len()
                    invariant
                        i <= steps@.len(),
                        out@.len() == i,
                        forall|k: int| 0 <= k < i ==> #[trigger] out@[k]@ == steps@[k]@,
                    decreases steps@.len() - i,
                {
                    out.push(steps[i].clone());
                    i = i + 1;
                }
                assert(steps_view(out@) =~= steps_view(steps@));
                out
            },
            None => {
                if self.is_scripted() || self.script_path.is_some() {
                    Vec::new()
                } else {
                    let step = Step {
                        name: self.name.clone(),
                        url: self.url.clone().unwrap(),
                        http_method: self.http_method.clone().unwrap(),
                        with: clone_params(&self.with),
                        expectations: clone_expectations(&self.expectations),
                        sensitive: self.sensitive,
                    };
                    let mut out: Vec<Step> = Vec::new();
                    out.push(step);
                    out
                }
            },
        }
    }

    /// Checks that step names are unique within this monitor; the error names the first
    /// step whose name an earlier step already has.
    pub fn validate_step_names(&self) -> (r: Result<(), String>)
        ensures
            r is Ok <==> self.step_name_error() is None,
            r is Ok <==> (self.steps matches Some(s) ==> step_names_distinct(s@)),
            r matches Err(msg) ==> self.step_name_error() == Some(msg@),
    {
        proof {
            law_step_names_distinct(*self);
        }
        if let Some(steps) = &self.steps {
            let mut j: usize = 0;
            while j < steps.len()
                invariant
                    j <= steps@.len(),
                    self.steps == Some(*steps),
                    first_repeat(steps@) == first_repeat_from(steps@, j as nat),
                decreases steps@.len() - j,
            {
                let mut i: usize = 0;
                let mut seen = false;
                while i < j
                    invariant
                        i <= j,
                        j < steps@.len(),
                        seen <==> exists|k: int| 0 <= k < i && #[trigger] steps@[k].name@ == steps@[j as int].name@,
                    decreases j - i,
                {
                    if steps[i].name == steps[j].name {
                        seen = true;
                    }
                    i = i + 1;
                }
                if seen {
                    assert(repeats_earlier_name(steps@, j as int));
                    assert(first_repeat(steps@) == Some(j as int));
                    return Err(concat5(
                        "Duplicate step name '",
                        steps[j].name.as_str(),
                        "' in monitor '",
                        self.name.as_str(),
                        "'",
                    ));
                }
                assert(!repeats_earlier_name(steps@, j as int));
                j = j + 1;
            }
        }
        Ok(())
    }

    /// Holds freshly decoded monitor fields to the rules of a monitor configuration:
    /// `script` and `script_path` exclude each other; exactly one of `steps`, the request
    /// fields (`url`, `http_method`) and a script is given; a single-step monitor has both
    /// `url` and `http_method`; a `steps` field is not empty; step names are unique. Gives back the
    /// monitor unchanged, or the message of the first rule it breaks.
    pub fn validated(self) -> (r: Result<Monitor, String>)
        ensures
            r is Ok <==> self.validation_error() is None,
            r matches Ok(m) ==> m == self,
            r is Ok ==> (self.steps matches Some(s) ==> s@.len() > 0 && step_names_distinct(s@)),
            r matches Err(msg) ==> self.validation_error() == Some(msg@),
    {
        let has_steps = self.steps.is_some();
        let has_request_fields = self.url.is_some() || self.http_method.is_some();
        let has_script = self.script.is_some() || self.script_path.is_some();
        if self.script.is_some() && self.script_path.is_some() {
            return Err(concat3(
                "Monitor '",
                self.name.as_str(),
                "' cannot have both 'script' and 'script_path'",
            ));
        }
        let count: u8 = (if has_steps { 1u8 } else { 0u8 }) + (if has_request_fields { 1u8 } else { 0u8 })
            + (if has_script { 1u8 } else { 0u8 });
        if count != 1 {
            return Err(concat3(
                "Monitor '",
                self.name.as_str(),
                "' must have exactly one of: steps, url+http_method, or script/script_path",
            ));
        }
        if has_request_fields {
            if self.url.is_none() {
                return Err(concat3(
                    "Monitor '",
                    self.name.as_str(),
                    "' is missing required field 'url'",
                ));
            }
            if self.http_method.is_none() {
                return Err(concat3(
                    "Monitor '",
                    self.name.as_str(),
                    "' is missing required field 'http_method'",
                ));
            }
        }
        if let Some(steps) = &self.steps {
            if steps.len() == 0 {
                return Err(concat3(
                    "Monitor '",
                    self.name.as_str(),
                    "' has 'steps' field but it is empty",
                ));
            }
        }
        match self.validate_step_names() {
            Ok(()) => Ok(self),
            Err(msg) => Err(msg),
        }
    }
}

// ---------------------------------------------------------------------------------------------
// Result types
// ---------------------------------------------------------------------------------------------

/// A response received from an HTTP endpoint.
pub struct EndpointResponse {
    pub timestamp_received: chrono::NaiveDateTime,
    pub status_code: u32,
    pub body: String,
    pub sensitive: bool,
}

impl Clone for EndpointResponse {
    fn clone(&self) -> (r: Self)
        ensures
            r == *self,
    {
        EndpointResponse {
            timestamp_received: self.timestamp_received,
            status_code: self.status_code,
            body: self.body.clone(),
            sensitive: self.sensitive,
        }
    }
}

impl EndpointResponse {
    /// The first `n` characters of the body (all of it when it is shorter).
    pub fn truncated_body(&self, n: usize) -> (r: String)
        ensures
            r@ == self.body@.take(if n < self.body@.len() { n as int } else { self.body@.len() as int }),
    {
        let len = self.body.as_str().unicode_len();
        let k = if n < len { n } else { len };
        let part = self.body.as_str().substring_char(0, k);
        assert(self.body@.subrange(0, k as int) =~= self.body@.take(k as int));
        part.to_owned()
    }
}

/// What calling an endpoint gave, before it becomes part of a step result.
pub struct EndpointResult {
    pub timestamp_request_started: chrono::NaiveDateTime,
    pub timestamp_response_received: chrono::NaiveDateTime,
    pub status_code: u32,
    pub body: String,
    pub trace_id: String,
    pub span_id: String,
    pub sensitive: bool,
}

impl EndpointResult {
    /// The response part of this result.
    pub fn to_endpoint_response(&self) -> (r: EndpointResponse)
        ensures
            r.timestamp_received == self.timestamp_response_received,
            r.status_code == self.status_code,
            r.body == self.body,
            r.sensitive == self.sensitive,
    {
        EndpointResponse {
            timestamp_received: self.timestamp_response_received,
            status_code: self.status_code,
            body: self.body.clone(),
            sensitive: self.sensitive,
        }
    }
}

/// The outcome of one step of a monitor run.
pub struct StepResult {
    pub step_name: String,
    pub timestamp_started: chrono::NaiveDateTime,
    pub success: bool,
    pub error_message: Option<String>,
    pub response: Option<EndpointResponse>,
    pub trace_id: Option<String>,
    pub span_id: Option<String>,
}

fn clone_opt_string(s: &Option<String>) -> (r: Option<String>)
    ensures
        r == *s,
{
    match s {
        Some(s) => Some(s.clone()),
        None => None,
    }
}

impl Clone for StepResult {
    fn clone(&self) -> (r: Self)
        ensures
            r == *self,
    {
        StepResult {
            step_name: self.step_name.clone(),
            timestamp_started: self.timestamp_started,
            success: self.success,
            error_message: clone_opt_string(&self.error_message),
            response: match &self.response {
                Some(resp) => Some(resp.clone()),
                None => None,
            },
            trace_id: clone_opt_string(&self.trace_id),
            span_id: clone_opt_string(&self.span_id),
        }
    }
}

/// The outcome of one run of a monitor.
pub struct MonitorResult {
    pub monitor_name: String,
    pub timestamp_started: chrono::NaiveDateTime,
    pub success: bool,
    pub step_results: Vec<StepResult>,
}

/// The content of a `MonitorResult`.
pub struct MonitorResultView {
    pub monitor_name: String,
    pub timestamp_started: chrono::NaiveDateTime,
    pub success: bool,
    pub step_results: Seq<StepResult>,
}

impl View for MonitorResult {
    type V = MonitorResultView;

    open spec fn view(&self) -> MonitorResultView {
        MonitorResultView {
            monitor_name: self.monitor_name,
            timestamp_started: self.timestamp_started,
            success: self.success,
            step_results: self.step_results@,
        }
    }
}

impl Clone for MonitorResult {
    fn clone(&self) -> (r: Self)
        ensures
            r@ == self@,
    {
        let steps = self.step_results.clone();
        assert(steps@ =~= self.step_results@);
        MonitorResult {
            monitor_name: self.monitor_name.clone(),
            timestamp_started: self.timestamp_started,
            success: self.success,
            step_results: steps,
        }
    }
}

} // verus!
