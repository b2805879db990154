//! The recent results of each monitor, as the web API reports them.
//!
//! Each monitor keeps at most `RESULT_LIMIT` results; adding one more drops the earliest.
use vstd::prelude::*;

use crate::model::{MonitorResult, MonitorResultView, StepResult};
use crate::text::{owned, str_eq};

verus! {

/// How many results are kept per monitor.
pub const RESULT_LIMIT: usize = 100;

/// The last `n` elements of `s` (all of `s` when it is shorter).
pub open spec fn keep_latest<T>(s: Seq<T>, n: nat) -> Seq<T> {
    if s.len() > n {
        s.skip(s.len() - n)
    } else {
        s
    }
}

/// The results of one monitor, earliest first.
pub struct HistoryEntry {
    name: String,
    results: Vec<MonitorResult>,
}

/// The recent results of every monitor that has produced any.
pub struct ResultHistory {
    entries: Vec<HistoryEntry>,
}

/// The index of the entry named `name` in `s`, if there is one.
pub open spec fn find_entry(s: Seq<(Seq<char>, Seq<MonitorResult>)>, name: Seq<char>) -> Option<int> {
    if exists|i: int| 0 <= i < s.len() && #[trigger] s[i].0 == name {
        Some(choose|i: int| 0 <= i < s.len() && #[trigger] s[i].0 == name)
    } else {
        None
    }
}

/// What `add_monitor_result` makes of the entries `s`.
pub open spec fn entries_after_add(
    s: Seq<(Seq<char>, Seq<MonitorResult>)>,
    name: Seq<char>,
    r: MonitorResult,
) -> Seq<(Seq<char>, Seq<MonitorResult>)> {
    match find_entry(s, name) {
        Some(i) => s.update(i, (name, keep_latest(s[i].1.push(r), RESULT_LIMIT as nat))),
        None => s.push((name, keep_latest(seq![r], RESULT_LIMIT as nat))),
    }
}

/// A summary line for one monitor: its name, "OK" or "FAILING" after its latest run,
/// and when that run started.
pub struct MonitorSummary {
    pub name: String,
    pub status: String,
    pub last_probed: chrono::NaiveDateTime,
}

/// The status word of a run.
pub open spec fn status_text(success: bool) -> Seq<char> {
    if success { "OK"@ } else { "FAILING"@ }
}

/// The summary of entries `s`: one line per monitor that has results, in entry order.
pub open spec fn summary_of(s: Seq<(Seq<char>, Seq<MonitorResult>)>) -> Seq<(Seq<char>, Seq<char>, chrono::NaiveDateTime)>
    decreases s.len(),
{
    if s.len() == 0 {
        seq![]
    } else {
        let rest = summary_of(s.drop_last());
        let (name, results) = s.last();
        if results.len() > 0 {
            rest.push((name, status_text(results.last().success), results.last().timestamp_started))
        } else {
            rest
        }
    }
}

/// A result as the API shows it: with the responses of its steps when `show_response`
/// holds, without them otherwise.
pub open spec fn shown_steps(steps: Seq<StepResult>, show_response: bool) -> Seq<StepResult> {
    if show_response {
        steps
    } else {
        steps.map_values(|st: StepResult| StepResult { response: None, ..st })
    }
}

/// No two entries carry the same monitor name.
pub open spec fn names_unique(s: Seq<(Seq<char>, Seq<MonitorResult>)>) -> bool {
    forall|i: int, j: int| 0 <= i < j < s.len() ==> s[i].0 != s[j].0
}

/// The results that entries `s` keep for `name`.
pub open spec fn history_in(s: Seq<(Seq<char>, Seq<MonitorResult>)>, name: Seq<char>) -> Seq<MonitorResult> {
    match find_entry(s, name) {
        Some(i) => s[i].1,
        None => seq![],
    }
}

proof fn lemma_find_entry(s: Seq<(Seq<char>, Seq<MonitorResult>)>, name: Seq<char>, i: int)
    requires
        names_unique(s),
        0 <= i < s.len(),
        s[i].0 == name,
    ensures
        find_entry(s, name) == Some(i),
{
    let c = choose|k: int| 0 <= k < s.len() && #[trigger] s[k].0 == name;
    assert(0 <= c < s.len() && s[c].0 == name);
    if c != i {
        if c < i {
            assert(s[c].0 != s[i].0);
        } else {
            assert(s[i].0 != s[c].0);
        }
    }
}

/// Adding a result to a monitor's history appends it and keeps only the latest
/// `RESULT_LIMIT` results; the histories of all other monitors stay as they were, and no
/// history ever holds more than `RESULT_LIMIT` results.
pub proof fn law_add_appends_and_bounds(
    s: Seq<(Seq<char>, Seq<MonitorResult>)>,
    name: Seq<char>,
    r: MonitorResult,
    other: Seq<char>,
)
    requires
        names_unique(s),
    ensures
        history_in(entries_after_add(s, name, r), name) == keep_latest(
            history_in(s, name).push(r),
            RESULT_LIMIT as nat,
        ),
        history_in(entries_after_add(s, name, r), name).len() <= RESULT_LIMIT,
        history_in(entries_after_add(s, name, r), name).last() == r,
        other != name ==> history_in(entries_after_add(s, name, r), other) == history_in(s, other),
        names_unique(entries_after_add(s, name, r)),
{
    let t = entries_after_add(s, name, r);
    match find_entry(s, name) {
        Some(i) => {
            assert(0 <= i < s.len() && s[i].0 == name);
            assert(names_unique(t));
            lemma_find_entry(t, name, i);
            if other != name {
                match find_entry(s, other) {
                    Some(j) => {
                        assert(0 <= j < s.len() && s[j].0 == other);
                        lemma_find_entry(t, other, j);
                    },
                    None => {
                        assert forall|k: int| 0 <= k < t.len() implies t[k].0 != other by {
                            assert(t[k].0 == s[k].0);
                        }
                    },
                }
            }
        },
        None => {
            assert forall|k: int| 0 <= k < s.len() implies s[k].0 != name by {}
            assert(names_unique(t));
            lemma_find_entry(t, name, s.len() as int);
            if other != name {
                match find_entry(s, other) {
                    Some(j) => {
                        assert(0 <= j < s.len() && s[j].0 == other);
                        lemma_find_entry(t, other, j);
                    },
                    None => {
                        assert forall|k: int| 0 <= k < t.len() implies t[k].0 != other by {
                            if k < s.len() {
                                assert(t[k].0 == s[k].0);
                            }
                        }
                    },
                }
            }
        },
    }
    let h = history_in(s, name).push(r);
    assert(keep_latest(h, RESULT_LIMIT as nat).last() == r) by {
        if h.len() > RESULT_LIMIT {
            let k = h.skip(h.len() - RESULT_LIMIT);
            assert(k.last() == h.last());
        }
    }
}

/// Hiding responses changes nothing but the responses: every step keeps its name, start
/// time, success, error and trace ids, in the same order, and only loses its response;
/// showing responses gives the steps as they are.
pub proof fn law_hiding_responses_changes_only_responses(steps: Seq<StepResult>)
    ensures
        shown_steps(steps, true) == steps,
        shown_steps(steps, false).len() == steps.len(),
        forall|k: int| 0 <= k < steps.len() ==> {
            let h = #[trigger] shown_steps(steps, false)[k];
            &&& h.response is None
            &&& h.step_name == steps[k].step_name
            &&& h.timestamp_started == steps[k].timestamp_started
            &&& h.success == steps[k].success
            &&& h.error_message == steps[k].error_message
            &&& h.trace_id == steps[k].trace_id
            &&& h.span_id == steps[k].span_id
        },
{
}

proof fn lemma_summary_has_entry(s: Seq<(Seq<char>, Seq<MonitorResult>)>, i: int)
    requires
        0 <= i < s.len(),
        s[i].1.len() > 0,
    ensures
        summary_of(s).contains((s[i].0, status_text(s[i].1.last().success), s[i].1.last().timestamp_started)),
    decreases s.len(),
{
    let line = (s[i].0, status_text(s[i].1.last().success), s[i].1.last().timestamp_started);
    let rest = summary_of(s.drop_last());
    if i == s.len() - 1 {
        assert(summary_of(s) == rest.push(line));
        assert(summary_of(s)[rest.len() as int] == line);
    } else {
        assert(s.drop_last()[i] == s[i]);
        lemma_summary_has_entry(s.drop_last(), i);
        let k = choose|k: int| 0 <= k < rest.len() && rest[k] == line;
        if s.last().1.len() > 0 {
            let full = rest.push((s.last().0, status_text(s.last().1.last().success), s.last().1.last().timestamp_started));
            assert(summary_of(s) == full);
            assert(full[k] == line);
        } else {
            assert(summary_of(s) == rest);
        }
    }
}

/// Once a result of a monitor is recorded, the summary has a line for that monitor with
/// the status of that result ("OK" or "FAILING") and the time it started.
pub proof fn law_summary_reports_latest(
    s: Seq<(Seq<char>, Seq<MonitorResult>)>,
    name: Seq<char>,
    r: MonitorResult,
)
    requires
        names_unique(s),
    ensures
        summary_of(entries_after_add(s, name, r)).contains((name, status_text(r.success), r.timestamp_started)),
{
    let t = entries_after_add(s, name, r);
    law_add_appends_and_bounds(s, name, r, name);
    let i = find_entry(t, name)->0;
    assert(history_in(t, name).last() == r);
    assert(find_entry(t, name) is Some) by {
        match find_entry(s, name) {
            Some(j) => {
                assert(t[j].0 == name);
            },
            None => {
                assert(t[s.len() as int].0 == name);
            },
        }
    }
    assert(0 <= i < t.len() && t[i].0 == name);
    assert(t[i].1 == history_in(t, name));
    assert(t[i].1.len() > 0) by {
        let h = history_in(s, name).push(r);
        if h.len() > RESULT_LIMIT {
            assert(keep_latest(h, RESULT_LIMIT as nat).len() == RESULT_LIMIT);
        }
    }
    lemma_summary_has_entry(t, i);
}

impl ResultHistory {
    #[verifier::type_invariant]
    spec fn inv(self) -> bool {
        &&& forall|i: int, j: int|
            0 <= i < j < self.entries@.len() ==> self.entries@[i].name@ != self.entries@[j].name@
        &&& forall|i: int|
            0 <= i < self.entries@.len() ==> #[trigger] self.entries@[i].results@.len() <= RESULT_LIMIT
    }

    /// The entries: each monitor's name with its results, earliest first.
    pub closed spec fn entries(self) -> Seq<(Seq<char>, Seq<MonitorResult>)> {
        self.entries@.map_values(|e: HistoryEntry| (e.name@, e.results@))
    }

    /// The results kept for `name`, earliest first (none when it has produced none).
    pub open spec fn history_of(self, name: Seq<char>) -> Seq<MonitorResult> {
        history_in(self.entries(), name)
    }

    /// An empty history.
    pub fn new() -> (r: Self)
        ensures
            r.entries() == Seq::<(Seq<char>, Seq<MonitorResult>)>::empty(),
    {
        ResultHistory { entries: Vec::new() }
    }

    fn position(&self, name: &str) -> (r: Option<usize>)
        ensures
            match r {
                Some(i) => find_entry(self.entries(), name@) == Some(i as int),
                None => find_entry(self.entries(), name@) is None,
            },
    {
        proof {
            use_type_invariant(self);
        }
        let mut i: usize = 0;
        while i < self.entries.len()
            invariant
                i <= self.entries@.len(),
                forall|k: int| 0 <= k < i ==> self.entries@[k].name@ != name@,
            decreases self.entries@.len() - i,
        {
            if str_eq(self.entries[i].name.as_str(), name) {
                proof {
                    use_type_invariant(self);
                    let s = self.entries();
                    assert(s[i as int].0 == name@);
                    let c = choose|k: int| 0 <= k < s.len() && #[trigger] s[k].0 == name@;
                    assert(c == i) by {
                        if c != i {
                            if c < i {
                                assert(self.entries@[c].name@ == s[c].0);
                            } else {
                                assert(self.entries@[i as int].name@ != self.entries@[c].name@);
                                assert(s[c].0 == self.entries@[c].name@);
                            }
                        }
                    }
                }
                return Some(i);
            }
            i = i + 1;
        }
        proof {
            let s = self.entries();
            assert forall|k: int| 0 <= k < s.len() implies s[k].0 != name@ by {
                assert(s[k].0 == self.entries@[k].name@);
            }
        }
        None
    }

    /// Records a result of monitor `name`. The monitor's history gains the result at
    /// its end; once it holds more than `RESULT_LIMIT` results the earliest are dropped.
    pub fn add_monitor_result(&mut self, monitor_name: String, result: MonitorResult)
        ensures
            names_unique(old(self).entries()),
            final(self).entries() == entries_after_add(old(self).entries(), monitor_name@, result),
    {
        proof {
            use_type_invariant(&*self);
            let s = self.entries();
            assert forall|i: int, j: int| 0 <= i < j < s.len() implies s[i].0 != s[j].0 by {
                assert(s[i].0 == self.entries@[i].name@ && s[j].0 == self.entries@[j].name@);
            }
        }
        let ghost old_entries = self.entries();
        let found = self.position(monitor_name.as_str());
        let mut entries: Vec<HistoryEntry> = Vec::new();
        std::mem::swap(&mut entries, &mut self.entries);
        let ghost v0 = entries@;
        assert(entries@.map_values(|e: HistoryEntry| (e.name@, e.results@)) == old_entries);
        let ghost name = monitor_name@;
        match found {
            Some(i) => {
                let entry = entries.remove(i);
                let mut results = entry.results;
                results.push(result);
                trim_to_limit(&mut results);
                entries.insert(i, HistoryEntry { name: entry.name, results });
                proof {
                    assert forall|k: int| 0 <= k < entries@.len() && k != i implies entries@[k] == v0[k] by {}
                    assert(entries@[i as int].name@ == v0[i as int].name@);
                    let after = entries@.map_values(|e: HistoryEntry| (e.name@, e.results@));
                    assert(after =~= entries_after_add(old_entries, name, result));
                }
            },
            None => {
                let mut results: Vec<MonitorResult> = Vec::new();
                results.push(result);
                trim_to_limit(&mut results);
                entries.push(HistoryEntry { name: monitor_name, results });
                proof {
                    assert forall|k: int| 0 <= k < v0.len() implies entries@[k] == v0[k] by {}
                    assert forall|k: int| 0 <= k < v0.len() implies v0[k].name@ != name by {
                        assert(old_entries[k].0 == v0[k].name@);
                    }
                    let after = entries@.map_values(|e: HistoryEntry| (e.name@, e.results@));
                    assert(after =~= entries_after_add(old_entries, name, result));
                    assert forall|k: int| 0 <= k < old_entries.len() implies old_entries[k].0 != name by {}
                }
            },
        }
        self.entries = entries;
    }

    /// One summary line per monitor that has results, telling whether its latest run
    /// succeeded ("OK") or not ("FAILING") and when that run started.
    pub fn monitor_summary(&self) -> (r: Vec<MonitorSummary>)
        ensures
            r@.map_values(|m: MonitorSummary| (m.name@, m.status@, m.last_probed))
                == summary_of(self.entries()),
    {
        let mut out: Vec<MonitorSummary> = Vec::new();
        let mut i: usize = 0;
        while i < self.entries.len()
            invariant
                i <= self.entries@.len(),
                out@.map_values(|m: MonitorSummary| (m.name@, m.status@, m.last_probed))
                    == summary_of(self.entries().take(i as int)),
            decreases self.entries@.len() - i,
        {
            let ghost before = out@;
            let entry = &self.entries[i];
            let n = entry.results.len();
            assert(self.entries().take(i + 1).drop_last() =~= self.entries().take(i as int));
            if n > 0 {
                let last = &entry.results[n - 1];
                let status = if last.success { owned("OK") } else { owned("FAILING") };
                out.push(MonitorSummary {
                    name: entry.name.clone(),
                    status,
                    last_probed: last.timestamp_started,
                });
                assert(out@.map_values(|m: MonitorSummary| (m.name@, m.status@, m.last_probed))
                    =~= before.map_values(|m: MonitorSummary| (m.name@, m.status@, m.last_probed)).push(
                    (entry.name@, status_text(last.success), last.timestamp_started)));
            }
            i = i + 1;
        }
        assert(self.entries().take(self.entries@.len() as int) =~= self.entries());
        out
    }

    /// The results of monitor `name`, newest first; the responses of their steps are
    /// left out unless `show_response` holds. `None` when the monitor has produced no result.
    pub fn results_newest_first(&self, name: &str, show_response: bool) -> (r: Option<Vec<MonitorResult>>)
        ensures
            r is Some <==> find_entry(self.entries(), name@) is Some,
            r matches Some(v) ==> {
                let h = self.history_of(name@);
                &&& v@.len() == h.len()
                &&& forall|k: int| 0 <= k < h.len() ==> {
                    let src = #[trigger] h[h.len() - 1 - k];
                    &&& v@[k].monitor_name == src.monitor_name
                    &&& v@[k].timestamp_started == src.timestamp_started
                    &&& v@[k].success == src.success
                    &&& v@[k].step_results@ == shown_steps(src.step_results@, show_response)
                }
            },
    {
        match self.position(name) {
            None => None,
            Some(idx) => {
                let results = &self.entries[idx].results;
                let ghost h = results@;
                assert(h == self.history_of(name@));
                let n = results.len();
                let mut out: Vec<MonitorResult> = Vec::new();
                let mut k: usize = 0;
                while k < n
                    invariant
                        n == h.len(),
                        h == results@,
                        k <= n,
                        out@.len() == k,
                        forall|t: int| 0 <= t < k ==> {
                            let src = #[trigger] h[h.len() - 1 - t];
                            &&& out@[t].monitor_name == src.monitor_name
                            &&& out@[t].timestamp_started == src.timestamp_started
                            &&& out@[t].success == src.success
                            &&& out@[t].step_results@ == shown_steps(src.step_results@, show_response)
                        },
                    decreases n - k,
                {
                    let mut m = results[n - 1 - k].clone();
                    if !show_response {
                        strip_responses(&mut m.step_results);
                    }
                    out.push(m);
                    k = k + 1;
                }
                Some(out)
            },
        }
    }
}

/// Removes the earliest results until at most `RESULT_LIMIT` remain.
fn trim_to_limit(results: &mut Vec<MonitorResult>)
    ensures
        final(results)@ == keep_latest(old(results)@, RESULT_LIMIT as nat),
{
    let ghost orig = results@;
    while results.len() > RESULT_LIMIT
        invariant
            results@.len() <= orig.len(),
            results@ == orig.skip(orig.len() - results@.len()),
            orig.len() > RESULT_LIMIT ==> results@.len() >= RESULT_LIMIT,
            orig.len() <= RESULT_LIMIT ==> results@ == orig,
        decreases results@.len(),
    {
        let ghost before = results@;
        results.remove(0);
        assert(results@ =~= orig.skip(orig.len() - results@.len()));
    }
    assert(results@ =~= keep_latest(orig, RESULT_LIMIT as nat));
}

/// Drops the response of every step.
fn strip_responses(steps: &mut Vec<StepResult>)
    ensures
        final(steps)@ == shown_steps(old(steps)@, false),
{
    let ghost orig = steps@;
    let mut i: usize = 0;
    while i < steps.len()
        invariant
            steps@.len() == orig.len(),
            i <= orig.len(),
            forall|k: int| 0 <= k < i ==> #[trigger] steps@[k] == (StepResult { response: None, ..orig[k] }),
            forall|k: int| i <= k < orig.len() ==> #[trigger] steps@[k] == orig[k],
        decreases orig.len() - i,
    {
        let mut st = steps[i].clone();
        st.response = None;
        steps.set(i, st);
        i = i + 1;
    }
    assert(steps@ =~= shown_steps(orig, false));
}

} // verus!
