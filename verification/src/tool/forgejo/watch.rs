//! Following the log of an Actions job (`job log RUN JOB --watch`): the
//! decisions taken on each poll.
use vstd::prelude::*;

use super::seat::Seat;
use crate::json::{member, text_at, text_of, Json, Kind};
use crate::text::{is_prefix, number, owned, parse_u64, parse_usize, same, strip_prefix, strip_prefix_of, trim_end_all, views};

verus! {

/// A number of milliseconds from flag `--name`, else the fallback.
pub open spec fn millis_of(value: Option<Seq<char>>, name: Seq<char>, fallback: nat) -> Result<nat, Seq<char>> {
    match value {
        None => Ok(fallback),
        Some(v) => match number(v) {
            Some(n) => if n <= u64::MAX {
                Ok(n)
            } else {
                Err("invalid --"@ + name)
            },
            None => Err("invalid --"@ + name),
        },
    }
}

/// The number of milliseconds that flag `--name` gives, else the fallback.
pub fn millis(value: Option<&str>, name: &str, fallback: u64) -> (r: Result<u64, String>)
    ensures
        match millis_of(match value {
            Some(v) => Some(v@),
            None => None,
        }, name@, fallback as nat) {
            Ok(n) => r == Ok::<u64, String>(n as u64),
            Err(e) => r matches Err(m) && m@ == e,
        },
{
    match value {
        None => Ok(fallback),
        Some(v) => match parse_u64(v) {
            Some(n) => Ok(n),
            None => {
                let mut e = owned("invalid --");
                e.append(name);
                Err(e)
            },
        },
    }
}

/// What one poll of a job's status decides.
pub enum Verdict {
    /// The job succeeded or was skipped.
    Done,
    /// The watch fails with this message.
    Fail(String),
    /// The job is still going: poll again.
    Wait,
}

/// What one poll decides, in text.
pub enum VerdictModel {
    Done,
    Fail(Seq<char>),
    Wait,
}

impl Verdict {
    /// The verdict in text.
    pub open spec fn model(&self) -> VerdictModel {
        match self {
            Verdict::Done => VerdictModel::Done,
            Verdict::Fail(m) => VerdictModel::Fail(m@),
            Verdict::Wait => VerdictModel::Wait,
        }
    }
}

/// The verdict on a job status; `done` tells whether the run is over.
pub open spec fn verdict_of(status: Seq<char>, done: bool) -> VerdictModel {
    if status == "success"@ || status == "skipped"@ {
        VerdictModel::Done
    } else if status == "failure"@ || status == "cancelled"@ {
        VerdictModel::Fail("Forgejo action job ended with "@ + status)
    } else if status == "blocked"@ && done {
        VerdictModel::Fail("Forgejo action job ended with blocked"@)
    } else if status == "unknown"@ || status == "waiting"@ || status == "running"@ || status == "blocked"@ {
        VerdictModel::Wait
    } else {
        VerdictModel::Fail("Forgejo action job has unknown status "@ + status)
    }
}

/// Decides on a polled job status.
pub fn verdict(status: &str, done: bool) -> (r: Verdict)
    ensures
        r.model() == verdict_of(status@, done),
{
    if same(status, "success") || same(status, "skipped") {
        Verdict::Done
    } else if same(status, "failure") || same(status, "cancelled") {
        let mut m = owned("Forgejo action job ended with ");
        m.append(status);
        Verdict::Fail(m)
    } else if same(status, "blocked") && done {
        Verdict::Fail(owned("Forgejo action job ended with blocked"))
    } else if same(status, "unknown") || same(status, "waiting") || same(status, "running") || same(status, "blocked") {
        Verdict::Wait
    } else {
        let mut m = owned("Forgejo action job has unknown status ");
        m.append(status);
        Verdict::Fail(m)
    }
}

/// Whether the log is fetched and printed on a poll: the job is running or
/// has ended by success, failure or cancellation.
pub fn shows(status: &str) -> (r: bool)
    ensures
        r == (status@ == "running"@ || status@ == "success"@ || status@ == "failure"@ || status@ == "cancelled"@),
{
    same(status, "running") || same(status, "success") || same(status, "failure") || same(status, "cancelled")
}

/// The part of the log not printed yet: what follows the printed text, or
/// the whole log when it does not start with it.
pub open spec fn fresh_of(log: Seq<char>, shown: Seq<char>) -> Seq<char> {
    match strip_prefix(log, shown) {
        Some(t) => t,
        None => log,
    }
}

/// The part of the log not printed yet.
pub fn fresh(log: &str, shown: &str) -> (r: String)
    ensures
        r@ == fresh_of(log@, shown@),
{
    match strip_prefix_of(log, shown) {
        Some(t) => t,
        None => owned(log),
    }
}

/// The error when the watch outlasts its timeout.
pub fn overdue() -> (r: &'static str)
    ensures
        r@ == "Forgejo action job is still running past the watch timeout"@,
{
    "Forgejo action job is still running past the watch timeout"
}

/// The timings of a watch: how long to sleep between polls and when to give
/// up, in milliseconds.
pub struct Timing {
    pub poll: u64,
    pub timeout: u64,
}

impl Seat {
    /// Starts a watch: refused with `--json`; `--poll-ms` defaults to one
    /// second and `--timeout-ms` to thirty minutes.
    pub fn timing(&self) -> (r: Result<Timing, String>)
        ensures
            self.line.json ==> (r matches Err(e) && e@ == "@forgejo job log --watch does not support --json"@),
            !self.line.json ==> match millis_of(self.flag_view("poll-ms"@), "poll-ms"@, 1000) {
                Err(e) => r matches Err(m) && m@ == e,
                Ok(p) => match millis_of(self.flag_view("timeout-ms"@), "timeout-ms"@, 1800000) {
                    Err(e) => r matches Err(m) && m@ == e,
                    Ok(t) => r matches Ok(x) && x.poll == p && x.timeout == t,
                },
            },
    {
        if self.line.json {
            return Err(owned("@forgejo job log --watch does not support --json"));
        }
        let poll = millis(self.line.flag("poll-ms"), "poll-ms", 1000)?;
        let timeout = millis(self.line.flag("timeout-ms"), "timeout-ms", 1800000)?;
        Ok(Timing { poll, timeout })
    }
}

/// The rows of `state.run.jobs` in an Actions run reply.
pub open spec fn jobs_of(v: Json) -> Option<Seq<Json>> {
    match v.member("state"@) {
        Some(s) => match s.member("run"@) {
            Some(r) => match r.member("jobs"@) {
                Some(j) => match j.kind {
                    Kind::Array(rows) => Some(rows@),
                    _ => None,
                },
                None => None,
            },
            None => None,
        },
        None => None,
    }
}

/// A string member, or empty.
pub open spec fn text_or_empty(v: Json, key: Seq<char>) -> Seq<char> {
    match text_at(v, key) {
        Some(t) => t,
        None => seq![],
    }
}

/// The jobs of a run: each as its index, name and status.
pub struct JobRow {
    pub index: usize,
    pub name: String,
    pub status: String,
}

/// The `state.run.jobs` array of a reply.
fn jobs_in(v: &Json) -> (r: Option<&Vec<Json>>)
    ensures
        match jobs_of(*v) {
            Some(rows) => r matches Some(x) && x@ == rows,
            None => r is None,
        },
{
    let s = member(v, "state")?;
    let run = member(s, "run")?;
    let j = member(run, "jobs")?;
    match &j.kind {
        Kind::Array(rows) => Some(rows),
        _ => None,
    }
}

/// A string member, or empty.
fn text_or(v: &Json, key: &str) -> (r: String)
    ensures
        r@ == text_or_empty(*v, key@),
{
    match text_of(v, key) {
        Some(t) => owned(t),
        None => String::new(),
    }
}

/// The jobs of a run reply, each as its index, name and status (empty when
/// missing); refused when the reply has no `state.run.jobs` array.
pub fn job_rows(v: &Json) -> (r: Result<Vec<JobRow>, String>)
    ensures
        match jobs_of(*v) {
            None => r matches Err(e) && e@ == "Forgejo action run response has no jobs"@,
            Some(rows) => r matches Ok(out) && out@.len() == rows.len() && forall|i: int|
                0 <= i < rows.len() ==> (#[trigger] out@[i]).index == i && out@[i].name@ == text_or_empty(rows[i], "name"@)
                    && out@[i].status@ == text_or_empty(rows[i], "status"@),
        },
{
    let rows = match jobs_in(v) {
        Some(rows) => rows,
        None => {
            return Err(owned("Forgejo action run response has no jobs"));
        },
    };
    let mut out: Vec<JobRow> = Vec::new();
    let mut i: usize = 0;
    while i < rows.len()
        invariant
            i <= rows@.len(),
            out@.len() == i,
            forall|k: int| 0 <= k < i ==> (#[trigger] out@[k]).index == k && out@[k].name@ == text_or_empty(rows@[k], "name"@)
                && out@[k].status@ == text_or_empty(rows@[k], "status"@),
        decreases rows@.len() - i,
    {
        let name = text_or(&rows[i], "name");
        let status = text_or(&rows[i], "status");
        out.push(JobRow { index: i, name, status });
        i += 1;
    }
    Ok(out)
}

/// Whether `state.run.done` is `true`.
pub open spec fn run_done(v: Json) -> bool {
    match v.member("state"@) {
        Some(s) => match s.member("run"@) {
            Some(r) => match r.member("done"@) {
                Some(d) => d.kind == Kind::Bool(true),
                None => false,
            },
            None => false,
        },
        None => false,
    }
}

/// The status of job `index` and whether the run is over, from a job reply;
/// refused when that job has no status text.
pub fn job_state(v: &Json, index: usize) -> (r: Result<(String, bool), String>)
    ensures
        match jobs_of(*v) {
            Some(rows) if index < rows.len() && text_at(rows[index as int], "status"@) is Some => r matches Ok((s, d))
                && s@ == text_at(rows[index as int], "status"@)->0 && d == run_done(*v),
            _ => r matches Err(e) && e@ == "Forgejo action job response has no status"@,
        },
{
    let status = match jobs_in(v) {
        Some(rows) => {
            if index < rows.len() {
                match text_of(&rows[index], "status") {
                    Some(t) => owned(t),
                    None => {
                        return Err(owned("Forgejo action job response has no status"));
                    },
                }
            } else {
                return Err(owned("Forgejo action job response has no status"));
            }
        },
        None => {
            return Err(owned("Forgejo action job response has no status"));
        },
    };
    let done = match member(v, "state") {
        Some(s) => match member(s, "run") {
            Some(r) => match member(r, "done") {
                Some(d) => match &d.kind {
                    Kind::Bool(b) => *b,
                    _ => false,
                },
                None => false,
            },
            None => false,
        },
        None => false,
    };
    Ok((status, done))
}

impl Seat {
    /// Adds one page of a paged list to the rows gathered so far: a page
    /// that is not an array is refused; otherwise its rows follow the
    /// others, and the answer is whether another page is due (see
    /// [`Seat::more`]).
    pub fn gather(&self, rows: &mut Vec<Json>, page: Json) -> (r: Result<bool, String>)
        ensures
            match page.kind {
                Kind::Array(p) => final(rows)@ == old(rows)@ + p@ && r == Ok::<bool, String>(
                    p@.len() >= 50 && match self.line.limit {
                        Some(l) => old(rows)@.len() + p@.len() < l,
                        None => true,
                    },
                ),
                _ => final(rows)@ == old(rows)@ && (r matches Err(e) && e@ == "forgejo list did not return an array"@),
            },
    {
        match page.kind {
            Kind::Array(found) => {
                let mut found = found;
                let count = found.len();
                rows.append(&mut found);
                Ok(self.more(rows.len(), count))
            },
            _ => Err(owned("forgejo list did not return an array")),
        }
    }

    /// Whether a paged list goes on to the next page: the last page was full
    /// (50 rows) and the limit, if any, is not reached.
    pub fn more(&self, total: usize, count: usize) -> (r: bool)
        ensures
            r == (count >= 50 && match self.line.limit {
                Some(l) => total < l,
                None => true,
            }),
    {
        count >= 50 && match self.line.limit {
            Some(l) => total < l,
            None => true,
        }
    }
}

/// A watch prints each part of a growing log once: what was shown, followed
/// by what is fresh, is the whole log.
pub proof fn lemma_fresh_completes(shown: Seq<char>, more: Seq<char>)
    ensures
        shown + fresh_of(shown + more, shown) == shown + more,
{
    assert((shown + more).subrange(0, shown.len() as int) =~= shown);
    assert((shown + more).subrange(shown.len() as int, (shown + more).len() as int) =~= more);
}

/// What a watch has printed after polling the successive logs `logs`: each
/// poll prints what is fresh against the log of the poll before (nothing was
/// shown before the first).
pub open spec fn printed(logs: Seq<Seq<char>>) -> Seq<char>
    decreases logs.len(),
{
    if logs.len() == 0 {
        seq![]
    } else {
        let before = if logs.len() > 1 { logs[logs.len() - 2] } else { Seq::<char>::empty() };
        printed(logs.drop_last()) + fresh_of(logs.last(), before)
    }
}

/// Over any number of polls of a log that only grows, a watch has printed
/// exactly the last log: every part once, in order.
pub proof fn lemma_watch_prints_log(logs: Seq<Seq<char>>)
    requires
        logs.len() > 0,
        forall|k: int| 0 <= k < logs.len() - 1 ==> is_prefix(#[trigger] logs[k], logs[k + 1]),
    ensures
        printed(logs) == logs.last(),
    decreases logs.len(),
{
    let n = logs.len();
    if n == 1 {
        lemma_fresh_completes(Seq::<char>::empty(), logs[0]);
        assert(Seq::<char>::empty() + logs[0] =~= logs[0]);
        assert(printed(logs.drop_last()) == Seq::<char>::empty());
        assert(Seq::<char>::empty() + fresh_of(logs[0], Seq::<char>::empty()) =~= fresh_of(logs[0], Seq::<char>::empty()));
    } else {
        let init = logs.drop_last();
        assert forall|k: int| 0 <= k < init.len() - 1 implies is_prefix(#[trigger] init[k], init[k + 1]) by {
            assert(init[k] == logs[k] && init[k + 1] == logs[k + 1]);
            assert(is_prefix(logs[k], logs[k + 1]));
        }
        lemma_watch_prints_log(init);
        let shown = logs[n - 2];
        assert(is_prefix(logs[n - 2], logs[n - 1]));
        let more = logs.last().subrange(shown.len() as int, logs.last().len() as int);
        assert(shown + more =~= logs.last());
        lemma_fresh_completes(shown, more);
    }
}

/// The JSON of one job row: `{"index": I, "name": N, "status": S}`, with
/// its members in key order.
pub open spec fn job_json(row: JobRow, v: Json) -> bool {
    &&& v.kind matches Kind::Object(f) && f@.len() == 3 && v.text@ == crate::json::object_text(f@)
        && f@[0].0@ == "index"@ && f@[0].1.kind == Kind::Number(Some(row.index as u64))
        && f@[0].1.text@ == crate::text::decimal(row.index as nat)
        && f@[1].0@ == "name"@ && f@[1].1.as_text() == Some(row.name@) && f@[1].1.text@ == crate::reply::json_text(row.name@)
        && f@[2].0@ == "status"@ && f@[2].1.as_text() == Some(row.status@)
        && f@[2].1.text@ == crate::reply::json_text(row.status@)
}

/// The job rows as a JSON array of [`job_json`] objects, in order.
pub fn job_list(rows: Vec<JobRow>) -> (r: Json)
    ensures
        r.kind matches Kind::Array(items) && items@.len() == rows@.len() && r.text@ == crate::json::array_text(items@)
            && forall|i: int| 0 <= i < rows@.len() ==> job_json(rows@[i], #[trigger] items@[i]),
{
    let mut items: Vec<Json> = Vec::new();
    let mut i: usize = 0;
    while i < rows.len()
        invariant
            i <= rows@.len(),
            items@.len() == i,
            forall|j: int| 0 <= j < i ==> job_json(rows@[j], #[trigger] items@[j]),
        decreases rows@.len() - i,
    {
        let row = &rows[i];
        let mut f: Vec<(String, Json)> = Vec::new();
        f.push((owned("index"), crate::json::count_value(row.index as u64)));
        f.push((owned("name"), crate::json::text_value(row.name.clone())));
        f.push((owned("status"), crate::json::text_value(row.status.clone())));
        let item = crate::json::object(f);
        items.push(item);
        i += 1;
    }
    crate::json::array(items)
}

} // verus!
