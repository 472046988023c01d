//! The job service facade: start a job, feed it runner events, fetch a
//! paginated result window, and sweep out stale records.
//!
//! The service owns the registry and makes every decision; the surrounding
//! program supplies the clock readings, spawns and kills the process, and
//! delivers what the output channels produced.

use vstd::prelude::*;
use crate::idgen::fresh_execution_id;
use crate::record::{stamp, JobRecord, JobStatus};
use crate::registry::{expired, JobRegistry};
use crate::runner::{effect_applied, RecordEffect};
use crate::text::prefixed;

verus! {

/// The number of lines a job's buffer accepts before truncating.
pub const BUFFER_CAPACITY: usize = 10000;

/// Seconds between retention sweeps.
pub const SWEEP_INTERVAL_SECS: u64 = 300;

/// Seconds a record is retained after creation before a sweep evicts it.
pub const RETENTION_WINDOW_SECS: u64 = 3600;

/// Milliseconds `start` waits before its grace check for immediate failures.
pub const GRACE_PERIOD_MS: u64 = 500;

/// Clamps a requested timeout to the effective range of one to sixty seconds.
pub fn clamp_timeout(t: u64) -> (r: u64)
    ensures
        r == if t < 1 { 1u64 } else if t > 60 { 60u64 } else { t },
        1 <= r <= 60,
{
    if t < 1 {
        1
    } else if t > 60 {
        60
    } else {
        t
    }
}

/// The timeout, in seconds, used when a caller names none.
pub fn default_timeout() -> (t: u64)
    ensures
        t == 10,
{
    10
}

/// The window size used when a caller names none.
pub fn default_limit() -> (l: usize)
    ensures
        l == 1000,
{
    1000
}

/// What `start` reports after the grace period.
pub struct StartOutcome {
    pub status: String,
    pub execution_id: Option<String>,
    pub message: String,
}

/// The snapshot a result fetch returns.
pub struct ResultWindow {
    pub execution_id: String,
    pub status: String,
    pub lines_total: usize,
    pub lines_returned: usize,
    pub output: Vec<String>,
    pub has_more: bool,
    pub error_message: Option<String>,
    pub duration: Option<u64>,
}

pub struct JobService {
    registry: JobRegistry,
    buffer_capacity: usize,
}

impl JobService {
    /// The registered jobs.
    pub closed spec fn jobs(self) -> JobRegistry {
        self.registry
    }

    /// The buffer capacity every new job gets.
    pub closed spec fn buffer_capacity(self) -> nat {
        self.buffer_capacity as nat
    }

    pub open spec fn wf(self) -> bool {
        self.jobs().wf()
    }

    pub fn new(buffer_capacity: usize) -> (s: JobService)
        ensures
            s.wf(),
            s.buffer_capacity() == buffer_capacity as nat,
            s.jobs().jobs_seq() == Seq::<JobRecord>::empty(),
    {
        JobService { registry: JobRegistry::new(), buffer_capacity }
    }

    /// Creates and registers a fresh running record and returns its
    /// identifier; the runner for it is then launched outside.
    pub fn start_job(&mut self, now: u64) -> (id: String)
        requires
            old(self).wf(),
        ensures
            final(self).wf(),
            final(self).buffer_capacity() == old(self).buffer_capacity(),
            id@.len() == 13,
            id@.subrange(0, 5) == "exec_"@,
            final(self).jobs().contains_id(id@),
            ({
                let r = final(self).jobs().record_of(id@);
                &&& r.id() == id@
                &&& r.status() == JobStatus::Running
                &&& r.lines() == Seq::<String>::empty()
                &&& r.capacity() == old(self).buffer_capacity()
                &&& r.creation_time() == now
                &&& r.completion_time() is None
                &&& r.error_message() is None
            }),
            forall|j: Seq<char>|
                j != id@ ==> (#[trigger] final(self).jobs().contains_id(j) <==> old(self).jobs().contains_id(j)),
            forall|j: Seq<char>|
                j != id@ && old(self).jobs().contains_id(j) ==> #[trigger] final(self).jobs().record_of(j) == old(self).jobs().record_of(j),
    {
        let id = fresh_execution_id();
        let record = JobRecord::new(id.clone(), self.buffer_capacity, now);
        self.registry.upsert(record);
        id
    }

    /// Absorbs one runner effect into the record named by `id`; an identifier
    /// already evicted absorbs nothing, harmlessly.
    pub fn apply_to_job(&mut self, id: &str, effect: RecordEffect, now: u64) -> (found: bool)
        requires
            old(self).wf(),
        ensures
            final(self).wf(),
            final(self).buffer_capacity() == old(self).buffer_capacity(),
            found == old(self).jobs().contains_id(id@),
            !found ==> *final(self) == *old(self),
            found ==> effect_applied(
                old(self).jobs().record_of(id@),
                effect,
                now,
                final(self).jobs().record_of(id@),
            ),
            forall|j: Seq<char>| #[trigger]
                final(self).jobs().contains_id(j) <==> old(self).jobs().contains_id(j),
            forall|j: Seq<char>|
                j != id@ && old(self).jobs().contains_id(j) ==> #[trigger] final(self).jobs().record_of(j) == old(self).jobs().record_of(j),
    {
        self.registry.update_record(id, effect, now)
    }

    /// Records an immediate spawn failure: the job, if still registered and
    /// running, fails with the spawn error.
    pub fn fail_spawn(&mut self, id: &str, error: String, now: u64) -> (found: bool)
        requires
            old(self).wf(),
        ensures
            final(self).wf(),
            final(self).buffer_capacity() == old(self).buffer_capacity(),
            found == old(self).jobs().contains_id(id@),
            !found ==> *final(self) == *old(self),
            found ==> ({
                let pre = old(self).jobs().record_of(id@);
                let post = final(self).jobs().record_of(id@);
                if pre.status() == JobStatus::Running {
                    &&& post.status() == JobStatus::Failed
                    &&& post.completion_time() == Some(stamp(now, pre.creation_time()))
                    &&& post.error_message() matches Some(m) && m@ == "Failed to spawn process: "@
                        + error@
                    &&& post.lines() == pre.lines()
                    &&& post.id() == pre.id()
                    &&& post.creation_time() == pre.creation_time()
                    &&& post.capacity() == pre.capacity()
                } else {
                    post == pre
                }
            }),
            forall|j: Seq<char>| #[trigger]
                final(self).jobs().contains_id(j) <==> old(self).jobs().contains_id(j),
            forall|j: Seq<char>|
                j != id@ && old(self).jobs().contains_id(j) ==> #[trigger] final(self).jobs().record_of(j) == old(self).jobs().record_of(j),
    {
        let message = prefixed("Failed to spawn process: ", error.as_str());
        self.registry.update_record(id, RecordEffect::Fail(message), now)
    }

    /// Commits the one completed transition after the read loop stopped and
    /// the process was reaped; a job that already failed stays failed.
    pub fn finalize_job(&mut self, id: &str, now: u64) -> (found: bool)
        requires
            old(self).wf(),
        ensures
            final(self).wf(),
            final(self).buffer_capacity() == old(self).buffer_capacity(),
            found == old(self).jobs().contains_id(id@),
            !found ==> *final(self) == *old(self),
            found ==> ({
                let pre = old(self).jobs().record_of(id@);
                let post = final(self).jobs().record_of(id@);
                &&& (pre.status() == JobStatus::Running ==> crate::record::completed_marked(
                    pre,
                    now,
                    post,
                ))
                &&& (pre.is_terminal() ==> post == pre)
            }),
            forall|j: Seq<char>| #[trigger]
                final(self).jobs().contains_id(j) <==> old(self).jobs().contains_id(j),
            forall|j: Seq<char>|
                j != id@ && old(self).jobs().contains_id(j) ==> #[trigger] final(self).jobs().record_of(j) == old(self).jobs().record_of(j),
    {
        self.registry.finalize_record(id, now)
    }

    /// The grace check `start` makes after its fixed wait: a job that already
    /// failed is reported as an error carrying the failure message and no
    /// identifier; any other, including one not (or no longer) registered, is
    /// reported started.
    pub fn grace_check(&self, id: String) -> (r: StartOutcome)
        requires
            self.wf(),
        ensures
            ({
                let failed_now = self.jobs().contains_id(id@) && self.jobs().record_of(id@).status()
                    == JobStatus::Failed;
                if failed_now {
                    &&& r.status@ == "error"@
                    &&& r.execution_id is None
                    &&& (match self.jobs().record_of(id@).error_message() {
                        Some(m) => r.message@ == m@,
                        None => r.message@ == "Failed to start program"@,
                    })
                } else {
                    &&& r.status@ == "success"@
                    &&& r.execution_id matches Some(i) && i@ == id@
                    &&& r.message@ == "Program started successfully"@
                }
            }),
    {
        let failed_message: Option<String> = match self.registry.get(id.as_str()) {
            Some(rec) => {
                if rec.is_failed() {
                    match rec.error_text() {
                        Some(m) => Some(m),
                        None => Some(String::from_str("Failed to start program")),
                    }
                } else {
                    None
                }
            },
            None => None,
        };
        match failed_message {
            Some(message) => StartOutcome {
                status: String::from_str("error"),
                execution_id: None,
                message,
            },
            None => StartOutcome {
                status: String::from_str("success"),
                execution_id: Some(id),
                message: String::from_str("Program started successfully"),
            },
        }
    }

    /// A non-blocking snapshot of a job's status and a clamped window of its
    /// output. An unknown identifier gives an error snapshot with a not-found
    /// message and no output; an offset at or past the end gives an empty
    /// window with nothing more to fetch.
    pub fn get_result(&self, execution_id: &str, offset: usize, limit: usize) -> (r: ResultWindow)
        requires
            self.wf(),
        ensures
            r.execution_id@ == execution_id@,
            r.lines_returned == r.output@.len(),
            !self.jobs().contains_id(execution_id@) ==> ({
                &&& r.status@ == "error"@
                &&& r.lines_total == 0
                &&& r.output@ == Seq::<String>::empty()
                &&& !r.has_more
                &&& r.error_message matches Some(m) && m@ == "Execution ID not found"@
                &&& r.duration is None
            }),
            self.jobs().contains_id(execution_id@) ==> ({
                let rec = self.jobs().record_of(execution_id@);
                let total = rec.lines().len();
                let start = crate::buffer::window_start(offset as nat, total);
                let end = crate::buffer::window_end(offset as nat, limit as nat, total);
                &&& r.status@ == crate::record::status_text(rec.status())
                &&& r.lines_total == total
                &&& r.output@ == rec.lines().subrange(start as int, end as int)
                &&& r.has_more == (end < total)
                &&& r.error_message == rec.error_message()
                &&& r.duration == rec.duration_spec()
            }),
            self.jobs().contains_id(execution_id@) && offset >= self.jobs().record_of(
                execution_id@,
            ).lines().len() ==> r.output@.len() == 0 && !r.has_more,
    {
        match self.registry.get(execution_id) {
            Some(rec) => {
                proof {
                    self.registry.lemma_index_of(execution_id@);
                    assert(self.jobs().jobs_seq()[self.jobs().index_of(execution_id@)].wf());
                }
                let total = rec.line_count();
                let output = rec.window(offset, limit);
                let returned = output.len();
                let start = if offset < total {
                    offset
                } else {
                    total
                };
                let has_more = start + returned < total;
                ResultWindow {
                    execution_id: String::from_str(execution_id),
                    status: rec.status_word(),
                    lines_total: total,
                    lines_returned: returned,
                    output,
                    has_more,
                    error_message: rec.error_text(),
                    duration: rec.duration(),
                }
            },
            None => ResultWindow {
                execution_id: String::from_str(execution_id),
                status: String::from_str("error"),
                lines_total: 0,
                lines_returned: 0,
                output: Vec::new(),
                has_more: false,
                error_message: Some(String::from_str("Execution ID not found")),
                duration: None,
            },
        }
    }

    /// One retention tick: evicts every record older than the retention
    /// window, running or not; everything younger is untouched.
    pub fn sweep(&mut self, now: u64)
        requires
            old(self).wf(),
        ensures
            final(self).wf(),
            final(self).buffer_capacity() == old(self).buffer_capacity(),
            forall|id: Seq<char>| #[trigger]
                final(self).jobs().contains_id(id) <==> (old(self).jobs().contains_id(id)
                    && !expired(old(self).jobs().record_of(id), now, RETENTION_WINDOW_SECS)),
            forall|id: Seq<char>| #[trigger]
                final(self).jobs().contains_id(id) ==> final(self).jobs().record_of(id) == old(self).jobs().record_of(id),
    {
        self.registry.remove_expired(now, RETENTION_WINDOW_SECS);
    }
}

} // verus!
