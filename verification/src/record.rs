//! The lifecycle record of one execution: its identifier, buffered output,
//! status, timestamps and error message.
//!
//! A record starts `Running` and moves at most once into a terminal state,
//! `Completed` or `Failed`; the completion timestamp is set exactly when the
//! record becomes terminal, and an error message is held only by a failed
//! record.

use vstd::prelude::*;
use crate::buffer::{append_result, len_after_append, window_end, window_start, LineBuffer};

verus! {

#[derive(Clone, Copy, PartialEq, Eq, Structural, Debug)]
pub enum JobStatus {
    Running,
    Completed,
    Failed,
}

/// The status word reported to callers.
pub open spec fn status_text(s: JobStatus) -> Seq<char> {
    match s {
        JobStatus::Running => "running"@,
        JobStatus::Completed => "completed"@,
        JobStatus::Failed => "failed"@,
    }
}

/// Renders a status as the word callers see.
pub fn status_string(s: JobStatus) -> (r: String)
    ensures
        r@ == status_text(s),
{
    match s {
        JobStatus::Running => String::from_str("running"),
        JobStatus::Completed => String::from_str("completed"),
        JobStatus::Failed => String::from_str("failed"),
    }
}

pub struct JobRecord {
    execution_id: String,
    buffer: LineBuffer,
    status: JobStatus,
    creation_time: u64,
    completion_time: Option<u64>,
    error_message: Option<String>,
}

/// The timestamp actually stamped on a terminal transition: the given clock
/// reading, held up to the creation time so a duration never underflows.
pub open spec fn stamp(now: u64, created: u64) -> u64 {
    if now < created {
        created
    } else {
        now
    }
}

impl JobRecord {
    pub closed spec fn id(self) -> Seq<char> {
        self.execution_id@
    }

    pub closed spec fn lines(self) -> Seq<String> {
        self.buffer.lines()
    }

    pub closed spec fn capacity(self) -> nat {
        self.buffer.capacity()
    }

    pub closed spec fn status(self) -> JobStatus {
        self.status
    }

    pub closed spec fn creation_time(self) -> u64 {
        self.creation_time
    }

    pub closed spec fn completion_time(self) -> Option<u64> {
        self.completion_time
    }

    pub closed spec fn error_message(self) -> Option<String> {
        self.error_message
    }

    /// Whether the record has left the `Running` state.
    pub open spec fn is_terminal(self) -> bool {
        self.status() != JobStatus::Running
    }

    /// The duration of a finished job; a running job has none yet.
    pub open spec fn duration_spec(self) -> Option<u64> {
        match self.completion_time() {
            Some(t) => Some((t - self.creation_time()) as u64),
            None => None,
        }
    }

    /// Internal consistency: the buffer is bounded, the completion timestamp
    /// exists exactly on terminal records and never precedes creation, and an
    /// error message is held only by a failed record.
    pub open spec fn wf(self) -> bool {
        &&& self.lines().len() <= self.capacity() + 1
        &&& (self.completion_time() is Some <==> self.is_terminal())
        &&& (self.error_message() is Some ==> self.status() == JobStatus::Failed)
        &&& (match self.completion_time() {
            Some(t) => t >= self.creation_time(),
            None => true,
        })
    }

    pub fn new(execution_id: String, max_lines: usize, now: u64) -> (r: JobRecord)
        ensures
            r.wf(),
            r.id() == execution_id@,
            r.lines() == Seq::<String>::empty(),
            r.capacity() == max_lines as nat,
            r.status() == JobStatus::Running,
            r.creation_time() == now,
            r.completion_time() is None,
            r.error_message() is None,
    {
        JobRecord {
            execution_id,
            buffer: LineBuffer::new(max_lines),
            status: JobStatus::Running,
            creation_time: now,
            completion_time: None,
            error_message: None,
        }
    }

    /// Appends a line of output under the buffer's truncation rule; nothing
    /// else about the record changes.
    pub fn add_line(&mut self, line: String)
        requires
            old(self).wf(),
        ensures
            final(self).wf(),
            append_result(old(self).lines(), old(self).capacity(), line, final(self).lines()),
            final(self).lines().len() == len_after_append(
                old(self).lines().len(),
                old(self).capacity(),
            ),
            final(self).id() == old(self).id(),
            final(self).capacity() == old(self).capacity(),
            final(self).status() == old(self).status(),
            final(self).creation_time() == old(self).creation_time(),
            final(self).completion_time() == old(self).completion_time(),
            final(self).error_message() == old(self).error_message(),
    {
        self.buffer.add_line(line);
    }

    /// Marks a running record completed, stamping the completion time.
    pub fn mark_completed(&mut self, now: u64)
        requires
            old(self).wf(),
            old(self).status() == JobStatus::Running,
        ensures
            final(self).wf(),
            completed_marked(*old(self), now, *final(self)),
    {
        self.status = JobStatus::Completed;
        self.completion_time = Some(
            if now < self.creation_time {
                self.creation_time
            } else {
                now
            },
        );
    }

    /// Marks a running record failed, stamping the completion time and
    /// recording the reason.
    pub fn mark_failed(&mut self, now: u64, error: String)
        requires
            old(self).wf(),
            old(self).status() == JobStatus::Running,
        ensures
            final(self).wf(),
            failed_marked(*old(self), now, error, *final(self)),
    {
        self.status = JobStatus::Failed;
        self.completion_time = Some(
            if now < self.creation_time {
                self.creation_time
            } else {
                now
            },
        );
        self.error_message = Some(error);
    }

    /// The duration of a finished job, in seconds; `None` while running.
    pub fn duration(&self) -> (d: Option<u64>)
        requires
            self.wf(),
        ensures
            d == self.duration_spec(),
    {
        match self.completion_time {
            Some(t) => Some(t - self.creation_time),
            None => None,
        }
    }

    pub fn is_running(&self) -> (b: bool)
        ensures
            b == (self.status() == JobStatus::Running),
    {
        match self.status {
            JobStatus::Running => true,
            _ => false,
        }
    }

    pub fn is_failed(&self) -> (b: bool)
        ensures
            b == (self.status() == JobStatus::Failed),
    {
        match self.status {
            JobStatus::Failed => true,
            _ => false,
        }
    }

    pub fn created_at(&self) -> (t: u64)
        ensures
            t == self.creation_time(),
    {
        self.creation_time
    }

    /// Whether this record is the one named by `id`.
    pub fn id_matches(&self, id: &str) -> (b: bool)
        ensures
            b == (self.id() == id@),
    {
        crate::text::str_eq(self.execution_id.as_str(), id)
    }

    pub fn id_string(&self) -> (r: String)
        ensures
            r@ == self.id(),
    {
        self.execution_id.clone()
    }

    /// The status word callers see for this record.
    pub fn status_word(&self) -> (r: String)
        ensures
            r@ == status_text(self.status()),
    {
        status_string(self.status)
    }

    /// A copy of the error message, if the record failed.
    pub fn error_text(&self) -> (e: Option<String>)
        ensures
            e == self.error_message(),
    {
        match &self.error_message {
            Some(m) => Some(m.clone()),
            None => None,
        }
    }

    pub fn line_count(&self) -> (n: usize)
        ensures
            n == self.lines().len(),
    {
        self.buffer.len()
    }

    /// The clamped window `[offset, offset + limit)` of the buffered lines.
    pub fn window(&self, offset: usize, limit: usize) -> (out: Vec<String>)
        ensures
            out@ == self.lines().subrange(
                window_start(offset as nat, self.lines().len()) as int,
                window_end(offset as nat, limit as nat, self.lines().len()) as int,
            ),
    {
        self.buffer.read_window(offset, limit)
    }
}

/// How `mark_completed` relates the record before and after: only the status
/// and the completion stamp change.
pub open spec fn completed_marked(pre: JobRecord, now: u64, post: JobRecord) -> bool {
    &&& post.status() == JobStatus::Completed
    &&& post.completion_time() == Some(stamp(now, pre.creation_time()))
    &&& post.error_message() == pre.error_message()
    &&& post.lines() == pre.lines()
    &&& post.capacity() == pre.capacity()
    &&& post.id() == pre.id()
    &&& post.creation_time() == pre.creation_time()
}

/// How `mark_failed` relates the record before and after: the status flips to
/// `Failed`, the completion stamp and the reason are recorded.
pub open spec fn failed_marked(pre: JobRecord, now: u64, error: String, post: JobRecord) -> bool {
    &&& post.status() == JobStatus::Failed
    &&& post.completion_time() == Some(stamp(now, pre.creation_time()))
    &&& post.error_message() == Some(error)
    &&& post.lines() == pre.lines()
    &&& post.capacity() == pre.capacity()
    &&& post.id() == pre.id()
    &&& post.creation_time() == pre.creation_time()
}

} // verus!
