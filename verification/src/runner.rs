//! The execution runner's decision core.
//!
//! The runner drains two live output channels and a timeout timer as a
//! fan-in select. The selecting, spawning, killing and reaping are outside
//! work; every decision the loop makes is here: `runner_step` turns one
//! observed event into an effect on the job record and an action for the
//! loop, `apply_effect` performs the effect on the record, and `finalize`
//! commits the one terminal transition after the loop has stopped.

use vstd::prelude::*;
use crate::buffer::{append_result, append_result_text};
use crate::record::{completed_marked, failed_marked, JobRecord, JobStatus};
use crate::text::{has_prefix, prefixed};

verus! {

/// One thing the select loop observed: a line or the end or an error of
/// either channel, or a timer tick carrying the elapsed seconds so far.
pub enum RunnerEvent {
    PrimaryLine(String),
    PrimaryEnd,
    PrimaryError(String),
    DiagnosticLine(String),
    DiagnosticEnd,
    DiagnosticError,
    TimerTick(u64),
}

/// What the loop must do next: keep selecting, kill the process and stop
/// reading (timeout), or stop reading and go reap the process.
#[derive(Clone, Copy, PartialEq, Eq, Structural, Debug)]
pub enum RunnerAction {
    Continue,
    KillProcess,
    StopReading,
}

/// The change one event asks of the job record.
pub enum RecordEffect {
    NoChange,
    Append(String),
    Fail(String),
    Timeout,
}

/// What the loop tracks between events: the clamped timeout and which of the
/// two channels are still open.
pub struct RunnerState {
    pub timeout_secs: u64,
    pub primary_open: bool,
    pub diagnostic_open: bool,
}

impl RunnerState {
    pub fn new(timeout_secs: u64) -> (s: RunnerState)
        ensures
            s.timeout_secs == timeout_secs,
            s.primary_open,
            s.diagnostic_open,
    {
        RunnerState { timeout_secs, primary_open: true, diagnostic_open: true }
    }
}

/// The echo of the credential prompt, which is suppressed from the
/// diagnostic channel.
pub open spec fn prompt_echo_text() -> Seq<char> {
    "[sudo] password"@
}

/// Decides what one observed event does: which channels stay open, what the
/// record must absorb, and whether the loop keeps selecting.
///
/// Primary lines are stored as they come; diagnostic lines are stored with an
/// `[Error] ` prefix unless they echo the credential prompt; a diagnostic
/// read error is swallowed; a primary read error fails the job; a timer tick
/// past the timeout asks for the process to be killed. Reading stops when
/// both channels have ended, on a primary read error, or on timeout.
pub fn runner_step(state: &mut RunnerState, event: RunnerEvent) -> (r: (RecordEffect, RunnerAction))
    ensures
        final(state).timeout_secs == old(state).timeout_secs,
        (match event {
            RunnerEvent::PrimaryLine(l) => {
                &&& *final(state) == *old(state)
                &&& r.1 == RunnerAction::Continue
                &&& if old(state).primary_open {
                    r.0 matches RecordEffect::Append(x) && x == l
                } else {
                    r.0 is NoChange
                }
            },
            RunnerEvent::PrimaryEnd => {
                &&& !final(state).primary_open
                &&& final(state).diagnostic_open == old(state).diagnostic_open
                &&& r.0 is NoChange
                &&& r.1 == if old(state).diagnostic_open {
                    RunnerAction::Continue
                } else {
                    RunnerAction::StopReading
                }
            },
            RunnerEvent::PrimaryError(e) => {
                &&& *final(state) == *old(state)
                &&& r.1 == RunnerAction::StopReading
                &&& r.0 matches RecordEffect::Fail(m) && m@ == "Read error: "@ + e@
            },
            RunnerEvent::DiagnosticLine(l) => {
                &&& *final(state) == *old(state)
                &&& r.1 == RunnerAction::Continue
                &&& if old(state).diagnostic_open && !prompt_echo_text().is_prefix_of(l@) {
                    r.0 matches RecordEffect::Append(x) && x@ == "[Error] "@ + l@
                } else {
                    r.0 is NoChange
                }
            },
            RunnerEvent::DiagnosticEnd => {
                &&& !final(state).diagnostic_open
                &&& final(state).primary_open == old(state).primary_open
                &&& r.0 is NoChange
                &&& r.1 == if old(state).primary_open {
                    RunnerAction::Continue
                } else {
                    RunnerAction::StopReading
                }
            },
            RunnerEvent::DiagnosticError => {
                &&& *final(state) == *old(state)
                &&& r.0 is NoChange
                &&& r.1 == RunnerAction::Continue
            },
            RunnerEvent::TimerTick(elapsed) => {
                &&& *final(state) == *old(state)
                &&& if elapsed > old(state).timeout_secs {
                    r.0 is Timeout && r.1 == RunnerAction::KillProcess
                } else {
                    r.0 is NoChange && r.1 == RunnerAction::Continue
                }
            },
        }),
{
    match event {
        RunnerEvent::PrimaryLine(l) => {
            if state.primary_open {
                (RecordEffect::Append(l), RunnerAction::Continue)
            } else {
                (RecordEffect::NoChange, RunnerAction::Continue)
            }
        },
        RunnerEvent::PrimaryEnd => {
            state.primary_open = false;
            if state.diagnostic_open {
                (RecordEffect::NoChange, RunnerAction::Continue)
            } else {
                (RecordEffect::NoChange, RunnerAction::StopReading)
            }
        },
        RunnerEvent::PrimaryError(e) => {
            let msg = prefixed("Read error: ", e.as_str());
            (RecordEffect::Fail(msg), RunnerAction::StopReading)
        },
        RunnerEvent::DiagnosticLine(l) => {
            if state.diagnostic_open && !has_prefix(l.as_str(), "[sudo] password") {
                let tagged = prefixed("[Error] ", l.as_str());
                (RecordEffect::Append(tagged), RunnerAction::Continue)
            } else {
                (RecordEffect::NoChange, RunnerAction::Continue)
            }
        },
        RunnerEvent::DiagnosticEnd => {
            state.diagnostic_open = false;
            if state.primary_open {
                (RecordEffect::NoChange, RunnerAction::Continue)
            } else {
                (RecordEffect::NoChange, RunnerAction::StopReading)
            }
        },
        RunnerEvent::DiagnosticError => (RecordEffect::NoChange, RunnerAction::Continue),
        RunnerEvent::TimerTick(elapsed) => {
            if elapsed > state.timeout_secs {
                (RecordEffect::Timeout, RunnerAction::KillProcess)
            } else {
                (RecordEffect::NoChange, RunnerAction::Continue)
            }
        },
    }
}

/// How one effect relates a record before and after it is absorbed. A
/// terminal record absorbs nothing; a running one stores an appended line
/// under the buffer's truncation rule, or fails with the given reason; a
/// timeout stores the synthetic timed-out line and then fails with reason
/// `Timeout`.
pub open spec fn effect_applied(
    pre: JobRecord,
    effect: RecordEffect,
    now: u64,
    post: JobRecord,
) -> bool {
    if pre.is_terminal() {
        post == pre
    } else {
        match effect {
            RecordEffect::NoChange => post == pre,
            RecordEffect::Append(l) => {
                &&& append_result(pre.lines(), pre.capacity(), l, post.lines())
                &&& post.status() == pre.status()
                &&& post.completion_time() == pre.completion_time()
                &&& post.error_message() == pre.error_message()
                &&& post.id() == pre.id()
                &&& post.capacity() == pre.capacity()
                &&& post.creation_time() == pre.creation_time()
            },
            RecordEffect::Fail(m) => failed_marked(pre, now, m, post),
            RecordEffect::Timeout => {
                &&& append_result_text(
                    pre.lines(),
                    pre.capacity(),
                    "[Execution timed out]"@,
                    post.lines(),
                )
                &&& post.status() == JobStatus::Failed
                &&& post.completion_time() == Some(crate::record::stamp(now, pre.creation_time()))
                &&& post.error_message() matches Some(m) && m@ == "Timeout"@
                &&& post.id() == pre.id()
                &&& post.capacity() == pre.capacity()
                &&& post.creation_time() == pre.creation_time()
            },
        }
    }
}

/// Absorbs one effect into the record. A record already terminal is left
/// untouched, so no effect ever moves a record out of a terminal state.
pub fn apply_effect(record: &mut JobRecord, effect: RecordEffect, now: u64)
    requires
        old(record).wf(),
    ensures
        final(record).wf(),
        effect_applied(*old(record), effect, now, *final(record)),
{
    if !record.is_running() {
        return;
    }
    match effect {
        RecordEffect::NoChange => {},
        RecordEffect::Append(l) => {
            record.add_line(l);
        },
        RecordEffect::Fail(m) => {
            record.mark_failed(now, m);
        },
        RecordEffect::Timeout => {
            let line = String::from_str("[Execution timed out]");
            record.add_line(line);
            proof {
                if old(record).lines().len() < old(record).capacity() {
                    assert(record.lines().subrange(0, old(record).lines().len() as int)
                        =~= old(record).lines());
                }
            }
            record.mark_failed(now, String::from_str("Timeout"));
        },
    }
}

/// Commits the one terminal transition after the read loop has stopped and
/// the process been reaped: a record still running is marked completed;
/// a record that timed out or hit a read error is left as it is.
pub fn finalize(record: &mut JobRecord, now: u64)
    requires
        old(record).wf(),
    ensures
        final(record).wf(),
        old(record).status() == JobStatus::Running ==> completed_marked(
            *old(record),
            now,
            *final(record),
        ),
        old(record).is_terminal() ==> *final(record) == *old(record),
{
    if record.is_running() {
        record.mark_completed(now);
    }
}

/// Law: once a record is terminal, its state never changes again; no runner
/// effect moves it, so the status flips at most once.
pub proof fn lemma_terminal_is_stable(
    pre: JobRecord,
    effect: RecordEffect,
    now: u64,
    post: JobRecord,
)
    requires
        pre.is_terminal(),
        effect_applied(pre, effect, now, post),
    ensures
        post == pre,
{
}

/// A run of absorbed effects, written as the record's trace: `trace[i]` is
/// the record before the `i`-th effect and `trace[i + 1]` the record after.
pub open spec fn effects_trace_ok(trace: Seq<JobRecord>, steps: Seq<(RecordEffect, u64)>) -> bool {
    &&& trace.len() == steps.len() + 1
    &&& forall|i: int|
        0 <= i < steps.len() ==> effect_applied(
            trace[i],
            (#[trigger] steps[i]).0,
            steps[i].1,
            trace[i + 1],
        )
}

/// Law: along any run of absorbed effects, the status moves at most once: a
/// record that starts terminal never changes at all, and a status that did
/// change went from `Running` into a terminal state.
pub proof fn lemma_status_moves_at_most_once(
    trace: Seq<JobRecord>,
    steps: Seq<(RecordEffect, u64)>,
)
    requires
        effects_trace_ok(trace, steps),
    ensures
        trace.first().is_terminal() ==> trace.last() == trace.first(),
        trace.last().status() != trace.first().status() ==> trace.first().status()
            == JobStatus::Running && trace.last().is_terminal(),
    decreases steps.len(),
{
    if steps.len() > 0 {
        let shorter = trace.drop_last();
        assert(effects_trace_ok(shorter, steps.drop_last()));
        lemma_status_moves_at_most_once(shorter, steps.drop_last());
        let n = steps.len() - 1;
        assert(effect_applied(trace[n], steps[n].0, steps[n].1, trace[n + 1]));
        assert(shorter.last() == trace[n]);
    }
}

} // verus!
