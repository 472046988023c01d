//! A bounded, append-only buffer of output lines.
//!
//! Once the buffer holds `capacity` real lines, the next append stores a
//! single synthetic truncation marker; every append after that is a no-op,
//! so the buffer never holds more than `capacity + 1` lines.

use vstd::prelude::*;
use crate::numfmt::{decimal_chars, usize_to_decimal};

verus! {

/// The text of the synthetic marker appended when a buffer reaches capacity.
pub open spec fn truncation_marker_text(cap: nat) -> Seq<char> {
    "[Output truncated at "@ + decimal_chars(cap) + " lines]"@
}

/// Builds the marker line naming the capacity at which output was cut off.
pub fn truncation_marker(cap: usize) -> (s: String)
    ensures
        s@ == truncation_marker_text(cap as nat),
{
    let mut s = String::from_str("[Output truncated at ");
    let num = usize_to_decimal(cap);
    s.append(num.as_str());
    s.append(" lines]");
    proof {
        assert(s@ =~= truncation_marker_text(cap as nat));
    }
    s
}

/// The length of the stored lines after one append: one more while at or
/// below capacity (a real line below it, the marker at it), unchanged after.
pub open spec fn len_after_append(len: nat, cap: nat) -> nat {
    if len <= cap {
        len + 1
    } else {
        len
    }
}

/// How one append relates the stored lines before and after, for a line whose
/// exact value is known.
pub open spec fn append_result(pre: Seq<String>, cap: nat, line: String, post: Seq<String>) -> bool {
    if pre.len() < cap {
        post == pre.push(line)
    } else if pre.len() == cap {
        &&& post.len() == pre.len() + 1
        &&& post.subrange(0, pre.len() as int) == pre
        &&& post.last()@ == truncation_marker_text(cap)
    } else {
        post == pre
    }
}

/// How one append relates the stored lines before and after, for a line of
/// which only the text is known.
pub open spec fn append_result_text(pre: Seq<String>, cap: nat, text: Seq<char>, post: Seq<String>) -> bool {
    if pre.len() < cap {
        &&& post.len() == pre.len() + 1
        &&& post.subrange(0, pre.len() as int) == pre
        &&& post.last()@ == text
    } else if pre.len() == cap {
        &&& post.len() == pre.len() + 1
        &&& post.subrange(0, pre.len() as int) == pre
        &&& post.last()@ == truncation_marker_text(cap)
    } else {
        post == pre
    }
}

/// The clamped start of a read window.
pub open spec fn window_start(offset: nat, total: nat) -> nat {
    if offset < total {
        offset
    } else {
        total
    }
}

/// The clamped end of a read window.
pub open spec fn window_end(offset: nat, limit: nat, total: nat) -> nat {
    if offset + limit < total {
        offset + limit
    } else {
        total
    }
}

pub struct LineBuffer {
    lines: Vec<String>,
    max_lines: usize,
}

impl LineBuffer {
    /// The stored lines, oldest first.
    pub closed spec fn lines(self) -> Seq<String> {
        self.lines@
    }

    /// The number of real lines the buffer accepts before truncating.
    pub closed spec fn capacity(self) -> nat {
        self.max_lines as nat
    }

    /// The buffer never holds more than capacity plus the one marker line.
    pub open spec fn wf(self) -> bool {
        self.lines().len() <= self.capacity() + 1
    }

    /// True once the truncation marker has been appended.
    pub open spec fn truncated(self) -> bool {
        self.lines().len() > self.capacity()
    }

    pub fn new(max_lines: usize) -> (b: LineBuffer)
        ensures
            b.lines() == Seq::<String>::empty(),
            b.capacity() == max_lines as nat,
            b.wf(),
    {
        LineBuffer { lines: Vec::new(), max_lines }
    }

    pub fn len(&self) -> (n: usize)
        ensures
            n == self.lines().len(),
    {
        self.lines.len()
    }

    /// Appends a line: stored while below capacity, replaced by the one
    /// truncation marker at capacity, dropped afterwards.
    pub fn add_line(&mut self, line: String)
        requires
            old(self).wf(),
        ensures
            final(self).wf(),
            final(self).capacity() == old(self).capacity(),
            append_result(old(self).lines(), old(self).capacity(), line, final(self).lines()),
            final(self).lines().len() == len_after_append(old(self).lines().len(), old(self).capacity()),
    {
        let n = self.lines.len();
        if n < self.max_lines {
            self.lines.push(line);
        } else if n == self.max_lines {
            let marker = truncation_marker(self.max_lines);
            self.lines.push(marker);
            proof {
                assert(self.lines@.subrange(0, old(self).lines().len() as int) =~= old(self).lines());
            }
        }
    }

    /// Copies out the window `[offset, offset + limit)` of the stored lines,
    /// clamped to what the buffer holds; out-of-range offsets give an empty
    /// window rather than an error.
    pub fn read_window(&self, offset: usize, limit: usize) -> (out: Vec<String>)
        ensures
            out@ == self.lines().subrange(
                window_start(offset as nat, self.lines().len()) as int,
                window_end(offset as nat, limit as nat, self.lines().len()) as int,
            ),
    {
        let total = self.lines.len();
        let start = if offset < total {
            offset
        } else {
            total
        };
        let remaining = total - start;
        let take = if limit < remaining {
            limit
        } else {
            remaining
        };
        let mut out: Vec<String> = Vec::new();
        let mut i = start;
        while i < start + take
            invariant
                start <= i <= start + take,
                start + take <= total,
                total == self.lines().len(),
                out@ =~= self.lines().subrange(start as int, i as int),
            decreases start + take - i,
        {
            let line = self.lines[i].clone();
            out.push(line);
            i += 1;
        }
        proof {
            assert(out@ =~= self.lines().subrange(
                window_start(offset as nat, self.lines().len()) as int,
                window_end(offset as nat, limit as nat, self.lines().len()) as int,
            ));
        }
        out
    }
}

/// A run of appends with capacity `cap`, written as the stored lines' trace:
/// `trace[i]` is the buffer's content before the `i`-th appended line and
/// `trace[i + 1]` the content after it.
pub open spec fn appends_trace_ok(trace: Seq<Seq<String>>, lines: Seq<String>, cap: nat) -> bool {
    &&& trace.len() == lines.len() + 1
    &&& forall|i: int|
        0 <= i < lines.len() ==> append_result(trace[i], cap, #[trigger] lines[i], trace[i + 1])
}

/// Law: however many lines are appended, a buffer that starts within its
/// bound never grows past capacity + 1.
pub proof fn lemma_appends_stay_bounded(trace: Seq<Seq<String>>, lines: Seq<String>, cap: nat)
    requires
        appends_trace_ok(trace, lines, cap),
        trace.first().len() <= cap + 1,
    ensures
        forall|i: int| 0 <= i < trace.len() ==> (#[trigger] trace[i]).len() <= cap + 1,
    decreases lines.len(),
{
    if lines.len() > 0 {
        let shorter = trace.drop_last();
        assert(appends_trace_ok(shorter, lines.drop_last(), cap));
        lemma_appends_stay_bounded(shorter, lines.drop_last(), cap);
        let n = lines.len() - 1;
        assert(append_result(trace[n], cap, lines[n], trace[n + 1]));
        assert forall|i: int| 0 <= i < trace.len() implies (#[trigger] trace[i]).len() <= cap
            + 1 by {
            if i < trace.len() - 1 {
                assert(shorter[i] == trace[i]);
            } else {
                assert(shorter[n] == trace[n]);
            }
        }
    }
}

/// Law: a buffer holding exactly `cap` real lines takes exactly one more
/// line, the truncation marker, and every append after that changes nothing.
pub proof fn lemma_full_buffer_closes_with_one_marker(
    trace: Seq<Seq<String>>,
    lines: Seq<String>,
    cap: nat,
)
    requires
        appends_trace_ok(trace, lines, cap),
        trace.first().len() == cap,
        lines.len() >= 1,
    ensures
        trace[1].len() == cap + 1,
        trace[1].last()@ == truncation_marker_text(cap),
        forall|i: int| 1 <= i < trace.len() ==> #[trigger] trace[i] == trace[1],
{
    assert(append_result(trace[0], cap, lines[0], trace[1]));
    assert forall|i: int| 1 <= i < trace.len() implies #[trigger] trace[i] == trace[1] by {
        lemma_closed_buffer_stays(trace, lines, cap, i);
    }
}

/// Once the marker is in, every later buffer content in the trace is the
/// same.
proof fn lemma_closed_buffer_stays(trace: Seq<Seq<String>>, lines: Seq<String>, cap: nat, i: int)
    requires
        appends_trace_ok(trace, lines, cap),
        trace[1].len() == cap + 1,
        1 <= i < trace.len(),
    ensures
        trace[i] == trace[1],
    decreases i,
{
    if i > 1 {
        lemma_closed_buffer_stays(trace, lines, cap, i - 1);
        assert(append_result(trace[i - 1], cap, lines[i - 1], trace[i]));
    }
}

} // verus!
