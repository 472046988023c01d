//! The registry of live jobs: a mapping from execution identifier to job
//! record, supporting insert, lookup, per-record update and the retention
//! sweep that evicts records older than the retention window.

use vstd::prelude::*;
use vstd::seq_lib::*;
use crate::record::{completed_marked, JobRecord, JobStatus};
use crate::runner::{apply_effect, effect_applied, finalize, RecordEffect};

verus! {

/// Whether a record's age at `now` exceeds `max_age` seconds. A record whose
/// creation time does not precede `now` has no age yet and is never expired.
pub open spec fn expired(r: JobRecord, now: u64, max_age: u64) -> bool {
    r.creation_time() < now && now - r.creation_time() > max_age
}

/// The records a retention sweep at `now` keeps.
pub open spec fn keep(now: u64, max_age: u64) -> spec_fn(JobRecord) -> bool {
    |r: JobRecord| !expired(r, now, max_age)
}

pub struct JobRegistry {
    jobs: Vec<JobRecord>,
}

impl JobRegistry {
    /// The stored records, in insertion order.
    pub closed spec fn jobs_seq(self) -> Seq<JobRecord> {
        self.jobs@
    }

    /// Whether some record carries this identifier.
    pub open spec fn contains_id(self, id: Seq<char>) -> bool {
        exists|i: int| 0 <= i < self.jobs_seq().len() && self.jobs_seq()[i].id() == id
    }

    /// The position of the record carrying this identifier.
    pub open spec fn index_of(self, id: Seq<char>) -> int {
        choose|i: int| 0 <= i < self.jobs_seq().len() && self.jobs_seq()[i].id() == id
    }

    /// The record carrying this identifier.
    pub open spec fn record_of(self, id: Seq<char>) -> JobRecord {
        self.jobs_seq()[self.index_of(id)]
    }

    /// Every stored record is well formed and no identifier occurs twice.
    pub open spec fn wf(self) -> bool {
        &&& (forall|i: int|
            0 <= i < self.jobs_seq().len() ==> (#[trigger] self.jobs_seq()[i]).wf())
        &&& (forall|i: int, j: int|
            0 <= i < j < self.jobs_seq().len() ==> self.jobs_seq()[i].id()
                != self.jobs_seq()[j].id())
    }

    /// The identifier names exactly one position.
    pub proof fn lemma_index_of(self, id: Seq<char>)
        requires
            self.wf(),
            self.contains_id(id),
        ensures
            0 <= self.index_of(id) < self.jobs_seq().len(),
            self.jobs_seq()[self.index_of(id)].id() == id,
            forall|i: int|
                0 <= i < self.jobs_seq().len() && self.jobs_seq()[i].id() == id ==> i
                    == self.index_of(id),
    {
        let k = self.index_of(id);
        assert(0 <= k < self.jobs_seq().len() && self.jobs_seq()[k].id() == id);
        assert forall|i: int|
            0 <= i < self.jobs_seq().len() && self.jobs_seq()[i].id() == id implies i == k by {
            if i < k {
                assert(self.jobs_seq()[i].id() != self.jobs_seq()[k].id());
            } else if k < i {
                assert(self.jobs_seq()[k].id() != self.jobs_seq()[i].id());
            }
        }
    }

    pub fn new() -> (r: JobRegistry)
        ensures
            r.wf(),
            r.jobs_seq() == Seq::<JobRecord>::empty(),
    {
        JobRegistry { jobs: Vec::new() }
    }

    /// Finds the position of the record named by `id`, if any.
    fn find(&self, id: &str) -> (r: Option<usize>)
        requires
            self.wf(),
        ensures
            match r {
                Some(i) => {
                    &&& self.contains_id(id@)
                    &&& i < self.jobs_seq().len()
                    &&& self.jobs_seq()[i as int].id() == id@
                    &&& i == self.index_of(id@)
                },
                None => !self.contains_id(id@),
            },
    {
        let n = self.jobs.len();
        let mut i: usize = 0;
        while i < n
            invariant
                self.wf(),
                i <= n,
                n == self.jobs_seq().len(),
                forall|j: int| 0 <= j < i ==> self.jobs_seq()[j].id() != id@,
            decreases n - i,
        {
            if self.jobs[i].id_matches(id) {
                proof {
                    self.lemma_index_of(id@);
                }
                return Some(i);
            }
            i += 1;
        }
        None
    }

    /// A read-only view of the record named by `id`.
    pub fn get(&self, id: &str) -> (r: Option<&JobRecord>)
        requires
            self.wf(),
        ensures
            match r {
                Some(rec) => self.contains_id(id@) && *rec == self.record_of(id@),
                None => !self.contains_id(id@),
            },
    {
        match self.find(id) {
            Some(i) => Some(&self.jobs[i]),
            None => None,
        }
    }

    /// Registers a record under its identifier; a record already stored under
    /// the same identifier is replaced, any other is untouched.
    pub fn upsert(&mut self, record: JobRecord)
        requires
            old(self).wf(),
            record.wf(),
        ensures
            final(self).wf(),
            final(self).contains_id(record.id()),
            final(self).record_of(record.id()) == record,
            forall|j: Seq<char>|
                j != record.id() ==> (#[trigger] final(self).contains_id(j) <==> old(
                    self,
                ).contains_id(j)),
            forall|j: Seq<char>|
                j != record.id() && old(self).contains_id(j) ==> #[trigger] final(self).record_of(j)
                    == old(self).record_of(j),
    {
        let key = record.id_string();
        match self.find(key.as_str()) {
            Some(i) => {
                self.jobs[i] = record;
                proof {
                    lemma_update_keeps_map(*old(self), *self, i as int, record);
                }
            },
            None => {
                self.jobs.push(record);
                proof {
                    lemma_push_keeps_map(*old(self), *self, record);
                }
            },
        }
    }

    /// Absorbs one runner effect into the record named by `id`; an identifier
    /// no longer registered (for instance, already evicted) absorbs nothing.
    pub fn update_record(&mut self, id: &str, effect: RecordEffect, now: u64) -> (found: bool)
        requires
            old(self).wf(),
        ensures
            final(self).wf(),
            found == old(self).contains_id(id@),
            !found ==> *final(self) == *old(self),
            found ==> effect_applied(
                old(self).record_of(id@),
                effect,
                now,
                final(self).record_of(id@),
            ),
            forall|j: Seq<char>| #[trigger]
                final(self).contains_id(j) <==> old(self).contains_id(j),
            forall|j: Seq<char>|
                j != id@ && old(self).contains_id(j) ==> #[trigger] final(self).record_of(j) == old(
                    self,
                ).record_of(j),
    {
        match self.find(id) {
            Some(i) => {
                apply_effect(&mut self.jobs[i], effect, now);
                proof {
                    lemma_update_keeps_map(*old(self), *self, i as int, self.jobs_seq()[i as int]);
                }
                true
            },
            None => false,
        }
    }

    /// Marks the record named by `id` completed if it is still running; a
    /// record already terminal, or an identifier no longer registered, is
    /// left as it is.
    pub fn finalize_record(&mut self, id: &str, now: u64) -> (found: bool)
        requires
            old(self).wf(),
        ensures
            final(self).wf(),
            found == old(self).contains_id(id@),
            !found ==> *final(self) == *old(self),
            found ==> {
                let pre = old(self).record_of(id@);
                let post = final(self).record_of(id@);
                &&& (pre.status() == JobStatus::Running ==> completed_marked(pre, now, post))
                &&& (pre.is_terminal() ==> post == pre)
            },
            forall|j: Seq<char>| #[trigger]
                final(self).contains_id(j) <==> old(self).contains_id(j),
            forall|j: Seq<char>|
                j != id@ && old(self).contains_id(j) ==> #[trigger] final(self).record_of(j) == old(
                    self,
                ).record_of(j),
    {
        match self.find(id) {
            Some(i) => {
                finalize(&mut self.jobs[i], now);
                proof {
                    lemma_update_keeps_map(*old(self), *self, i as int, self.jobs_seq()[i as int]);
                }
                true
            },
            None => false,
        }
    }

    /// Removes every record whose age at `now` exceeds `max_age`, whatever
    /// its status; the kept records are untouched and stay in order.
    pub fn remove_expired(&mut self, now: u64, max_age: u64)
        requires
            old(self).wf(),
        ensures
            final(self).wf(),
            final(self).jobs_seq() == old(self).jobs_seq().filter(keep(now, max_age)),
            forall|id: Seq<char>| #[trigger]
                final(self).contains_id(id) <==> (old(self).contains_id(id) && !expired(
                    old(self).record_of(id),
                    now,
                    max_age,
                )),
            forall|id: Seq<char>| #[trigger]
                final(self).contains_id(id) ==> final(self).record_of(id) == old(self).record_of(
                    id,
                ),
    {
        let ghost orig = self.jobs@;
        let ghost p = keep(now, max_age);
        let ghost mut k: int = 0;
        proof {
            assert(orig.subrange(0, 0).filter(p) =~= Seq::<JobRecord>::empty()) by {
                reveal_with_fuel(Seq::filter, 2);
                assert(orig.subrange(0, 0).len() == 0);
            }
            assert(self.jobs@ =~= orig.subrange(0, 0).filter(p) + orig.subrange(
                0,
                orig.len() as int,
            ));
        }
        let mut i: usize = 0;
        while i < self.jobs.len()
            invariant
                old(self).wf(),
                orig == old(self).jobs_seq(),
                p == keep(now, max_age),
                0 <= k <= orig.len(),
                self.jobs@ == orig.subrange(0, k).filter(p) + orig.subrange(k, orig.len() as int),
                i as int == orig.subrange(0, k).filter(p).len(),
            decreases orig.len() - k,
        {
            proof {
                assert(self.jobs@[i as int] == orig[k]);
                assert(orig.subrange(0, k + 1) =~= orig.subrange(0, k) + seq![orig[k]]);
                Seq::filter_distributes_over_add(orig.subrange(0, k), seq![orig[k]], p);
                lemma_filter_singleton(orig[k], p);
            }
            let created = self.jobs[i].created_at();
            if now > created && now - created > max_age {
                self.jobs.remove(i);
                proof {
                    assert(self.jobs@ =~= orig.subrange(0, k + 1).filter(p) + orig.subrange(
                        k + 1,
                        orig.len() as int,
                    ));
                    k = k + 1;
                }
            } else {
                i += 1;
                proof {
                    assert(orig.subrange(0, k + 1).filter(p) =~= orig.subrange(0, k).filter(
                        p,
                    ).push(orig[k]));
                    assert(self.jobs@ =~= orig.subrange(0, k + 1).filter(p) + orig.subrange(
                        k + 1,
                        orig.len() as int,
                    ));
                    k = k + 1;
                }
            }
        }
        proof {
            assert(k == orig.len());
            assert(orig.subrange(0, orig.len() as int) =~= orig);
            assert(self.jobs@ =~= orig.filter(p));
            lemma_filter_distinct_ids(orig, p);
            assert forall|w: int| 0 <= w < self.jobs_seq().len() implies (
            #[trigger] self.jobs_seq()[w]).wf() by {
                let u = choose|u: int|
                    0 <= u < orig.len() && orig[u] == self.jobs_seq()[w];
                assert(orig[u].wf());
            }
            let post = *self;
            let pre = *old(self);
            assert forall|id: Seq<char>| #[trigger]
                post.contains_id(id) <==> (pre.contains_id(id) && !expired(
                    pre.record_of(id),
                    now,
                    max_age,
                )) by {
                if post.contains_id(id) {
                    post.lemma_index_of(id);
                    let w = post.index_of(id);
                    Seq::lemma_filter_pred(orig, p, w);
                    let u = choose|u: int| 0 <= u < orig.len() && orig[u] == post.jobs_seq()[w];
                    assert(pre.contains_id(id));
                    pre.lemma_index_of(id);
                    assert(pre.index_of(id) == u);
                    assert(!expired(pre.record_of(id), now, max_age));
                }
                if pre.contains_id(id) && !expired(pre.record_of(id), now, max_age) {
                    pre.lemma_index_of(id);
                    let u = pre.index_of(id);
                    Seq::lemma_filter_contains(orig, p, u);
                    let w = choose|w: int|
                        0 <= w < orig.filter(p).len() && orig.filter(p)[w] == orig[u];
                    assert(post.jobs_seq()[w].id() == id);
                    assert(post.contains_id(id));
                }
            }
            assert forall|id: Seq<char>| #[trigger]
                post.contains_id(id) implies post.record_of(id) == pre.record_of(id) by {
                post.lemma_index_of(id);
                let w = post.index_of(id);
                let u = choose|u: int| 0 <= u < orig.len() && orig[u] == post.jobs_seq()[w];
                assert(pre.contains_id(id));
                pre.lemma_index_of(id);
                assert(pre.index_of(id) == u);
            }
        }
    }
}

/// Replacing one record with one carrying the same identifier keeps the
/// registry well formed and every other entry untouched.
proof fn lemma_update_keeps_map(pre: JobRegistry, post: JobRegistry, i: int, v: JobRecord)
    requires
        pre.wf(),
        v.wf(),
        0 <= i < pre.jobs_seq().len(),
        v.id() == pre.jobs_seq()[i].id(),
        post.jobs_seq() == pre.jobs_seq().update(i, v),
    ensures
        post.wf(),
        post.contains_id(v.id()),
        post.record_of(v.id()) == v,
        post.index_of(v.id()) == i,
        forall|j: Seq<char>| #[trigger] post.contains_id(j) <==> pre.contains_id(j),
        forall|j: Seq<char>|
            j != v.id() && pre.contains_id(j) ==> #[trigger] post.record_of(j) == pre.record_of(j),
{
    assert(forall|w: int|
        0 <= w < post.jobs_seq().len() ==> (#[trigger] post.jobs_seq()[w]).id()
            == pre.jobs_seq()[w].id());
    assert(post.wf());
    assert forall|j: Seq<char>| #[trigger] post.contains_id(j) <==> pre.contains_id(j) by {
        if post.contains_id(j) {
            let w = choose|w: int|
                0 <= w < post.jobs_seq().len() && post.jobs_seq()[w].id() == j;
            assert(pre.jobs_seq()[w].id() == j);
        }
        if pre.contains_id(j) {
            let w = choose|w: int| 0 <= w < pre.jobs_seq().len() && pre.jobs_seq()[w].id() == j;
            assert(post.jobs_seq()[w].id() == j);
        }
    }
    assert(post.jobs_seq()[i].id() == v.id());
    assert(post.contains_id(v.id()));
    post.lemma_index_of(v.id());
    assert(post.index_of(v.id()) == i);
    assert forall|j: Seq<char>|
        j != v.id() && pre.contains_id(j) implies #[trigger] post.record_of(j) == pre.record_of(
        j,
    ) by {
        pre.lemma_index_of(j);
        let u = pre.index_of(j);
        assert(u != i);
        assert(post.jobs_seq()[u] == pre.jobs_seq()[u]);
        post.lemma_index_of(j);
        assert(post.index_of(j) == u);
    }
}

/// Appending a record with a fresh identifier keeps the registry well formed
/// and every existing entry untouched.
proof fn lemma_push_keeps_map(pre: JobRegistry, post: JobRegistry, v: JobRecord)
    requires
        pre.wf(),
        v.wf(),
        !pre.contains_id(v.id()),
        post.jobs_seq() == pre.jobs_seq().push(v),
    ensures
        post.wf(),
        post.contains_id(v.id()),
        post.record_of(v.id()) == v,
        forall|j: Seq<char>|
            j != v.id() ==> (#[trigger] post.contains_id(j) <==> pre.contains_id(j)),
        forall|j: Seq<char>|
            j != v.id() && pre.contains_id(j) ==> #[trigger] post.record_of(j) == pre.record_of(j),
{
    let n = pre.jobs_seq().len() as int;
    assert(forall|w: int| 0 <= w < n ==> #[trigger] post.jobs_seq()[w] == pre.jobs_seq()[w]);
    assert(post.jobs_seq()[n] == v);
    assert forall|w: int| 0 <= w < n implies (#[trigger] pre.jobs_seq()[w]).id() != v.id() by {
        if pre.jobs_seq()[w].id() == v.id() {
            assert(pre.contains_id(v.id()));
        }
    }
    assert(post.wf());
    assert(post.contains_id(v.id()));
    post.lemma_index_of(v.id());
    assert(post.index_of(v.id()) == n);
    assert forall|j: Seq<char>|
        j != v.id() implies (#[trigger] post.contains_id(j) <==> pre.contains_id(j)) by {
        if post.contains_id(j) {
            let w = choose|w: int|
                0 <= w < post.jobs_seq().len() && post.jobs_seq()[w].id() == j;
            assert(w != n);
            assert(pre.jobs_seq()[w].id() == j);
        }
        if pre.contains_id(j) {
            let w = choose|w: int| 0 <= w < n && pre.jobs_seq()[w].id() == j;
            assert(post.jobs_seq()[w].id() == j);
        }
    }
    assert forall|j: Seq<char>|
        j != v.id() && pre.contains_id(j) implies #[trigger] post.record_of(j) == pre.record_of(
        j,
    ) by {
        pre.lemma_index_of(j);
        let u = pre.index_of(j);
        assert(post.jobs_seq()[u].id() == j);
        post.lemma_index_of(j);
        assert(post.index_of(j) == u);
    }
}

/// Filtering a sequence with one element keeps it or drops it.
proof fn lemma_filter_singleton(r: JobRecord, p: spec_fn(JobRecord) -> bool)
    ensures
        seq![r].filter(p) == if p(r) {
            seq![r]
        } else {
            Seq::<JobRecord>::empty()
        },
{
    reveal_with_fuel(Seq::filter, 2);
    assert(seq![r].drop_last() =~= Seq::<JobRecord>::empty());
    assert(seq![r].last() == r);
    if p(r) {
        assert(seq![r].filter(p) =~= seq![r]);
    } else {
        assert(seq![r].filter(p) =~= Seq::<JobRecord>::empty());
    }
}

/// A filtered sequence keeps only elements of the original, and keeps
/// identifiers distinct if they were.
proof fn lemma_filter_distinct_ids(s: Seq<JobRecord>, p: spec_fn(JobRecord) -> bool)
    requires
        forall|i: int, j: int| 0 <= i < j < s.len() ==> s[i].id() != s[j].id(),
    ensures
        forall|w: int|
            0 <= w < s.filter(p).len() ==> exists|u: int|
                0 <= u < s.len() && s[u] == #[trigger] s.filter(p)[w],
        forall|i: int, j: int|
            0 <= i < j < s.filter(p).len() ==> s.filter(p)[i].id() != s.filter(p)[j].id(),
    decreases s.len(),
{
    reveal(Seq::filter);
    if s.len() > 0 {
        let d = s.drop_last();
        assert(forall|i: int, j: int| 0 <= i < j < d.len() ==> d[i].id() != d[j].id());
        lemma_filter_distinct_ids(d, p);
        let f = s.filter(p);
        let fd = d.filter(p);
        assert forall|w: int| 0 <= w < f.len() implies exists|u: int|
            0 <= u < s.len() && s[u] == #[trigger] f[w] by {
            if p(s.last()) && w == f.len() - 1 {
                assert(s[s.len() - 1] == f[w]);
            } else {
                assert(f[w] == fd[w]);
                let u = choose|u: int| 0 <= u < d.len() && d[u] == fd[w];
                assert(s[u] == f[w]);
            }
        }
        assert forall|i: int, j: int|
            0 <= i < j < f.len() implies f[i].id() != f[j].id() by {
            if p(s.last()) && j == f.len() - 1 {
                assert(f[i] == fd[i]);
                let u = choose|u: int| 0 <= u < d.len() && d[u] == fd[i];
                assert(s[u].id() != s[s.len() - 1].id());
            } else {
                assert(f[i] == fd[i]);
                assert(f[j] == fd[j]);
            }
        }
    }
}

} // verus!
