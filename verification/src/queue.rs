//! In-process job queue: an insertion-ordered key/job mapping plus a
//! registration-ordered list of one-shot watchers.
//!
//! The queue itself is purely in-memory and performs no delivery I/O:
//! `add` reports, in its result, which watcher (if any) must receive
//! the job, and the surrounding process completes that delivery on the
//! watcher's channel.  This keeps every queue decision verified while
//! the channel send stays at the process edge.

use vstd::prelude::*;
use crate::job::Job;

verus! {

/// One stored entry: a caller-chosen key mapped to a job.  Keys are
/// not used for deduplication, only for later lookup or cancellation.
pub struct QueueEntry {
    pub key: String,
    pub job: Job,
}

/// What `LocalQueue::add` did with the job.
pub enum AddOutcome {
    /// No watcher was waiting; the job is stored.
    Stored,
    /// The oldest waiting watcher takes the job instead of the store;
    /// the caller completes the delivery on that watcher's channel.
    Deliver { watcher: u64, job: Job },
}

/// Whether some entry carries `key`.
pub open spec fn contains_key(s: Seq<QueueEntry>, key: Seq<char>) -> bool {
    exists|i: int| 0 <= i < s.len() && s[i].key@ == key
}

/// The first position carrying `key`, or `-1` when none does.
pub open spec fn first_key_index(s: Seq<QueueEntry>, key: Seq<char>) -> int
    decreases s.len(),
{
    if s.len() == 0 {
        -1
    } else if s[0].key@ == key {
        0
    } else {
        let r = first_key_index(s.skip(1), key);
        if r < 0 {
            -1
        } else {
            r + 1
        }
    }
}

/// The entries after an unconditional insert: last write wins on a key
/// collision, and a replaced entry keeps its original position.
pub open spec fn entries_after_add(s: Seq<QueueEntry>, key: Seq<char>, e: QueueEntry) -> Seq<
    QueueEntry,
> {
    if contains_key(s, key) {
        s.update(first_key_index(s, key), e)
    } else {
        s.push(e)
    }
}

/// All keys are pairwise distinct.
pub open spec fn distinct_keys(s: Seq<QueueEntry>) -> bool {
    forall|i: int, j: int| 0 <= i < j < s.len() ==> s[i].key@ != s[j].key@
}

/// `first_key_index` finds exactly the first match: a position whose
/// earlier entries all miss `key` and that itself hits it.
proof fn lemma_first_key_index_at(s: Seq<QueueEntry>, key: Seq<char>, i: int)
    requires
        0 <= i < s.len(),
        s[i].key@ == key,
        forall|j: int| 0 <= j < i ==> s[j].key@ != key,
    ensures
        first_key_index(s, key) == i,
    decreases s.len(),
{
    if i > 0 {
        assert(forall|j: int| 0 <= j < i - 1 ==> s.skip(1)[j].key@ != key);
        lemma_first_key_index_at(s.skip(1), key, i - 1);
    }
}

/// When no entry carries `key`, `first_key_index` reports `-1`.
proof fn lemma_first_key_index_absent(s: Seq<QueueEntry>, key: Seq<char>)
    requires
        !contains_key(s, key),
    ensures
        first_key_index(s, key) == -1,
    decreases s.len(),
{
    if s.len() > 0 {
        assert(!contains_key(s.skip(1), key)) by {
            assert forall|i: int| 0 <= i < s.skip(1).len() implies s.skip(1)[i].key@
                != key by {
                assert(s.skip(1)[i] == s[i + 1]);
            }
        }
        lemma_first_key_index_absent(s.skip(1), key);
    }
}

/// When some entry carries `key`, `first_key_index` lands on the
/// first of them.
proof fn lemma_first_key_index_found(s: Seq<QueueEntry>, key: Seq<char>)
    requires
        contains_key(s, key),
    ensures
        0 <= first_key_index(s, key) < s.len(),
        s[first_key_index(s, key)].key@ == key,
        forall|j: int| 0 <= j < first_key_index(s, key) ==> s[j].key@ != key,
    decreases s.len(),
{
    if s.len() > 0 && s[0].key@ != key {
        let i = choose|i: int| 0 <= i < s.len() && s[i].key@ == key;
        assert(s.skip(1)[i - 1].key@ == key);
        lemma_first_key_index_found(s.skip(1), key);
        assert forall|j: int| 0 <= j < first_key_index(s, key) implies s[j].key@ != key by {
            if j > 0 {
                assert(s[j] == s.skip(1)[j - 1]);
            }
        }
    }
}

/// Storing under a fresh or replaced key keeps all keys distinct, so
/// distinctness is an invariant of every `add` that stores.
pub proof fn lemma_add_preserves_distinct(s: Seq<QueueEntry>, key: Seq<char>, e: QueueEntry)
    requires
        distinct_keys(s),
        e.key@ == key,
    ensures
        distinct_keys(entries_after_add(s, key, e)),
{
    if contains_key(s, key) {
        lemma_first_key_index_found(s, key);
        let i = first_key_index(s, key);
        let t = s.update(i, e);
        assert forall|p: int, q: int| 0 <= p < q < t.len() implies t[p].key@ != t[q].key@ by {
            if p != i && q != i {
                assert(t[p] == s[p] && t[q] == s[q]);
            } else if p == i {
                assert(t[q] == s[q]);
            } else {
                assert(t[p] == s[p]);
            }
        }
    } else {
        let t = s.push(e);
        assert forall|p: int, q: int| 0 <= p < q < t.len() implies t[p].key@ != t[q].key@ by {
            if q == s.len() {
                assert(t[p] == s[p]);
            } else {
                assert(t[p] == s[p] && t[q] == s[q]);
            }
        }
    }
}

/// Law: with distinct keys, `remove` hands out the oldest stored
/// entry, the remaining store stays distinct, and no entry with the
/// removed key is left — so no later `remove` can return it again.
pub proof fn lemma_remove_head(s: Seq<QueueEntry>)
    requires
        distinct_keys(s),
        s.len() > 0,
    ensures
        distinct_keys(s.skip(1)),
        !contains_key(s.skip(1), s[0].key@),
    decreases s.len(),
{
    assert forall|p: int, q: int| 0 <= p < q < s.skip(1).len() implies s.skip(1)[p].key@
        != s.skip(1)[q].key@ by {
        assert(s.skip(1)[p] == s[p + 1] && s.skip(1)[q] == s[q + 1]);
    }
    assert forall|i: int| 0 <= i < s.skip(1).len() implies s.skip(1)[i].key@ != s[0].key@ by {
        assert(s.skip(1)[i] == s[i + 1]);
    }
}

/// Law: a watcher registered while the queue is empty is first in
/// line, so the next `add` (whose contract serves `watchers()[0]` and
/// stores nothing) delivers its job to exactly that watcher, and no
/// later `remove` can return that job.
pub proof fn lemma_watcher_gets_next_add(watchers: Seq<u64>, w: u64)
    requires
        watchers.len() == 0,
    ensures
        watchers.push(w).len() == 1,
        watchers.push(w)[0] == w,
        watchers.push(w).skip(1) == watchers,
{
    assert(watchers.push(w).skip(1) =~= watchers);
}

/// Law: two watchers registered before any `add` are served in
/// registration order: the first `add` finds the earlier watcher at
/// the head, and the second `add` finds the later one.
pub proof fn lemma_two_watchers_in_order(watchers: Seq<u64>, w1: u64, w2: u64)
    requires
        watchers.len() == 0,
    ensures
        watchers.push(w1).push(w2)[0] == w1,
        watchers.push(w1).push(w2).skip(1) == watchers.push(w2),
        watchers.push(w2)[0] == w2,
        watchers.push(w2).skip(1) == watchers,
{
    assert(watchers.push(w1).push(w2).skip(1) =~= watchers.push(w2));
    assert(watchers.push(w2).skip(1) =~= watchers);
}

/// The in-process store of pending jobs.  All mutation goes through
/// `&mut self`, so a surrounding exclusive-access boundary (one lock
/// around the whole queue) serializes concurrent callers.
pub struct LocalQueue {
    entries: Vec<QueueEntry>,
    watchers: Vec<u64>,
}

impl LocalQueue {
    /// The stored entries, in insertion order.
    pub closed spec fn entries(&self) -> Seq<QueueEntry> {
        self.entries@
    }

    /// The pending watchers, in registration order.
    pub closed spec fn watchers(&self) -> Seq<u64> {
        self.watchers@
    }

    /// A fresh queue holds no entries and no watchers.
    pub fn new() -> (q: LocalQueue)
        ensures
            q.entries() == Seq::<QueueEntry>::empty(),
            q.watchers() == Seq::<u64>::empty(),
    {
        LocalQueue { entries: Vec::new(), watchers: Vec::new() }
    }

    /// Inserts unconditionally.  If a watcher is pending, the job goes
    /// to the oldest one instead of the store — exactly one delivery
    /// per call; otherwise it is stored, last write winning on a key
    /// collision.
    pub fn add(&mut self, key: String, job: Job) -> (out: AddOutcome)
        ensures
            old(self).watchers().len() > 0 ==> {
                &&& final(self).entries() == old(self).entries()
                &&& final(self).watchers() == old(self).watchers().skip(1)
                &&& out == (AddOutcome::Deliver { watcher: old(self).watchers()[0], job })
            },
            old(self).watchers().len() == 0 ==> {
                &&& final(self).watchers() == old(self).watchers()
                &&& final(self).entries() == entries_after_add(
                    old(self).entries(),
                    key@,
                    (QueueEntry { key, job }),
                )
                &&& out == AddOutcome::Stored
            },
            distinct_keys(old(self).entries()) ==> distinct_keys(final(self).entries()),
    {
        if self.watchers.len() > 0 {
            let watcher = self.watchers.remove(0);
            return AddOutcome::Deliver { watcher, job };
        }
        let mut i: usize = 0;
        while i < self.entries.len()
            invariant
                i <= self.entries.len(),
                forall|j: int| 0 <= j < i ==> self.entries@[j].key@ != key@,
                self.entries == old(self).entries,
                self.watchers == old(self).watchers,
                self.watchers@.len() == 0,
            decreases self.entries.len() - i,
        {
            if self.entries[i].key == key {
                proof {
                    lemma_first_key_index_at(self.entries@, key@, i as int);
                    if distinct_keys(self.entries@) {
                        lemma_add_preserves_distinct(self.entries@, key@, (QueueEntry { key, job }));
                    }
                }
                self.entries[i] = QueueEntry { key, job };
                return AddOutcome::Stored;
            }
            i = i + 1;
        }
        proof {
            lemma_first_key_index_absent(self.entries@, key@);
            if distinct_keys(self.entries@) {
                lemma_add_preserves_distinct(self.entries@, key@, (QueueEntry { key, job }));
            }
        }
        self.entries.push(QueueEntry { key, job });
        AddOutcome::Stored
    }

    /// Removes and returns the oldest stored job, if any; never blocks.
    pub fn remove(&mut self) -> (r: Option<Job>)
        ensures
            final(self).watchers() == old(self).watchers(),
            old(self).entries().len() == 0 ==> {
                &&& r is None
                &&& final(self).entries() == old(self).entries()
            },
            old(self).entries().len() > 0 ==> {
                &&& r == Some(old(self).entries()[0].job)
                &&& final(self).entries() == old(self).entries().skip(1)
            },
            distinct_keys(old(self).entries()) ==> {
                &&& distinct_keys(final(self).entries())
                &&& old(self).entries().len() > 0 ==> !contains_key(
                    final(self).entries(),
                    old(self).entries()[0].key@,
                )
            },
    {
        if self.entries.len() > 0 {
            let entry = self.entries.remove(0);
            assert(self.entries@ =~= old(self).entries@.skip(1));
            proof {
                if distinct_keys(old(self).entries@) {
                    lemma_remove_head(old(self).entries@);
                }
            }
            Some(entry.job)
        } else {
            None
        }
    }

    /// Records a one-shot watcher, to be fulfilled by a future `add`;
    /// watchers queue in registration order.
    pub fn register_watcher(&mut self, watcher: u64)
        ensures
            final(self).entries() == old(self).entries(),
            final(self).watchers() == old(self).watchers().push(watcher),
    {
        self.watchers.push(watcher);
    }
}

/// The consumer endpoint's decision on one removal request.
pub enum RemoveOutcome {
    /// A stored job was removed and is returned to the caller.
    Removed { job: Job },
    /// The queue was empty and the caller asked to long-poll: the
    /// given watcher is now registered and the caller should wait on
    /// its channel.
    Wait,
    /// The queue was empty and the caller did not ask to long-poll.
    Empty,
}

/// One removal request against the queue: a stored job wins; an empty
/// queue either registers `watcher` (long poll) or reports empty.
pub fn remove_from_queue(queue: &mut LocalQueue, long_poll: bool, watcher: u64) -> (out:
    RemoveOutcome)
    ensures
        old(queue).entries().len() > 0 ==> {
            &&& out == (RemoveOutcome::Removed { job: old(queue).entries()[0].job })
            &&& final(queue).entries() == old(queue).entries().skip(1)
            &&& final(queue).watchers() == old(queue).watchers()
        },
        old(queue).entries().len() == 0 && long_poll ==> {
            &&& out == RemoveOutcome::Wait
            &&& final(queue).entries() == old(queue).entries()
            &&& final(queue).watchers() == old(queue).watchers().push(watcher)
        },
        old(queue).entries().len() == 0 && !long_poll ==> {
            &&& out == RemoveOutcome::Empty
            &&& final(queue).entries() == old(queue).entries()
            &&& final(queue).watchers() == old(queue).watchers()
        },
{
    match queue.remove() {
        Some(job) => RemoveOutcome::Removed { job },
        None => {
            if long_poll {
                queue.register_watcher(watcher);
                RemoveOutcome::Wait
            } else {
                RemoveOutcome::Empty
            }
        },
    }
}

} // verus!

