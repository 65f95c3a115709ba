//! Offline sync: the bounded queue of responses waiting for the backend and
//! the bookkeeping of a sync run. The caller performs the network and
//! storage work between the steps and hands each outcome back.

use vstd::prelude::*;
use std::collections::VecDeque;
use crate::text::{concat, owned, str_eq};

verus! {

/// The most responses the queue holds; adding to a full queue drops the
/// oldest.
pub const MAX_QUEUE_SIZE: usize = 1000;

/// The most responses pushed to the backend at once.
pub const SYNC_BATCH_SIZE: usize = 50;

/// Responses waiting to be pushed, oldest first.
pub struct SyncQueue<T> {
    pub items: VecDeque<T>,
}

impl<T> SyncQueue<T> {
    /// The queue never holds more than its limit.
    pub open spec fn wf(&self) -> bool {
        self.items@.len() <= MAX_QUEUE_SIZE
    }

    /// An empty queue.
    pub fn new() -> (r: Self)
        ensures
            r.wf(),
            r.items@.len() == 0,
    {
        SyncQueue { items: VecDeque::with_capacity(MAX_QUEUE_SIZE) }
    }

    /// Queues a response, dropping the oldest when the queue is full.
    pub fn add_to_queue(&mut self, response: T)
        requires
            old(self).wf(),
        ensures
            final(self).wf(),
            final(self).items@ == if old(self).items@.len() >= MAX_QUEUE_SIZE {
                old(self).items@.drop_first()
            } else {
                old(self).items@
            }.push(response),
    {
        if self.items.len() >= MAX_QUEUE_SIZE {
            self.items.pop_front();
        }
        self.items.push_back(response);
    }

    /// Queues stored responses in order, as far as room is left.
    pub fn load_from_storage(&mut self, pending: Vec<T>)
        requires
            old(self).wf(),
        ensures
            final(self).wf(),
            final(self).items@ == old(self).items@ + pending@.take(
                if pending@.len() <= MAX_QUEUE_SIZE - old(self).items@.len() {
                    pending@.len() as int
                } else {
                    MAX_QUEUE_SIZE - old(self).items@.len()
                },
            ),
    {
        let ghost start = self.items@;
        let ghost room: int = MAX_QUEUE_SIZE - start.len();
        let mut remaining = pending;
        let ghost all = remaining@;
        let total = remaining.len();
        let mut taken: usize = 0;
        proof {
            assert(start + all.take(0) =~= start);
            assert(all.skip(0) =~= all);
        }
        while taken < total
            invariant
                total == all.len(),
                start.len() <= MAX_QUEUE_SIZE,
                room == MAX_QUEUE_SIZE - start.len(),
                taken <= all.len(),
                remaining@ == all.skip(taken as int),
                self.items@ == start + all.take(if taken <= room { taken as int } else { room }),
                self.items@.len() <= MAX_QUEUE_SIZE,
            decreases all.len() - taken,
        {
            let item = remaining.remove(0);
            proof {
                assert(item == all[taken as int]);
                assert(all.skip(taken as int).drop_first() =~= all.skip(taken + 1));
            }
            if self.items.len() < MAX_QUEUE_SIZE {
                self.items.push_back(item);
                proof {
                    assert(all.take(taken + 1) =~= all.take(taken as int).push(all[taken as int]));
                }
            }
            taken = taken + 1;
        }
    }

    /// Takes the next batch, oldest first, off the queue.
    pub fn get_next_batch(&mut self) -> (batch: Vec<T>)
        ensures
            batch@ == old(self).items@.take(
                if old(self).items@.len() < SYNC_BATCH_SIZE {
                    old(self).items@.len() as int
                } else {
                    SYNC_BATCH_SIZE as int
                },
            ),
            final(self).items@ == old(self).items@.skip(batch@.len() as int),
            old(self).wf() ==> final(self).wf(),
    {
        let mut batch: Vec<T> = Vec::new();
        let ghost start = self.items@;
        let mut k: usize = 0;
        while k < SYNC_BATCH_SIZE
            invariant_except_break
                k <= SYNC_BATCH_SIZE,
                k <= start.len(),
                batch@ == start.take(k as int),
                self.items@ == start.skip(k as int),
            ensures
                batch@ == start.take(
                    if start.len() < SYNC_BATCH_SIZE {
                        start.len() as int
                    } else {
                        SYNC_BATCH_SIZE as int
                    },
                ),
                self.items@ == start.skip(batch@.len() as int),
            decreases SYNC_BATCH_SIZE - k,
        {
            match self.items.pop_front() {
                Some(response) => {
                    proof {
                        assert(response == start[k as int]);
                        assert(start.skip(k as int).drop_first() =~= start.skip(k + 1));
                        assert(start.take(k + 1) =~= start.take(k as int).push(response));
                    }
                    batch.push(response);
                    k = k + 1;
                },
                None => {
                    assert(k == start.len());
                    assert(start.take(k as int) =~= start);
                    break;
                },
            }
        }
        batch
    }

    /// The number of queued responses.
    pub fn get_queue_size(&self) -> (r: usize)
        ensures
            r == self.items@.len(),
    {
        self.items.len()
    }

    /// Empties the queue.
    pub fn clear_queue(&mut self)
        ensures
            final(self).wf(),
            final(self).items@.len() == 0,
    {
        self.items.clear();
    }
}

/// Taking a batch off the queue loses nothing and keeps the order: the batch
/// followed by what is left is the queue as it was.
pub proof fn lemma_batch_keeps_order<T>(before: Seq<T>, batch: Seq<T>, after: Seq<T>)
    requires
        batch == before.take(
            if before.len() < SYNC_BATCH_SIZE {
                before.len() as int
            } else {
                SYNC_BATCH_SIZE as int
            },
        ),
        after == before.skip(batch.len() as int),
    ensures
        batch + after == before,
        batch.len() <= SYNC_BATCH_SIZE,
{
    assert(batch + after =~= before);
}

/// The outcome of a sync run.
#[derive(Debug)]
pub struct SyncResult {
    pub synced_count: usize,
    pub failed_count: usize,
    pub remaining_count: usize,
    pub errors: Vec<String>,
}

/// The result of a run that did not start: nothing pushed, one error.
pub open spec fn refused(r: SyncResult, remaining: usize, error: Seq<char>) -> bool {
    &&& r.synced_count == 0
    &&& r.failed_count == 0
    &&& r.remaining_count == remaining
    &&& r.errors@.len() == 1
    &&& r.errors@[0]@ == error
}

/// The result of a run refused because another is under way.
pub fn already_syncing(remaining: usize) -> (r: SyncResult)
    ensures
        refused(r, remaining, "Sync already in progress"@),
{
    let mut errors: Vec<String> = Vec::new();
    errors.push(owned("Sync already in progress"));
    SyncResult { synced_count: 0, failed_count: 0, remaining_count: remaining, errors }
}

/// The result of a run refused because no backend client is configured.
pub fn no_client(remaining: usize) -> (r: SyncResult)
    ensures
        refused(r, remaining, "No API client configured"@),
{
    let mut errors: Vec<String> = Vec::new();
    errors.push(owned("No API client configured"));
    SyncResult { synced_count: 0, failed_count: 0, remaining_count: remaining, errors }
}

/// What the backend answered for one batch.
#[derive(Debug)]
pub enum BatchOutcome {
    /// The backend took the batch and reported how it went.
    Pushed { synced_count: usize, failed_count: usize, errors: Vec<String> },
    /// The request failed, with this message.
    Failed(String),
}

/// The counts and errors of a sync run so far.
#[derive(Debug)]
pub struct SyncRun {
    pub synced_count: usize,
    pub failed_count: usize,
    pub errors: Vec<String>,
}

impl SyncRun {
    /// A run that has pushed nothing yet.
    pub fn new() -> (r: Self)
        ensures
            r.synced_count == 0,
            r.failed_count == 0,
            r.errors@.len() == 0,
    {
        SyncRun { synced_count: 0, failed_count: 0, errors: Vec::new() }
    }

    /// Records the backend's answer for a batch of `batch_len` responses.
    /// Returns how many responses at the front of the batch were synced (and
    /// can leave storage) and whether the run goes on: a failed request
    /// counts the whole batch as failed and ends the run.
    pub fn record_batch(&mut self, batch_len: usize, outcome: BatchOutcome) -> (r: (usize, bool))
        requires
            outcome matches BatchOutcome::Pushed { synced_count, failed_count, .. } ==> synced_count <= batch_len
                && old(self).synced_count + synced_count <= usize::MAX && old(self).failed_count + failed_count
                <= usize::MAX,
            outcome is Failed ==> old(self).failed_count + batch_len <= usize::MAX,
        ensures
            match outcome {
                BatchOutcome::Pushed { synced_count, failed_count, errors } => {
                    &&& r == (synced_count, true)
                    &&& final(self).synced_count == old(self).synced_count + synced_count
                    &&& final(self).failed_count == old(self).failed_count + failed_count
                    &&& final(self).errors@ == old(self).errors@ + errors@
                },
                BatchOutcome::Failed(message) => {
                    &&& r == (0usize, false)
                    &&& final(self).synced_count == old(self).synced_count
                    &&& final(self).failed_count == old(self).failed_count + batch_len
                    &&& final(self).errors@.len() == old(self).errors@.len() + 1
                    &&& final(self).errors@.drop_last() == old(self).errors@
                    &&& final(self).errors@.last()@ == "Batch sync failed: "@ + message@
                },
            },
    {
        match outcome {
            BatchOutcome::Pushed { synced_count, failed_count, errors } => {
                self.synced_count = self.synced_count + synced_count;
                self.failed_count = self.failed_count + failed_count;
                let mut more = errors;
                self.errors.append(&mut more);
                (synced_count, true)
            },
            BatchOutcome::Failed(message) => {
                self.errors.push(concat("Batch sync failed: ", message.as_str()));
                self.failed_count = self.failed_count + batch_len;
                assert(self.errors@.drop_last() =~= old(self).errors@);
                (0, false)
            },
        }
    }

    /// The result of the finished run, with `remaining` responses left.
    pub fn finish(self, remaining: usize) -> (r: SyncResult)
        ensures
            r.synced_count == self.synced_count,
            r.failed_count == self.failed_count,
            r.remaining_count == remaining,
            r.errors == self.errors,
    {
        SyncResult {
            synced_count: self.synced_count,
            failed_count: self.failed_count,
            remaining_count: remaining,
            errors: self.errors,
        }
    }
}

/// Whether the background task starts a run: responses are waiting and no
/// run is under way.
pub fn should_start_background_sync(queue_size: usize, syncing: bool) -> (r: bool)
    ensures
        r == (queue_size > 0 && !syncing),
{
    queue_size > 0 && !syncing
}

/// Where a remote update of the given type is stored; unknown types are
/// not stored.
pub open spec fn update_store_key(update_type: Seq<char>) -> Option<Seq<char>> {
    if update_type == "learner_model"@ {
        Some("learner_model"@)
    } else if update_type == "achievement"@ {
        Some("achievements"@)
    } else if update_type == "session_summary"@ {
        Some("session_summaries"@)
    } else {
        None
    }
}

/// Where a remote update of the given type is stored.
pub fn storage_key_for_update(update_type: &str) -> (r: Option<&'static str>)
    ensures
        match r {
            Some(k) => update_store_key(update_type@) == Some(k@),
            None => update_store_key(update_type@) is None,
        },
{
    if str_eq(update_type, "learner_model") {
        Some("learner_model")
    } else if str_eq(update_type, "achievement") {
        Some("achievements")
    } else if str_eq(update_type, "session_summary") {
        Some("session_summaries")
    } else {
        None
    }
}

} // verus!
