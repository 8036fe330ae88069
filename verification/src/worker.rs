//! The worker side of the state machine: taking the next pending id off
//! the queue, marking a job Processing, and resolving the outcome of one
//! execution attempt. A worker task drives these operations in a loop from
//! outside, interleaving them with the actual (unverified) execution of
//! the work.

use vstd::prelude::*;

use crate::models::{completed_job, failed_job, processing_job, requeued_job, JobStatus};
use crate::state::AppState;

verus! {

/// Relation between the states before and after one dequeue: the registry
/// and the counter are untouched; the head of the queue, if any, is
/// removed and returned.
pub open spec fn dequeued(pre: AppState, post: AppState, r: Option<u64>) -> bool {
    &&& post.job_counter == pre.job_counter
    &&& post.max_retries == pre.max_retries
    &&& post.jobs@ == pre.jobs@
    &&& match r {
        Some(id) => pre.queue@.len() > 0 && id == pre.queue@[0] && post.queue@
            == pre.queue@.drop_first(),
        None => pre.queue@.len() == 0 && post.queue@ == pre.queue@,
    }
}

/// Relation between the states before and after marking a job Processing:
/// the queue and the counter are untouched; if the id was registered (it
/// was, under correct use, just dequeued and therefore Queued), the job
/// becomes Processing with the attempt's start time recorded, and every
/// other job is unchanged.
pub open spec fn processing_marked(
    pre: AppState,
    post: AppState,
    id: u64,
    now: u64,
    found: bool,
) -> bool {
    &&& post.job_counter == pre.job_counter
    &&& post.max_retries == pre.max_retries
    &&& post.queue@ == pre.queue@
    &&& found == pre.jobs@.contains_key(id)
    &&& if found {
        &&& pre.jobs@[id].status is Queued
        &&& !pre.queue@.contains(id)
        &&& now >= pre.jobs@[id].created_at
        &&& post.jobs@ == pre.jobs@.insert(id, processing_job(pre.jobs@[id], now))
    } else {
        post.jobs@ == pre.jobs@
    }
}

/// Relation between the states before and after resolving one execution
/// attempt: the counter is untouched; if the id was registered (under
/// correct use it is the job this worker is processing), then on success
/// the job is Completed with its completion time recorded; on failure with
/// retry budget remaining it returns to Queued with one more retry
/// consumed and its id re-joins the tail of the queue; on failure with the
/// budget exhausted it is terminally Failed with the given reason. Every
/// other job is unchanged.
pub open spec fn resolved(
    pre: AppState,
    post: AppState,
    id: u64,
    failed: bool,
    reason: String,
    now: u64,
    found: bool,
) -> bool {
    &&& post.job_counter == pre.job_counter
    &&& post.max_retries == pre.max_retries
    &&& found == pre.jobs@.contains_key(id)
    &&& if found {
        let j = pre.jobs@[id];
        &&& j.status is Processing
        &&& now >= j.started_at.unwrap()
        &&& if !failed {
            &&& post.jobs@ == pre.jobs@.insert(id, completed_job(j, now))
            &&& post.queue@ == pre.queue@
        } else if j.retry_count < j.max_retries {
            &&& post.jobs@ == pre.jobs@.insert(id, requeued_job(j))
            &&& post.queue@ == pre.queue@.push(id)
        } else {
            &&& post.jobs@ == pre.jobs@.insert(id, failed_job(j, reason))
            &&& post.queue@ == pre.queue@
        }
    } else {
        &&& post.jobs@ == pre.jobs@
        &&& post.queue@ == pre.queue@
    }
}

impl AppState {
    /// Worker step: removes and returns the head of the FIFO queue, or
    /// `None` without blocking when the queue is empty. A returned id is
    /// registered, Queued, and no longer anywhere in the queue.
    pub fn dequeue(&mut self) -> (r: Option<u64>)
        requires
            old(self).wf(),
        ensures
            final(self).wf(),
            dequeued(*old(self), *final(self), r),
            r is Some ==> {
                &&& final(self).jobs@.contains_key(r.unwrap())
                &&& final(self).jobs@[r.unwrap()].status is Queued
                &&& !final(self).queue@.contains(r.unwrap())
            },
    {
        let r = self.queue.pop_front();
        proof {
            if r is Some {
                let id = r.unwrap();
                assert(old(self).queue@[0] == id);
                assert forall|i: int| 0 <= i < self.queue@.len() implies self.queue@[i]
                    != id by {
                    assert(self.queue@[i] == old(self).queue@[i + 1]);
                }
            }
        }
        r
    }

    /// Worker step: transition a just-dequeued job from Queued to
    /// Processing and record the attempt's start time. Returns whether the
    /// id was registered; an unregistered id (which cannot arise from a
    /// dequeue) leaves the state unchanged.
    pub fn mark_processing(&mut self, id: u64, now: u64) -> (found: bool)
        requires
            old(self).wf(),
            old(self).jobs@.contains_key(id) ==> {
                &&& old(self).jobs@[id].status is Queued
                &&& !old(self).queue@.contains(id)
                &&& now >= old(self).jobs@[id].created_at
            },
        ensures
            final(self).wf(),
            processing_marked(*old(self), *final(self), id, now, found),
    {
        match self.get_job(id) {
            Some(job) => {
                let mut updated = job;
                updated.status = JobStatus::Processing;
                updated.started_at = Some(now);
                self.jobs.insert(id, updated);
                proof {
                    assert forall|i: int| 0 <= i < self.queue@.len() implies self.queue@[i]
                        != id by {
                        assert(self.queue@.contains(self.queue@[i]));
                    }
                }
                true
            },
            None => false,
        }
    }

    /// Worker step: record the outcome of one execution attempt on the job
    /// this worker is processing. Success completes the job; a failure
    /// consumes a retry and re-queues the job while budget remains, and
    /// otherwise marks it permanently Failed with `reason`. Returns
    /// whether the id was registered; an unregistered id leaves the state
    /// unchanged.
    pub fn resolve(&mut self, id: u64, failed: bool, reason: String, now: u64) -> (found: bool)
        requires
            old(self).wf(),
            old(self).jobs@.contains_key(id) ==> {
                &&& old(self).jobs@[id].status is Processing
                &&& now >= old(self).jobs@[id].started_at.unwrap()
            },
        ensures
            final(self).wf(),
            resolved(*old(self), *final(self), id, failed, reason, now, found),
    {
        match self.get_job(id) {
            Some(job) => {
                proof {
                    assert forall|i: int| 0 <= i < self.queue@.len() implies self.queue@[i]
                        != id by {
                        assert(self.queue@.contains(self.queue@[i]));
                    }
                }
                let mut updated = job;
                if !failed {
                    updated.status = JobStatus::Completed;
                    updated.completed_at = Some(now);
                    self.jobs.insert(id, updated);
                } else if updated.retry_count < updated.max_retries {
                    updated.status = JobStatus::Queued;
                    updated.retry_count = updated.retry_count + 1;
                    updated.started_at = None;
                    updated.failed_reason = None;
                    self.jobs.insert(id, updated);
                    self.queue.push_back(id);
                } else {
                    updated.status = JobStatus::Failed;
                    updated.failed_reason = Some(reason);
                    self.jobs.insert(id, updated);
                }
                true
            },
            None => false,
        }
    }
}

/// Relies on std::time::SystemTime::now for the wall clock; returns whole
/// seconds since the Unix epoch, and 0 when the clock reads earlier than
/// the epoch. Nothing is promised of the value: the clock is outside the
/// program.
#[verifier::external_body]
fn system_clock_unix_seconds() -> u64 {
    match std::time::SystemTime::now().duration_since(std::time::UNIX_EPOCH) {
        Ok(d) => d.as_secs(),
        Err(_) => 0,
    }
}

/// The wall-clock time a caller stamps transitions with: whole seconds
/// since the Unix epoch. The clock is outside the program, so no value is
/// promised; the state operations only ask their callers not to pass a
/// time earlier than the stamps already recorded.
pub fn get_current_timestamp() -> u64 {
    system_clock_unix_seconds()
}

} // verus!
