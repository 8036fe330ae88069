//! The job record: its fields, its invariant, and the per-job state machine.

use vstd::prelude::*;

verus! {

/// Lifecycle states of a job. Queued and Processing are transient;
/// Completed and Failed are terminal.
#[derive(Clone, Copy, Debug, PartialEq, Eq, Structural)]
pub enum JobStatus {
    Queued,
    Processing,
    Completed,
    Failed,
}

/// A submission request: the caller-supplied name for a new job. The name
/// is an opaque label; the core never interprets it.
pub struct JobRequest {
    pub name: String,
}

/// The unit of trackable work. Timestamps are whole seconds since the Unix
/// epoch; `started_at` is cleared whenever the job is re-queued for retry.
pub struct Job {
    pub id: u64,
    pub name: String,
    pub status: JobStatus,
    pub retry_count: u32,
    pub max_retries: u32,
    pub created_at: u64,
    pub started_at: Option<u64>,
    pub completed_at: Option<u64>,
    pub failed_reason: Option<String>,
}

impl Job {
    /// Well-formedness of a single job record: the retry budget is never
    /// exceeded, a Failed job has exactly exhausted its budget and carries a
    /// reason, the optional timestamps are present exactly in the states
    /// that set them, and the timestamps are ordered.
    pub open spec fn inv(self) -> bool {
        &&& self.retry_count <= self.max_retries
        &&& (self.status is Failed ==> self.retry_count == self.max_retries)
        &&& ((self.failed_reason is Some) <==> self.status is Failed)
        &&& ((self.completed_at is Some) <==> self.status is Completed)
        &&& ((self.started_at is Some) <==> !(self.status is Queued))
        &&& (self.started_at is Some ==> self.created_at <= self.started_at.unwrap())
        &&& (self.completed_at is Some ==> self.started_at.unwrap() <= self.completed_at.unwrap())
    }
}

impl Clone for Job {
    /// A snapshot: an exact copy of the record, safe to hand to readers.
    fn clone(&self) -> (res: Self)
        ensures
            res == *self,
    {
        Job {
            id: self.id,
            name: self.name.clone(),
            status: self.status,
            retry_count: self.retry_count,
            max_retries: self.max_retries,
            created_at: self.created_at,
            started_at: self.started_at,
            completed_at: self.completed_at,
            failed_reason: (match &self.failed_reason {
                Some(r) => Some(r.clone()),
                None => None,
            }),
        }
    }
}

/// The record a submission creates: Queued, with an untouched retry budget
/// and no attempt started yet.
pub open spec fn fresh_job(id: u64, name: String, max_retries: u32, now: u64) -> Job {
    Job {
        id,
        name,
        status: JobStatus::Queued,
        retry_count: 0,
        max_retries,
        created_at: now,
        started_at: None,
        completed_at: None,
        failed_reason: None,
    }
}

/// The record after a worker takes the job: Processing, with the attempt's
/// start time recorded.
pub open spec fn processing_job(j: Job, now: u64) -> Job {
    Job { status: JobStatus::Processing, started_at: Some(now), ..j }
}

/// The record after a successful attempt: Completed, with the completion
/// time recorded. Terminal.
pub open spec fn completed_job(j: Job, now: u64) -> Job {
    Job { status: JobStatus::Completed, completed_at: Some(now), ..j }
}

/// The record after a failed attempt with retry budget remaining: back to
/// Queued, one more retry consumed, the attempt's start time and any
/// failure reason cleared.
pub open spec fn requeued_job(j: Job) -> Job {
    Job {
        status: JobStatus::Queued,
        retry_count: (j.retry_count + 1) as u32,
        started_at: None,
        failed_reason: None,
        ..j
    }
}

/// The record after a failed attempt with the budget exhausted: Failed,
/// with the cause recorded. Terminal.
pub open spec fn failed_job(j: Job, reason: String) -> Job {
    Job { status: JobStatus::Failed, failed_reason: Some(reason), ..j }
}

/// One legal edge of the per-job state machine: a job leaves Queued only
/// for Processing, and leaves Processing for Completed, for Queued again
/// (consuming one retry while budget remains), or for Failed (only with the
/// budget exactly exhausted). Identity, name, budget and creation time
/// never change.
pub open spec fn job_step_allowed(pre: Job, post: Job) -> bool {
    &&& post.id == pre.id
    &&& post.name == pre.name
    &&& post.max_retries == pre.max_retries
    &&& post.created_at == pre.created_at
    &&& {
        ||| (pre.status is Queued && post.status is Processing && post.retry_count
            == pre.retry_count)
        ||| (pre.status is Processing && post.status is Completed && post.retry_count
            == pre.retry_count)
        ||| (pre.status is Processing && post.status is Queued && pre.retry_count
            < pre.max_retries && post.retry_count == pre.retry_count + 1)
        ||| (pre.status is Processing && post.status is Failed && post.retry_count
            == pre.retry_count && pre.retry_count == pre.max_retries)
    }
}

} // verus!
