//! The shared application context: the id counter, the job registry, and
//! the FIFO queue of pending job ids, together with the submission and
//! lookup operations.

use std::collections::HashMap;
use std::collections::VecDeque;

use vstd::prelude::*;

use crate::models::{fresh_job, Job, JobRequest, JobStatus};

verus! {

broadcast use vstd::std_specs::hash::group_hash_axioms;

/// Default retry budget assigned to a job at creation.
pub const DEFAULT_MAX_RETRIES: u32 = 3;

/// The shared state of the service. The registry (`jobs`) is the
/// authoritative store of every job ever submitted; `queue` holds the ids
/// awaiting a worker, in FIFO order; `job_counter` is the next id to
/// assign; `max_retries` is the retry budget given to new jobs.
///
/// The surrounding process owns one value of this type behind a lock and
/// calls one operation per critical section.
pub struct AppState {
    pub job_counter: u64,
    pub max_retries: u32,
    pub jobs: HashMap<u64, Job>,
    pub queue: VecDeque<u64>,
}

impl AppState {
    /// Well-formedness of the whole state: every registry entry is keyed by
    /// its own id, has an id below the counter (so fresh ids are never in
    /// use), and satisfies the per-job invariant; the queue holds no
    /// duplicates and only ids of registered jobs that are currently
    /// Queued.
    pub open spec fn wf(self) -> bool {
        &&& forall|id: u64| #[trigger] self.jobs@.contains_key(id) ==> {
            &&& self.jobs@[id].id == id
            &&& id < self.job_counter
            &&& self.jobs@[id].inv()
        }
        &&& self.queue@.no_duplicates()
        &&& forall|i: int| 0 <= i < self.queue@.len() ==> {
            &&& self.jobs@.contains_key(#[trigger] self.queue@[i])
            &&& self.jobs@[self.queue@[i]].status is Queued
        }
    }

    /// An empty context with the default retry budget.
    pub fn new() -> (s: AppState)
        ensures
            s.wf(),
            s.job_counter == 0,
            s.max_retries == DEFAULT_MAX_RETRIES,
            s.jobs@ == Map::<u64, Job>::empty(),
            s.queue@ == Seq::<u64>::empty(),
    {
        AppState {
            job_counter: 0,
            max_retries: DEFAULT_MAX_RETRIES,
            jobs: HashMap::new(),
            queue: VecDeque::new(),
        }
    }

    /// An empty context with an explicit retry budget.
    pub fn with_max_retries(max_retries: u32) -> (s: AppState)
        ensures
            s.wf(),
            s.job_counter == 0,
            s.max_retries == max_retries,
            s.jobs@ == Map::<u64, Job>::empty(),
            s.queue@ == Seq::<u64>::empty(),
    {
        AppState {
            job_counter: 0,
            max_retries,
            jobs: HashMap::new(),
            queue: VecDeque::new(),
        }
    }

    /// Submission: allocates the next id, records the new job as Queued in
    /// the registry, and appends its id to the tail of the queue, as one
    /// logical unit. Returns a snapshot of the newly created job.
    pub fn submit_job(&mut self, req: JobRequest, now: u64) -> (job: Job)
        requires
            old(self).wf(),
            old(self).job_counter < u64::MAX,
        ensures
            final(self).wf(),
            submitted(*old(self), *final(self), req.name, now, job),
    {
        let id = self.job_counter;
        self.job_counter = id + 1;
        let job = Job {
            id,
            name: req.name,
            status: JobStatus::Queued,
            retry_count: 0,
            max_retries: self.max_retries,
            created_at: now,
            started_at: None,
            completed_at: None,
            failed_reason: None,
        };
        let snapshot = job.clone();
        self.jobs.insert(id, job);
        proof {
            assert forall|i: int| 0 <= i < old(self).queue@.len() implies old(self).queue@[i]
                != id by {
                assert(old(self).jobs@.contains_key(old(self).queue@[i]));
            }
        }
        self.queue.push_back(id);
        snapshot
    }

    /// Lookup: an immutable snapshot of the current record under `id`, or
    /// `None` exactly when no job with that id was ever submitted.
    pub fn get_job(&self, id: u64) -> (r: Option<Job>)
        ensures
            match r {
                Some(job) => self.jobs@.contains_key(id) && job == self.jobs@[id],
                None => !self.jobs@.contains_key(id),
            },
    {
        match self.jobs.get(&id) {
            Some(job) => Some(job.clone()),
            None => None,
        }
    }
}

/// Relation between the states before and after one submission that
/// returned the snapshot `job`: the job is fresh (its id was unknown and is
/// the old counter value), the counter advances by one, the registry gains
/// exactly this job, and its id joins the tail of the queue.
pub open spec fn submitted(pre: AppState, post: AppState, name: String, now: u64, job: Job) -> bool {
    &&& job == fresh_job(pre.job_counter, name, pre.max_retries, now)
    &&& !pre.jobs@.contains_key(job.id)
    &&& post.job_counter == pre.job_counter + 1
    &&& post.max_retries == pre.max_retries
    &&& post.jobs@ == pre.jobs@.insert(job.id, job)
    &&& post.queue@ == pre.queue@.push(job.id)
}

} // verus!
