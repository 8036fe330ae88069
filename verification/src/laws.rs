//! System-wide laws, proved from the transition relations alone: id
//! freshness and monotonicity, the per-job state machine, the retry bound,
//! timestamp consistency, FIFO order, and that the registry never loses a
//! job.

use vstd::prelude::*;

use crate::models::{job_step_allowed, Job};
use crate::state::{submitted, AppState};
use crate::worker::{dequeued, processing_marked, resolved};

verus! {

/// Any single operation of the system: one submission, one dequeue, one
/// mark-processing, or one resolution of an attempt.
pub open spec fn system_step(pre: AppState, post: AppState) -> bool {
    ||| exists|name: String, now: u64, job: Job| submitted(pre, post, name, now, job)
    ||| exists|r: Option<u64>| dequeued(pre, post, r)
    ||| exists|id: u64, now: u64, found: bool| processing_marked(pre, post, id, now, found)
    ||| exists|id: u64, failed: bool, reason: String, now: u64, found: bool|
        resolved(pre, post, id, failed, reason, now, found)
}

/// Law: well-formedness is preserved by every operation, so every state
/// reachable from a well-formed one (in particular from an empty context)
/// satisfies all the registry and queue invariants.
pub proof fn lemma_step_preserves_wf(pre: AppState, post: AppState)
    requires
        pre.wf(),
        system_step(pre, post),
    ensures
        post.wf(),
{
    if exists|name: String, now: u64, job: Job| submitted(pre, post, name, now, job) {
        let (name, now, job) = choose|name: String, now: u64, job: Job|
            submitted(pre, post, name, now, job);
        assert forall|i: int| 0 <= i < pre.queue@.len() implies pre.queue@[i] != job.id by {
            assert(pre.jobs@.contains_key(pre.queue@[i]));
        }
    } else if exists|r: Option<u64>| dequeued(pre, post, r) {
        let r = choose|r: Option<u64>| dequeued(pre, post, r);
        if r is Some {
            assert forall|i: int| 0 <= i < post.queue@.len() implies {
                &&& post.jobs@.contains_key(#[trigger] post.queue@[i])
                &&& post.jobs@[post.queue@[i]].status is Queued
            } by {
                assert(post.queue@[i] == pre.queue@[i + 1]);
            }
        }
    } else if exists|id: u64, now: u64, found: bool| processing_marked(pre, post, id, now, found) {
        let (id, now, found) = choose|id: u64, now: u64, found: bool|
            processing_marked(pre, post, id, now, found);
        if found {
            assert forall|i: int| 0 <= i < post.queue@.len() implies post.queue@[i] != id by {
                assert(pre.queue@.contains(pre.queue@[i]));
            }
        }
    } else {
        let (id, failed, reason, now, found) = choose|
            id: u64,
            failed: bool,
            reason: String,
            now: u64,
            found: bool,
        | resolved(pre, post, id, failed, reason, now, found);
        if found {
            assert forall|i: int| 0 <= i < pre.queue@.len() implies pre.queue@[i] != id by {
                assert(pre.jobs@[pre.queue@[i]].status is Queued);
            }
        }
    }
}

/// Law: ids are pairwise distinct and strictly increasing in submission
/// order. A submission returns an id the registry did not yet know, and a
/// later submission returns a strictly larger id.
pub proof fn lemma_ids_unique_and_increasing(
    s0: AppState,
    s1: AppState,
    s2: AppState,
    n1: String,
    t1: u64,
    j1: Job,
    n2: String,
    t2: u64,
    j2: Job,
)
    requires
        submitted(s0, s1, n1, t1, j1),
        submitted(s1, s2, n2, t2, j2),
    ensures
        !s0.jobs@.contains_key(j1.id),
        j1.id < j2.id,
{
}

/// Law: no operation decreases the id counter, so ids assigned over any
/// run of the system keep increasing.
pub proof fn lemma_counter_monotone(pre: AppState, post: AppState)
    requires
        system_step(pre, post),
    ensures
        pre.job_counter <= post.job_counter,
{
}

/// Law: valid transitions. Any operation on a well-formed state leaves
/// every tracked job either unchanged or moved along exactly one edge of
/// the state machine `Queued -> Processing -> {Completed | Queued (retry) |
/// Failed}`; in particular no job ever goes straight from Queued to
/// Completed or to Failed.
pub proof fn lemma_steps_follow_state_machine(pre: AppState, post: AppState)
    requires
        pre.wf(),
        system_step(pre, post),
    ensures
        forall|id: u64| #[trigger] pre.jobs@.contains_key(id) ==> post.jobs@.contains_key(id)
            && (post.jobs@[id] == pre.jobs@[id] || job_step_allowed(
            pre.jobs@[id],
            post.jobs@[id],
        )),
{
}

/// Law: no job is ever observed moving straight from Queued to Completed
/// or to Failed: an operation on a well-formed state takes a Queued job at
/// most to Processing.
pub proof fn lemma_no_queued_to_terminal(pre: AppState, post: AppState)
    requires
        pre.wf(),
        system_step(pre, post),
    ensures
        forall|id: u64|
            #[trigger] pre.jobs@.contains_key(id) && pre.jobs@[id].status is Queued ==> {
                &&& !(post.jobs@[id].status is Completed)
                &&& !(post.jobs@[id].status is Failed)
            },
{
    lemma_steps_follow_state_machine(pre, post);
}

/// Law: retry bound. In a well-formed state every job satisfies
/// `retry_count <= max_retries`, and a Failed job has exactly exhausted
/// its budget and carries a failure reason.
pub proof fn lemma_retry_bound(s: AppState)
    requires
        s.wf(),
    ensures
        forall|id: u64| #[trigger] s.jobs@.contains_key(id) ==> s.jobs@[id].retry_count
            <= s.jobs@[id].max_retries,
        forall|id: u64| #[trigger] s.jobs@.contains_key(id) && s.jobs@[id].status is Failed ==> {
            &&& s.jobs@[id].retry_count == s.jobs@[id].max_retries
            &&& s.jobs@[id].failed_reason is Some
        },
{
}

/// Law: a resolution on a tracked job ends in Failed exactly when the
/// attempt failed with the retry budget already exhausted; with budget
/// remaining a failed attempt re-queues the job instead.
pub proof fn lemma_failed_iff_budget_exhausted(
    pre: AppState,
    post: AppState,
    id: u64,
    failed: bool,
    reason: String,
    now: u64,
)
    requires
        pre.wf(),
        resolved(pre, post, id, failed, reason, now, true),
    ensures
        post.jobs@[id].status is Failed <==> (failed && pre.jobs@[id].retry_count
            == pre.jobs@[id].max_retries),
{
}

/// Law: timestamp consistency. In a well-formed state, whenever a job's
/// start and completion times are both present they are ordered after the
/// creation time (`created_at <= started_at <= completed_at`), and the
/// start time is absent exactly when the job is Queued.
pub proof fn lemma_timestamps_consistent(s: AppState)
    requires
        s.wf(),
    ensures
        forall|id: u64|
            #[trigger] s.jobs@.contains_key(id) && s.jobs@[id].started_at is Some
                && s.jobs@[id].completed_at is Some ==> {
                &&& s.jobs@[id].created_at <= s.jobs@[id].started_at.unwrap()
                &&& s.jobs@[id].started_at.unwrap() <= s.jobs@[id].completed_at.unwrap()
            },
        forall|id: u64| #[trigger] s.jobs@.contains_key(id) ==> ((s.jobs@[id].started_at is None)
            <==> s.jobs@[id].status is Queued),
{
}

/// Law: FIFO, producer side. Two successive submissions place their ids on
/// successive tail positions of the queue, so the earlier job sits ahead
/// of the later one.
pub proof fn lemma_fifo_submissions_ordered(
    s0: AppState,
    s1: AppState,
    s2: AppState,
    n1: String,
    t1: u64,
    j1: Job,
    n2: String,
    t2: u64,
    j2: Job,
)
    requires
        submitted(s0, s1, n1, t1, j1),
        submitted(s1, s2, n2, t2, j2),
    ensures
        s2.queue@.len() == s0.queue@.len() + 2,
        s2.queue@[s0.queue@.len() as int] == j1.id,
        s2.queue@[s0.queue@.len() as int + 1] == j2.id,
{
}

/// Law: FIFO, consumer side. A dequeue removes exactly the head and keeps
/// the relative order of the rest, so of two pending jobs the one nearer
/// the head is dequeued no later than the other.
pub proof fn lemma_fifo_dequeue(pre: AppState, post: AppState, r: Option<u64>, i: int, j: int)
    requires
        dequeued(pre, post, r),
        0 <= i < j < pre.queue@.len(),
    ensures
        i == 0 ==> r == Some(pre.queue@[0]),
        i > 0 ==> post.queue@[i - 1] == pre.queue@[i] && post.queue@[j - 1] == pre.queue@[j],
{
}

/// Law: no loss. No operation removes a registry entry: every id present
/// before a step is still present after it, so a lookup of a submitted id
/// always returns a snapshot.
pub proof fn lemma_no_job_lost(pre: AppState, post: AppState)
    requires
        system_step(pre, post),
    ensures
        forall|id: u64| #[trigger] pre.jobs@.contains_key(id) ==> post.jobs@.contains_key(id),
{
}

/// A run of the system: a non-empty sequence of states in which each
/// adjacent pair is related by one operation.
pub open spec fn execution(tr: Seq<AppState>) -> bool {
    forall|i: int| 0 <= i < tr.len() - 1 ==> #[trigger] system_step(tr[i], tr[i + 1])
}

/// Law: every state of a run that starts well-formed is well-formed, so
/// the retry bound and the timestamp laws hold at every reachable state.
pub proof fn lemma_execution_preserves_wf(tr: Seq<AppState>, k: int)
    requires
        execution(tr),
        tr.len() > 0,
        tr[0].wf(),
        0 <= k < tr.len(),
    ensures
        tr[k].wf(),
    decreases k,
{
    if k > 0 {
        lemma_execution_preserves_wf(tr, k - 1);
        assert(system_step(tr[k - 1], tr[k - 1 + 1]));
        lemma_step_preserves_wf(tr[k - 1], tr[k]);
    }
}

/// Law: no loss over a whole run. An id tracked at the start of an
/// execution is still tracked in its final state, however many operations
/// interleave.
pub proof fn lemma_execution_no_job_lost(tr: Seq<AppState>, id: u64)
    requires
        execution(tr),
        tr.len() > 0,
        tr[0].jobs@.contains_key(id),
    ensures
        tr[tr.len() - 1].jobs@.contains_key(id),
    decreases tr.len(),
{
    if tr.len() > 1 {
        assert(system_step(tr[0int], tr[0int + 1]));
        lemma_no_job_lost(tr[0], tr[1]);
        assert(execution(tr.drop_first())) by {
            assert forall|i: int| 0 <= i < tr.drop_first().len() - 1 implies #[trigger] system_step(
                tr.drop_first()[i],
                tr.drop_first()[i + 1],
            ) by {
                assert(tr.drop_first()[i] == tr[i + 1]);
                assert(tr.drop_first()[i + 1] == tr[i + 2]);
                assert(system_step(tr[i + 1], tr[i + 2]));
            }
        }
        lemma_execution_no_job_lost(tr.drop_first(), id);
        assert(tr.drop_first()[tr.drop_first().len() - 1] == tr[tr.len() - 1]);
    }
}

} // verus!
