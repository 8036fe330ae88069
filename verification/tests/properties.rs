use jobqueue::models::{JobRequest, JobStatus};
use jobqueue::state::AppState;

fn submit(state: &mut AppState, name: &str, now: u64) -> u64 {
    let job = state.submit_job(
        JobRequest {
            name: String::from(name),
        },
        now,
    );
    job.id
}

#[test]
fn ids_are_distinct_and_increasing() {
    let mut state = AppState::new();
    let mut ids: Vec<u64> = Vec::new();
    for i in 0..5u64 {
        ids.push(submit(&mut state, "job", i));
    }
    for i in 0..ids.len() {
        for j in (i + 1)..ids.len() {
            assert_ne!(ids[i], ids[j]);
            assert!(ids[i] < ids[j]);
        }
    }
}

#[test]
fn queue_is_fifo() {
    let mut state = AppState::new();
    let a = submit(&mut state, "a", 1);
    let b = submit(&mut state, "b", 2);
    let c = submit(&mut state, "c", 3);

    assert_eq!(state.dequeue(), Some(a));
    assert_eq!(state.dequeue(), Some(b));
    assert_eq!(state.dequeue(), Some(c));
    assert_eq!(state.dequeue(), None);
}

#[test]
fn retried_job_rejoins_at_the_tail() {
    let mut state = AppState::new();
    let a = submit(&mut state, "a", 1);
    let b = submit(&mut state, "b", 2);

    assert_eq!(state.dequeue(), Some(a));
    assert!(state.mark_processing(a, 3));
    assert!(state.resolve(a, true, String::from("transient"), 4));

    let retried = state.get_job(a).unwrap();
    assert_eq!(retried.status, JobStatus::Queued);
    assert_eq!(retried.retry_count, 1);
    assert_eq!(retried.started_at, None);
    assert!(retried.failed_reason.is_none());

    assert_eq!(state.dequeue(), Some(b));
    assert_eq!(state.dequeue(), Some(a));
    assert_eq!(state.dequeue(), None);
}

#[test]
fn no_submitted_job_is_lost() {
    let mut state = AppState::new();
    let mut ids: Vec<u64> = Vec::new();
    for i in 0..10u64 {
        ids.push(submit(&mut state, "bulk", i));
    }

    while let Some(id) = state.dequeue() {
        state.mark_processing(id, 100);
        state.resolve(id, id % 2 == 0, String::from("flaky"), 101);
    }

    for id in ids {
        let job = state.get_job(id).unwrap();
        assert!(matches!(
            job.status,
            JobStatus::Queued | JobStatus::Processing | JobStatus::Completed | JobStatus::Failed
        ));
    }
}

#[test]
fn success_after_retry_keeps_retry_count() {
    let mut state = AppState::new();
    let id = submit(&mut state, "flaky", 1);

    assert_eq!(state.dequeue(), Some(id));
    assert!(state.mark_processing(id, 2));
    assert!(state.resolve(id, true, String::from("transient"), 3));

    assert_eq!(state.dequeue(), Some(id));
    assert!(state.mark_processing(id, 4));
    assert!(state.resolve(id, false, String::from("unused"), 5));

    let job = state.get_job(id).unwrap();
    assert_eq!(job.status, JobStatus::Completed);
    assert_eq!(job.retry_count, 1);
    assert_eq!(job.completed_at, Some(5));
    assert!(job.retry_count <= job.max_retries);
}

#[test]
fn zero_budget_fails_on_first_failure() {
    let mut state = AppState::with_max_retries(0);
    let id = submit(&mut state, "fragile", 1);

    assert_eq!(state.dequeue(), Some(id));
    assert!(state.mark_processing(id, 2));
    assert!(state.resolve(id, true, String::from("boom"), 3));

    let job = state.get_job(id).unwrap();
    assert_eq!(job.status, JobStatus::Failed);
    assert_eq!(job.retry_count, 0);
    assert_eq!(job.max_retries, 0);
    assert_eq!(job.failed_reason.as_deref(), Some("boom"));
    assert_eq!(state.dequeue(), None);
}

#[test]
fn explicit_budget_bounds_attempts() {
    let mut state = AppState::with_max_retries(2);
    let id = submit(&mut state, "stubborn", 0);

    let mut attempts: u32 = 0;
    while let Some(next) = state.dequeue() {
        state.mark_processing(next, 10);
        state.resolve(next, true, String::from("nope"), 11);
        attempts += 1;
    }

    assert_eq!(attempts, 3);
    let job = state.get_job(id).unwrap();
    assert_eq!(job.status, JobStatus::Failed);
    assert_eq!(job.retry_count, 2);
}

#[test]
fn processing_job_is_visible_to_lookups() {
    let mut state = AppState::new();
    let id = submit(&mut state, "watched", 10);

    assert_eq!(state.dequeue(), Some(id));
    assert!(state.mark_processing(id, 20));

    let job = state.get_job(id).unwrap();
    assert_eq!(job.status, JobStatus::Processing);
    assert_eq!(job.started_at, Some(20));
    assert_eq!(job.completed_at, None);
    assert_eq!(job.created_at, 10);
}
