use jobqueue::models::{JobRequest, JobStatus};
use jobqueue::state::AppState;
use jobqueue::worker::get_current_timestamp;

fn submit(state: &mut AppState, name: &str, now: u64) -> u64 {
    let job = state.submit_job(
        JobRequest {
            name: String::from(name),
        },
        now,
    );
    job.id
}

#[test]
fn submit_returns_fresh_queued_job() {
    let mut state = AppState::new();
    let job = state.submit_job(
        JobRequest {
            name: String::from("build-app"),
        },
        1000,
    );
    assert_eq!(job.id, 0);
    assert_eq!(job.name, "build-app");
    assert_eq!(job.status, JobStatus::Queued);
    assert_eq!(job.retry_count, 0);
    assert_eq!(job.max_retries, 3);
    assert_eq!(job.created_at, 1000);
    assert_eq!(job.started_at, None);
    assert_eq!(job.completed_at, None);
    assert!(job.failed_reason.is_none());

    let looked_up = state.get_job(job.id).unwrap();
    assert_eq!(looked_up.id, job.id);
    assert_eq!(looked_up.name, "build-app");
    assert_eq!(looked_up.status, JobStatus::Queued);
}

#[test]
fn successful_job_completes() {
    let mut state = AppState::new();
    let id = submit(&mut state, "build-app", 1000);

    assert_eq!(state.dequeue(), Some(id));
    assert!(state.mark_processing(id, 1005));
    assert!(state.resolve(id, false, String::from("unused"), 1010));

    let job = state.get_job(id).unwrap();
    assert_eq!(job.status, JobStatus::Completed);
    assert_eq!(job.started_at, Some(1005));
    assert_eq!(job.completed_at, Some(1010));
    assert!(job.started_at.unwrap() <= job.completed_at.unwrap());
    assert_eq!(job.retry_count, 0);
    assert!(job.failed_reason.is_none());
}

#[test]
fn forced_failures_exhaust_retries() {
    let mut state = AppState::new();
    let id = submit(&mut state, "doomed", 0);
    let budget = state.get_job(id).unwrap().max_retries;
    assert_eq!(budget, 3);

    let mut attempts: u32 = 0;
    let mut now: u64 = 1;
    while let Some(next) = state.dequeue() {
        assert_eq!(next, id);
        assert!(state.mark_processing(next, now));
        assert!(state.resolve(next, true, String::from("simulated failure"), now + 1));
        attempts += 1;
        now += 10;
    }

    assert_eq!(attempts, budget + 1);
    let job = state.get_job(id).unwrap();
    assert_eq!(job.status, JobStatus::Failed);
    assert_eq!(job.retry_count, job.max_retries);
    let reason = job.failed_reason.unwrap();
    assert!(!reason.is_empty());
    assert_eq!(reason, "simulated failure");
    assert_eq!(state.dequeue(), None);
}

#[test]
fn lookup_of_unknown_id_is_not_found() {
    let mut state = AppState::new();
    assert!(state.get_job(42).is_none());

    let id = submit(&mut state, "known", 5);
    assert!(state.get_job(id).is_some());
    assert!(state.get_job(id + 1).is_none());
    assert!(state.get_job(u64::MAX).is_none());
}

#[test]
fn absent_id_is_a_no_op_for_workers() {
    let mut state = AppState::new();
    let id = submit(&mut state, "only", 1);

    assert!(!state.mark_processing(17, 2));
    assert!(!state.resolve(17, true, String::from("boom"), 3));

    let job = state.get_job(id).unwrap();
    assert_eq!(job.status, JobStatus::Queued);
    assert_eq!(state.dequeue(), Some(id));
}

#[test]
fn real_clock_timestamps_stay_ordered() {
    let mut state = AppState::new();
    let created = get_current_timestamp();
    let id = submit(&mut state, "timed", created);

    assert_eq!(state.dequeue(), Some(id));
    let started = get_current_timestamp().max(created);
    assert!(state.mark_processing(id, started));
    let completed = get_current_timestamp().max(started);
    assert!(state.resolve(id, false, String::from("unused"), completed));

    let job = state.get_job(id).unwrap();
    assert!(job.created_at <= job.started_at.unwrap());
    assert!(job.started_at.unwrap() <= job.completed_at.unwrap());
}
