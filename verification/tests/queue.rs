use asocial::dispatcher::{Outcome, Platform};
use asocial::job_queue::{
    fetch_job_details, mark_scheduled, poll_jobs, record_outcome, schedule_job, Job, JobStatus,
    JobStore, PlatformTarget, Post, PostStatus, StoreError,
};

const SECOND: i128 = 1_000_000_000;

fn post(id: u128, content: &str, status: PostStatus) -> Post {
    Post { id, user_id: 1, content: content.to_string(), status, media_paths: None }
}

fn target(id: u128, name: &str, credentials: &str) -> PlatformTarget {
    PlatformTarget {
        id,
        user_id: 1,
        name: name.to_string(),
        credentials: credentials.to_string(),
        api_url: None,
    }
}

fn store_with_jobs(jobs: Vec<(u128, i128)>) -> JobStore {
    let mut store = JobStore::new();
    store.insert_post(post(100, "Hello world", PostStatus::Scheduled)).unwrap();
    store.insert_platform(target(200, "mastodon", "{\"access_token\":\"t\"}")).unwrap();
    for (id, at) in jobs {
        store.insert_job(Job::new(id, 100, 200, at)).unwrap();
    }
    store
}

#[test]
fn claim_on_empty_store_returns_nothing() {
    let mut store = JobStore::new();
    assert!(matches!(poll_jobs(&mut store, 0), Ok(None)));
}

#[test]
fn claim_marks_the_job_as_processing() {
    let mut store = store_with_jobs(vec![(7, 10 * SECOND)]);
    let job = poll_jobs(&mut store, 11 * SECOND).unwrap().unwrap();
    assert_eq!(job.id, 7);
    assert_eq!(job.post_id, 100);
    assert_eq!(job.platform_id, 200);
    assert_eq!(job.status, JobStatus::Processing);
    assert_eq!(job.attempt_count, 1);
    assert_eq!(job.processed_at, Some(11 * SECOND));
    assert_eq!(job.scheduled_for, 10 * SECOND);
    assert!(job.last_error.is_none());
    let held = store.job(7).unwrap();
    assert_eq!(held.status, JobStatus::Processing);
    assert_eq!(held.attempt_count, 1);
    assert_eq!(held.processed_at, Some(11 * SECOND));
}

#[test]
fn job_is_eligible_at_exactly_its_scheduled_time() {
    let mut store = store_with_jobs(vec![(7, 10 * SECOND)]);
    let job = poll_jobs(&mut store, 10 * SECOND).unwrap().unwrap();
    assert_eq!(job.id, 7);
}

#[test]
fn one_eligible_job_is_claimed_by_exactly_one_of_many_claims() {
    let mut store = store_with_jobs(vec![(7, 10 * SECOND), (8, 99 * SECOND)]);
    let mut handed_out = Vec::new();
    for _ in 0..6 {
        handed_out.push(poll_jobs(&mut store, 20 * SECOND).unwrap().map(|job| job.id));
    }
    assert_eq!(handed_out, vec![Some(7), None, None, None, None, None]);
}

#[test]
fn future_job_is_not_claimed_until_its_time() {
    let mut store = store_with_jobs(vec![(7, 50 * SECOND)]);
    assert!(matches!(poll_jobs(&mut store, 0), Ok(None)));
    assert!(matches!(poll_jobs(&mut store, 49 * SECOND), Ok(None)));
    assert!(matches!(poll_jobs(&mut store, 50 * SECOND - 1), Ok(None)));
    assert_eq!(store.job(7).unwrap().status, JobStatus::Pending);
    assert_eq!(store.job(7).unwrap().attempt_count, 0);
    let job = poll_jobs(&mut store, 50 * SECOND).unwrap().unwrap();
    assert_eq!(job.id, 7);
}

#[test]
fn older_job_is_claimed_before_younger() {
    let mut store = store_with_jobs(vec![(2, 20 * SECOND), (1, 10 * SECOND), (3, 30 * SECOND)]);
    let first = poll_jobs(&mut store, 40 * SECOND).unwrap().unwrap();
    let second = poll_jobs(&mut store, 40 * SECOND).unwrap().unwrap();
    let third = poll_jobs(&mut store, 41 * SECOND).unwrap().unwrap();
    assert_eq!((first.id, second.id, third.id), (1, 2, 3));
    assert!(matches!(poll_jobs(&mut store, 42 * SECOND), Ok(None)));
}

#[test]
fn jobs_scheduled_together_are_claimed_in_table_order() {
    let mut store = store_with_jobs(vec![(5, 10 * SECOND), (4, 10 * SECOND)]);
    assert_eq!(poll_jobs(&mut store, 10 * SECOND).unwrap().unwrap().id, 5);
    assert_eq!(poll_jobs(&mut store, 10 * SECOND).unwrap().unwrap().id, 4);
}

#[test]
fn claim_skips_jobs_that_are_not_pending() {
    let mut store = JobStore::new();
    let mut done = Job::new(1, 100, 200, 0);
    done.status = JobStatus::Done;
    let mut failed = Job::new(2, 100, 200, 0);
    failed.status = JobStatus::Failed;
    let mut held = Job::new(3, 100, 200, 0);
    held.status = JobStatus::Processing;
    store.insert_job(done).unwrap();
    store.insert_job(failed).unwrap();
    store.insert_job(held).unwrap();
    store.insert_job(Job::new(4, 100, 200, 5)).unwrap();
    assert_eq!(poll_jobs(&mut store, 9).unwrap().unwrap().id, 4);
    assert!(matches!(poll_jobs(&mut store, 9), Ok(None)));
}

#[test]
fn claim_is_refused_when_the_attempt_counter_is_full() {
    let mut store = JobStore::new();
    let mut worn = Job::new(1, 100, 200, 0);
    worn.attempt_count = u32::MAX;
    store.insert_job(worn).unwrap();
    assert_eq!(poll_jobs(&mut store, 5).unwrap_err(), StoreError::AttemptOverflow);
    let still = store.job(1).unwrap();
    assert_eq!(still.status, JobStatus::Pending);
    assert_eq!(still.attempt_count, u32::MAX);
    assert_eq!(still.processed_at, None);
}

#[test]
fn claim_counts_every_attempt() {
    let mut store = JobStore::new();
    let mut again = Job::new(1, 100, 200, 0);
    again.attempt_count = 41;
    again.last_error = Some("earlier".to_string());
    store.insert_job(again).unwrap();
    let job = poll_jobs(&mut store, 5).unwrap().unwrap();
    assert_eq!(job.attempt_count, 42);
    assert_eq!(job.last_error.as_deref(), Some("earlier"));
}

#[test]
fn duplicate_rows_are_refused() {
    let mut store = store_with_jobs(vec![(7, 0)]);
    assert_eq!(store.insert_job(Job::new(7, 1, 2, 3)).unwrap_err(), StoreError::DuplicateId);
    assert_eq!(
        store.insert_post(post(100, "other", PostStatus::Draft)).unwrap_err(),
        StoreError::DuplicateId
    );
    assert_eq!(
        store.insert_platform(target(200, "bluesky", "{}")).unwrap_err(),
        StoreError::DuplicateId
    );
    assert_eq!(store.job(7).unwrap().post_id, 100);
    assert_eq!(fetch_job_details(&store, 7).unwrap().content, "Hello world");
}

#[test]
fn fetch_joins_job_post_and_platform() {
    let mut store = JobStore::new();
    store
        .insert_post(Post {
            id: 100,
            user_id: 1,
            content: "Hello world".to_string(),
            status: PostStatus::Scheduled,
            media_paths: Some(vec!["a.png".to_string(), "b.jpg".to_string()]),
        })
        .unwrap();
    store
        .insert_platform(PlatformTarget {
            id: 200,
            user_id: 1,
            name: "mastodon".to_string(),
            credentials: "{\"access_token\":\"t\"}".to_string(),
            api_url: Some("https://example.social".to_string()),
        })
        .unwrap();
    store.insert_platform(target(201, "bluesky", "{}")).unwrap();
    store.insert_job(Job::new(7, 100, 200, 0)).unwrap();
    store.insert_job(Job::new(8, 100, 201, 0)).unwrap();
    let payload = fetch_job_details(&store, 7).unwrap();
    assert_eq!(payload.job_id, 7);
    assert_eq!(payload.content, "Hello world");
    assert_eq!(payload.platform_name, "mastodon");
    assert_eq!(payload.credentials, "{\"access_token\":\"t\"}");
    assert_eq!(payload.api_url.as_deref(), Some("https://example.social"));
    assert_eq!(payload.media_paths, Some(vec!["a.png".to_string(), "b.jpg".to_string()]));
    let other = fetch_job_details(&store, 8).unwrap();
    assert_eq!(other.platform_name, "bluesky");
    assert_eq!(other.api_url, None);
    assert_eq!(other.content, "Hello world");
    assert_eq!(other.media_paths, Some(vec!["a.png".to_string(), "b.jpg".to_string()]));
}

#[test]
fn fetch_twice_returns_identical_content() {
    let store = store_with_jobs(vec![(7, 0)]);
    let first = fetch_job_details(&store, 7).unwrap();
    let second = fetch_job_details(&store, 7).unwrap();
    assert_eq!(first.job_id, second.job_id);
    assert_eq!(first.content, second.content);
    assert_eq!(first.platform_name, second.platform_name);
    assert_eq!(first.credentials, second.credentials);
    assert_eq!(first.api_url, second.api_url);
    assert_eq!(first.media_paths, second.media_paths);
}

#[test]
fn fetch_is_the_same_after_a_claim() {
    let mut store = store_with_jobs(vec![(7, 0)]);
    let before = fetch_job_details(&store, 7).unwrap();
    poll_jobs(&mut store, 1).unwrap().unwrap();
    let after = fetch_job_details(&store, 7).unwrap();
    assert_eq!(before.content, after.content);
    assert_eq!(before.platform_name, after.platform_name);
    assert_eq!(before.credentials, after.credentials);
}

#[test]
fn fetch_fails_with_not_found() {
    let mut store = store_with_jobs(vec![(7, 0)]);
    assert_eq!(fetch_job_details(&store, 9).unwrap_err(), StoreError::NotFound);
    store.insert_job(Job::new(10, 555, 200, 0)).unwrap();
    assert_eq!(fetch_job_details(&store, 10).unwrap_err(), StoreError::NotFound);
    store.insert_job(Job::new(11, 100, 555, 0)).unwrap();
    assert_eq!(fetch_job_details(&store, 11).unwrap_err(), StoreError::NotFound);
}

#[test]
fn delivered_outcome_marks_the_job_done() {
    let mut store = store_with_jobs(vec![(7, 0)]);
    poll_jobs(&mut store, 1).unwrap().unwrap();
    let outcome = Outcome::Delivered { platform: Platform::Mastodon, receipt: "r".to_string() };
    record_outcome(&mut store, 7, &outcome).unwrap();
    let job = store.job(7).unwrap();
    assert_eq!(job.status, JobStatus::Done);
    assert_eq!(job.last_error, None);
    assert_eq!(job.attempt_count, 1);
    assert!(matches!(poll_jobs(&mut store, 2), Ok(None)));
}

#[test]
fn failed_outcome_marks_the_job_failed_with_its_error() {
    let mut store = store_with_jobs(vec![(7, 0)]);
    poll_jobs(&mut store, 1).unwrap().unwrap();
    let outcome = Outcome::UnknownPlatform { name: "carrier-pigeon".to_string() };
    record_outcome(&mut store, 7, &outcome).unwrap();
    let job = store.job(7).unwrap();
    assert_eq!(job.status, JobStatus::Failed);
    assert_eq!(job.last_error.as_deref(), Some("Unknown platform: carrier-pigeon"));
    assert!(matches!(poll_jobs(&mut store, 2), Ok(None)));
}

#[test]
fn not_found_outcome_marks_the_job_failed() {
    let mut store = JobStore::new();
    store.insert_job(Job::new(7, 1, 2, 0)).unwrap();
    poll_jobs(&mut store, 1).unwrap().unwrap();
    assert_eq!(fetch_job_details(&store, 7).unwrap_err(), StoreError::NotFound);
    record_outcome(&mut store, 7, &Outcome::NotFound).unwrap();
    let job = store.job(7).unwrap();
    assert_eq!(job.status, JobStatus::Failed);
    assert_eq!(job.last_error.as_deref(), Some("Job details not found"));
}

#[test]
fn outcome_is_recorded_only_for_a_held_job() {
    let mut store = store_with_jobs(vec![(7, 0)]);
    let outcome = Outcome::Delivered { platform: Platform::Mastodon, receipt: "r".to_string() };
    assert_eq!(record_outcome(&mut store, 9, &outcome).unwrap_err(), StoreError::NotFound);
    assert_eq!(record_outcome(&mut store, 7, &outcome).unwrap_err(), StoreError::NotProcessing);
    assert_eq!(store.job(7).unwrap().status, JobStatus::Pending);
    poll_jobs(&mut store, 1).unwrap().unwrap();
    record_outcome(&mut store, 7, &outcome).unwrap();
    assert_eq!(record_outcome(&mut store, 7, &outcome).unwrap_err(), StoreError::NotProcessing);
    assert_eq!(store.job(7).unwrap().status, JobStatus::Done);
}

#[test]
fn only_scheduled_posts_get_jobs() {
    let mut store = JobStore::new();
    store.insert_post(post(100, "draft", PostStatus::Draft)).unwrap();
    store.insert_platform(target(200, "mastodon", "{}")).unwrap();
    assert_eq!(schedule_job(&mut store, 7, 100, 200, 0).unwrap_err(), StoreError::DraftPost);
    assert!(store.job(7).is_none());
    assert_eq!(mark_scheduled(&mut store, 101).unwrap_err(), StoreError::NotFound);
    mark_scheduled(&mut store, 100).unwrap();
    assert_eq!(schedule_job(&mut store, 7, 101, 200, 0).unwrap_err(), StoreError::NotFound);
    assert_eq!(schedule_job(&mut store, 7, 100, 201, 0).unwrap_err(), StoreError::NotFound);
    schedule_job(&mut store, 7, 100, 200, 5).unwrap();
    assert_eq!(schedule_job(&mut store, 7, 100, 200, 5).unwrap_err(), StoreError::DuplicateId);
    let job = store.job(7).unwrap();
    assert_eq!(job.status, JobStatus::Pending);
    assert_eq!(job.scheduled_for, 5);
    assert_eq!(job.attempt_count, 0);
    assert_eq!(fetch_job_details(&store, 7).unwrap().content, "draft");
}

#[test]
fn job_clone_keeps_every_field() {
    let mut job = Job::new(1, 2, 3, 4);
    job.last_error = Some("e".to_string());
    job.created_at = Some(9);
    let copy = job.clone();
    assert_eq!(copy.id, 1);
    assert_eq!(copy.post_id, 2);
    assert_eq!(copy.platform_id, 3);
    assert_eq!(copy.scheduled_for, 4);
    assert_eq!(copy.last_error.as_deref(), Some("e"));
    assert_eq!(copy.created_at, Some(9));
    assert_eq!(copy.processed_at, None);
}
