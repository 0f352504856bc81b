//! The job store: the table of scheduled work, and the claim protocol that
//! hands each eligible job to exactly one worker.

use vstd::prelude::*;
use vstd::string::*;
use crate::dispatcher::{failure_text, Outcome, OutcomeView};
use crate::text::{opt_text, opt_texts, copy_opt_text, copy_opt_texts};

verus! {

/// Where a job stands in its life.
#[derive(Clone, Copy, Debug, PartialEq, Eq, Structural)]
pub enum JobStatus {
    Pending,
    Processing,
    Done,
    Failed,
}

/// Whether a post is still being written or has been handed to the queue.
#[derive(Clone, Copy, Debug, PartialEq, Eq, Structural)]
pub enum PostStatus {
    Draft,
    Scheduled,
}

/// A unit of scheduled work: one post to deliver to one platform target.
///
/// Identifiers are 128-bit numbers; times are nanoseconds since the Unix
/// epoch.
#[derive(Debug)]
pub struct Job {
    pub id: u128,
    pub post_id: u128,
    pub platform_id: u128,
    pub status: JobStatus,
    pub scheduled_for: i128,
    pub attempt_count: u32,
    pub last_error: Option<String>,
    pub created_at: Option<i128>,
    pub processed_at: Option<i128>,
}

/// What a [`Job`] holds, as mathematical values.
pub struct JobView {
    pub id: u128,
    pub post_id: u128,
    pub platform_id: u128,
    pub status: JobStatus,
    pub scheduled_for: int,
    pub attempt_count: nat,
    pub last_error: Option<Seq<char>>,
    pub created_at: Option<i128>,
    pub processed_at: Option<i128>,
}

impl View for Job {
    type V = JobView;

    open spec fn view(&self) -> JobView {
        JobView {
            id: self.id,
            post_id: self.post_id,
            platform_id: self.platform_id,
            status: self.status,
            scheduled_for: self.scheduled_for as int,
            attempt_count: self.attempt_count as nat,
            last_error: opt_text(self.last_error),
            created_at: self.created_at,
            processed_at: self.processed_at,
        }
    }
}

impl Clone for Job {
    fn clone(&self) -> (r: Job)
        ensures
            r@ == self@,
    {
        Job {
            id: self.id,
            post_id: self.post_id,
            platform_id: self.platform_id,
            status: self.status,
            scheduled_for: self.scheduled_for,
            attempt_count: self.attempt_count,
            last_error: copy_opt_text(&self.last_error),
            created_at: self.created_at,
            processed_at: self.processed_at,
        }
    }
}

impl Job {
    /// A job that waits for `scheduled_for`, never attempted.
    pub fn new(id: u128, post_id: u128, platform_id: u128, scheduled_for: i128) -> (r: Job)
        ensures
            r@ == (JobView {
                id,
                post_id,
                platform_id,
                status: JobStatus::Pending,
                scheduled_for: scheduled_for as int,
                attempt_count: 0,
                last_error: None,
                created_at: None,
                processed_at: None,
            }),
    {
        Job {
            id,
            post_id,
            platform_id,
            status: JobStatus::Pending,
            scheduled_for,
            attempt_count: 0,
            last_error: None,
            created_at: None,
            processed_at: None,
        }
    }
}

/// User-authored content.
#[derive(Debug)]
pub struct Post {
    pub id: u128,
    pub user_id: u128,
    pub content: String,
    pub status: PostStatus,
    pub media_paths: Option<Vec<String>>,
}

/// What a [`Post`] holds, as mathematical values.
pub struct PostView {
    pub id: u128,
    pub user_id: u128,
    pub content: Seq<char>,
    pub status: PostStatus,
    pub media_paths: Option<Seq<Seq<char>>>,
}

impl View for Post {
    type V = PostView;

    open spec fn view(&self) -> PostView {
        PostView {
            id: self.id,
            user_id: self.user_id,
            content: self.content@,
            status: self.status,
            media_paths: opt_texts(self.media_paths),
        }
    }
}

/// A named delivery destination with the credentials to reach it.
#[derive(Debug)]
pub struct PlatformTarget {
    pub id: u128,
    pub user_id: u128,
    pub name: String,
    /// A JSON document.
    pub credentials: String,
    pub api_url: Option<String>,
}

/// What a [`PlatformTarget`] holds, as mathematical values.
pub struct PlatformTargetView {
    pub id: u128,
    pub user_id: u128,
    pub name: Seq<char>,
    pub credentials: Seq<char>,
    pub api_url: Option<Seq<char>>,
}

impl View for PlatformTarget {
    type V = PlatformTargetView;

    open spec fn view(&self) -> PlatformTargetView {
        PlatformTargetView {
            id: self.id,
            user_id: self.user_id,
            name: self.name@,
            credentials: self.credentials@,
            api_url: opt_text(self.api_url),
        }
    }
}

/// Everything a delivery needs, joined from a job, its post and its platform
/// target.
#[derive(Debug)]
pub struct JobPayload {
    pub job_id: u128,
    pub content: String,
    pub platform_name: String,
    /// A JSON document.
    pub credentials: String,
    pub api_url: Option<String>,
    pub media_paths: Option<Vec<String>>,
}

/// What a [`JobPayload`] holds, as mathematical values.
pub struct JobPayloadView {
    pub job_id: u128,
    pub content: Seq<char>,
    pub platform_name: Seq<char>,
    pub credentials: Seq<char>,
    pub api_url: Option<Seq<char>>,
    pub media_paths: Option<Seq<Seq<char>>>,
}

impl View for JobPayload {
    type V = JobPayloadView;

    open spec fn view(&self) -> JobPayloadView {
        JobPayloadView {
            job_id: self.job_id,
            content: self.content@,
            platform_name: self.platform_name@,
            credentials: self.credentials@,
            api_url: opt_text(self.api_url),
            media_paths: opt_texts(self.media_paths),
        }
    }
}

impl Clone for JobPayload {
    fn clone(&self) -> (r: JobPayload)
        ensures
            r@ == self@,
    {
        JobPayload {
            job_id: self.job_id,
            content: self.content.clone(),
            platform_name: self.platform_name.clone(),
            credentials: self.credentials.clone(),
            api_url: copy_opt_text(&self.api_url),
            media_paths: copy_opt_texts(&self.media_paths),
        }
    }
}

/// Why the store refused an operation.
#[derive(Clone, Copy, Debug, PartialEq, Eq, Structural)]
pub enum StoreError {
    /// The job, or a row it refers to, is not in the store.
    NotFound,
    /// A row with this identifier is already in the table.
    DuplicateId,
    /// The next job has been attempted so often that the counter is full.
    AttemptOverflow,
    /// The job is not held by a worker, so there is no outcome to record.
    NotProcessing,
    /// The post is a draft, and only a scheduled post has jobs.
    DraftPost,
}

/// The three tables of the store, as mathematical values.
pub struct StoreView {
    pub jobs: Seq<JobView>,
    pub posts: Seq<PostView>,
    pub platforms: Seq<PlatformTargetView>,
}

/// The identifiers of the jobs, in table order.
pub open spec fn job_ids(jobs: Seq<JobView>) -> Seq<u128> {
    Seq::new(jobs.len(), |i: int| jobs[i].id)
}

/// The identifiers of the posts, in table order.
pub open spec fn post_ids(posts: Seq<PostView>) -> Seq<u128> {
    Seq::new(posts.len(), |i: int| posts[i].id)
}

/// The identifiers of the platform targets, in table order.
pub open spec fn platform_ids(platforms: Seq<PlatformTargetView>) -> Seq<u128> {
    Seq::new(platforms.len(), |i: int| platforms[i].id)
}

/// No identifier occurs twice.
pub open spec fn distinct(ids: Seq<u128>) -> bool {
    forall|i: int, j: int| 0 <= i < j < ids.len() ==> ids[i] != ids[j]
}

/// `id` stands at index `i`.
pub open spec fn stands_at(ids: Seq<u128>, id: u128, i: int) -> bool {
    0 <= i < ids.len() && ids[i] == id
}

/// The index at which `id` stands, if it is there at all. Where the
/// identifiers are distinct there is at most one such index.
pub open spec fn position(ids: Seq<u128>, id: u128) -> Option<int> {
    if exists|i: int| stands_at(ids, id, i) {
        Some(choose|i: int| stands_at(ids, id, i))
    } else {
        None
    }
}

impl StoreView {
    /// Each table identifies its rows.
    pub open spec fn wf(self) -> bool {
        &&& distinct(job_ids(self.jobs))
        &&& distinct(post_ids(self.posts))
        &&& distinct(platform_ids(self.platforms))
    }
}

/// A job may be claimed at time `now`: it is pending and its time has come.
pub open spec fn eligible(job: JobView, now: i128) -> bool {
    job.status == JobStatus::Pending && job.scheduled_for <= now
}

/// Job `i` is served before job `k`: it is scheduled earlier, or at the same
/// time and stands earlier in the table.
pub open spec fn served_before(jobs: Seq<JobView>, i: int, k: int) -> bool {
    jobs[i].scheduled_for < jobs[k].scheduled_for || (jobs[i].scheduled_for
        == jobs[k].scheduled_for && i <= k)
}

/// Among the first `n` jobs, job `i` is eligible and is served before every
/// other eligible one.
pub open spec fn leads(jobs: Seq<JobView>, now: i128, n: int, i: int) -> bool {
    &&& 0 <= i < n <= jobs.len()
    &&& eligible(jobs[i], now)
    &&& forall|k: int| 0 <= k < n && eligible(#[trigger] jobs[k], now) ==> served_before(jobs, i, k)
}

/// Job `i` is the one a claim at time `now` takes: the oldest by schedule of
/// the eligible jobs.
pub open spec fn is_next(jobs: Seq<JobView>, now: i128, i: int) -> bool {
    leads(jobs, now, jobs.len() as int, i)
}

/// The index of the job that a claim at time `now` takes, if any job is
/// eligible.
pub open spec fn next_job(jobs: Seq<JobView>, now: i128) -> Option<int> {
    if exists|i: int| is_next(jobs, now, i) {
        Some(choose|i: int| is_next(jobs, now, i))
    } else {
        None
    }
}

/// A job as the claim leaves it: held by a worker, one more attempt counted,
/// stamped with the time of the claim.
pub open spec fn claimed(job: JobView, now: i128) -> JobView {
    JobView {
        status: JobStatus::Processing,
        attempt_count: job.attempt_count + 1,
        processed_at: Some(now),
        ..job
    }
}

/// At most one job is next.
pub proof fn lemma_next_is_unique(jobs: Seq<JobView>, now: i128, i: int, k: int)
    requires
        is_next(jobs, now, i),
        is_next(jobs, now, k),
    ensures
        i == k,
{
    assert(served_before(jobs, i, k));
    assert(served_before(jobs, k, i));
}

/// The job that is next is the one `next_job` names.
pub proof fn lemma_next_job_names(jobs: Seq<JobView>, now: i128, i: int)
    requires
        is_next(jobs, now, i),
    ensures
        next_job(jobs, now) == Some(i),
{
    let c = choose|c: int| is_next(jobs, now, c);
    lemma_next_is_unique(jobs, now, i, c);
}

/// Where no job is eligible, none is next.
pub proof fn lemma_none_eligible(jobs: Seq<JobView>, now: i128)
    requires
        forall|k: int| 0 <= k < jobs.len() ==> !eligible(#[trigger] jobs[k], now),
    ensures
        next_job(jobs, now) is None,
{
}

/// The durable table of work items, with the posts and platform targets they
/// refer to. A store is well formed (`wf` of its view) when identifiers are
/// distinct within each table; every operation keeps it so.
pub struct JobStore {
    jobs: Vec<Job>,
    posts: Vec<Post>,
    platforms: Vec<PlatformTarget>,
}

impl View for JobStore {
    type V = StoreView;

    closed spec fn view(&self) -> StoreView {
        StoreView {
            jobs: Seq::new(self.jobs@.len(), |i: int| self.jobs@[i]@),
            posts: Seq::new(self.posts@.len(), |i: int| self.posts@[i]@),
            platforms: Seq::new(self.platforms@.len(), |i: int| self.platforms@[i]@),
        }
    }
}

impl JobStore {
    /// A store with no rows.
    pub fn new() -> (r: JobStore)
        ensures
            r@.jobs.len() == 0,
            r@.posts.len() == 0,
            r@.platforms.len() == 0,
            r@.wf(),
    {
        JobStore { jobs: Vec::new(), posts: Vec::new(), platforms: Vec::new() }
    }

    /// The index of the job with this identifier.
    fn find_job(&self, id: u128) -> (r: Option<usize>)
        requires
            self@.wf(),
        ensures
            match r {
                Some(i) => position(job_ids(self@.jobs), id) == Some(i as int) && i
                    < self.jobs@.len(),
                None => position(job_ids(self@.jobs), id) is None,
            },
    {
        let ghost ids = job_ids(self@.jobs);
        let mut i: usize = 0;
        while i < self.jobs.len()
            invariant
                i <= self.jobs@.len(),
                self@.wf(),
                ids == job_ids(self@.jobs),
                forall|k: int| 0 <= k < i ==> !stands_at(ids, id, k),
            decreases self.jobs@.len() - i,
        {
            if self.jobs[i].id == id {
                proof {
                    assert(stands_at(ids, id, i as int));
                    lemma_position_names(ids, id, i as int);
                }
                return Some(i);
            }
            i = i + 1;
        }
        None
    }
}

impl JobStore {
    /// The index of the post with this identifier.
    fn find_post(&self, id: u128) -> (r: Option<usize>)
        requires
            self@.wf(),
        ensures
            match r {
                Some(i) => position(post_ids(self@.posts), id) == Some(i as int) && i
                    < self.posts@.len(),
                None => position(post_ids(self@.posts), id) is None,
            },
    {
        let ghost ids = post_ids(self@.posts);
        let mut i: usize = 0;
        while i < self.posts.len()
            invariant
                i <= self.posts@.len(),
                self@.wf(),
                ids == post_ids(self@.posts),
                forall|k: int| 0 <= k < i ==> !stands_at(ids, id, k),
            decreases self.posts@.len() - i,
        {
            if self.posts[i].id == id {
                proof {
                    assert(stands_at(ids, id, i as int));
                    lemma_position_names(ids, id, i as int);
                }
                return Some(i);
            }
            i = i + 1;
        }
        None
    }

    /// The index of the platform target with this identifier.
    fn find_platform(&self, id: u128) -> (r: Option<usize>)
        requires
            self@.wf(),
        ensures
            match r {
                Some(i) => position(platform_ids(self@.platforms), id) == Some(i as int) && i
                    < self.platforms@.len(),
                None => position(platform_ids(self@.platforms), id) is None,
            },
    {
        let ghost ids = platform_ids(self@.platforms);
        let mut i: usize = 0;
        while i < self.platforms.len()
            invariant
                i <= self.platforms@.len(),
                self@.wf(),
                ids == platform_ids(self@.platforms),
                forall|k: int| 0 <= k < i ==> !stands_at(ids, id, k),
            decreases self.platforms@.len() - i,
        {
            if self.platforms[i].id == id {
                proof {
                    assert(stands_at(ids, id, i as int));
                    lemma_position_names(ids, id, i as int);
                }
                return Some(i);
            }
            i = i + 1;
        }
        None
    }

    /// Adds a job row. Refused, with the store unchanged, when a job with the
    /// same identifier is already there.
    pub fn insert_job(&mut self, job: Job) -> (r: Result<(), StoreError>)
        requires
            old(self)@.wf(),
        ensures
            final(self)@.wf(),
            match position(job_ids(old(self)@.jobs), job.id) {
                Some(_) => r == Err::<(), StoreError>(StoreError::DuplicateId) && final(self)@
                    == old(self)@,
                None => r is Ok && final(self)@ == (StoreView {
                    jobs: old(self)@.jobs.push(job@),
                    ..old(self)@
                }),
            },
    {
        match self.find_job(job.id) {
            Some(_) => Err(StoreError::DuplicateId),
            None => {
                let ghost before = self@;
                self.jobs.push(job);
                proof {
                    assert(self@.jobs =~= before.jobs.push(job@));
                    assert(self@.posts =~= before.posts);
                    assert(self@.platforms =~= before.platforms);
                    lemma_push_keeps_distinct(job_ids(before.jobs), job.id);
                    assert(job_ids(self@.jobs) =~= job_ids(before.jobs).push(job.id));
                }
                Ok(())
            },
        }
    }

    /// Adds a post row. Refused, with the store unchanged, when a post with
    /// the same identifier is already there.
    pub fn insert_post(&mut self, post: Post) -> (r: Result<(), StoreError>)
        requires
            old(self)@.wf(),
        ensures
            final(self)@.wf(),
            match position(post_ids(old(self)@.posts), post.id) {
                Some(_) => r == Err::<(), StoreError>(StoreError::DuplicateId) && final(self)@
                    == old(self)@,
                None => r is Ok && final(self)@ == (StoreView {
                    posts: old(self)@.posts.push(post@),
                    ..old(self)@
                }),
            },
    {
        match self.find_post(post.id) {
            Some(_) => Err(StoreError::DuplicateId),
            None => {
                let ghost before = self@;
                self.posts.push(post);
                proof {
                    assert(self@.posts =~= before.posts.push(post@));
                    assert(self@.jobs =~= before.jobs);
                    assert(self@.platforms =~= before.platforms);
                    lemma_push_keeps_distinct(post_ids(before.posts), post.id);
                    assert(post_ids(self@.posts) =~= post_ids(before.posts).push(post.id));
                }
                Ok(())
            },
        }
    }

    /// Adds a platform target. Refused, with the store unchanged, when a
    /// target with the same identifier is already there.
    pub fn insert_platform(&mut self, target: PlatformTarget) -> (r: Result<(), StoreError>)
        requires
            old(self)@.wf(),
        ensures
            final(self)@.wf(),
            match position(platform_ids(old(self)@.platforms), target.id) {
                Some(_) => r == Err::<(), StoreError>(StoreError::DuplicateId) && final(self)@
                    == old(self)@,
                None => r is Ok && final(self)@ == (StoreView {
                    platforms: old(self)@.platforms.push(target@),
                    ..old(self)@
                }),
            },
    {
        match self.find_platform(target.id) {
            Some(_) => Err(StoreError::DuplicateId),
            None => {
                let ghost before = self@;
                self.platforms.push(target);
                proof {
                    assert(self@.platforms =~= before.platforms.push(target@));
                    assert(self@.jobs =~= before.jobs);
                    assert(self@.posts =~= before.posts);
                    lemma_push_keeps_distinct(platform_ids(before.platforms), target.id);
                    assert(platform_ids(self@.platforms) =~= platform_ids(before.platforms).push(
                        target.id,
                    ));
                }
                Ok(())
            },
        }
    }

    /// A copy of the job with this identifier, if the store holds one.
    pub fn job(&self, id: u128) -> (r: Option<Job>)
        requires
            self@.wf(),
        ensures
            match position(job_ids(self@.jobs), id) {
                Some(i) => r matches Some(job) && job@ == self@.jobs[i],
                None => r is None,
            },
    {
        match self.find_job(id) {
            Some(i) => Some(self.jobs[i].clone()),
            None => None,
        }
    }
}

/// An identifier that stands nowhere in a list can be added to it.
pub proof fn lemma_push_keeps_distinct(ids: Seq<u128>, id: u128)
    requires
        distinct(ids),
        position(ids, id) is None,
    ensures
        distinct(ids.push(id)),
{
    assert forall|i: int, j: int| 0 <= i < j < ids.push(id).len() implies ids.push(id)[i]
        != ids.push(id)[j] by {
        if j == ids.len() {
            assert(!stands_at(ids, id, i));
        }
    }
}

/// Where identifiers are distinct, the index at which one stands is the one
/// `position` names.
pub proof fn lemma_position_names(ids: Seq<u128>, id: u128, i: int)
    requires
        distinct(ids),
        stands_at(ids, id, i),
    ensures
        position(ids, id) == Some(i),
{
    let c = choose|c: int| stands_at(ids, id, c);
    if c < i {
        assert(ids[c] != ids[i]);
    } else if i < c {
        assert(ids[i] != ids[c]);
    }
}

/// The store after a claim at time `now`: the next job, if there is one and
/// its attempt counter has room, is held by a worker; nothing else changes.
pub open spec fn after_claim(s: StoreView, now: i128) -> StoreView {
    match next_job(s.jobs, now) {
        Some(i) if s.jobs[i].attempt_count < u32::MAX => StoreView {
            jobs: s.jobs.update(i, claimed(s.jobs[i], now)),
            ..s
        },
        _ => s,
    }
}

/// The identifier of the job that a claim at time `now` hands out, if it
/// hands one out.
pub open spec fn claim_result(s: StoreView, now: i128) -> Option<u128> {
    match next_job(s.jobs, now) {
        Some(i) if s.jobs[i].attempt_count < u32::MAX => Some(s.jobs[i].id),
        _ => None,
    }
}

/// The identifier of the job in the answer to a claim, if there is one.
pub open spec fn handed_out(r: Result<Option<Job>, StoreError>) -> Option<u128> {
    match r {
        Ok(Some(job)) => Some(job.id),
        _ => None,
    }
}

/// Claims the next job: the oldest by schedule of the jobs that are pending
/// and due at `now`, the earlier row first among equals. The job passes to
/// the caller in state `Processing`, with one more attempt counted and
/// `processed_at` set to `now`, and the store holds it so.
///
/// Returns `Ok(None)` when no job is eligible. Fails with `AttemptOverflow`
/// when the next job's attempt counter is full. In both cases the store is
/// unchanged.
pub fn poll_jobs(store: &mut JobStore, now: i128) -> (r: Result<Option<Job>, StoreError>)
    requires
        old(store)@.wf(),
    ensures
        final(store)@.wf(),
        final(store)@ == after_claim(old(store)@, now),
        handed_out(r) == claim_result(old(store)@, now),
        match next_job(old(store)@.jobs, now) {
            None => r matches Ok(None),
            Some(i) => if old(store)@.jobs[i].attempt_count < u32::MAX {
                r matches Ok(Some(job)) && job@ == claimed(old(store)@.jobs[i], now)
            } else {
                r == Err::<Option<Job>, StoreError>(StoreError::AttemptOverflow)
            },
        },
{
    let ghost jobs = store@.jobs;
    let mut best: Option<usize> = None;
    let mut i: usize = 0;
    while i < store.jobs.len()
        invariant
            i <= store.jobs@.len(),
            jobs == store@.jobs,
            jobs.len() == store.jobs@.len(),
            match best {
                Some(b) => leads(jobs, now, i as int, b as int),
                None => forall|k: int| 0 <= k < i ==> !eligible(#[trigger] jobs[k], now),
            },
        decreases store.jobs@.len() - i,
    {
        let job = &store.jobs[i];
        assert(job@ == jobs[i as int]);
        if job.status == JobStatus::Pending && job.scheduled_for <= now {
            match best {
                Some(b) => {
                    assert(store.jobs@[b as int]@ == jobs[b as int]);
                    if job.scheduled_for < store.jobs[b].scheduled_for {
                        best = Some(i);
                    }
                },
                None => {
                    best = Some(i);
                },
            }
        }
        i = i + 1;
    }
    match best {
        None => {
            proof {
                lemma_none_eligible(jobs, now);
            }
            Ok(None)
        },
        Some(b) => {
            proof {
                lemma_next_job_names(jobs, now, b as int);
            }
            let held = &store.jobs[b];
            assert(held@ == jobs[b as int]);
            if held.attempt_count == u32::MAX {
                Err(StoreError::AttemptOverflow)
            } else {
                let taken = Job {
                    id: held.id,
                    post_id: held.post_id,
                    platform_id: held.platform_id,
                    status: JobStatus::Processing,
                    scheduled_for: held.scheduled_for,
                    attempt_count: held.attempt_count + 1,
                    last_error: copy_opt_text(&held.last_error),
                    created_at: held.created_at,
                    processed_at: Some(now),
                };
                let handed = taken.clone();
                let ghost before = store@;
                store.jobs.set(b, taken);
                proof {
                    assert(store@.jobs =~= before.jobs.update(b as int, claimed(jobs[b as int], now)));
                    assert(store@.posts =~= before.posts);
                    assert(store@.platforms =~= before.platforms);
                    assert(job_ids(store@.jobs) =~= job_ids(before.jobs));
                }
                Ok(Some(handed))
            }
        },
    }
}

/// The payload of a job: its identifier, the content and media of its post,
/// and the name, credentials and URL of its platform target. `None` when the
/// job, its post or its platform target is not in the store.
pub open spec fn payload_of(s: StoreView, job_id: u128) -> Option<JobPayloadView> {
    match position(job_ids(s.jobs), job_id) {
        Some(j) => match (
            position(post_ids(s.posts), s.jobs[j].post_id),
            position(platform_ids(s.platforms), s.jobs[j].platform_id),
        ) {
            (Some(p), Some(t)) => Some(
                JobPayloadView {
                    job_id,
                    content: s.posts[p].content,
                    platform_name: s.platforms[t].name,
                    credentials: s.platforms[t].credentials,
                    api_url: s.platforms[t].api_url,
                    media_paths: s.posts[p].media_paths,
                },
            ),
            _ => None,
        },
        None => None,
    }
}

/// Assembles the payload of a job from the three tables. The store is only
/// read, so asking twice gives the same payload.
///
/// Fails with `NotFound` when the job, its post or its platform target is not
/// in the store.
pub fn fetch_job_details(store: &JobStore, job_id: u128) -> (r: Result<JobPayload, StoreError>)
    requires
        store@.wf(),
    ensures
        match payload_of(store@, job_id) {
            Some(payload) => r matches Ok(found) && found@ == payload,
            None => r == Err::<JobPayload, StoreError>(StoreError::NotFound),
        },
{
    let j = match store.find_job(job_id) {
        Some(j) => j,
        None => {
            return Err(StoreError::NotFound);
        },
    };
    let job = &store.jobs[j];
    assert(job@ == store@.jobs[j as int]);
    let p = match store.find_post(job.post_id) {
        Some(p) => p,
        None => {
            return Err(StoreError::NotFound);
        },
    };
    let t = match store.find_platform(job.platform_id) {
        Some(t) => t,
        None => {
            return Err(StoreError::NotFound);
        },
    };
    let post = &store.posts[p];
    let target = &store.platforms[t];
    assert(post@ == store@.posts[p as int]);
    assert(target@ == store@.platforms[t as int]);
    Ok(
        JobPayload {
            job_id,
            content: post.content.clone(),
            platform_name: target.name.clone(),
            credentials: target.credentials.clone(),
            api_url: copy_opt_text(&target.api_url),
            media_paths: copy_opt_texts(&post.media_paths),
        },
    )
}

/// A job as its outcome leaves it: done after a delivery; failed, with the
/// outcome's diagnostic as its last error, after anything else.
pub open spec fn recorded(job: JobView, outcome: OutcomeView) -> JobView {
    match failure_text(outcome) {
        None => JobView { status: JobStatus::Done, ..job },
        Some(text) => JobView { status: JobStatus::Failed, last_error: Some(text), ..job },
    }
}

/// The store after an outcome is recorded for a job: the job, if it is there
/// and held by a worker, is as the outcome leaves it; nothing else changes.
pub open spec fn after_outcome(s: StoreView, job_id: u128, outcome: OutcomeView) -> StoreView {
    match position(job_ids(s.jobs), job_id) {
        Some(i) if s.jobs[i].status == JobStatus::Processing => StoreView {
            jobs: s.jobs.update(i, recorded(s.jobs[i], outcome)),
            ..s
        },
        _ => s,
    }
}

/// Records the outcome of a delivery: the job leaves `Processing` for `Done`
/// or `Failed`, so that no job stays claimed for ever.
///
/// Fails with `NotFound` when the store holds no such job, and with
/// `NotProcessing` when the job is not held by a worker. In both cases the
/// store is unchanged.
pub fn record_outcome(store: &mut JobStore, job_id: u128, outcome: &Outcome) -> (r: Result<
    (),
    StoreError,
>)
    requires
        old(store)@.wf(),
    ensures
        final(store)@.wf(),
        final(store)@ == after_outcome(old(store)@, job_id, outcome@),
        match position(job_ids(old(store)@.jobs), job_id) {
            None => r == Err::<(), StoreError>(StoreError::NotFound),
            Some(i) => if old(store)@.jobs[i].status == JobStatus::Processing {
                r is Ok
            } else {
                r == Err::<(), StoreError>(StoreError::NotProcessing)
            },
        },
{
    let i = match store.find_job(job_id) {
        Some(i) => i,
        None => {
            return Err(StoreError::NotFound);
        },
    };
    let held = &store.jobs[i];
    assert(held@ == store@.jobs[i as int]);
    if held.status != JobStatus::Processing {
        return Err(StoreError::NotProcessing);
    }
    let failure = outcome.failure();
    let closed = match failure {
        None => Job {
            id: held.id,
            post_id: held.post_id,
            platform_id: held.platform_id,
            status: JobStatus::Done,
            scheduled_for: held.scheduled_for,
            attempt_count: held.attempt_count,
            last_error: copy_opt_text(&held.last_error),
            created_at: held.created_at,
            processed_at: held.processed_at,
        },
        Some(text) => Job {
            id: held.id,
            post_id: held.post_id,
            platform_id: held.platform_id,
            status: JobStatus::Failed,
            scheduled_for: held.scheduled_for,
            attempt_count: held.attempt_count,
            last_error: Some(text),
            created_at: held.created_at,
            processed_at: held.processed_at,
        },
    };
    let ghost before = store@;
    store.jobs.set(i, closed);
    proof {
        assert(store@.jobs =~= before.jobs.update(i as int, recorded(before.jobs[i as int], outcome@)));
        assert(store@.posts =~= before.posts);
        assert(store@.platforms =~= before.platforms);
        assert(job_ids(store@.jobs) =~= job_ids(before.jobs));
    }
    Ok(())
}

/// The store after a post is marked as scheduled. A post that is not there
/// leaves the store as it is.
pub open spec fn after_scheduling(s: StoreView, post_id: u128) -> StoreView {
    match position(post_ids(s.posts), post_id) {
        Some(p) => StoreView {
            posts: s.posts.update(p, PostView { status: PostStatus::Scheduled, ..s.posts[p] }),
            ..s
        },
        None => s,
    }
}

/// Why a job cannot be scheduled, if it cannot: its identifier is taken, its
/// post is missing or still a draft, or its platform target is missing.
pub open spec fn schedule_error(
    s: StoreView,
    job_id: u128,
    post_id: u128,
    platform_id: u128,
) -> Option<StoreError> {
    if position(job_ids(s.jobs), job_id) is Some {
        Some(StoreError::DuplicateId)
    } else {
        match position(post_ids(s.posts), post_id) {
            None => Some(StoreError::NotFound),
            Some(p) => if s.posts[p].status != PostStatus::Scheduled {
                Some(StoreError::DraftPost)
            } else if position(platform_ids(s.platforms), platform_id) is None {
                Some(StoreError::NotFound)
            } else {
                None
            },
        }
    }
}

/// The job that scheduling adds: pending, never attempted.
pub open spec fn fresh_job(job_id: u128, post_id: u128, platform_id: u128, scheduled_for: i128) -> JobView {
    JobView {
        id: job_id,
        post_id,
        platform_id,
        status: JobStatus::Pending,
        scheduled_for: scheduled_for as int,
        attempt_count: 0,
        last_error: None,
        created_at: None,
        processed_at: None,
    }
}

/// Marks a post as scheduled. A post never goes back to being a draft.
///
/// Fails with `NotFound`, and leaves the store unchanged, when the store
/// holds no such post.
pub fn mark_scheduled(store: &mut JobStore, post_id: u128) -> (r: Result<(), StoreError>)
    requires
        old(store)@.wf(),
    ensures
        final(store)@.wf(),
        final(store)@ == after_scheduling(old(store)@, post_id),
        match position(post_ids(old(store)@.posts), post_id) {
            Some(_) => r is Ok,
            None => r == Err::<(), StoreError>(StoreError::NotFound),
        },
{
    let p = match store.find_post(post_id) {
        Some(p) => p,
        None => {
            return Err(StoreError::NotFound);
        },
    };
    let held = &store.posts[p];
    assert(held@ == store@.posts[p as int]);
    let marked = Post {
        id: held.id,
        user_id: held.user_id,
        content: held.content.clone(),
        status: PostStatus::Scheduled,
        media_paths: copy_opt_texts(&held.media_paths),
    };
    let ghost before = store@;
    store.posts.set(p, marked);
    proof {
        assert(store@.posts =~= before.posts.update(
            p as int,
            PostView { status: PostStatus::Scheduled, ..before.posts[p as int] },
        ));
        assert(store@.jobs =~= before.jobs);
        assert(store@.platforms =~= before.platforms);
        assert(post_ids(store@.posts) =~= post_ids(before.posts));
    }
    Ok(())
}

/// Schedules the delivery of a post to a platform target at `scheduled_for`:
/// the store gets a pending job for it.
///
/// Fails as [`schedule_error`] says, and then leaves the store unchanged.
pub fn schedule_job(
    store: &mut JobStore,
    job_id: u128,
    post_id: u128,
    platform_id: u128,
    scheduled_for: i128,
) -> (r: Result<(), StoreError>)
    requires
        old(store)@.wf(),
    ensures
        final(store)@.wf(),
        match schedule_error(old(store)@, job_id, post_id, platform_id) {
            Some(error) => r == Err::<(), StoreError>(error) && final(store)@ == old(store)@,
            None => r is Ok && final(store)@ == (StoreView {
                jobs: old(store)@.jobs.push(fresh_job(job_id, post_id, platform_id, scheduled_for)),
                ..old(store)@
            }),
        },
{
    if store.find_job(job_id).is_some() {
        return Err(StoreError::DuplicateId);
    }
    let p = match store.find_post(post_id) {
        Some(p) => p,
        None => {
            return Err(StoreError::NotFound);
        },
    };
    assert(store.posts@[p as int]@ == store@.posts[p as int]);
    if store.posts[p].status != PostStatus::Scheduled {
        return Err(StoreError::DraftPost);
    }
    if store.find_platform(platform_id).is_none() {
        return Err(StoreError::NotFound);
    }
    store.insert_job(Job::new(job_id, post_id, platform_id, scheduled_for))
}

} // verus!
