//! What a run of claims returns: each job at most once, never before its
//! time, and the older before the younger.

use vstd::prelude::*;
use crate::dispatcher::OutcomeView;
use crate::job_queue::{
    after_claim, after_outcome, claim_result, fresh_job, lemma_position_names, platform_ids, post_ids,
    schedule_error, claimed, eligible, is_next, job_ids, leads, lemma_next_job_names,
    lemma_none_eligible, next_job, payload_of, position, served_before, JobStatus, JobView,
    StoreView,
};

verus! {

/// What successive calls of `poll_jobs` hand out, one call at each of
/// `times`, each on the store as the call before left it.
pub open spec fn claims(s: StoreView, times: Seq<i128>) -> Seq<Option<u128>>
    decreases times.len(),
{
    if times.len() == 0 {
        Seq::empty()
    } else {
        seq![claim_result(s, times[0])] + claims(after_claim(s, times[0]), times.drop_first())
    }
}

/// There is one result for each claim.
pub proof fn lemma_claims_len(s: StoreView, times: Seq<i128>)
    ensures
        claims(s, times).len() == times.len(),
    decreases times.len(),
{
    if times.len() > 0 {
        lemma_claims_len(after_claim(s, times[0]), times.drop_first());
    }
}

/// The first result is that of a claim on the store as it stands; the others
/// are those of the remaining claims on the store that the first one left.
pub proof fn lemma_claims_unfold(s: StoreView, times: Seq<i128>, k: int)
    requires
        0 <= k < times.len(),
    ensures
        k == 0 ==> claims(s, times)[k] == claim_result(s, times[0]),
        k > 0 ==> claims(s, times)[k] == claims(after_claim(s, times[0]), times.drop_first())[k
            - 1],
{
    lemma_claims_len(after_claim(s, times[0]), times.drop_first());
}

/// Among the first `n` jobs, if one is eligible then one leads.
pub proof fn lemma_leader_exists(jobs: Seq<JobView>, now: i128, n: int) -> (b: int)
    requires
        0 <= n <= jobs.len(),
        exists|k: int| 0 <= k < n && eligible(#[trigger] jobs[k], now),
    ensures
        leads(jobs, now, n, b),
    decreases n,
{
    let last = n - 1;
    if exists|k: int| 0 <= k < last && eligible(#[trigger] jobs[k], now) {
        let p = lemma_leader_exists(jobs, now, last);
        if eligible(jobs[last], now) && jobs[last].scheduled_for < jobs[p].scheduled_for {
            last
        } else {
            p
        }
    } else {
        let w = choose|k: int| 0 <= k < n && eligible(#[trigger] jobs[k], now);
        assert(w == last);
        last
    }
}

/// A claim hands out a job exactly when some job is eligible, and the job it
/// takes is eligible: pending, and scheduled no later than the time of the
/// claim.
pub proof fn lemma_next_job_is_eligible(jobs: Seq<JobView>, now: i128)
    ensures
        next_job(jobs, now) is Some <==> exists|k: int|
            0 <= k < jobs.len() && eligible(#[trigger] jobs[k], now),
        next_job(jobs, now) matches Some(i) ==> is_next(jobs, now, i) && jobs[i].status
            == JobStatus::Pending && jobs[i].scheduled_for <= now,
{
    if exists|k: int| 0 <= k < jobs.len() && eligible(#[trigger] jobs[k], now) {
        let b = lemma_leader_exists(jobs, now, jobs.len() as int);
        lemma_next_job_names(jobs, now, b);
    }
    if let Some(i) = next_job(jobs, now) {
        assert(is_next(jobs, now, i));
        assert(eligible(jobs[i], now));
    }
}

/// A claim changes no identifier and no schedule, leaves posts and platform
/// targets alone, and never makes a job pending.
pub proof fn lemma_claim_frame(s: StoreView, now: i128)
    requires
        s.wf(),
    ensures
        after_claim(s, now).wf(),
        after_claim(s, now).jobs.len() == s.jobs.len(),
        after_claim(s, now).posts == s.posts,
        after_claim(s, now).platforms == s.platforms,
        job_ids(after_claim(s, now).jobs) == job_ids(s.jobs),
        forall|k: int|
            0 <= k < s.jobs.len() ==> {
                let before = #[trigger] s.jobs[k];
                let after = after_claim(s, now).jobs[k];
                &&& after.id == before.id
                &&& after.post_id == before.post_id
                &&& after.platform_id == before.platform_id
                &&& after.scheduled_for == before.scheduled_for
                &&& (after.status == JobStatus::Pending ==> after == before)
            },
{
    lemma_next_job_is_eligible(s.jobs, now);
    assert(job_ids(after_claim(s, now).jobs) =~= job_ids(s.jobs));
}

/// On a store where no job is eligible at `now`, claims at `now` hand out
/// nothing, however many are made.
pub proof fn lemma_nothing_eligible_nothing_claimed(s: StoreView, now: i128, times: Seq<i128>)
    requires
        forall|k: int| 0 <= k < s.jobs.len() ==> !eligible(#[trigger] s.jobs[k], now),
        forall|k: int| 0 <= k < times.len() ==> times[k] == now,
    ensures
        forall|k: int| 0 <= k < times.len() ==> claims(s, times)[k] is None,
    decreases times.len(),
{
    if times.len() > 0 {
        lemma_none_eligible(s.jobs, now);
        assert(after_claim(s, times[0]) == s);
        lemma_nothing_eligible_nothing_claimed(s, now, times.drop_first());
        assert forall|k: int| 0 <= k < times.len() implies claims(s, times)[k] is None by {
            lemma_claims_unfold(s, times, k);
        }
    }
}

/// At most one claim: when exactly one job is eligible at `now`, then of any
/// number of claims made at `now` the first hands out that job and every
/// other one hands out nothing.
///
/// The job's attempt counter must have room; with a full counter the claim is
/// refused and the job stays pending.
pub proof fn lemma_single_job_claimed_once(s: StoreView, now: i128, e: int, times: Seq<i128>)
    requires
        0 <= e < s.jobs.len(),
        eligible(s.jobs[e], now),
        forall|k: int| 0 <= k < s.jobs.len() && k != e ==> !eligible(#[trigger] s.jobs[k], now),
        s.jobs[e].attempt_count < u32::MAX,
        times.len() >= 1,
        forall|k: int| 0 <= k < times.len() ==> times[k] == now,
    ensures
        claims(s, times).len() == times.len(),
        claims(s, times)[0] == Some(s.jobs[e].id),
        forall|k: int| 1 <= k < times.len() ==> claims(s, times)[k] is None,
{
    lemma_claims_len(s, times);
    assert(is_next(s.jobs, now, e));
    lemma_next_job_names(s.jobs, now, e);
    let after = after_claim(s, now);
    assert(after.jobs == s.jobs.update(e, claimed(s.jobs[e], now)));
    assert forall|k: int| 0 <= k < after.jobs.len() implies !eligible(
        #[trigger] after.jobs[k],
        now,
    ) by {
        if k != e {
            assert(!eligible(s.jobs[k], now));
        }
    }
    lemma_nothing_eligible_nothing_claimed(after, now, times.drop_first());
    lemma_claims_unfold(s, times, 0);
    assert forall|k: int| 1 <= k < times.len() implies claims(s, times)[k] is None by {
        lemma_claims_unfold(s, times, k);
    }
}

/// Eligibility gating: a job is never handed out by a claim made before its
/// scheduled time.
pub proof fn lemma_future_job_never_claimed(s: StoreView, times: Seq<i128>, i: int)
    requires
        s.wf(),
        0 <= i < s.jobs.len(),
        forall|k: int| 0 <= k < times.len() ==> times[k] < s.jobs[i].scheduled_for,
    ensures
        forall|k: int| 0 <= k < times.len() ==> claims(s, times)[k] != Some(s.jobs[i].id),
    decreases times.len(),
{
    if times.len() > 0 {
        let now = times[0];
        let after = after_claim(s, now);
        lemma_claim_frame(s, now);
        lemma_next_job_is_eligible(s.jobs, now);
        if let Some(c) = next_job(s.jobs, now) {
            if c != i {
                assert(job_ids(s.jobs)[c] != job_ids(s.jobs)[i]);
            }
        }
        assert(claim_result(s, now) != Some(s.jobs[i].id));
        assert(after.jobs[i].id == s.jobs[i].id && after.jobs[i].scheduled_for
            == s.jobs[i].scheduled_for) by {
            let _ = s.jobs[i];
        }
        lemma_future_job_never_claimed(after, times.drop_first(), i);
        assert forall|k: int| 0 <= k < times.len() implies claims(s, times)[k] != Some(
            s.jobs[i].id,
        ) by {
            lemma_claims_unfold(s, times, k);
        }
    }
}

/// Ordering: of two jobs that are both eligible, the one scheduled earlier is
/// handed out first. If a run of claims, made at times that do not go back,
/// hands out job `b`, an earlier claim of the run has handed out job `a`.
pub proof fn lemma_older_job_claimed_first(s: StoreView, times: Seq<i128>, a: int, b: int)
    requires
        s.wf(),
        0 <= a < s.jobs.len(),
        0 <= b < s.jobs.len(),
        s.jobs[a].scheduled_for < s.jobs[b].scheduled_for,
        times.len() > 0 ==> eligible(s.jobs[a], times[0]),
        forall|j: int, k: int| 0 <= j <= k < times.len() ==> times[j] <= times[k],
    ensures
        forall|k: int|
            0 <= k < times.len() && #[trigger] claims(s, times)[k] == Some(s.jobs[b].id)
                ==> exists|m: int|
                0 <= m < k && #[trigger] claims(s, times)[m] == Some(s.jobs[a].id),
    decreases times.len(),
{
    if times.len() > 0 {
        let now = times[0];
        let after = after_claim(s, now);
        let rest = times.drop_first();
        lemma_claim_frame(s, now);
        lemma_next_job_is_eligible(s.jobs, now);
        lemma_claims_unfold(s, times, 0);
        let id_a = s.jobs[a].id;
        let id_b = s.jobs[b].id;
        assert(job_ids(s.jobs)[a] != job_ids(s.jobs)[b]);
        assert(after.jobs[a].id == id_a && after.jobs[a].scheduled_for == s.jobs[a].scheduled_for)
            by {
            let _ = s.jobs[a];
        }
        assert(after.jobs[b].id == id_b && after.jobs[b].scheduled_for == s.jobs[b].scheduled_for)
            by {
            let _ = s.jobs[b];
        }
        // The first claim cannot take `b`: `a` is eligible and scheduled earlier.
        let c = next_job(s.jobs, now)->0;
        assert(next_job(s.jobs, now) is Some) by {
            assert(eligible(s.jobs[a], now));
        }
        assert(is_next(s.jobs, now, c));
        assert(served_before(s.jobs, c, a));
        assert(c != b);
        assert(job_ids(s.jobs)[c] != job_ids(s.jobs)[b]);
        assert(claims(s, times)[0] != Some(id_b));
        if claims(s, times)[0] == Some(id_a) {
            assert forall|k: int|
                0 <= k < times.len() && #[trigger] claims(s, times)[k] == Some(
                    id_b,
                ) implies exists|m: int|
                0 <= m < k && #[trigger] claims(s, times)[m] == Some(id_a) by {
                assert(k > 0);
                assert(claims(s, times)[0] == Some(id_a));
            }
        } else {
            // `a` was not taken, so it is still pending, and stays eligible.
            if c == a {
                // The claim was refused: the store is as it was.
                assert(after == s);
            } else {
                assert(after.jobs[a] == s.jobs[a]);
            }
            if rest.len() > 0 {
                assert(rest[0] == times[1]);
                assert(times[0] <= times[1]);
                assert(eligible(after.jobs[a], rest[0]));
            }
            assert forall|j: int, k: int| 0 <= j <= k < rest.len() implies rest[j] <= rest[k] by {
                assert(rest[j] == times[j + 1]);
                assert(rest[k] == times[k + 1]);
            }
            lemma_older_job_claimed_first(after, rest, a, b);
            lemma_claims_len(after, rest);
            assert forall|k: int|
                0 <= k < times.len() && #[trigger] claims(s, times)[k] == Some(
                    id_b,
                ) implies exists|m: int|
                0 <= m < k && #[trigger] claims(s, times)[m] == Some(id_a) by {
                lemma_claims_unfold(s, times, k);
                assert(k > 0);
                assert(claims(after, rest)[k - 1] == Some(id_b));
                let m0 = choose|m: int|
                    0 <= m < k - 1 && #[trigger] claims(after, rest)[m] == Some(id_a);
                lemma_claims_unfold(s, times, m0 + 1);
                assert(claims(s, times)[m0 + 1] == Some(id_a));
            }
        }
    }
}

/// Only pending jobs are claimed: a job that is held by a worker, done or
/// failed is handed out by no later claim, whenever it is made.
pub proof fn lemma_settled_job_never_claimed(s: StoreView, times: Seq<i128>, i: int)
    requires
        s.wf(),
        0 <= i < s.jobs.len(),
        s.jobs[i].status != JobStatus::Pending,
    ensures
        forall|k: int| 0 <= k < times.len() ==> claims(s, times)[k] != Some(s.jobs[i].id),
    decreases times.len(),
{
    if times.len() > 0 {
        let now = times[0];
        let after = after_claim(s, now);
        lemma_claim_frame(s, now);
        lemma_next_job_is_eligible(s.jobs, now);
        if let Some(c) = next_job(s.jobs, now) {
            if c != i {
                assert(job_ids(s.jobs)[c] != job_ids(s.jobs)[i]);
            }
        }
        assert(claim_result(s, now) != Some(s.jobs[i].id));
        assert(after.jobs[i].id == s.jobs[i].id && after.jobs[i].status != JobStatus::Pending) by {
            let _ = s.jobs[i];
        }
        lemma_settled_job_never_claimed(after, times.drop_first(), i);
        assert forall|k: int| 0 <= k < times.len() implies claims(s, times)[k] != Some(
            s.jobs[i].id,
        ) by {
            lemma_claims_unfold(s, times, k);
        }
    }
}

/// No job is handed out twice: in any run of claims, whenever they are made,
/// two different claims never hand out the same job.
pub proof fn lemma_no_job_claimed_twice(s: StoreView, times: Seq<i128>, j: int, k: int)
    requires
        s.wf(),
        0 <= j < k < times.len(),
        claims(s, times)[j] is Some,
    ensures
        claims(s, times)[j] != claims(s, times)[k],
    decreases times.len(),
{
    let now = times[0];
    let after = after_claim(s, now);
    let rest = times.drop_first();
    lemma_claim_frame(s, now);
    lemma_claims_unfold(s, times, j);
    lemma_claims_unfold(s, times, k);
    if j == 0 {
        let c = next_job(s.jobs, now)->0;
        lemma_next_job_is_eligible(s.jobs, now);
        assert(after.jobs[c].status == JobStatus::Processing);
        assert(after.jobs[c].id == s.jobs[c].id);
        lemma_settled_job_never_claimed(after, rest, c);
    } else {
        lemma_no_job_claimed_twice(after, rest, j - 1, k - 1);
    }
}

/// A job whose outcome is recorded is settled: once a worker has recorded
/// the outcome of the job it holds, no later claim hands that job out again.
pub proof fn lemma_recorded_job_never_claimed(
    s: StoreView,
    job_id: u128,
    outcome: OutcomeView,
    times: Seq<i128>,
)
    requires
        s.wf(),
        position(job_ids(s.jobs), job_id) matches Some(i) && s.jobs[i].status
            == JobStatus::Processing,
    ensures
        after_outcome(s, job_id, outcome).wf(),
        forall|k: int|
            0 <= k < times.len() ==> claims(after_outcome(s, job_id, outcome), times)[k] != Some(
                job_id,
            ),
{
    let i = position(job_ids(s.jobs), job_id)->0;
    let after = after_outcome(s, job_id, outcome);
    assert(job_ids(s.jobs)[i] == job_id);
    assert(job_ids(after.jobs) =~= job_ids(s.jobs));
    assert(after.jobs[i].status != JobStatus::Pending);
    lemma_settled_job_never_claimed(after, times, i);
}

/// A claim changes no payload: what `fetch_job_details` assembles for a job
/// is the same before and after any claim.
pub proof fn lemma_claim_keeps_payloads(s: StoreView, now: i128, job_id: u128)
    requires
        s.wf(),
    ensures
        payload_of(after_claim(s, now), job_id) == payload_of(s, job_id),
{
    lemma_claim_frame(s, now);
    let after = after_claim(s, now);
    match position(job_ids(s.jobs), job_id) {
        Some(j) => {
            let _ = s.jobs[j];
            assert(after.jobs[j].post_id == s.jobs[j].post_id);
            assert(after.jobs[j].platform_id == s.jobs[j].platform_id);
        },
        None => {},
    }
}

/// A scheduled job can be delivered: the payload of a job that `schedule_job`
/// has added can be assembled.
pub proof fn lemma_scheduled_job_has_payload(
    s: StoreView,
    job_id: u128,
    post_id: u128,
    platform_id: u128,
    scheduled_for: i128,
)
    requires
        s.wf(),
        schedule_error(s, job_id, post_id, platform_id) is None,
    ensures
        payload_of(
            StoreView {
                jobs: s.jobs.push(fresh_job(job_id, post_id, platform_id, scheduled_for)),
                ..s
            },
            job_id,
        ) is Some,
{
    let jobs = s.jobs.push(fresh_job(job_id, post_id, platform_id, scheduled_for));
    let last = s.jobs.len() as int;
    assert(job_ids(jobs) =~= job_ids(s.jobs).push(job_id));
    crate::job_queue::lemma_push_keeps_distinct(job_ids(s.jobs), job_id);
    assert(crate::job_queue::stands_at(job_ids(jobs), job_id, last));
    lemma_position_names(job_ids(jobs), job_id, last);
    assert(jobs[last].post_id == post_id);
    assert(jobs[last].platform_id == platform_id);
    assert(position(post_ids(s.posts), post_id) is Some);
    assert(position(platform_ids(s.platforms), platform_id) is Some);
}

} // verus!
