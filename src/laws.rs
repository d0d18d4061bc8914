//! Laws of the job table: what holds across calls, proved from the contracts
//! of `table`.
use vstd::prelude::*;

use crate::job::Job;
use crate::table::{
    eligible, fail_outcome, failed, fresh_row, has_job, id_taken, is_duplicate, is_live, is_next, leased, listed,
    matches_id, none_eligible, poll_outcome, publish_outcome, rows_wf, runs_before, same_key, secs,
};

verus! {

/// The row after the first `k` rounds of `times`: in round `i` it is leased
/// at `times[i]`, and its handler fails at that time with `reason`.
pub open spec fn after_failures(j: Job, reason: serde_json::Value, times: Seq<i64>, k: nat) -> Job
    decreases k,
{
    if k == 0 {
        j
    } else {
        let t = times[k - 1];
        failed(leased(after_failures(j, reason, times, (k - 1) as nat), t), reason, t)
    }
}

proof fn lemma_after_failures(j: Job, reason: serde_json::Value, times: Seq<i64>, k: nat)
    requires
        k <= j.max_attempts,
        j.attempts == 0,
        j.locked_at is None,
    ensures
        after_failures(j, reason, times, k).attempts == k,
        after_failures(j, reason, times, k).max_attempts == j.max_attempts,
        after_failures(j, reason, times, k).locked_at is None,
        after_failures(j, reason, times, k).queue == j.queue,
        after_failures(j, reason, times, k).id == j.id,
        after_failures(j, reason, times, k).scheduled_at == j.scheduled_at,
    decreases k,
{
    if k > 0 {
        lemma_after_failures(j, reason, times, (k - 1) as nat);
    }
}

/// At least once, and no more than allowed: a published job whose every
/// attempt fails is leased exactly `max_attempts` times. Before each of those
/// leases it is eligible again, at any time from when it is due, and has
/// counted one attempt per earlier lease; after the last it is never eligible
/// again, at any time.
pub proof fn law_attempted_exactly_max(
    job: Job,
    queues: Seq<String>,
    reason: serde_json::Value,
    published: i64,
    times: Seq<i64>,
)
    requires
        listed(queues, job.queue@),
        times.len() >= job.max_attempts,
        forall|i: int|
            0 <= i < times.len() ==> secs(fresh_row(job, published).scheduled_at) <= #[trigger] times[i],
    ensures
        forall|k: nat|
            k < job.max_attempts ==> eligible(
                #[trigger] after_failures(fresh_row(job, published), reason, times, k),
                queues,
                times[k as int] as int,
            ) && after_failures(fresh_row(job, published), reason, times, k).attempts == k,
        after_failures(fresh_row(job, published), reason, times, job.max_attempts as nat).attempts
            == job.max_attempts,
        forall|t: int|
            !eligible(
                after_failures(fresh_row(job, published), reason, times, job.max_attempts as nat),
                queues,
                t,
            ),
{
    let r = fresh_row(job, published);
    assert forall|k: nat| k < job.max_attempts implies eligible(
        #[trigger] after_failures(r, reason, times, k),
        queues,
        times[k as int] as int,
    ) && after_failures(r, reason, times, k).attempts == k by {
        lemma_after_failures(r, reason, times, k);
    }
    lemma_after_failures(r, reason, times, job.max_attempts as nat);
}

/// Attempts count leases and nothing else: a poll adds one to the row it
/// leases and to no other row, a failure changes no row's attempts, and a
/// row that has used all its attempts is never eligible.
pub proof fn law_attempts_count_leases(
    before: Seq<Job>,
    after: Seq<Job>,
    queues: Seq<String>,
    now: i64,
    r: Option<Job>,
    i: int,
)
    requires
        rows_wf(before),
        poll_outcome(before, after, queues, now, r),
        0 <= i < before.len(),
    ensures
        after.len() == before.len(),
        r matches Some(job) && job.id == before[i].id ==> after[i].attempts == before[i].attempts
            + 1 && after[i].attempts <= after[i].max_attempts,
        (r is None || r->0.id@ != before[i].id@) ==> after[i] == before[i],
        !is_live(before[i]) ==> forall|t: int| !eligible(before[i], queues, t),
{
    if let Some(job) = r {
        let k = choose|k: int|
            is_next(before, queues, now as int, k) && job == leased(before[k], now) && after
                == before.update(k, job);
        if job.id == before[i].id {
            assert(k == i);
        }
    }
}

/// A failure changes no row's attempts and leaves the table's length.
pub proof fn law_fail_keeps_attempts(
    before: Seq<Job>,
    after: Seq<Job>,
    queue: Seq<char>,
    kind: Seq<char>,
    id: Seq<char>,
    reason: serde_json::Value,
    now: i64,
    i: int,
)
    requires
        fail_outcome(before, after, queue, kind, id, reason, now),
        0 <= i < before.len(),
    ensures
        after.len() == before.len(),
        after[i].attempts == before[i].attempts,
        after[i].max_attempts == before[i].max_attempts,
{
}

/// Lease mutual exclusion: while a lease taken at `t1` is younger than the
/// job's lease time, no poll by any worker returns that job, and the poll
/// leaves its row as it was.
pub proof fn law_lease_excludes(
    before: Seq<Job>,
    after: Seq<Job>,
    queues: Seq<String>,
    t1: i64,
    now: i64,
    i: int,
    r: Option<Job>,
)
    requires
        rows_wf(before),
        0 <= i < before.len(),
        before[i].locked_at == Some(t1),
        now - t1 < before[i].lease_time,
        poll_outcome(before, after, queues, now, r),
    ensures
        r matches Some(job) ==> job.id@ != before[i].id@,
        after.len() == before.len(),
        after[i] == before[i],
{
    if let Some(job) = r {
        let k = choose|k: int|
            is_next(before, queues, now as int, k) && job == leased(before[k], now) && after
                == before.update(k, job);
        assert(k != i);
    }
}

/// A poll leases a row, and the row it leases was eligible: a leased job is
/// one of `queues`, due, not dead and not held by a live lease.
pub proof fn law_poll_takes_eligible(
    before: Seq<Job>,
    after: Seq<Job>,
    queues: Seq<String>,
    now: i64,
    job: Job,
)
    requires
        rows_wf(before),
        poll_outcome(before, after, queues, now, Some(job)),
    ensures
        listed(queues, job.queue@),
        job.locked_at == Some(now),
        job.attempts <= job.max_attempts,
        exists|i: int|
            0 <= i < before.len() && eligible(before[i], queues, now as int) && before[i].id
                == job.id && job.attempts == before[i].attempts + 1,
{
}

/// Priority: while two rows are eligible and `a` has the higher priority, a
/// poll does not lease `b`.
pub proof fn law_priority_first(
    before: Seq<Job>,
    after: Seq<Job>,
    queues: Seq<String>,
    now: i64,
    a: int,
    b: int,
    job: Job,
)
    requires
        rows_wf(before),
        0 <= a < before.len(),
        0 <= b < before.len(),
        eligible(before[a], queues, now as int),
        eligible(before[b], queues, now as int),
        before[a].priority > before[b].priority,
        poll_outcome(before, after, queues, now, Some(job)),
    ensures
        job.id@ != before[b].id@,
{
    let k = choose|k: int|
        is_next(before, queues, now as int, k) && job == leased(before[k], now) && after
            == before.update(k, job);
    assert(!runs_before(before[a], before[k]));
    assert(k != b);
}

/// First in, first out within a priority: while two rows of equal priority
/// are eligible and `a` was updated earlier, a poll does not lease `b`.
pub proof fn law_fifo_within_priority(
    before: Seq<Job>,
    after: Seq<Job>,
    queues: Seq<String>,
    now: i64,
    a: int,
    b: int,
    job: Job,
)
    requires
        rows_wf(before),
        0 <= a < before.len(),
        0 <= b < before.len(),
        eligible(before[a], queues, now as int),
        eligible(before[b], queues, now as int),
        before[a].priority == before[b].priority,
        secs(before[a].updated_at) < secs(before[b].updated_at),
        poll_outcome(before, after, queues, now, Some(job)),
    ensures
        job.id@ != before[b].id@,
{
    let k = choose|k: int|
        is_next(before, queues, now as int, k) && job == leased(before[k], now) && after
            == before.update(k, job);
    assert(!runs_before(before[a], before[k]));
    assert(k != b);
}

/// Uniqueness: publishing a job whose unique key a live row of the same queue
/// and kind already holds succeeds and changes nothing, so the first job is
/// still there and the second is not.
pub proof fn law_duplicate_publish_is_noop(
    before: Seq<Job>,
    after: Seq<Job>,
    job: Job,
    now: i64,
    r: Result<(), crate::error::Error>,
    first: int,
)
    requires
        rows_wf(before),
        0 <= first < before.len(),
        is_live(before[first]),
        same_key(before[first], job),
        !id_taken(before, job.id@),
        publish_outcome(before, after, job, now, r),
    ensures
        r is Ok,
        after == before,
        has_job(after, before[first].queue@, before[first].kind@, before[first].id@),
        !has_job(after, job.queue@, job.kind@, job.id@),
{
    assert(is_live(before[first]) && same_key(before[first], job));
    assert(matches_id(after[first], before[first].queue@, before[first].kind@, before[first].id@));
}

/// Removing the rows of a job twice leaves the table as removing them once.
pub proof fn law_complete_idempotent(rows: Seq<Job>, queue: Seq<char>, kind: Seq<char>, id: Seq<char>)
    ensures
        rows.filter(|j: Job| !matches_id(j, queue, kind, id)).filter(
            |j: Job| !matches_id(j, queue, kind, id),
        ) == rows.filter(|j: Job| !matches_id(j, queue, kind, id)),
{
    lemma_filter_twice(rows, |j: Job| !matches_id(j, queue, kind, id));
}

proof fn lemma_filter_twice(s: Seq<Job>, p: spec_fn(Job) -> bool)
    ensures
        s.filter(p).filter(p) == s.filter(p),
    decreases s.len(),
{
    reveal(Seq::filter);
    if s.len() > 0 {
        lemma_filter_twice(s.drop_last(), p);
        if p(s.last()) {
            let f = s.drop_last().filter(p);
            assert(f.push(s.last()).drop_last() =~= f);
        }
    }
}

/// Publish then poll: when nothing else is eligible, a poll after a publish
/// that stored the job leases that job, with its payload, one attempt more.
pub proof fn law_publish_then_poll(
    before: Seq<Job>,
    middle: Seq<Job>,
    after: Seq<Job>,
    queues: Seq<String>,
    job: Job,
    published: i64,
    polled: i64,
    r: Result<(), crate::error::Error>,
    leased_job: Job,
)
    requires
        rows_wf(before),
        none_eligible(before, queues, polled as int),
        !is_duplicate(before, job),
        !id_taken(before, job.id@),
        job.attempts == 0,
        publish_outcome(before, middle, job, published, r),
        poll_outcome(middle, after, queues, polled, Some(leased_job)),
    ensures
        leased_job.id == job.id,
        leased_job.payload == job.payload,
        leased_job.attempts == job.attempts + 1,
{
    let k = choose|k: int|
        is_next(middle, queues, polled as int, k) && leased_job == leased(middle[k], polled)
            && after == middle.update(k, leased_job);
    if k < before.len() {
        assert(middle[k] == before[k]);
    }
}

/// Publish, cancel, poll: on a table with no other job, a job that was
/// published and then cancelled by id is not leased.
pub proof fn law_cancelled_not_polled(
    middle: Seq<Job>,
    cancelled: Seq<Job>,
    after: Seq<Job>,
    queues: Seq<String>,
    job: Job,
    published: i64,
    polled: i64,
    r: Result<(), crate::error::Error>,
    p: Option<Job>,
)
    requires
        publish_outcome(Seq::<Job>::empty(), middle, job, published, r),
        cancelled == middle.filter(|j: Job| !matches_id(j, job.queue@, job.kind@, job.id@)),
        poll_outcome(cancelled, after, queues, polled, p),
    ensures
        p is None,
{
    let keep = |j: Job| !matches_id(j, job.queue@, job.kind@, job.id@);
    reveal(Seq::filter);
    assert(middle =~= seq![fresh_row(job, published)]);
    assert(middle.drop_last() =~= Seq::<Job>::empty());
    assert(!keep(middle.last()));
    assert(Seq::<Job>::empty().filter(keep) =~= Seq::<Job>::empty());
    assert(middle.filter(keep) =~= Seq::<Job>::empty());
    assert(cancelled =~= Seq::<Job>::empty());
}

} // verus!
