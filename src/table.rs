//! An in-memory job table that keeps the rules every store of the queue must
//! keep: which row a poll leases, how a lease expires, what a failure records,
//! and when a publish is a duplicate.
use vstd::prelude::*;

use crate::error::Error;
use crate::foreign::now_unix;
use crate::job::{clone_opt_value, Job};

verus! {

/// Seconds of an optional timestamp; an absent one counts as zero.
pub open spec fn secs(t: Option<i64>) -> int {
    match t {
        Some(v) => v as int,
        None => 0,
    }
}

/// The job may still be attempted: it is not dead.
pub open spec fn is_live(j: Job) -> bool {
    j.attempts < j.max_attempts
}

/// `q` is one of the queue names in `queues`.
pub open spec fn listed(queues: Seq<String>, q: Seq<char>) -> bool {
    exists|k: int| 0 <= k < queues.len() && (#[trigger] queues[k])@ == q
}

/// Nobody holds the lease at `now`: none was taken, or it is at least
/// `lease_time` seconds old.
pub open spec fn lease_free(j: Job, now: int) -> bool {
    match j.locked_at {
        None => true,
        Some(t) => now - t >= j.lease_time,
    }
}

/// The job may be leased at `now` by a worker that polls `queues`.
pub open spec fn eligible(j: Job, queues: Seq<String>, now: int) -> bool {
    &&& listed(queues, j.queue@)
    &&& secs(j.scheduled_at) <= now
    &&& is_live(j)
    &&& lease_free(j, now)
}

/// Among eligible jobs `a` is leased before `b`: higher priority first, then
/// the one updated earlier.
pub open spec fn runs_before(a: Job, b: Job) -> bool {
    ||| a.priority > b.priority
    ||| (a.priority == b.priority && secs(a.updated_at) < secs(b.updated_at))
}

/// Row `i` is the one a poll leases: it is eligible, no eligible row runs
/// before it, and it runs before every eligible row ahead of it in the table.
pub open spec fn is_next(rows: Seq<Job>, queues: Seq<String>, now: int, i: int) -> bool {
    &&& 0 <= i < rows.len()
    &&& eligible(rows[i], queues, now)
    &&& forall|k: int|
        0 <= k < rows.len() && eligible(#[trigger] rows[k], queues, now) ==> !runs_before(
            rows[k],
            rows[i],
        ) && (k < i ==> runs_before(rows[i], rows[k]))
}

/// No row may be leased at `now` from `queues`.
pub open spec fn none_eligible(rows: Seq<Job>, queues: Seq<String>, now: int) -> bool {
    forall|k: int| 0 <= k < rows.len() ==> !eligible(#[trigger] rows[k], queues, now)
}

/// The row after a lease taken at `now`: locked, touched, one more attempt.
pub open spec fn leased(j: Job, now: i64) -> Job {
    Job { locked_at: Some(now), updated_at: Some(now), attempts: (j.attempts + 1) as u16, ..j }
}

/// What a poll of `queues` at `now` does: with no eligible row it changes
/// nothing and returns `None`; else it leases the row that `is_next` picks and
/// returns it as updated.
pub open spec fn poll_outcome(
    before: Seq<Job>,
    after: Seq<Job>,
    queues: Seq<String>,
    now: i64,
    r: Option<Job>,
) -> bool {
    match r {
        None => none_eligible(before, queues, now as int) && after == before,
        Some(job) => exists|i: int|
            is_next(before, queues, now as int, i) && job == leased(before[i], now) && after
                == before.update(i, job),
    }
}

/// What a publish of `job` at `now` does: a job whose unique key a live row
/// already holds is dropped without error; a job whose id is taken is refused
/// with a backend error; any other is stored as `fresh_row`.
pub open spec fn publish_outcome(
    before: Seq<Job>,
    after: Seq<Job>,
    job: Job,
    now: i64,
    r: Result<(), Error>,
) -> bool {
    if is_duplicate(before, job) {
        r is Ok && after == before
    } else if id_taken(before, job.id@) {
        r matches Err(Error::OtherError(_)) && after == before
    } else {
        r is Ok && after == before.push(fresh_row(job, now))
    }
}

/// What a failure of the job `id` of `kind` on `queue` at `now` does: that
/// row, if there is one, is released and records `reason`; nothing else
/// changes.
pub open spec fn fail_outcome(
    before: Seq<Job>,
    after: Seq<Job>,
    queue: Seq<char>,
    kind: Seq<char>,
    id: Seq<char>,
    reason: serde_json::Value,
    now: i64,
) -> bool {
    if has_job(before, queue, kind, id) {
        exists|i: int|
            0 <= i < before.len() && matches_id(#[trigger] before[i], queue, kind, id) && after
                == before.update(i, failed(before[i], reason, now))
    } else {
        after == before
    }
}

/// The row after a failure at `now`: released, touched, with its reason.
pub open spec fn failed(j: Job, reason: serde_json::Value, now: i64) -> Job {
    Job { locked_at: None, updated_at: Some(now), error_reason: Some(reason), ..j }
}

/// The row that a publish at `now` stores for `job`.
pub open spec fn fresh_row(job: Job, now: i64) -> Job {
    Job {
        created_at: Some(now),
        updated_at: Some(now),
        scheduled_at: Some(
            match job.scheduled_at {
                Some(s) => s,
                None => now,
            },
        ),
        locked_at: None,
        attempts: 0,
        error_reason: None,
        ..job
    }
}

/// The row is the job `id` of `kind` on `queue`.
pub open spec fn matches_id(j: Job, queue: Seq<char>, kind: Seq<char>, id: Seq<char>) -> bool {
    j.id@ == id && j.queue@ == queue && j.kind@ == kind
}

/// The row carries the unique key `key` for `kind` on `queue`.
pub open spec fn matches_key(j: Job, queue: Seq<char>, kind: Seq<char>, key: Seq<char>) -> bool {
    &&& j.queue@ == queue
    &&& j.kind@ == kind
    &&& j.unique_key matches Some(k) && k@ == key
}

/// The two rows claim the same unique key for the same queue and kind.
pub open spec fn same_key(a: Job, b: Job) -> bool {
    &&& a.queue@ == b.queue@
    &&& a.kind@ == b.kind@
    &&& a.unique_key matches Some(ka) && b.unique_key matches Some(kb) && ka@ == kb@
}

/// A live row already holds the unique key that `job` asks for.
pub open spec fn is_duplicate(rows: Seq<Job>, job: Job) -> bool {
    exists|i: int| 0 <= i < rows.len() && is_live(#[trigger] rows[i]) && same_key(rows[i], job)
}

/// Some row has the id `id`.
pub open spec fn id_taken(rows: Seq<Job>, id: Seq<char>) -> bool {
    exists|i: int| 0 <= i < rows.len() && (#[trigger] rows[i]).id@ == id
}

/// Some row is the job `id` of `kind` on `queue`.
pub open spec fn has_job(rows: Seq<Job>, queue: Seq<char>, kind: Seq<char>, id: Seq<char>) -> bool {
    exists|i: int| 0 <= i < rows.len() && matches_id(#[trigger] rows[i], queue, kind, id)
}

/// What a stored row always satisfies.
pub open spec fn row_wf(j: Job) -> bool {
    &&& j.created_at is Some
    &&& j.updated_at is Some
    &&& j.scheduled_at is Some
    &&& j.attempts <= j.max_attempts
}

/// The table's invariant: every row is well formed, ids are distinct, and no
/// two live rows hold the same unique key.
pub open spec fn rows_wf(rows: Seq<Job>) -> bool {
    &&& forall|i: int| 0 <= i < rows.len() ==> row_wf(#[trigger] rows[i])
    &&& forall|i: int, k: int|
        0 <= i < rows.len() && 0 <= k < rows.len() && i != k ==> (#[trigger] rows[i]).id@ != (
        #[trigger] rows[k]).id@
    &&& forall|i: int, k: int|
        0 <= i < rows.len() && 0 <= k < rows.len() && i != k && is_live(#[trigger] rows[i])
            && is_live(#[trigger] rows[k]) ==> !same_key(rows[i], rows[k])
}

/// Jobs held in memory, in the order they were published.
pub struct JobTable {
    rows: Vec<Job>,
}

impl View for JobTable {
    type V = Seq<Job>;

    closed spec fn view(&self) -> Seq<Job> {
        self.rows@
    }
}

/// The job may be leased at `now` from `queues`.
pub fn is_eligible(job: &Job, queues: &Vec<String>, now: i64) -> (r: bool)
    ensures
        r == eligible(*job, queues@, now as int),
{
    let mut found = false;
    let mut k: usize = 0;
    while k < queues.len()
        invariant
            k <= queues.len(),
            found == exists|m: int| 0 <= m < k && (#[trigger] queues@[m])@ == job.queue@,
        decreases queues.len() - k,
    {
        if queues[k] == job.queue {
            found = true;
        }
        k = k + 1;
    }
    if !found {
        return false;
    }
    let scheduled = match job.scheduled_at {
        Some(s) => s,
        None => 0,
    };
    if scheduled > now || job.attempts >= job.max_attempts {
        return false;
    }
    match job.locked_at {
        None => true,
        Some(t) => (now as i128) - (t as i128) >= job.lease_time as i128,
    }
}

/// `a` is leased before `b` when both are eligible.
pub fn is_before(a: &Job, b: &Job) -> (r: bool)
    ensures
        r == runs_before(*a, *b),
{
    let ua = match a.updated_at {
        Some(t) => t,
        None => 0,
    };
    let ub = match b.updated_at {
        Some(t) => t,
        None => 0,
    };
    a.priority > b.priority || (a.priority == b.priority && ua < ub)
}

impl JobTable {
    #[verifier::type_invariant]
    spec fn inv(self) -> bool {
        rows_wf(self.rows@)
    }

    /// The table keeps its invariant.
    pub open spec fn wf(&self) -> bool {
        rows_wf(self@)
    }

    /// An empty table.
    pub fn new() -> (r: JobTable)
        ensures
            r@ == Seq::<Job>::empty(),
            r.wf(),
    {
        JobTable { rows: Vec::new() }
    }

    /// Moves the rows out, leaving the table empty.
    fn take_rows(&mut self) -> (r: Vec<Job>)
        ensures
            r@ == old(self)@,
            rows_wf(r@),
            final(self)@ == Seq::<Job>::empty(),
    {
        let mut other = JobTable::new();
        core::mem::swap(self, &mut other);
        proof {
            use_type_invariant(&other);
        }
        let JobTable { rows } = other;
        rows
    }

    /// How many rows the table holds, dead ones included. Every table keeps
    /// its invariant.
    pub fn len(&self) -> (r: usize)
        ensures
            r == self@.len(),
            self.wf(),
    {
        proof {
            use_type_invariant(self);
        }
        self.rows.len()
    }

    /// The row at `i`, in publishing order.
    pub fn get(&self, i: usize) -> (r: &Job)
        requires
            i < self@.len(),
        ensures
            *r == self@[i as int],
    {
        &self.rows[i]
    }

    /// Where the job `id` of `kind` on `queue` stands, if it is there.
    pub fn position(&self, queue: &str, kind: &str, id: &str) -> (r: Option<usize>)
        ensures
            match r {
                Some(i) => i < self@.len() && matches_id(self@[i as int], queue@, kind@, id@),
                None => !has_job(self@, queue@, kind@, id@),
            },
    {
        let q = queue.to_owned();
        let k = kind.to_owned();
        let ident = id.to_owned();
        let mut i: usize = 0;
        while i < self.rows.len()
            invariant
                i <= self.rows.len(),
                q@ == queue@,
                k@ == kind@,
                ident@ == id@,
                forall|m: int| 0 <= m < i ==> !matches_id(#[trigger] self@[m], queue@, kind@, id@),
            decreases self.rows.len() - i,
        {
            let row = &self.rows[i];
            if row.id == ident && row.queue == q && row.kind == k {
                return Some(i);
            }
            i = i + 1;
        }
        None
    }

    /// The row that a poll of `queues` at `now` would lease, if any.
    pub fn select_next(&self, queues: &Vec<String>, now: i64) -> (r: Option<usize>)
        ensures
            r matches Some(i) ==> is_next(self@, queues@, now as int, i as int),
            r is None ==> none_eligible(self@, queues@, now as int),
    {
        let mut best: Option<usize> = None;
        let mut i: usize = 0;
        while i < self.rows.len()
            invariant
                i <= self.rows.len(),
                best is None ==> forall|k: int|
                    0 <= k < i ==> !eligible(#[trigger] self@[k], queues@, now as int),
                best matches Some(b) ==> {
                    &&& b < i
                    &&& eligible(self@[b as int], queues@, now as int)
                    &&& forall|k: int|
                        0 <= k < i && eligible(#[trigger] self@[k], queues@, now as int) ==> !runs_before(
                            self@[k],
                            self@[b as int],
                        ) && (k < b ==> runs_before(self@[b as int], self@[k]))
                },
            decreases self.rows.len() - i,
        {
            let row = &self.rows[i];
            if is_eligible(row, queues, now) {
                match best {
                    None => {
                        best = Some(i);
                    },
                    Some(b) => {
                        if is_before(row, &self.rows[b]) {
                            best = Some(i);
                        }
                    },
                }
            }
            i = i + 1;
        }
        best
    }

    /// Leases the next job of `queues` at `now`: the eligible row of highest
    /// priority, the one updated earliest among equals, the first in the table
    /// among those. Its lease is taken, its `updated_at` set and its attempts
    /// counted, and the updated row is returned.
    pub fn poll_next_job_at(&mut self, queues: &Vec<String>, now: i64) -> (r: Option<Job>)
        ensures
            final(self).wf(),
            poll_outcome(old(self)@, final(self)@, queues@, now, r),
    {
        proof {
            use_type_invariant(&*self);
        }
        match self.select_next(queues, now) {
            None => None,
            Some(i) => {
                let mut row = self.rows[i].clone();
                row.locked_at = Some(now);
                row.updated_at = Some(now);
                row.attempts = row.attempts + 1;
                let out = row.clone();
                proof {
                    assert(out == leased(old(self)@[i as int], now));
                    lemma_update_wf(old(self)@, i as int, out);
                }
                let mut rows = self.take_rows();
                rows.set(i, row);
                *self = JobTable { rows };
                Some(out)
            },
        }
    }

    /// Leases the next job of `queues` at the current time, as
    /// `poll_next_job_at` does.
    pub fn poll_next_job(&mut self, queues: &Vec<String>) -> (r: Option<Job>)
        ensures
            final(self).wf(),
            exists|now: i64| poll_outcome(old(self)@, final(self)@, queues@, now, r),
    {
        let now = now_unix();
        let r = self.poll_next_job_at(queues, now);
        assert(poll_outcome(old(self)@, self@, queues@, now, r));
        r
    }
}

impl JobTable {
    /// Stores `job` as published at `now`, unless a live row already holds
    /// its unique key for the same queue and kind, in which case nothing
    /// happens. The stored row has `created_at` and `updated_at` set to `now`,
    /// `scheduled_at` to `now` when absent, no lease, no attempts and no
    /// failure reason.
    pub fn publish_at(&mut self, job: Job, now: i64) -> (r: Result<(), Error>)
        ensures
            final(self).wf(),
            publish_outcome(old(self)@, final(self)@, job, now, r),
    {
        proof {
            use_type_invariant(&*self);
        }
        let mut taken = false;
        let mut i: usize = 0;
        while i < self.rows.len()
            invariant
                i <= self.rows.len(),
                self@ == old(self)@,
                rows_wf(old(self)@),
                forall|k: int| 0 <= k < i ==> !(is_live(#[trigger] self@[k]) && same_key(self@[k], job)),
                taken == exists|k: int| 0 <= k < i && (#[trigger] self@[k]).id@ == job.id@,
            decreases self.rows.len() - i,
        {
            let row = &self.rows[i];
            if row.attempts < row.max_attempts && row.queue == job.queue && row.kind == job.kind {
                match (&row.unique_key, &job.unique_key) {
                    (Some(a), Some(b)) => {
                        if *a == *b {
                            assert(is_live(self@[i as int]) && same_key(self@[i as int], job));
                            return Ok(());
                        }
                    },
                    _ => {},
                }
            }
            if row.id == job.id {
                taken = true;
            }
            i = i + 1;
        }
        if taken {
            return Err(Error::OtherError("a record with this id already exists".to_owned()));
        }
        let scheduled = match job.scheduled_at {
            Some(s) => s,
            None => now,
        };
        let row = Job {
            created_at: Some(now),
            updated_at: Some(now),
            scheduled_at: Some(scheduled),
            locked_at: None,
            attempts: 0,
            error_reason: None,
            ..job
        };
        proof {
            assert(row == fresh_row(job, now));
            let rows = old(self)@;
            let u = rows.push(row);
            assert forall|a: int, b: int|
                0 <= a < u.len() && 0 <= b < u.len() && a != b && is_live(#[trigger] u[a])
                    && is_live(#[trigger] u[b]) implies !same_key(u[a], u[b]) by {
                if a == rows.len() {
                    assert(!(is_live(rows[b]) && same_key(rows[b], job)));
                } else if b == rows.len() {
                    assert(!(is_live(rows[a]) && same_key(rows[a], job)));
                }
            }
            assert forall|a: int, b: int|
                0 <= a < u.len() && 0 <= b < u.len() && a != b implies (#[trigger] u[a]).id@ != (
                #[trigger] u[b]).id@ by {
                if a == rows.len() {
                    assert(rows[b].id@ != job.id@);
                } else if b == rows.len() {
                    assert(rows[a].id@ != job.id@);
                }
            }
        }
        let mut rows = self.take_rows();
        rows.push(row);
        *self = JobTable { rows };
        Ok(())
    }

    /// Stores `job` as published at the current time, as `publish_at` does.
    pub fn publish(&mut self, job: Job) -> (r: Result<(), Error>)
        ensures
            final(self).wf(),
            exists|now: i64| publish_outcome(old(self)@, final(self)@, job, now, r),
    {
        let now = now_unix();
        let ghost j = job;
        let r = self.publish_at(job, now);
        assert(publish_outcome(old(self)@, self@, j, now, r));
        r
    }

    /// Whether the job `id` of `kind` on `queue` is in the table.
    pub fn job_exists(&self, queue: &str, kind: &str, id: &str) -> (r: bool)
        ensures
            r == has_job(self@, queue@, kind@, id@),
    {
        self.position(queue, kind, id).is_some()
    }

    /// Removes the job `id` of `kind` on `queue`; does nothing when it is not
    /// there.
    pub fn cancel_by_id(&mut self, queue: &str, kind: &str, id: &str)
        ensures
            final(self).wf(),
            final(self)@ == old(self)@.filter(|j: Job| !matches_id(j, queue@, kind@, id@)),
    {
        proof {
            use_type_invariant(&*self);
        }
        let q = queue.to_owned();
        let k = kind.to_owned();
        let ident = id.to_owned();
        let ghost keep = |j: Job| !matches_id(j, queue@, kind@, id@);
        let mut kept: Vec<Job> = Vec::new();
        let mut i: usize = 0;
        while i < self.rows.len()
            invariant
                i <= self.rows.len(),
                self@ == old(self)@,
                q@ == queue@,
                k@ == kind@,
                ident@ == id@,
                keep == (|j: Job| !matches_id(j, queue@, kind@, id@)),
                kept@ == self@.subrange(0, i as int).filter(keep),
            decreases self.rows.len() - i,
        {
            let row = &self.rows[i];
            proof {
                lemma_filter_step(self@, keep, i as int);
            }
            let hit = row.id == ident && row.queue == q && row.kind == k;
            assert(hit == matches_id(self@[i as int], queue@, kind@, id@));
            if !hit {
                kept.push(row.clone());
            }
            i = i + 1;
        }
        proof {
            assert(self@.subrange(0, self@.len() as int) =~= self@);
            lemma_filter_wf(self@, keep);
        }
        self.rows = kept;
    }

    /// Removes every row of `kind` on `queue` that carries the unique key
    /// `key`, dead ones included.
    pub fn cancel_by_unique_key(&mut self, queue: &str, kind: &str, key: &str)
        ensures
            final(self).wf(),
            final(self)@ == old(self)@.filter(|j: Job| !matches_key(j, queue@, kind@, key@)),
    {
        proof {
            use_type_invariant(&*self);
        }
        let q = queue.to_owned();
        let k = kind.to_owned();
        let wanted = key.to_owned();
        let ghost keep = |j: Job| !matches_key(j, queue@, kind@, key@);
        let mut kept: Vec<Job> = Vec::new();
        let mut i: usize = 0;
        while i < self.rows.len()
            invariant
                i <= self.rows.len(),
                self@ == old(self)@,
                q@ == queue@,
                k@ == kind@,
                wanted@ == key@,
                keep == (|j: Job| !matches_key(j, queue@, kind@, key@)),
                kept@ == self@.subrange(0, i as int).filter(keep),
            decreases self.rows.len() - i,
        {
            let row = &self.rows[i];
            proof {
                lemma_filter_step(self@, keep, i as int);
            }
            let hit = row.queue == q && row.kind == k && match &row.unique_key {
                Some(u) => *u == wanted,
                None => false,
            };
            assert(hit == matches_key(self@[i as int], queue@, kind@, key@));
            if !hit {
                kept.push(row.clone());
            }
            i = i + 1;
        }
        proof {
            assert(self@.subrange(0, self@.len() as int) =~= self@);
            lemma_filter_wf(self@, keep);
        }
        self.rows = kept;
    }

    /// Completes the job `id` of `kind` on `queue` with success: its row is
    /// removed. Completing a job that is gone does nothing.
    pub fn complete_job_with_success(&mut self, queue: &str, kind: &str, id: &str)
        ensures
            final(self).wf(),
            final(self)@ == old(self)@.filter(|j: Job| !matches_id(j, queue@, kind@, id@)),
    {
        self.cancel_by_id(queue, kind, id);
    }

    /// Completes the job `id` of `kind` on `queue` as cancelled: its row is
    /// removed. The message is not kept.
    pub fn complete_job_with_cancelled(
        &mut self,
        queue: &str,
        kind: &str,
        id: &str,
        message: Option<String>,
    )
        ensures
            final(self).wf(),
            final(self)@ == old(self)@.filter(|j: Job| !matches_id(j, queue@, kind@, id@)),
    {
        self.cancel_by_id(queue, kind, id);
    }

    /// Fails the job `id` of `kind` on `queue` at `now`: its lease is released
    /// and `reason` recorded. Its attempts are left as they are.
    pub fn fail_job_at(
        &mut self,
        queue: &str,
        kind: &str,
        id: &str,
        reason: serde_json::Value,
        now: i64,
    )
        ensures
            final(self).wf(),
            fail_outcome(old(self)@, final(self)@, queue@, kind@, id@, reason, now),
    {
        proof {
            use_type_invariant(&*self);
        }
        match self.position(queue, kind, id) {
            None => {},
            Some(i) => {
                let mut row = self.rows[i].clone();
                row.locked_at = None;
                row.updated_at = Some(now);
                row.error_reason = Some(reason);
                proof {
                    assert(row == failed(old(self)@[i as int], reason, now));
                    lemma_update_wf(old(self)@, i as int, row);
                }
                let mut rows = self.take_rows();
                rows.set(i, row);
                *self = JobTable { rows };
            },
        }
    }

    /// Fails the job at the current time, as `fail_job_at` does.
    pub fn fail_job(&mut self, queue: &str, kind: &str, id: &str, reason: serde_json::Value)
        ensures
            final(self).wf(),
            exists|now: i64| fail_outcome(old(self)@, final(self)@, queue@, kind@, id@, reason, now),
    {
        let now = now_unix();
        let ghost why = reason;
        self.fail_job_at(queue, kind, id, reason, now);
        assert(fail_outcome(old(self)@, self@, queue@, kind@, id@, why, now));
    }
}

/// Filtering one more element of a prefix either keeps it at the end or drops
/// it.
proof fn lemma_filter_step(s: Seq<Job>, p: spec_fn(Job) -> bool, i: int)
    requires
        0 <= i < s.len(),
    ensures
        s.subrange(0, i + 1).filter(p) == (if p(s[i]) {
            s.subrange(0, i).filter(p).push(s[i])
        } else {
            s.subrange(0, i).filter(p)
        }),
{
    reveal(Seq::filter);
    assert(s.subrange(0, i + 1).drop_last() =~= s.subrange(0, i));
}

/// Removing rows keeps the table's invariant.
proof fn lemma_filter_wf(s: Seq<Job>, p: spec_fn(Job) -> bool)
    requires
        rows_wf(s),
    ensures
        rows_wf(s.filter(p)),
    decreases s.len(),
{
    reveal(Seq::filter);
    if s.len() > 0 {
        let rest = s.drop_last();
        assert(rows_wf(rest)) by {
            assert forall|a: int, b: int|
                0 <= a < rest.len() && 0 <= b < rest.len() && a != b implies (#[trigger] rest[a]).id@
                != (#[trigger] rest[b]).id@ by {
                assert(s[a].id@ != s[b].id@);
            }
            assert forall|a: int, b: int|
                0 <= a < rest.len() && 0 <= b < rest.len() && a != b && is_live(#[trigger] rest[a])
                    && is_live(#[trigger] rest[b]) implies !same_key(rest[a], rest[b]) by {
                assert(is_live(s[a]) && is_live(s[b]));
            }
        }
        lemma_filter_wf(rest, p);
        let f = rest.filter(p);
        if p(s.last()) {
            let u = f.push(s.last());
            assert forall|a: int| 0 <= a < f.len() implies exists|m: int|
                0 <= m < rest.len() && rest[m] == #[trigger] f[a] by {
                rest.lemma_filter_contains_rev(p, f[a]);
            }
            assert forall|a: int| 0 <= a < u.len() implies row_wf(#[trigger] u[a]) by {
                if a < f.len() {
                    let m = choose|m: int| 0 <= m < rest.len() && rest[m] == f[a];
                    assert(row_wf(s[m]));
                }
            }
            assert forall|a: int, b: int|
                0 <= a < u.len() && 0 <= b < u.len() && a != b implies (#[trigger] u[a]).id@ != (
                #[trigger] u[b]).id@ by {
                if a == f.len() {
                    let m = choose|m: int| 0 <= m < rest.len() && rest[m] == f[b];
                    assert(s[m].id@ != s[s.len() - 1].id@);
                } else if b == f.len() {
                    let m = choose|m: int| 0 <= m < rest.len() && rest[m] == f[a];
                    assert(s[m].id@ != s[s.len() - 1].id@);
                }
            }
            assert forall|a: int, b: int|
                0 <= a < u.len() && 0 <= b < u.len() && a != b && is_live(#[trigger] u[a])
                    && is_live(#[trigger] u[b]) implies !same_key(u[a], u[b]) by {
                if a == f.len() {
                    let m = choose|m: int| 0 <= m < rest.len() && rest[m] == f[b];
                    assert(!same_key(s[s.len() - 1], s[m]));
                } else if b == f.len() {
                    let m = choose|m: int| 0 <= m < rest.len() && rest[m] == f[a];
                    assert(!same_key(s[m], s[s.len() - 1]));
                }
            }
        }
    }
}

/// Replacing a row by one with the same id, queue, kind and unique key, no
/// more attempts and a well-formed shape keeps the table's invariant.
proof fn lemma_update_wf(rows: Seq<Job>, i: int, j: Job)
    requires
        rows_wf(rows),
        0 <= i < rows.len(),
        row_wf(j),
        j.id == rows[i].id,
        j.queue == rows[i].queue,
        j.kind == rows[i].kind,
        j.unique_key == rows[i].unique_key,
        is_live(j) ==> is_live(rows[i]),
    ensures
        rows_wf(rows.update(i, j)),
{
    let u = rows.update(i, j);
    assert forall|a: int, b: int|
        0 <= a < u.len() && 0 <= b < u.len() && a != b && is_live(#[trigger] u[a]) && is_live(
            #[trigger] u[b],
        ) implies !same_key(u[a], u[b]) by {
        assert(is_live(rows[a]) && is_live(rows[b]));
    }
    assert forall|a: int, b: int|
        0 <= a < u.len() && 0 <= b < u.len() && a != b implies (#[trigger] u[a]).id@ != (
        #[trigger] u[b]).id@ by {
        assert(rows[a].id@ != rows[b].id@);
    }
}

} // verus!
