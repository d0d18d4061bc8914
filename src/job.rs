//! The job record: one unit of deferred work, as the store keeps it.
use vstd::prelude::*;

use crate::foreign::{new_xid, now_unix};

verus! {

/// The queue a job goes to when none is named.
pub const DEFAULT_QUEUE: &'static str = "default";

/// How many times a job is attempted unless told otherwise.
pub const DEFAULT_MAX_ATTEMPTS: u16 = 3;

/// How long, in seconds, a worker may hold a lease unless told otherwise.
pub const DEFAULT_LEASE_TIME: u64 = 30;

/// The queue name that stands for "no queue named".
pub open spec fn default_queue() -> Seq<char> {
    DEFAULT_QUEUE@
}

/// `seconds` after `now`, capped at the last second an `i64` holds.
pub open spec fn delayed(now: i64, seconds: u64) -> i64 {
    if now + seconds > i64::MAX {
        i64::MAX
    } else {
        (now + seconds) as i64
    }
}

/// A job. Timestamps are whole seconds since the Unix epoch; `None` where the
/// store has not set them yet.
#[derive(Debug)]
pub struct Job {
    /// Globally unique identifier, assigned when the job is built.
    pub id: String,
    /// Routing key.
    pub queue: String,
    /// Selects the handler within the queue.
    pub kind: String,
    /// The user's document, stored verbatim.
    pub payload: serde_json::Value,
    /// Set by the store on insert.
    pub created_at: Option<i64>,
    /// Bumped by the store on every change of state.
    pub updated_at: Option<i64>,
    /// Earliest time at which the job may run; `None` means "when published".
    pub scheduled_at: Option<i64>,
    /// When the current lease was taken; `None` while nobody holds one.
    pub locked_at: Option<i64>,
    /// Longest time, in seconds, a worker may hold the lease.
    pub lease_time: u64,
    /// Executions already started.
    pub attempts: u16,
    /// Upper bound on `attempts`.
    pub max_attempts: u16,
    /// Higher values run first.
    pub priority: i32,
    /// Deduplication key, scoped to the queue and the kind.
    pub unique_key: Option<String>,
    /// Why the last attempt failed.
    pub error_reason: Option<serde_json::Value>,
}

/// How a handler finished a job.
#[derive(Debug, Clone, PartialEq, Eq)]
pub enum JobResult {
    /// The work is done; the job is removed.
    CompleteWithSuccess,
    /// The work was given up on purpose; the job is removed.
    CompleteWithCancelled(Option<String>),
}

/// An optional string, copied.
pub fn clone_opt_string(s: &Option<String>) -> (r: Option<String>)
    ensures
        r == *s,
{
    match s {
        Some(v) => Some(v.clone()),
        None => None,
    }
}

/// An optional document, copied.
pub fn clone_opt_value(v: &Option<serde_json::Value>) -> (r: Option<serde_json::Value>)
    ensures
        r == *v,
{
    match v {
        Some(d) => Some(d.clone()),
        None => None,
    }
}

impl Clone for Job {
    fn clone(&self) -> (r: Job)
        ensures
            r == *self,
    {
        Job {
            id: self.id.clone(),
            queue: self.queue.clone(),
            kind: self.kind.clone(),
            payload: self.payload.clone(),
            created_at: self.created_at,
            updated_at: self.updated_at,
            scheduled_at: self.scheduled_at,
            locked_at: self.locked_at,
            lease_time: self.lease_time,
            attempts: self.attempts,
            max_attempts: self.max_attempts,
            priority: self.priority,
            unique_key: clone_opt_string(&self.unique_key),
            error_reason: clone_opt_value(&self.error_reason),
        }
    }
}

impl Job {
    /// A job of the given kind on the default queue, with a fresh id, three
    /// attempts, a lease of thirty seconds, priority zero, to run as soon as
    /// it is published.
    pub fn new(kind: &str, payload: serde_json::Value) -> (r: Job)
        ensures
            r.id@.len() == 20,
            r.queue@ == default_queue(),
            r.kind@ == kind@,
            r.payload == payload,
            r.created_at is None,
            r.updated_at is None,
            r.scheduled_at is None,
            r.locked_at is None,
            r.lease_time == DEFAULT_LEASE_TIME,
            r.attempts == 0,
            r.max_attempts == DEFAULT_MAX_ATTEMPTS,
            r.priority == 0,
            r.unique_key is None,
            r.error_reason is None,
    {
        Job {
            id: new_xid(),
            queue: DEFAULT_QUEUE.to_owned(),
            kind: kind.to_owned(),
            payload,
            created_at: None,
            updated_at: None,
            scheduled_at: None,
            locked_at: None,
            lease_time: DEFAULT_LEASE_TIME,
            attempts: 0,
            max_attempts: DEFAULT_MAX_ATTEMPTS,
            priority: 0,
            unique_key: None,
            error_reason: None,
        }
    }

    /// The same job on another queue.
    pub fn with_queue(self, queue: &str) -> (r: Job)
        ensures
            r == (Job { queue: r.queue, ..self }),
            r.queue@ == queue@,
    {
        Job { queue: queue.to_owned(), ..self }
    }

    /// The same job on another queue; an empty name stands for the default
    /// queue.
    pub fn on_queue(self, queue: String) -> (r: Job)
        ensures
            r == (Job { queue: r.queue, ..self }),
            r.queue@ == (if queue@.len() == 0 {
                default_queue()
            } else {
                queue@
            }),
    {
        let q = if queue.as_str().is_empty() {
            DEFAULT_QUEUE.to_owned()
        } else {
            queue
        };
        Job { queue: q, ..self }
    }

    /// The same job under a fresh id.
    pub fn with_new_id(self) -> (r: Job)
        ensures
            r == (Job { id: r.id, ..self }),
            r.id@.len() == 20,
    {
        Job { id: new_xid(), ..self }
    }

    /// The same job under the id `id`.
    pub fn with_id(self, id: &str) -> (r: Job)
        ensures
            r == (Job { id: r.id, ..self }),
            r.id@ == id@,
    {
        Job { id: id.to_owned(), ..self }
    }

    /// The id.
    pub fn id(&self) -> (r: &str)
        ensures
            r@ == self.id@,
    {
        self.id.as_str()
    }

    /// The queue.
    pub fn queue(&self) -> (r: &str)
        ensures
            r@ == self.queue@,
    {
        self.queue.as_str()
    }

    /// The kind.
    pub fn kind(&self) -> (r: &str)
        ensures
            r@ == self.kind@,
    {
        self.kind.as_str()
    }

    /// When the store took the job in.
    pub fn created_at(&self) -> (r: Option<i64>)
        ensures
            r == self.created_at,
    {
        self.created_at
    }

    /// The payload.
    pub fn payload(&self) -> (r: &serde_json::Value)
        ensures
            *r == self.payload,
    {
        &self.payload
    }

    /// The same job with `attempts` already started.
    pub fn with_attempts(self, attempts: u16) -> (r: Job)
        ensures
            r == (Job { attempts, ..self }),
    {
        Job { attempts, ..self }
    }

    /// Executions already started.
    pub fn attempts(&self) -> (r: u16)
        ensures
            r == self.attempts,
    {
        self.attempts
    }

    /// The same job with another bound on attempts.
    pub fn with_max_attempts(self, max_attempts: u16) -> (r: Job)
        ensures
            r == (Job { max_attempts, ..self }),
    {
        Job { max_attempts, ..self }
    }

    /// The bound on attempts.
    pub fn max_attempts(&self) -> (r: u16)
        ensures
            r == self.max_attempts,
    {
        self.max_attempts
    }

    /// The same job with a lease of `lease_time` seconds.
    pub fn with_lease_time(self, lease_time: u64) -> (r: Job)
        ensures
            r == (Job { lease_time, ..self }),
    {
        Job { lease_time, ..self }
    }

    /// The lease time, in seconds.
    pub fn lease_time(&self) -> (r: u64)
        ensures
            r == self.lease_time,
    {
        self.lease_time
    }

    /// The same job, due at `at` (seconds since the Unix epoch).
    pub fn with_schedule_at(self, at: i64) -> (r: Job)
        ensures
            r == (Job { scheduled_at: Some(at), ..self }),
    {
        Job { scheduled_at: Some(at), ..self }
    }

    /// The same job, due as soon as it is published.
    pub fn with_schedule_now(self) -> (r: Job)
        ensures
            r == (Job { scheduled_at: None, ..self }),
    {
        Job { scheduled_at: None, ..self }
    }

    /// The same job, due `seconds` after `now`, or at the last representable
    /// second when that is later.
    pub fn with_schedule_in_from(self, seconds: u64, now: i64) -> (r: Job)
        ensures
            r == (Job { scheduled_at: Some(delayed(now, seconds)), ..self }),
    {
        let at = if (now as i128) + (seconds as i128) > i64::MAX as i128 {
            i64::MAX
        } else {
            ((now as i128) + (seconds as i128)) as i64
        };
        Job { scheduled_at: Some(at), ..self }
    }

    /// The same job, due `seconds` from the current time.
    pub fn with_schedule_in(self, seconds: u64) -> (r: Job)
        ensures
            exists|now: i64| r == (Job { scheduled_at: Some(delayed(now, seconds)), ..self }),
    {
        let now = now_unix();
        self.with_schedule_in_from(seconds, now)
    }

    /// When the job is due; `None` means when it is published.
    pub fn scheduled_at(&self) -> (r: Option<i64>)
        ensures
            r == self.scheduled_at,
    {
        self.scheduled_at
    }

    /// The same job at another priority.
    pub fn with_priority(self, priority: i32) -> (r: Job)
        ensures
            r == (Job { priority, ..self }),
    {
        Job { priority, ..self }
    }

    /// The priority.
    pub fn priority(&self) -> (r: i32)
        ensures
            r == self.priority,
    {
        self.priority
    }

    /// The same job with the deduplication key `key`.
    pub fn with_unique_key(self, key: &str) -> (r: Job)
        ensures
            r == (Job { unique_key: r.unique_key, ..self }),
            r.unique_key matches Some(k) && k@ == key@,
    {
        Job { unique_key: Some(key.to_owned()), ..self }
    }

    /// The deduplication key.
    pub fn unique_key(&self) -> (r: &Option<String>)
        ensures
            *r == self.unique_key,
    {
        &self.unique_key
    }

    /// The same job with another failure reason.
    pub fn with_error_reason(self, error_reason: Option<serde_json::Value>) -> (r: Job)
        ensures
            r == (Job { error_reason, ..self }),
    {
        Job { error_reason, ..self }
    }

    /// Why the last attempt failed.
    pub fn error_reason(&self) -> (r: &Option<serde_json::Value>)
        ensures
            *r == self.error_reason,
    {
        &self.error_reason
    }

    /// When the current lease was taken.
    pub fn locked_at(&self) -> (r: Option<i64>)
        ensures
            r == self.locked_at,
    {
        self.locked_at
    }

    /// When the store last changed the job.
    pub fn updated_at(&self) -> (r: Option<i64>)
        ensures
            r == self.updated_at,
    {
        self.updated_at
    }
}

} // verus!
