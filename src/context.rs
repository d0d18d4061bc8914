//! What a handler sees of the job it runs.
use vstd::prelude::*;

use crate::job::Job;

verus! {

/// The job being run and the worker's shutdown signal.
pub struct Context {
    job: Job,
    cancellation_token: tokio_util::sync::CancellationToken,
}

impl Context {
    /// The job the context describes.
    pub closed spec fn spec_job(&self) -> Job {
        self.job
    }

    /// The token the context hands on.
    pub closed spec fn spec_token(&self) -> tokio_util::sync::CancellationToken {
        self.cancellation_token
    }

    /// A context for `job` under `cancellation_token`.
    pub fn new(job: Job, cancellation_token: tokio_util::sync::CancellationToken) -> (r: Context)
        ensures
            r.spec_job() == job,
            r.spec_token() == cancellation_token,
    {
        Context { job, cancellation_token }
    }

    /// The job's id.
    pub fn id(&self) -> (r: &str)
        ensures
            r@ == self.spec_job().id@,
    {
        self.job.id.as_str()
    }

    /// The job's queue.
    pub fn queue(&self) -> (r: &str)
        ensures
            r@ == self.spec_job().queue@,
    {
        self.job.queue.as_str()
    }

    /// The job's kind.
    pub fn kind(&self) -> (r: &str)
        ensures
            r@ == self.spec_job().kind@,
    {
        self.job.kind.as_str()
    }

    /// The job's payload.
    pub fn payload(&self) -> (r: &serde_json::Value)
        ensures
            *r == self.spec_job().payload,
    {
        &self.job.payload
    }

    /// Why the previous attempt failed, if it did.
    pub fn error_reason(&self) -> (r: &Option<serde_json::Value>)
        ensures
            *r == self.spec_job().error_reason,
    {
        &self.job.error_reason
    }

    /// How long, in seconds, the lease on the job lasts.
    pub fn lease_time(&self) -> (r: u64)
        ensures
            r == self.spec_job().lease_time,
    {
        self.job.lease_time
    }

    /// How many attempts the job has started, this one included.
    pub fn attempts(&self) -> (r: u16)
        ensures
            r == self.spec_job().attempts,
    {
        self.job.attempts
    }

    /// The worker's shutdown signal.
    pub fn cancellation_token(&self) -> (r: &tokio_util::sync::CancellationToken)
        ensures
            *r == self.spec_token(),
    {
        &self.cancellation_token
    }

    /// The job, taken out of the context.
    pub fn into_job(self) -> (r: Job)
        ensures
            r == self.spec_job(),
    {
        self.job
    }
}

} // verus!
