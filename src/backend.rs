//! A producer that drops every job.
use vstd::prelude::*;

use crate::consumer::{registered, Consumer};
use crate::error::Error;
use crate::job::{default_queue, Job};

verus! {

/// A producer with no store behind it: publishing succeeds and keeps
/// nothing, so no job ever exists.
pub struct NullProducer {}

impl NullProducer {
    /// A producer that drops everything.
    pub fn new() -> (r: NullProducer) {
        NullProducer {  }
    }

    /// Accepts `job` and drops it.
    pub fn publish(&self, job: Job) -> (r: Result<(), Error>)
        ensures
            r is Ok,
    {
        Ok(())
    }

    /// No job exists.
    pub fn job_exists(&self, queue: &str, kind: &str, id: &str) -> (r: Result<bool, Error>)
        ensures
            r == Ok::<bool, Error>(false),
    {
        Ok(false)
    }

    /// There is nothing to cancel; succeeds.
    pub fn cancel_by_id(&self, queue: &str, kind: &str, id: &str) -> (r: Result<(), Error>)
        ensures
            r is Ok,
    {
        Ok(())
    }

    /// There is nothing to cancel; succeeds.
    pub fn cancel_by_unique_key(&self, queue: &str, kind: &str, key: &str) -> (r: Result<(), Error>)
        ensures
            r is Ok,
    {
        Ok(())
    }
}

/// A consumer with no store behind it: it keeps handlers by kind, on the
/// default queue, and never receives a job.
pub struct NullConsumer<H> {
    callbacks: Consumer<H>,
}

impl<H> NullConsumer<H> {
    /// The registered handlers.
    pub closed spec fn spec_callbacks(&self) -> Consumer<H> {
        self.callbacks
    }

    /// A consumer with no handler.
    pub fn new() -> (r: NullConsumer<H>)
        ensures
            r.spec_callbacks()@ == Seq::<(Seq<char>, Seq<char>, H)>::empty(),
    {
        NullConsumer { callbacks: Consumer::new() }
    }

    /// Registers `handler` for jobs of `kind`, replacing any handler
    /// registered for that kind before.
    pub fn register(&mut self, kind: &str, handler: H)
        ensures
            final(self).spec_callbacks()@ == registered(
                old(self).spec_callbacks()@,
                default_queue(),
                kind@,
                handler,
            ),
    {
        let mut taken = Consumer::new();
        core::mem::swap(&mut self.callbacks, &mut taken);
        self.callbacks = taken.register_kind(kind, handler);
    }

    /// The registered handlers.
    pub fn callbacks(&self) -> (r: &Consumer<H>)
        ensures
            *r == self.spec_callbacks(),
    {
        &self.callbacks
    }
}

} // verus!
