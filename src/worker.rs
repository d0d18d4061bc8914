//! The worker runtime's decisions. The loop that waits on timers, calls the
//! backend and awaits handlers runs outside the library; at each step it asks
//! the functions here what to do next.
use vstd::prelude::*;

use crate::consumer::{serves, Consumer};
use crate::error::{error_text, Error};
use crate::job::{Job, JobResult};

verus! {

/// Milliseconds between two polls unless told otherwise.
pub const DEFAULT_POLL_INTERVAL: u64 = 3000;

/// The reason recorded for a job that no handler serves.
pub const NO_HANDLER: &'static str = "no handler registered";

/// A worker's configuration: its handlers, its shutdown signal, how many jobs
/// it may run at once (`None`, or zero, for no bound) and the milliseconds
/// between polls.
pub struct Worker<H> {
    consumer: Consumer<H>,
    cancellation_token: tokio_util::sync::CancellationToken,
    concurrency: Option<usize>,
    poll_interval: Option<u64>,
}

/// What the backend is told once a job has been handled, or refused.
#[derive(Debug)]
pub enum Completion {
    /// Remove the job: it succeeded.
    Success { queue: String, kind: String, id: String },
    /// Remove the job: it was given up on purpose.
    Cancelled { queue: String, kind: String, id: String, message: Option<String> },
    /// Release the job and record why it failed.
    Failed { queue: String, kind: String, id: String, reason: String },
}

/// What to do with the result of a poll.
#[derive(Debug)]
pub enum Dispatch {
    /// Nothing is eligible: this drain is over.
    Idle,
    /// Hand the job to its handler.
    Run(Job),
    /// No handler serves the job: settle it as the completion says.
    Reject(Completion),
}

impl<H> Worker<H> {
    pub closed spec fn spec_consumer(&self) -> Consumer<H> {
        self.consumer
    }

    pub closed spec fn spec_token(&self) -> tokio_util::sync::CancellationToken {
        self.cancellation_token
    }

    pub closed spec fn spec_concurrency(&self) -> Option<usize> {
        self.concurrency
    }

    pub closed spec fn spec_poll_interval(&self) -> Option<u64> {
        self.poll_interval
    }

    /// A worker for the handlers of `consumer`, with a fresh shutdown signal,
    /// no bound on concurrency and a poll every three seconds.
    pub fn new(consumer: Consumer<H>) -> (r: Worker<H>)
        ensures
            r.spec_consumer() == consumer,
            r.spec_concurrency() is None,
            r.spec_poll_interval() == Some(DEFAULT_POLL_INTERVAL),
    {
        Worker {
            consumer,
            cancellation_token: tokio_util::sync::CancellationToken::new(),
            concurrency: None,
            poll_interval: Some(DEFAULT_POLL_INTERVAL),
        }
    }

    /// The handlers.
    pub fn consumer(&self) -> (r: &Consumer<H>)
        ensures
            *r == self.spec_consumer(),
    {
        &self.consumer
    }

    /// The bound on jobs run at once.
    pub fn concurrency(&self) -> (r: Option<usize>)
        ensures
            r == self.spec_concurrency(),
    {
        self.concurrency
    }

    /// The same worker with another bound on jobs run at once.
    pub fn with_concurrency(self, concurrency: Option<usize>) -> (r: Worker<H>)
        ensures
            r.spec_concurrency() == concurrency,
            r.spec_consumer() == self.spec_consumer(),
            r.spec_token() == self.spec_token(),
            r.spec_poll_interval() == self.spec_poll_interval(),
    {
        Worker { concurrency, ..self }
    }

    /// The milliseconds between polls, as configured.
    pub fn poll_interval(&self) -> (r: &Option<u64>)
        ensures
            *r == self.spec_poll_interval(),
    {
        &self.poll_interval
    }

    /// The same worker with another poll interval.
    pub fn with_poll_interval(self, poll_interval: Option<u64>) -> (r: Worker<H>)
        ensures
            r.spec_poll_interval() == poll_interval,
            r.spec_consumer() == self.spec_consumer(),
            r.spec_token() == self.spec_token(),
            r.spec_concurrency() == self.spec_concurrency(),
    {
        Worker { poll_interval, ..self }
    }

    /// The milliseconds the loop waits between polls: the configured interval,
    /// or three seconds when none is set.
    pub fn poll_interval_ms(&self) -> (r: u64)
        ensures
            r == match self.spec_poll_interval() {
                Some(ms) => ms,
                None => DEFAULT_POLL_INTERVAL,
            },
    {
        match self.poll_interval {
            Some(ms) => ms,
            None => DEFAULT_POLL_INTERVAL,
        }
    }

    /// The shutdown signal.
    pub fn cancellation_token(&self) -> (r: &tokio_util::sync::CancellationToken)
        ensures
            *r == self.spec_token(),
    {
        &self.cancellation_token
    }

    /// The same worker under another shutdown signal.
    pub fn with_cancellation_token(self, cancellation_token: tokio_util::sync::CancellationToken) -> (r:
        Worker<H>)
        ensures
            r.spec_token() == cancellation_token,
            r.spec_consumer() == self.spec_consumer(),
            r.spec_concurrency() == self.spec_concurrency(),
            r.spec_poll_interval() == self.spec_poll_interval(),
    {
        Worker { cancellation_token, ..self }
    }

    /// What to do with the result of a poll: stop draining when there is no
    /// job, run it when a handler serves its queue and kind, and otherwise
    /// fail it as having no handler (it is not completed).
    pub fn dispatch(&self, polled: Option<Job>) -> (r: Dispatch)
        ensures
            match polled {
                None => r is Idle,
                Some(job) => if serves(self.spec_consumer()@, job.queue@, job.kind@) {
                    r == Dispatch::Run(job)
                } else {
                    r matches Dispatch::Reject(Completion::Failed { queue, kind, id, reason })
                        && queue@ == job.queue@ && kind@ == job.kind@ && id@ == job.id@
                        && reason@ == NO_HANDLER@
                },
            },
    {
        match polled {
            None => Dispatch::Idle,
            Some(job) => {
                if self.consumer.handles(job.queue.as_str(), job.kind.as_str()) {
                    Dispatch::Run(job)
                } else {
                    Dispatch::Reject(
                        Completion::Failed {
                            queue: job.queue,
                            kind: job.kind,
                            id: job.id,
                            reason: NO_HANDLER.to_owned(),
                        },
                    )
                }
            },
        }
    }
}

/// What the backend is told after the handler of the job `id` of `kind` on
/// `queue` returned `outcome`: success and cancellation complete the job, an
/// error fails it with the error's message as the reason.
pub fn completion_for(queue: &str, kind: &str, id: &str, outcome: Result<JobResult, Error>) -> (r:
    Completion)
    ensures
        match outcome {
            Ok(JobResult::CompleteWithSuccess) => r matches Completion::Success { queue: q, kind: k, id: i }
                && q@ == queue@ && k@ == kind@ && i@ == id@,
            Ok(JobResult::CompleteWithCancelled(m)) => r matches Completion::Cancelled {
                queue: q,
                kind: k,
                id: i,
                message,
            } && q@ == queue@ && k@ == kind@ && i@ == id@ && message == m,
            Err(e) => r matches Completion::Failed { queue: q, kind: k, id: i, reason } && q@
                == queue@ && k@ == kind@ && i@ == id@ && reason@ == error_text(e),
        },
{
    let q = queue.to_owned();
    let k = kind.to_owned();
    let i = id.to_owned();
    match outcome {
        Ok(JobResult::CompleteWithSuccess) => Completion::Success { queue: q, kind: k, id: i },
        Ok(JobResult::CompleteWithCancelled(message)) => Completion::Cancelled {
            queue: q,
            kind: k,
            id: i,
            message,
        },
        Err(e) => Completion::Failed { queue: q, kind: k, id: i, reason: e.message() },
    }
}

/// Something the run loop observed.
#[derive(Debug)]
pub enum LoopEvent {
    /// The poll timer fired.
    Tick,
    /// The shutdown signal was given.
    Shutdown,
    /// A drain that was started has ended, cleanly or with a backend error.
    Drained(Result<(), Error>),
}

/// What the run loop does next.
#[derive(Debug)]
pub enum LoopAction {
    /// Start one more drain.
    StartDrain,
    /// Let this tick pass: as many drains run as are allowed.
    Skip,
    /// Start nothing; wait for the drains in flight.
    Wait,
    /// Return from the run with this result.
    Exit(Result<(), Error>),
}

/// A bound on drains in flight allows one more: zero and `None` mean no
/// bound.
pub open spec fn room_for_one(concurrency: Option<usize>, in_flight: usize) -> bool {
    &&& match concurrency {
        Some(c) => c == 0 || in_flight < c,
        None => true,
    }
    &&& in_flight < usize::MAX
}

/// What the run returns: the first backend error, else success.
pub open spec fn run_result(failure: Option<Error>) -> Result<(), Error> {
    match failure {
        Some(e) => Err(e),
        None => Ok(()),
    }
}

/// The run loop's state: how many drains are in flight, whether it is
/// shutting down, and the first backend error seen.
pub struct Scheduler {
    concurrency: Option<usize>,
    in_flight: usize,
    stopping: bool,
    failure: Option<Error>,
}

impl Scheduler {
    pub closed spec fn spec_concurrency(&self) -> Option<usize> {
        self.concurrency
    }

    pub closed spec fn spec_in_flight(&self) -> usize {
        self.in_flight
    }

    pub closed spec fn spec_stopping(&self) -> bool {
        self.stopping
    }

    pub closed spec fn spec_failure(&self) -> Option<Error> {
        self.failure
    }

    /// No more drains are in flight than the bound allows.
    pub open spec fn wf(&self) -> bool {
        match self.spec_concurrency() {
            Some(c) => c == 0 || self.spec_in_flight() <= c,
            None => true,
        }
    }

    /// A loop with nothing in flight, under the bound `concurrency`.
    pub fn new(concurrency: Option<usize>) -> (r: Scheduler)
        ensures
            r.wf(),
            r.spec_concurrency() == concurrency,
            r.spec_in_flight() == 0,
            !r.spec_stopping(),
            r.spec_failure() is None,
    {
        Scheduler { concurrency, in_flight: 0, stopping: false, failure: None }
    }

    /// How many drains are in flight.
    pub fn in_flight(&self) -> (r: usize)
        ensures
            r == self.spec_in_flight(),
    {
        self.in_flight
    }

    /// Whether the loop is shutting down.
    pub fn is_stopping(&self) -> (r: bool)
        ensures
            r == self.spec_stopping(),
    {
        self.stopping
    }

    fn outcome(&self) -> (r: Result<(), Error>)
        ensures
            r == run_result(self.spec_failure()),
    {
        match &self.failure {
            Some(e) => Err(e.clone_error()),
            None => Ok(()),
        }
    }

    /// The loop's next step after `event`.
    ///
    /// A tick starts a drain when the loop is not shutting down and the bound
    /// leaves room; it is let pass when the bound is reached. The shutdown
    /// signal stops new work. A drain that ends with an error stops new work
    /// too, and the first such error is kept. Once the loop is shutting down
    /// and nothing is in flight, it exits with the first error, or success.
    pub fn step(&mut self, event: LoopEvent) -> (r: LoopAction)
        requires
            old(self).wf(),
            event is Drained ==> old(self).spec_in_flight() > 0,
        ensures
            final(self).wf(),
            final(self).spec_concurrency() == old(self).spec_concurrency(),
            match event {
                LoopEvent::Tick => if old(self).spec_stopping() {
                    r is Wait && *final(self) == *old(self)
                } else if room_for_one(old(self).spec_concurrency(), old(self).spec_in_flight()) {
                    r is StartDrain && final(self).spec_in_flight() == old(self).spec_in_flight() + 1
                        && final(self).spec_stopping() == old(self).spec_stopping()
                        && final(self).spec_failure() == old(self).spec_failure()
                } else {
                    r is Skip && *final(self) == *old(self)
                },
                LoopEvent::Shutdown => final(self).spec_stopping() && final(self).spec_in_flight()
                    == old(self).spec_in_flight() && final(self).spec_failure() == old(
                    self,
                ).spec_failure() && (if old(self).spec_in_flight() == 0 {
                    r == LoopAction::Exit(run_result(old(self).spec_failure()))
                } else {
                    r is Wait
                }),
                LoopEvent::Drained(done) => {
                    &&& final(self).spec_in_flight() == old(self).spec_in_flight() - 1
                    &&& final(self).spec_failure() == match (old(self).spec_failure(), done) {
                        (None, Err(e)) => Some(e),
                        (f, _) => f,
                    }
                    &&& final(self).spec_stopping() == (old(self).spec_stopping() || done is Err)
                    &&& if final(self).spec_stopping() && final(self).spec_in_flight() == 0 {
                        r == LoopAction::Exit(run_result(final(self).spec_failure()))
                    } else {
                        r is Wait
                    }
                },
            },
    {
        match event {
            LoopEvent::Tick => {
                if self.stopping {
                    LoopAction::Wait
                } else {
                    let bounded_room = match self.concurrency {
                        Some(c) => c == 0 || self.in_flight < c,
                        None => true,
                    };
                    let room = bounded_room && self.in_flight < usize::MAX;
                    if room {
                        self.in_flight = self.in_flight + 1;
                        LoopAction::StartDrain
                    } else {
                        LoopAction::Skip
                    }
                }
            },
            LoopEvent::Shutdown => {
                self.stopping = true;
                if self.in_flight == 0 {
                    LoopAction::Exit(self.outcome())
                } else {
                    LoopAction::Wait
                }
            },
            LoopEvent::Drained(done) => {
                self.in_flight = self.in_flight - 1;
                match done {
                    Err(e) => {
                        self.stopping = true;
                        if self.failure.is_none() {
                            self.failure = Some(e);
                        }
                    },
                    Ok(()) => {},
                }
                if self.stopping && self.in_flight == 0 {
                    LoopAction::Exit(self.outcome())
                } else {
                    LoopAction::Wait
                }
            },
        }
    }
}

} // verus!
