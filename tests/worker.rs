use mq::worker::{completion_for, NO_HANDLER};
use mq::{Completion, Consumer, Dispatch, Error, Job, JobResult, JobTable, LoopAction, LoopEvent, Scheduler, Worker};
use serde_json::Value;

type Handler = fn(&Job) -> Result<JobResult, Error>;

/// Drains the table once the way the run loop does, calling `handle` for each
/// job it runs; returns the attempts seen by each call.
fn drain(t: &mut JobTable, w: &Worker<Handler>, now: i64, handle: &mut dyn FnMut(&Job) -> Result<JobResult, Error>) -> Vec<u16> {
    let queues = w.consumer().queues();
    let mut seen = Vec::new();
    loop {
        let polled = t.poll_next_job_at(&queues, now);
        let completion = match w.dispatch(polled) {
            Dispatch::Idle => break,
            Dispatch::Reject(c) => c,
            Dispatch::Run(job) => {
                seen.push(job.attempts);
                let outcome = handle(&job);
                completion_for(&job.queue, &job.kind, &job.id, outcome)
            }
        };
        match completion {
            Completion::Success { queue, kind, id } => t.complete_job_with_success(&queue, &kind, &id),
            Completion::Cancelled { queue, kind, id, message } => {
                t.complete_job_with_cancelled(&queue, &kind, &id, message)
            }
            Completion::Failed { queue, kind, id, reason } => {
                t.fail_job_at(&queue, &kind, &id, Value::String(reason), now)
            }
        }
    }
    seen
}

fn ok_handler(_: &Job) -> Result<JobResult, Error> {
    Ok(JobResult::CompleteWithSuccess)
}

fn worker() -> Worker<Handler> {
    Worker::new(Consumer::new().register_kind("send-email", ok_handler as Handler))
}

#[test]
fn happy_path() {
    let mut t = JobTable::new();
    let mut payload = serde_json::Map::new();
    payload.insert("to".to_string(), Value::from("a@b"));
    payload.insert("body".to_string(), Value::from("hi"));
    t.publish_at(Job::new("send-email", Value::Object(payload)), 0).unwrap();
    let w = worker();
    let mut s = Scheduler::new(w.concurrency());
    assert!(matches!(s.step(LoopEvent::Tick), LoopAction::StartDrain));
    let mut calls = 0;
    drain(&mut t, &w, 3, &mut |_| {
        calls += 1;
        Ok(JobResult::CompleteWithSuccess)
    });
    assert!(matches!(s.step(LoopEvent::Drained(Ok(()))), LoopAction::Wait));
    assert_eq!(t.len(), 0);
    assert_eq!(calls, 1);
    assert!(matches!(s.step(LoopEvent::Shutdown), LoopAction::Exit(Ok(()))));
}

#[test]
fn retry_then_success() {
    let mut t = JobTable::new();
    t.publish_at(Job::new("send-email", Value::Null).with_id("j").with_max_attempts(3), 0).unwrap();
    let w = worker();
    let mut calls = 0;
    let mut reasons = Vec::new();
    let mut attempts_seen = Vec::new();
    for now in 1..10 {
        let seen = drain(&mut t, &w, now, &mut |_| {
            calls += 1;
            if calls < 3 {
                Err(Error::UnknownError("boom".to_string()))
            } else {
                Ok(JobResult::CompleteWithSuccess)
            }
        });
        attempts_seen.extend(seen);
        if let Some(i) = t.position("default", "send-email", "j") {
            reasons.push(t.get(i).error_reason.clone());
        }
        if t.len() == 0 {
            break;
        }
    }
    assert_eq!(t.len(), 0);
    assert_eq!(calls, 3);
    assert_eq!(attempts_seen.last(), Some(&3));
}

#[test]
fn retry_records_each_failure() {
    let mut t = JobTable::new();
    t.publish_at(Job::new("send-email", Value::Null).with_id("j").with_max_attempts(3), 0).unwrap();
    let w = worker();
    let mut fails = 0;
    let mut calls = 0;
    // one lease per drain: the handler fails twice, then succeeds
    for now in 1..4 {
        let queues = w.consumer().queues();
        let polled = t.poll_next_job_at(&queues, now);
        if let Dispatch::Run(job) = w.dispatch(polled) {
            calls += 1;
            assert_eq!(job.attempts, calls);
            let outcome = if calls < 3 {
                Err(Error::UnknownError("boom".to_string()))
            } else {
                Ok(JobResult::CompleteWithSuccess)
            };
            match completion_for(&job.queue, &job.kind, &job.id, outcome) {
                Completion::Failed { queue, kind, id, reason } => {
                    fails += 1;
                    assert_eq!(reason, "boom");
                    t.fail_job_at(&queue, &kind, &id, Value::String(reason), now);
                    let i = t.position("default", "send-email", "j").unwrap();
                    assert_eq!(t.get(i).error_reason, Some(Value::from("boom")));
                }
                Completion::Success { queue, kind, id } => t.complete_job_with_success(&queue, &kind, &id),
                other => panic!("unexpected {:?}", other),
            }
        }
    }
    assert_eq!(fails, 2);
    assert_eq!(calls, 3);
    assert_eq!(t.len(), 0);
}

#[test]
fn exhaustion_through_worker() {
    let mut t = JobTable::new();
    t.publish_at(Job::new("send-email", Value::Null).with_id("j").with_max_attempts(2), 0).unwrap();
    let w = worker();
    let mut calls = 0;
    for now in 1..6 {
        drain(&mut t, &w, now, &mut |_| {
            calls += 1;
            Err(Error::UnknownError("always".to_string()))
        });
    }
    assert_eq!(calls, 2);
    let r = t.get(t.position("default", "send-email", "j").unwrap());
    assert_eq!(r.attempts, 2);
    assert_eq!(r.locked_at, None);
    assert_eq!(r.error_reason, Some(Value::from("always")));
}

#[test]
fn job_without_handler_is_failed_not_completed() {
    let mut t = JobTable::new();
    t.publish_at(Job::new("unknown", Value::Null).with_id("j").with_max_attempts(1), 0).unwrap();
    let w = worker();
    let polled = t.poll_next_job_at(&vec!["default".to_string()], 1);
    match w.dispatch(polled) {
        Dispatch::Reject(Completion::Failed { queue, kind, id, reason }) => {
            assert_eq!((queue.as_str(), kind.as_str(), id.as_str()), ("default", "unknown", "j"));
            assert_eq!(reason, NO_HANDLER);
        }
        other => panic!("unexpected {:?}", other),
    }
}

#[test]
fn dispatch_idle_and_run() {
    let w = worker();
    assert!(matches!(w.dispatch(None), Dispatch::Idle));
    let j = Job::new("send-email", Value::Null);
    let id = j.id.clone();
    match w.dispatch(Some(j)) {
        Dispatch::Run(job) => assert_eq!(job.id, id),
        other => panic!("unexpected {:?}", other),
    }
}

#[test]
fn completion_for_each_outcome() {
    match completion_for("q", "k", "i", Ok(JobResult::CompleteWithSuccess)) {
        Completion::Success { queue, kind, id } => assert_eq!((queue, kind, id), ("q".into(), "k".into(), "i".into())),
        other => panic!("unexpected {:?}", other),
    }
    match completion_for("q", "k", "i", Ok(JobResult::CompleteWithCancelled(Some("m".into())))) {
        Completion::Cancelled { message, .. } => assert_eq!(message, Some("m".to_string())),
        other => panic!("unexpected {:?}", other),
    }
    match completion_for("q", "k", "i", Err(Error::IO("disk".into()))) {
        Completion::Failed { reason, .. } => assert_eq!(reason, "disk"),
        other => panic!("unexpected {:?}", other),
    }
}

#[test]
fn priority_ordering_with_concurrency_one() {
    let mut t = JobTable::new();
    t.publish_at(Job::new("send-email", Value::Null).with_id("j1").with_priority(0), 0).unwrap();
    t.publish_at(Job::new("send-email", Value::Null).with_id("j2").with_priority(10), 0).unwrap();
    let w = worker().with_concurrency(Some(1));
    let mut s = Scheduler::new(w.concurrency());
    assert!(matches!(s.step(LoopEvent::Tick), LoopAction::StartDrain));
    assert!(matches!(s.step(LoopEvent::Tick), LoopAction::Skip));
    let mut order = Vec::new();
    drain(&mut t, &w, 1, &mut |j| {
        order.push(j.id.clone());
        Ok(JobResult::CompleteWithSuccess)
    });
    assert_eq!(order, vec!["j2".to_string(), "j1".to_string()]);
}

#[test]
fn scheduler_respects_bound() {
    let mut s = Scheduler::new(Some(2));
    assert!(matches!(s.step(LoopEvent::Tick), LoopAction::StartDrain));
    assert!(matches!(s.step(LoopEvent::Tick), LoopAction::StartDrain));
    assert!(matches!(s.step(LoopEvent::Tick), LoopAction::Skip));
    assert_eq!(s.in_flight(), 2);
    assert!(matches!(s.step(LoopEvent::Drained(Ok(()))), LoopAction::Wait));
    assert!(matches!(s.step(LoopEvent::Tick), LoopAction::StartDrain));
    assert_eq!(s.in_flight(), 2);
}

#[test]
fn scheduler_zero_or_none_is_unbounded() {
    for c in [None, Some(0)] {
        let mut s = Scheduler::new(c);
        for _ in 0..100 {
            assert!(matches!(s.step(LoopEvent::Tick), LoopAction::StartDrain));
        }
        assert_eq!(s.in_flight(), 100);
    }
}

#[test]
fn scheduler_shutdown_waits_for_in_flight() {
    let mut s = Scheduler::new(None);
    s.step(LoopEvent::Tick);
    assert!(matches!(s.step(LoopEvent::Shutdown), LoopAction::Wait));
    assert!(s.is_stopping());
    assert!(matches!(s.step(LoopEvent::Tick), LoopAction::Wait));
    assert!(matches!(s.step(LoopEvent::Drained(Ok(()))), LoopAction::Exit(Ok(()))));
}

#[test]
fn scheduler_first_error_ends_run_after_in_flight() {
    let mut s = Scheduler::new(None);
    s.step(LoopEvent::Tick);
    s.step(LoopEvent::Tick);
    let a = s.step(LoopEvent::Drained(Err(Error::IO("first".into()))));
    assert!(matches!(a, LoopAction::Wait));
    assert!(matches!(s.step(LoopEvent::Tick), LoopAction::Wait));
    match s.step(LoopEvent::Drained(Err(Error::IO("second".into())))) {
        LoopAction::Exit(Err(Error::IO(m))) => assert_eq!(m, "first"),
        other => panic!("unexpected {:?}", other),
    }
}

#[test]
fn worker_defaults_and_setters() {
    let w = worker();
    assert_eq!(w.concurrency(), None);
    assert_eq!(*w.poll_interval(), Some(3000));
    assert_eq!(w.poll_interval_ms(), 3000);
    let token = tokio_util::sync::CancellationToken::new();
    let w = w.with_concurrency(Some(4)).with_poll_interval(None).with_cancellation_token(token.clone());
    assert_eq!(w.concurrency(), Some(4));
    assert_eq!(w.poll_interval_ms(), 3000);
    token.cancel();
    assert!(w.cancellation_token().is_cancelled());
    let w = w.with_poll_interval(Some(10));
    assert_eq!(w.poll_interval_ms(), 10);
}
