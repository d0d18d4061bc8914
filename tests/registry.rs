use mq::{Consumer, ConsumerQueueOptions};

#[test]
fn register_and_lookup() {
    let c = Consumer::new().register("q", "a", 1).register("q", "b", 2).register_kind("a", 3);
    assert_eq!(c.lookup("q", "a"), Some(&1));
    assert_eq!(c.lookup("q", "b"), Some(&2));
    assert_eq!(c.lookup("default", "a"), Some(&3));
    assert_eq!(c.lookup("q", "c"), None);
    assert!(c.handles("q", "b"));
    assert!(!c.handles("other", "b"));
}

#[test]
fn later_registration_replaces() {
    let c = Consumer::new().register("q", "a", 1).register("q", "a", 7);
    assert_eq!(c.lookup("q", "a"), Some(&7));
    assert_eq!(c.queues(), vec!["q".to_string()]);
}

#[test]
fn queues_are_distinct_in_first_order() {
    let c = Consumer::new()
        .register("b", "x", ())
        .register("a", "x", ())
        .register("b", "y", ())
        .register_kind("z", ());
    assert_eq!(c.queues(), vec!["b".to_string(), "a".to_string(), "default".to_string()]);
    let empty: Consumer<()> = Consumer::new();
    assert!(empty.queues().is_empty());
}

#[test]
fn queue_options() {
    let o = ConsumerQueueOptions::new("q", 3);
    assert_eq!((o.queue.as_str(), o.priority), ("q", 3));
    let o = o.with_queue(String::new());
    assert_eq!(o.queue, "default");
    let o = o.with_queue("x".to_string()).with_priority(-2);
    assert_eq!((o.queue.as_str(), o.priority), ("x", -2));
    let d = ConsumerQueueOptions::default();
    assert_eq!((d.queue.as_str(), d.priority), ("default", 1));
}

#[test]
fn null_consumer_keeps_handlers_by_kind() {
    let mut c = mq::NullConsumer::new();
    c.register("foo", 1);
    c.register("bar", 2);
    c.register("foo", 3);
    assert_eq!(c.callbacks().lookup("default", "foo"), Some(&3));
    assert_eq!(c.callbacks().lookup("default", "bar"), Some(&2));
    assert_eq!(c.callbacks().queues(), vec!["default".to_string()]);
}
