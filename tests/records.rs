use mq::broker::BLACKHOLE_ID;
use mq::{BlackholeMessageBroker, Context, Error, Job, MqError, MqMessageBytes, NullProducer};
use serde_json::Value;

#[test]
fn job_defaults() {
    let j = Job::new("send-email", Value::from(1));
    assert_eq!(j.id().len(), 20);
    assert_eq!(j.queue(), "default");
    assert_eq!(j.kind(), "send-email");
    assert_eq!(j.payload(), &Value::from(1));
    assert_eq!(j.attempts(), 0);
    assert_eq!(j.max_attempts(), 3);
    assert_eq!(j.lease_time(), 30);
    assert_eq!(j.priority(), 0);
    assert_eq!(j.scheduled_at(), None);
    assert_eq!(j.created_at(), None);
    assert_eq!(j.unique_key(), &None);
    assert_eq!(j.error_reason(), &None);
}

#[test]
fn job_ids_are_fresh() {
    let a = Job::new("k", Value::Null);
    let b = Job::new("k", Value::Null);
    assert_ne!(a.id, b.id);
    let c = b.with_new_id();
    assert_eq!(c.id.len(), 20);
    assert_ne!(c.id, a.id);
}

#[test]
fn job_builders() {
    let j = Job::new("k", Value::Null)
        .with_queue("q")
        .with_id("i")
        .with_attempts(2)
        .with_max_attempts(9)
        .with_lease_time(5)
        .with_priority(-1)
        .with_unique_key("u")
        .with_error_reason(Some(Value::from("e")))
        .with_schedule_at(77);
    assert_eq!((j.queue(), j.id(), j.attempts(), j.max_attempts()), ("q", "i", 2, 9));
    assert_eq!((j.lease_time(), j.priority()), (5, -1));
    assert_eq!(j.unique_key(), &Some("u".to_string()));
    assert_eq!(j.error_reason(), &Some(Value::from("e")));
    assert_eq!(j.scheduled_at(), Some(77));
    assert_eq!(j.with_schedule_now().scheduled_at(), None);
}

#[test]
fn job_on_queue_defaults_empty_name() {
    let j = Job::new("k", Value::Null).on_queue(String::new());
    assert_eq!(j.queue(), "default");
    assert_eq!(j.on_queue("q".to_string()).queue(), "q");
}

#[test]
fn job_schedule_in() {
    let j = Job::new("k", Value::Null).with_schedule_in_from(10, 100);
    assert_eq!(j.scheduled_at(), Some(110));
    let j = j.with_schedule_in_from(10, i64::MAX - 3);
    assert_eq!(j.scheduled_at(), Some(i64::MAX));
    let j = j.with_schedule_in(60);
    assert!(j.scheduled_at().unwrap() > 1_600_000_000 + 60);
}

#[test]
fn job_clone_is_equal() {
    let j = Job::new("k", Value::from("p")).with_unique_key("u");
    let c = j.clone();
    assert_eq!(c.id, j.id);
    assert_eq!(c.payload, j.payload);
    assert_eq!(c.unique_key, j.unique_key);
}

#[test]
fn context_views_the_job() {
    let token = tokio_util::sync::CancellationToken::new();
    let j = Job::new("k", Value::from(5)).with_id("i").with_queue("q").with_lease_time(9);
    let ctx = Context::new(j, token.clone());
    assert_eq!((ctx.id(), ctx.queue(), ctx.kind()), ("i", "q", "k"));
    assert_eq!(ctx.payload(), &Value::from(5));
    assert_eq!(ctx.error_reason(), &None);
    assert_eq!(ctx.lease_time(), 9);
    assert_eq!(ctx.attempts(), 0);
    token.cancel();
    assert!(ctx.cancellation_token().is_cancelled());
    assert_eq!(ctx.into_job().id, "i");
}

#[test]
fn error_messages() {
    assert_eq!(Error::IO("a".into()).message(), "a");
    assert_eq!(Error::JsonError("b".into()).message(), "b");
    assert_eq!(Error::NotSupported("c".into()).message(), "c");
    assert_eq!(Error::OtherError("d".into()).message(), "d");
    assert_eq!(Error::UnknownError("e".into()).message(), "e");
    assert_eq!(Error::IO("a".into()).clone_error(), Error::IO("a".into()));
}

#[test]
fn message_bytes() {
    let m = MqMessageBytes::from_text("hé");
    assert_eq!(m.into_bytes(), vec![b'h', 0xc3, 0xa9]);
    assert_eq!(MqMessageBytes::from_text("hé").into_text(), Ok("hé".to_string()));
    assert_eq!(MqMessageBytes::from_slice(&[0xff, 1]).into_text(), Err(vec![0xff, 1]));
    let m: MqMessageBytes = vec![1u8, 2].into();
    assert_eq!(m.into_bytes(), vec![1, 2]);
}

struct Text(String);

impl TryFrom<MqMessageBytes> for Text {
    type Error = Vec<u8>;
    fn try_from(b: MqMessageBytes) -> Result<Self, Vec<u8>> {
        b.into_text().map(Text)
    }
}

struct NonEmpty;

impl TryFrom<MqMessageBytes> for NonEmpty {
    type Error = Vec<u8>;
    fn try_from(b: MqMessageBytes) -> Result<Self, Vec<u8>> {
        let bytes = b.into_bytes();
        if bytes.is_empty() {
            Err(bytes)
        } else {
            Ok(NonEmpty)
        }
    }
}

#[test]
fn blackhole_broker() {
    let mut b = BlackholeMessageBroker::new();
    assert!(b.create_queue("q").is_ok());
    assert_eq!(b.enqueue("q", MqMessageBytes::from_text("x")).unwrap(), BLACKHOLE_ID);
    let m = b.dequeue::<Text>("q", None).unwrap().unwrap();
    assert_eq!(m.id, "blackholeid");
    assert_eq!(m.data.0, "");
    match b.dequeue::<NonEmpty>("q", Some(10)) {
        Err(MqError::CannotDecodeMessage(bytes)) => assert!(bytes.is_empty()),
        _ => panic!("expected a decode error"),
    }
    assert!(b.ack("blackholeid").is_ok());
    assert!(b.nack("blackholeid").is_ok());
    assert!(b.ping().is_ok());
    assert!(b.delete_queue("q").is_ok());
}

#[test]
fn null_producer() {
    let p = NullProducer::new();
    assert!(p.publish(Job::new("k", Value::Null).with_id("i")).is_ok());
    assert_eq!(p.job_exists("default", "k", "i"), Ok(false));
    assert!(p.cancel_by_id("default", "k", "i").is_ok());
    assert!(p.cancel_by_unique_key("default", "k", "u").is_ok());
}
