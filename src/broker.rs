//! A broker that accepts everything and keeps nothing.
use vstd::prelude::*;

use crate::message::{MqError, MqMessage, MqMessageBytes};

verus! {

/// The id of every message the black hole hands out or takes in.
pub const BLACKHOLE_ID: &'static str = "blackholeid";

/// A broker whose queues are always empty: what is sent disappears, and
/// every receive yields an empty body.
pub struct BlackholeMessageBroker {}

impl BlackholeMessageBroker {
    /// A black hole.
    pub fn new() -> (r: BlackholeMessageBroker) {
        BlackholeMessageBroker {  }
    }

    /// Creating a queue always succeeds.
    pub fn create_queue(&mut self, queue_name: &str) -> (r: Result<(), MqError>)
        ensures
            r is Ok,
    {
        Ok(())
    }

    /// Deleting a queue always succeeds.
    pub fn delete_queue(&mut self, queue_name: &str) -> (r: Result<(), MqError>)
        ensures
            r is Ok,
    {
        Ok(())
    }

    /// Receives a message with an empty body, decoded as `E`; a body that
    /// `E` refuses is reported with its bytes.
    pub fn dequeue<E: TryFrom<MqMessageBytes, Error = Vec<u8>>>(
        &mut self,
        queue_name: &str,
        visibility_timeout_in_ms: Option<u64>,
    ) -> (r: Result<Option<MqMessage<E>>, MqError>)
        ensures
            match r {
                Ok(m) => m matches Some(msg) && msg.id@ == BLACKHOLE_ID@,
                Err(e) => e is CannotDecodeMessage,
            },
    {
        match E::try_from(MqMessageBytes(Vec::new())) {
            Ok(data) => Ok(Some(MqMessage { id: BLACKHOLE_ID.to_owned(), data })),
            Err(bytes) => Err(MqError::CannotDecodeMessage(bytes)),
        }
    }

    /// Sending succeeds and yields the black hole's message id.
    pub fn enqueue(&mut self, queue_name: &str, message: MqMessageBytes) -> (r: Result<String, MqError>)
        ensures
            r matches Ok(id) && id@ == BLACKHOLE_ID@,
    {
        Ok(BLACKHOLE_ID.to_owned())
    }

    /// Acknowledging always succeeds.
    pub fn ack(&mut self, message_id: &str) -> (r: Result<(), MqError>)
        ensures
            r is Ok,
    {
        Ok(())
    }

    /// Rejecting always succeeds.
    pub fn nack(&mut self, message_id: &str) -> (r: Result<(), MqError>)
        ensures
            r is Ok,
    {
        Ok(())
    }

    /// The black hole always answers.
    pub fn ping(&mut self) -> (r: Result<(), MqError>)
        ensures
            r is Ok,
    {
        Ok(())
    }
}

} // verus!
