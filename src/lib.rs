//! A durable job queue: the job record, an in-memory job table that keeps the
//! store-level rules (leasing, retries, uniqueness, ordering), the handler
//! registry, and the decisions of the worker runtime.

pub mod backend;
pub mod broker;
pub mod consumer;
pub mod context;
pub mod error;
pub mod foreign;
pub mod job;
pub mod laws;
pub mod message;
pub mod table;
pub mod worker;

pub use backend::{NullConsumer, NullProducer};
pub use broker::BlackholeMessageBroker;
pub use consumer::{Consumer, ConsumerQueueOptions};
pub use context::Context;
pub use error::Error;
pub use job::{Job, JobResult};
pub use message::{MqError, MqMessage, MqMessageBytes};
pub use table::JobTable;
pub use worker::{Completion, Dispatch, LoopAction, LoopEvent, Scheduler, Worker};
