//! Publish and consume typed events over two message brokers: an nsqd daemon
//! fleet (HTTP publish, TCP pull consumers) and an SQS-style cloud queue.
//!
//! The library holds the addressing, selection, configuration and delivery
//! decisions; the network calls themselves are made by the caller.

pub mod err;
pub mod text;
pub mod nsq;
pub mod consumer;
pub mod session;
pub mod sqs;
