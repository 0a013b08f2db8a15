//! SQS: a list of queues, their attributes, and which queue is the dead letter
//! queue of which.

pub mod app;
pub mod config;
pub mod keys;
pub mod laws;
pub mod sqs;
pub mod ui;
