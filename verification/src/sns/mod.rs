//! SNS: lists of topics and of subscriptions, and test messages to a topic.

pub mod app;
pub mod config;
pub mod keys;
pub mod laws;
pub mod sns;
pub mod ui;
