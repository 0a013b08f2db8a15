//! CloudWatch Logs: groups of logs, followed live.

pub mod app;
pub mod config;
pub mod keys;
pub mod laws;
pub mod log_tail;
pub mod ui;
