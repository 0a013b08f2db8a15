//! EventBridge Scheduler: a list of schedules and an editor for one of them.

pub mod app;
pub mod config;
pub mod edit;
pub mod keys;
pub mod laws;
pub mod schedule_expr;
pub mod schedules;
pub mod ui;
