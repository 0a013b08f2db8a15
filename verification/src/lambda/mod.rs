//! Lambda: a list of functions and what they are configured with.

pub mod app;
pub mod config;
pub mod keys;
pub mod lambda;
pub mod laws;
pub mod ui;
