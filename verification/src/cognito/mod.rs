//! Cognito: user pools and their users.

pub mod app;
pub mod cognito;
pub mod config;
pub mod keys;
pub mod laws;
pub mod ui;
