//! Amplify: the apps of an account with their branches and deployments.

pub mod actions;
pub mod amplify;
pub mod app;
pub mod app_laws;
pub mod branches;
pub mod config;
pub mod dates;
pub mod drain;
pub mod keys;
pub mod laws;
pub mod list_laws;
pub mod mouse;
pub mod ui;
pub mod view_laws;
