//! ECS: clusters and their services.

pub mod app;
pub mod config;
pub mod ecs;
pub mod keys;
pub mod laws;
pub mod ui;
