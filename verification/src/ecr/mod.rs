//! ECR: repositories and their images.

pub mod app;
pub mod config;
pub mod ecr;
pub mod keys;
pub mod laws;
pub mod ui;
