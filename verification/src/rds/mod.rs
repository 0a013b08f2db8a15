//! RDS: lists of database instances and of clusters.

pub mod app;
pub mod config;
pub mod keys;
pub mod laws;
pub mod rds;
pub mod ui;
