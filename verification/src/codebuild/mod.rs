//! CodeBuild: the projects of an account, what each is made of, and its most
//! recent builds.

pub mod app;
pub mod codebuild;
pub mod config;
pub mod keys;
pub mod laws;
pub mod ui;
