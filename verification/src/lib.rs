//! Keeps one local mirror of a remote git repository: makes sure that it
//! exists, brings it up to date, and moves it to a given commit or to the tip
//! of the main line.

pub mod error;
pub mod git_config;
pub mod object_id;
pub mod request;
pub mod engine;
pub mod plan;
pub mod session;
pub mod exchange;
pub mod downloader;
pub mod model;
pub mod laws;
