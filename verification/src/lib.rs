//! Remote control of `sldl` download jobs: configuration, job registry,
//! command construction, log parsing and config-file sealing.

pub mod commands;
pub mod config;
pub mod config_manager;
pub mod crypto;
pub mod discovery;
pub mod error;
pub mod job;
pub mod job_manager;
pub mod laws;
pub mod library;
pub mod models;
pub mod ordering;
pub mod polling;
pub mod progress;
pub mod registry;
pub mod remote;
pub mod services;
pub mod setup;
pub mod text;
