//! Shared pieces of the zlorbrs tools: per-repository configuration, errors and log lines.
pub mod config;
pub mod error;
pub mod log;
