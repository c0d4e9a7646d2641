//! The zlorbrs service: configuration files, the update of each repository and the
//! loop that runs the updates.
pub mod bun;
pub mod config_manager;
pub mod repo_processor;
pub mod service_coordinator;
