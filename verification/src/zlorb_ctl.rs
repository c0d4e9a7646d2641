//! The zlorb command line: starting the service and editing the tracked repositories.
pub mod daemon;
pub mod repo;
