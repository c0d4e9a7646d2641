//! The zlorb service: its configuration, the build strategies and the update cycle
//! that keeps each tracked repository fetched, fast-forwarded and built.
pub mod build_system_executor;
pub mod config_manager;
pub mod repo_processor;
pub mod service_config;
