//! Decisions, paths, messages and configuration rules of zlorb, a small continuous-integration
//! service for git repositories, with the update cycle that fetches, fast-forwards and builds.
//!
//! - `text`, `path`: decimal numbers, substring search, path joining and the renderings that
//!   messages quote.
//! - `outside`: the outside types the library carries, and the git error it raises.
//! - `sync`: the outside work of an update and its answers.
//! - `zlorb_lib`, `zlorb_ctl`, `zlorb_service`, `zlorb_web`: configuration, command line,
//!   service and web page of zlorb.
//! - `zlorbrs_lib`, `zlorbrs_ctl`, `zlorbrs_service`: the same roles in zlorbrs.
pub mod outside;
pub mod path;
pub mod sync;
pub mod text;
pub mod zlorb_ctl;
pub mod zlorb_lib;
pub mod zlorb_service;
pub mod zlorb_web;
pub mod zlorbrs_ctl;
pub mod zlorbrs_lib;
pub mod zlorbrs_service;
