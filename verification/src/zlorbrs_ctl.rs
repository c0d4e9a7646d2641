//! The zlorbrs command line.
pub mod daemon;
