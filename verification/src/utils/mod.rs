//! Configuration defaults and the detection of a configuration file's format.

pub mod config;
pub mod metrics;
