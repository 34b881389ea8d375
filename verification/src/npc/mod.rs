//! Agent roles and the single-agent runner.

pub mod role;
pub mod runner;
