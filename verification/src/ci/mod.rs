//! CI loop: log parsing and the controller's decisions.

pub mod controller;
pub mod log_parser;
