//! devnpc: verified core of a GitLab-driven development agent.
//!
//! The library holds the decisions and text processing of the agent: trigger
//! parsing, configuration merging, CI log parsing, SOP deviation checks, prompt
//! and report rendering, and the helpers of the tools. Network, process and
//! file-system work is done by the program around it.

pub mod adapter;
pub mod agent;
pub mod ci;
pub mod config;
pub mod error;
pub mod git;
pub mod gitlab_api;
pub mod json;
pub mod memory;
pub mod npc;
pub mod report;
pub mod run;
pub mod team;
pub mod pattern;
pub mod text;
pub mod tools;
pub mod trigger;
