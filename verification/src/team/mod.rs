//! Multi-agent teams: the handoff protocol and the orchestration decisions.

pub mod comm;
pub mod orchestrator;
