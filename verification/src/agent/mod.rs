//! The agent: messages, prompts, SOP checks, model routing and the ReAct loop's decisions.

pub mod llm_client;
pub mod loop_;
pub mod message;
pub mod prompt;
pub mod sop;
