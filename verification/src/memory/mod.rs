//! Development memory: the repository layout, key files and history that
//! the agent is given before it starts.

pub mod context;
pub mod repo_index;
