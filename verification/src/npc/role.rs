//! Agent roles.

use vstd::prelude::*;

verus! {

/// A role: who the agent is and which tools it may use.
#[derive(Debug, Clone)]
pub struct Role {
    pub name: String,
    pub description: String,
    pub system_prompt: String,
    pub max_iterations: u32,
    pub default_sop: Option<String>,
    pub tools: Vec<String>,
}

/// Iteration limit of a role that names none.
pub fn default_max_iterations() -> (n: u32)
    ensures
        n == 20,
{
    20
}

} // verus!
