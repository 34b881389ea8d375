//! The agent's tools: their results, their argument checks and the texts
//! they answer with. Running a tool (files, processes, GitLab) is done by the
//! program around the library.

pub mod aft;
pub mod file_io;
pub mod finish;
pub mod git_tool;
pub mod gitlab_tool;
pub mod shell;

use vstd::prelude::*;

use crate::error::DevnpcError;

verus! {

/// The result of a tool call.
#[derive(Debug, Clone)]
pub struct ToolResult {
    pub success: bool,
    pub output: String,
}

impl ToolResult {
    /// A successful result.
    pub fn ok(output: &str) -> (r: Self)
        ensures
            r.success,
            r.output@ == output@,
    {
        ToolResult { success: true, output: String::from_str(output) }
    }

    /// A failed result.
    pub fn err(output: &str) -> (r: Self)
        ensures
            !r.success,
            r.output@ == output@,
    {
        ToolResult { success: false, output: String::from_str(output) }
    }
}

/// The error for a call of a tool that is not registered.
pub fn unknown_tool(name: &str) -> (e: DevnpcError)
    ensures
        e matches DevnpcError::Tool { tool, msg } && tool@ == name@ && msg@ == "工具未注册"@,
{
    DevnpcError::Tool { tool: String::from_str(name), msg: String::from_str("工具未注册") }
}

/// The error for a tool call whose arguments are missing or malformed.
pub fn bad_arguments(tool: &str, msg: &str) -> (e: DevnpcError)
    ensures
        e matches DevnpcError::Tool { tool: t, msg: m } && t@ == tool@ && m@ == msg@,
{
    DevnpcError::Tool { tool: String::from_str(tool), msg: String::from_str(msg) }
}

} // verus!
