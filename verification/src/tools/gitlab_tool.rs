//! The `create_mr_note` tool: comments on a merge request.

use vstd::prelude::*;

use crate::tools::ToolResult;
use crate::text::{dec_spec, dec_string};

verus! {

/// The `create_mr_note` tool of a project.
#[derive(Debug, Clone)]
pub struct CreateMrNoteTool {
    pub project_id: u64,
}

impl CreateMrNoteTool {
    /// The tool for `project_id`.
    pub fn new(project_id: u64) -> (r: Self)
        ensures
            r.project_id == project_id,
    {
        CreateMrNoteTool { project_id }
    }

    /// Its answer once the comment was posted.
    pub fn posted(&self, mr_iid: u64, note_id: u64) -> (r: ToolResult)
        ensures
            r.success,
            r.output@ == "已评论 MR !"@ + dec_spec(mr_iid as nat) + " (note_id="@ + dec_spec(note_id as nat) + ")"@,
    {
        let mut s = String::from_str("已评论 MR !");
        let a = dec_string(mr_iid);
        s.append(a.as_str());
        s.append(" (note_id=");
        let b = dec_string(note_id);
        s.append(b.as_str());
        s.append(")");
        ToolResult::ok(s.as_str())
    }

    /// Its answer when GitLab refused the comment.
    pub fn refused(&self, reason: &str) -> (r: ToolResult)
        ensures
            !r.success,
            r.output@ == "评论失败: "@ + reason@,
    {
        let mut s = String::from_str("评论失败: ");
        s.append(reason);
        ToolResult::err(s.as_str())
    }
}

} // verus!
