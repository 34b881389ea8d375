//! The git tools' workspace.

use vstd::prelude::*;

verus! {

/// The git tools of a workspace.
#[derive(Debug, Clone)]
pub struct GitTool {
    pub workspace: String,
}

impl GitTool {
    /// The git tools of `workspace`.
    pub fn new(workspace: String) -> (r: Self)
        ensures
            r.workspace == workspace,
    {
        GitTool { workspace }
    }
}

} // verus!
