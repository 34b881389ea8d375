//! The `finish` tool: the agent calls it when the task is done.

use vstd::prelude::*;

verus! {

/// The `finish` tool. It has no effect; the loop ends when it is called.
#[derive(Debug, Clone, Copy)]
pub struct FinishTool;

impl FinishTool {
    /// The tool.
    pub fn new() -> (r: Self) {
        FinishTool
    }

    /// Its name.
    pub fn name(&self) -> (r: &'static str)
        ensures
            r@ == "finish"@,
    {
        "finish"
    }

    /// Its answer: `FINISH:` and the summary argument (empty without one).
    pub fn output(&self, summary: Option<&str>) -> (r: String)
        ensures
            r@ == "FINISH:"@ + match summary {
                Some(s) => s@,
                None => Seq::empty(),
            },
    {
        let mut s = String::from_str("FINISH:");
        match summary {
            Some(t) => s.append(t),
            None => {
                assert(s@ =~= "FINISH:"@ + Seq::<char>::empty());
            },
        }
        s
    }
}

impl Default for FinishTool {
    fn default() -> (r: Self) {
        FinishTool::new()
    }
}

} // verus!
