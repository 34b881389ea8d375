//! The aggregated context of a task.

use vstd::prelude::*;

use crate::config::{ContextConfig, ProjectConfig};
use crate::gitlab_api::pipelines::failed_of;
use crate::gitlab_api::{pipeline_views, Issue, MergeRequest, Note, Pipeline, PipelineView};
use crate::text::str_eq;

verus! {

/// What the agent knows before it starts.
#[derive(Debug, Clone)]
pub struct Context {
    pub repo_tree: RepoTree,
    pub key_files: Vec<KeyFile>,
    pub issue: Issue,
    pub related_prs: Vec<MergeRequest>,
    pub issue_notes: Vec<Note>,
    pub recent_commits: Vec<String>,
    pub ci_failures: Vec<CiFailure>,
    pub project_config: ProjectConfig,
}

/// The repository layout (top level and second level).
#[derive(Debug, Clone)]
pub struct RepoTree {
    pub entries: Vec<TreeEntry>,
}

impl Default for RepoTree {
    fn default() -> (r: Self)
        ensures
            r.entries@.len() == 0,
    {
        RepoTree { entries: Vec::new() }
    }
}

/// One path of the layout.
#[derive(Debug, Clone)]
pub struct TreeEntry {
    pub path: String,
    pub kind: TreeKind,
    pub size: Option<u64>,
}

/// A layout entry as plain values.
pub struct TreeEntryView {
    pub path: Seq<char>,
    pub kind: TreeKind,
    pub size: Option<u64>,
}

impl View for TreeEntry {
    type V = TreeEntryView;

    open spec fn view(&self) -> TreeEntryView {
        TreeEntryView { path: self.path@, kind: self.kind, size: self.size }
    }
}

/// The views of a list of layout entries.
pub open spec fn entry_views(v: Seq<TreeEntry>) -> Seq<TreeEntryView> {
    v.map_values(|e: TreeEntry| e@)
}

/// File or directory.
#[derive(Debug, Clone, Copy, PartialEq, Eq, Structural)]
pub enum TreeKind {
    File,
    Dir,
}

/// A key file and its summary.
#[derive(Debug, Clone)]
pub struct KeyFile {
    pub path: String,
    pub summary: String,
}

/// A CI failure from the history.
#[derive(Debug, Clone)]
pub struct CiFailure {
    pub pipeline_id: u64,
    pub job_name: String,
    pub failure_type: FailureType,
    pub root_cause: String,
}

/// Kinds of historical CI failure.
#[derive(Debug, Clone, Copy, PartialEq, Eq, Structural)]
pub enum FailureType {
    Compile,
    Test,
    Lint,
    Other,
}

/// The failures recorded for the failed pipelines: at most `max` of them, in
/// order, each with job `unknown`, type `Other` and cause `pipeline failed`.
pub open spec fn failures_match(r: Seq<CiFailure>, pipelines: Seq<Pipeline>, max: int) -> bool {
    let failed = failed_of(pipeline_views(pipelines));
    let n = if max < failed.len() {
        max
    } else {
        failed.len() as int
    };
    &&& r.len() == n
    &&& forall|i: int| 0 <= i < n ==> failure_of(#[trigger] r[i], failed[i])
}

/// The failure recorded for a failed pipeline.
pub open spec fn failure_of(f: CiFailure, p: PipelineView) -> bool {
    &&& f.pipeline_id == p.id
    &&& f.job_name@ == "unknown"@
    &&& f.failure_type == FailureType::Other
    &&& f.root_cause@ == "pipeline failed"@
}

/// The failure history of recent pipelines: the failed ones, oldest listed
/// first, at most `max_ci_history_failures` of them.
pub fn extract_failures(pipelines: &[Pipeline], config: &ContextConfig) -> (r: Vec<CiFailure>)
    ensures
        failures_match(r@, pipelines@, config.max_ci_history_failures as int),
{
    let ghost pv = pipeline_views(pipelines@);
    let max = config.max_ci_history_failures;
    let mut r: Vec<CiFailure> = Vec::new();
    let mut i: usize = 0;
    while i < pipelines.len()
        invariant
            i <= pipelines.len(),
            pv == pipeline_views(pipelines@),
            max == config.max_ci_history_failures,
            r@.len() <= max,
            r@.len() == max || r@.len() == failed_of(pv.take(i as int)).len(),
            r@.len() <= failed_of(pv.take(i as int)).len(),
            forall|k: int| 0 <= k < r@.len() ==> failure_of(#[trigger] r@[k], failed_of(pv.take(i as int))[k]),
        decreases pipelines.len() - i,
    {
        let ghost f = failed_of(pv.take(i as int));
        proof {
            let t = pv.take(i + 1);
            assert(t.drop_last() =~= pv.take(i as int));
            assert(t.last() == pipelines@[i as int]@);
        }
        if str_eq(pipelines[i].status.as_str(), "failed") {
            assert(failed_of(pv.take(i + 1)) == f.push(pipelines@[i as int]@));
            if r.len() < max {
                let ghost before = r@;
                r.push(
                    CiFailure {
                        pipeline_id: pipelines[i].id,
                        job_name: String::from_str("unknown"),
                        failure_type: FailureType::Other,
                        root_cause: String::from_str("pipeline failed"),
                    },
                );
                assert forall|k: int| 0 <= k < r@.len() implies failure_of(#[trigger] r@[k], failed_of(
                    pv.take(i + 1),
                )[k]) by {
                    if k < before.len() {
                        assert(r@[k] == before[k]);
                    }
                }
            }
        } else {
            assert(failed_of(pv.take(i + 1)) == f);
        }
        i = i + 1;
    }
    assert(pv.take(pv.len() as int) =~= pv);
    r
}

} // verus!
