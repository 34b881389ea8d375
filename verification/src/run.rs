//! The decisions of a command-line run around the agent: the merge request it
//! opens, what it falls back to when the CI loop fails, and the report and
//! summary it gives.

use vstd::prelude::*;

use crate::agent::loop_::{Trajectory, TrajectoryEvent};
use crate::ci::controller::CiOutcome;
use crate::config::ReportTarget;
use crate::gitlab_api::CreateMrReq;
use crate::npc::runner::NpcResult;
use crate::report::collector::{CostEstimate, ReportData, TrajectorySummary};

verus! {

/// The number of LLM calls among the events.
pub open spec fn llm_calls_in(v: Seq<TrajectoryEvent>) -> int
    decreases v.len(),
{
    if v.len() == 0 {
        0
    } else {
        llm_calls_in(v.drop_last()) + if v.last() is LlmCall {
            1int
        } else {
            0int
        }
    }
}

/// The number of tool calls among the events.
pub open spec fn tool_calls_in(v: Seq<TrajectoryEvent>) -> int
    decreases v.len(),
{
    if v.len() == 0 {
        0
    } else {
        tool_calls_in(v.drop_last()) + if v.last() is ToolCall {
            1int
        } else {
            0int
        }
    }
}

proof fn lemma_calls_bounded(v: Seq<TrajectoryEvent>)
    ensures
        0 <= llm_calls_in(v) <= v.len(),
        0 <= tool_calls_in(v) <= v.len(),
    decreases v.len(),
{
    if v.len() > 0 {
        lemma_calls_bounded(v.drop_last());
    }
}

/// The status and the number of fix cycles a run reports for a CI outcome.
pub open spec fn outcome_status(o: CiOutcome) -> (Seq<char>, u8) {
    match o {
        CiOutcome::Passed { attempts, .. } => ("success"@, attempts),
        CiOutcome::Failed { attempts, .. } => ("failed"@, attempts),
        CiOutcome::Timeout { .. } => ("timeout"@, 0),
        CiOutcome::Error { .. } => ("error"@, 0),
    }
}

/// Counts the LLM and tool calls of a trajectory.
pub fn count_calls(t: &Trajectory) -> (r: (u32, u32))
    requires
        t.events@.len() <= u32::MAX,
    ensures
        r.0 as int == llm_calls_in(t.events@),
        r.1 as int == tool_calls_in(t.events@),
{
    let mut llm: u32 = 0;
    let mut tools: u32 = 0;
    let mut i: usize = 0;
    while i < t.events.len()
        invariant
            i <= t.events.len(),
            t.events@.len() <= u32::MAX,
            llm as int == llm_calls_in(t.events@.take(i as int)),
            tools as int == tool_calls_in(t.events@.take(i as int)),
        decreases t.events.len() - i,
    {
        proof {
            let p = t.events@.take(i + 1);
            assert(p.drop_last() =~= t.events@.take(i as int));
            lemma_calls_bounded(t.events@.take(i as int));
        }
        match &t.events[i] {
            TrajectoryEvent::LlmCall { .. } => {
                llm = llm + 1;
            },
            TrajectoryEvent::ToolCall { .. } => {
                tools = tools + 1;
            },
            TrajectoryEvent::Deviation { .. } => {},
        }
        i = i + 1;
    }
    assert(t.events@.take(t.events@.len() as int) =~= t.events@);
    (llm, tools)
}

/// The report of a command-line run: the calls of the agent's trajectory,
/// its summary, and the status and fix cycles of the CI outcome; the rest
/// left empty.
pub fn build_report(npc_result: &NpcResult, ci_outcome: &CiOutcome) -> (r: ReportData)
    requires
        npc_result.trajectory.events@.len() <= u32::MAX,
    ensures
        r.llm_calls as int == llm_calls_in(npc_result.trajectory.events@),
        r.tool_calls as int == tool_calls_in(npc_result.trajectory.events@),
        (r.status@, r.ci_retries) == outcome_status(*ci_outcome),
        r.summary@ == npc_result.summary@,
        r.duration_secs == 0,
        r.token_total == 0,
        r.mr_url is None,
        r.ci_url is None,
        r.task_description@.len() == 0,
        r.trajectory.events@.len() == 0,
        r.cost_estimate.input_tokens == 0 && r.cost_estimate.output_tokens == 0
            && r.cost_estimate.estimated_cost_micro_usd == 0,
        r.mr_iid is None,
        r.pipeline_id is None,
        r.started_at@.len() == 0,
        r.finished_at@.len() == 0,
        r.team_steps@.len() == 0,
{
    let (llm_calls, tool_calls) = count_calls(&npc_result.trajectory);
    let (status, ci_retries) = match ci_outcome {
        CiOutcome::Passed { attempts, .. } => (String::from_str("success"), *attempts),
        CiOutcome::Failed { attempts, .. } => (String::from_str("failed"), *attempts),
        CiOutcome::Timeout { .. } => (String::from_str("timeout"), 0u8),
        CiOutcome::Error { .. } => (String::from_str("error"), 0u8),
    };
    ReportData {
        status,
        duration_secs: 0,
        token_total: 0,
        llm_calls,
        tool_calls,
        ci_retries,
        mr_url: None,
        ci_url: None,
        summary: npc_result.summary.clone(),
        task_description: String::new(),
        trajectory: TrajectorySummary::default(),
        cost_estimate: CostEstimate::default(),
        mr_iid: None,
        pipeline_id: None,
        started_at: String::new(),
        finished_at: String::new(),
        team_steps: Vec::new(),
    }
}

/// The draft merge request a run opens for its branch, into `main`.
pub fn mr_request(branch: &str, summary: &str) -> (r: CreateMrReq)
    ensures
        r.source_branch@ == branch@,
        r.target_branch@ == "main"@,
        r.title@ == "devnpc: "@ + summary@,
        r.description@ == "由 devnpc 自动创建的 MR\n\n## 摘要\n"@ + summary@,
        r.draft,
{
    let mut title = String::from_str("devnpc: ");
    title.append(summary);
    let mut description = String::from_str("由 devnpc 自动创建的 MR\n\n## 摘要\n");
    description.append(summary);
    CreateMrReq {
        source_branch: String::from_str(branch),
        target_branch: String::from_str("main"),
        title,
        description,
        draft: true,
    }
}

/// What a run reports when the CI loop itself failed: passed, with no
/// pipeline and no fix cycle.
pub fn ci_failed_fallback(mr_iid: u64) -> (r: CiOutcome)
    ensures
        r == (CiOutcome::Passed { mr_iid, pipeline_id: 0, attempts: 0 }),
{
    CiOutcome::Passed { mr_iid, pipeline_id: 0, attempts: 0 }
}

/// The text a run prints and comments: its status, summary, branch and report.
pub fn run_summary_text(status: &str, summary: &str, branch: &str, report_url: &str) -> (r: String)
    ensures
        r@ == "## devnpc 执行报告\n\n**状态**: "@ + status@ + "\n**摘要**: "@ + summary@ + "\n\n**分支**: "@ + branch@
            + "\n**报告**: "@ + report_url@,
{
    let mut s = String::from_str("## devnpc 执行报告\n\n**状态**: ");
    s.append(status);
    s.append("\n**摘要**: ");
    s.append(summary);
    s.append("\n\n**分支**: ");
    s.append(branch);
    s.append("\n**报告**: ");
    s.append(report_url);
    s
}

/// Where the report is written: the CI artifacts directory, the Pages
/// site, or nowhere.
pub fn report_destination(target: ReportTarget) -> (r: Option<&'static str>)
    ensures
        match target {
            ReportTarget::Artifact => r matches Some(p) && p@ == ".devnpc-report/report.html"@,
            ReportTarget::Pages => r matches Some(p) && p@ == "public/index.html"@,
            ReportTarget::Unpublished => r is None,
        },
{
    match target {
        ReportTarget::Artifact => Some(".devnpc-report/report.html"),
        ReportTarget::Pages => Some("public/index.html"),
        ReportTarget::Unpublished => None,
    }
}

} // verus!
