//! Trajectory collection: the events of a run turned into report data.

use vstd::prelude::*;

use crate::ci::controller::CiOutcome;
use crate::text::{dec_spec, dec_string, debug_list, debug_list_of, join_spec, join_strings, str_views};

verus! {

/// An event of a run.
#[derive(Debug, Clone)]
pub enum TrajectoryEvent {
    LlmCall { iteration: usize },
    ToolCall { name: String, success: bool },
    Deviation { step: String, unexpected: Vec<String> },
}

/// The events of a run, in order.
#[derive(Debug, Clone)]
pub struct Trajectory {
    pub events: Vec<TrajectoryEvent>,
}

impl Trajectory {
    /// An empty trajectory.
    pub fn new() -> (t: Self)
        ensures
            t.events@.len() == 0,
    {
        Trajectory { events: Vec::new() }
    }

    /// Records an LLM call.
    pub fn record_llm_call(&mut self, iteration: usize)
        ensures
            final(self).events@ == old(self).events@.push(TrajectoryEvent::LlmCall { iteration }),
    {
        self.events.push(TrajectoryEvent::LlmCall { iteration });
    }

    /// Records a tool call.
    pub fn record_tool_call(&mut self, name: &str, success: bool)
        ensures
            final(self).events@.drop_last() == old(self).events@,
            final(self).events@.len() == old(self).events@.len() + 1,
            final(self).events@.last() matches TrajectoryEvent::ToolCall { name: n, success: s } && n@ == name@
                && s == success,
    {
        self.events.push(TrajectoryEvent::ToolCall { name: String::from_str(name), success });
        assert(self.events@.drop_last() =~= old(self).events@);
    }
}

impl Default for Trajectory {
    fn default() -> (t: Self)
        ensures
            t.events@.len() == 0,
    {
        Trajectory::new()
    }
}

/// Everything the HTML report shows.
#[derive(Debug, Clone)]
pub struct ReportData {
    pub status: String,
    pub duration_secs: u64,
    pub token_total: u64,
    pub llm_calls: u32,
    pub tool_calls: u32,
    pub ci_retries: u8,
    pub mr_url: Option<String>,
    pub ci_url: Option<String>,
    pub summary: String,
    pub task_description: String,
    pub trajectory: TrajectorySummary,
    pub cost_estimate: CostEstimate,
    pub mr_iid: Option<u64>,
    pub pipeline_id: Option<u64>,
    pub started_at: String,
    pub finished_at: String,
    /// The steps of a team run (empty for a single agent).
    pub team_steps: Vec<TeamStepSummary>,
}

/// One step of a team run.
#[derive(Debug, Clone)]
pub struct TeamStepSummary {
    pub role: String,
    pub instruction: String,
    pub output: String,
    pub signals: Vec<String>,
}

/// The events of a run, as report rows.
#[derive(Debug, Clone)]
pub struct TrajectorySummary {
    pub events: Vec<TrajectoryEventSummary>,
}

impl Default for TrajectorySummary {
    fn default() -> (r: Self)
        ensures
            r.events@.len() == 0,
    {
        TrajectorySummary { events: Vec::new() }
    }
}

/// One report row.
#[derive(Debug, Clone)]
pub struct TrajectoryEventSummary {
    /// `llm_call`, `tool_call` or `deviation`.
    pub kind: String,
    pub detail: String,
    pub success: Option<bool>,
}

/// The cost estimate of a run. The cost is kept in micro-dollars, exactly.
#[derive(Debug, Clone, Copy)]
pub struct CostEstimate {
    pub input_tokens: u64,
    pub output_tokens: u64,
    pub estimated_cost_micro_usd: u64,
}

impl Default for CostEstimate {
    fn default() -> (r: Self)
        ensures
            r.input_tokens == 0,
            r.output_tokens == 0,
            r.estimated_cost_micro_usd == 0,
    {
        CostEstimate { input_tokens: 0, output_tokens: 0, estimated_cost_micro_usd: 0 }
    }
}

impl ReportData {
    /// A report with nothing in it yet, stamped `now` (RFC 3339) at both ends.
    pub fn blank(now: &str) -> (r: Self)
        ensures
            r.status@ == "unknown"@,
            r.duration_secs == 0,
            r.token_total == 0,
            r.llm_calls == 0,
            r.tool_calls == 0,
            r.ci_retries == 0,
            r.mr_url is None,
            r.ci_url is None,
            r.summary@.len() == 0,
            r.task_description@.len() == 0,
            r.trajectory.events@.len() == 0,
            r.cost_estimate.input_tokens == 0,
            r.cost_estimate.output_tokens == 0,
            r.cost_estimate.estimated_cost_micro_usd == 0,
            r.mr_iid is None,
            r.pipeline_id is None,
            r.started_at@ == now@,
            r.finished_at@ == now@,
            r.team_steps@.len() == 0,
    {
        ReportData {
            status: String::from_str("unknown"),
            duration_secs: 0,
            token_total: 0,
            llm_calls: 0,
            tool_calls: 0,
            ci_retries: 0,
            mr_url: None,
            ci_url: None,
            summary: String::new(),
            task_description: String::new(),
            trajectory: TrajectorySummary::default(),
            cost_estimate: CostEstimate::default(),
            mr_iid: None,
            pipeline_id: None,
            started_at: String::from_str(now),
            finished_at: String::from_str(now),
            team_steps: Vec::new(),
        }
    }
}

/// Collects the events of a run as text lines.
#[derive(Debug, Clone)]
pub struct TrajectoryCollector {
    pub events: Vec<String>,
}

/// `true` or `false`.
pub open spec fn bool_text(b: bool) -> Seq<char> {
    if b {
        "true"@
    } else {
        "false"@
    }
}

/// The line of an event.
pub open spec fn event_line(e: TrajectoryEvent) -> Seq<char> {
    match e {
        TrajectoryEvent::LlmCall { iteration } => "LLM 调用 iteration="@ + dec_spec(iteration as nat),
        TrajectoryEvent::ToolCall { name, success } => "工具调用 "@ + name@ + " success="@ + bool_text(success),
        TrajectoryEvent::Deviation { step, unexpected } => "SOP 偏离 step="@ + step@ + " unexpected="@
            + debug_list_of(str_views(unexpected@)),
    }
}

/// The report row of an event.
pub open spec fn event_row(e: TrajectoryEvent, r: TrajectoryEventSummary) -> bool {
    match e {
        TrajectoryEvent::LlmCall { iteration } => {
            &&& r.kind@ == "llm_call"@
            &&& r.detail@ == "LLM 调用 (iteration #"@ + dec_spec(iteration as nat) + ")"@
            &&& r.success == Some(true)
        },
        TrajectoryEvent::ToolCall { name, success } => {
            &&& r.kind@ == "tool_call"@
            &&& r.detail@ == "工具: "@ + name@
            &&& r.success == Some(success)
        },
        TrajectoryEvent::Deviation { step, unexpected } => {
            &&& r.kind@ == "deviation"@
            &&& r.detail@ == "SOP 偏离 — 步骤「"@ + step@ + "」, 意外工具: "@ + join_spec(str_views(unexpected@), ", "@)
            &&& r.success is None
        },
    }
}

/// The number of LLM calls among the events.
pub open spec fn count_llm(v: Seq<TrajectoryEvent>) -> int
    decreases v.len(),
{
    if v.len() == 0 {
        0
    } else {
        count_llm(v.drop_last()) + if v.last() is LlmCall {
            1int
        } else {
            0int
        }
    }
}

/// The number of tool calls among the events.
pub open spec fn count_tools(v: Seq<TrajectoryEvent>) -> int
    decreases v.len(),
{
    if v.len() == 0 {
        0
    } else {
        count_tools(v.drop_last()) + if v.last() is ToolCall {
            1int
        } else {
            0int
        }
    }
}

pub proof fn lemma_counts_bounded(v: Seq<TrajectoryEvent>)
    ensures
        0 <= count_llm(v) <= v.len(),
        0 <= count_tools(v) <= v.len(),
    decreases v.len(),
{
    if v.len() > 0 {
        lemma_counts_bounded(v.drop_last());
    }
}

/// The status, merge request, pipeline, retries and CI link an outcome gives.
pub open spec fn outcome_fields(o: CiOutcome, r: ReportData) -> bool {
    match o {
        CiOutcome::Passed { mr_iid, pipeline_id, attempts } => {
            &&& r.status@ == "passed"@
            &&& r.mr_iid == Some(mr_iid)
            &&& r.pipeline_id == Some(pipeline_id)
            &&& r.ci_retries == attempts
            &&& r.ci_url.deep_view() == Some("pipeline #"@ + dec_spec(pipeline_id as nat))
        },
        CiOutcome::Failed { mr_iid, last_error, attempts } => {
            &&& r.status@ == "failed: "@ + last_error@
            &&& r.mr_iid == Some(mr_iid)
            &&& r.pipeline_id is None
            &&& r.ci_retries == attempts
            &&& r.ci_url is None
        },
        CiOutcome::Timeout { mr_iid, stage } => {
            &&& r.status@ == "timeout: "@ + stage@
            &&& r.mr_iid == Some(mr_iid)
            &&& r.pipeline_id is None
            &&& r.ci_retries == 0
            &&& r.ci_url is None
        },
        CiOutcome::Error { mr_iid, reason } => {
            &&& r.status@ == "error: "@ + reason@
            &&& r.mr_iid == Some(mr_iid)
            &&& r.pipeline_id is None
            &&& r.ci_retries == 0
            &&& r.ci_url is None
        },
    }
}

/// The report a run gives: counts, rows and estimated tokens from the
/// trajectory (500 input and 200 output tokens per LLM call, at 1.5 and 2
/// micro-dollars a token), the status from the CI outcome.
pub open spec fn report_matches(
    r: ReportData,
    events: Seq<TrajectoryEvent>,
    outcome: CiOutcome,
    task: Seq<char>,
    elapsed_secs: i64,
    started_at: Seq<char>,
    finished_at: Seq<char>,
) -> bool {
    let llm = count_llm(events);
    &&& r.llm_calls == llm
    &&& r.tool_calls == count_tools(events)
    &&& r.cost_estimate.input_tokens == llm * 500
    &&& r.cost_estimate.output_tokens == llm * 200
    &&& r.cost_estimate.estimated_cost_micro_usd == llm * 750 + llm * 400
    &&& r.token_total == llm * 700
    &&& r.duration_secs == if elapsed_secs > 0 {
        elapsed_secs as int
    } else {
        0
    }
    &&& r.trajectory.events@.len() == events.len()
    &&& forall|i: int| 0 <= i < events.len() ==> event_row(events[i], #[trigger] r.trajectory.events@[i])
    &&& outcome_fields(outcome, r)
    &&& r.mr_url is None
    &&& r.summary@.len() == 0
    &&& r.task_description@ == task
    &&& r.started_at@ == started_at
    &&& r.finished_at@ == finished_at
    &&& r.team_steps@.len() == 0
}

fn cat(a: &str, b: &str) -> (r: String)
    ensures
        r@ == a@ + b@,
{
    let mut s = String::from_str(a);
    s.append(b);
    s
}

fn event_line_exec(e: &TrajectoryEvent) -> (r: String)
    ensures
        r@ == event_line(*e),
{
    match e {
        TrajectoryEvent::LlmCall { iteration } => {
            let d = dec_string(*iteration as u64);
            cat("LLM 调用 iteration=", d.as_str())
        },
        TrajectoryEvent::ToolCall { name, success } => {
            let mut s = cat("工具调用 ", name.as_str());
            s.append(" success=");
            s.append(if *success { "true" } else { "false" });
            s
        },
        TrajectoryEvent::Deviation { step, unexpected } => {
            let mut s = cat("SOP 偏离 step=", step.as_str());
            s.append(" unexpected=");
            let d = debug_list(unexpected);
            s.append(d.as_str());
            s
        },
    }
}

fn event_row_exec(e: &TrajectoryEvent) -> (r: TrajectoryEventSummary)
    ensures
        event_row(*e, r),
{
    match e {
        TrajectoryEvent::LlmCall { iteration } => {
            let mut d = String::from_str("LLM 调用 (iteration #");
            let n = dec_string(*iteration as u64);
            d.append(n.as_str());
            d.append(")");
            TrajectoryEventSummary { kind: String::from_str("llm_call"), detail: d, success: Some(true) }
        },
        TrajectoryEvent::ToolCall { name, success } => TrajectoryEventSummary {
            kind: String::from_str("tool_call"),
            detail: cat("工具: ", name.as_str()),
            success: Some(*success),
        },
        TrajectoryEvent::Deviation { step, unexpected } => {
            let mut d = cat("SOP 偏离 — 步骤「", step.as_str());
            d.append("」, 意外工具: ");
            let j = join_strings(unexpected, ", ");
            d.append(j.as_str());
            TrajectoryEventSummary { kind: String::from_str("deviation"), detail: d, success: None }
        },
    }
}

impl TrajectoryCollector {
    /// A collector with no events.
    pub fn new() -> (r: Self)
        ensures
            r.events@.len() == 0,
    {
        TrajectoryCollector { events: Vec::new() }
    }

    /// The collected lines.
    pub open spec fn lines(&self) -> Seq<Seq<char>> {
        str_views(self.events@)
    }

    /// The collected lines, in order.
    pub fn events(&self) -> (r: Vec<String>)
        ensures
            str_views(r@) == self.lines(),
    {
        crate::text::clone_strings(&self.events)
    }

    /// A collector holding one line per event of `trajectory`.
    pub fn from_trajectory(trajectory: &Trajectory) -> (r: Self)
        ensures
            r.lines() == trajectory.events@.map_values(|e: TrajectoryEvent| event_line(e)),
    {
        let ev = &trajectory.events;
        let mut lines: Vec<String> = Vec::new();
        let mut i: usize = 0;
        while i < ev.len()
            invariant
                i <= ev.len(),
                ev == &trajectory.events,
                str_views(lines@) == ev@.map_values(|e: TrajectoryEvent| event_line(e)).take(i as int),
            decreases ev.len() - i,
        {
            let l = event_line_exec(&ev[i]);
            let ghost before = str_views(lines@);
            lines.push(l);
            assert(str_views(lines@) =~= before.push(event_line(ev@[i as int])));
            assert(ev@.map_values(|e: TrajectoryEvent| event_line(e)).take(i + 1) =~= ev@.map_values(
                |e: TrajectoryEvent| event_line(e),
            ).take(i as int).push(event_line(ev@[i as int])));
            i = i + 1;
        }
        assert(ev@.map_values(|e: TrajectoryEvent| event_line(e)).take(ev@.len() as int) =~= ev@.map_values(
            |e: TrajectoryEvent| event_line(e),
        ));
        TrajectoryCollector { events: lines }
    }

    /// The report of a run: its trajectory, CI outcome and task; the clock
    /// readings come in as the elapsed seconds and the RFC 3339 times.
    pub fn build_report(
        trajectory: &Trajectory,
        outcome: &CiOutcome,
        task_description: &str,
        elapsed_secs: i64,
        started_at: &str,
        finished_at: &str,
    ) -> (r: ReportData)
        requires
            trajectory.events@.len() <= u32::MAX,
        ensures
            report_matches(r, trajectory.events@, *outcome, task_description@, elapsed_secs, started_at@, finished_at@),
    {
        let ev = &trajectory.events;
        let mut llm_calls: u32 = 0;
        let mut tool_calls: u32 = 0;
        let mut rows: Vec<TrajectoryEventSummary> = Vec::new();
        let mut i: usize = 0;
        while i < ev.len()
            invariant
                i <= ev.len(),
                ev == &trajectory.events,
                ev@.len() <= u32::MAX,
                llm_calls == count_llm(ev@.take(i as int)),
                tool_calls == count_tools(ev@.take(i as int)),
                rows@.len() == i,
                forall|k: int| 0 <= k < i ==> event_row(ev@[k], #[trigger] rows@[k]),
            decreases ev.len() - i,
        {
            proof {
                let t = ev@.take(i + 1);
                assert(t.drop_last() =~= ev@.take(i as int));
                lemma_counts_bounded(ev@.take(i as int));
            }
            match &ev[i] {
                TrajectoryEvent::LlmCall { .. } => {
                    llm_calls = llm_calls + 1;
                },
                TrajectoryEvent::ToolCall { .. } => {
                    tool_calls = tool_calls + 1;
                },
                _ => {},
            }
            rows.push(event_row_exec(&ev[i]));
            i = i + 1;
        }
        assert(ev@.take(ev@.len() as int) =~= ev@);
        let input_tokens = llm_calls as u64 * 500;
        let output_tokens = llm_calls as u64 * 200;
        let cost = llm_calls as u64 * 750 + llm_calls as u64 * 400;
        let duration_secs: u64 = if elapsed_secs > 0 {
            elapsed_secs as u64
        } else {
            0
        };
        let (status, mr_iid, pipeline_id, ci_retries, ci_url) = match outcome {
            CiOutcome::Passed { mr_iid, pipeline_id, attempts } => {
                let d = dec_string(*pipeline_id);
                (
                    String::from_str("passed"),
                    Some(*mr_iid),
                    Some(*pipeline_id),
                    *attempts,
                    Some(cat("pipeline #", d.as_str())),
                )
            },
            CiOutcome::Failed { mr_iid, last_error, attempts } => (
                cat("failed: ", last_error.as_str()),
                Some(*mr_iid),
                None,
                *attempts,
                None,
            ),
            CiOutcome::Timeout { mr_iid, stage } => (cat("timeout: ", stage.as_str()), Some(*mr_iid), None, 0, None),
            CiOutcome::Error { mr_iid, reason } => (cat("error: ", reason.as_str()), Some(*mr_iid), None, 0, None),
        };
        ReportData {
            status,
            duration_secs,
            token_total: input_tokens + output_tokens,
            llm_calls,
            tool_calls,
            ci_retries,
            mr_url: None,
            ci_url,
            summary: String::new(),
            task_description: String::from_str(task_description),
            trajectory: TrajectorySummary { events: rows },
            cost_estimate: CostEstimate { input_tokens, output_tokens, estimated_cost_micro_usd: cost },
            mr_iid,
            pipeline_id,
            started_at: String::from_str(started_at),
            finished_at: String::from_str(finished_at),
            team_steps: Vec::new(),
        }
    }
}

impl Default for TrajectoryCollector {
    fn default() -> (r: Self)
        ensures
            r.events@.len() == 0,
    {
        TrajectoryCollector::new()
    }
}

} // verus!
