//! The CI controller's decisions.
//!
//! The loop (wait for a pipeline on the branch, poll it until it finishes,
//! then succeed, give up or fix and retry) runs in the program around the
//! library, which calls GitLab, the fix agent and git; at each point it asks
//! this module what to do and which texts to post.

use vstd::prelude::*;

use crate::ci::log_parser::{FailureType, ParsedFailure};
use crate::config::CiConfig;
use crate::error::DevnpcError;
use crate::git::ops::GitOps;
use crate::gitlab_api::client::strip_prefixes;
use crate::gitlab_api::pipelines::{is_terminal, is_terminal_status};
use crate::gitlab_api::{pipeline_views, Job, Pipeline, PipelineView};
use crate::text::{chars_of, dec_spec, dec_string, join_spec, join_strings, str_eq, str_views, string_of, sub_chars};

verus! {

/// How the CI loop ended.
#[derive(Debug, Clone)]
pub enum CiOutcome {
    Passed { mr_iid: u64, pipeline_id: u64, attempts: u8 },
    Failed { mr_iid: u64, last_error: String, attempts: u8 },
    Timeout { mr_iid: u64, stage: String },
    Error { mr_iid: u64, reason: String },
}

/// The CI controller of one project.
#[derive(Debug, Clone)]
pub struct CiController {
    pub config: CiConfig,
    pub git: GitOps,
    pub project_id: u64,
}

/// What follows a finished pipeline.
#[derive(Debug, Clone)]
pub enum CiStep {
    /// Mark the merge request ready, comment, and report success.
    Succeed,
    /// Retries are used up: post `note` and report `last_error`.
    GiveUp { last_error: String, note: String },
    /// Run a fix cycle.
    Fix,
    /// The pipeline ended in a state the loop does not expect.
    Stop { stage: String },
}

/// The newest pipeline (highest id, the last of equal ones) among `v`, by index.
pub open spec fn newest_on(v: Seq<PipelineView>, branch: Seq<char>) -> Option<int>
    decreases v.len(),
{
    if v.len() == 0 {
        None
    } else {
        let prev = newest_on(v.drop_last(), branch);
        let k = v.len() - 1;
        if v[k].ref_ == Some(branch) {
            match prev {
                Some(j) => if v[j].id <= v[k].id {
                    Some(k)
                } else {
                    Some(j)
                },
                None => Some(k),
            }
        } else {
            prev
        }
    }
}

/// The pipeline followed on a branch is on that branch and has the highest id
/// of the pipelines listed there, whatever the listing order; there is none
/// only when no listed pipeline is on the branch.
pub proof fn law_newest_on_branch(v: Seq<PipelineView>, branch: Seq<char>)
    ensures
        match newest_on(v, branch) {
            Some(k) => 0 <= k < v.len() && v[k].ref_ == Some(branch) && forall|j: int|
                0 <= j < v.len() && #[trigger] v[j].ref_ == Some(branch) ==> v[j].id <= v[k].id,
            None => forall|j: int| 0 <= j < v.len() ==> #[trigger] v[j].ref_ != Some(branch),
        },
    decreases v.len(),
{
    if v.len() > 0 {
        let d = v.drop_last();
        law_newest_on_branch(d, branch);
        assert forall|j: int| 0 <= j < d.len() implies #[trigger] d[j] == v[j] by {}
        match newest_on(d, branch) {
            Some(k) => {
                assert(d[k] == v[k]);
                assert forall|j: int| 0 <= j < v.len() - 1 && #[trigger] v[j].ref_ == Some(branch) implies v[j].id <= v[k].id by {
                    assert(d[j] == v[j]);
                }
            },
            None => {
                assert forall|j: int| 0 <= j < v.len() - 1 implies #[trigger] v[j].ref_ != Some(branch) by {
                    assert(d[j] == v[j]);
                }
            },
        }
    }
}

/// Index of the first pipeline with id `id` from `i` on, or -1.
pub open spec fn pipeline_index(v: Seq<PipelineView>, id: u64, i: int) -> int
    decreases v.len() - i,
{
    if i < 0 || i >= v.len() {
        -1
    } else if v[i].id == id {
        i
    } else {
        pipeline_index(v, id, i + 1)
    }
}

/// The text `pipeline #<id> <status> after <n> attempt(s)`.
pub open spec fn give_up_error(p: PipelineView, attempts: u8) -> Seq<char> {
    "pipeline #"@ + dec_spec(p.id as nat) + " "@ + p.status + " after "@ + dec_spec(attempts as nat)
        + " attempt(s)"@
}

/// The comment posted when retries are used up.
pub open spec fn give_up_note(p: PipelineView, attempts: u8) -> Seq<char> {
    "❌ CI 修复失败 ("@ + dec_spec(attempts as nat) + " 次重试后): pipeline #"@ + dec_spec(p.id as nat) + " "@
        + p.status
}

/// The debug name of a failure type.
pub open spec fn failure_type_name(t: FailureType) -> Seq<char> {
    match t {
        FailureType::Compile => "Compile"@,
        FailureType::Test => "Test"@,
        FailureType::Lint => "Lint"@,
        FailureType::Build => "Build"@,
        FailureType::Timeout => "Timeout"@,
        FailureType::Other => "Other"@,
    }
}

/// A failure in a fix instruction: `[<type>] <file>:<line>: <message>`, the
/// location `<file>` without a line and `unknown` without a file.
pub open spec fn failure_desc(f: ParsedFailure) -> Seq<char> {
    let loc = match (f.file, f.line) {
        (Some(file), Some(line)) => file@ + ":"@ + dec_spec(line as nat),
        (Some(file), None) => file@,
        _ => "unknown"@,
    };
    "["@ + failure_type_name(f.failure_type) + "] "@ + loc + ": "@ + f.error_message@
}

/// The instruction given to the fix agent.
pub open spec fn fix_instruction_spec(pipeline_id: u64, failures: Seq<ParsedFailure>, job_names: Seq<Seq<char>>) -> Seq<char> {
    if failures.len() == 0 {
        "CI pipeline #"@ + dec_spec(pipeline_id as nat) + " 失败于 job(s): "@ + join_spec(job_names, ", "@)
            + ". 请检查并修复问题后推送。"@
    } else {
        "CI pipeline #"@ + dec_spec(pipeline_id as nat) + " 失败, 发现以下 "@ + dec_spec(failures.len())
            + " 个问题:\n"@ + join_spec(failures.map_values(|f: ParsedFailure| failure_desc(f)), "\n"@)
            + "\n\n请修复后推送提交。"@
    }
}

/// The failed jobs, in order.
pub open spec fn failed_jobs_of(v: Seq<Job>) -> Seq<Job>
    decreases v.len(),
{
    if v.len() == 0 {
        Seq::empty()
    } else {
        let r = failed_jobs_of(v.drop_last());
        if v.last().status@ == "failed"@ {
            r.push(v.last())
        } else {
            r
        }
    }
}

fn cat(a: &str, b: &str) -> (r: String)
    ensures
        r@ == a@ + b@,
{
    let mut s = String::from_str(a);
    s.append(b);
    s
}

fn push_dec(s: &mut String, n: u64)
    ensures
        final(s)@ == old(s)@ + dec_spec(n as nat),
{
    let d = dec_string(n);
    s.append(d.as_str());
}

impl CiController {
    /// A controller for `project_id`.
    pub fn new(config: CiConfig, git: GitOps, project_id: u64) -> (r: Self)
        ensures
            r.config == config,
            r.git == git,
            r.project_id == project_id,
    {
        CiController { config, git, project_id }
    }

    /// What follows a finished pipeline after `attempts` fixes: success; a
    /// failed or canceled pipeline is fixed again until `max_retries` fixes
    /// were tried; any other state stops the loop.
    pub fn next_step(&self, pipeline: &Pipeline, attempts: u8) -> (r: CiStep)
        ensures
            if pipeline.status@ == "success"@ {
                r is Succeed
            } else if pipeline.status@ == "failed"@ || pipeline.status@ == "canceled"@ {
                if attempts >= self.config.max_retries {
                    r matches CiStep::GiveUp { last_error, note } && last_error@ == give_up_error(pipeline@, attempts)
                        && note@ == give_up_note(pipeline@, attempts)
                } else {
                    r is Fix
                }
            } else {
                r matches CiStep::Stop { stage } && stage@ == "pipeline #"@ + dec_spec(pipeline.id as nat)
                    + " status: "@ + pipeline.status@
            },
    {
        let status = pipeline.status.as_str();
        if str_eq(status, "success") {
            CiStep::Succeed
        } else if str_eq(status, "failed") || str_eq(status, "canceled") {
            if attempts >= self.config.max_retries {
                let mut e = String::from_str("pipeline #");
                push_dec(&mut e, pipeline.id);
                e.append(" ");
                e.append(status);
                e.append(" after ");
                push_dec(&mut e, attempts as u64);
                e.append(" attempt(s)");
                let mut n = String::from_str("❌ CI 修复失败 (");
                push_dec(&mut n, attempts as u64);
                n.append(" 次重试后): pipeline #");
                push_dec(&mut n, pipeline.id);
                n.append(" ");
                n.append(status);
                CiStep::GiveUp { last_error: e, note: n }
            } else {
                CiStep::Fix
            }
        } else {
            let mut s = String::from_str("pipeline #");
            push_dec(&mut s, pipeline.id);
            s.append(" status: ");
            s.append(status);
            CiStep::Stop { stage: s }
        }
    }

    /// The comment posted when a fix cycle starts.
    pub fn fix_progress_note(&self, pipeline_id: u64, attempt: u8) -> (r: String)
        ensures
            r@ == "🔄 CI 修复中 (attempt "@ + dec_spec(attempt as nat + 1) + "/"@ + dec_spec(
                self.config.max_retries as nat,
            ) + "): 正在处理 pipeline #"@ + dec_spec(pipeline_id as nat) + " 的失败..."@,
    {
        let mut s = String::from_str("🔄 CI 修复中 (attempt ");
        push_dec(&mut s, attempt as u64 + 1);
        s.append("/");
        push_dec(&mut s, self.config.max_retries as u64);
        s.append("): 正在处理 pipeline #");
        push_dec(&mut s, pipeline_id);
        s.append(" 的失败...");
        s
    }

    /// The comment posted when a fix was pushed.
    pub fn fix_done_note(&self, attempt: u8, branch: &str) -> (r: String)
        ensures
            r@ == "✅ CI 修复尝试 #"@ + dec_spec(attempt as nat + 1) + "/"@ + dec_spec(self.config.max_retries as nat)
                + " 完成，已推送至 "@ + branch@ + "，正在等待新 pipeline..."@,
    {
        let mut s = String::from_str("✅ CI 修复尝试 #");
        push_dec(&mut s, attempt as u64 + 1);
        s.append("/");
        push_dec(&mut s, self.config.max_retries as u64);
        s.append(" 完成，已推送至 ");
        s.append(branch);
        s.append("，正在等待新 pipeline...");
        s
    }
}

/// The pipeline to follow on `branch`: the newest one there.
pub fn latest_pipeline_for_branch(pipelines: &Vec<Pipeline>, branch: &str) -> (r: Option<Pipeline>)
    ensures
        match newest_on(pipeline_views(pipelines@), branch@) {
            Some(k) => r matches Some(p) && p@ == pipelines@[k]@,
            None => r is None,
        },
        match r {
            Some(p) => p@.ref_ == Some(branch@) && forall|j: int|
                0 <= j < pipelines@.len() && #[trigger] pipelines@[j]@.ref_ == Some(branch@) ==> pipelines@[j].id <= p.id,
            None => forall|j: int| 0 <= j < pipelines@.len() ==> #[trigger] pipelines@[j]@.ref_ != Some(branch@),
        },
{
    let ghost pv = pipeline_views(pipelines@);
    let mut best: Option<usize> = None;
    let mut i: usize = 0;
    while i < pipelines.len()
        invariant
            i <= pipelines.len(),
            pv == pipeline_views(pipelines@),
            match best {
                Some(k) => newest_on(pv.take(i as int), branch@) == Some(k as int) && k < i,
                None => newest_on(pv.take(i as int), branch@) is None,
            },
        decreases pipelines.len() - i,
    {
        let p = &pipelines[i];
        proof {
            let t = pv.take(i + 1);
            assert(t.drop_last() =~= pv.take(i as int));
            assert(t[i as int] == p@);
            match best {
                Some(k) => {
                    assert(t[k as int] == pv.take(i as int)[k as int]);
                },
                None => {},
            }
        }
        let on_branch = match &p.ref_ {
            Some(r) => str_eq(r.as_str(), branch),
            None => false,
        };
        if on_branch {
            best = match best {
                Some(k) => if pipelines[k].id <= p.id {
                    Some(i)
                } else {
                    Some(k)
                },
                None => Some(i),
            };
        }
        i = i + 1;
    }
    assert(pv.take(pv.len() as int) =~= pv);
    proof {
        law_newest_on_branch(pv, branch@);
        assert forall|j: int| 0 <= j < pipelines@.len() implies #[trigger] pv[j] == pipelines@[j]@ by {}
        match newest_on(pv, branch@) {
            Some(k) => {
                assert(pv[k] == pipelines@[k]@);
                assert forall|j: int|
                    0 <= j < pipelines@.len() && #[trigger] pipelines@[j]@.ref_ == Some(branch@) implies pipelines@[j].id
                        <= pipelines@[k].id by {
                    assert(pv[j] == pipelines@[j]@);
                }
            },
            None => {
                assert forall|j: int| 0 <= j < pipelines@.len() implies #[trigger] pipelines@[j]@.ref_ != Some(branch@) by {
                    assert(pv[j] == pipelines@[j]@);
                }
            },
        }
    }
    match best {
        Some(k) => Some(pipelines[k].copy()),
        None => None,
    }
}

/// The followed pipeline once it has finished: the first one listed with
/// `pipeline_id`, when its state is `success`, `failed` or `canceled`.
pub fn finished_pipeline(pipelines: &Vec<Pipeline>, pipeline_id: u64) -> (r: Option<Pipeline>)
    ensures
        ({
            let k = pipeline_index(pipeline_views(pipelines@), pipeline_id, 0);
            if k >= 0 && is_terminal_status(pipelines@[k].status@) {
                r matches Some(p) && p@ == pipelines@[k]@
            } else {
                r is None
            }
        }),
{
    let ghost pv = pipeline_views(pipelines@);
    let mut i: usize = 0;
    while i < pipelines.len()
        invariant
            i <= pipelines.len(),
            pv == pipeline_views(pipelines@),
            pipeline_index(pv, pipeline_id, i as int) == pipeline_index(pv, pipeline_id, 0),
        decreases pipelines.len() - i,
    {
        if pipelines[i].id == pipeline_id {
            assert(pv[i as int] == pipelines@[i as int]@);
            if is_terminal(&pipelines[i]) {
                return Some(pipelines[i].copy());
            } else {
                return None;
            }
        }
        assert(pv[i as int] == pipelines@[i as int]@);
        i = i + 1;
    }
    None
}

/// The error when no pipeline appears on the branch in time.
pub fn wait_timeout_error(branch: &str, label: &str) -> (e: DevnpcError)
    ensures
        e matches DevnpcError::PipelineTimeout { stage } && stage@ == "等待 pipeline 触发 (branch="@ + branch@
            + ", "@ + label@ + ")"@,
{
    let mut s = cat("等待 pipeline 触发 (branch=", branch);
    s.append(", ");
    s.append(label);
    s.append(")");
    DevnpcError::PipelineTimeout { stage: s }
}

/// The error when the followed pipeline does not finish in time.
pub fn poll_timeout_error(pipeline_id: u64) -> (e: DevnpcError)
    ensures
        e matches DevnpcError::PipelineTimeout { stage } && stage@ == "pipeline #"@ + dec_spec(pipeline_id as nat)
            + " 轮询超时"@,
{
    let mut s = String::from_str("pipeline #");
    push_dec(&mut s, pipeline_id);
    s.append(" 轮询超时");
    DevnpcError::PipelineTimeout { stage: s }
}

/// The label of the wait after fix number `attempts`.
pub fn retry_label(attempts: u8) -> (r: String)
    ensures
        r@ == "重试 #"@ + dec_spec(attempts as nat),
{
    let mut s = String::from_str("重试 #");
    push_dec(&mut s, attempts as u64);
    s
}

/// The comment posted when the pipeline passed.
pub fn success_note(pipeline_id: u64) -> (r: String)
    ensures
        r@ == "✅ CI pipeline #"@ + dec_spec(pipeline_id as nat) + " 通过, 已自动移除 Draft 状态。"@,
{
    let mut s = String::from_str("✅ CI pipeline #");
    push_dec(&mut s, pipeline_id);
    s.append(" 通过, 已自动移除 Draft 状态。");
    s
}

/// The title of a merge request once it is ready: without its `Draft: ` prefixes.
pub fn ready_title(title: &str) -> (r: String)
    ensures
        r@ == strip_prefixes(title@, "Draft: "@),
{
    crate::gitlab_api::client::update_mr_title(title, false)
}

/// The outcome when a fix cycle failed.
pub fn fix_failed_outcome(mr_iid: u64, reason: &str, attempts: u8) -> (r: CiOutcome)
    ensures
        r matches CiOutcome::Failed { mr_iid: m, last_error, attempts: a } && m == mr_iid && a == attempts
            && last_error@ == "修复失败: "@ + reason@,
{
    CiOutcome::Failed { mr_iid, last_error: cat("修复失败: ", reason), attempts }
}

/// The error when a failed pipeline has no failed job to fix.
pub fn nothing_to_fix(attempt: u8) -> (e: DevnpcError)
    ensures
        e == (DevnpcError::CiFixExhausted { attempts: attempt }),
{
    DevnpcError::CiFixExhausted { attempts: attempt }
}

/// The error when the fix could not be pushed.
pub fn push_failed_error(branch: &str) -> (e: DevnpcError)
    ensures
        e matches DevnpcError::GitCommand { cmd, code } && cmd@ == "git push origin "@ + branch@ && code == -1,
{
    DevnpcError::GitCommand { cmd: cat("git push origin ", branch), code: -1 }
}

/// The jobs of a pipeline that failed, in order.
pub fn failed_jobs(jobs: &Vec<Job>) -> (r: Vec<&Job>)
    ensures
        r@.map_values(|j: &Job| *j) == failed_jobs_of(jobs@),
{
    let mut r: Vec<&Job> = Vec::new();
    let mut i: usize = 0;
    while i < jobs.len()
        invariant
            i <= jobs.len(),
            r@.map_values(|j: &Job| *j) == failed_jobs_of(jobs@.take(i as int)),
        decreases jobs.len() - i,
    {
        let j = &jobs[i];
        proof {
            let t = jobs@.take(i + 1);
            assert(t.drop_last() =~= jobs@.take(i as int));
            assert(t.last() == *j);
        }
        if str_eq(j.status.as_str(), "failed") {
            let ghost before = r@;
            r.push(j);
            assert(r@.map_values(|j: &Job| *j) =~= before.map_values(|j: &Job| *j).push(*j));
        }
        i = i + 1;
    }
    assert(jobs@.take(jobs@.len() as int) =~= jobs@);
    r
}

/// The log text used for a job whose log could not be fetched.
pub fn missing_log_text(job_id: u64) -> (r: String)
    ensures
        r@ == "[无法获取 job #"@ + dec_spec(job_id as nat) + " 日志]"@,
{
    let mut s = String::from_str("[无法获取 job #");
    push_dec(&mut s, job_id);
    s.append(" 日志]");
    s
}

fn failure_type_str(t: FailureType) -> (r: &'static str)
    ensures
        r@ == failure_type_name(t),
{
    match t {
        FailureType::Compile => "Compile",
        FailureType::Test => "Test",
        FailureType::Lint => "Lint",
        FailureType::Build => "Build",
        FailureType::Timeout => "Timeout",
        FailureType::Other => "Other",
    }
}

/// One failure, as a line of a fix instruction.
pub fn describe_failure(f: &ParsedFailure) -> (r: String)
    ensures
        r@ == failure_desc(*f),
{
    let mut s = cat("[", failure_type_str(f.failure_type));
    s.append("] ");
    match (&f.file, f.line) {
        (Some(file), Some(line)) => {
            s.append(file.as_str());
            s.append(":");
            push_dec(&mut s, line as u64);
        },
        (Some(file), None) => {
            s.append(file.as_str());
        },
        _ => {
            s.append("unknown");
        },
    }
    s.append(": ");
    s.append(f.error_message.as_str());
    s
}

/// The instruction for the fix agent: the parsed failures, one per line, or,
/// when none was recognised, the names of the failed jobs.
pub fn fix_instruction(pipeline_id: u64, failures: &Vec<ParsedFailure>, job_names: &Vec<String>) -> (r: String)
    ensures
        r@ == fix_instruction_spec(pipeline_id, failures@, str_views(job_names@)),
{
    let mut s = String::from_str("CI pipeline #");
    push_dec(&mut s, pipeline_id);
    if failures.len() == 0 {
        s.append(" 失败于 job(s): ");
        let j = join_strings(job_names, ", ");
        s.append(j.as_str());
        s.append(". 请检查并修复问题后推送。");
        return s;
    }
    s.append(" 失败, 发现以下 ");
    push_dec(&mut s, failures.len() as u64);
    s.append(" 个问题:\n");
    let mut lines: Vec<String> = Vec::new();
    let mut i: usize = 0;
    while i < failures.len()
        invariant
            i <= failures.len(),
            str_views(lines@) == failures@.map_values(|f: ParsedFailure| failure_desc(f)).take(i as int),
        decreases failures.len() - i,
    {
        let d = describe_failure(&failures[i]);
        let ghost before = str_views(lines@);
        lines.push(d);
        assert(str_views(lines@) =~= before.push(failure_desc(failures@[i as int])));
        assert(failures@.map_values(|f: ParsedFailure| failure_desc(f)).take(i + 1) =~= failures@.map_values(
            |f: ParsedFailure| failure_desc(f),
        ).take(i as int).push(failure_desc(failures@[i as int])));
        i = i + 1;
    }
    assert(failures@.map_values(|f: ParsedFailure| failure_desc(f)).take(failures@.len() as int)
        =~= failures@.map_values(|f: ParsedFailure| failure_desc(f)));
    let j = join_strings(&lines, "\n");
    s.append(j.as_str());
    s.append("\n\n请修复后推送提交。");
    s
}


// ───────────────────────── the whole loop ─────────────────────────

/// The state of a CI loop: the merge request, the fixes pushed so far,
/// whether a fix cycle is running, and whether the loop has ended.
#[derive(Debug, Clone, Copy)]
pub struct CiLoop {
    pub mr_iid: u64,
    pub attempts: u8,
    pub fixing: bool,
    pub done: bool,
}

/// What the loop learns from outside.
#[derive(Debug, Clone)]
pub enum CiEvent {
    /// The pipeline being followed finished.
    Finished(Pipeline),
    /// The fix cycle pushed a fix.
    FixPushed,
    /// The fix cycle failed, for this reason.
    FixFailed(String),
}

/// What the loop does next.
#[derive(Debug, Clone)]
pub enum CiAction {
    /// Mark the merge request ready, comment, and end with the outcome.
    Succeed { outcome: CiOutcome },
    /// Post `note` and end with the outcome.
    GiveUp { note: String, outcome: CiOutcome },
    /// Run fix cycle number `attempt` (from 0) on the pipeline.
    Fix { pipeline_id: u64, attempt: u8 },
    /// Wait for the pipeline of the pushed fix, under `label`.
    Wait { label: String },
    /// End with the outcome.
    End { outcome: CiOutcome },
}

/// An event as the loop's counting sees it.
pub enum CiEventKind {
    Finished(Seq<char>),
    FixPushed,
    FixFailed,
}

/// The kind of an event.
pub open spec fn event_kind(e: CiEvent) -> CiEventKind {
    match e {
        CiEvent::Finished(p) => CiEventKind::Finished(p.status@),
        CiEvent::FixPushed => CiEventKind::FixPushed,
        CiEvent::FixFailed(_) => CiEventKind::FixFailed,
    }
}

/// A failed or canceled pipeline, which calls for a fix.
pub open spec fn is_failure_status(status: Seq<char>) -> bool {
    status == "failed"@ || status == "canceled"@
}

/// Whether the event arrives in the phase that expects it: a finished
/// pipeline outside a fix cycle, the end of a fix cycle inside one.
pub open spec fn event_expected(s: CiLoop, e: CiEventKind) -> bool {
    !s.done && match e {
        CiEventKind::Finished(_) => !s.fixing,
        _ => s.fixing,
    }
}

/// Whether the loop starts a fix on this event.
pub open spec fn starts_fix(max_retries: u8, s: CiLoop, e: CiEventKind) -> bool {
    event_expected(s, e) && match e {
        CiEventKind::Finished(status) => status != "success"@ && is_failure_status(status) && s.attempts < max_retries,
        _ => false,
    }
}

/// The state after an event; an event that is not expected changes nothing.
pub open spec fn next_loop(max_retries: u8, s: CiLoop, e: CiEventKind) -> CiLoop {
    if !event_expected(s, e) {
        s
    } else {
        match e {
            CiEventKind::Finished(status) => if starts_fix(max_retries, s, e) {
                CiLoop { fixing: true, ..s }
            } else {
                CiLoop { done: true, ..s }
            },
            CiEventKind::FixPushed => CiLoop { attempts: (s.attempts + 1) as u8, fixing: false, ..s },
            CiEventKind::FixFailed => CiLoop { done: true, ..s },
        }
    }
}

/// A state the loop can be in: at most `max_retries` fixes pushed, counting
/// a running fix cycle.
pub open spec fn ci_loop_wf(max_retries: u8, s: CiLoop) -> bool {
    s.attempts + (if s.fixing { 1int } else { 0int }) <= max_retries
}

/// The number of fix cycles the loop starts over a run of events.
pub open spec fn fixes_started(max_retries: u8, s: CiLoop, es: Seq<CiEventKind>) -> nat
    decreases es.len(),
{
    if es.len() == 0 {
        0
    } else {
        (if starts_fix(max_retries, s, es[0]) { 1nat } else { 0nat }) + fixes_started(
            max_retries,
            next_loop(max_retries, s, es[0]),
            es.drop_first(),
        )
    }
}

/// The states the loop can be in are kept by every event.
pub proof fn lemma_next_loop_wf(max_retries: u8, s: CiLoop, e: CiEventKind)
    requires
        ci_loop_wf(max_retries, s),
    ensures
        ci_loop_wf(max_retries, next_loop(max_retries, s, e)),
        next_loop(max_retries, s, e).attempts + (if next_loop(max_retries, s, e).fixing { 1int } else { 0int }) == s.attempts
            + (if s.fixing { 1int } else { 0int }) + (if starts_fix(max_retries, s, e) { 1int } else { 0int }),
{
}

/// Over any run of events from a state it can be in, the loop starts at most
/// `max_retries` fix cycles in all, counting the fixes already pushed.
pub proof fn law_ci_fix_limit(max_retries: u8, s: CiLoop, es: Seq<CiEventKind>)
    requires
        ci_loop_wf(max_retries, s),
    ensures
        s.attempts + (if s.fixing { 1int } else { 0int }) + fixes_started(max_retries, s, es) <= max_retries,
    decreases es.len(),
{
    if es.len() > 0 {
        lemma_next_loop_wf(max_retries, s, es[0]);
        law_ci_fix_limit(max_retries, next_loop(max_retries, s, es[0]), es.drop_first());
    }
}

impl CiLoop {
    /// A loop for the merge request, before its first pipeline finished.
    pub fn start(mr_iid: u64) -> (r: Self)
        ensures
            r.mr_iid == mr_iid,
            r.attempts == 0,
            !r.fixing,
            !r.done,
    {
        CiLoop { mr_iid, attempts: 0, fixing: false, done: false }
    }
}

impl CiController {
    /// One step of the CI loop: a finished pipeline succeeds, gives up once
    /// `max_retries` fixes were pushed, starts a fix, or stops the loop; a
    /// pushed fix waits for the next pipeline; a failed fix ends the loop.
    pub fn loop_step(&self, state: &CiLoop, event: CiEvent) -> (r: (CiLoop, CiAction))
        requires
            ci_loop_wf(self.config.max_retries, *state),
            event_expected(*state, event_kind(event)),
        ensures
            r.0 == next_loop(self.config.max_retries, *state, event_kind(event)),
            ci_loop_wf(self.config.max_retries, r.0),
            (r.1 is Fix) == starts_fix(self.config.max_retries, *state, event_kind(event)),
            match event {
                CiEvent::Finished(p) => if p.status@ == "success"@ {
                    r.1 matches CiAction::Succeed { outcome: CiOutcome::Passed { mr_iid, pipeline_id, attempts } }
                        && mr_iid == state.mr_iid && pipeline_id == p.id && attempts == state.attempts
                } else if is_failure_status(p.status@) {
                    if state.attempts >= self.config.max_retries {
                        r.1 matches CiAction::GiveUp { note, outcome: CiOutcome::Failed { mr_iid, last_error, attempts } }
                            && note@ == give_up_note(p@, state.attempts) && mr_iid == state.mr_iid
                            && last_error@ == give_up_error(p@, state.attempts) && attempts == state.attempts
                    } else {
                        r.1 matches CiAction::Fix { pipeline_id, attempt } && pipeline_id == p.id && attempt
                            == state.attempts
                    }
                } else {
                    r.1 matches CiAction::End { outcome: CiOutcome::Timeout { mr_iid, stage } } && mr_iid == state.mr_iid
                        && stage@ == "pipeline #"@ + dec_spec(p.id as nat) + " status: "@ + p.status@
                },
                CiEvent::FixPushed => r.1 matches CiAction::Wait { label } && label@ == "重试 #"@ + dec_spec(
                    state.attempts as nat + 1,
                ),
                CiEvent::FixFailed(reason) => r.1 matches CiAction::End {
                    outcome: CiOutcome::Failed { mr_iid, last_error, attempts },
                } && mr_iid == state.mr_iid && attempts == state.attempts && last_error@ == "修复失败: "@ + reason@,
            },
    {
        let mr_iid = state.mr_iid;
        let attempts = state.attempts;
        match event {
            CiEvent::Finished(p) => {
                match self.next_step(&p, attempts) {
                    CiStep::Succeed => (
                        CiLoop { done: true, ..*state },
                        CiAction::Succeed { outcome: CiOutcome::Passed { mr_iid, pipeline_id: p.id, attempts } },
                    ),
                    CiStep::GiveUp { last_error, note } => (
                        CiLoop { done: true, ..*state },
                        CiAction::GiveUp { note, outcome: CiOutcome::Failed { mr_iid, last_error, attempts } },
                    ),
                    CiStep::Fix => (CiLoop { fixing: true, ..*state }, CiAction::Fix { pipeline_id: p.id, attempt: attempts }),
                    CiStep::Stop { stage } => (
                        CiLoop { done: true, ..*state },
                        CiAction::End { outcome: CiOutcome::Timeout { mr_iid, stage } },
                    ),
                }
            },
            CiEvent::FixPushed => {
                let next = attempts + 1;
                (CiLoop { attempts: next, fixing: false, ..*state }, CiAction::Wait { label: retry_label(next) })
            },
            CiEvent::FixFailed(reason) => (
                CiLoop { done: true, ..*state },
                CiAction::End { outcome: fix_failed_outcome(mr_iid, reason.as_str(), attempts) },
            ),
        }
    }
}

} // verus!
