//! Team orchestration decisions: the roles and tasks of a team run, the
//! handoff comment, the team branch and merge request, and the outcome.
//!
//! A team run decomposes the goal with a PM agent, hands the result to a
//! developer and a tester, merges their branches into a team branch and opens
//! one merge request for the CI controller. The program around the library
//! runs the agents, git and GitLab.

use vstd::prelude::*;

use crate::ci::controller::CiOutcome;
use crate::gitlab_api::CreateMrReq;
use crate::npc::role::Role;
use crate::team::comm::{build_handoff, handoff_text};
use crate::text::{dec_spec, dec_string, str_views};
use crate::trigger::parser::{TaskKind, TaskSpec};

verus! {

/// How a team run ended.
#[derive(Debug, Clone)]
pub enum TeamOutcome {
    Passed { mr_iid: u64, pipeline_id: u64, attempts: u8 },
    Failed { mr_iid: u64, last_error: String, attempts: u8 },
    Timeout { mr_iid: u64, stage: String },
}

/// The PM's instructions.
pub const PM_PROMPT: &'static str = "你是一个项目经理(PM)。你的任务是将用户需求分解为具体的开发任务和测试任务。分析需求,输出清晰的任务分解方案。完成后调用 finish 工具,在 summary 中写入分解后的任务描述。";

/// The developer's instructions.
pub const DEVELOPER_PROMPT: &'static str = "你是一个 Rust 开发工程师。根据 PM 分解的任务进行代码实现。遵循以下原则:\n1. 修改前先理解上下文 (read_file / list_files / aft_outline)\n2. 改完后用 cargo build 验证编译\n3. 完成后调用 finish 工具,summary 写验收摘要\n4. 禁止修改工作目录外的文件";

/// The tester's instructions.
pub const TESTER_PROMPT: &'static str = "你是一个测试工程师。根据 PM 分解的任务编写测试用例和进行测试验证。遵循以下原则:\n1. 先理解现有代码结构\n2. 编写全面的测试用例\n3. 运行测试确保通过\n4. 完成后调用 finish 工具,summary 写测试报告";

fn team_role(name: &str, description: &str, prompt: &str, max_iterations: u32) -> (r: Role)
    ensures
        r.name@ == name@,
        r.description@ == description@,
        r.system_prompt@ == prompt@,
        r.max_iterations == max_iterations,
        r.default_sop is None,
        r.tools@.len() == 0,
{
    Role {
        name: String::from_str(name),
        description: String::from_str(description),
        system_prompt: String::from_str(prompt),
        max_iterations,
        default_sop: None,
        tools: Vec::new(),
    }
}

/// The PM role, which decomposes the goal.
pub fn pm_role(max_iterations: u32) -> (r: Role)
    ensures
        r.name@ == "PM"@,
        r.description@ == "项目经理,负责需求分解和任务规划"@,
        r.system_prompt@ == PM_PROMPT@,
        r.max_iterations == max_iterations,
        r.default_sop is None,
        r.tools@.len() == 0,
{
    team_role("PM", "项目经理,负责需求分解和任务规划", PM_PROMPT, max_iterations)
}

/// The developer role, which implements.
pub fn developer_role(max_iterations: u32) -> (r: Role)
    ensures
        r.name@ == "developer"@,
        r.description@ == "开发工程师,负责代码实现"@,
        r.system_prompt@ == DEVELOPER_PROMPT@,
        r.max_iterations == max_iterations,
        r.default_sop is None,
        r.tools@.len() == 0,
{
    team_role("developer", "开发工程师,负责代码实现", DEVELOPER_PROMPT, max_iterations)
}

/// The tester role, which writes and runs tests.
pub fn tester_role(max_iterations: u32) -> (r: Role)
    ensures
        r.name@ == "tester"@,
        r.description@ == "测试工程师,负责编写测试和验证"@,
        r.system_prompt@ == TESTER_PROMPT@,
        r.max_iterations == max_iterations,
        r.default_sop is None,
        r.tools@.len() == 0,
{
    team_role("tester", "测试工程师,负责编写测试和验证", TESTER_PROMPT, max_iterations)
}

fn team_task(kind: TaskKind, prefix: &str, text: &str, issue_iid: u64) -> (r: TaskSpec)
    ensures
        r.kind == kind,
        r.description@ == prefix@ + text@,
        r.target_issue == Some(issue_iid),
        r.acceptance_criteria@.len() == 0,
{
    let mut d = String::from_str(prefix);
    d.append(text);
    TaskSpec { kind, description: d, target_issue: Some(issue_iid), acceptance_criteria: Vec::new() }
}

/// The PM's task: decompose the goal.
pub fn pm_task(goal: &str, issue_iid: u64) -> (r: TaskSpec)
    ensures
        r.kind == TaskKind::Implement,
        r.description@ == "需求分解: "@ + goal@,
        r.target_issue == Some(issue_iid),
        r.acceptance_criteria@.len() == 0,
{
    team_task(TaskKind::Implement, "需求分解: ", goal, issue_iid)
}

/// The developer's task: implement the decomposition.
pub fn developer_task(decomposition: &str, issue_iid: u64) -> (r: TaskSpec)
    ensures
        r.kind == TaskKind::Implement,
        r.description@ == "代码实现: "@ + decomposition@,
        r.target_issue == Some(issue_iid),
        r.acceptance_criteria@.len() == 0,
{
    team_task(TaskKind::Implement, "代码实现: ", decomposition, issue_iid)
}

/// The tester's task: test the decomposition.
pub fn tester_task(decomposition: &str, issue_iid: u64) -> (r: TaskSpec)
    ensures
        r.kind == TaskKind::Test,
        r.description@ == "测试验证: "@ + decomposition@,
        r.target_issue == Some(issue_iid),
        r.acceptance_criteria@.len() == 0,
{
    team_task(TaskKind::Test, "测试验证: ", decomposition, issue_iid)
}

/// The issue comment that publishes the decomposition and hands it to the
/// developer and the tester.
pub fn team_note(decomposition: &str) -> (r: String)
    ensures
        r@ == "## devnpc 团队协作\n\n**PM 需求分解完成**\n\n"@ + decomposition@ + "\n\n---\n"@ + handoff_text(
            "PM"@,
            seq!["developer"@, "tester"@],
            "ready"@,
            "需求已分解:\n"@ + decomposition@,
        ),
{
    let mut to: Vec<String> = Vec::new();
    to.push(String::from_str("developer"));
    to.push(String::from_str("tester"));
    assert(str_views(to@) =~= seq!["developer"@, "tester"@]);
    let mut payload = String::from_str("需求已分解:\n");
    payload.append(decomposition);
    let handoff = build_handoff("PM", &to, "ready", payload.as_str());
    let mut s = String::from_str("## devnpc 团队协作\n\n**PM 需求分解完成**\n\n");
    s.append(decomposition);
    s.append("\n\n---\n");
    s.append(handoff.as_str());
    s
}

/// The team branch of an issue: `<prefix>/team-<iid>`.
pub fn team_branch(prefix: &str, issue_iid: u64) -> (r: String)
    ensures
        r@ == prefix@ + "/team-"@ + dec_spec(issue_iid as nat),
{
    let mut s = String::from_str(prefix);
    s.append("/team-");
    let d = dec_string(issue_iid);
    s.append(d.as_str());
    s
}

/// The draft merge request of a team run, into `main`.
pub fn team_mr_request(team_branch: &str, goal: &str, dev_summary: &str, test_summary: &str) -> (r: CreateMrReq)
    ensures
        r.source_branch@ == team_branch@,
        r.target_branch@ == "main"@,
        r.title@ == "devnpc team: "@ + goal@,
        r.description@ == "由 devnpc 团队协作自动创建\n\n## 需求\n"@ + goal@ + "\n\n## 开发\n"@ + dev_summary@
            + "\n\n## 测试\n"@ + test_summary@,
        r.draft,
{
    let mut title = String::from_str("devnpc team: ");
    title.append(goal);
    let mut d = String::from_str("由 devnpc 团队协作自动创建\n\n## 需求\n");
    d.append(goal);
    d.append("\n\n## 开发\n");
    d.append(dev_summary);
    d.append("\n\n## 测试\n");
    d.append(test_summary);
    CreateMrReq {
        source_branch: String::from_str(team_branch),
        target_branch: String::from_str("main"),
        title,
        description: d,
        draft: true,
    }
}

/// The outcome of a team run once its merge request `mr_iid` exists: the
/// CI pipeline and retries when the CI loop reported them; the run counts as
/// passed in every case, with pipeline 0 when CI gave none.
pub fn team_outcome(mr_iid: u64, ci: Option<&CiOutcome>) -> (r: TeamOutcome)
    ensures
        r matches TeamOutcome::Passed { mr_iid: m, pipeline_id, attempts } && m == mr_iid && match ci {
            Some(CiOutcome::Passed { pipeline_id: p, attempts: a, .. }) => pipeline_id == p && attempts == a,
            Some(CiOutcome::Failed { attempts: a, .. }) => pipeline_id == 0 && attempts == a,
            _ => pipeline_id == 0 && attempts == 0,
        },
{
    let (pipeline_id, attempts) = match ci {
        Some(CiOutcome::Passed { pipeline_id, attempts, .. }) => (*pipeline_id, *attempts),
        Some(CiOutcome::Failed { attempts, .. }) => (0, *attempts),
        _ => (0, 0),
    };
    TeamOutcome::Passed { mr_iid, pipeline_id, attempts }
}

/// The outcome when the team merge request could not be created.
pub fn mr_creation_failed(reason: &str) -> (r: TeamOutcome)
    ensures
        r matches TeamOutcome::Failed { mr_iid, last_error, attempts } && mr_iid == 0 && attempts == 0
            && last_error@ == "创建团队 MR 失败: "@ + reason@,
{
    let mut e = String::from_str("创建团队 MR 失败: ");
    e.append(reason);
    TeamOutcome::Failed { mr_iid: 0, last_error: e, attempts: 0 }
}

} // verus!
