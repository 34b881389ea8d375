use devnpc::agent::loop_::{Trajectory, TrajectoryEvent};
use devnpc::agent::message::Message;
use devnpc::agent::prompt::build_initial_messages;
use devnpc::agent::sop::{DeviationReport, Sop, SopStep};
use devnpc::config::{ProjectConfig, SopMode};
use devnpc::gitlab_api::{Issue, Note, NoteAuthor};
use devnpc::memory::context::{Context, KeyFile, RepoTree, TreeEntry, TreeKind};

fn make_context() -> Context {
    Context {
        repo_tree: RepoTree {
            entries: vec![
                TreeEntry { path: "src".into(), kind: TreeKind::Dir, size: None },
                TreeEntry { path: "src/main.rs".into(), kind: TreeKind::File, size: None },
            ],
        },
        key_files: vec![KeyFile { path: "src/main.rs".into(), summary: "fn main() {}".into() }],
        issue: Issue {
            iid: 42,
            title: "登录 bug".into(),
            description: Some("无法登录".into()),
            state: "opened".into(),
            web_url: "https://gl.test/42".into(),
        },
        related_prs: vec![],
        issue_notes: vec![Note {
            id: 1,
            body: "@devnpc 修复".into(),
            author: NoteAuthor { id: 10, username: "alice".into(), name: "Alice".into() },
            created_at: "2026-08-01T10:00:00Z".into(),
        }],
        recent_commits: vec!["abc123 init".into()],
        ci_failures: vec![],
        project_config: ProjectConfig::default(),
    }
}

#[test]
fn build_initial_messages_returns_system_then_user() {
    let ctx = make_context();
    let msgs = build_initial_messages(&ctx, "你是开发 NPC", "修复登录 bug");
    assert_eq!(msgs.len(), 2);
    assert!(matches!(msgs[0], Message::System { .. }));
    assert!(matches!(msgs[1], Message::User { .. }));
}

#[test]
fn system_prompt_includes_role_and_guidelines() {
    let ctx = make_context();
    let mut project = ctx.project_config.clone();
    project.guidelines_markdown = "## 编码约定\n- 禁止 unwrap".into();
    let ctx_with_guidelines = Context { project_config: project, ..ctx };
    let msgs = build_initial_messages(&ctx_with_guidelines, "你是开发 NPC", "任务");
    if let Message::System { content } = &msgs[0] {
        assert!(content.contains("你是开发 NPC"));
        assert!(content.contains("禁止 unwrap"));
    } else {
        panic!("expected System message");
    }
}

#[test]
fn user_prompt_includes_issue_and_task() {
    let ctx = make_context();
    let msgs = build_initial_messages(&ctx, "role", "修复登录 bug");
    if let Message::User { content } = &msgs[1] {
        assert!(content.contains("登录 bug"));
        assert!(content.contains("无法登录"));
        assert!(content.contains("修复登录 bug"));
        assert!(content.contains("src/main.rs"));
    } else {
        panic!("expected User message");
    }
}

#[test]
fn user_prompt_includes_repo_tree_with_dir_marker() {
    let ctx = make_context();
    let msgs = build_initial_messages(&ctx, "role", "task");
    if let Message::User { content } = &msgs[1] {
        assert!(content.contains("src/"));
    } else {
        panic!("expected User message");
    }
}

fn make_sop() -> Sop {
    Sop {
        name: "bugfix".into(),
        description: "".into(),
        steps: vec![
            SopStep {
                name: "复现".into(),
                expected_tools: vec!["run_command".into(), "read_file".into()],
                hint: "".into(),
            },
            SopStep { name: "修复".into(), expected_tools: vec!["write_file".into()], hint: "".into() },
            SopStep { name: "完成".into(), expected_tools: vec!["finish".into()], hint: "".into() },
        ],
    }
}

fn traj_with_tools(tools: &[&str]) -> Trajectory {
    let mut t = Trajectory::default();
    for tool in tools {
        t.events.push(TrajectoryEvent::ToolCall { name: (*tool).into(), success: true });
    }
    t
}

#[test]
fn estimate_current_step_returns_first_when_trajectory_empty() {
    let sop = make_sop();
    let traj = Trajectory::default();
    let step = sop.estimate_current_step(&traj);
    assert_eq!(step.name, "复现");
}

#[test]
fn estimate_current_step_advances_when_step_tools_called() {
    let sop = make_sop();
    let traj = traj_with_tools(&["run_command"]);
    let step = sop.estimate_current_step(&traj);
    assert_eq!(step.name, "修复");
}

#[test]
fn estimate_current_step_returns_last_when_all_touched() {
    let sop = make_sop();
    let traj = traj_with_tools(&["run_command", "write_file", "finish"]);
    let step = sop.estimate_current_step(&traj);
    assert_eq!(step.name, "完成");
}

#[test]
fn check_deviation_none_when_tools_in_expected() {
    let sop = make_sop();
    let traj = Trajectory::default();
    let report = sop.check_deviation(&vec!["run_command".into()], &traj, SopMode::Soft);
    assert!(matches!(report, DeviationReport::Clean));
}

#[test]
fn check_deviation_soft_when_unexpected_tool() {
    let sop = make_sop();
    let traj = Trajectory::default();
    let report = sop.check_deviation(&vec!["write_file".into()], &traj, SopMode::Soft);
    match report {
        DeviationReport::Soft { step, unexpected_tools } => {
            assert_eq!(step, "复现");
            assert_eq!(unexpected_tools, vec!["write_file".to_string()]);
        }
        _ => panic!("expected Soft"),
    }
}

#[test]
fn check_deviation_strict_when_unexpected_tool() {
    let sop = make_sop();
    let traj = Trajectory::default();
    let report = sop.check_deviation(&vec!["write_file".into()], &traj, SopMode::Strict);
    match report {
        DeviationReport::Strict { step, unexpected_tools } => {
            assert_eq!(step, "复现");
            assert_eq!(unexpected_tools, vec!["write_file".to_string()]);
        }
        _ => panic!("expected Strict"),
    }
}

#[test]
fn check_deviation_follows_the_estimated_step() {
    let sop = make_sop();
    let traj = traj_with_tools(&["run_command"]);
    let report = sop.check_deviation(&vec!["write_file".into()], &traj, SopMode::Strict);
    assert!(matches!(report, DeviationReport::Clean));
}
