use devnpc::agent::llm_client::{call_model, chat_url, empty_choices_error, llm_status_error, ModelRouter, TaskKind};
use devnpc::ci::controller::{
    finished_pipeline, latest_pipeline_for_branch, missing_log_text, poll_timeout_error, ready_title, retry_label,
    success_note, CiController, CiOutcome, CiStep,
};
use devnpc::config::{CiConfig, ModelRoutingConfig};
use devnpc::error::DevnpcError;
use devnpc::git::ops::GitOps;
use devnpc::gitlab_api::client::{create_mr_title, encode_uri_component, status_error, update_mr_title, GitlabUrls};
use devnpc::gitlab_api::{CreateMrReq, Pipeline};

fn pipeline(id: u64, status: &str, branch: &str) -> Pipeline {
    Pipeline { id, status: status.into(), ref_: Some(branch.into()), sha: None, web_url: format!("u{id}") }
}

fn controller() -> CiController {
    CiController::new(CiConfig::default(), GitOps::new("/ws".into()), 9)
}

#[test]
fn task_kind_from_goal_keywords() {
    assert_eq!(TaskKind::from_goal("Fix the login BUG"), TaskKind::Fix);
    assert_eq!(TaskKind::from_goal("写集成测试"), TaskKind::Test);
    assert_eq!(TaskKind::from_goal("重构"), TaskKind::Refactor);
    assert_eq!(TaskKind::from_goal("Add a feature"), TaskKind::Implement);
    assert_eq!(TaskKind::from_goal("hello"), TaskKind::Unknown);
}

#[test]
fn model_router_routes_by_kind() {
    let router = ModelRouter::new(&ModelRoutingConfig { simple_model: "small".into(), complex_model: "big".into() });
    assert_eq!(router.select_model(&TaskKind::Fix), Some("small"));
    assert_eq!(router.select_model(&TaskKind::Refactor), Some("big"));
    let only_complex = ModelRouter::new(&ModelRoutingConfig { simple_model: "".into(), complex_model: "big".into() });
    assert_eq!(only_complex.select_model(&TaskKind::Test), Some("big"));
    let none = ModelRouter::new(&ModelRoutingConfig::default());
    assert_eq!(none.select_model(&TaskKind::Fix), None);
    assert_eq!(call_model("default", Some(&none), Some(&TaskKind::Fix)), "default");
    assert_eq!(call_model("default", Some(&router), Some(&TaskKind::Implement)), "big");
    assert_eq!(call_model("default", None, Some(&TaskKind::Implement)), "default");
}

#[test]
fn llm_urls_and_errors() {
    assert_eq!(chat_url("https://api.x/v1/"), "https://api.x/v1/chat/completions");
    assert!(matches!(llm_status_error(500, "boom"), DevnpcError::Llm(m) if m == "LLM API 错误: 500 boom"));
    assert!(matches!(empty_choices_error(), DevnpcError::Llm(m) if m == "LLM 返回 choices 为空"));
}

#[test]
fn next_step_follows_pipeline_state() {
    let c = controller();
    assert!(matches!(c.next_step(&pipeline(1, "success", "b"), 0), CiStep::Succeed));
    assert!(matches!(c.next_step(&pipeline(1, "failed", "b"), 0), CiStep::Fix));
    assert!(matches!(c.next_step(&pipeline(1, "canceled", "b"), 2), CiStep::Fix));
    match c.next_step(&pipeline(5, "failed", "b"), 3) {
        CiStep::GiveUp { last_error, note } => {
            assert_eq!(last_error, "pipeline #5 failed after 3 attempt(s)");
            assert_eq!(note, "❌ CI 修复失败 (3 次重试后): pipeline #5 failed");
        }
        other => panic!("expected GiveUp, got {other:?}"),
    }
    match c.next_step(&pipeline(5, "skipped", "b"), 0) {
        CiStep::Stop { stage } => assert_eq!(stage, "pipeline #5 status: skipped"),
        other => panic!("expected Stop, got {other:?}"),
    }
}

#[test]
fn ci_notes_and_labels() {
    let c = controller();
    assert_eq!(retry_label(2), "重试 #2");
    assert_eq!(success_note(7), "✅ CI pipeline #7 通过, 已自动移除 Draft 状态。");
    assert_eq!(ready_title("Draft: Draft: fix"), "fix");
    assert_eq!(missing_log_text(3), "[无法获取 job #3 日志]");
    assert!(c.fix_progress_note(4, 0).starts_with("🔄 CI 修复中 (attempt 1/3"));
    assert!(matches!(poll_timeout_error(8), DevnpcError::PipelineTimeout { stage } if stage == "pipeline #8 轮询超时"));
}

#[test]
fn pipelines_are_picked_by_branch_and_id() {
    let ps = vec![pipeline(3, "running", "a"), pipeline(5, "failed", "b"), pipeline(4, "success", "a")];
    assert_eq!(latest_pipeline_for_branch(&ps, "a").unwrap().id, 4);
    assert!(latest_pipeline_for_branch(&ps, "c").is_none());
    assert_eq!(finished_pipeline(&ps, 5).unwrap().id, 5);
    assert!(finished_pipeline(&ps, 3).is_none());
}

#[test]
fn gitlab_urls_encode_paths() {
    let urls = GitlabUrls::new("https://gl.test//");
    assert_eq!(urls.project(42), "https://gl.test/api/v4/projects/42");
    assert_eq!(urls.issue_url(1, 2), "https://gl.test/api/v4/projects/1/issues/2");
    assert_eq!(urls.job_log_url(1, 3), "https://gl.test/api/v4/projects/1/jobs/3/trace");
    assert_eq!(
        urls.file_url(1, "src/main.rs", "main"),
        "https://gl.test/api/v4/projects/1/repository/files/src%2Fmain.rs?ref=main&raw=1"
    );
    assert_eq!(urls.tree_url(1, "", "dev"), "https://gl.test/api/v4/projects/1/repository/tree?ref=dev");
    assert_eq!(urls.pipelines_url_with_limit(1, 5), "https://gl.test/api/v4/projects/1/pipelines?per_page=5");
    assert_eq!(encode_uri_component("a b/ü~"), "a%20b%2F%C3%BC~");
}

#[test]
fn merge_request_titles_and_status_errors() {
    let req = CreateMrReq {
        source_branch: "s".into(),
        target_branch: "t".into(),
        title: "fix".into(),
        description: "".into(),
        draft: true,
    };
    assert_eq!(create_mr_title(&req), "Draft: fix");
    assert_eq!(update_mr_title("Draft: fix", false), "fix");
    assert_eq!(update_mr_title("fix", true), "Draft: fix");
    assert!(matches!(status_error(404, "nf".into()), Some(DevnpcError::GitlabNotFound { resource }) if resource == "nf"));
    assert!(matches!(status_error(500, "x".into()), Some(DevnpcError::GitlabApi { status: 500, .. })));
    assert!(status_error(201, "".into()).is_none());
}

#[test]
fn git_arguments() {
    let git = GitOps::new("/ws".into());
    assert_eq!(git.ls_tree_head_args(), vec!["ls-tree", "HEAD"]);
    assert_eq!(git.ls_tree_subdir_args("src"), vec!["ls-tree", "HEAD", "src/"]);
    assert_eq!(git.push_args("b"), vec!["push", "origin", "b"]);
    assert_eq!(git.recent_commits_args(5), vec!["log", "--oneline", "-n", "5"]);
}

#[test]
fn run_report_counts_calls_and_maps_status() {
    let mut t = devnpc::agent::loop_::Trajectory::new();
    t.record_llm_call(0);
    t.record_tool_call("read_file", true);
    t.record_tool_call("finish", true);
    t.record_deviation("s", vec!["x".into()]);
    let npc = devnpc::npc::runner::NpcResult { summary: "done".into(), trajectory: t, branch: "b".into() };
    let r = devnpc::run::build_report(&npc, &devnpc::ci::controller::CiOutcome::Failed {
        mr_iid: 1,
        last_error: "e".into(),
        attempts: 2,
    });
    assert_eq!(r.llm_calls, 1);
    assert_eq!(r.tool_calls, 2);
    assert_eq!(r.status, "failed");
    assert_eq!(r.ci_retries, 2);
    assert_eq!(r.summary, "done");
    let timeout = devnpc::run::build_report(&npc, &devnpc::ci::controller::CiOutcome::Timeout {
        mr_iid: 1,
        stage: "s".into(),
    });
    assert_eq!(timeout.status, "timeout");
}

#[test]
fn run_merge_request_and_texts() {
    let req = devnpc::run::mr_request("npc/dev-x", "修复");
    assert_eq!(req.title, "devnpc: 修复");
    assert_eq!(req.target_branch, "main");
    assert!(req.draft);
    assert!(matches!(
        devnpc::run::ci_failed_fallback(3),
        devnpc::ci::controller::CiOutcome::Passed { mr_iid: 3, pipeline_id: 0, attempts: 0 }
    ));
    assert_eq!(
        devnpc::run::run_summary_text("success", "s", "b", "u"),
        "## devnpc 执行报告\n\n**状态**: success\n**摘要**: s\n\n**分支**: b\n**报告**: u"
    );
}

#[test]
fn report_goes_to_artifacts_or_pages() {
    assert_eq!(devnpc::run::report_destination(devnpc::config::ReportTarget::Artifact), Some(".devnpc-report/report.html"));
    assert_eq!(devnpc::run::report_destination(devnpc::config::ReportTarget::Pages), Some("public/index.html"));
    assert_eq!(devnpc::run::report_destination(devnpc::config::ReportTarget::Unpublished), None);
}

#[test]
fn ci_loop_gives_up_after_max_retries_fixes() {
    let mut cfg = CiConfig::default();
    cfg.max_retries = 1;
    let ctrl = CiController::new(cfg, GitOps::new("/ws".into()), 9);
    let state = devnpc::ci::controller::CiLoop::start(5);
    let (state, action) =
        ctrl.loop_step(&state, devnpc::ci::controller::CiEvent::Finished(pipeline(1, "failed", "b")));
    assert!(matches!(action, devnpc::ci::controller::CiAction::Fix { pipeline_id: 1, attempt: 0 }));
    let (state, action) = ctrl.loop_step(&state, devnpc::ci::controller::CiEvent::FixPushed);
    match action {
        devnpc::ci::controller::CiAction::Wait { label } => assert_eq!(label, "重试 #1"),
        other => panic!("unexpected {other:?}"),
    }
    assert_eq!(state.attempts, 1);
    let (state, action) =
        ctrl.loop_step(&state, devnpc::ci::controller::CiEvent::Finished(pipeline(2, "failed", "b")));
    match action {
        devnpc::ci::controller::CiAction::GiveUp { note, outcome } => {
            assert_eq!(note, "❌ CI 修复失败 (1 次重试后): pipeline #2 failed");
            match outcome {
                CiOutcome::Failed { mr_iid, last_error, attempts } => {
                    assert_eq!(mr_iid, 5);
                    assert_eq!(last_error, "pipeline #2 failed after 1 attempt(s)");
                    assert_eq!(attempts, 1);
                }
                other => panic!("unexpected {other:?}"),
            }
        }
        other => panic!("unexpected {other:?}"),
    }
    assert!(state.done);
}

#[test]
fn ci_loop_passes_and_reports_failed_fix() {
    let ctrl = controller();
    let state = devnpc::ci::controller::CiLoop::start(5);
    let (_, action) =
        ctrl.loop_step(&state, devnpc::ci::controller::CiEvent::Finished(pipeline(3, "success", "b")));
    assert!(matches!(
        action,
        devnpc::ci::controller::CiAction::Succeed { outcome: CiOutcome::Passed { mr_iid: 5, pipeline_id: 3, attempts: 0 } }
    ));
    let (state, _) =
        ctrl.loop_step(&state, devnpc::ci::controller::CiEvent::Finished(pipeline(4, "canceled", "b")));
    let (_, action) = ctrl.loop_step(&state, devnpc::ci::controller::CiEvent::FixFailed("push".into()));
    match action {
        devnpc::ci::controller::CiAction::End { outcome: CiOutcome::Failed { last_error, attempts, .. } } => {
            assert_eq!(last_error, "修复失败: push");
            assert_eq!(attempts, 0);
        }
        other => panic!("unexpected {other:?}"),
    }
}
