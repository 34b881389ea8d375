use devnpc::ci::controller::CiOutcome;
use devnpc::report::collector::{
    CostEstimate, ReportData, Trajectory, TrajectoryCollector, TrajectoryEventSummary, TrajectorySummary,
};
use devnpc::report::html::{format_duration, generate_html, html_escape};

#[test]
fn build_report_from_trajectory_and_passed_outcome() {
    let mut traj = Trajectory::new();
    traj.record_llm_call(0);
    traj.record_tool_call("read_file", true);
    traj.record_tool_call("write_file", true);
    traj.record_llm_call(1);
    traj.record_tool_call("finish", true);
    let outcome = CiOutcome::Passed { mr_iid: 42, pipeline_id: 100, attempts: 1 };
    let report = TrajectoryCollector::build_report(
        &traj,
        &outcome,
        "修复登录 bug",
        30,
        "2026-08-01T10:00:00+00:00",
        "2026-08-01T10:00:30+00:00",
    );
    assert_eq!(report.status, "passed");
    assert_eq!(report.llm_calls, 2);
    assert_eq!(report.tool_calls, 3);
    assert_eq!(report.duration_secs, 30);
    assert_eq!(report.mr_iid, Some(42));
    assert_eq!(report.pipeline_id, Some(100));
    assert_eq!(report.ci_retries, 1);
    assert!(report.task_description.contains("修复登录"));
    assert_eq!(report.token_total, 1400);
    assert_eq!(report.cost_estimate.input_tokens, 1000);
    assert_eq!(report.cost_estimate.output_tokens, 400);
    assert_eq!(report.cost_estimate.estimated_cost_micro_usd, 2300);
    assert_eq!(report.trajectory.events.len(), 5);
}

#[test]
fn build_report_from_failed_outcome() {
    let traj = Trajectory::new();
    let outcome = CiOutcome::Failed { mr_iid: 7, last_error: "编译错误".into(), attempts: 2 };
    let report = TrajectoryCollector::build_report(&traj, &outcome, "test", 0, "t0", "t0");
    assert!(report.status.contains("failed"));
    assert_eq!(report.ci_retries, 2);
}

#[test]
fn build_report_from_timeout_outcome() {
    let traj = Trajectory::new();
    let outcome = CiOutcome::Timeout { mr_iid: 1, stage: "build".into() };
    let report = TrajectoryCollector::build_report(&traj, &outcome, "test", 0, "t0", "t0");
    assert!(report.status.contains("timeout"));
}

#[test]
fn build_report_clamps_negative_elapsed_time() {
    let traj = Trajectory::new();
    let outcome = CiOutcome::Timeout { mr_iid: 1, stage: "build".into() };
    let report = TrajectoryCollector::build_report(&traj, &outcome, "test", -5, "t1", "t0");
    assert_eq!(report.duration_secs, 0);
}

#[test]
fn from_trajectory_creates_collector_with_events() {
    let mut traj = Trajectory::new();
    traj.record_llm_call(0);
    traj.record_tool_call("read_file", true);
    let collector = TrajectoryCollector::from_trajectory(&traj);
    let events = collector.events();
    assert_eq!(events.len(), 2);
}

fn make_sample_data() -> ReportData {
    ReportData {
        status: "passed".into(),
        duration_secs: 125,
        token_total: 3500,
        llm_calls: 5,
        tool_calls: 12,
        ci_retries: 1,
        mr_url: Some("https://gitlab.test/mrs/42".into()),
        ci_url: Some("https://gitlab.test/pipelines/100".into()),
        summary: "自动修复了编译错误".into(),
        task_description: "修复登录页面 bug".into(),
        trajectory: TrajectorySummary {
            events: vec![
                TrajectoryEventSummary {
                    kind: "llm_call".into(),
                    detail: "LLM 调用 (iteration #0)".into(),
                    success: Some(true),
                },
                TrajectoryEventSummary { kind: "tool_call".into(), detail: "工具: read_file".into(), success: Some(true) },
                TrajectoryEventSummary { kind: "tool_call".into(), detail: "工具: write_file".into(), success: Some(true) },
                TrajectoryEventSummary { kind: "deviation".into(), detail: "SOP 偏离".into(), success: None },
            ],
        },
        cost_estimate: CostEstimate { input_tokens: 2500, output_tokens: 1000, estimated_cost_micro_usd: 5750 },
        mr_iid: Some(42),
        pipeline_id: Some(100),
        started_at: "2026-08-01T10:00:00Z".into(),
        finished_at: "2026-08-01T10:02:05Z".into(),
        team_steps: Vec::new(),
    }
}

#[test]
fn generate_html_contains_all_sections() {
    let html = generate_html(&make_sample_data());
    assert!(html.contains("devnpc 运维报告"));
    assert!(html.contains("概览"));
    assert!(html.contains("passed"));
    assert!(html.contains("任务"));
    assert!(html.contains("修复登录页面 bug"));
    assert!(html.contains("执行轨迹"));
    assert!(html.contains("成本估算"));
    assert!(html.contains("产出"));
    assert!(html.contains("$0.005750"));
    assert!(html.contains("2 分 5 秒"));
    assert!(html.contains("LLM 调用"));
    assert!(html.contains("read_file"));
    assert!(html.contains("SOP 偏离"));
}

#[test]
fn generate_html_escapes_special_chars() {
    let data = ReportData {
        task_description: "<script>alert('xss')</script>".into(),
        summary: "a & b < c > d".into(),
        ..make_sample_data()
    };
    let html = generate_html(&data);
    assert!(!html.contains("<script>"));
    assert!(html.contains("&lt;script&gt;"));
    assert!(html.contains("&amp;"));
    assert!(html.contains("&lt;"));
    assert!(html.contains("&gt;"));
}

#[test]
fn generate_html_shows_duration_in_readable_format() {
    let data = ReportData { duration_secs: 3661, ..make_sample_data() };
    let html = generate_html(&data);
    assert!(html.contains("1 时 1 分 1 秒"));
}

#[test]
fn generate_html_displays_trajectory_count() {
    let html = generate_html(&make_sample_data());
    assert!(html.contains("4 个事件"));
}

#[test]
fn duration_formatting() {
    assert_eq!(format_duration(0), "0 秒");
    assert_eq!(format_duration(30), "30 秒");
    assert_eq!(format_duration(90), "1 分 30 秒");
    assert_eq!(format_duration(3661), "1 时 1 分 1 秒");
}

#[test]
fn html_escape_handles_ampersand_first() {
    assert_eq!(html_escape("a&b"), "a&amp;b");
    assert_eq!(html_escape("<tag>"), "&lt;tag&gt;");
    assert_eq!(html_escape("\"quote\""), "&quot;quote&quot;");
}

#[test]
fn html_escape_leaves_no_markup() {
    let escaped = html_escape("<a href='x'>\"y\" & z</a>");
    assert!(!escaped.contains('<') && !escaped.contains('>') && !escaped.contains('"') && !escaped.contains('\''));
    assert_eq!(escaped, "&lt;a href=&#39;x&#39;&gt;&quot;y&quot; &amp; z&lt;/a&gt;");
}

#[test]
fn test_report_data_construction_from_ci_outcome() {
    let mut trajectory = Trajectory::new();
    trajectory.record_llm_call(0);
    trajectory.record_llm_call(1);
    trajectory.record_tool_call("read_file", true);
    trajectory.record_tool_call("edit_file", true);

    assert_eq!(trajectory.events.len(), 4);
    let llm_count = trajectory
        .events
        .iter()
        .filter(|e| matches!(e, devnpc::report::collector::TrajectoryEvent::LlmCall { .. }))
        .count();
    let tool_count = trajectory
        .events
        .iter()
        .filter(|e| matches!(e, devnpc::report::collector::TrajectoryEvent::ToolCall { .. }))
        .count();
    assert_eq!(llm_count, 2);
    assert_eq!(tool_count, 2);

    let passed = CiOutcome::Passed { mr_iid: 42, pipeline_id: 100, attempts: 1 };
    let failed = CiOutcome::Failed { mr_iid: 42, last_error: "编译失败".into(), attempts: 3 };
    let timeout = CiOutcome::Timeout { mr_iid: 42, stage: "test".into() };
    let error = CiOutcome::Error { mr_iid: 0, reason: "创建 MR 失败".into() };

    assert!(matches!(passed, CiOutcome::Passed { .. }));
    assert!(matches!(failed, CiOutcome::Failed { .. }));
    assert!(matches!(timeout, CiOutcome::Timeout { .. }));
    assert!(matches!(error, CiOutcome::Error { .. }));
    assert!(!matches!(error, CiOutcome::Passed { .. }));
}

fn unescape_html(t: &str) -> String {
    let mut out = String::new();
    let mut rest = t;
    while !rest.is_empty() {
        let mut matched = false;
        for (entity, c) in [("&amp;", '&'), ("&lt;", '<'), ("&gt;", '>'), ("&quot;", '"'), ("&#39;", '\'')] {
            if rest.starts_with(entity) {
                out.push(c);
                rest = &rest[entity.len()..];
                matched = true;
                break;
            }
        }
        if !matched {
            let c = rest.chars().next().unwrap();
            out.push(c);
            rest = &rest[c.len_utf8()..];
        }
    }
    out
}

#[test]
fn escaped_html_decodes_back() {
    for s in ["a&b", "<tag>", "\"quote\"", "it's &lt; here", "&amp;&#39;x", ""] {
        assert_eq!(unescape_html(&html_escape(s)), s);
    }
    assert_eq!(html_escape("a&b"), "a&amp;b");
    assert_eq!(html_escape("<tag>"), "&lt;tag&gt;");
}
