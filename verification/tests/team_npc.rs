use devnpc::agent::loop_::{RunResult, Trajectory};
use devnpc::npc::runner::{branch_name, commit_message, run_summary, slugify, slugify_checked};
use devnpc::team::comm::{build_handoff, parse_handoff};

#[test]
fn slugify_replaces_spaces_with_hyphens() {
    assert_eq!(slugify("修复登录 bug"), "修复登录-bug");
}

#[test]
fn slugify_removes_leading_trailing_hyphens() {
    assert_eq!(slugify("!fix! crash!"), "fix-crash");
}

#[test]
fn slugify_collapses_consecutive_hyphens() {
    assert_eq!(slugify("fix  crash  now"), "fix-crash-now");
}

#[test]
fn slugify_truncates_long_strings() {
    let long = "a".repeat(200);
    let s = slugify(&long);
    assert!(s.len() <= 80);
    assert_eq!(s, "a".repeat(80));
}

#[test]
fn slugify_preserves_alphanumeric_and_dot() {
    assert_eq!(slugify("feat: add login.v2"), "feat-add-login.v2");
}

#[test]
fn slugify_lowercases() {
    assert_eq!(slugify("Fix THE_Crash"), "fix-the_crash");
}

#[test]
fn slugify_checked_refuses_a_cut_inside_a_character() {
    let text = format!("a{}", "中".repeat(30));
    assert_eq!(slugify_checked(&text), None);
    assert_eq!(slugify_checked("ok now"), Some("ok-now".to_string()));
}

#[test]
fn branch_and_commit_texts() {
    assert_eq!(branch_name("devnpc", "Developer", "fix-crash"), "devnpc/developer-fix-crash");
    assert_eq!(commit_message("修复登录"), "devnpc: 修复登录");
}

#[test]
fn run_summary_for_each_outcome() {
    let finished = RunResult::Finished { text: "t".into(), summary: "done".into(), trajectory: Trajectory::new() };
    assert_eq!(run_summary(&finished), "done");
    assert_eq!(run_summary(&RunResult::MaxIterationsReached(Trajectory::new())), "达到迭代上限,部分完成");
    let violation = RunResult::SopViolation {
        step: "复现".into(),
        unexpected_tools: vec!["write_file".into()],
        trajectory: Trajectory::new(),
    };
    assert_eq!(run_summary(&violation), "SOP 偏离于步骤 [复现],不允许的工具: [\"write_file\"]");
}

#[test]
fn parse_handoff_returns_none_when_no_marker() {
    assert!(parse_handoff("这是一个普通的评论").unwrap().is_none());
}

#[test]
fn parse_handoff_extracts_fields() {
    let body = "[devnpc:handoff]{\"from\":\"PM\",\"to\":[\"dev\"],\"signal\":\"ready\",\"payload\":\"实现登录功能\"}[/devnpc:handoff]";
    let handoff = parse_handoff(body).unwrap().unwrap();
    assert_eq!(handoff.from, "PM");
    assert_eq!(handoff.to, vec!["dev"]);
    assert_eq!(handoff.signal, "ready");
    assert_eq!(handoff.payload, "实现登录功能");
}

#[test]
fn parse_handoff_handles_multiple_recipients() {
    let body = "[devnpc:handoff]{\"from\":\"PM\",\"to\":[\"dev\",\"test\"],\"signal\":\"review\",\"payload\":\"请代码审查和测试\"}[/devnpc:handoff]";
    let handoff = parse_handoff(body).unwrap().unwrap();
    assert_eq!(handoff.to, vec!["dev", "test"]);
    assert_eq!(handoff.signal, "review");
}

#[test]
fn parse_handoff_handles_extra_text_around_marker() {
    let body = "一些前置文字\n[devnpc:handoff]{\"from\":\"PM\",\"to\":[\"dev\"],\"signal\":\"ready\",\"payload\":\"任务\"}[/devnpc:handoff]\n后续文字";
    let handoff = parse_handoff(body).unwrap().unwrap();
    assert_eq!(handoff.from, "PM");
    assert_eq!(handoff.signal, "ready");
}

#[test]
fn parse_handoff_returns_error_on_invalid_json() {
    assert!(parse_handoff("[devnpc:handoff]{invalid json}[/devnpc:handoff]").is_err());
}

#[test]
fn parse_handoff_requires_from_and_signal() {
    let no_from = "[devnpc:handoff]{\"signal\":\"ready\"}[/devnpc:handoff]";
    assert!(parse_handoff(no_from).is_err());
    let no_signal = "[devnpc:handoff]{\"from\":\"PM\"}[/devnpc:handoff]";
    assert!(parse_handoff(no_signal).is_err());
    let minimal = "[devnpc:handoff]{\"from\":\"PM\",\"signal\":\"done\"}[/devnpc:handoff]";
    let h = parse_handoff(minimal).unwrap().unwrap();
    assert!(h.to.is_empty());
    assert_eq!(h.payload, "");
}

#[test]
fn build_handoff_creates_valid_format() {
    let to = vec!["dev".to_string(), "test".to_string()];
    let msg = build_handoff("PM", &to, "ready", "实现登录功能");
    assert!(msg.contains("[devnpc:handoff]"));
    assert!(msg.contains("[/devnpc:handoff]"));
    assert!(msg.contains("\"from\":\"PM\""));
    assert!(msg.contains("\"to\":[\"dev\",\"test\"]"));
    assert!(msg.contains("\"signal\":\"ready\""));
    assert!(msg.contains("实现登录功能"));
}

#[test]
fn build_then_parse_roundtrip() {
    let to = vec!["dev".to_string()];
    let msg = build_handoff("PM", &to, "done", "功能已完成");
    let result = parse_handoff(&msg).unwrap().unwrap();
    assert_eq!(result.from, "PM");
    assert_eq!(result.to, vec!["dev"]);
    assert_eq!(result.signal, "done");
    assert_eq!(result.payload, "功能已完成");
}

#[test]
fn build_then_parse_roundtrip_escapes_payload() {
    let to = vec!["dev".to_string(), "qa".to_string()];
    let msg = build_handoff("PM", &to, "review", "line1\n\"line2\" \\ end");
    let result = parse_handoff(&msg).unwrap().unwrap();
    assert_eq!(result.from, "PM");
    assert_eq!(result.to, vec!["dev", "qa"]);
    assert_eq!(result.payload, "line1\n\"line2\" \\ end");
}

#[test]
fn build_handoff_inserts_names_unescaped() {
    let msg = build_handoff("P\"M", &vec![], "s", "p");
    assert!(msg.contains("\"from\":\"P\"M\""));
    assert!(parse_handoff(&msg).is_err());
}

#[test]
fn build_handoff_escapes_payload_as_json() {
    let msg = build_handoff("PM", &vec![], "ready", "a\u{1}b\t\"c\\");
    assert_eq!(
        msg,
        "[devnpc:handoff]{\"from\":\"PM\",\"to\":[],\"signal\":\"ready\",\"payload\":\"a\\u0001b\\t\\\"c\\\\\"}[/devnpc:handoff]"
    );
    let back = parse_handoff(&msg).unwrap().unwrap();
    assert_eq!(back.payload, "a\u{1}b\t\"c\\");
}

#[test]
fn handoff_with_closing_marker_in_payload_does_not_read_back() {
    let msg = build_handoff("PM", &vec![], "ready", "x[/devnpc:handoff]y");
    assert!(parse_handoff(&msg).is_err());
}
