use devnpc::config::WebhookConfig;
use devnpc::trigger::parser::{classify_task, issue_reference, latest_mention, manual_task, parse_mention, TaskKind, TaskSpec};
use devnpc::trigger::webhook::{note_trigger, token_accepted, webhook_path, WebhookTrigger};

#[test]
fn parse_mention_extracts_text_after_mention() {
    let spec = parse_mention("请 @devnpc 修复这个 bug #42").unwrap();
    assert_eq!(spec.description, "修复这个 bug #42");
    assert_eq!(spec.kind, TaskKind::Fix);
    assert_eq!(spec.target_issue, Some(42));
}

#[test]
fn parse_mention_returns_none_when_no_mention() {
    assert!(parse_mention("这是一个普通评论").is_none());
}

#[test]
fn parse_mention_returns_none_when_empty_after_mention() {
    assert!(parse_mention("@devnpc  ").is_none());
}

#[test]
fn parse_mention_detects_issue_reference() {
    let spec = parse_mention("@devnpc 实现用户登录功能 #123").unwrap();
    assert_eq!(spec.target_issue, Some(123));
}

#[test]
fn parse_mention_no_issue_reference() {
    let spec = parse_mention("@devnpc 优化代码结构").unwrap();
    assert!(spec.target_issue.is_none());
}

#[test]
fn issue_reference_needs_digits_after_hash() {
    assert_eq!(issue_reference("see #7 and #9"), Some(7));
    assert_eq!(issue_reference("# 7"), None);
    assert_eq!(issue_reference("no ref"), None);
}

#[test]
fn classify_task_fix_by_chinese_keyword() {
    assert_eq!(classify_task("修复登录 bug"), TaskKind::Fix);
}

#[test]
fn classify_task_fix_by_english_keyword() {
    assert_eq!(classify_task("fix the crash"), TaskKind::Fix);
}

#[test]
fn classify_task_test_by_chinese_keyword() {
    assert_eq!(classify_task("测试用户模块"), TaskKind::Test);
}

#[test]
fn classify_task_test_by_english_keyword() {
    assert_eq!(classify_task("add unit tests"), TaskKind::Test);
}

#[test]
fn classify_task_refactor_by_chinese_keyword() {
    assert_eq!(classify_task("重构支付模块"), TaskKind::Refactor);
}

#[test]
fn classify_task_refactor_by_english_keyword() {
    assert_eq!(classify_task("refactor the handler"), TaskKind::Refactor);
}

#[test]
fn classify_task_review() {
    assert_eq!(classify_task("review the MR"), TaskKind::Review);
}

#[test]
fn classify_task_defaults_to_implement() {
    assert_eq!(classify_task("随便写点代码"), TaskKind::Implement);
}

#[test]
fn classify_task_kind_display() {
    assert_eq!(classify_task("这个 bug 需要修复"), TaskKind::Fix);
}

#[test]
fn webhook_config_default() {
    let config = WebhookConfig::default();
    assert!(!config.enabled);
    assert_eq!(config.port, 0);
    assert!(config.host.is_empty());
    assert!(config.secret.is_empty());
    assert!(config.path.is_empty());
}

#[test]
fn webhook_trigger_carries_task_spec() {
    let task = TaskSpec {
        kind: TaskKind::Fix,
        description: "修复 bug".into(),
        target_issue: Some(42),
        acceptance_criteria: vec![],
    };
    let trigger = WebhookTrigger { source: "note_mr".into(), task, target_iid: 15, project_id: 100 };
    assert_eq!(trigger.source, "note_mr");
    assert_eq!(trigger.target_iid, 15);
    assert_eq!(trigger.project_id, 100);
    assert_eq!(trigger.task.target_issue, Some(42));
}

#[test]
fn handle_note_mr_with_mention_triggers_task() {
    let trigger = note_trigger("MergeRequest", Some(15), None, "@devnpc 修复登录 bug #42", 100).unwrap();
    assert_eq!(trigger.source, "note_mr");
    assert_eq!(trigger.target_iid, 15);
    assert_eq!(trigger.project_id, 100);
    assert_eq!(trigger.task.target_issue, Some(42));
}

#[test]
fn handle_note_issue_with_mention_triggers_task() {
    let trigger = note_trigger("Issue", None, Some(8), "@devnpc 实现用户注册功能", 200).unwrap();
    assert_eq!(trigger.source, "note_issue");
    assert_eq!(trigger.target_iid, 8);
    assert_eq!(trigger.project_id, 200);
}

#[test]
fn handle_note_without_mention_returns_ok_no_trigger() {
    assert!(note_trigger("MergeRequest", Some(1), None, "看起来不错,approve", 1).is_none());
}

#[test]
fn handle_note_commit_type_ignored() {
    assert!(note_trigger("Commit", None, None, "@devnpc test", 1).is_none());
}

#[test]
fn token_check_accepts_anything_without_secret() {
    assert!(token_accepted("", None));
    assert!(token_accepted("", Some("whatever")));
    assert!(token_accepted("s3cret", Some("s3cret")));
    assert!(!token_accepted("s3cret", Some("wrong")));
    assert!(!token_accepted("s3cret", None));
}

#[test]
fn webhook_path_defaults_when_empty() {
    let mut config = WebhookConfig::default();
    assert_eq!(webhook_path(&config), "/webhook");
    config.path = "/hooks/gl".into();
    assert_eq!(webhook_path(&config), "/hooks/gl");
}

#[test]
fn manual_task_is_classified() {
    let t = manual_task("修复登录 bug");
    assert_eq!(t.kind, TaskKind::Fix);
    assert_eq!(t.description, "修复登录 bug");
    assert!(t.target_issue.is_none());
}

#[test]
fn latest_mention_takes_the_newest_comment_with_a_task() {
    let notes = vec![
        "@devnpc 修复 #1".to_string(),
        "@devnpc 实现注册 #2".to_string(),
        "看起来不错".to_string(),
        "@devnpc   ".to_string(),
    ];
    let t = latest_mention(&notes).unwrap();
    assert_eq!(t.target_issue, Some(2));
    assert!(latest_mention(&vec!["no".to_string()]).is_none());
}

#[test]
fn test_trigger_parser_classify_task_correctly() {
    assert_eq!(classify_task("修复登录 bug"), TaskKind::Fix);
    assert_eq!(classify_task("fix the crash"), TaskKind::Fix);
    assert_eq!(classify_task("实现用户注册"), TaskKind::Implement);
    assert_eq!(classify_task("add new feature"), TaskKind::Implement);
    assert_eq!(classify_task("重构认证模块"), TaskKind::Refactor);
    assert_eq!(classify_task("refactor utils"), TaskKind::Refactor);
    assert_eq!(classify_task("review this PR"), TaskKind::Review);
    assert_eq!(classify_task("测试登录流程"), TaskKind::Test);
    assert_eq!(classify_task("write unit test"), TaskKind::Test);
}

#[test]
fn test_trigger_parser_parses_mention_with_issue_ref() {
    let spec = parse_mention("@devnpc 修复 #42 的登录 bug").expect("解析失败");
    assert_eq!(spec.description, "修复 #42 的登录 bug");
    assert_eq!(spec.target_issue, Some(42));

    let spec = parse_mention("@devnpc 实现用户管理功能").expect("解析失败");
    assert_eq!(spec.description, "实现用户管理功能");
    assert!(spec.target_issue.is_none());

    assert!(parse_mention("@devnpc").is_none());
    assert!(parse_mention("没有提及").is_none());
}
