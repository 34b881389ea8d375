use devnpc::config::devnpc_md::{split_devnpc_md, DevnpcMdFrontMatter, ParsedDevnpcMd};
use devnpc::config::loader::EnvValues;
use devnpc::config::{Config, ReportTarget, SopMode};
use devnpc::error::DevnpcError;

fn empty_env() -> EnvValues {
    EnvValues {
        api_key: None,
        base_url: None,
        model: None,
        gitlab_url: None,
        gitlab_token: None,
        project_id: None,
        max_iterations: None,
        max_ci_retries: None,
        sop_mode: None,
        report_target: None,
        model_routing: None,
        command_allowlist: None,
        command_denylist: None,
        default_timeout_secs: None,
        read_file_max_lines: None,
        log_parser_max_failures: None,
        key_file_patterns: None,
        summary_readme_lines: None,
        summary_main_rs_lines: None,
        summary_other_lines: None,
        context_max_commits: None,
        context_max_pipelines: None,
        context_max_ci_failures: None,
        ci_poll_interval_secs: None,
        ci_poll_timeout_secs: None,
        ci_pipeline_timeout_secs: None,
        ci_max_retries: None,
    }
}

fn required_env() -> EnvValues {
    let mut e = empty_env();
    e.api_key = Some("sk".into());
    e.base_url = Some("https://api.test.com/v1".into());
    e.model = Some("m".into());
    e.gitlab_url = Some("https://gl.test.com".into());
    e.gitlab_token = Some("t".into());
    e.project_id = Some("1".into());
    e
}

fn md(fm: DevnpcMdFrontMatter, body: &str) -> Result<ParsedDevnpcMd, DevnpcError> {
    Ok(ParsedDevnpcMd { front_matter: fm, guidelines_markdown: body.into() })
}

#[test]
fn merge_env_overrides_devnpc_md_overrides_defaults() {
    let mut env = required_env();
    env.api_key = Some("sk-merge".into());
    env.max_iterations = Some("30".into());
    env.max_ci_retries = Some("5".into());
    env.sop_mode = Some("strict".into());
    let fm = DevnpcMdFrontMatter {
        sop_mode: Some("soft".into()),
        max_ci_retries: Some(2),
        branch_prefix: Some("npc".into()),
        ..DevnpcMdFrontMatter::default()
    };
    let config = Config::load(env, md(fm, "# 规范")).unwrap();
    assert_eq!(config.llm.api_key, "sk-merge");
    assert_eq!(config.limits.max_iterations, 30);
    assert_eq!(config.limits.max_ci_retries, 5);
    assert_eq!(config.project.sop_mode, SopMode::Strict);
    assert_eq!(config.project.branch_prefix, "npc");
    assert!(config.project.guidelines_markdown.contains("# 规范"));
    assert_eq!(config.report.target, ReportTarget::Artifact);
    assert!(config.model_routing.simple_model.is_empty());
    assert_eq!(config.command.default_timeout_secs, 120);
    assert_eq!(config.read_file.max_lines, 200);
    assert_eq!(config.log_parser.max_failures, 10);
    assert_eq!(config.context.max_recent_commits, 20);
    assert_eq!(config.ci.poll_interval_secs, 10);
}

#[test]
fn load_fails_when_required_llm_env_missing() {
    let result = Config::load(empty_env(), Ok(ParsedDevnpcMd::default()));
    assert!(matches!(result, Err(DevnpcError::MissingEnv { .. })));
}

#[test]
fn load_uses_defaults_when_optional_missing() {
    let config = Config::load(required_env(), Ok(ParsedDevnpcMd::default())).unwrap();
    assert_eq!(config.limits.max_iterations, 20);
    assert_eq!(config.limits.max_ci_retries, 3);
    assert_eq!(config.project.sop_mode, SopMode::Soft);
    assert_eq!(config.project.branch_prefix, "npc");
    assert_eq!(config.report.target, ReportTarget::Artifact);
    assert!(config.model_routing.simple_model.is_empty());
    assert_eq!(config.command.default_timeout_secs, 120);
    assert_eq!(config.read_file.max_lines, 200);
    assert_eq!(config.log_parser.max_failures, 10);
    assert_eq!(config.summary.readme_lines, 30);
    assert_eq!(config.context.max_recent_commits, 20);
    assert_eq!(config.ci.poll_interval_secs, 10);
}

#[test]
fn load_uses_devnpc_md_max_ci_retries_when_env_missing() {
    let fm = DevnpcMdFrontMatter { max_ci_retries: Some(7), ..DevnpcMdFrontMatter::default() };
    let config = Config::load(required_env(), md(fm, "")).unwrap();
    assert_eq!(config.limits.max_ci_retries, 7);
}

#[test]
fn load_new_config_fields_from_env() {
    let mut env = required_env();
    env.command_allowlist = Some("cargo,rustc,echo".into());
    env.command_denylist = Some("rm,curl".into());
    env.default_timeout_secs = Some("300".into());
    env.read_file_max_lines = Some("500".into());
    env.log_parser_max_failures = Some("20".into());
    env.key_file_patterns = Some("Cargo.toml,README.md".into());
    env.summary_readme_lines = Some("50".into());
    env.summary_main_rs_lines = Some("80".into());
    env.summary_other_lines = Some("30".into());
    env.context_max_commits = Some("50".into());
    env.context_max_pipelines = Some("10".into());
    env.context_max_ci_failures = Some("10".into());
    env.ci_poll_interval_secs = Some("5".into());
    env.ci_poll_timeout_secs = Some("600".into());
    env.ci_pipeline_timeout_secs = Some("3600".into());
    env.ci_max_retries = Some("5".into());
    let config = Config::load(env, Ok(ParsedDevnpcMd::default())).unwrap();
    assert_eq!(config.command.default_timeout_secs, 300);
    assert!(config.command.allowlist.contains(&"cargo".to_string()));
    assert!(config.command.denylist.contains(&"rm".to_string()));
    assert_eq!(config.read_file.max_lines, 500);
    assert_eq!(config.log_parser.max_failures, 20);
    assert_eq!(config.summary.key_file_patterns.len(), 2);
    assert_eq!(config.summary.readme_lines, 50);
    assert_eq!(config.summary.main_rs_lines, 80);
    assert_eq!(config.summary.other_lines, 30);
    assert_eq!(config.context.max_recent_commits, 50);
    assert_eq!(config.context.max_recent_pipelines, 10);
    assert_eq!(config.context.max_ci_history_failures, 10);
    assert_eq!(config.ci.poll_interval_secs, 5);
    assert_eq!(config.ci.poll_timeout_secs, 600);
    assert_eq!(config.ci.pipeline_timeout_secs, 3600);
    assert_eq!(config.ci.max_retries, 5);
}

#[test]
fn load_passes_on_devnpc_md_error() {
    let result = Config::load(required_env(), Err(DevnpcError::Yaml("bad".into())));
    assert!(matches!(result, Err(DevnpcError::Yaml(m)) if m == "bad"));
}

#[test]
fn parse_full_front_matter_and_body() {
    let content = "---\nsop_mode: strict\nforbidden_paths:\n  - \".gitlab-ci.yml\"\n  - \"Cargo.lock\"\nrequired_checks:\n  - \"cargo fmt --check\"\nbranch_prefix: \"npc\"\nmax_ci_retries: 2\n---\n# 项目规范\n\n## 技术栈\n- Rust\n";
    let parts = split_devnpc_md(content);
    assert_eq!(
        parts.yaml.as_deref(),
        Some("sop_mode: strict\nforbidden_paths:\n  - \".gitlab-ci.yml\"\n  - \"Cargo.lock\"\nrequired_checks:\n  - \"cargo fmt --check\"\nbranch_prefix: \"npc\"\nmax_ci_retries: 2")
    );
    assert!(parts.body.contains("# 项目规范"));
    assert!(parts.body.contains("## 技术栈"));
}

#[test]
fn parse_no_front_matter_returns_all_as_body() {
    let content = "# 仅正文\n没有 front matter";
    let parts = split_devnpc_md(content);
    assert!(parts.yaml.is_none());
    assert_eq!(parts.body, content);
}

#[test]
fn parse_empty_front_matter() {
    let parts = split_devnpc_md("---\n---\n# 正文\n");
    assert!(parts.yaml.is_none());
    assert_eq!(parts.body, "# 正文");
}

#[test]
fn parse_partial_front_matter_missing_fields() {
    let parts = split_devnpc_md("---\nsop_mode: soft\n---\n正文");
    assert_eq!(parts.yaml.as_deref(), Some("sop_mode: soft"));
    assert_eq!(parts.body, "正文");
}

#[test]
fn parse_unclosed_front_matter_falls_back_to_body() {
    let content = "---\nsop_mode: strict\n没有闭合";
    let parts = split_devnpc_md(content);
    assert!(parts.yaml.is_none());
    assert_eq!(parts.body, content);
}

#[test]
fn front_matter_body_drops_leading_blank_lines() {
    let parts = split_devnpc_md("---\na: 1\n---\n\n\nbody\nmore");
    assert_eq!(parts.body, "body\nmore");
}

fn llm(provider: &str) -> devnpc::config::LlmConfig {
    devnpc::config::LlmConfig {
        api_key: "test-key".into(),
        base_url: "".into(),
        model: "deepseek-chat".into(),
        provider: provider.into(),
    }
}

fn routed_config(simple: &str, complex: &str) -> Config {
    let mut config = Config::load(required_env(), Ok(ParsedDevnpcMd::default())).unwrap();
    config.llm = llm("deepseek");
    config.model_routing.simple_model = simple.into();
    config.model_routing.complex_model = complex.into();
    config
}

#[test]
fn test_create_model_unsupported_provider_returns_error() {
    match devnpc::adapter::provider::create_model(&llm("unsupported_provider")) {
        Err(DevnpcError::Config(msg)) => assert!(msg.contains("不支持的模型提供商")),
        other => panic!("expected Config error, got {other:?}"),
    }
}

#[test]
fn test_create_model_deepseek_ok() {
    assert_eq!(devnpc::adapter::provider::create_model(&llm("deepseek")).unwrap(), devnpc::adapter::provider::Provider::DeepSeek);
}

#[test]
fn test_create_model_openai_ok() {
    assert_eq!(devnpc::adapter::provider::create_model(&llm("OpenAI")).unwrap(), devnpc::adapter::provider::Provider::OpenAi);
}

#[test]
fn test_create_simple_model_fallback_when_empty() {
    let (_, c) = devnpc::adapter::provider::create_simple_model(&routed_config("", "")).unwrap();
    assert_eq!(c.model, "deepseek-chat");
}

#[test]
fn test_create_complex_model_fallback_when_empty() {
    let (_, c) = devnpc::adapter::provider::create_complex_model(&routed_config("", "")).unwrap();
    assert_eq!(c.model, "deepseek-chat");
}

#[test]
fn test_create_simple_model_uses_configured_name() {
    let (_, c) = devnpc::adapter::provider::create_simple_model(&routed_config("deepseek-coder", "")).unwrap();
    assert_eq!(c.model, "deepseek-coder");
}

#[test]
fn test_create_complex_model_uses_configured_name() {
    let (_, c) = devnpc::adapter::provider::create_complex_model(&routed_config("", "deepseek-reasoner")).unwrap();
    assert_eq!(c.model, "deepseek-reasoner");
}

#[test]
fn test_create_simple_model_unsupported_provider_in_routing() {
    let (p, c) = devnpc::adapter::provider::create_simple_model(&routed_config("gpt-4-mini", "")).unwrap();
    assert_eq!(p, devnpc::adapter::provider::Provider::DeepSeek);
    assert_eq!(c.model, "gpt-4-mini");
}
