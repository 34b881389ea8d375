use devnpc::adapter::mcp_gateway::{
    codemap_server, expand_env_vars, McpAuthConfig, McpAuthMode, McpServerDesc, YamlApiKey, YamlMcpServer,
};

fn env(pairs: &[(&str, &str)]) -> Vec<(String, String)> {
    pairs.iter().map(|(k, v)| (k.to_string(), v.to_string())).collect()
}

#[test]
fn test_mcp_server_desc_stdio_builder() {
    let desc = McpServerDesc::stdio("test", "codemap", vec!["serve".into()]);
    assert_eq!(desc.transport, "stdio");
    assert_eq!(desc.command.as_deref(), Some("codemap"));
    assert!(desc.url.is_none());
    assert!(!desc.auth.is_configured());
}

#[test]
fn test_mcp_server_desc_http_builder() {
    let desc = McpServerDesc::http("remote", "https://mcp.example.com/sse")
        .with_bearer("token-123")
        .with_timeout(60);
    assert_eq!(desc.transport, "http");
    assert_eq!(desc.url.as_deref(), Some("https://mcp.example.com/sse"));
    assert!(desc.auth.is_configured());
    assert_eq!(desc.timeout_secs, Some(60));
}

#[test]
fn test_mcp_auth_config_bearer() {
    let cfg = McpAuthConfig { bearer_token: Some("tok".into()), api_key: None };
    assert!(cfg.is_configured());
    match cfg.mode() {
        McpAuthMode::Bearer(t) => assert_eq!(t, "tok"),
        _ => panic!("expected Bearer"),
    }
}

#[test]
fn test_mcp_auth_config_api_key() {
    let cfg = McpAuthConfig { bearer_token: None, api_key: Some(("X-API-Key".into(), "key123".into())) };
    assert!(cfg.is_configured());
    match cfg.mode() {
        McpAuthMode::ApiKey { header, key } => {
            assert_eq!(header, "X-API-Key");
            assert_eq!(key, "key123");
        }
        _ => panic!("expected ApiKey"),
    }
}

#[test]
fn test_mcp_auth_config_empty_returns_default() {
    let cfg = McpAuthConfig::default();
    assert!(!cfg.is_configured());
    assert!(matches!(cfg.mode(), McpAuthMode::Anonymous));
}

#[test]
fn auth_mode_prefers_bearer_over_api_key() {
    let cfg = McpAuthConfig { bearer_token: Some("b".into()), api_key: Some(("H".into(), "k".into())) };
    assert!(matches!(cfg.mode(), McpAuthMode::Bearer(t) if t == "b"));
}

#[test]
fn test_expand_env_vars_no_vars() {
    assert_eq!(expand_env_vars("plain-string", &env(&[])), "plain-string");
}

#[test]
fn test_expand_env_vars_with_var() {
    let e = env(&[("TEST_MCP_TOKEN", "secret123")]);
    assert_eq!(expand_env_vars("Bearer ${TEST_MCP_TOKEN}", &e), "Bearer secret123");
}

#[test]
fn test_expand_env_vars_unset_var() {
    assert_eq!(expand_env_vars("${UNDEFINED_VAR_12345}", &env(&[])), "");
}

#[test]
fn test_expand_env_vars_multiple_vars() {
    let e = env(&[("TEST_VAR_A", "value_a"), ("TEST_VAR_B", "value_b")]);
    assert_eq!(expand_env_vars("${TEST_VAR_A}-${TEST_VAR_B}", &e), "value_a-value_b");
}

#[test]
fn expand_env_vars_keeps_unclosed_reference() {
    let e = env(&[("A", "x")]);
    assert_eq!(expand_env_vars("${A}-${B", &e), "x-${B");
}

#[test]
fn expand_env_vars_uses_first_binding() {
    let e = env(&[("A", "one"), ("A", "two")]);
    assert_eq!(expand_env_vars("${A}", &e), "one");
}

#[test]
fn test_yaml_mcp_server_to_desc_stdio() {
    let srv = YamlMcpServer {
        name: "test-stdio".into(),
        transport: "stdio".into(),
        command: Some("my-tool".into()),
        args: Some(vec!["--port".into(), "8080".into()]),
        url: None,
        bearer_token: None,
        api_key: None,
        timeout_secs: None,
    };
    let desc = srv.to_mcp_server_desc(&env(&[]));
    assert_eq!(desc.name, "test-stdio");
    assert_eq!(desc.transport, "stdio");
    assert_eq!(desc.command.as_deref(), Some("my-tool"));
    assert_eq!(desc.args, vec!["--port".to_string(), "8080".to_string()]);
    assert!(desc.url.is_none());
}

#[test]
fn test_yaml_mcp_server_to_desc_http_with_auth() {
    let srv = YamlMcpServer {
        name: "test-http".into(),
        transport: "http".into(),
        command: None,
        args: None,
        url: Some("https://mcp.example.com/sse".into()),
        bearer_token: Some("${TEST_YAML_TOKEN}".into()),
        api_key: None,
        timeout_secs: Some(45),
    };
    let desc = srv.to_mcp_server_desc(&env(&[("TEST_YAML_TOKEN", "tok-abc")]));
    assert_eq!(desc.name, "test-http");
    assert_eq!(desc.transport, "http");
    assert_eq!(desc.url.as_deref(), Some("https://mcp.example.com/sse"));
    assert!(desc.auth.is_configured());
    assert_eq!(desc.auth.bearer_token.as_deref(), Some("tok-abc"));
    assert_eq!(desc.timeout_secs, Some(45));
}

#[test]
fn test_yaml_mcp_server_to_desc_http_with_api_key() {
    let srv = YamlMcpServer {
        name: "test-apikey".into(),
        transport: "http".into(),
        command: None,
        args: None,
        url: Some("https://mcp.example.com/api".into()),
        bearer_token: None,
        api_key: Some(YamlApiKey { header: "X-API-Key".into(), key: "${TEST_API_KEY_VAL}".into() }),
        timeout_secs: None,
    };
    let desc = srv.to_mcp_server_desc(&env(&[("TEST_API_KEY_VAL", "key-secret")]));
    assert_eq!(desc.name, "test-apikey");
    assert!(desc.auth.is_configured());
    assert_eq!(desc.auth.api_key, Some(("X-API-Key".to_string(), "key-secret".to_string())));
}

#[test]
fn yaml_unknown_transport_defaults_to_stdio() {
    let srv = YamlMcpServer {
        name: "odd".into(),
        transport: "websocket".into(),
        command: None,
        args: None,
        url: Some("ignored".into()),
        bearer_token: None,
        api_key: None,
        timeout_secs: None,
    };
    let desc = srv.to_mcp_server_desc(&env(&[]));
    assert_eq!(desc.transport, "stdio");
    assert_eq!(desc.command.as_deref(), Some(""));
    assert!(desc.args.is_empty());
    assert!(desc.url.is_none());
}

#[test]
fn codemap_server_runs_serve_with_data_dir() {
    let desc = codemap_server("/usr/bin/codemap", "/data");
    assert_eq!(desc.name, "codemap");
    assert_eq!(desc.transport, "stdio");
    assert_eq!(desc.command.as_deref(), Some("/usr/bin/codemap"));
    assert_eq!(desc.args, vec!["serve".to_string(), "--data-dir".to_string(), "/data".to_string()]);
}

#[test]
fn expand_env_vars_accepts_values_holding_dollar() {
    let e = env(&[("TOKEN", "pa$s")]);
    assert_eq!(expand_env_vars("Bearer ${TOKEN}", &e), "Bearer pa$s");
}

#[test]
fn expand_env_vars_expands_references_brought_in_by_values() {
    let e = env(&[("A", "${B}!"), ("B", "b")]);
    assert_eq!(expand_env_vars("${A}", &e), "b!");
}

#[test]
fn expansion_that_never_ends_is_detected() {
    let e = env(&[("A", "${A}")]);
    assert_eq!(devnpc::adapter::mcp_gateway::expand_env_vars_within("x${A}", &e, 50), None);
    assert_eq!(
        devnpc::adapter::mcp_gateway::expand_env_vars_within("x${B}", &e, 50),
        Some("x".to_string())
    );
}
