//! Configuration: three sources (environment > `.devnpc.md` > built-in defaults).

pub mod devnpc_md;
pub mod loader;
pub mod skill;

use vstd::prelude::*;

use crate::agent::sop::Sop;
use crate::config::devnpc_md::ParsedDevnpcMd;
use crate::config::loader::{config_matches, load_error, load_succeeds, EnvValues};
use crate::error::DevnpcError;
use crate::npc::role::Role;
use crate::text::str_views;

verus! {

// ───────────────────────── defaults as values ─────────────────────────

/// Commands that `run_command` accepts by default.
pub open spec fn default_allowlist() -> Seq<Seq<char>> {
    seq!["cargo"@, "rustc"@, "make"@, "just"@, "fmt"@, "clippy"@, "echo"@]
}

/// Commands that `run_command` refuses by default.
pub open spec fn default_denylist() -> Seq<Seq<char>> {
    seq!["rm"@, "mv"@, "cp"@, "curl"@, "wget"@, "ssh"@, "scp"@]
}

/// Files summarised for the agent by default.
pub open spec fn default_key_file_patterns() -> Seq<Seq<char>> {
    seq![
        "Cargo.toml"@,
        "package.json"@,
        "go.mod"@,
        "pyproject.toml"@,
        "README.md"@,
        ".devnpc.md"@,
        ".gitlab-ci.yml"@,
        "src/main.rs"@,
        "src/lib.rs"@,
        "Makefile"@,
        "justfile"@,
    ]
}

/// The built-in allow-list.
pub fn default_allowlist_vec() -> (r: Vec<String>)
    ensures
        str_views(r@) == default_allowlist(),
{
    let mut v: Vec<String> = Vec::new();
    v.push(String::from_str("cargo"));
    v.push(String::from_str("rustc"));
    v.push(String::from_str("make"));
    v.push(String::from_str("just"));
    v.push(String::from_str("fmt"));
    v.push(String::from_str("clippy"));
    v.push(String::from_str("echo"));
    assert(str_views(v@) =~= default_allowlist());
    v
}

/// The built-in deny-list.
pub fn default_denylist_vec() -> (r: Vec<String>)
    ensures
        str_views(r@) == default_denylist(),
{
    let mut v: Vec<String> = Vec::new();
    v.push(String::from_str("rm"));
    v.push(String::from_str("mv"));
    v.push(String::from_str("cp"));
    v.push(String::from_str("curl"));
    v.push(String::from_str("wget"));
    v.push(String::from_str("ssh"));
    v.push(String::from_str("scp"));
    assert(str_views(v@) =~= default_denylist());
    v
}

/// The built-in key-file patterns.
pub fn default_key_file_patterns_vec() -> (r: Vec<String>)
    ensures
        str_views(r@) == default_key_file_patterns(),
{
    let mut v: Vec<String> = Vec::new();
    v.push(String::from_str("Cargo.toml"));
    v.push(String::from_str("package.json"));
    v.push(String::from_str("go.mod"));
    v.push(String::from_str("pyproject.toml"));
    v.push(String::from_str("README.md"));
    v.push(String::from_str(".devnpc.md"));
    v.push(String::from_str(".gitlab-ci.yml"));
    v.push(String::from_str("src/main.rs"));
    v.push(String::from_str("src/lib.rs"));
    v.push(String::from_str("Makefile"));
    v.push(String::from_str("justfile"));
    assert(str_views(v@) =~= default_key_file_patterns());
    v
}

// ───────────────────────── centralised settings ─────────────────────────

/// Command execution settings (`run_command`).
#[derive(Debug, Clone)]
pub struct CommandConfig {
    pub allowlist: Vec<String>,
    pub denylist: Vec<String>,
    pub default_timeout_secs: u64,
}

impl Default for CommandConfig {
    fn default() -> (r: Self)
        ensures
            str_views(r.allowlist@) == default_allowlist(),
            str_views(r.denylist@) == default_denylist(),
            r.default_timeout_secs == 120,
    {
        CommandConfig {
            allowlist: default_allowlist_vec(),
            denylist: default_denylist_vec(),
            default_timeout_secs: 120,
        }
    }
}

/// File reading settings (`read_file`).
#[derive(Debug, Clone)]
pub struct ReadFileConfig {
    pub max_lines: usize,
}

impl Default for ReadFileConfig {
    fn default() -> (r: Self)
        ensures
            r.max_lines == 200,
    {
        ReadFileConfig { max_lines: 200 }
    }
}

/// CI log parser settings.
#[derive(Debug, Clone)]
pub struct LogParserConfig {
    pub max_failures: usize,
}

impl Default for LogParserConfig {
    fn default() -> (r: Self)
        ensures
            r.max_failures == 10,
    {
        LogParserConfig { max_failures: 10 }
    }
}

/// Key-file summary settings.
#[derive(Debug, Clone)]
pub struct SummaryConfig {
    pub key_file_patterns: Vec<String>,
    pub readme_lines: usize,
    pub main_rs_lines: usize,
    pub other_lines: usize,
}

impl Default for SummaryConfig {
    fn default() -> (r: Self)
        ensures
            str_views(r.key_file_patterns@) == default_key_file_patterns(),
            r.readme_lines == 30,
            r.main_rs_lines == 50,
            r.other_lines == 20,
    {
        SummaryConfig {
            key_file_patterns: default_key_file_patterns_vec(),
            readme_lines: 30,
            main_rs_lines: 50,
            other_lines: 20,
        }
    }
}

/// Context building settings.
#[derive(Debug, Clone)]
pub struct ContextConfig {
    pub max_recent_commits: usize,
    pub max_recent_pipelines: usize,
    pub max_ci_history_failures: usize,
}

impl Default for ContextConfig {
    fn default() -> (r: Self)
        ensures
            r.max_recent_commits == 20,
            r.max_recent_pipelines == 5,
            r.max_ci_history_failures == 5,
    {
        ContextConfig { max_recent_commits: 20, max_recent_pipelines: 5, max_ci_history_failures: 5 }
    }
}

/// CI loop settings.
#[derive(Debug, Clone)]
pub struct CiConfig {
    pub poll_interval_secs: u64,
    pub poll_timeout_secs: u64,
    pub pipeline_timeout_secs: u64,
    pub max_retries: u8,
}

impl Default for CiConfig {
    fn default() -> (r: Self)
        ensures
            r.poll_interval_secs == 10,
            r.poll_timeout_secs == 300,
            r.pipeline_timeout_secs == 1800,
            r.max_retries == 3,
    {
        CiConfig {
            poll_interval_secs: 10,
            poll_timeout_secs: 300,
            pipeline_timeout_secs: 1800,
            max_retries: 3,
        }
    }
}

// ───────────────────────── top level ─────────────────────────

/// The whole configuration.
#[derive(Debug, Clone)]
pub struct Config {
    pub llm: LlmConfig,
    pub gitlab: GitlabConfig,
    pub limits: Limits,
    pub project: ProjectConfig,
    pub roles: Vec<Role>,
    pub sops: Vec<Sop>,
    pub model_routing: ModelRoutingConfig,
    pub report: ReportConfig,
    pub command: CommandConfig,
    pub read_file: ReadFileConfig,
    pub log_parser: LogParserConfig,
    pub summary: SummaryConfig,
    pub context: ContextConfig,
    pub ci: CiConfig,
}

impl Config {
    /// Loads the configuration from the environment values and `.devnpc.md`
    /// that the program read (environment > `.devnpc.md` > defaults).
    pub fn load(env: EnvValues, md: Result<ParsedDevnpcMd, DevnpcError>) -> (r: Result<Config, DevnpcError>)
        ensures
            match r {
                Ok(c) => load_succeeds(env, md) && match md {
                    Ok(p) => config_matches(c, env, p),
                    Err(_) => false,
                },
                Err(e) => !load_succeeds(env, md) && load_error(e, env, md),
            },
    {
        loader::load(env, md)
    }
}

/// LLM endpoint.
#[derive(Debug, Clone)]
pub struct LlmConfig {
    pub api_key: String,
    pub base_url: String,
    pub model: String,
    pub provider: String,
}

/// GitLab endpoint.
#[derive(Debug, Clone)]
pub struct GitlabConfig {
    pub url: String,
    pub token: String,
    pub project_id: u64,
}

/// Iteration limits.
#[derive(Debug, Clone)]
pub struct Limits {
    pub max_iterations: u32,
    pub max_ci_retries: u8,
}

impl Default for Limits {
    fn default() -> (r: Self)
        ensures
            r.max_iterations == 20,
            r.max_ci_retries == 3,
    {
        Limits { max_iterations: 20, max_ci_retries: 3 }
    }
}

/// How strictly an SOP is enforced.
#[derive(Debug, Clone, Copy, PartialEq, Eq, Structural)]
pub enum SopMode {
    /// Deviations are recorded and the run goes on.
    Soft,
    /// A deviation stops the run.
    Strict,
}

impl Default for SopMode {
    fn default() -> (r: Self)
        ensures
            r == SopMode::Soft,
    {
        SopMode::Soft
    }
}

/// Project rules read from `.devnpc.md`.
#[derive(Debug, Clone)]
pub struct ProjectConfig {
    pub sop_mode: SopMode,
    pub forbidden_paths: Vec<String>,
    pub required_checks: Vec<String>,
    pub branch_prefix: String,
    pub max_ci_retries: Option<u8>,
    pub guidelines_markdown: String,
}

impl Default for ProjectConfig {
    fn default() -> (r: Self)
        ensures
            r.sop_mode == SopMode::Soft,
            r.forbidden_paths@.len() == 0,
            r.required_checks@.len() == 0,
            r.branch_prefix@.len() == 0,
            r.max_ci_retries is None,
            r.guidelines_markdown@.len() == 0,
    {
        ProjectConfig {
            sop_mode: SopMode::Soft,
            forbidden_paths: Vec::new(),
            required_checks: Vec::new(),
            branch_prefix: String::new(),
            max_ci_retries: None,
            guidelines_markdown: String::new(),
        }
    }
}

/// Where the report goes.
#[derive(Debug, Clone)]
pub struct ReportConfig {
    pub target: ReportTarget,
}

/// Report destinations.
#[derive(Debug, Clone, Copy, PartialEq, Eq, Structural)]
pub enum ReportTarget {
    Artifact,
    Pages,
    Unpublished,
}

impl Default for ReportConfig {
    fn default() -> (r: Self)
        ensures
            r.target == ReportTarget::Artifact,
    {
        ReportConfig { target: ReportTarget::Artifact }
    }
}

/// Models per task complexity.
#[derive(Debug, Clone)]
pub struct ModelRoutingConfig {
    /// Model for simple tasks (Fix, Test).
    pub simple_model: String,
    /// Model for complex tasks (Implement, Refactor).
    pub complex_model: String,
}

impl Default for ModelRoutingConfig {
    fn default() -> (r: Self)
        ensures
            r.simple_model@.len() == 0,
            r.complex_model@.len() == 0,
    {
        ModelRoutingConfig { simple_model: String::new(), complex_model: String::new() }
    }
}

/// MCP gateway settings.
#[derive(Debug, Clone)]
pub struct McpConfig {
    pub enabled: bool,
    pub codemap_path: String,
    pub codemap_data_dir: String,
}

/// Long-term memory settings.
#[derive(Debug, Clone)]
pub struct MemoryConfig {
    pub enabled: bool,
    pub db_path: String,
}

/// Webhook server settings.
#[derive(Debug, Clone)]
pub struct WebhookConfig {
    pub enabled: bool,
    pub host: String,
    pub port: u16,
    pub secret: String,
    pub path: String,
}

impl Default for WebhookConfig {
    fn default() -> (r: Self)
        ensures
            !r.enabled,
            r.host@.len() == 0,
            r.port == 0,
            r.secret@.len() == 0,
            r.path@.len() == 0,
    {
        WebhookConfig {
            enabled: false,
            host: String::new(),
            port: 0,
            secret: String::new(),
            path: String::new(),
        }
    }
}

} // verus!
