//! Configuration loading: environment variables over `.devnpc.md` over
//! built-in defaults.
//!
//! The program reads the environment and the `.devnpc.md` file; this module
//! merges what was read. Required variables that are missing, and values that
//! do not parse, are reported as errors in a fixed order.

use vstd::prelude::*;

use crate::config::devnpc_md::{DevnpcMdFrontMatter, ParsedDevnpcMd};
use crate::config::{
    default_allowlist, default_allowlist_vec, default_denylist, default_denylist_vec,
    default_key_file_patterns, default_key_file_patterns_vec, CiConfig, CommandConfig, Config,
    ContextConfig, GitlabConfig, Limits, LlmConfig, LogParserConfig, ModelRoutingConfig,
    ProjectConfig, ReadFileConfig, ReportConfig, ReportTarget, SopMode, SummaryConfig,
};
use crate::error::DevnpcError;
use crate::text::{unsigned_digits, clone_strings, list_spec, parse_u64_str, parse_unsigned, split_list, str_eq, str_views};

verus! {

/// The values of the environment variables the configuration reads; `None`
/// for a variable that is not set. `model_routing` holds the outcome of
/// decoding `DEVNPC_MODEL_ROUTING` as JSON, which the program does.
#[derive(Debug, Clone)]
pub struct EnvValues {
    /// `DEVNPC_API_KEY`
    pub api_key: Option<String>,
    /// `DEVNPC_BASE_URL`
    pub base_url: Option<String>,
    /// `DEVNPC_MODEL`
    pub model: Option<String>,
    /// `GITLAB_URL`
    pub gitlab_url: Option<String>,
    /// `GITLAB_TOKEN`
    pub gitlab_token: Option<String>,
    /// `CI_PROJECT_ID`
    pub project_id: Option<String>,
    /// `DEVNPC_MAX_ITERATIONS`
    pub max_iterations: Option<String>,
    /// `DEVNPC_MAX_CI_RETRIES`
    pub max_ci_retries: Option<String>,
    /// `DEVNPC_SOP_MODE`: `soft` or `strict`
    pub sop_mode: Option<String>,
    /// `DEVNPC_REPORT_TARGET`: `artifact`, `pages` or `none`
    pub report_target: Option<String>,
    /// `DEVNPC_MODEL_ROUTING`, decoded
    pub model_routing: Option<Result<ModelRoutingConfig, DevnpcError>>,
    /// `DEVNPC_COMMAND_ALLOWLIST`: comma-separated
    pub command_allowlist: Option<String>,
    /// `DEVNPC_COMMAND_DENYLIST`: comma-separated
    pub command_denylist: Option<String>,
    /// `DEVNPC_DEFAULT_TIMEOUT_SECS`
    pub default_timeout_secs: Option<String>,
    /// `DEVNPC_READ_FILE_MAX_LINES`
    pub read_file_max_lines: Option<String>,
    /// `DEVNPC_LOG_PARSER_MAX_FAILURES`
    pub log_parser_max_failures: Option<String>,
    /// `DEVNPC_KEY_FILE_PATTERNS`: comma-separated
    pub key_file_patterns: Option<String>,
    /// `DEVNPC_SUMMARY_README_LINES`
    pub summary_readme_lines: Option<String>,
    /// `DEVNPC_SUMMARY_MAIN_RS_LINES`
    pub summary_main_rs_lines: Option<String>,
    /// `DEVNPC_SUMMARY_OTHER_LINES`
    pub summary_other_lines: Option<String>,
    /// `DEVNPC_CONTEXT_MAX_COMMITS`
    pub context_max_commits: Option<String>,
    /// `DEVNPC_CONTEXT_MAX_PIPELINES`
    pub context_max_pipelines: Option<String>,
    /// `DEVNPC_CONTEXT_MAX_CI_FAILURES`
    pub context_max_ci_failures: Option<String>,
    /// `DEVNPC_CI_POLL_INTERVAL_SECS`
    pub ci_poll_interval_secs: Option<String>,
    /// `DEVNPC_CI_POLL_TIMEOUT_SECS`
    pub ci_poll_timeout_secs: Option<String>,
    /// `DEVNPC_CI_PIPELINE_TIMEOUT_SECS`
    pub ci_pipeline_timeout_secs: Option<String>,
    /// `DEVNPC_CI_MAX_RETRIES`
    pub ci_max_retries: Option<String>,
}

// ───────────────────────── value parsing ─────────────────────────

/// An unsigned variable: `Some(None)` when unset, `Some(Some(n))` when it holds
/// a number up to `max`, `None` when it holds anything else.
pub open spec fn num_env(v: Option<Seq<char>>, max: u64) -> Option<Option<u64>> {
    match v {
        None => Some(None),
        Some(s) => match parse_unsigned(s, max as int) {
            Some(n) => Some(Some(n as u64)),
            None => None,
        },
    }
}

/// The number an unsigned variable holds, or `d` when it is unset.
pub open spec fn num_or(v: Option<Seq<char>>, max: u64, d: u64) -> u64 {
    match num_env(v, max) {
        Some(Some(n)) => n,
        _ => d,
    }
}

/// `DEVNPC_SOP_MODE`: `Some(None)` when unset, `None` when not `soft`/`strict`.
pub open spec fn sop_env(v: Option<Seq<char>>) -> Option<Option<SopMode>> {
    match v {
        None => Some(None),
        Some(s) => if s == "strict"@ {
            Some(Some(SopMode::Strict))
        } else if s == "soft"@ {
            Some(Some(SopMode::Soft))
        } else {
            None
        },
    }
}

/// `DEVNPC_REPORT_TARGET`: `Some(None)` when unset, `None` when not one of
/// `artifact`, `pages`, `none`.
pub open spec fn target_env(v: Option<Seq<char>>) -> Option<Option<ReportTarget>> {
    match v {
        None => Some(None),
        Some(s) => if s == "artifact"@ {
            Some(Some(ReportTarget::Artifact))
        } else if s == "pages"@ {
            Some(Some(ReportTarget::Pages))
        } else if s == "none"@ {
            Some(Some(ReportTarget::Unpublished))
        } else {
            None
        },
    }
}

/// The message of an invalid variable.
pub open spec fn invalid_env_msg(var: Seq<char>, ty: Seq<char>, value: Seq<char>) -> Seq<char> {
    "环境变量 "@ + var + " 不是有效 "@ + ty + ": "@ + value
}

/// `e` is a configuration error with message `msg`.
pub open spec fn is_config_error(e: DevnpcError, msg: Seq<char>) -> bool {
    e matches DevnpcError::Config(m) && m@ == msg
}

/// `e` reports the missing variable `var`.
pub open spec fn is_missing_env(e: DevnpcError, var: Seq<char>) -> bool {
    e matches DevnpcError::MissingEnv { var: v } && v@ == var
}

/// The value of a variable that is set.
pub open spec fn val(v: Option<String>) -> Seq<char> {
    match v {
        Some(s) => s@,
        None => Seq::empty(),
    }
}

// ───────────────────────── the merge ─────────────────────────

/// The SOP mode named in the front matter: `strict`, otherwise soft.
pub open spec fn sop_mode_of(s: Option<Seq<char>>) -> SopMode {
    match s {
        Some(v) => if v == "strict"@ {
            SopMode::Strict
        } else {
            SopMode::Soft
        },
        None => SopMode::Soft,
    }
}

/// A list of the front matter, empty when absent.
pub open spec fn list_or_empty(v: Option<Vec<String>>) -> Seq<Seq<char>> {
    match v {
        Some(l) => str_views(l@),
        None => Seq::empty(),
    }
}

/// The project rules that a front matter and a body give.
pub open spec fn project_matches(p: ProjectConfig, fm: DevnpcMdFrontMatter, guidelines: Seq<char>) -> bool {
    &&& p.sop_mode == sop_mode_of(fm.sop_mode.deep_view())
    &&& str_views(p.forbidden_paths@) == list_or_empty(fm.forbidden_paths)
    &&& str_views(p.required_checks@) == list_or_empty(fm.required_checks)
    &&& p.branch_prefix@ == match fm.branch_prefix {
        Some(b) => b@,
        None => "npc"@,
    }
    &&& p.max_ci_retries == fm.max_ci_retries
    &&& p.guidelines_markdown@ == guidelines
}

/// Whether every variable that is set parses, every required one is set, and
/// `.devnpc.md` was read.
pub open spec fn load_succeeds(env: EnvValues, md: Result<ParsedDevnpcMd, DevnpcError>) -> bool {
    &&& env.api_key is Some
    &&& env.base_url is Some
    &&& env.model is Some
    &&& env.gitlab_url is Some
    &&& env.gitlab_token is Some
    &&& env.project_id is Some
    &&& parse_unsigned(val(env.project_id), u64::MAX as int) is Some
    &&& md is Ok
    &&& num_env(env.max_iterations.deep_view(), u32::MAX as u64) is Some
    &&& num_env(env.max_ci_retries.deep_view(), u8::MAX as u64) is Some
    &&& sop_env(env.sop_mode.deep_view()) is Some
    &&& target_env(env.report_target.deep_view()) is Some
    &&& !(env.model_routing matches Some(Err(_)))
    &&& num_env(env.default_timeout_secs.deep_view(), u64::MAX) is Some
    &&& num_env(env.read_file_max_lines.deep_view(), usize::MAX as u64) is Some
    &&& num_env(env.log_parser_max_failures.deep_view(), usize::MAX as u64) is Some
    &&& num_env(env.summary_readme_lines.deep_view(), usize::MAX as u64) is Some
    &&& num_env(env.summary_main_rs_lines.deep_view(), usize::MAX as u64) is Some
    &&& num_env(env.summary_other_lines.deep_view(), usize::MAX as u64) is Some
    &&& num_env(env.context_max_commits.deep_view(), usize::MAX as u64) is Some
    &&& num_env(env.context_max_pipelines.deep_view(), usize::MAX as u64) is Some
    &&& num_env(env.context_max_ci_failures.deep_view(), usize::MAX as u64) is Some
    &&& num_env(env.ci_poll_interval_secs.deep_view(), u64::MAX) is Some
    &&& num_env(env.ci_poll_timeout_secs.deep_view(), u64::MAX) is Some
    &&& num_env(env.ci_pipeline_timeout_secs.deep_view(), u64::MAX) is Some
    &&& num_env(env.ci_max_retries.deep_view(), u8::MAX as u64) is Some
}

/// The error of a load that fails: the first failing check, in this order.
pub open spec fn load_error(e: DevnpcError, env: EnvValues, md: Result<ParsedDevnpcMd, DevnpcError>) -> bool {
    if env.api_key is None {
        is_missing_env(e, "DEVNPC_API_KEY"@)
    } else if env.base_url is None {
        is_missing_env(e, "DEVNPC_BASE_URL"@)
    } else if env.model is None {
        is_missing_env(e, "DEVNPC_MODEL"@)
    } else if env.gitlab_url is None {
        is_missing_env(e, "GITLAB_URL"@)
    } else if env.gitlab_token is None {
        is_missing_env(e, "GITLAB_TOKEN"@)
    } else if env.project_id is None {
        is_missing_env(e, "CI_PROJECT_ID"@)
    } else if parse_unsigned(val(env.project_id), u64::MAX as int) is None {
        is_config_error(e, invalid_env_msg("CI_PROJECT_ID"@, "u64"@, val(env.project_id)))
    } else if md is Err {
        md == Err::<ParsedDevnpcMd, DevnpcError>(e)
    } else if num_env(env.max_iterations.deep_view(), u32::MAX as u64) is None {
        is_config_error(e, invalid_env_msg("DEVNPC_MAX_ITERATIONS"@, "u32"@, val(env.max_iterations)))
    } else if num_env(env.max_ci_retries.deep_view(), u8::MAX as u64) is None {
        is_config_error(e, invalid_env_msg("DEVNPC_MAX_CI_RETRIES"@, "u8"@, val(env.max_ci_retries)))
    } else if sop_env(env.sop_mode.deep_view()) is None {
        is_config_error(e, invalid_env_msg("DEVNPC_SOP_MODE"@, "sop_mode"@, val(env.sop_mode)))
    } else if target_env(env.report_target.deep_view()) is None {
        is_config_error(e, invalid_env_msg("DEVNPC_REPORT_TARGET"@, "report_target"@, val(env.report_target)))
    } else if (match env.model_routing {
        Some(Err(_)) => true,
        _ => false,
    }) {
        env.model_routing == Some(Err::<ModelRoutingConfig, DevnpcError>(e))
    } else if num_env(env.default_timeout_secs.deep_view(), u64::MAX) is None {
        is_config_error(e, invalid_env_msg("DEVNPC_DEFAULT_TIMEOUT_SECS"@, "u64"@, val(env.default_timeout_secs)))
    } else if num_env(env.read_file_max_lines.deep_view(), usize::MAX as u64) is None {
        is_config_error(e, invalid_env_msg("DEVNPC_READ_FILE_MAX_LINES"@, "usize"@, val(env.read_file_max_lines)))
    } else if num_env(env.log_parser_max_failures.deep_view(), usize::MAX as u64) is None {
        is_config_error(e, invalid_env_msg("DEVNPC_LOG_PARSER_MAX_FAILURES"@, "usize"@, val(env.log_parser_max_failures)))
    } else if num_env(env.summary_readme_lines.deep_view(), usize::MAX as u64) is None {
        is_config_error(e, invalid_env_msg("DEVNPC_SUMMARY_README_LINES"@, "usize"@, val(env.summary_readme_lines)))
    } else if num_env(env.summary_main_rs_lines.deep_view(), usize::MAX as u64) is None {
        is_config_error(e, invalid_env_msg("DEVNPC_SUMMARY_MAIN_RS_LINES"@, "usize"@, val(env.summary_main_rs_lines)))
    } else if num_env(env.summary_other_lines.deep_view(), usize::MAX as u64) is None {
        is_config_error(e, invalid_env_msg("DEVNPC_SUMMARY_OTHER_LINES"@, "usize"@, val(env.summary_other_lines)))
    } else if num_env(env.context_max_commits.deep_view(), usize::MAX as u64) is None {
        is_config_error(e, invalid_env_msg("DEVNPC_CONTEXT_MAX_COMMITS"@, "usize"@, val(env.context_max_commits)))
    } else if num_env(env.context_max_pipelines.deep_view(), usize::MAX as u64) is None {
        is_config_error(e, invalid_env_msg("DEVNPC_CONTEXT_MAX_PIPELINES"@, "usize"@, val(env.context_max_pipelines)))
    } else if num_env(env.context_max_ci_failures.deep_view(), usize::MAX as u64) is None {
        is_config_error(e, invalid_env_msg("DEVNPC_CONTEXT_MAX_CI_FAILURES"@, "usize"@, val(env.context_max_ci_failures)))
    } else if num_env(env.ci_poll_interval_secs.deep_view(), u64::MAX) is None {
        is_config_error(e, invalid_env_msg("DEVNPC_CI_POLL_INTERVAL_SECS"@, "u64"@, val(env.ci_poll_interval_secs)))
    } else if num_env(env.ci_poll_timeout_secs.deep_view(), u64::MAX) is None {
        is_config_error(e, invalid_env_msg("DEVNPC_CI_POLL_TIMEOUT_SECS"@, "u64"@, val(env.ci_poll_timeout_secs)))
    } else if num_env(env.ci_pipeline_timeout_secs.deep_view(), u64::MAX) is None {
        is_config_error(e, invalid_env_msg("DEVNPC_CI_PIPELINE_TIMEOUT_SECS"@, "u64"@, val(env.ci_pipeline_timeout_secs)))
    } else {
        is_config_error(e, invalid_env_msg("DEVNPC_CI_MAX_RETRIES"@, "u8"@, val(env.ci_max_retries)))
    }
}

/// A command list: the configured items, or the built-in list when none are configured.
pub open spec fn command_list(own: Option<Seq<char>>, default: Seq<Seq<char>>) -> Seq<Seq<char>> {
    let mine = match own {
        Some(s) => list_spec(s),
        None => Seq::empty(),
    };
    if mine.len() == 0 {
        default
    } else {
        mine
    }
}

/// The configuration a successful load gives.
pub open spec fn config_matches(c: Config, env: EnvValues, md: ParsedDevnpcMd) -> bool {
    let fm = md.front_matter;
    &&& c.llm.api_key@ == val(env.api_key)
    &&& c.llm.base_url@ == val(env.base_url)
    &&& c.llm.model@ == val(env.model)
    &&& c.llm.provider@ == "deepseek"@
    &&& c.gitlab.url@ == val(env.gitlab_url)
    &&& c.gitlab.token@ == val(env.gitlab_token)
    &&& parse_unsigned(val(env.project_id), u64::MAX as int) == Some(c.gitlab.project_id as int)
    &&& c.limits.max_iterations == num_or(env.max_iterations.deep_view(), u32::MAX as u64, 20)
    &&& c.limits.max_ci_retries == match num_env(env.max_ci_retries.deep_view(), u8::MAX as u64) {
        Some(Some(n)) => n,
        _ => match fm.max_ci_retries {
            Some(n) => n as u64,
            None => 3,
        },
    }
    &&& str_views(c.project.forbidden_paths@) == list_or_empty(fm.forbidden_paths)
    &&& str_views(c.project.required_checks@) == list_or_empty(fm.required_checks)
    &&& c.project.branch_prefix@ == match fm.branch_prefix {
        Some(b) => b@,
        None => "npc"@,
    }
    &&& c.project.max_ci_retries == fm.max_ci_retries
    &&& c.project.guidelines_markdown@ == md.guidelines_markdown@
    &&& c.project.sop_mode == match sop_env(env.sop_mode.deep_view()) {
        Some(Some(m)) => m,
        _ => sop_mode_of(fm.sop_mode.deep_view()),
    }
    &&& c.report.target == match target_env(env.report_target.deep_view()) {
        Some(Some(t)) => t,
        _ => ReportTarget::Artifact,
    }
    &&& match env.model_routing {
        Some(Ok(m)) => c.model_routing.simple_model@ == m.simple_model@
            && c.model_routing.complex_model@ == m.complex_model@,
        _ => c.model_routing.simple_model@.len() == 0 && c.model_routing.complex_model@.len() == 0,
    }
    &&& str_views(c.command.allowlist@) == command_list(
        env.command_allowlist.deep_view(),
        default_allowlist(),
    )
    &&& str_views(c.command.denylist@) == command_list(
        env.command_denylist.deep_view(),
        default_denylist(),
    )
    &&& c.command.default_timeout_secs == num_or(env.default_timeout_secs.deep_view(), u64::MAX, 120)
    &&& c.read_file.max_lines == num_or(env.read_file_max_lines.deep_view(), usize::MAX as u64, 200)
    &&& c.log_parser.max_failures == num_or(env.log_parser_max_failures.deep_view(), usize::MAX as u64, 10)
    &&& str_views(c.summary.key_file_patterns@) == match env.key_file_patterns.deep_view() {
        Some(s) => if list_spec(s).len() > 0 {
            list_spec(s)
        } else {
            default_key_file_patterns()
        },
        None => default_key_file_patterns(),
    }
    &&& c.summary.readme_lines == num_or(env.summary_readme_lines.deep_view(), usize::MAX as u64, 30)
    &&& c.summary.main_rs_lines == num_or(env.summary_main_rs_lines.deep_view(), usize::MAX as u64, 50)
    &&& c.summary.other_lines == num_or(env.summary_other_lines.deep_view(), usize::MAX as u64, 20)
    &&& c.context.max_recent_commits == num_or(env.context_max_commits.deep_view(), usize::MAX as u64, 20)
    &&& c.context.max_recent_pipelines == num_or(env.context_max_pipelines.deep_view(), usize::MAX as u64, 5)
    &&& c.context.max_ci_history_failures == num_or(env.context_max_ci_failures.deep_view(), usize::MAX as u64, 5)
    &&& c.ci.poll_interval_secs == num_or(env.ci_poll_interval_secs.deep_view(), u64::MAX, 10)
    &&& c.ci.poll_timeout_secs == num_or(env.ci_poll_timeout_secs.deep_view(), u64::MAX, 300)
    &&& c.ci.pipeline_timeout_secs == num_or(env.ci_pipeline_timeout_secs.deep_view(), u64::MAX, 1800)
    &&& c.ci.max_retries == num_or(env.ci_max_retries.deep_view(), u8::MAX as u64, 3)
    &&& c.roles@.len() == 0
    &&& c.sops@.len() == 0
}

/// Environment over `.devnpc.md` over defaults: a loaded configuration takes
/// its retry limit and SOP mode from the environment when it sets them, else
/// from the front matter, else the defaults (3 retries, soft).
pub proof fn law_config_priority(c: Config, env: EnvValues, md: ParsedDevnpcMd)
    requires
        load_succeeds(env, Ok(md)),
        config_matches(c, env, md),
    ensures
        env.max_ci_retries is Some ==> parse_unsigned(val(env.max_ci_retries), u8::MAX as int) == Some(
            c.limits.max_ci_retries as int,
        ),
        env.max_ci_retries is None ==> c.limits.max_ci_retries == match md.front_matter.max_ci_retries {
            Some(n) => n,
            None => 3u8,
        },
        env.sop_mode is Some ==> (c.project.sop_mode == SopMode::Strict <==> val(env.sop_mode) == "strict"@),
        env.sop_mode is None ==> c.project.sop_mode == sop_mode_of(md.front_matter.sop_mode.deep_view()),
{
    if env.max_ci_retries is Some {
        let v = val(env.max_ci_retries);
        let d = unsigned_digits(v);
        assert(env.max_ci_retries.deep_view() == Some(v));
        crate::text::lemma_digits_value_nonneg(d);
    }
}

// ───────────────────────── exec ─────────────────────────

fn invalid_env(var: &str, ty: &str, value: &str) -> (e: DevnpcError)
    ensures
        is_config_error(e, invalid_env_msg(var@, ty@, value@)),
{
    let mut m = String::from_str("环境变量 ");
    m.append(var);
    m.append(" 不是有效 ");
    m.append(ty);
    m.append(": ");
    m.append(value);
    DevnpcError::Config(m)
}

fn required(value: &Option<String>, var: &str) -> (r: Result<String, DevnpcError>)
    ensures
        match r {
            Ok(s) => value is Some && s@ == val(*value),
            Err(e) => value is None && is_missing_env(e, var@),
        },
{
    match value {
        Some(s) => Ok(s.clone()),
        None => Err(DevnpcError::MissingEnv { var: String::from_str(var) }),
    }
}

fn env_number(value: &Option<String>, var: &str, ty: &str, max: u64) -> (r: Result<Option<u64>, DevnpcError>)
    ensures
        match r {
            Ok(o) => num_env(value.deep_view(), max) == Some(o) && match o {
                Some(n) => n <= max,
                None => true,
            },
            Err(e) => num_env(value.deep_view(), max) is None && is_config_error(
                e,
                invalid_env_msg(var@, ty@, val(*value)),
            ),
        },
{
    match value {
        None => Ok(None),
        Some(s) => match parse_u64_str(s.as_str()) {
            Some(n) => if n <= max {
                Ok(Some(n))
            } else {
                Err(invalid_env(var, ty, s.as_str()))
            },
            None => Err(invalid_env(var, ty, s.as_str())),
        },
    }
}

fn or_u64(o: Option<u64>, d: u64) -> (r: u64)
    ensures
        r == match o {
            Some(n) => n,
            None => d,
        },
{
    match o {
        Some(n) => n,
        None => d,
    }
}

fn env_sop_mode(value: &Option<String>) -> (r: Result<Option<SopMode>, DevnpcError>)
    ensures
        match r {
            Ok(o) => sop_env(value.deep_view()) == Some(o),
            Err(e) => sop_env(value.deep_view()) is None && is_config_error(
                e,
                invalid_env_msg("DEVNPC_SOP_MODE"@, "sop_mode"@, val(*value)),
            ),
        },
{
    match value {
        None => Ok(None),
        Some(s) => if str_eq(s.as_str(), "strict") {
            Ok(Some(SopMode::Strict))
        } else if str_eq(s.as_str(), "soft") {
            Ok(Some(SopMode::Soft))
        } else {
            Err(invalid_env("DEVNPC_SOP_MODE", "sop_mode", s.as_str()))
        },
    }
}

fn env_report_target(value: &Option<String>) -> (r: Result<Option<ReportTarget>, DevnpcError>)
    ensures
        match r {
            Ok(o) => target_env(value.deep_view()) == Some(o),
            Err(e) => target_env(value.deep_view()) is None && is_config_error(
                e,
                invalid_env_msg("DEVNPC_REPORT_TARGET"@, "report_target"@, val(*value)),
            ),
        },
{
    match value {
        None => Ok(None),
        Some(s) => if str_eq(s.as_str(), "artifact") {
            Ok(Some(ReportTarget::Artifact))
        } else if str_eq(s.as_str(), "pages") {
            Ok(Some(ReportTarget::Pages))
        } else if str_eq(s.as_str(), "none") {
            Ok(Some(ReportTarget::Unpublished))
        } else {
            Err(invalid_env("DEVNPC_REPORT_TARGET", "report_target", s.as_str()))
        },
    }
}

fn env_list(value: &Option<String>) -> (r: Vec<String>)
    ensures
        str_views(r@) == match value.deep_view() {
            Some(s) => list_spec(s),
            None => Seq::empty(),
        },
{
    match value {
        Some(s) => split_list(s.as_str()),
        None => {
            let v: Vec<String> = Vec::new();
            assert(str_views(v@) =~= Seq::<Seq<char>>::empty());
            v
        },
    }
}

/// Project rules from a `.devnpc.md` front matter: unset lists are empty, the
/// branch prefix defaults to `npc`, and only `strict` makes the SOP mode strict.
pub fn project_config_from_front_matter(fm: &DevnpcMdFrontMatter, guidelines: String) -> (r: ProjectConfig)
    ensures
        project_matches(r, *fm, guidelines@),
{
    let sop_mode = match &fm.sop_mode {
        Some(s) => if str_eq(s.as_str(), "strict") {
            SopMode::Strict
        } else {
            SopMode::Soft
        },
        None => SopMode::Soft,
    };
    let forbidden_paths = match &fm.forbidden_paths {
        Some(v) => clone_strings(v),
        None => {
            let v: Vec<String> = Vec::new();
            assert(str_views(v@) =~= Seq::<Seq<char>>::empty());
            v
        },
    };
    let required_checks = match &fm.required_checks {
        Some(v) => clone_strings(v),
        None => {
            let v: Vec<String> = Vec::new();
            assert(str_views(v@) =~= Seq::<Seq<char>>::empty());
            v
        },
    };
    let branch_prefix = match &fm.branch_prefix {
        Some(b) => b.clone(),
        None => String::from_str("npc"),
    };
    ProjectConfig {
        sop_mode,
        forbidden_paths,
        required_checks,
        branch_prefix,
        max_ci_retries: fm.max_ci_retries,
        guidelines_markdown: guidelines,
    }
}

/// Merges the environment and `.devnpc.md` into a configuration.
///
/// Environment values override the front matter, which overrides the
/// built-in defaults. The required variables are checked first, in order,
/// then `CI_PROJECT_ID` must be a `u64`, then `.devnpc.md` must have been
/// read, then each optional variable that is set must parse.
pub fn load(env: EnvValues, md: Result<ParsedDevnpcMd, DevnpcError>) -> (r: Result<Config, DevnpcError>)
    ensures
        match r {
            Ok(c) => load_succeeds(env, md) && match md {
                Ok(p) => config_matches(c, env, p),
                Err(_) => false,
            },
            Err(e) => !load_succeeds(env, md) && load_error(e, env, md),
        },
{
    // 1. required variables
    let api_key = match required(&env.api_key, "DEVNPC_API_KEY") {
        Ok(s) => s,
        Err(e) => return Err(e),
    };
    let base_url = match required(&env.base_url, "DEVNPC_BASE_URL") {
        Ok(s) => s,
        Err(e) => return Err(e),
    };
    let model = match required(&env.model, "DEVNPC_MODEL") {
        Ok(s) => s,
        Err(e) => return Err(e),
    };
    let gitlab_url = match required(&env.gitlab_url, "GITLAB_URL") {
        Ok(s) => s,
        Err(e) => return Err(e),
    };
    let gitlab_token = match required(&env.gitlab_token, "GITLAB_TOKEN") {
        Ok(s) => s,
        Err(e) => return Err(e),
    };
    let project_id_str = match required(&env.project_id, "CI_PROJECT_ID") {
        Ok(s) => s,
        Err(e) => return Err(e),
    };
    let project_id = match parse_u64_str(project_id_str.as_str()) {
        Some(n) => n,
        None => return Err(invalid_env("CI_PROJECT_ID", "u64", project_id_str.as_str())),
    };

    // 2. .devnpc.md
    let parsed = match md {
        Ok(p) => p,
        Err(e) => return Err(e),
    };
    let md_retries = parsed.front_matter.max_ci_retries;
    let mut project = project_config_from_front_matter(&parsed.front_matter, parsed.guidelines_markdown);

    // 3. optional variables, over .devnpc.md
    let max_iterations = match env_number(&env.max_iterations, "DEVNPC_MAX_ITERATIONS", "u32", u32::MAX as u64) {
        Ok(o) => or_u64(o, 20) as u32,
        Err(e) => return Err(e),
    };
    let max_ci_retries = match env_number(&env.max_ci_retries, "DEVNPC_MAX_CI_RETRIES", "u8", u8::MAX as u64) {
        Ok(Some(n)) => n as u8,
        Ok(None) => match md_retries {
            Some(n) => n,
            None => 3,
        },
        Err(e) => return Err(e),
    };
    match env_sop_mode(&env.sop_mode) {
        Ok(Some(m)) => {
            project.sop_mode = m;
        },
        Ok(None) => {},
        Err(e) => return Err(e),
    }
    let report_target = match env_report_target(&env.report_target) {
        Ok(Some(t)) => t,
        Ok(None) => ReportTarget::Artifact,
        Err(e) => return Err(e),
    };
    let model_routing = match env.model_routing {
        Some(Ok(m)) => m,
        Some(Err(e)) => return Err(e),
        None => ModelRoutingConfig::default(),
    };

    // 4. centralised settings
    let allow = env_list(&env.command_allowlist);
    let deny = env_list(&env.command_denylist);
    let default_timeout_secs = match env_number(&env.default_timeout_secs, "DEVNPC_DEFAULT_TIMEOUT_SECS", "u64", u64::MAX) {
        Ok(o) => or_u64(o, 120),
        Err(e) => return Err(e),
    };
    let command = CommandConfig {
        allowlist: if allow.len() == 0 {
            default_allowlist_vec()
        } else {
            allow
        },
        denylist: if deny.len() == 0 {
            default_denylist_vec()
        } else {
            deny
        },
        default_timeout_secs,
    };
    let max_lines = match env_number(&env.read_file_max_lines, "DEVNPC_READ_FILE_MAX_LINES", "usize", usize::MAX as u64) {
        Ok(o) => or_u64(o, 200) as usize,
        Err(e) => return Err(e),
    };
    let max_failures = match env_number(&env.log_parser_max_failures, "DEVNPC_LOG_PARSER_MAX_FAILURES", "usize", usize::MAX as u64) {
        Ok(o) => or_u64(o, 10) as usize,
        Err(e) => return Err(e),
    };
    let patterns = env_list(&env.key_file_patterns);
    let key_file_patterns = if patterns.len() == 0 {
        default_key_file_patterns_vec()
    } else {
        patterns
    };
    assert(str_views(key_file_patterns@) == match env.key_file_patterns.deep_view() {
        Some(s) => if list_spec(s).len() > 0 {
            list_spec(s)
        } else {
            default_key_file_patterns()
        },
        None => default_key_file_patterns(),
    });
    let readme_lines = match env_number(&env.summary_readme_lines, "DEVNPC_SUMMARY_README_LINES", "usize", usize::MAX as u64) {
        Ok(o) => or_u64(o, 30) as usize,
        Err(e) => return Err(e),
    };
    let main_rs_lines = match env_number(&env.summary_main_rs_lines, "DEVNPC_SUMMARY_MAIN_RS_LINES", "usize", usize::MAX as u64) {
        Ok(o) => or_u64(o, 50) as usize,
        Err(e) => return Err(e),
    };
    let other_lines = match env_number(&env.summary_other_lines, "DEVNPC_SUMMARY_OTHER_LINES", "usize", usize::MAX as u64) {
        Ok(o) => or_u64(o, 20) as usize,
        Err(e) => return Err(e),
    };
    let max_recent_commits = match env_number(&env.context_max_commits, "DEVNPC_CONTEXT_MAX_COMMITS", "usize", usize::MAX as u64) {
        Ok(o) => or_u64(o, 20) as usize,
        Err(e) => return Err(e),
    };
    let max_recent_pipelines = match env_number(&env.context_max_pipelines, "DEVNPC_CONTEXT_MAX_PIPELINES", "usize", usize::MAX as u64) {
        Ok(o) => or_u64(o, 5) as usize,
        Err(e) => return Err(e),
    };
    let max_ci_history_failures = match env_number(&env.context_max_ci_failures, "DEVNPC_CONTEXT_MAX_CI_FAILURES", "usize", usize::MAX as u64) {
        Ok(o) => or_u64(o, 5) as usize,
        Err(e) => return Err(e),
    };
    let poll_interval_secs = match env_number(&env.ci_poll_interval_secs, "DEVNPC_CI_POLL_INTERVAL_SECS", "u64", u64::MAX) {
        Ok(o) => or_u64(o, 10),
        Err(e) => return Err(e),
    };
    let poll_timeout_secs = match env_number(&env.ci_poll_timeout_secs, "DEVNPC_CI_POLL_TIMEOUT_SECS", "u64", u64::MAX) {
        Ok(o) => or_u64(o, 300),
        Err(e) => return Err(e),
    };
    let pipeline_timeout_secs = match env_number(&env.ci_pipeline_timeout_secs, "DEVNPC_CI_PIPELINE_TIMEOUT_SECS", "u64", u64::MAX) {
        Ok(o) => or_u64(o, 1800),
        Err(e) => return Err(e),
    };
    let max_retries = match env_number(&env.ci_max_retries, "DEVNPC_CI_MAX_RETRIES", "u8", u8::MAX as u64) {
        Ok(o) => or_u64(o, 3) as u8,
        Err(e) => return Err(e),
    };

    Ok(Config {
        llm: LlmConfig { api_key, base_url, model, provider: String::from_str("deepseek") },
        gitlab: GitlabConfig { url: gitlab_url, token: gitlab_token, project_id },
        limits: Limits { max_iterations, max_ci_retries },
        project,
        roles: Vec::new(),
        sops: Vec::new(),
        model_routing,
        report: ReportConfig { target: report_target },
        command,
        read_file: ReadFileConfig { max_lines },
        log_parser: LogParserConfig { max_failures },
        summary: SummaryConfig { key_file_patterns, readme_lines, main_rs_lines, other_lines },
        context: ContextConfig { max_recent_commits, max_recent_pipelines, max_ci_history_failures },
        ci: CiConfig { poll_interval_secs, poll_timeout_secs, pipeline_timeout_secs, max_retries },
    })
}

} // verus!
