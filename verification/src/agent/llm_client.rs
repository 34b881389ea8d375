//! Model routing and the parts of an LLM call that are decisions: the
//! endpoint, the model, and what an error answer becomes. The HTTP call
//! itself is made by the program around the library.

use vstd::prelude::*;

use crate::config::ModelRoutingConfig;
use crate::error::DevnpcError;
use crate::gitlab_api::client::trim_slashes;
use crate::text::{chars_of, contains_spec, dec_spec, dec_string, lowercase_of, str_contains, string_of, sub_chars, to_lowercase};

verus! {

/// Kinds of task, for model routing.
#[derive(Debug, Clone, Copy, PartialEq, Eq, Structural)]
pub enum TaskKind {
    Fix,
    Test,
    Implement,
    Refactor,
    Unknown,
}

/// The kind of task a lowercased goal names: the first group of keywords found decides.
pub open spec fn goal_kind(lower: Seq<char>) -> TaskKind {
    if contains_spec(lower, "fix"@) || contains_spec(lower, "bug"@) || contains_spec(lower, "修复"@)
        || contains_spec(lower, "hotfix"@) {
        TaskKind::Fix
    } else if contains_spec(lower, "test"@) || contains_spec(lower, "测试"@) || contains_spec(lower, "unit"@)
        || contains_spec(lower, "集成"@) {
        TaskKind::Test
    } else if contains_spec(lower, "refactor"@) || contains_spec(lower, "重构"@) || contains_spec(
        lower,
        "优化"@,
    ) {
        TaskKind::Refactor
    } else if contains_spec(lower, "implement"@) || contains_spec(lower, "实现"@) || contains_spec(
        lower,
        "feature"@,
    ) || contains_spec(lower, "add"@) || contains_spec(lower, "新增"@) {
        TaskKind::Implement
    } else {
        TaskKind::Unknown
    }
}

impl TaskKind {
    /// The kind of task named by an already lowercased goal.
    pub fn from_lowered_goal(lower: &str) -> (k: TaskKind)
        ensures
            k == goal_kind(lower@),
    {
        if str_contains(lower, "fix") || str_contains(lower, "bug") || str_contains(lower, "修复")
            || str_contains(lower, "hotfix") {
            TaskKind::Fix
        } else if str_contains(lower, "test") || str_contains(lower, "测试") || str_contains(lower, "unit")
            || str_contains(lower, "集成") {
            TaskKind::Test
        } else if str_contains(lower, "refactor") || str_contains(lower, "重构") || str_contains(lower, "优化") {
            TaskKind::Refactor
        } else if str_contains(lower, "implement") || str_contains(lower, "实现") || str_contains(
            lower,
            "feature",
        ) || str_contains(lower, "add") || str_contains(lower, "新增") {
            TaskKind::Implement
        } else {
            TaskKind::Unknown
        }
    }

    /// The kind of task a goal describes, matched case-insensitively.
    pub fn from_goal(goal: &str) -> (k: TaskKind)
        ensures
            k == goal_kind(lowercase_of(goal@)),
    {
        let lower = to_lowercase(goal);
        TaskKind::from_lowered_goal(lower.as_str())
    }
}

/// Chooses a model by task kind: simple tasks (fix, test) get the simple
/// model, the others the complex one.
#[derive(Debug, Clone)]
pub struct ModelRouter {
    pub simple_model: String,
    pub complex_model: String,
}

/// The model for a task kind: none when routing is not configured; for a
/// simple task the simple model, or the complex one when only it is set;
/// for any other task the complex model.
pub open spec fn route(simple: Seq<char>, complex: Seq<char>, kind: TaskKind) -> Option<Seq<char>> {
    if simple.len() == 0 && complex.len() == 0 {
        None
    } else {
        match kind {
            TaskKind::Fix | TaskKind::Test => if simple.len() == 0 {
                Some(complex)
            } else {
                Some(simple)
            },
            _ => Some(complex),
        }
    }
}

impl ModelRouter {
    /// A router with the configured models.
    pub fn new(config: &ModelRoutingConfig) -> (r: Self)
        ensures
            r.simple_model@ == config.simple_model@,
            r.complex_model@ == config.complex_model@,
    {
        ModelRouter { simple_model: config.simple_model.clone(), complex_model: config.complex_model.clone() }
    }

    /// The model for a task kind, or `None` for the default model.
    pub fn select_model(&self, kind: &TaskKind) -> (r: Option<&str>)
        ensures
            match r {
                Some(m) => route(self.simple_model@, self.complex_model@, *kind) == Some(m@),
                None => route(self.simple_model@, self.complex_model@, *kind) is None,
            },
    {
        if self.simple_model.as_str().is_empty() && self.complex_model.as_str().is_empty() {
            return None;
        }
        match kind {
            TaskKind::Fix | TaskKind::Test => {
                if self.simple_model.as_str().is_empty() {
                    Some(self.complex_model.as_str())
                } else {
                    Some(self.simple_model.as_str())
                }
            },
            _ => Some(self.complex_model.as_str()),
        }
    }
}

/// The model a call uses: the routed one when a router and a task kind are
/// given and routing chooses one, otherwise the default.
pub fn call_model(default_model: &str, router: Option<&ModelRouter>, kind: Option<&TaskKind>) -> (r: String)
    ensures
        r@ == match (router, kind) {
            (Some(rt), Some(k)) => match route(rt.simple_model@, rt.complex_model@, *k) {
                Some(m) => m,
                None => default_model@,
            },
            _ => default_model@,
        },
{
    match (router, kind) {
        (Some(rt), Some(k)) => match rt.select_model(k) {
            Some(m) => String::from_str(m),
            None => String::from_str(default_model),
        },
        _ => String::from_str(default_model),
    }
}

/// The Chat Completions endpoint of a base URL: `<base without trailing slashes>/chat/completions`.
pub fn chat_url(base_url: &str) -> (r: String)
    ensures
        r@ == trim_slashes(base_url@) + "/chat/completions"@,
{
    let v = chars_of(base_url);
    let mut n: usize = v.len();
    assert(v@.subrange(0, n as int) =~= v@);
    while n > 0 && v[n - 1] == '/'
        invariant
            n <= v.len(),
            trim_slashes(v@.subrange(0, n as int)) == trim_slashes(v@),
        decreases n,
    {
        assert(v@.subrange(0, n as int).drop_last() =~= v@.subrange(0, n - 1));
        n = n - 1;
    }
    let t = sub_chars(v.as_slice(), 0, n);
    let mut s = string_of(t.as_slice());
    s.append("/chat/completions");
    s
}

/// The error for an LLM answer outside 200–299: its status and body.
pub fn llm_status_error(status: u16, body: &str) -> (e: DevnpcError)
    ensures
        e matches DevnpcError::Llm(m) && m@ == "LLM API 错误: "@ + dec_spec(status as nat) + " "@ + body@,
{
    let mut m = String::from_str("LLM API 错误: ");
    let d = dec_string(status as u64);
    m.append(d.as_str());
    m.append(" ");
    m.append(body);
    DevnpcError::Llm(m)
}

/// The error for an answer without choices.
pub fn empty_choices_error() -> (e: DevnpcError)
    ensures
        e matches DevnpcError::Llm(m) && m@ == "LLM 返回 choices 为空"@,
{
    DevnpcError::Llm(String::from_str("LLM 返回 choices 为空"))
}

} // verus!
