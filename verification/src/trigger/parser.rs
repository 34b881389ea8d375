//! Trigger parsing: finds an `@devnpc` mention in a comment and turns the text
//! after it into a task.

use vstd::prelude::*;

use crate::pattern::{capture, capture_spec};
use crate::text::{
    lowercase_of, parse_u64_str, parse_unsigned, str_contains, contains_spec, to_lowercase,
    trim_spec, trim_str,
};

verus! {

/// Pattern of a mention: `@devnpc`, blanks, then the rest of the line.
pub const MENTION_RE: &'static str = r"@devnpc\s*(.*)";

/// Pattern of an issue reference such as `#42`.
pub const ISSUE_RE: &'static str = r"#(\d+)";

/// Where a task came from.
#[derive(Debug, Clone)]
pub enum Trigger {
    IssueTask { issue_iid: u64, task: TaskSpec },
    MrTask { mr_iid: u64, task: TaskSpec },
    Manual { task: TaskSpec },
    NoTask,
}

/// A task to carry out.
#[derive(Debug, Clone)]
pub struct TaskSpec {
    pub kind: TaskKind,
    pub description: String,
    pub target_issue: Option<u64>,
    pub acceptance_criteria: Vec<String>,
}

/// Kinds of task.
#[derive(Debug, Clone, Copy, PartialEq, Eq, Structural)]
pub enum TaskKind {
    Implement,
    Fix,
    Test,
    Refactor,
    Review,
}

/// A task as plain values.
pub struct TaskSpecView {
    pub kind: TaskKind,
    pub description: Seq<char>,
    pub target_issue: Option<u64>,
    pub acceptance_criteria: Seq<Seq<char>>,
}

impl View for TaskSpec {
    type V = TaskSpecView;

    open spec fn view(&self) -> TaskSpecView {
        TaskSpecView {
            kind: self.kind,
            description: self.description@,
            target_issue: self.target_issue,
            acceptance_criteria: self.acceptance_criteria@.map_values(|s: String| s@),
        }
    }
}

/// The kind of task named by already lowercased text: the first group of
/// keywords found decides (fix, then test, then refactor, then review).
pub open spec fn classify_spec(lower: Seq<char>) -> TaskKind {
    if contains_spec(lower, "修复"@) || contains_spec(lower, "fix"@) || contains_spec(lower, "bug"@) {
        TaskKind::Fix
    } else if contains_spec(lower, "测试"@) || contains_spec(lower, "test"@) {
        TaskKind::Test
    } else if contains_spec(lower, "重构"@) || contains_spec(lower, "refactor"@) {
        TaskKind::Refactor
    } else if contains_spec(lower, "review"@) {
        TaskKind::Review
    } else {
        TaskKind::Implement
    }
}

/// `u64::from_str` on an optional capture.
pub open spec fn opt_u64(o: Option<Seq<char>>) -> Option<u64> {
    match o {
        Some(s) => match parse_unsigned(s, u64::MAX as int) {
            Some(v) => Some(v as u64),
            None => None,
        },
        None => None,
    }
}

/// The task that the (trimmed, non-empty) text of a mention describes.
pub open spec fn task_from_text(text: Seq<char>) -> TaskSpecView {
    TaskSpecView {
        kind: classify_spec(lowercase_of(text)),
        description: text,
        target_issue: opt_u64(capture_spec(ISSUE_RE@, text, 1)),
        acceptance_criteria: Seq::empty(),
    }
}

/// The task of a comment: the trimmed text after `@devnpc`, if there is a
/// mention and that text is not empty.
pub open spec fn mention_spec(body: Seq<char>) -> Option<TaskSpecView> {
    match capture_spec(MENTION_RE@, body, 1) {
        Some(rest) => {
            let text = trim_spec(rest);
            if text.len() == 0 {
                None
            } else {
                Some(task_from_text(text))
            }
        },
        None => None,
    }
}

/// Each keyword names its kind on its own: `修复`, `fix` and `bug` each make a
/// fix; without those, `测试` or `test` make a test; then `重构` or `refactor`
/// a refactoring; then `review` a review. Only text with none of them is an
/// implementation.
pub proof fn law_classify_keywords(lower: Seq<char>)
    ensures
        contains_spec(lower, "修复"@) ==> classify_spec(lower) == TaskKind::Fix,
        contains_spec(lower, "fix"@) ==> classify_spec(lower) == TaskKind::Fix,
        contains_spec(lower, "bug"@) ==> classify_spec(lower) == TaskKind::Fix,
        classify_spec(lower) != TaskKind::Fix ==> (contains_spec(lower, "测试"@) ==> classify_spec(lower) == TaskKind::Test),
        classify_spec(lower) != TaskKind::Fix ==> (contains_spec(lower, "test"@) ==> classify_spec(lower) == TaskKind::Test),
        classify_spec(lower) == TaskKind::Implement <==> !contains_spec(lower, "修复"@) && !contains_spec(lower, "fix"@)
            && !contains_spec(lower, "bug"@) && !contains_spec(lower, "测试"@) && !contains_spec(lower, "test"@)
            && !contains_spec(lower, "重构"@) && !contains_spec(lower, "refactor"@) && !contains_spec(lower, "review"@),
        classify_spec(lower) == TaskKind::Review ==> contains_spec(lower, "review"@),
        classify_spec(lower) == TaskKind::Refactor ==> contains_spec(lower, "重构"@) || contains_spec(lower, "refactor"@),
{
}

/// The kind of task named by text that is already lowercase.
pub fn classify_lowered(lower: &str) -> (k: TaskKind)
    ensures
        k == classify_spec(lower@),
{
    if str_contains(lower, "修复") || str_contains(lower, "fix") || str_contains(lower, "bug") {
        TaskKind::Fix
    } else if str_contains(lower, "测试") || str_contains(lower, "test") {
        TaskKind::Test
    } else if str_contains(lower, "重构") || str_contains(lower, "refactor") {
        TaskKind::Refactor
    } else if str_contains(lower, "review") {
        TaskKind::Review
    } else {
        TaskKind::Implement
    }
}

/// The kind of task named by `text`, matched case-insensitively.
pub fn classify_task(text: &str) -> (k: TaskKind)
    ensures
        k == classify_spec(lowercase_of(text@)),
{
    let lower = to_lowercase(text);
    classify_lowered(lower.as_str())
}

/// The issue number referenced as `#N` in `text`, when it fits in a `u64`.
pub fn issue_reference(text: &str) -> (r: Option<u64>)
    ensures
        r == opt_u64(capture_spec(ISSUE_RE@, text@, 1)),
{
    match capture(ISSUE_RE, text, 1) {
        Some(digits) => {
            let p = parse_u64_str(digits.as_str());
            match p {
                Some(v) => Some(v),
                None => None,
            }
        },
        None => None,
    }
}

/// Finds an `@devnpc` mention in a comment and turns the text after it into a task.
pub fn parse_mention(body: &str) -> (r: Option<TaskSpec>)
    ensures
        match r {
            Some(t) => mention_spec(body@) == Some(t@),
            None => mention_spec(body@) is None,
        },
{
    match capture(MENTION_RE, body, 1) {
        Some(rest) => {
            let text = trim_str(rest.as_str());
            if text.as_str().is_empty() {
                None
            } else {
                let kind = classify_task(text.as_str());
                let target_issue = issue_reference(text.as_str());
                let acceptance_criteria: Vec<String> = Vec::new();
                let t = TaskSpec { kind, description: text, target_issue, acceptance_criteria };
                assert(t@.acceptance_criteria =~= Seq::<Seq<char>>::empty());
                Some(t)
            }
        },
        None => None,
    }
}

/// The task given by hand: its kind from its text, no issue, no criteria.
pub fn manual_task(text: &str) -> (r: TaskSpec)
    ensures
        r.kind == classify_spec(lowercase_of(text@)),
        r.description@ == text@,
        r.target_issue is None,
        r.acceptance_criteria@.len() == 0,
{
    TaskSpec {
        kind: classify_task(text),
        description: String::from_str(text),
        target_issue: None,
        acceptance_criteria: Vec::new(),
    }
}

/// The position of the newest comment, among the first `n`, that holds a task.
pub open spec fn newest_mention(bodies: Seq<Seq<char>>, n: int) -> Option<int>
    decreases n,
{
    if n <= 0 {
        None
    } else if mention_spec(bodies[n - 1]) is Some {
        Some(n - 1)
    } else {
        newest_mention(bodies, n - 1)
    }
}

/// The task of the newest comment that mentions `@devnpc` with some text,
/// looking from the last comment back.
pub fn latest_mention(bodies: &Vec<String>) -> (r: Option<TaskSpec>)
    ensures
        match newest_mention(bodies@.map_values(|b: String| b@), bodies@.len() as int) {
            Some(k) => r matches Some(t) && mention_spec(bodies@[k]@) == Some(t@),
            None => r is None,
        },
{
    let ghost bv = bodies@.map_values(|b: String| b@);
    let mut n: usize = bodies.len();
    while n > 0
        invariant
            n <= bodies.len(),
            bv == bodies@.map_values(|b: String| b@),
            newest_mention(bv, n as int) == newest_mention(bv, bodies@.len() as int),
        decreases n,
    {
        assert(bv[n - 1] == bodies@[n - 1]@);
        match parse_mention(bodies[n - 1].as_str()) {
            Some(t) => {
                return Some(t);
            },
            None => {},
        }
        n = n - 1;
    }
    None
}

} // verus!
