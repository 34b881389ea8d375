//! The single-agent runner: the branch it works on and the summary it reports.
//!
//! The run itself (checking out the branch, the ReAct loop, committing and
//! pushing) is carried out by the program around the library.

use vstd::prelude::*;

use crate::agent::loop_::{RunResult, Trajectory};
use crate::npc::role::Role;
use crate::text::{
    alphanumeric, byte_len, char_len_utf8, chars_of, debug_list, debug_list_of, is_alphanumeric,
    lemma_byte_len_bounds, lowercase_of, string_of, str_views, sub_chars, to_lowercase, utf8_len,
};

verus! {

/// What a run of an agent gives.
#[derive(Debug, Clone)]
pub struct NpcResult {
    pub summary: String,
    pub trajectory: Trajectory,
    pub branch: String,
}

/// Runs tasks in one role.
#[derive(Debug, Clone)]
pub struct NpcRunner {
    pub role: Role,
}

impl NpcRunner {
    /// A runner for `role`.
    pub fn new(role: Role) -> (r: Self)
        ensures
            r.role == role,
    {
        NpcRunner { role }
    }
}

// ───────────────────────── slugs ─────────────────────────

/// Letters, digits, `-`, `_` and `.` stay; anything else becomes `-`.
pub open spec fn slug_char(c: char) -> char {
    if alphanumeric(c) || c == '-' || c == '_' || c == '.' {
        c
    } else {
        '-'
    }
}

/// Runs of `-` collapsed to one.
pub open spec fn collapse_hyphens(s: Seq<char>) -> Seq<char>
    decreases s.len(),
{
    if s.len() == 0 {
        Seq::empty()
    } else {
        let r = collapse_hyphens(s.drop_last());
        if s.last() == '-' && r.len() > 0 && r.last() == '-' {
            r
        } else {
            r.push(s.last())
        }
    }
}

/// `s` without leading `-`.
pub open spec fn trim_leading_hyphens(s: Seq<char>) -> Seq<char>
    decreases s.len(),
{
    if s.len() > 0 && s[0] == '-' {
        trim_leading_hyphens(s.drop_first())
    } else {
        s
    }
}

/// `s` without trailing `-`.
pub open spec fn trim_trailing_hyphens(s: Seq<char>) -> Seq<char>
    decreases s.len(),
{
    if s.len() > 0 && s.last() == '-' {
        trim_trailing_hyphens(s.drop_last())
    } else {
        s
    }
}

/// The slug before truncation and case folding.
pub open spec fn slug_base(text: Seq<char>) -> Seq<char> {
    trim_trailing_hyphens(trim_leading_hyphens(collapse_hyphens(text.map_values(|c: char| slug_char(c)))))
}

/// No two neighbours are both `-`.
pub open spec fn no_hyphen_run(s: Seq<char>) -> bool {
    forall|i: int| #![trigger s[i]] 0 <= i < s.len() - 1 ==> !(s[i] == '-' && s[i + 1] == '-')
}

proof fn lemma_collapse_no_run(s: Seq<char>)
    ensures
        no_hyphen_run(collapse_hyphens(s)),
    decreases s.len(),
{
    if s.len() > 0 {
        lemma_collapse_no_run(s.drop_last());
        let r = collapse_hyphens(s.drop_last());
        let c = collapse_hyphens(s);
        if !(s.last() == '-' && r.len() > 0 && r.last() == '-') {
            assert forall|i: int| #![trigger c[i]] 0 <= i < c.len() - 1 implies !(c[i] == '-' && c[i + 1] == '-') by {
                if i < r.len() - 1 {
                    assert(c[i] == r[i] && c[i + 1] == r[i + 1]);
                } else {
                    assert(c[i] == r.last() && c[i + 1] == s.last());
                }
            }
        }
    }
}

proof fn lemma_trim_leading(s: Seq<char>)
    ensures
        trim_leading_hyphens(s).len() <= s.len(),
        trim_leading_hyphens(s) == s.subrange(s.len() - trim_leading_hyphens(s).len(), s.len() as int),
        trim_leading_hyphens(s).len() > 0 ==> trim_leading_hyphens(s)[0] != '-',
    decreases s.len(),
{
    if s.len() > 0 && s[0] == '-' {
        lemma_trim_leading(s.drop_first());
        let t = trim_leading_hyphens(s.drop_first());
        assert(s.drop_first().subrange(s.drop_first().len() - t.len(), s.drop_first().len() as int) =~= s.subrange(
            s.len() - t.len(),
            s.len() as int,
        ));
    } else {
        assert(s.subrange(0, s.len() as int) =~= s);
    }
}

proof fn lemma_trim_trailing(s: Seq<char>)
    ensures
        trim_trailing_hyphens(s).len() <= s.len(),
        trim_trailing_hyphens(s) == s.take(trim_trailing_hyphens(s).len() as int),
        trim_trailing_hyphens(s).len() > 0 ==> trim_trailing_hyphens(s).last() != '-',
    decreases s.len(),
{
    if s.len() > 0 && s.last() == '-' {
        lemma_trim_trailing(s.drop_last());
        let t = trim_trailing_hyphens(s.drop_last());
        assert(s.drop_last().take(t.len() as int) =~= s.take(t.len() as int));
    } else {
        assert(s.take(s.len() as int) =~= s);
    }
}

/// Before it is cut and lowercased, a slug has no run of `-`, and neither
/// starts nor ends with `-`; once cut, it takes at most 80 bytes.
pub proof fn law_slug_base_clean(text: Seq<char>)
    ensures
        no_hyphen_run(slug_base(text)),
        slug_base(text).len() > 0 ==> slug_base(text)[0] != '-' && slug_base(text).last() != '-',
        byte_len(slug_base(text).take(fit_from(slug_base(text), MAX_SLUG_BYTES as int, 0))) <= MAX_SLUG_BYTES,
{
    assert(slug_base(text).take(0) =~= Seq::<char>::empty());
    lemma_fit_from(slug_base(text), MAX_SLUG_BYTES as int, 0);
    let m = text.map_values(|c: char| slug_char(c));
    let c = collapse_hyphens(m);
    let l = trim_leading_hyphens(c);
    let t = trim_trailing_hyphens(l);
    lemma_collapse_no_run(m);
    lemma_trim_leading(c);
    lemma_trim_trailing(l);
    let off = c.len() - l.len();
    assert forall|i: int| #![trigger t[i]] 0 <= i < t.len() - 1 implies !(t[i] == '-' && t[i + 1] == '-') by {
        assert(t[i] == l[i] && t[i + 1] == l[i + 1]);
        assert(l[i] == c[off + i] && l[i + 1] == c[off + i + 1]);
        assert(c[off + i] == '-' && c[off + i + 1] == '-' ==> false);
    }
    if t.len() > 0 {
        assert(t[0] == l[0]);
    }
}

/// The number of leading characters of `s` whose UTF-8 encoding fits in `n` bytes.
pub open spec fn fit_from(s: Seq<char>, n: int, i: int) -> int
    decreases s.len() - i,
{
    if i < 0 || i >= s.len() || byte_len(s.take(i + 1)) > n {
        i
    } else {
        fit_from(s, n, i + 1)
    }
}

proof fn lemma_fit_from(s: Seq<char>, n: int, i: int)
    requires
        0 <= i <= s.len(),
        byte_len(s.take(i)) <= n,
    ensures
        i <= fit_from(s, n, i) <= s.len(),
        byte_len(s.take(fit_from(s, n, i))) <= n,
    decreases s.len() - i,
{
    if i < s.len() && byte_len(s.take(i + 1)) <= n {
        lemma_fit_from(s, n, i + 1);
    }
}

/// The longest slug kept, in bytes.
pub const MAX_SLUG_BYTES: usize = 80;

/// Cutting the slug at its byte limit does not split a character.
pub open spec fn slug_cut_ok(text: Seq<char>) -> bool {
    let b = slug_base(text);
    byte_len(b) <= MAX_SLUG_BYTES || byte_len(b.take(fit_from(b, MAX_SLUG_BYTES as int, 0))) == MAX_SLUG_BYTES
}

/// A branch-friendly slug of `text`: other characters than letters, digits,
/// `-`, `_` and `.` become `-`, runs of `-` are collapsed, leading and
/// trailing `-` removed, the result cut to 80 bytes and lowercased.
pub open spec fn slug_spec(text: Seq<char>) -> Seq<char> {
    let b = slug_base(text);
    lowercase_of(
        if byte_len(b) > MAX_SLUG_BYTES {
            b.take(fit_from(b, MAX_SLUG_BYTES as int, 0))
        } else {
            b
        },
    )
}

fn slug_base_chars(text: &str) -> (r: Vec<char>)
    ensures
        r@ == slug_base(text@),
{
    let chars = chars_of(text);
    let ghost mapped = chars@.map_values(|c: char| slug_char(c));
    // map and collapse
    let mut col: Vec<char> = Vec::new();
    let mut i: usize = 0;
    while i < chars.len()
        invariant
            i <= chars.len(),
            mapped == chars@.map_values(|c: char| slug_char(c)),
            col@ == collapse_hyphens(mapped.take(i as int)),
        decreases chars.len() - i,
    {
        let c = chars[i];
        let m = if is_alphanumeric(c) || c == '-' || c == '_' || c == '.' {
            c
        } else {
            '-'
        };
        proof {
            let t = mapped.take(i + 1);
            assert(t.drop_last() =~= mapped.take(i as int));
            assert(t.last() == m);
        }
        let n = col.len();
        if !(m == '-' && n > 0 && col[n - 1] == '-') {
            col.push(m);
        }
        i = i + 1;
    }
    assert(mapped.take(mapped.len() as int) =~= mapped);
    // trim leading
    let mut a: usize = 0;
    assert(col@.subrange(0, col@.len() as int) =~= col@);
    while a < col.len() && col[a] == '-'
        invariant
            a <= col.len(),
            trim_leading_hyphens(col@.subrange(a as int, col@.len() as int)) == trim_leading_hyphens(col@),
        decreases col.len() - a,
    {
        assert(col@.subrange(a as int, col@.len() as int).drop_first() =~= col@.subrange(a + 1, col@.len() as int));
        a = a + 1;
    }
    let lead = sub_chars(col.as_slice(), a, col.len());
    // trim trailing
    let mut b: usize = lead.len();
    assert(lead@.subrange(0, b as int) =~= lead@);
    while b > 0 && lead[b - 1] == '-'
        invariant
            b <= lead.len(),
            trim_trailing_hyphens(lead@.subrange(0, b as int)) == trim_trailing_hyphens(lead@),
        decreases b,
    {
        assert(lead@.subrange(0, b as int).drop_last() =~= lead@.subrange(0, b - 1));
        b = b - 1;
    }
    sub_chars(lead.as_slice(), 0, b)
}

/// Whether the slug of `text` can be cut at its byte limit.
pub fn slug_cut_fits(text: &str) -> (r: bool)
    ensures
        r == slug_cut_ok(text@),
{
    let b = slug_base_chars(text);
    let (total, fit, fit_bytes) = byte_cut(&b);
    total <= MAX_SLUG_BYTES || fit_bytes == MAX_SLUG_BYTES
}

/// The byte length of `s` (up to a bound), the number of leading characters
/// that fit in `MAX_SLUG_BYTES` bytes, and their byte length.
fn byte_cut(s: &Vec<char>) -> (r: (usize, usize, usize))
    ensures
        r.1 as int == fit_from(s@, MAX_SLUG_BYTES as int, 0),
        r.1 <= s@.len(),
        r.2 as int == byte_len(s@.take(r.1 as int)),
        r.2 <= MAX_SLUG_BYTES,
        (r.0 <= MAX_SLUG_BYTES) == (byte_len(s@) <= MAX_SLUG_BYTES),
{
    let mut i: usize = 0;
    let mut acc: usize = 0;
    while i < s.len() && acc + char_len_utf8(s[i]) <= MAX_SLUG_BYTES
        invariant
            i <= s.len(),
            acc as int == byte_len(s@.take(i as int)),
            acc <= MAX_SLUG_BYTES,
            fit_from(s@, MAX_SLUG_BYTES as int, i as int) == fit_from(s@, MAX_SLUG_BYTES as int, 0),
        decreases s.len() - i,
    {
        proof {
            let t = s@.take(i + 1);
            assert(t.drop_last() =~= s@.take(i as int));
        }
        acc = acc + char_len_utf8(s[i]);
        i = i + 1;
    }
    proof {
        if i < s.len() {
            let t = s@.take(i + 1);
            assert(t.drop_last() =~= s@.take(i as int));
        } else {
            assert(s@.take(i as int) =~= s@);
        }
    }
    let total = if i < s.len() {
        MAX_SLUG_BYTES + 1
    } else {
        acc
    };
    proof {
        if i < s.len() {
            byte_len_mono(s@, i + 1);
        }
    }
    (total, i, acc)
}

proof fn byte_len_mono(s: Seq<char>, k: int)
    requires
        0 <= k <= s.len(),
    ensures
        byte_len(s.take(k)) <= byte_len(s),
    decreases s.len() - k,
{
    if k < s.len() {
        byte_len_mono(s, k + 1);
        assert(s.take(k + 1).drop_last() =~= s.take(k));
    } else {
        assert(s.take(k) =~= s);
    }
}

/// A branch-friendly slug of `text`.
pub fn slugify(text: &str) -> (r: String)
    requires
        slug_cut_ok(text@),
    ensures
        r@ == slug_spec(text@),
{
    let b = slug_base_chars(text);
    let (total, fit, fit_bytes) = byte_cut(&b);
    let kept = if total > MAX_SLUG_BYTES {
        sub_chars(b.as_slice(), 0, fit)
    } else {
        sub_chars(b.as_slice(), 0, b.len())
    };
    assert(b@.subrange(0, b@.len() as int) =~= b@);
    let s = string_of(kept.as_slice());
    to_lowercase(s.as_str())
}

/// The slug of `text`, or `None` where cutting it at 80 bytes would split a character.
pub fn slugify_checked(text: &str) -> (r: Option<String>)
    ensures
        match r {
            Some(s) => slug_cut_ok(text@) && s@ == slug_spec(text@),
            None => !slug_cut_ok(text@),
        },
{
    if slug_cut_fits(text) {
        Some(slugify(text))
    } else {
        None
    }
}

/// The branch of a task: `<prefix>/<lowercased role name>-<slug>`.
pub fn branch_name(prefix: &str, role_name: &str, slug: &str) -> (r: String)
    ensures
        r@ == prefix@ + "/"@ + lowercase_of(role_name@) + "-"@ + slug@,
{
    let mut s = String::from_str(prefix);
    s.append("/");
    let lower = to_lowercase(role_name);
    s.append(lower.as_str());
    s.append("-");
    s.append(slug);
    s
}

/// The commit message of a finished run.
pub fn commit_message(summary: &str) -> (r: String)
    ensures
        r@ == "devnpc: "@ + summary@,
{
    let mut s = String::from_str("devnpc: ");
    s.append(summary);
    s
}

/// The commit message of the work kept when a run reached its iteration limit.
pub const PARTIAL_COMMIT_MESSAGE: &'static str = "devnpc: 部分完成 (迭代上限)";

/// The summary a run reports: the agent's summary when it finished, a fixed
/// text at the iteration limit, the step and the refused tools on an SOP violation.
pub open spec fn run_summary_spec(r: RunResult) -> Seq<char> {
    match r {
        RunResult::Finished { summary, .. } => summary@,
        RunResult::MaxIterationsReached(_) => "达到迭代上限,部分完成"@,
        RunResult::SopViolation { step, unexpected_tools, .. } => "SOP 偏离于步骤 ["@ + step@ + "],不允许的工具: "@
            + debug_list_of(str_views(unexpected_tools@)),
    }
}

/// The summary a run reports.
pub fn run_summary(result: &RunResult) -> (r: String)
    ensures
        r@ == run_summary_spec(*result),
{
    match result {
        RunResult::Finished { summary, .. } => summary.clone(),
        RunResult::MaxIterationsReached(_) => String::from_str("达到迭代上限,部分完成"),
        RunResult::SopViolation { step, unexpected_tools, .. } => {
            let mut s = String::from_str("SOP 偏离于步骤 [");
            s.append(step.as_str());
            s.append("],不允许的工具: ");
            let d = debug_list(unexpected_tools);
            s.append(d.as_str());
            s
        },
    }
}

} // verus!
