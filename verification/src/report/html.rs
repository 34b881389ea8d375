//! HTML rendering of a report: overview, task, trajectory, cost and output,
//! with every user-supplied text escaped except the trajectory details and
//! links, which the library itself produced.

use vstd::prelude::*;

use crate::report::collector::{ReportData, TeamStepSummary, TrajectoryEventSummary};
use crate::report::template::{
    row_text, fill_row, mr_iid_text, fill_mr_iid, pipeline_id_text, fill_pipeline_id, mr_url_text, fill_mr_url, ci_url_text, fill_ci_url, signal_text, fill_signal, signals_text, fill_signals, step_text, fill_step, team_text, fill_team, page_text, fill_page,
};
use crate::text::{dec_spec, dec_string, join_spec, join_strings, starts_with_spec, str_eq, str_views, chars_of, starts_with_chars};

verus! {

// ───────────────────────── escaping ─────────────────────────

/// The escape of one character: `&`, `<`, `>`, `"` and `'` become entities.
pub open spec fn escape_char(c: char) -> Seq<char> {
    if c == '&' {
        "&amp;"@
    } else if c == '<' {
        "&lt;"@
    } else if c == '>' {
        "&gt;"@
    } else if c == '"' {
        "&quot;"@
    } else if c == '\'' {
        "&#39;"@
    } else {
        seq![c]
    }
}

/// `s` with each character escaped.
pub open spec fn html_escape_spec(s: Seq<char>) -> Seq<char>
    decreases s.len(),
{
    if s.len() == 0 {
        Seq::empty()
    } else {
        html_escape_spec(s.drop_last()) + escape_char(s.last())
    }
}

/// The characters that would start markup or end an attribute value.
pub open spec fn is_markup(c: char) -> bool {
    c == '<' || c == '>' || c == '"' || c == '\''
}

/// Escaped text holds no markup character: `<`, `>`, `"` and `'` only come
/// out as entities.
pub proof fn law_escape_no_markup(s: Seq<char>)
    ensures
        forall|i: int| 0 <= i < html_escape_spec(s).len() ==> !is_markup(#[trigger] html_escape_spec(s)[i]),
    decreases s.len(),
{
    reveal_strlit("&amp;");
    reveal_strlit("&lt;");
    reveal_strlit("&gt;");
    reveal_strlit("&quot;");
    reveal_strlit("&#39;");
    if s.len() > 0 {
        law_escape_no_markup(s.drop_last());
        let a = html_escape_spec(s.drop_last());
        let b = escape_char(s.last());
        assert(html_escape_spec(s) == a + b);
        assert forall|i: int| 0 <= i < (a + b).len() implies !is_markup(#[trigger] (a + b)[i]) by {
            if i < a.len() {
                assert((a + b)[i] == a[i]);
            } else {
                assert((a + b)[i] == b[i - a.len()]);
            }
        }
    }
}

/// Decoding of escaped text, in one pass from the left: each of `&amp;`,
/// `&lt;`, `&gt;`, `&quot;` and `&#39;` gives back its character, every other
/// character stands for itself.
pub open spec fn html_unescape(t: Seq<char>) -> Seq<char>
    decreases t.len(),
{
    if t.len() == 0 {
        Seq::empty()
    } else if starts_with_spec(t, seq!['&', 'a', 'm', 'p', ';']) {
        seq!['&'] + html_unescape(t.subrange(5, t.len() as int))
    } else if starts_with_spec(t, seq!['&', 'l', 't', ';']) {
        seq!['<'] + html_unescape(t.subrange(4, t.len() as int))
    } else if starts_with_spec(t, seq!['&', 'g', 't', ';']) {
        seq!['>'] + html_unescape(t.subrange(4, t.len() as int))
    } else if starts_with_spec(t, seq!['&', 'q', 'u', 'o', 't', ';']) {
        seq!['"'] + html_unescape(t.subrange(6, t.len() as int))
    } else if starts_with_spec(t, seq!['&', '#', '3', '9', ';']) {
        seq!['\''] + html_unescape(t.subrange(5, t.len() as int))
    } else {
        seq![t[0]] + html_unescape(t.drop_first())
    }
}

proof fn lemma_escape_concat(a: Seq<char>, b: Seq<char>)
    ensures
        html_escape_spec(a + b) == html_escape_spec(a) + html_escape_spec(b),
    decreases b.len(),
{
    if b.len() == 0 {
        assert(a + b =~= a);
        assert(html_escape_spec(a) + html_escape_spec(b) =~= html_escape_spec(a));
    } else {
        lemma_escape_concat(a, b.drop_last());
        assert((a + b).drop_last() =~= a + b.drop_last());
        assert((a + b).last() == b.last());
    }
}

proof fn lemma_unescape_char(c: char, x: Seq<char>)
    ensures
        html_unescape(escape_char(c) + x) == seq![c] + html_unescape(x),
{
    reveal_strlit("&amp;");
    reveal_strlit("&lt;");
    reveal_strlit("&gt;");
    reveal_strlit("&quot;");
    reveal_strlit("&#39;");
    let t = escape_char(c) + x;
    let e = escape_char(c);
    let amp = seq!['&', 'a', 'm', 'p', ';'];
    let lt = seq!['&', 'l', 't', ';'];
    let gt = seq!['&', 'g', 't', ';'];
    let quot = seq!['&', 'q', 'u', 'o', 't', ';'];
    let apos = seq!['&', '#', '3', '9', ';'];
    assert(t.subrange(e.len() as int, t.len() as int) =~= x);
    if c == '&' {
        assert(e =~= amp);
        assert(t.subrange(0, 5) =~= amp);
    } else if c == '<' {
        assert(e =~= lt);
        assert(t[1] == 'l');
        assert(!starts_with_spec(t, amp)) by {
            if t.len() >= 5 {
                assert(t.subrange(0, 5)[1] == t[1]);
            }
        }
        assert(t.subrange(0, 4) =~= lt);
    } else if c == '>' {
        assert(e =~= gt);
        assert(t[1] == 'g');
        assert(!starts_with_spec(t, amp)) by {
            if t.len() >= 5 {
                assert(t.subrange(0, 5)[1] == t[1]);
            }
        }
        assert(!starts_with_spec(t, lt)) by {
            if t.len() >= 4 {
                assert(t.subrange(0, 4)[1] == t[1]);
            }
        }
        assert(t.subrange(0, 4) =~= gt);
    } else if c == '"' {
        assert(e =~= quot);
        assert(t[1] == 'q');
        assert(!starts_with_spec(t, amp)) by {
            if t.len() >= 5 {
                assert(t.subrange(0, 5)[1] == t[1]);
            }
        }
        assert(!starts_with_spec(t, lt)) by {
            if t.len() >= 4 {
                assert(t.subrange(0, 4)[1] == t[1]);
            }
        }
        assert(!starts_with_spec(t, gt)) by {
            if t.len() >= 4 {
                assert(t.subrange(0, 4)[1] == t[1]);
            }
        }
        assert(t.subrange(0, 6) =~= quot);
    } else if c == '\'' {
        assert(e =~= apos);
        assert(t[1] == '#');
        assert(!starts_with_spec(t, amp)) by {
            if t.len() >= 5 {
                assert(t.subrange(0, 5)[1] == t[1]);
            }
        }
        assert(!starts_with_spec(t, lt)) by {
            if t.len() >= 4 {
                assert(t.subrange(0, 4)[1] == t[1]);
            }
        }
        assert(!starts_with_spec(t, gt)) by {
            if t.len() >= 4 {
                assert(t.subrange(0, 4)[1] == t[1]);
            }
        }
        assert(!starts_with_spec(t, quot)) by {
            if t.len() >= 6 {
                assert(t.subrange(0, 6)[1] == t[1]);
            }
        }
        assert(t.subrange(0, 5) =~= apos);
    } else {
        assert(e =~= seq![c]);
        assert(t[0] == c);
        assert(!starts_with_spec(t, amp)) by {
            if t.len() >= 5 {
                assert(t.subrange(0, 5)[0] == t[0]);
            }
        }
        assert(!starts_with_spec(t, lt)) by {
            if t.len() >= 4 {
                assert(t.subrange(0, 4)[0] == t[0]);
            }
        }
        assert(!starts_with_spec(t, gt)) by {
            if t.len() >= 4 {
                assert(t.subrange(0, 4)[0] == t[0]);
            }
        }
        assert(!starts_with_spec(t, quot)) by {
            if t.len() >= 6 {
                assert(t.subrange(0, 6)[0] == t[0]);
            }
        }
        assert(!starts_with_spec(t, apos)) by {
            if t.len() >= 5 {
                assert(t.subrange(0, 5)[0] == t[0]);
            }
        }
        assert(t.drop_first() =~= x);
    }
}

/// Decoding escaped text gives back the text.
pub proof fn law_escape_decodes(s: Seq<char>)
    ensures
        html_unescape(html_escape_spec(s)) == s,
    decreases s.len(),
{
    if s.len() > 0 {
        let head = seq![s[0]];
        let rest = s.drop_first();
        assert(s =~= head + rest);
        lemma_escape_concat(head, rest);
        assert(head.drop_last() =~= Seq::<char>::empty());
        assert(html_escape_spec(Seq::<char>::empty()) == Seq::<char>::empty());
        assert(head.last() == s[0]);
        assert(html_escape_spec(head) =~= escape_char(s[0]));
        lemma_unescape_char(s[0], html_escape_spec(rest));
        law_escape_decodes(rest);
    }
}

/// Escapes `&`, `<`, `>`, `"` and `'` for HTML.
pub fn html_escape(s: &str) -> (r: String)
    ensures
        r@ == html_escape_spec(s@),
{
    let v = chars_of(s);
    let mut out = String::new();
    let mut i: usize = 0;
    while i < v.len()
        invariant
            i <= v.len(),
            v@ == s@,
            out@ == html_escape_spec(v@.take(i as int)),
        decreases v.len() - i,
    {
        let c = v[i];
        proof {
            let t = v@.take(i + 1);
            assert(t.drop_last() =~= v@.take(i as int));
            assert(t.last() == c);
        }
        if c == '&' {
            out.append("&amp;");
        } else if c == '<' {
            out.append("&lt;");
        } else if c == '>' {
            out.append("&gt;");
        } else if c == '"' {
            out.append("&quot;");
        } else if c == '\'' {
            out.append("&#39;");
        } else {
            crate::text::push_char(&mut out, c);
        }
        i = i + 1;
    }
    assert(v@.take(v@.len() as int) =~= v@);
    out
}

// ───────────────────────── values ─────────────────────────

/// A duration in seconds, minutes and seconds, or hours, minutes and seconds.
pub open spec fn duration_spec(secs: u64) -> Seq<char> {
    if secs < 60 {
        dec_spec(secs as nat) + " 秒"@
    } else if secs < 3600 {
        dec_spec((secs / 60) as nat) + " 分 "@ + dec_spec((secs % 60) as nat) + " 秒"@
    } else {
        dec_spec((secs / 3600) as nat) + " 时 "@ + dec_spec(((secs % 3600) / 60) as nat) + " 分 "@ + dec_spec(
            (secs % 60) as nat,
        ) + " 秒"@
    }
}

/// A duration reads back as its seconds: the hours, minutes and seconds it
/// shows (minutes and seconds below 60) add up to the duration, and so do the
/// minutes and seconds of a duration under an hour.
pub proof fn law_duration_reads_back(secs: u64)
    ensures
        secs >= 3600 ==> exists|h: nat, m: nat, s: nat|
            #![trigger dec_spec(h), dec_spec(m), dec_spec(s)]
            m < 60 && s < 60 && h * 3600 + m * 60 + s == secs && duration_spec(secs) == dec_spec(h) + " 时 "@ + dec_spec(m)
                + " 分 "@ + dec_spec(s) + " 秒"@,
        60 <= secs < 3600 ==> exists|m: nat, s: nat|
            #![trigger dec_spec(m), dec_spec(s)]
            m < 60 && s < 60 && m * 60 + s == secs && duration_spec(secs) == dec_spec(m) + " 分 "@ + dec_spec(s) + " 秒"@,
        secs < 60 ==> duration_spec(secs) == dec_spec(secs as nat) + " 秒"@,
{
    let x = secs as int;
    if secs >= 3600 {
        let h = (x / 3600) as nat;
        let m = ((x % 3600) / 60) as nat;
        let s = (x % 60) as nat;
        assert(h * 3600 + m * 60 + s == x && m < 60 && s < 60) by (nonlinear_arith)
            requires
                x >= 3600,
                h == x / 3600,
                m == (x % 3600) / 60,
                s == x % 60,
        ;
        assert(dec_spec(h) == dec_spec((secs / 3600) as nat));
        assert(dec_spec(m) == dec_spec(((secs % 3600) / 60) as nat));
        assert(dec_spec(s) == dec_spec((secs % 60) as nat));
    } else if secs >= 60 {
        let m = (x / 60) as nat;
        let s = (x % 60) as nat;
        assert(m * 60 + s == x && m < 60 && s < 60) by (nonlinear_arith)
            requires
                60 <= x < 3600,
                m == x / 60,
                s == x % 60,
        ;
        assert(dec_spec(m) == dec_spec((secs / 60) as nat));
        assert(dec_spec(s) == dec_spec((secs % 60) as nat));
    }
}

/// A readable duration.
pub fn format_duration(secs: u64) -> (r: String)
    ensures
        r@ == duration_spec(secs),
{
    if secs < 60 {
        let mut s = dec_string(secs);
        s.append(" 秒");
        s
    } else if secs < 3600 {
        let mut s = dec_string(secs / 60);
        s.append(" 分 ");
        let m = dec_string(secs % 60);
        s.append(m.as_str());
        s.append(" 秒");
        s
    } else {
        let mut s = dec_string(secs / 3600);
        s.append(" 时 ");
        let m = dec_string((secs % 3600) / 60);
        s.append(m.as_str());
        s.append(" 分 ");
        let r = dec_string(secs % 60);
        s.append(r.as_str());
        s.append(" 秒");
        s
    }
}

/// `n` zeros.
pub open spec fn zeros(n: int) -> Seq<char> {
    Seq::new(if n > 0 { n as nat } else { 0 }, |i: int| '0')
}

/// An amount of micro-dollars as dollars with six decimals.
pub open spec fn usd6_spec(micro: u64) -> Seq<char> {
    let frac = dec_spec((micro % 1000000) as nat);
    dec_spec((micro / 1000000) as nat) + "."@ + zeros(6 - frac.len()) + frac
}

/// Dollars with six decimals, from micro-dollars.
pub fn format_usd6(micro: u64) -> (r: String)
    ensures
        r@ == usd6_spec(micro),
{
    let mut s = dec_string(micro / 1000000);
    s.append(".");
    let frac = dec_string(micro % 1000000);
    let n = frac.as_str().unicode_len();
    let pad: usize = if n < 6 {
        6 - n
    } else {
        0
    };
    let mut z: usize = 0;
    let ghost start = s@;
    while z < pad
        invariant
            z <= pad,
            s@ == start + zeros(z as int),
        decreases pad - z,
    {
        crate::text::push_char(&mut s, '0');
        assert(zeros(z + 1) =~= zeros(z as int).push('0'));
        z = z + 1;
    }
    assert(zeros(6 - frac@.len()) =~= zeros(pad as int));
    s.append(frac.as_str());
    s
}

/// The badge colour of a status.
pub open spec fn status_color_spec(status: Seq<char>) -> Seq<char> {
    if status == "passed"@ {
        "var(--color-success)"@
    } else if starts_with_spec(status, "failed"@) || starts_with_spec(status, "timeout"@) {
        "var(--color-error)"@
    } else {
        "var(--color-warning)"@
    }
}

/// The badge icon of a status.
pub open spec fn status_icon_spec(status: Seq<char>) -> Seq<char> {
    if status == "passed"@ {
        "&#10004;"@
    } else if starts_with_spec(status, "failed"@) || starts_with_spec(status, "timeout"@) {
        "&#10008;"@
    } else {
        "&#9888;"@
    }
}

/// The icon and row class of a trajectory row.
pub open spec fn row_style(e: TrajectoryEventSummary) -> (Seq<char>, Seq<char>) {
    if e.kind@ == "llm_call"@ {
        ("&#129302;"@, "event-llm"@)
    } else if e.kind@ == "tool_call"@ && e.success == Some(true) {
        ("&#9889;"@, "event-tool-ok"@)
    } else if e.kind@ == "tool_call"@ {
        ("&#9889;"@, "event-tool-err"@)
    } else if e.kind@ == "deviation"@ {
        ("&#9888;"@, "event-deviation"@)
    } else {
        ("&#9679;"@, ""@)
    }
}

/// Row `i` of the trajectory (numbered from 1); the detail is not escaped.
pub open spec fn row_line(i: int, e: TrajectoryEventSummary) -> Seq<char> {
    row_text(row_style(e).1, dec_spec((i + 1) as nat), row_style(e).0, e.detail@)
}

/// The trajectory rows, one per line.
pub open spec fn rows_spec(events: Seq<TrajectoryEventSummary>) -> Seq<char> {
    join_spec(events.map(|i: int, e: TrajectoryEventSummary| row_line(i, e)), "\n"@)
}

/// The icon of a team role.
pub open spec fn role_icon_spec(role: Seq<char>) -> Seq<char> {
    if role == "pm"@ {
        "&#128203;"@
    } else if role == "developer"@ || role == "dev"@ {
        "&#128187;"@
    } else if role == "tester"@ || role == "test"@ {
        "&#9989;"@
    } else {
        "&#9679;"@
    }
}

/// The signal badges of a step; nothing when it has none.
pub open spec fn signals_spec(signals: Seq<Seq<char>>) -> Seq<char> {
    if signals.len() == 0 {
        Seq::empty()
    } else {
        signals_text(join_spec(signals.map_values(|s: Seq<char>| signal_text(s)), ""@))
    }
}

/// Step `i` of a team run (numbered from 1).
pub open spec fn step_line(i: int, s: TeamStepSummary) -> Seq<char> {
    step_text(
        role_icon_spec(s.role@),
        html_escape_spec(s.role@),
        dec_spec((i + 1) as nat),
        html_escape_spec(s.instruction@),
        html_escape_spec(s.output@),
        signals_spec(str_views(s.signals@)),
    )
}

/// The team section: nothing for a single agent.
pub open spec fn team_spec(steps: Seq<TeamStepSummary>) -> Seq<char> {
    if steps.len() == 0 {
        Seq::empty()
    } else {
        team_text(
            dec_spec(steps.len()),
            join_spec(steps.map(|i: int, s: TeamStepSummary| step_line(i, s)), "\n"@),
        )
    }
}

/// The merge-request number line, if there is one.
pub open spec fn mr_iid_spec(iid: Option<u64>) -> Seq<char> {
    match iid {
        Some(n) => mr_iid_text(dec_spec(n as nat)),
        None => Seq::empty(),
    }
}

/// The pipeline number line, if there is one.
pub open spec fn pipeline_id_spec(pid: Option<u64>) -> Seq<char> {
    match pid {
        Some(n) => pipeline_id_text(dec_spec(n as nat)),
        None => Seq::empty(),
    }
}

/// The merge-request link line, if there is one.
pub open spec fn mr_url_spec(url: Option<Seq<char>>) -> Seq<char> {
    match url {
        Some(u) => mr_url_text(u, u),
        None => Seq::empty(),
    }
}

/// The CI link line, if there is one.
pub open spec fn ci_url_spec(url: Option<Seq<char>>) -> Seq<char> {
    match url {
        Some(u) => ci_url_text(u, u),
        None => Seq::empty(),
    }
}

/// The HTML page of a report.
pub open spec fn html_spec(d: ReportData) -> Seq<char> {
    page_text(
        status_color_spec(d.status@),
        status_icon_spec(d.status@),
        d.status@,
        duration_spec(d.duration_secs),
        dec_spec(d.token_total as nat),
        dec_spec(d.llm_calls as nat),
        dec_spec(d.tool_calls as nat),
        dec_spec(d.ci_retries as nat),
        d.started_at@,
        d.finished_at@,
        html_escape_spec(d.task_description@),
        team_spec(d.team_steps@),
        dec_spec(d.trajectory.events@.len()),
        rows_spec(d.trajectory.events@),
        dec_spec(d.cost_estimate.input_tokens as nat),
        dec_spec(d.cost_estimate.output_tokens as nat),
        usd6_spec(d.cost_estimate.estimated_cost_micro_usd),
        mr_iid_spec(d.mr_iid),
        pipeline_id_spec(d.pipeline_id),
        mr_url_spec(d.mr_url.deep_view()),
        ci_url_spec(d.ci_url.deep_view()),
        html_escape_spec(d.summary@),
        d.finished_at@,
    )
}

// ───────────────────────── rendering ─────────────────────────

fn status_style(status: &str) -> (r: (&'static str, &'static str))
    ensures
        r.0@ == status_color_spec(status@),
        r.1@ == status_icon_spec(status@),
{
    let sv = chars_of(status);
    let failed = chars_of("failed");
    let timeout = chars_of("timeout");
    if str_eq(status, "passed") {
        ("var(--color-success)", "&#10004;")
    } else if starts_with_chars(sv.as_slice(), failed.as_slice()) || starts_with_chars(
        sv.as_slice(),
        timeout.as_slice(),
    ) {
        ("var(--color-error)", "&#10008;")
    } else {
        ("var(--color-warning)", "&#9888;")
    }
}

fn row_style_exec(e: &TrajectoryEventSummary) -> (r: (&'static str, &'static str))
    ensures
        r.0@ == row_style(*e).0,
        r.1@ == row_style(*e).1,
{
    let k = e.kind.as_str();
    if str_eq(k, "llm_call") {
        ("&#129302;", "event-llm")
    } else if str_eq(k, "tool_call") && e.success == Some(true) {
        ("&#9889;", "event-tool-ok")
    } else if str_eq(k, "tool_call") {
        ("&#9889;", "event-tool-err")
    } else if str_eq(k, "deviation") {
        ("&#9888;", "event-deviation")
    } else {
        ("&#9679;", "")
    }
}

fn render_rows(events: &Vec<TrajectoryEventSummary>) -> (r: String)
    ensures
        r@ == rows_spec(events@),
{
    let ghost lines_spec = events@.map(|i: int, e: TrajectoryEventSummary| row_line(i, e));
    let mut lines: Vec<String> = Vec::new();
    let mut i: usize = 0;
    while i < events.len()
        invariant
            i <= events.len(),
            lines_spec == events@.map(|i: int, e: TrajectoryEventSummary| row_line(i, e)),
            str_views(lines@) == lines_spec.take(i as int),
        decreases events.len() - i,
    {
        let e = &events[i];
        let (icon, class) = row_style_exec(e);
        let idx = dec_string(i as u64 + 1);
        let line = fill_row(class, idx.as_str(), icon, e.detail.as_str());
        let ghost before = str_views(lines@);
        lines.push(line);
        assert(line@ == row_line(i as int, *e));
        assert(str_views(lines@) =~= before.push(lines_spec[i as int]));
        assert(lines_spec.take(i + 1) =~= lines_spec.take(i as int).push(lines_spec[i as int]));
        i = i + 1;
    }
    assert(lines_spec.take(lines_spec.len() as int) =~= lines_spec);
    join_strings(&lines, "\n")
}

fn role_icon(role: &str) -> (r: &'static str)
    ensures
        r@ == role_icon_spec(role@),
{
    if str_eq(role, "pm") {
        "&#128203;"
    } else if str_eq(role, "developer") || str_eq(role, "dev") {
        "&#128187;"
    } else if str_eq(role, "tester") || str_eq(role, "test") {
        "&#9989;"
    } else {
        "&#9679;"
    }
}

fn render_signals(signals: &Vec<String>) -> (r: String)
    ensures
        r@ == signals_spec(str_views(signals@)),
{
    if signals.len() == 0 {
        return String::new();
    }
    let ghost sv = str_views(signals@);
    let mut badges: Vec<String> = Vec::new();
    let mut i: usize = 0;
    while i < signals.len()
        invariant
            i <= signals.len(),
            sv == str_views(signals@),
            str_views(badges@) == sv.map_values(|s: Seq<char>| signal_text(s)).take(i as int),
        decreases signals.len() - i,
    {
        let b = fill_signal(signals[i].as_str());
        let ghost before = str_views(badges@);
        badges.push(b);
        assert(str_views(badges@) =~= before.push(signal_text(sv[i as int])));
        assert(sv.map_values(|s: Seq<char>| signal_text(s)).take(i + 1) =~= sv.map_values(
            |s: Seq<char>| signal_text(s),
        ).take(i as int).push(signal_text(sv[i as int])));
        i = i + 1;
    }
    assert(sv.map_values(|s: Seq<char>| signal_text(s)).take(sv.len() as int) =~= sv.map_values(
        |s: Seq<char>| signal_text(s),
    ));
    let j = join_strings(&badges, "");
    fill_signals(j.as_str())
}

fn render_team(steps: &Vec<TeamStepSummary>) -> (r: String)
    ensures
        r@ == team_spec(steps@),
{
    if steps.len() == 0 {
        return String::new();
    }
    let ghost lines_spec = steps@.map(|i: int, s: TeamStepSummary| step_line(i, s));
    let mut lines: Vec<String> = Vec::new();
    let mut i: usize = 0;
    while i < steps.len()
        invariant
            i <= steps.len(),
            lines_spec == steps@.map(|i: int, s: TeamStepSummary| step_line(i, s)),
            str_views(lines@) == lines_spec.take(i as int),
        decreases steps.len() - i,
    {
        let s = &steps[i];
        let icon = role_icon(s.role.as_str());
        let role = html_escape(s.role.as_str());
        let idx = dec_string(i as u64 + 1);
        let instruction = html_escape(s.instruction.as_str());
        let output = html_escape(s.output.as_str());
        let signals = render_signals(&s.signals);
        let line = fill_step(icon, role.as_str(), idx.as_str(), instruction.as_str(), output.as_str(), signals.as_str());
        let ghost before = str_views(lines@);
        lines.push(line);
        assert(line@ == step_line(i as int, *s));
        assert(str_views(lines@) =~= before.push(lines_spec[i as int]));
        assert(lines_spec.take(i + 1) =~= lines_spec.take(i as int).push(lines_spec[i as int]));
        i = i + 1;
    }
    assert(lines_spec.take(lines_spec.len() as int) =~= lines_spec);
    let count = dec_string(steps.len() as u64);
    let body = join_strings(&lines, "\n");
    fill_team(count.as_str(), body.as_str())
}

fn opt_line(o: Option<u64>, mr: bool) -> (r: String)
    ensures
        r@ == if mr {
            mr_iid_spec(o)
        } else {
            pipeline_id_spec(o)
        },
{
    match o {
        Some(n) => {
            let d = dec_string(n);
            if mr {
                fill_mr_iid(d.as_str())
            } else {
                fill_pipeline_id(d.as_str())
            }
        },
        None => String::new(),
    }
}

fn url_line(o: &Option<String>, mr: bool) -> (r: String)
    ensures
        r@ == if mr {
            mr_url_spec(o.deep_view())
        } else {
            ci_url_spec(o.deep_view())
        },
{
    match o {
        Some(u) => if mr {
            fill_mr_url(u.as_str(), u.as_str())
        } else {
            fill_ci_url(u.as_str(), u.as_str())
        },
        None => String::new(),
    }
}

/// The HTML page of a report.
pub fn generate_html(data: &ReportData) -> (r: String)
    ensures
        r@ == html_spec(*data),
{
    let (color, icon) = status_style(data.status.as_str());
    let duration = format_duration(data.duration_secs);
    let token_total = dec_string(data.token_total);
    let llm_calls = dec_string(data.llm_calls as u64);
    let tool_calls = dec_string(data.tool_calls as u64);
    let ci_retries = dec_string(data.ci_retries as u64);
    let task = html_escape(data.task_description.as_str());
    let team = render_team(&data.team_steps);
    let len = dec_string(data.trajectory.events.len() as u64);
    let rows = render_rows(&data.trajectory.events);
    let input = dec_string(data.cost_estimate.input_tokens);
    let output = dec_string(data.cost_estimate.output_tokens);
    let cost = format_usd6(data.cost_estimate.estimated_cost_micro_usd);
    let mr = opt_line(data.mr_iid, true);
    let pipeline = opt_line(data.pipeline_id, false);
    let mr_url = url_line(&data.mr_url, true);
    let ci_url = url_line(&data.ci_url, false);
    let summary = html_escape(data.summary.as_str());
    fill_page(
        color,
        icon,
        data.status.as_str(),
        duration.as_str(),
        token_total.as_str(),
        llm_calls.as_str(),
        tool_calls.as_str(),
        ci_retries.as_str(),
        data.started_at.as_str(),
        data.finished_at.as_str(),
        task.as_str(),
        team.as_str(),
        len.as_str(),
        rows.as_str(),
        input.as_str(),
        output.as_str(),
        cost.as_str(),
        mr.as_str(),
        pipeline.as_str(),
        mr_url.as_str(),
        ci_url.as_str(),
        summary.as_str(),
        data.finished_at.as_str(),
    )
}

} // verus!
