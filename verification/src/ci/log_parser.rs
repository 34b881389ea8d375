//! CI log parser.
//!
//! Recognises common CI failure patterns, one log line at a time:
//! - compile errors: lines starting with `error[` that hold `]:`, or starting
//!   with `error:` (file and line come from the ` --> file.rs:L:C` line that
//!   follows), or lines holding `FAILURE:`;
//! - test failures: lines holding `panicked at` (file and line come from the
//!   panic message), `FAILED` or `Tests failed`;
//! - timeouts: lines holding `timed out` or `killed`.
//!
//! Consecutive failures with the same message are merged, and at most
//! `max_failures` are kept.

use vstd::prelude::*;

use crate::config::LogParserConfig;
use crate::pattern::{capture, capture_spec};
use crate::text::{
    chars_of, contains_chars, contains_spec, find_chars, find_from, lemma_find_from, lines_of,
    parse_u64_str, parse_unsigned, split_lines, starts_with_chars, starts_with_spec, str_views,
    string_of, sub_chars, trim_chars, trim_spec, views,
};

verus! {

/// Pattern of the file in a ` --> src/file.rs:45:13` line.
pub const ARROW_FILE_RE: &'static str = r"-->\s*([^\s:]+\.rs)";

/// Pattern of the line number in a ` --> src/file.rs:45:13` line.
pub const ARROW_LINE_RE: &'static str = r":(\d+):\d+";

/// Pattern of the file in a panic message.
pub const PANIC_FILE_RE: &'static str = r"'[^']*',\s*([^:]+\.rs)";

/// Pattern of the line number in a panic message.
pub const PANIC_LINE_RE: &'static str = r"\.rs:(\d+)";

/// Kinds of CI failure.
#[derive(Debug, Clone, Copy, PartialEq, Eq, Structural)]
pub enum FailureType {
    Compile,
    Test,
    Lint,
    Build,
    Timeout,
    Other,
}

/// One failure found in a job log.
#[derive(Debug, Clone)]
pub struct ParsedFailure {
    pub failure_type: FailureType,
    pub job_name: String,
    pub file: Option<String>,
    pub line: Option<u32>,
    pub error_message: String,
    pub context_lines: Vec<String>,
}

/// A failure as plain values.
pub struct FailureView {
    pub failure_type: FailureType,
    pub job_name: Seq<char>,
    pub file: Option<Seq<char>>,
    pub line: Option<u32>,
    pub error_message: Seq<char>,
    pub context_lines: Seq<Seq<char>>,
}

impl View for ParsedFailure {
    type V = FailureView;

    open spec fn view(&self) -> FailureView {
        FailureView {
            failure_type: self.failure_type,
            job_name: self.job_name@,
            file: self.file.deep_view(),
            line: self.line,
            error_message: self.error_message@,
            context_lines: str_views(self.context_lines@),
        }
    }
}

/// The views of a sequence of failures.
pub open spec fn failure_views(v: Seq<ParsedFailure>) -> Seq<FailureView> {
    v.map_values(|f: ParsedFailure| f@)
}

/// Lines around `center`: two before, the line itself and two after, clipped to the log.
pub open spec fn context_spec(lines: Seq<Seq<char>>, center: int) -> Seq<Seq<char>> {
    let start = if center >= 2 {
        center - 2
    } else {
        0
    };
    let end = if center + 3 <= lines.len() {
        center + 3
    } else {
        lines.len() as int
    };
    lines.subrange(start, end)
}

/// `u32::from_str` applied to an optional capture.
pub open spec fn opt_u32(o: Option<Seq<char>>) -> Option<u32> {
    match o {
        Some(s) => match parse_unsigned(s, u32::MAX as int) {
            Some(v) => Some(v as u32),
            None => None,
        },
        None => None,
    }
}

/// The line after `i`, or the empty line at the end of the log.
pub open spec fn next_line(lines: Seq<Seq<char>>, i: int) -> Seq<char> {
    if i + 1 < lines.len() {
        lines[i + 1]
    } else {
        Seq::empty()
    }
}

/// Where `]:` stands in the text after `error[` when the line starts so, else -1.
pub open spec fn bracket_error_end(line: Seq<char>) -> int {
    if starts_with_spec(line, "error["@) {
        find_from(line.subrange("error["@.len() as int, line.len() as int), "]:"@, 0)
    } else {
        -1
    }
}

/// A failure found on line `i`.
pub open spec fn failure_at(
    kind: FailureType,
    job: Seq<char>,
    file: Option<Seq<char>>,
    line: Option<u32>,
    message: Seq<char>,
    lines: Seq<Seq<char>>,
    i: int,
) -> FailureView {
    FailureView {
        failure_type: kind,
        job_name: job,
        file,
        line,
        error_message: message,
        context_lines: context_spec(lines, i),
    }
}

/// The compile error that line `i` reports, if any: `error[..]: message` or
/// `error: message`, located by the arrow line that follows, else a line
/// holding `FAILURE:`.
pub open spec fn compile_spec(job: Seq<char>, lines: Seq<Seq<char>>, i: int) -> Seq<FailureView> {
    let line = lines[i];
    let next = next_line(lines, i);
    let file = capture_spec(ARROW_FILE_RE@, next, 1);
    let line_no = opt_u32(capture_spec(ARROW_LINE_RE@, next, 1));
    let e = bracket_error_end(line);
    if e >= 0 {
        let msg = line.subrange("error["@.len() as int, line.len() as int);
        seq![failure_at(FailureType::Compile, job, file, line_no, trim_spec(msg.subrange(e + "]:"@.len(), msg.len() as int)), lines, i)]
    } else if starts_with_spec(line, "error:"@) {
        seq![failure_at(FailureType::Compile, job, file, line_no, trim_spec(line.subrange("error:"@.len() as int, line.len() as int)), lines, i)]
    } else if contains_spec(line, "FAILURE:"@) {
        seq![failure_at(FailureType::Compile, job, None, None, trim_spec(line), lines, i)]
    } else {
        Seq::empty()
    }
}

/// The test failure that line `i` reports, if any: a panic, located by its
/// message, else a line holding `FAILED` or `Tests failed`.
pub open spec fn test_spec(job: Seq<char>, lines: Seq<Seq<char>>, i: int) -> Seq<FailureView> {
    let line = lines[i];
    if contains_spec(line, "panicked at"@) {
        seq![
            failure_at(
                FailureType::Test,
                job,
                capture_spec(PANIC_FILE_RE@, line, 1),
                opt_u32(capture_spec(PANIC_LINE_RE@, line, 1)),
                trim_spec(line),
                lines,
                i,
            ),
        ]
    } else if contains_spec(line, "FAILED"@) || contains_spec(line, "Tests failed"@) {
        seq![failure_at(FailureType::Test, job, None, None, trim_spec(line), lines, i)]
    } else {
        Seq::empty()
    }
}

/// The timeout that line `i` reports, if any.
pub open spec fn timeout_spec(job: Seq<char>, lines: Seq<Seq<char>>, i: int) -> Seq<FailureView> {
    let line = lines[i];
    if contains_spec(line, "timed out"@) || contains_spec(line, "killed"@) {
        seq![failure_at(FailureType::Timeout, job, None, None, trim_spec(line), lines, i)]
    } else {
        Seq::empty()
    }
}

/// Everything line `i` reports: compile error, then test failure, then timeout.
pub open spec fn line_failures(job: Seq<char>, lines: Seq<Seq<char>>, i: int) -> Seq<FailureView> {
    compile_spec(job, lines, i) + test_spec(job, lines, i) + timeout_spec(job, lines, i)
}

/// Everything the first `n` lines report, in order.
pub open spec fn raw_failures(job: Seq<char>, lines: Seq<Seq<char>>, n: int) -> Seq<FailureView>
    decreases n,
{
    if n <= 0 {
        Seq::empty()
    } else {
        raw_failures(job, lines, n - 1) + line_failures(job, lines, n - 1)
    }
}

/// `Vec::dedup_by` on the error message: a failure whose message equals that of
/// the last one kept is dropped.
pub open spec fn dedup_spec(s: Seq<FailureView>) -> Seq<FailureView>
    decreases s.len(),
{
    if s.len() == 0 {
        Seq::empty()
    } else {
        let d = dedup_spec(s.drop_last());
        if d.len() > 0 && d.last().error_message == s.last().error_message {
            d
        } else {
            d.push(s.last())
        }
    }
}

/// The failures of a log: all reported failures, merged, at most `max` of them.
pub open spec fn parse_log_spec(job: Seq<char>, log: Seq<char>, max: int) -> Seq<FailureView> {
    let lines = lines_of(log);
    let d = dedup_spec(raw_failures(job, lines, lines.len() as int));
    if max <= d.len() {
        d.take(max)
    } else {
        d
    }
}

proof fn lemma_dedup_neighbours(s: Seq<FailureView>)
    ensures
        dedup_spec(s).len() <= s.len(),
        forall|i: int|
            #![trigger dedup_spec(s)[i]]
            0 <= i < dedup_spec(s).len() - 1 ==> dedup_spec(s)[i].error_message != dedup_spec(s)[i + 1].error_message,
    decreases s.len(),
{
    if s.len() > 0 {
        lemma_dedup_neighbours(s.drop_last());
    }
}

/// A parsed log holds at most `max` failures, and no two neighbours share
/// their message.
pub proof fn law_parse_log_bounded(job: Seq<char>, log: Seq<char>, max: int)
    requires
        max >= 0,
    ensures
        parse_log_spec(job, log, max).len() <= max,
        forall|i: int|
            #![trigger parse_log_spec(job, log, max)[i]]
            0 <= i < parse_log_spec(job, log, max).len() - 1 ==> parse_log_spec(job, log, max)[i].error_message
                != parse_log_spec(job, log, max)[i + 1].error_message,
{
    let lines = lines_of(log);
    let d = dedup_spec(raw_failures(job, lines, lines.len() as int));
    lemma_dedup_neighbours(raw_failures(job, lines, lines.len() as int));
    let r = parse_log_spec(job, log, max);
    assert forall|i: int| 0 <= i < r.len() - 1 implies #[trigger] r[i].error_message != r[i + 1].error_message by {
        assert(r[i] == d[i] && r[i + 1] == d[i + 1]);
    }
}

/// `u32::from_str` on a string.
pub fn parse_u32_str(s: &str) -> (r: Option<u32>)
    ensures
        match r {
            Some(v) => parse_unsigned(s@, u32::MAX as int) == Some(v as int),
            None => parse_unsigned(s@, u32::MAX as int) is None,
        },
{
    match parse_u64_str(s) {
        Some(v) => if v <= u32::MAX as u64 {
            Some(v as u32)
        } else {
            None
        },
        None => None,
    }
}

fn opt_u32_of(o: Option<String>) -> (r: Option<u32>)
    ensures
        r == opt_u32(o.deep_view()),
{
    match o {
        Some(s) => parse_u32_str(s.as_str()),
        None => None,
    }
}

fn context_lines(lines: &Vec<Vec<char>>, center: usize) -> (r: Vec<String>)
    requires
        center < lines.len(),
    ensures
        str_views(r@) == context_spec(views(lines@), center as int),
{
    let start: usize = if center >= 2 {
        center - 2
    } else {
        0
    };
    let end: usize = if lines.len() - center >= 3 {
        center + 3
    } else {
        lines.len()
    };
    let mut r: Vec<String> = Vec::new();
    let mut k: usize = start;
    while k < end
        invariant
            start <= k <= end,
            end <= lines.len(),
            str_views(r@) == views(lines@).subrange(start as int, k as int),
        decreases end - k,
    {
        let ghost old_r = r@;
        r.push(string_of(lines[k].as_slice()));
        assert(str_views(r@) =~= str_views(old_r).push(lines@[k as int]@));
        assert(views(lines@).subrange(start as int, k + 1) =~= views(lines@).subrange(
            start as int,
            k as int,
        ).push(lines@[k as int]@));
        k = k + 1;
    }
    r
}

fn push_failure(
    out: &mut Vec<ParsedFailure>,
    failure_type: FailureType,
    job_name: &str,
    file: Option<String>,
    line: Option<u32>,
    error_message: Vec<char>,
    context_lines: Vec<String>,
)
    ensures
        failure_views(final(out)@) == failure_views(old(out)@).push(
            FailureView {
                failure_type,
                job_name: job_name@,
                file: file.deep_view(),
                line,
                error_message: error_message@,
                context_lines: str_views(context_lines@),
            },
        ),
{
    let f = ParsedFailure {
        failure_type,
        job_name: String::from_str(job_name),
        file,
        line,
        error_message: string_of(error_message.as_slice()),
        context_lines,
    };
    let ghost before = out@;
    out.push(f);
    assert(failure_views(out@) =~= failure_views(before).push(f@));
}

/// The file and line of the arrow line after line `i`.
fn arrow_location(lines: &Vec<Vec<char>>, i: usize) -> (r: (Option<String>, Option<u32>))
    requires
        i < lines.len(),
    ensures
        r.0.deep_view() == capture_spec(ARROW_FILE_RE@, next_line(views(lines@), i as int), 1),
        r.1 == opt_u32(capture_spec(ARROW_LINE_RE@, next_line(views(lines@), i as int), 1)),
{
    let next = if i + 1 < lines.len() {
        string_of(lines[i + 1].as_slice())
    } else {
        String::new()
    };
    assert(next@ == next_line(views(lines@), i as int));
    let file = capture(ARROW_FILE_RE, next.as_str(), 1);
    let line_no = opt_u32_of(capture(ARROW_LINE_RE, next.as_str(), 1));
    (file, line_no)
}

/// Appends what line `i` reports.
fn parse_line_into(out: &mut Vec<ParsedFailure>, job_name: &str, lines: &Vec<Vec<char>>, i: usize)
    requires
        i < lines.len(),
    ensures
        failure_views(final(out)@) == failure_views(old(out)@) + line_failures(job_name@, views(lines@), i as int),
{
    let ghost vl = views(lines@);
    let ghost start = failure_views(out@);
    let line = &lines[i];
    assert(vl[i as int] == line@);

    // compile error
    let prefix = chars_of("error[");
    let mut bracket: Option<usize> = None;
    if starts_with_chars(line.as_slice(), prefix.as_slice()) {
        let msg = sub_chars(line.as_slice(), prefix.len(), line.len());
        let sep = chars_of("]:");
        bracket = find_chars(msg.as_slice(), sep.as_slice(), 0);
    }
    assert(bracket_error_end(line@) == match bracket {
        Some(e) => e as int,
        None => -1,
    });
    match bracket {
        Some(e) => {
            let msg = sub_chars(line.as_slice(), prefix.len(), line.len());
            let sep = chars_of("]:");
            proof {
                lemma_find_from(msg@, sep@, 0);
            }
            let (file, line_no) = arrow_location(lines, i);
            let tail = sub_chars(msg.as_slice(), e + sep.len(), msg.len());
            let message = trim_chars(tail.as_slice());
            let context = context_lines(lines, i);
            push_failure(out, FailureType::Compile, job_name, file, line_no, message, context);
        },
        None => {
            let eprefix = chars_of("error:");
            let failure = chars_of("FAILURE:");
            if starts_with_chars(line.as_slice(), eprefix.as_slice()) {
                let (file, line_no) = arrow_location(lines, i);
                let tail = sub_chars(line.as_slice(), eprefix.len(), line.len());
                let message = trim_chars(tail.as_slice());
                let context = context_lines(lines, i);
                push_failure(out, FailureType::Compile, job_name, file, line_no, message, context);
            } else if contains_chars(line.as_slice(), failure.as_slice()) {
                let message = trim_chars(line.as_slice());
                let context = context_lines(lines, i);
                push_failure(out, FailureType::Compile, job_name, None, None, message, context);
            }
        },
    }
    assert(failure_views(out@) =~= start + compile_spec(job_name@, vl, i as int));
    let ghost after_compile = failure_views(out@);

    // test failure
    let line_str = string_of(line.as_slice());
    let panicked = chars_of("panicked at");
    let failed_upper = chars_of("FAILED");
    let tests_failed = chars_of("Tests failed");
    if contains_chars(line.as_slice(), panicked.as_slice()) {
        let file = capture(PANIC_FILE_RE, line_str.as_str(), 1);
        let line_no = opt_u32_of(capture(PANIC_LINE_RE, line_str.as_str(), 1));
        let message = trim_chars(line.as_slice());
        let context = context_lines(lines, i);
        push_failure(out, FailureType::Test, job_name, file, line_no, message, context);
    } else if contains_chars(line.as_slice(), failed_upper.as_slice()) || contains_chars(
        line.as_slice(),
        tests_failed.as_slice(),
    ) {
        let message = trim_chars(line.as_slice());
        let context = context_lines(lines, i);
        push_failure(out, FailureType::Test, job_name, None, None, message, context);
    }
    assert(failure_views(out@) =~= after_compile + test_spec(job_name@, vl, i as int));
    let ghost after_test = failure_views(out@);

    // timeout
    let timed_out = chars_of("timed out");
    let killed = chars_of("killed");
    if contains_chars(line.as_slice(), timed_out.as_slice()) || contains_chars(
        line.as_slice(),
        killed.as_slice(),
    ) {
        let message = trim_chars(line.as_slice());
        let context = context_lines(lines, i);
        push_failure(out, FailureType::Timeout, job_name, None, None, message, context);
    }
    assert(failure_views(out@) =~= after_test + timeout_spec(job_name@, vl, i as int));
    assert(failure_views(out@) =~= start + line_failures(job_name@, vl, i as int));
}

/// Merges consecutive failures with the same message, keeping the first.
fn dedup_failures(v: Vec<ParsedFailure>) -> (r: Vec<ParsedFailure>)
    ensures
        failure_views(r@) == dedup_spec(failure_views(v@)),
{
    let ghost all = failure_views(v@);
    let mut out: Vec<ParsedFailure> = Vec::new();
    for f in it: v
        invariant
            it.seq() == v@,
            all == failure_views(v@),
            failure_views(out@) == dedup_spec(all.take(it.index() as int)),
    {
        let ghost k = it.index() as int;
        proof {
            let t = all.take(k + 1);
            assert(t.drop_last() =~= all.take(k));
            assert(t.last() == f@);
        }
        let n = out.len();
        let dup = n > 0 && out[n - 1].error_message == f.error_message;
        if !dup {
            let ghost before = out@;
            out.push(f);
            assert(failure_views(out@) =~= failure_views(before).push(f@));
        }
    }
    assert(all.take(all.len() as int) =~= all);
    out
}

/// Parses a job log with the default limit.
pub fn parse_log(job_name: &str, log: &str) -> (r: Vec<ParsedFailure>)
    ensures
        failure_views(r@) == parse_log_spec(job_name@, log@, 10),
{
    parse_log_with_config(job_name, log, &LogParserConfig::default())
}

/// Parses a job log: every failure the lines report, consecutive failures with
/// the same message merged, at most `config.max_failures` kept.
pub fn parse_log_with_config(job_name: &str, log: &str, config: &LogParserConfig) -> (r: Vec<ParsedFailure>)
    ensures
        failure_views(r@) == parse_log_spec(job_name@, log@, config.max_failures as int),
{
    let chars = chars_of(log);
    let lines = split_lines(chars.as_slice());
    let ghost vl = views(lines@);
    let mut failures: Vec<ParsedFailure> = Vec::new();
    let mut i: usize = 0;
    while i < lines.len()
        invariant
            i <= lines.len(),
            vl == views(lines@),
            vl == lines_of(log@),
            failure_views(failures@) == raw_failures(job_name@, vl, i as int),
        decreases lines.len() - i,
    {
        parse_line_into(&mut failures, job_name, &lines, i);
        i = i + 1;
    }
    let mut d = dedup_failures(failures);
    let ghost dv = failure_views(d@);
    d.truncate(config.max_failures);
    proof {
        if (config.max_failures as int) <= dv.len() {
            assert(failure_views(d@) =~= dv.take(config.max_failures as int));
        } else {
            assert(failure_views(d@) =~= dv);
        }
    }
    d
}

} // verus!
