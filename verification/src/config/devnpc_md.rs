//! `.devnpc.md`: an optional YAML front matter between `---` lines, then
//! Markdown guidelines.
//!
//! ```markdown
//! ---
//! sop_mode: strict
//! forbidden_paths:
//!   - ".gitlab-ci.yml"
//! ---
//! # Project guidelines
//! ```
//!
//! The library finds the front matter and the body; the YAML text itself is
//! deserialised by the program around it.

use vstd::prelude::*;

use crate::text::{
    chars_of, chars_eq, join_range, join_spec, lines_of, skip_newlines, skip_newlines_chars,
    split_lines, starts_with_chars, starts_with_spec, string_of, trim_chars, trim_spec, views,
};

verus! {

/// The front matter; every field is optional.
#[derive(Debug, Clone, PartialEq, Eq)]
pub struct DevnpcMdFrontMatter {
    pub sop_mode: Option<String>,
    pub forbidden_paths: Option<Vec<String>>,
    pub required_checks: Option<Vec<String>>,
    pub branch_prefix: Option<String>,
    pub max_ci_retries: Option<u8>,
}

impl Default for DevnpcMdFrontMatter {
    fn default() -> (r: Self)
        ensures
            r.sop_mode is None,
            r.forbidden_paths is None,
            r.required_checks is None,
            r.branch_prefix is None,
            r.max_ci_retries is None,
    {
        DevnpcMdFrontMatter {
            sop_mode: None,
            forbidden_paths: None,
            required_checks: None,
            branch_prefix: None,
            max_ci_retries: None,
        }
    }
}

/// A parsed `.devnpc.md`: front matter and Markdown body.
#[derive(Debug, Clone, PartialEq, Eq)]
pub struct ParsedDevnpcMd {
    pub front_matter: DevnpcMdFrontMatter,
    pub guidelines_markdown: String,
}

impl Default for ParsedDevnpcMd {
    fn default() -> (r: Self)
        ensures
            r.front_matter.sop_mode is None,
            r.front_matter.forbidden_paths is None,
            r.front_matter.required_checks is None,
            r.front_matter.branch_prefix is None,
            r.front_matter.max_ci_retries is None,
            r.guidelines_markdown@.len() == 0,
    {
        ParsedDevnpcMd { front_matter: DevnpcMdFrontMatter::default(), guidelines_markdown: String::new() }
    }
}

/// The two parts of a `.devnpc.md`: the YAML text of the front matter (`None`
/// when there is none to parse) and the Markdown body.
#[derive(Debug, Clone)]
pub struct DevnpcMdParts {
    pub yaml: Option<String>,
    pub body: String,
}

/// Index of the first line from `i` on that is exactly `---`, or -1.
pub open spec fn closing_line(lines: Seq<Seq<char>>, i: int) -> int
    decreases lines.len() - i,
{
    if i < 0 || i >= lines.len() {
        -1
    } else if lines[i] == "---"@ {
        i
    } else {
        closing_line(lines, i + 1)
    }
}

/// The YAML text and body of `content`.
///
/// - A file that does not start with a `---` line has no front matter: it is all body.
/// - Without a closing `---` line, the file is all body as well.
/// - Otherwise the lines in between are the YAML (none when they are blank), and the
///   lines after the closing one, joined and stripped of leading newlines, the body.
pub open spec fn split_spec(content: Seq<char>) -> (Option<Seq<char>>, Seq<char>) {
    if !starts_with_spec(content, "---\n"@) && !starts_with_spec(content, "---\r\n"@) {
        (None, content)
    } else {
        let lines = lines_of(content);
        let end = closing_line(lines, 1);
        if end < 0 {
            (None, content)
        } else {
            let yaml = join_spec(lines.subrange(1, end), "\n"@);
            let body = skip_newlines(join_spec(lines.subrange(end + 1, lines.len() as int), "\n"@));
            (if trim_spec(yaml).len() == 0 { None } else { Some(yaml) }, body)
        }
    }
}

/// Splits a `.devnpc.md` into its front matter text and its body.
pub fn split_devnpc_md(content: &str) -> (r: DevnpcMdParts)
    ensures
        (r.yaml.deep_view(), r.body@) == split_spec(content@),
{
    let chars = chars_of(content);
    let open_lf = chars_of("---\n");
    let open_crlf = chars_of("---\r\n");
    if !starts_with_chars(chars.as_slice(), open_lf.as_slice()) && !starts_with_chars(
        chars.as_slice(),
        open_crlf.as_slice(),
    ) {
        return DevnpcMdParts { yaml: None, body: String::from_str(content) };
    }
    let lines = split_lines(chars.as_slice());
    let ghost vl = views(lines@);
    if lines.len() == 0 {
        return DevnpcMdParts { yaml: None, body: String::from_str(content) };
    }
    let marker = chars_of("---");
    let mut end: usize = 1;
    while end < lines.len() && !chars_eq(lines[end].as_slice(), marker.as_slice())
        invariant
            1 <= end <= lines.len(),
            vl == views(lines@),
            vl == lines_of(content@),
            marker@ == "---"@,
            closing_line(vl, end as int) == closing_line(vl, 1),
        decreases lines.len() - end,
    {
        assert(vl[end as int] == lines@[end as int]@);
        end = end + 1;
    }
    if end >= lines.len() {
        return DevnpcMdParts { yaml: None, body: String::from_str(content) };
    }
    assert(vl[end as int] == lines@[end as int]@);
    let nl = chars_of("\n");
    let yaml = join_range(&lines, 1, end, nl.as_slice());
    let rest = join_range(&lines, end + 1, lines.len(), nl.as_slice());
    let body = skip_newlines_chars(rest.as_slice());
    let trimmed = trim_chars(yaml.as_slice());
    let yaml_text = if trimmed.len() == 0 {
        None
    } else {
        Some(string_of(yaml.as_slice()))
    };
    DevnpcMdParts { yaml: yaml_text, body: string_of(body.as_slice()) }
}

} // verus!
