//! Regular-expression matching, done by the `regex` crate.

use vstd::prelude::*;

verus! {

/// What `regex::Regex::new(pattern)` followed by `Regex::captures(text)` gives:
/// `None` when the pattern does not compile or does not match; otherwise the
/// capture groups of the leftmost-first match, group 0 being the whole match and
/// `None` standing for a group that did not take part in it.
pub uninterp spec fn regex_captures_of(pattern: Seq<char>, text: Seq<char>) -> Option<Seq<Option<Seq<char>>>>;

/// Compiles `pattern` with `regex::Regex::new` and returns the capture groups of
/// `Regex::captures(text)`. The contract only ties the result to the pattern and
/// the text through [`regex_captures_of`]; the matching semantics are the crate's.
#[verifier::external_body]
pub(crate) fn regex_captures(pattern: &str, text: &str) -> (r: Option<Vec<Option<String>>>)
    ensures
        r.deep_view() == regex_captures_of(pattern@, text@),
        regex_error_of(pattern@) is Some ==> r is None,
{
    match regex::Regex::new(pattern) {
        Ok(re) => re.captures(text).map(|c| c.iter().map(|m| m.map(|m| m.as_str().to_string())).collect()),
        Err(_) => None,
    }
}

/// What `regex::Regex::new(pattern)` reports for a pattern it refuses: the
/// error's text; `None` when the pattern compiles.
pub uninterp spec fn regex_error_of(pattern: Seq<char>) -> Option<Seq<char>>;

/// Compiles `pattern` with `regex::Regex::new` and gives the error's text when
/// the crate refuses it. The text itself is the crate's.
#[verifier::external_body]
pub(crate) fn regex_error(pattern: &str) -> (r: Option<String>)
    ensures
        r.deep_view() == regex_error_of(pattern@),
{
    regex::Regex::new(pattern).err().map(|e| e.to_string())
}

/// Whether `Regex::is_match(text)` holds for the compiled `pattern`.
pub uninterp spec fn regex_is_match_of(pattern: Seq<char>, text: Seq<char>) -> bool;

/// `Regex::is_match` of a pattern that compiles; the matching semantics are
/// the crate's and are only named by [`regex_is_match_of`].
#[verifier::external_body]
pub(crate) fn regex_is_match(pattern: &str, text: &str) -> (r: bool)
    requires
        regex_error_of(pattern@) is None,
    ensures
        r == regex_is_match_of(pattern@, text@),
{
    regex::Regex::new(pattern).unwrap().is_match(text)
}

/// What `Regex::replace_all(text, replacement)` gives for the compiled
/// `pattern`: every non-overlapping match replaced, `$` references in the
/// replacement expanded by the crate.
pub uninterp spec fn regex_replace_all_of(pattern: Seq<char>, text: Seq<char>, replacement: Seq<char>) -> Seq<char>;

/// `Regex::replace_all` of a pattern that compiles; the result is only named
/// by [`regex_replace_all_of`].
#[verifier::external_body]
pub(crate) fn regex_replace_all(pattern: &str, text: &str, replacement: &str) -> (r: String)
    requires
        regex_error_of(pattern@) is None,
    ensures
        r@ == regex_replace_all_of(pattern@, text@, replacement@),
{
    regex::Regex::new(pattern).unwrap().replace_all(text, replacement).to_string()
}

/// Capture group `i` of a captures result, when it took part in the match.
pub open spec fn group_of(caps: Option<Seq<Option<Seq<char>>>>, i: int) -> Option<Seq<char>> {
    match caps {
        Some(groups) => if 0 <= i < groups.len() {
            groups[i]
        } else {
            None
        },
        None => None,
    }
}

/// Capture group `i` of `pattern` matched against `text`.
pub open spec fn capture_spec(pattern: Seq<char>, text: Seq<char>, i: int) -> Option<Seq<char>> {
    group_of(regex_captures_of(pattern, text), i)
}

/// Capture group `i` of the first match of `pattern` in `text`.
pub fn capture(pattern: &str, text: &str, i: usize) -> (r: Option<String>)
    ensures
        r.deep_view() == capture_spec(pattern@, text@, i as int),
{
    let caps = regex_captures(pattern, text);
    match caps {
        Some(groups) => {
            if i < groups.len() {
                let g = &groups[i];
                match g {
                    Some(s) => Some(s.clone()),
                    None => None,
                }
            } else {
                None
            }
        },
        None => None,
    }
}

} // verus!
