//! JSON text of strings and lists of strings, as `serde_json` writes them.

use vstd::prelude::*;

use crate::text::{join_spec, str_views};

verus! {

/// A lower-case hexadecimal digit.
pub open spec fn hex_digit(n: int) -> char {
    if n < 10 {
        (n + 48) as char
    } else {
        (n + 87) as char
    }
}

/// How one character is written inside a JSON string literal: `"` and `\`
/// and the control characters below U+0020 are escaped, every other
/// character stands as it is.
pub open spec fn json_escape_char(c: char) -> Seq<char> {
    if c == '"' {
        seq!['\\', '"']
    } else if c == '\\' {
        seq!['\\', '\\']
    } else if c == '\x08' {
        seq!['\\', 'b']
    } else if c == '\t' {
        seq!['\\', 't']
    } else if c == '\n' {
        seq!['\\', 'n']
    } else if c == '\x0c' {
        seq!['\\', 'f']
    } else if c == '\r' {
        seq!['\\', 'r']
    } else if (c as u32) < 0x20 {
        seq!['\\', 'u', '0', '0', hex_digit((c as int) / 16), hex_digit((c as int) % 16)]
    } else {
        seq![c]
    }
}

/// The characters of `s`, each escaped.
pub open spec fn json_escaped(s: Seq<char>) -> Seq<char>
    decreases s.len(),
{
    if s.len() == 0 {
        Seq::empty()
    } else {
        json_escaped(s.drop_last()) + json_escape_char(s.last())
    }
}

/// The JSON string literal of `s`.
pub open spec fn json_quote(s: Seq<char>) -> Seq<char> {
    "\""@ + json_escaped(s) + "\""@
}

/// The JSON array of the string literals of `items`.
pub open spec fn json_array(items: Seq<Seq<char>>) -> Seq<char> {
    "["@ + join_spec(items.map_values(|s: Seq<char>| json_quote(s)), ","@) + "]"@
}

/// A character that a JSON string literal holds as it is.
pub open spec fn json_plain_char(c: char) -> bool {
    c != '"' && c != '\\' && (c as u32) >= 0x20
}

/// Text that a JSON string literal holds as it is.
pub open spec fn json_plain(s: Seq<char>) -> bool {
    forall|i: int| 0 <= i < s.len() ==> json_plain_char(#[trigger] s[i])
}

/// Plain text is its own escaping.
pub proof fn lemma_plain_escaped(s: Seq<char>)
    requires
        json_plain(s),
    ensures
        json_escaped(s) == s,
    decreases s.len(),
{
    if s.len() > 0 {
        let d = s.drop_last();
        assert(json_plain(d)) by {
            assert forall|i: int| 0 <= i < d.len() implies json_plain_char(#[trigger] d[i]) by {
                assert(d[i] == s[i]);
            }
        }
        lemma_plain_escaped(d);
        assert(json_plain_char(s[s.len() - 1]));
        assert(json_escape_char(s.last()) == seq![s.last()]);
        assert(s =~= d.push(s.last()));
    }
}

/// `serde_json::to_string` on a string. Its source writes `"`, then each
/// character escaped by its table (`"`, `\`, and the bytes below 0x20,
/// those as `\uXXXX` with lower-case digits unless they have a short form),
/// then `"`; writing into a vector never fails, so the result is `Ok`.
#[verifier::external_body]
pub(crate) fn json_string(s: &str) -> (r: Option<String>)
    ensures
        r.deep_view() == Some(json_quote(s@)),
{
    serde_json::to_string(s).ok()
}

/// `serde_json::to_string` on a list of strings: `[`, the string literals
/// (written as by [`json_string`]) separated by `,`, then `]`; never fails.
#[verifier::external_body]
pub(crate) fn json_list(v: &Vec<String>) -> (r: Option<String>)
    ensures
        r.deep_view() == Some(json_array(str_views(v@))),
{
    serde_json::to_string(v).ok()
}

} // verus!
