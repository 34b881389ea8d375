//! Communication between agents through GitLab comments.
//!
//! A handoff is a JSON object between `[devnpc:handoff]` and
//! `[/devnpc:handoff]` in a comment:
//! `{"from":"PM","to":["dev"],"signal":"ready","payload":"..."}`.

use vstd::prelude::*;

use crate::error::DevnpcError;
use crate::json::{
    hex_digit, json_escape_char, json_escaped, json_plain, json_plain_char, json_quote, json_string, lemma_plain_escaped,
};
use crate::text::{
    chars_of, contains_spec, find_chars, find_from, is_white_space, join_spec, join_strings, lead_end, lemma_find_from, matches_at,
    str_views, string_of, sub_chars, trail_start, trim_chars, trim_spec,
};

verus! {

/// A handoff between agents.
#[derive(Debug, Clone)]
pub struct Handoff {
    /// The sending role.
    pub from: String,
    /// The receiving roles.
    pub to: Vec<String>,
    /// `ready`, `done`, `review` or `merge`.
    pub signal: String,
    /// The task details or results.
    pub payload: String,
}

/// The fields of a handoff object as JSON decoding reads them: each string
/// field when it is a string, and the items of `to` that are strings.
#[derive(Debug, Clone)]
pub struct HandoffJson {
    pub from: Option<String>,
    pub to: Option<Vec<Option<String>>>,
    pub signal: Option<String>,
    pub payload: Option<String>,
}

/// The opening marker.
pub const HANDOFF_START: &'static str = "[devnpc:handoff]";

/// The closing marker.
pub const HANDOFF_END: &'static str = "[/devnpc:handoff]";

/// What decoding `content` as JSON (`serde_json::from_str::<Value>`) and
/// reading the `from`, `to`, `signal` and `payload` members gives, or the
/// decoder's error message.
pub uninterp spec fn handoff_json_of(content: Seq<char>) -> Result<
    (Option<Seq<char>>, Option<Seq<Option<Seq<char>>>>, Option<Seq<char>>, Option<Seq<char>>),
    Seq<char>,
>;

/// The members of a handoff as plain values.
pub open spec fn json_fields(j: HandoffJson) -> (
    Option<Seq<char>>,
    Option<Seq<Option<Seq<char>>>>,
    Option<Seq<char>>,
    Option<Seq<char>>,
) {
    (
        j.from.deep_view(),
        match j.to {
            Some(v) => Some(v.deep_view()),
            None => None,
        },
        j.signal.deep_view(),
        j.payload.deep_view(),
    )
}

/// Decodes `content` with `serde_json::from_str::<serde_json::Value>` and
/// reads the handoff members with `Value::get`, `Value::as_str` and
/// `Value::as_array`; on a decoding error, its message. Beyond naming the
/// outcome [`handoff_json_of`], one fact of the decoder is claimed: an
/// object of the four members, each a string literal as `serde_json` writes
/// it ([`json_quote`]), decodes and reads back the strings that were
/// written. What the decoder does with other text is left unsaid.
#[verifier::external_body]
fn handoff_json(content: &str) -> (r: Result<HandoffJson, String>)
    ensures
        match r {
            Ok(j) => handoff_json_of(content@) == Ok::<_, Seq<char>>(json_fields(j)),
            Err(e) => handoff_json_of(content@) == Err::<
                (Option<Seq<char>>, Option<Seq<Option<Seq<char>>>>, Option<Seq<char>>, Option<Seq<char>>),
                Seq<char>,
            >(e@),
        },
        match r {
            Ok(j) => forall|f: Seq<char>, to: Seq<Seq<char>>, s: Seq<char>, p: Seq<char>|
                #[trigger] json_handoff(f, to, s, p) == content@ ==> json_fields(j) == (
                    Some(f),
                    Some(to.map_values(|t: Seq<char>| Some(t))),
                    Some(s),
                    Some(p),
                ),
            Err(_) => forall|f: Seq<char>, to: Seq<Seq<char>>, s: Seq<char>, p: Seq<char>|
                #[trigger] json_handoff(f, to, s, p) != content@,
        },
{
    match serde_json::from_str::<serde_json::Value>(content) {
        Ok(v) => Ok(HandoffJson {
            from: v.get("from").and_then(|x| x.as_str()).map(String::from),
            to: v.get("to").and_then(|x| x.as_array()).map(|a| a.iter().map(|x| x.as_str().map(String::from)).collect()),
            signal: v.get("signal").and_then(|x| x.as_str()).map(String::from),
            payload: v.get("payload").and_then(|x| x.as_str()).map(String::from),
        }),
        Err(e) => Err(e.to_string()),
    }
}

/// The text between the first opening marker and the first closing marker after it, trimmed.
pub open spec fn handoff_content(body: Seq<char>) -> Option<Seq<char>> {
    let s = find_from(body, HANDOFF_START@, 0);
    if s < 0 {
        None
    } else {
        let c = s + HANDOFF_START@.len();
        let rest = body.subrange(c, body.len() as int);
        let e = find_from(rest, HANDOFF_END@, 0);
        if e < 0 {
            None
        } else {
            Some(trim_spec(rest.subrange(0, e)))
        }
    }
}

/// The items of `to` that are strings, in order.
pub open spec fn string_items(v: Seq<Option<Seq<char>>>) -> Seq<Seq<char>>
    decreases v.len(),
{
    if v.len() == 0 {
        Seq::empty()
    } else {
        let r = string_items(v.drop_last());
        match v.last() {
            Some(s) => r.push(s),
            None => r,
        }
    }
}

/// The outcome of parsing a comment for a handoff.
pub open spec fn handoff_matches(r: Result<Option<Handoff>, DevnpcError>, body: Seq<char>) -> bool {
    match handoff_content(body) {
        None => r matches Ok(None),
        Some(content) => match handoff_json_of(content) {
            Err(msg) => r matches Err(DevnpcError::Config(m)) && m@ == "handoff JSON 解析失败: "@ + msg,
            Ok((from, to, signal, payload)) => if from is None {
                r matches Err(DevnpcError::Config(m)) && m@ == "handoff 缺少 from 字段"@
            } else if signal is None {
                r matches Err(DevnpcError::Config(m)) && m@ == "handoff 缺少 signal 字段"@
            } else {
                r matches Ok(Some(h)) && h.from@ == from->0 && str_views(h.to@) == match to {
                    Some(items) => string_items(items),
                    None => Seq::empty(),
                } && h.signal@ == signal->0 && h.payload@ == match payload {
                    Some(p) => p,
                    None => Seq::empty(),
                }
            },
        },
    }
}

fn config_error(prefix: &str, detail: &str) -> (e: DevnpcError)
    ensures
        e matches DevnpcError::Config(m) && m@ == prefix@ + detail@,
{
    let mut m = String::from_str(prefix);
    m.append(detail);
    DevnpcError::Config(m)
}

/// Extracts the handoff of a comment: none without both markers; an error
/// when the JSON does not decode or lacks `from` or `signal`.
pub fn parse_handoff(body: &str) -> (r: Result<Option<Handoff>, DevnpcError>)
    ensures
        handoff_matches(r, body@),
        forall|f: Seq<char>, to: Seq<Seq<char>>, s: Seq<char>, p: Seq<char>|
            #[trigger] handoff_text(f, to, s, p) == body@ && handoff_round_trips(f, to, s, p) ==> (r matches Ok(Some(h))
                && h.from@ == f && str_views(h.to@) == to && h.signal@ == s && h.payload@ == p),
{
    let bv = chars_of(body);
    let sv = chars_of(HANDOFF_START);
    let ev = chars_of(HANDOFF_END);
    let s = match find_chars(bv.as_slice(), sv.as_slice(), 0) {
        Some(s) => s,
        None => {
            proof {
                assert forall|f: Seq<char>, to: Seq<Seq<char>>, s: Seq<char>, p: Seq<char>|
                    #[trigger] handoff_text(f, to, s, p) == body@ implies !handoff_round_trips(f, to, s, p) by {
                    if handoff_round_trips(f, to, s, p) {
                        lemma_round_trip_content(f, to, s, p);
                    }
                }
            }
            return Ok(None);
        },
    };
    proof {
        lemma_find_from(bv@, sv@, 0);
        assert(matches_at(bv@, sv@, s as int));
    }
    assert(sv.len() == sv@.len());
    assert(s + sv.len() <= bv.len());
    let c = s + sv.len();
    let rest = sub_chars(bv.as_slice(), c, bv.len());
    let e = match find_chars(rest.as_slice(), ev.as_slice(), 0) {
        Some(e) => e,
        None => {
            proof {
                assert forall|f: Seq<char>, to: Seq<Seq<char>>, s: Seq<char>, p: Seq<char>|
                    #[trigger] handoff_text(f, to, s, p) == body@ implies !handoff_round_trips(f, to, s, p) by {
                    if handoff_round_trips(f, to, s, p) {
                        lemma_round_trip_content(f, to, s, p);
                    }
                }
            }
            return Ok(None);
        },
    };
    proof {
        lemma_find_from(rest@, ev@, 0);
    }
    let inner = sub_chars(rest.as_slice(), 0, e);
    let content = string_of(trim_chars(inner.as_slice()).as_slice());
    let read = handoff_json(content.as_str());
    proof {
        assert forall|f: Seq<char>, to: Seq<Seq<char>>, s: Seq<char>, p: Seq<char>|
            #[trigger] handoff_text(f, to, s, p) == body@ && handoff_round_trips(f, to, s, p) implies (read matches Ok(j)
                && json_fields(j) == (Some(f), Some(to.map_values(|t: Seq<char>| Some(t))), Some(s), Some(p))
                && string_items(to.map_values(|t: Seq<char>| Some(t))) == to) by {
            lemma_round_trip_content(f, to, s, p);
        }
    }
    let fields = match read {
        Ok(f) => f,
        Err(m) => return Err(config_error("handoff JSON 解析失败: ", m.as_str())),
    };
    let from = match fields.from {
        Some(f) => f,
        None => return Err(DevnpcError::Config(String::from_str("handoff 缺少 from 字段"))),
    };
    let signal = match fields.signal {
        Some(s) => s,
        None => return Err(DevnpcError::Config(String::from_str("handoff 缺少 signal 字段"))),
    };
    let mut to: Vec<String> = Vec::new();
    match fields.to {
        Some(items) => {
            let ghost iv = items.deep_view();
            let ghost items_v = items@;
            assert(forall|j: int| 0 <= j < iv.len() ==> iv[j] == #[trigger] items_v[j].deep_view());
            for item in it: items
                invariant
                    it.seq() == items_v,
                    iv.len() == items_v.len(),
                    forall|j: int| 0 <= j < iv.len() ==> iv[j] == #[trigger] items_v[j].deep_view(),
                    str_views(to@) == string_items(iv.take(it.index() as int)),
            {
                let ghost k = it.index() as int;
                proof {
                    let t = iv.take(k + 1);
                    assert(t.drop_last() =~= iv.take(k));
                    assert(iv[k] == item.deep_view());
                }
                match item {
                    Some(s) => {
                        let ghost before = str_views(to@);
                        to.push(s);
                        assert(str_views(to@) =~= before.push(to@.last()@));
                    },
                    None => {},
                }
            }
            assert(iv.take(iv.len() as int) =~= iv);
        },
        None => {
            assert(str_views(to@) =~= Seq::<Seq<char>>::empty());
        },
    }
    let payload = match fields.payload {
        Some(p) => p,
        None => String::new(),
    };
    Ok(Some(Handoff { from, to, signal, payload }))
}

/// A name between double quotes, as written into a handoff.
pub open spec fn quoted(s: Seq<char>) -> Seq<char> {
    "\""@ + s + "\""@
}

/// The JSON object of a handoff, from the literals of its members.
pub open spec fn handoff_object(from: Seq<char>, to: Seq<Seq<char>>, signal: Seq<char>, payload: Seq<char>) -> Seq<char> {
    "{\"from\":"@ + from + ",\"to\":["@ + join_spec(to, ","@) + "],\"signal\":"@ + signal + ",\"payload\":"@ + payload
        + "}"@
}

/// A handoff comment. Role names and the signal are written between quotes
/// as they are; the payload is a JSON string literal.
pub open spec fn handoff_text(from: Seq<char>, to: Seq<Seq<char>>, signal: Seq<char>, payload: Seq<char>) -> Seq<char> {
    HANDOFF_START@ + handoff_object(
        quoted(from),
        to.map_values(|t: Seq<char>| quoted(t)),
        quoted(signal),
        json_quote(payload),
    ) + HANDOFF_END@
}

/// The handoff object with every member a JSON string literal.
pub open spec fn json_handoff(from: Seq<char>, to: Seq<Seq<char>>, signal: Seq<char>, payload: Seq<char>) -> Seq<char> {
    handoff_object(
        json_quote(from),
        to.map_values(|t: Seq<char>| json_quote(t)),
        json_quote(signal),
        json_quote(payload),
    )
}

/// The inputs on which a written handoff reads back as it was written:
/// names and signal that need no JSON escaping, and no closing marker
/// inside the object.
pub open spec fn handoff_round_trips(from: Seq<char>, to: Seq<Seq<char>>, signal: Seq<char>, payload: Seq<char>) -> bool {
    &&& json_plain(from)
    &&& json_plain(signal)
    &&& forall|i: int| 0 <= i < to.len() ==> json_plain(#[trigger] to[i])
    &&& find_from(json_handoff(from, to, signal, payload), HANDOFF_END@, 0) < 0
}

fn quote(s: &str) -> (r: String)
    ensures
        r@ == quoted(s@),
{
    let mut q = String::from_str("\"");
    q.append(s);
    q.append("\"");
    q
}

/// Writes a handoff comment.
pub fn build_handoff(from: &str, to: &Vec<String>, signal: &str, payload: &str) -> (r: String)
    ensures
        r@ == handoff_text(from@, str_views(to@), signal@, payload@),
{
    let ghost tv = str_views(to@);
    let mut items: Vec<String> = Vec::new();
    let mut i: usize = 0;
    while i < to.len()
        invariant
            i <= to.len(),
            tv == str_views(to@),
            str_views(items@) == tv.map_values(|t: Seq<char>| quoted(t)).take(i as int),
        decreases to.len() - i,
    {
        let q = quote(to[i].as_str());
        let ghost before = str_views(items@);
        items.push(q);
        assert(str_views(items@) =~= before.push(quoted(tv[i as int])));
        assert(tv.map_values(|t: Seq<char>| quoted(t)).take(i + 1) =~= tv.map_values(|t: Seq<char>| quoted(t)).take(
            i as int,
        ).push(quoted(tv[i as int])));
        i = i + 1;
    }
    assert(tv.map_values(|t: Seq<char>| quoted(t)).take(tv.len() as int) =~= tv.map_values(|t: Seq<char>| quoted(t)));
    let payload_json = match json_string(payload) {
        Some(j) => j,
        None => quote(payload),
    };
    let mut s = String::from_str(HANDOFF_START);
    s.append("{\"from\":");
    s.append(quote(from).as_str());
    s.append(",\"to\":[");
    s.append(join_strings(&items, ",").as_str());
    s.append("],\"signal\":");
    s.append(quote(signal).as_str());
    s.append(",\"payload\":");
    s.append(payload_json.as_str());
    s.append("}");
    s.append(HANDOFF_END);
    assert(s@ =~= handoff_text(from@, tv, signal@, payload@));
    s
}

/// Quoting and JSON-quoting agree on text that needs no escaping.
proof fn lemma_quoted_plain(s: Seq<char>)
    requires
        json_plain(s),
    ensures
        quoted(s) == json_quote(s),
{
    lemma_plain_escaped(s);
}

/// On round-tripping inputs the comment frames the JSON handoff object.
proof fn lemma_handoff_text_frames(from: Seq<char>, to: Seq<Seq<char>>, signal: Seq<char>, payload: Seq<char>)
    requires
        handoff_round_trips(from, to, signal, payload),
    ensures
        handoff_text(from, to, signal, payload) == HANDOFF_START@ + json_handoff(from, to, signal, payload) + HANDOFF_END@,
{
    lemma_quoted_plain(from);
    lemma_quoted_plain(signal);
    assert forall|i: int| 0 <= i < to.len() implies #[trigger] quoted(to[i]) == json_quote(to[i]) by {
        lemma_quoted_plain(to[i]);
    }
    assert(to.map_values(|t: Seq<char>| quoted(t)) =~= to.map_values(|t: Seq<char>| json_quote(t)));
}

/// An object between the markers, with no closing marker inside it, is the
/// content that parsing finds.
proof fn lemma_framed_content(obj: Seq<char>)
    requires
        obj.len() >= 1,
        obj[0] == '{',
        obj[obj.len() - 1] == '}',
        find_from(obj, HANDOFF_END@, 0) < 0,
    ensures
        handoff_content(HANDOFF_START@ + obj + HANDOFF_END@) == Some(obj),
{
    reveal_strlit("[devnpc:handoff]");
    reveal_strlit("[/devnpc:handoff]");
    let st = HANDOFF_START@;
    let en = HANDOFF_END@;
    let body = st + obj + en;
    assert(body.subrange(0, st.len() as int) =~= st);
    assert(matches_at(body, st, 0));
    assert(find_from(body, st, 0) == 0);
    let c = st.len() as int;
    let rest = body.subrange(c, body.len() as int);
    assert(rest =~= obj + en);
    let l = obj.len() as int;
    assert(rest.subrange(l, l + en.len()) =~= en);
    assert(matches_at(rest, en, l));
    lemma_find_from(obj, en, 0);
    assert forall|k: int| 0 <= k < l implies !#[trigger] matches_at(rest, en, k) by {
        if k + en.len() <= l {
            assert(rest.subrange(k, k + en.len()) =~= obj.subrange(k, k + en.len()));
            assert(!matches_at(obj, en, k));
        } else if matches_at(rest, en, k) {
            let j = l - 1 - k;
            assert(rest.subrange(k, k + en.len())[j] == rest[l - 1]);
            assert(rest[l - 1] == '}');
            assert(en[j] != '}');
        }
    }
    lemma_find_from(rest, en, 0);
    let e = find_from(rest, en, 0);
    assert(e == l) by {
        if e == -1 {
            assert(!matches_at(rest, en, l));
        } else if e < l {
            assert(!matches_at(rest, en, e));
        } else if e > l {
            assert(!matches_at(rest, en, l));
        }
    }
    assert(rest.subrange(0, e) =~= obj);
    assert(!is_white_space(obj[0]));
    assert(lead_end(obj, 0) == 0);
    assert(!is_white_space(obj[l - 1]));
    assert(trail_start(obj, l) == l);
    assert(obj.subrange(0, l) =~= obj);
}

/// The JSON handoff object opens with `{` and closes with `}`.
proof fn lemma_json_handoff_braces(from: Seq<char>, to: Seq<Seq<char>>, signal: Seq<char>, payload: Seq<char>)
    ensures
        json_handoff(from, to, signal, payload).len() >= 1,
        json_handoff(from, to, signal, payload)[0] == '{',
        json_handoff(from, to, signal, payload)[json_handoff(from, to, signal, payload).len() - 1] == '}',
{
    reveal_strlit("{\"from\":");
    reveal_strlit("}");
}

/// Reading back the recipients that were all strings gives them all.
proof fn lemma_string_items_all(to: Seq<Seq<char>>)
    ensures
        string_items(to.map_values(|t: Seq<char>| Some(t))) == to,
    decreases to.len(),
{
    if to.len() > 0 {
        let d = to.drop_last();
        lemma_string_items_all(d);
        assert(to.map_values(|t: Seq<char>| Some(t)).drop_last() =~= d.map_values(|t: Seq<char>| Some(t)));
        assert(to =~= d.push(to.last()));
    }
}

/// On round-tripping inputs, parsing the written comment finds the JSON
/// handoff object.
proof fn lemma_round_trip_content(from: Seq<char>, to: Seq<Seq<char>>, signal: Seq<char>, payload: Seq<char>)
    requires
        handoff_round_trips(from, to, signal, payload),
    ensures
        handoff_content(handoff_text(from, to, signal, payload)) == Some(json_handoff(from, to, signal, payload)),
        string_items(to.map_values(|t: Seq<char>| Some(t))) == to,
{
    lemma_handoff_text_frames(from, to, signal, payload);
    lemma_json_handoff_braces(from, to, signal, payload);
    lemma_framed_content(json_handoff(from, to, signal, payload));
    lemma_string_items_all(to);
}


/// No occurrence of `n` in `s`.
pub open spec fn free_of(s: Seq<char>, n: Seq<char>) -> bool {
    forall|k: int| !#[trigger] matches_at(s, n, k)
}

/// The closing marker holds no `"`, `,` or `\`, starts with `[`, and has no
/// `[` followed by `]` nor `f` followed by `"`.
proof fn lemma_end_chars()
    ensures
        HANDOFF_END@.len() == 17,
        HANDOFF_END@[0] == '[',
        HANDOFF_END@[16] == ']',
        forall|j: int| 0 <= j < 17 ==> #[trigger] HANDOFF_END@[j] != '"' && HANDOFF_END@[j] != ',' && HANDOFF_END@[j] != '\\',
        forall|j: int| 0 <= j < 16 ==> !(#[trigger] HANDOFF_END@[j] == '[' && HANDOFF_END@[j + 1] == ']'),
{
    reveal_strlit("[/devnpc:handoff]");
}

/// No occurrence in `a + b` when there is none in either part and no
/// neighbouring pair of `n` matches the last character of `a` and the first
/// of `b`.
proof fn lemma_concat_free(a: Seq<char>, b: Seq<char>, n: Seq<char>)
    requires
        n.len() >= 2,
        free_of(a, n),
        free_of(b, n),
        a.len() > 0 && b.len() > 0 ==> forall|j: int|
            0 <= j < n.len() - 1 ==> !(#[trigger] n[j] == a.last() && n[j + 1] == b[0]),
    ensures
        free_of(a + b, n),
{
    let ab = a + b;
    assert forall|k: int| !#[trigger] matches_at(ab, n, k) by {
        if matches_at(ab, n, k) {
            if k + n.len() <= a.len() {
                assert(ab.subrange(k, k + n.len()) =~= a.subrange(k, k + n.len()));
                assert(matches_at(a, n, k));
            } else if k >= a.len() {
                assert(ab.subrange(k, k + n.len()) =~= b.subrange(k - a.len(), k - a.len() + n.len()));
                assert(matches_at(b, n, k - a.len()));
            } else {
                let j = a.len() - 1 - k;
                assert(ab.subrange(k, k + n.len())[j] == ab[a.len() - 1]);
                assert(ab.subrange(k, k + n.len())[j + 1] == ab[a.len() as int]);
                assert(n[j] == a.last() && n[j + 1] == b[0]);
            }
        }
    }
}

/// Text shorter than the marker holds none.
proof fn lemma_short_free(s: Seq<char>)
    requires
        s.len() < 17,
    ensures
        free_of(s, HANDOFF_END@),
{
    lemma_end_chars();
}

/// The marker does not occur in a quoted name that does not hold it.
proof fn lemma_quoted_free(t: Seq<char>)
    requires
        free_of(t, HANDOFF_END@),
    ensures
        free_of(quoted(t), HANDOFF_END@),
        quoted(t).len() >= 2,
        quoted(t)[0] == '"',
        quoted(t)[quoted(t).len() - 1] == '"',
{
    reveal_strlit("\"");
    lemma_end_chars();
    let q = "\""@;
    lemma_short_free(q);
    lemma_concat_free(q, t, HANDOFF_END@);
    lemma_concat_free(q + t, q, HANDOFF_END@);
}

/// The escaping of a character that needs it: a backslash, then at most five
/// characters, none of them `[`.
proof fn lemma_escape_shape(c: char)
    requires
        !json_plain_char(c),
    ensures
        2 <= json_escape_char(c).len() <= 6,
        json_escape_char(c)[0] == '\\',
        forall|i: int| 0 <= i < json_escape_char(c).len() ==> #[trigger] json_escape_char(c)[i] != '[',
{
    let n = c as int;
    if c != '"' && c != '\\' && c != '\x08' && c != '\t' && c != '\n' && c != '\x0c' && c != '\r' {
        assert(0 <= n < 32);
        let hi = n / 16;
        let lo = n % 16;
        assert(0 <= hi < 10);
        assert(0 <= lo < 16);
        assert(hex_digit(hi) != '[');
        assert(hex_digit(lo) != '[');
    }
}

/// Escaped text that ends with a backslash-free piece starting with `[`
/// comes from text that ends with that piece.
proof fn lemma_escaped_suffix(d: Seq<char>, w: Seq<char>)
    requires
        w.len() >= 1,
        w[0] == '[',
        forall|i: int| 0 <= i < w.len() ==> #[trigger] w[i] != '\\',
        w.len() <= json_escaped(d).len(),
        json_escaped(d).subrange(json_escaped(d).len() - w.len(), json_escaped(d).len() as int) == w,
    ensures
        w.len() <= d.len(),
        d.subrange(d.len() - w.len(), d.len() as int) == w,
    decreases d.len(),
{
    if d.len() > 0 {
        let d2 = d.drop_last();
        let c = d.last();
        let e = json_escaped(d);
        let e2 = json_escaped(d2);
        let ec = json_escape_char(c);
        assert(e == e2 + ec);
        if json_plain_char(c) {
            assert(ec == seq![c]);
            assert(w[w.len() - 1] == e[e.len() - 1]);
            if w.len() == 1 {
                assert(d.subrange(d.len() - 1, d.len() as int) =~= w);
            } else {
                let w2 = w.drop_last();
                assert(e2.subrange(e2.len() - w2.len(), e2.len() as int) =~= w2) by {
                    assert forall|i: int| 0 <= i < w2.len() implies e2.subrange(e2.len() - w2.len(), e2.len() as int)[i]
                        == w2[i] by {
                        assert(e[e.len() - w.len() + i] == w[i]);
                    }
                }
                lemma_escaped_suffix(d2, w2);
                assert(d.subrange(d.len() - w.len(), d.len() as int) =~= w) by {
                    assert forall|i: int| 0 <= i < w.len() implies d.subrange(d.len() - w.len(), d.len() as int)[i]
                        == w[i] by {
                        if i < w.len() - 1 {
                            assert(d2.subrange(d2.len() - w2.len(), d2.len() as int)[i] == w2[i]);
                        }
                    }
                }
            }
        } else {
            lemma_escape_shape(c);
            if w.len() > ec.len() {
                let i = w.len() - ec.len();
                assert(w[i] == e[e.len() - w.len() + i]);
                assert(e[e2.len() as int] == ec[0]);
            } else {
                assert(w[0] == e[e.len() - w.len()]);
                assert(e[e.len() - w.len()] == ec[ec.len() - w.len()]);
            }
        }
    }
}

/// Escaping brings in no closing marker.
proof fn lemma_escaped_free(p: Seq<char>)
    requires
        !contains_spec(p, HANDOFF_END@),
    ensures
        free_of(json_escaped(p), HANDOFF_END@),
    decreases p.len(),
{
    lemma_end_chars();
    let n = HANDOFF_END@;
    if p.len() > 0 {
        let d = p.drop_last();
        let c = p.last();
        assert(!contains_spec(d, n)) by {
            if contains_spec(d, n) {
                let k = choose|k: int| matches_at(d, n, k);
                assert(p.subrange(k, k + n.len()) =~= d.subrange(k, k + n.len()));
                assert(matches_at(p, n, k));
            }
        }
        lemma_escaped_free(d);
        let e = json_escaped(p);
        let ed = json_escaped(d);
        let ec = json_escape_char(c);
        assert(e == ed + ec);
        assert forall|k: int| !#[trigger] matches_at(e, n, k) by {
            if matches_at(e, n, k) {
                if k + n.len() <= ed.len() {
                    assert(e.subrange(k, k + n.len()) =~= ed.subrange(k, k + n.len()));
                    assert(matches_at(ed, n, k));
                } else if json_plain_char(c) {
                    assert(ec == seq![c]);
                    let w = n.subrange(0, 16);
                    assert(ed.subrange(ed.len() - 16, ed.len() as int) =~= w) by {
                        assert forall|i: int| 0 <= i < 16 implies ed.subrange(ed.len() - 16, ed.len() as int)[i] == w[i] by {
                            assert(e.subrange(k, k + n.len())[i] == e[k + i]);
                        }
                    }
                    lemma_escaped_suffix(d, w);
                    assert(e.subrange(k, k + n.len())[16] == c);
                    assert(p.subrange(p.len() - 17, p.len() as int) =~= n) by {
                        assert forall|i: int| 0 <= i < 17 implies p.subrange(p.len() - 17, p.len() as int)[i] == n[i] by {
                            if i < 16 {
                                assert(d.subrange(d.len() - 16, d.len() as int)[i] == w[i]);
                            }
                        }
                    }
                    assert(matches_at(p, n, p.len() - 17));
                } else {
                    lemma_escape_shape(c);
                    let j = ed.len() - k;
                    assert(e.subrange(k, k + n.len())[j] == e[ed.len() as int]);
                    assert(e[ed.len() as int] == ec[0]);
                }
            }
        }
    }
}

/// The JSON literal of a payload without the closing marker holds none.
proof fn lemma_json_quote_free(p: Seq<char>)
    requires
        !contains_spec(p, HANDOFF_END@),
    ensures
        free_of(json_quote(p), HANDOFF_END@),
        json_quote(p)[0] == '"',
        json_quote(p).len() >= 2,
        json_quote(p)[json_quote(p).len() - 1] == '"',
{
    reveal_strlit("\"");
    lemma_end_chars();
    lemma_escaped_free(p);
    let q = "\""@;
    lemma_short_free(q);
    lemma_concat_free(q, json_escaped(p), HANDOFF_END@);
    lemma_concat_free(q + json_escaped(p), q, HANDOFF_END@);
}

/// Quoted parts joined by commas hold no closing marker, and the joined text
/// starts and ends with `"` when there are parts.
proof fn lemma_join_free(parts: Seq<Seq<char>>)
    requires
        forall|i: int|
            0 <= i < parts.len() ==> #[trigger] parts[i].len() >= 2 && parts[i][0] == '"' && parts[i][parts[i].len() - 1]
                == '"' && free_of(parts[i], HANDOFF_END@),
    ensures
        free_of(join_spec(parts, ","@), HANDOFF_END@),
        parts.len() > 0 ==> join_spec(parts, ","@).len() >= 1 && join_spec(parts, ","@)[join_spec(parts, ","@).len() - 1]
            == '"' && join_spec(parts, ","@)[0] == '"',
    decreases parts.len(),
{
    reveal_strlit(",");
    lemma_end_chars();
    if parts.len() == 0 {
        lemma_short_free(join_spec(parts, ","@));
    } else if parts.len() == 1 {
        assert(parts[0].len() >= 2);
    } else {
        let d = parts.drop_last();
        assert forall|i: int| 0 <= i < d.len() implies #[trigger] d[i].len() >= 2 && d[i][0] == '"' && d[i][d[i].len() - 1]
            == '"' && free_of(d[i], HANDOFF_END@) by {
            assert(d[i] == parts[i]);
        }
        lemma_join_free(d);
        let j = join_spec(d, ","@);
        let last = parts[parts.len() - 1];
        assert(parts.last() == last);
        lemma_short_free(","@);
        lemma_concat_free(j, ","@, HANDOFF_END@);
        lemma_concat_free(j + ","@, last, HANDOFF_END@);
        assert(join_spec(parts, ","@) == j + ","@ + last);
        assert((j + ","@ + last)[0] == j[0]);
    }
}

/// Plain role names and signal, and no closing marker in any of the inputs,
/// make a handoff read back as it was written.
pub proof fn law_handoff_round_trip_inputs(from: Seq<char>, to: Seq<Seq<char>>, signal: Seq<char>, payload: Seq<char>)
    requires
        json_plain(from),
        json_plain(signal),
        forall|i: int| 0 <= i < to.len() ==> json_plain(#[trigger] to[i]),
        !contains_spec(from, HANDOFF_END@),
        !contains_spec(signal, HANDOFF_END@),
        forall|i: int| 0 <= i < to.len() ==> !contains_spec(#[trigger] to[i], HANDOFF_END@),
        !contains_spec(payload, HANDOFF_END@),
    ensures
        handoff_round_trips(from, to, signal, payload),
{
    let n = HANDOFF_END@;
    lemma_end_chars();
    reveal_strlit("{\"from\":");
    reveal_strlit(",\"to\":[");
    reveal_strlit("],\"signal\":");
    reveal_strlit(",\"payload\":");
    reveal_strlit("}");
    lemma_quoted_plain(from);
    lemma_quoted_plain(signal);
    lemma_quoted_free(from);
    lemma_quoted_free(signal);
    lemma_json_quote_free(payload);
    let parts = to.map_values(|t: Seq<char>| json_quote(t));
    assert forall|i: int| 0 <= i < parts.len() implies #[trigger] parts[i].len() >= 2 && parts[i][0] == '"'
        && parts[i][parts[i].len() - 1] == '"' && free_of(parts[i], n) by {
        lemma_quoted_plain(to[i]);
        lemma_quoted_free(to[i]);
    }
    lemma_join_free(parts);
    let fq = json_quote(from);
    let sq = json_quote(signal);
    let pq = json_quote(payload);
    let jn = join_spec(parts, ","@);
    let l1 = "{\"from\":"@;
    let l2 = ",\"to\":["@;
    let l3 = "],\"signal\":"@;
    let l4 = ",\"payload\":"@;
    let l5 = "}"@;
    lemma_short_free(l1);
    lemma_short_free(l2);
    lemma_short_free(l3);
    lemma_short_free(l4);
    lemma_short_free(l5);
    lemma_concat_free(l1, fq, n);
    let x1 = l1 + fq;
    lemma_concat_free(x1, l2, n);
    let x2 = x1 + l2;
    lemma_concat_free(x2, jn, n);
    let x3 = x2 + jn;
    assert(x3.len() > 0 ==> x3[x3.len() - 1] == '"' || x3[x3.len() - 1] == '[');
    lemma_concat_free(x3, l3, n);
    let x4 = x3 + l3;
    lemma_concat_free(x4, sq, n);
    let x5 = x4 + sq;
    lemma_concat_free(x5, l4, n);
    let x6 = x5 + l4;
    lemma_concat_free(x6, pq, n);
    let x7 = x6 + pq;
    lemma_concat_free(x7, l5, n);
    let obj = x7 + l5;
    assert(obj == json_handoff(from, to, signal, payload));
    lemma_find_from(obj, n, 0);
}

} // verus!
