//! MCP server descriptions: how to reach each MCP server (a local process
//! over stdio, or a remote one over streamable HTTP) and how to
//! authenticate. Connecting is done by the program around the library.

use vstd::prelude::*;

use crate::text::{chars_of, find_chars, find_from, lemma_find_from, matches_at, str_eq, str_views, string_of, sub_chars, clone_strings};

verus! {

/// Authentication for HTTP servers.
#[derive(Debug, Clone)]
pub struct McpAuthConfig {
    /// `Authorization: Bearer <token>`.
    pub bearer_token: Option<String>,
    /// A custom header and its key.
    pub api_key: Option<(String, String)>,
}

impl Default for McpAuthConfig {
    fn default() -> (r: Self)
        ensures
            r.bearer_token is None,
            r.api_key is None,
    {
        McpAuthConfig { bearer_token: None, api_key: None }
    }
}

/// The authentication a connection uses.
#[derive(Debug, Clone)]
pub enum McpAuthMode {
    Bearer(String),
    ApiKey { header: String, key: String },
    Anonymous,
}

impl McpAuthConfig {
    /// Whether any authentication is configured.
    pub fn is_configured(&self) -> (r: bool)
        ensures
            r == (self.bearer_token is Some || self.api_key is Some),
    {
        self.bearer_token.is_some() || self.api_key.is_some()
    }

    /// The authentication to use: the bearer token first, then the API key.
    pub fn mode(&self) -> (r: McpAuthMode)
        ensures
            match self.bearer_token {
                Some(t) => r matches McpAuthMode::Bearer(b) && b@ == t@,
                None => match self.api_key {
                    Some((h, k)) => r matches McpAuthMode::ApiKey { header, key } && header@ == h@ && key@ == k@,
                    None => r is Anonymous,
                },
            },
    {
        match &self.bearer_token {
            Some(t) => McpAuthMode::Bearer(t.clone()),
            None => match &self.api_key {
                Some((h, k)) => McpAuthMode::ApiKey { header: h.clone(), key: k.clone() },
                None => McpAuthMode::Anonymous,
            },
        }
    }
}

/// An MCP server.
#[derive(Debug, Clone)]
pub struct McpServerDesc {
    pub name: String,
    /// `stdio` or `http`.
    pub transport: String,
    pub command: Option<String>,
    pub args: Vec<String>,
    pub url: Option<String>,
    pub auth: McpAuthConfig,
    /// The HTTP connection timeout.
    pub timeout_secs: Option<u64>,
}

impl McpServerDesc {
    /// A server started as `command args…`, spoken to over stdio.
    pub fn stdio(name: &str, command: &str, args: Vec<String>) -> (r: Self)
        ensures
            r.name@ == name@,
            r.transport@ == "stdio"@,
            r.command.deep_view() == Some(command@),
            r.args == args,
            r.url is None,
            r.auth.bearer_token is None && r.auth.api_key is None,
            r.timeout_secs is None,
    {
        McpServerDesc {
            name: String::from_str(name),
            transport: String::from_str("stdio"),
            command: Some(String::from_str(command)),
            args,
            url: None,
            auth: McpAuthConfig::default(),
            timeout_secs: None,
        }
    }

    /// A server at `url`, over streamable HTTP.
    pub fn http(name: &str, url: &str) -> (r: Self)
        ensures
            r.name@ == name@,
            r.transport@ == "http"@,
            r.command is None,
            r.args@.len() == 0,
            r.url.deep_view() == Some(url@),
            r.auth.bearer_token is None && r.auth.api_key is None,
            r.timeout_secs is None,
    {
        McpServerDesc {
            name: String::from_str(name),
            transport: String::from_str("http"),
            command: None,
            args: Vec::new(),
            url: Some(String::from_str(url)),
            auth: McpAuthConfig::default(),
            timeout_secs: None,
        }
    }

    /// The same server with a bearer token.
    pub fn with_bearer(self, token: &str) -> (r: Self)
        ensures
            r.name == self.name && r.transport == self.transport && r.command == self.command && r.args == self.args
                && r.url == self.url && r.timeout_secs == self.timeout_secs,
            r.auth.bearer_token.deep_view() == Some(token@),
            r.auth.api_key == self.auth.api_key,
    {
        let mut d = self;
        d.auth.bearer_token = Some(String::from_str(token));
        d
    }

    /// The same server with an API key header.
    pub fn with_api_key(self, header: &str, key: &str) -> (r: Self)
        ensures
            r.name == self.name && r.transport == self.transport && r.command == self.command && r.args == self.args
                && r.url == self.url && r.timeout_secs == self.timeout_secs,
            r.auth.bearer_token == self.auth.bearer_token,
            r.auth.api_key matches Some((h, k)) && h@ == header@ && k@ == key@,
    {
        let mut d = self;
        d.auth.api_key = Some((String::from_str(header), String::from_str(key)));
        d
    }

    /// The same server with a connection timeout.
    pub fn with_timeout(self, secs: u64) -> (r: Self)
        ensures
            r.name == self.name && r.transport == self.transport && r.command == self.command && r.args == self.args
                && r.url == self.url && r.auth == self.auth,
            r.timeout_secs == Some(secs),
    {
        let mut d = self;
        d.timeout_secs = Some(secs);
        d
    }
}

/// The codemap server, run as `codemap serve --data-dir <dir>`.
pub fn codemap_server(codemap_path: &str, data_dir: &str) -> (r: McpServerDesc)
    ensures
        r.name@ == "codemap"@,
        r.transport@ == "stdio"@,
        r.command.deep_view() == Some(codemap_path@),
        str_views(r.args@) == seq!["serve"@, "--data-dir"@, data_dir@],
{
    let mut args: Vec<String> = Vec::new();
    args.push(String::from_str("serve"));
    args.push(String::from_str("--data-dir"));
    args.push(String::from_str(data_dir));
    assert(str_views(args@) =~= seq!["serve"@, "--data-dir"@, data_dir@]);
    McpServerDesc::stdio("codemap", codemap_path, args)
}

// ───────────────────────── YAML server files ─────────────────────────

/// A server as a YAML server file lists it.
#[derive(Debug, Clone)]
pub struct YamlMcpServer {
    pub name: String,
    /// `stdio` or `http`; anything else is taken as `stdio`.
    pub transport: String,
    pub command: Option<String>,
    pub args: Option<Vec<String>>,
    pub url: Option<String>,
    /// May hold `${VAR}` references.
    pub bearer_token: Option<String>,
    pub api_key: Option<YamlApiKey>,
    pub timeout_secs: Option<u64>,
}

/// An API key in a YAML server file; both parts may hold `${VAR}` references.
#[derive(Debug, Clone)]
pub struct YamlApiKey {
    pub header: String,
    pub key: String,
}

/// An environment: variable names and values.
pub open spec fn env_view(env: Seq<(String, String)>) -> Seq<(Seq<char>, Seq<char>)> {
    env.map_values(|p: (String, String)| (p.0@, p.1@))
}

/// The value of the first variable named `name`, or the empty string when it is unset.
pub open spec fn lookup(env: Seq<(Seq<char>, Seq<char>)>, name: Seq<char>) -> Seq<char>
    decreases env.len(),
{
    if env.len() == 0 {
        Seq::empty()
    } else if env[0].0 == name {
        env[0].1
    } else {
        lookup(env.drop_first(), name)
    }
}

/// The number of `$` in `s`.
pub open spec fn dollars(s: Seq<char>) -> nat
    decreases s.len(),
{
    if s.len() == 0 {
        0
    } else {
        dollars(s.drop_last()) + if s.last() == '$' {
            1nat
        } else {
            0nat
        }
    }
}

pub proof fn lemma_dollars_add(a: Seq<char>, b: Seq<char>)
    ensures
        dollars(a + b) == dollars(a) + dollars(b),
    decreases b.len(),
{
    if b.len() == 0 {
        assert(a + b =~= a);
    } else {
        lemma_dollars_add(a, b.drop_last());
        assert((a + b).drop_last() =~= a + b.drop_last());
    }
}

/// No value of the environment holds a `$`, so that expansion ends.
pub open spec fn dollar_free(env: Seq<(Seq<char>, Seq<char>)>) -> bool {
    forall|i: int| 0 <= i < env.len() ==> dollars(#[trigger] env[i].1) == 0
}

pub proof fn lemma_lookup_dollar_free(env: Seq<(Seq<char>, Seq<char>)>, name: Seq<char>)
    requires
        dollar_free(env),
    ensures
        dollars(lookup(env, name)) == 0,
    decreases env.len(),
{
    if env.len() > 0 && env[0].0 != name {
        assert forall|i: int| 0 <= i < env.drop_first().len() implies dollars(#[trigger] env.drop_first()[i].1) == 0 by {
            assert(env.drop_first()[i] == env[i + 1]);
        }
        lemma_lookup_dollar_free(env.drop_first(), name);
    }
}

/// `s` with its first `${NAME}` replaced by the variable's value.
pub open spec fn expand_once(s: Seq<char>, env: Seq<(Seq<char>, Seq<char>)>) -> Option<Seq<char>> {
    let start = find_from(s, "${"@, 0);
    if start < 0 {
        None
    } else {
        let rest = s.subrange(start, s.len() as int);
        let e = find_from(rest, "}"@, 0);
        if e < 0 {
            None
        } else {
            Some(s.take(start) + lookup(env, s.subrange(start + 2, start + e)) + s.subrange(start + e + 1, s.len() as int))
        }
    }
}

pub proof fn lemma_expand_once_shrinks(s: Seq<char>, env: Seq<(Seq<char>, Seq<char>)>)
    requires
        dollar_free(env),
        expand_once(s, env) is Some,
    ensures
        dollars(expand_once(s, env)->0) < dollars(s),
{
    reveal_strlit("${");
    reveal_strlit("}");
    let start = find_from(s, "${"@, 0);
    lemma_find_from(s, "${"@, 0);
    let rest = s.subrange(start, s.len() as int);
    let e = find_from(rest, "}"@, 0);
    lemma_find_from(rest, "}"@, 0);
    assert(rest.subrange(0, 2) =~= "${"@) by {
        assert(s.subrange(start, start + 2) =~= rest.subrange(0, 2));
    }
    assert(e >= 2) by {
        if e < 2 {
            assert(rest.subrange(e, e + 1) =~= "}"@);
            assert(rest.subrange(e, e + 1)[0] == '}');
            assert(rest[e] == '}');
            assert(rest.subrange(0, 2)[e] == rest[e]);
        }
    }
    let value = lookup(env, s.subrange(start + 2, start + e));
    lemma_lookup_dollar_free(env, s.subrange(start + 2, start + e));
    let a = s.take(start);
    let m = s.subrange(start, start + e + 1);
    let b = s.subrange(start + e + 1, s.len() as int);
    assert(s =~= a + m + b);
    lemma_dollars_add(a + m, b);
    lemma_dollars_add(a, m);
    lemma_dollars_add(a + value, b);
    lemma_dollars_add(a, value);
    assert(m =~= seq!['$'] + m.drop_first());
    lemma_dollars_add(seq!['$'], m.drop_first());
    assert(seq!['$'].drop_last() =~= Seq::<char>::empty());
}

/// `s` after at most `n` expansion steps (stopping early once no complete
/// reference is left).
pub open spec fn expand_steps(s: Seq<char>, env: Seq<(Seq<char>, Seq<char>)>, n: nat) -> Seq<char>
    decreases n,
{
    if n == 0 {
        s
    } else {
        match expand_once(s, env) {
            Some(t) => expand_steps(t, env, (n - 1) as nat),
            None => s,
        }
    }
}

/// Expansion of `s` is over after `n` steps.
pub open spec fn ends_within(s: Seq<char>, env: Seq<(Seq<char>, Seq<char>)>, n: nat) -> bool {
    expand_once(expand_steps(s, env, n), env) is None
}

/// Expansion of `s` comes to an end: repeated substitution does not keep
/// producing new `${..}` references.
pub open spec fn expansion_ends(s: Seq<char>, env: Seq<(Seq<char>, Seq<char>)>) -> bool {
    exists|n: nat| ends_within(s, env, n)
}

/// A number of steps after which expansion of `s` is over, when there is one.
pub open spec fn expansion_length(s: Seq<char>, env: Seq<(Seq<char>, Seq<char>)>) -> nat {
    choose|n: nat| ends_within(s, env, n)
}

/// `${NAME}` references replaced by the variables' values, repeatedly from the
/// first one, until none is left or a reference is not closed.
pub open spec fn expand_spec(s: Seq<char>, env: Seq<(Seq<char>, Seq<char>)>) -> Seq<char> {
    expand_steps(s, env, expansion_length(s, env))
}

/// Once expansion is over, more steps change nothing.
pub proof fn lemma_expand_steps_stable(s: Seq<char>, env: Seq<(Seq<char>, Seq<char>)>, n: nat, m: nat)
    requires
        ends_within(s, env, n),
        n <= m,
    ensures
        expand_steps(s, env, m) == expand_steps(s, env, n),
    decreases n,
{
    if n == 0 {
        if m > 0 {
            assert(expand_once(s, env) is None);
        }
    } else {
        match expand_once(s, env) {
            Some(t) => {
                lemma_expand_steps_stable(t, env, (n - 1) as nat, (m - 1) as nat);
            },
            None => {},
        }
    }
}

/// Expansion with environment values free of `$` always ends: each step
/// removes the `$` of the reference it replaces.
pub proof fn lemma_dollar_free_ends(s: Seq<char>, env: Seq<(Seq<char>, Seq<char>)>)
    requires
        dollar_free(env),
    ensures
        expansion_ends(s, env),
    decreases dollars(s),
{
    match expand_once(s, env) {
        Some(t) => {
            lemma_expand_once_shrinks(s, env);
            lemma_dollar_free_ends(t, env);
            let n = choose|n: nat| ends_within(t, env, n);
            assert(expand_steps(s, env, n + 1) == expand_steps(t, env, n));
            assert(ends_within(s, env, n + 1));
        },
        None => {
            assert(ends_within(s, env, 0));
        },
    }
}

/// Expansion goes on until no complete `${NAME}` reference is left.
pub proof fn law_expansion_complete(s: Seq<char>, env: Seq<(Seq<char>, Seq<char>)>)
    requires
        expansion_ends(s, env),
    ensures
        expand_once(expand_spec(s, env), env) is None,
{
}

fn lookup_exec(env: &Vec<(String, String)>, name: &[char]) -> (r: String)
    ensures
        r@ == lookup(env_view(env@), name@),
{
    let ghost ev = env_view(env@);
    assert(ev.subrange(0, ev.len() as int) =~= ev);
    let mut i: usize = 0;
    while i < env.len()
        invariant
            i <= env.len(),
            ev == env_view(env@),
            lookup(ev.subrange(i as int, ev.len() as int), name@) == lookup(ev, name@),
        decreases env.len() - i,
    {
        let ghost sub = ev.subrange(i as int, ev.len() as int);
        assert(sub[0] == (env@[i as int].0@, env@[i as int].1@));
        let key = chars_of(env[i].0.as_str());
        if crate::text::chars_eq(key.as_slice(), name) {
            return env[i].1.clone();
        }
        assert(sub.drop_first() =~= ev.subrange(i + 1, ev.len() as int));
        i = i + 1;
    }
    assert(ev.subrange(i as int, ev.len() as int) =~= Seq::<(Seq<char>, Seq<char>)>::empty());
    String::new()
}

/// One expansion step on `cur`, or `None` when no complete reference is left.
fn expand_step(cur: &Vec<char>, env: &Vec<(String, String)>) -> (r: Option<Vec<char>>)
    ensures
        match r {
            Some(t) => expand_once(cur@, env_view(env@)) == Some(t@),
            None => expand_once(cur@, env_view(env@)) is None,
        },
{
    let ghost ev = env_view(env@);
    let open = chars_of("${");
    let close = chars_of("}");
    let start = match find_chars(cur.as_slice(), open.as_slice(), 0) {
        Some(st) => st,
        None => {
            return None;
        },
    };
    proof {
        lemma_find_from(cur@, open@, 0);
        assert(matches_at(cur@, open@, start as int));
    }
    assert(start + open.len() <= cur.len());
    let rest = sub_chars(cur.as_slice(), start, cur.len());
    let e = match find_chars(rest.as_slice(), close.as_slice(), 0) {
        Some(e) => e,
        None => {
            return None;
        },
    };
    proof {
        lemma_find_from(rest@, close@, 0);
        reveal_strlit("${");
        reveal_strlit("}");
        assert(matches_at(rest@, close@, e as int));
        assert(rest@.subrange(e as int, e + 1)[0] == '}');
    }
    assert(e + 1 <= rest.len());
    assert(e >= 2) by {
        reveal_strlit("${");
        reveal_strlit("}");
        if e < 2 {
            assert(rest@[e as int] == '}');
            assert(cur@.subrange(start as int, start + 2) =~= "${"@);
            assert(rest@[e as int] == cur@[start + e]);
        }
    };
    let name = sub_chars(cur.as_slice(), start + 2, start + e);
    let value = lookup_exec(env, name.as_slice());
    let mut next = sub_chars(cur.as_slice(), 0, start);
    let value_chars = chars_of(value.as_str());
    crate::text::extend_chars(&mut next, value_chars.as_slice());
    let tail = sub_chars(cur.as_slice(), start + e + 1, cur.len());
    crate::text::extend_chars(&mut next, tail.as_slice());
    assert(cur@.take(start as int) =~= cur@.subrange(0, start as int));
    assert(next@ =~= expand_once(cur@, ev)->0);
    Some(next)
}

/// Replaces `${NAME}` references with the values of the variables in `env`
/// (empty for unset ones), from the first one, until none is left or a
/// reference is not closed. Expansion must come to an end: a value may bring
/// in new references, but not forever.
pub fn expand_env_vars(s: &str, env: &Vec<(String, String)>) -> (r: String)
    requires
        expansion_ends(s@, env_view(env@)),
    ensures
        r@ == expand_spec(s@, env_view(env@)),
{
    let ghost ev = env_view(env@);
    let ghost mut k: nat = expansion_length(s@, ev);
    let mut cur = chars_of(s);
    loop
        invariant
            ev == env_view(env@),
            ends_within(cur@, ev, k),
            expand_steps(cur@, ev, k) == expand_spec(s@, ev),
        decreases k,
    {
        match expand_step(&cur, env) {
            Some(next) => {
                proof {
                    assert(k > 0);
                    assert(expand_steps(cur@, ev, k) == expand_steps(next@, ev, (k - 1) as nat));
                    k = (k - 1) as nat;
                }
                cur = next;
            },
            None => {
                return string_of(cur.as_slice());
            },
        }
    }
}

/// `s` expanded when expansion is over within `steps` steps, else `None`.
pub fn expand_env_vars_within(s: &str, env: &Vec<(String, String)>, steps: usize) -> (r: Option<String>)
    ensures
        match r {
            Some(x) => ends_within(s@, env_view(env@), steps as nat) && x@ == expand_spec(s@, env_view(env@)),
            None => !ends_within(s@, env_view(env@), steps as nat),
        },
{
    let ghost ev = env_view(env@);
    let mut cur = chars_of(s);
    let mut i: usize = 0;
    while i < steps
        invariant
            ev == env_view(env@),
            i <= steps,
            expand_steps(s@, ev, steps as nat) == expand_steps(cur@, ev, (steps - i) as nat),
            expand_steps(s@, ev, i as nat) == cur@,
        decreases steps - i,
    {
        match expand_step(&cur, env) {
            Some(next) => {
                proof {
                    lemma_steps_split(s@, ev, i as nat, cur@, next@);
                }
                cur = next;
                i = i + 1;
            },
            None => {
                proof {
                    assert(ends_within(s@, ev, i as nat));
                    lemma_expand_steps_stable(s@, ev, i as nat, steps as nat);
                    lemma_expand_steps_stable(s@, ev, i as nat, (expansion_length(s@, ev) + i) as nat);
                    lemma_expand_steps_stable(
                        s@,
                        ev,
                        expansion_length(s@, ev),
                        (expansion_length(s@, ev) + i) as nat,
                    );
                }
                return Some(string_of(cur.as_slice()));
            },
        }
    }
    match expand_step(&cur, env) {
        Some(_) => None,
        None => {
            proof {
                assert(ends_within(s@, ev, steps as nat));
                lemma_expand_steps_stable(s@, ev, steps as nat, (expansion_length(s@, ev) + steps) as nat);
                lemma_expand_steps_stable(
                    s@,
                    ev,
                    expansion_length(s@, ev),
                    (expansion_length(s@, ev) + steps) as nat,
                );
            }
            Some(string_of(cur.as_slice()))
        },
    }
}

/// One more step after `i` steps that reached `cur`.
proof fn lemma_steps_split(
    s: Seq<char>,
    env: Seq<(Seq<char>, Seq<char>)>,
    i: nat,
    cur: Seq<char>,
    next: Seq<char>,
)
    requires
        expand_steps(s, env, i) == cur,
        expand_once(cur, env) == Some(next),
    ensures
        expand_steps(s, env, i + 1) == next,
    decreases i,
{
    if i == 0 {
        assert(expand_steps(next, env, 0) == next);
    } else {
        match expand_once(s, env) {
            Some(t) => {
                lemma_steps_split(t, env, (i - 1) as nat, cur, next);
            },
            None => {},
        }
    }
}

fn opt_string(o: &Option<String>) -> (r: String)
    ensures
        r@ == match o {
            Some(s) => s@,
            None => Seq::empty(),
        },
{
    match o {
        Some(s) => s.clone(),
        None => String::new(),
    }
}

fn opt_strings(o: &Option<Vec<String>>) -> (r: Vec<String>)
    ensures
        str_views(r@) == match o {
            Some(v) => str_views(v@),
            None => Seq::empty(),
        },
{
    match o {
        Some(v) => clone_strings(v),
        None => {
            let v: Vec<String> = Vec::new();
            assert(str_views(v@) =~= Seq::<Seq<char>>::empty());
            v
        },
    }
}

/// The server a YAML entry describes: an HTTP server for `http` (with its URL,
/// empty if missing), a stdio one otherwise; references in the token and the
/// API key expanded; the timeout carried over.
pub open spec fn yaml_desc_matches(d: McpServerDesc, y: YamlMcpServer, env: Seq<(Seq<char>, Seq<char>)>) -> bool {
    &&& d.name@ == y.name@
    &&& if y.transport@ == "http"@ {
        &&& d.transport@ == "http"@
        &&& d.command is None
        &&& d.args@.len() == 0
        &&& d.url.deep_view() == Some(
            match y.url {
                Some(u) => u@,
                None => Seq::empty(),
            },
        )
    } else {
        &&& d.transport@ == "stdio"@
        &&& d.command.deep_view() == Some(
            match y.command {
                Some(c) => c@,
                None => Seq::empty(),
            },
        )
        &&& str_views(d.args@) == match y.args {
            Some(a) => str_views(a@),
            None => Seq::empty(),
        }
        &&& d.url is None
    }
    &&& d.auth.bearer_token.deep_view() == match y.bearer_token {
        Some(t) => Some(expand_spec(t@, env)),
        None => None,
    }
    &&& match y.api_key {
        Some(k) => d.auth.api_key matches Some((h, v)) && h@ == expand_spec(k.header@, env) && v@ == expand_spec(
            k.key@,
            env,
        ),
        None => d.auth.api_key is None,
    }
    &&& d.timeout_secs == y.timeout_secs
}

/// Expansion of the token and the API key of an entry comes to an end.
pub open spec fn yaml_expansions_end(y: YamlMcpServer, env: Seq<(Seq<char>, Seq<char>)>) -> bool {
    &&& (y.bearer_token matches Some(t) ==> expansion_ends(t@, env))
    &&& (y.api_key matches Some(k) ==> expansion_ends(k.header@, env) && expansion_ends(k.key@, env))
}

/// Expansion of the token and the API key of an entry is over within `n` steps.
pub open spec fn yaml_expansions_end_within(y: YamlMcpServer, env: Seq<(Seq<char>, Seq<char>)>, n: nat) -> bool {
    &&& (y.bearer_token matches Some(t) ==> ends_within(t@, env, n))
    &&& (y.api_key matches Some(k) ==> ends_within(k.header@, env, n) && ends_within(k.key@, env, n))
}

impl YamlMcpServer {
    /// Whether expanding the token and the API key of this entry is over
    /// within `steps` steps; when it is, [`YamlMcpServer::to_mcp_server_desc`]
    /// may be called.
    pub fn expansions_end_within(&self, env: &Vec<(String, String)>, steps: usize) -> (r: bool)
        ensures
            r == yaml_expansions_end_within(*self, env_view(env@), steps as nat),
            r ==> yaml_expansions_end(*self, env_view(env@)),
    {
        let token_ok = match &self.bearer_token {
            Some(t) => expand_env_vars_within(t.as_str(), env, steps).is_some(),
            None => true,
        };
        let key_ok = match &self.api_key {
            Some(k) => expand_env_vars_within(k.header.as_str(), env, steps).is_some() && expand_env_vars_within(
                k.key.as_str(),
                env,
                steps,
            ).is_some(),
            None => true,
        };
        proof {
            let ev = env_view(env@);
            let n = steps as nat;
            if self.bearer_token is Some && ends_within(self.bearer_token->0@, ev, n) {
                assert(expansion_ends(self.bearer_token->0@, ev));
            }
            if self.api_key is Some && ends_within(self.api_key->0.header@, ev, n) {
                assert(expansion_ends(self.api_key->0.header@, ev));
            }
            if self.api_key is Some && ends_within(self.api_key->0.key@, ev, n) {
                assert(expansion_ends(self.api_key->0.key@, ev));
            }
        }
        token_ok && key_ok
    }

    /// The server this entry describes, with `${VAR}` references expanded from `env`.
    pub fn to_mcp_server_desc(&self, env: &Vec<(String, String)>) -> (r: McpServerDesc)
        requires
            yaml_expansions_end(*self, env_view(env@)),
        ensures
            yaml_desc_matches(r, *self, env_view(env@)),
    {
        let mut desc = if str_eq(self.transport.as_str(), "http") {
            let url = opt_string(&self.url);
            McpServerDesc::http(self.name.as_str(), url.as_str())
        } else {
            let cmd = opt_string(&self.command);
            let args = opt_strings(&self.args);
            McpServerDesc::stdio(self.name.as_str(), cmd.as_str(), args)
        };
        match &self.bearer_token {
            Some(t) => {
                let expanded = expand_env_vars(t.as_str(), env);
                desc = desc.with_bearer(expanded.as_str());
            },
            None => {},
        }
        match &self.api_key {
            Some(k) => {
                let h = expand_env_vars(k.header.as_str(), env);
                let v = expand_env_vars(k.key.as_str(), env);
                desc = desc.with_api_key(h.as_str(), v.as_str());
            },
            None => {},
        }
        match self.timeout_secs {
            Some(secs) => {
                desc = desc.with_timeout(secs);
            },
            None => {},
        }
        desc
    }
}

} // verus!
