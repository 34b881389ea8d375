//! Repository index: the layout from `git ls-tree`, the key files and their
//! summaries.
//!
//! The program runs `git ls-tree` and reads the files; this module parses and
//! summarises what they gave.

use vstd::prelude::*;

use crate::config::SummaryConfig;
use crate::memory::context::{entry_views, KeyFile, RepoTree, TreeEntry, TreeEntryView, TreeKind};
use crate::text::{
    chars_eq, chars_of, find_chars, matches_at, find_from, join_range, join_spec, lines_of, split_lines,
    split_words, starts_with_chars, starts_with_spec, str_eq, str_views, string_in, string_of,
    sub_chars, trim_chars, trim_spec, views, words_spec,
};

verus! {

// ───────────────────────── git ls-tree ─────────────────────────

/// The entry one line of `git ls-tree` describes (`<mode> <type> <hash>\t<path>`):
/// `tree` lines are directories, `blob` lines files, anything else is skipped.
pub open spec fn ls_line_entry(line: Seq<char>) -> Option<TreeEntryView> {
    let t = find_from(line, seq!['\t'], 0);
    if t < 0 {
        None
    } else {
        let parts = words_spec(line.take(t));
        let path = line.subrange(t + 1, line.len() as int);
        if parts.len() < 2 {
            None
        } else if parts[1] == "tree"@ {
            Some(TreeEntryView { path, kind: TreeKind::Dir, size: None })
        } else if parts[1] == "blob"@ {
            Some(TreeEntryView { path, kind: TreeKind::File, size: None })
        } else {
            None
        }
    }
}

/// The entries of a list of `git ls-tree` lines, in order.
pub open spec fn ls_entries(lines: Seq<Seq<char>>) -> Seq<TreeEntryView>
    decreases lines.len(),
{
    if lines.len() == 0 {
        Seq::empty()
    } else {
        let r = ls_entries(lines.drop_last());
        match ls_line_entry(lines.last()) {
            Some(e) => r.push(e),
            None => r,
        }
    }
}

fn ls_line(line: &Vec<char>) -> (r: Option<TreeEntry>)
    ensures
        match r {
            Some(e) => ls_line_entry(line@) == Some(e@),
            None => ls_line_entry(line@) is None,
        },
{
    let tab = vec!['\t'];
    assert(tab@ =~= seq!['\t']);
    let t = match find_chars(line.as_slice(), tab.as_slice(), 0) {
        Some(t) => t,
        None => return None,
    };
    proof {
        crate::text::lemma_find_from(line@, tab@, 0);
        assert(matches_at(line@, tab@, t as int));
        assert(tab@.len() == 1);
    }
    assert(t < line.len());
    let meta = sub_chars(line.as_slice(), 0, t);
    assert(meta@ =~= line@.take(t as int));
    let parts = split_words(meta.as_slice());
    if parts.len() < 2 {
        return None;
    }
    assert(views(parts@)[1] == parts@[1]@);
    let path = string_of(sub_chars(line.as_slice(), t + 1, line.len()).as_slice());
    let tree = chars_of("tree");
    let blob = chars_of("blob");
    if chars_eq(parts[1].as_slice(), tree.as_slice()) {
        Some(TreeEntry { path, kind: TreeKind::Dir, size: None })
    } else if chars_eq(parts[1].as_slice(), blob.as_slice()) {
        Some(TreeEntry { path, kind: TreeKind::File, size: None })
    } else {
        None
    }
}

/// Parses the output of `git ls-tree`.
pub fn parse_ls_tree(output: &str) -> (r: Vec<TreeEntry>)
    ensures
        entry_views(r@) == ls_entries(lines_of(output@)),
{
    let chars = chars_of(output);
    let lines = split_lines(chars.as_slice());
    let ghost vl = views(lines@);
    let mut r: Vec<TreeEntry> = Vec::new();
    let mut i: usize = 0;
    while i < lines.len()
        invariant
            i <= lines.len(),
            vl == views(lines@),
            vl == lines_of(output@),
            entry_views(r@) == ls_entries(vl.take(i as int)),
        decreases lines.len() - i,
    {
        proof {
            let t = vl.take(i + 1);
            assert(t.drop_last() =~= vl.take(i as int));
            assert(t.last() == lines@[i as int]@);
        }
        match ls_line(&lines[i]) {
            Some(e) => {
                let ghost before = r@;
                r.push(e);
                assert(entry_views(r@) =~= entry_views(before).push(e@));
            },
            None => {},
        }
        i = i + 1;
    }
    assert(vl.take(vl.len() as int) =~= vl);
    r
}

/// The number of directories among the entries.
pub open spec fn dir_count(v: Seq<TreeEntryView>) -> int
    decreases v.len(),
{
    if v.len() == 0 {
        0
    } else {
        dir_count(v.drop_last()) + if v.last().kind == TreeKind::Dir {
            1int
        } else {
            0int
        }
    }
}

/// The listing of the `k`-th directory, empty when there is none.
pub open spec fn sub_at(subs: Seq<Seq<char>>, k: int) -> Seq<char> {
    if 0 <= k < subs.len() {
        subs[k]
    } else {
        Seq::empty()
    }
}

/// The layout: each top-level entry, and after each directory the entries of
/// its own listing.
pub open spec fn tree_spec(top: Seq<TreeEntryView>, subs: Seq<Seq<char>>) -> Seq<TreeEntryView>
    decreases top.len(),
{
    if top.len() == 0 {
        Seq::empty()
    } else {
        let prev = tree_spec(top.drop_last(), subs);
        let e = top.last();
        if e.kind == TreeKind::Dir {
            prev.push(e) + ls_entries(lines_of(sub_at(subs, dir_count(top.drop_last()))))
        } else {
            prev.push(e)
        }
    }
}

/// The layout of a repository from the output of `git ls-tree HEAD` and, for
/// each of its directories in order, that of `git ls-tree HEAD <dir>/`.
pub fn build_repo_tree(top_output: &str, sub_outputs: &Vec<String>) -> (r: RepoTree)
    ensures
        entry_views(r.entries@) == tree_spec(ls_entries(lines_of(top_output@)), str_views(sub_outputs@)),
{
    let top = parse_ls_tree(top_output);
    let ghost tv = entry_views(top@);
    let ghost sv = str_views(sub_outputs@);
    let mut entries: Vec<TreeEntry> = Vec::new();
    let mut dirs: usize = 0;
    let mut i: usize = 0;
    while i < top.len()
        invariant
            i <= top.len(),
            tv == entry_views(top@),
            sv == str_views(sub_outputs@),
            dirs as int == dir_count(tv.take(i as int)),
            dirs <= i,
            entry_views(entries@) == tree_spec(tv.take(i as int), sv),
        decreases top.len() - i,
    {
        let e = &top[i];
        proof {
            let t = tv.take(i + 1);
            assert(t.drop_last() =~= tv.take(i as int));
            assert(t.last() == e@);
        }
        let ghost before = entry_views(entries@);
        entries.push(TreeEntry { path: e.path.clone(), kind: e.kind, size: e.size });
        assert(entry_views(entries@) =~= before.push(e@));
        if e.kind == TreeKind::Dir {
            let listing = if dirs < sub_outputs.len() {
                sub_outputs[dirs].clone()
            } else {
                String::new()
            };
            assert(listing@ == sub_at(sv, dirs as int));
            let subs = parse_ls_tree(listing.as_str());
            let ghost mid = entry_views(entries@);
            let mut j: usize = 0;
            while j < subs.len()
                invariant
                    j <= subs.len(),
                    entry_views(entries@) == mid + entry_views(subs@).take(j as int),
                decreases subs.len() - j,
            {
                let s = &subs[j];
                let ghost b2 = entry_views(entries@);
                entries.push(TreeEntry { path: s.path.clone(), kind: s.kind, size: s.size });
                assert(entry_views(entries@) =~= b2.push(s@));
                assert(entry_views(subs@).take(j + 1) =~= entry_views(subs@).take(j as int).push(s@));
                j = j + 1;
            }
            assert(entry_views(subs@).take(subs@.len() as int) =~= entry_views(subs@));
            dirs = dirs + 1;
        }
        i = i + 1;
    }
    assert(tv.take(tv.len() as int) =~= tv);
    RepoTree { entries }
}

// ───────────────────────── summaries ─────────────────────────

/// The first `n` lines of `content`, joined with newlines.
pub open spec fn first_lines(content: Seq<char>, n: int) -> Seq<char> {
    let lines = lines_of(content);
    join_spec(if n < lines.len() { lines.take(n) } else { lines }, "\n"@)
}

/// The lines of the `[dependencies]` section of a manifest, with whether the
/// last line read is inside it: a line starting with `[` opens a section, the
/// dependencies one when it is `[dependencies]` once trimmed.
pub open spec fn deps_lines(lines: Seq<Seq<char>>) -> (Seq<Seq<char>>, bool)
    decreases lines.len(),
{
    if lines.len() == 0 {
        (Seq::empty(), false)
    } else {
        let (prev, inside) = deps_lines(lines.drop_last());
        let l = lines.last();
        let now = if starts_with_spec(l, "["@) {
            trim_spec(l) == "[dependencies]"@
        } else {
            inside
        };
        if now {
            (prev.push(l), now)
        } else {
            (prev, now)
        }
    }
}

/// The summary of `Cargo.toml`: its `[dependencies]` section, or its first lines.
pub open spec fn cargo_summary(content: Seq<char>, n: int) -> Seq<char> {
    let deps = deps_lines(lines_of(content)).0;
    if deps.len() == 0 {
        first_lines(content, n)
    } else {
        join_spec(deps, "\n"@)
    }
}

/// A line that opens the dependencies section.
pub open spec fn is_deps_header(l: Seq<char>) -> bool {
    starts_with_spec(l, "["@) && trim_spec(l) == "[dependencies]"@
}

proof fn lemma_deps_none(x: Seq<Seq<char>>)
    requires
        forall|i: int| 0 <= i < x.len() ==> !is_deps_header(#[trigger] x[i]),
    ensures
        deps_lines(x) == (Seq::<Seq<char>>::empty(), false),
    decreases x.len(),
{
    if x.len() > 0 {
        let d = x.drop_last();
        assert forall|i: int| 0 <= i < d.len() implies !is_deps_header(#[trigger] d[i]) by {
            assert(d[i] == x[i]);
        }
        lemma_deps_none(d);
        assert(!is_deps_header(x[x.len() - 1]));
    }
}

proof fn lemma_deps_concat(x: Seq<Seq<char>>, y: Seq<Seq<char>>)
    requires
        y.len() > 0,
        starts_with_spec(y[0], "["@),
    ensures
        deps_lines(x + y) == (deps_lines(x).0 + deps_lines(y).0, deps_lines(y).1),
    decreases y.len(),
{
    if y.len() == 1 {
        assert((x + y).drop_last() =~= x);
        assert(y.drop_last() =~= Seq::<Seq<char>>::empty());
        assert((x + y).last() == y[0]);
        assert(deps_lines(x).0 + Seq::<Seq<char>>::empty() =~= deps_lines(x).0);
        assert(deps_lines(x).0.push(y[0]) =~= deps_lines(x).0 + seq![y[0]]);
        assert(deps_lines(y.drop_last()) == (Seq::<Seq<char>>::empty(), false));
        assert(Seq::<Seq<char>>::empty().push(y[0]) =~= seq![y[0]]);
    } else {
        let yd = y.drop_last();
        assert(yd[0] == y[0]);
        lemma_deps_concat(x, yd);
        assert((x + y).drop_last() =~= x + yd);
        assert((x + y).last() == y.last());
        let a = deps_lines(x).0;
        let b = deps_lines(yd).0;
        assert((a + b).push(y.last()) =~= a + b.push(y.last()));
    }
}

proof fn lemma_deps_section(h: Seq<char>, b: Seq<Seq<char>>)
    requires
        is_deps_header(h),
        forall|i: int| 0 <= i < b.len() ==> !starts_with_spec(#[trigger] b[i], "["@),
    ensures
        deps_lines(seq![h] + b) == (seq![h] + b, true),
    decreases b.len(),
{
    if b.len() == 0 {
        assert(seq![h] + b =~= seq![h]);
        assert(seq![h].drop_last() =~= Seq::<Seq<char>>::empty());
        assert(deps_lines(Seq::<Seq<char>>::empty()) == (Seq::<Seq<char>>::empty(), false));
        assert(seq![h].last() == h);
        assert(Seq::<Seq<char>>::empty().push(h) =~= seq![h]);
        assert(deps_lines(seq![h]) == (seq![h], true));
    } else {
        let bd = b.drop_last();
        assert forall|i: int| 0 <= i < bd.len() implies !starts_with_spec(#[trigger] bd[i], "["@) by {
            assert(bd[i] == b[i]);
        }
        lemma_deps_section(h, bd);
        assert((seq![h] + b).drop_last() =~= seq![h] + bd);
        assert((seq![h] + b).last() == b[b.len() - 1]);
        assert(!starts_with_spec(b[b.len() - 1], "["@));
        assert((seq![h] + bd).push(b[b.len() - 1]) =~= seq![h] + b);
    }
}

/// A manifest with one `[dependencies]` section is summarised by exactly
/// that section: its header line and the lines after it up to, not
/// including, the next line that starts with `[`; no line of another section
/// appears.
pub proof fn law_cargo_dependencies_section(
    content: Seq<char>,
    n: int,
    a: Seq<Seq<char>>,
    h: Seq<char>,
    b: Seq<Seq<char>>,
    c: Seq<Seq<char>>,
)
    requires
        lines_of(content) == a + seq![h] + b + c,
        starts_with_spec(h, "["@),
        trim_spec(h) == "[dependencies]"@,
        forall|i: int| 0 <= i < b.len() ==> !starts_with_spec(#[trigger] b[i], "["@),
        c.len() > 0 ==> starts_with_spec(c[0], "["@),
        forall|i: int| 0 <= i < a.len() ==> !(starts_with_spec(#[trigger] a[i], "["@) && trim_spec(a[i]) == "[dependencies]"@),
        forall|i: int| 0 <= i < c.len() ==> !(starts_with_spec(#[trigger] c[i], "["@) && trim_spec(c[i]) == "[dependencies]"@),
    ensures
        deps_lines(lines_of(content)).0 == seq![h] + b,
        cargo_summary(content, n) == join_spec(seq![h] + b, "\n"@),
{
    let hb = seq![h] + b;
    assert forall|i: int| 0 <= i < a.len() implies !is_deps_header(#[trigger] a[i]) by {}
    assert forall|i: int| 0 <= i < c.len() implies !is_deps_header(#[trigger] c[i]) by {}
    lemma_deps_none(a);
    lemma_deps_section(h, b);
    assert(hb[0] == h);
    lemma_deps_concat(a, hb);
    assert(deps_lines(a).0 + hb =~= hb);
    if c.len() == 0 {
        assert(a + seq![h] + b + c =~= a + hb);
    } else {
        assert(a + seq![h] + b + c =~= (a + hb) + c);
        lemma_deps_none(c);
        lemma_deps_concat(a + hb, c);
        assert(hb + Seq::<Seq<char>>::empty() =~= hb);
    }
}

/// The summary of a key file, by path.
pub open spec fn summarize_spec(path: Seq<char>, content: Seq<char>, config: SummaryConfig) -> Seq<char> {
    if path == "Cargo.toml"@ {
        cargo_summary(content, config.readme_lines as int)
    } else if path == "README.md"@ || path == ".devnpc.md"@ {
        first_lines(content, config.readme_lines as int)
    } else if path == "src/main.rs"@ || path == "src/lib.rs"@ {
        first_lines(content, config.main_rs_lines as int)
    } else {
        first_lines(content, config.other_lines as int)
    }
}

/// The first `n` lines of `content`.
pub fn take_first_n_lines(content: &str, n: usize) -> (r: String)
    ensures
        r@ == first_lines(content@, n as int),
{
    let chars = chars_of(content);
    let lines = split_lines(chars.as_slice());
    let k = if n < lines.len() {
        n
    } else {
        lines.len()
    };
    let nl = chars_of("\n");
    let j = join_range(&lines, 0, k, nl.as_slice());
    proof {
        if (n as int) < lines@.len() {
            assert(views(lines@).subrange(0, k as int) =~= views(lines@).take(n as int));
        } else {
            assert(views(lines@).subrange(0, k as int) =~= views(lines@));
        }
    }
    string_of(j.as_slice())
}

/// The summary of `Cargo.toml`.
pub fn summarize_cargo_toml(content: &str, config: &SummaryConfig) -> (r: String)
    ensures
        r@ == cargo_summary(content@, config.readme_lines as int),
{
    let chars = chars_of(content);
    let lines = split_lines(chars.as_slice());
    let ghost vl = views(lines@);
    let open = chars_of("[");
    let deps_header = chars_of("[dependencies]");
    let mut result: Vec<Vec<char>> = Vec::new();
    let mut in_deps = false;
    let mut i: usize = 0;
    while i < lines.len()
        invariant
            i <= lines.len(),
            vl == views(lines@),
            vl == lines_of(content@),
            open@ == "["@,
            deps_header@ == "[dependencies]"@,
            (views(result@), in_deps) == deps_lines(vl.take(i as int)),
        decreases lines.len() - i,
    {
        let line = &lines[i];
        proof {
            let t = vl.take(i + 1);
            assert(t.drop_last() =~= vl.take(i as int));
            assert(t.last() == line@);
        }
        if starts_with_chars(line.as_slice(), open.as_slice()) {
            let t = trim_chars(line.as_slice());
            in_deps = chars_eq(t.as_slice(), deps_header.as_slice());
        }
        if in_deps {
            let ghost before = views(result@);
            result.push(sub_chars(line.as_slice(), 0, line.len()));
            assert(line@.subrange(0, line@.len() as int) =~= line@);
            assert(views(result@) =~= before.push(line@));
        }
        i = i + 1;
    }
    assert(vl.take(vl.len() as int) =~= vl);
    if result.len() == 0 {
        take_first_n_lines(content, config.readme_lines)
    } else {
        let nl = chars_of("\n");
        let j = join_range(&result, 0, result.len(), nl.as_slice());
        assert(views(result@).subrange(0, result@.len() as int) =~= views(result@));
        string_of(j.as_slice())
    }
}

/// The summary of a key file: the dependencies of `Cargo.toml`, the first
/// `readme_lines` of `README.md` and `.devnpc.md`, the first `main_rs_lines`
/// of `src/main.rs` and `src/lib.rs`, the first `other_lines` of anything else.
pub fn summarize(path: &str, content: &str, config: &SummaryConfig) -> (r: String)
    ensures
        r@ == summarize_spec(path@, content@, *config),
{
    if str_eq(path, "Cargo.toml") {
        summarize_cargo_toml(content, config)
    } else if str_eq(path, "README.md") || str_eq(path, ".devnpc.md") {
        take_first_n_lines(content, config.readme_lines)
    } else if str_eq(path, "src/main.rs") || str_eq(path, "src/lib.rs") {
        take_first_n_lines(content, config.main_rs_lines)
    } else {
        take_first_n_lines(content, config.other_lines)
    }
}

/// Whether a layout entry is a key file: a file whose path is one of the patterns.
pub open spec fn is_key_entry(e: TreeEntryView, config: SummaryConfig) -> bool {
    e.kind == TreeKind::File && str_views(config.key_file_patterns@).contains(e.path)
}

/// The key files of a layout whose content could be read, in order, summarised.
pub open spec fn key_files_match(
    r: Seq<KeyFile>,
    entries: Seq<TreeEntryView>,
    contents: Seq<Option<Seq<char>>>,
    config: SummaryConfig,
) -> bool
    decreases entries.len(),
{
    if entries.len() == 0 {
        r.len() == 0
    } else {
        let e = entries.last();
        let k = entries.len() - 1;
        if is_key_entry(e, config) && k < contents.len() && contents[k] is Some {
            &&& r.len() > 0
            &&& r.last().path@ == e.path
            &&& r.last().summary@ == summarize_spec(e.path, contents[k]->0, config)
            &&& key_files_match(r.drop_last(), entries.drop_last(), contents, config)
        } else {
            key_files_match(r, entries.drop_last(), contents, config)
        }
    }
}

/// The paths of the key files of a layout, which the program reads.
pub fn key_file_paths(tree: &RepoTree, config: &SummaryConfig) -> (r: Vec<usize>)
    ensures
        forall|i: int| 0 <= i < r@.len() ==> #[trigger] r@[i] < tree.entries@.len() && is_key_entry(
            tree.entries@[r@[i] as int]@,
            *config,
        ),
        forall|i: int, j: int| 0 <= i < j < r@.len() ==> r@[i] < r@[j],
        forall|k: int|
            0 <= k < tree.entries@.len() && is_key_entry(#[trigger] tree.entries@[k]@, *config)
                ==> r@.contains(k as usize),
{
    let mut r: Vec<usize> = Vec::new();
    let mut i: usize = 0;
    while i < tree.entries.len()
        invariant
            i <= tree.entries.len(),
            forall|a: int| 0 <= a < r@.len() ==> #[trigger] r@[a] < i && is_key_entry(
                tree.entries@[r@[a] as int]@,
                *config,
            ),
            forall|a: int, b: int| 0 <= a < b < r@.len() ==> r@[a] < r@[b],
            forall|k: int|
                0 <= k < i && is_key_entry(#[trigger] tree.entries@[k]@, *config) ==> r@.contains(
                    k as usize,
                ),
        decreases tree.entries.len() - i,
    {
        let e = &tree.entries[i];
        if e.kind == TreeKind::File && string_in(&config.key_file_patterns, &e.path) {
            let ghost before = r@;
            r.push(i);
            assert forall|k: int|
                0 <= k <= i && is_key_entry(#[trigger] tree.entries@[k]@, *config) implies r@.contains(
                k as usize,
            ) by {
                if k < i {
                    let a = choose|a: int| 0 <= a < before.len() && before[a] == k as usize;
                    assert(r@[a] == k as usize);
                } else {
                    assert(r@[r@.len() - 1] == k as usize);
                }
            }
        }
        i = i + 1;
    }
    r
}

/// The key files of a layout, summarised: `contents[i]` is the content of
/// entry `i`, `None` when it was not read or could not be.
pub fn select_key_files(tree: &RepoTree, contents: &Vec<Option<String>>, config: &SummaryConfig) -> (r: Vec<KeyFile>)
    ensures
        key_files_match(r@, entry_views(tree.entries@), contents.deep_view(), *config),
{
    let ghost ev = entry_views(tree.entries@);
    let ghost cv = contents.deep_view();
    let mut r: Vec<KeyFile> = Vec::new();
    let mut i: usize = 0;
    while i < tree.entries.len()
        invariant
            i <= tree.entries.len(),
            ev == entry_views(tree.entries@),
            cv == contents.deep_view(),
            key_files_match(r@, ev.take(i as int), cv, *config),
        decreases tree.entries.len() - i,
    {
        let e = &tree.entries[i];
        let ghost t = ev.take(i + 1);
        proof {
            assert(t.drop_last() =~= ev.take(i as int));
            assert(t.last() == e@);
        }
        if e.kind == TreeKind::File && string_in(&config.key_file_patterns, &e.path) && i < contents.len() {
            match &contents[i] {
                Some(content) => {
                    assert(cv[i as int] == Some(content@));
                    let summary = summarize(e.path.as_str(), content.as_str(), config);
                    let ghost before = r@;
                    r.push(KeyFile { path: e.path.clone(), summary });
                    assert(r@.drop_last() =~= before);
                },
                None => {},
            }
        }
        i = i + 1;
    }
    assert(ev.take(ev.len() as int) =~= ev);
    r
}

} // verus!
