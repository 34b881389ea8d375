//! Code-aware tools over Rust syntax trees: an outline of a file, the source
//! of one symbol, replacing a symbol, searching symbols by name, and regex
//! replacement that keeps the file parseable.
//!
//! The parsing is done by `tree-sitter` with its Rust grammar; the library
//! sees a tree as the list of its nodes in pre-order, each with its kind, its
//! `name` field, its number of children and its span.

use vstd::prelude::*;

use crate::error::DevnpcError;
use crate::pattern::{regex_error, regex_error_of, regex_is_match, regex_is_match_of, regex_replace_all, regex_replace_all_of};
use crate::text::{byte_len, char_len_utf8, chars_eq, chars_of, contains_spec, str_contains, dec_spec, dec_string, join_spec, join_strings, str_eq, str_views, string_of, sub_chars, utf8_len};
use crate::tools::file_io::{joined, path_inside, FileIo};
use crate::tools::ToolResult;

verus! {

/// One node of a syntax tree; a tree is the list of its nodes in pre-order.
#[derive(Debug, Clone)]
pub struct SyntaxNode {
    pub kind: String,
    /// The text of the node's `name` field, where it has one.
    pub name: Option<String>,
    pub child_count: usize,
    pub start_row: usize,
    pub end_row: usize,
    pub start_byte: usize,
    pub end_byte: usize,
}

pub struct SyntaxNodeView {
    pub kind: Seq<char>,
    pub name: Option<Seq<char>>,
    pub child_count: usize,
    pub start_row: usize,
    pub end_row: usize,
    pub start_byte: usize,
    pub end_byte: usize,
}

impl View for SyntaxNode {
    type V = SyntaxNodeView;

    open spec fn view(&self) -> SyntaxNodeView {
        SyntaxNodeView {
            kind: self.kind@,
            name: match self.name {
                Some(n) => Some(n@),
                None => None,
            },
            child_count: self.child_count,
            start_row: self.start_row,
            end_row: self.end_row,
            start_byte: self.start_byte,
            end_byte: self.end_byte,
        }
    }
}

pub open spec fn nodes_view(v: Seq<SyntaxNode>) -> Seq<SyntaxNodeView> {
    v.map_values(|n: SyntaxNode| n@)
}

/// The nodes of the tree that `tree-sitter`'s Rust grammar gives for `source`,
/// in pre-order.
pub uninterp spec fn syntax_nodes_of(source: Seq<char>) -> Seq<SyntaxNodeView>;

/// Whether that tree holds an error or a missing node.
pub uninterp spec fn syntax_error_of(source: Seq<char>) -> bool;

/// A node lies within its source: its bytes are a range of the source's UTF-8
/// bytes whose ends fall between chars (the lexer reads whole code points), and
/// a row is never past the byte it starts on (each row before it ends with a
/// newline byte).
pub open spec fn node_within(n: SyntaxNodeView, source: Seq<char>) -> bool {
    &&& char_at_byte(source, n.start_byte as int) is Some
    &&& char_at_byte(source, n.end_byte as int) is Some
    &&& n.start_byte <= n.end_byte
    &&& n.end_byte <= byte_len(source)
    &&& n.end_byte <= isize::MAX
    &&& n.start_row <= n.start_byte
    &&& n.end_row <= n.end_byte
}

/// A node as the parser hands it out: kind, `name` field, child count, start
/// row, end row and byte range.
pub type RawNode = (String, Option<String>, usize, usize, usize, core::ops::Range<usize>);

pub open spec fn raw_view(n: RawNode) -> SyntaxNodeView {
    SyntaxNodeView {
        kind: n.0@,
        name: match n.1 {
            Some(s) => Some(s@),
            None => None,
        },
        child_count: n.2,
        start_row: n.3,
        end_row: n.4,
        start_byte: n.5.start,
        end_byte: n.5.end,
    }
}

/// Parses `source` with `tree_sitter::Parser` and the `tree_sitter_rust`
/// grammar and lists the tree's nodes in pre-order (`Node::kind`, the text of
/// `child_by_field_name("name")`, `child_count`, `start_position().row`,
/// `end_position().row`, `byte_range`). The list is only named by
/// [`syntax_nodes_of`]; besides, each node lies within the source, as
/// [`node_within`] says. The grammar
/// is the one the parser is built for, and no timeout is set, so neither
/// `unwrap` can fail.
#[verifier::external_body]
fn parse_raw(source: &str) -> (r: Vec<RawNode>)
    ensures
        r@.map_values(|n: RawNode| raw_view(n)) == syntax_nodes_of(source@),
        forall|i: int| 0 <= i < r.len() ==> node_within(raw_view(#[trigger] r@[i]), source@),
{
    let mut parser = tree_sitter::Parser::new();
    parser.set_language(&tree_sitter_rust::LANGUAGE.into()).unwrap();
    let tree = parser.parse(source, None).unwrap();
    let mut stack = vec![tree.root_node()];
    let mut out = vec![];
    while let Some(n) = stack.pop() {
        out.push((n.kind().to_string(), n.child_by_field_name("name").and_then(|c| source.get(c.byte_range())).map(String::from),
            n.child_count(), n.start_position().row, n.end_position().row, n.byte_range()));
        stack.extend((0..n.child_count()).rev().filter_map(|i| n.child(i)));
    }
    out
}

/// The nodes of `source`'s syntax tree, in pre-order.
pub fn parse_nodes(source: &str) -> (r: Vec<SyntaxNode>)
    ensures
        nodes_view(r@) == syntax_nodes_of(source@),
        forall|i: int| 0 <= i < r.len() ==> node_within(#[trigger] r@[i]@, source@),
{
    let raw = parse_raw(source);
    let ghost rv = raw@.map_values(|n: RawNode| raw_view(n));
    let mut out: Vec<SyntaxNode> = Vec::new();
    let mut i: usize = 0;
    while i < raw.len()
        invariant
            i <= raw.len(),
            rv == raw@.map_values(|n: RawNode| raw_view(n)),
            forall|k: int| 0 <= k < raw.len() ==> node_within(raw_view(#[trigger] raw@[k]), source@),
            out.len() == i,
            rv.len() == raw.len(),
            nodes_view(out@) =~= rv.take(i as int),
        decreases raw.len() - i,
    {
        let n = &raw[i];
        let name = match &n.1 {
            Some(s) => Some(s.clone()),
            None => None,
        };
        out.push(SyntaxNode {
            kind: n.0.clone(),
            name,
            child_count: n.2,
            start_row: n.3,
            end_row: n.4,
            start_byte: n.5.start,
            end_byte: n.5.end,
        });
        proof {
            assert(rv[i as int] == raw_view(raw@[i as int]));
            assert(out@[i as int]@ == rv[i as int]);
            assert(nodes_view(out@) =~= rv.take(i + 1));
        }
        i = i + 1;
    }
    assert(rv.take(raw.len() as int) =~= rv);
    proof {
        assert forall|k: int| 0 <= k < out.len() implies node_within(#[trigger] out@[k]@, source@) by {
            assert(nodes_view(out@)[k] == out@[k]@);
            assert(rv[k] == raw_view(raw@[k]));
        }
    }
    out
}

/// Parses `source` as [`parse_nodes`] does and gives `Node::has_error` of the
/// root, only named by [`syntax_error_of`].
#[verifier::external_body]
fn has_syntax_error(source: &str) -> (r: bool)
    ensures
        r == syntax_error_of(source@),
{
    let mut parser = tree_sitter::Parser::new();
    parser.set_language(&tree_sitter_rust::LANGUAGE.into()).unwrap();
    parser.parse(source, None).unwrap().root_node().has_error()
}

// ───────────────────────── depths ─────────────────────────

/// The unvisited child counts of the open ancestors, the finished ones dropped.
pub open spec fn drop_finished(st: Seq<int>) -> Seq<int>
    decreases st.len(),
{
    if st.len() > 0 && st.last() <= 0 {
        drop_finished(st.drop_last())
    } else {
        st
    }
}

/// A pre-order walk after its first `i` nodes, from their child counts: the
/// depths of those nodes, and the unvisited child counts of the open ancestors.
pub open spec fn walk(counts: Seq<int>, i: nat) -> (Seq<int>, Seq<int>)
    decreases i,
{
    if i == 0 {
        (Seq::empty(), Seq::empty())
    } else {
        let prev = walk(counts, (i - 1) as nat);
        let open = drop_finished(prev.1);
        let parents = if open.len() > 0 {
            open.update(open.len() - 1, open.last() - 1)
        } else {
            open
        };
        (prev.0.push(open.len() as int), parents.push(counts[i - 1]))
    }
}

pub open spec fn child_counts(nodes: Seq<SyntaxNodeView>) -> Seq<int> {
    nodes.map_values(|n: SyntaxNodeView| n.child_count as int)
}

/// The depth of each node of a pre-order list: the root's is 0, each other
/// node's one more than its parent's.
pub open spec fn depths_spec(nodes: Seq<SyntaxNodeView>) -> Seq<int> {
    walk(child_counts(nodes), nodes.len()).0
}

pub proof fn lemma_walk_len(counts: Seq<int>, i: nat)
    ensures
        walk(counts, i).0.len() == i,
    decreases i,
{
    if i > 0 {
        lemma_walk_len(counts, (i - 1) as nat);
    }
}

pub open spec fn stack_ints(v: Seq<usize>) -> Seq<int> {
    v.map_values(|x: usize| x as int)
}

/// The depth of each node of a pre-order list of nodes.
pub fn node_depths(nodes: &Vec<SyntaxNode>) -> (r: Vec<usize>)
    ensures
        r.len() == nodes.len(),
        forall|i: int| 0 <= i < nodes.len() ==> r@[i] as int == #[trigger] depths_spec(nodes_view(nodes@))[i],
{
    let ghost counts = child_counts(nodes_view(nodes@));
    let mut depths: Vec<usize> = Vec::new();
    let mut stack: Vec<usize> = Vec::new();
    let mut i: usize = 0;
    while i < nodes.len()
        invariant
            i <= nodes.len(),
            counts == child_counts(nodes_view(nodes@)),
            counts.len() == nodes.len(),
            depths.len() == i,
            walk(counts, i as nat).0.len() == i,
            forall|k: int| 0 <= k < i ==> depths@[k] as int == #[trigger] walk(counts, i as nat).0[k],
            stack_ints(stack@) == walk(counts, i as nat).1,
        decreases nodes.len() - i,
    {
        let ghost w = walk(counts, i as nat);
        while stack.len() > 0 && stack[stack.len() - 1] == 0
            invariant
                drop_finished(stack_ints(stack@)) == drop_finished(w.1),
            decreases stack.len(),
        {
            let ghost before = stack_ints(stack@);
            stack.pop();
            assert(stack_ints(stack@) =~= before.drop_last());
        }
        assert(drop_finished(stack_ints(stack@)) == stack_ints(stack@));
        let d = stack.len();
        let ghost open = stack_ints(stack@);
        if d > 0 {
            let top = stack[d - 1];
            stack.set(d - 1, top - 1);
            assert(stack_ints(stack@) =~= open.update(open.len() - 1, open.last() - 1));
        }
        let ghost parents = stack_ints(stack@);
        depths.push(d);
        stack.push(nodes[i].child_count);
        proof {
            assert(counts[i as int] == nodes@[i as int].child_count as int);
            assert(stack_ints(stack@) =~= parents.push(counts[i as int]));
            lemma_walk_len(counts, (i + 1) as nat);
            assert(walk(counts, (i + 1) as nat).0 == w.0.push(d as int));
        }
        i = i + 1;
    }
    depths
}

// ───────────────────────── symbols ─────────────────────────

/// The deepest level at which declarations are looked for.
pub const MAX_SYMBOL_DEPTH: usize = 20;

/// The node kinds of Rust declarations that the tools list.
pub open spec fn interesting_kind(k: Seq<char>) -> bool {
    ||| k == "function_item"@
    ||| k == "struct_item"@
    ||| k == "enum_item"@
    ||| k == "trait_item"@
    ||| k == "impl_item"@
    ||| k == "mod_item"@
    ||| k == "const_item"@
    ||| k == "static_item"@
    ||| k == "type_item"@
    ||| k == "macro_definition"@
    ||| k == "union_item"@
    ||| k == "foreign_mod_item"@
}

/// Whether the tools list nodes of this kind.
pub fn is_interesting_kind(kind: &str) -> (r: bool)
    ensures
        r == interesting_kind(kind@),
{
    str_eq(kind, "function_item") || str_eq(kind, "struct_item") || str_eq(kind, "enum_item")
        || str_eq(kind, "trait_item") || str_eq(kind, "impl_item") || str_eq(kind, "mod_item")
        || str_eq(kind, "const_item") || str_eq(kind, "static_item") || str_eq(kind, "type_item")
        || str_eq(kind, "macro_definition") || str_eq(kind, "union_item") || str_eq(
        kind,
        "foreign_mod_item",
    )
}

/// A named declaration of a file, with 1-based lines and its byte range.
#[derive(Debug, Clone)]
pub struct SymbolInfo {
    pub kind: String,
    pub name: String,
    pub start_line: usize,
    pub end_line: usize,
    pub start_byte: usize,
    pub end_byte: usize,
}

pub struct SymbolView {
    pub kind: Seq<char>,
    pub name: Seq<char>,
    pub start_line: usize,
    pub end_line: usize,
    pub start_byte: usize,
    pub end_byte: usize,
}

impl View for SymbolInfo {
    type V = SymbolView;

    open spec fn view(&self) -> SymbolView {
        SymbolView {
            kind: self.kind@,
            name: self.name@,
            start_line: self.start_line,
            end_line: self.end_line,
            start_byte: self.start_byte,
            end_byte: self.end_byte,
        }
    }
}

pub open spec fn symbol_views(v: Seq<SymbolInfo>) -> Seq<SymbolView> {
    v.map_values(|x: SymbolInfo| x@)
}

/// A node at `depth` is listed: a declaration kind, with a name, not deeper
/// than [`MAX_SYMBOL_DEPTH`].
pub open spec fn is_symbol(n: SyntaxNodeView, depth: int) -> bool {
    depth <= MAX_SYMBOL_DEPTH && interesting_kind(n.kind) && n.name is Some
}

pub open spec fn symbol_of(n: SyntaxNodeView) -> SymbolView {
    SymbolView {
        kind: n.kind,
        name: n.name->0,
        start_line: (n.start_row + 1) as usize,
        end_line: (n.end_row + 1) as usize,
        start_byte: n.start_byte,
        end_byte: n.end_byte,
    }
}

/// The symbols among the first `i` nodes, in order.
pub open spec fn symbols_upto(nodes: Seq<SyntaxNodeView>, depths: Seq<int>, i: nat) -> Seq<SymbolView>
    decreases i,
{
    if i == 0 {
        Seq::empty()
    } else {
        let prev = symbols_upto(nodes, depths, (i - 1) as nat);
        if is_symbol(nodes[i - 1], depths[i - 1]) {
            prev.push(symbol_of(nodes[i - 1]))
        } else {
            prev
        }
    }
}

/// The symbols of a tree, in pre-order.
pub open spec fn symbols_spec(nodes: Seq<SyntaxNodeView>) -> Seq<SymbolView> {
    symbols_upto(nodes, depths_spec(nodes), nodes.len())
}

/// Every row is below the largest `usize`, so that a 1-based line fits.
pub open spec fn rows_fit(nodes: Seq<SyntaxNodeView>) -> bool {
    forall|i: int| 0 <= i < nodes.len() ==> #[trigger] nodes[i].start_row < usize::MAX && nodes[i].end_row < usize::MAX
}

pub proof fn lemma_depths_len(nodes: Seq<SyntaxNodeView>)
    ensures
        depths_spec(nodes).len() == nodes.len(),
{
    lemma_walk_len(child_counts(nodes), nodes.len());
}

/// The declarations of a tree, in pre-order.
pub fn collect_symbols(nodes: &Vec<SyntaxNode>) -> (r: Vec<SymbolInfo>)
    requires
        rows_fit(nodes_view(nodes@)),
    ensures
        symbol_views(r@) == symbols_spec(nodes_view(nodes@)),
{
    let depths = node_depths(nodes);
    let ghost nv = nodes_view(nodes@);
    let ghost ds = depths_spec(nv);
    proof {
        lemma_depths_len(nv);
    }
    let mut out: Vec<SymbolInfo> = Vec::new();
    let mut i: usize = 0;
    while i < nodes.len()
        invariant
            i <= nodes.len(),
            nv == nodes_view(nodes@),
            ds == depths_spec(nv),
            ds.len() == nodes.len(),
            depths.len() == nodes.len(),
            forall|k: int| 0 <= k < nodes.len() ==> depths@[k] as int == #[trigger] ds[k],
            rows_fit(nv),
            symbol_views(out@) =~= symbols_upto(nv, ds, i as nat),
        decreases nodes.len() - i,
    {
        let n = &nodes[i];
        let ghost nvi = nv[i as int];
        assert(nvi == n@);
        assert(depths@[i as int] as int == ds[i as int]);
        if depths[i] <= MAX_SYMBOL_DEPTH && is_interesting_kind(n.kind.as_str()) {
            match &n.name {
                Some(name) => {
                    assert(nvi.start_row < usize::MAX && nvi.end_row < usize::MAX);
                    out.push(
                        SymbolInfo {
                            kind: n.kind.clone(),
                            name: name.clone(),
                            start_line: n.start_row + 1,
                            end_line: n.end_row + 1,
                            start_byte: n.start_byte,
                            end_byte: n.end_byte,
                        },
                    );
                },
                None => {},
            }
        }
        i = i + 1;
    }
    out
}

/// The first node, from position `i` on, that is a symbol named `name`.
pub open spec fn first_symbol_from(nodes: Seq<SyntaxNodeView>, depths: Seq<int>, name: Seq<char>, i: int) -> Option<int>
    decreases nodes.len() - i,
{
    if i < 0 || i >= nodes.len() {
        None
    } else if is_symbol(nodes[i], depths[i]) && nodes[i].name == Some(name) {
        Some(i)
    } else {
        first_symbol_from(nodes, depths, name, i + 1)
    }
}

/// The position of the first symbol named `name`, in pre-order.
pub open spec fn find_symbol_spec(nodes: Seq<SyntaxNodeView>, name: Seq<char>) -> Option<int> {
    first_symbol_from(nodes, depths_spec(nodes), name, 0)
}

/// The Rust declarations: function, struct, enum, trait, impl, module,
/// constant, static, type alias, macro, union and extern-block items.
pub open spec fn declaration_kind(kind: Seq<char>) -> bool {
    kind == "function_item"@ || kind == "struct_item"@ || kind == "enum_item"@ || kind == "trait_item"@ || kind
        == "impl_item"@ || kind == "mod_item"@ || kind == "const_item"@ || kind == "static_item"@ || kind == "type_item"@
        || kind == "macro_definition"@ || kind == "union_item"@ || kind == "foreign_mod_item"@
}

proof fn lemma_symbols_upto_keeps(nodes: Seq<SyntaxNodeView>, depths: Seq<int>, i: int, n: nat)
    requires
        0 <= i < n <= nodes.len(),
        n <= depths.len(),
        is_symbol(nodes[i], depths[i]),
    ensures
        symbols_upto(nodes, depths, n).contains(symbol_of(nodes[i])),
    decreases n,
{
    let prev = symbols_upto(nodes, depths, (n - 1) as nat);
    if i == n - 1 {
        assert(symbols_upto(nodes, depths, n) == prev.push(symbol_of(nodes[i])));
        assert(symbols_upto(nodes, depths, n)[prev.len() as int] == symbol_of(nodes[i]));
    } else {
        lemma_symbols_upto_keeps(nodes, depths, i, (n - 1) as nat);
        let k = choose|k: int| 0 <= k < prev.len() && prev[k] == symbol_of(nodes[i]);
        if is_symbol(nodes[n - 1], depths[n - 1]) {
            assert(symbols_upto(nodes, depths, n)[k] == prev[k]);
        }
    }
}

proof fn lemma_first_symbol_found(nodes: Seq<SyntaxNodeView>, depths: Seq<int>, name: Seq<char>, k: int, i: int)
    requires
        0 <= k <= i < nodes.len(),
        i < depths.len(),
        is_symbol(nodes[i], depths[i]),
        nodes[i].name == Some(name),
    ensures
        first_symbol_from(nodes, depths, name, k) matches Some(j) && k <= j <= i && nodes[j].name == Some(name)
            && is_symbol(nodes[j], depths[j]),
    decreases i - k,
{
    if !(is_symbol(nodes[k], depths[k]) && nodes[k].name == Some(name)) {
        lemma_first_symbol_found(nodes, depths, name, k + 1, i);
    }
}

/// Every named declaration not deeper than [`MAX_SYMBOL_DEPTH`] is a symbol:
/// it is listed (so the outline shows it) and a lookup of its name finds a
/// declaration of that name no later than it. The declarations are the
/// function, struct, enum, trait, impl, mod, const, static, type, macro,
/// union and extern-block items.
pub proof fn law_declarations_are_symbols(nodes: Seq<SyntaxNodeView>, i: int)
    requires
        0 <= i < nodes.len(),
        nodes[i].name is Some,
        depths_spec(nodes)[i] <= MAX_SYMBOL_DEPTH,
        declaration_kind(nodes[i].kind),
    ensures
        symbols_spec(nodes).contains(symbol_of(nodes[i])),
        find_symbol_spec(nodes, nodes[i].name->0) matches Some(j) && 0 <= j <= i && nodes[j].name == nodes[i].name,
{
    lemma_depths_len(nodes);
    let ds = depths_spec(nodes);
    assert(is_symbol(nodes[i], ds[i]));
    lemma_symbols_upto_keeps(nodes, ds, i, nodes.len());
    lemma_first_symbol_found(nodes, ds, nodes[i].name->0, 0, i);
}

/// Only declarations are symbols: every listed symbol has one of the
/// declaration kinds.
pub proof fn law_symbols_are_declarations(nodes: Seq<SyntaxNodeView>, depths: Seq<int>, n: nat)
    ensures
        forall|k: int|
            0 <= k < symbols_upto(nodes, depths, n).len() ==> declaration_kind(
                #[trigger] symbols_upto(nodes, depths, n)[k].kind,
            ),
    decreases n,
{
    if n > 0 {
        law_symbols_are_declarations(nodes, depths, (n - 1) as nat);
        let prev = symbols_upto(nodes, depths, (n - 1) as nat);
        assert forall|k: int| 0 <= k < prev.len() implies #[trigger] symbols_upto(nodes, depths, n)[k] == prev[k] by {}
    }
}

pub open spec fn opt_index(r: Option<usize>) -> Option<int> {
    match r {
        Some(k) => Some(k as int),
        None => None,
    }
}

/// The position of the first declaration named `name`, in pre-order.
pub fn find_symbol(nodes: &Vec<SyntaxNode>, name: &str) -> (r: Option<usize>)
    ensures
        opt_index(r) == find_symbol_spec(nodes_view(nodes@), name@),
        r matches Some(k) ==> k < nodes.len(),
{
    let depths = node_depths(nodes);
    let ghost nv = nodes_view(nodes@);
    let ghost ds = depths_spec(nv);
    proof {
        lemma_depths_len(nv);
    }
    let mut i: usize = 0;
    while i < nodes.len()
        invariant
            i <= nodes.len(),
            nv == nodes_view(nodes@),
            ds == depths_spec(nv),
            ds.len() == nodes.len(),
            depths.len() == nodes.len(),
            forall|k: int| 0 <= k < nodes.len() ==> depths@[k] as int == #[trigger] ds[k],
            first_symbol_from(nv, ds, name@, i as int) == first_symbol_from(nv, ds, name@, 0),
        decreases nodes.len() - i,
    {
        let n = &nodes[i];
        assert(nv[i as int] == n@);
        assert(depths@[i as int] as int == ds[i as int]);
        if depths[i] <= MAX_SYMBOL_DEPTH && is_interesting_kind(n.kind.as_str()) {
            match &n.name {
                Some(nm) => {
                    if str_eq(nm.as_str(), name) {
                        return Some(i);
                    }
                },
                None => {},
            }
        }
        i = i + 1;
    }
    None
}

// ───────────────────────── byte offsets ─────────────────────────

/// The char position at which the first `b` UTF-8 bytes of `s` end, looking
/// from position `k` on; `None` when `b` does not fall between two chars.
pub open spec fn char_at_byte_from(s: Seq<char>, b: int, k: int) -> Option<int>
    decreases s.len() + 1 - k,
{
    if k < 0 || k > s.len() {
        None
    } else if byte_len(s.take(k)) == b {
        Some(k)
    } else {
        char_at_byte_from(s, b, k + 1)
    }
}

/// The char position at which the first `b` UTF-8 bytes of `s` end.
pub open spec fn char_at_byte(s: Seq<char>, b: int) -> Option<int> {
    char_at_byte_from(s, b, 0)
}

pub proof fn lemma_take_step(s: Seq<char>, k: int)
    requires
        0 <= k < s.len(),
    ensures
        byte_len(s.take(k + 1)) == byte_len(s.take(k)) + utf8_len(s[k]),
        utf8_len(s[k]) >= 1,
{
    assert(s.take(k + 1).drop_last() =~= s.take(k));
}

pub proof fn lemma_take_increasing(s: Seq<char>, i: int, j: int)
    requires
        0 <= i < j <= s.len(),
    ensures
        byte_len(s.take(i)) < byte_len(s.take(j)),
    decreases j - i,
{
    lemma_take_step(s, j - 1);
    if i < j - 1 {
        lemma_take_increasing(s, i, j - 1);
    }
}

pub proof fn lemma_past_byte(s: Seq<char>, b: int, k: int)
    requires
        0 <= k <= s.len(),
        byte_len(s.take(k)) > b,
    ensures
        char_at_byte_from(s, b, k) is None,
    decreases s.len() + 1 - k,
{
    if k < s.len() {
        lemma_take_step(s, k);
        lemma_past_byte(s, b, k + 1);
    } else {
        assert(char_at_byte_from(s, b, k + 1) is None);
    }
}

pub proof fn lemma_char_at_byte_from(s: Seq<char>, b: int, k: int)
    requires
        0 <= k,
    ensures
        char_at_byte_from(s, b, k) matches Some(c) ==> k <= c <= s.len() && byte_len(s.take(c)) == b,
    decreases s.len() + 1 - k,
{
    if k <= s.len() && byte_len(s.take(k)) != b {
        lemma_char_at_byte_from(s, b, k + 1);
    }
}

/// Char positions follow byte offsets: the earlier offset ends at the
/// earlier (or same) char.
pub proof fn lemma_char_at_byte_ordered(s: Seq<char>, b1: int, b2: int)
    requires
        b1 <= b2,
        char_at_byte(s, b1) is Some,
        char_at_byte(s, b2) is Some,
    ensures
        char_at_byte(s, b1)->0 <= char_at_byte(s, b2)->0,
{
    lemma_char_at_byte_from(s, b1, 0);
    lemma_char_at_byte_from(s, b2, 0);
    let c1 = char_at_byte(s, b1)->0;
    let c2 = char_at_byte(s, b2)->0;
    if c1 > c2 {
        lemma_take_increasing(s, c2, c1);
    }
}

/// The char position at which the first `b` UTF-8 bytes of `s` end.
pub fn char_index_at_byte(s: &[char], b: usize) -> (r: Option<usize>)
    ensures
        opt_index(r) == char_at_byte(s@, b as int),
{
    let mut k: usize = 0;
    let mut acc: usize = 0;
    assert(s@.take(0) =~= Seq::<char>::empty());
    loop
        invariant
            k <= s.len(),
            acc as int == byte_len(s@.take(k as int)),
            acc <= b,
            char_at_byte_from(s@, b as int, k as int) == char_at_byte(s@, b as int),
        decreases s.len() - k,
    {
        if acc == b {
            return Some(k);
        }
        if k == s.len() {
            assert(char_at_byte_from(s@, b as int, k + 1) is None);
            return None;
        }
        let step = char_len_utf8(s[k]);
        proof {
            lemma_take_step(s@, k as int);
        }
        if step > b - acc {
            proof {
                lemma_past_byte(s@, b as int, k + 1);
            }
            return None;
        }
        acc = acc + step;
        k = k + 1;
    }
}

/// The chars of `s` between two byte offsets, when both fall between chars
/// and are in order.
pub open spec fn span_text(s: Seq<char>, start: int, end: int) -> Option<Seq<char>> {
    match (char_at_byte(s, start), char_at_byte(s, end)) {
        (Some(a), Some(b)) => if a <= b {
            Some(s.subrange(a, b))
        } else {
            None
        },
        _ => None,
    }
}

fn span_chars(s: &[char], start: usize, end: usize) -> (r: Option<Vec<char>>)
    ensures
        match r {
            Some(v) => span_text(s@, start as int, end as int) == Some(v@),
            None => span_text(s@, start as int, end as int) is None,
        },
{
    let a = char_index_at_byte(s, start);
    let b = char_index_at_byte(s, end);
    match (a, b) {
        (Some(a), Some(b)) => {
            proof {
                lemma_char_at_byte_from(s@, start as int, 0);
                lemma_char_at_byte_from(s@, end as int, 0);
            }
            if a <= b {
                Some(sub_chars(s, a, b))
            } else {
                None
            }
        },
        _ => None,
    }
}

// ───────────────────────── texts ─────────────────────────

/// `s` with `suf` removed from its end as many times as it ends with it
/// (`str::trim_end_matches`).
pub open spec fn trim_end_all(s: Seq<char>, suf: Seq<char>) -> Seq<char>
    decreases s.len(),
{
    if 0 < suf.len() <= s.len() && s.subrange(s.len() - suf.len(), s.len() as int) == suf {
        trim_end_all(s.subrange(0, s.len() - suf.len()), suf)
    } else {
        s
    }
}

/// `str::trim_end_matches` with a string pattern.
pub fn trim_end_matches(s: &str, suf: &str) -> (r: String)
    ensures
        r@ == trim_end_all(s@, suf@),
{
    let sv = chars_of(suf);
    let mut cur = chars_of(s);
    loop
        invariant
            sv@ == suf@,
            trim_end_all(cur@, suf@) == trim_end_all(s@, suf@),
        decreases cur.len(),
    {
        if sv.len() > 0 && sv.len() <= cur.len() {
            let tail = sub_chars(cur.as_slice(), cur.len() - sv.len(), cur.len());
            if chars_eq(tail.as_slice(), sv.as_slice()) {
                cur = sub_chars(cur.as_slice(), 0, cur.len() - sv.len());
                continue;
            }
        }
        return string_of(cur.as_slice());
    }
}

/// A kind as the outline shows it: without `_item`, then without `_invocation`.
pub open spec fn outline_kind(kind: Seq<char>) -> Seq<char> {
    trim_end_all(trim_end_all(kind, "_item"@), "_invocation"@)
}

/// An outline line: `<kind> <name> (line <start>-<end>)`.
pub open spec fn outline_line(s: SymbolView) -> Seq<char> {
    outline_kind(s.kind) + " "@ + s.name + " (line "@ + dec_spec(s.start_line as nat) + "-"@ + dec_spec(
        s.end_line as nat,
    ) + ")"@
}

/// The outline of a file with these symbols: a line for each, or a note
/// that there are none.
pub open spec fn outline_spec(symbols: Seq<SymbolView>) -> Seq<char> {
    if symbols.len() == 0 {
        "(无顶层符号)"@
    } else {
        join_spec(symbols.map_values(|x: SymbolView| outline_line(x)), "\n"@)
    }
}

fn outline_line_of(sym: &SymbolInfo) -> (r: String)
    ensures
        r@ == outline_line(sym@),
{
    let k1 = trim_end_matches(sym.kind.as_str(), "_item");
    let mut r = trim_end_matches(k1.as_str(), "_invocation");
    r.append(" ");
    r.append(sym.name.as_str());
    r.append(" (line ");
    let a = dec_string(sym.start_line as u64);
    r.append(a.as_str());
    r.append("-");
    let b = dec_string(sym.end_line as u64);
    r.append(b.as_str());
    r.append(")");
    r
}

/// A search hit: `<file>: <kind> <name> (line <start>)`, the kind without `_item`.
pub open spec fn search_line(file: Seq<char>, s: SymbolView) -> Seq<char> {
    file + ": "@ + trim_end_all(s.kind, "_item"@) + " "@ + s.name + " (line "@ + dec_spec(s.start_line as nat) + ")"@
}

fn search_line_of(file: &str, sym: &SymbolInfo) -> (r: String)
    ensures
        r@ == search_line(file@, sym@),
{
    let mut r = String::from_str(file);
    r.append(": ");
    let k = trim_end_matches(sym.kind.as_str(), "_item");
    r.append(k.as_str());
    r.append(" ");
    r.append(sym.name.as_str());
    r.append(" (line ");
    let a = dec_string(sym.start_line as u64);
    r.append(a.as_str());
    r.append(")");
    r
}

/// The error of an AFT tool.
pub open spec fn tool_error(e: DevnpcError, tool: Seq<char>, msg: Seq<char>) -> bool {
    e matches DevnpcError::Tool { tool: t, msg: m } && t@ == tool && m@ == msg
}

fn make_error(tool: &str, prefix: &str, detail: &str) -> (e: DevnpcError)
    ensures
        tool_error(e, tool@, prefix@ + detail@),
{
    let mut m = String::from_str(prefix);
    m.append(detail);
    DevnpcError::Tool { tool: String::from_str(tool), msg: m }
}

// ───────────────────────── the tools ─────────────────────────

pub proof fn lemma_rows_fit(v: Seq<SyntaxNode>, source: Seq<char>)
    requires
        forall|i: int| 0 <= i < v.len() ==> node_within(#[trigger] v[i]@, source),
    ensures
        rows_fit(nodes_view(v)),
{
    assert forall|i: int| 0 <= i < nodes_view(v).len() implies #[trigger] nodes_view(v)[i].start_row < usize::MAX
        && nodes_view(v)[i].end_row < usize::MAX by {
        assert(nodes_view(v)[i] == v[i]@);
        assert(node_within(v[i]@, source));
    }
}

/// A found declaration's span gives its text: both ends fall between chars
/// and are in order.
proof fn lemma_span_found(n: SyntaxNodeView, source: Seq<char>)
    requires
        node_within(n, source),
    ensures
        span_text(source, n.start_byte as int, n.end_byte as int) is Some,
{
    lemma_char_at_byte_ordered(source, n.start_byte as int, n.end_byte as int);
}

/// The new source of a file once a declaration is replaced: what comes
/// before its first byte, the new text, what comes after its last byte.
pub open spec fn spliced(source: Seq<char>, n: SyntaxNodeView, content: Seq<char>) -> Seq<char> {
    source.take(char_at_byte(source, n.start_byte as int)->0) + content + source.subrange(
        char_at_byte(source, n.end_byte as int)->0,
        source.len() as int,
    )
}

/// What an editing tool asks of the file: leave it, answering with a result,
/// or write a new source, then answer.
#[derive(Debug, Clone)]
pub enum SourceEdit {
    Keep(ToolResult),
    Rewrite { source: String, result: ToolResult },
}

/// A kept file with this answer.
pub open spec fn keeps(r: SourceEdit, success: bool, output: Seq<char>) -> bool {
    r matches SourceEdit::Keep(res) && res.success == success && res.output@ == output
}

/// A rewritten file with this source and a successful answer.
pub open spec fn rewrites(r: SourceEdit, source: Seq<char>, output: Seq<char>) -> bool {
    r matches SourceEdit::Rewrite { source: s, result: res } && s@ == source && res.success && res.output@ == output
}

/// The `aft_outline` tool: the declarations of a file.
#[derive(Debug, Clone)]
pub struct AftOutlineTool {
    pub file_io: FileIo,
}

impl AftOutlineTool {
    /// The tool over a workspace.
    pub fn new(file_io: FileIo) -> (r: Self)
        ensures
            r.file_io == file_io,
    {
        AftOutlineTool { file_io }
    }

    /// Its name.
    pub fn name(&self) -> (r: &'static str)
        ensures
            r@ == "aft_outline"@,
    {
        "aft_outline"
    }

    /// The outline of a file with this source.
    pub fn outline(&self, source: &str) -> (r: ToolResult)
        ensures
            r.success,
            r.output@ == outline_spec(symbols_spec(syntax_nodes_of(source@))),
    {
        let nodes = parse_nodes(source);
        proof {
            lemma_rows_fit(nodes@, source@);
        }
        let symbols = collect_symbols(&nodes);
        if symbols.len() == 0 {
            return ToolResult::ok("(无顶层符号)");
        }
        let ghost sv = symbol_views(symbols@);
        let mut lines: Vec<String> = Vec::new();
        let mut i: usize = 0;
        while i < symbols.len()
            invariant
                i <= symbols.len(),
                sv == symbol_views(symbols@),
                sv.len() == symbols.len(),
                lines.len() == i,
                str_views(lines@) =~= sv.take(i as int).map_values(|x: SymbolView| outline_line(x)),
            decreases symbols.len() - i,
        {
            let line = outline_line_of(&symbols[i]);
            let ghost before = lines@;
            lines.push(line);
            proof {
                assert(sv[i as int] == symbols@[i as int]@);
                assert(str_views(lines@) =~= str_views(before).push(line@));
                assert(sv.take(i + 1).map_values(|x: SymbolView| outline_line(x)) =~= sv.take(i as int).map_values(
                    |x: SymbolView| outline_line(x),
                ).push(outline_line(sv[i as int])));
            }
            i = i + 1;
        }
        assert(sv.take(symbols.len() as int) =~= sv);
        let text = join_strings(&lines, "\n");
        ToolResult::ok(text.as_str())
    }
}

/// The `aft_view_symbol` tool: the source of one declaration.
#[derive(Debug, Clone)]
pub struct AftViewSymbolTool {
    pub file_io: FileIo,
}

impl AftViewSymbolTool {
    /// The tool over a workspace.
    pub fn new(file_io: FileIo) -> (r: Self)
        ensures
            r.file_io == file_io,
    {
        AftViewSymbolTool { file_io }
    }

    /// Its name.
    pub fn name(&self) -> (r: &'static str)
        ensures
            r@ == "aft_view_symbol"@,
    {
        "aft_view_symbol"
    }

    /// The source of the first declaration named `symbol`, or the error that
    /// there is none.
    pub fn view(&self, source: &str, symbol: &str) -> (r: Result<ToolResult, DevnpcError>)
        ensures
            ({
                let nodes = syntax_nodes_of(source@);
                match find_symbol_spec(nodes, symbol@) {
                    None => r matches Err(e) && tool_error(e, "aft_view_symbol"@, "未找到符号: "@ + symbol@),
                    Some(k) => r matches Ok(res) && res.success && span_text(
                        source@,
                        nodes[k].start_byte as int,
                        nodes[k].end_byte as int,
                    ) == Some(res.output@),
                }
            }),
    {
        let nodes = parse_nodes(source);
        let k = match find_symbol(&nodes, symbol) {
            Some(k) => k,
            None => {
                return Err(make_error("aft_view_symbol", "未找到符号: ", symbol));
            },
        };
        let sv = chars_of(source);
        assert(nodes_view(nodes@)[k as int] == nodes@[k as int]@);
        match span_chars(sv.as_slice(), nodes[k].start_byte, nodes[k].end_byte) {
            Some(t) => {
                let text = string_of(t.as_slice());
                Ok(ToolResult::ok(text.as_str()))
            },
            None => {
                proof {
                    lemma_span_found(nodes@[k as int]@, source@);
                }
                Err(make_error("aft_view_symbol", "提取文本失败", ""))
            },
        }
    }
}

/// The `aft_edit_symbol` tool: replaces one declaration, keeping the file
/// parseable.
#[derive(Debug, Clone)]
pub struct AftEditSymbolTool {
    pub file_io: FileIo,
}

impl AftEditSymbolTool {
    /// The tool over a workspace.
    pub fn new(file_io: FileIo) -> (r: Self)
        ensures
            r.file_io == file_io,
    {
        AftEditSymbolTool { file_io }
    }

    /// Its name.
    pub fn name(&self) -> (r: &'static str)
        ensures
            r@ == "aft_edit_symbol"@,
    {
        "aft_edit_symbol"
    }

    /// Replaces the first declaration named `symbol` with `content`: an error
    /// when there is none; the file kept, with a failed answer, when the new
    /// source does not parse; otherwise the new source to write.
    pub fn edit(&self, source: &str, symbol: &str, content: &str) -> (r: Result<SourceEdit, DevnpcError>)
        ensures
            ({
                let nodes = syntax_nodes_of(source@);
                match find_symbol_spec(nodes, symbol@) {
                    None => r matches Err(e) && tool_error(e, "aft_edit_symbol"@, "未找到符号: "@ + symbol@),
                    Some(k) => {
                        let new_source = spliced(source@, nodes[k], content@);
                        r matches Ok(edit) && if syntax_error_of(new_source) {
                            keeps(edit, false, "替换后的源码语法错误,操作已取消"@)
                        } else {
                            rewrites(edit, new_source, "已替换符号 "@ + symbol@)
                        }
                    },
                }
            }),
    {
        let nodes = parse_nodes(source);
        let k = match find_symbol(&nodes, symbol) {
            Some(k) => k,
            None => {
                return Err(make_error("aft_edit_symbol", "未找到符号: ", symbol));
            },
        };
        let sv = chars_of(source);
        let ghost n = nodes@[k as int]@;
        assert(nodes_view(nodes@)[k as int] == n);
        assert(node_within(n, source@));
        let a = char_index_at_byte(sv.as_slice(), nodes[k].start_byte);
        let b = char_index_at_byte(sv.as_slice(), nodes[k].end_byte);
        proof {
            lemma_char_at_byte_from(source@, n.start_byte as int, 0);
            lemma_char_at_byte_from(source@, n.end_byte as int, 0);
        }
        let (a, b) = match (a, b) {
            (Some(a), Some(b)) => (a, b),
            _ => {
                return Err(make_error("aft_edit_symbol", "提取文本失败", ""));
            },
        };
        let mut new_chars = sub_chars(sv.as_slice(), 0, a);
        let cv = chars_of(content);
        crate::text::extend_chars(&mut new_chars, cv.as_slice());
        let tail = sub_chars(sv.as_slice(), b, sv.len());
        crate::text::extend_chars(&mut new_chars, tail.as_slice());
        let new_source = string_of(new_chars.as_slice());
        assert(new_source@ =~= spliced(source@, n, content@));
        if has_syntax_error(new_source.as_str()) {
            return Ok(SourceEdit::Keep(ToolResult::err("替换后的源码语法错误,操作已取消")));
        }
        let mut msg = String::from_str("已替换符号 ");
        msg.append(symbol);
        Ok(SourceEdit::Rewrite { source: new_source, result: ToolResult::ok(msg.as_str()) })
    }
}

/// The directories a symbol search does not enter.
pub open spec fn skipped_dir(name: Seq<char>) -> bool {
    name == "target"@ || name == ".git"@ || name == "node_modules"@
}

/// How many directory levels below its root a symbol search goes.
pub const MAX_SEARCH_DEPTH: usize = 10;

/// The hits of `pattern` among the symbols of one file, in order.
pub open spec fn file_hits(pattern: Seq<char>, file: Seq<char>, syms: Seq<SymbolView>) -> Seq<Seq<char>>
    decreases syms.len(),
{
    if syms.len() == 0 {
        Seq::empty()
    } else {
        let prev = file_hits(pattern, file, syms.drop_last());
        if regex_is_match_of(pattern, syms.last().name) {
            prev.push(search_line(file, syms.last()))
        } else {
            prev
        }
    }
}

/// The hits of `pattern` in the given files (path, source), file by file.
pub open spec fn search_hits(pattern: Seq<char>, files: Seq<(Seq<char>, Seq<char>)>) -> Seq<Seq<char>>
    decreases files.len(),
{
    if files.len() == 0 {
        Seq::empty()
    } else {
        search_hits(pattern, files.drop_last()) + file_hits(
            pattern,
            files.last().0,
            symbols_spec(syntax_nodes_of(files.last().1)),
        )
    }
}

pub open spec fn files_view(files: Seq<(String, String)>) -> Seq<(Seq<char>, Seq<char>)> {
    files.map_values(|f: (String, String)| (f.0@, f.1@))
}

/// The answer of a search with these hits.
pub open spec fn search_output(hits: Seq<Seq<char>>) -> Seq<char> {
    if hits.len() == 0 {
        "(无匹配符号)"@
    } else {
        join_spec(hits, "\n"@)
    }
}

/// The `aft_search_symbols` tool: declarations whose name matches a regex.
#[derive(Debug, Clone)]
pub struct AftSearchSymbolsTool {
    pub file_io: FileIo,
}

impl AftSearchSymbolsTool {
    /// The tool over a workspace.
    pub fn new(file_io: FileIo) -> (r: Self)
        ensures
            r.file_io == file_io,
    {
        AftSearchSymbolsTool { file_io }
    }

    /// Its name.
    pub fn name(&self) -> (r: &'static str)
        ensures
            r@ == "aft_search_symbols"@,
    {
        "aft_search_symbols"
    }

    /// The error for a pattern that `regex` refuses.
    pub fn check_pattern(&self, pattern: &str) -> (r: Result<(), DevnpcError>)
        ensures
            match regex_error_of(pattern@) {
                Some(e) => r matches Err(err) && tool_error(err, "aft_search_symbols"@, "无效正则: "@ + e),
                None => r is Ok,
            },
    {
        match regex_error(pattern) {
            Some(e) => Err(make_error("aft_search_symbols", "无效正则: ", e.as_str())),
            None => Ok(()),
        }
    }

    /// The directory to search: the workspace for an empty `dir`, else `dir`
    /// inside it.
    pub fn search_root(&self, dir: &str) -> (r: Result<String, DevnpcError>)
        ensures
            dir@.len() == 0 ==> (r matches Ok(p) && p@ == self.file_io.workspace@),
            dir@.len() > 0 ==> match r {
                Ok(full) => path_inside(dir@) && full@ == joined(self.file_io.workspace@, dir@),
                Err(e) => !path_inside(dir@) && (e matches DevnpcError::PathTraversal { path: p } && p@ == dir@),
            },
    {
        if dir.is_empty() {
            Ok(self.file_io.workspace.clone())
        } else {
            self.file_io.validate_path(dir)
        }
    }

    /// Whether the search enters a directory of this name.
    pub fn skips_dir(name: &str) -> (r: bool)
        ensures
            r == skipped_dir(name@),
    {
        str_eq(name, "target") || str_eq(name, ".git") || str_eq(name, "node_modules")
    }

    /// The declarations whose name matches `pattern` in the given files
    /// (path relative to the workspace, source), or the error for a pattern
    /// that `regex` refuses.
    pub fn search(&self, pattern: &str, files: &Vec<(String, String)>) -> (r: Result<ToolResult, DevnpcError>)
        ensures
            match regex_error_of(pattern@) {
                Some(e) => r matches Err(err) && tool_error(err, "aft_search_symbols"@, "无效正则: "@ + e),
                None => r matches Ok(res) && res.success && res.output@ == search_output(
                    search_hits(pattern@, files_view(files@)),
                ),
            },
    {
        match regex_error(pattern) {
            Some(e) => {
                return Err(make_error("aft_search_symbols", "无效正则: ", e.as_str()));
            },
            None => {},
        }
        let ghost fv = files_view(files@);
        let mut hits: Vec<String> = Vec::new();
        let mut f: usize = 0;
        while f < files.len()
            invariant
                f <= files.len(),
                regex_error_of(pattern@) is None,
                fv == files_view(files@),
                fv.len() == files.len(),
                str_views(hits@) =~= search_hits(pattern@, fv.take(f as int)),
            decreases files.len() - f,
        {
            let (file, source) = (&files[f].0, &files[f].1);
            let nodes = parse_nodes(source.as_str());
            proof {
                lemma_rows_fit(nodes@, source@);
            }
            let symbols = collect_symbols(&nodes);
            let ghost syms = symbol_views(symbols@);
            let ghost base = str_views(hits@);
            let mut j: usize = 0;
            while j < symbols.len()
                invariant
                    j <= symbols.len(),
                    regex_error_of(pattern@) is None,
                    syms == symbol_views(symbols@),
                    syms.len() == symbols.len(),
                    str_views(hits@) =~= base + file_hits(pattern@, file@, syms.take(j as int)),
                decreases symbols.len() - j,
            {
                let sym = &symbols[j];
                assert(syms.take(j + 1).drop_last() =~= syms.take(j as int));
                assert(syms[j as int] == sym@);
                if regex_is_match(pattern, sym.name.as_str()) {
                    let line = search_line_of(file.as_str(), sym);
                    let ghost before = hits@;
                    hits.push(line);
                    assert(str_views(hits@) =~= str_views(before).push(line@));
                }
                j = j + 1;
            }
            proof {
                assert(syms.take(symbols.len() as int) =~= syms);
                assert(fv[f as int] == (file@, source@));
                assert(fv.take(f + 1).drop_last() =~= fv.take(f as int));
            }
            f = f + 1;
        }
        assert(fv.take(files.len() as int) =~= fv);
        if hits.len() == 0 {
            return Ok(ToolResult::ok("(无匹配符号)"));
        }
        let text = join_strings(&hits, "\n");
        Ok(ToolResult::ok(text.as_str()))
    }
}

/// The pattern a replacement compiles: `(?i)` in front when the flags hold `i`.
pub open spec fn effective_pattern(pattern: Seq<char>, flags: Seq<char>) -> Seq<char> {
    if contains_spec(flags, "i"@) {
        "(?i)"@ + pattern
    } else {
        pattern
    }
}

/// The `aft_ast_replace` tool: regex replacement in a file, kept only when
/// the new source parses.
#[derive(Debug, Clone)]
pub struct AftAstReplaceTool {
    pub file_io: FileIo,
}

impl AftAstReplaceTool {
    /// The tool over a workspace.
    pub fn new(file_io: FileIo) -> (r: Self)
        ensures
            r.file_io == file_io,
    {
        AftAstReplaceTool { file_io }
    }

    /// Its name.
    pub fn name(&self) -> (r: &'static str)
        ensures
            r@ == "aft_ast_replace"@,
    {
        "aft_ast_replace"
    }

    /// The pattern to compile for these flags, or the error for one that
    /// `regex` refuses.
    pub fn check_pattern(&self, pattern: &str, flags: &str) -> (r: Result<String, DevnpcError>)
        ensures
            match regex_error_of(effective_pattern(pattern@, flags@)) {
                Some(e) => r matches Err(err) && tool_error(err, "aft_ast_replace"@, "无效正则: "@ + e),
                None => r matches Ok(p) && p@ == effective_pattern(pattern@, flags@),
            },
    {
        let p = if str_contains(flags, "i") {
            let mut p = String::from_str("(?i)");
            p.append(pattern);
            p
        } else {
            String::from_str(pattern)
        };
        match regex_error(p.as_str()) {
            Some(e) => Err(make_error("aft_ast_replace", "无效正则: ", e.as_str())),
            None => Ok(p),
        }
    }

    /// Replaces every match of the pattern in `source`: the error for a
    /// pattern that `regex` refuses; the file kept when nothing changed, or,
    /// with a failed answer, when the new source does not parse; otherwise
    /// the new source to write.
    pub fn replace(&self, source: &str, pattern: &str, replacement: &str, flags: &str) -> (r: Result<SourceEdit, DevnpcError>)
        ensures
            ({
                let p = effective_pattern(pattern@, flags@);
                match regex_error_of(p) {
                    Some(e) => r matches Err(err) && tool_error(err, "aft_ast_replace"@, "无效正则: "@ + e),
                    None => {
                        let new_source = regex_replace_all_of(p, source@, replacement@);
                        r matches Ok(edit) && if new_source == source@ {
                            keeps(edit, true, "(无匹配,未修改)"@)
                        } else if syntax_error_of(new_source) {
                            keeps(edit, false, "替换后源码语法错误,操作已取消"@)
                        } else {
                            rewrites(edit, new_source, "替换完成"@)
                        }
                    },
                }
            }),
    {
        let p = match self.check_pattern(pattern, flags) {
            Ok(p) => p,
            Err(e) => {
                return Err(e);
            },
        };
        let new_source = regex_replace_all(p.as_str(), source, replacement);
        if str_eq(new_source.as_str(), source) {
            return Ok(SourceEdit::Keep(ToolResult::ok("(无匹配,未修改)")));
        }
        if has_syntax_error(new_source.as_str()) {
            return Ok(SourceEdit::Keep(ToolResult::err("替换后源码语法错误,操作已取消")));
        }
        Ok(SourceEdit::Rewrite { source: new_source, result: ToolResult::ok("替换完成") })
    }
}

} // verus!
