//! Skills: declarative domain expertise layered over roles and SOPs.
//!
//! A skill is chosen for a task by its task kinds or by keywords found in the
//! task description; its instruction is appended to the agent's instruction
//! and its tool list narrows the tools the agent gets. Several skills can
//! apply at once, the highest priority first.

use vstd::prelude::*;

use crate::error::DevnpcError;
use crate::text::{contains_spec, lowercase_of, str_contains, str_eq, str_in, str_views, to_lowercase};
use crate::trigger::parser::TaskKind;

verus! {

/// When a skill applies.
#[derive(Debug, Clone, PartialEq, Eq)]
pub struct SkillScenarios {
    /// Task kinds (`implement`, `fix`, `test`, `refactor`, `review`).
    pub task_kinds: Vec<String>,
    /// Words whose presence in the task description selects the skill.
    pub keywords: Vec<String>,
}

impl Default for SkillScenarios {
    fn default() -> (r: Self)
        ensures
            r.task_kinds@.len() == 0,
            r.keywords@.len() == 0,
    {
        SkillScenarios { task_kinds: Vec::new(), keywords: Vec::new() }
    }
}

/// A skill.
#[derive(Debug, Clone, PartialEq, Eq)]
pub struct Skill {
    pub name: String,
    pub description: String,
    /// Expert knowledge appended to the agent's instruction.
    pub instruction: String,
    /// Tools the skill allows; empty for no restriction.
    pub tools: Vec<String>,
    pub scenarios: SkillScenarios,
    /// Higher priorities come first when several skills match.
    pub priority: i32,
}

/// The skills, by name: no two have the same name.
#[derive(Debug, Clone)]
pub struct SkillRegistry {
    pub skills: Vec<Skill>,
}

/// The skills behind a list of references.
pub open spec fn derefs(v: Seq<&Skill>) -> Seq<Skill> {
    v.map_values(|s: &Skill| *s)
}

/// The names of a list of skills.
pub open spec fn names_of(v: Seq<Skill>) -> Seq<Seq<char>> {
    v.map_values(|s: Skill| s.name@)
}

/// No two skills share a name.
pub open spec fn unique_names(v: Seq<Skill>) -> bool {
    forall|i: int, j: int| 0 <= i < j < v.len() ==> v[i].name@ != v[j].name@
}

/// Index of the first skill from `i` on named `name`, or -1.
pub open spec fn name_index(v: Seq<Skill>, name: Seq<char>, i: int) -> int
    decreases v.len() - i,
{
    if i < 0 || i >= v.len() {
        -1
    } else if v[i].name@ == name {
        i
    } else {
        name_index(v, name, i + 1)
    }
}

/// The registry after adding `s`: it replaces the skill of the same name, or
/// comes last.
pub open spec fn inserted(v: Seq<Skill>, s: Skill) -> Seq<Skill> {
    let k = name_index(v, s.name@, 0);
    if k >= 0 {
        v.update(k, s)
    } else {
        v.push(s)
    }
}

proof fn lemma_name_index(v: Seq<Skill>, name: Seq<char>, i: int)
    requires
        0 <= i,
    ensures
        name_index(v, name, i) == -1 ==> forall|j: int| i <= j < v.len() ==> v[j].name@ != name,
        name_index(v, name, i) != -1 ==> i <= name_index(v, name, i) < v.len() && v[name_index(v, name, i)].name@
            == name && forall|j: int| i <= j < name_index(v, name, i) ==> v[j].name@ != name,
    decreases v.len() - i,
{
    if i < v.len() && v[i].name@ != name {
        lemma_name_index(v, name, i + 1);
    }
}

/// Adding a skill keeps the names of a registry unique.
pub proof fn law_insert_keeps_names_unique(v: Seq<Skill>, s: Skill)
    requires
        unique_names(v),
    ensures
        unique_names(inserted(v, s)),
{
    lemma_name_index(v, s.name@, 0);
}

/// A registry loaded from skill files has no two skills of the same name.
pub proof fn law_registry_names_unique(sources: Seq<SkillSource>)
    ensures
        unique_names(registry_of(sources)),
    decreases sources.len(),
{
    if sources.len() > 0 {
        law_registry_names_unique(sources.drop_last());
        match sources.last().parsed {
            Ok(s) => law_insert_keeps_names_unique(registry_of(sources.drop_last()), s),
            Err(_) => {},
        }
    }
}

/// After a skill is added, looking its name up finds it, and looking up any
/// other name finds what it found before.
pub proof fn law_get_after_insert(v: Seq<Skill>, s: Skill, other: Seq<char>)
    requires
        other != s.name@,
    ensures
        name_index(inserted(v, s), s.name@, 0) >= 0,
        inserted(v, s)[name_index(inserted(v, s), s.name@, 0)] == s,
        name_index(inserted(v, s), other, 0) == name_index(v, other, 0),
        name_index(v, other, 0) >= 0 ==> inserted(v, s)[name_index(v, other, 0)] == v[name_index(v, other, 0)],
{
    let w = inserted(v, s);
    lemma_name_index(v, s.name@, 0);
    lemma_name_index(v, other, 0);
    lemma_name_index(w, s.name@, 0);
    lemma_name_index(w, other, 0);
    let k = name_index(v, s.name@, 0);
    let kw = name_index(w, s.name@, 0);
    if k >= 0 {
        assert(w[k].name@ == s.name@);
        if kw == -1 {
            assert(false);
        }
        if kw != k {
            assert(kw < k);
            assert(w[kw] == v[kw]);
        }
    } else {
        assert(w[v.len() as int] == s);
        if kw == -1 {
            assert(false);
        }
        if kw < v.len() {
            assert(w[kw] == v[kw]);
        }
    }
    let o = name_index(v, other, 0);
    let ow = name_index(w, other, 0);
    if o >= 0 {
        assert(w[o] == v[o]);
        if ow == -1 {
            assert(false);
        }
        if ow < o {
            assert(w[ow].name@ == other);
            if k >= 0 && ow == k {
                assert(false);
            }
            assert(w[ow] == v[ow]);
        }
    } else {
        if ow != -1 {
            if ow < v.len() {
                if k >= 0 && ow == k {
                    assert(false);
                }
                assert(w[ow] == v[ow]);
            } else {
                assert(w[ow] == s);
            }
        }
    }
}

/// A skill file read from the skills directory: its path, and the skill its
/// YAML gives or the message of the error that decoding it raised.
#[derive(Debug)]
pub struct SkillSource {
    pub path: String,
    pub parsed: Result<Skill, String>,
}

/// Index of the first source that failed to decode, or -1.
pub open spec fn first_bad(v: Seq<SkillSource>, i: int) -> int
    decreases v.len() - i,
{
    if i < 0 || i >= v.len() {
        -1
    } else if v[i].parsed is Err {
        i
    } else {
        first_bad(v, i + 1)
    }
}

/// The skills of decoded sources, each added in turn.
pub open spec fn registry_of(v: Seq<SkillSource>) -> Seq<Skill>
    decreases v.len(),
{
    if v.len() == 0 {
        Seq::empty()
    } else {
        match v.last().parsed {
            Ok(s) => inserted(registry_of(v.drop_last()), s),
            Err(_) => registry_of(v.drop_last()),
        }
    }
}

/// The message of a skill file that failed to decode.
pub open spec fn bad_skill_msg(path: Seq<char>, err: Seq<char>) -> Seq<char> {
    "解析 "@ + path + " 失败: "@ + err
}

/// The name used for a task kind in skill files.
pub open spec fn kind_name(kind: TaskKind) -> Seq<char> {
    match kind {
        TaskKind::Implement => "implement"@,
        TaskKind::Fix => "fix"@,
        TaskKind::Test => "test"@,
        TaskKind::Refactor => "refactor"@,
        TaskKind::Review => "review"@,
    }
}

/// A keyword hits a lowercased description when its lowercase form occurs in it.
pub open spec fn keyword_hit(desc_lower: Seq<char>, kw: Seq<char>) -> bool {
    contains_spec(desc_lower, lowercase_of(kw))
}

/// A skill applies to the task kind named `kname`, described by the lowercased `dlower`.
pub open spec fn applies_to(s: Skill, kname: Seq<char>, dlower: Seq<char>) -> bool {
    ||| str_views(s.scenarios.task_kinds@).contains(kname)
    ||| exists|i: int|
        0 <= i < s.scenarios.keywords@.len() && #[trigger] keyword_hit(dlower, s.scenarios.keywords@[i]@)
}

/// A skill applies to a task of kind `kind` described by `desc`: the kind is
/// one of its task kinds, or one of its keywords occurs in the description,
/// ignoring case.
pub open spec fn skill_applies(s: Skill, kind: TaskKind, desc: Seq<char>) -> bool {
    applies_to(s, kind_name(kind), lowercase_of(desc))
}

/// The skills that apply, in registry order.
pub open spec fn applying(v: Seq<Skill>, kind: TaskKind, desc: Seq<char>) -> Seq<Skill>
    decreases v.len(),
{
    if v.len() == 0 {
        Seq::empty()
    } else {
        let r = applying(v.drop_last(), kind, desc);
        if skill_applies(v.last(), kind, desc) {
            r.push(v.last())
        } else {
            r
        }
    }
}

/// Where a skill of priority `p` goes in a list sorted by priority, highest
/// first: after every skill of priority at least `p`.
pub open spec fn insert_pos(s: Seq<Skill>, p: i32, i: int) -> int
    decreases s.len() - i,
{
    if i < 0 || i >= s.len() {
        s.len() as int
    } else if s[i].priority < p {
        i
    } else {
        insert_pos(s, p, i + 1)
    }
}

/// `v` sorted by priority, highest first; skills of equal priority keep their order.
pub open spec fn by_priority(v: Seq<Skill>) -> Seq<Skill>
    decreases v.len(),
{
    if v.len() == 0 {
        Seq::empty()
    } else {
        let r = by_priority(v.drop_last());
        r.insert(insert_pos(r, v.last().priority, 0), v.last())
    }
}

pub proof fn lemma_insert_pos_bounds(s: Seq<Skill>, p: i32, i: int)
    requires
        0 <= i <= s.len(),
    ensures
        i <= insert_pos(s, p, i) <= s.len(),
    decreases s.len() - i,
{
    if i < s.len() && s[i].priority >= p {
        lemma_insert_pos_bounds(s, p, i + 1);
    }
}

pub proof fn lemma_by_priority_len(v: Seq<Skill>)
    ensures
        by_priority(v).len() == v.len(),
    decreases v.len(),
{
    if v.len() > 0 {
        lemma_by_priority_len(v.drop_last());
        lemma_insert_pos_bounds(by_priority(v.drop_last()), v.last().priority, 0);
    }
}

/// Highest priority first.
pub open spec fn priority_sorted(s: Seq<Skill>) -> bool {
    forall|i: int, j: int| 0 <= i <= j < s.len() ==> s[i].priority >= s[j].priority
}

proof fn lemma_insert_pos_split(s: Seq<Skill>, p: i32, i: int)
    requires
        0 <= i <= s.len(),
    ensures
        i <= insert_pos(s, p, i) <= s.len(),
        forall|j: int| i <= j < insert_pos(s, p, i) ==> s[j].priority >= p,
        insert_pos(s, p, i) < s.len() ==> s[insert_pos(s, p, i)].priority < p,
    decreases s.len() - i,
{
    if i < s.len() && s[i].priority >= p {
        lemma_insert_pos_split(s, p, i + 1);
    }
}

/// Skills put in priority order come highest priority first, and they are
/// the same skills: none is lost, none is added.
pub proof fn law_by_priority_sorted(v: Seq<Skill>)
    ensures
        priority_sorted(by_priority(v)),
        by_priority(v).to_multiset() == v.to_multiset(),
    decreases v.len(),
{
    if v.len() == 0 {
        assert(by_priority(v).to_multiset() =~= v.to_multiset()) by {
            assert(v =~= Seq::<Skill>::empty());
        }
    } else {
        let w = v.drop_last();
        let x = v.last();
        law_by_priority_sorted(w);
        let r = by_priority(w);
        let k = insert_pos(r, x.priority, 0);
        lemma_insert_pos_split(r, x.priority, 0);
        let res = r.insert(k, x);
        assert(by_priority(v) == res);
        assert forall|i: int, j: int| 0 <= i <= j < res.len() implies res[i].priority >= res[j].priority by {
            if j < k {
                assert(res[i] == r[i] && res[j] == r[j]);
            } else if j == k {
                if i < k {
                    assert(res[i] == r[i]);
                }
            } else {
                assert(res[j] == r[j - 1]);
                if i < k {
                    assert(res[i] == r[i]);
                } else if i == k {
                    assert(r[k].priority >= r[j - 1].priority);
                } else {
                    assert(res[i] == r[i - 1]);
                }
            }
        }
        vstd::seq_lib::to_multiset_insert(r, k, x);
        vstd::seq_lib::to_multiset_build(w, x);
        assert(w.push(x) =~= v);
    }
}

/// The instruction with the skills appended: for each skill with a non-empty
/// instruction, a blank line, a `## 专家技能: <name>` heading and the instruction.
pub open spec fn injected(base: Seq<char>, skills: Seq<Skill>) -> Seq<char>
    decreases skills.len(),
{
    if skills.len() == 0 {
        base
    } else {
        let r = injected(base, skills.drop_last());
        let s = skills.last();
        if s.instruction@.len() == 0 {
            r
        } else {
            r + "\n\n## 专家技能: "@ + s.name@ + "\n"@ + s.instruction@
        }
    }
}

/// The tool names that the skills allow: all of them when no skill restricts
/// tools; otherwise those named by some skill, exactly or as a `_<name>` suffix.
pub open spec fn tool_allowed(skills: Seq<Skill>, tool: Seq<char>) -> bool {
    exists|i: int, j: int|
        0 <= i < skills.len() && 0 <= j < skills[i].tools@.len() && #[trigger] tool_matches(
            tool,
            skills[i].tools@[j]@,
        )
}

/// A tool name matches an allowed name exactly or ends with `_` and it.
pub open spec fn tool_matches(tool: Seq<char>, allowed: Seq<char>) -> bool {
    tool == allowed || (tool.len() >= allowed.len() + 1 && tool.subrange(
        tool.len() - allowed.len() - 1,
        tool.len() as int,
    ) == seq!['_'] + allowed)
}

/// Some skill restricts the tools.
pub open spec fn restricts_tools(skills: Seq<Skill>) -> bool {
    exists|i: int| 0 <= i < skills.len() && #[trigger] skills[i].tools@.len() > 0
}

/// The tools kept, in order.
pub open spec fn kept_tools(tools: Seq<Seq<char>>, skills: Seq<Skill>) -> Seq<Seq<char>>
    decreases tools.len(),
{
    if tools.len() == 0 {
        Seq::empty()
    } else {
        let r = kept_tools(tools.drop_last(), skills);
        if tool_allowed(skills, tools.last()) {
            r.push(tools.last())
        } else {
            r
        }
    }
}

/// The name used for a task kind in skill files.
pub fn task_kind_str(kind: &TaskKind) -> (r: &'static str)
    ensures
        r@ == kind_name(*kind),
{
    match kind {
        TaskKind::Implement => "implement",
        TaskKind::Fix => "fix",
        TaskKind::Test => "test",
        TaskKind::Refactor => "refactor",
        TaskKind::Review => "review",
    }
}

/// Whether a file of the skills directory is a skill definition: its extension
/// is `yml` or `yaml`.
pub fn is_skill_file(file_name: &str) -> (r: bool)
    ensures
        r == (ends_with_ext(file_name@, "yml"@) || ends_with_ext(file_name@, "yaml"@)),
{
    ends_with_ext_exec(file_name, "yml") || ends_with_ext_exec(file_name, "yaml")
}

/// `name` ends with `.` and `ext`, and something other than a path separator
/// comes before the dot (`Path::extension` for an extension without dots).
pub open spec fn ends_with_ext(name: Seq<char>, ext: Seq<char>) -> bool {
    let n = name.len();
    let k = ext.len();
    &&& n >= k + 2
    &&& name.subrange(n - k, n as int) == ext
    &&& name[n - k - 1] == '.'
    &&& name[n - k - 2] != '/'
}

fn ends_with_ext_exec(name: &str, ext: &str) -> (r: bool)
    ensures
        r == ends_with_ext(name@, ext@),
{
    let nv = crate::text::chars_of(name);
    let ev = crate::text::chars_of(ext);
    let n = nv.len();
    let k = ev.len();
    if n < 2 || n - 2 < k {
        return false;
    }
    let tail = crate::text::sub_chars(nv.as_slice(), n - k, n);
    if !crate::text::chars_eq(tail.as_slice(), ev.as_slice()) {
        return false;
    }
    nv[n - k - 1] == '.' && nv[n - k - 2] != '/'
}

// ───────────────────────── exec ─────────────────────────

/// Whether skill `s` applies to the task kind named `kind_str`, described by the
/// lowercased `desc_lower`.
fn applies_exec(s: &Skill, kind_str: &str, desc_lower: &str) -> (r: bool)
    ensures
        r == applies_to(*s, kind_str@, desc_lower@),
{
    if str_in(&s.scenarios.task_kinds, kind_str) {
        return true;
    }
    let kws = &s.scenarios.keywords;
    let mut j: usize = 0;
    while j < kws.len()
        invariant
            j <= kws.len(),
            kws == &s.scenarios.keywords,
            forall|k: int| 0 <= k < j ==> !keyword_hit(desc_lower@, #[trigger] kws@[k]@),
        decreases kws.len() - j,
    {
        let kl = to_lowercase(kws[j].as_str());
        if str_contains(desc_lower, kl.as_str()) {
            assert(keyword_hit(desc_lower@, kws@[j as int]@));
            return true;
        }
        j = j + 1;
    }
    false
}

/// Sorts skills by priority, highest first, keeping the order of equal priorities.
fn sort_by_priority<'a>(v: Vec<&'a Skill>) -> (r: Vec<&'a Skill>)
    ensures
        derefs(r@) == by_priority(derefs(v@)),
{
    let mut r: Vec<&'a Skill> = Vec::new();
    let mut i: usize = 0;
    while i < v.len()
        invariant
            i <= v.len(),
            derefs(r@) == by_priority(derefs(v@).take(i as int)),
        decreases v.len() - i,
    {
        let x = v[i];
        let p = x.priority;
        let ghost rv = derefs(r@);
        let mut j: usize = 0;
        while j < r.len() && r[j].priority >= p
            invariant
                j <= r.len(),
                rv == derefs(r@),
                insert_pos(rv, p, j as int) == insert_pos(rv, p, 0),
            decreases r.len() - j,
        {
            j = j + 1;
        }
        proof {
            assert(insert_pos(rv, p, j as int) == j);
            let t = derefs(v@).take(i + 1);
            assert(t.drop_last() =~= derefs(v@).take(i as int));
            assert(t.last() == *x);
        }
        r.insert(j, x);
        assert(derefs(r@) =~= rv.insert(j as int, *x));
        i = i + 1;
    }
    assert(derefs(v@).take(v.len() as int) =~= derefs(v@));
    r
}

impl SkillRegistry {
    /// An empty registry.
    pub fn new() -> (r: Self)
        ensures
            r.skills@.len() == 0,
    {
        SkillRegistry { skills: Vec::new() }
    }

    /// Adds a skill, replacing the one of the same name.
    pub fn insert(&mut self, skill: Skill)
        ensures
            final(self).skills@ == inserted(old(self).skills@, skill),
    {
        let ghost v = self.skills@;
        let mut i: usize = 0;
        while i < self.skills.len()
            invariant
                i <= self.skills.len(),
                self.skills@ == v,
                v == old(self).skills@,
                name_index(v, skill.name@, i as int) == name_index(v, skill.name@, 0),
            decreases self.skills.len() - i,
        {
            if str_eq(self.skills[i].name.as_str(), skill.name.as_str()) {
                assert(name_index(v, skill.name@, i as int) == i);
                self.skills.set(i, skill);
                assert(self.skills@ == v.update(i as int, skill));
                return;
            }
            i = i + 1;
        }
        self.skills.push(skill);
    }

    /// The registry of the skill files of a directory, added in order.
    ///
    /// The first file that failed to decode makes the whole load fail with a
    /// configuration error that names it.
    pub fn load(sources: Vec<SkillSource>) -> (r: Result<Self, DevnpcError>)
        ensures
            match r {
                Ok(reg) => first_bad(sources@, 0) == -1 && reg.skills@ == registry_of(sources@),
                Err(e) => {
                    let k = first_bad(sources@, 0);
                    &&& 0 <= k < sources@.len()
                    &&& match sources@[k].parsed {
                        Err(m) => e matches DevnpcError::Config(msg) && msg@ == bad_skill_msg(
                            sources@[k].path@,
                            m@,
                        ),
                        Ok(_) => false,
                    }
                },
            },
    {
        let ghost sv = sources@;
        let mut reg = SkillRegistry::new();
        let mut i: usize = 0;
        for src in it: sources
            invariant
                it.seq() == sv,
                first_bad(sv, 0) == first_bad(sv, it.index() as int),
                reg.skills@ == registry_of(sv.take(it.index() as int)),
        {
            let ghost k = it.index() as int;
            proof {
                assert(sv.take(k + 1).drop_last() =~= sv.take(k));
                assert(sv.take(k + 1).last() == src);
            }
            match src.parsed {
                Ok(skill) => {
                    reg.insert(skill);
                },
                Err(m) => {
                    let mut msg = String::from_str("解析 ");
                    msg.append(src.path.as_str());
                    msg.append(" 失败: ");
                    msg.append(m.as_str());
                    return Err(DevnpcError::Config(msg));
                },
            }
        }
        assert(sv.take(sv.len() as int) =~= sv);
        Ok(reg)
    }

    /// The skill named `name`.
    pub fn get(&self, name: &str) -> (r: Option<&Skill>)
        ensures
            match r {
                Some(s) => {
                    let k = name_index(self.skills@, name@, 0);
                    0 <= k < self.skills@.len() && *s == self.skills@[k]
                },
                None => name_index(self.skills@, name@, 0) == -1,
            },
    {
        let mut i: usize = 0;
        while i < self.skills.len()
            invariant
                i <= self.skills.len(),
                name_index(self.skills@, name@, i as int) == name_index(self.skills@, name@, 0),
            decreases self.skills.len() - i,
        {
            if str_eq(self.skills[i].name.as_str(), name) {
                return Some(&self.skills[i]);
            }
            i = i + 1;
        }
        None
    }

    /// The skills that apply to a task, highest priority first: those whose
    /// task kinds hold the task's kind, and those with a keyword that occurs in
    /// the description, ignoring case.
    pub fn match_skills(&self, task_kind: &TaskKind, description: &str) -> (r: Vec<&Skill>)
        ensures
            derefs(r@) == by_priority(applying(self.skills@, *task_kind, description@)),
    {
        let kind_str = task_kind_str(task_kind);
        let desc_lower = to_lowercase(description);
        let mut matched: Vec<&Skill> = Vec::new();
        let mut i: usize = 0;
        while i < self.skills.len()
            invariant
                i <= self.skills.len(),
                kind_str@ == kind_name(*task_kind),
                desc_lower@ == lowercase_of(description@),
                derefs(matched@) == applying(self.skills@.take(i as int), *task_kind, description@),
            decreases self.skills.len() - i,
        {
            let s = &self.skills[i];
            proof {
                let t = self.skills@.take(i + 1);
                assert(t.drop_last() =~= self.skills@.take(i as int));
                assert(t.last() == *s);
            }
            if applies_exec(s, kind_str, desc_lower.as_str()) {
                let ghost before = matched@;
                matched.push(s);
                assert(derefs(matched@) =~= derefs(before).push(*s));
            }
            i = i + 1;
        }
        assert(self.skills@.take(self.skills@.len() as int) =~= self.skills@);
        sort_by_priority(matched)
    }

    /// The names of the skills, highest priority first.
    pub fn list(&self) -> (r: Vec<&str>)
        ensures
            r@.map_values(|n: &str| n@) == names_of(by_priority(self.skills@)),
    {
        let mut all: Vec<&Skill> = Vec::new();
        let mut i: usize = 0;
        while i < self.skills.len()
            invariant
                i <= self.skills.len(),
                derefs(all@) == self.skills@.take(i as int),
            decreases self.skills.len() - i,
        {
            let ghost before = all@;
            all.push(&self.skills[i]);
            assert(derefs(all@) =~= derefs(before).push(self.skills@[i as int]));
            assert(self.skills@.take(i + 1) =~= self.skills@.take(i as int).push(self.skills@[i as int]));
            i = i + 1;
        }
        assert(self.skills@.take(self.skills@.len() as int) =~= self.skills@);
        let sorted = sort_by_priority(all);
        let mut names: Vec<&str> = Vec::new();
        let mut j: usize = 0;
        while j < sorted.len()
            invariant
                j <= sorted.len(),
                names@.map_values(|n: &str| n@) == names_of(derefs(sorted@)).take(j as int),
            decreases sorted.len() - j,
        {
            let ghost before = names@;
            let n = sorted[j].name.as_str();
            names.push(n);
            assert(names@.map_values(|n: &str| n@) =~= before.map_values(|n: &str| n@).push(n@));
            assert(names_of(derefs(sorted@)).take(j + 1) =~= names_of(derefs(sorted@)).take(j as int).push(
                n@,
            ));
            j = j + 1;
        }
        assert(names_of(derefs(sorted@)).take(sorted.len() as int) =~= names_of(derefs(sorted@)));
        names
    }
}

impl Default for SkillRegistry {
    fn default() -> (r: Self)
        ensures
            r.skills@.len() == 0,
    {
        SkillRegistry::new()
    }
}

/// Appends the instructions of the skills to `base_instruction`.
pub fn inject_skills(base_instruction: &str, skills: &[&Skill]) -> (r: String)
    ensures
        r@ == injected(base_instruction@, derefs(skills@)),
{
    let mut result = String::from_str(base_instruction);
    let mut i: usize = 0;
    while i < skills.len()
        invariant
            i <= skills.len(),
            result@ == injected(base_instruction@, derefs(skills@).take(i as int)),
        decreases skills.len() - i,
    {
        let s = skills[i];
        proof {
            let t = derefs(skills@).take(i + 1);
            assert(t.drop_last() =~= derefs(skills@).take(i as int));
            assert(t.last() == *s);
        }
        if !s.instruction.as_str().is_empty() {
            result.append("\n\n## 专家技能: ");
            result.append(s.name.as_str());
            result.append("\n");
            result.append(s.instruction.as_str());
        }
        i = i + 1;
    }
    assert(derefs(skills@).take(skills@.len() as int) =~= derefs(skills@));
    result
}

fn tool_matches_exec(tool: &str, allowed: &str) -> (r: bool)
    ensures
        r == tool_matches(tool@, allowed@),
{
    if str_eq(tool, allowed) {
        return true;
    }
    let tv = crate::text::chars_of(tool);
    let av = crate::text::chars_of(allowed);
    if tv.len() < 1 || tv.len() - 1 < av.len() {
        return false;
    }
    let mut suffix: Vec<char> = Vec::new();
    suffix.push('_');
    crate::text::extend_chars(&mut suffix, av.as_slice());
    let tail = crate::text::sub_chars(tv.as_slice(), tv.len() - av.len() - 1, tv.len());
    assert(suffix@ =~= seq!['_'] + allowed@);
    crate::text::chars_eq(tail.as_slice(), suffix.as_slice())
}

fn tool_allowed_exec(skills: &[&Skill], tool: &str) -> (r: bool)
    ensures
        r == tool_allowed(derefs(skills@), tool@),
{
    let ghost sk = derefs(skills@);
    let mut i: usize = 0;
    while i < skills.len()
        invariant
            i <= skills.len(),
            sk == derefs(skills@),
            forall|a: int, b: int|
                0 <= a < i && 0 <= b < sk[a].tools@.len() ==> !#[trigger] tool_matches(
                    tool@,
                    sk[a].tools@[b]@,
                ),
        decreases skills.len() - i,
    {
        let tools = &skills[i].tools;
        assert(sk[i as int] == *skills[i as int]);
        let mut j: usize = 0;
        while j < tools.len()
            invariant
                j <= tools.len(),
                i < skills.len(),
                sk == derefs(skills@),
                tools == &skills[i as int].tools,
                sk[i as int] == *skills[i as int],
                forall|a: int, b: int|
                    0 <= a < i && 0 <= b < sk[a].tools@.len() ==> !#[trigger] tool_matches(
                        tool@,
                        sk[a].tools@[b]@,
                    ),
                forall|b: int| 0 <= b < j ==> !#[trigger] tool_matches(tool@, sk[i as int].tools@[b]@),
            decreases tools.len() - j,
        {
            if tool_matches_exec(tool, tools[j].as_str()) {
                assert(tool_matches(tool@, sk[i as int].tools@[j as int]@));
                return true;
            }
            j = j + 1;
        }
        i = i + 1;
    }
    false
}

/// Narrows a list of tool names to those the skills allow.
///
/// When no skill restricts tools the list is returned as it is. Otherwise a
/// tool is kept when some skill names it, exactly or as the suffix after an
/// underscore (`view_symbol` allows `aft_view_symbol`).
pub fn filter_tools_by_skills(tools: Vec<String>, skills: &[&Skill]) -> (r: Vec<String>)
    ensures
        str_views(r@) == if restricts_tools(derefs(skills@)) {
            kept_tools(str_views(tools@), derefs(skills@))
        } else {
            str_views(tools@)
        },
{
    let ghost sk = derefs(skills@);
    let mut restricted = false;
    let mut i: usize = 0;
    while i < skills.len()
        invariant
            i <= skills.len(),
            sk == derefs(skills@),
            restricted == exists|a: int| 0 <= a < i && #[trigger] sk[a].tools@.len() > 0,
        decreases skills.len() - i,
    {
        assert(sk[i as int] == *skills[i as int]);
        if skills[i].tools.len() > 0 {
            restricted = true;
        }
        i = i + 1;
    }
    if !restricted {
        return tools;
    }
    let ghost tv = str_views(tools@);
    let mut out: Vec<String> = Vec::new();
    for t in it: tools
        invariant
            it.seq() == tools@,
            tv == str_views(tools@),
            sk == derefs(skills@),
            str_views(out@) == kept_tools(tv.take(it.index() as int), sk),
    {
        let ghost k = it.index() as int;
        proof {
            let q = tv.take(k + 1);
            assert(q.drop_last() =~= tv.take(k));
            assert(q.last() == t@);
        }
        if tool_allowed_exec(skills, t.as_str()) {
            let ghost before = out@;
            out.push(t);
            assert(str_views(out@) =~= str_views(before).push(out@.last()@));
        }
    }
    assert(tv.take(tv.len() as int) =~= tv);
    out
}

} // verus!
