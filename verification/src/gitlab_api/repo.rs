//! Repository helpers over tree listings.

use vstd::prelude::*;

use crate::gitlab_api::RepoTreeEntry;
use crate::text::str_eq;

verus! {

/// The branch read when no ref is given.
pub const DEFAULT_REF: &'static str = "main";

/// The entries behind a list of references.
pub open spec fn entry_derefs(v: Seq<&RepoTreeEntry>) -> Seq<RepoTreeEntry> {
    v.map_values(|e: &RepoTreeEntry| *e)
}

/// The entries of type `ty`, in order.
pub open spec fn of_type(v: Seq<RepoTreeEntry>, ty: Seq<char>) -> Seq<RepoTreeEntry>
    decreases v.len(),
{
    if v.len() == 0 {
        Seq::empty()
    } else {
        let r = of_type(v.drop_last(), ty);
        if v.last().type_@ == ty {
            r.push(v.last())
        } else {
            r
        }
    }
}

/// Index of the first entry named `name` from `i` on, or -1.
pub open spec fn entry_index(v: Seq<RepoTreeEntry>, name: Seq<char>, i: int) -> int
    decreases v.len() - i,
{
    if i < 0 || i >= v.len() {
        -1
    } else if v[i].name@ == name {
        i
    } else {
        entry_index(v, name, i + 1)
    }
}

fn filter_type<'a>(entries: &'a [RepoTreeEntry], ty: &str) -> (r: Vec<&'a RepoTreeEntry>)
    ensures
        entry_derefs(r@) == of_type(entries@, ty@),
{
    let mut r: Vec<&'a RepoTreeEntry> = Vec::new();
    let mut i: usize = 0;
    while i < entries.len()
        invariant
            i <= entries.len(),
            entry_derefs(r@) == of_type(entries@.take(i as int), ty@),
        decreases entries.len() - i,
    {
        let e = &entries[i];
        proof {
            let t = entries@.take(i + 1);
            assert(t.drop_last() =~= entries@.take(i as int));
            assert(t.last() == *e);
        }
        if str_eq(e.type_.as_str(), ty) {
            let ghost before = r@;
            r.push(e);
            assert(entry_derefs(r@) =~= entry_derefs(before).push(*e));
        }
        i = i + 1;
    }
    assert(entries@.take(entries@.len() as int) =~= entries@);
    r
}

/// The files (`blob` entries) of a listing, in order.
pub fn filter_files(entries: &[RepoTreeEntry]) -> (r: Vec<&RepoTreeEntry>)
    ensures
        entry_derefs(r@) == of_type(entries@, "blob"@),
{
    filter_type(entries, "blob")
}

/// The directories (`tree` entries) of a listing, in order.
pub fn filter_dirs(entries: &[RepoTreeEntry]) -> (r: Vec<&RepoTreeEntry>)
    ensures
        entry_derefs(r@) == of_type(entries@, "tree"@),
{
    filter_type(entries, "tree")
}

/// The first entry named exactly `name`.
pub fn find_by_name<'a>(entries: &'a [RepoTreeEntry], name: &str) -> (r: Option<&'a RepoTreeEntry>)
    ensures
        match r {
            Some(e) => {
                let k = entry_index(entries@, name@, 0);
                0 <= k < entries@.len() && *e == entries@[k]
            },
            None => entry_index(entries@, name@, 0) == -1,
        },
{
    let mut i: usize = 0;
    while i < entries.len()
        invariant
            i <= entries.len(),
            entry_index(entries@, name@, i as int) == entry_index(entries@, name@, 0),
        decreases entries.len() - i,
    {
        if str_eq(entries[i].name.as_str(), name) {
            return Some(&entries[i]);
        }
        i = i + 1;
    }
    None
}

} // verus!
