//! Workspace paths: a path given to a file tool must stay inside the workspace.

use vstd::prelude::*;

use crate::error::DevnpcError;
use crate::text::{chars_of, string_of};

verus! {

/// The workspace of the file tools.
#[derive(Debug, Clone)]
pub struct FileIo {
    pub workspace: String,
}

/// The depth after one more component: `..` climbs, an empty or `.`
/// component stays, any other descends.
pub open spec fn step_depth(d: int, c: Seq<char>) -> int {
    if c == ".."@ {
        d - 1
    } else if c.len() == 0 || c == "."@ {
        d
    } else {
        d + 1
    }
}

/// The walk of a path's components, character by character: the depth below
/// the workspace after the completed components (-1 once it went above it),
/// and the component being read.
pub open spec fn scan(s: Seq<char>) -> (int, Seq<char>)
    decreases s.len(),
{
    if s.len() == 0 {
        (0, Seq::empty())
    } else {
        let (d, cur) = scan(s.drop_last());
        if d < 0 {
            (-1, Seq::empty())
        } else if s.last() == '/' {
            let nd = step_depth(d, cur);
            if nd < 0 {
                (-1, Seq::empty())
            } else {
                (nd, Seq::empty())
            }
        } else {
            (d, cur.push(s.last()))
        }
    }
}

/// A relative path that never climbs above the workspace.
pub open spec fn path_inside(path: Seq<char>) -> bool {
    let (d, cur) = scan(path);
    &&& !(path.len() > 0 && path[0] == '/')
    &&& d >= 0
    &&& step_depth(d, cur) >= 0
}

/// Once the walk has gone above the workspace it stays there.
pub proof fn lemma_scan_sticky(s: Seq<char>, k: int)
    requires
        0 <= k <= s.len(),
        scan(s.take(k)).0 < 0,
    ensures
        scan(s).0 < 0,
    decreases s.len() - k,
{
    if k < s.len() {
        assert(s.take(k + 1).drop_last() =~= s.take(k));
        lemma_scan_sticky(s, k + 1);
    } else {
        assert(s.take(k) =~= s);
    }
}

/// A path the file tools accept never climbs above the workspace, at no
/// point of its walk.
pub proof fn law_accepted_path_stays_inside(path: Seq<char>, k: int)
    requires
        path_inside(path),
        0 <= k <= path.len(),
    ensures
        scan(path.take(k)).0 >= 0,
{
    if scan(path.take(k)).0 < 0 {
        lemma_scan_sticky(path, k);
    }
}

/// The walk never goes below zero except to mark an escape.
pub proof fn lemma_scan_depth(s: Seq<char>)
    ensures
        scan(s).0 >= -1,
        scan(s).0 < 0 ==> scan(s).0 == -1,
    decreases s.len(),
{
    if s.len() > 0 {
        lemma_scan_depth(s.drop_last());
    }
}

/// `Path::join`: the path under the workspace.
pub open spec fn joined(workspace: Seq<char>, path: Seq<char>) -> Seq<char> {
    if workspace.len() == 0 {
        path
    } else if workspace.last() == '/' {
        workspace + path
    } else {
        workspace + "/"@ + path
    }
}

impl FileIo {
    /// The file tools of `workspace`.
    pub fn new(workspace: String) -> (r: Self)
        ensures
            r.workspace == workspace,
    {
        FileIo { workspace }
    }

    /// The full path of `path` under the workspace, refused when it is
    /// absolute or climbs above the workspace with `..`.
    pub fn validate_path(&self, path: &str) -> (r: Result<String, DevnpcError>)
        ensures
            match r {
                Ok(full) => path_inside(path@) && full@ == joined(self.workspace@, path@),
                Err(e) => !path_inside(path@) && (e matches DevnpcError::PathTraversal { path: p } && p@ == path@),
            },
    {
        let v = chars_of(path);
        if v.len() > 0 && v[0] == '/' {
            return Err(DevnpcError::PathTraversal { path: String::from_str(path) });
        }
        // walk the components
        let mut depth: i128 = 0;
        let mut cur: Vec<char> = Vec::new();
        let mut i: usize = 0;
        while i < v.len()
            invariant
                i <= v.len(),
                v@ == path@,
                scan(v@.take(i as int)) == (depth as int, cur@),
                0 <= depth <= i,
                i <= usize::MAX,
            decreases v.len() - i,
        {
            let c = v[i];
            assert(v@.take(i + 1).drop_last() =~= v@.take(i as int));
            assert(v@.take(i + 1).last() == c);
            if c == '/' {
                let nd = step_exec(depth, &cur);
                if nd < 0 {
                    proof {
                        lemma_scan_sticky(v@, i + 1);
                    }
                    return Err(DevnpcError::PathTraversal { path: String::from_str(path) });
                }
                depth = nd;
                cur = Vec::new();
            } else {
                cur.push(c);
            }
            i = i + 1;
        }
        assert(v@.take(v.len() as int) =~= v@);
        let nd = step_exec(depth, &cur);
        if nd < 0 {
            return Err(DevnpcError::PathTraversal { path: String::from_str(path) });
        }
        let ws = chars_of(self.workspace.as_str());
        let mut full = String::from_str(self.workspace.as_str());
        if ws.len() > 0 && ws[ws.len() - 1] != '/' {
            full.append("/");
        }
        full.append(path);
        Ok(full)
    }
}

/// One step of the walk, on a depth that has not escaped.
fn step_exec(depth: i128, c: &Vec<char>) -> (r: i128)
    requires
        0 <= depth < i128::MAX,
    ensures
        r == step_depth(depth as int, c@),
{
    let dots = chars_of("..");
    let dot = chars_of(".");
    if crate::text::chars_eq(c.as_slice(), dots.as_slice()) {
        depth - 1
    } else if c.len() == 0 || crate::text::chars_eq(c.as_slice(), dot.as_slice()) {
        depth
    } else {
        depth + 1
    }
}

} // verus!
