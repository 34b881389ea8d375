//! The git commands the agent runs, as argument lists.

use vstd::prelude::*;

use crate::text::str_views;

verus! {

/// Git in a working copy.
#[derive(Debug, Clone)]
pub struct GitOps {
    /// The working copy.
    pub workspace: String,
}

impl GitOps {
    /// Git in `workspace`.
    pub fn new(workspace: String) -> (r: Self)
        ensures
            r.workspace == workspace,
    {
        GitOps { workspace }
    }

    /// `git ls-tree HEAD`: the top level of the repository.
    pub fn ls_tree_head_args(&self) -> (r: Vec<String>)
        ensures
            str_views(r@) == seq!["ls-tree"@, "HEAD"@],
    {
        let mut v: Vec<String> = Vec::new();
        v.push(String::from_str("ls-tree"));
        v.push(String::from_str("HEAD"));
        assert(str_views(v@) =~= seq!["ls-tree"@, "HEAD"@]);
        v
    }

    /// `git ls-tree HEAD <dir>/`: one directory, with paths from the root.
    pub fn ls_tree_subdir_args(&self, dir: &str) -> (r: Vec<String>)
        ensures
            str_views(r@) == seq!["ls-tree"@, "HEAD"@, dir@ + "/"@],
    {
        let mut v: Vec<String> = Vec::new();
        v.push(String::from_str("ls-tree"));
        v.push(String::from_str("HEAD"));
        let mut d = String::from_str(dir);
        d.append("/");
        v.push(d);
        assert(str_views(v@) =~= seq!["ls-tree"@, "HEAD"@, dir@ + "/"@]);
        v
    }

    /// `git push origin <branch>`.
    pub fn push_args(&self, branch: &str) -> (r: Vec<String>)
        ensures
            str_views(r@) == seq!["push"@, "origin"@, branch@],
    {
        let mut v: Vec<String> = Vec::new();
        v.push(String::from_str("push"));
        v.push(String::from_str("origin"));
        v.push(String::from_str(branch));
        assert(str_views(v@) =~= seq!["push"@, "origin"@, branch@]);
        v
    }

    /// `git log --oneline -n <count>`: the recent commits.
    pub fn recent_commits_args(&self, count: u64) -> (r: Vec<String>)
        ensures
            str_views(r@) == seq!["log"@, "--oneline"@, "-n"@, crate::text::dec_spec(count as nat)],
    {
        let mut v: Vec<String> = Vec::new();
        v.push(String::from_str("log"));
        v.push(String::from_str("--oneline"));
        v.push(String::from_str("-n"));
        v.push(crate::text::dec_string(count));
        assert(str_views(v@) =~= seq!["log"@, "--oneline"@, "-n"@, crate::text::dec_spec(count as nat)]);
        v
    }
}

} // verus!
