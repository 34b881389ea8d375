//! GitLab REST API v4: the data the agent reads and the requests it makes.
//!
//! The HTTP client itself runs in the program around the library; this module
//! holds the data model, the URLs and the decisions around the calls.

pub mod client;
pub mod pipelines;
pub mod repo;

use vstd::prelude::*;

verus! {

/// An issue.
#[derive(Debug, Clone)]
pub struct Issue {
    pub iid: u64,
    pub title: String,
    pub description: Option<String>,
    pub state: String,
    pub web_url: String,
}

/// A merge request.
#[derive(Debug, Clone)]
pub struct MergeRequest {
    pub iid: u64,
    pub title: String,
    pub description: Option<String>,
    pub state: String,
    pub source_branch: String,
    pub target_branch: String,
    pub web_url: String,
    pub draft: bool,
}

/// What creating a merge request takes.
#[derive(Debug, Clone)]
pub struct CreateMrReq {
    pub source_branch: String,
    pub target_branch: String,
    pub title: String,
    pub description: String,
    pub draft: bool,
}

/// A pipeline.
#[derive(Debug, Clone)]
pub struct Pipeline {
    pub id: u64,
    pub status: String,
    /// The branch or tag (`ref` in the API).
    pub ref_: Option<String>,
    pub sha: Option<String>,
    pub web_url: String,
}

/// A pipeline as plain values.
pub struct PipelineView {
    pub id: u64,
    pub status: Seq<char>,
    pub ref_: Option<Seq<char>>,
    pub sha: Option<Seq<char>>,
    pub web_url: Seq<char>,
}

impl View for Pipeline {
    type V = PipelineView;

    open spec fn view(&self) -> PipelineView {
        PipelineView {
            id: self.id,
            status: self.status@,
            ref_: self.ref_.deep_view(),
            sha: self.sha.deep_view(),
            web_url: self.web_url@,
        }
    }
}

/// The views of a list of pipelines.
pub open spec fn pipeline_views(v: Seq<Pipeline>) -> Seq<PipelineView> {
    v.map_values(|p: Pipeline| p@)
}

fn copy_opt(o: &Option<String>) -> (r: Option<String>)
    ensures
        r.deep_view() == o.deep_view(),
{
    match o {
        Some(s) => Some(s.clone()),
        None => None,
    }
}

impl Pipeline {
    /// A copy of the pipeline.
    pub fn copy(&self) -> (r: Pipeline)
        ensures
            r@ == self@,
    {
        Pipeline {
            id: self.id,
            status: self.status.clone(),
            ref_: copy_opt(&self.ref_),
            sha: copy_opt(&self.sha),
            web_url: self.web_url.clone(),
        }
    }
}

/// A CI job.
#[derive(Debug, Clone)]
pub struct Job {
    pub id: u64,
    pub name: String,
    pub status: String,
    pub stage: String,
    pub web_url: Option<String>,
}

/// A comment.
#[derive(Debug, Clone)]
pub struct Note {
    pub id: u64,
    pub body: String,
    pub author: NoteAuthor,
    pub created_at: String,
}

/// The author of a comment.
#[derive(Debug, Clone)]
pub struct NoteAuthor {
    pub id: u64,
    pub username: String,
    pub name: String,
}

/// An entry of a repository tree listing.
#[derive(Debug, Clone)]
pub struct RepoTreeEntry {
    pub id: String,
    pub name: String,
    /// `blob` for a file, `tree` for a directory.
    pub type_: String,
    pub path: String,
    pub mode: String,
}

/// A file changed by a merge request.
#[derive(Debug, Clone)]
pub struct MergeRequestChange {
    pub old_path: String,
    pub new_path: String,
    pub new_file: bool,
    pub renamed_file: bool,
    pub deleted_file: bool,
}

} // verus!
