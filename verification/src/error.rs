//! The library's error type.

use vstd::prelude::*;

verus! {

/// Errors of the library and of the program around it.
#[derive(Debug, Clone, PartialEq, Eq)]
pub enum DevnpcError {
    /// A required environment variable is not set.
    MissingEnv { var: String },
    /// Invalid or inconsistent configuration.
    Config(String),
    /// A YAML document could not be parsed.
    Yaml(String),
    /// A JSON document could not be parsed or produced.
    Json(String),
    /// A file-system or process error.
    Io(String),
    /// A path leaves the workspace.
    PathTraversal { path: String },
    /// A tool call failed.
    Tool { tool: String, msg: String },
    /// Waiting for a pipeline exceeded its deadline.
    PipelineTimeout { stage: String },
    /// The CI fix cycle has nothing left to try.
    CiFixExhausted { attempts: u8 },
    /// A git command failed.
    GitCommand { cmd: String, code: i32 },
    /// GitLab answered 404.
    GitlabNotFound { resource: String },
    /// GitLab answered with another non-success status.
    GitlabApi { status: u16, body: String },
    /// An HTTP transport error.
    Http(String),
    /// The LLM endpoint failed.
    Llm(String),
    /// The memory database failed.
    Sqlite(String),
}

} // verus!
