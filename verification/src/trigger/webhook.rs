//! Decisions of the GitLab webhook: which requests are authorised, and which
//! comment events become tasks. The HTTP server itself runs in the program
//! around the library.
//!
//! Only comments (`note` events) on merge requests and issues are considered,
//! and only when they mention `@devnpc`.

use vstd::prelude::*;

use crate::config::WebhookConfig;
use crate::text::str_eq;
use crate::trigger::parser::{mention_spec, parse_mention, TaskSpec, TaskSpecView};

verus! {

/// A task received through the webhook.
#[derive(Debug, Clone)]
pub struct WebhookTrigger {
    /// `note_mr` or `note_issue`.
    pub source: String,
    pub task: TaskSpec,
    /// The merge request or issue the comment belongs to (0 when the event omits it).
    pub target_iid: u64,
    pub project_id: u64,
}

/// A webhook task as plain values.
pub struct WebhookTriggerView {
    pub source: Seq<char>,
    pub task: TaskSpecView,
    pub target_iid: u64,
    pub project_id: u64,
}

impl View for WebhookTrigger {
    type V = WebhookTriggerView;

    open spec fn view(&self) -> WebhookTriggerView {
        WebhookTriggerView {
            source: self.source@,
            task: self.task@,
            target_iid: self.target_iid,
            project_id: self.project_id,
        }
    }
}

/// The path the webhook listens on: the configured one, or `/webhook`.
pub open spec fn webhook_path_spec(path: Seq<char>) -> Seq<char> {
    if path.len() == 0 {
        "/webhook"@
    } else {
        path
    }
}

/// A request is authorised when no secret is configured, or when its
/// `X-Gitlab-Token` header equals the secret.
pub open spec fn token_accepted_spec(secret: Seq<char>, token: Option<Seq<char>>) -> bool {
    secret.len() == 0 || token == Some(secret)
}

/// The source label and target of a comment, for merge requests and issues only.
pub open spec fn note_target(
    noteable_type: Seq<char>,
    mr_iid: Option<u64>,
    issue_iid: Option<u64>,
) -> Option<(Seq<char>, u64)> {
    if noteable_type == "MergeRequest"@ {
        Some(("note_mr"@, match mr_iid { Some(i) => i, None => 0 }))
    } else if noteable_type == "Issue"@ {
        Some(("note_issue"@, match issue_iid { Some(i) => i, None => 0 }))
    } else {
        None
    }
}

/// The task a comment event triggers, if any.
pub open spec fn note_trigger_spec(
    noteable_type: Seq<char>,
    mr_iid: Option<u64>,
    issue_iid: Option<u64>,
    note: Seq<char>,
    project_id: u64,
) -> Option<WebhookTriggerView> {
    match note_target(noteable_type, mr_iid, issue_iid) {
        Some((source, target_iid)) => match mention_spec(note) {
            Some(task) => Some(WebhookTriggerView { source, task, target_iid, project_id }),
            None => None,
        },
        None => None,
    }
}

/// The path the webhook listens on.
pub fn webhook_path(config: &WebhookConfig) -> (r: String)
    ensures
        r@ == webhook_path_spec(config.path@),
{
    if config.path.as_str().is_empty() {
        String::from_str("/webhook")
    } else {
        config.path.clone()
    }
}

/// Whether a request carrying `token` in `X-Gitlab-Token` is authorised.
pub fn token_accepted(secret: &str, token: Option<&str>) -> (r: bool)
    ensures
        r == token_accepted_spec(secret@, token.deep_view()),
{
    if secret.is_empty() {
        return true;
    }
    match token {
        Some(t) => str_eq(t, secret),
        None => false,
    }
}

/// The task a comment event triggers: comments on merge requests and issues
/// that mention `@devnpc` with some text after it.
pub fn note_trigger(
    noteable_type: &str,
    mr_iid: Option<u64>,
    issue_iid: Option<u64>,
    note: &str,
    project_id: u64,
) -> (r: Option<WebhookTrigger>)
    ensures
        match r {
            Some(t) => note_trigger_spec(noteable_type@, mr_iid, issue_iid, note@, project_id)
                == Some(t@),
            None => note_trigger_spec(noteable_type@, mr_iid, issue_iid, note@, project_id) is None,
        },
{
    let (source, target_iid) = if str_eq(noteable_type, "MergeRequest") {
        (String::from_str("note_mr"), match mr_iid { Some(i) => i, None => 0 })
    } else if str_eq(noteable_type, "Issue") {
        (String::from_str("note_issue"), match issue_iid { Some(i) => i, None => 0 })
    } else {
        return None;
    };
    match parse_mention(note) {
        Some(task) => Some(WebhookTrigger { source, task, target_iid, project_id }),
        None => None,
    }
}

} // verus!
