//! Prompt templates: the context and the task rendered as the first messages.
//!
//! The system message holds the role, the project rules and the working
//! rules; the user message holds the development memory (layout, key files,
//! issue, merge requests, comments, commits, CI failures) and the task.

use vstd::prelude::*;

use crate::agent::message::Message;
use crate::config::ProjectConfig;
use crate::gitlab_api::{Issue, MergeRequest, Note};
use crate::memory::context::{CiFailure, Context, KeyFile, TreeEntry, TreeKind};
use crate::text::{dec_spec, dec_string, join_spec, join_strings, str_views};

verus! {

/// Who the agent is.
pub const SYSTEM_INTRO: &'static str = "你是 devnpc,基于 GitLab 的研发流程 AI 智能体。遵循项目规范,优先用最小改动解决问题。";

/// How the agent works.
pub const WORK_RULES: &'static str = "\n# 工作规则\n1. 修改前先用 read_file/list_files 理解上下文\n2. 改完用 run_command 验证\n3. 完成后调 finish 工具,summary 写验收摘要\n4. 禁止访问工作目录外文件";

/// The parts of the system prompt.
pub open spec fn system_parts(role: Seq<char>, project: ProjectConfig) -> Seq<Seq<char>> {
    let p0 = seq![role, SYSTEM_INTRO@];
    let p1 = if project.guidelines_markdown@.len() > 0 {
        p0.push("\n# 项目规范\n"@ + project.guidelines_markdown@)
    } else {
        p0
    };
    let p2 = if project.forbidden_paths@.len() > 0 {
        p1.push("\n# 禁止修改的路径\n"@ + join_spec(str_views(project.forbidden_paths@), "\n"@))
    } else {
        p1
    };
    let p3 = if project.required_checks@.len() > 0 {
        p2.push("\n# 提交前必须通过的检查\n"@ + join_spec(str_views(project.required_checks@), "\n"@))
    } else {
        p2
    };
    p3.push(WORK_RULES@)
}

/// The system prompt: its parts separated by blank lines.
pub open spec fn system_prompt_spec(role: Seq<char>, project: ProjectConfig) -> Seq<char> {
    join_spec(system_parts(role, project), "\n\n"@)
}

/// A layout line: the path, with `/` after a directory.
pub open spec fn tree_line(e: TreeEntry) -> Seq<char> {
    e.path@ + if e.kind == TreeKind::Dir {
        "/"@
    } else {
        Seq::empty()
    }
}

/// A key-file block.
pub open spec fn key_file_block(k: KeyFile) -> Seq<char> {
    "### "@ + k.path@ + "\n"@ + k.summary@
}

/// A merge-request line.
pub open spec fn pr_line(mr: MergeRequest) -> Seq<char> {
    "!"@ + dec_spec(mr.iid as nat) + " "@ + mr.title@ + " ["@ + mr.state@ + "]"@
}

/// A comment line.
pub open spec fn note_line(n: Note) -> Seq<char> {
    "- "@ + n.author.username@ + ": "@ + n.body@
}

/// A CI failure line.
pub open spec fn failure_line(f: CiFailure) -> Seq<char> {
    "- pipeline #"@ + dec_spec(f.pipeline_id as nat) + ": "@ + f.root_cause@
}

/// The issue section.
pub open spec fn issue_section(issue: Issue) -> Seq<char> {
    "## 目标 Issue #"@ + dec_spec(issue.iid as nat) + "\n**标题**: "@ + issue.title@ + "\n**描述**: "@
        + match issue.description {
        Some(d) => d@,
        None => "(无)"@,
    } + "\n**状态**: "@ + issue.state@
}

/// The sections of the user prompt, in order; empty lists give no section
/// (the layout and the issue always have one).
pub open spec fn user_sections(ctx: Context, task: Seq<char>) -> Seq<Seq<char>> {
    let s0 = seq![
        "## 仓库结构\n"@ + join_spec(ctx.repo_tree.entries@.map_values(|e: TreeEntry| tree_line(e)), "\n"@),
    ];
    let s1 = if ctx.key_files@.len() > 0 {
        s0.push(
            "## 关键文件摘要\n"@ + join_spec(ctx.key_files@.map_values(|k: KeyFile| key_file_block(k)), "\n\n"@),
        )
    } else {
        s0
    };
    let s2 = s1.push(issue_section(ctx.issue));
    let s3 = if ctx.related_prs@.len() > 0 {
        s2.push("## 相关 PR 历史\n"@ + join_spec(ctx.related_prs@.map_values(|m: MergeRequest| pr_line(m)), "\n"@))
    } else {
        s2
    };
    let s4 = if ctx.issue_notes@.len() > 0 {
        s3.push("## Issue 评论\n"@ + join_spec(ctx.issue_notes@.map_values(|n: Note| note_line(n)), "\n"@))
    } else {
        s3
    };
    let s5 = if ctx.recent_commits@.len() > 0 {
        s4.push("## 最近提交\n"@ + join_spec(str_views(ctx.recent_commits@), "\n"@))
    } else {
        s4
    };
    let s6 = if ctx.ci_failures@.len() > 0 {
        s5.push("## 已知 CI 失败\n"@ + join_spec(ctx.ci_failures@.map_values(|f: CiFailure| failure_line(f)), "\n"@))
    } else {
        s5
    };
    s6.push("# 任务\n"@ + task)
}

/// The user prompt: its sections separated by blank lines.
pub open spec fn user_prompt_spec(ctx: Context, task: Seq<char>) -> Seq<char> {
    join_spec(user_sections(ctx, task), "\n\n"@)
}

fn cat(a: &str, b: &str) -> (r: String)
    ensures
        r@ == a@ + b@,
{
    let mut s = String::from_str(a);
    s.append(b);
    s
}

/// The system prompt for a role and the project rules.
pub fn build_system_prompt(role_prompt: &str, project: &ProjectConfig) -> (r: String)
    ensures
        r@ == system_prompt_spec(role_prompt@, *project),
{
    let mut parts: Vec<String> = Vec::new();
    parts.push(String::from_str(role_prompt));
    parts.push(String::from_str(SYSTEM_INTRO));
    let ghost p0 = seq![role_prompt@, SYSTEM_INTRO@];
    assert(str_views(parts@) =~= p0);
    if !project.guidelines_markdown.as_str().is_empty() {
        parts.push(cat("\n# 项目规范\n", project.guidelines_markdown.as_str()));
    }
    if project.forbidden_paths.len() > 0 {
        let j = join_strings(&project.forbidden_paths, "\n");
        parts.push(cat("\n# 禁止修改的路径\n", j.as_str()));
    }
    if project.required_checks.len() > 0 {
        let j = join_strings(&project.required_checks, "\n");
        parts.push(cat("\n# 提交前必须通过的检查\n", j.as_str()));
    }
    parts.push(String::from_str(WORK_RULES));
    assert(str_views(parts@) =~= system_parts(role_prompt@, *project));
    join_strings(&parts, "\n\n")
}

/// The user prompt: the development memory and the task.
pub fn build_user_prompt(context: &Context, task_description: &str) -> (r: String)
    ensures
        r@ == user_prompt_spec(*context, task_description@),
{
    let mut sections: Vec<String> = Vec::new();

    // layout
    let entries = &context.repo_tree.entries;
    let mut tree: Vec<String> = Vec::new();
    let mut i: usize = 0;
    while i < entries.len()
        invariant
            i <= entries.len(),
            entries == &context.repo_tree.entries,
            str_views(tree@) == entries@.map_values(|e: TreeEntry| tree_line(e)).take(i as int),
        decreases entries.len() - i,
    {
        let e = &entries[i];
        let line = if e.kind == TreeKind::Dir {
            cat(e.path.as_str(), "/")
        } else {
            let s = e.path.clone();
            assert(s@ =~= e.path@ + Seq::<char>::empty());
            s
        };
        let ghost before = str_views(tree@);
        tree.push(line);
        assert(str_views(tree@) =~= before.push(tree_line(*e)));
        assert(entries@.map_values(|e: TreeEntry| tree_line(e)).take(i + 1) =~= entries@.map_values(
            |e: TreeEntry| tree_line(e),
        ).take(i as int).push(tree_line(*e)));
        i = i + 1;
    }
    assert(entries@.map_values(|e: TreeEntry| tree_line(e)).take(entries@.len() as int) =~= entries@.map_values(
        |e: TreeEntry| tree_line(e),
    ));
    let tj = join_strings(&tree, "\n");
    sections.push(cat("## 仓库结构\n", tj.as_str()));

    // key files
    let kfs = &context.key_files;
    if kfs.len() > 0 {
        let mut blocks: Vec<String> = Vec::new();
        let mut i: usize = 0;
        while i < kfs.len()
            invariant
                i <= kfs.len(),
                kfs == &context.key_files,
                str_views(blocks@) == kfs@.map_values(|k: KeyFile| key_file_block(k)).take(i as int),
            decreases kfs.len() - i,
        {
            let k = &kfs[i];
            let mut b = cat("### ", k.path.as_str());
            b.append("\n");
            b.append(k.summary.as_str());
            let ghost before = str_views(blocks@);
            blocks.push(b);
            assert(str_views(blocks@) =~= before.push(key_file_block(*k)));
            assert(kfs@.map_values(|k: KeyFile| key_file_block(k)).take(i + 1) =~= kfs@.map_values(
                |k: KeyFile| key_file_block(k),
            ).take(i as int).push(key_file_block(*k)));
            i = i + 1;
        }
        assert(kfs@.map_values(|k: KeyFile| key_file_block(k)).take(kfs@.len() as int) =~= kfs@.map_values(
            |k: KeyFile| key_file_block(k),
        ));
        let bj = join_strings(&blocks, "\n\n");
        sections.push(cat("## 关键文件摘要\n", bj.as_str()));
    }

    // issue
    let issue = &context.issue;
    let mut is = String::from_str("## 目标 Issue #");
    let iid = dec_string(issue.iid);
    is.append(iid.as_str());
    is.append("\n**标题**: ");
    is.append(issue.title.as_str());
    is.append("\n**描述**: ");
    match &issue.description {
        Some(d) => is.append(d.as_str()),
        None => is.append("(无)"),
    }
    is.append("\n**状态**: ");
    is.append(issue.state.as_str());
    assert(is@ =~= issue_section(*issue));
    sections.push(is);

    // merge requests
    let prs = &context.related_prs;
    if prs.len() > 0 {
        let mut lines: Vec<String> = Vec::new();
        let mut i: usize = 0;
        while i < prs.len()
            invariant
                i <= prs.len(),
                prs == &context.related_prs,
                str_views(lines@) == prs@.map_values(|m: MergeRequest| pr_line(m)).take(i as int),
            decreases prs.len() - i,
        {
            let m = &prs[i];
            let mut l = String::from_str("!");
            let d = dec_string(m.iid);
            l.append(d.as_str());
            l.append(" ");
            l.append(m.title.as_str());
            l.append(" [");
            l.append(m.state.as_str());
            l.append("]");
            let ghost before = str_views(lines@);
            lines.push(l);
            assert(str_views(lines@) =~= before.push(pr_line(*m)));
            assert(prs@.map_values(|m: MergeRequest| pr_line(m)).take(i + 1) =~= prs@.map_values(
                |m: MergeRequest| pr_line(m),
            ).take(i as int).push(pr_line(*m)));
            i = i + 1;
        }
        assert(prs@.map_values(|m: MergeRequest| pr_line(m)).take(prs@.len() as int) =~= prs@.map_values(
            |m: MergeRequest| pr_line(m),
        ));
        let lj = join_strings(&lines, "\n");
        sections.push(cat("## 相关 PR 历史\n", lj.as_str()));
    }

    // comments
    let notes = &context.issue_notes;
    if notes.len() > 0 {
        let mut lines: Vec<String> = Vec::new();
        let mut i: usize = 0;
        while i < notes.len()
            invariant
                i <= notes.len(),
                notes == &context.issue_notes,
                str_views(lines@) == notes@.map_values(|n: Note| note_line(n)).take(i as int),
            decreases notes.len() - i,
        {
            let n = &notes[i];
            let mut l = cat("- ", n.author.username.as_str());
            l.append(": ");
            l.append(n.body.as_str());
            let ghost before = str_views(lines@);
            lines.push(l);
            assert(str_views(lines@) =~= before.push(note_line(*n)));
            assert(notes@.map_values(|n: Note| note_line(n)).take(i + 1) =~= notes@.map_values(
                |n: Note| note_line(n),
            ).take(i as int).push(note_line(*n)));
            i = i + 1;
        }
        assert(notes@.map_values(|n: Note| note_line(n)).take(notes@.len() as int) =~= notes@.map_values(
            |n: Note| note_line(n),
        ));
        let lj = join_strings(&lines, "\n");
        sections.push(cat("## Issue 评论\n", lj.as_str()));
    }

    // commits
    if context.recent_commits.len() > 0 {
        let cj = join_strings(&context.recent_commits, "\n");
        sections.push(cat("## 最近提交\n", cj.as_str()));
    }

    // CI failures
    let fs = &context.ci_failures;
    if fs.len() > 0 {
        let mut lines: Vec<String> = Vec::new();
        let mut i: usize = 0;
        while i < fs.len()
            invariant
                i <= fs.len(),
                fs == &context.ci_failures,
                str_views(lines@) == fs@.map_values(|f: CiFailure| failure_line(f)).take(i as int),
            decreases fs.len() - i,
        {
            let f = &fs[i];
            let mut l = String::from_str("- pipeline #");
            let d = dec_string(f.pipeline_id);
            l.append(d.as_str());
            l.append(": ");
            l.append(f.root_cause.as_str());
            let ghost before = str_views(lines@);
            lines.push(l);
            assert(str_views(lines@) =~= before.push(failure_line(*f)));
            assert(fs@.map_values(|f: CiFailure| failure_line(f)).take(i + 1) =~= fs@.map_values(
                |f: CiFailure| failure_line(f),
            ).take(i as int).push(failure_line(*f)));
            i = i + 1;
        }
        assert(fs@.map_values(|f: CiFailure| failure_line(f)).take(fs@.len() as int) =~= fs@.map_values(
            |f: CiFailure| failure_line(f),
        ));
        let lj = join_strings(&lines, "\n");
        sections.push(cat("## 已知 CI 失败\n", lj.as_str()));
    }

    // task
    sections.push(cat("# 任务\n", task_description));
    assert(str_views(sections@) =~= user_sections(*context, task_description@));
    join_strings(&sections, "\n\n")
}

/// The first messages of a run: the system prompt, then the user prompt.
pub fn build_initial_messages(context: &Context, role_prompt: &str, task_description: &str) -> (r: Vec<Message>)
    ensures
        r@.len() == 2,
        r@[0] matches Message::System { content } && content@ == system_prompt_spec(role_prompt@, context.project_config),
        r@[1] matches Message::User { content } && content@ == user_prompt_spec(*context, task_description@),
{
    let system = build_system_prompt(role_prompt, &context.project_config);
    let user = build_user_prompt(context, task_description);
    let mut v: Vec<Message> = Vec::new();
    v.push(Message::system(system));
    v.push(Message::user(user));
    v
}

} // verus!
