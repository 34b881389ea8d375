//! The `run_command` tool: runs an allowed command in the workspace.
//!
//! The deny-list is checked first, then the allow-list; the command runs with
//! a timeout (the configured default unless the call gives one).

use vstd::prelude::*;

use crate::config::CommandConfig;
use crate::tools::ToolResult;
use crate::text::{dec_spec, dec_string, join_spec, join_strings, str_in, str_views, clone_strings};

verus! {

/// The `run_command` tool of a workspace.
#[derive(Debug, Clone)]
pub struct RunCommandTool {
    pub workspace: String,
    pub timeout_secs: u64,
    pub allowlist: Vec<String>,
    pub denylist: Vec<String>,
}

/// A signed number in decimal.
pub open spec fn int_text(i: int) -> Seq<char> {
    if i < 0 {
        "-"@ + dec_spec((-i) as nat)
    } else {
        dec_spec(i as nat)
    }
}

/// The refusal of a command, if it is refused: a denied command, then one
/// that is not allowed (with the allowed ones listed).
pub open spec fn refusal(cmd: Seq<char>, allow: Seq<Seq<char>>, deny: Seq<Seq<char>>) -> Option<Seq<char>> {
    if deny.contains(cmd) {
        Some("命令 "@ + cmd + " 在黑名单中"@)
    } else if !allow.contains(cmd) {
        Some("命令 "@ + cmd + " 不在白名单中 (允许: "@ + join_spec(allow, ", "@) + ")"@)
    } else {
        None
    }
}

/// A command on the deny-list is refused as denied, whatever the allow-list
/// holds.
pub proof fn law_denied_refused(cmd: Seq<char>, allow: Seq<Seq<char>>, deny: Seq<Seq<char>>)
    requires
        deny.contains(cmd),
    ensures
        refusal(cmd, allow, deny) == Some("命令 "@ + cmd + " 在黑名单中"@),
{
}

/// The output of a finished command: stdout, then stderr after a marker
/// line when there is any.
pub open spec fn combined_output(stdout: Seq<char>, stderr: Seq<char>) -> Seq<char> {
    if stderr.len() == 0 {
        stdout
    } else {
        stdout + "\n[stderr]\n"@ + stderr
    }
}

impl RunCommandTool {
    /// The tool of `workspace`, with the configured lists and default timeout.
    pub fn new(workspace: String, config: CommandConfig) -> (r: Self)
        ensures
            r.workspace == workspace,
            r.timeout_secs == config.default_timeout_secs,
            r.allowlist == config.allowlist,
            r.denylist == config.denylist,
    {
        RunCommandTool {
            workspace,
            timeout_secs: config.default_timeout_secs,
            allowlist: config.allowlist,
            denylist: config.denylist,
        }
    }

    /// The same tool with another default timeout.
    pub fn with_timeout(self, timeout_secs: u64) -> (r: Self)
        ensures
            r.workspace == self.workspace,
            r.timeout_secs == timeout_secs,
            r.allowlist == self.allowlist,
            r.denylist == self.denylist,
    {
        RunCommandTool { timeout_secs, ..self }
    }

    /// The refusal of `cmd`, or `None` when it may run.
    pub fn check_command(&self, cmd: &str) -> (r: Option<ToolResult>)
        ensures
            match refusal(cmd@, str_views(self.allowlist@), str_views(self.denylist@)) {
                Some(msg) => r matches Some(t) && !t.success && t.output@ == msg,
                None => r is None,
            },
    {
        if str_in(&self.denylist, cmd) {
            let mut s = String::from_str("命令 ");
            s.append(cmd);
            s.append(" 在黑名单中");
            return Some(ToolResult::err(s.as_str()));
        }
        if !str_in(&self.allowlist, cmd) {
            let mut s = String::from_str("命令 ");
            s.append(cmd);
            s.append(" 不在白名单中 (允许: ");
            let j = join_strings(&self.allowlist, ", ");
            s.append(j.as_str());
            s.append(")");
            return Some(ToolResult::err(s.as_str()));
        }
        None
    }

    /// The timeout of a call: the one it asks for, or the default.
    pub fn effective_timeout(&self, requested: Option<u64>) -> (r: u64)
        ensures
            r == match requested {
                Some(t) => t,
                None => self.timeout_secs,
            },
    {
        match requested {
            Some(t) => t,
            None => self.timeout_secs,
        }
    }
}

/// The result of a command that finished: its combined output on success;
/// otherwise `退出码 <code>` (as `Some(n)` or `None`) and the output.
pub fn command_result(success: bool, code: Option<i32>, stdout: &str, stderr: &str) -> (r: ToolResult)
    ensures
        r.success == success,
        r.output@ == if success {
            combined_output(stdout@, stderr@)
        } else {
            "退出码 "@ + match code {
                Some(c) => "Some("@ + int_text(c as int) + ")"@,
                None => "None"@,
            } + "\n"@ + combined_output(stdout@, stderr@)
        },
{
    let mut combined = String::from_str(stdout);
    if !stderr.is_empty() {
        combined.append("\n[stderr]\n");
        combined.append(stderr);
    }
    if success {
        return ToolResult::ok(combined.as_str());
    }
    let mut s = String::from_str("退出码 ");
    match code {
        Some(c) => {
            s.append("Some(");
            if c < 0 {
                s.append("-");
                let d = dec_string((-(c as i64)) as u64);
                s.append(d.as_str());
            } else {
                let d = dec_string(c as u64);
                s.append(d.as_str());
            }
            s.append(")");
        },
        None => s.append("None"),
    }
    s.append("\n");
    s.append(combined.as_str());
    ToolResult::err(s.as_str())
}

/// The result of a command that ran out of time.
pub fn timeout_result(timeout_secs: u64) -> (r: ToolResult)
    ensures
        !r.success,
        r.output@ == "命令超时 ("@ + dec_spec(timeout_secs as nat) + "s)"@,
{
    let mut s = String::from_str("命令超时 (");
    let d = dec_string(timeout_secs);
    s.append(d.as_str());
    s.append("s)");
    ToolResult::err(s.as_str())
}

} // verus!
