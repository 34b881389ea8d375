//! The fixed text of the HTML report and the functions that fill it in.

use vstd::prelude::*;

verus! {

/// Fixed text 0 of a trajectory row.
pub const ROW_0: &'static str = "<tr class=\"";

/// Fixed text 1 of a trajectory row.
pub const ROW_1: &'static str = "\">\n                    <td class=\"event-idx\">";

/// Fixed text 2 of a trajectory row.
pub const ROW_2: &'static str = "</td>\n                    <td class=\"event-icon\">";

/// Fixed text 3 of a trajectory row.
pub const ROW_3: &'static str = "</td>\n                    <td class=\"event-detail\">";

/// Fixed text 4 of a trajectory row.
pub const ROW_4: &'static str = "</td>\n                </tr>";

/// The text of a trajectory row, with its values filled in.
pub open spec fn row_text(row_class: Seq<char>, index: Seq<char>, icon: Seq<char>, detail: Seq<char>) -> Seq<char> {
    ROW_0@ + row_class + ROW_1@ + index + ROW_2@ + icon + ROW_3@ + detail + ROW_4@
}

pub fn fill_row(row_class: &str, index: &str, icon: &str, detail: &str) -> (r: String)
    ensures
        r@ == row_text(row_class@, index@, icon@, detail@),
{
    let mut s = String::from_str(ROW_0);
    s.append(row_class);
    s.append(ROW_1);
    s.append(index);
    s.append(ROW_2);
    s.append(icon);
    s.append(ROW_3);
    s.append(detail);
    s.append(ROW_4);
    s
}

/// Fixed text 0 of the merge-request number.
pub const MR_IID_0: &'static str = "<div class=\"output-item\">\n                <span class=\"output-label\">MR IID</span>\n                <span class=\"output-value\">!";

/// Fixed text 1 of the merge-request number.
pub const MR_IID_1: &'static str = "</span>\n            </div>";

/// The text of the merge-request number, with its values filled in.
pub open spec fn mr_iid_text(iid: Seq<char>) -> Seq<char> {
    MR_IID_0@ + iid + MR_IID_1@
}

pub fn fill_mr_iid(iid: &str) -> (r: String)
    ensures
        r@ == mr_iid_text(iid@),
{
    let mut s = String::from_str(MR_IID_0);
    s.append(iid);
    s.append(MR_IID_1);
    s
}

/// Fixed text 0 of the pipeline number.
pub const PIPELINE_ID_0: &'static str = "<div class=\"output-item\">\n                <span class=\"output-label\">Pipeline ID</span>\n                <span class=\"output-value\">#";

/// Fixed text 1 of the pipeline number.
pub const PIPELINE_ID_1: &'static str = "</span>\n            </div>";

/// The text of the pipeline number, with its values filled in.
pub open spec fn pipeline_id_text(pid: Seq<char>) -> Seq<char> {
    PIPELINE_ID_0@ + pid + PIPELINE_ID_1@
}

pub fn fill_pipeline_id(pid: &str) -> (r: String)
    ensures
        r@ == pipeline_id_text(pid@),
{
    let mut s = String::from_str(PIPELINE_ID_0);
    s.append(pid);
    s.append(PIPELINE_ID_1);
    s
}

/// Fixed text 0 of the merge-request link.
pub const MR_URL_0: &'static str = "<div class=\"output-item\">\n                <span class=\"output-label\">MR 链接</span>\n                <span class=\"output-value\"><a href=\"";

/// Fixed text 1 of the merge-request link.
pub const MR_URL_1: &'static str = "\" target=\"_blank\">";

/// Fixed text 2 of the merge-request link.
pub const MR_URL_2: &'static str = "</a></span>\n            </div>";

/// The text of the merge-request link, with its values filled in.
pub open spec fn mr_url_text(url: Seq<char>, url_text: Seq<char>) -> Seq<char> {
    MR_URL_0@ + url + MR_URL_1@ + url_text + MR_URL_2@
}

pub fn fill_mr_url(url: &str, url_text: &str) -> (r: String)
    ensures
        r@ == mr_url_text(url@, url_text@),
{
    let mut s = String::from_str(MR_URL_0);
    s.append(url);
    s.append(MR_URL_1);
    s.append(url_text);
    s.append(MR_URL_2);
    s
}

/// Fixed text 0 of the CI link.
pub const CI_URL_0: &'static str = "<div class=\"output-item\">\n                <span class=\"output-label\">CI 链接</span>\n                <span class=\"output-value\"><a href=\"";

/// Fixed text 1 of the CI link.
pub const CI_URL_1: &'static str = "\" target=\"_blank\">";

/// Fixed text 2 of the CI link.
pub const CI_URL_2: &'static str = "</a></span>\n            </div>";

/// The text of the CI link, with its values filled in.
pub open spec fn ci_url_text(url: Seq<char>, url_text: Seq<char>) -> Seq<char> {
    CI_URL_0@ + url + CI_URL_1@ + url_text + CI_URL_2@
}

pub fn fill_ci_url(url: &str, url_text: &str) -> (r: String)
    ensures
        r@ == ci_url_text(url@, url_text@),
{
    let mut s = String::from_str(CI_URL_0);
    s.append(url);
    s.append(CI_URL_1);
    s.append(url_text);
    s.append(CI_URL_2);
    s
}

/// Fixed text 0 of a signal badge.
pub const SIGNAL_0: &'static str = "<span class=\"signal-badge\">";

/// Fixed text 1 of a signal badge.
pub const SIGNAL_1: &'static str = "</span>";

/// The text of a signal badge, with its values filled in.
pub open spec fn signal_text(signal: Seq<char>) -> Seq<char> {
    SIGNAL_0@ + signal + SIGNAL_1@
}

pub fn fill_signal(signal: &str) -> (r: String)
    ensures
        r@ == signal_text(signal@),
{
    let mut s = String::from_str(SIGNAL_0);
    s.append(signal);
    s.append(SIGNAL_1);
    s
}

/// Fixed text 0 of the signal badges of a step.
pub const SIGNALS_0: &'static str = "<div class=\"team-signals\">";

/// Fixed text 1 of the signal badges of a step.
pub const SIGNALS_1: &'static str = "</div>";

/// The text of the signal badges of a step, with its values filled in.
pub open spec fn signals_text(badges: Seq<char>) -> Seq<char> {
    SIGNALS_0@ + badges + SIGNALS_1@
}

pub fn fill_signals(badges: &str) -> (r: String)
    ensures
        r@ == signals_text(badges@),
{
    let mut s = String::from_str(SIGNALS_0);
    s.append(badges);
    s.append(SIGNALS_1);
    s
}

/// Fixed text 0 of a team step.
pub const STEP_0: &'static str = "<div class=\"team-step\">\n                        <div class=\"team-step-header\">\n                            <span class=\"team-step-icon\">";

/// Fixed text 1 of a team step.
pub const STEP_1: &'static str = "</span>\n                            <span class=\"team-step-role\">";

/// Fixed text 2 of a team step.
pub const STEP_2: &'static str = "</span>\n                            <span class=\"team-step-idx\">步骤 ";

/// Fixed text 3 of a team step.
pub const STEP_3: &'static str = "</span>\n                        </div>\n                        <div class=\"team-step-instruction\">指令: ";

/// Fixed text 4 of a team step.
pub const STEP_4: &'static str = "</div>\n                        <div class=\"team-step-output\">";

/// Fixed text 5 of a team step.
pub const STEP_5: &'static str = "</div>\n                        ";

/// Fixed text 6 of a team step.
pub const STEP_6: &'static str = "\n                    </div>";

/// The text of a team step, with its values filled in.
pub open spec fn step_text(role_icon: Seq<char>, role: Seq<char>, index: Seq<char>, instruction: Seq<char>, output: Seq<char>, signals: Seq<char>) -> Seq<char> {
    STEP_0@ + role_icon + STEP_1@ + role + STEP_2@ + index + STEP_3@ + instruction + STEP_4@ + output + STEP_5@ + signals + STEP_6@
}

pub fn fill_step(role_icon: &str, role: &str, index: &str, instruction: &str, output: &str, signals: &str) -> (r: String)
    ensures
        r@ == step_text(role_icon@, role@, index@, instruction@, output@, signals@),
{
    let mut s = String::from_str(STEP_0);
    s.append(role_icon);
    s.append(STEP_1);
    s.append(role);
    s.append(STEP_2);
    s.append(index);
    s.append(STEP_3);
    s.append(instruction);
    s.append(STEP_4);
    s.append(output);
    s.append(STEP_5);
    s.append(signals);
    s.append(STEP_6);
    s
}

/// Fixed text 0 of the team section.
pub const TEAM_0: &'static str = "\n<!-- Team Collaboration -->\n<div class=\"section\">\n    <h2>Team 协作流程 <span style=\"font-size:0.8rem;color:var(--color-text-secondary);font-weight:normal;\">(";

/// Fixed text 1 of the team section.
pub const TEAM_1: &'static str = " 个步骤)</span></h2>\n    <div class=\"team-timeline\">\n        ";

/// Fixed text 2 of the team section.
pub const TEAM_2: &'static str = "\n    </div>\n</div>\n";

/// The text of the team section, with its values filled in.
pub open spec fn team_text(count: Seq<char>, steps: Seq<char>) -> Seq<char> {
    TEAM_0@ + count + TEAM_1@ + steps + TEAM_2@
}

pub fn fill_team(count: &str, steps: &str) -> (r: String)
    ensures
        r@ == team_text(count@, steps@),
{
    let mut s = String::from_str(TEAM_0);
    s.append(count);
    s.append(TEAM_1);
    s.append(steps);
    s.append(TEAM_2);
    s
}

/// Fixed text 0 of the page.
pub const PAGE_0: &'static str = "<!DOCTYPE html>\n<html lang=\"zh\">\n<head>\n<meta charset=\"UTF-8\">\n<meta name=\"viewport\" content=\"width=device-width, initial-scale=1.0\">\n<title>devnpc 运维报告</title>\n<style>\n    :root {\n        --color-bg: #0d1117;\n        --color-surface: #161b22;\n        --color-border: #30363d;\n        --color-text: #c9d1d9;\n        --color-text-secondary: #8b949e;\n        --color-success: #3fb950;\n        --color-error: #f85149;\n        --color-warning: #d29922;\n        --color-accent: #58a6ff;\n        --font-mono: 'SF Mono', 'Cascadia Code', 'Fira Code', monospace;\n        --font-sans: -apple-system, BlinkMacSystemFont, 'Segoe UI', Helvetica, Arial, sans-serif;\n    }\n    * { margin: 0; padding: 0; box-sizing: border-box; }\n    body {\n        background: var(--color-bg);\n        color: var(--color-text);\n        font-family: var(--font-sans);\n        line-height: 1.6;\n        padding: 2rem;\n        max-width: 960px;\n        margin: 0 auto;\n    }\n    h1 { font-size: 1.6rem; margin-bottom: 1.5rem; color: var(--color-accent); }\n    h2 { font-size: 1.2rem; margin: 1.5rem 0 0.8rem; padding-bottom: 0.4rem; border-bottom: 1px solid var(--color-border); }\n    .section { background: var(--color-surface); border: 1px solid var(--color-border); border-radius: 8px; padding: 1.2rem; margin-bottom: 1.2rem; }\n    .status-badge {\n        display: inline-flex; align-items: center; gap: 0.4rem;\n        padding: 0.3rem 0.8rem; border-radius: 20px;\n        font-weight: 600; font-size: 0.9rem;\n        background: ";

/// Fixed text 1 of the page.
pub const PAGE_1: &'static str = "; color: #0d1117;\n    }\n    .overview-grid {\n        display: grid; grid-template-columns: repeat(auto-fill, minmax(180px, 1fr));\n        gap: 1rem; margin-top: 1rem;\n    }\n    .overview-item {\n        background: rgba(255,255,255,0.03); padding: 0.6rem 0.8rem;\n        border-radius: 6px; border: 1px solid var(--color-border);\n    }\n    .overview-label { font-size: 0.75rem; color: var(--color-text-secondary); text-transform: uppercase; letter-spacing: 0.5px; }\n    .overview-value { font-size: 1.1rem; font-weight: 600; margin-top: 0.2rem; }\n    table { width: 100%; border-collapse: collapse; }\n    th, td { text-align: left; padding: 0.5rem 0.6rem; border-bottom: 1px solid var(--color-border); font-size: 0.9rem; }\n    th { color: var(--color-text-secondary); font-weight: 500; font-size: 0.8rem; text-transform: uppercase; }\n    .event-llm { background: rgba(88,166,255,0.05); }\n    .event-tool-ok { background: rgba(63,185,80,0.05); }\n    .event-tool-err { background: rgba(248,81,73,0.08); }\n    .event-deviation { background: rgba(210,153,34,0.08); }\n    .event-idx { color: var(--color-text-secondary); width: 2.5rem; text-align: right; font-family: var(--font-mono); font-size: 0.8rem; }\n    .event-icon { width: 2rem; text-align: center; font-size: 1rem; }\n    .event-detail { font-family: var(--font-mono); font-size: 0.85rem; }\n    .cost-grid { display: grid; grid-template-columns: repeat(auto-fill, minmax(150px, 1fr)); gap: 0.8rem; }\n    .cost-item { background: rgba(255,255,255,0.03); padding: 0.5rem 0.8rem; border-radius: 6px; }\n    .cost-label { font-size: 0.75rem; color: var(--color-text-secondary); }\n    .cost-value { font-size: 1rem; font-weight: 600; }\n    .task-block {\n        background: rgba(255,255,255,0.03); padding: 0.8rem; border-radius: 6px;\n        font-family: var(--font-mono); font-size: 0.85rem; white-space: pre-wrap;\n        border-left: 3px solid var(--color-accent);\n    }\n    .output-item {\n        display: flex; align-items: center; gap: 0.8rem; padding: 0.4rem 0;\n    }\n    .output-label { color: var(--color-text-secondary); font-size: 0.85rem; min-width: 100px; }\n    .output-value { font-family: var(--font-mono); font-size: 0.9rem; }\n    a { color: var(--color-accent); text-decoration: none; }\n    a:hover { text-decoration: underline; }\n    .footer { margin-top: 2rem; text-align: center; color: var(--color-text-secondary); font-size: 0.8rem; }\n    .team-timeline { display: flex; flex-direction: column; gap: 0.8rem; }\n    .team-step {\n        background: rgba(255,255,255,0.03); border: 1px solid var(--color-border);\n        border-radius: 6px; padding: 0.8rem; border-left: 3px solid var(--color-accent);\n    }\n    .team-step-header { display: flex; align-items: center; gap: 0.5rem; margin-bottom: 0.4rem; }\n    .team-step-icon { font-size: 1.1rem; }\n    .team-step-role { font-weight: 600; color: var(--color-accent); text-transform: uppercase; font-size: 0.85rem; }\n    .team-step-idx { color: var(--color-text-secondary); font-size: 0.75rem; margin-left: auto; }\n    .team-step-instruction { font-size: 0.8rem; color: var(--color-text-secondary); margin-bottom: 0.4rem; font-family: var(--font-mono); }\n    .team-step-output { font-family: var(--font-mono); font-size: 0.85rem; white-space: pre-wrap; }\n    .team-signals { margin-top: 0.4rem; display: flex; gap: 0.4rem; flex-wrap: wrap; }\n    .signal-badge {\n        background: rgba(63,185,80,0.15); color: var(--color-success);\n        padding: 0.15rem 0.5rem; border-radius: 10px; font-size: 0.75rem; font-weight: 500;\n    }\n</style>\n</head>\n<body>\n\n<h1>devnpc 运维报告</h1>\n\n<!-- Overview -->\n<div class=\"section\">\n    <h2>概览</h2>\n    <div style=\"display:flex;align-items:center;gap:1rem;margin-bottom:0.5rem;\">\n        <span class=\"status-badge\">";

/// Fixed text 2 of the page.
pub const PAGE_2: &'static str = " ";

/// Fixed text 3 of the page.
pub const PAGE_3: &'static str = "</span>\n        <span style=\"color:var(--color-text-secondary);font-size:0.9rem;\">";

/// Fixed text 4 of the page.
pub const PAGE_4: &'static str = "</span>\n    </div>\n    <div class=\"overview-grid\">\n        <div class=\"overview-item\">\n            <div class=\"overview-label\">Token 总量</div>\n            <div class=\"overview-value\">";

/// Fixed text 5 of the page.
pub const PAGE_5: &'static str = "</div>\n        </div>\n        <div class=\"overview-item\">\n            <div class=\"overview-label\">LLM 调用</div>\n            <div class=\"overview-value\">";

/// Fixed text 6 of the page.
pub const PAGE_6: &'static str = "</div>\n        </div>\n        <div class=\"overview-item\">\n            <div class=\"overview-label\">工具调用</div>\n            <div class=\"overview-value\">";

/// Fixed text 7 of the page.
pub const PAGE_7: &'static str = "</div>\n        </div>\n        <div class=\"overview-item\">\n            <div class=\"overview-label\">CI 重试</div>\n            <div class=\"overview-value\">";

/// Fixed text 8 of the page.
pub const PAGE_8: &'static str = "</div>\n        </div>\n        <div class=\"overview-item\">\n            <div class=\"overview-label\">开始时间</div>\n            <div class=\"overview-value\" style=\"font-size:0.85rem;font-family:var(--font-mono);\">";

/// Fixed text 9 of the page.
pub const PAGE_9: &'static str = "</div>\n        </div>\n        <div class=\"overview-item\">\n            <div class=\"overview-label\">结束时间</div>\n            <div class=\"overview-value\" style=\"font-size:0.85rem;font-family:var(--font-mono);\">";

/// Fixed text 10 of the page.
pub const PAGE_10: &'static str = "</div>\n        </div>\n    </div>\n</div>\n\n<!-- Task -->\n<div class=\"section\">\n    <h2>任务</h2>\n    <div class=\"task-block\">";

/// Fixed text 11 of the page.
pub const PAGE_11: &'static str = "</div>\n</div>\n";

/// Fixed text 12 of the page.
pub const PAGE_12: &'static str = "\n<!-- Trajectory Timeline -->\n<div class=\"section\">\n    <h2>执行轨迹 <span style=\"font-size:0.8rem;color:var(--color-text-secondary);font-weight:normal;\">(";

/// Fixed text 13 of the page.
pub const PAGE_13: &'static str = " 个事件)</span></h2>\n    <table>\n        <thead>\n            <tr>\n                <th style=\"width:2.5rem;text-align:right;\">#</th>\n                <th style=\"width:2rem;\"></th>\n                <th>事件</th>\n            </tr>\n        </thead>\n        <tbody>\n            ";

/// Fixed text 14 of the page.
pub const PAGE_14: &'static str = "\n        </tbody>\n    </table>\n</div>\n\n<!-- Cost -->\n<div class=\"section\">\n    <h2>成本估算</h2>\n    <div class=\"cost-grid\">\n        <div class=\"cost-item\">\n            <div class=\"cost-label\">输入 Token</div>\n            <div class=\"cost-value\">";

/// Fixed text 15 of the page.
pub const PAGE_15: &'static str = "</div>\n        </div>\n        <div class=\"cost-item\">\n            <div class=\"cost-label\">输出 Token</div>\n            <div class=\"cost-value\">";

/// Fixed text 16 of the page.
pub const PAGE_16: &'static str = "</div>\n        </div>\n        <div class=\"cost-item\">\n            <div class=\"cost-label\">估算费用 (USD)</div>\n            <div class=\"cost-value\" style=\"color:var(--color-warning);\">$";

/// Fixed text 17 of the page.
pub const PAGE_17: &'static str = "</div>\n        </div>\n    </div>\n</div>\n\n<!-- Output -->\n<div class=\"section\">\n    <h2>产出</h2>\n    ";

/// Fixed text 18 of the page.
pub const PAGE_18: &'static str = "\n    ";

/// Fixed text 19 of the page.
pub const PAGE_19: &'static str = "\n    ";

/// Fixed text 20 of the page.
pub const PAGE_20: &'static str = "\n    ";

/// Fixed text 21 of the page.
pub const PAGE_21: &'static str = "\n    <div class=\"output-item\" style=\"margin-top:0.6rem;\">\n        <span class=\"output-label\">摘要</span>\n        <span class=\"output-value\">";

/// Fixed text 22 of the page.
pub const PAGE_22: &'static str = "</span>\n    </div>\n</div>\n\n<div class=\"footer\">\n    Generated by devnpc &middot; ";

/// Fixed text 23 of the page.
pub const PAGE_23: &'static str = "\n</div>\n\n</body>\n</html>";

/// The text of the page, with its values filled in.
pub open spec fn page_text(status_color: Seq<char>, status_icon: Seq<char>, status: Seq<char>, duration: Seq<char>, token_total: Seq<char>, llm_calls: Seq<char>, tool_calls: Seq<char>, ci_retries: Seq<char>, started_at: Seq<char>, finished_at: Seq<char>, task_description: Seq<char>, team_section: Seq<char>, trajectory_len: Seq<char>, trajectory_rows: Seq<char>, input_tokens: Seq<char>, output_tokens: Seq<char>, cost_usd: Seq<char>, mr_section: Seq<char>, pipeline_section: Seq<char>, mr_url_section: Seq<char>, ci_url_section: Seq<char>, summary: Seq<char>, footer_time: Seq<char>) -> Seq<char> {
    PAGE_0@ + status_color + PAGE_1@ + status_icon + PAGE_2@ + status + PAGE_3@ + duration + PAGE_4@ + token_total + PAGE_5@ + llm_calls + PAGE_6@ + tool_calls + PAGE_7@ + ci_retries + PAGE_8@ + started_at + PAGE_9@ + finished_at + PAGE_10@ + task_description + PAGE_11@ + team_section + PAGE_12@ + trajectory_len + PAGE_13@ + trajectory_rows + PAGE_14@ + input_tokens + PAGE_15@ + output_tokens + PAGE_16@ + cost_usd + PAGE_17@ + mr_section + PAGE_18@ + pipeline_section + PAGE_19@ + mr_url_section + PAGE_20@ + ci_url_section + PAGE_21@ + summary + PAGE_22@ + footer_time + PAGE_23@
}

pub fn fill_page(status_color: &str, status_icon: &str, status: &str, duration: &str, token_total: &str, llm_calls: &str, tool_calls: &str, ci_retries: &str, started_at: &str, finished_at: &str, task_description: &str, team_section: &str, trajectory_len: &str, trajectory_rows: &str, input_tokens: &str, output_tokens: &str, cost_usd: &str, mr_section: &str, pipeline_section: &str, mr_url_section: &str, ci_url_section: &str, summary: &str, footer_time: &str) -> (r: String)
    ensures
        r@ == page_text(status_color@, status_icon@, status@, duration@, token_total@, llm_calls@, tool_calls@, ci_retries@, started_at@, finished_at@, task_description@, team_section@, trajectory_len@, trajectory_rows@, input_tokens@, output_tokens@, cost_usd@, mr_section@, pipeline_section@, mr_url_section@, ci_url_section@, summary@, footer_time@),
{
    let mut s = String::from_str(PAGE_0);
    s.append(status_color);
    s.append(PAGE_1);
    s.append(status_icon);
    s.append(PAGE_2);
    s.append(status);
    s.append(PAGE_3);
    s.append(duration);
    s.append(PAGE_4);
    s.append(token_total);
    s.append(PAGE_5);
    s.append(llm_calls);
    s.append(PAGE_6);
    s.append(tool_calls);
    s.append(PAGE_7);
    s.append(ci_retries);
    s.append(PAGE_8);
    s.append(started_at);
    s.append(PAGE_9);
    s.append(finished_at);
    s.append(PAGE_10);
    s.append(task_description);
    s.append(PAGE_11);
    s.append(team_section);
    s.append(PAGE_12);
    s.append(trajectory_len);
    s.append(PAGE_13);
    s.append(trajectory_rows);
    s.append(PAGE_14);
    s.append(input_tokens);
    s.append(PAGE_15);
    s.append(output_tokens);
    s.append(PAGE_16);
    s.append(cost_usd);
    s.append(PAGE_17);
    s.append(mr_section);
    s.append(PAGE_18);
    s.append(pipeline_section);
    s.append(PAGE_19);
    s.append(mr_url_section);
    s.append(PAGE_20);
    s.append(ci_url_section);
    s.append(PAGE_21);
    s.append(summary);
    s.append(PAGE_22);
    s.append(footer_time);
    s.append(PAGE_23);
    s
}

} // verus!
