//! The ReAct loop: trajectory recording and the decisions taken after each LLM reply.
//!
//! The loop itself (calling the LLM and the tools) runs in the program around
//! the library; each turn it hands the reply to [`react_step`] and performs the
//! action that comes back.

use vstd::prelude::*;

use crate::agent::sop::{current_step_index, not_in, DeviationReport, Sop};
use crate::config::SopMode;
use crate::text::{clone_strings, str_eq, str_views};

verus! {

/// One recorded event of an agent run.
#[derive(Debug, Clone)]
pub enum TrajectoryEvent {
    LlmCall { iteration: u32 },
    ToolCall { name: String, success: bool },
    Deviation { step: String, unexpected: Vec<String> },
}

/// The events of an agent run, in order.
#[derive(Debug, Clone)]
pub struct Trajectory {
    pub events: Vec<TrajectoryEvent>,
}

impl Trajectory {
    /// An empty trajectory.
    pub fn new() -> (t: Self)
        ensures
            t.events@.len() == 0,
    {
        Trajectory { events: Vec::new() }
    }

    /// Records an LLM call.
    pub fn record_llm_call(&mut self, iteration: u32)
        ensures
            final(self).events@ == old(self).events@.push(TrajectoryEvent::LlmCall { iteration }),
    {
        self.events.push(TrajectoryEvent::LlmCall { iteration });
    }

    /// Records a tool call.
    pub fn record_tool_call(&mut self, name: &str, success: bool)
        ensures
            final(self).events@.len() == old(self).events@.len() + 1,
            forall|i: int| 0 <= i < old(self).events@.len() ==> final(self).events@[i] == old(self).events@[i],
            final(self).events@.last() matches TrajectoryEvent::ToolCall { name: n, success: s }
                && n@ == name@ && s == success,
    {
        self.events.push(TrajectoryEvent::ToolCall { name: String::from_str(name), success });
    }

    /// Records an SOP deviation.
    pub fn record_deviation(&mut self, step: &str, unexpected: Vec<String>)
        ensures
            final(self).events@.len() == old(self).events@.len() + 1,
            forall|i: int| 0 <= i < old(self).events@.len() ==> final(self).events@[i] == old(self).events@[i],
            final(self).events@.last() matches TrajectoryEvent::Deviation { step: st, unexpected: u }
                && st@ == step@ && u == unexpected,
    {
        self.events.push(TrajectoryEvent::Deviation { step: String::from_str(step), unexpected });
    }
}

impl Default for Trajectory {
    fn default() -> (t: Self)
        ensures
            t.events@.len() == 0,
    {
        Trajectory::new()
    }
}

/// How an agent run ended.
#[derive(Debug, Clone)]
pub enum RunResult {
    /// The LLM finished the task.
    Finished { text: String, summary: String, trajectory: Trajectory },
    /// The iteration limit was reached.
    MaxIterationsReached(Trajectory),
    /// A strict SOP was left.
    SopViolation { step: String, unexpected_tools: Vec<String>, trajectory: Trajectory },
}

/// A tool of the given name was called somewhere in the events.
pub open spec fn tool_called(events: Seq<TrajectoryEvent>, name: Seq<char>) -> bool {
    exists|i: int|
        0 <= i < events.len() && (#[trigger] events[i] matches TrajectoryEvent::ToolCall { name: n, .. }
            && n@ == name)
}

/// Whether a tool of the given name was called.
pub fn was_tool_called(events: &Vec<TrajectoryEvent>, name: &String) -> (r: bool)
    ensures
        r == tool_called(events@, name@),
{
    let mut i: usize = 0;
    while i < events.len()
        invariant
            i <= events.len(),
            forall|k: int|
                0 <= k < i ==> !(#[trigger] events@[k] matches TrajectoryEvent::ToolCall { name: n, .. }
                    && n@ == name@),
        decreases events.len() - i,
    {
        match &events[i] {
            TrajectoryEvent::ToolCall { name: n, .. } => {
                if *n == *name {
                    return true;
                }
            },
            _ => {},
        }
        i = i + 1;
    }
    false
}

/// What the loop does after an LLM reply.
#[derive(Debug, Clone)]
pub enum TurnOutcome {
    /// No tool was requested: the reply's text finishes the task.
    Finished,
    /// A strict SOP was left: the run stops.
    Stopped { step: String, unexpected_tools: Vec<String> },
    /// Run the requested tools.
    RunTools,
}

/// The events after a turn's deviation check: unchanged, or one deviation
/// record added for the current step and the unexpected calls.
pub open spec fn deviation_recorded(
    before: Seq<TrajectoryEvent>,
    after: Seq<TrajectoryEvent>,
    step: Seq<char>,
    unexpected: Seq<Seq<char>>,
) -> bool {
    &&& after.len() == before.len() + 1
    &&& after.drop_last() == before
    &&& after.last() matches TrajectoryEvent::Deviation { step: st, unexpected: u } && st@ == step
        && str_views(u@) == unexpected
}

/// Decides what follows an LLM reply that requested the tools `tool_names`,
/// checking them against the SOP, if any, and recording a deviation.
pub fn check_turn(tool_names: &Vec<String>, sop: Option<&Sop>, mode: SopMode, trajectory: &mut Trajectory) -> (r:
    TurnOutcome)
    requires
        match sop {
            Some(s) => s.steps@.len() > 0,
            None => true,
        },
    ensures
        tool_names@.len() == 0 ==> r is Finished && final(trajectory).events@ == old(trajectory).events@,
        tool_names@.len() > 0 ==> match sop {
            None => r is RunTools && final(trajectory).events@ == old(trajectory).events@,
            Some(s) => {
                let cur = s.steps@[current_step_index(s.steps@, old(trajectory).events@)];
                let unexpected = not_in(str_views(tool_names@), str_views(cur.expected_tools@));
                if unexpected.len() == 0 {
                    r is RunTools && final(trajectory).events@ == old(trajectory).events@
                } else {
                    &&& deviation_recorded(
                        old(trajectory).events@,
                        final(trajectory).events@,
                        cur.name@,
                        unexpected,
                    )
                    &&& match mode {
                        SopMode::Soft => r is RunTools,
                        SopMode::Strict => r matches TurnOutcome::Stopped { step, unexpected_tools }
                            && step@ == cur.name@ && str_views(unexpected_tools@) == unexpected,
                    }
                }
            },
        },
{
    if tool_names.len() == 0 {
        return TurnOutcome::Finished;
    }
    match sop {
        None => TurnOutcome::RunTools,
        Some(s) => {
            let ghost before = trajectory.events@;
            match s.check_deviation(tool_names, trajectory, mode) {
                DeviationReport::Clean => TurnOutcome::RunTools,
                DeviationReport::Soft { step, unexpected_tools } => {
                    trajectory.record_deviation(step.as_str(), unexpected_tools);
                    assert(trajectory.events@.drop_last() =~= before);
                    TurnOutcome::RunTools
                },
                DeviationReport::Strict { step, unexpected_tools } => {
                    let copy = clone_strings(&unexpected_tools);
                    trajectory.record_deviation(step.as_str(), copy);
                    assert(trajectory.events@.drop_last() =~= before);
                    TurnOutcome::Stopped { step, unexpected_tools }
                },
            }
        },
    }
}

/// The result of one tool call of a turn.
#[derive(Debug, Clone)]
pub struct ToolOutcome {
    pub id: String,
    pub name: String,
    pub success: bool,
    /// The output fed back to the LLM.
    pub output: String,
    /// The `summary` argument of the call, when it has one.
    pub summary_arg: Option<String>,
}

/// The summary a turn's `finish` calls give: that of the last one, its
/// `summary` argument or else its output; none without a `finish` call.
pub open spec fn finish_summary(v: Seq<ToolOutcome>) -> Option<Seq<char>>
    decreases v.len(),
{
    if v.len() == 0 {
        None
    } else if v.last().name@ == "finish"@ {
        Some(
            match v.last().summary_arg {
                Some(s) => s@,
                None => v.last().output@,
            },
        )
    } else {
        finish_summary(v.drop_last())
    }
}

/// Records the tool calls of a turn, in order, and returns the summary of a
/// `finish` call if there was one (the run then ends).
pub fn record_tool_results(trajectory: &mut Trajectory, results: &Vec<ToolOutcome>) -> (finish: Option<String>)
    ensures
        final(trajectory).events@.len() == old(trajectory).events@.len() + results@.len(),
        final(trajectory).events@.take(old(trajectory).events@.len() as int) == old(trajectory).events@,
        forall|i: int|
            0 <= i < results@.len() ==> (#[trigger] final(trajectory).events@[old(trajectory).events@.len() + i]
                matches TrajectoryEvent::ToolCall { name: n, success: s } && n@ == results@[i].name@ && s
                == results@[i].success),
        finish.deep_view() == finish_summary(results@),
{
    let ghost start = trajectory.events@;
    let mut finish: Option<String> = None;
    let mut i: usize = 0;
    while i < results.len()
        invariant
            i <= results.len(),
            trajectory.events@.len() == start.len() + i,
            trajectory.events@.take(start.len() as int) == start,
            forall|k: int|
                0 <= k < i ==> (#[trigger] trajectory.events@[start.len() + k] matches TrajectoryEvent::ToolCall {
                    name: n,
                    success: s,
                } && n@ == results@[k].name@ && s == results@[k].success),
            finish.deep_view() == finish_summary(results@.take(i as int)),
        decreases results.len() - i,
    {
        let r = &results[i];
        let ghost before = trajectory.events@;
        trajectory.record_tool_call(r.name.as_str(), r.success);
        assert(trajectory.events@.take(start.len() as int) =~= before.take(start.len() as int));
        proof {
            let t = results@.take(i + 1);
            assert(t.drop_last() =~= results@.take(i as int));
            assert(t.last() == *r);
        }
        if str_eq(r.name.as_str(), "finish") {
            finish = match &r.summary_arg {
                Some(s) => Some(s.clone()),
                None => Some(r.output.clone()),
            };
        }
        i = i + 1;
    }
    assert(results@.take(results@.len() as int) =~= results@);
    finish
}

} // verus!
