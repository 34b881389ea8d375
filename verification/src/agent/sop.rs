//! SOP deviation detection.
//!
//! A step of an SOP lists the tools it expects. The current step is the first
//! one none of whose tools has been called yet; a tool call outside the current
//! step's tools is a deviation. In soft mode a deviation is only recorded, in
//! strict mode it stops the run.

use vstd::prelude::*;

use super::loop_::{tool_called, was_tool_called, Trajectory, TrajectoryEvent};
use crate::config::SopMode;
use crate::text::{string_in, str_views};

verus! {

/// An SOP: named steps in order.
#[derive(Debug, Clone)]
pub struct Sop {
    pub name: String,
    pub description: String,
    pub steps: Vec<SopStep>,
}

/// One step of an SOP.
#[derive(Debug, Clone)]
pub struct SopStep {
    pub name: String,
    pub expected_tools: Vec<String>,
    pub hint: String,
}

/// The outcome of a deviation check.
#[derive(Debug, Clone)]
pub enum DeviationReport {
    /// The calls stay within the current step.
    Clean,
    /// Soft mode: the calls leave the current step.
    Soft { step: String, unexpected_tools: Vec<String> },
    /// Strict mode: the calls leave the current step.
    Strict { step: String, unexpected_tools: Vec<String> },
}

/// Some tool that the step expects was called.
pub open spec fn step_touched(step: SopStep, events: Seq<TrajectoryEvent>) -> bool {
    exists|j: int|
        0 <= j < step.expected_tools@.len() && tool_called(events, #[trigger] step.expected_tools@[j]@)
}

/// Index of the first untouched step at or after `k`; the last step when all are touched.
pub open spec fn current_step_from(steps: Seq<SopStep>, events: Seq<TrajectoryEvent>, k: int) -> int
    decreases steps.len() - k,
{
    if k < 0 || k >= steps.len() {
        steps.len() - 1
    } else if !step_touched(steps[k], events) {
        k
    } else {
        current_step_from(steps, events, k + 1)
    }
}

/// Index of the current step of an SOP, given the events so far.
pub open spec fn current_step_index(steps: Seq<SopStep>, events: Seq<TrajectoryEvent>) -> int {
    current_step_from(steps, events, 0)
}

/// The tools of `calls` that `allowed` does not hold, in order.
pub open spec fn not_in(calls: Seq<Seq<char>>, allowed: Seq<Seq<char>>) -> Seq<Seq<char>>
    decreases calls.len(),
{
    if calls.len() == 0 {
        Seq::empty()
    } else {
        let rest = not_in(calls.drop_last(), allowed);
        if allowed.contains(calls.last()) {
            rest
        } else {
            rest.push(calls.last())
        }
    }
}

pub proof fn lemma_current_step_from_bounds(steps: Seq<SopStep>, events: Seq<TrajectoryEvent>, k: int)
    requires
        0 <= k,
        steps.len() > 0,
    ensures
        0 <= current_step_from(steps, events, k) < steps.len(),
    decreases steps.len() - k,
{
    if k < steps.len() && step_touched(steps[k], events) {
        lemma_current_step_from_bounds(steps, events, k + 1);
    }
}

proof fn lemma_current_step_from_lower(steps: Seq<SopStep>, events: Seq<TrajectoryEvent>, k: int)
    requires
        0 <= k < steps.len(),
    ensures
        k <= current_step_from(steps, events, k),
    decreases steps.len() - k,
{
    if step_touched(steps[k], events) {
        if k + 1 < steps.len() {
            lemma_current_step_from_lower(steps, events, k + 1);
        } else {
            assert(current_step_from(steps, events, k + 1) == steps.len() - 1);
        }
    }
}

proof fn lemma_touched_grows(step: SopStep, events: Seq<TrajectoryEvent>, more: Seq<TrajectoryEvent>)
    requires
        step_touched(step, events),
    ensures
        step_touched(step, events + more),
{
    let j = choose|j: int|
        0 <= j < step.expected_tools@.len() && tool_called(events, #[trigger] step.expected_tools@[j]@);
    let name = step.expected_tools@[j]@;
    let i = choose|i: int|
        0 <= i < events.len() && (#[trigger] events[i] matches TrajectoryEvent::ToolCall { name: n, .. } && n@ == name);
    assert((events + more)[i] == events[i]);
    assert(tool_called(events + more, name));
}

proof fn lemma_current_step_from_grows(
    steps: Seq<SopStep>,
    events: Seq<TrajectoryEvent>,
    more: Seq<TrajectoryEvent>,
    k: int,
)
    requires
        0 <= k,
    ensures
        current_step_from(steps, events, k) <= current_step_from(steps, events + more, k),
    decreases steps.len() - k,
{
    if k < steps.len() {
        if step_touched(steps[k], events) {
            lemma_touched_grows(steps[k], events, more);
            lemma_current_step_from_grows(steps, events, more, k + 1);
        } else if step_touched(steps[k], events + more) {
            if k + 1 < steps.len() {
                lemma_current_step_from_lower(steps, events + more, k + 1);
            } else {
                assert(current_step_from(steps, events + more, k + 1) == steps.len() - 1);
            }
        }
    }
}

/// The current step never moves back: later events can only take the run
/// to the same step or a later one.
pub proof fn law_current_step_advances(steps: Seq<SopStep>, events: Seq<TrajectoryEvent>, more: Seq<TrajectoryEvent>)
    ensures
        current_step_index(steps, events) <= current_step_index(steps, events + more),
{
    lemma_current_step_from_grows(steps, events, more, 0);
}

/// Whether some expected tool of the step has been called.
fn is_step_touched(step: &SopStep, events: &Vec<TrajectoryEvent>) -> (r: bool)
    ensures
        r == step_touched(*step, events@),
{
    let mut j: usize = 0;
    while j < step.expected_tools.len()
        invariant
            j <= step.expected_tools.len(),
            forall|q: int| 0 <= q < j ==> !tool_called(events@, #[trigger] step.expected_tools@[q]@),
        decreases step.expected_tools.len() - j,
    {
        if was_tool_called(events, &step.expected_tools[j]) {
            return true;
        }
        j = j + 1;
    }
    false
}

impl Sop {
    /// Index of the current step: the first step none of whose expected tools has
    /// been called, or the last step when every step has been touched.
    pub fn current_step(&self, trajectory: &Trajectory) -> (k: usize)
        requires
            self.steps@.len() > 0,
        ensures
            k as int == current_step_index(self.steps@, trajectory.events@),
            k < self.steps@.len(),
    {
        proof {
            lemma_current_step_from_bounds(self.steps@, trajectory.events@, 0);
        }
        let mut k: usize = 0;
        while k < self.steps.len()
            invariant
                k <= self.steps.len(),
                self.steps@.len() > 0,
                current_step_index(self.steps@, trajectory.events@) == current_step_from(
                    self.steps@,
                    trajectory.events@,
                    k as int,
                ),
            decreases self.steps.len() - k,
        {
            if !is_step_touched(&self.steps[k], &trajectory.events) {
                return k;
            }
            k = k + 1;
        }
        self.steps.len() - 1
    }

    /// The current step (see [`Sop::current_step`]).
    pub fn estimate_current_step(&self, trajectory: &Trajectory) -> (step: &SopStep)
        requires
            self.steps@.len() > 0,
        ensures
            *step == self.steps@[current_step_index(self.steps@, trajectory.events@)],
    {
        let k = self.current_step(trajectory);
        &self.steps[k]
    }

    /// Checks this turn's tool calls against the current step.
    ///
    /// No deviation when every call is one of the step's expected tools;
    /// otherwise the report names the step and the unexpected calls in order,
    /// as `Strict` in strict mode and `Soft` in soft mode.
    pub fn check_deviation(&self, tool_calls: &Vec<String>, trajectory: &Trajectory, mode: SopMode) -> (r:
        DeviationReport)
        requires
            self.steps@.len() > 0,
        ensures
            ({
                let cur = self.steps@[current_step_index(self.steps@, trajectory.events@)];
                let unexpected = not_in(str_views(tool_calls@), str_views(cur.expected_tools@));
                match r {
                    DeviationReport::Clean => unexpected.len() == 0,
                    DeviationReport::Soft { step, unexpected_tools } => {
                        &&& mode == SopMode::Soft
                        &&& unexpected.len() > 0
                        &&& step@ == cur.name@
                        &&& str_views(unexpected_tools@) == unexpected
                    },
                    DeviationReport::Strict { step, unexpected_tools } => {
                        &&& mode == SopMode::Strict
                        &&& unexpected.len() > 0
                        &&& step@ == cur.name@
                        &&& str_views(unexpected_tools@) == unexpected
                    },
                }
            }),
    {
        let current = self.estimate_current_step(trajectory);
        let mut unexpected: Vec<String> = Vec::new();
        let mut i: usize = 0;
        while i < tool_calls.len()
            invariant
                i <= tool_calls.len(),
                str_views(unexpected@) == not_in(
                    str_views(tool_calls@).take(i as int),
                    str_views(current.expected_tools@),
                ),
            decreases tool_calls.len() - i,
        {
            let ghost before = unexpected@;
            let ghost t = str_views(tool_calls@).take(i + 1);
            assert(t.drop_last() =~= str_views(tool_calls@).take(i as int));
            assert(t.last() == tool_calls@[i as int]@);
            if !string_in(&current.expected_tools, &tool_calls[i]) {
                unexpected.push(tool_calls[i].clone());
                assert(str_views(unexpected@) =~= str_views(before).push(tool_calls@[i as int]@));
            }
            i = i + 1;
        }
        assert(str_views(tool_calls@).take(tool_calls.len() as int) =~= str_views(tool_calls@));
        if unexpected.len() == 0 {
            return DeviationReport::Clean;
        }
        match mode {
            SopMode::Strict => DeviationReport::Strict {
                step: current.name.clone(),
                unexpected_tools: unexpected,
            },
            SopMode::Soft => DeviationReport::Soft { step: current.name.clone(), unexpected_tools: unexpected },
        }
    }
}

} // verus!
