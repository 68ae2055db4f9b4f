//! Tasks, and what becomes of one in the sandbox.
//!
//! The sandbox itself is run by whoever drives this machine: it loads the
//! component, starts it, watches the clock, and tells the machine what
//! happened. The machine says which state the task is in, and hands out the
//! task's outcome at the one step that ends it.

use vstd::prelude::*;
use vstd::string::StringExecFns;

verus! {

/// A unit of sandboxed work.
#[derive(Clone, Debug, PartialEq, Eq)]
pub struct Task {
    /// The control plane's name for the task; a task that the agent was
    /// given by hand has none.
    pub id: Option<String>,
    /// The component's binary.
    pub wasm_component: Vec<u8>,
    /// The arguments that the component is started with.
    pub wasm_component_args: Vec<String>,
    /// When the task expires, in milliseconds since the Unix epoch (UTC).
    pub end_time: i64,
}

/// How the run of a task ended.
#[derive(Clone, Debug, PartialEq, Eq)]
pub enum ExecutionOutcome {
    /// The entry point returned before the deadline, with this status.
    NormalExit(i32),
    /// The guest raised a fault that it cannot recover from.
    Trap(String),
    /// The deadline passed before the entry point returned.
    TimedOut,
    /// The component could not be loaded; no guest code ran.
    InstantiationError(String),
}

/// Where the run of a task stands.
#[derive(Clone, Copy, Debug, PartialEq, Eq, Structural)]
pub enum SandboxState {
    Loading,
    Instantiated,
    Running,
    Completed,
    Trapped,
    TimedOut,
    LoadFailed,
}

/// What the sandbox tells of the run of a task.
#[derive(Clone, Debug, PartialEq, Eq)]
pub enum SandboxEvent {
    /// The component was parsed, found valid, and linked to the host's
    /// capabilities.
    Linked,
    /// The component is malformed, or asks for a capability that the host
    /// does not offer.
    LoadFailed(String),
    /// The entry point was called with the task's arguments, and the
    /// deadline's timer set.
    Started,
    /// The entry point returned, with this status.
    Returned(i32),
    /// The guest raised a fault that it cannot recover from.
    Trapped(String),
    /// The deadline passed.
    DeadlineElapsed,
}

impl SandboxState {
    /// Whether the run is over. Nothing leaves such a state.
    pub open spec fn spec_is_terminal(self) -> bool {
        self == SandboxState::Completed || self == SandboxState::Trapped || self
            == SandboxState::TimedOut || self == SandboxState::LoadFailed
    }

    /// Whether the run is over.
    #[verifier::when_used_as_spec(spec_is_terminal)]
    pub fn is_terminal(self) -> (r: bool)
        ensures
            r == self.spec_is_terminal(),
    {
        match self {
            SandboxState::Completed
            | SandboxState::Trapped
            | SandboxState::TimedOut
            | SandboxState::LoadFailed => true,
            _ => false,
        }
    }
}

/// The state after `event`, and the outcome that the step hands out. An
/// event that has no place in the state changes nothing.
pub open spec fn spec_step(state: SandboxState, event: SandboxEvent) -> (
    SandboxState,
    Option<ExecutionOutcome>,
) {
    match (state, event) {
        (SandboxState::Loading, SandboxEvent::Linked) => (SandboxState::Instantiated, None),
        (SandboxState::Loading, SandboxEvent::LoadFailed(why)) => (
            SandboxState::LoadFailed,
            Some(ExecutionOutcome::InstantiationError(why)),
        ),
        (SandboxState::Instantiated, SandboxEvent::Started) => (SandboxState::Running, None),
        (SandboxState::Running, SandboxEvent::Returned(status)) => (
            SandboxState::Completed,
            Some(ExecutionOutcome::NormalExit(status)),
        ),
        (SandboxState::Running, SandboxEvent::Trapped(why)) => (
            SandboxState::Trapped,
            Some(ExecutionOutcome::Trap(why)),
        ),
        (SandboxState::Running, SandboxEvent::DeadlineElapsed) => (
            SandboxState::TimedOut,
            Some(ExecutionOutcome::TimedOut),
        ),
        _ => (state, None),
    }
}

/// Takes one event of the sandbox: gives the state that follows, and the
/// task's outcome where the event ends the run.
pub fn step(state: SandboxState, event: SandboxEvent) -> (r: (
    SandboxState,
    Option<ExecutionOutcome>,
))
    ensures
        r == spec_step(state, event),
{
    match (state, event) {
        (SandboxState::Loading, SandboxEvent::Linked) => (SandboxState::Instantiated, None),
        (SandboxState::Loading, SandboxEvent::LoadFailed(why)) => (
            SandboxState::LoadFailed,
            Some(ExecutionOutcome::InstantiationError(why)),
        ),
        (SandboxState::Instantiated, SandboxEvent::Started) => (SandboxState::Running, None),
        (SandboxState::Running, SandboxEvent::Returned(status)) => (
            SandboxState::Completed,
            Some(ExecutionOutcome::NormalExit(status)),
        ),
        (SandboxState::Running, SandboxEvent::Trapped(why)) => (
            SandboxState::Trapped,
            Some(ExecutionOutcome::Trap(why)),
        ),
        (SandboxState::Running, SandboxEvent::DeadlineElapsed) => (
            SandboxState::TimedOut,
            Some(ExecutionOutcome::TimedOut),
        ),
        (state, _) => (state, None),
    }
}

/// The state that ends a run with `outcome`.
pub open spec fn state_of(outcome: ExecutionOutcome) -> SandboxState {
    match outcome {
        ExecutionOutcome::NormalExit(_) => SandboxState::Completed,
        ExecutionOutcome::Trap(_) => SandboxState::Trapped,
        ExecutionOutcome::TimedOut => SandboxState::TimedOut,
        ExecutionOutcome::InstantiationError(_) => SandboxState::LoadFailed,
    }
}

/// The state after the events, taken in order from `state`.
pub open spec fn spec_run(state: SandboxState, events: Seq<SandboxEvent>) -> SandboxState
    decreases events.len(),
{
    if events.len() == 0 {
        state
    } else {
        spec_run(spec_step(state, events[0]).0, events.drop_first())
    }
}

/// The outcomes that the steps hand out, in order, as the events are taken
/// from `state`.
pub open spec fn spec_outcomes(state: SandboxState, events: Seq<SandboxEvent>) -> Seq<
    ExecutionOutcome,
>
    decreases events.len(),
{
    if events.len() == 0 {
        Seq::empty()
    } else {
        let (next, outcome) = spec_step(state, events[0]);
        let later = spec_outcomes(next, events.drop_first());
        match outcome {
            Some(o) => seq![o] + later,
            None => later,
        }
    }
}

/// Whether the guest's code runs at some point as the events are taken from
/// `state`.
pub open spec fn spec_guest_runs(state: SandboxState, events: Seq<SandboxEvent>) -> bool
    decreases events.len(),
{
    state == SandboxState::Running || (events.len() > 0 && spec_guest_runs(
        spec_step(state, events[0]).0,
        events.drop_first(),
    ))
}

/// A step hands out an outcome exactly when it ends the run, and the outcome
/// is of the kind of the state that the run ends in.
pub proof fn lemma_outcome_ends_run(state: SandboxState, event: SandboxEvent)
    ensures
        spec_step(state, event).1 is Some <==> !state.is_terminal() && spec_step(
            state,
            event,
        ).0.is_terminal(),
        spec_step(state, event).1 matches Some(outcome) ==> state_of(outcome) == spec_step(
            state,
            event,
        ).0,
{
}

/// Nothing leaves a state in which the run is over, and no second outcome
/// comes from it.
pub proof fn lemma_terminal_absorbs(state: SandboxState, events: Seq<SandboxEvent>)
    requires
        state.is_terminal(),
    ensures
        spec_run(state, events) == state,
        spec_outcomes(state, events).len() == 0,
    decreases events.len(),
{
    if events.len() > 0 {
        lemma_terminal_absorbs(state, events.drop_first());
    }
}

/// Whatever the sandbox tells, a run hands out one outcome if it is over
/// and none if it is not; no run has two.
pub proof fn lemma_exactly_one_outcome(state: SandboxState, events: Seq<SandboxEvent>)
    requires
        !state.is_terminal(),
    ensures
        spec_outcomes(state, events).len() == if spec_run(state, events).is_terminal() {
            1nat
        } else {
            0nat
        },
        spec_run(state, events).is_terminal() ==> state_of(spec_outcomes(state, events)[0])
            == spec_run(state, events),
    decreases events.len(),
{
    if events.len() > 0 {
        let (next, outcome) = spec_step(state, events[0]);
        let rest = events.drop_first();
        lemma_outcome_ends_run(state, events[0]);
        if next.is_terminal() {
            lemma_terminal_absorbs(next, rest);
        } else {
            lemma_exactly_one_outcome(next, rest);
        }
    }
}

/// A task whose component cannot be loaded ends without its code ever
/// having run.
pub proof fn lemma_load_failure_runs_no_guest(events: Seq<SandboxEvent>)
    requires
        spec_run(SandboxState::Loading, events) == SandboxState::LoadFailed,
    ensures
        !spec_guest_runs(SandboxState::Loading, events),
{
    lemma_leaves_loading(SandboxState::Loading, events);
}

/// From `Loading`, the run reaches `LoadFailed` only by steps that stay in
/// `Loading` until the one that fails.
proof fn lemma_leaves_loading(state: SandboxState, events: Seq<SandboxEvent>)
    requires
        state == SandboxState::Loading || state == SandboxState::LoadFailed,
        spec_run(state, events) == SandboxState::LoadFailed,
    ensures
        !spec_guest_runs(state, events),
    decreases events.len(),
{
    if events.len() > 0 {
        let next = spec_step(state, events[0]).0;
        let rest = events.drop_first();
        if next == SandboxState::Loading || next == SandboxState::LoadFailed {
            lemma_leaves_loading(next, rest);
        } else {
            lemma_never_load_failed(next, rest);
        }
    }
}

/// Once the component is loaded, the run never ends in `LoadFailed`.
proof fn lemma_never_load_failed(state: SandboxState, events: Seq<SandboxEvent>)
    requires
        state != SandboxState::Loading,
        state != SandboxState::LoadFailed,
    ensures
        spec_run(state, events) != SandboxState::LoadFailed,
        spec_run(state, events) != SandboxState::Loading,
    decreases events.len(),
{
    if events.len() > 0 {
        lemma_never_load_failed(spec_step(state, events[0]).0, events.drop_first());
    }
}

// ---------------------------------------------------------------------------
// The deadline
// ---------------------------------------------------------------------------

/// How many milliseconds a task that expires at `end_time` has left at
/// `now`; none once the deadline has come.
pub open spec fn spec_remaining_millis(end_time: i64, now: i64) -> u64 {
    if end_time > now {
        (end_time - now) as u64
    } else {
        0
    }
}

/// How many milliseconds a task that expires at `end_time` has left at
/// `now`; none once the deadline has come.
pub fn remaining_millis(end_time: i64, now: i64) -> (r: u64)
    ensures
        r == spec_remaining_millis(end_time, now),
{
    if end_time > now {
        let span: i128 = end_time as i128 - now as i128;
        span as u64
    } else {
        0
    }
}

impl Task {
    /// Whether the task's deadline has come at `now`, a count of
    /// milliseconds since the Unix epoch.
    pub open spec fn spec_is_expired(&self, now: i64) -> bool {
        now >= self.end_time
    }

    /// Whether the task's deadline has come at `now`, a count of
    /// milliseconds since the Unix epoch.
    #[verifier::when_used_as_spec(spec_is_expired)]
    pub fn is_expired(&self, now: i64) -> (r: bool)
        ensures
            r == self.spec_is_expired(now),
            r == (spec_remaining_millis(self.end_time, now) == 0),
    {
        now >= self.end_time
    }
}

// ---------------------------------------------------------------------------
// The report
// ---------------------------------------------------------------------------

/// What is told upstream of a task that has ended.
#[derive(Clone, Debug, PartialEq, Eq)]
pub enum TaskResult {
    /// The task ran to its end, with this status.
    Completed(i32),
    /// The task failed, for this cause.
    Failed(String),
}

/// The cause of a failure in words. An outcome that is no failure has none.
pub open spec fn spec_cause(outcome: ExecutionOutcome) -> Seq<char> {
    match outcome {
        ExecutionOutcome::NormalExit(_) => Seq::empty(),
        ExecutionOutcome::Trap(why) => "trap: "@ + why@,
        ExecutionOutcome::TimedOut => "timed out"@,
        ExecutionOutcome::InstantiationError(why) => "load failed: "@ + why@,
    }
}

/// Whether `result` is what is told upstream of a task that ended with
/// `outcome`: a normal exit is a completion with the guest's status, and
/// everything else a failure with its cause.
pub open spec fn reports(result: TaskResult, outcome: ExecutionOutcome) -> bool {
    match outcome {
        ExecutionOutcome::NormalExit(status) => result == TaskResult::Completed(status),
        _ => result matches TaskResult::Failed(cause) && cause@ == spec_cause(outcome),
    }
}

/// What is told upstream of a task that ended with `outcome`.
pub fn report_of(outcome: ExecutionOutcome) -> (r: TaskResult)
    ensures
        reports(r, outcome),
        r matches TaskResult::Failed(cause) ==> cause@.len() > 0,
{
    proof {
        if !(outcome is NormalExit) {
            lemma_cause_not_empty(outcome);
        }
    }
    match outcome {
        ExecutionOutcome::NormalExit(status) => TaskResult::Completed(status),
        ExecutionOutcome::Trap(why) => {
            let mut cause = "trap: ".to_owned();
            cause.append(why.as_str());
            TaskResult::Failed(cause)
        },
        ExecutionOutcome::TimedOut => TaskResult::Failed("timed out".to_owned()),
        ExecutionOutcome::InstantiationError(why) => {
            let mut cause = "load failed: ".to_owned();
            cause.append(why.as_str());
            TaskResult::Failed(cause)
        },
    }
}

/// A failure is never told without a cause.
pub proof fn lemma_cause_not_empty(outcome: ExecutionOutcome)
    requires
        !(outcome is NormalExit),
    ensures
        spec_cause(outcome).len() > 0,
{
    reveal_strlit("trap: ");
    reveal_strlit("timed out");
    reveal_strlit("load failed: ");
}

} // verus!
