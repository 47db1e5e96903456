//! The lifecycle state machine, as a total pure function.

use vstd::prelude::*;
use vstd::string::StringExecFns;

verus! {

/// Where a run is.
#[derive(Debug, Clone, Copy, PartialEq, Eq, Hash, Structural)]
pub enum LifecycleState {
    /// Described, with nothing created.
    Planning,
    /// A child is being forked and sandboxed.
    Preparing,
    /// The child is confined and held at the activation gate.
    Prepared,
    /// The activation gate was claimed and the release is on its way.
    Activating,
    /// The program was handed the child.
    Running,
    /// The program's end was observed.
    Exited,
    /// A stop was requested.
    Stopping,
    /// The death that a stop asked for was observed.
    Stopped,
    /// The run failed before the program took over.
    Failed,
    /// The run's processes were proven absent.
    CleanupVerified,
}

/// An observation or a request that moves the machine.
#[derive(Debug, Clone, Copy, PartialEq, Eq, Hash, Structural)]
pub enum LifecycleOp {
    /// Start preparing.
    BeginPrepare,
    /// The child is confined and at the activation gate.
    PrepareSucceeded,
    /// The child died before the activation gate.
    PrepareFailed,
    /// Claim the activation gate. Exactly one claim ever wins.
    BeginActivate,
    /// The status descriptor closed without a record.
    ExecObserved,
    /// The release failed, or the child reported a failure after it.
    ActivateFailed,
    /// The program's end was observed.
    ChildExited,
    /// A stop was requested.
    BeginStop,
    /// The death that a stop asked for was observed.
    StopObserved,
    /// The run's processes were proven absent.
    CleanupConfirmed,
}

/// An op was applied in a state where it is not legal.
#[derive(Debug, Clone, Copy, PartialEq, Eq, Hash, Structural)]
pub struct TransitionError {
    /// The state that refused.
    pub from: LifecycleState,
    /// The op that was refused.
    pub op: LifecycleOp,
}

/// A change of state that happened.
#[derive(Debug, Clone, Copy, PartialEq, Eq, Hash, Structural)]
pub struct Transition {
    /// State before.
    pub from: LifecycleState,
    /// State after.
    pub to: LifecycleState,
}

/// Where `op` leads from `state`, where it is legal.
pub open spec fn next_state(state: LifecycleState, op: LifecycleOp) -> Option<LifecycleState> {
    match (state, op) {
        (LifecycleState::Planning, LifecycleOp::BeginPrepare) => Some(LifecycleState::Preparing),
        (LifecycleState::Preparing, LifecycleOp::PrepareSucceeded) => Some(LifecycleState::Prepared),
        (LifecycleState::Preparing, LifecycleOp::PrepareFailed) => Some(LifecycleState::Failed),
        (LifecycleState::Prepared, LifecycleOp::BeginActivate) => Some(LifecycleState::Activating),
        (LifecycleState::Activating, LifecycleOp::ExecObserved) => Some(LifecycleState::Running),
        (LifecycleState::Activating, LifecycleOp::ActivateFailed) => Some(LifecycleState::Failed),
        (LifecycleState::Running, LifecycleOp::ChildExited) => Some(LifecycleState::Exited),
        (LifecycleState::Prepared, LifecycleOp::BeginStop) => Some(LifecycleState::Stopping),
        (LifecycleState::Running, LifecycleOp::BeginStop) => Some(LifecycleState::Stopping),
        (LifecycleState::Stopping, LifecycleOp::StopObserved) => Some(LifecycleState::Stopped),
        (LifecycleState::Exited, LifecycleOp::CleanupConfirmed) => Some(
            LifecycleState::CleanupVerified,
        ),
        (LifecycleState::Stopped, LifecycleOp::CleanupConfirmed) => Some(
            LifecycleState::CleanupVerified,
        ),
        (LifecycleState::Failed, LifecycleOp::CleanupConfirmed) => Some(
            LifecycleState::CleanupVerified,
        ),
        _ => None,
    }
}

impl LifecycleState {
    /// The name of a state.
    pub open spec fn name(self) -> Seq<char> {
        match self {
            LifecycleState::Planning => "planning"@,
            LifecycleState::Preparing => "preparing"@,
            LifecycleState::Prepared => "prepared"@,
            LifecycleState::Activating => "activating"@,
            LifecycleState::Running => "running"@,
            LifecycleState::Exited => "exited"@,
            LifecycleState::Stopping => "stopping"@,
            LifecycleState::Stopped => "stopped"@,
            LifecycleState::Failed => "failed"@,
            LifecycleState::CleanupVerified => "cleanup_verified"@,
        }
    }

    /// The stable snake_case name.
    #[must_use]
    pub fn as_str(self) -> (name: &'static str)
        ensures
            name@ == self.name(),
    {
        match self {
            LifecycleState::Planning => "planning",
            LifecycleState::Preparing => "preparing",
            LifecycleState::Prepared => "prepared",
            LifecycleState::Activating => "activating",
            LifecycleState::Running => "running",
            LifecycleState::Exited => "exited",
            LifecycleState::Stopping => "stopping",
            LifecycleState::Stopped => "stopped",
            LifecycleState::Failed => "failed",
            LifecycleState::CleanupVerified => "cleanup_verified",
        }
    }

    /// Apply `op`, or say which state refused it.
    pub fn apply(self, op: LifecycleOp) -> (moved: Result<LifecycleState, TransitionError>)
        ensures
            moved == (match next_state(self, op) {
                Some(to) => Ok::<LifecycleState, TransitionError>(to),
                None => Err::<LifecycleState, TransitionError>(TransitionError { from: self, op }),
            }),
    {
        match (self, op) {
            (LifecycleState::Planning, LifecycleOp::BeginPrepare) => Ok(LifecycleState::Preparing),
            (LifecycleState::Preparing, LifecycleOp::PrepareSucceeded) => Ok(
                LifecycleState::Prepared,
            ),
            (LifecycleState::Preparing, LifecycleOp::PrepareFailed) => Ok(LifecycleState::Failed),
            (LifecycleState::Prepared, LifecycleOp::BeginActivate) => Ok(
                LifecycleState::Activating,
            ),
            (LifecycleState::Activating, LifecycleOp::ExecObserved) => Ok(LifecycleState::Running),
            (LifecycleState::Activating, LifecycleOp::ActivateFailed) => Ok(LifecycleState::Failed),
            (LifecycleState::Running, LifecycleOp::ChildExited) => Ok(LifecycleState::Exited),
            (LifecycleState::Prepared, LifecycleOp::BeginStop) => Ok(LifecycleState::Stopping),
            (LifecycleState::Running, LifecycleOp::BeginStop) => Ok(LifecycleState::Stopping),
            (LifecycleState::Stopping, LifecycleOp::StopObserved) => Ok(LifecycleState::Stopped),
            (LifecycleState::Exited, LifecycleOp::CleanupConfirmed) => Ok(
                LifecycleState::CleanupVerified,
            ),
            (LifecycleState::Stopped, LifecycleOp::CleanupConfirmed) => Ok(
                LifecycleState::CleanupVerified,
            ),
            (LifecycleState::Failed, LifecycleOp::CleanupConfirmed) => Ok(
                LifecycleState::CleanupVerified,
            ),
            _ => Err(TransitionError { from: self, op }),
        }
    }
}

impl LifecycleOp {
    /// The name of an op.
    pub open spec fn name(self) -> Seq<char> {
        match self {
            LifecycleOp::BeginPrepare => "begin_prepare"@,
            LifecycleOp::PrepareSucceeded => "prepare_succeeded"@,
            LifecycleOp::PrepareFailed => "prepare_failed"@,
            LifecycleOp::BeginActivate => "begin_activate"@,
            LifecycleOp::ExecObserved => "exec_observed"@,
            LifecycleOp::ActivateFailed => "activate_failed"@,
            LifecycleOp::ChildExited => "child_exited"@,
            LifecycleOp::BeginStop => "begin_stop"@,
            LifecycleOp::StopObserved => "stop_observed"@,
            LifecycleOp::CleanupConfirmed => "cleanup_confirmed"@,
        }
    }

    /// The stable snake_case name.
    #[must_use]
    pub fn as_str(self) -> (name: &'static str)
        ensures
            name@ == self.name(),
    {
        match self {
            LifecycleOp::BeginPrepare => "begin_prepare",
            LifecycleOp::PrepareSucceeded => "prepare_succeeded",
            LifecycleOp::PrepareFailed => "prepare_failed",
            LifecycleOp::BeginActivate => "begin_activate",
            LifecycleOp::ExecObserved => "exec_observed",
            LifecycleOp::ActivateFailed => "activate_failed",
            LifecycleOp::ChildExited => "child_exited",
            LifecycleOp::BeginStop => "begin_stop",
            LifecycleOp::StopObserved => "stop_observed",
            LifecycleOp::CleanupConfirmed => "cleanup_confirmed",
        }
    }
}

impl TransitionError {
    /// The text of an error.
    pub open spec fn text(self) -> Seq<char> {
        self.op.name() + " is not legal in state "@ + self.from.name()
    }

    /// The error as a sentence.
    pub fn to_text(&self) -> (text: String)
        ensures
            text@ == self.text(),
    {
        let mut text = self.op.as_str().to_string();
        text.append(" is not legal in state ");
        text.append(self.from.as_str());
        text
    }
}

/// The run of states that `ops` leads through from `state`, where every op is
/// legal.
pub open spec fn run_of(state: LifecycleState, ops: Seq<LifecycleOp>) -> Option<LifecycleState>
    decreases ops.len(),
{
    if ops.len() == 0 {
        Some(state)
    } else {
        match run_of(state, ops.drop_last()) {
            Some(before) => next_state(before, ops.last()),
            None => None,
        }
    }
}

/// How far along a run is. Every legal op moves strictly forward.
pub open spec fn progress(state: LifecycleState) -> nat {
    match state {
        LifecycleState::Planning => 0,
        LifecycleState::Preparing => 1,
        LifecycleState::Prepared => 2,
        LifecycleState::Activating => 3,
        LifecycleState::Running => 4,
        LifecycleState::Stopping => 5,
        LifecycleState::Exited => 6,
        LifecycleState::Stopped => 6,
        LifecycleState::Failed => 6,
        LifecycleState::CleanupVerified => 7,
    }
}

/// The machine only moves forward: no op returns a run to a state it left.
pub proof fn law_no_state_is_entered_twice(state: LifecycleState, op: LifecycleOp)
    requires
        next_state(state, op) is Some,
    ensures
        progress(next_state(state, op)->0) > progress(state),
{
}

proof fn lemma_run_is_forward(state: LifecycleState, ops: Seq<LifecycleOp>)
    requires
        run_of(state, ops) is Some,
    ensures
        ops.len() == 0 ==> run_of(state, ops) == Some(state),
        ops.len() > 0 ==> progress(run_of(state, ops)->0) > progress(state),
    decreases ops.len(),
{
    if ops.len() > 0 {
        let rest = ops.drop_last();
        lemma_run_is_forward(state, rest);
        law_no_state_is_entered_twice(run_of(state, rest)->0, ops.last());
    }
}

/// Activation is reachable only from `Prepared`, and once a run has left that
/// state no sequence of ops makes activation legal again.
pub proof fn law_activation_happens_at_most_once(
    op: LifecycleOp,
    later: Seq<LifecycleOp>,
    state: LifecycleState,
)
    requires
        next_state(LifecycleState::Prepared, op) == Some(state),
        run_of(state, later) is Some,
    ensures
        next_state(run_of(state, later)->0, LifecycleOp::BeginActivate) is None,
        forall|other: LifecycleState| #[trigger]
            next_state(other, LifecycleOp::BeginActivate) is Some ==> other is Prepared,
{
    lemma_run_is_forward(state, later);
}

/// Cleanup is confirmed only from a state in which the run's end was observed,
/// and the confirmation is final.
pub proof fn law_cleanup_follows_an_observed_end(state: LifecycleState)
    ensures
        next_state(state, LifecycleOp::CleanupConfirmed) is Some <==> (state is Exited
            || state is Stopped || state is Failed),
        forall|op: LifecycleOp| #[trigger] next_state(LifecycleState::CleanupVerified, op) is None,
{
}

/// A stop can be requested only of a run that is held or running, so a run that
/// ended is never signalled.
pub proof fn law_a_stop_needs_a_live_run(state: LifecycleState)
    ensures
        next_state(state, LifecycleOp::BeginStop) is Some <==> (state is Prepared
            || state is Running),
{
}

} // verus!
