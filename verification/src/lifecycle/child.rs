//! The whole of a child's life before `execve`, as a fixed sequence of steps.
//!
//! The child performs a step, reports its outcome, and is told the next one.
//! Nothing here allocates, so a forked child may run it.

use vstd::prelude::*;
use super::exit::PreExecStage;
use super::gate;
use super::gate::{GateDecision, GateSecrets, SecretsView, GATE_MESSAGE_BYTES};
use super::plan::{PlanView, SessionMode, ValidatedPlan};
use super::probe::Platform;

verus! {

/// How a fixed-size set spells that there is no such descriptor.
pub const NO_DESCRIPTOR: i32 = -1;

/// What the plan asked of the child's sequence.
#[derive(Debug, Clone, Copy, PartialEq, Eq, Structural)]
pub struct ChildFacts {
    /// Whether the child is given a terminal, and so leads a session.
    pub interactive: bool,
    /// Whether the plan set a working directory.
    pub has_working_dir: bool,
    /// The identity the child drops to, as its user and its group, where the
    /// plan set one.
    pub workload_uid: Option<u32>,
}

/// What a plan asks of the child on a platform. Dropping to another identity is
/// about cgroups, and only Linux has those.
pub open spec fn facts_of(plan: PlanView, platform: Platform) -> ChildFacts {
    ChildFacts {
        interactive: plan.session_mode is Interactive,
        has_working_dir: plan.working_dir is Some,
        workload_uid: if platform is Linux {
            plan.workload_uid
        } else {
            None
        },
    }
}

impl ChildFacts {
    /// What a plan asks of the child's sequence on a platform.
    pub fn of(plan: &ValidatedPlan, platform: Platform) -> (facts: Self)
        ensures
            facts == facts_of(plan@, platform),
    {
        ChildFacts {
            interactive: plan.session_mode() == SessionMode::Interactive,
            has_working_dir: plan.working_dir().is_some(),
            workload_uid: match platform {
                Platform::Linux => plan.workload_uid(),
                _ => None,
            },
        }
    }
}

/// One thing the child does.
#[derive(Debug, Clone, Copy, PartialEq, Eq, Structural)]
pub enum ChildStep {
    /// Close the activation gate's write end and the status descriptor's read end.
    CloseParentEnds,
    /// Become the leader of a new process group.
    LeadGroup,
    /// Become the leader of a new session, and with it of a new group.
    LeadSession,
    /// Adopt the terminal and close its master.
    AdoptTerminal,
    /// Apply the platform sandbox.
    ApplySandbox,
    /// Report the listener's descriptor number.
    ReportListener {
        /// The descriptor.
        fd: i32,
    },
    /// Close every inherited descriptor but the two channel ends and the
    /// listener, where there is one.
    SweepDescriptors {
        /// The listener.
        listener: i32,
    },
    /// Report that the child is confined and about to wait.
    ReportReady,
    /// Read one message from the activation gate.
    ReadMessage,
    /// Read the request that a probe message announced.
    ReadRequest,
    /// Attempt the requested operation.
    RunProbe,
    /// Report what the attempt answered.
    ReportAnswer {
        /// The reply's tag.
        tag: u8,
        /// The reply's error number.
        errno: i32,
    },
    /// Enter the working directory.
    EnterDirectory,
    /// Become another user and group, for good.
    DropIdentity {
        /// The user and the group.
        uid: u32,
    },
    /// Replace this process by the program.
    Exec,
    /// Report a failure and leave.
    Fail {
        /// Where the sequence stopped.
        stage: PreExecStage,
        /// Platform error number captured at that point.
        errno: i32,
    },
    /// Leave without a report.
    Exit,
}

/// What a step came to.
#[derive(Debug, Clone, Copy, PartialEq, Eq)]
pub enum ChildOutcome {
    /// The step succeeded.
    Done,
    /// The step failed with this error number.
    Failed {
        /// Platform error number.
        errno: i32,
    },
    /// The sandbox is applied.
    Applied {
        /// The listener that answers for it, where it needs one.
        listener: Option<i32>,
    },
    /// The sandbox could not be applied.
    NotApplied {
        /// Which part failed.
        stage: PreExecStage,
        /// Platform error number.
        errno: i32,
    },
    /// Every writer of the activation gate is gone.
    Closed,
    /// A whole message arrived.
    Message {
        /// The message.
        bytes: [u8; GATE_MESSAGE_BYTES],
    },
    /// The requested operation was attempted, or could not be.
    Answer {
        /// The reply's tag.
        tag: u8,
        /// The reply's error number.
        errno: i32,
    },
}

/// What follows a release.
pub open spec fn after_release(facts: ChildFacts) -> ChildStep {
    if facts.has_working_dir {
        ChildStep::EnterDirectory
    } else {
        last_steps(facts)
    }
}

/// What is left once the child stands where it should: the identity it drops to,
/// and then the program.
pub open spec fn last_steps(facts: ChildFacts) -> ChildStep {
    match facts.workload_uid {
        Some(uid) => ChildStep::DropIdentity { uid },
        None => ChildStep::Exec,
    }
}

fn leave_for_program(facts: ChildFacts) -> (step: ChildStep)
    ensures
        step == last_steps(facts),
{
    match facts.workload_uid {
        Some(uid) => ChildStep::DropIdentity { uid },
        None => ChildStep::Exec,
    }
}

/// What follows a message.
pub open spec fn after_message(
    facts: ChildFacts,
    secrets: SecretsView,
    message: Seq<u8>,
) -> ChildStep {
    match gate::decision(secrets, message) {
        GateDecision::Release => after_release(facts),
        GateDecision::Abort => ChildStep::Fail { stage: PreExecStage::GateAborted, errno: 0 },
        GateDecision::Probe => ChildStep::ReadRequest,
        GateDecision::Unknown => ChildStep::Fail { stage: PreExecStage::GateProtocol, errno: 0 },
    }
}

/// The step that follows `step` once it came to `outcome`. An outcome that the
/// step cannot have ends the child.
pub open spec fn after_step(
    facts: ChildFacts,
    secrets: SecretsView,
    step: ChildStep,
    outcome: ChildOutcome,
) -> ChildStep {
    match (step, outcome) {
        (ChildStep::CloseParentEnds, _) => if facts.interactive {
            ChildStep::LeadSession
        } else {
            ChildStep::LeadGroup
        },
        (ChildStep::LeadGroup, ChildOutcome::Done) => ChildStep::ApplySandbox,
        (ChildStep::LeadGroup, ChildOutcome::Failed { errno }) => ChildStep::Fail {
            stage: PreExecStage::ProcessGroup,
            errno,
        },
        (ChildStep::LeadSession, ChildOutcome::Done) => ChildStep::AdoptTerminal,
        (ChildStep::LeadSession, ChildOutcome::Failed { errno }) => ChildStep::Fail {
            stage: PreExecStage::ProcessGroup,
            errno,
        },
        (ChildStep::AdoptTerminal, ChildOutcome::Done) => ChildStep::ApplySandbox,
        (ChildStep::AdoptTerminal, ChildOutcome::Failed { errno }) => ChildStep::Fail {
            stage: PreExecStage::ControllingTerminal,
            errno,
        },
        (ChildStep::ApplySandbox, ChildOutcome::Applied { listener }) => match listener {
            Some(fd) => ChildStep::ReportListener { fd },
            None => ChildStep::SweepDescriptors { listener: NO_DESCRIPTOR },
        },
        (ChildStep::ApplySandbox, ChildOutcome::NotApplied { stage, errno }) => ChildStep::Fail {
            stage,
            errno,
        },
        (ChildStep::ReportListener { fd }, ChildOutcome::Done) => ChildStep::SweepDescriptors {
            listener: fd,
        },
        (ChildStep::SweepDescriptors { .. }, _) => ChildStep::ReportReady,
        (ChildStep::ReportReady, ChildOutcome::Done) => ChildStep::ReadMessage,
        (ChildStep::ReadMessage, ChildOutcome::Message { bytes }) => after_message(
            facts,
            secrets,
            bytes@,
        ),
        (ChildStep::ReadMessage, ChildOutcome::Closed) => ChildStep::Fail {
            stage: PreExecStage::GateClosed,
            errno: 0,
        },
        (ChildStep::ReadMessage, ChildOutcome::Failed { errno }) => ChildStep::Fail {
            stage: PreExecStage::GateWait,
            errno,
        },
        (ChildStep::ReadRequest, ChildOutcome::Done) => ChildStep::RunProbe,
        (ChildStep::ReadRequest, ChildOutcome::Closed) => ChildStep::Fail {
            stage: PreExecStage::GateClosed,
            errno: 0,
        },
        (ChildStep::ReadRequest, ChildOutcome::Failed { errno }) => ChildStep::Fail {
            stage: PreExecStage::GateWait,
            errno,
        },
        (ChildStep::RunProbe, ChildOutcome::Answer { tag, errno }) => ChildStep::ReportAnswer {
            tag,
            errno,
        },
        (ChildStep::ReportAnswer { .. }, ChildOutcome::Done) => ChildStep::ReadMessage,
        (ChildStep::EnterDirectory, ChildOutcome::Done) => last_steps(facts),
        (ChildStep::EnterDirectory, ChildOutcome::Failed { errno }) => ChildStep::Fail {
            stage: PreExecStage::WorkingDirectory,
            errno,
        },
        (ChildStep::DropIdentity { .. }, ChildOutcome::Done) => ChildStep::Exec,
        (ChildStep::DropIdentity { .. }, ChildOutcome::Failed { errno }) => ChildStep::Fail {
            stage: PreExecStage::WorkloadIdentity,
            errno,
        },
        (ChildStep::Exec, ChildOutcome::Failed { errno }) => ChildStep::Fail {
            stage: PreExecStage::Exec,
            errno,
        },
        _ => ChildStep::Exit,
    }
}

/// The first thing a forked child does.
pub fn first_step() -> (step: ChildStep)
    ensures
        step == ChildStep::CloseParentEnds,
{
    ChildStep::CloseParentEnds
}

/// The child's next step.
pub fn next_step(
    facts: ChildFacts,
    secrets: &GateSecrets,
    step: ChildStep,
    outcome: ChildOutcome,
) -> (next: ChildStep)
    ensures
        next == after_step(facts, secrets@, step, outcome),
{
    match (step, outcome) {
        (ChildStep::CloseParentEnds, _) => if facts.interactive {
            ChildStep::LeadSession
        } else {
            ChildStep::LeadGroup
        },
        (ChildStep::LeadGroup, ChildOutcome::Done) => ChildStep::ApplySandbox,
        (ChildStep::LeadSession, ChildOutcome::Done) => ChildStep::AdoptTerminal,
        (ChildStep::LeadGroup, ChildOutcome::Failed { errno })
        | (ChildStep::LeadSession, ChildOutcome::Failed { errno }) => ChildStep::Fail {
            stage: PreExecStage::ProcessGroup,
            errno,
        },
        (ChildStep::AdoptTerminal, ChildOutcome::Done) => ChildStep::ApplySandbox,
        (ChildStep::AdoptTerminal, ChildOutcome::Failed { errno }) => ChildStep::Fail {
            stage: PreExecStage::ControllingTerminal,
            errno,
        },
        (ChildStep::ApplySandbox, ChildOutcome::Applied { listener }) => match listener {
            Some(fd) => ChildStep::ReportListener { fd },
            None => ChildStep::SweepDescriptors { listener: NO_DESCRIPTOR },
        },
        (ChildStep::ApplySandbox, ChildOutcome::NotApplied { stage, errno }) => ChildStep::Fail {
            stage,
            errno,
        },
        (ChildStep::ReportListener { fd }, ChildOutcome::Done) => ChildStep::SweepDescriptors {
            listener: fd,
        },
        (ChildStep::SweepDescriptors { .. }, _) => ChildStep::ReportReady,
        (ChildStep::ReportReady, ChildOutcome::Done) => ChildStep::ReadMessage,
        (ChildStep::ReadMessage, ChildOutcome::Message { bytes }) => match secrets.classify(
            &bytes,
        ) {
            GateDecision::Release => if facts.has_working_dir {
                ChildStep::EnterDirectory
            } else {
                leave_for_program(facts)
            },
            GateDecision::Abort => ChildStep::Fail { stage: PreExecStage::GateAborted, errno: 0 },
            GateDecision::Probe => ChildStep::ReadRequest,
            GateDecision::Unknown => ChildStep::Fail {
                stage: PreExecStage::GateProtocol,
                errno: 0,
            },
        },
        (ChildStep::ReadMessage, ChildOutcome::Closed)
        | (ChildStep::ReadRequest, ChildOutcome::Closed) => ChildStep::Fail {
            stage: PreExecStage::GateClosed,
            errno: 0,
        },
        (ChildStep::ReadMessage, ChildOutcome::Failed { errno })
        | (ChildStep::ReadRequest, ChildOutcome::Failed { errno }) => ChildStep::Fail {
            stage: PreExecStage::GateWait,
            errno,
        },
        (ChildStep::ReadRequest, ChildOutcome::Done) => ChildStep::RunProbe,
        (ChildStep::RunProbe, ChildOutcome::Answer { tag, errno }) => ChildStep::ReportAnswer {
            tag,
            errno,
        },
        (ChildStep::ReportAnswer { .. }, ChildOutcome::Done) => ChildStep::ReadMessage,
        (ChildStep::EnterDirectory, ChildOutcome::Done) => leave_for_program(facts),
        (ChildStep::EnterDirectory, ChildOutcome::Failed { errno }) => ChildStep::Fail {
            stage: PreExecStage::WorkingDirectory,
            errno,
        },
        (ChildStep::DropIdentity { .. }, ChildOutcome::Done) => ChildStep::Exec,
        (ChildStep::DropIdentity { .. }, ChildOutcome::Failed { errno }) => ChildStep::Fail {
            stage: PreExecStage::WorkloadIdentity,
            errno,
        },
        (ChildStep::Exec, ChildOutcome::Failed { errno }) => ChildStep::Fail {
            stage: PreExecStage::Exec,
            errno,
        },
        _ => ChildStep::Exit,
    }
}

/// Whether `steps` is what a child does when its steps come to `outcomes`.
pub open spec fn is_life(
    facts: ChildFacts,
    secrets: SecretsView,
    steps: Seq<ChildStep>,
    outcomes: Seq<ChildOutcome>,
) -> bool {
    &&& steps.len() > 0
    &&& outcomes.len() == steps.len()
    &&& steps[0] == ChildStep::CloseParentEnds
    &&& forall|i: int|
        0 <= i < steps.len() - 1 ==> #[trigger] steps[i + 1] == after_step(
            facts,
            secrets,
            steps[i],
            outcomes[i],
        )
}

/// Whether the sandbox was applied before step `n`.
pub open spec fn applied_before(
    steps: Seq<ChildStep>,
    outcomes: Seq<ChildOutcome>,
    n: int,
) -> bool {
    exists|i: int|
        0 <= i < n && #[trigger] steps[i] is ApplySandbox && outcomes[i] is Applied
}

/// Whether the child had reported before step `n` that it was waiting.
pub open spec fn ready_before(steps: Seq<ChildStep>, outcomes: Seq<ChildOutcome>, n: int) -> bool {
    exists|i: int| 0 <= i < n && #[trigger] steps[i] is ReportReady && outcomes[i] is Done
}

/// Whether the exact release message had arrived before step `n`.
pub open spec fn released_before(
    secrets: SecretsView,
    steps: Seq<ChildStep>,
    outcomes: Seq<ChildOutcome>,
    n: int,
) -> bool {
    exists|i: int|
        0 <= i < n && #[trigger] steps[i] is ReadMessage && (outcomes[i] matches
            ChildOutcome::Message { bytes } && bytes@ == secrets.release)
}

/// Whether a step comes after the sandbox.
spec fn confined(step: ChildStep) -> bool {
    step is ReportListener || step is SweepDescriptors || step is ReportReady || waiting(step)
}

/// Whether a step comes after the ready report.
spec fn waiting(step: ChildStep) -> bool {
    step is ReadMessage || step is ReadRequest || step is RunProbe || step is ReportAnswer
        || starting(step)
}

/// Whether a step comes after the release.
spec fn starting(step: ChildStep) -> bool {
    step is EnterDirectory || step is DropIdentity || step is Exec
}

/// The program runs only behind its sandbox and its gate: whatever the steps
/// came to, a child that reaches `execve` had applied its sandbox, had reported
/// that it was waiting, and had then read the exact release message.
pub proof fn law_nothing_runs_without_the_release(
    facts: ChildFacts,
    secrets: SecretsView,
    steps: Seq<ChildStep>,
    outcomes: Seq<ChildOutcome>,
    n: int,
)
    requires
        is_life(facts, secrets, steps, outcomes),
        0 <= n < steps.len(),
        steps[n] is Exec,
    ensures
        applied_before(steps, outcomes, n),
        ready_before(steps, outcomes, n),
        released_before(secrets, steps, outcomes, n),
{
    lemma_progress(facts, secrets, steps, outcomes, n);
}

/// A program whose plan names another identity runs under no other: the last
/// thing a child does before `execve` is to drop to it, and succeed.
pub proof fn law_the_program_runs_under_its_own_identity(
    facts: ChildFacts,
    secrets: SecretsView,
    steps: Seq<ChildStep>,
    outcomes: Seq<ChildOutcome>,
    n: int,
    uid: u32,
)
    requires
        is_life(facts, secrets, steps, outcomes),
        0 <= n < steps.len(),
        steps[n] is Exec,
        facts.workload_uid == Some(uid),
    ensures
        n > 0,
        steps[n - 1] == (ChildStep::DropIdentity { uid }),
        outcomes[n - 1] is Done,
{
    assert(steps[(n - 1) + 1] == after_step(facts, secrets, steps[n - 1], outcomes[n - 1]));
    lemma_drops_to_the_named(facts, secrets, steps, outcomes, n - 1);
}

proof fn lemma_drops_to_the_named(
    facts: ChildFacts,
    secrets: SecretsView,
    steps: Seq<ChildStep>,
    outcomes: Seq<ChildOutcome>,
    n: int,
)
    requires
        is_life(facts, secrets, steps, outcomes),
        0 <= n < steps.len(),
    ensures
        steps[n] matches ChildStep::DropIdentity { uid } ==> facts.workload_uid == Some(uid),
{
    if n > 0 {
        assert(steps[(n - 1) + 1] == after_step(facts, secrets, steps[n - 1], outcomes[n - 1]));
    }
}

/// No operation is attempted for a probe before the child is confined and
/// waiting.
pub proof fn law_probes_run_confined(
    facts: ChildFacts,
    secrets: SecretsView,
    steps: Seq<ChildStep>,
    outcomes: Seq<ChildOutcome>,
    n: int,
)
    requires
        is_life(facts, secrets, steps, outcomes),
        0 <= n < steps.len(),
        steps[n] is RunProbe,
    ensures
        applied_before(steps, outcomes, n),
        ready_before(steps, outcomes, n),
{
    lemma_progress(facts, secrets, steps, outcomes, n);
}

/// A child that left does nothing more.
pub proof fn law_a_child_leaves_for_good(
    facts: ChildFacts,
    secrets: SecretsView,
    outcome: ChildOutcome,
    stage: PreExecStage,
    errno: i32,
)
    ensures
        after_step(facts, secrets, ChildStep::Fail { stage, errno }, outcome) is Exit,
        after_step(facts, secrets, ChildStep::Exit, outcome) is Exit,
{
}

proof fn lemma_progress(
    facts: ChildFacts,
    secrets: SecretsView,
    steps: Seq<ChildStep>,
    outcomes: Seq<ChildOutcome>,
    n: int,
)
    requires
        is_life(facts, secrets, steps, outcomes),
        0 <= n < steps.len(),
    ensures
        confined(steps[n]) ==> applied_before(steps, outcomes, n),
        waiting(steps[n]) ==> ready_before(steps, outcomes, n),
        starting(steps[n]) ==> released_before(secrets, steps, outcomes, n),
    decreases n,
{
    if n > 0 {
        lemma_progress(facts, secrets, steps, outcomes, n - 1);
        let last = n - 1;
        assert(steps[last + 1] == after_step(facts, secrets, steps[last], outcomes[last]));
        if applied_before(steps, outcomes, last) {
            let i = choose|i: int|
                0 <= i < last && #[trigger] steps[i] is ApplySandbox && outcomes[i] is Applied;
            assert(steps[i] is ApplySandbox);
        }
        if ready_before(steps, outcomes, last) {
            let i = choose|i: int|
                0 <= i < last && #[trigger] steps[i] is ReportReady && outcomes[i] is Done;
            assert(steps[i] is ReportReady);
        }
        if released_before(secrets, steps, outcomes, last) {
            let i = choose|i: int|
                0 <= i < last && #[trigger] steps[i] is ReadMessage && (outcomes[i] matches
                    ChildOutcome::Message { bytes } && bytes@ == secrets.release);
            assert(steps[i] is ReadMessage);
        }
    }
}

} // verus!
