//! Typed exit facts.
//!
//! A [`SandboxExit`] carries only what was directly observed: a wait status, or
//! a fixed-size failure record the child wrote before it could `execve`. A
//! pre-exec failure is reported by the record, never by the exit code: the
//! program owns the whole exit-code space. A death by signal is not an exit code
//! either. And whether the program ran has three answers, not two: see
//! [`ActivationObservation`].

use vstd::prelude::*;
use vstd::string::StringExecFns;
use crate::errno::{EINTR, EINVAL, ESRCH};
use crate::text;
use crate::text::push_signed;
use super::identity::ProcessIdentity;

verus! {

/// Exit status of a child that failed before `execve`. It carries no meaning:
/// the binding fact is the record on the status descriptor.
pub const PRE_EXEC_EXIT_CODE: i32 = 1;

/// Size of one status record: a stage tag and a little-endian error number.
pub const STATUS_RECORD_LEN: usize = 5;

/// Record tag meaning "sandbox applied, now blocking at the activation gate".
pub const TAG_GATE_READY: u8 = 0x01;

/// Record tag that hands the parent the number of a notification listener.
pub const TAG_NOTIFY_FD: u8 = 0x05;

/// How far the child got before it gave up.
#[derive(Debug, Clone, Copy, PartialEq, Eq, Hash, Structural)]
pub enum PreExecStage {
    /// Leading a process group of its own failed.
    ProcessGroup,
    /// Applying the platform sandbox failed. Nothing ran unconfined.
    SandboxApply,
    /// Reading the activation gate failed for a reason other than its end.
    GateWait,
    /// Every writer of the activation gate is gone.
    GateClosed,
    /// The abort message arrived.
    GateAborted,
    /// A message arrived that is none of the activation gate's secrets.
    GateProtocol,
    /// Entering the working directory failed.
    WorkingDirectory,
    /// `execve` returned, which it only does on failure.
    Exec,
    /// Installing the network filter failed. Nothing ran unconfined.
    NetworkFilter,
    /// Taking the controlling terminal failed.
    ControllingTerminal,
    /// Dropping to the workload's identity failed. The program did not run.
    WorkloadIdentity,
    /// The child died without leaving a complete record.
    Unknown,
}

impl PreExecStage {
    /// The name of a stage.
    pub open spec fn name(self) -> Seq<char> {
        match self {
            PreExecStage::ProcessGroup => "process_group"@,
            PreExecStage::SandboxApply => "sandbox_apply"@,
            PreExecStage::GateWait => "gate_wait"@,
            PreExecStage::GateClosed => "gate_closed"@,
            PreExecStage::GateAborted => "gate_aborted"@,
            PreExecStage::GateProtocol => "gate_protocol"@,
            PreExecStage::WorkingDirectory => "working_directory"@,
            PreExecStage::Exec => "exec"@,
            PreExecStage::NetworkFilter => "network_filter"@,
            PreExecStage::ControllingTerminal => "controlling_terminal"@,
            PreExecStage::WorkloadIdentity => "workload_identity"@,
            PreExecStage::Unknown => "unknown"@,
        }
    }

    /// The wire tag of a stage. A stage that is not known shares its tag with
    /// every byte that is not recognised.
    pub open spec fn tag(self) -> u8 {
        match self {
            PreExecStage::ProcessGroup => 0x0F,
            PreExecStage::SandboxApply => 0x10,
            PreExecStage::GateWait => 0x11,
            PreExecStage::GateClosed => 0x12,
            PreExecStage::GateAborted => 0x13,
            PreExecStage::GateProtocol => 0x14,
            PreExecStage::WorkingDirectory => 0x15,
            PreExecStage::Exec => 0x16,
            PreExecStage::NetworkFilter => 0x17,
            PreExecStage::ControllingTerminal => 0x18,
            PreExecStage::WorkloadIdentity => 0x19,
            PreExecStage::Unknown => 0xFF,
        }
    }

    /// The stable snake_case name.
    #[must_use]
    pub fn as_str(self) -> (name: &'static str)
        ensures
            name@ == self.name(),
    {
        match self {
            PreExecStage::ProcessGroup => "process_group",
            PreExecStage::SandboxApply => "sandbox_apply",
            PreExecStage::GateWait => "gate_wait",
            PreExecStage::GateClosed => "gate_closed",
            PreExecStage::GateAborted => "gate_aborted",
            PreExecStage::GateProtocol => "gate_protocol",
            PreExecStage::WorkingDirectory => "working_directory",
            PreExecStage::Exec => "exec",
            PreExecStage::NetworkFilter => "network_filter",
            PreExecStage::ControllingTerminal => "controlling_terminal",
            PreExecStage::WorkloadIdentity => "workload_identity",
            PreExecStage::Unknown => "unknown",
        }
    }

    /// The wire tag written into a status record.
    #[must_use]
    pub fn as_tag(self) -> (tag: u8)
        ensures
            tag == self.tag(),
    {
        match self {
            PreExecStage::ProcessGroup => 0x0F,
            PreExecStage::SandboxApply => 0x10,
            PreExecStage::GateWait => 0x11,
            PreExecStage::GateClosed => 0x12,
            PreExecStage::GateAborted => 0x13,
            PreExecStage::GateProtocol => 0x14,
            PreExecStage::WorkingDirectory => 0x15,
            PreExecStage::Exec => 0x16,
            PreExecStage::NetworkFilter => 0x17,
            PreExecStage::ControllingTerminal => 0x18,
            PreExecStage::WorkloadIdentity => 0x19,
            PreExecStage::Unknown => 0xFF,
        }
    }

    /// Decode a wire tag. A byte that no stage has told us nothing we can trust.
    #[must_use]
    pub fn from_tag(tag: u8) -> (stage: Self)
        ensures
            stage == stage_of(tag),
    {
        proof {
            lemma_stage_of(tag);
        }
        match tag {
            0x0F => PreExecStage::ProcessGroup,
            0x10 => PreExecStage::SandboxApply,
            0x11 => PreExecStage::GateWait,
            0x12 => PreExecStage::GateClosed,
            0x13 => PreExecStage::GateAborted,
            0x14 => PreExecStage::GateProtocol,
            0x15 => PreExecStage::WorkingDirectory,
            0x16 => PreExecStage::Exec,
            0x17 => PreExecStage::NetworkFilter,
            0x18 => PreExecStage::ControllingTerminal,
            0x19 => PreExecStage::WorkloadIdentity,
            _ => PreExecStage::Unknown,
        }
    }
}

/// The stage that has `tag`, or the unknown one where none has.
pub open spec fn stage_of(tag: u8) -> PreExecStage {
    if exists|stage: PreExecStage| #[trigger] stage.tag() == tag {
        choose|stage: PreExecStage| #[trigger] stage.tag() == tag
    } else {
        PreExecStage::Unknown
    }
}

/// No two stages share a tag.
pub proof fn law_stage_tags_are_distinct(a: PreExecStage, b: PreExecStage)
    requires
        a.tag() == b.tag(),
    ensures
        a == b,
{
}

/// A stage survives its wire tag, and no stage's tag is that of the ready
/// marker, of a listener record or of a probe reply.
pub proof fn law_stages_round_trip(stage: PreExecStage)
    ensures
        stage_of(stage.tag()) == stage,
        stage.tag() != TAG_GATE_READY,
        stage.tag() != TAG_NOTIFY_FD,
        stage.tag() != super::probe::TAG_PROBE_PERMITTED,
        stage.tag() != super::probe::TAG_PROBE_REFUSED,
        stage.tag() != super::probe::TAG_PROBE_COULD_NOT_RUN,
{
}

pub(crate) proof fn lemma_stage_of(tag: u8)
    ensures
        0x0F <= tag <= 0x19 ==> stage_of(tag).tag() == tag,
        !(0x0F <= tag <= 0x19) ==> stage_of(tag) is Unknown,
{
    assert(PreExecStage::ProcessGroup.tag() == 0x0F);
    assert(PreExecStage::SandboxApply.tag() == 0x10);
    assert(PreExecStage::GateWait.tag() == 0x11);
    assert(PreExecStage::GateClosed.tag() == 0x12);
    assert(PreExecStage::GateAborted.tag() == 0x13);
    assert(PreExecStage::GateProtocol.tag() == 0x14);
    assert(PreExecStage::WorkingDirectory.tag() == 0x15);
    assert(PreExecStage::Exec.tag() == 0x16);
    assert(PreExecStage::NetworkFilter.tag() == 0x17);
    assert(PreExecStage::ControllingTerminal.tag() == 0x18);
    assert(PreExecStage::WorkloadIdentity.tag() == 0x19);
}

/// Which piece of the supervisor's own machinery failed.
#[derive(Debug, Clone, Copy, PartialEq, Eq, Hash, Structural)]
pub enum SupervisorStage {
    /// Delivering the release message failed.
    Release,
    /// Reading the status descriptor failed.
    StatusRead,
    /// Waiting failed, so the child's death was never observed.
    Reap,
}

impl SupervisorStage {
    /// The name of a stage.
    pub open spec fn name(self) -> Seq<char> {
        match self {
            SupervisorStage::Release => "release"@,
            SupervisorStage::StatusRead => "status_read"@,
            SupervisorStage::Reap => "reap"@,
        }
    }

    /// The stable snake_case name.
    #[must_use]
    pub fn as_str(self) -> (name: &'static str)
        ensures
            name@ == self.name(),
    {
        match self {
            SupervisorStage::Release => "release",
            SupervisorStage::StatusRead => "status_read",
            SupervisorStage::Reap => "reap",
        }
    }
}

/// Whether the program ever started, to the precision the platform supports.
#[derive(Debug, Clone, Copy, PartialEq, Eq, Hash, Structural)]
pub enum ActivationObservation {
    /// The program definitely ran.
    Observed,
    /// The program definitely never ran.
    NotActivated,
    /// The activation gate was released and the child then vanished without a word: either
    /// `execve` succeeded or the child was killed just before it.
    ExecOrKilledPreExec,
}

impl ActivationObservation {
    /// The name of an observation.
    pub open spec fn name(self) -> Seq<char> {
        match self {
            ActivationObservation::Observed => "observed"@,
            ActivationObservation::NotActivated => "not_activated"@,
            ActivationObservation::ExecOrKilledPreExec => "exec_or_killed_pre_exec"@,
        }
    }

    /// The stable snake_case name.
    #[must_use]
    pub fn as_str(self) -> (name: &'static str)
        ensures
            name@ == self.name(),
    {
        match self {
            ActivationObservation::Observed => "observed",
            ActivationObservation::NotActivated => "not_activated",
            ActivationObservation::ExecOrKilledPreExec => "exec_or_killed_pre_exec",
        }
    }
}

/// How a run ended, as one directly observed fact.
#[derive(Debug, Clone, Copy, PartialEq, Eq, Hash, Structural)]
pub enum ExitOutcome {
    /// A normal exit with this status.
    Exited {
        /// The status the program passed to `exit`.
        code: i32,
    },
    /// Death by this signal. Never collapsed into an exit status.
    Signaled {
        /// The signal number, as the platform numbers it.
        signal: i32,
    },
    /// The child could not confine itself and died instead.
    SandboxApplicationFailure {
        /// The step of the confinement that failed.
        stage: PreExecStage,
        /// Platform error number.
        errno: i32,
    },
    /// The child reported why it stopped instead of reaching `execve`.
    PreExecFailure {
        /// Where in the pre-exec sequence it stopped.
        stage: PreExecStage,
        /// Platform error number captured at that point.
        errno: i32,
    },
    /// The supervisor's own machinery failed, so the child's fate is unknown.
    SupervisorFailure {
        /// Which supervisor step failed.
        stage: SupervisorStage,
        /// Platform error number captured at that point.
        errno: i32,
    },
}

/// Everything directly observed about how a run ended.
#[derive(Debug, PartialEq, Eq)]
pub struct SandboxExit {
    outcome: ExitOutcome,
    activation: ActivationObservation,
    identity: ProcessIdentity,
}

impl Clone for SandboxExit {
    fn clone(&self) -> (copy: Self)
        ensures
            copy == *self,
    {
        SandboxExit {
            outcome: self.outcome,
            activation: self.activation,
            identity: self.identity.clone(),
        }
    }
}

impl SandboxExit {
    /// The facts `outcome`, `activation` and `identity` as one value.
    pub closed spec fn of(
        outcome: ExitOutcome,
        activation: ActivationObservation,
        identity: ProcessIdentity,
    ) -> SandboxExit {
        SandboxExit { outcome, activation, identity }
    }

    /// How the run ended.
    pub closed spec fn how(self) -> ExitOutcome {
        self.outcome
    }

    /// Whether the program ever started.
    pub closed spec fn ran(self) -> ActivationObservation {
        self.activation
    }

    /// The process these facts are about.
    pub closed spec fn who(self) -> ProcessIdentity {
        self.identity
    }

    /// Put the facts together.
    pub fn new(
        outcome: ExitOutcome,
        activation: ActivationObservation,
        identity: ProcessIdentity,
    ) -> (exit: Self)
        ensures
            exit == SandboxExit::of(outcome, activation, identity),
            exit.how() == outcome,
            exit.ran() == activation,
            exit.who() == identity,
    {
        SandboxExit { outcome, activation, identity }
    }

    /// How the run ended.
    #[must_use]
    pub fn outcome(&self) -> (outcome: ExitOutcome)
        ensures
            outcome == self.how(),
    {
        self.outcome
    }

    /// The identity of the process these facts are about.
    #[must_use]
    pub fn identity(&self) -> (identity: &ProcessIdentity)
        ensures
            *identity == self.who(),
    {
        &self.identity
    }

    /// Whether the program ever started.
    #[must_use]
    pub fn activation(&self) -> (activation: ActivationObservation)
        ensures
            activation == self.ran(),
    {
        self.activation
    }
}

/// Building an exit keeps every fact it is built from.
pub proof fn law_an_exit_keeps_its_facts(
    outcome: ExitOutcome,
    activation: ActivationObservation,
    identity: ProcessIdentity,
)
    ensures
        SandboxExit::of(outcome, activation, identity).how() == outcome,
        SandboxExit::of(outcome, activation, identity).ran() == activation,
        SandboxExit::of(outcome, activation, identity).who() == identity,
{
}

/// Waiting failed, so the child's death was not observed.
#[derive(Debug, Clone, Copy, PartialEq, Eq, Hash, Structural)]
pub struct ReapError {
    /// The pid that was being waited for.
    pub pid: i32,
    /// Platform error number from the wait.
    pub errno: i32,
}

impl ReapError {
    /// The text of the error.
    pub open spec fn text(self) -> Seq<char> {
        "waitpid failed for pid "@ + text::signed_decimal(self.pid as int) + ": errno "@
            + text::signed_decimal(self.errno as int)
    }

    /// The error as a sentence.
    pub fn to_text(&self) -> (text: String)
        ensures
            text@ == self.text(),
    {
        let mut text = "waitpid failed for pid ".to_string();
        push_signed(&mut text, self.pid as i64);
        text.append(": errno ");
        push_signed(&mut text, self.errno as i64);
        text
    }
}

/// What one wait on a child reported.
#[derive(Debug, Clone, Copy, PartialEq, Eq, Hash, Structural)]
pub enum WaitReport {
    /// The child exited with this status.
    Exited(i32),
    /// The child died of this signal.
    Signaled(i32),
    /// Something that is no death: a stop, a continue, a trace report.
    Alive,
    /// The wait failed with this error number.
    Failed(i32),
}

/// What to do after one wait: the death that was observed, the failure to
/// observe one, or nothing yet where the wait has to be repeated.
pub open spec fn wait_verdict(pid: i32, report: WaitReport) -> Option<Result<ExitOutcome, ReapError>> {
    match report {
        WaitReport::Exited(code) => Some(Ok(ExitOutcome::Exited { code })),
        WaitReport::Signaled(signal) => Some(Ok(ExitOutcome::Signaled { signal })),
        WaitReport::Alive => None,
        WaitReport::Failed(errno) => if errno == EINTR {
            None
        } else {
            Some(Err(ReapError { pid, errno }))
        },
    }
}

/// Judge one wait on `pid`. Nothing means that the wait has to be repeated: an
/// interruption is no failure, and a stopped process has not ended.
pub fn reap(pid: i32, report: WaitReport) -> (verdict: Option<Result<ExitOutcome, ReapError>>)
    ensures
        verdict == wait_verdict(pid, report),
{
    match report {
        WaitReport::Exited(code) => Some(Ok(ExitOutcome::Exited { code })),
        WaitReport::Signaled(signal) => Some(Ok(ExitOutcome::Signaled { signal })),
        WaitReport::Alive => None,
        WaitReport::Failed(errno) => if errno == EINTR {
            None
        } else {
            Some(Err(ReapError { pid, errno }))
        },
    }
}

/// Whether `pgid` may be signalled as a group: 0 names the caller's own group
/// and 1 everything the caller may signal.
pub open spec fn is_group_target(pgid: i32) -> bool {
    pgid > 1
}

/// Whether `pid` may be signalled as a process.
pub open spec fn is_process_target(pid: i32) -> bool {
    pid > 0
}

/// The group to kill, or the error of a number that must never be signalled.
pub fn kill_group(pgid: i32) -> (target: Result<i32, i32>)
    ensures
        target == (if is_group_target(pgid) {
            Ok::<i32, i32>(pgid)
        } else {
            Err::<i32, i32>(EINVAL)
        }),
        target is Ok <==> pgid > 1,
        target matches Ok(named) ==> named == pgid,
{
    if pgid <= 1 {
        return Err(EINVAL);
    }
    Ok(pgid)
}

/// The process to kill, or the error of a number that must never be signalled.
pub fn kill_pid(pid: i32) -> (target: Result<i32, i32>)
    ensures
        target == (if is_process_target(pid) {
            Ok::<i32, i32>(pid)
        } else {
            Err::<i32, i32>(EINVAL)
        }),
        target is Ok <==> pid > 0,
        target matches Ok(named) ==> named == pid,
{
    if pid <= 0 {
        return Err(EINVAL);
    }
    Ok(pid)
}

/// Whether a kill did what it was for: a target that is already gone is a
/// success with nothing to do, every other error is reported.
pub fn kill_verdict(signalled: Result<(), i32>) -> (verdict: Result<(), i32>)
    ensures
        verdict == (match signalled {
            Ok(()) => Ok::<(), i32>(()),
            Err(errno) => if errno == ESRCH {
                Ok::<(), i32>(())
            } else {
                Err::<(), i32>(errno)
            },
        }),
        verdict is Ok <==> signalled is Ok || signalled == Err::<(), i32>(3),
        verdict is Err ==> verdict == signalled,
{
    match signalled {
        Ok(()) => Ok(()),
        Err(errno) => if errno == ESRCH {
            Ok(())
        } else {
            Err(errno)
        },
    }
}

} // verus!
