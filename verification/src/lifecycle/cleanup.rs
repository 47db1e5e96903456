//! Proving a process is gone, instead of assuming the signal worked.
//!
//! Every verdict is built from a probe made after the fact; a sent signal is not
//! evidence of absence. When the direct child was reaped, what is left to ask
//! about is the process group it led. When the death was never observed, the
//! question is about the recorded identity: the pid, its start time and the boot
//! it was issued in. Nothing here sends a signal.

use vstd::prelude::*;
use vstd::string::StringExecFns;
use crate::errno::{EPERM, ESRCH};
use super::exit;
use super::identity;
use super::identity::{IdentityView, ProcessIdentity};
use super::state;
use super::state::{LifecycleOp, LifecycleState, Transition};
use super::sync_core::{CoreView, SharedLifecycle};

verus! {

/// What was established about a run's processes after it ended.
#[derive(Debug, Clone, Copy, PartialEq, Eq, Hash, Structural)]
pub enum CleanupVerification {
    /// Nothing of the run remains, and this is what proved it.
    ConfirmedAbsent {
        /// The observation the conclusion rests on. Never a sent signal.
        basis: AbsenceBasis,
    },
    /// Something was still there when the probe ran.
    StillPresent {
        /// What was seen.
        survivors: SurvivorEvidence,
    },
    /// The probe could not settle the question.
    Indeterminate {
        /// Why no conclusion was reached.
        reason: IndeterminateReason,
    },
    /// This platform offers no probe that could answer the question.
    Unsupported {
        /// What is missing.
        reason: UnsupportedReason,
    },
}

impl CleanupVerification {
    /// The name of a verdict.
    pub open spec fn name(self) -> Seq<char> {
        match self {
            CleanupVerification::ConfirmedAbsent { .. } => "confirmed_absent"@,
            CleanupVerification::StillPresent { .. } => "still_present"@,
            CleanupVerification::Indeterminate { .. } => "indeterminate"@,
            CleanupVerification::Unsupported { .. } => "unsupported"@,
        }
    }

    /// The stable snake_case name of the verdict.
    #[must_use]
    pub fn as_str(&self) -> (name: &'static str)
        ensures
            name@ == self.name(),
    {
        match self {
            CleanupVerification::ConfirmedAbsent { .. } => "confirmed_absent",
            CleanupVerification::StillPresent { .. } => "still_present",
            CleanupVerification::Indeterminate { .. } => "indeterminate",
            CleanupVerification::Unsupported { .. } => "unsupported",
        }
    }

    /// Whether this verdict proves absence. Only such a verdict moves a run.
    #[must_use]
    pub fn is_confirmed_absent(&self) -> (proven: bool)
        ensures
            proven == (self is ConfirmedAbsent),
    {
        match self {
            CleanupVerification::ConfirmedAbsent { .. } => true,
            _ => false,
        }
    }
}

/// What proved that the recorded process is gone.
#[derive(Debug, Clone, Copy, PartialEq, Eq, Hash, Structural)]
pub enum AbsenceBasis {
    /// The child was reaped, its group is empty and the boot is the same.
    ReapedAndGroupEmpty {
        /// The process group that was probed.
        pgid: i32,
    },
    /// No process bears that number.
    PidAbsent {
        /// The pid that was probed.
        pid: i32,
    },
    /// The pid is alive but its start time differs: the number was reissued.
    IdentityMismatch {
        /// The pid whose occupant is another process.
        pid: i32,
    },
    /// The machine has rebooted. No process survives a boot.
    BootIdChanged,
}

/// What was seen that is still there.
#[derive(Debug, Clone, Copy, PartialEq, Eq, Hash, Structural)]
pub enum SurvivorEvidence {
    /// At least one process remains in the run's group.
    ProcessGroupMember {
        /// The process group that answered.
        pgid: i32,
    },
    /// The pid is alive and its start time matches the recorded one.
    IdentityMatch {
        /// The pid that matched.
        pid: i32,
    },
}

/// Why a probe settled nothing.
#[derive(Debug, Clone, Copy, PartialEq, Eq, Hash, Structural)]
pub enum IndeterminateReason {
    /// The recorded group is not a number that may be probed: it would name the
    /// caller's own group, or everything.
    UnprobableProcessGroup {
        /// The value that was refused.
        pgid: i32,
    },
    /// The recorded pid is not a number that may be probed.
    UnprobablePid {
        /// The value that was refused.
        pid: i32,
    },
    /// Something is in that group, but it may not be signalled from here.
    ProcessGroupProbeDenied {
        /// The process group that was probed.
        pgid: i32,
    },
    /// A process bears that pid, but it may not be signalled from here.
    PidProbeDenied {
        /// The pid that was probed.
        pid: i32,
    },
    /// The probe failed for another reason.
    ProbeFailed {
        /// The pid or process group that was probed.
        target: i32,
        /// Platform error number from the probe.
        errno: i32,
    },
    /// The pid is alive, but its start time could not be read, now or when the
    /// identity was captured. Not folded into either certainty.
    IdentityUnreadable {
        /// The pid whose start time is unreadable.
        pid: i32,
    },
}

/// What a platform is missing that makes verification impossible.
#[derive(Debug, Clone, Copy, PartialEq, Eq, Hash, Structural)]
pub enum UnsupportedReason {
    /// The platform has no process-existence probe.
    NoProcessProbe,
}

/// Cleanup verification was refused, naming the state that refused it.
#[derive(Debug, Clone, Copy, PartialEq, Eq, Hash, Structural)]
pub struct CleanupError {
    /// The state the machine was in when verification was attempted.
    pub state: LifecycleState,
}

impl CleanupError {
    /// The error as a sentence.
    pub fn to_text(&self) -> (text: String)
        ensures
            text@ == "cleanup verification is not legal in state "@ + self.state.name(),
    {
        let mut text = "cleanup verification is not legal in state ".to_string();
        text.append(self.state.as_str());
        text
    }
}

/// Whether the run's own death was directly observed. Chooses the probe.
#[derive(Debug, Clone, Copy, PartialEq, Eq, Structural)]
pub enum DeathObservation {
    /// A wait observed the child's death.
    Reaped,
    /// The death was never observed.
    NotReaped,
}

/// What a signal-0 probe found.
#[derive(Debug, Clone, Copy, PartialEq, Eq, Structural)]
pub enum Probe {
    /// The target exists and can be signalled.
    Present,
    /// Nothing under that number.
    Absent,
    /// Something is there, and it is not ours to signal.
    Denied,
    /// Anything else the platform returned.
    Failed(i32),
}

/// Turn the result of a signal-0 probe into the answers it can carry.
pub fn classify(result: Result<(), i32>) -> (probe: Probe)
    ensures
        probe == (match result {
            Ok(()) => Probe::Present,
            Err(errno) => if errno == ESRCH {
                Probe::Absent
            } else if errno == EPERM {
                Probe::Denied
            } else {
                Probe::Failed(errno)
            },
        }),
        probe is Present <==> result is Ok,
        probe is Absent <==> result == Err::<(), i32>(3),
        probe is Denied <==> result == Err::<(), i32>(1),
        probe matches Probe::Failed(errno) ==> result == Err::<(), i32>(errno),
{
    match result {
        Ok(()) => Probe::Present,
        Err(errno) => if errno == ESRCH {
            Probe::Absent
        } else if errno == EPERM {
            Probe::Denied
        } else {
            Probe::Failed(errno)
        },
    }
}

/// What the platform says now: the current boot, the probe of the target that
/// [`question`] named, and the start time of the recorded pid's occupant. A part
/// that was not asked for is ignored.
#[derive(Debug)]
pub struct Answers {
    /// The current boot's identifier, where the platform names one.
    pub boot_id: Option<String>,
    /// What probing the target found.
    pub probe: Result<Probe, UnsupportedReason>,
    /// The start time of the process that bears the recorded pid now.
    pub start_time: Option<u64>,
}

/// What has to be probed before a verdict.
#[derive(Debug, Clone, Copy, PartialEq, Eq, Structural)]
pub enum Question {
    /// Nothing: this is the verdict.
    Settled(CleanupVerification),
    /// Whether a process remains in this group.
    Group(i32),
    /// Whether a process bears this pid, and since when.
    Pid(i32),
}

/// Whether the machine has provably rebooted since `recorded` was captured. A
/// platform that will not name the boot leaves the question open.
pub open spec fn rebooted(recorded: IdentityView, boot_id: Option<Seq<char>>) -> bool {
    recorded.boot_id is Some && boot_id is Some && recorded.boot_id != boot_id
}

/// What has to be probed of a run that ended as `death` says.
pub open spec fn what_to_ask(
    recorded: IdentityView,
    pgid: i32,
    death: DeathObservation,
    boot_id: Option<Seq<char>>,
) -> Question {
    if rebooted(recorded, boot_id) {
        Question::Settled(
            CleanupVerification::ConfirmedAbsent { basis: AbsenceBasis::BootIdChanged },
        )
    } else if death is Reaped {
        if exit::is_group_target(pgid) {
            Question::Group(pgid)
        } else {
            Question::Settled(
                CleanupVerification::Indeterminate {
                    reason: IndeterminateReason::UnprobableProcessGroup { pgid },
                },
            )
        }
    } else if exit::is_process_target(recorded.pid) {
        Question::Pid(recorded.pid)
    } else {
        Question::Settled(
            CleanupVerification::Indeterminate {
                reason: IndeterminateReason::UnprobablePid { pid: recorded.pid },
            },
        )
    }
}

/// What a probe of a group proves.
pub open spec fn group_verdict(pgid: i32, probe: Result<Probe, UnsupportedReason>) -> CleanupVerification {
    match probe {
        Err(reason) => CleanupVerification::Unsupported { reason },
        Ok(Probe::Absent) => CleanupVerification::ConfirmedAbsent {
            basis: AbsenceBasis::ReapedAndGroupEmpty { pgid },
        },
        Ok(Probe::Present) => CleanupVerification::StillPresent {
            survivors: SurvivorEvidence::ProcessGroupMember { pgid },
        },
        Ok(Probe::Denied) => CleanupVerification::Indeterminate {
            reason: IndeterminateReason::ProcessGroupProbeDenied { pgid },
        },
        Ok(Probe::Failed(errno)) => CleanupVerification::Indeterminate {
            reason: IndeterminateReason::ProbeFailed { target: pgid, errno },
        },
    }
}

/// What a probe of a pid and the start times prove.
pub open spec fn pid_verdict(
    pid: i32,
    recorded: Option<u64>,
    probe: Result<Probe, UnsupportedReason>,
    current: Option<u64>,
) -> CleanupVerification {
    match probe {
        Err(reason) => CleanupVerification::Unsupported { reason },
        Ok(Probe::Absent) => CleanupVerification::ConfirmedAbsent {
            basis: AbsenceBasis::PidAbsent { pid },
        },
        Ok(Probe::Denied) => CleanupVerification::Indeterminate {
            reason: IndeterminateReason::PidProbeDenied { pid },
        },
        Ok(Probe::Failed(errno)) => CleanupVerification::Indeterminate {
            reason: IndeterminateReason::ProbeFailed { target: pid, errno },
        },
        Ok(Probe::Present) => if recorded is None || current is None {
            CleanupVerification::Indeterminate {
                reason: IndeterminateReason::IdentityUnreadable { pid },
            }
        } else if recorded == current {
            CleanupVerification::StillPresent {
                survivors: SurvivorEvidence::IdentityMatch { pid },
            }
        } else {
            CleanupVerification::ConfirmedAbsent { basis: AbsenceBasis::IdentityMismatch { pid } }
        },
    }
}

/// The verdict on a run that ended as `death` says, given what the platform says.
pub open spec fn verdict(
    recorded: IdentityView,
    pgid: i32,
    death: DeathObservation,
    answers: Answers,
) -> CleanupVerification {
    match what_to_ask(recorded, pgid, death, identity::text_of(answers.boot_id)) {
        Question::Settled(settled) => settled,
        Question::Group(target) => group_verdict(target, answers.probe),
        Question::Pid(target) => pid_verdict(
            target,
            recorded.start_time,
            answers.probe,
            answers.start_time,
        ),
    }
}

/// Whether the machine has rebooted since the identity was captured.
pub fn rebooted_since_capture(identity: &ProcessIdentity, boot_id: &Option<String>) -> (verdict:
    Option<CleanupVerification>)
    ensures
        verdict == (if rebooted(identity@, identity::text_of(*boot_id)) {
            Some(CleanupVerification::ConfirmedAbsent { basis: AbsenceBasis::BootIdChanged })
        } else {
            None::<CleanupVerification>
        }),
{
    match (identity.boot_id(), boot_id) {
        (Some(recorded), Some(current)) => if recorded.to_string().eq(current) {
            None
        } else {
            Some(CleanupVerification::ConfirmedAbsent { basis: AbsenceBasis::BootIdChanged })
        },
        _ => None,
    }
}

/// What has to be probed before a run that ended as `death` says can be judged.
pub fn question(
    identity: &ProcessIdentity,
    pgid: i32,
    death: DeathObservation,
    boot_id: &Option<String>,
) -> (asked: Question)
    ensures
        asked == what_to_ask(identity@, pgid, death, identity::text_of(*boot_id)),
{
    if let Some(rebooted) = rebooted_since_capture(identity, boot_id) {
        return Question::Settled(rebooted);
    }
    match death {
        DeathObservation::Reaped => if pgid <= 1 {
            Question::Settled(
                CleanupVerification::Indeterminate {
                    reason: IndeterminateReason::UnprobableProcessGroup { pgid },
                },
            )
        } else {
            Question::Group(pgid)
        },
        DeathObservation::NotReaped => {
            let pid = identity.pid();
            if pid <= 0 {
                Question::Settled(
                    CleanupVerification::Indeterminate {
                        reason: IndeterminateReason::UnprobablePid { pid },
                    },
                )
            } else {
                Question::Pid(pid)
            }
        },
    }
}

/// Verify a run whose direct child was reaped, by the probe of its group.
pub fn verify_after_reap(identity: &ProcessIdentity, pgid: i32, answers: &Answers) -> (judged:
    CleanupVerification)
    ensures
        judged == verdict(identity@, pgid, DeathObservation::Reaped, *answers),
{
    match question(identity, pgid, DeathObservation::Reaped, &answers.boot_id) {
        Question::Settled(settled) => settled,
        _ => match answers.probe {
            Err(reason) => CleanupVerification::Unsupported { reason },
            Ok(Probe::Absent) => CleanupVerification::ConfirmedAbsent {
                basis: AbsenceBasis::ReapedAndGroupEmpty { pgid },
            },
            Ok(Probe::Present) => CleanupVerification::StillPresent {
                survivors: SurvivorEvidence::ProcessGroupMember { pgid },
            },
            Ok(Probe::Denied) => CleanupVerification::Indeterminate {
                reason: IndeterminateReason::ProcessGroupProbeDenied { pgid },
            },
            Ok(Probe::Failed(errno)) => CleanupVerification::Indeterminate {
                reason: IndeterminateReason::ProbeFailed { target: pgid, errno },
            },
        },
    }
}

/// Verify a process whose death was never observed, from its identity alone.
///
/// Not by [`ProcessIdentity::is_same_process`], whose fail-closed answer would
/// turn an unreadable start time into a proof of absence here.
pub fn verify_identity(identity: &ProcessIdentity, answers: &Answers) -> (judged:
    CleanupVerification)
    ensures
        forall|pgid: i32|
            judged == #[trigger] verdict(identity@, pgid, DeathObservation::NotReaped, *answers),
{
    match question(identity, 0, DeathObservation::NotReaped, &answers.boot_id) {
        Question::Settled(settled) => settled,
        _ => {
            let pid = identity.pid();
            match answers.probe {
                Err(reason) => CleanupVerification::Unsupported { reason },
                Ok(Probe::Absent) => CleanupVerification::ConfirmedAbsent {
                    basis: AbsenceBasis::PidAbsent { pid },
                },
                Ok(Probe::Denied) => CleanupVerification::Indeterminate {
                    reason: IndeterminateReason::PidProbeDenied { pid },
                },
                Ok(Probe::Failed(errno)) => CleanupVerification::Indeterminate {
                    reason: IndeterminateReason::ProbeFailed { target: pid, errno },
                },
                // The pid is taken. By whom is what the start time answers.
                Ok(Probe::Present) => match (identity.start_time(), answers.start_time) {
                    (Some(recorded), Some(current)) => if recorded == current {
                        CleanupVerification::StillPresent {
                            survivors: SurvivorEvidence::IdentityMatch { pid },
                        }
                    } else {
                        CleanupVerification::ConfirmedAbsent {
                            basis: AbsenceBasis::IdentityMismatch { pid },
                        }
                    },
                    _ => CleanupVerification::Indeterminate {
                        reason: IndeterminateReason::IdentityUnreadable { pid },
                    },
                },
            }
        },
    }
}

/// Whether cleanup may be verified in `state`. A refusal comes before anything
/// is probed.
pub fn may_verify(state: LifecycleState) -> (legal: Result<(), CleanupError>)
    ensures
        legal == (if state::next_state(state, LifecycleOp::CleanupConfirmed) is Some {
            Ok::<(), CleanupError>(())
        } else {
            Err::<(), CleanupError>(CleanupError { state })
        }),
{
    match state.apply(LifecycleOp::CleanupConfirmed) {
        Ok(_) => Ok(()),
        Err(_) => Err(CleanupError { state }),
    }
}

/// Judge, then record the confirmation if there was one.
///
/// Only a proof of absence moves the machine. A survivor, an unsettled probe and
/// an unsupported platform leave the run where it was, so that the caller can
/// verify again later.
pub fn verify_and_record(
    shared: &mut SharedLifecycle,
    identity: &ProcessIdentity,
    pgid: i32,
    death: DeathObservation,
    answers: &Answers,
) -> (judged: Result<(CleanupVerification, Option<Transition>), CleanupError>)
    ensures
        ({
            let from = old(shared)@.state;
            let reached = verdict(identity@, pgid, death, *answers);
            if state::next_state(from, LifecycleOp::CleanupConfirmed) is None {
                &&& judged == Err::<(CleanupVerification, Option<Transition>), CleanupError>(
                    CleanupError { state: from },
                )
                &&& final(shared)@ == old(shared)@
            } else if reached is ConfirmedAbsent {
                &&& judged == Ok::<(CleanupVerification, Option<Transition>), CleanupError>(
                    (reached, Some(Transition { from, to: LifecycleState::CleanupVerified })),
                )
                &&& final(shared)@ == (CoreView {
                    state: LifecycleState::CleanupVerified,
                    gate_claimed: old(shared)@.gate_claimed,
                })
            } else {
                &&& judged == Ok::<(CleanupVerification, Option<Transition>), CleanupError>(
                    (reached, None),
                )
                &&& final(shared)@ == old(shared)@
            }
        }),
{
    if let Err(err) = may_verify(shared.state()) {
        return Err(err);
    }
    let verification = match death {
        DeathObservation::Reaped => verify_after_reap(identity, pgid, answers),
        DeathObservation::NotReaped => {
            let judged = verify_identity(identity, answers);
            assert(judged == verdict(identity@, pgid, DeathObservation::NotReaped, *answers));
            judged
        },
    };
    if !verification.is_confirmed_absent() {
        return Ok((verification, None));
    }
    match shared.mark(LifecycleOp::CleanupConfirmed) {
        Ok(change) => Ok((verification, Some(change))),
        Err(err) => Err(CleanupError { state: err.from }),
    }
}

/// Absence is claimed only on evidence: the boot changed, the group was probed
/// and found empty after a reap, the pid was probed and found free, or the pid
/// was probed and its start time is readable in both reads and differs.
pub proof fn law_absence_rests_on_evidence(
    recorded: IdentityView,
    pgid: i32,
    death: DeathObservation,
    answers: Answers,
)
    requires
        verdict(recorded, pgid, death, answers) is ConfirmedAbsent,
    ensures
        ({
            ||| rebooted(recorded, identity::text_of(answers.boot_id))
            ||| answers.probe == Ok::<Probe, UnsupportedReason>(Probe::Absent)
            ||| (death is NotReaped && answers.probe == Ok::<Probe, UnsupportedReason>(
                Probe::Present,
            ) && recorded.start_time is Some && answers.start_time is Some
                && recorded.start_time != answers.start_time)
        }),
{
}

/// No probe is ever aimed at a number that would name the caller's own group or
/// everything.
pub proof fn law_only_real_targets_are_probed(
    recorded: IdentityView,
    pgid: i32,
    death: DeathObservation,
    boot_id: Option<Seq<char>>,
)
    ensures
        match what_to_ask(recorded, pgid, death, boot_id) {
            Question::Settled(_) => true,
            Question::Group(target) => target > 1 && target == pgid,
            Question::Pid(target) => target > 0 && target == recorded.pid,
        },
{
}

/// Where the question is settled without a probe, no probe result changes the
/// verdict.
pub proof fn law_a_settled_question_needs_no_probe(
    recorded: IdentityView,
    pgid: i32,
    death: DeathObservation,
    one: Answers,
    other: Answers,
)
    requires
        one.boot_id == other.boot_id,
        what_to_ask(recorded, pgid, death, identity::text_of(one.boot_id)) is Settled,
    ensures
        verdict(recorded, pgid, death, one) == verdict(recorded, pgid, death, other),
{
}

/// An unreadable start time is never a proof of absence: while the pid is taken
/// and the boot is the same, it settles nothing.
pub proof fn law_an_unreadable_start_time_settles_nothing(
    recorded: IdentityView,
    pgid: i32,
    answers: Answers,
)
    requires
        !rebooted(recorded, identity::text_of(answers.boot_id)),
        recorded.pid > 0,
        answers.probe == Ok::<Probe, UnsupportedReason>(Probe::Present),
        recorded.start_time is None || answers.start_time is None,
    ensures
        verdict(recorded, pgid, DeathObservation::NotReaped, answers) is Indeterminate,
{
}

} // verus!
