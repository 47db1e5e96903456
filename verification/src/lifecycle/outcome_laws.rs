//! What holds of how a run ends: its states, the reports of its death, the records
//! it leaves, and the verdict on what remains of it.

use vstd::prelude::*;
use crate::bytes;
use super::cleanup;
use super::cleanup::{
    AbsenceBasis, Answers, CleanupVerification, DeathObservation, IndeterminateReason, Probe,
    Question, SurvivorEvidence,
};
use super::exit;
use super::exit::{ExitOutcome, PreExecStage, ReapError, WaitReport};
use super::identity;
use super::identity::IdentityView;
use super::record;
use super::record::{Moved, Transfer};
use super::state;
use super::state::{LifecycleOp, LifecycleState};

verus! {

/// Each op is legal in its own states and leads to its own state: a run is
/// prepared, activated, and runs to its exit; it fails while it is prepared or
/// activated; it is stopped while it is held or runs; and it is confirmed gone
/// once its end was observed.
pub proof fn law_each_op_has_its_place(from: LifecycleState, op: LifecycleOp, to: LifecycleState)
    ensures
        state::next_state(from, op) == Some(to) <==> match op {
            LifecycleOp::BeginPrepare => from is Planning && to is Preparing,
            LifecycleOp::PrepareSucceeded => from is Preparing && to is Prepared,
            LifecycleOp::PrepareFailed => from is Preparing && to is Failed,
            LifecycleOp::BeginActivate => from is Prepared && to is Activating,
            LifecycleOp::ExecObserved => from is Activating && to is Running,
            LifecycleOp::ActivateFailed => from is Activating && to is Failed,
            LifecycleOp::ChildExited => from is Running && to is Exited,
            LifecycleOp::BeginStop => (from is Prepared || from is Running) && to is Stopping,
            LifecycleOp::StopObserved => from is Stopping && to is Stopped,
            LifecycleOp::CleanupConfirmed => (from is Exited || from is Stopped || from is Failed)
                && to is CleanupVerified,
        },
{
}

/// Every death is reported verbatim: an exit keeps its status and a signal its
/// number, whatever they are, and neither is turned into the other.
pub proof fn law_deaths_are_reported_verbatim(pid: i32, code: i32, signal: i32)
    ensures
        exit::wait_verdict(pid, WaitReport::Exited(code)) == Some(
            Ok::<ExitOutcome, ReapError>(ExitOutcome::Exited { code }),
        ),
        exit::wait_verdict(pid, WaitReport::Signaled(signal)) == Some(
            Ok::<ExitOutcome, ReapError>(ExitOutcome::Signaled { signal }),
        ),
{
}

/// A wait says how a child died only where it reported a death, and two reports
/// of a death that read alike are alike.
pub proof fn law_a_death_is_never_made_up(pid: i32, one: WaitReport, other: WaitReport)
    ensures
        exit::wait_verdict(pid, one) matches Some(Ok(_)) <==> one is Exited || one is Signaled,
        exit::wait_verdict(pid, one) matches Some(Ok(ExitOutcome::Signaled { .. }))
            <==> one is Signaled,
        exit::wait_verdict(pid, one) matches Some(Ok(ExitOutcome::Exited { .. })) <==> one is Exited,
        exit::wait_verdict(pid, one) matches Some(Ok(_)) && exit::wait_verdict(pid, one)
            == exit::wait_verdict(pid, other) ==> one == other,
{
}

/// A wait is repeated for a child that lives and after an interruption; every
/// other failure is reported with the pid it was about.
pub proof fn law_a_wait_ends_in_a_death_or_an_error(pid: i32, errno: i32)
    ensures
        exit::wait_verdict(pid, WaitReport::Alive) is None,
        exit::wait_verdict(pid, WaitReport::Failed(errno)) == (if errno == 4 {
            None
        } else {
            Some(Err::<ExitOutcome, ReapError>(ReapError { pid, errno }))
        }),
{
}

/// The caller's own group, everything it may signal, and what is no process at
/// all are never signalled; every other target is.
pub proof fn law_only_named_targets_are_signalled(target: i32)
    ensures
        exit::is_group_target(target) <==> target >= 2,
        exit::is_process_target(target) <==> target >= 1,
{
}

/// Each byte of a record names its stage, and one that names none is a failure of
/// an unknown stage.
pub proof fn law_a_tag_names_its_stage(tag: u8)
    ensures
        exit::stage_of(tag) == (match tag {
            0x0F => PreExecStage::ProcessGroup,
            0x10 => PreExecStage::SandboxApply,
            0x11 => PreExecStage::GateWait,
            0x12 => PreExecStage::GateClosed,
            0x13 => PreExecStage::GateAborted,
            0x14 => PreExecStage::GateProtocol,
            0x15 => PreExecStage::WorkingDirectory,
            0x16 => PreExecStage::Exec,
            0x17 => PreExecStage::NetworkFilter,
            0x18 => PreExecStage::ControllingTerminal,
            0x19 => PreExecStage::WorkloadIdentity,
            _ => PreExecStage::Unknown,
        }),
{
    exit::lemma_stage_of(tag);
}

/// The bytes of a number are its digits to the base of 256, least significant
/// first.
pub proof fn law_bytes_are_digits(n: u32)
    ensures
        bytes::le_bytes(n).len() == 4,
        bytes::le_bytes(n)[0] + 256 * bytes::le_bytes(n)[1] + 65536 * bytes::le_bytes(n)[2]
            + 16777216 * bytes::le_bytes(n)[3] == n,
{
    assert(n % 256 + 256 * (n / 256 % 256) + 65536 * (n / 65536 % 256) + 16777216 * (n / 16777216)
        == n) by (bit_vector);
}

/// A record is its tag and the four bytes of its error number, and is read back
/// from the front of what arrived; nothing behind it counts.
pub proof fn law_a_record_is_its_first_five_bytes(tag: u8, errno: i32, more: Seq<u8>)
    ensures
        record::record_bytes(tag, errno).len() == 5,
        record::record_bytes(tag, errno)[0] == tag,
        record::record_in(record::record_bytes(tag, errno) + more) == Some((tag, errno)),
{
    record::law_records_round_trip(tag, errno);
    let written = record::record_bytes(tag, errno);
    let read = written + more;
    assert(read[0] == written[0]);
    assert(read[1] == written[1]);
    assert(read[2] == written[2]);
    assert(read[3] == written[3]);
    assert(read[4] == written[4]);
}

/// What did not arrive whole is no record: nothing at all is nothing, and a part
/// is a failure of which nothing more is known.
pub proof fn law_a_part_of_a_record_says_nothing(read: Seq<u8>)
    ensures
        read.len() == 0 <==> record::record_in(read) is None,
        0 < read.len() < 5 ==> record::record_in(read) == Some((0xFFu8, 0i32)),
{
}

/// A preparation succeeded only where the child said so. Whatever else came is a
/// failure, of the stage that was named and with the number that came with it.
pub proof fn law_only_the_ready_marker_is_success(record: Result<Option<(u8, i32)>, i32>)
    ensures
        record::prepare_verdict(record) is Ok <==> (record matches Ok(Some((tag, _))) && tag
            == 0x01),
        record matches Ok(Some((tag, errno))) ==> (tag != 0x01 ==> record::prepare_verdict(record)
            == Err::<(), (PreExecStage, i32)>((exit::stage_of(tag), errno))),
        record matches Ok(None) ==> record::prepare_verdict(record) == Err::<
            (),
            (PreExecStage, i32),
        >((PreExecStage::Unknown, 0)),
        record matches Err(errno) ==> record::prepare_verdict(record) == Err::<
            (),
            (PreExecStage, i32),
        >((PreExecStage::Unknown, errno)),
{
}

/// A confinement that was not established is told apart from every other failure
/// before the program ran, and stage and number are kept.
pub proof fn law_a_failed_confinement_is_told_apart(stage: PreExecStage, errno: i32)
    ensures
        match record::outcome_of(stage, errno) {
            ExitOutcome::SandboxApplicationFailure { stage: named, errno: number } => (
            stage is SandboxApply || stage is NetworkFilter) && named == stage && number == errno,
            ExitOutcome::PreExecFailure { stage: named, errno: number } => !(stage is SandboxApply)
                && !(stage is NetworkFilter) && named == stage && number == errno,
            _ => false,
        },
{
}

/// A child that was told to end and left a record ended before its program ran,
/// as the record says; one that left none leaves the question to the wait.
pub proof fn law_an_aborted_child_never_ran(record: Result<Option<(u8, i32)>, i32>)
    ensures
        match record::ending_in(record) {
            Some(ExitOutcome::PreExecFailure { stage, errno }) => record matches Ok(
                Some((tag, number)),
            ) && number == errno && stage == exit::stage_of(tag),
            Some(_) => false,
            None => !(record matches Ok(Some(_))),
        },
{
}

/// A transfer goes on by exactly what moved, is done exactly when all of it has,
/// and an interruption costs nothing.
pub proof fn law_a_transfer_counts_what_moved(done: usize, wanted: usize, count: usize, errno: i32)
    requires
        done < wanted,
    ensures
        record::transfer_after(done, wanted, Moved::Count(count)) == (if count == 0 {
            Transfer::Closed
        } else if count < wanted - done {
            Transfer::Continue((done + count) as usize)
        } else {
            Transfer::Done
        }),
        record::transfer_after(done, wanted, Moved::Failed(errno)) == (if errno == 4 {
            Transfer::Continue(done)
        } else {
            Transfer::Failed(errno)
        }),
{
}

/// Absence is claimed on evidence and only then: another boot; after a reap, an
/// empty group; without one, a pid that nobody bears, or one that a process with
/// another start time bears.
pub proof fn law_when_absence_is_confirmed(
    recorded: IdentityView,
    pgid: i32,
    death: DeathObservation,
    answers: Answers,
)
    ensures
        ({
            let booted = identity::text_of(answers.boot_id);
            let other_boot = recorded.boot_id is Some && booted is Some && recorded.boot_id->0
                != booted->0;
            let judged = cleanup::verdict(recorded, pgid, death, answers);
            let reaped = death is Reaped;
            &&& judged == (CleanupVerification::ConfirmedAbsent {
                basis: AbsenceBasis::BootIdChanged,
            }) <==> other_boot
            &&& judged == (CleanupVerification::ConfirmedAbsent {
                basis: AbsenceBasis::ReapedAndGroupEmpty { pgid },
            }) <==> !other_boot && reaped && pgid >= 2 && (answers.probe matches Ok(probe)
                && probe is Absent)
            &&& judged == (CleanupVerification::ConfirmedAbsent {
                basis: AbsenceBasis::PidAbsent { pid: recorded.pid },
            }) <==> !other_boot && !reaped && recorded.pid >= 1 && (answers.probe matches Ok(probe)
                && probe is Absent)
            &&& judged == (CleanupVerification::ConfirmedAbsent {
                basis: AbsenceBasis::IdentityMismatch { pid: recorded.pid },
            }) <==> !other_boot && !reaped && recorded.pid >= 1 && (answers.probe matches Ok(probe)
                && probe is Present) && recorded.start_time is Some && answers.start_time is Some
                && recorded.start_time->0 != answers.start_time->0
            &&& judged matches CleanupVerification::ConfirmedAbsent { basis } ==> match basis {
                AbsenceBasis::BootIdChanged => true,
                AbsenceBasis::ReapedAndGroupEmpty { pgid: group } => group == pgid,
                AbsenceBasis::PidAbsent { pid } => pid == recorded.pid,
                AbsenceBasis::IdentityMismatch { pid } => pid == recorded.pid,
            }
        }),
{
}

/// A survivor is reported where something was seen: a member of the group after a
/// reap, or the recorded process itself by its start time. A platform that cannot
/// probe says so.
pub proof fn law_when_something_is_still_there(
    recorded: IdentityView,
    pgid: i32,
    death: DeathObservation,
    answers: Answers,
)
    ensures
        ({
            let booted = identity::text_of(answers.boot_id);
            let same_boot = !(recorded.boot_id is Some && booted is Some && recorded.boot_id->0
                != booted->0);
            let judged = cleanup::verdict(recorded, pgid, death, answers);
            let aimed = if death is Reaped {
                pgid >= 2
            } else {
                recorded.pid >= 1
            };
            &&& judged == (CleanupVerification::StillPresent {
                survivors: SurvivorEvidence::ProcessGroupMember { pgid },
            }) <==> same_boot && death is Reaped && aimed && (answers.probe matches Ok(probe)
                && probe is Present)
            &&& judged == (CleanupVerification::StillPresent {
                survivors: SurvivorEvidence::IdentityMatch { pid: recorded.pid },
            }) <==> same_boot && death is NotReaped && aimed && (answers.probe matches Ok(probe)
                && probe is Present) && recorded.start_time is Some && recorded.start_time
                == answers.start_time
            &&& judged matches CleanupVerification::StillPresent { survivors } ==> match survivors {
                SurvivorEvidence::ProcessGroupMember { pgid: group } => group == pgid,
                SurvivorEvidence::IdentityMatch { pid } => pid == recorded.pid,
            }
            &&& judged is Unsupported <==> same_boot && aimed && answers.probe is Err
        }),
{
}

/// What settles nothing is said to settle nothing, and why: a target that may not
/// be probed, a probe that was denied or failed, a start time that cannot be read.
pub proof fn law_when_nothing_is_settled(
    recorded: IdentityView,
    pgid: i32,
    death: DeathObservation,
    answers: Answers,
)
    ensures
        ({
            let booted = identity::text_of(answers.boot_id);
            let same_boot = !(recorded.boot_id is Some && booted is Some && recorded.boot_id->0
                != booted->0);
            cleanup::verdict(recorded, pgid, death, answers)
                matches CleanupVerification::Indeterminate { reason } ==> same_boot
                && match reason {
                IndeterminateReason::UnprobableProcessGroup { pgid: group } => death is Reaped
                    && pgid < 2 && group == pgid,
                IndeterminateReason::UnprobablePid { pid } => death is NotReaped && recorded.pid
                    < 1 && pid == recorded.pid,
                IndeterminateReason::ProcessGroupProbeDenied { pgid: group } => death is Reaped
                    && group == pgid && (answers.probe matches Ok(probe) && probe is Denied),
                IndeterminateReason::PidProbeDenied { pid } => death is NotReaped && pid
                    == recorded.pid && (answers.probe matches Ok(probe) && probe is Denied),
                IndeterminateReason::ProbeFailed { target, errno } => answers.probe == Ok::<
                    Probe,
                    cleanup::UnsupportedReason,
                >(Probe::Failed(errno)) && target == (if death is Reaped {
                    pgid
                } else {
                    recorded.pid
                }),
                IndeterminateReason::IdentityUnreadable { pid } => death is NotReaped && pid
                    == recorded.pid && (answers.probe matches Ok(probe) && probe is Present) && (
                recorded.start_time is None || answers.start_time is None),
            }
        }),
{
}

/// What is probed is what the verdict is about, and nothing is probed of another
/// boot or of a number that names no target.
pub proof fn law_what_is_probed(
    recorded: IdentityView,
    pgid: i32,
    death: DeathObservation,
    boot_id: Option<Seq<char>>,
)
    ensures
        ({
            let same_boot = !(recorded.boot_id is Some && boot_id is Some && recorded.boot_id->0
                != boot_id->0);
            let asked = cleanup::what_to_ask(recorded, pgid, death, boot_id);
            &&& asked == Question::Group(pgid) <==> same_boot && death is Reaped && pgid >= 2
            &&& asked == Question::Pid(recorded.pid) <==> same_boot && death is NotReaped
                && recorded.pid >= 1
            &&& asked matches Question::Group(target) ==> target == pgid
            &&& asked matches Question::Pid(target) ==> target == recorded.pid
        }),
{
}

} // verus!
