//! What holds between a supervisor and its held child, across the descriptors
//! they share.

use vstd::prelude::*;
use super::child;
use super::child::{ChildFacts, ChildStep};
use super::exit;
use super::exit::{ExitOutcome, PreExecStage, TAG_GATE_READY, TAG_NOTIFY_FD};
use super::gate::SecretsView;
use super::prepare;
use super::probe;
use super::probe::{CallOutcome, Platform, ProbeOp};
use super::record;

verus! {

/// The fixed-size record that reports `stage` and `errno`, as the other side
/// reads it.
pub open spec fn reported(tag: u8, errno: i32) -> Result<Option<(u8, i32)>, i32> {
    Ok(record::record_in(record::record_bytes(tag, errno)))
}

/// A child that failed before it was ready is known to have failed where it did,
/// with the number it had; a child that is ready is known to be ready.
pub proof fn law_every_failure_is_named(stage: PreExecStage, errno: i32)
    ensures
        record::prepare_verdict(reported(stage.tag(), errno)) == Err::<(), (PreExecStage, i32)>(
            (stage, errno),
        ),
        record::prepare_verdict(reported(TAG_GATE_READY, errno)) == Ok::<
            (),
            (PreExecStage, i32),
        >(()),
        record::ending_in(reported(stage.tag(), errno)) == Some(
            ExitOutcome::PreExecFailure { stage, errno },
        ),
{
    record::law_records_round_trip(stage.tag(), errno);
    record::law_records_round_trip(TAG_GATE_READY, errno);
    exit::law_stages_round_trip(stage);
}

/// A descriptor number that a child reports for its listener arrives as it was,
/// and is not taken for a failure or for readiness.
pub proof fn law_a_listener_arrives(fd: i32)
    ensures
        reported(TAG_NOTIFY_FD, fd) == Ok::<Option<(u8, i32)>, i32>(Some((TAG_NOTIFY_FD, fd))),
        TAG_NOTIFY_FD != TAG_GATE_READY,
        exit::stage_of(TAG_NOTIFY_FD) is Unknown,
{
    record::law_records_round_trip(TAG_NOTIFY_FD, fd);
}

/// Each side means the same by the messages between them: a release starts the
/// child, an abort ends it and is recorded as the abort it was, and a probe
/// leaves it waiting for the request.
pub proof fn law_messages_mean_what_was_sent(
    facts: ChildFacts,
    secrets: SecretsView,
    reaped: ExitOutcome,
)
    requires
        secrets.release != secrets.abort,
        secrets.release != secrets.probe,
        secrets.abort != secrets.probe,
    ensures
        child::after_message(facts, secrets, secrets.release) == child::after_release(facts),
        child::after_message(facts, secrets, secrets.probe) is ReadRequest,
        child::after_message(facts, secrets, secrets.abort) == (ChildStep::Fail {
            stage: PreExecStage::GateAborted,
            errno: 0,
        }),
        prepare::ending(reported(PreExecStage::GateAborted.tag(), 0), reaped) == (
        ExitOutcome::PreExecFailure { stage: PreExecStage::GateAborted, errno: 0 }),
{
    law_every_failure_is_named(PreExecStage::GateAborted, 0);
}

/// A probe is answered by the kernel and by nothing else: whatever a request that
/// was sent came to in the child arrives at the supervisor as that answer.
pub proof fn law_a_probe_is_answered_by_the_kernel(
    op: ProbeOp,
    room: usize,
    outcome: CallOutcome,
    platform: Platform,
)
    requires
        probe::encoded(op, platform) is Ok,
    ensures
        ({
            let call = probe::call_for(
                probe::decoded(probe::encoded(op, platform)->Ok_0),
                room,
                platform,
            );
            let (tag, errno) = probe::reply_of(call, outcome, platform);
            let arrived = reported(tag, errno);
            &&& arrived == Ok::<Option<(u8, i32)>, i32>(Some((tag, errno)))
            &&& probe::reply_meaning(tag, errno) matches Some(meant) && {
                &&& meant is Refused ==> outcome == CallOutcome::Returned(
                    Err(meant->Refused_errno),
                )
                &&& outcome is SetupFailed ==> meant is Indeterminate
                &&& !(call is Reply) && outcome == CallOutcome::Returned(Ok(())) ==> meant
                    is Permitted
            }
        }),
{
    let probed = probe::decoded(probe::encoded(op, platform)->Ok_0);
    let (tag, errno) = probe::reply_of(
        probe::call_for(probed, room, platform),
        outcome,
        platform,
    );
    record::law_records_round_trip(tag, errno);
    probe::law_only_the_kernel_refuses(probed, room, outcome, platform);
}

/// The operation a child attempts is the operation that was asked for: no record
/// that was sent is malformed, and a socket operation carries its own address.
pub proof fn law_what_was_asked_is_what_is_attempted(op: ProbeOp, room: usize, platform: Platform)
    requires
        probe::encoded(op, platform) is Ok,
    ensures
        ({
            let call = probe::call_for(
                probe::decoded(probe::encoded(op, platform)->Ok_0),
                room,
                platform,
            );
            match op {
                ProbeOp::OpenPath { path, mode } => call == probe::path_call(
                    mode,
                    path@.len() as usize,
                    room,
                    platform,
                ),
                ProbeOp::Connect { protocol, addr } => call == (probe::ProbeCall::SocketConnect {
                    protocol,
                    addr,
                }),
                ProbeOp::Bind { protocol, addr } => call == (probe::ProbeCall::SocketBind {
                    protocol,
                    addr,
                }),
                ProbeOp::Execute { .. } => false,
            }
        }),
{
    match op {
        ProbeOp::OpenPath { path, mode } => probe::law_a_path_request_round_trips(
            path,
            mode,
            platform,
        ),
        ProbeOp::Connect { protocol, addr } => probe::law_a_socket_request_round_trips(
            protocol,
            addr,
            platform,
        ),
        ProbeOp::Bind { protocol, addr } => probe::law_a_socket_request_round_trips(
            protocol,
            addr,
            platform,
        ),
        ProbeOp::Execute { .. } => {},
    }
}

} // verus!
