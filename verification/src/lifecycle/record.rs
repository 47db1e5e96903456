//! The fixed-size records a child writes to its status descriptor.

use vstd::prelude::*;
use crate::bytes;
use crate::bytes::{from_le, to_le};
use crate::errno::EINTR;
use super::exit;
use super::exit::{
    ExitOutcome, PreExecStage, STATUS_RECORD_LEN, TAG_GATE_READY, TAG_NOTIFY_FD,
};

verus! {

/// A record: a tag and an error number.
pub open spec fn record_bytes(tag: u8, errno: i32) -> Seq<u8> {
    seq![tag] + bytes::le_bytes(errno as u32)
}

/// What the bytes read before the descriptor's end say: nothing was written, a
/// record was cut short and names no stage that can be trusted, or a record.
pub open spec fn record_in(read: Seq<u8>) -> Option<(u8, i32)> {
    if read.len() == 0 {
        None
    } else if read.len() < STATUS_RECORD_LEN {
        Some((PreExecStage::Unknown.tag(), 0))
    } else {
        Some((read[0], bytes::le_value(read[1], read[2], read[3], read[4]) as i32))
    }
}

/// One status record. Fixed size, so that the child needs no allocator.
pub fn encode_record(tag: u8, errno: i32) -> (record: [u8; STATUS_RECORD_LEN])
    ensures
        record@ == record_bytes(tag, errno),
{
    let number = to_le(errno as u32);
    let record: [u8; STATUS_RECORD_LEN] = [tag, number[0], number[1], number[2], number[3]];
    assert(record@ =~= record_bytes(tag, errno));
    record
}

/// Read what arrived on the status descriptor before its end or before a whole
/// record was there.
pub fn read_status_record(read: &[u8]) -> (record: Option<(u8, i32)>)
    ensures
        record == record_in(read@),
{
    if read.len() == 0 {
        return None;
    }
    if read.len() < STATUS_RECORD_LEN {
        return Some((PreExecStage::Unknown.as_tag(), 0));
    }
    Some((read[0], from_le(read[1], read[2], read[3], read[4]) as i32))
}

/// A record reads back as what was written.
pub proof fn law_records_round_trip(tag: u8, errno: i32)
    ensures
        record_in(record_bytes(tag, errno)) == Some((tag, errno)),
        record_bytes(tag, errno).len() == STATUS_RECORD_LEN,
{
    let written = record_bytes(tag, errno);
    bytes::law_bytes_round_trip(errno as u32);
    assert(written.skip(1) =~= bytes::le_bytes(errno as u32));
    assert(written[1] == written.skip(1)[0]);
    assert(written[2] == written.skip(1)[1]);
    assert(written[3] == written.skip(1)[2]);
    assert(written[4] == written.skip(1)[3]);
    assert((errno as u32) as i32 == errno) by (bit_vector);
}

/// A record that was cut short decodes to a failure of an unknown stage, never
/// to nothing.
pub proof fn law_a_cut_record_is_a_failure(read: Seq<u8>)
    requires
        0 < read.len() < STATUS_RECORD_LEN,
    ensures
        record_in(read) matches Some((tag, _)) && exit::stage_of(tag) is Unknown,
{
    exit::law_stages_round_trip(PreExecStage::Unknown);
}

/// What one read or write answered: how many bytes moved, or an error number.
#[derive(Debug, Clone, Copy, PartialEq, Eq, Structural)]
pub enum Moved {
    /// This many bytes moved. None means the far end is gone.
    Count(usize),
    /// The call failed with this error number.
    Failed(i32),
}

/// What to do after one read or write of a fixed-size buffer.
#[derive(Debug, Clone, Copy, PartialEq, Eq, Structural)]
pub enum Transfer {
    /// Go on from this offset.
    Continue(usize),
    /// The whole buffer moved.
    Done,
    /// The far end is gone with the buffer incomplete.
    Closed,
    /// The call failed with this error number.
    Failed(i32),
}

/// How a transfer of `wanted` bytes stands after `moved` beyond the first
/// `done`. An interruption moved nothing and is no failure.
pub open spec fn transfer_after(done: usize, wanted: usize, moved: Moved) -> Transfer {
    match moved {
        Moved::Count(count) => if count == 0 {
            Transfer::Closed
        } else if done + count >= wanted {
            Transfer::Done
        } else {
            Transfer::Continue((done + count) as usize)
        },
        Moved::Failed(errno) => if errno == EINTR {
            Transfer::Continue(done)
        } else {
            Transfer::Failed(errno)
        },
    }
}

/// Judge one read or write of a fixed-size buffer.
pub fn advance(done: usize, wanted: usize, moved: Moved) -> (next: Transfer)
    requires
        done < wanted,
    ensures
        next == transfer_after(done, wanted, moved),
{
    match moved {
        Moved::Count(count) => if count == 0 {
            Transfer::Closed
        } else if count >= wanted - done {
            Transfer::Done
        } else {
            Transfer::Continue(done + count)
        },
        Moved::Failed(errno) => if errno == EINTR {
            Transfer::Continue(done)
        } else {
            Transfer::Failed(errno)
        },
    }
}

/// Decide what the first thing on the status descriptor means for a
/// preparation. An end with nothing read means that the child died before it
/// could say why.
pub fn classify_prepare_record(record: Result<Option<(u8, i32)>, i32>) -> (verdict: Result<
    (),
    (PreExecStage, i32),
>)
    ensures
        verdict == prepare_verdict(record),
{
    match record {
        Ok(Some((tag, errno))) => if tag == TAG_GATE_READY {
            Ok(())
        } else {
            Err((PreExecStage::from_tag(tag), errno))
        },
        Ok(None) => Err((PreExecStage::Unknown, 0)),
        Err(errno) => Err((PreExecStage::Unknown, errno)),
    }
}

/// What a record read during a preparation means: only the ready marker is a
/// success.
pub open spec fn prepare_verdict(record: Result<Option<(u8, i32)>, i32>) -> Result<
    (),
    (PreExecStage, i32),
> {
    match record {
        Ok(Some((tag, errno))) => if tag == TAG_GATE_READY {
            Ok(())
        } else {
            Err((exit::stage_of(tag), errno))
        },
        Ok(None) => Err((PreExecStage::Unknown, 0i32)),
        Err(errno) => Err((PreExecStage::Unknown, errno)),
    }
}

/// The listener that a record hands over, where it hands one over.
pub fn listener_in(record: Result<Option<(u8, i32)>, i32>) -> (listener: Option<i32>)
    ensures
        listener == (match record {
            Ok(Some((tag, raw))) => if tag == TAG_NOTIFY_FD {
                Some(raw)
            } else {
                None::<i32>
            },
            _ => None::<i32>,
        }),
        listener is Some <==> (record matches Ok(Some((tag, _))) && tag == 5),
        listener matches Some(fd) ==> record == Ok::<Option<(u8, i32)>, i32>(Some((5u8, fd))),
{
    match record {
        Ok(Some((tag, raw))) => if tag == TAG_NOTIFY_FD {
            Some(raw)
        } else {
            None
        },
        _ => None,
    }
}

/// What a stage reported during a preparation is, as an outcome. Two stages mean
/// that the confinement was never established.
pub open spec fn outcome_of(stage: PreExecStage, errno: i32) -> ExitOutcome {
    if stage is SandboxApply || stage is NetworkFilter {
        ExitOutcome::SandboxApplicationFailure { stage, errno }
    } else {
        ExitOutcome::PreExecFailure { stage, errno }
    }
}

/// What a stage reported during a preparation is, as an outcome.
pub fn prepare_outcome(stage: PreExecStage, errno: i32) -> (outcome: ExitOutcome)
    ensures
        outcome == outcome_of(stage, errno),
{
    match stage {
        PreExecStage::SandboxApply | PreExecStage::NetworkFilter =>
            ExitOutcome::SandboxApplicationFailure { stage, errno },
        _ => ExitOutcome::PreExecFailure { stage, errno },
    }
}

/// The ending that an aborted child left behind, where it left a record.
pub open spec fn ending_in(record: Result<Option<(u8, i32)>, i32>) -> Option<ExitOutcome> {
    match record {
        Ok(Some((tag, errno))) => Some(
            ExitOutcome::PreExecFailure { stage: exit::stage_of(tag), errno },
        ),
        _ => None,
    }
}

/// Read the record an aborted child leaves behind, if it left one.
pub fn observe_gate_ending(record: Result<Option<(u8, i32)>, i32>) -> (ending: Option<ExitOutcome>)
    ensures
        ending == ending_in(record),
{
    match record {
        Ok(Some((tag, errno))) => Some(
            ExitOutcome::PreExecFailure { stage: PreExecStage::from_tag(tag), errno },
        ),
        _ => None,
    }
}

} // verus!
