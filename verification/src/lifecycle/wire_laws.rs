//! What holds of what is said over a descriptor: the requests and replies of a
//! probe, the frames of a conversation, and how long either side waits.

use vstd::prelude::*;
use crate::capability_modes::FsMode;
use crate::errno;
use crate::time::Nanos;
use super::detached;
use super::detached::DetachedError;
use super::frame;
use super::frame::{FrameError, FrameStep};
use super::probe;
use super::probe::{
    CallOutcome, ChildProbe, EnforcementMechanism, Platform, ProbeAddr, ProbeCall, ProbeId,
    ProbeIndeterminate, ProbeOp, ProbeOutcome, TransportProtocol,
};
use super::protocol::{ControlRefusal, ControlReply};
use super::record::Moved;
use super::session::SessionId;

verus! {

/// The error numbers that differ between platforms are those of the platform:
/// Linux has its own, and the others share theirs.
pub proof fn law_error_numbers_are_the_platforms(platform: Platform)
    ensures
        errno::try_again_on(platform) == (if platform is Linux {
            11i32
        } else {
            35
        }),
        errno::name_too_long_on(platform) == (if platform is Linux {
            36i32
        } else {
            63
        }),
        errno::not_implemented_on(platform) == (if platform is Linux {
            38i32
        } else {
            78
        }),
        errno::in_progress_on(platform) == (if platform is Linux {
            115i32
        } else {
            36
        }),
{
}

/// Each operation on a path is attempted by the call that performs it: reading by
/// opening for reading, listing by opening a directory, writing by opening for
/// writing and in no other way than was asked, and the rest by their own calls.
pub proof fn law_each_mode_is_attempted_by_its_own_call(
    mode: FsMode,
    path_len: usize,
    room: usize,
    platform: Platform,
)
    ensures
        ({
            let call = probe::path_call(mode, path_len, room, platform);
            &&& call is Open <==> mode is ReadContents || mode is ReadDir || mode is Write
                || mode is Append || mode is Truncate
            &&& call matches ProbeCall::Open { write, directory, append, truncate } ==> {
                &&& write <==> mode is Write || mode is Append || mode is Truncate
                &&& directory <==> mode is ReadDir
                &&& append <==> mode is Append
                &&& truncate <==> mode is Truncate
            }
            &&& call is Stat <==> mode is ReadMetadata
            &&& call is CreateNew <==> mode is Create
            &&& call is Unlink <==> mode is RemoveFile
            &&& call is Rmdir <==> mode is RemoveDir
            &&& call is RenameOntoItself <==> mode is Rename
            &&& call is UnixConnect <==> mode is UnixSocketConnect && path_len < room
            &&& mode is UnixSocketConnect && path_len >= room ==> call == (ProbeCall::Reply {
                tag: probe::TAG_PROBE_COULD_NOT_RUN,
                errno: errno::name_too_long_on(platform),
            })
            &&& mode is Execute || mode is AtomicWrite ==> call == (ProbeCall::Reply {
                tag: probe::TAG_PROBE_COULD_NOT_RUN,
                errno: 22,
            })
        }),
{
}

/// A record that names nothing the child can attempt is answered, not acted on.
pub proof fn law_a_malformed_request_is_not_acted_on(
    wire: Seq<u8>,
    room: usize,
    platform: Platform,
)
    ensures
        probe::call_for(ChildProbe::Malformed, room, platform) == (ProbeCall::Reply {
            tag: probe::TAG_PROBE_COULD_NOT_RUN,
            errno: 22,
        }),
        wire.len() != probe::PROBE_REQUEST_BYTES ==> probe::decoded(wire) is Malformed,
        wire.len() == probe::PROBE_REQUEST_BYTES ==> (probe::decoded(wire) is Malformed <==> !{
            ||| wire[0] == 1u8 && 1 <= wire[1] <= 11
            ||| (wire[0] == 2u8 || wire[0] == 3u8) && (wire[1] == 1u8 || wire[1] == 2u8) && (wire[4]
                == 4u8 || wire[4] == 6u8)
        }),
{
}

/// What a request asks for is where it stands in the record: the operation first,
/// then what it is about, then the port least significant byte first, the family
/// and the address.
pub proof fn law_a_request_is_laid_out(
    protocol: TransportProtocol,
    addr: ProbeAddr,
    platform: Platform,
)
    ensures
        ({
            let connect = probe::encoded(ProbeOp::Connect { protocol, addr }, platform);
            let bind = probe::encoded(ProbeOp::Bind { protocol, addr }, platform);
            let kind = if protocol is Tcp {
                1u8
            } else {
                2u8
            };
            &&& connect is Ok && bind is Ok
            &&& connect->Ok_0.len() == probe::PROBE_REQUEST_BYTES
            &&& connect->Ok_0[0] == 2u8 && bind->Ok_0[0] == 3u8
            &&& connect->Ok_0[1] == kind && bind->Ok_0[1] == kind
            &&& connect->Ok_0.skip(1) == bind->Ok_0.skip(1)
            &&& match addr {
                ProbeAddr::V4 { octets, port } => {
                    &&& connect->Ok_0[2] + 256 * connect->Ok_0[3] == port
                    &&& connect->Ok_0[4] == 4u8
                    &&& forall|i: int| 0 <= i < 4 ==> connect->Ok_0[5 + i] == #[trigger] octets@[i]
                },
                ProbeAddr::V6 { octets, port } => {
                    &&& connect->Ok_0[2] + 256 * connect->Ok_0[3] == port
                    &&& connect->Ok_0[4] == 6u8
                    &&& forall|i: int| 0 <= i < 16 ==> connect->Ok_0[5 + i] == #[trigger] octets@[i]
                },
            }
        }),
{
    let connect = probe::encoded(ProbeOp::Connect { protocol, addr }, platform)->Ok_0;
    let bind = probe::encoded(ProbeOp::Bind { protocol, addr }, platform)->Ok_0;
    assert(connect.skip(1) =~= bind.skip(1));
}

/// A path is sent where it can be: an operation that has a tag, on a path without
/// a NUL that leaves room for one. What cannot be sent says which it was.
pub proof fn law_what_can_be_sent_of_a_path(path: crate::path::PathBytes, mode: FsMode, platform: Platform)
    ensures
        ({
            let sent = probe::encoded(ProbeOp::OpenPath { path, mode }, platform);
            let sayable = !(mode is Execute) && !(mode is AtomicWrite) && !path@.contains(0u8);
            &&& sent is Ok <==> sayable && path@.len() < probe::PROBE_PATH_BYTES
            &&& sent == Err::<Seq<u8>, i32>(22) <==> !sayable
            &&& sent is Err && sayable ==> sent == Err::<Seq<u8>, i32>(
                errno::name_too_long_on(platform),
            )
            &&& sent is Ok ==> sent->Ok_0[0] == 1u8 && 1 <= sent->Ok_0[1] <= 11
        }),
{
    assert(crate::path::holds_nul(path@) <==> path@.contains(0u8)) by {
        if path@.contains(0u8) {
            let i = choose|i: int| 0 <= i < path@.len() && path@[i] == 0u8;
            assert(path@[i] == 0u8);
        }
    }
}

/// What no probe can find out is settled without one: an execution has no probe
/// in scope, an atomic write is no operation of its own, and Landlock has no say
/// over metadata. Everything else is asked of the child.
pub proof fn law_what_is_settled_before_asking(op: ProbeOp, platform: Platform)
    ensures
        match op {
            ProbeOp::Execute { .. } => probe::settled(op, platform) == Some(
                ProbeIndeterminate::PlatformHasNoInScopeProbe,
            ),
            ProbeOp::OpenPath { mode, .. } => {
                &&& probe::settled(op, platform) == Some(
                    ProbeIndeterminate::PlatformHasNoInScopeProbe,
                ) <==> mode is Execute || mode is AtomicWrite
                &&& probe::settled(op, platform) == Some(
                    ProbeIndeterminate::MechanismCannotExpress {
                        mechanism: EnforcementMechanism::Landlock,
                    },
                ) <==> mode is ReadMetadata && platform is Linux
                &&& probe::settled(op, platform) is None <==> !(mode is Execute)
                    && !(mode is AtomicWrite) && !(mode is ReadMetadata && platform is Linux)
            },
            _ => probe::settled(op, platform) is None,
        },
        probe::mechanism_on(platform) == (match platform {
            Platform::Linux => Some(EnforcementMechanism::Landlock),
            Platform::MacOs => Some(EnforcementMechanism::Seatbelt),
            Platform::Other => None,
        }),
{
}

/// What the kernel said of a call is what a probe reports: a success, or a
/// connection under way, is permitted; a permission number is a refusal; every
/// other number, and a call that could not be made, establishes nothing.
pub proof fn law_a_probe_reports_what_the_kernel_said(
    call: ProbeCall,
    errno: i32,
    platform: Platform,
)
    requires
        !(call is Reply),
    ensures
        ({
            let said = |outcome: CallOutcome| probe::reply_of(call, outcome, platform);
            let meant = |outcome: CallOutcome|
                probe::reply_meaning(said(outcome).0, said(outcome).1);
            let nothing = Some(
                ProbeOutcome::Indeterminate {
                    reason: ProbeIndeterminate::ProbeCouldNotRun { errno },
                },
            );
            let under_way = (call is UnixConnect || call is SocketConnect) && errno
                == errno::in_progress_on(platform);
            &&& meant(CallOutcome::Returned(Ok(()))) == Some(ProbeOutcome::Permitted)
            &&& meant(CallOutcome::SetupFailed(errno)) == nothing
            &&& meant(CallOutcome::Returned(Err(errno))) == (if under_way {
                Some(ProbeOutcome::Permitted)
            } else if errno == 1 || errno == 13 {
                Some(ProbeOutcome::Refused { errno })
            } else {
                nothing
            })
        }),
{
}

/// A reply is one of three, told apart by its tag, and a record of any other tag
/// is none.
pub proof fn law_a_reply_is_told_by_its_tag(tag: u8, errno: i32)
    ensures
        probe::reply_meaning(tag, errno) == (match tag {
            0x02 => Some(ProbeOutcome::Permitted),
            0x03 => Some(ProbeOutcome::Refused { errno }),
            0x04 => Some(
                ProbeOutcome::Indeterminate {
                    reason: ProbeIndeterminate::ProbeCouldNotRun { errno },
                },
            ),
            _ => None,
        }),
{
}

/// An observation is of the child itself, at the instant that was read, and
/// claims no record of a denial.
pub proof fn law_an_observation_claims_no_denial(
    id: ProbeId,
    outcome: ProbeOutcome,
    mechanism: EnforcementMechanism,
    now: crate::time::Timestamp,
)
    ensures
        ({
            let seen = probe::observed(id, outcome, mechanism, now);
            &&& !seen.denial_observed
            &&& seen.scope is InstalledChild
            &&& seen.id == id && seen.outcome == outcome && seen.mechanism == mechanism
            &&& seen.observed_at == now
        }),
{
}

/// A frame is the length of its body in four bytes, least significant first, and
/// then the body.
pub proof fn law_a_frame_announces_its_body(body: Seq<u8>)
    requires
        body.len() <= u32::MAX,
    ensures
        ({
            let framed = frame::frame_of(body);
            &&& framed.len() == body.len() + 4
            &&& framed[0] + 256 * framed[1] + 65536 * framed[2] + 16777216 * framed[3] == body.len()
            &&& framed.skip(4) == body
        }),
{
    super::outcome_laws::law_bytes_are_digits(body.len() as u32);
    assert(frame::frame_of(body).skip(4) =~= body);
}

/// A prefix is believed up to the bound, and beyond it is refused with the size
/// that it claimed.
pub proof fn law_a_prefix_is_believed_up_to_the_bound(prefix: Seq<u8>)
    requires
        prefix.len() == 4,
    ensures
        ({
            let size = prefix[0] + 256 * prefix[1] + 65536 * prefix[2] + 16777216 * prefix[3];
            frame::announced(prefix) == (if size <= 69632 {
                Ok::<int, FrameError>(size)
            } else {
                Err::<int, FrameError>(FrameError::TooLarge { size: size as u64, limit: 69632 })
            })
        }),
{
}

/// A transfer goes on by what moved and is done when all of it has. An
/// interruption and a socket that is not ready cost nothing; a peer that is gone
/// is a close; every other failure keeps its number.
pub proof fn law_a_frame_moves_by_what_moved(
    done: usize,
    wanted: usize,
    count: usize,
    number: i32,
    platform: Platform,
)
    requires
        done < wanted,
        count <= wanted - done,
    ensures
        ({
            let moved = if count == 0 {
                FrameStep::Failed(FrameError::Closed)
            } else if done + count == wanted {
                FrameStep::Done
            } else {
                FrameStep::Continue((done + count) as usize)
            };
            let again = number == 4 || number == errno::try_again_on(platform);
            &&& frame::read_step(done, wanted, Moved::Count(count), platform) == moved
            &&& frame::write_step(done, wanted, Moved::Count(count), platform) == moved
            &&& frame::read_step(done, wanted, Moved::Failed(number), platform) == (if again {
                FrameStep::Continue(done)
            } else {
                FrameStep::Failed(FrameError::Io { errno: number })
            })
            &&& frame::write_step(done, wanted, Moved::Failed(number), platform) == (if number
                == 32 {
                FrameStep::Failed(FrameError::Closed)
            } else if again {
                FrameStep::Continue(done)
            } else {
                FrameStep::Failed(FrameError::Io { errno: number })
            })
        }),
{
}

/// A wait lasts for the whole milliseconds that are left, for one where less than
/// one is left, and never past what `poll` can be given.
pub proof fn law_a_wait_lasts_for_what_is_left(now: Nanos, deadline: Nanos)
    ensures
        now.0 >= deadline.0 <==> frame::millis_left(now, deadline) is None,
        frame::millis_left(now, deadline) matches Some(millis) ==> {
            let left = deadline.0 - now.0;
            &&& 1 <= millis <= 0x7FFF_FFFF
            &&& millis > 1 ==> millis * 1_000_000 <= left
            &&& millis < 0x7FFF_FFFF ==> left < (millis + 1) * 1_000_000
        },
{
    if deadline.0 > now.0 {
        let left = deadline.0 - now.0;
        assert(left == (left / 1_000_000) * 1_000_000 + left % 1_000_000) by (nonlinear_arith);
    }
}

/// One slice of a long wait is what is left, up to thirty seconds.
pub proof fn law_a_slice_is_what_is_left(now: Nanos, deadline: Nanos)
    ensures
        ({
            let slice = detached::slice_of(now, deadline);
            &&& now.0 >= deadline.0 ==> slice == 0
            &&& now.0 < deadline.0 && deadline.0 - now.0 <= 30_000_000_000 ==> slice
                == deadline.0 - now.0
            &&& now.0 < deadline.0 && deadline.0 - now.0 > 30_000_000_000 ==> slice
                == 30_000_000_000
        }),
{
}

/// A hello that disagrees is refused for the first of its version, its session
/// and its generation that does, with what was expected and what was said.
pub proof fn law_a_hello_is_refused_for_what_differs(
    session_id: SessionId,
    generation: u64,
    version: u32,
    theirs: SessionId,
    their_generation: u64,
)
    ensures
        ({
            let refusal = detached::hello_refusal(
                session_id,
                generation,
                version,
                theirs,
                their_generation,
            );
            &&& refusal is None <==> version == 2 && theirs == session_id && their_generation
                == generation
            &&& version != 2 ==> refusal == Some(
                ControlRefusal::ProtocolVersion { expected: 2, supplied: version },
            )
            &&& version == 2 && theirs != session_id ==> refusal == Some(
                ControlRefusal::WrongSession { expected: session_id, supplied: theirs },
            )
            &&& version == 2 && theirs == session_id && their_generation != generation ==> refusal
                == Some(
                ControlRefusal::WrongGeneration {
                    expected: generation,
                    supplied: their_generation,
                },
            )
        }),
{
}

/// A reply is taken as it came: a refusal is an error that carries it, a broken
/// conversation is an error of its own, and every other reply is handed on.
pub proof fn law_a_reply_is_taken_as_it_came(reply: Result<ControlReply, FrameError>)
    ensures
        match reply {
            Err(err) => detached::answer(reply) == Err::<ControlReply, DetachedError>(
                DetachedError::Frame(err),
            ),
            Ok(ControlReply::Refused { refusal }) => detached::answer(reply) == Err::<
                ControlReply,
                DetachedError,
            >(DetachedError::Refused(refusal)),
            Ok(said) => detached::answer(reply) == Ok::<ControlReply, DetachedError>(said),
        },
{
}

} // verus!
