//! How control messages are framed: a length, least significant byte first, and
//! then that many bytes. The length is checked before a byte of the body is read.

use vstd::prelude::*;
use vstd::string::StringExecFns;
use crate::bytes;
use crate::bytes::{from_le, to_le};
use crate::errno;
use crate::errno::{try_again, EINTR, EPIPE};
use crate::text;
use crate::text::{push_decimal, push_signed};
use crate::time::{Nanos, NANOS_PER_MILLI};
use super::probe::{Platform, PROBE_PATH_BYTES};
use super::record::Moved;

verus! {

/// Largest session record, in bytes.
pub const MAX_RECORD_BYTES: usize = 65536;

/// Headroom the frame bound keeps over the record bound, in bytes.
pub const CONTROL_ENVELOPE_ALLOWANCE: usize = 4096;

/// Largest control frame either side will send or read, in bytes.
pub const MAX_CONTROL_FRAME_BYTES: usize = 69632;

/// Bytes of length prefix in front of every frame.
pub const LENGTH_PREFIX_BYTES: usize = 4;

/// Bytes JSON needs for one byte it has to escape.
pub const WORST_CASE_JSON_ESCAPE: usize = 6;

/// A record at its bound fits a frame with room for its envelope, and so does
/// the longest path a probe can name, even if every byte has to be escaped.
pub proof fn law_the_bounds_leave_room()
    ensures
        MAX_CONTROL_FRAME_BYTES == MAX_RECORD_BYTES + CONTROL_ENVELOPE_ALLOWANCE,
        MAX_CONTROL_FRAME_BYTES > MAX_RECORD_BYTES,
        CONTROL_ENVELOPE_ALLOWANCE >= 1024,
        PROBE_PATH_BYTES * WORST_CASE_JSON_ESCAPE + CONTROL_ENVELOPE_ALLOWANCE
            < MAX_CONTROL_FRAME_BYTES,
{
}

/// Everything framing itself can refuse.
#[derive(Debug, PartialEq, Eq)]
pub enum FrameError {
    /// The socket read or write failed.
    Io {
        /// Platform error number.
        errno: i32,
    },
    /// The deadline passed with the frame incomplete.
    Timeout,
    /// The peer closed the connection.
    Closed,
    /// A frame larger than the bound was announced, or would have been.
    TooLarge {
        /// The size claimed.
        size: u64,
        /// The bound.
        limit: usize,
    },
    /// The frame's body was not a message this protocol has.
    Malformed {
        /// What was wrong with it.
        why: String,
    },
}

impl Clone for FrameError {
    fn clone(&self) -> (copy: Self)
        ensures
            copy == *self,
    {
        match self {
            FrameError::Io { errno } => FrameError::Io { errno: *errno },
            FrameError::Timeout => FrameError::Timeout,
            FrameError::Closed => FrameError::Closed,
            FrameError::TooLarge { size, limit } => FrameError::TooLarge {
                size: *size,
                limit: *limit,
            },
            FrameError::Malformed { why } => FrameError::Malformed { why: why.clone() },
        }
    }
}

impl FrameError {
    /// The text of an error.
    pub open spec fn text(self) -> Seq<char> {
        match self {
            FrameError::Io { errno } => "control socket i/o failed: errno "@
                + text::signed_decimal(errno as int),
            FrameError::Timeout => "control frame did not complete before its deadline"@,
            FrameError::Closed => "the control connection was closed by the peer"@,
            FrameError::TooLarge { size, limit } => "control frame announced "@ + text::decimal(
                size as nat,
            ) + " bytes (max "@ + text::decimal(limit as nat) + ")"@,
            FrameError::Malformed { why } => "control frame could not be understood: "@ + why@,
        }
    }

    /// The error as a sentence.
    pub fn to_text(&self) -> (text: String)
        ensures
            text@ == self.text(),
    {
        match self {
            FrameError::Io { errno } => {
                let mut text = "control socket i/o failed: errno ".to_string();
                push_signed(&mut text, *errno as i64);
                text
            },
            FrameError::Timeout => "control frame did not complete before its deadline".to_string(),
            FrameError::Closed => "the control connection was closed by the peer".to_string(),
            FrameError::TooLarge { size, limit } => {
                let mut text = "control frame announced ".to_string();
                push_decimal(&mut text, *size);
                text.append(" bytes (max ");
                push_decimal(&mut text, *limit as u64);
                text.append(")");
                text
            },
            FrameError::Malformed { why } => {
                let mut text = "control frame could not be understood: ".to_string();
                text.append(why.as_str());
                text
            },
        }
    }

    /// Whether this failure can be reported back to the peer at all: an oversize
    /// or malformed frame leaves the connection usable for one more write.
    #[must_use]
    pub fn is_reportable(&self) -> (reportable: bool)
        ensures
            reportable == (self is TooLarge || self is Malformed),
    {
        matches!(self, FrameError::TooLarge { .. } | FrameError::Malformed { .. })
    }
}

/// Calls `zeroize::Zeroize::zeroize` on a vector of bytes, which overwrites its
/// bytes and empties it.
#[verifier::external_body]
fn wipe_all(bytes: &mut Vec<u8>)
    ensures
        final(bytes)@.len() == 0,
    opens_invariants none
    no_unwind
{
    zeroize::Zeroize::zeroize(bytes);
}

/// Bytes that may hold an activation token. Wiped on drop.
pub struct SecretBytes {
    bytes: Vec<u8>,
}

impl View for SecretBytes {
    type V = Seq<u8>;

    closed spec fn view(&self) -> Seq<u8> {
        self.bytes@
    }
}

impl Drop for SecretBytes {
    fn drop(&mut self)
        ensures
            final(self)@.len() == 0,
        opens_invariants none
        no_unwind
    {
        wipe_all(&mut self.bytes);
    }
}

impl SecretBytes {
    /// Take charge of `bytes`.
    pub fn new(bytes: Vec<u8>) -> (secret: Self)
        ensures
            secret@ == bytes@,
    {
        SecretBytes { bytes }
    }

    /// The bytes.
    pub fn as_slice(&self) -> (bytes: &[u8])
        ensures
            bytes@ == self@,
    {
        self.bytes.as_slice()
    }
}

/// A frame around a body.
pub open spec fn frame_of(body: Seq<u8>) -> Seq<u8> {
    bytes::le_bytes(body.len() as u32) + body
}

/// Frame an encoded message, or say why it cannot be sent. Nothing of a frame
/// that is refused exists to be written.
pub fn write_frame(encoded: Result<SecretBytes, String>) -> (frame: Result<SecretBytes, FrameError>)
    ensures
        match encoded {
            Err(err) => frame matches Err(FrameError::Malformed { why }) && why@
                == "value could not be encoded: "@ + err@,
            Ok(body) => if body@.len() > MAX_CONTROL_FRAME_BYTES {
                frame matches Err(FrameError::TooLarge { size, limit }) && size == body@.len()
                    && limit == MAX_CONTROL_FRAME_BYTES
            } else {
                frame matches Ok(frame) && frame@ == frame_of(body@)
            },
        },
{
    let body = match encoded {
        Ok(body) => body,
        Err(err) => {
            let mut why = "value could not be encoded: ".to_string();
            why.append(err.as_str());
            return Err(FrameError::Malformed { why });
        },
    };
    let content = body.as_slice();
    if content.len() > MAX_CONTROL_FRAME_BYTES {
        return Err(
            FrameError::TooLarge { size: content.len() as u64, limit: MAX_CONTROL_FRAME_BYTES },
        );
    }
    let mut frame: Vec<u8> = Vec::new();
    frame.extend_from_slice(to_le(content.len() as u32).as_slice());
    frame.extend_from_slice(content);
    assert(frame@ =~= frame_of(body@));
    Ok(SecretBytes::new(frame))
}

/// The body length that a prefix announces, where it is within the bound.
pub open spec fn announced(prefix: Seq<u8>) -> Result<int, FrameError> {
    let size = bytes::le_value(prefix[0], prefix[1], prefix[2], prefix[3]);
    if size > MAX_CONTROL_FRAME_BYTES {
        Err(FrameError::TooLarge { size: size as u64, limit: MAX_CONTROL_FRAME_BYTES })
    } else {
        Ok(size as int)
    }
}

/// The body length that a prefix announces. Refused from the prefix alone: no
/// byte of an oversize body is read, and nothing is allocated for it.
pub fn read_prefix(prefix: &[u8; LENGTH_PREFIX_BYTES]) -> (length: Result<usize, FrameError>)
    ensures
        match length {
            Ok(length) => announced(prefix@) == Ok::<int, FrameError>(length as int) && length
                <= MAX_CONTROL_FRAME_BYTES,
            Err(err) => announced(prefix@) == Err::<int, FrameError>(err),
        },
{
    let size: u32 = from_le(prefix[0], prefix[1], prefix[2], prefix[3]);
    if size > MAX_CONTROL_FRAME_BYTES as u32 {
        return Err(FrameError::TooLarge { size: size as u64, limit: MAX_CONTROL_FRAME_BYTES });
    }
    Ok(size as usize)
}

/// The refusal for a body that is no message.
pub fn malformed_body(why: String) -> (error: FrameError)
    ensures
        error == (FrameError::Malformed { why }),
{
    FrameError::Malformed { why }
}

/// The bodies in a stream of frames, up to the first that is cut short or too
/// large.
pub open spec fn bodies_in(stream: Seq<u8>) -> Seq<Seq<u8>>
    decreases stream.len(),
{
    if stream.len() < LENGTH_PREFIX_BYTES {
        Seq::empty()
    } else {
        match announced(stream.take(4)) {
            Err(_) => Seq::empty(),
            Ok(length) => if length < 0 || stream.len() < 4 + length {
                Seq::empty()
            } else {
                seq![stream.subrange(4, 4 + length)] + bodies_in(stream.skip(4 + length))
            },
        }
    }
}

/// The frames of `bodies`, one after another.
pub open spec fn frames_of(bodies: Seq<Seq<u8>>) -> Seq<u8>
    decreases bodies.len(),
{
    if bodies.len() == 0 {
        Seq::empty()
    } else {
        frame_of(bodies[0]) + frames_of(bodies.skip(1))
    }
}

/// A stream of frames reads back as the bodies that were written, in order and
/// with nothing between them lost.
pub proof fn law_frames_read_back(bodies: Seq<Seq<u8>>)
    requires
        forall|i: int|
            0 <= i < bodies.len() ==> (#[trigger] bodies[i]).len() <= MAX_CONTROL_FRAME_BYTES,
    ensures
        bodies_in(frames_of(bodies)) == bodies,
    decreases bodies.len(),
{
    if bodies.len() > 0 {
        let body = bodies[0];
        let rest = bodies.skip(1);
        let stream = frames_of(bodies);
        assert(stream == frame_of(body) + frames_of(rest));
        bytes::law_bytes_round_trip(body.len() as u32);
        assert(stream.take(4) =~= bytes::le_bytes(body.len() as u32));
        assert(stream.subrange(4, 4 + body.len() as int) =~= body);
        assert(stream.skip(4 + body.len() as int) =~= frames_of(rest));
        assert forall|i: int| 0 <= i < rest.len() implies (#[trigger] rest[i]).len()
            <= MAX_CONTROL_FRAME_BYTES by {
            assert(rest[i] == bodies[i + 1]);
        }
        law_frames_read_back(rest);
        assert(seq![body] + rest =~= bodies);
    } else {
        assert(bodies =~= Seq::empty());
    }
}

/// What to do after one read or write on a control socket.
#[derive(Debug, PartialEq, Eq)]
pub enum FrameStep {
    /// Wait, and go on from this offset.
    Continue(usize),
    /// The whole buffer moved.
    Done,
    /// The channel failed.
    Failed(FrameError),
}

/// How a bounded read stands.
pub open spec fn read_step(
    filled: usize,
    wanted: usize,
    moved: Moved,
    platform: Platform,
) -> FrameStep {
    match moved {
        Moved::Count(count) => if count == 0 {
            FrameStep::Failed(FrameError::Closed)
        } else if filled + count >= wanted {
            FrameStep::Done
        } else {
            FrameStep::Continue((filled + count) as usize)
        },
        Moved::Failed(errno) => if errno == EINTR || errno == errno::try_again_on(platform) {
            FrameStep::Continue(filled)
        } else {
            FrameStep::Failed(FrameError::Io { errno })
        },
    }
}

/// How a bounded write stands: as a read, but a broken pipe is a close.
pub open spec fn write_step(
    written: usize,
    wanted: usize,
    moved: Moved,
    platform: Platform,
) -> FrameStep {
    if moved == Moved::Failed(EPIPE) {
        FrameStep::Failed(FrameError::Closed)
    } else {
        read_step(written, wanted, moved, platform)
    }
}

/// Judge one read of a buffer that is not full yet.
pub fn read_exact_by(filled: usize, wanted: usize, moved: Moved, platform: Platform) -> (step:
    FrameStep)
    requires
        filled < wanted,
    ensures
        step == read_step(filled, wanted, moved, platform),
{
    match moved {
        Moved::Count(count) => if count == 0 {
            FrameStep::Failed(FrameError::Closed)
        } else if count >= wanted - filled {
            FrameStep::Done
        } else {
            FrameStep::Continue(filled + count)
        },
        Moved::Failed(errno) => if errno == EINTR || errno == try_again(platform) {
            FrameStep::Continue(filled)
        } else {
            FrameStep::Failed(FrameError::Io { errno })
        },
    }
}

/// Judge one write of a buffer that is not written out yet.
pub fn write_all_by(written: usize, wanted: usize, moved: Moved, platform: Platform) -> (step:
    FrameStep)
    requires
        written < wanted,
    ensures
        step == write_step(written, wanted, moved, platform),
{
    if let Moved::Failed(errno) = moved {
        if errno == EPIPE {
            return FrameStep::Failed(FrameError::Closed);
        }
    }
    read_exact_by(written, wanted, moved, platform)
}

/// A transfer that goes on never goes back, and one that moved something comes
/// closer to its end.
pub proof fn law_transfers_make_progress(
    done: usize,
    wanted: usize,
    moved: Moved,
    platform: Platform,
)
    requires
        done < wanted,
    ensures
        read_step(done, wanted, moved, platform) matches FrameStep::Continue(next) ==> done <= next < wanted
            && (moved is Count ==> done < next),
{
}

/// What one `poll` call answered.
#[derive(Debug, Clone, Copy, PartialEq, Eq, Structural)]
pub enum PollOutcome {
    /// At least one descriptor has an event.
    Ready,
    /// The timeout expired with nothing ready.
    TimedOut,
    /// A signal arrived. Not a failure.
    Interrupted,
    /// The call itself failed.
    Failed(i32),
}

/// Classify what `poll` returned: a count of ready descriptors, or a negative
/// number with its error number.
pub fn poll_outcome(ready: i32, errno: i32) -> (outcome: PollOutcome)
    ensures
        outcome == (if ready > 0 {
            PollOutcome::Ready
        } else if ready == 0 {
            PollOutcome::TimedOut
        } else if errno == EINTR {
            PollOutcome::Interrupted
        } else {
            PollOutcome::Failed(errno)
        }),
{
    if ready > 0 {
        PollOutcome::Ready
    } else if ready == 0 {
        PollOutcome::TimedOut
    } else if errno == EINTR {
        PollOutcome::Interrupted
    } else {
        PollOutcome::Failed(errno)
    }
}

/// Milliseconds left at `now` before `deadline`, where it has not passed. Never
/// less than one, since there is time left, and never more than `poll` can take.
pub open spec fn millis_left(now: Nanos, deadline: Nanos) -> Option<int> {
    if now.0 >= deadline.0 {
        None
    } else {
        let millis = (deadline.0 - now.0) / (NANOS_PER_MILLI as int);
        Some(
            if millis > i32::MAX {
                i32::MAX as int
            } else if millis < 1 {
                1
            } else {
                millis
            },
        )
    }
}

/// Milliseconds left at `now` before `deadline`, or nothing once it has passed.
pub fn remaining_millis(now: Nanos, deadline: Nanos) -> (left: Option<i32>)
    ensures
        match left {
            Some(millis) => millis_left(now, deadline) == Some(millis as int),
            None => millis_left(now, deadline) is None,
        },
{
    if now.0 >= deadline.0 {
        return None;
    }
    let millis: u128 = (deadline.0 - now.0) / NANOS_PER_MILLI;
    if millis > i32::MAX as u128 {
        Some(i32::MAX)
    } else if millis < 1 {
        Some(1)
    } else {
        Some(millis as i32)
    }
}

/// No wait is unbounded: the timeout that `poll` is given is always positive,
/// and there is none once the deadline has passed.
pub proof fn law_every_wait_is_bounded(now: Nanos, deadline: Nanos)
    ensures
        millis_left(now, deadline) is None <==> now.0 >= deadline.0,
        millis_left(now, deadline) matches Some(millis) ==> 1 <= millis <= i32::MAX,
{
}

/// How long to wait in `poll` at `now`, or that the deadline has passed.
pub fn wait_for(now: Nanos, deadline: Nanos) -> (timeout: Result<i32, FrameError>)
    ensures
        match timeout {
            Ok(millis) => millis_left(now, deadline) == Some(millis as int),
            Err(err) => millis_left(now, deadline) is None && err is Timeout,
        },
{
    match remaining_millis(now, deadline) {
        Some(millis) => Ok(millis),
        None => Err(FrameError::Timeout),
    }
}

/// Whether a wait is over: ready, to be taken up again, or failed.
pub fn after_poll(outcome: PollOutcome) -> (ready: Result<bool, FrameError>)
    ensures
        ready == (match outcome {
            PollOutcome::Ready => Ok::<bool, FrameError>(true),
            PollOutcome::Interrupted => Ok::<bool, FrameError>(false),
            PollOutcome::TimedOut => Err::<bool, FrameError>(FrameError::Timeout),
            PollOutcome::Failed(errno) => Err::<bool, FrameError>(FrameError::Io { errno }),
        }),
{
    match outcome {
        PollOutcome::Ready => Ok(true),
        PollOutcome::Interrupted => Ok(false),
        PollOutcome::TimedOut => Err(FrameError::Timeout),
        PollOutcome::Failed(errno) => Err(FrameError::Io { errno }),
    }
}

} // verus!
