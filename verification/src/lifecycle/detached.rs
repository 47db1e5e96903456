//! The caller's end of a conversation with the supervisor of a detached run.
//!
//! Each operation is a request and what its reply means. The conversation
//! itself, with its deadlines, is the driver's. Dropping a [`DetachedSession`]
//! ends nothing: the run carries on.

use vstd::prelude::*;
use vstd::string::StringExecFns;
use crate::path;
use crate::path::PathBytes;
use crate::text;
use crate::text::push_signed;
use crate::time::{Nanos, NANOS_PER_MILLI};
use super::cleanup::CleanupVerification;
use super::exit::SandboxExit;
use super::frame::FrameError;
use super::gate::{wipe, ActivationHandle, ACTIVATION_TOKEN_BYTES};
use super::identity::ProcessIdentity;
use super::probe::{ProbeObservation, ProbeRequest};
use super::protocol;
use super::protocol::{
    reply_name, AttachAck, ControlRefusal, ControlReply, ControlRequest, SessionStatus, WaitOutcome,
    WindowSize, CONTROL_PROTOCOL_VERSION,
};
use super::session;
use super::session::SessionId;
use super::state::LifecycleState;

verus! {

/// How long a single control exchange may take, in nanoseconds.
pub const CONTROL_TIMEOUT: u128 = 10_000_000_000;

/// The longest a supervisor will hold one wait open, in nanoseconds.
pub const MAX_CONTROL_WAIT: u128 = 30_000_000_000;

/// Everything talking to a detached supervisor can fail with.
#[derive(Debug, PartialEq, Eq)]
pub enum DetachedError {
    /// The record names no live supervisor.
    NoSupervisor {
        /// The session that was asked for.
        session_id: SessionId,
    },
    /// The control socket could not be connected to.
    Connect {
        /// The socket that was tried.
        path: PathBytes,
        /// Platform error number.
        errno: i32,
    },
    /// The conversation itself failed.
    Frame(FrameError),
    /// The supervisor refused, and this is which check refused.
    Refused(ControlRefusal),
    /// The supervisor answered something this request has no use for.
    UnexpectedReply {
        /// What the request needed back.
        expected: &'static str,
        /// What arrived instead.
        received: String,
    },
}

impl DetachedError {
    /// The refusal, when the supervisor refused.
    #[must_use]
    pub fn refusal(&self) -> (refusal: Option<&ControlRefusal>)
        ensures
            match refusal {
                Some(refusal) => *self == DetachedError::Refused(*refusal),
                None => !(self is Refused),
            },
    {
        match self {
            DetachedError::Refused(refusal) => Some(refusal),
            _ => None,
        }
    }

    /// The text of an error.
    pub open spec fn text(self) -> Seq<char> {
        match self {
            DetachedError::NoSupervisor { session_id } => "session "@ + session::hyphenated_text(
                session_id.0,
            ) + " has no live supervisor to attach to"@,
            DetachedError::Connect { path, errno } => "control socket "@ + path::lossy_utf8(path@)
                + " could not be connected to: errno "@ + text::signed_decimal(errno as int),
            DetachedError::Frame(err) => err.text(),
            DetachedError::Refused(refusal) => refusal.text(),
            DetachedError::UnexpectedReply { expected, received } => "the supervisor answered "@
                + received@ + " where "@ + expected@ + " was expected"@,
        }
    }

    /// The error as a sentence.
    pub fn to_text(&self) -> (text: String)
        ensures
            text@ == self.text(),
    {
        match self {
            DetachedError::NoSupervisor { session_id } => {
                let mut text = "session ".to_string();
                text.append(session_id.to_text().as_str());
                text.append(" has no live supervisor to attach to");
                text
            },
            DetachedError::Connect { path, errno } => {
                let mut text = "control socket ".to_string();
                text.append(path.to_text().as_str());
                text.append(" could not be connected to: errno ");
                push_signed(&mut text, *errno as i64);
                text
            },
            DetachedError::Frame(err) => err.to_text(),
            DetachedError::Refused(refusal) => refusal.to_text(),
            DetachedError::UnexpectedReply { expected, received } => {
                let mut text = "the supervisor answered ".to_string();
                text.append(received.as_str());
                text.append(" where ");
                text.append(expected);
                text.append(" was expected");
                text
            },
        }
    }
}

/// Whether `error` names `reply` where `expected` was needed.
pub open spec fn is_unexpected(
    error: DetachedError,
    expected: Seq<char>,
    reply: ControlReply,
) -> bool {
    error matches DetachedError::UnexpectedReply { expected: wanted, received } && wanted@
        == expected && received@ == protocol::reply_label(reply)
}

/// Name a reply that does not answer the question that was asked. It says which
/// reply it was, and nothing of what was in it.
pub fn unexpected(expected: &'static str, received: &ControlReply) -> (error: DetachedError)
    ensures
        is_unexpected(error, expected@, *received),
{
    DetachedError::UnexpectedReply { expected, received: reply_name(received).to_string() }
}

/// What an exchange came to: a transport failure and a refusal are errors, and
/// everything else is a reply.
pub open spec fn answer(reply: Result<ControlReply, FrameError>) -> Result<
    ControlReply,
    DetachedError,
> {
    match reply {
        Err(err) => Err(DetachedError::Frame(err)),
        Ok(ControlReply::Refused { refusal }) => Err(DetachedError::Refused(refusal)),
        Ok(reply) => Ok(reply),
    }
}

/// What an exchange came to.
pub fn exchanged(reply: Result<ControlReply, FrameError>) -> (answered: Result<
    ControlReply,
    DetachedError,
>)
    ensures
        answered == answer(reply),
{
    match reply {
        Err(err) => Err(DetachedError::Frame(err)),
        Ok(ControlReply::Refused { refusal }) => Err(DetachedError::Refused(refusal)),
        Ok(reply) => Ok(reply),
    }
}

/// A conversation with the supervisor of a detached run.
#[derive(Debug, PartialEq, Eq)]
pub struct DetachedSession {
    session_id: SessionId,
    generation: u64,
    supervisor: ProcessIdentity,
    opened_in: LifecycleState,
    cgroup: Option<String>,
}

/// What is known of a conversation.
pub struct DetachedView {
    /// The session it is about.
    pub session_id: SessionId,
    /// The generation it is about.
    pub generation: u64,
    /// The process on the other end.
    pub supervisor: ProcessIdentity,
    /// Where the run was when the connection opened.
    pub opened_in: LifecycleState,
    /// The cgroup the run was placed in, once that is known.
    pub cgroup: Option<String>,
}

impl View for DetachedSession {
    type V = DetachedView;

    closed spec fn view(&self) -> DetachedView {
        DetachedView {
            session_id: self.session_id,
            generation: self.generation,
            supervisor: self.supervisor,
            opened_in: self.opened_in,
            cgroup: self.cgroup,
        }
    }
}

/// The check that refuses a hello, if one does: the version, then the session,
/// then the generation.
pub open spec fn hello_refusal(
    session_id: SessionId,
    generation: u64,
    protocol: u32,
    theirs: SessionId,
    their_generation: u64,
) -> Option<ControlRefusal> {
    if protocol != CONTROL_PROTOCOL_VERSION {
        Some(
            ControlRefusal::ProtocolVersion {
                expected: CONTROL_PROTOCOL_VERSION,
                supplied: protocol,
            },
        )
    } else if theirs != session_id {
        Some(ControlRefusal::WrongSession { expected: session_id, supplied: theirs })
    } else if their_generation != generation {
        Some(ControlRefusal::WrongGeneration { expected: generation, supplied: their_generation })
    } else {
        None
    }
}

/// The hello that opens a conversation.
pub fn hello(session_id: SessionId, generation: u64) -> (request: ControlRequest)
    ensures
        request == (ControlRequest::Hello {
            protocol: CONTROL_PROTOCOL_VERSION,
            session_id,
            generation,
        }),
{
    ControlRequest::Hello { protocol: CONTROL_PROTOCOL_VERSION, session_id, generation }
}

/// The refusal for a socket that could not be connected to.
pub fn connect_error(socket: &PathBytes, errno: Option<i32>) -> (error: DetachedError)
    ensures
        error matches DetachedError::Connect { path, errno: number } && path@ == socket@ && number
            == (match errno {
            Some(errno) => errno,
            None => 0i32,
        }),
{
    let number = match errno {
        Some(errno) => errno,
        None => 0,
    };
    DetachedError::Connect { path: socket.clone(), errno: number }
}

/// What a wait step came to.
#[derive(Debug, PartialEq, Eq)]
pub enum WaitStep {
    /// The wait is over.
    Done(WaitOutcome),
    /// There is time left: ask again.
    Again,
}

/// How long the next slice of a wait is.
pub open spec fn slice_of(now: Nanos, deadline: Nanos) -> int {
    let left = if deadline.0 > now.0 {
        deadline.0 - now.0
    } else {
        0
    };
    if left < MAX_CONTROL_WAIT {
        left
    } else {
        MAX_CONTROL_WAIT as int
    }
}

impl DetachedSession {
    /// Judge the reply to a hello. Checked on this side too: a hello that agreed
    /// in one direction alone would mean that the two ends disagree about which
    /// run they are holding.
    pub fn connect(
        session_id: SessionId,
        generation: u64,
        supervisor: ProcessIdentity,
        reply: Result<ControlReply, FrameError>,
    ) -> (opened: Result<Self, DetachedError>)
        ensures
            match answer(reply) {
                Err(err) => opened == Err::<Self, DetachedError>(err),
                Ok(
                    ControlReply::Hello {
                        protocol,
                        session_id: theirs,
                        generation: their_generation,
                        state,
                    },
                ) => match hello_refusal(session_id, generation, protocol, theirs, their_generation)
                {
                    Some(refusal) => opened == Err::<Self, DetachedError>(
                        DetachedError::Refused(refusal),
                    ),
                    None => opened matches Ok(session) && session@ == (DetachedView {
                        session_id,
                        generation,
                        supervisor,
                        opened_in: state,
                        cgroup: None,
                    }),
                },
                Ok(other) => opened matches Err(err) && is_unexpected(err, "hello"@, other),
            },
    {
        match exchanged(reply) {
            Err(err) => Err(err),
            Ok(
                ControlReply::Hello {
                    protocol,
                    session_id: theirs,
                    generation: their_generation,
                    state,
                },
            ) => {
                if protocol != CONTROL_PROTOCOL_VERSION {
                    return Err(
                        DetachedError::Refused(
                            ControlRefusal::ProtocolVersion {
                                expected: CONTROL_PROTOCOL_VERSION,
                                supplied: protocol,
                            },
                        ),
                    );
                }
                if theirs != session_id {
                    return Err(
                        DetachedError::Refused(
                            ControlRefusal::WrongSession {
                                expected: session_id,
                                supplied: theirs,
                            },
                        ),
                    );
                }
                if their_generation != generation {
                    return Err(
                        DetachedError::Refused(
                            ControlRefusal::WrongGeneration {
                                expected: generation,
                                supplied: their_generation,
                            },
                        ),
                    );
                }
                Ok(
                    DetachedSession {
                        session_id,
                        generation,
                        supervisor,
                        opened_in: state,
                        cgroup: None,
                    },
                )
            },
            Ok(other) => Err(unexpected("hello", &other)),
        }
    }

    /// The session this conversation is about.
    #[must_use]
    pub fn session_id(&self) -> (id: SessionId)
        ensures
            id == self@.session_id,
    {
        self.session_id
    }

    /// The generation this conversation is about.
    #[must_use]
    pub fn generation(&self) -> (generation: u64)
        ensures
            generation == self@.generation,
    {
        self.generation
    }

    /// The supervisor process on the other end.
    #[must_use]
    pub fn supervisor(&self) -> (identity: &ProcessIdentity)
        ensures
            *identity == self@.supervisor,
    {
        &self.supervisor
    }

    /// Where the run was when this connection opened. A snapshot.
    #[must_use]
    pub fn opened_in(&self) -> (state: LifecycleState)
        ensures
            state == self@.opened_in,
    {
        self.opened_in
    }

    /// The cgroup the run was placed in, if any. Learned from the activation.
    #[must_use]
    pub fn cgroup(&self) -> (cgroup: Option<&str>)
        ensures
            match cgroup {
                Some(cgroup) => self@.cgroup is Some && cgroup@ == self@.cgroup->0@,
                None => self@.cgroup is None,
            },
    {
        match &self.cgroup {
            Some(cgroup) => Some(cgroup.as_str()),
            None => None,
        }
    }

    /// The request that releases the held child. It holds a copy of the token,
    /// to be wiped with [`wipe_request`] as soon as the exchange is over.
    pub fn activate_request(&self, handle: &ActivationHandle) -> (request: ControlRequest)
        ensures
            request matches ControlRequest::Activate { token } && token@ == handle@.token,
    {
        ControlRequest::Activate { token: *handle.token() }
    }

    /// Judge the reply to an activation.
    pub fn activate(&mut self, reply: Result<ControlReply, FrameError>) -> (activated: Result<
        LifecycleState,
        DetachedError,
    >)
        ensures
            match answer(reply) {
                Err(err) => activated == Err::<LifecycleState, DetachedError>(err) && final(self)@
                    == old(self)@,
                Ok(ControlReply::Activated { state, cgroup }) => activated == Ok::<
                    LifecycleState,
                    DetachedError,
                >(state) && final(self)@ == (DetachedView { cgroup, ..old(self)@ }),
                Ok(other) => final(self)@ == old(self)@ && (activated matches Err(err)
                    && is_unexpected(err, "activated"@, other)),
            },
    {
        match exchanged(reply) {
            Err(err) => Err(err),
            Ok(ControlReply::Activated { state, cgroup }) => {
                self.cgroup = cgroup;
                Ok(state)
            },
            Ok(other) => Err(unexpected("activated", &other)),
        }
    }

    /// The next slice of a wait, and how long its reply may take: the supervisor
    /// is allowed the whole slice and then the usual time to answer.
    pub fn wait_request(&self, now: Nanos, deadline: Nanos) -> (asked: (ControlRequest, Nanos))
        ensures
            asked.0 == (ControlRequest::Wait {
                deadline_millis: (slice_of(now, deadline) / NANOS_PER_MILLI as int) as u64,
            }),
            asked.1.0 == slice_of(now, deadline) + CONTROL_TIMEOUT,
    {
        let left = deadline.since(now);
        let slice: u128 = if left.0 < MAX_CONTROL_WAIT {
            left.0
        } else {
            MAX_CONTROL_WAIT
        };
        (
            ControlRequest::Wait { deadline_millis: (slice / NANOS_PER_MILLI) as u64 },
            Nanos(slice + CONTROL_TIMEOUT),
        )
    }

    /// Judge the reply to one slice of a wait, which arrived at `now`.
    pub fn wait(&self, reply: Result<ControlReply, FrameError>, now: Nanos, deadline: Nanos) -> (waited:
        Result<WaitStep, DetachedError>)
        ensures
            match answer(reply) {
                Err(err) => waited == Err::<WaitStep, DetachedError>(err),
                Ok(ControlReply::Waited { outcome }) => waited == Ok::<WaitStep, DetachedError>(
                    if outcome is Exit || now.0 >= deadline.0 {
                        WaitStep::Done(outcome)
                    } else {
                        WaitStep::Again
                    },
                ),
                Ok(other) => waited matches Err(err) && is_unexpected(err, "waited"@, other),
            },
    {
        match exchanged(reply) {
            Err(err) => Err(err),
            Ok(ControlReply::Waited { outcome }) => {
                let ended = match &outcome {
                    WaitOutcome::Exit(_) => true,
                    WaitOutcome::StillRunning => false,
                };
                if ended || now.0 >= deadline.0 {
                    Ok(WaitStep::Done(outcome))
                } else {
                    Ok(WaitStep::Again)
                }
            },
            Ok(other) => Err(unexpected("waited", &other)),
        }
    }

    /// The request that ends the run.
    pub fn stop_request(&self) -> (request: ControlRequest)
        ensures
            request == ControlRequest::Stop,
    {
        ControlRequest::Stop
    }

    /// The request for the run's status.
    pub fn status_request(&self) -> (request: ControlRequest)
        ensures
            request == ControlRequest::Status,
    {
        ControlRequest::Status
    }

    /// The request that proves the run's processes gone.
    pub fn cleanup_request(&self) -> (request: ControlRequest)
        ensures
            request == ControlRequest::VerifyCleanup,
    {
        ControlRequest::VerifyCleanup
    }

    /// The request that puts a probe to the held child.
    pub fn probe_request(&self, request: ProbeRequest) -> (asked: ControlRequest)
        ensures
            asked == (ControlRequest::ProbeEnforcement { request }),
    {
        ControlRequest::ProbeEnforcement { request }
    }

    /// The request that takes over the run's terminal.
    pub fn attach_request(&self, window: WindowSize) -> (request: ControlRequest)
        ensures
            request == (ControlRequest::Attach { window }),
    {
        ControlRequest::Attach { window }
    }

    /// The request that leaves, politely.
    pub fn goodbye(&self) -> (request: ControlRequest)
        ensures
            request == ControlRequest::Goodbye,
    {
        ControlRequest::Goodbye
    }

    /// Judge the reply to a stop.
    pub fn stop(&self, reply: Result<ControlReply, FrameError>) -> (stopped: Result<
        SandboxExit,
        DetachedError,
    >)
        ensures
            match answer(reply) {
                Err(err) => stopped == Err::<SandboxExit, DetachedError>(err),
                Ok(ControlReply::Stopped { exit }) => stopped == Ok::<SandboxExit, DetachedError>(
                    exit,
                ),
                Ok(other) => stopped matches Err(err) && is_unexpected(err, "stopped"@, other),
            },
    {
        match exchanged(reply) {
            Err(err) => Err(err),
            Ok(ControlReply::Stopped { exit }) => Ok(exit),
            Ok(other) => Err(unexpected("stopped", &other)),
        }
    }

    /// Judge the reply to a status request.
    pub fn status(&self, reply: Result<ControlReply, FrameError>) -> (status: Result<
        SessionStatus,
        DetachedError,
    >)
        ensures
            match answer(reply) {
                Err(err) => status == Err::<SessionStatus, DetachedError>(err),
                Ok(ControlReply::Status { status: told }) => status == Ok::<
                    SessionStatus,
                    DetachedError,
                >(*told),
                Ok(other) => status matches Err(err) && is_unexpected(err, "status"@, other),
            },
    {
        match exchanged(reply) {
            Err(err) => Err(err),
            Ok(ControlReply::Status { status }) => Ok(*status),
            Ok(other) => Err(unexpected("status", &other)),
        }
    }

    /// Judge the reply to a cleanup verification.
    pub fn verify_cleanup(&self, reply: Result<ControlReply, FrameError>) -> (verified: Result<
        CleanupVerification,
        DetachedError,
    >)
        ensures
            match answer(reply) {
                Err(err) => verified == Err::<CleanupVerification, DetachedError>(err),
                Ok(ControlReply::Cleanup { verdict, .. }) => verified == Ok::<
                    CleanupVerification,
                    DetachedError,
                >(verdict),
                Ok(other) => verified matches Err(err) && is_unexpected(err, "cleanup"@, other),
            },
    {
        match exchanged(reply) {
            Err(err) => Err(err),
            Ok(ControlReply::Cleanup { verdict, .. }) => Ok(verdict),
            Ok(other) => Err(unexpected("cleanup", &other)),
        }
    }

    /// Judge the reply to a probe. The observation comes back unchanged.
    pub fn probe_enforcement(&self, reply: Result<ControlReply, FrameError>) -> (observed: Result<
        ProbeObservation,
        DetachedError,
    >)
        ensures
            match answer(reply) {
                Err(err) => observed == Err::<ProbeObservation, DetachedError>(err),
                Ok(ControlReply::ProbeObservation(observation)) => observed == Ok::<
                    ProbeObservation,
                    DetachedError,
                >(observation),
                Ok(other) => observed matches Err(err) && is_unexpected(
                    err,
                    "probe_observation"@,
                    other,
                ),
            },
    {
        match exchanged(reply) {
            Err(err) => Err(err),
            Ok(ControlReply::ProbeObservation(observation)) => Ok(observation),
            Ok(other) => Err(unexpected("probe_observation", &other)),
        }
    }

    /// Judge the reply to an attach.
    pub fn attach(&self, reply: Result<ControlReply, FrameError>) -> (attached: Result<
        AttachAck,
        DetachedError,
    >)
        ensures
            match answer(reply) {
                Err(err) => attached == Err::<AttachAck, DetachedError>(err),
                Ok(ControlReply::AttachAck { ack }) => attached == Ok::<AttachAck, DetachedError>(
                    *ack,
                ),
                Ok(other) => attached matches Err(err) && is_unexpected(err, "attach_ack"@, other),
            },
    {
        match exchanged(reply) {
            Err(err) => Err(err),
            Ok(ControlReply::AttachAck { ack }) => Ok(*ack),
            Ok(other) => Err(unexpected("attach_ack", &other)),
        }
    }
}

/// Wipe the token out of a request, where it holds one.
pub fn wipe_request(request: &mut ControlRequest)
    ensures
        match *old(request) {
            ControlRequest::Activate { .. } => *final(request) matches ControlRequest::Activate {
                token,
            } && forall|i: int| 0 <= i < ACTIVATION_TOKEN_BYTES ==> token@[i] == 0u8,
            _ => *final(request) == *old(request),
        },
{
    if let ControlRequest::Activate { token } = request {
        wipe(token);
    }
}

/// A long wait is made of short ones: no slice outlasts the supervisor's bound
/// or the caller's deadline, each slice has time to be answered, and while time
/// is left a slice is not empty.
pub proof fn law_a_wait_is_made_of_bounded_slices(now: Nanos, deadline: Nanos)
    ensures
        0 <= slice_of(now, deadline) <= MAX_CONTROL_WAIT,
        slice_of(now, deadline) < MAX_CONTROL_WAIT + CONTROL_TIMEOUT,
        now.0 <= deadline.0 ==> now.0 + slice_of(now, deadline) <= deadline.0,
        now.0 < deadline.0 ==> slice_of(now, deadline) > 0,
        now.0 >= deadline.0 ==> slice_of(now, deadline) == 0,
{
}

/// A conversation opens only where both ends agree on the version, the session
/// and the generation.
pub proof fn law_a_hello_is_agreed_or_refused(
    session_id: SessionId,
    generation: u64,
    protocol: u32,
    theirs: SessionId,
    their_generation: u64,
)
    ensures
        hello_refusal(session_id, generation, protocol, theirs, their_generation) is None <==> {
            &&& protocol == CONTROL_PROTOCOL_VERSION
            &&& theirs == session_id
            &&& their_generation == generation
        },
{
}

} // verus!
