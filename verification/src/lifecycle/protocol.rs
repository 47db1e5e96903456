//! What a caller and a detached supervisor say to each other.
//!
//! The first message each side sends is a hello with the protocol version, the
//! session and the generation; a mismatch in any of them ends the conversation.

use vstd::prelude::*;
use vstd::string::StringExecFns;
use crate::text;
use crate::text::push_decimal;
use super::cleanup::CleanupVerification;
use super::events::LifecycleEvent;
use super::exit::SandboxExit;
use super::gate::{ActivationError, StopError, ACTIVATION_TOKEN_BYTES};
use super::probe::{ProbeError, ProbeObservation, ProbeRequest, ProbeScope};
use super::probe_text;
use super::session;
use super::session::SessionId;
use super::state::LifecycleState;

verus! {

/// The protocol version this build speaks, and the only one it accepts.
pub const CONTROL_PROTOCOL_VERSION: u32 = 2;

/// The size of a terminal.
#[derive(Debug, Clone, Copy, PartialEq, Eq, Structural)]
pub struct WindowSize {
    /// Rows of text.
    pub rows: u16,
    /// Columns of text.
    pub cols: u16,
}

impl WindowSize {
    /// The size with `rows` and `cols`.
    pub fn new(rows: u16, cols: u16) -> (size: Self)
        ensures
            size == (WindowSize { rows, cols }),
    {
        WindowSize { rows, cols }
    }
}

/// What an attach found.
#[derive(Debug, PartialEq, Eq)]
pub struct AttachAck {
    /// Where the run is.
    pub state: LifecycleState,
    /// How many bytes of earlier output are about to arrive.
    pub replayed: u64,
    /// How many bytes of earlier output were not kept.
    pub dropped: u64,
    /// How the run ended, where it has ended.
    pub exit: Option<SandboxExit>,
}

/// What one side is refusing, and why.
#[derive(Debug, PartialEq, Eq)]
pub enum ControlRefusal {
    /// The peer speaks a different protocol version.
    ProtocolVersion {
        /// The version spoken here.
        expected: u32,
        /// The version the peer announced.
        supplied: u32,
    },
    /// The hello named a different session.
    WrongSession {
        /// The session owned here.
        expected: SessionId,
        /// The session the peer named.
        supplied: SessionId,
    },
    /// The hello named a different generation of this session.
    WrongGeneration {
        /// The generation served here.
        expected: u64,
        /// The generation the peer named.
        supplied: u64,
    },
    /// Another client is already connected.
    Busy,
    /// The peer's first frame was not a hello.
    HelloExpected,
    /// The peer announced an oversize frame.
    FrameTooLarge {
        /// The size the prefix claimed.
        size: u64,
        /// The bound.
        limit: usize,
    },
    /// The peer's frame could not be understood.
    Malformed {
        /// What was wrong with it.
        why: String,
    },
    /// The activation was refused, with the reason that was given.
    Activation(ActivationError),
    /// The stop was refused, with the reason the run gave.
    Stop(StopError),
    /// Cleanup verification was refused in this state.
    Cleanup {
        /// The state that refused.
        state: LifecycleState,
    },
    /// The probe was refused, with the reason the run gave.
    Probe(ProbeError),
    /// A probe was asked for once the child had left the activation gate.
    ProbeAfterActivation {
        /// The state that refused.
        state: LifecycleState,
        /// The strongest scope such a probe could claim.
        required_scope: ProbeScope,
    },
    /// The run has no terminal to attach to.
    NoTerminal,
    /// The operation is not implemented.
    Unimplemented {
        /// The operation that was asked for.
        op: String,
    },
}

impl Clone for ControlRefusal {
    fn clone(&self) -> (copy: Self)
        ensures
            copy == *self,
    {
        match self {
            ControlRefusal::ProtocolVersion { expected, supplied } =>
                ControlRefusal::ProtocolVersion { expected: *expected, supplied: *supplied },
            ControlRefusal::WrongSession { expected, supplied } => ControlRefusal::WrongSession {
                expected: *expected,
                supplied: *supplied,
            },
            ControlRefusal::WrongGeneration { expected, supplied } =>
                ControlRefusal::WrongGeneration { expected: *expected, supplied: *supplied },
            ControlRefusal::Busy => ControlRefusal::Busy,
            ControlRefusal::HelloExpected => ControlRefusal::HelloExpected,
            ControlRefusal::FrameTooLarge { size, limit } => ControlRefusal::FrameTooLarge {
                size: *size,
                limit: *limit,
            },
            ControlRefusal::Malformed { why } => ControlRefusal::Malformed { why: why.clone() },
            ControlRefusal::Activation(err) => ControlRefusal::Activation(*err),
            ControlRefusal::Stop(err) => ControlRefusal::Stop(*err),
            ControlRefusal::Cleanup { state } => ControlRefusal::Cleanup { state: *state },
            ControlRefusal::Probe(err) => ControlRefusal::Probe(*err),
            ControlRefusal::ProbeAfterActivation { state, required_scope } =>
                ControlRefusal::ProbeAfterActivation {
                state: *state,
                required_scope: *required_scope,
            },
            ControlRefusal::NoTerminal => ControlRefusal::NoTerminal,
            ControlRefusal::Unimplemented { op } => ControlRefusal::Unimplemented {
                op: op.clone(),
            },
        }
    }
}

impl ControlRefusal {
    /// The text of a refusal.
    pub open spec fn text(self) -> Seq<char> {
        match self {
            ControlRefusal::ProtocolVersion { expected, supplied } => "control protocol version "@
                + text::decimal(supplied as nat) + " is not "@ + text::decimal(expected as nat),
            ControlRefusal::WrongSession { expected, supplied } =>
                "control connection is for session "@ + session::hyphenated_text(supplied.0)
                    + ", not "@ + session::hyphenated_text(expected.0),
            ControlRefusal::WrongGeneration { expected, supplied } =>
                "control connection is for generation "@ + text::decimal(supplied as nat)
                    + ", not "@ + text::decimal(expected as nat),
            ControlRefusal::Busy => "another client is connected to this session"@,
            ControlRefusal::HelloExpected => "the first control frame must be a hello"@,
            ControlRefusal::FrameTooLarge { size, limit } => "control frame announced "@
                + text::decimal(size as nat) + " bytes (max "@ + text::decimal(limit as nat) + ")"@,
            ControlRefusal::Malformed { why } => "control frame could not be understood: "@ + why@,
            ControlRefusal::Activation(err) => err.text(),
            ControlRefusal::Stop(err) => err.text(),
            ControlRefusal::Cleanup { state } => "cleanup verification is not legal in state "@
                + state.name(),
            ControlRefusal::Probe(err) => err.text(),
            ControlRefusal::ProbeAfterActivation { state, required_scope } =>
                "a probe after activation would be scope "@ + required_scope.name()
                    + ", which this build does not produce; run is "@ + state.name(),
            ControlRefusal::NoTerminal =>
                "this run is headless: there is no terminal to attach to"@,
            ControlRefusal::Unimplemented { op } => "control operation "@ + op@
                + " is not implemented in this build"@,
        }
    }

    /// The refusal as a sentence.
    pub fn to_text(&self) -> (text: String)
        ensures
            text@ == self.text(),
    {
        match self {
            ControlRefusal::ProtocolVersion { expected, supplied } => {
                let mut text = "control protocol version ".to_string();
                push_decimal(&mut text, *supplied as u64);
                text.append(" is not ");
                push_decimal(&mut text, *expected as u64);
                text
            },
            ControlRefusal::WrongSession { expected, supplied } => {
                let mut text = "control connection is for session ".to_string();
                text.append(supplied.to_text().as_str());
                text.append(", not ");
                text.append(expected.to_text().as_str());
                text
            },
            ControlRefusal::WrongGeneration { expected, supplied } => {
                let mut text = "control connection is for generation ".to_string();
                push_decimal(&mut text, *supplied);
                text.append(", not ");
                push_decimal(&mut text, *expected);
                text
            },
            ControlRefusal::Busy => "another client is connected to this session".to_string(),
            ControlRefusal::HelloExpected => "the first control frame must be a hello".to_string(),
            ControlRefusal::FrameTooLarge { size, limit } => {
                let mut text = "control frame announced ".to_string();
                push_decimal(&mut text, *size);
                text.append(" bytes (max ");
                push_decimal(&mut text, *limit as u64);
                text.append(")");
                text
            },
            ControlRefusal::Malformed { why } => {
                let mut text = "control frame could not be understood: ".to_string();
                text.append(why.as_str());
                text
            },
            ControlRefusal::Activation(err) => err.to_text(),
            ControlRefusal::Stop(err) => err.to_text(),
            ControlRefusal::Cleanup { state } => {
                let mut text = "cleanup verification is not legal in state ".to_string();
                text.append(state.as_str());
                text
            },
            ControlRefusal::Probe(err) => err.to_text(),
            ControlRefusal::ProbeAfterActivation { state, required_scope } => {
                let mut text = "a probe after activation would be scope ".to_string();
                text.append(required_scope.as_str());
                text.append(", which this build does not produce; run is ");
                text.append(state.as_str());
                text
            },
            ControlRefusal::NoTerminal =>
                "this run is headless: there is no terminal to attach to".to_string(),
            ControlRefusal::Unimplemented { op } => {
                let mut text = "control operation ".to_string();
                text.append(op.as_str());
                text.append(" is not implemented in this build");
                text
            },
        }
    }
}

/// What a client asks a detached supervisor to do.
#[derive(PartialEq, Eq)]
pub enum ControlRequest {
    /// Open the conversation and state what this client believes it talks to.
    Hello {
        /// The protocol version the client speaks.
        protocol: u32,
        /// The session the client means.
        session_id: SessionId,
        /// The generation the client means.
        generation: u64,
    },
    /// Release the held child.
    Activate {
        /// The activation token. Never shown.
        token: [u8; ACTIVATION_TOKEN_BYTES],
    },
    /// Wait up to this long for the run to end.
    Wait {
        /// How long the client is prepared to wait, in milliseconds.
        deadline_millis: u64,
    },
    /// End the run now.
    Stop,
    /// Report where the run is.
    Status,
    /// Prove the run's processes are gone, or report that they are not.
    VerifyCleanup,
    /// Ask what the child's installed enforcement does with one operation.
    ProbeEnforcement {
        /// The operation to attempt.
        request: ProbeRequest,
    },
    /// Take over this run's terminal, at this size.
    Attach {
        /// The size to give the terminal.
        window: WindowSize,
    },
    /// Leave. The run carries on.
    Goodbye,
}

impl ControlRequest {
    /// The name of an operation.
    pub open spec fn name(self) -> Seq<char> {
        match self {
            ControlRequest::Hello { .. } => "hello"@,
            ControlRequest::Activate { .. } => "activate"@,
            ControlRequest::Wait { .. } => "wait"@,
            ControlRequest::Stop => "stop"@,
            ControlRequest::Status => "status"@,
            ControlRequest::VerifyCleanup => "verify_cleanup"@,
            ControlRequest::ProbeEnforcement { .. } => "probe_enforcement"@,
            ControlRequest::Attach { .. } => "attach"@,
            ControlRequest::Goodbye => "goodbye"@,
        }
    }

    /// The operation's stable name.
    #[must_use]
    pub fn as_str(&self) -> (name: &'static str)
        ensures
            name@ == self.name(),
    {
        match self {
            ControlRequest::Hello { .. } => "hello",
            ControlRequest::Activate { .. } => "activate",
            ControlRequest::Wait { .. } => "wait",
            ControlRequest::Stop => "stop",
            ControlRequest::Status => "status",
            ControlRequest::VerifyCleanup => "verify_cleanup",
            ControlRequest::ProbeEnforcement { .. } => "probe_enforcement",
            ControlRequest::Attach { .. } => "attach",
            ControlRequest::Goodbye => "goodbye",
        }
    }

    /// The text of a request. It says nothing of a token.
    pub open spec fn text(self) -> Seq<char> {
        match self {
            ControlRequest::Hello { protocol, session_id, generation } => "Hello { protocol: "@
                + text::decimal(protocol as nat) + ", session_id: "@ + session::hyphenated_text(
                session_id.0,
            ) + ", generation: "@ + text::decimal(generation as nat) + " }"@,
            ControlRequest::Activate { .. } => "Activate { token: \"<redacted>\" }"@,
            ControlRequest::Wait { deadline_millis } => "Wait { deadline_millis: "@ + text::decimal(
                deadline_millis as nat,
            ) + " }"@,
            ControlRequest::Stop => "Stop"@,
            ControlRequest::Status => "Status"@,
            ControlRequest::VerifyCleanup => "VerifyCleanup"@,
            ControlRequest::ProbeEnforcement { request } => "ProbeEnforcement { request: "@
                + probe_text::request_text(request) + " }"@,
            ControlRequest::Attach { window } => "Attach { window: WindowSize { rows: "@
                + text::decimal(window.rows as nat) + ", cols: "@ + text::decimal(
                window.cols as nat,
            ) + " } }"@,
            ControlRequest::Goodbye => "Goodbye"@,
        }
    }

    /// The request as text, for a trace line. It says nothing of a token.
    pub fn to_text(&self) -> (text: String)
        ensures
            text@ == self.text(),
    {
        match self {
            ControlRequest::Hello { protocol, session_id, generation } => {
                let mut text = "Hello { protocol: ".to_string();
                push_decimal(&mut text, *protocol as u64);
                text.append(", session_id: ");
                text.append(session_id.to_text().as_str());
                text.append(", generation: ");
                push_decimal(&mut text, *generation);
                text.append(" }");
                text
            },
            ControlRequest::Activate { .. } => "Activate { token: \"<redacted>\" }".to_string(),
            ControlRequest::Wait { deadline_millis } => {
                let mut text = "Wait { deadline_millis: ".to_string();
                push_decimal(&mut text, *deadline_millis);
                text.append(" }");
                text
            },
            ControlRequest::Stop => "Stop".to_string(),
            ControlRequest::Status => "Status".to_string(),
            ControlRequest::VerifyCleanup => "VerifyCleanup".to_string(),
            ControlRequest::ProbeEnforcement { request } => {
                let mut text = "ProbeEnforcement { request: ".to_string();
                text.append(request.to_text().as_str());
                text.append(" }");
                text
            },
            ControlRequest::Attach { window } => {
                let mut text = "Attach { window: WindowSize { rows: ".to_string();
                push_decimal(&mut text, window.rows as u64);
                text.append(", cols: ");
                push_decimal(&mut text, window.cols as u64);
                text.append(" } }");
                text
            },
            ControlRequest::Goodbye => "Goodbye".to_string(),
        }
    }
}

/// A request's text is the same whatever token it carries.
pub proof fn law_no_token_is_shown(
    token: [u8; ACTIVATION_TOKEN_BYTES],
    other: [u8; ACTIVATION_TOKEN_BYTES],
)
    ensures
        (ControlRequest::Activate { token }).text() == (ControlRequest::Activate {
            token: other,
        }).text(),
{
}

/// What a run's durable record says of it.
#[derive(Debug, PartialEq, Eq)]
pub struct SessionRecord {
    /// Where the run was when the record was written.
    pub state: LifecycleState,
    /// The events kept while nobody was listening.
    pub events: Vec<LifecycleEvent>,
    /// How the run ended, once its end was observed.
    pub exit: Option<SandboxExit>,
}

/// What a run was doing when it was asked.
#[derive(Debug, PartialEq, Eq)]
pub struct SessionStatus {
    state: LifecycleState,
    record: SessionRecord,
}

impl SessionStatus {
    /// Where the run is now.
    pub closed spec fn now(self) -> LifecycleState {
        self.state
    }

    /// What its record says.
    pub closed spec fn written(self) -> SessionRecord {
        self.record
    }

    /// The status of a run.
    pub fn new(state: LifecycleState, record: SessionRecord) -> (status: Self)
        ensures
            status.now() == state,
            status.written() == record,
    {
        SessionStatus { state, record }
    }

    /// Where the run is, as the supervisor's live machine has it. The record can
    /// lag it by one step.
    #[must_use]
    pub fn state(&self) -> (state: LifecycleState)
        ensures
            state == self.now(),
    {
        self.state
    }

    /// The durable record as it now stands.
    #[must_use]
    pub fn record(&self) -> (record: &SessionRecord)
        ensures
            *record == self.written(),
    {
        &self.record
    }

    /// The events the supervisor kept while nobody was listening.
    #[must_use]
    pub fn events(&self) -> (events: &[LifecycleEvent])
        ensures
            events@ == self.written().events@,
    {
        self.record.events.as_slice()
    }

    /// The run's exit facts, once its end was observed.
    #[must_use]
    pub fn exit(&self) -> (exit: Option<&SandboxExit>)
        ensures
            match exit {
                Some(exit) => self.written().exit == Some(*exit),
                None => self.written().exit is None,
            },
    {
        match &self.record.exit {
            Some(exit) => Some(exit),
            None => None,
        }
    }
}

/// What a bounded wait found. A deadline that passed is not an exit.
#[derive(Debug, PartialEq, Eq)]
pub enum WaitOutcome {
    /// The run ended, and these are the facts.
    Exit(SandboxExit),
    /// The deadline passed with the run still going.
    StillRunning,
}

impl WaitOutcome {
    /// The exit facts, when the run had ended.
    #[must_use]
    pub fn exit(&self) -> (exit: Option<&SandboxExit>)
        ensures
            match exit {
                Some(exit) => *self == WaitOutcome::Exit(*exit),
                None => self is StillRunning,
            },
    {
        match self {
            WaitOutcome::Exit(exit) => Some(exit),
            WaitOutcome::StillRunning => None,
        }
    }
}

/// What a detached supervisor answers.
#[derive(Debug, PartialEq, Eq)]
pub enum ControlReply {
    /// The supervisor's own hello.
    Hello {
        /// The protocol version this supervisor speaks.
        protocol: u32,
        /// The session it owns.
        session_id: SessionId,
        /// The generation it is serving.
        generation: u64,
        /// Where the run was when the connection opened.
        state: LifecycleState,
    },
    /// The activation gate was released.
    Activated {
        /// The state the release moved the run to.
        state: LifecycleState,
        /// The cgroup the run was placed in, if any.
        cgroup: Option<String>,
    },
    /// The wait finished, one way or the other.
    Waited {
        /// The exit facts, or that the run is still going.
        outcome: WaitOutcome,
    },
    /// The run was stopped.
    Stopped {
        /// What was observed.
        exit: SandboxExit,
    },
    /// Where the run is.
    Status {
        /// The status.
        status: Box<SessionStatus>,
    },
    /// Cleanup verification produced a verdict.
    Cleanup {
        /// The verdict.
        verdict: CleanupVerification,
        /// The state the verdict left the run in.
        state: LifecycleState,
    },
    /// The held child attempted the operation, and this is what the kernel said.
    ProbeObservation(ProbeObservation),
    /// The attach was accepted, and this connection is now a terminal.
    AttachAck {
        /// The terminal's state.
        ack: Box<AttachAck>,
    },
    /// The supervisor acknowledged a goodbye.
    Farewell,
    /// The operation was refused.
    Refused {
        /// The refusal.
        refusal: ControlRefusal,
    },
}

/// The name of a reply.
pub open spec fn reply_label(reply: ControlReply) -> Seq<char> {
    match reply {
        ControlReply::Hello { .. } => "hello"@,
        ControlReply::Activated { .. } => "activated"@,
        ControlReply::Waited { .. } => "waited"@,
        ControlReply::Stopped { .. } => "stopped"@,
        ControlReply::Status { .. } => "status"@,
        ControlReply::Cleanup { .. } => "cleanup"@,
        ControlReply::ProbeObservation(_) => "probe_observation"@,
        ControlReply::AttachAck { .. } => "attach_ack"@,
        ControlReply::Farewell => "farewell"@,
        ControlReply::Refused { .. } => "refused"@,
    }
}

/// The stable name of a reply.
pub fn reply_name(reply: &ControlReply) -> (name: &'static str)
    ensures
        name@ == reply_label(*reply),
{
    match reply {
        ControlReply::Hello { .. } => "hello",
        ControlReply::Activated { .. } => "activated",
        ControlReply::Waited { .. } => "waited",
        ControlReply::Stopped { .. } => "stopped",
        ControlReply::Status { .. } => "status",
        ControlReply::Cleanup { .. } => "cleanup",
        ControlReply::ProbeObservation(_) => "probe_observation",
        ControlReply::AttachAck { .. } => "attach_ack",
        ControlReply::Farewell => "farewell",
        ControlReply::Refused { .. } => "refused",
    }
}

} // verus!
