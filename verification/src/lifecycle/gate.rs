//! The activation gate: what a prepared child is held by, and what releases it.
//!
//! Two kinds of secret guard two different things. The [`ActivationHandle`]
//! proves that a caller may ask for the release; the [`GateSecrets`] are what
//! the child recognises, so that a stray copy of the activation gate descriptor cannot
//! start anything. A prepared sandbox keeps only a SHA-256 digest of the token.
//!
//! Single use is enforced by the state machine, not by ownership of the handle:
//! the first activation leaves the one state from which activation is reachable.

use vstd::prelude::*;
use vstd::string::StringExecFns;
use crate::text;
use crate::text::{push_decimal, push_signed};
use super::exit::{PreExecStage, ReapError, SupervisorStage};
use super::session;
use super::session::SessionId;
use super::state::LifecycleState;

verus! {

/// Length of an activation token, in bytes.
pub const ACTIVATION_TOKEN_BYTES: usize = 32;

/// Length of the stored token digest, in bytes.
pub const TOKEN_DIGEST_BYTES: usize = 32;

/// Length of a gate message, in bytes.
pub const GATE_MESSAGE_BYTES: usize = 16;

/// The error of the system's source of randomness.
#[verifier::external_type_specification]
#[verifier::external_body]
pub struct ExRandomError(getrandom::Error);

/// Calls `getrandom::fill`, which fills bytes from the system's source of
/// randomness or fails. Nothing is claimed of the bytes or of success.
#[verifier::external_body]
pub(crate) fn draw_random<const N: usize>() -> (drawn: Result<[u8; N], getrandom::Error>) {
    let mut bytes = [0u8; N];
    match getrandom::fill(&mut bytes) {
        Ok(()) => Ok(bytes),
        Err(err) => Err(err),
    }
}

/// Calls `zeroize::Zeroize::zeroize` on an array of bytes, which overwrites
/// every byte with zero.
#[verifier::external_body]
pub(crate) fn wipe<const N: usize>(bytes: &mut [u8; N])
    ensures
        forall|i: int| 0 <= i < N ==> final(bytes)@[i] == 0u8,
    opens_invariants none
    no_unwind
{
    zeroize::Zeroize::zeroize(bytes);
}

/// Calls `core::hint::black_box`, which returns its argument and keeps the
/// optimizer from seeing that it does.
pub assume_specification<T>[ core::hint::black_box::<T> ](dummy: T) -> (same: T)
    ensures
        same == dummy,
;

/// The SHA-256 digest of a byte string.
pub uninterp spec fn sha256(bytes: Seq<u8>) -> Seq<u8>;

/// Calls `sha2::Sha256::digest`. The digest is a function of the bytes alone,
/// named by [`sha256`].
#[verifier::external_body]
fn digest_of(bytes: &[u8; ACTIVATION_TOKEN_BYTES]) -> (digest: [u8; TOKEN_DIGEST_BYTES])
    ensures
        digest@ == sha256(bytes@),
{
    <sha2::Sha256 as sha2::Digest>::digest(bytes).into()
}

/// SHA-256 of an activation token: what a prepared sandbox stores instead of the
/// token itself.
pub fn token_digest(token: &[u8; ACTIVATION_TOKEN_BYTES]) -> (digest: [u8; TOKEN_DIGEST_BYTES])
    ensures
        digest@ == sha256(token@),
{
    digest_of(token)
}

/// Compare two byte strings without leaking where they first differ.
///
/// Accumulates the difference of every byte pair and inspects the result once.
/// The lengths are no secret.
pub fn ct_eq(left: &[u8], right: &[u8]) -> (same: bool)
    ensures
        same == (left@ == right@),
{
    if left.len() != right.len() {
        return false;
    }
    let mut accumulator: u8 = 0;
    let mut i: usize = 0;
    assert(left@.take(0) =~= right@.take(0));
    while i < left.len()
        invariant
            i <= left@.len(),
            left@.len() == right@.len(),
            accumulator == 0 <==> left@.take(i as int) == right@.take(i as int),
        decreases left@.len() - i,
    {
        let before: u8 = accumulator;
        let lhs: u8 = left[i];
        let rhs: u8 = right[i];
        accumulator = before | (lhs ^ rhs);
        i += 1;
        proof {
            assert((before | (lhs ^ rhs)) == 0 <==> (before == 0 && lhs == rhs)) by (bit_vector);
            assert(left@.take(i as int) =~= left@.take(i - 1).push(lhs));
            assert(right@.take(i as int) =~= right@.take(i - 1).push(rhs));
            if left@.take(i as int) == right@.take(i as int) {
                assert(left@.take(i as int)[i - 1] == right@.take(i as int)[i - 1]);
                assert(left@.take(i as int).drop_last() =~= left@.take(i - 1));
                assert(right@.take(i as int).drop_last() =~= right@.take(i - 1));
            }
        }
    }
    proof {
        assert(left@.take(i as int) =~= left@);
        assert(right@.take(i as int) =~= right@);
    }
    core::hint::black_box(accumulator) == 0
}

/// The messages that a held child acts on. Drawn before the fork, so that only
/// the supervisor and its child know them. Wiped on drop.
pub struct GateSecrets {
    release: [u8; GATE_MESSAGE_BYTES],
    abort: [u8; GATE_MESSAGE_BYTES],
    probe: [u8; GATE_MESSAGE_BYTES],
}

/// The three messages of a gate.
pub struct SecretsView {
    /// Proceed to `execve`.
    pub release: Seq<u8>,
    /// Stop without running anything.
    pub abort: Seq<u8>,
    /// Attempt one operation, answer, and wait on.
    pub probe: Seq<u8>,
}

impl View for GateSecrets {
    type V = SecretsView;

    closed spec fn view(&self) -> SecretsView {
        SecretsView { release: self.release@, abort: self.abort@, probe: self.probe@ }
    }
}

/// Whether every byte of a message is zero.
pub open spec fn is_wiped(message: Seq<u8>) -> bool {
    forall|i: int| 0 <= i < message.len() ==> message[i] == 0u8
}

impl Drop for GateSecrets {
    fn drop(&mut self)
        ensures
            is_wiped(final(self)@.release),
            is_wiped(final(self)@.abort),
            is_wiped(final(self)@.probe),
        opens_invariants none
        no_unwind
    {
        wipe(&mut self.release);
        wipe(&mut self.abort);
        wipe(&mut self.probe);
    }
}

/// What a message on the activation gate descriptor asks the child to do.
#[derive(Debug, Clone, Copy, PartialEq, Eq, Structural)]
pub enum GateDecision {
    /// Proceed to `execve`.
    Release,
    /// Stop without running anything.
    Abort,
    /// Attempt one operation, answer, and go on waiting.
    Probe,
    /// Refused: whoever wrote this does not hold the activation gate's secrets.
    Unknown,
}

/// What `message` asks of a child that holds `secrets`. A message that is two of
/// them at once is none that this gate speaks.
pub open spec fn decision(secrets: SecretsView, message: Seq<u8>) -> GateDecision {
    let release = message == secrets.release;
    let abort = message == secrets.abort;
    let probe = message == secrets.probe;
    if release && !abort && !probe {
        GateDecision::Release
    } else if abort && !release && !probe {
        GateDecision::Abort
    } else if probe && !release && !abort {
        GateDecision::Probe
    } else {
        GateDecision::Unknown
    }
}

impl GateSecrets {
    /// Draw fresh messages from the system's source of randomness. What they are
    /// depends on chance, and whether they can be drawn on the machine;
    /// [`Self::from_draws`] says what each outcome of the draws comes to.
    pub fn generate() -> (drawn: Result<Self, getrandom::Error>)
        ensures
            drawn matches Ok(secrets) ==> secrets@.release.len() == GATE_MESSAGE_BYTES
                && secrets@.abort.len() == GATE_MESSAGE_BYTES && secrets@.probe.len()
                == GATE_MESSAGE_BYTES,
    {
        GateSecrets::from_draws(draw_random(), draw_random(), draw_random())
    }

    /// The secrets that three draws gave: their messages as they were drawn, or
    /// the first failure among them.
    pub fn from_draws(
        release: Result<[u8; GATE_MESSAGE_BYTES], getrandom::Error>,
        abort: Result<[u8; GATE_MESSAGE_BYTES], getrandom::Error>,
        probe: Result<[u8; GATE_MESSAGE_BYTES], getrandom::Error>,
    ) -> (drawn: Result<Self, getrandom::Error>)
        ensures
            match (release, abort, probe) {
                (Err(err), _, _) => drawn == Err::<Self, getrandom::Error>(err),
                (Ok(_), Err(err), _) => drawn == Err::<Self, getrandom::Error>(err),
                (Ok(_), Ok(_), Err(err)) => drawn == Err::<Self, getrandom::Error>(err),
                (Ok(release), Ok(abort), Ok(probe)) => drawn matches Ok(secrets) && secrets@ == (
                SecretsView { release: release@, abort: abort@, probe: probe@ }),
            },
    {
        match (release, abort, probe) {
            (Err(err), _, _) => Err(err),
            (_, Err(err), _) => Err(err),
            (_, _, Err(err)) => Err(err),
            (Ok(release), Ok(abort), Ok(probe)) => Ok(
                GateSecrets::from_messages(release, abort, probe),
            ),
        }
    }

    /// The secrets with these messages.
    pub fn from_messages(
        release: [u8; GATE_MESSAGE_BYTES],
        abort: [u8; GATE_MESSAGE_BYTES],
        probe: [u8; GATE_MESSAGE_BYTES],
    ) -> (secrets: Self)
        ensures
            secrets@ == (SecretsView { release: release@, abort: abort@, probe: probe@ }),
    {
        GateSecrets { release, abort, probe }
    }

    /// The message that releases the child.
    pub fn release(&self) -> (message: &[u8; GATE_MESSAGE_BYTES])
        ensures
            message@ == self@.release,
    {
        &self.release
    }

    /// The message that ends the child's wait without running anything.
    pub fn abort(&self) -> (message: &[u8; GATE_MESSAGE_BYTES])
        ensures
            message@ == self@.abort,
    {
        &self.abort
    }

    /// The message that announces a probe.
    pub fn probe(&self) -> (message: &[u8; GATE_MESSAGE_BYTES])
        ensures
            message@ == self@.probe,
    {
        &self.probe
    }

    /// Decide what a message that arrived on the activation gate means.
    ///
    /// Every comparison runs whichever message arrived, so the work does not
    /// depend on it.
    pub fn classify(&self, message: &[u8; GATE_MESSAGE_BYTES]) -> (decided: GateDecision)
        ensures
            decided == decision(self@, message@),
    {
        let is_release = ct_eq(message.as_slice(), self.release.as_slice());
        let is_abort = ct_eq(message.as_slice(), self.abort.as_slice());
        let is_probe = ct_eq(message.as_slice(), self.probe.as_slice());
        match (is_release, is_abort, is_probe) {
            (true, false, false) => GateDecision::Release,
            (false, true, false) => GateDecision::Abort,
            (false, false, true) => GateDecision::Probe,
            _ => GateDecision::Unknown,
        }
    }

    /// The secrets as text, which shows none of them.
    pub fn to_text(&self) -> (text: String)
        ensures
            text@
                == "GateSecrets { release: \"<redacted>\", abort: \"<redacted>\", probe: \"<redacted>\" }"@,
    {
        "GateSecrets { release: \"<redacted>\", abort: \"<redacted>\", probe: \"<redacted>\" }".to_string()
    }
}

/// Only the exact release message releases, and only the exact abort message
/// aborts.
pub proof fn law_only_the_secret_releases(secrets: SecretsView, message: Seq<u8>)
    ensures
        decision(secrets, message) is Release ==> message == secrets.release,
        decision(secrets, message) is Abort ==> message == secrets.abort,
        decision(secrets, message) is Probe ==> message == secrets.probe,
        message != secrets.release && message != secrets.abort && message != secrets.probe
            ==> decision(secrets, message) is Unknown,
{
}

/// A gate whose messages differ recognises each of them.
pub proof fn law_a_gate_recognises_its_own_messages(secrets: SecretsView)
    requires
        secrets.release != secrets.abort,
        secrets.release != secrets.probe,
        secrets.abort != secrets.probe,
    ensures
        decision(secrets, secrets.release) is Release,
        decision(secrets, secrets.abort) is Abort,
        decision(secrets, secrets.probe) is Probe,
{
}

/// The capability that releases one prepared child. Wiped on drop.
pub struct ActivationHandle {
    session_id: SessionId,
    generation: u64,
    token: [u8; ACTIVATION_TOKEN_BYTES],
}

/// What a handle names.
pub struct HandleView {
    /// The session it activates.
    pub session_id: SessionId,
    /// The generation it activates.
    pub generation: u64,
    /// The secret that proves it.
    pub token: Seq<u8>,
}

impl View for ActivationHandle {
    type V = HandleView;

    closed spec fn view(&self) -> HandleView {
        HandleView {
            session_id: self.session_id,
            generation: self.generation,
            token: self.token@,
        }
    }
}

impl Drop for ActivationHandle {
    fn drop(&mut self)
        ensures
            is_wiped(final(self)@.token),
        opens_invariants none
        no_unwind
    {
        wipe(&mut self.token);
    }
}

impl ActivationHandle {
    /// The handle of a session, with its token.
    pub fn new(
        session_id: SessionId,
        generation: u64,
        mut token: [u8; ACTIVATION_TOKEN_BYTES],
    ) -> (handle: Self)
        ensures
            handle@ == (HandleView { session_id, generation, token: token@ }),
    {
        let handle = ActivationHandle { session_id, generation, token };
        wipe(&mut token);
        handle
    }

    /// The session this handle activates.
    #[must_use]
    pub fn session_id(&self) -> (id: SessionId)
        ensures
            id == self@.session_id,
    {
        self.session_id
    }

    /// The generation this handle activates.
    #[must_use]
    pub fn generation(&self) -> (generation: u64)
        ensures
            generation == self@.generation,
    {
        self.generation
    }

    /// The token.
    pub fn token(&self) -> (token: &[u8; ACTIVATION_TOKEN_BYTES])
        ensures
            token@ == self@.token,
    {
        &self.token
    }

    /// The handle as text: its session and generation, and nothing of its token.
    pub fn to_text(&self) -> (text: String)
        ensures
            text@ == "ActivationHandle { session_id: "@ + session::hyphenated_text(
                self@.session_id.0,
            ) + ", generation: "@ + text::decimal(self@.generation as nat)
                + ", token: \"<redacted>\" }"@,
    {
        let mut text = "ActivationHandle { session_id: ".to_string();
        text.append(self.session_id.to_text().as_str());
        text.append(", generation: ");
        push_decimal(&mut text, self.generation);
        text.append(", token: \"<redacted>\" }");
        text
    }
}

/// Everything an activation can be refused for. The messages name no secret.
#[derive(Debug, Clone, Copy, PartialEq, Eq, Structural)]
pub enum ActivationError {
    /// The handle belongs to another session.
    WrongSession {
        /// The session that owns this gate.
        expected: SessionId,
        /// The session named by the handle.
        supplied: SessionId,
    },
    /// The handle belongs to another generation of the same session.
    WrongGeneration {
        /// The generation that owns this gate.
        expected: u64,
        /// The generation named by the handle.
        supplied: u64,
    },
    /// The activation gate's expiry passed. It is closed for good and the child has
    /// been stopped.
    ActivationExpired,
    /// The token did not match.
    InvalidActivationToken,
    /// The activation gate was already claimed.
    AlreadyActivated,
    /// The run was stopped before activation.
    AlreadyStopped,
    /// The activation gate is closed for a reason with no more specific name.
    GateUnavailable {
        /// The state the machine was in when activation was attempted.
        state: LifecycleState,
    },
    /// The child was released but died before `execve` completed.
    PreExecFailed {
        /// Where in the pre-exec sequence it stopped.
        stage: PreExecStage,
        /// Platform error number captured at that point.
        errno: i32,
    },
    /// The supervisor's own machinery failed.
    SupervisorFailed {
        /// Which supervisor step failed.
        stage: SupervisorStage,
        /// Platform error number captured at that point.
        errno: i32,
    },
}

impl ActivationError {
    /// Why a gate is shut in `state`.
    pub open spec fn closed_gate(state: LifecycleState) -> ActivationError {
        match state {
            LifecycleState::Activating => ActivationError::AlreadyActivated,
            LifecycleState::Running => ActivationError::AlreadyActivated,
            LifecycleState::Exited => ActivationError::AlreadyActivated,
            LifecycleState::Stopping => ActivationError::AlreadyStopped,
            LifecycleState::Stopped => ActivationError::AlreadyStopped,
            _ => ActivationError::GateUnavailable { state },
        }
    }

    /// The text of an error.
    pub open spec fn text(self) -> Seq<char> {
        match self {
            ActivationError::WrongSession { expected, supplied } =>
                "activation handle is for session "@ + session::hyphenated_text(supplied.0)
                    + ", not "@ + session::hyphenated_text(expected.0),
            ActivationError::WrongGeneration { expected, supplied } =>
                "activation handle is for generation "@ + text::decimal(supplied as nat) + ", not "@
                    + text::decimal(expected as nat),
            ActivationError::ActivationExpired => "activation expired before it was used"@,
            ActivationError::InvalidActivationToken => "activation token does not match"@,
            ActivationError::AlreadyActivated => "this sandbox has already been activated"@,
            ActivationError::AlreadyStopped => "this sandbox was stopped before activation"@,
            ActivationError::GateUnavailable { state } =>
                "the activation gate is not open in state "@ + state.name(),
            ActivationError::PreExecFailed { stage, errno } =>
                "child failed before exec at stage "@ + stage.name() + ": errno "@
                    + text::signed_decimal(errno as int),
            ActivationError::SupervisorFailed { stage, errno } => "supervisor failed at stage "@
                + stage.name() + ": errno "@ + text::signed_decimal(errno as int),
        }
    }

    /// Map a closed gate to the reason it is shut.
    pub fn from_closed_gate(state: LifecycleState) -> (error: Self)
        ensures
            error == ActivationError::closed_gate(state),
    {
        match state {
            LifecycleState::Activating | LifecycleState::Running | LifecycleState::Exited =>
                ActivationError::AlreadyActivated,
            LifecycleState::Stopping | LifecycleState::Stopped => ActivationError::AlreadyStopped,
            other => ActivationError::GateUnavailable { state: other },
        }
    }

    /// The error as a sentence.
    pub fn to_text(&self) -> (text: String)
        ensures
            text@ == self.text(),
    {
        match self {
            ActivationError::WrongSession { expected, supplied } => {
                let mut text = "activation handle is for session ".to_string();
                text.append(supplied.to_text().as_str());
                text.append(", not ");
                text.append(expected.to_text().as_str());
                text
            },
            ActivationError::WrongGeneration { expected, supplied } => {
                let mut text = "activation handle is for generation ".to_string();
                push_decimal(&mut text, *supplied);
                text.append(", not ");
                push_decimal(&mut text, *expected);
                text
            },
            ActivationError::ActivationExpired => "activation expired before it was used".to_string(),
            ActivationError::InvalidActivationToken => "activation token does not match".to_string(),
            ActivationError::AlreadyActivated =>
                "this sandbox has already been activated".to_string(),
            ActivationError::AlreadyStopped =>
                "this sandbox was stopped before activation".to_string(),
            ActivationError::GateUnavailable { state } => {
                let mut text = "the activation gate is not open in state ".to_string();
                text.append(state.as_str());
                text
            },
            ActivationError::PreExecFailed { stage, errno } => {
                let mut text = "child failed before exec at stage ".to_string();
                text.append(stage.as_str());
                text.append(": errno ");
                push_signed(&mut text, *errno as i64);
                text
            },
            ActivationError::SupervisorFailed { stage, errno } => {
                let mut text = "supervisor failed at stage ".to_string();
                text.append(stage.as_str());
                text.append(": errno ");
                push_signed(&mut text, *errno as i64);
                text
            },
        }
    }
}

/// Everything a stop can be refused for.
#[derive(Debug, Clone, Copy, PartialEq, Eq, Structural)]
pub enum StopError {
    /// A stop is not legal from this state.
    NotStoppable {
        /// The state the machine was in.
        state: LifecycleState,
    },
    /// The stop signal could not be delivered, so nothing is claimed.
    SignalFailed {
        /// The pid or process group the signal was aimed at.
        target: i32,
        /// Platform error number from the signal.
        errno: i32,
    },
    /// The stop was requested but the child's death was never observed.
    Reap(ReapError),
}

impl StopError {
    /// The text of an error.
    pub open spec fn text(self) -> Seq<char> {
        match self {
            StopError::NotStoppable { state } => "stop is not legal in state "@ + state.name(),
            StopError::SignalFailed { target, errno } => "stop signal could not be delivered to "@
                + text::signed_decimal(target as int) + ": errno "@ + text::signed_decimal(
                errno as int,
            ),
            StopError::Reap(err) => err.text(),
        }
    }

    /// The error as a sentence.
    pub fn to_text(&self) -> (text: String)
        ensures
            text@ == self.text(),
    {
        match self {
            StopError::NotStoppable { state } => {
                let mut text = "stop is not legal in state ".to_string();
                text.append(state.as_str());
                text
            },
            StopError::SignalFailed { target, errno } => {
                let mut text = "stop signal could not be delivered to ".to_string();
                push_signed(&mut text, *target as i64);
                text.append(": errno ");
                push_signed(&mut text, *errno as i64);
                text
            },
            StopError::Reap(err) => err.to_text(),
        }
    }
}

} // verus!
