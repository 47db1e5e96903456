//! A child that was forked, confined, and is held before `execve`.
//!
//! [`PreparedSandbox`] decides; its driver forks, reads and writes the
//! descriptors, signals and reaps, and hands back what it observed. Every method
//! appends what the driver has to do, in order, and the driver does it before
//! it goes on.

use vstd::prelude::*;
use vstd::string::StringExecFns;
use crate::capability_modes::landlock_map::LandlockRightsAvailable;
use crate::errno;
use crate::errno::{not_implemented, EINVAL, EPIPE};
use crate::text;
use crate::text::push_signed;
use crate::time::{Nanos, Timestamp};
use super::activated;
use super::activated::{ActivatedSandbox, ActivatedView};
use super::child;
use super::child::ChildFacts;
use super::cleanup;
use super::cleanup::{
    question, verify_and_record, Answers, CleanupError, CleanupVerification, DeathObservation,
    Question,
};
use super::effect::{report, report_change, Effect};
use super::events::{ActivationOutcome, LifecycleEventKind};
use super::exit;
use super::exit::{
    ActivationObservation, ExitOutcome, PreExecStage, ReapError, SandboxExit, SupervisorStage,
};
use super::gate;
use super::gate::{
    ct_eq, draw_random, token_digest, wipe, ActivationError, ActivationHandle, GateSecrets,
    HandleView, SecretsView, StopError, ACTIVATION_TOKEN_BYTES, GATE_MESSAGE_BYTES,
    TOKEN_DIGEST_BYTES,
};
use super::identity;
use super::identity::ProcessIdentity;
use super::image;
use super::image::{refuse_off_platform, refuse_unsupported, resolve_program, ExecImage};
use super::plan::ValidatedPlan;
use super::policy;
use super::policy::{proxy_policy_for, PlatformSandbox, ProxyOnlyPolicy, ProxyView};
use super::prepare_error::PrepareError;
use super::probe;
use super::probe::{
    classify_reply, encode_request, installed_mechanism, observation_at, settled_before_asking,
    EnforcementMechanism, Platform, ProbeError, ProbeIndeterminate, ProbeObservation, ProbeOutcome,
    ProbeRequest,
};
use super::record;
use super::record::{classify_prepare_record, observe_gate_ending, prepare_outcome};
use super::session;
use super::session::{SessionId, SessionIdError, SessionIds};
use super::state;
use super::state::{LifecycleOp, LifecycleState, Transition, TransitionError};
use super::sync_core::SharedLifecycle;

verus! {

/// A child held at the activation gate.
pub struct PreparedSandbox {
    session_id: SessionId,
    generation: u64,
    identity: ProcessIdentity,
    process_group: i32,
    shared: SharedLifecycle,
    gate_open: bool,
    status_open: bool,
    proxy_policy: Option<ProxyOnlyPolicy>,
    token_digest: [u8; TOKEN_DIGEST_BYTES],
    secrets: Option<GateSecrets>,
    expiry: Option<Nanos>,
    prepared_at: Nanos,
    child_owned: bool,
    last_exit: Option<SandboxExit>,
}

/// What is known of a prepared run.
pub struct PreparedView {
    /// The session.
    pub session_id: SessionId,
    /// Which preparation of that session this is.
    pub generation: u64,
    /// The child.
    pub identity: ProcessIdentity,
    /// The process group the child leads.
    pub process_group: i32,
    /// Where the run is.
    pub state: LifecycleState,
    /// Whether the right to write the activation gate is spent.
    pub gate_claimed: bool,
    /// Whether the activation gate's write end is held.
    pub gate_open: bool,
    /// Whether the status descriptor is held.
    pub status_open: bool,
    /// The rule a listener is answered from.
    pub proxy_policy: Option<ProxyView>,
    /// The digest of the token that releases the child.
    pub token_digest: Seq<u8>,
    /// The messages the child acts on, until they are forgotten.
    pub secrets: Option<SecretsView>,
    /// How long the activation gate may be used.
    pub expiry: Option<Nanos>,
    /// When the preparation began.
    pub prepared_at: Nanos,
    /// Whether there is an unreaped child to answer for.
    pub child_owned: bool,
    /// How the run ended, if it ended here.
    pub last_exit: Option<SandboxExit>,
}

/// The view of optional secrets.
pub open spec fn messages_of(secrets: Option<GateSecrets>) -> Option<SecretsView> {
    match secrets {
        Some(secrets) => Some(secrets@),
        None => None,
    }
}

impl View for PreparedSandbox {
    type V = PreparedView;

    closed spec fn view(&self) -> PreparedView {
        PreparedView {
            session_id: self.session_id,
            generation: self.generation,
            identity: self.identity,
            process_group: self.process_group,
            state: self.shared@.state,
            gate_claimed: self.shared@.gate_claimed,
            gate_open: self.gate_open,
            status_open: self.status_open,
            proxy_policy: policy::rule_of(self.proxy_policy),
            token_digest: self.token_digest@,
            secrets: messages_of(self.secrets),
            expiry: self.expiry,
            prepared_at: self.prepared_at,
            child_owned: self.child_owned,
            last_exit: self.last_exit,
        }
    }
}

impl PreparedView {
    /// A run that can still be released is held whole: its gate is open and
    /// unclaimed, its status descriptor and its secrets are there, and its child
    /// is unreaped.
    pub open spec fn wf(self) -> bool {
        (self.state is Preparing || self.state is Prepared) ==> {
            &&& self.gate_open
            &&& !self.gate_claimed
            &&& self.status_open
            &&& self.secrets is Some
            &&& self.child_owned
        }
    }

    /// Whether the program was observed to start, as far as the run's end here
    /// tells.
    pub open spec fn recorded(self) -> Option<ActivationObservation> {
        match self.last_exit {
            Some(exit) => Some(exit.ran()),
            None => None,
        }
    }

    /// The run after `op`, where it is legal.
    pub open spec fn moved(self, op: LifecycleOp) -> PreparedView {
        PreparedView { state: activated::moved(self.state, op), ..self }
    }

    /// What `op` has to be told to.
    pub open spec fn move_effects(self, op: LifecycleOp) -> Seq<Effect> {
        activated::move_effects(self.state, op, self.recorded())
    }

    /// The run once its gate is closed.
    pub open spec fn aborted(self) -> PreparedView {
        PreparedView { gate_claimed: true, gate_open: false, ..self }
    }

    /// How a gate is closed: with the abort message only where nobody has the
    /// right to write yet, and reported only where a gate was there to close.
    pub open spec fn abort_effects(self) -> Seq<Effect> {
        if !self.gate_open {
            Seq::empty()
        } else if !self.gate_claimed && self.secrets is Some {
            seq![
                Effect::WriteAbort,
                Effect::CloseGate,
                Effect::Emit(LifecycleEventKind::GateAborted),
            ]
        } else {
            seq![Effect::CloseGate, Effect::Emit(LifecycleEventKind::GateAborted)]
        }
    }

    /// The run with its secrets forgotten.
    pub open spec fn forgotten(self) -> PreparedView {
        PreparedView {
            token_digest: probe::zero_bytes(TOKEN_DIGEST_BYTES as int),
            secrets: None,
            ..self
        }
    }

    /// The run with this end recorded.
    pub open spec fn ended(
        self,
        outcome: ExitOutcome,
        activation: ActivationObservation,
    ) -> PreparedView {
        PreparedView {
            last_exit: Some(SandboxExit::of(outcome, activation, self.identity)),
            ..self
        }
    }

    /// The run after a failed preparation.
    pub open spec fn failed_prepare(self, stage: PreExecStage, errno: i32) -> PreparedView {
        self.moved(LifecycleOp::PrepareFailed).ended(
            record::outcome_of(stage, errno),
            ActivationObservation::NotActivated,
        )
    }

    /// What a failed preparation has to be told to.
    pub open spec fn fail_prepare_effects(self, stage: PreExecStage, errno: i32) -> Seq<Effect> {
        seq![
            Effect::Emit(
                LifecycleEventKind::ChildExited { outcome: record::outcome_of(stage, errno) },
            ),
        ] + self.move_effects(LifecycleOp::PrepareFailed) + seq![
            Effect::Persist {
                state: self.moved(LifecycleOp::PrepareFailed).state,
                activation: Some(ActivationObservation::NotActivated),
            },
        ]
    }

    /// Whether the activation gate's lifetime has run out at `now`.
    pub open spec fn expired_at(self, now: Nanos) -> bool {
        match self.expiry {
            None => false,
            Some(limit) => if now.0 >= self.prepared_at.0 {
                now.0 - self.prepared_at.0 >= limit.0
            } else {
                limit.0 == 0
            },
        }
    }

    /// Which death the run's cleanup may rely on.
    pub open spec fn death(self) -> DeathObservation {
        if self.child_owned {
            DeathObservation::NotReaped
        } else {
            DeathObservation::Reaped
        }
    }
}

/// What a fork established of a child.
pub struct AdoptedChild {
    /// The session.
    pub session_id: SessionId,
    /// Which preparation of that session this is.
    pub generation: u64,
    /// The child, as captured at fork.
    pub identity: ProcessIdentity,
    /// The group the child leads.
    pub process_group: i32,
    /// The messages the child was forked with.
    pub secrets: GateSecrets,
    /// The activation gate's lifetime, from the plan.
    pub expiry: Option<Nanos>,
    /// The rule to answer a listener from.
    pub proxy_policy: Option<ProxyOnlyPolicy>,
}

/// Draw an activation token. What it is depends on chance, and whether it can
/// be drawn on the machine; [`token_from`] says what each outcome comes to.
pub fn draw_token() -> (drawn: Result<[u8; ACTIVATION_TOKEN_BYTES], PrepareError>)
    ensures
        drawn matches Err(err) ==> err is TokenGeneration,
{
    token_from(draw_random())
}

/// The token that a draw gave, as it was drawn. Without one there is no gate, so
/// a failed draw refuses the preparation.
pub fn token_from(drawn: Result<[u8; ACTIVATION_TOKEN_BYTES], getrandom::Error>) -> (token: Result<
    [u8; ACTIVATION_TOKEN_BYTES],
    PrepareError,
>)
    ensures
        match drawn {
            Ok(bytes) => token == Ok::<[u8; ACTIVATION_TOKEN_BYTES], PrepareError>(bytes),
            Err(_) => token == Err::<[u8; ACTIVATION_TOKEN_BYTES], PrepareError>(
                PrepareError::TokenGeneration,
            ),
        },
{
    match drawn {
        Ok(bytes) => Ok(bytes),
        Err(_) => Err(PrepareError::TokenGeneration),
    }
}

/// Name a fresh session, later than every one that `ids` named before. A session
/// that cannot be named has no gate either.
pub fn draw_session(ids: &mut SessionIds) -> (drawn: Result<SessionId, PrepareError>)
    ensures
        match drawn {
            Ok(id) => session::is_v7(id.0) && (old(ids)@ matches Some(last) ==> id.0 > last.0)
                && final(ids)@ == Some(id),
            Err(err) => err is TokenGeneration && final(ids)@ == old(ids)@,
        },
{
    session_from(ids.fresh())
}

/// The session that was named, or the refusal where none could be.
pub fn session_from(made: Result<SessionId, SessionIdError>) -> (drawn: Result<
    SessionId,
    PrepareError,
>)
    ensures
        drawn == (match made {
            Ok(id) => Ok::<SessionId, PrepareError>(id),
            Err(_) => Err::<SessionId, PrepareError>(PrepareError::TokenGeneration),
        }),
{
    match made {
        Ok(id) => Ok(id),
        Err(_) => Err(PrepareError::TokenGeneration),
    }
}

/// Draw the messages of a gate, or say that there is no randomness to draw them
/// from.
pub fn draw_secrets() -> (drawn: Result<GateSecrets, PrepareError>)
    ensures
        match drawn {
            Ok(secrets) => secrets@.release.len() == GATE_MESSAGE_BYTES && secrets@.abort.len()
                == GATE_MESSAGE_BYTES && secrets@.probe.len() == GATE_MESSAGE_BYTES,
            Err(err) => err is TokenGeneration,
        },
{
    match GateSecrets::generate() {
        Ok(secrets) => Ok(secrets),
        Err(_) => Err(PrepareError::TokenGeneration),
    }
}

/// Everything a fork needs, decided before it.
pub struct Preparation {
    /// What the child hands to `execve`.
    pub image: ExecImage,
    /// The parts of the policy.
    pub sandbox: PlatformSandbox,
    /// The rule to answer a listener from.
    pub proxy_policy: Option<ProxyOnlyPolicy>,
    /// What the child's sequence has to do.
    pub child: ChildFacts,
}

impl Preparation {
    /// Decide whether a plan can be forked here, and with what. The checks come
    /// in a fixed order: what the plan asks for, then what the platform has, then
    /// its program, then its byte strings, then the platform's rules.
    pub fn of(
        plan: &ValidatedPlan,
        supervised: bool,
        platform: Platform,
        inspected: Result<bool, i32>,
        ruleset: Result<LandlockRightsAvailable, String>,
    ) -> (decided: Result<Self, PrepareError>)
        ensures
            ({
                let program = vstd::utf8::encode_utf8(plan@.program);
                let owned = supervised || !(plan@.session_mode is Interactive || plan@.detached);
                let unlimited = plan@.resource_limits.unlimited();
                let placed = plan@.cgroup_parent is None || platform is Linux;
                let wanted = owned && unlimited && placed;
                let found = crate::path::is_rooted(program) && inspected == Ok::<bool, i32>(true);
                let whole = image::image_of(program, plan@);
                match decided {
                    Ok(decided) => {
                        &&& wanted && found && image::is_clean(whole)
                        &&& policy::spec_fault(plan@.capabilities, platform, ruleset) is None
                        &&& decided.image@ == whole
                        &&& decided.sandbox == policy::parts_for(plan@.capabilities, platform)
                        &&& decided.child == child::facts_of(plan@, platform)
                        &&& policy::rule_of(decided.proxy_policy) == policy::proxy_rule(
                            plan@.capabilities,
                        )
                    },
                    Err(PrepareError::InteractiveNeedsSupervisor) => !owned
                        && plan@.session_mode is Interactive,
                    Err(PrepareError::DetachedNeedsSupervisor) => !owned
                        && !(plan@.session_mode is Interactive),
                    Err(PrepareError::UnsupportedPlanFeature { feature }) => owned && !wanted
                        && feature@ == (if !unlimited {
                        "resource limits"@
                    } else {
                        "cgroup parent"@
                    }),
                    Err(PrepareError::ProgramNotAbsolute { program: named }) => wanted
                        && !crate::path::is_rooted(program) && named@ == plan@.program,
                    Err(PrepareError::ProgramNotAFile { program: named }) => wanted
                        && crate::path::is_rooted(program) && inspected == Ok::<bool, i32>(false)
                        && named@ == program,
                    Err(PrepareError::ProgramUnusable { program: named, errno }) => {
                        &&& wanted && crate::path::is_rooted(program)
                        &&& named@ == program
                        &&& inspected == Err::<bool, i32>(errno) || (inspected == Ok::<bool, i32>(
                            true,
                        ) && errno == 0 && !image::is_clean(whole))
                    },
                    Err(PrepareError::SandboxSpec { reason }) => wanted && found
                        && image::is_clean(whole) && policy::spec_fault(
                        plan@.capabilities,
                        platform,
                        ruleset,
                    ) == Some(reason@),
                    Err(_) => false,
                }
            }),
    {
        if let Err(err) = refuse_unsupported(plan, supervised) {
            return Err(err);
        }
        if let Err(err) = refuse_off_platform(plan, platform) {
            return Err(err);
        }
        let program = match resolve_program(plan.program(), inspected) {
            Ok(program) => program,
            Err(err) => {
                return Err(err);
            },
        };
        let image = match ExecImage::build(&program, plan) {
            Ok(image) => image,
            Err(err) => {
                return Err(err);
            },
        };
        let sandbox = match PlatformSandbox::build(plan, platform, ruleset) {
            Ok(sandbox) => sandbox,
            Err(err) => {
                return Err(err);
            },
        };
        Ok(
            Preparation {
                image,
                sandbox,
                proxy_policy: proxy_policy_for(plan),
                child: ChildFacts::of(plan, platform),
            },
        )
    }
}

/// Have it told that a child is about to be forked here.
pub fn prepare_started(out: &mut Vec<Effect>)
    ensures
        final(out)@ == old(out)@.push(Effect::Emit(LifecycleEventKind::PrepareStarted)),
{
    report(LifecycleEventKind::PrepareStarted, out);
}

/// Have it told that a child was forked by another process. This one did not
/// witness the fork.
pub fn adoption_started(out: &mut Vec<Effect>)
    ensures
        final(out)@ == old(out)@.push(Effect::EmitReconstructed(LifecycleEventKind::PrepareStarted)),
{
    out.push(Effect::EmitReconstructed(LifecycleEventKind::PrepareStarted));
}

/// What an activation attempt came to.
#[derive(Debug, Clone, Copy, PartialEq, Eq, Structural)]
pub enum Activation {
    /// A check refused.
    Refused(ActivationError),
    /// The activation gate had expired. The child is to be reaped, and the end recorded.
    Expired,
    /// This attempt won the claim. The release message is to be written.
    Release,
}

/// What an attempt with `handle` at `now` comes to. The checks come in a fixed
/// order: session, generation, gate, deadline, token.
pub open spec fn judged(run: PreparedView, handle: HandleView, now: Nanos) -> Activation {
    if handle.session_id != run.session_id {
        Activation::Refused(
            ActivationError::WrongSession {
                expected: run.session_id,
                supplied: handle.session_id,
            },
        )
    } else if handle.generation != run.generation {
        Activation::Refused(
            ActivationError::WrongGeneration {
                expected: run.generation,
                supplied: handle.generation,
            },
        )
    } else if !(run.state is Prepared) {
        Activation::Refused(ActivationError::closed_gate(run.state))
    } else if run.expired_at(now) {
        Activation::Expired
    } else if gate::sha256(handle.token) != run.token_digest {
        Activation::Refused(ActivationError::InvalidActivationToken)
    } else {
        Activation::Release
    }
}

/// How an attempt's refusal is reported.
pub open spec fn refusal_event(run: PreparedView, handle: HandleView, now: Nanos) -> ActivationOutcome {
    if handle.session_id != run.session_id {
        ActivationOutcome::RefusedWrongSession
    } else if handle.generation != run.generation {
        ActivationOutcome::RefusedWrongGeneration
    } else if !(run.state is Prepared) {
        ActivationOutcome::RefusedGateClosed { state: run.state }
    } else if run.expired_at(now) {
        ActivationOutcome::RefusedExpired
    } else {
        ActivationOutcome::RefusedInvalidToken
    }
}

/// A failed activation whose child is still to be killed and reaped.
#[derive(Debug, Clone, Copy, PartialEq, Eq, Structural)]
pub struct Failing {
    /// What the child itself reported, if it did.
    pub recorded: Option<ExitOutcome>,
    /// Whether the program is known to have run.
    pub activation: ActivationObservation,
    /// What the caller is told.
    pub error: ActivationError,
}

impl Failing {
    /// A child that said where it stopped: that the program never ran is a fact.
    pub open spec fn before_exec(stage: PreExecStage, errno: i32) -> Failing {
        Failing {
            recorded: Some(ExitOutcome::PreExecFailure { stage, errno }),
            activation: ActivationObservation::NotActivated,
            error: ActivationError::PreExecFailed { stage, errno },
        }
    }

    /// A failure of the supervisor's own machinery, which knows nothing of the
    /// child; only a release that never landed settles that nothing ran.
    pub open spec fn supervisor(stage: SupervisorStage, errno: i32) -> Failing {
        Failing {
            recorded: None,
            activation: if stage is Release {
                ActivationObservation::NotActivated
            } else {
                ActivationObservation::ExecOrKilledPreExec
            },
            error: ActivationError::SupervisorFailed { stage, errno },
        }
    }
}

/// What the status descriptor said after a release.
pub enum Handoff {
    /// The child is gone from the status descriptor: the run goes on here.
    Activated(ActivatedSandbox),
    /// The activation failed. The child is to be killed and reaped.
    Failed(Failing),
    /// The machine refused: there was no release to observe.
    Refused(ActivationError),
}

impl PreparedSandbox {
    /// Take charge of a forked child, and hand out the one handle that can
    /// release it. Only the token's digest is kept.
    pub fn adopt(
        child: AdoptedChild,
        mut token: [u8; ACTIVATION_TOKEN_BYTES],
        now: Nanos,
    ) -> (held: (Self, ActivationHandle))
        ensures
            held.0@ == (PreparedView {
                session_id: child.session_id,
                generation: child.generation,
                identity: child.identity,
                process_group: child.process_group,
                state: LifecycleState::Preparing,
                gate_claimed: false,
                gate_open: true,
                status_open: true,
                proxy_policy: policy::rule_of(child.proxy_policy),
                token_digest: gate::sha256(token@),
                secrets: Some(child.secrets@),
                expiry: child.expiry,
                prepared_at: now,
                child_owned: true,
                last_exit: None,
            }),
            held.0@.wf(),
            held.1@ == (HandleView {
                session_id: child.session_id,
                generation: child.generation,
                token: token@,
            }),
    {
        let handle = ActivationHandle::new(child.session_id, child.generation, token);
        let held = PreparedSandbox {
            session_id: child.session_id,
            generation: child.generation,
            identity: child.identity,
            process_group: child.process_group,
            shared: SharedLifecycle::new(LifecycleState::Preparing),
            gate_open: true,
            status_open: true,
            proxy_policy: child.proxy_policy,
            token_digest: token_digest(&token),
            secrets: Some(child.secrets),
            expiry: child.expiry,
            prepared_at: now,
            child_owned: true,
            last_exit: None,
        };
        wipe(&mut token);
        (held, handle)
    }

    /// Take charge of a child that was forked here for `plan`. The child leads a
    /// group of its own, so the group's number is its pid.
    pub fn prepare(
        plan: &ValidatedPlan,
        session_id: SessionId,
        identity: ProcessIdentity,
        secrets: GateSecrets,
        mut token: [u8; ACTIVATION_TOKEN_BYTES],
        now: Nanos,
    ) -> (held: (Self, ActivationHandle))
        ensures
            held.0@ == (PreparedView {
                session_id,
                generation: plan@.generation,
                identity,
                process_group: identity@.pid,
                state: LifecycleState::Preparing,
                gate_claimed: false,
                gate_open: true,
                status_open: true,
                proxy_policy: policy::proxy_rule(plan@.capabilities),
                token_digest: gate::sha256(token@),
                secrets: Some(secrets@),
                expiry: plan@.gate.activation_expiry,
                prepared_at: now,
                child_owned: true,
                last_exit: None,
            }),
            held.0@.wf(),
            held.1@ == (HandleView { session_id, generation: plan@.generation, token: token@ }),
    {
        let process_group = identity.pid();
        let child = AdoptedChild {
            session_id,
            generation: plan.generation(),
            identity,
            process_group,
            secrets,
            expiry: plan.gate().activation_expiry,
            proxy_policy: proxy_policy_for(plan),
        };
        let held = PreparedSandbox::adopt(child, token, now);
        wipe(&mut token);
        held
    }

    /// The session this child belongs to.
    #[must_use]
    pub fn session_id(&self) -> (id: SessionId)
        ensures
            id == self@.session_id,
    {
        self.session_id
    }

    /// The generation of this preparation.
    #[must_use]
    pub fn generation(&self) -> (generation: u64)
        ensures
            generation == self@.generation,
    {
        self.generation
    }

    /// Where the run was when this handle last touched it.
    #[must_use]
    pub fn state(&self) -> (state: LifecycleState)
        ensures
            state == self@.state,
    {
        self.shared.state()
    }

    /// The child's identity, captured at fork.
    #[must_use]
    pub fn identity(&self) -> (identity: &ProcessIdentity)
        ensures
            *identity == self@.identity,
    {
        &self.identity
    }

    /// The process group the child leads.
    #[must_use]
    pub fn process_group(&self) -> (pgid: i32)
        ensures
            pgid == self@.process_group,
    {
        self.process_group
    }

    /// How the run ended, if it ended before the program took over.
    #[must_use]
    pub fn exit(&self) -> (exit: Option<&SandboxExit>)
        ensures
            match exit {
                Some(exit) => self@.last_exit == Some(*exit),
                None => self@.last_exit is None,
            },
    {
        match &self.last_exit {
            Some(exit) => Some(exit),
            None => None,
        }
    }

    /// The proxy-only confinement in force for this run, if any.
    #[must_use]
    pub fn proxy_mediation(&self) -> (policy: Option<&ProxyOnlyPolicy>)
        ensures
            match policy {
                Some(policy) => self@.proxy_policy == Some(policy@),
                None => self@.proxy_policy is None,
            },
    {
        match &self.proxy_policy {
            Some(policy) => Some(policy),
            None => None,
        }
    }

    /// How long the activation gate may be used, where that is bounded.
    #[must_use]
    pub fn expiry(&self) -> (expiry: Option<Nanos>)
        ensures
            expiry == self@.expiry,
    {
        self.expiry
    }

    /// Whether there is an unreaped child to answer for.
    #[must_use]
    pub fn owns_child(&self) -> (owned: bool)
        ensures
            owned == self@.child_owned,
    {
        self.child_owned
    }

    fn recorded_activation(&self) -> (activation: Option<ActivationObservation>)
        ensures
            activation == self@.recorded(),
    {
        match &self.last_exit {
            Some(exit) => Some(exit.activation()),
            None => None,
        }
    }

    /// Apply an observed fact and have it told.
    fn transition(&mut self, op: LifecycleOp, out: &mut Vec<Effect>) -> (moved: Result<
        LifecycleState,
        TransitionError,
    >)
        ensures
            final(self)@ == old(self)@.moved(op),
            final(out)@ == old(out)@ + old(self)@.move_effects(op),
            moved == (match state::next_state(old(self)@.state, op) {
                Some(to) => Ok::<LifecycleState, TransitionError>(to),
                None => Err::<LifecycleState, TransitionError>(
                    TransitionError { from: old(self)@.state, op },
                ),
            }),
    {
        let activation = self.recorded_activation();
        match self.shared.mark(op) {
            Ok(change) => {
                report_change(change, activation, out);
                Ok(change.to)
            },
            Err(err) => {
                assert(out@ =~= old(out)@ + Seq::<Effect>::empty());
                Err(err)
            },
        }
    }

    /// Have the run's end written down.
    fn persist_exit(&self, out: &mut Vec<Effect>)
        ensures
            final(out)@ == old(out)@.push(
                Effect::Persist { state: self@.state, activation: self@.recorded() },
            ),
    {
        out.push(
            Effect::Persist { state: self.shared.state(), activation: self.recorded_activation() },
        );
    }

    /// Close the activation gate, with the abort message where that may still be written.
    fn abort_gate(&mut self, out: &mut Vec<Effect>)
        ensures
            final(self)@ == old(self)@.aborted(),
            final(out)@ == old(out)@ + old(self)@.abort_effects(),
    {
        let may_write = self.shared.claim_gate_close();
        let speaks = self.secrets.is_some();
        if self.gate_open {
            self.gate_open = false;
            if may_write && speaks {
                out.push(Effect::WriteAbort);
            }
            out.push(Effect::CloseGate);
            report(LifecycleEventKind::GateAborted, out);
        }
        assert(out@ =~= old(out)@ + old(self)@.abort_effects());
    }

    /// Forget both halves of the activation gate's secret material.
    pub fn forget(&mut self)
        ensures
            final(self)@ == old(self)@.forgotten(),
    {
        wipe(&mut self.token_digest);
        self.secrets = None;
        assert(self.token_digest@ =~= probe::zero_bytes(TOKEN_DIGEST_BYTES as int));
    }

    /// Record how the run ended here.
    fn record_exit(&mut self, outcome: ExitOutcome, activation: ActivationObservation) -> (exit:
        SandboxExit)
        ensures
            final(self)@ == old(self)@.ended(outcome, activation),
            exit == SandboxExit::of(outcome, activation, old(self)@.identity),
            exit.ran() == activation,
    {
        let exit = SandboxExit::new(outcome, activation, self.identity.clone());
        self.last_exit = Some(exit.clone());
        exit
    }

    /// Record a failure of the child before the activation gate, and name it.
    fn fail_prepare(&mut self, stage: PreExecStage, errno: i32, out: &mut Vec<Effect>) -> (error:
        PrepareError)
        ensures
            final(self)@ == old(self)@.failed_prepare(stage, errno),
            final(out)@ == old(out)@ + old(self)@.fail_prepare_effects(stage, errno),
            error == (PrepareError::ChildFailed {
                exit: SandboxExit::of(
                    record::outcome_of(stage, errno),
                    ActivationObservation::NotActivated,
                    old(self)@.identity,
                ),
            }),
    {
        let outcome = prepare_outcome(stage, errno);
        report(LifecycleEventKind::ChildExited { outcome }, out);
        let _ = self.transition(LifecycleOp::PrepareFailed, out);
        let exit = self.record_exit(outcome, ActivationObservation::NotActivated);
        self.persist_exit(out);
        assert(out@ =~= old(out)@ + old(self)@.fail_prepare_effects(stage, errno));
        PrepareError::ChildFailed { exit }
    }

    /// Take the listener a child reported. `stolen` is whether its descriptor
    /// could be taken, or an error number and its words.
    ///
    /// A listener that nobody can answer would block the child for ever, so
    /// either failure fails the preparation.
    pub fn adopt_notify_listener(
        &mut self,
        raw: i32,
        stolen: Result<(), (i32, String)>,
        out: &mut Vec<Effect>,
    ) -> (adopted: Result<(), PrepareError>)
        ensures
            match stolen {
                Err((errno, detail)) => {
                    &&& adopted matches Err(PrepareError::SandboxSpec { reason }) && reason@
                        == "could not take the child's seccomp-notify listener (fd "@
                        + text::signed_decimal(raw as int) + " in pid "@ + text::signed_decimal(
                        old(self)@.process_group as int,
                    ) + "): "@ + detail@
                    &&& final(self)@ == old(self)@.failed_prepare(
                        PreExecStage::NetworkFilter,
                        errno,
                    )
                    &&& final(out)@ == old(out)@ + old(self)@.fail_prepare_effects(
                        PreExecStage::NetworkFilter,
                        errno,
                    )
                },
                Ok(()) => if old(self)@.proxy_policy is None {
                    &&& adopted matches Err(PrepareError::SandboxSpec { reason }) && reason@
                        == "the child installed a seccomp-notify listener for a plan that carries no proxy-only policy; there would be nothing to answer it with"@
                    &&& final(self)@ == old(self)@.failed_prepare(
                        PreExecStage::NetworkFilter,
                        EINVAL,
                    )
                    &&& final(out)@ == old(out)@ + old(self)@.fail_prepare_effects(
                        PreExecStage::NetworkFilter,
                        EINVAL,
                    )
                } else {
                    &&& adopted is Ok
                    &&& final(self)@ == old(self)@
                    &&& final(out)@ == old(out)@
                },
            },
            old(self)@.wf() ==> final(self)@.wf(),
    {
        match stolen {
            Err((errno, detail)) => {
                let _ = self.fail_prepare(PreExecStage::NetworkFilter, errno, out);
                let mut reason =
                    "could not take the child's seccomp-notify listener (fd ".to_string();
                push_signed(&mut reason, raw as i64);
                reason.append(" in pid ");
                push_signed(&mut reason, self.process_group as i64);
                reason.append("): ");
                reason.append(detail.as_str());
                Err(PrepareError::SandboxSpec { reason })
            },
            Ok(()) => {
                if self.proxy_policy.is_none() {
                    let _ = self.fail_prepare(PreExecStage::NetworkFilter, EINVAL, out);
                    let reason =
                        "the child installed a seccomp-notify listener for a plan that carries no proxy-only policy; there would be nothing to answer it with".to_string();
                    return Err(PrepareError::SandboxSpec { reason });
                }
                Ok(())
            },
        }
    }

    /// Judge what the child said before the activation gate. Only the ready marker is a
    /// success, and it is a direct observation of two facts: the sandbox is
    /// applied, and the child waits.
    pub fn observe_prepare(
        &mut self,
        said: Result<Option<(u8, i32)>, i32>,
        out: &mut Vec<Effect>,
    ) -> (held: Result<(), PrepareError>)
        ensures
            match record::prepare_verdict(said) {
                Ok(()) => {
                    &&& final(self)@ == old(self)@.moved(LifecycleOp::PrepareSucceeded)
                    &&& final(out)@ == old(out)@ + seq![
                        Effect::Emit(LifecycleEventKind::SandboxApplied),
                        Effect::Emit(LifecycleEventKind::GateReady),
                    ] + old(self)@.move_effects(LifecycleOp::PrepareSucceeded)
                    &&& old(self)@.state is Preparing ==> held is Ok
                    &&& !(old(self)@.state is Preparing) ==> held == Err::<(), PrepareError>(
                        PrepareError::Transition(
                            TransitionError {
                                from: old(self)@.state,
                                op: LifecycleOp::PrepareSucceeded,
                            },
                        ),
                    )
                },
                Err((stage, errno)) => {
                    &&& final(self)@ == old(self)@.failed_prepare(stage, errno)
                    &&& final(out)@ == old(out)@ + old(self)@.fail_prepare_effects(stage, errno)
                    &&& held == Err::<(), PrepareError>(
                        PrepareError::ChildFailed {
                            exit: SandboxExit::of(
                                record::outcome_of(stage, errno),
                                ActivationObservation::NotActivated,
                                old(self)@.identity,
                            ),
                        },
                    )
                },
            },
            old(self)@.wf() ==> final(self)@.wf(),
    {
        match classify_prepare_record(said) {
            Ok(()) => {
                report(LifecycleEventKind::SandboxApplied, out);
                report(LifecycleEventKind::GateReady, out);
                assert(out@ =~= old(out)@ + seq![
                    Effect::Emit(LifecycleEventKind::SandboxApplied),
                    Effect::Emit(LifecycleEventKind::GateReady),
                ]);
                match self.transition(LifecycleOp::PrepareSucceeded, out) {
                    Ok(_) => Ok(()),
                    Err(err) => Err(PrepareError::Transition(err)),
                }
            },
            Err((stage, errno)) => Err(self.fail_prepare(stage, errno, out)),
        }
    }

    /// Whether the activation gate's lifetime has run out at `now`.
    #[must_use]
    pub fn has_expired(&self, now: Nanos) -> (expired: bool)
        ensures
            expired == self@.expired_at(now),
    {
        match self.expiry {
            None => false,
            Some(limit) => now.since(self.prepared_at).0 >= limit.0,
        }
    }

    /// Whether `handle` would release the child at `now`. A driver asks before it
    /// claims the release, so that the child is contained by then.
    #[must_use]
    pub fn admits(&self, handle: &ActivationHandle, now: Nanos) -> (releases: bool)
        ensures
            releases == (judged(self@, handle@, now) is Release),
    {
        if handle.session_id() != self.session_id || handle.generation() != self.generation {
            return false;
        }
        if self.shared.state() != LifecycleState::Prepared || self.has_expired(now) {
            return false;
        }
        let digest = token_digest(handle.token());
        ct_eq(digest.as_slice(), self.token_digest.as_slice())
    }

    /// Ask for the child's release, exactly once.
    ///
    /// Every refusal but an expiry leaves the run as it was. An expiry is
    /// terminal, whatever the token: the run is stopped before the token is even
    /// looked at. On [`Activation::Release`] this call has won the claim, and
    /// the driver writes the release message.
    pub fn activate(&mut self, handle: &ActivationHandle, now: Nanos, out: &mut Vec<Effect>) -> (came_to:
        Activation)
        ensures
            came_to == judged(old(self)@, handle@, now),
            match came_to {
                Activation::Refused(_) => {
                    &&& final(self)@ == old(self)@
                    &&& final(out)@ == old(out)@.push(
                        Effect::Emit(
                            LifecycleEventKind::ActivationAttempted {
                                outcome: refusal_event(old(self)@, handle@, now),
                            },
                        ),
                    )
                },
                Activation::Expired => {
                    &&& final(self)@ == old(self)@.moved(LifecycleOp::BeginStop).aborted()
                    &&& final(out)@ == old(out)@ + seq![
                        Effect::Emit(
                            LifecycleEventKind::ActivationAttempted {
                                outcome: ActivationOutcome::RefusedExpired,
                            },
                        ),
                        Effect::Emit(LifecycleEventKind::StopRequested),
                    ] + old(self)@.move_effects(LifecycleOp::BeginStop)
                        + old(self)@.abort_effects()
                },
                Activation::Release => {
                    &&& final(self)@ == (PreparedView {
                        gate_claimed: true,
                        ..old(self)@.moved(LifecycleOp::BeginActivate)
                    })
                    &&& final(out)@ == old(out)@
                },
            },
            old(self)@.wf() ==> final(self)@.wf(),
    {
        if handle.session_id() != self.session_id {
            report(
                LifecycleEventKind::ActivationAttempted {
                    outcome: ActivationOutcome::RefusedWrongSession,
                },
                out,
            );
            return Activation::Refused(
                ActivationError::WrongSession {
                    expected: self.session_id,
                    supplied: handle.session_id(),
                },
            );
        }
        if handle.generation() != self.generation {
            report(
                LifecycleEventKind::ActivationAttempted {
                    outcome: ActivationOutcome::RefusedWrongGeneration,
                },
                out,
            );
            return Activation::Refused(
                ActivationError::WrongGeneration {
                    expected: self.generation,
                    supplied: handle.generation(),
                },
            );
        }
        let observed = self.shared.state();
        if observed != LifecycleState::Prepared {
            report(
                LifecycleEventKind::ActivationAttempted {
                    outcome: ActivationOutcome::RefusedGateClosed { state: observed },
                },
                out,
            );
            return Activation::Refused(ActivationError::from_closed_gate(observed));
        }
        if self.has_expired(now) {
            report(
                LifecycleEventKind::ActivationAttempted {
                    outcome: ActivationOutcome::RefusedExpired,
                },
                out,
            );
            let _ = self.begin_stop(out);
            self.abort_gate(out);
            assert(out@ =~= old(out)@ + seq![
                Effect::Emit(
                    LifecycleEventKind::ActivationAttempted {
                        outcome: ActivationOutcome::RefusedExpired,
                    },
                ),
                Effect::Emit(LifecycleEventKind::StopRequested),
            ] + old(self)@.move_effects(LifecycleOp::BeginStop) + old(self)@.abort_effects());
            return Activation::Expired;
        }
        let digest = token_digest(handle.token());
        if !ct_eq(digest.as_slice(), self.token_digest.as_slice()) {
            report(
                LifecycleEventKind::ActivationAttempted {
                    outcome: ActivationOutcome::RefusedInvalidToken,
                },
                out,
            );
            return Activation::Refused(ActivationError::InvalidActivationToken);
        }
        let _ = self.shared.try_begin_activate();
        Activation::Release
    }

    /// Request a stop, which rules out any activation at the same instant.
    fn begin_stop(&mut self, out: &mut Vec<Effect>) -> (requested: Result<(), TransitionError>)
        ensures
            match state::next_state(old(self)@.state, LifecycleOp::BeginStop) {
                Some(to) => {
                    &&& requested is Ok
                    &&& final(self)@ == old(self)@.moved(LifecycleOp::BeginStop)
                    &&& final(out)@ == old(out)@.push(
                        Effect::Emit(LifecycleEventKind::StopRequested),
                    ) + old(self)@.move_effects(LifecycleOp::BeginStop)
                },
                None => {
                    &&& requested == Err::<(), TransitionError>(
                        TransitionError { from: old(self)@.state, op: LifecycleOp::BeginStop },
                    )
                    &&& final(self)@ == old(self)@
                    &&& final(out)@ == old(out)@
                },
            },
    {
        let activation = self.recorded_activation();
        match self.shared.begin_stop() {
            Ok(change) => {
                report(LifecycleEventKind::StopRequested, out);
                report_change(change, activation, out);
                Ok(())
            },
            Err(err) => Err(err),
        }
    }

    /// The message that the claim's winner writes. There is one only between a
    /// claim and what [`Self::released`] makes of the write.
    pub fn release_message(&self) -> (message: Option<&[u8; GATE_MESSAGE_BYTES]>)
        ensures
            match message {
                Some(message) => self@.state is Activating && self@.gate_open && self@.secrets
                    is Some && message@ == self@.secrets->0.release,
                None => !(self@.state is Activating && self@.gate_open && self@.secrets is Some),
            },
    {
        if self.shared.state() != LifecycleState::Activating || !self.gate_open {
            return None;
        }
        match &self.secrets {
            Some(secrets) => Some(secrets.release()),
            None => None,
        }
    }

    /// The message that ends a child's wait: what [`Effect::WriteAbort`] writes.
    pub fn abort_message(&self) -> (message: Option<&[u8; GATE_MESSAGE_BYTES]>)
        ensures
            match message {
                Some(message) => self@.secrets is Some && message@ == self@.secrets->0.abort,
                None => self@.secrets is None,
            },
    {
        match &self.secrets {
            Some(secrets) => Some(secrets.abort()),
            None => None,
        }
    }

    /// Record what writing the release came to. The activation gate is closed behind the
    /// message either way.
    pub fn released(&mut self, written: Result<(), i32>, out: &mut Vec<Effect>) -> (going: Result<
        (),
        Failing,
    >)
        ensures
            ({
                let start = old(self)@;
                let shut = PreparedView {
                    gate_open: start.gate_open && start.secrets is None,
                    ..start
                };
                let told = old(out)@ + seq![
                    Effect::Emit(
                        LifecycleEventKind::ActivationAttempted {
                            outcome: ActivationOutcome::Accepted,
                        },
                    ),
                    Effect::Emit(
                        LifecycleEventKind::StateChanged {
                            from: LifecycleState::Prepared,
                            to: LifecycleState::Activating,
                        },
                    ),
                    Effect::Persist {
                        state: LifecycleState::Activating,
                        activation: start.recorded(),
                    },
                ];
                match written {
                    Ok(()) => {
                        &&& going is Ok
                        &&& final(self)@ == shut
                        &&& final(out)@ == told.push(Effect::Emit(LifecycleEventKind::Released))
                    },
                    Err(errno) => {
                        &&& going == Err::<(), Failing>(
                            Failing::supervisor(SupervisorStage::Release, errno),
                        )
                        &&& final(self)@ == shut.moved(LifecycleOp::ActivateFailed).aborted()
                        &&& final(out)@ == told.push(
                            Effect::Emit(
                                LifecycleEventKind::SupervisorFailure {
                                    stage: SupervisorStage::Release,
                                    errno,
                                },
                            ),
                        ) + shut.move_effects(LifecycleOp::ActivateFailed) + shut.abort_effects()
                    },
                }
            }),
            old(self)@.wf() && old(self)@.state is Activating ==> final(self)@.wf(),
    {
        let ghost start = self@;
        if self.secrets.is_some() {
            self.gate_open = false;
        }
        report(
            LifecycleEventKind::ActivationAttempted { outcome: ActivationOutcome::Accepted },
            out,
        );
        report_change(
            Transition { from: LifecycleState::Prepared, to: LifecycleState::Activating },
            self.recorded_activation(),
            out,
        );
        assert(out@ =~= old(out)@ + seq![
            Effect::Emit(
                LifecycleEventKind::ActivationAttempted { outcome: ActivationOutcome::Accepted },
            ),
            Effect::Emit(
                LifecycleEventKind::StateChanged {
                    from: LifecycleState::Prepared,
                    to: LifecycleState::Activating,
                },
            ),
            Effect::Persist { state: LifecycleState::Activating, activation: start.recorded() },
        ]);
        match written {
            Ok(()) => {
                report(LifecycleEventKind::Released, out);
                Ok(())
            },
            Err(errno) => Err(self.fail_activation(SupervisorStage::Release, errno, out)),
        }
    }

    /// Record a failure of the supervisor's own machinery.
    fn fail_activation(
        &mut self,
        stage: SupervisorStage,
        errno: i32,
        out: &mut Vec<Effect>,
    ) -> (failing: Failing)
        ensures
            failing == Failing::supervisor(stage, errno),
            final(self)@ == old(self)@.moved(LifecycleOp::ActivateFailed).aborted(),
            final(out)@ == old(out)@.push(
                Effect::Emit(LifecycleEventKind::SupervisorFailure { stage, errno }),
            ) + old(self)@.move_effects(LifecycleOp::ActivateFailed) + old(self)@.abort_effects(),
    {
        report(LifecycleEventKind::SupervisorFailure { stage, errno }, out);
        let _ = self.transition(LifecycleOp::ActivateFailed, out);
        self.abort_gate(out);
        let activation = match stage {
            SupervisorStage::Release => ActivationObservation::NotActivated,
            SupervisorStage::StatusRead | SupervisorStage::Reap =>
                ActivationObservation::ExecOrKilledPreExec,
        };
        Failing {
            recorded: None,
            activation,
            error: ActivationError::SupervisorFailed { stage, errno },
        }
    }

    /// Record a failure that the child reported after its release.
    fn fail_pre_exec(&mut self, stage: PreExecStage, errno: i32, out: &mut Vec<Effect>) -> (failing:
        Failing)
        ensures
            failing == Failing::before_exec(stage, errno),
            final(self)@ == old(self)@.moved(LifecycleOp::ActivateFailed).aborted(),
            final(out)@ == old(out)@.push(
                Effect::Emit(
                    LifecycleEventKind::ChildExited {
                        outcome: ExitOutcome::PreExecFailure { stage, errno },
                    },
                ),
            ) + old(self)@.move_effects(LifecycleOp::ActivateFailed) + old(self)@.abort_effects(),
    {
        let outcome = ExitOutcome::PreExecFailure { stage, errno };
        report(LifecycleEventKind::ChildExited { outcome }, out);
        let _ = self.transition(LifecycleOp::ActivateFailed, out);
        self.abort_gate(out);
        Failing {
            recorded: Some(outcome),
            activation: ActivationObservation::NotActivated,
            error: ActivationError::PreExecFailed { stage, errno },
        }
    }

    /// Judge what the status descriptor said after the release.
    ///
    /// An end without a record means that the child's copy went away: `execve`
    /// does that, and so does a death just before it, so the activation is handed
    /// on as the ambiguous one.
    pub fn observe_activation(
        &mut self,
        said: Result<Option<(u8, i32)>, i32>,
        out: &mut Vec<Effect>,
    ) -> (handoff: Handoff)
        ensures
            ({
                let start = old(self)@;
                match said {
                    Ok(None) => {
                        let told = old(out)@.push(Effect::Emit(LifecycleEventKind::ExecObserved));
                        if start.state is Activating {
                            &&& handoff matches Handoff::Activated(run) && run@ == (ActivatedView {
                                identity: start.identity,
                                process_group: start.process_group,
                                state: LifecycleState::Running,
                                activation: ActivationObservation::ExecOrKilledPreExec,
                                reaped: None,
                            })
                            &&& final(self)@ == (PreparedView {
                                gate_open: false,
                                status_open: false,
                                child_owned: false,
                                ..start.moved(LifecycleOp::ExecObserved).forgotten()
                            })
                            &&& final(out)@ == told + start.move_effects(
                                LifecycleOp::ExecObserved,
                            ) + seq![
                                Effect::CloseGate,
                                Effect::CloseStatus,
                                Effect::Persist {
                                    state: LifecycleState::Running,
                                    activation: Some(ActivationObservation::ExecOrKilledPreExec),
                                },
                            ]
                        } else {
                            &&& handoff == Handoff::Refused(
                                ActivationError::GateUnavailable { state: start.state },
                            )
                            &&& final(self)@ == start
                            &&& final(out)@ == told
                        }
                    },
                    Ok(Some((tag, errno))) => {
                        let stage = exit::stage_of(tag);
                        &&& handoff == Handoff::Failed(Failing::before_exec(stage, errno))
                        &&& final(self)@ == start.moved(LifecycleOp::ActivateFailed).aborted()
                        &&& final(out)@ == old(out)@.push(
                            Effect::Emit(
                                LifecycleEventKind::ChildExited {
                                    outcome: ExitOutcome::PreExecFailure { stage, errno },
                                },
                            ),
                        ) + start.move_effects(LifecycleOp::ActivateFailed) + start.abort_effects()
                    },
                    Err(errno) => {
                        &&& handoff == Handoff::Failed(
                            Failing::supervisor(SupervisorStage::StatusRead, errno),
                        )
                        &&& final(self)@ == start.moved(LifecycleOp::ActivateFailed).aborted()
                        &&& final(out)@ == old(out)@.push(
                            Effect::Emit(
                                LifecycleEventKind::SupervisorFailure {
                                    stage: SupervisorStage::StatusRead,
                                    errno,
                                },
                            ),
                        ) + start.move_effects(LifecycleOp::ActivateFailed) + start.abort_effects()
                    },
                }
            }),
            old(self)@.wf() && old(self)@.state is Activating ==> final(self)@.wf(),
    {
        match said {
            Ok(None) => {
                report(LifecycleEventKind::ExecObserved, out);
                let ghost told = out@;
                let state = match self.transition(LifecycleOp::ExecObserved, out) {
                    Ok(state) => state,
                    Err(err) => {
                        assert(out@ =~= told);
                        return Handoff::Refused(
                            ActivationError::GateUnavailable { state: err.from },
                        );
                    },
                };
                let ghost moved = out@;
                self.gate_open = false;
                out.push(Effect::CloseGate);
                self.status_open = false;
                out.push(Effect::CloseStatus);
                self.child_owned = false;
                self.forget();
                let run = ActivatedSandbox::new(
                    self.identity.clone(),
                    self.process_group,
                    state,
                    ActivationObservation::ExecOrKilledPreExec,
                    out,
                );
                assert(out@ =~= moved + seq![
                    Effect::CloseGate,
                    Effect::CloseStatus,
                    Effect::Persist {
                        state: LifecycleState::Running,
                        activation: Some(ActivationObservation::ExecOrKilledPreExec),
                    },
                ]);
                Handoff::Activated(run)
            },
            Ok(Some((tag, errno))) => {
                let stage = PreExecStage::from_tag(tag);
                Handoff::Failed(self.fail_pre_exec(stage, errno, out))
            },
            Err(errno) => Handoff::Failed(
                self.fail_activation(SupervisorStage::StatusRead, errno, out),
            ),
        }
    }

    /// The end of a failed activation, once the child was killed and `reaped`.
    ///
    /// What the child itself reported comes first; otherwise the outcome is what
    /// the reap observed.
    pub fn finish_failed(
        &mut self,
        failing: Failing,
        reaped: Result<ExitOutcome, ReapError>,
        out: &mut Vec<Effect>,
    ) -> (error: ActivationError)
        ensures
            error == failing.error,
            ({
                let outcome = match (failing.recorded, reaped) {
                    (Some(outcome), _) => outcome,
                    (None, Ok(outcome)) => outcome,
                    (None, Err(err)) => ExitOutcome::SupervisorFailure {
                        stage: SupervisorStage::Reap,
                        errno: err.errno,
                    },
                };
                &&& final(self)@ == (PreparedView {
                    status_open: false,
                    child_owned: old(self)@.child_owned && reaped is Err,
                    ..old(self)@.forgotten().ended(outcome, failing.activation)
                })
                &&& final(out)@ == old(out)@ + seq![
                    Effect::CloseStatus,
                    Effect::Persist {
                        state: old(self)@.state,
                        activation: Some(failing.activation),
                    },
                ]
            }),
            old(self)@.wf() && !(old(self)@.state is Preparing || old(self)@.state is Prepared)
                ==> final(self)@.wf(),
    {
        if reaped.is_ok() {
            self.child_owned = false;
        }
        let outcome = match failing.recorded {
            Some(outcome) => outcome,
            None => match reaped {
                Ok(outcome) => outcome,
                Err(err) => ExitOutcome::SupervisorFailure {
                    stage: SupervisorStage::Reap,
                    errno: err.errno,
                },
            },
        };
        self.status_open = false;
        out.push(Effect::CloseStatus);
        self.forget();
        let _ = self.record_exit(outcome, failing.activation);
        self.persist_exit(out);
        assert(out@ =~= old(out)@ + seq![
            Effect::CloseStatus,
            Effect::Persist { state: old(self)@.state, activation: Some(failing.activation) },
        ]);
        failing.error
    }

    /// The end of an expiry, once the child's record was read and the child was
    /// `reaped`. A death that was not observed is not recorded.
    pub fn finish_expiry(
        &mut self,
        said: Result<Option<(u8, i32)>, i32>,
        reaped: Result<ExitOutcome, ReapError>,
        out: &mut Vec<Effect>,
    ) -> (error: ActivationError)
        ensures
            error == ActivationError::ActivationExpired,
            match reaped {
                Err(_) => {
                    &&& final(self)@ == (PreparedView {
                        status_open: false,
                        ..old(self)@.forgotten()
                    })
                    &&& final(out)@ == old(out)@.push(Effect::CloseStatus)
                },
                Ok(outcome) => {
                    let ended = ending(said, outcome);
                    let moved = old(self)@.moved(LifecycleOp::StopObserved);
                    &&& final(self)@ == (PreparedView {
                        status_open: false,
                        child_owned: false,
                        ..moved.ended(ended, ActivationObservation::NotActivated).forgotten()
                    })
                    &&& final(out)@ == old(out)@.push(
                        Effect::Emit(LifecycleEventKind::StopObserved { outcome: ended }),
                    ) + old(self)@.move_effects(LifecycleOp::StopObserved) + seq![
                        Effect::Persist {
                            state: moved.state,
                            activation: Some(ActivationObservation::NotActivated),
                        },
                        Effect::CloseStatus,
                    ]
                },
            },
            old(self)@.wf() && !(old(self)@.state is Preparing || old(self)@.state is Prepared)
                ==> final(self)@.wf(),
    {
        if let Ok(outcome) = reaped {
            self.child_owned = false;
            let ended = match observe_gate_ending(said) {
                Some(recorded) => recorded,
                None => outcome,
            };
            report(LifecycleEventKind::StopObserved { outcome: ended }, out);
            let _ = self.transition(LifecycleOp::StopObserved, out);
            let _ = self.record_exit(ended, ActivationObservation::NotActivated);
            self.persist_exit(out);
            let ghost told = old(out)@.push(
                Effect::Emit(LifecycleEventKind::StopObserved { outcome: ended }),
            ) + old(self)@.move_effects(LifecycleOp::StopObserved);
            assert(out@.push(Effect::CloseStatus) =~= told + seq![
                Effect::Persist {
                    state: self@.state,
                    activation: Some(ActivationObservation::NotActivated),
                },
                Effect::CloseStatus,
            ]);
        }
        self.status_open = false;
        out.push(Effect::CloseStatus);
        self.forget();
        ActivationError::ActivationExpired
    }

    /// Stop a held child that was not activated: from here on no activation is
    /// possible. The driver reads the record the child leaves behind and reaps.
    pub fn stop_before_activation(&mut self, out: &mut Vec<Effect>) -> (requested: Result<
        (),
        StopError,
    >)
        ensures
            match state::next_state(old(self)@.state, LifecycleOp::BeginStop) {
                Some(_) => {
                    &&& requested is Ok
                    &&& final(self)@ == old(self)@.moved(LifecycleOp::BeginStop).aborted()
                    &&& final(out)@ == old(out)@.push(
                        Effect::Emit(LifecycleEventKind::StopRequested),
                    ) + old(self)@.move_effects(LifecycleOp::BeginStop)
                        + old(self)@.abort_effects()
                },
                None => {
                    &&& requested == Err::<(), StopError>(
                        StopError::NotStoppable { state: old(self)@.state },
                    )
                    &&& final(self)@ == old(self)@
                    &&& final(out)@ == old(out)@
                },
            },
            old(self)@.wf() ==> final(self)@.wf(),
    {
        match self.begin_stop(out) {
            Err(err) => Err(StopError::NotStoppable { state: err.from }),
            Ok(()) => {
                self.abort_gate(out);
                Ok(())
            },
        }
    }

    /// The end of a stop, once the child's record was read and the child was
    /// `reaped`. The record, not the exit code, is what says that the child was
    /// stopped rather than run.
    pub fn stop_observed(
        &mut self,
        said: Result<Option<(u8, i32)>, i32>,
        reaped: Result<ExitOutcome, ReapError>,
        out: &mut Vec<Effect>,
    ) -> (exit: Result<SandboxExit, StopError>)
        ensures
            match reaped {
                Err(err) => {
                    &&& exit == Err::<SandboxExit, StopError>(StopError::Reap(err))
                    &&& final(self)@ == old(self)@
                    &&& final(out)@ == old(out)@
                },
                Ok(outcome) => {
                    let ended = ending(said, outcome);
                    let told = old(out)@.push(
                        Effect::Emit(LifecycleEventKind::StopObserved { outcome: ended }),
                    );
                    if old(self)@.state is Stopping {
                        &&& exit == Ok::<SandboxExit, StopError>(
                            SandboxExit::of(
                                ended,
                                ActivationObservation::NotActivated,
                                old(self)@.identity,
                            ),
                        )
                        &&& final(self)@ == (PreparedView {
                            status_open: false,
                            child_owned: false,
                            ..old(self)@.moved(LifecycleOp::StopObserved).forgotten().ended(
                                ended,
                                ActivationObservation::NotActivated,
                            )
                        })
                        &&& final(out)@ == told + old(self)@.move_effects(LifecycleOp::StopObserved)
                            + seq![
                            Effect::CloseStatus,
                            Effect::Persist {
                                state: LifecycleState::Stopped,
                                activation: Some(ActivationObservation::NotActivated),
                            },
                        ]
                    } else {
                        &&& exit == Err::<SandboxExit, StopError>(
                            StopError::NotStoppable { state: old(self)@.state },
                        )
                        &&& final(self)@ == (PreparedView { child_owned: false, ..old(self)@ })
                        &&& final(out)@ == told
                    }
                },
            },
            old(self)@.wf() && old(self)@.state is Stopping ==> final(self)@.wf(),
    {
        let outcome = match reaped {
            Ok(outcome) => outcome,
            Err(err) => {
                return Err(StopError::Reap(err));
            },
        };
        self.child_owned = false;
        let ended = match observe_gate_ending(said) {
            Some(recorded) => recorded,
            None => outcome,
        };
        report(LifecycleEventKind::StopObserved { outcome: ended }, out);
        let ghost told = out@;
        if let Err(err) = self.transition(LifecycleOp::StopObserved, out) {
            assert(out@ =~= told);
            return Err(StopError::NotStoppable { state: err.from });
        }
        let ghost moved = out@;
        self.status_open = false;
        out.push(Effect::CloseStatus);
        self.forget();
        let exit = self.record_exit(ended, ActivationObservation::NotActivated);
        self.persist_exit(out);
        assert(out@ =~= moved + seq![
            Effect::CloseStatus,
            Effect::Persist {
                state: LifecycleState::Stopped,
                activation: Some(ActivationObservation::NotActivated),
            },
        ]);
        Ok(exit)
    }

    fn death_observed(&self) -> (death: DeathObservation)
        ensures
            death == self@.death(),
    {
        if self.child_owned {
            DeathObservation::NotReaped
        } else {
            DeathObservation::Reaped
        }
    }

    /// What has to be probed before this run's cleanup can be judged.
    pub fn cleanup_question(&self, boot_id: &Option<String>) -> (asked: Result<
        Question,
        CleanupError,
    >)
        ensures
            asked == (if state::next_state(self@.state, LifecycleOp::CleanupConfirmed) is Some {
                Ok::<Question, CleanupError>(
                    cleanup::what_to_ask(
                        self@.identity@,
                        self@.process_group,
                        self@.death(),
                        identity::text_of(*boot_id),
                    ),
                )
            } else {
                Err::<Question, CleanupError>(CleanupError { state: self@.state })
            }),
    {
        match cleanup::may_verify(self.shared.state()) {
            Err(err) => Err(err),
            Ok(()) => Ok(
                question(&self.identity, self.process_group, self.death_observed(), boot_id),
            ),
        }
    }

    /// Prove that the child and everything it started are gone, or report that
    /// they are not. Every verdict is reported; only a proof of absence moves
    /// the run.
    pub fn verify_cleanup(&mut self, answers: &Answers, out: &mut Vec<Effect>) -> (judged: Result<
        CleanupVerification,
        CleanupError,
    >)
        ensures
            ({
                let from = old(self)@.state;
                let reached = cleanup::verdict(
                    old(self)@.identity@,
                    old(self)@.process_group,
                    old(self)@.death(),
                    *answers,
                );
                let told = old(out)@.push(
                    Effect::Emit(LifecycleEventKind::CleanupVerdict { verdict: reached }),
                );
                if state::next_state(from, LifecycleOp::CleanupConfirmed) is None {
                    &&& judged == Err::<CleanupVerification, CleanupError>(
                        CleanupError { state: from },
                    )
                    &&& final(self)@ == old(self)@
                    &&& final(out)@ == old(out)@
                } else if reached is ConfirmedAbsent {
                    &&& judged == Ok::<CleanupVerification, CleanupError>(reached)
                    &&& final(self)@ == old(self)@.moved(LifecycleOp::CleanupConfirmed)
                    &&& final(out)@ == told + old(self)@.move_effects(LifecycleOp::CleanupConfirmed)
                } else {
                    &&& judged == Ok::<CleanupVerification, CleanupError>(reached)
                    &&& final(self)@ == old(self)@
                    &&& final(out)@ == told
                }
            }),
            old(self)@.wf() ==> final(self)@.wf(),
    {
        let death = self.death_observed();
        let activation = self.recorded_activation();
        match verify_and_record(
            &mut self.shared,
            &self.identity,
            self.process_group,
            death,
            answers,
        ) {
            Err(err) => Err(err),
            Ok((verification, change)) => {
                report(LifecycleEventKind::CleanupVerdict { verdict: verification }, out);
                if let Some(change) = change {
                    report_change(change, activation, out);
                }
                Ok(verification)
            },
        }
    }

    /// Ask what the child's installed enforcement does with one operation.
    ///
    /// Answers that are settled without the child come back at once, stamped
    /// `now`. Otherwise the driver writes the probe message and then the record.
    pub fn probe_enforcement(
        &self,
        request: &ProbeRequest,
        platform: Platform,
        now: Timestamp,
    ) -> (start: Result<ProbeStart, ProbeError>)
        ensures
            ({
                let settled = probe::settled(request.op, platform);
                let mechanism = probe::mechanism_on(platform);
                let encoded = probe::encoded(request.op, platform);
                let reachable = self@.gate_open && self@.status_open && self@.secrets is Some;
                if !(self@.state is Prepared) {
                    start == Err::<ProbeStart, ProbeError>(
                        ProbeError::NotLegalInState { state: self@.state },
                    )
                } else if mechanism is None {
                    start == Err::<ProbeStart, ProbeError>(
                        ProbeError::ChildUnreachable { errno: errno::not_implemented_on(platform) },
                    )
                } else if settled is Some {
                    start == Ok::<ProbeStart, ProbeError>(
                        ProbeStart::Settled(
                            probe::observed(
                                request.id,
                                ProbeOutcome::Indeterminate { reason: settled->0 },
                                mechanism->0,
                                now,
                            ),
                        ),
                    )
                } else if encoded is Err {
                    start == Ok::<ProbeStart, ProbeError>(
                        ProbeStart::Settled(
                            probe::observed(
                                request.id,
                                ProbeOutcome::Indeterminate {
                                    reason: ProbeIndeterminate::ProbeCouldNotRun {
                                        errno: encoded->Err_0,
                                    },
                                },
                                mechanism->0,
                                now,
                            ),
                        ),
                    )
                } else if !reachable {
                    start == Err::<ProbeStart, ProbeError>(
                        ProbeError::ChildUnreachable { errno: EPIPE },
                    )
                } else {
                    start matches Ok(ProbeStart::Ask { wire, mechanism: asked }) && wire@
                        == encoded->Ok_0 && asked == mechanism->0
                }
            }),
    {
        let observed = self.shared.state();
        if observed != LifecycleState::Prepared {
            return Err(ProbeError::NotLegalInState { state: observed });
        }
        let mechanism = match installed_mechanism(platform) {
            Some(mechanism) => mechanism,
            None => {
                return Err(ProbeError::ChildUnreachable { errno: not_implemented(platform) });
            },
        };
        if let Some(reason) = settled_before_asking(&request.op, platform) {
            return Ok(
                ProbeStart::Settled(
                    observation_at(
                        request.id.clone(),
                        ProbeOutcome::Indeterminate { reason },
                        mechanism,
                        now,
                    ),
                ),
            );
        }
        let wire = match encode_request(&request.op, platform) {
            Ok(wire) => wire,
            Err(errno) => {
                return Ok(
                    ProbeStart::Settled(
                        observation_at(
                            request.id.clone(),
                            ProbeOutcome::Indeterminate {
                                reason: ProbeIndeterminate::ProbeCouldNotRun { errno },
                            },
                            mechanism,
                            now,
                        ),
                    ),
                );
            },
        };
        if !self.gate_open || !self.status_open || self.secrets.is_none() {
            return Err(ProbeError::ChildUnreachable { errno: EPIPE });
        }
        Ok(ProbeStart::Ask { wire, mechanism })
    }

    /// The message that announces a probe.
    pub fn probe_message(&self) -> (message: Option<&[u8; GATE_MESSAGE_BYTES]>)
        ensures
            match message {
                Some(message) => self@.secrets is Some && message@ == self@.secrets->0.probe,
                None => self@.secrets is None,
            },
    {
        match &self.secrets {
            Some(secrets) => Some(secrets.probe()),
            None => None,
        }
    }

    /// What a dropped handle has to kill and reap: the child, unless its end was
    /// observed or it was handed on. Its gate is closed first.
    pub fn left_behind(&mut self, out: &mut Vec<Effect>) -> (target: Option<i32>)
        ensures
            if old(self)@.child_owned {
                &&& target == Some(old(self)@.identity@.pid)
                &&& final(self)@ == old(self)@.aborted()
                &&& final(out)@ == old(out)@ + old(self)@.abort_effects()
            } else {
                &&& target is None
                &&& final(self)@ == old(self)@
                &&& final(out)@ == old(out)@
            },
    {
        if !self.child_owned {
            return None;
        }
        self.abort_gate(out);
        Some(self.identity.pid())
    }
}

/// How an aborted child ended: by its own record where it left one, and
/// otherwise as it was reaped.
pub open spec fn ending(
    said: Result<Option<(u8, i32)>, i32>,
    reaped: ExitOutcome,
) -> ExitOutcome {
    match record::ending_in(said) {
        Some(recorded) => recorded,
        None => reaped,
    }
}

/// What asking for a probe came to.
#[derive(Debug, PartialEq, Eq)]
pub enum ProbeStart {
    /// The answer, without the child.
    Settled(ProbeObservation),
    /// The record to put to the child.
    Ask {
        /// The record.
        wire: Vec<u8>,
        /// The mechanism the answer will be about.
        mechanism: EnforcementMechanism,
    },
}

/// Judge a probe that was put to the child: whether it could be written, and
/// what the status descriptor said then. A record that is no reply was written
/// by a dying child, and is no verdict.
pub fn probe_answered(
    request: &ProbeRequest,
    mechanism: EnforcementMechanism,
    written: Result<(), i32>,
    said: Result<Option<(u8, i32)>, i32>,
    now: Timestamp,
) -> (answer: Result<ProbeObservation, ProbeError>)
    ensures
        answer == (match written {
            Err(errno) => Err::<ProbeObservation, ProbeError>(
                ProbeError::ChildUnreachable { errno },
            ),
            Ok(()) => match said {
                Err(errno) => Err::<ProbeObservation, ProbeError>(
                    ProbeError::ChildUnreachable { errno },
                ),
                Ok(None) => Err::<ProbeObservation, ProbeError>(
                    ProbeError::ChildUnreachable { errno: 0 },
                ),
                Ok(Some((tag, errno))) => match probe::reply_meaning(tag, errno) {
                    None => Err::<ProbeObservation, ProbeError>(
                        ProbeError::ChildUnreachable { errno },
                    ),
                    Some(outcome) => Ok::<ProbeObservation, ProbeError>(
                        probe::observed(request.id, outcome, mechanism, now),
                    ),
                },
            },
        }),
{
    if let Err(errno) = written {
        return Err(ProbeError::ChildUnreachable { errno });
    }
    match said {
        Err(errno) => Err(ProbeError::ChildUnreachable { errno }),
        Ok(None) => Err(ProbeError::ChildUnreachable { errno: 0 }),
        Ok(Some((tag, errno))) => match classify_reply(tag, errno) {
            None => Err(ProbeError::ChildUnreachable { errno }),
            Some(outcome) => Ok(observation_at(request.id.clone(), outcome, mechanism, now)),
        },
    }
}

/// A release needs the whole of the handle: its session, its generation, an open
/// gate, the time, and the token itself by its digest.
pub proof fn law_only_the_handle_releases(run: PreparedView, handle: HandleView, now: Nanos)
    ensures
        judged(run, handle, now) is Release <==> {
            &&& handle.session_id == run.session_id
            &&& handle.generation == run.generation
            &&& run.state is Prepared
            &&& !run.expired_at(now)
            &&& gate::sha256(handle.token) == run.token_digest
        },
{
}

/// The activation gate opens at most once: whatever happens to a run after a claim was won
/// or its gate had expired, no handle ever wins another.
pub proof fn law_the_gate_opens_at_most_once(
    run: PreparedView,
    handle: HandleView,
    now: Nanos,
    ops: Seq<LifecycleOp>,
    later: PreparedView,
    again: HandleView,
    then: Nanos,
)
    requires
        judged(run, handle, now) is Release || judged(run, handle, now) is Expired,
        ({
            let op = if judged(run, handle, now) is Release {
                LifecycleOp::BeginActivate
            } else {
                LifecycleOp::BeginStop
            };
            state::run_of(run.moved(op).state, ops) == Some(later.state)
        }),
    ensures
        judged(later, again, then) is Refused,
{
    let op = if judged(run, handle, now) is Release {
        LifecycleOp::BeginActivate
    } else {
        LifecycleOp::BeginStop
    };
    state::law_activation_happens_at_most_once(op, ops, run.moved(op).state);
}

/// The deadline is a property of the activation gate, not a judgement about the caller: an
/// expired gate refuses the right token as it refuses a wrong one.
pub proof fn law_an_expired_gate_looks_at_no_token(
    run: PreparedView,
    handle: HandleView,
    other: HandleView,
    now: Nanos,
)
    requires
        run.expired_at(now),
        handle.session_id == other.session_id,
        handle.generation == other.generation,
    ensures
        judged(run, handle, now) == judged(run, other, now),
        !(judged(run, handle, now) is Release),
{
}

/// A deadline that has passed stays passed.
pub proof fn law_expiry_is_final(run: PreparedView, now: Nanos, later: Nanos)
    requires
        run.expired_at(now),
        later.0 >= now.0,
    ensures
        run.expired_at(later),
{
}

/// A child is spoken to at most once: after the right to write is spent, by a
/// claim or by an abort, no abort is written, and a gate that was closed is not
/// closed again.
pub proof fn law_the_last_word_is_spoken_once(run: PreparedView)
    ensures
        run.gate_claimed ==> !run.abort_effects().contains(Effect::WriteAbort),
        run.aborted().gate_claimed,
        run.aborted().abort_effects() == Seq::<Effect>::empty(),
{
}

/// Once a run's secrets are forgotten, no message can be written to its child
/// and nothing is left of the token's digest.
pub proof fn law_forgotten_secrets_are_gone(run: PreparedView)
    ensures
        run.forgotten().secrets is None,
        forall|i: int|
            0 <= i < TOKEN_DIGEST_BYTES ==> run.forgotten().token_digest[i] == 0u8,
        !run.forgotten().abort_effects().contains(Effect::WriteAbort),
{
}

} // verus!
