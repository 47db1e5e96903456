//! Lifecycle events, the numbering of a run's events, and the bounded ring that
//! keeps them for a caller who is away.
//!
//! Every event is an envelope around a closed [`LifecycleEventKind`]. `seq`
//! counts from zero per run and is the ordering authority; `observed_at` is a
//! wall clock, which can step back. Events the platform cannot show are absent,
//! never synthesized.

use std::collections::VecDeque;
use std::sync::Arc;
use vstd::prelude::*;
use crate::time::{wall_clock, Timestamp};
use super::cleanup::CleanupVerification;
use super::exit::{ExitOutcome, SupervisorStage};
use super::identity::ProcessIdentity;
use super::session::SessionId;
use super::state::LifecycleState;

verus! {

/// How faithfully an event reflects what the platform showed us.
#[derive(Debug, Clone, Copy, PartialEq, Eq, Hash, Structural)]
pub enum Observation {
    /// Observed as it happened.
    DirectlyObserved,
    /// Rebuilt after the fact.
    Reconstructed,
}

/// What an activation attempt did. Carries no token material of any kind: a
/// refusal names the check that refused, never the value that failed it.
#[derive(Debug, Clone, Copy, PartialEq, Eq, Hash, Structural)]
pub enum ActivationOutcome {
    /// The attempt won the activation gate's single-use claim.
    Accepted,
    /// The handle named another session.
    RefusedWrongSession,
    /// The handle named another generation of this session.
    RefusedWrongGeneration,
    /// The activation gate was no longer open.
    RefusedGateClosed {
        /// The state the machine was in when it refused.
        state: LifecycleState,
    },
    /// The activation gate's deadline had passed.
    RefusedExpired,
    /// The token did not match.
    RefusedInvalidToken,
}

/// Something the lifecycle observed.
#[derive(Debug, PartialEq, Eq)]
pub enum LifecycleEventKind {
    /// The state machine moved.
    StateChanged {
        /// State before the transition.
        from: LifecycleState,
        /// State after the transition.
        to: LifecycleState,
    },
    /// A child is about to be forked for this session.
    PrepareStarted,
    /// The child applied the platform sandbox to itself.
    SandboxApplied,
    /// The child is blocked at the activation gate.
    GateReady,
    /// An activation was attempted, and this is what happened.
    ActivationAttempted {
        /// Accepted, or the check that refused.
        outcome: ActivationOutcome,
    },
    /// The release message was written to the activation gate.
    Released,
    /// The status descriptor reached its end with no record.
    ExecObserved,
    /// The child's death was observed, on a path that was not a stop.
    ChildExited {
        /// What was reported.
        outcome: ExitOutcome,
    },
    /// A stop was requested. The signal is not the result.
    StopRequested,
    /// The stop could not kill by cgroup, and fell back to the process group.
    StopCgroupFailed {
        /// What went wrong, in an operator's terms.
        detail: String,
    },
    /// The death that a stop asked for was observed.
    StopObserved {
        /// What the reap reported.
        outcome: ExitOutcome,
    },
    /// The activation gate was closed without releasing the child.
    GateAborted,
    /// The supervisor's own machinery failed.
    SupervisorFailure {
        /// Which supervisor step failed.
        stage: SupervisorStage,
        /// Platform error number captured at that point.
        errno: i32,
    },
    /// Cleanup verification produced a verdict.
    CleanupVerdict {
        /// The verdict, with its typed evidence.
        verdict: CleanupVerification,
    },
    /// A durable session record was written.
    RecordPersisted {
        /// The schema the record was written by.
        schema_version: u32,
    },
}

impl Clone for LifecycleEventKind {
    fn clone(&self) -> (copy: Self)
        ensures
            copy == *self,
    {
        match self {
            LifecycleEventKind::StateChanged { from, to } => LifecycleEventKind::StateChanged {
                from: *from,
                to: *to,
            },
            LifecycleEventKind::PrepareStarted => LifecycleEventKind::PrepareStarted,
            LifecycleEventKind::SandboxApplied => LifecycleEventKind::SandboxApplied,
            LifecycleEventKind::GateReady => LifecycleEventKind::GateReady,
            LifecycleEventKind::ActivationAttempted { outcome } =>
                LifecycleEventKind::ActivationAttempted { outcome: *outcome },
            LifecycleEventKind::Released => LifecycleEventKind::Released,
            LifecycleEventKind::ExecObserved => LifecycleEventKind::ExecObserved,
            LifecycleEventKind::ChildExited { outcome } => LifecycleEventKind::ChildExited {
                outcome: *outcome,
            },
            LifecycleEventKind::StopRequested => LifecycleEventKind::StopRequested,
            LifecycleEventKind::StopCgroupFailed { detail } =>
                LifecycleEventKind::StopCgroupFailed { detail: detail.clone() },
            LifecycleEventKind::StopObserved { outcome } => LifecycleEventKind::StopObserved {
                outcome: *outcome,
            },
            LifecycleEventKind::GateAborted => LifecycleEventKind::GateAborted,
            LifecycleEventKind::SupervisorFailure { stage, errno } =>
                LifecycleEventKind::SupervisorFailure { stage: *stage, errno: *errno },
            LifecycleEventKind::CleanupVerdict { verdict } => LifecycleEventKind::CleanupVerdict {
                verdict: *verdict,
            },
            LifecycleEventKind::RecordPersisted { schema_version } =>
                LifecycleEventKind::RecordPersisted { schema_version: *schema_version },
        }
    }
}

/// One observed fact, with everything needed to place it.
#[derive(Debug, PartialEq, Eq)]
pub struct LifecycleEvent {
    session_id: Option<SessionId>,
    generation: u64,
    seq: u64,
    observed_at: Timestamp,
    identity: Option<ProcessIdentity>,
    observation: Observation,
    what: LifecycleEventKind,
}

/// The envelope of an event and the fact in it.
pub struct EventView {
    /// The session the event is about.
    pub session_id: Option<SessionId>,
    /// Which preparation of that session.
    pub generation: u64,
    /// The run's own counter.
    pub seq: u64,
    /// Wall clock read at the moment of observation.
    pub observed_at: Timestamp,
    /// The child, once there is one.
    pub identity: Option<ProcessIdentity>,
    /// Whether the fact was witnessed or reconstructed.
    pub observation: Observation,
    /// The fact.
    pub what: LifecycleEventKind,
}

impl View for LifecycleEvent {
    type V = EventView;

    closed spec fn view(&self) -> EventView {
        EventView {
            session_id: self.session_id,
            generation: self.generation,
            seq: self.seq,
            observed_at: self.observed_at,
            identity: self.identity,
            observation: self.observation,
            what: self.what,
        }
    }
}

/// A copy of an optional identity.
pub fn copy_identity(identity: &Option<ProcessIdentity>) -> (copy: Option<ProcessIdentity>)
    ensures
        copy == *identity,
{
    match identity {
        Some(identity) => Some(identity.clone()),
        None => None,
    }
}

impl Clone for LifecycleEvent {
    fn clone(&self) -> (copy: Self)
        ensures
            copy == *self,
    {
        LifecycleEvent {
            session_id: self.session_id,
            generation: self.generation,
            seq: self.seq,
            observed_at: self.observed_at,
            identity: copy_identity(&self.identity),
            observation: self.observation,
            what: self.what.clone(),
        }
    }
}

impl LifecycleEvent {
    /// The session this event is about.
    #[must_use]
    pub fn session_id(&self) -> (id: Option<SessionId>)
        ensures
            id == self@.session_id,
    {
        self.session_id
    }

    /// Which preparation of the session.
    #[must_use]
    pub fn generation(&self) -> (generation: u64)
        ensures
            generation == self@.generation,
    {
        self.generation
    }

    /// This run's own event counter.
    #[must_use]
    pub fn seq(&self) -> (seq: u64)
        ensures
            seq == self@.seq,
    {
        self.seq
    }

    /// The wall clock read when the fact was observed.
    #[must_use]
    pub fn observed_at(&self) -> (at: Timestamp)
        ensures
            at == self@.observed_at,
    {
        self.observed_at
    }

    /// The child's identity, once there is a child.
    #[must_use]
    pub fn identity(&self) -> (identity: Option<&ProcessIdentity>)
        ensures
            match identity {
                Some(identity) => self@.identity == Some(*identity),
                None => self@.identity is None,
            },
    {
        match &self.identity {
            Some(identity) => Some(identity),
            None => None,
        }
    }

    /// Whether the fact was witnessed or reconstructed.
    #[must_use]
    pub fn observation(&self) -> (observation: Observation)
        ensures
            observation == self@.observation,
    {
        self.observation
    }

    /// The fact itself.
    #[must_use]
    pub fn what(&self) -> (what: &LifecycleEventKind)
        ensures
            *what == self@.what,
    {
        &self.what
    }

    /// An event from its parts.
    pub fn from_parts(
        session_id: Option<SessionId>,
        generation: u64,
        seq: u64,
        observed_at: Timestamp,
        identity: Option<ProcessIdentity>,
        observation: Observation,
        what: LifecycleEventKind,
    ) -> (event: Self)
        ensures
            event@ == (EventView {
                session_id,
                generation,
                seq,
                observed_at,
                identity,
                observation,
                what,
            }),
    {
        LifecycleEvent { session_id, generation, seq, observed_at, identity, observation, what }
    }
}

/// Consumer-supplied event receiver.
///
/// Implementations must not block or panic: an event is handed over on the path
/// that is also driving a child process.
pub trait EventSink: Send + Sync {
    /// Whether the sink was handed this event. A sink that does not say more
    /// takes whatever it is handed.
    open spec fn heard(&self, event: LifecycleEvent) -> bool {
        true
    }

    /// Receive one event.
    fn emit(&self, event: &LifecycleEvent)
        ensures
            self.heard(*event),
    ;
}

/// The emitting side of the vocabulary: one per run, shared by its handles, so
/// that the run keeps one unbroken sequence.
///
/// A run with no sink emits nothing and allocates no sequence numbers.
pub struct EventEmitter {
    sink: Option<Arc<dyn EventSink>>,
    session_id: SessionId,
    generation: u64,
    identity: Option<ProcessIdentity>,
    seq: u64,
}

/// What an emitter stamps its events with.
pub struct EmitterView {
    /// Who receives the run's events, where a consumer asked for them.
    pub sink: Option<Arc<dyn EventSink>>,
    /// The run's session.
    pub session_id: SessionId,
    /// The run's generation.
    pub generation: u64,
    /// The child, once it is known.
    pub identity: Option<ProcessIdentity>,
    /// The number of the next event.
    pub seq: u64,
}

impl View for EventEmitter {
    type V = EmitterView;

    closed spec fn view(&self) -> EmitterView {
        EmitterView {
            sink: self.sink,
            session_id: self.session_id,
            generation: self.generation,
            identity: self.identity,
            seq: self.seq,
        }
    }
}

/// The event that an emitter makes of a fact observed at `now`.
pub open spec fn stamped(
    emitter: EmitterView,
    what: LifecycleEventKind,
    observation: Observation,
    now: Timestamp,
) -> EventView {
    EventView {
        session_id: Some(emitter.session_id),
        generation: emitter.generation,
        seq: emitter.seq,
        observed_at: now,
        identity: emitter.identity,
        observation,
        what,
    }
}

/// The emitter after one fact: the number is spent only where there is a sink.
pub open spec fn advanced(emitter: EmitterView) -> EmitterView {
    if emitter.sink is Some {
        EmitterView { seq: vstd::wrapping::u64_specs::wrapping_add(emitter.seq, 1), ..emitter }
    } else {
        emitter
    }
}

/// Whether the emitter's own sink was handed a fact as the emitter stamps it, at
/// some instant.
pub open spec fn was_told(
    emitter: EmitterView,
    what: LifecycleEventKind,
    observation: Observation,
) -> bool {
    emitter.sink is Some && exists|event: LifecycleEvent| #[trigger]
        emitter.sink->0.heard(event) && event@ == stamped(
            emitter,
            what,
            observation,
            event@.observed_at,
        )
}

impl EventEmitter {
    /// A run's emitter. `sink` is whatever the plan carried.
    pub fn new(sink: Option<Arc<dyn EventSink>>, session_id: SessionId, generation: u64) -> (emitter:
        Self)
        ensures
            emitter@ == (EmitterView {
                sink,
                session_id,
                generation,
                identity: None,
                seq: 0,
            }),
    {
        EventEmitter { sink, session_id, generation, identity: None, seq: 0 }
    }

    /// The number of the next event.
    pub fn next_seq(&self) -> (seq: u64)
        ensures
            seq == self@.seq,
    {
        self.seq
    }

    /// Name the child, once it exists. Set once and never replaced.
    pub fn set_identity(&mut self, identity: ProcessIdentity)
        ensures
            final(self)@ == (EmitterView {
                identity: if old(self)@.identity is Some {
                    old(self)@.identity
                } else {
                    Some(identity)
                },
                ..old(self)@
            }),
    {
        if self.identity.is_none() {
            self.identity = Some(identity);
        }
    }

    /// Number a fact observed at `now` and put it in its envelope, where there
    /// is a sink to receive it.
    pub fn stamp(
        &mut self,
        what: LifecycleEventKind,
        observation: Observation,
        now: Timestamp,
    ) -> (event: Option<LifecycleEvent>)
        ensures
            final(self)@ == advanced(old(self)@),
            match event {
                Some(event) => old(self)@.sink is Some && event@ == stamped(
                    old(self)@,
                    what,
                    observation,
                    now,
                ),
                None => old(self)@.sink is None,
            },
    {
        if self.sink.is_none() {
            return None;
        }
        let seq = self.seq;
        self.seq = seq.wrapping_add(1);
        Some(
            LifecycleEvent {
                session_id: Some(self.session_id),
                generation: self.generation,
                seq,
                observed_at: now,
                identity: copy_identity(&self.identity),
                observation,
                what,
            },
        )
    }

    /// Report a directly observed fact.
    pub fn emit(&mut self, what: LifecycleEventKind)
        ensures
            final(self)@ == advanced(old(self)@),
            old(self)@.sink is Some ==> was_told(
                old(self)@,
                what,
                Observation::DirectlyObserved,
            ),
    {
        self.emit_with(what, Observation::DirectlyObserved);
    }

    /// Report a fact with an explicit fidelity label: stamp it with the wall
    /// clock and hand it to the sink, where there is one.
    pub fn emit_with(&mut self, what: LifecycleEventKind, observation: Observation)
        ensures
            final(self)@ == advanced(old(self)@),
            old(self)@.sink is Some ==> was_told(old(self)@, what, observation),
    {
        let event = self.stamp(what, observation, wall_clock());
        if let (Some(sink), Some(event)) = (&self.sink, &event) {
            sink.emit(event);
            assert(sink.heard(*event) && event@ == stamped(
                old(self)@,
                what,
                observation,
                event@.observed_at,
            ));
        }
    }
}

/// An emitter after `count` facts.
pub open spec fn emitter_after(emitter: EmitterView, count: nat) -> EmitterView
    decreases count,
{
    if count == 0 {
        emitter
    } else {
        advanced(emitter_after(emitter, (count - 1) as nat))
    }
}

/// The events of a run are numbered in order without gaps: after `count` facts
/// the next number is `count` further on, and the sink, session, generation and
/// identity are those it began with.
pub proof fn law_seq_counts_without_gaps(emitter: EmitterView, count: nat)
    requires
        emitter.sink is Some,
        emitter.seq + count <= u64::MAX,
    ensures
        emitter_after(emitter, count) == (EmitterView {
            seq: (emitter.seq + count) as u64,
            ..emitter
        }),
    decreases count,
{
    if count > 0 {
        law_seq_counts_without_gaps(emitter, (count - 1) as nat);
    }
}

/// Two facts of one run never share a number.
pub proof fn law_seq_never_repeats(emitter: EmitterView, earlier: nat, later: nat)
    requires
        emitter.sink is Some,
        earlier < later,
        emitter.seq + later <= u64::MAX,
    ensures
        emitter_after(emitter, earlier).seq < emitter_after(emitter, later).seq,
{
    law_seq_counts_without_gaps(emitter, earlier);
    law_seq_counts_without_gaps(emitter, later);
}

/// A run without a sink spends no numbers.
pub proof fn law_no_sink_no_numbers(emitter: EmitterView, count: nat)
    requires
        emitter.sink is None,
    ensures
        emitter_after(emitter, count) == emitter,
    decreases count,
{
    if count > 0 {
        law_no_sink_no_numbers(emitter, (count - 1) as nat);
    }
}

/// How many events a detached supervisor keeps for a caller that is not there.
pub const DETACHED_EVENT_RING_CAPACITY: usize = 32;

/// The last events of a run, oldest first. The ring is bounded and drops its
/// oldest entry.
#[derive(Debug)]
pub struct EventRing {
    events: VecDeque<LifecycleEvent>,
}

impl View for EventRing {
    type V = Seq<LifecycleEvent>;

    closed spec fn view(&self) -> Seq<LifecycleEvent> {
        self.events@
    }
}

/// A ring that held `kept`, after one more event.
pub open spec fn ring_with(kept: Seq<LifecycleEvent>, event: LifecycleEvent) -> Seq<LifecycleEvent> {
    if kept.len() >= DETACHED_EVENT_RING_CAPACITY {
        kept.drop_first().push(event)
    } else {
        kept.push(event)
    }
}

impl EventRing {
    /// An empty ring.
    pub fn new() -> (ring: Self)
        ensures
            ring@ == Seq::<LifecycleEvent>::empty(),
    {
        EventRing { events: VecDeque::new() }
    }

    /// Keep `event`, dropping the oldest where the ring is full.
    pub fn record(&mut self, event: &LifecycleEvent)
        ensures
            final(self)@ == ring_with(old(self)@, *event),
    {
        if self.events.len() >= DETACHED_EVENT_RING_CAPACITY {
            let _ = self.events.pop_front();
            assert(self.events@ =~= old(self).events@.drop_first());
        }
        self.events.push_back(event.clone());
    }

    /// The ring's contents, oldest first.
    pub fn snapshot(&self) -> (events: Vec<LifecycleEvent>)
        ensures
            events@ == self@,
    {
        let mut events: Vec<LifecycleEvent> = Vec::new();
        let mut i: usize = 0;
        while i < self.events.len()
            invariant
                i <= self.events@.len(),
                events@ == self.events@.take(i as int),
            decreases self.events@.len() - i,
        {
            events.push(self.events[i].clone());
            i += 1;
            assert(events@ =~= self.events@.take(i as int));
        }
        assert(events@ =~= self.events@);
        events
    }
}

/// A ring after it was given `events` one by one.
pub open spec fn ring_of(events: Seq<LifecycleEvent>) -> Seq<LifecycleEvent>
    decreases events.len(),
{
    if events.len() == 0 {
        Seq::empty()
    } else {
        ring_with(ring_of(events.drop_last()), events.last())
    }
}

/// A ring holds the last events it was given, in order, and never more than its
/// capacity.
pub proof fn law_a_ring_keeps_the_last_events(events: Seq<LifecycleEvent>)
    ensures
        ring_of(events) == (if events.len() <= DETACHED_EVENT_RING_CAPACITY {
            events
        } else {
            events.skip(events.len() - DETACHED_EVENT_RING_CAPACITY)
        }),
        ring_of(events).len() <= DETACHED_EVENT_RING_CAPACITY,
    decreases events.len(),
{
    if events.len() > 0 {
        let rest = events.drop_last();
        law_a_ring_keeps_the_last_events(rest);
        if events.len() <= DETACHED_EVENT_RING_CAPACITY {
            assert(ring_of(events) =~= events);
        } else {
            assert(ring_of(events) =~= events.skip(events.len() - DETACHED_EVENT_RING_CAPACITY));
        }
    } else {
        assert(ring_of(events) =~= events);
    }
}

} // verus!
