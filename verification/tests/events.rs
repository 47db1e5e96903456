use nono::lifecycle::events::{EventEmitter, EventRing};
use nono::lifecycle::{
    EventSink, LifecycleEvent, LifecycleEventKind, LifecycleState, Observation, ProcessIdentity,
    SessionId, DETACHED_EVENT_RING_CAPACITY,
};
use nono::time::Timestamp;
use std::sync::{Arc, Mutex};

#[derive(Default)]
struct RecordingSink {
    events: Mutex<Vec<LifecycleEvent>>,
}

impl RecordingSink {
    fn recorded(&self) -> Vec<LifecycleEvent> {
        match self.events.lock() {
            Ok(guard) => guard.clone(),
            Err(_) => panic!("the sink must not be poisoned"),
        }
    }
}

impl EventSink for RecordingSink {
    fn emit(&self, event: &LifecycleEvent) {
        if let Ok(mut guard) = self.events.lock() {
            guard.push(event.clone());
        }
    }
}

fn test_id() -> SessionId {
    SessionId(0x0191_e1a0_0000_7000_8000_0000_0000_0001)
}

fn emitter(sink: &Arc<RecordingSink>) -> EventEmitter {
    let erased: Arc<dyn EventSink> = sink.clone();
    EventEmitter::new(Some(erased), test_id(), 1)
}

fn state_changed(from: LifecycleState, to: LifecycleState) -> LifecycleEventKind {
    LifecycleEventKind::StateChanged { from, to }
}

fn wall_clock() -> Timestamp {
    match std::time::SystemTime::now().duration_since(std::time::UNIX_EPOCH) {
        Ok(after) => Timestamp(after.as_nanos() as i128),
        Err(_) => panic!("the clock must be after the epoch"),
    }
}

#[test]
fn recording_sink_receives_events_in_order() {
    let sink = Arc::new(RecordingSink::default());
    let mut emitter = emitter(&sink);

    emitter.emit(state_changed(
        LifecycleState::Planning,
        LifecycleState::Preparing,
    ));
    emitter.emit(state_changed(
        LifecycleState::Preparing,
        LifecycleState::Prepared,
    ));

    let seen = sink.recorded();
    assert_eq!(seen.len(), 2);
    assert_eq!(
        seen[0].what(),
        &state_changed(LifecycleState::Planning, LifecycleState::Preparing)
    );
    assert_eq!(
        seen[1].what(),
        &state_changed(LifecycleState::Preparing, LifecycleState::Prepared)
    );
}

#[test]
fn seq_counts_from_zero_and_never_repeats() {
    let sink = Arc::new(RecordingSink::default());
    let mut emitter = emitter(&sink);
    for _ in 0..5 {
        emitter.emit(LifecycleEventKind::GateAborted);
    }
    let seen: Vec<u64> = sink.recorded().iter().map(LifecycleEvent::seq).collect();
    assert_eq!(seen, vec![0, 1, 2, 3, 4]);
}

#[test]
fn one_shared_emitter_keeps_one_sequence_across_a_handoff() {
    let sink = Arc::new(RecordingSink::default());
    let first = Arc::new(Mutex::new(emitter(&sink)));
    let second = Arc::clone(&first);
    let emit = |through: &Arc<Mutex<EventEmitter>>, what| match through.lock() {
        Ok(mut emitter) => emitter.emit(what),
        Err(_) => panic!("the emitter must not be poisoned"),
    };

    emit(&first, LifecycleEventKind::GateReady);
    emit(&second, LifecycleEventKind::Released);
    emit(&first, LifecycleEventKind::ExecObserved);

    let seen: Vec<u64> = sink.recorded().iter().map(LifecycleEvent::seq).collect();
    assert_eq!(seen, vec![0, 1, 2]);
}

#[test]
fn an_emitter_without_a_sink_emits_nothing_and_allocates_nothing() {
    let mut emitter = EventEmitter::new(None, test_id(), 1);
    emitter.emit(LifecycleEventKind::PrepareStarted);
    emitter.emit(LifecycleEventKind::GateReady);
    assert_eq!(emitter.next_seq(), 0);
}

#[test]
fn the_identity_appears_from_the_moment_it_is_known() {
    let sink = Arc::new(RecordingSink::default());
    let mut emitter = emitter(&sink);

    emitter.emit(LifecycleEventKind::PrepareStarted);
    emitter.set_identity(ProcessIdentity::from_parts(7, Some(1), None));
    emitter.emit(LifecycleEventKind::GateReady);

    let seen = sink.recorded();
    assert_eq!(
        seen.first().and_then(LifecycleEvent::identity),
        None,
        "there is no child to name before the fork"
    );
    assert_eq!(
        seen.get(1)
            .and_then(LifecycleEvent::identity)
            .map(ProcessIdentity::pid),
        Some(7)
    );
}

#[test]
fn an_identity_is_never_relabelled() {
    let sink = Arc::new(RecordingSink::default());
    let mut emitter = emitter(&sink);
    emitter.set_identity(ProcessIdentity::from_parts(7, Some(1), None));
    emitter.set_identity(ProcessIdentity::from_parts(9, Some(2), None));
    emitter.emit(LifecycleEventKind::GateReady);

    assert_eq!(
        sink.recorded()
            .first()
            .and_then(LifecycleEvent::identity)
            .map(ProcessIdentity::pid),
        Some(7)
    );
}

#[test]
fn every_event_carries_the_session_and_a_wall_clock() {
    let sink = Arc::new(RecordingSink::default());
    let mut emitter = emitter(&sink);
    let before = wall_clock();
    emitter.emit(LifecycleEventKind::PrepareStarted);
    let after = wall_clock();

    let Some(event) = sink.recorded().into_iter().next() else {
        panic!("the sink recorded nothing");
    };
    assert_eq!(event.session_id(), Some(test_id()));
    assert_eq!(event.generation(), 1);
    assert!(event.observed_at() >= before && event.observed_at() <= after);
    assert_eq!(event.observation(), Observation::DirectlyObserved);
}

#[test]
fn sink_is_usable_behind_a_shared_trait_object() {
    let sink = Arc::new(RecordingSink::default());
    let erased: Arc<dyn EventSink> = sink.clone();
    let mut emitter = EventEmitter::new(Some(erased), test_id(), 1);

    emitter.emit(state_changed(
        LifecycleState::Activating,
        LifecycleState::Running,
    ));

    assert_eq!(sink.recorded().len(), 1);
}

#[test]
fn reconstructed_events_are_labelled_distinctly() {
    let sink = Arc::new(RecordingSink::default());
    let mut emitter = emitter(&sink);
    emitter.emit(state_changed(
        LifecycleState::Running,
        LifecycleState::Exited,
    ));
    emitter.emit_with(
        state_changed(LifecycleState::Running, LifecycleState::Exited),
        Observation::Reconstructed,
    );

    let seen = sink.recorded();
    assert_eq!(
        seen.first().map(LifecycleEvent::observation),
        Some(Observation::DirectlyObserved)
    );
    assert_eq!(
        seen.get(1).map(LifecycleEvent::observation),
        Some(Observation::Reconstructed)
    );
    assert_ne!(seen.first(), seen.get(1));
}

#[test]
fn a_ring_keeps_the_last_events_in_order() {
    let sink = Arc::new(RecordingSink::default());
    let mut emitter = emitter(&sink);
    for _ in 0..DETACHED_EVENT_RING_CAPACITY + 3 {
        emitter.emit(LifecycleEventKind::GateAborted);
    }
    let mut ring = EventRing::new();
    for event in sink.recorded() {
        ring.record(&event);
    }
    let kept: Vec<u64> = ring.snapshot().iter().map(LifecycleEvent::seq).collect();
    let expected: Vec<u64> = (3..DETACHED_EVENT_RING_CAPACITY as u64 + 3).collect();
    assert_eq!(kept, expected);
}
