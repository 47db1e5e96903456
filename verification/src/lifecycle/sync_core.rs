//! The state of a run and the one-shot claim on its gate, in one place.

use vstd::prelude::*;
use super::state;
use super::state::{LifecycleOp, LifecycleState, Transition, TransitionError};

verus! {

/// The state of a run, and whether the right to write its gate is spent.
#[derive(Debug)]
pub struct SharedLifecycle {
    state: LifecycleState,
    gate_claimed: bool,
}

/// What a [`SharedLifecycle`] holds.
pub struct CoreView {
    /// Where the run is.
    pub state: LifecycleState,
    /// Whether the right to write the activation gate is spent.
    pub gate_claimed: bool,
}

impl View for SharedLifecycle {
    type V = CoreView;

    closed spec fn view(&self) -> CoreView {
        CoreView { state: self.state, gate_claimed: self.gate_claimed }
    }
}

/// What applying `op` in `state` answers.
pub open spec fn applied(state: LifecycleState, op: LifecycleOp) -> Result<
    Transition,
    TransitionError,
> {
    match state::next_state(state, op) {
        Some(to) => Ok(Transition { from: state, to }),
        None => Err(TransitionError { from: state, op }),
    }
}

/// The state after `answer`.
pub open spec fn state_after(
    state: LifecycleState,
    answer: Result<Transition, TransitionError>,
) -> LifecycleState {
    match answer {
        Ok(change) => change.to,
        Err(_) => state,
    }
}

impl SharedLifecycle {
    /// A run in `state` whose gate nobody has claimed.
    pub fn new(state: LifecycleState) -> (core: Self)
        ensures
            core@ == (CoreView { state, gate_claimed: false }),
    {
        SharedLifecycle { state, gate_claimed: false }
    }

    /// Where the run is.
    pub fn state(&self) -> (state: LifecycleState)
        ensures
            state == self@.state,
    {
        self.state
    }

    /// Apply an op that leaves the activation gate alone. A refused op moves nothing.
    pub fn mark(&mut self, op: LifecycleOp) -> (answer: Result<Transition, TransitionError>)
        ensures
            answer == applied(old(self)@.state, op),
            final(self)@ == (CoreView {
                state: state_after(old(self)@.state, answer),
                gate_claimed: old(self)@.gate_claimed,
            }),
    {
        let from = self.state;
        match from.apply(op) {
            Ok(to) => {
                self.state = to;
                Ok(Transition { from, to })
            },
            Err(err) => Err(err),
        }
    }

    /// Request a stop.
    pub fn begin_stop(&mut self) -> (answer: Result<Transition, TransitionError>)
        ensures
            answer == applied(old(self)@.state, LifecycleOp::BeginStop),
            final(self)@ == (CoreView {
                state: state_after(old(self)@.state, answer),
                gate_claimed: old(self)@.gate_claimed,
            }),
    {
        self.mark(LifecycleOp::BeginStop)
    }

    /// Claim the activation gate for a release. Whoever gets `Ok` is the one party that may
    /// write the release message.
    pub fn try_begin_activate(&mut self) -> (answer: Result<Transition, TransitionError>)
        ensures
            answer == applied(old(self)@.state, LifecycleOp::BeginActivate),
            final(self)@ == (CoreView {
                state: state_after(old(self)@.state, answer),
                gate_claimed: old(self)@.gate_claimed || answer is Ok,
            }),
    {
        let answer = self.mark(LifecycleOp::BeginActivate);
        if answer.is_ok() {
            self.gate_claimed = true;
        }
        answer
    }

    /// Claim the activation gate for closing it. Answers whether the caller may write a
    /// message first.
    pub fn claim_gate_close(&mut self) -> (may_write: bool)
        ensures
            may_write == !old(self)@.gate_claimed,
            final(self)@ == (CoreView { state: old(self)@.state, gate_claimed: true }),
    {
        let may_write = !self.gate_claimed;
        self.gate_claimed = true;
        may_write
    }
}

} // verus!
