//! What a run asks its driver to do.

use vstd::prelude::*;
use super::events::LifecycleEventKind;
use super::exit::ActivationObservation;
use super::state::{LifecycleState, Transition};

verus! {

/// One thing to do, in the order in which it was asked for.
#[derive(Debug, PartialEq, Eq)]
pub enum Effect {
    /// Report this fact through the run's emitter.
    Emit(LifecycleEventKind),
    /// Report this fact as one that another process witnessed.
    EmitReconstructed(LifecycleEventKind),
    /// Write the run's state, and what is known of its activation, to the
    /// durable record, where the run has one.
    Persist {
        /// The state to record.
        state: LifecycleState,
        /// Whether the program was observed to start, once that is known.
        activation: Option<ActivationObservation>,
    },
    /// Write the abort message to the activation gate. Best effort: the close that follows
    /// is the part that is guaranteed to land.
    WriteAbort,
    /// Close the activation gate.
    CloseGate,
    /// Close the status descriptor.
    CloseStatus,
}

/// The effects of a change of state: the event, then the record.
pub open spec fn change_effects(
    change: Transition,
    activation: Option<ActivationObservation>,
) -> Seq<Effect> {
    seq![
        Effect::Emit(LifecycleEventKind::StateChanged { from: change.from, to: change.to }),
        Effect::Persist { state: change.to, activation },
    ]
}

/// Ask for the effects of a change of state that already happened.
pub fn report_change(
    change: Transition,
    activation: Option<ActivationObservation>,
    out: &mut Vec<Effect>,
)
    ensures
        final(out)@ == old(out)@ + change_effects(change, activation),
{
    out.push(Effect::Emit(LifecycleEventKind::StateChanged { from: change.from, to: change.to }));
    out.push(Effect::Persist { state: change.to, activation });
    assert(out@ =~= old(out)@ + change_effects(change, activation));
}

/// Ask for one fact to be reported.
pub fn report(what: LifecycleEventKind, out: &mut Vec<Effect>)
    ensures
        final(out)@ == old(out)@.push(Effect::Emit(what)),
{
    out.push(Effect::Emit(what));
}

} // verus!
