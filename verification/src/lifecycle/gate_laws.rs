//! What holds of a held run: who may release it and until when, what it is told
//! when it ends, and what is written down of it.

use vstd::prelude::*;
use crate::time::Nanos;
use super::activated;
use super::activated::ActivatedSandbox;
use super::cgroup::CgroupError;
use super::effect::Effect;
use super::events::{ActivationOutcome, LifecycleEventKind};
use super::exit;
use super::exit::{ActivationObservation, ExitOutcome, PreExecStage, SupervisorStage};
use super::gate;
use super::gate::{ActivationError, HandleView};
use super::prepare;
use super::prepare::{Activation, Failing, PreparedView};
use super::probe::Platform;
use super::state;
use super::state::{LifecycleOp, LifecycleState};
use super::sync_core;

verus! {

/// A gate expires once its limit has passed since the child was prepared, not a
/// moment before; one without a limit never does.
pub proof fn law_a_gate_expires_at_its_limit(run: PreparedView, now: Nanos)
    ensures
        run.expiry is None ==> !run.expired_at(now),
        run.expiry matches Some(limit) ==> {
            &&& now.0 >= run.prepared_at.0 ==> (run.expired_at(now) <==> now.0 >= run.prepared_at.0
                + limit.0)
            &&& now.0 < run.prepared_at.0 && limit.0 > 0 ==> !run.expired_at(now)
        },
{
}

/// An attempt to release is refused for the first thing that is wrong with it, in
/// one order, and the refusal says what was expected and what came.
pub proof fn law_a_refused_attempt_says_why(run: PreparedView, handle: HandleView, now: Nanos)
    ensures
        ({
            let judged = prepare::judged(run, handle, now);
            let told = prepare::refusal_event(run, handle, now);
            let session = handle.session_id == run.session_id;
            let generation = session && handle.generation == run.generation;
            let open = generation && run.state is Prepared;
            let late = run.expiry is Some && run.expired_at(now);
            &&& !session ==> told is RefusedWrongSession && judged == Activation::Refused(
                ActivationError::WrongSession {
                    expected: run.session_id,
                    supplied: handle.session_id,
                },
            )
            &&& session && !generation ==> told is RefusedWrongGeneration && judged
                == Activation::Refused(
                ActivationError::WrongGeneration {
                    expected: run.generation,
                    supplied: handle.generation,
                },
            )
            &&& generation && !open ==> told == (ActivationOutcome::RefusedGateClosed {
                state: run.state,
            }) && judged == Activation::Refused(ActivationError::closed_gate(run.state))
            &&& open && late ==> told is RefusedExpired && judged is Expired
            &&& open && !late && gate::sha256(handle.token) != run.token_digest ==> told
                is RefusedInvalidToken && judged == Activation::Refused(
                ActivationError::InvalidActivationToken,
            )
            &&& open && !late && gate::sha256(handle.token) == run.token_digest ==> judged
                is Release
        }),
{
}

/// A legal op moves a run to where the op leads and is told and written down, in
/// that order; one that is not legal moves nothing and is not told. Nothing but
/// the state changes.
pub proof fn law_a_move_is_told_and_written(
    run: PreparedView,
    op: LifecycleOp,
    activation: Option<ActivationObservation>,
)
    ensures
        ({
            let moved = run.moved(op);
            &&& moved == (PreparedView { state: moved.state, ..run })
            &&& state::next_state(run.state, op) matches Some(to) ==> {
                &&& moved.state == to
                &&& activated::moved(run.state, op) == to
                &&& activated::move_effects(run.state, op, activation) == seq![
                    Effect::Emit(LifecycleEventKind::StateChanged { from: run.state, to }),
                    Effect::Persist { state: to, activation },
                ]
            }
            &&& state::next_state(run.state, op) is None ==> {
                &&& moved == run
                &&& activated::moved(run.state, op) == run.state
                &&& activated::move_effects(run.state, op, activation) == Seq::<Effect>::empty()
            }
            &&& run.move_effects(op) == activated::move_effects(
                run.state,
                op,
                match run.last_exit {
                    Some(exit) => Some(exit.ran()),
                    None => None,
                },
            )
        }),
{
}

/// A run's core answers an op with the change it made, or with the op and the
/// state that refused it.
pub proof fn law_a_core_answers_for_its_state(from: LifecycleState, op: LifecycleOp)
    ensures
        match sync_core::applied(from, op) {
            Ok(change) => change.from == from && state::next_state(from, op) == Some(change.to)
                && sync_core::state_after(from, sync_core::applied(from, op)) == change.to,
            Err(err) => err.from == from && err.op == op && state::next_state(from, op) is None
                && sync_core::state_after(from, sync_core::applied(from, op)) == from,
        },
{
}

/// A gate that is shut is told the abort where that may still be said, is closed,
/// and its closing is told; a gate that is closed is left alone.
pub proof fn law_an_abort_is_said_then_the_gate_is_closed(run: PreparedView)
    ensures
        ({
            let done = run.abort_effects();
            let says = run.gate_open && !run.gate_claimed && run.secrets is Some;
            &&& !run.gate_open <==> done.len() == 0
            &&& says <==> done.len() == 3 && done[0] is WriteAbort
            &&& run.gate_open ==> done.len() >= 2 && done[done.len() - 2] is CloseGate
                && done[done.len() - 1] == Effect::Emit(LifecycleEventKind::GateAborted)
            &&& run.gate_open && !says ==> done.len() == 2
        }),
        run.aborted() == (PreparedView { gate_open: false, gate_claimed: true, ..run }),
{
}

/// Secrets that are forgotten are gone, and nothing else is.
pub proof fn law_forgetting_keeps_the_rest(run: PreparedView)
    ensures
        run.forgotten() == (PreparedView {
            token_digest: run.forgotten().token_digest,
            secrets: None,
            ..run
        }),
        run.forgotten().token_digest.len() == 32,
        forall|i: int| 0 <= i < 32 ==> run.forgotten().token_digest[i] == 0u8,
{
}

/// A run that ended keeps how it ended, whether it ever ran and whose end it was.
pub proof fn law_an_ending_keeps_its_facts(
    run: PreparedView,
    outcome: ExitOutcome,
    activation: ActivationObservation,
)
    ensures
        ({
            let ended = run.ended(outcome, activation);
            &&& ended == (PreparedView { last_exit: ended.last_exit, ..run })
            &&& ended.last_exit matches Some(exit) && exit.how() == outcome && exit.ran()
                == activation && exit.who() == run.identity
            &&& ended.recorded() == Some(activation)
        }),
{
    exit::law_an_exit_keeps_its_facts(outcome, activation, run.identity);
}

/// A failed preparation is an end before the program ran: the run has failed, its
/// end carries the stage and the number, and that is told before it is written.
pub proof fn law_a_failed_preparation_never_ran(run: PreparedView, stage: PreExecStage, errno: i32)
    requires
        run.state is Preparing,
    ensures
        ({
            let failed = run.failed_prepare(stage, errno);
            let outcome = if stage is SandboxApply || stage is NetworkFilter {
                ExitOutcome::SandboxApplicationFailure { stage, errno }
            } else {
                ExitOutcome::PreExecFailure { stage, errno }
            };
            let told = run.fail_prepare_effects(stage, errno);
            &&& failed.state is Failed
            &&& failed.last_exit matches Some(exit) && exit.how() == outcome
                && exit.ran() is NotActivated && exit.who() == run.identity
            &&& told.len() == 4
            &&& told[0] == Effect::Emit(LifecycleEventKind::ChildExited { outcome })
            &&& told[1] == Effect::Emit(
                LifecycleEventKind::StateChanged {
                    from: LifecycleState::Preparing,
                    to: LifecycleState::Failed,
                },
            )
            &&& told[2] matches Effect::Persist { state, .. } && state is Failed
            &&& told[3] == (Effect::Persist {
                state: LifecycleState::Failed,
                activation: Some(ActivationObservation::NotActivated),
            })
        }),
{
    let outcome = super::record::outcome_of(stage, errno);
    exit::law_an_exit_keeps_its_facts(outcome, ActivationObservation::NotActivated, run.identity);
}

/// What failed an activation is told apart: a child that stopped before its
/// program never ran it, and so did one whose release was not written; once it
/// was, a supervisor that failed cannot tell.
pub proof fn law_what_failed_an_activation(stage: PreExecStage, step: SupervisorStage, errno: i32)
    ensures
        Failing::before_exec(stage, errno) == (Failing {
            recorded: Some(ExitOutcome::PreExecFailure { stage, errno }),
            activation: ActivationObservation::NotActivated,
            error: ActivationError::PreExecFailed { stage, errno },
        }),
        Failing::supervisor(step, errno).recorded is None,
        Failing::supervisor(step, errno).error == (ActivationError::SupervisorFailed {
            stage: step,
            errno,
        }),
        Failing::supervisor(step, errno).activation is NotActivated <==> step is Release,
        Failing::supervisor(step, errno).activation is ExecOrKilledPreExec <==> !(step is Release),
{
}

/// A child's own record of its end is believed over the wait, and without one the
/// wait is all there is.
pub proof fn law_a_record_is_believed_over_a_wait(
    said: Result<Option<(u8, i32)>, i32>,
    reaped: ExitOutcome,
)
    ensures
        match said {
            Ok(Some((tag, errno))) => prepare::ending(said, reaped)
                == (ExitOutcome::PreExecFailure { stage: exit::stage_of(tag), errno }),
            _ => prepare::ending(said, reaped) == reaped,
        },
{
}

/// A death counts as observed exactly where it was: a held run answers for its
/// child until it is reaped, and a released one has its exit on record.
pub proof fn law_a_death_is_observed_by_reaping(
    run: PreparedView,
    released: activated::ActivatedView,
)
    ensures
        run.death() is NotReaped <==> run.child_owned,
        ActivatedSandbox::death(released) is Reaped <==> released.reaped is Some,
{
}

/// Only an exit settles that the program ran. A signal, and everything else that
/// is no exit, leaves what was known.
pub proof fn law_an_exit_settles_that_it_ran(
    activation: ActivationObservation,
    code: i32,
    signal: i32,
)
    ensures
        activated::sharpened(activation, ExitOutcome::Exited { code })
            is Observed,
        activated::sharpened(activation, ExitOutcome::Signaled { signal }) == activation,
{
}

/// A stop that could not kill by cgroup says so wherever there are cgroups: with
/// what went wrong, or that the run has none.
pub proof fn law_a_weaker_stop_is_told(killed: Option<Result<(), CgroupError>>, platform: Platform)
    ensures
        activated::containment_fault(killed, platform) is None <==> (killed matches Some(Ok(())))
            || (killed is None && !(platform is Linux)),
        killed matches Some(Err(err)) ==> activated::containment_fault(killed, platform) == Some(
            err.text(),
        ),
{
}

/// What is wiped holds nothing but zeros, and what holds a byte that is not zero
/// is not wiped.
pub proof fn law_what_is_wiped_is_zero(message: Seq<u8>, i: int)
    requires
        0 <= i < message.len(),
    ensures
        gate::is_wiped(message) ==> message[i] == 0u8,
        message[i] != 0u8 ==> !gate::is_wiped(message),
{
}

} // verus!
