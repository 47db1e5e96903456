//! A run whose gate was released.
//!
//! [`ActivatedSandbox`] decides; its driver does the waiting and the signalling
//! and hands back what it observed.

use vstd::prelude::*;
use super::cgroup::CgroupError;
use super::cleanup;
use super::cleanup::{
    question, verify_and_record, Answers, CleanupError, CleanupVerification, DeathObservation,
    Question,
};
use super::effect;
use super::effect::{report, report_change, Effect};
use super::events::LifecycleEventKind;
use super::exit::{kill_verdict, ActivationObservation, ExitOutcome, ReapError, SandboxExit};
use super::gate::StopError;
use super::identity;
use super::identity::ProcessIdentity;
use super::state;
use super::state::{LifecycleOp, LifecycleState, Transition};
use super::probe::Platform;
use super::sync_core::SharedLifecycle;

verus! {

/// A run whose gate was released and whose child then vanished from the status
/// descriptor. The authoritative handle of the run from there on.
#[derive(Debug)]
pub struct ActivatedSandbox {
    identity: ProcessIdentity,
    process_group: i32,
    shared: SharedLifecycle,
    activation: ActivationObservation,
    reaped: Option<SandboxExit>,
}

/// What is known of an activated run.
pub struct ActivatedView {
    /// The child.
    pub identity: ProcessIdentity,
    /// The process group the child leads.
    pub process_group: i32,
    /// Where the run is.
    pub state: LifecycleState,
    /// Whether the program started, as far as is known.
    pub activation: ActivationObservation,
    /// How the run ended, once its end was observed.
    pub reaped: Option<SandboxExit>,
}

impl View for ActivatedSandbox {
    type V = ActivatedView;

    closed spec fn view(&self) -> ActivatedView {
        ActivatedView {
            identity: self.identity,
            process_group: self.process_group,
            state: self.shared@.state,
            activation: self.activation,
            reaped: self.reaped,
        }
    }
}

/// What an exit says of the activation: only a child that reached `execve` can
/// exit normally without having written a record. A signal can arrive on either
/// side of `execve`.
pub open spec fn sharpened(
    activation: ActivationObservation,
    outcome: ExitOutcome,
) -> ActivationObservation {
    if outcome is Exited {
        ActivationObservation::Observed
    } else {
        activation
    }
}

/// The state that `op` leads to, or the one it is refused in.
pub open spec fn moved(state: LifecycleState, op: LifecycleOp) -> LifecycleState {
    match state::next_state(state, op) {
        Some(to) => to,
        None => state,
    }
}

/// The effects of applying `op`; a refused op has none.
pub open spec fn move_effects(
    state: LifecycleState,
    op: LifecycleOp,
    activation: Option<ActivationObservation>,
) -> Seq<Effect> {
    match state::next_state(state, op) {
        Some(to) => effect::change_effects(Transition { from: state, to }, activation),
        None => Seq::empty(),
    }
}

/// Why a stop could not kill by cgroup, where it could not. Only Linux has
/// cgroups.
pub open spec fn containment_fault(
    killed: Option<Result<(), CgroupError>>,
    platform: Platform,
) -> Option<Seq<char>> {
    match killed {
        Some(Ok(())) => None,
        Some(Err(err)) => Some(err.text()),
        None => if platform is Linux {
            Some("the run was not placed in a cgroup"@)
        } else {
            None
        },
    }
}

impl ActivatedSandbox {
    /// The handle of a run that was just activated. The handoff itself is worth
    /// a record: only now is the activation fact known.
    pub fn new(
        identity: ProcessIdentity,
        process_group: i32,
        state: LifecycleState,
        activation: ActivationObservation,
        out: &mut Vec<Effect>,
    ) -> (run: Self)
        ensures
            run@ == (ActivatedView { identity, process_group, state, activation, reaped: None }),
            final(out)@ == old(out)@.push(Effect::Persist { state, activation: Some(activation) }),
    {
        out.push(Effect::Persist { state, activation: Some(activation) });
        ActivatedSandbox {
            identity,
            process_group,
            shared: SharedLifecycle::new(state),
            activation,
            reaped: None,
        }
    }

    /// What is known so far about whether the program started.
    #[must_use]
    pub fn activation(&self) -> (activation: ActivationObservation)
        ensures
            activation == self@.activation,
    {
        self.activation
    }

    /// The child's identity, captured at fork.
    #[must_use]
    pub fn identity(&self) -> (identity: &ProcessIdentity)
        ensures
            *identity == self@.identity,
    {
        &self.identity
    }

    /// The process group the child leads.
    #[must_use]
    pub fn process_group(&self) -> (pgid: i32)
        ensures
            pgid == self@.process_group,
    {
        self.process_group
    }

    /// Where the run currently is.
    #[must_use]
    pub fn state(&self) -> (state: LifecycleState)
        ensures
            state == self@.state,
    {
        self.shared.state()
    }

    /// How the run ended, once its end was observed. While there is nothing
    /// here, a wait has to reap the child.
    #[must_use]
    pub fn observed_exit(&self) -> (exit: Option<&SandboxExit>)
        ensures
            match exit {
                Some(exit) => self@.reaped == Some(*exit),
                None => self@.reaped is None,
            },
    {
        match &self.reaped {
            Some(exit) => Some(exit),
            None => None,
        }
    }

    /// Record what waiting for the program's end observed.
    ///
    /// A death is observed once: after that the recorded facts are reported and
    /// what a second wait said is ignored. A wait that failed observed nothing
    /// and records nothing.
    pub fn wait(&mut self, reaped: Result<ExitOutcome, ReapError>, out: &mut Vec<Effect>) -> (exit:
        Result<SandboxExit, ReapError>)
        ensures
            match old(self)@.reaped {
                Some(recorded) => {
                    &&& exit == Ok::<SandboxExit, ReapError>(recorded)
                    &&& final(self)@ == old(self)@
                    &&& final(out)@ == old(out)@
                },
                None => match reaped {
                    Err(err) => {
                        &&& exit == Err::<SandboxExit, ReapError>(err)
                        &&& final(self)@ == old(self)@
                        &&& final(out)@ == old(out)@
                    },
                    Ok(outcome) => {
                        let activation = sharpened(old(self)@.activation, outcome);
                        let observed = SandboxExit::of(outcome, activation, old(self)@.identity);
                        &&& exit == Ok::<SandboxExit, ReapError>(observed)
                        &&& final(self)@ == (ActivatedView {
                            state: moved(old(self)@.state, LifecycleOp::ChildExited),
                            activation,
                            reaped: Some(observed),
                            ..old(self)@
                        })
                        &&& final(out)@ == old(out)@.push(
                            Effect::Emit(LifecycleEventKind::ChildExited { outcome }),
                        ) + move_effects(
                            old(self)@.state,
                            LifecycleOp::ChildExited,
                            Some(activation),
                        )
                    },
                },
            },
    {
        if let Some(exit) = &self.reaped {
            return Ok(exit.clone());
        }
        let outcome = match reaped {
            Ok(outcome) => outcome,
            Err(err) => {
                return Err(err);
            },
        };
        if let ExitOutcome::Exited { .. } = outcome {
            self.activation = ActivationObservation::Observed;
        }
        report(LifecycleEventKind::ChildExited { outcome }, out);
        let exit = SandboxExit::new(outcome, self.activation, self.identity.clone());
        self.transition(LifecycleOp::ChildExited, out);
        self.reaped = Some(exit.clone());
        Ok(exit)
    }

    /// Request a stop. On success the driver kills the group, then the child by
    /// pid, then reaps; a run that already ended is refused before any signal.
    pub fn stop(&mut self, out: &mut Vec<Effect>) -> (requested: Result<(), StopError>)
        ensures
            match state::next_state(old(self)@.state, LifecycleOp::BeginStop) {
                Some(to) => {
                    &&& requested == Ok::<(), StopError>(())
                    &&& final(self)@ == (ActivatedView { state: to, ..old(self)@ })
                    &&& final(out)@ == old(out)@.push(
                        Effect::Emit(LifecycleEventKind::StopRequested),
                    ) + effect::change_effects(
                        Transition { from: old(self)@.state, to },
                        Some(old(self)@.activation),
                    )
                },
                None => {
                    &&& requested == Err::<(), StopError>(
                        StopError::NotStoppable { state: old(self)@.state },
                    )
                    &&& final(self)@ == old(self)@
                    &&& final(out)@ == old(out)@
                },
            },
    {
        match self.shared.begin_stop() {
            Err(err) => Err(StopError::NotStoppable { state: err.from }),
            Ok(change) => {
                report(LifecycleEventKind::StopRequested, out);
                report_change(change, Some(self.activation), out);
                Ok(())
            },
        }
    }

    /// Record whether a stop could kill by cgroup; `killed` is what killing the
    /// run's cgroup came to, where it has one. Where it could not, the weaker
    /// kill by group that follows is all there is, and that is told: a run that
    /// a host would not contain is no silent downgrade.
    pub fn stop_contained(
        &self,
        killed: Option<Result<(), CgroupError>>,
        platform: Platform,
        out: &mut Vec<Effect>,
    )
        ensures
            match containment_fault(killed, platform) {
                None => final(out)@ == old(out)@,
                Some(fault) => final(out)@.len() == old(out)@.len() + 1 && final(out)@.drop_last()
                    == old(out)@ && (final(out)@.last() matches Effect::Emit(
                    LifecycleEventKind::StopCgroupFailed { detail },
                ) && detail@ == fault),
            },
    {
        let detail = match killed {
            Some(Ok(())) => {
                return ;
            },
            Some(Err(err)) => err.to_text(),
            None => match platform {
                Platform::Linux => "the run was not placed in a cgroup".to_string(),
                _ => {
                    return ;
                },
            },
        };
        report(LifecycleEventKind::StopCgroupFailed { detail }, out);
        assert(out@.drop_last() =~= old(out)@);
    }

    /// Judge a kill that was part of a stop: one that could not be delivered
    /// means that nothing is claimed and nothing may be reaped.
    pub fn stop_signalled(&self, target: i32, signalled: Result<(), i32>) -> (delivered: Result<
        (),
        StopError,
    >)
        ensures
            delivered == (match signalled {
                Ok(()) => Ok::<(), StopError>(()),
                Err(errno) => if errno == crate::errno::ESRCH {
                    Ok::<(), StopError>(())
                } else {
                    Err::<(), StopError>(StopError::SignalFailed { target, errno })
                },
            }),
    {
        match kill_verdict(signalled) {
            Ok(()) => Ok(()),
            Err(errno) => Err(StopError::SignalFailed { target, errno }),
        }
    }

    /// Record the death that a stop asked for. The signal is not the result: a
    /// program that exited on its own first is reported as the exit it had.
    pub fn stop_observed(
        &mut self,
        reaped: Result<ExitOutcome, ReapError>,
        out: &mut Vec<Effect>,
    ) -> (exit: Result<SandboxExit, StopError>)
        ensures
            match reaped {
                Err(err) => {
                    &&& exit == Err::<SandboxExit, StopError>(StopError::Reap(err))
                    &&& final(self)@ == old(self)@
                    &&& final(out)@ == old(out)@
                },
                Ok(outcome) => {
                    let observed = SandboxExit::of(
                        outcome,
                        old(self)@.activation,
                        old(self)@.identity,
                    );
                    &&& exit == Ok::<SandboxExit, StopError>(observed)
                    &&& final(self)@ == (ActivatedView {
                        state: moved(old(self)@.state, LifecycleOp::StopObserved),
                        reaped: Some(observed),
                        ..old(self)@
                    })
                    &&& final(out)@ == old(out)@.push(
                        Effect::Emit(LifecycleEventKind::StopObserved { outcome }),
                    ) + move_effects(
                        old(self)@.state,
                        LifecycleOp::StopObserved,
                        Some(old(self)@.activation),
                    )
                },
            },
    {
        let outcome = match reaped {
            Ok(outcome) => outcome,
            Err(err) => {
                return Err(StopError::Reap(err));
            },
        };
        report(LifecycleEventKind::StopObserved { outcome }, out);
        self.transition(LifecycleOp::StopObserved, out);
        let exit = SandboxExit::new(outcome, self.activation, self.identity.clone());
        self.reaped = Some(exit.clone());
        Ok(exit)
    }

    /// Whether the run's death was observed here.
    pub open spec fn death(run: ActivatedView) -> DeathObservation {
        if run.reaped is Some {
            DeathObservation::Reaped
        } else {
            DeathObservation::NotReaped
        }
    }

    fn death_observed(&self) -> (death: DeathObservation)
        ensures
            death == Self::death(self@),
    {
        if self.reaped.is_some() {
            DeathObservation::Reaped
        } else {
            DeathObservation::NotReaped
        }
    }

    /// What has to be probed before this run's cleanup can be judged.
    pub fn cleanup_question(&self, boot_id: &Option<String>) -> (asked: Result<
        Question,
        CleanupError,
    >)
        ensures
            asked == (if state::next_state(self@.state, LifecycleOp::CleanupConfirmed) is Some {
                Ok::<Question, CleanupError>(
                    cleanup::what_to_ask(
                        self@.identity@,
                        self@.process_group,
                        Self::death(self@),
                        identity::text_of(*boot_id),
                    ),
                )
            } else {
                Err::<Question, CleanupError>(CleanupError { state: self@.state })
            }),
    {
        match cleanup::may_verify(self.shared.state()) {
            Err(err) => Err(err),
            Ok(()) => Ok(
                question(&self.identity, self.process_group, self.death_observed(), boot_id),
            ),
        }
    }

    /// Prove the run's processes are gone, or report that they are not. Every
    /// verdict is reported; only a proof of absence moves the run.
    pub fn verify_cleanup(&mut self, answers: &Answers, out: &mut Vec<Effect>) -> (judged: Result<
        CleanupVerification,
        CleanupError,
    >)
        ensures
            ({
                let from = old(self)@.state;
                let reached = cleanup::verdict(
                    old(self)@.identity@,
                    old(self)@.process_group,
                    Self::death(old(self)@),
                    *answers,
                );
                let told = old(out)@.push(
                    Effect::Emit(LifecycleEventKind::CleanupVerdict { verdict: reached }),
                );
                if state::next_state(from, LifecycleOp::CleanupConfirmed) is None {
                    &&& judged == Err::<CleanupVerification, CleanupError>(
                        CleanupError { state: from },
                    )
                    &&& final(self)@ == old(self)@
                    &&& final(out)@ == old(out)@
                } else if reached is ConfirmedAbsent {
                    &&& judged == Ok::<CleanupVerification, CleanupError>(reached)
                    &&& final(self)@ == (ActivatedView {
                        state: LifecycleState::CleanupVerified,
                        ..old(self)@
                    })
                    &&& final(out)@ == told + effect::change_effects(
                        Transition { from, to: LifecycleState::CleanupVerified },
                        Some(old(self)@.activation),
                    )
                } else {
                    &&& judged == Ok::<CleanupVerification, CleanupError>(reached)
                    &&& final(self)@ == old(self)@
                    &&& final(out)@ == told
                }
            }),
    {
        let death = self.death_observed();
        match verify_and_record(
            &mut self.shared,
            &self.identity,
            self.process_group,
            death,
            answers,
        ) {
            Err(err) => Err(err),
            Ok((verification, change)) => {
                report(LifecycleEventKind::CleanupVerdict { verdict: verification }, out);
                if let Some(change) = change {
                    report_change(change, Some(self.activation), out);
                }
                Ok(verification)
            },
        }
    }

    /// What a dropped handle has to kill and reap: the group and then the child,
    /// unless the run's end was observed already.
    #[must_use]
    pub fn left_behind(&self) -> (targets: Option<(i32, i32)>)
        ensures
            targets == (if self@.reaped is None {
                Some((self@.process_group, self@.identity@.pid))
            } else {
                None::<(i32, i32)>
            }),
    {
        if self.reaped.is_some() {
            return None;
        }
        Some((self.process_group, self.identity.pid()))
    }

    /// Apply an observed fact. A refused op moves nothing.
    fn transition(&mut self, op: LifecycleOp, out: &mut Vec<Effect>)
        ensures
            final(self)@ == (ActivatedView {
                state: moved(old(self)@.state, op),
                ..old(self)@
            }),
            final(out)@ == old(out)@ + move_effects(
                old(self)@.state,
                op,
                Some(old(self)@.activation),
            ),
    {
        match self.shared.mark(op) {
            Ok(change) => report_change(change, Some(self.activation), out),
            Err(_) => {
                assert(out@ =~= old(out)@ + Seq::<Effect>::empty());
            },
        }
    }
}

/// A normal exit settles that the program ran; a death by signal leaves the
/// question as it was.
pub proof fn law_only_a_normal_exit_settles_the_activation(
    activation: ActivationObservation,
    outcome: ExitOutcome,
)
    ensures
        outcome is Exited ==> sharpened(activation, outcome) is Observed,
        !(outcome is Exited) ==> sharpened(activation, outcome) == activation,
{
}

/// A run that ended or was stopped is never signalled: no stop is granted there.
pub proof fn law_an_ended_run_is_never_signalled(state: LifecycleState)
    requires
        state is Exited || state is Stopped || state is Stopping || state is Failed
            || state is CleanupVerified,
    ensures
        state::next_state(state, LifecycleOp::BeginStop) is None,
{
}

} // verus!
