use nono::lifecycle::activated::ActivatedSandbox;
use nono::lifecycle::child::{
    first_step, next_step, ChildFacts, ChildOutcome, ChildStep, NO_DESCRIPTOR,
};
use nono::lifecycle::cleanup::{Answers, Probe, Question};
use nono::lifecycle::effect::Effect;
use nono::lifecycle::gate::{GateSecrets, GATE_MESSAGE_BYTES};
use nono::lifecycle::probe::TAG_PROBE_PERMITTED;
use nono::lifecycle::record::{advance, Moved, Transfer};
use nono::lifecycle::sync_core::SharedLifecycle;
use nono::lifecycle::{
    ActivationObservation, CleanupError, CleanupVerification, ExitOutcome, LifecycleEventKind,
    LifecycleOp, LifecycleState, PreExecStage, ProcessIdentity, ReapError, StopError,
    SurvivorEvidence, TransitionError,
};

const RELEASE: [u8; GATE_MESSAGE_BYTES] = [1; GATE_MESSAGE_BYTES];
const ABORT: [u8; GATE_MESSAGE_BYTES] = [2; GATE_MESSAGE_BYTES];
const PROBE: [u8; GATE_MESSAGE_BYTES] = [3; GATE_MESSAGE_BYTES];

fn secrets() -> GateSecrets {
    GateSecrets::from_messages(RELEASE, ABORT, PROBE)
}

const PLAIN: ChildFacts = ChildFacts {
    interactive: false,
    has_working_dir: false,
    workload_uid: None,
};

fn after(facts: ChildFacts, step: ChildStep, outcome: ChildOutcome) -> ChildStep {
    next_step(facts, &secrets(), step, outcome)
}

#[test]
fn a_released_child_executes_after_its_sandbox_and_its_report() {
    let mut step = first_step();
    let outcomes = [
        (ChildStep::CloseParentEnds, ChildOutcome::Done),
        (ChildStep::LeadGroup, ChildOutcome::Done),
        (
            ChildStep::ApplySandbox,
            ChildOutcome::Applied { listener: None },
        ),
        (
            ChildStep::SweepDescriptors {
                listener: NO_DESCRIPTOR,
            },
            ChildOutcome::Done,
        ),
        (ChildStep::ReportReady, ChildOutcome::Done),
        (ChildStep::ReadMessage, ChildOutcome::Message { bytes: PROBE }),
        (ChildStep::ReadRequest, ChildOutcome::Done),
        (
            ChildStep::RunProbe,
            ChildOutcome::Answer {
                tag: TAG_PROBE_PERMITTED,
                errno: 0,
            },
        ),
        (
            ChildStep::ReportAnswer {
                tag: TAG_PROBE_PERMITTED,
                errno: 0,
            },
            ChildOutcome::Done,
        ),
        (
            ChildStep::ReadMessage,
            ChildOutcome::Message { bytes: RELEASE },
        ),
    ];
    for (expected, outcome) in outcomes {
        assert_eq!(step, expected);
        step = after(PLAIN, step, outcome);
    }
    assert_eq!(step, ChildStep::Exec);
    assert_eq!(
        after(PLAIN, step, ChildOutcome::Failed { errno: 2 }),
        ChildStep::Fail {
            stage: PreExecStage::Exec,
            errno: 2
        }
    );
}

#[test]
fn an_interactive_child_leads_a_session() {
    let facts = ChildFacts {
        interactive: true,
        has_working_dir: true,
        workload_uid: None,
    };
    assert_eq!(
        after(facts, first_step(), ChildOutcome::Done),
        ChildStep::LeadSession
    );
    assert_eq!(
        after(facts, ChildStep::LeadSession, ChildOutcome::Done),
        ChildStep::AdoptTerminal
    );
    assert_eq!(
        after(
            facts,
            ChildStep::AdoptTerminal,
            ChildOutcome::Failed { errno: 25 }
        ),
        ChildStep::Fail {
            stage: PreExecStage::ControllingTerminal,
            errno: 25
        }
    );
    assert_eq!(
        after(
            facts,
            ChildStep::ReadMessage,
            ChildOutcome::Message { bytes: RELEASE }
        ),
        ChildStep::EnterDirectory
    );
    assert_eq!(
        after(
            facts,
            ChildStep::EnterDirectory,
            ChildOutcome::Failed { errno: 13 }
        ),
        ChildStep::Fail {
            stage: PreExecStage::WorkingDirectory,
            errno: 13
        }
    );
}

#[test]
fn a_workload_identity_is_taken_on_just_before_the_program_runs() {
    for has_working_dir in [false, true] {
        let facts = ChildFacts {
            interactive: false,
            has_working_dir,
            workload_uid: Some(1000),
        };
        let mut step = after(
            facts,
            ChildStep::ReadMessage,
            ChildOutcome::Message { bytes: RELEASE },
        );
        if has_working_dir {
            assert_eq!(step, ChildStep::EnterDirectory);
            step = after(facts, step, ChildOutcome::Done);
        }
        assert_eq!(step, ChildStep::DropIdentity { uid: 1000 });
        assert_eq!(after(facts, step, ChildOutcome::Done), ChildStep::Exec);
        assert_eq!(
            after(facts, step, ChildOutcome::Failed { errno: 1 }),
            ChildStep::Fail {
                stage: PreExecStage::WorkloadIdentity,
                errno: 1
            }
        );
    }
}

#[test]
fn everything_but_the_release_ends_the_wait() {
    let wait = |outcome| after(PLAIN, ChildStep::ReadMessage, outcome);
    assert_eq!(
        wait(ChildOutcome::Message { bytes: ABORT }),
        ChildStep::Fail {
            stage: PreExecStage::GateAborted,
            errno: 0
        }
    );
    assert_eq!(
        wait(ChildOutcome::Message {
            bytes: [9; GATE_MESSAGE_BYTES]
        }),
        ChildStep::Fail {
            stage: PreExecStage::GateProtocol,
            errno: 0
        }
    );
    assert_eq!(
        wait(ChildOutcome::Closed),
        ChildStep::Fail {
            stage: PreExecStage::GateClosed,
            errno: 0
        }
    );
    assert_eq!(
        wait(ChildOutcome::Failed { errno: 5 }),
        ChildStep::Fail {
            stage: PreExecStage::GateWait,
            errno: 5
        }
    );
    assert_eq!(
        after(
            PLAIN,
            ChildStep::ApplySandbox,
            ChildOutcome::NotApplied {
                stage: PreExecStage::NetworkFilter,
                errno: 1
            }
        ),
        ChildStep::Fail {
            stage: PreExecStage::NetworkFilter,
            errno: 1
        }
    );
    assert_eq!(
        after(
            PLAIN,
            ChildStep::ReportReady,
            ChildOutcome::Failed { errno: 32 }
        ),
        ChildStep::Exit
    );
    assert_eq!(
        after(
            PLAIN,
            ChildStep::ApplySandbox,
            ChildOutcome::Applied { listener: Some(8) }
        ),
        ChildStep::ReportListener { fd: 8 }
    );
    assert_eq!(
        after(PLAIN, ChildStep::ReportListener { fd: 8 }, ChildOutcome::Done),
        ChildStep::SweepDescriptors { listener: 8 }
    );
    assert_eq!(
        after(PLAIN, ChildStep::Exit, ChildOutcome::Done),
        ChildStep::Exit
    );
}

#[test]
fn a_fixed_size_transfer_survives_interruptions() {
    assert_eq!(
        advance(0, 16, Moved::Failed(libc::EINTR)),
        Transfer::Continue(0)
    );
    assert_eq!(advance(0, 16, Moved::Count(10)), Transfer::Continue(10));
    assert_eq!(advance(10, 16, Moved::Count(6)), Transfer::Done);
    assert_eq!(advance(10, 16, Moved::Count(0)), Transfer::Closed);
    assert_eq!(
        advance(10, 16, Moved::Failed(libc::EIO)),
        Transfer::Failed(libc::EIO)
    );
}

fn running() -> ActivatedSandbox {
    let mut out = Vec::new();
    let identity = ProcessIdentity::from_parts(60, Some(3), None);
    let run = ActivatedSandbox::new(
        identity,
        60,
        LifecycleState::Running,
        ActivationObservation::ExecOrKilledPreExec,
        &mut out,
    );
    assert_eq!(
        out,
        vec![Effect::Persist {
            state: LifecycleState::Running,
            activation: Some(ActivationObservation::ExecOrKilledPreExec)
        }]
    );
    run
}

#[test]
fn a_normal_exit_settles_that_the_program_ran() {
    let mut run = running();
    assert_eq!(run.left_behind(), Some((60, 60)));
    let mut out = Vec::new();
    let exit = match run.wait(Ok(ExitOutcome::Exited { code: 3 }), &mut out) {
        Ok(exit) => exit,
        Err(err) => panic!("the exit was observed: {}", err.to_text()),
    };
    assert_eq!(exit.activation(), ActivationObservation::Observed);
    assert_eq!(run.state(), LifecycleState::Exited);
    assert_eq!(run.left_behind(), None);
    // A death is observed once.
    let mut out = Vec::new();
    assert_eq!(
        run.wait(Ok(ExitOutcome::Signaled { signal: 9 }), &mut out),
        Ok(exit)
    );
    assert!(out.is_empty());
    assert_eq!(
        run.stop(&mut out),
        Err(StopError::NotStoppable {
            state: LifecycleState::Exited
        })
    );
}

#[test]
fn a_signal_death_leaves_the_activation_open() {
    let mut run = running();
    let mut out = Vec::new();
    let lost = ReapError { pid: 60, errno: 10 };
    assert_eq!(run.wait(Err(lost), &mut out), Err(lost));
    assert!(out.is_empty());
    assert_eq!(run.stop(&mut out), Ok(()));
    assert_eq!(run.state(), LifecycleState::Stopping);
    assert_eq!(run.stop_signalled(60, Err(libc::ESRCH)), Ok(()));
    assert_eq!(
        run.stop_signalled(60, Err(libc::EPERM)),
        Err(StopError::SignalFailed {
            target: 60,
            errno: libc::EPERM
        })
    );
    assert_eq!(
        run.stop_observed(Err(lost), &mut out),
        Err(StopError::Reap(lost))
    );
    let exit = match run.stop_observed(Ok(ExitOutcome::Signaled { signal: 9 }), &mut out) {
        Ok(exit) => exit,
        Err(err) => panic!("the death was observed: {}", err.to_text()),
    };
    assert_eq!(exit.activation(), ActivationObservation::ExecOrKilledPreExec);
    assert_eq!(run.state(), LifecycleState::Stopped);
    assert_eq!(run.observed_exit(), Some(&exit));
}

#[test]
fn a_survivor_is_reported_and_moves_nothing() {
    let mut run = running();
    let answers = Answers {
        boot_id: None,
        probe: Ok(Probe::Present),
        start_time: None,
    };
    let mut out = Vec::new();
    assert_eq!(
        run.verify_cleanup(&answers, &mut out),
        Err(CleanupError {
            state: LifecycleState::Running
        })
    );
    assert!(run
        .wait(Ok(ExitOutcome::Exited { code: 0 }), &mut out)
        .is_ok());
    assert_eq!(run.cleanup_question(&None), Ok(Question::Group(60)));
    let verdict = CleanupVerification::StillPresent {
        survivors: SurvivorEvidence::ProcessGroupMember { pgid: 60 },
    };
    let mut out = Vec::new();
    assert_eq!(run.verify_cleanup(&answers, &mut out), Ok(verdict));
    assert_eq!(
        out,
        vec![Effect::Emit(LifecycleEventKind::CleanupVerdict { verdict })]
    );
    assert_eq!(run.state(), LifecycleState::Exited);
}

#[test]
fn the_machine_moves_forward_and_the_claim_is_spent_once() {
    let prepared = LifecycleState::Planning
        .apply(LifecycleOp::BeginPrepare)
        .and_then(|state| state.apply(LifecycleOp::PrepareSucceeded));
    assert_eq!(prepared, Ok(LifecycleState::Prepared));
    assert_eq!(
        LifecycleState::Planning.apply(LifecycleOp::BeginActivate),
        Err(TransitionError {
            from: LifecycleState::Planning,
            op: LifecycleOp::BeginActivate
        })
    );
    let mut shared = SharedLifecycle::new(LifecycleState::Prepared);
    assert!(shared.try_begin_activate().is_ok());
    assert_eq!(
        shared.try_begin_activate(),
        Err(TransitionError {
            from: LifecycleState::Activating,
            op: LifecycleOp::BeginActivate
        })
    );
    assert!(!shared.claim_gate_close(), "the claim is spent");
    let mut shared = SharedLifecycle::new(LifecycleState::Prepared);
    assert!(shared.claim_gate_close());
    assert!(!shared.claim_gate_close());
}
