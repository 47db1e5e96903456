use nono::lifecycle::exit::{
    kill_group, kill_pid, kill_verdict, reap, WaitReport, STATUS_RECORD_LEN, TAG_GATE_READY,
};
use nono::lifecycle::{
    ActivationObservation, ExitOutcome, PreExecStage, ProcessIdentity, ReapError, SandboxExit,
    SupervisorStage, PRE_EXEC_EXIT_CODE,
};

const ALL_STAGES: [PreExecStage; 12] = [
    PreExecStage::ProcessGroup,
    PreExecStage::SandboxApply,
    PreExecStage::NetworkFilter,
    PreExecStage::ControllingTerminal,
    PreExecStage::GateWait,
    PreExecStage::GateClosed,
    PreExecStage::GateAborted,
    PreExecStage::GateProtocol,
    PreExecStage::WorkingDirectory,
    PreExecStage::WorkloadIdentity,
    PreExecStage::Exec,
    PreExecStage::Unknown,
];

#[test]
fn every_failure_stage_round_trips_through_its_wire_tag() {
    for stage in ALL_STAGES {
        assert_eq!(
            PreExecStage::from_tag(stage.as_tag()),
            stage,
            "{stage:?} must survive the fork boundary"
        );
    }
}

#[test]
fn stage_tags_are_distinct_and_never_collide_with_the_ready_marker() {
    for (index, stage) in ALL_STAGES.iter().enumerate() {
        assert_ne!(
            stage.as_tag(),
            TAG_GATE_READY,
            "{stage:?} must not be mistaken for the ready marker"
        );
        for other in &ALL_STAGES[index.saturating_add(1)..] {
            assert_ne!(stage.as_tag(), other.as_tag(), "{stage:?} vs {other:?}");
        }
    }
}

#[test]
fn an_unrecognised_tag_decodes_to_unknown_not_a_guess() {
    for tag in [0x00_u8, 0x02, 0x7F, 0xAB, 0xFF] {
        assert_eq!(PreExecStage::from_tag(tag), PreExecStage::Unknown);
    }
}

fn test_identity() -> ProcessIdentity {
    ProcessIdentity::from_parts(nix::unistd::getpid().as_raw(), Some(1), None)
}

#[test]
fn a_signal_death_is_not_reported_as_an_exit_code() {
    let signaled = SandboxExit::new(
        ExitOutcome::Signaled { signal: 9 },
        ActivationObservation::Observed,
        test_identity(),
    );
    let exited = SandboxExit::new(
        ExitOutcome::Exited { code: 137 },
        ActivationObservation::Observed,
        test_identity(),
    );
    assert_ne!(
        signaled.outcome(),
        exited.outcome(),
        "128+n collapsing would make these the same fact"
    );
}

#[test]
fn sandbox_exit_reports_whether_the_program_ever_ran() {
    let ran = SandboxExit::new(
        ExitOutcome::Exited { code: 0 },
        ActivationObservation::Observed,
        test_identity(),
    );
    let never_ran = SandboxExit::new(
        ExitOutcome::PreExecFailure {
            stage: PreExecStage::Exec,
            errno: 2,
        },
        ActivationObservation::NotActivated,
        test_identity(),
    );
    let unknown = SandboxExit::new(
        ExitOutcome::Signaled { signal: 9 },
        ActivationObservation::ExecOrKilledPreExec,
        test_identity(),
    );
    assert_eq!(ran.activation(), ActivationObservation::Observed);
    assert_eq!(never_ran.activation(), ActivationObservation::NotActivated);
    assert_eq!(
        unknown.activation(),
        ActivationObservation::ExecOrKilledPreExec
    );
    assert_eq!(ran.identity(), never_ran.identity());
}

#[test]
fn the_ambiguous_activation_answer_is_distinct_from_both_certain_ones() {
    assert_ne!(
        ActivationObservation::ExecOrKilledPreExec,
        ActivationObservation::Observed
    );
    assert_ne!(
        ActivationObservation::ExecOrKilledPreExec,
        ActivationObservation::NotActivated
    );
}

#[test]
fn a_wait_reports_the_death_it_observed() {
    assert_eq!(
        reap(7, WaitReport::Exited(3)),
        Some(Ok(ExitOutcome::Exited { code: 3 }))
    );
    assert_eq!(
        reap(7, WaitReport::Signaled(9)),
        Some(Ok(ExitOutcome::Signaled { signal: 9 }))
    );
    assert_eq!(reap(7, WaitReport::Alive), None);
    assert_eq!(reap(7, WaitReport::Failed(libc::EINTR)), None);
    let lost = ReapError {
        pid: 7,
        errno: libc::ECHILD,
    };
    assert_eq!(reap(7, WaitReport::Failed(libc::ECHILD)), Some(Err(lost)));
    assert!(lost.to_text().contains('7'), "{}", lost.to_text());
}

#[test]
fn a_signal_is_never_aimed_at_our_own_group() {
    for target in [0, 1, -1, i32::MIN] {
        assert_eq!(kill_group(target), Err(libc::EINVAL));
    }
    assert_eq!(kill_group(2), Ok(2));
    for target in [0, -1, i32::MIN] {
        assert_eq!(kill_pid(target), Err(libc::EINVAL));
    }
    assert_eq!(kill_pid(42), Ok(42));
    assert_eq!(kill_verdict(Ok(())), Ok(()));
    assert_eq!(kill_verdict(Err(libc::ESRCH)), Ok(()));
    assert_eq!(kill_verdict(Err(libc::EPERM)), Err(libc::EPERM));
}

#[test]
fn names_of_stages_and_observations_are_stable() {
    assert_eq!(PreExecStage::SandboxApply.as_str(), "sandbox_apply");
    assert_eq!(PreExecStage::Exec.as_str(), "exec");
    assert_eq!(SupervisorStage::StatusRead.as_str(), "status_read");
    assert_eq!(
        ActivationObservation::ExecOrKilledPreExec.as_str(),
        "exec_or_killed_pre_exec"
    );
    assert_eq!(PRE_EXEC_EXIT_CODE, 1);
    assert_eq!(STATUS_RECORD_LEN, 5);
}
