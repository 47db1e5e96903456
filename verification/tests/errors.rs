use nono::error::{LifecycleError, NonoDiagnosticCode, NonoError};
use nono::lifecycle::{
    ActivationError, ActivationObservation, CleanupError, ExitOutcome, LifecycleOp, LifecycleState,
    PlanError, PreExecStage, PrepareError, ProcessIdentity, ReapError, SandboxExit, StopError,
    TransitionError,
};

#[test]
fn plan_errors_convert_to_nono_error_in_one_hop() {
    let err: NonoError = PlanError::EmptyProgram.into();
    assert!(matches!(
        err,
        NonoError::Lifecycle(LifecycleError::Plan(PlanError::EmptyProgram))
    ));
    assert_eq!(
        err.diagnostic_code(),
        NonoDiagnosticCode::ConfigurationError
    );
}

#[test]
fn transition_errors_convert_to_nono_error_in_one_hop() {
    let transition = TransitionError {
        from: LifecycleState::Planning,
        op: LifecycleOp::BeginActivate,
    };
    let err: NonoError = transition.into();
    assert!(matches!(
        err,
        NonoError::Lifecycle(LifecycleError::Transition(_))
    ));
    assert_eq!(err.diagnostic_code(), NonoDiagnosticCode::Other);
}

#[test]
fn a_child_that_could_not_sandbox_itself_reports_a_sandbox_failure_code() {
    let exit = SandboxExit::new(
        ExitOutcome::SandboxApplicationFailure {
            stage: PreExecStage::SandboxApply,
            errno: 1,
        },
        ActivationObservation::NotActivated,
        ProcessIdentity::capture(0, None, None),
    );
    let err: NonoError = PrepareError::ChildFailed { exit }.into();
    assert_eq!(err.diagnostic_code(), NonoDiagnosticCode::SandboxDeniedPath);

    let spec: NonoError = PrepareError::SandboxSpec {
        reason: "unsupported".to_string(),
    }
    .into();
    assert_eq!(
        spec.diagnostic_code(),
        NonoDiagnosticCode::SandboxDeniedPath,
        "the two must agree; they are the same failure at different moments"
    );
}

#[test]
fn a_child_that_died_after_the_sandbox_applied_is_not_a_sandbox_failure() {
    let exit = SandboxExit::new(
        ExitOutcome::PreExecFailure {
            stage: PreExecStage::Exec,
            errno: 2,
        },
        ActivationObservation::NotActivated,
        ProcessIdentity::capture(0, None, None),
    );
    let err: NonoError = PrepareError::ChildFailed { exit }.into();
    assert_eq!(
        err.diagnostic_code(),
        NonoDiagnosticCode::ConfigurationError
    );
}

#[test]
fn lifecycle_error_display_is_transparent() {
    let inner = PlanError::EmptyProgram;
    let wrapped = LifecycleError::from(inner.clone());
    assert_eq!(wrapped.to_text(), inner.to_text());
}

#[test]
fn every_error_wraps_as_itself() {
    let stop = StopError::NotStoppable {
        state: LifecycleState::Exited,
    };
    let reap = ReapError { pid: 1, errno: 2 };
    let cleanup = CleanupError {
        state: LifecycleState::Running,
    };
    let activation = ActivationError::AlreadyStopped;
    for (wrapped, text) in [
        (NonoError::from(stop), stop.to_text()),
        (NonoError::from(reap), reap.to_text()),
        (NonoError::from(cleanup), cleanup.to_text()),
        (NonoError::from(activation), activation.to_text()),
        (
            NonoError::from(PrepareError::TokenGeneration),
            PrepareError::TokenGeneration.to_text(),
        ),
    ] {
        assert_eq!(wrapped.to_text(), text);
    }
    assert_eq!(
        NonoError::from(stop).diagnostic_code(),
        NonoDiagnosticCode::Other
    );
    assert_eq!(
        LifecycleError::from(activation),
        LifecycleError::Activation(activation)
    );
}
