//! The library's errors as one type, and what they mean to a person.

use vstd::prelude::*;
use vstd::std_specs::convert::FromSpecImpl;
use crate::lifecycle::cleanup::CleanupError;
use crate::lifecycle::exit::{ExitOutcome, ReapError};
use crate::lifecycle::gate::{ActivationError, StopError};
use crate::lifecycle::plan::PlanError;
use crate::lifecycle::prepare_error::PrepareError;
use crate::lifecycle::state::TransitionError;

verus! {

/// Everything the lifecycle can refuse to do, as one type.
#[derive(Debug, PartialEq, Eq)]
pub enum LifecycleError {
    /// A plan failed validation.
    Plan(PlanError),
    /// An op was applied in a state where it is not legal.
    Transition(TransitionError),
    /// A child could not be prepared, or died before reaching the activation gate.
    Prepare(PrepareError),
    /// An activation was refused.
    Activation(ActivationError),
    /// A stop was refused.
    Stop(StopError),
    /// A child's death was never observed.
    Reap(ReapError),
    /// Cleanup verification was attempted where it has no meaning.
    Cleanup(CleanupError),
}

/// Everything this library can fail with.
#[derive(Debug, PartialEq, Eq)]
pub enum NonoError {
    /// The lifecycle refused.
    Lifecycle(LifecycleError),
}

/// What kind of trouble an error is, for whoever has to act on it.
#[derive(Debug, Clone, Copy, PartialEq, Eq, Hash, Structural)]
pub enum NonoDiagnosticCode {
    /// The request itself is malformed.
    ConfigurationError,
    /// The confinement was not established.
    SandboxDeniedPath,
    /// Anything else.
    Other,
}

impl LifecycleError {
    /// The text of an error: that of the error inside.
    pub open spec fn text(self) -> Seq<char> {
        match self {
            LifecycleError::Plan(err) => err@.text(),
            LifecycleError::Transition(err) => err.text(),
            LifecycleError::Prepare(err) => err.text(),
            LifecycleError::Activation(err) => err.text(),
            LifecycleError::Stop(err) => err.text(),
            LifecycleError::Reap(err) => err.text(),
            LifecycleError::Cleanup(err) => "cleanup verification is not legal in state "@
                + err.state.name(),
        }
    }

    /// The error as a sentence: that of the error inside.
    pub fn to_text(&self) -> (text: String)
        ensures
            text@ == self.text(),
    {
        match self {
            LifecycleError::Plan(err) => err.to_text(),
            LifecycleError::Transition(err) => err.to_text(),
            LifecycleError::Prepare(err) => err.to_text(),
            LifecycleError::Activation(err) => err.to_text(),
            LifecycleError::Stop(err) => err.to_text(),
            LifecycleError::Reap(err) => err.to_text(),
            LifecycleError::Cleanup(err) => err.to_text(),
        }
    }
}

/// What kind of trouble a failed preparation is. A policy that could not be
/// built and one that could not be applied are the same failure at different
/// moments.
pub open spec fn prepare_code(err: PrepareError) -> NonoDiagnosticCode {
    match err {
        PrepareError::SandboxSpec { .. } => NonoDiagnosticCode::SandboxDeniedPath,
        PrepareError::ChildFailed { exit } => if exit.how() is SandboxApplicationFailure {
            NonoDiagnosticCode::SandboxDeniedPath
        } else {
            NonoDiagnosticCode::ConfigurationError
        },
        PrepareError::Transition(_) => NonoDiagnosticCode::Other,
        _ => NonoDiagnosticCode::ConfigurationError,
    }
}

/// What kind of trouble an error is.
pub open spec fn code_of(err: NonoError) -> NonoDiagnosticCode {
    match err {
        NonoError::Lifecycle(LifecycleError::Plan(_)) => NonoDiagnosticCode::ConfigurationError,
        NonoError::Lifecycle(LifecycleError::Prepare(err)) => prepare_code(err),
        _ => NonoDiagnosticCode::Other,
    }
}

impl NonoError {
    /// What kind of trouble this is.
    #[must_use]
    pub fn diagnostic_code(&self) -> (code: NonoDiagnosticCode)
        ensures
            code == code_of(*self),
    {
        match self {
            NonoError::Lifecycle(LifecycleError::Plan(_)) => NonoDiagnosticCode::ConfigurationError,
            NonoError::Lifecycle(LifecycleError::Prepare(err)) => match err {
                PrepareError::SandboxSpec { .. } => NonoDiagnosticCode::SandboxDeniedPath,
                PrepareError::ChildFailed { exit } => match exit.outcome() {
                    ExitOutcome::SandboxApplicationFailure { .. } =>
                        NonoDiagnosticCode::SandboxDeniedPath,
                    _ => NonoDiagnosticCode::ConfigurationError,
                },
                PrepareError::Transition(_) => NonoDiagnosticCode::Other,
                _ => NonoDiagnosticCode::ConfigurationError,
            },
            _ => NonoDiagnosticCode::Other,
        }
    }

    /// The error as a sentence.
    pub fn to_text(&self) -> (text: String)
        ensures
            text@ == self->Lifecycle_0.text(),
    {
        match self {
            NonoError::Lifecycle(err) => err.to_text(),
        }
    }
}

impl FromSpecImpl<PlanError> for LifecycleError {
    open spec fn obeys_from_spec() -> bool {
        true
    }

    open spec fn from_spec(err: PlanError) -> Self {
        LifecycleError::Plan(err)
    }
}

impl From<PlanError> for LifecycleError {
    fn from(err: PlanError) -> (wrapped: Self) {
        LifecycleError::Plan(err)
    }
}

impl FromSpecImpl<PlanError> for NonoError {
    open spec fn obeys_from_spec() -> bool {
        true
    }

    open spec fn from_spec(err: PlanError) -> Self {
        NonoError::Lifecycle(LifecycleError::Plan(err))
    }
}

impl From<PlanError> for NonoError {
    fn from(err: PlanError) -> (wrapped: Self) {
        NonoError::Lifecycle(LifecycleError::Plan(err))
    }
}

impl FromSpecImpl<TransitionError> for LifecycleError {
    open spec fn obeys_from_spec() -> bool {
        true
    }

    open spec fn from_spec(err: TransitionError) -> Self {
        LifecycleError::Transition(err)
    }
}

impl From<TransitionError> for LifecycleError {
    fn from(err: TransitionError) -> (wrapped: Self) {
        LifecycleError::Transition(err)
    }
}

impl FromSpecImpl<TransitionError> for NonoError {
    open spec fn obeys_from_spec() -> bool {
        true
    }

    open spec fn from_spec(err: TransitionError) -> Self {
        NonoError::Lifecycle(LifecycleError::Transition(err))
    }
}

impl From<TransitionError> for NonoError {
    fn from(err: TransitionError) -> (wrapped: Self) {
        NonoError::Lifecycle(LifecycleError::Transition(err))
    }
}

impl FromSpecImpl<PrepareError> for LifecycleError {
    open spec fn obeys_from_spec() -> bool {
        true
    }

    open spec fn from_spec(err: PrepareError) -> Self {
        LifecycleError::Prepare(err)
    }
}

impl From<PrepareError> for LifecycleError {
    fn from(err: PrepareError) -> (wrapped: Self) {
        LifecycleError::Prepare(err)
    }
}

impl FromSpecImpl<PrepareError> for NonoError {
    open spec fn obeys_from_spec() -> bool {
        true
    }

    open spec fn from_spec(err: PrepareError) -> Self {
        NonoError::Lifecycle(LifecycleError::Prepare(err))
    }
}

impl From<PrepareError> for NonoError {
    fn from(err: PrepareError) -> (wrapped: Self) {
        NonoError::Lifecycle(LifecycleError::Prepare(err))
    }
}

impl FromSpecImpl<ActivationError> for LifecycleError {
    open spec fn obeys_from_spec() -> bool {
        true
    }

    open spec fn from_spec(err: ActivationError) -> Self {
        LifecycleError::Activation(err)
    }
}

impl From<ActivationError> for LifecycleError {
    fn from(err: ActivationError) -> (wrapped: Self) {
        LifecycleError::Activation(err)
    }
}

impl FromSpecImpl<ActivationError> for NonoError {
    open spec fn obeys_from_spec() -> bool {
        true
    }

    open spec fn from_spec(err: ActivationError) -> Self {
        NonoError::Lifecycle(LifecycleError::Activation(err))
    }
}

impl From<ActivationError> for NonoError {
    fn from(err: ActivationError) -> (wrapped: Self) {
        NonoError::Lifecycle(LifecycleError::Activation(err))
    }
}

impl FromSpecImpl<StopError> for LifecycleError {
    open spec fn obeys_from_spec() -> bool {
        true
    }

    open spec fn from_spec(err: StopError) -> Self {
        LifecycleError::Stop(err)
    }
}

impl From<StopError> for LifecycleError {
    fn from(err: StopError) -> (wrapped: Self) {
        LifecycleError::Stop(err)
    }
}

impl FromSpecImpl<StopError> for NonoError {
    open spec fn obeys_from_spec() -> bool {
        true
    }

    open spec fn from_spec(err: StopError) -> Self {
        NonoError::Lifecycle(LifecycleError::Stop(err))
    }
}

impl From<StopError> for NonoError {
    fn from(err: StopError) -> (wrapped: Self) {
        NonoError::Lifecycle(LifecycleError::Stop(err))
    }
}

impl FromSpecImpl<ReapError> for LifecycleError {
    open spec fn obeys_from_spec() -> bool {
        true
    }

    open spec fn from_spec(err: ReapError) -> Self {
        LifecycleError::Reap(err)
    }
}

impl From<ReapError> for LifecycleError {
    fn from(err: ReapError) -> (wrapped: Self) {
        LifecycleError::Reap(err)
    }
}

impl FromSpecImpl<ReapError> for NonoError {
    open spec fn obeys_from_spec() -> bool {
        true
    }

    open spec fn from_spec(err: ReapError) -> Self {
        NonoError::Lifecycle(LifecycleError::Reap(err))
    }
}

impl From<ReapError> for NonoError {
    fn from(err: ReapError) -> (wrapped: Self) {
        NonoError::Lifecycle(LifecycleError::Reap(err))
    }
}

impl FromSpecImpl<CleanupError> for LifecycleError {
    open spec fn obeys_from_spec() -> bool {
        true
    }

    open spec fn from_spec(err: CleanupError) -> Self {
        LifecycleError::Cleanup(err)
    }
}

impl From<CleanupError> for LifecycleError {
    fn from(err: CleanupError) -> (wrapped: Self) {
        LifecycleError::Cleanup(err)
    }
}

impl FromSpecImpl<CleanupError> for NonoError {
    open spec fn obeys_from_spec() -> bool {
        true
    }

    open spec fn from_spec(err: CleanupError) -> Self {
        NonoError::Lifecycle(LifecycleError::Cleanup(err))
    }
}

impl From<CleanupError> for NonoError {
    fn from(err: CleanupError) -> (wrapped: Self) {
        NonoError::Lifecycle(LifecycleError::Cleanup(err))
    }
}

} // verus!
