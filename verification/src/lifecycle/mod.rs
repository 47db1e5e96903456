//! The lifecycle of a sandboxed run: plan, prepared, activated, exit, and
//! cleanup verification.

pub mod activated;
pub mod cgroup;
pub mod child;
pub mod cleanup;
pub mod descriptors;
pub mod detached;
pub mod effect;
pub mod events;
pub mod exit;
pub mod frame;
pub mod gate;
pub mod gate_laws;
pub mod identity;
pub mod image;
pub mod laws;
pub mod name_laws;
pub mod outcome_laws;
pub mod plan;
pub mod policy;
pub mod prepare;
pub mod prepare_error;
pub mod probe;
pub mod probe_text;
pub mod protocol;
pub mod record;
pub mod report_laws;
pub mod run_laws;
pub mod session;
pub mod state;
pub mod sync_core;
pub mod wire_laws;

pub use activated::ActivatedSandbox;
pub use cleanup::{
    AbsenceBasis, CleanupError, CleanupVerification, IndeterminateReason, SurvivorEvidence,
    UnsupportedReason,
};
pub use crate::error::LifecycleError;
pub use detached::{DetachedError, DetachedSession, CONTROL_TIMEOUT, MAX_CONTROL_WAIT};
pub use events::{
    ActivationOutcome, EventSink, LifecycleEvent, LifecycleEventKind, Observation,
    DETACHED_EVENT_RING_CAPACITY,
};
pub use exit::{
    ActivationObservation, ExitOutcome, PreExecStage, ReapError, SandboxExit, SupervisorStage,
    PRE_EXEC_EXIT_CODE,
};
pub use frame::{FrameError, MAX_CONTROL_FRAME_BYTES, MAX_RECORD_BYTES};
pub use gate::{ActivationError, ActivationHandle, StopError, ACTIVATION_TOKEN_BYTES};
pub use identity::ProcessIdentity;
pub use plan::{
    GateConfig, PlanError, ResourceLimits, SandboxPlan, SessionMode, ValidatedPlan,
    MAX_PLAN_METADATA_BYTES,
};
pub use prepare::PreparedSandbox;
pub use prepare_error::PrepareError;
pub use probe::{
    EnforcementMechanism, ProbeError, ProbeId, ProbeIndeterminate, ProbeObservation, ProbeOp,
    ProbeOutcome, ProbeRequest, ProbeScope, TransportProtocol,
};
pub use protocol::{
    ControlRefusal, ControlReply, ControlRequest, SessionRecord, SessionStatus, WaitOutcome,
    CONTROL_PROTOCOL_VERSION,
};
pub use session::SessionId;
pub use state::{LifecycleOp, LifecycleState, Transition, TransitionError};
