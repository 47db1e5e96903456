//! The names that the lifecycle is known by, in records, traces and refusals. Each
//! name stands for one thing, and each thing goes by one name.

use vstd::prelude::*;
use crate::capability_modes::FsMode;
use super::cleanup::CleanupVerification;
use super::exit::{ActivationObservation, PreExecStage, SupervisorStage};
use super::probe::{EnforcementMechanism, ProbeIndeterminate, ProbeScope, TransportProtocol};
use super::probe_text;
use super::protocol;
use super::protocol::{ControlReply, ControlRequest};
use super::state::{LifecycleOp, LifecycleState};

verus! {

/// A state is known by its name, and by no other.
pub proof fn law_a_state_is_known_by_its_name(state: LifecycleState)
    ensures
        state.name() == "planning"@ <==> state is Planning,
        state.name() == "preparing"@ <==> state is Preparing,
        state.name() == "prepared"@ <==> state is Prepared,
        state.name() == "activating"@ <==> state is Activating,
        state.name() == "running"@ <==> state is Running,
        state.name() == "exited"@ <==> state is Exited,
        state.name() == "stopping"@ <==> state is Stopping,
        state.name() == "stopped"@ <==> state is Stopped,
        state.name() == "failed"@ <==> state is Failed,
        state.name() == "cleanup_verified"@ <==> state is CleanupVerified,
{
    reveal_strlit("planning");
    assert("planning"@.len() == 8);
    reveal_strlit("preparing");
    assert("preparing"@.len() == 9);
    reveal_strlit("prepared");
    assert("prepared"@.len() == 8);
    reveal_strlit("activating");
    assert("activating"@.len() == 10);
    reveal_strlit("running");
    assert("running"@.len() == 7);
    reveal_strlit("exited");
    assert("exited"@.len() == 6);
    reveal_strlit("stopping");
    assert("stopping"@.len() == 8);
    reveal_strlit("stopped");
    assert("stopped"@.len() == 7);
    reveal_strlit("failed");
    assert("failed"@.len() == 6);
    reveal_strlit("cleanup_verified");
    assert("cleanup_verified"@.len() == 16);
    assert("planning"@[1] != "prepared"@[1]);
    assert("planning"@[0] != "stopping"@[0]);
    assert("prepared"@[0] != "stopping"@[0]);
    assert("running"@[0] != "stopped"@[0]);
    assert("exited"@[0] != "failed"@[0]);
}

/// An op is known by its name, and by no other.
pub proof fn law_an_op_is_known_by_its_name(op: LifecycleOp)
    ensures
        op.name() == "begin_prepare"@ <==> op is BeginPrepare,
        op.name() == "prepare_succeeded"@ <==> op is PrepareSucceeded,
        op.name() == "prepare_failed"@ <==> op is PrepareFailed,
        op.name() == "begin_activate"@ <==> op is BeginActivate,
        op.name() == "exec_observed"@ <==> op is ExecObserved,
        op.name() == "activate_failed"@ <==> op is ActivateFailed,
        op.name() == "child_exited"@ <==> op is ChildExited,
        op.name() == "begin_stop"@ <==> op is BeginStop,
        op.name() == "stop_observed"@ <==> op is StopObserved,
        op.name() == "cleanup_confirmed"@ <==> op is CleanupConfirmed,
{
    reveal_strlit("begin_prepare");
    assert("begin_prepare"@.len() == 13);
    reveal_strlit("prepare_succeeded");
    assert("prepare_succeeded"@.len() == 17);
    reveal_strlit("prepare_failed");
    assert("prepare_failed"@.len() == 14);
    reveal_strlit("begin_activate");
    assert("begin_activate"@.len() == 14);
    reveal_strlit("exec_observed");
    assert("exec_observed"@.len() == 13);
    reveal_strlit("activate_failed");
    assert("activate_failed"@.len() == 15);
    reveal_strlit("child_exited");
    assert("child_exited"@.len() == 12);
    reveal_strlit("begin_stop");
    assert("begin_stop"@.len() == 10);
    reveal_strlit("stop_observed");
    assert("stop_observed"@.len() == 13);
    reveal_strlit("cleanup_confirmed");
    assert("cleanup_confirmed"@.len() == 17);
    assert("begin_prepare"@[0] != "exec_observed"@[0]);
    assert("begin_prepare"@[0] != "stop_observed"@[0]);
    assert("prepare_succeeded"@[0] != "cleanup_confirmed"@[0]);
    assert("prepare_failed"@[0] != "begin_activate"@[0]);
    assert("exec_observed"@[0] != "stop_observed"@[0]);
}

/// A stage of the child is known by its name, and by no other.
pub proof fn law_a_stage_is_known_by_its_name(stage: PreExecStage)
    ensures
        stage.name() == "process_group"@ <==> stage is ProcessGroup,
        stage.name() == "sandbox_apply"@ <==> stage is SandboxApply,
        stage.name() == "gate_wait"@ <==> stage is GateWait,
        stage.name() == "gate_closed"@ <==> stage is GateClosed,
        stage.name() == "gate_aborted"@ <==> stage is GateAborted,
        stage.name() == "gate_protocol"@ <==> stage is GateProtocol,
        stage.name() == "working_directory"@ <==> stage is WorkingDirectory,
        stage.name() == "exec"@ <==> stage is Exec,
        stage.name() == "network_filter"@ <==> stage is NetworkFilter,
        stage.name() == "controlling_terminal"@ <==> stage is ControllingTerminal,
        stage.name() == "workload_identity"@ <==> stage is WorkloadIdentity,
        stage.name() == "unknown"@ <==> stage is Unknown,
{
    reveal_strlit("process_group");
    assert("process_group"@.len() == 13);
    reveal_strlit("sandbox_apply");
    assert("sandbox_apply"@.len() == 13);
    reveal_strlit("gate_wait");
    assert("gate_wait"@.len() == 9);
    reveal_strlit("gate_closed");
    assert("gate_closed"@.len() == 11);
    reveal_strlit("gate_aborted");
    assert("gate_aborted"@.len() == 12);
    reveal_strlit("gate_protocol");
    assert("gate_protocol"@.len() == 13);
    reveal_strlit("working_directory");
    assert("working_directory"@.len() == 17);
    reveal_strlit("exec");
    assert("exec"@.len() == 4);
    reveal_strlit("network_filter");
    assert("network_filter"@.len() == 14);
    reveal_strlit("controlling_terminal");
    assert("controlling_terminal"@.len() == 20);
    reveal_strlit("workload_identity");
    assert("workload_identity"@.len() == 17);
    reveal_strlit("unknown");
    assert("unknown"@.len() == 7);
    assert("process_group"@[0] != "sandbox_apply"@[0]);
    assert("process_group"@[0] != "gate_protocol"@[0]);
    assert("sandbox_apply"@[0] != "gate_protocol"@[0]);
    assert("working_directory"@[4] != "workload_identity"@[4]);
}

/// A stage of the supervisor is known by its name, and by no other.
pub proof fn law_a_supervisor_stage_is_known_by_its_name(stage: SupervisorStage)
    ensures
        stage.name() == "release"@ <==> stage is Release,
        stage.name() == "status_read"@ <==> stage is StatusRead,
        stage.name() == "reap"@ <==> stage is Reap,
{
    reveal_strlit("release");
    assert("release"@.len() == 7);
    reveal_strlit("status_read");
    assert("status_read"@.len() == 11);
    reveal_strlit("reap");
    assert("reap"@.len() == 4);
}

/// What is known of an activation goes by its name, and by no other.
pub proof fn law_an_activation_is_known_by_its_name(activation: ActivationObservation)
    ensures
        activation.name() == "observed"@ <==> activation is Observed,
        activation.name() == "not_activated"@ <==> activation is NotActivated,
        activation.name() == "exec_or_killed_pre_exec"@ <==> activation is ExecOrKilledPreExec,
{
    reveal_strlit("observed");
    assert("observed"@.len() == 8);
    reveal_strlit("not_activated");
    assert("not_activated"@.len() == 13);
    reveal_strlit("exec_or_killed_pre_exec");
    assert("exec_or_killed_pre_exec"@.len() == 23);
}

/// A verdict is known by its name, and by no other.
pub proof fn law_a_verdict_is_known_by_its_name(verdict: CleanupVerification)
    ensures
        verdict.name() == "confirmed_absent"@ <==> verdict is ConfirmedAbsent,
        verdict.name() == "still_present"@ <==> verdict is StillPresent,
        verdict.name() == "indeterminate"@ <==> verdict is Indeterminate,
        verdict.name() == "unsupported"@ <==> verdict is Unsupported,
{
    reveal_strlit("confirmed_absent");
    assert("confirmed_absent"@.len() == 16);
    reveal_strlit("still_present");
    assert("still_present"@.len() == 13);
    reveal_strlit("indeterminate");
    assert("indeterminate"@.len() == 13);
    reveal_strlit("unsupported");
    assert("unsupported"@.len() == 11);
    assert("still_present"@[0] != "indeterminate"@[0]);
}

/// A transport is known by its name, and by no other.
pub proof fn law_a_transport_is_known_by_its_name(protocol: TransportProtocol)
    ensures
        protocol.name() == "tcp"@ <==> protocol is Tcp,
        protocol.name() == "udp"@ <==> protocol is Udp,
{
    reveal_strlit("tcp");
    assert("tcp"@.len() == 3);
    reveal_strlit("udp");
    assert("udp"@.len() == 3);
    assert("tcp"@[0] != "udp"@[0]);
}

/// A mechanism is known by its name, and by no other.
pub proof fn law_a_mechanism_is_known_by_its_name(mechanism: EnforcementMechanism)
    ensures
        mechanism.name() == "landlock"@ <==> mechanism is Landlock,
        mechanism.name() == "seccomp"@ <==> mechanism is Seccomp,
        mechanism.name() == "seccomp_user_notify"@ <==> mechanism is SeccompUserNotify,
        mechanism.name() == "seatbelt"@ <==> mechanism is Seatbelt,
{
    reveal_strlit("landlock");
    assert("landlock"@.len() == 8);
    reveal_strlit("seccomp");
    assert("seccomp"@.len() == 7);
    reveal_strlit("seccomp_user_notify");
    assert("seccomp_user_notify"@.len() == 19);
    reveal_strlit("seatbelt");
    assert("seatbelt"@.len() == 8);
    assert("landlock"@[0] != "seatbelt"@[0]);
}

/// Why a probe established nothing goes by its name, and by no other.
pub proof fn law_an_open_answer_is_known_by_its_name(reason: ProbeIndeterminate)
    ensures
        reason.name() == "mechanism_cannot_express"@ <==> reason is MechanismCannotExpress,
        reason.name() == "probe_could_not_run"@ <==> reason is ProbeCouldNotRun,
        reason.name() == "platform_has_no_in_scope_probe"@ <==> reason is PlatformHasNoInScopeProbe,
{
    reveal_strlit("mechanism_cannot_express");
    assert("mechanism_cannot_express"@.len() == 24);
    reveal_strlit("probe_could_not_run");
    assert("probe_could_not_run"@.len() == 19);
    reveal_strlit("platform_has_no_in_scope_probe");
    assert("platform_has_no_in_scope_probe"@.len() == 30);
}

/// A scope is known by its name, and by no other.
pub proof fn law_a_scope_is_known_by_its_name(scope: ProbeScope)
    ensures
        scope.name() == "installed_child"@ <==> scope is InstalledChild,
        scope.name() == "rederived_sibling"@ <==> scope is RederivedSibling,
{
    reveal_strlit("installed_child");
    assert("installed_child"@.len() == 15);
    reveal_strlit("rederived_sibling");
    assert("rederived_sibling"@.len() == 17);
}

/// A request is known by the name of its operation, and by no other.
pub proof fn law_a_request_is_known_by_its_name(request: ControlRequest)
    ensures
        request.name() == "hello"@ <==> request is Hello,
        request.name() == "activate"@ <==> request is Activate,
        request.name() == "wait"@ <==> request is Wait,
        request.name() == "stop"@ <==> request is Stop,
        request.name() == "status"@ <==> request is Status,
        request.name() == "verify_cleanup"@ <==> request is VerifyCleanup,
        request.name() == "probe_enforcement"@ <==> request is ProbeEnforcement,
        request.name() == "attach"@ <==> request is Attach,
        request.name() == "goodbye"@ <==> request is Goodbye,
{
    reveal_strlit("hello");
    assert("hello"@.len() == 5);
    reveal_strlit("activate");
    assert("activate"@.len() == 8);
    reveal_strlit("wait");
    assert("wait"@.len() == 4);
    reveal_strlit("stop");
    assert("stop"@.len() == 4);
    reveal_strlit("status");
    assert("status"@.len() == 6);
    reveal_strlit("verify_cleanup");
    assert("verify_cleanup"@.len() == 14);
    reveal_strlit("probe_enforcement");
    assert("probe_enforcement"@.len() == 17);
    reveal_strlit("attach");
    assert("attach"@.len() == 6);
    reveal_strlit("goodbye");
    assert("goodbye"@.len() == 7);
    assert("wait"@[0] != "stop"@[0]);
    assert("status"@[0] != "attach"@[0]);
}

/// A reply is known by its name, and by no other.
pub proof fn law_a_reply_is_known_by_its_name(reply: ControlReply)
    ensures
        protocol::reply_label(reply) == "hello"@ <==> reply is Hello,
        protocol::reply_label(reply) == "activated"@ <==> reply is Activated,
        protocol::reply_label(reply) == "waited"@ <==> reply is Waited,
        protocol::reply_label(reply) == "stopped"@ <==> reply is Stopped,
        protocol::reply_label(reply) == "status"@ <==> reply is Status,
        protocol::reply_label(reply) == "cleanup"@ <==> reply is Cleanup,
        protocol::reply_label(reply) == "probe_observation"@ <==> reply is ProbeObservation,
        protocol::reply_label(reply) == "attach_ack"@ <==> reply is AttachAck,
        protocol::reply_label(reply) == "farewell"@ <==> reply is Farewell,
        protocol::reply_label(reply) == "refused"@ <==> reply is Refused,
{
    reveal_strlit("hello");
    assert("hello"@.len() == 5);
    reveal_strlit("activated");
    assert("activated"@.len() == 9);
    reveal_strlit("waited");
    assert("waited"@.len() == 6);
    reveal_strlit("stopped");
    assert("stopped"@.len() == 7);
    reveal_strlit("status");
    assert("status"@.len() == 6);
    reveal_strlit("cleanup");
    assert("cleanup"@.len() == 7);
    reveal_strlit("probe_observation");
    assert("probe_observation"@.len() == 17);
    reveal_strlit("attach_ack");
    assert("attach_ack"@.len() == 10);
    reveal_strlit("farewell");
    assert("farewell"@.len() == 8);
    reveal_strlit("refused");
    assert("refused"@.len() == 7);
    assert("waited"@[0] != "status"@[0]);
    assert("stopped"@[0] != "cleanup"@[0]);
    assert("stopped"@[0] != "refused"@[0]);
    assert("cleanup"@[0] != "refused"@[0]);
}

/// A mode is shown in a trace as one word, and as no other.
pub proof fn law_a_mode_is_shown_as_one_word(mode: FsMode)
    ensures
        probe_text::mode_word(mode) == "ReadContents"@ <==> mode is ReadContents,
        probe_text::mode_word(mode) == "ReadDir"@ <==> mode is ReadDir,
        probe_text::mode_word(mode) == "ReadMetadata"@ <==> mode is ReadMetadata,
        probe_text::mode_word(mode) == "Write"@ <==> mode is Write,
        probe_text::mode_word(mode) == "Append"@ <==> mode is Append,
        probe_text::mode_word(mode) == "Create"@ <==> mode is Create,
        probe_text::mode_word(mode) == "Truncate"@ <==> mode is Truncate,
        probe_text::mode_word(mode) == "RemoveFile"@ <==> mode is RemoveFile,
        probe_text::mode_word(mode) == "RemoveDir"@ <==> mode is RemoveDir,
        probe_text::mode_word(mode) == "Rename"@ <==> mode is Rename,
        probe_text::mode_word(mode) == "Execute"@ <==> mode is Execute,
        probe_text::mode_word(mode) == "UnixSocketConnect"@ <==> mode is UnixSocketConnect,
        probe_text::mode_word(mode) == "AtomicWrite"@ <==> mode is AtomicWrite,
{
    reveal_strlit("ReadContents");
    assert("ReadContents"@.len() == 12);
    reveal_strlit("ReadDir");
    assert("ReadDir"@.len() == 7);
    reveal_strlit("ReadMetadata");
    assert("ReadMetadata"@.len() == 12);
    reveal_strlit("Write");
    assert("Write"@.len() == 5);
    reveal_strlit("Append");
    assert("Append"@.len() == 6);
    reveal_strlit("Create");
    assert("Create"@.len() == 6);
    reveal_strlit("Truncate");
    assert("Truncate"@.len() == 8);
    reveal_strlit("RemoveFile");
    assert("RemoveFile"@.len() == 10);
    reveal_strlit("RemoveDir");
    assert("RemoveDir"@.len() == 9);
    reveal_strlit("Rename");
    assert("Rename"@.len() == 6);
    reveal_strlit("Execute");
    assert("Execute"@.len() == 7);
    reveal_strlit("UnixSocketConnect");
    assert("UnixSocketConnect"@.len() == 17);
    reveal_strlit("AtomicWrite");
    assert("AtomicWrite"@.len() == 11);
    assert("ReadContents"@[4] != "ReadMetadata"@[4]);
    assert("ReadDir"@[0] != "Execute"@[0]);
    assert("Append"@[0] != "Create"@[0]);
    assert("Append"@[0] != "Rename"@[0]);
    assert("Create"@[0] != "Rename"@[0]);
}

/// A transport is shown in a trace as one word, and as no other.
pub proof fn law_a_transport_is_shown_as_one_word(protocol: TransportProtocol)
    ensures
        probe_text::transport_word(protocol) == "Tcp"@ <==> protocol is Tcp,
        probe_text::transport_word(protocol) == "Udp"@ <==> protocol is Udp,
{
    reveal_strlit("Tcp");
    assert("Tcp"@.len() == 3);
    reveal_strlit("Udp");
    assert("Udp"@.len() == 3);
    assert("Tcp"@[0] != "Udp"@[0]);
}

} // verus!
