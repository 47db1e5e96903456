//! What holds of what a run tells others: its events, the places of its cgroup, the
//! errors it answers with and what they say.

use vstd::prelude::*;
use vstd::std_specs::convert::FromSpec;
use vstd::utf8::encode_utf8;
use crate::error;
use crate::error::{LifecycleError, NonoError};
use crate::path;
use crate::path::PathBytes;
use crate::text;
use crate::time::Timestamp;
use super::cgroup;
use super::cleanup::CleanupError;
use super::events;
use super::events::{EmitterView, LifecycleEvent, LifecycleEventKind, Observation};
use super::detached;
use super::detached::DetachedError;
use super::exit::{PreExecStage, ReapError, SupervisorStage};
use super::frame::FrameError;
use super::gate::{ActivationError, StopError};
use super::identity;
use super::image;
use super::plan;
use super::plan::{Fault, PlanError};
use super::policy;
use super::policy::ProxyOnlyPolicy;
use super::prepare_error::PrepareError;
use super::probe::ProbeScope;
use super::protocol;
use super::protocol::{ControlRefusal, ControlReply};
use super::session;
use super::session::SessionId;
use super::state::{LifecycleOp, LifecycleState, TransitionError};

verus! {

/// An event carries its own fact and label, the emitter's session, generation,
/// child and next number, and the instant it was observed at.
pub proof fn law_an_event_carries_its_run(
    emitter: EmitterView,
    what: LifecycleEventKind,
    observation: Observation,
    now: Timestamp,
)
    ensures
        ({
            let event = events::stamped(emitter, what, observation, now);
            &&& event.what == what && event.observation == observation && event.observed_at == now
            &&& event.session_id == Some(emitter.session_id)
            &&& event.generation == emitter.generation
            &&& event.identity == emitter.identity
            &&& event.seq == emitter.seq
        }),
{
}

/// A fact costs one number where somebody listens and none where nobody does, and
/// changes nothing else of the emitter.
pub proof fn law_a_fact_costs_one_number(emitter: EmitterView)
    ensures
        events::advanced(emitter) == (EmitterView {
            seq: events::advanced(emitter).seq,
            ..emitter
        }),
        emitter.sink is None ==> events::advanced(emitter).seq == emitter.seq,
        emitter.sink is Some && emitter.seq < u64::MAX ==> events::advanced(emitter).seq
            == emitter.seq + 1,
        emitter.sink is Some && emitter.seq == u64::MAX ==> events::advanced(emitter).seq == 0,
{
}

/// A ring that is given an event ends with it, keeps those before it in order,
/// and lets go of the oldest only where it is full.
pub proof fn law_a_ring_lets_go_of_the_oldest(kept: Seq<LifecycleEvent>, event: LifecycleEvent)
    ensures
        events::ring_with(kept, event).last() == event,
        kept.len() < 32 ==> events::ring_with(kept, event).drop_last() == kept,
        kept.len() >= 32 ==> events::ring_with(kept, event).drop_last() == kept.skip(1),
{
    if kept.len() < 32 {
        assert(events::ring_with(kept, event).drop_last() =~= kept);
    } else {
        assert(events::ring_with(kept, event).drop_last() =~= kept.skip(1));
    }
}

/// A cgroup's name is one component below its parent: not empty, with no slash in
/// it, and neither the parent itself nor what is above it.
pub proof fn law_a_component_is_below_its_parent(name: Seq<char>)
    ensures
        cgroup::is_component(name) <==> {
            &&& name.len() > 0
            &&& forall|i: int| 0 <= i < name.len() ==> name[i] != '/'
            &&& !(name.len() == 1 && name[0] == '.')
            &&& !(name.len() == 2 && name[0] == '.' && name[1] == '.')
        },
{
    if name.len() == 1 && name[0] == '.' {
        assert(name =~= seq!['.']);
    }
    if name.len() == 2 && name[0] == '.' && name[1] == '.' {
        assert(name =~= seq!['.', '.']);
    }
    if name.contains('/') {
        let i = choose|i: int| 0 <= i < name.len() && name[i] == '/';
        assert(name[i] == '/');
    }
}

/// An entry of a directory is the directory's path, one slash, and the entry's
/// name.
pub proof fn law_an_entry_is_one_slash_below(dir: Seq<u8>, name: Seq<char>)
    requires
        dir.len() > 0,
    ensures
        dir.last() == 47u8 ==> cgroup::joined(dir, name) == dir + encode_utf8(name),
        dir.last() != 47u8 ==> cgroup::joined(dir, name) == dir.push(47u8) + encode_utf8(name),
{
    assert(dir + seq![47u8] =~= dir.push(47u8));
}

/// A session's cgroup is named by the session: a fixed word and the thirty-two
/// digits of its identifier.
pub proof fn law_a_cgroup_is_named_by_its_session(id: SessionId)
    ensures
        cgroup::name_for(id).len() == 37,
        cgroup::name_for(id).take(5) == seq!['n', 'o', 'n', 'o', '-'],
        cgroup::name_for(id).skip(5) == session::simple_text(id.0),
{
    reveal_strlit("nono-");
    assert(cgroup::name_for(id).take(5) =~= seq!['n', 'o', 'n', 'o', '-']);
    assert(cgroup::name_for(id).skip(5) =~= session::simple_text(id.0));
}

/// An error keeps what it is when it becomes one of the library's errors.
pub proof fn law_an_error_keeps_its_kind(
    plan: PlanError,
    transition: TransitionError,
    prepare: PrepareError,
    activation: ActivationError,
    stop: StopError,
    reap: ReapError,
    cleanup: CleanupError,
)
    ensures
        <LifecycleError as FromSpec<PlanError>>::from_spec(plan) == LifecycleError::Plan(plan),
        <LifecycleError as FromSpec<TransitionError>>::from_spec(transition)
            == LifecycleError::Transition(transition),
        <LifecycleError as FromSpec<PrepareError>>::from_spec(prepare) == LifecycleError::Prepare(
            prepare,
        ),
        <LifecycleError as FromSpec<ActivationError>>::from_spec(activation)
            == LifecycleError::Activation(activation),
        <LifecycleError as FromSpec<StopError>>::from_spec(stop) == LifecycleError::Stop(stop),
        <LifecycleError as FromSpec<ReapError>>::from_spec(reap) == LifecycleError::Reap(reap),
        <LifecycleError as FromSpec<CleanupError>>::from_spec(cleanup) == LifecycleError::Cleanup(
            cleanup,
        ),
        <NonoError as FromSpec<PlanError>>::from_spec(plan) == NonoError::Lifecycle(
            LifecycleError::Plan(plan),
        ),
        <NonoError as FromSpec<TransitionError>>::from_spec(transition) == NonoError::Lifecycle(
            LifecycleError::Transition(transition),
        ),
        <NonoError as FromSpec<PrepareError>>::from_spec(prepare) == NonoError::Lifecycle(
            LifecycleError::Prepare(prepare),
        ),
        <NonoError as FromSpec<ActivationError>>::from_spec(activation) == NonoError::Lifecycle(
            LifecycleError::Activation(activation),
        ),
        <NonoError as FromSpec<StopError>>::from_spec(stop) == NonoError::Lifecycle(
            LifecycleError::Stop(stop),
        ),
        <NonoError as FromSpec<ReapError>>::from_spec(reap) == NonoError::Lifecycle(
            LifecycleError::Reap(reap),
        ),
        <NonoError as FromSpec<CleanupError>>::from_spec(cleanup) == NonoError::Lifecycle(
            LifecycleError::Cleanup(cleanup),
        ),
{
}

/// A diagnosis names the configuration for what the caller got wrong, the sandbox
/// for a confinement that could not be prepared or applied, and neither for a run
/// that went its way.
pub proof fn law_a_diagnosis_names_what_is_at_fault(err: LifecycleError)
    ensures
        ({
            let code = error::code_of(NonoError::Lifecycle(err));
            let confinement = err is Prepare && (err->Prepare_0 is SandboxSpec || (
            err->Prepare_0 matches PrepareError::ChildFailed { exit } && exit.how()
                is SandboxApplicationFailure));
            &&& code is SandboxDeniedPath <==> confinement
            &&& code is ConfigurationError <==> err is Plan || (err is Prepare && !confinement
                && !(err->Prepare_0 is Transition))
            &&& code is Other <==> !(err is Plan) && (err is Prepare ==> err->Prepare_0
                is Transition)
        }),
{
}

/// A refusal of a handle or of a hello says what came first and then what was
/// expected.
pub proof fn law_a_mismatch_says_what_came_and_what_was_expected(
    expected: u64,
    supplied: u64,
    ours: SessionId,
    theirs: SessionId,
    version: u32,
    spoken: u32,
)
    ensures
        (ActivationError::WrongSession { expected: ours, supplied: theirs }).text()
            == "activation handle is for session "@ + session::hyphenated_text(theirs.0) + ", not "@
            + session::hyphenated_text(ours.0),
        (ActivationError::WrongGeneration { expected, supplied }).text()
            == "activation handle is for generation "@ + text::decimal(supplied as nat) + ", not "@
            + text::decimal(expected as nat),
        (ControlRefusal::WrongSession { expected: ours, supplied: theirs }).text()
            == "control connection is for session "@ + session::hyphenated_text(theirs.0)
            + ", not "@ + session::hyphenated_text(ours.0),
        (ControlRefusal::WrongGeneration { expected, supplied }).text()
            == "control connection is for generation "@ + text::decimal(supplied as nat) + ", not "@
            + text::decimal(expected as nat),
        (ControlRefusal::ProtocolVersion { expected: version, supplied: spoken }).text()
            == "control protocol version "@ + text::decimal(spoken as nat) + " is not "@
            + text::decimal(version as nat),
{
}

/// What is too large says its size and then the bound.
pub proof fn law_what_is_too_large_says_its_size_and_the_bound(
    size: u64,
    limit: usize,
    supplied: int,
    max: int,
)
    ensures
        (FrameError::TooLarge { size, limit }).text() == "control frame announced "@
            + text::decimal(size as nat) + " bytes (max "@ + text::decimal(limit as nat) + ")"@,
        Fault::MetadataTooLarge(supplied, max).text() == "plan metadata is "@ + text::decimal(
            supplied as nat,
        ) + " bytes (max: "@ + text::decimal(max as nat) + " bytes)"@,
{
}

/// What failed says what it was aimed at and then the number it failed with.
pub proof fn law_a_failure_says_its_target_and_its_number(target: i32, errno: i32)
    ensures
        (ReapError { pid: target, errno }).text() == "waitpid failed for pid "@
            + text::signed_decimal(target as int) + ": errno "@ + text::signed_decimal(errno as int),
        (StopError::SignalFailed { target, errno }).text()
            == "stop signal could not be delivered to "@ + text::signed_decimal(target as int)
            + ": errno "@ + text::signed_decimal(errno as int),
        (StopError::Reap(ReapError { pid: target, errno })).text() == (ReapError {
            pid: target,
            errno,
        }).text(),
{
}

/// A fault of a plan says where it is: the place of an argument or a key, and the
/// key of a value, never the value.
pub proof fn law_a_fault_says_where_it_is(index: int, key: Seq<char>)
    ensures
        Fault::ArgNul(index).text() == "plan argument at index "@ + text::decimal(index as nat)
            + " contains an interior NUL byte"@,
        Fault::EmptyEnvKey(index).text() == "plan environment key at index "@ + text::decimal(
            index as nat,
        ) + " is empty"@,
        Fault::EnvKeyNul(index).text() == "plan environment key at index "@ + text::decimal(
            index as nat,
        ) + " contains an interior NUL byte"@,
        Fault::EnvKeyEquals(index).text() == "plan environment key at index "@ + text::decimal(
            index as nat,
        ) + " contains '='"@,
        Fault::EnvValueNul(key).text() == "plan environment value for '"@ + key
            + "' contains an interior NUL byte"@,
        Fault::DuplicateEnvKey(key).text() == "plan environment sets '"@ + key
            + "' more than once"@,
{
}

/// An op that is not legal says which op it was and in which state.
pub proof fn law_an_illegal_op_says_where(from: LifecycleState, op: LifecycleOp)
    ensures
        (TransitionError { from, op }).text() == op.name() + " is not legal in state "@
            + from.name(),
        (StopError::NotStoppable { state: from }).text() == "stop is not legal in state "@
            + from.name(),
        (ActivationError::GateUnavailable { state: from }).text()
            == "the activation gate is not open in state "@ + from.name(),
{
}

/// The error of a part of the library says what the part says.
pub proof fn law_an_error_speaks_for_its_part(
    transition: TransitionError,
    prepare: PrepareError,
    activation: ActivationError,
    stop: StopError,
    reap: ReapError,
)
    ensures
        LifecycleError::Transition(transition).text() == transition.text(),
        LifecycleError::Prepare(prepare).text() == prepare.text(),
        LifecycleError::Activation(activation).text() == activation.text(),
        LifecycleError::Stop(stop).text() == stop.text(),
        LifecycleError::Reap(reap).text() == reap.text(),
        ControlRefusal::Activation(activation).text() == activation.text(),
        ControlRefusal::Stop(stop).text() == stop.text(),
{
}

/// What a preparation could not use is named, with the number that was met.
pub proof fn law_a_preparation_names_what_it_could_not_use(
    program: PathBytes,
    named: String,
    feature: &'static str,
    stage: &'static str,
    errno: i32,
    needed: usize,
    limit: usize,
)
    ensures
        (PrepareError::ProgramNotAbsolute { program: named }).text()
            == "plan program must be an absolute path: "@ + named@,
        (PrepareError::ProgramUnusable { program, errno }).text() == "plan program "@
            + path::lossy_utf8(program@) + " is unusable: errno "@ + text::signed_decimal(
            errno as int,
        ),
        (PrepareError::ProgramNotAFile { program }).text() == "plan program "@ + path::lossy_utf8(
            program@,
        ) + " is not a regular file"@,
        (PrepareError::UnsupportedPlanFeature { feature }).text()
            == "plan feature not supported by this lifecycle: "@ + feature@,
        (PrepareError::Terminal { stage, errno }).text()
            == "pseudo-terminal setup failed at stage "@ + stage@ + ": errno "@
            + text::signed_decimal(errno as int),
        (PrepareError::SupervisorHandshake { stage, errno }).text()
            == "the supervisor handshake failed at stage "@ + stage@ + ": errno "@
            + text::signed_decimal(errno as int),
        (PrepareError::ControlSocket { path: program, errno }).text() == "control socket "@
            + path::lossy_utf8(program@) + " could not be created: errno "@ + text::signed_decimal(
            errno as int,
        ),
        (PrepareError::ControlSocketPathTooLong { path: program, needed, limit }).text()
            == "control socket path for the store "@ + path::lossy_utf8(program@) + " needs "@
            + text::decimal(needed as nat) + " bytes (limit "@ + text::decimal(limit as nat) + ")"@,
        (PrepareError::SandboxSpec { reason: named }).text()
            == "sandbox policy could not be prepared: "@ + named@,
        (PrepareError::ChannelSetup { errno }).text() == "lifecycle channel setup failed: errno "@
            + text::signed_decimal(errno as int),
        (PrepareError::Fork { errno }).text() == "fork failed: errno "@ + text::signed_decimal(
            errno as int,
        ),
{
}

/// A refused activation says which check refused it, and a failed one where it
/// failed.
pub proof fn law_an_activation_says_what_stopped_it(
    stage: PreExecStage,
    step: SupervisorStage,
    errno: i32,
)
    ensures
        ActivationError::ActivationExpired.text() == "activation expired before it was used"@,
        ActivationError::InvalidActivationToken.text() == "activation token does not match"@,
        ActivationError::AlreadyActivated.text() == "this sandbox has already been activated"@,
        ActivationError::AlreadyStopped.text() == "this sandbox was stopped before activation"@,
        (ActivationError::PreExecFailed { stage, errno }).text()
            == "child failed before exec at stage "@ + stage.name() + ": errno "@
            + text::signed_decimal(errno as int),
        (ActivationError::SupervisorFailed { stage: step, errno }).text()
            == "supervisor failed at stage "@ + step.name() + ": errno "@ + text::signed_decimal(
            errno as int,
        ),
{
}

/// A conversation that went wrong says with whom and how: what was answered comes
/// before what was expected.
pub proof fn law_a_conversation_says_how_it_went_wrong(
    id: SessionId,
    socket: PathBytes,
    expected: &'static str,
    received: String,
    frame: FrameError,
    refusal: ControlRefusal,
    errno: i32,
)
    ensures
        (DetachedError::NoSupervisor { session_id: id }).text() == "session "@
            + session::hyphenated_text(id.0) + " has no live supervisor to attach to"@,
        (DetachedError::Connect { path: socket, errno }).text() == "control socket "@
            + path::lossy_utf8(socket@) + " could not be connected to: errno "@
            + text::signed_decimal(errno as int),
        (DetachedError::UnexpectedReply { expected, received }).text()
            == "the supervisor answered "@ + received@ + " where "@ + expected@
            + " was expected"@,
        DetachedError::Frame(frame).text() == frame.text(),
        DetachedError::Refused(refusal).text() == refusal.text(),
{
}

/// A probe that came too late says the scope it would have and where the run is.
pub proof fn law_a_late_probe_says_its_scope_and_the_state(
    state: LifecycleState,
    required_scope: ProbeScope,
)
    ensures
        (ControlRefusal::ProbeAfterActivation { state, required_scope }).text()
            == "a probe after activation would be scope "@ + required_scope.name()
            + ", which this build does not produce; run is "@ + state.name(),
        (ControlRefusal::Cleanup { state }).text() == "cleanup verification is not legal in state "@
            + state.name(),
{
}

/// A reply that was not expected is named as what it is, beside what was expected.
pub proof fn law_an_unexpected_reply_is_named(
    expected: &'static str,
    received: String,
    wanted: Seq<char>,
    reply: ControlReply,
)
    ensures
        detached::is_unexpected(
            DetachedError::UnexpectedReply { expected, received },
            wanted,
            reply,
        ) <==> expected@ == wanted && received@ == protocol::reply_label(reply),
        forall|error: DetachedError| #[trigger]
            detached::is_unexpected(error, wanted, reply) ==> error is UnexpectedReply,
{
}

/// Contracts speak of a value by what it holds, one for one: the text of each
/// string, the bytes of each path and row, the ports of each rule.
pub proof fn law_contracts_speak_of_what_values_hold(
    strings: Seq<String>,
    rows: Seq<Vec<u8>>,
    env: Seq<(String, String)>,
    path: PathBytes,
    id: String,
    rule: ProxyOnlyPolicy,
    i: int,
)
    ensures
        text::texts(strings).len() == strings.len(),
        0 <= i < strings.len() ==> text::texts(strings)[i] == strings[i]@,
        image::rows(rows).len() == rows.len(),
        0 <= i < rows.len() ==> image::rows(rows)[i] == rows[i]@,
        plan::entries(env).len() == env.len(),
        0 <= i < env.len() ==> plan::entries(env)[i].0 == env[i].0@ && plan::entries(env)[i].1
            == env[i].1@,
        plan::path_of(Some(path)) == Some(path@),
        plan::path_of(None) is None,
        identity::text_of(Some(id)) == Some(id@),
        identity::text_of(None) is None,
        policy::rule_of(None) is None,
        policy::rule_of(Some(rule)) matches Some(seen) && seen.proxy_port == rule.proxy_port
            && seen.bind_ports == rule.bind_ports@ && seen.bind_port_ranges
            == rule.bind_port_ranges@,
{
}

/// Lists, missing values and truths are shown as they are written in code.
pub proof fn law_values_are_shown_as_written(pieces: Seq<Seq<char>>, piece: Seq<char>, value: bool)
    ensures
        text::listed(Seq::empty()) == "["@ + Seq::<char>::empty() + "]"@,
        text::listed(seq![piece]) == "["@ + piece + "]"@,
        pieces.len() > 0 ==> text::listed(pieces.push(piece)) == "["@ + (text::joined(pieces)
            + ", "@ + piece) + "]"@,
        text::optional(None) == "None"@,
        text::optional(Some(piece)) == "Some("@ + piece + ")"@,
        text::word(value) == (if value {
            "true"@
        } else {
            "false"@
        }),
{
    assert(pieces.push(piece).drop_last() =~= pieces);
}

} // verus!
