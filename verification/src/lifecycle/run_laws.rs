//! What holds of a run from its plan to its program: what is executed, which parts
//! of a policy it takes, and the steps of its child.

use vstd::prelude::*;
use vstd::utf8::encode_utf8;
use crate::capability::{CapabilityView, NetworkView};
use crate::capability_modes::landlock_map::LandlockRightsAvailable;
use crate::capability_modes::rules;
use super::child;
use super::child::{ChildFacts, ChildOutcome, ChildStep};
use super::descriptors;
use super::exit::PreExecStage;
use super::gate::{ActivationError, SecretsView};
use super::image;
use super::plan;
use super::plan::{Fault, PlanView, ResourceLimits};
use super::policy;
use super::policy::{Applying, PlatformSandbox, ProxyView, SandboxPart, StaticNetworkFilter};
use super::probe::Platform;
use super::state::LifecycleState;

verus! {

/// A program is executed as the plan names it: its own path first, then each
/// argument as it was written, and the environment that the plan names and no
/// other, each variable as its key, an equals sign and its value.
pub proof fn law_an_image_is_what_the_plan_names(program: Seq<u8>, plan: PlanView)
    ensures
        ({
            let made = image::image_of(program, plan);
            &&& made.program == program
            &&& made.working_dir == plan.working_dir
            &&& made.argv.len() == plan.args.len() + 1
            &&& made.argv[0] == program
            &&& forall|i: int|
                0 <= i < plan.args.len() ==> #[trigger] made.argv[i + 1] == encode_utf8(
                    plan.args[i],
                )
            &&& made.envp.len() == plan.env.len()
            &&& forall|i: int|
                0 <= i < plan.env.len() ==> #[trigger] made.envp[i] == encode_utf8(plan.env[i].0)
                    + seq![61u8] + encode_utf8(plan.env[i].1)
        }),
{
}

/// An image is refused exactly for a NUL in one of the strings that the kernel is
/// handed.
pub proof fn law_an_image_is_clean_without_nuls(whole: image::ImageView)
    ensures
        image::is_clean(whole) <==> {
            &&& !whole.program.contains(0u8)
            &&& whole.working_dir matches Some(dir) ==> !dir.contains(0u8)
            &&& forall|i: int|
                0 <= i < whole.argv.len() ==> !(#[trigger] whole.argv[i]).contains(0u8)
            &&& forall|i: int|
                0 <= i < whole.envp.len() ==> !(#[trigger] whole.envp[i]).contains(0u8)
        },
{
    assert forall|bytes: Seq<u8>| #[trigger] crate::path::holds_nul(bytes) <==> bytes.contains(
        0u8,
    ) by {
        if bytes.contains(0u8) {
            let i = choose|i: int| 0 <= i < bytes.len() && bytes[i] == 0u8;
            assert(bytes[i] == 0u8);
        }
    }
}

/// What a child's sequence does follows from its plan: it takes a terminal for an
/// interactive session, enters the directory that was named, and on Linux drops
/// to the identity that was named.
pub proof fn law_a_childs_facts_are_its_plans(plan: PlanView, platform: Platform)
    ensures
        child::facts_of(plan, platform).interactive <==> plan.session_mode is Interactive,
        child::facts_of(plan, platform).has_working_dir <==> plan.working_dir is Some,
        platform is Linux ==> child::facts_of(plan, platform).workload_uid == plan.workload_uid,
        !(platform is Linux) ==> child::facts_of(plan, platform).workload_uid is None,
{
}

/// A proxy rule carries the plan's own ports: the proxy's, those that may be
/// bound, and the local ranges. There is a rule exactly for a policy that names a
/// proxy.
pub proof fn law_a_proxy_rule_carries_the_plans_ports(caps: CapabilityView)
    ensures
        match caps.network {
            NetworkView::ProxyOnly { port, bind_ports } => policy::proxy_rule(caps) == Some(
                ProxyView {
                    proxy_port: port,
                    bind_ports: bind_ports,
                    bind_port_ranges: caps.localhost_port_ranges,
                },
            ),
            _ => policy::proxy_rule(caps) is None,
        },
{
}

/// The listener answers for binding exactly where its rule has a port to bind.
pub proof fn law_a_listener_answers_for_what_may_be_bound(caps: CapabilityView)
    ensures
        match policy::proxy_rule(caps) {
            Some(rule) => policy::parts_for(caps, Platform::Linux).proxy_notify == Some(
                rule.bind_ports.len() > 0,
            ),
            None => policy::parts_for(caps, Platform::Linux).proxy_notify is None,
        },
{
}

/// On Linux an open network is left open, a blocked one with no exception loses
/// every socket, and whatever names a port keeps TCP alone; elsewhere no filter is
/// needed.
pub proof fn law_a_filter_fits_its_policy(caps: CapabilityView)
    ensures
        ({
            let filter = policy::filter_for(caps);
            let excepts = caps.tcp_connect_ports.len() > 0 || caps.localhost_port_ranges.len() > 0;
            &&& filter is Open <==> caps.network is AllowAll && !excepts
            &&& filter is BlockAll <==> caps.network is Blocked && !excepts
            &&& filter is TcpOnly <==> caps.network is ProxyOnly || excepts
        }),
        policy::parts_for(caps, Platform::Linux).network_filter == policy::filter_for(caps),
        policy::parts_for(caps, Platform::MacOs) == (PlatformSandbox {
            network_filter: StaticNetworkFilter::Open,
            proxy_notify: None,
        }),
        policy::parts_for(caps, Platform::Other) == policy::parts_for(caps, Platform::MacOs),
{
}

/// A policy is put in force from its rules to its filter to its listener, each
/// where it has one; the listener that is handed on is the one that was made; and
/// the first part that fails names itself.
pub proof fn law_a_policy_is_put_in_force_in_order(parts: PlatformSandbox, fd: i32, errno: i32)
    ensures
        ({
            let last = match parts.proxy_notify {
                Some(_) => Applying::Next(SandboxPart::Listener),
                None => Applying::Done { listener: None },
            };
            let ok = Ok::<i32, i32>(fd);
            let failed = Err::<i32, i32>(errno);
            &&& policy::part_after(parts, SandboxPart::Ruleset, ok) == (match parts.network_filter {
                StaticNetworkFilter::Open => last,
                StaticNetworkFilter::BlockAll => Applying::Next(SandboxPart::BlockAll),
                StaticNetworkFilter::TcpOnly => Applying::Next(SandboxPart::TcpOnly),
            })
            &&& policy::part_after(parts, SandboxPart::BlockAll, ok) == last
            &&& policy::part_after(parts, SandboxPart::TcpOnly, ok) == last
            &&& policy::part_after(parts, SandboxPart::Listener, ok) == (Applying::Done {
                listener: Some(fd),
            })
            &&& policy::part_after(parts, SandboxPart::Ruleset, failed) == (Applying::Failed {
                stage: PreExecStage::SandboxApply,
                errno,
            })
            &&& forall|part: SandboxPart|
                !(part is Ruleset) ==> #[trigger] policy::part_after(parts, part, failed) == (
                Applying::Failed { stage: PreExecStage::NetworkFilter, errno })
        }),
{
}

/// A child whose every step succeeds goes on in one order: it closes the parent's
/// ends, leads its group or its session and terminal, confines itself, hands over
/// its listener, closes what else it holds but that, reports, and waits.
pub proof fn law_a_childs_steps_are_in_order(
    facts: ChildFacts,
    secrets: SecretsView,
    fd: i32,
    tag: u8,
    errno: i32,
)
    ensures
        child::after_step(facts, secrets, ChildStep::CloseParentEnds, ChildOutcome::Done) == (
        if facts.interactive {
            ChildStep::LeadSession
        } else {
            ChildStep::LeadGroup
        }),
        child::after_step(facts, secrets, ChildStep::LeadSession, ChildOutcome::Done)
            == ChildStep::AdoptTerminal,
        child::after_step(facts, secrets, ChildStep::AdoptTerminal, ChildOutcome::Done)
            == ChildStep::ApplySandbox,
        child::after_step(facts, secrets, ChildStep::LeadGroup, ChildOutcome::Done)
            == ChildStep::ApplySandbox,
        child::after_step(
            facts,
            secrets,
            ChildStep::ApplySandbox,
            ChildOutcome::Applied { listener: Some(fd) },
        ) == (ChildStep::ReportListener { fd }),
        child::after_step(
            facts,
            secrets,
            ChildStep::ApplySandbox,
            ChildOutcome::Applied { listener: None },
        ) == (ChildStep::SweepDescriptors { listener: -1i32 }),
        child::after_step(facts, secrets, ChildStep::ReportListener { fd }, ChildOutcome::Done) == (
        ChildStep::SweepDescriptors { listener: fd }),
        child::after_step(
            facts,
            secrets,
            ChildStep::SweepDescriptors { listener: fd },
            ChildOutcome::Done,
        ) == ChildStep::ReportReady,
        child::after_step(facts, secrets, ChildStep::ReportReady, ChildOutcome::Done)
            == ChildStep::ReadMessage,
        child::after_step(facts, secrets, ChildStep::ReadRequest, ChildOutcome::Done)
            == ChildStep::RunProbe,
        child::after_step(
            facts,
            secrets,
            ChildStep::RunProbe,
            ChildOutcome::Answer { tag, errno },
        ) == (ChildStep::ReportAnswer { tag, errno }),
        child::after_step(facts, secrets, ChildStep::ReportAnswer { tag, errno }, ChildOutcome::Done)
            == ChildStep::ReadMessage,
{
}

/// A message does what it alone is the secret of, and one that is no secret, or
/// more than one, ends the child. Only the release leads to the program.
pub proof fn law_a_message_does_what_it_says(
    facts: ChildFacts,
    secrets: SecretsView,
    message: [u8; super::gate::GATE_MESSAGE_BYTES],
    uid: u32,
)
    ensures
        ({
            let next = child::after_step(
                facts,
                secrets,
                ChildStep::ReadMessage,
                ChildOutcome::Message { bytes: message },
            );
            let release = message@ == secrets.release;
            let abort = message@ == secrets.abort;
            let probe = message@ == secrets.probe;
            if release && !abort && !probe {
                next == (if facts.has_working_dir {
                    ChildStep::EnterDirectory
                } else {
                    match facts.workload_uid {
                        Some(uid) => ChildStep::DropIdentity { uid },
                        None => ChildStep::Exec,
                    }
                })
            } else if abort && !release && !probe {
                next == (ChildStep::Fail { stage: PreExecStage::GateAborted, errno: 0 })
            } else if probe && !release && !abort {
                next == ChildStep::ReadRequest
            } else {
                next == (ChildStep::Fail { stage: PreExecStage::GateProtocol, errno: 0 })
            }
        }),
        child::after_step(facts, secrets, ChildStep::EnterDirectory, ChildOutcome::Done) == (
        match facts.workload_uid {
            Some(uid) => ChildStep::DropIdentity { uid },
            None => ChildStep::Exec,
        }),
        child::after_step(facts, secrets, ChildStep::DropIdentity { uid }, ChildOutcome::Done)
            == ChildStep::Exec,
{
}

/// A step that fails ends the child, with the stage it stands for and the number
/// it failed with. A supervisor that is gone ends it too.
pub proof fn law_a_failed_step_names_itself(
    facts: ChildFacts,
    secrets: SecretsView,
    step: ChildStep,
    stage: PreExecStage,
    errno: i32,
)
    ensures
        ({
            let next = child::after_step(facts, secrets, step, ChildOutcome::Failed { errno });
            match step {
                ChildStep::LeadGroup | ChildStep::LeadSession => next == (ChildStep::Fail {
                    stage: PreExecStage::ProcessGroup,
                    errno,
                }),
                ChildStep::AdoptTerminal => next == (ChildStep::Fail {
                    stage: PreExecStage::ControllingTerminal,
                    errno,
                }),
                ChildStep::ReadMessage | ChildStep::ReadRequest => next == (ChildStep::Fail {
                    stage: PreExecStage::GateWait,
                    errno,
                }),
                ChildStep::EnterDirectory => next == (ChildStep::Fail {
                    stage: PreExecStage::WorkingDirectory,
                    errno,
                }),
                ChildStep::DropIdentity { .. } => next == (ChildStep::Fail {
                    stage: PreExecStage::WorkloadIdentity,
                    errno,
                }),
                ChildStep::Exec => next == (ChildStep::Fail { stage: PreExecStage::Exec, errno }),
                ChildStep::ReportListener { .. }
                | ChildStep::ReportReady
                | ChildStep::ReportAnswer { .. } => next == ChildStep::Exit,
                _ => true,
            }
        }),
        child::after_step(
            facts,
            secrets,
            ChildStep::ApplySandbox,
            ChildOutcome::NotApplied { stage, errno },
        ) == (ChildStep::Fail { stage, errno }),
        step is ReadMessage || step is ReadRequest ==> child::after_step(
            facts,
            secrets,
            step,
            ChildOutcome::Closed,
        ) == (ChildStep::Fail { stage: PreExecStage::GateClosed, errno: 0 }),
{
}

/// A program that was given a directory runs in it: the child entered it before.
pub proof fn law_the_program_runs_in_its_directory(
    facts: ChildFacts,
    secrets: SecretsView,
    steps: Seq<ChildStep>,
    outcomes: Seq<ChildOutcome>,
    n: int,
)
    requires
        child::is_life(facts, secrets, steps, outcomes),
        0 <= n < steps.len(),
        steps[n] is Exec || steps[n] is DropIdentity,
        facts.has_working_dir,
    ensures
        exists|i: int|
            0 <= i < n && #[trigger] steps[i] is EnterDirectory && outcomes[i] is Done,
    decreases n,
{
    if n > 0 {
        assert(steps[(n - 1) + 1] == child::after_step(
            facts,
            secrets,
            steps[n - 1],
            outcomes[n - 1],
        ));
        if steps[n - 1] is DropIdentity {
            law_the_program_runs_in_its_directory(facts, secrets, steps, outcomes, n - 1);
            let i = choose|i: int|
                0 <= i < n - 1 && #[trigger] steps[i] is EnterDirectory && outcomes[i] is Done;
            assert(steps[i] is EnterDirectory);
        }
    }
}

/// A rooted path begins with a slash.
pub proof fn law_a_rooted_path_begins_at_the_root(path: Seq<u8>)
    ensures
        crate::path::is_rooted(path) <==> path.len() > 0 && path.first() == 47u8,
{
}

/// The first place before `n` with a fault is the one that is reported.
proof fn lemma_first_fault(at: spec_fn(int) -> Option<Fault>, n: nat)
    ensures
        match plan::first_fault(at, n) {
            Some(fault) => exists|i: int|
                0 <= i < n && #[trigger] at(i) == Some(fault) && forall|k: int|
                    0 <= k < i ==> (#[trigger] at(k)) is None,
            None => forall|k: int| 0 <= k < n ==> (#[trigger] at(k)) is None,
        },
    decreases n,
{
    if n > 0 {
        lemma_first_fault(at, (n - 1) as nat);
        if plan::first_fault(at, (n - 1) as nat) is None && at(n - 1) is Some {
            assert(at(n - 1) == plan::first_fault(at, n));
        }
        if plan::first_fault(at, (n - 1) as nat) is Some {
            let i = choose|i: int|
                0 <= i < n - 1 && #[trigger] at(i) == plan::first_fault(at, (n - 1) as nat)
                    && forall|k: int| 0 <= k < i ==> (#[trigger] at(k)) is None;
            assert(at(i) == plan::first_fault(at, n));
        }
    }
}

/// A plan is refused for what is wrong with it: the fault that is named is there,
/// with its own place, path, key or size, and the fields before it are in order.
pub proof fn law_a_fault_is_where_it_says(plan: PlanView)
    ensures
        match plan::fault(plan) {
            None => true,
            Some(Fault::EmptyProgram) => plan.program.len() == 0,
            Some(Fault::ProgramNul) => plan.program.len() > 0 && plan.program.contains('\0'),
            Some(Fault::ArgNul(index)) => {
                &&& 0 <= index < plan.args.len() && plan.args[index].contains('\0')
                &&& forall|k: int| 0 <= k < index ==> !(#[trigger] plan.args[k]).contains('\0')
                &&& plan.program.len() > 0 && !plan.program.contains('\0')
            },
            Some(Fault::RelativeWorkingDir(path)) => plan.working_dir == Some(path) && !(path.len()
                > 0 && path[0] == 47u8),
            Some(Fault::RelativeCgroupParent(path)) => plan.cgroup_parent == Some(path) && !(
            path.len() > 0 && path[0] == 47u8),
            Some(Fault::EmptyEnvKey(index)) => 0 <= index < plan.env.len()
                && plan.env[index].0.len() == 0,
            Some(Fault::EnvKeyNul(index)) => 0 <= index < plan.env.len()
                && plan.env[index].0.contains('\0'),
            Some(Fault::EnvKeyEquals(index)) => 0 <= index < plan.env.len()
                && plan.env[index].0.contains('='),
            Some(Fault::EnvValueNul(key)) => exists|i: int|
                0 <= i < plan.env.len() && (#[trigger] plan.env[i]).0 == key
                    && plan.env[i].1.contains('\0'),
            Some(Fault::DuplicateEnvKey(key)) => exists|i: int, k: int|
                0 <= k < i < plan.env.len() && (#[trigger] plan.env[k]).0 == key && (
                #[trigger] plan.env[i]).0 == key,
            Some(Fault::MetadataTooLarge(size, max)) => size == plan.metadata.len() && max == 4096
                && size > max,
            Some(Fault::ZeroActivationExpiry) => plan.gate.activation_expiry == Some(
                crate::time::Nanos(0),
            ),
        },
{
    let in_args = |i: int| plan::arg_fault(plan.args, i);
    let in_env = |i: int| plan::env_fault(plan.env, i);
    lemma_first_fault(in_args, plan.args.len());
    lemma_first_fault(in_env, plan.env.len());
    if plan::first_fault(in_args, plan.args.len()) is Some {
        let i = choose|i: int|
            0 <= i < plan.args.len() && #[trigger] in_args(i) == plan::first_fault(
                in_args,
                plan.args.len(),
            ) && forall|k: int| 0 <= k < i ==> (#[trigger] in_args(k)) is None;
        assert forall|k: int| 0 <= k < i implies !(#[trigger] plan.args[k]).contains('\0') by {
            assert(in_args(k) is None);
        }
    }
    if plan::first_fault(in_env, plan.env.len()) is Some {
        let i = choose|i: int|
            0 <= i < plan.env.len() && #[trigger] in_env(i) == plan::first_fault(
                in_env,
                plan.env.len(),
            ) && forall|k: int| 0 <= k < i ==> (#[trigger] in_env(k)) is None;
        assert(plan::env_fault(plan.env, i) == plan::first_fault(in_env, plan.env.len()));
        assert(plan.env[i].0 == plan.env[i].0);
    }
}

/// A plan with one thing wrong is refused for that: the first field in the order
/// of the plan, the first entry in the order of its list.
pub proof fn law_the_first_fault_is_named(plan: PlanView)
    ensures
        plan.program.len() == 0 ==> plan::fault(plan) == Some(Fault::EmptyProgram),
        plan.program.len() > 0 && plan.program.contains('\0') ==> plan::fault(plan) == Some(
            Fault::ProgramNul,
        ),
        plan.program.len() > 0 && !plan.program.contains('\0') ==> {
            let in_args = exists|i: int|
                0 <= i < plan.args.len() && (#[trigger] plan.args[i]).contains('\0');
            let dir = plan.working_dir is Some && !(plan.working_dir->0.len() > 0
                && plan.working_dir->0[0] == 47u8);
            let parent = plan.cgroup_parent is Some && !(plan.cgroup_parent->0.len() > 0
                && plan.cgroup_parent->0[0] == 47u8);
            let named = plan::fault(plan);
            &&& in_args <==> named is Some && named->0 is ArgNul
            &&& !in_args && dir <==> named is Some && named->0 is RelativeWorkingDir
            &&& !in_args && !dir && parent <==> named is Some && named->0 is RelativeCgroupParent
        },
{
    let in_args = |i: int| plan::arg_fault(plan.args, i);
    lemma_first_fault(in_args, plan.args.len());
    let in_env = |i: int| plan::env_fault(plan.env, i);
    lemma_first_fault(in_env, plan.env.len());
    if plan::first_fault(in_args, plan.args.len()) is None {
        assert forall|i: int| 0 <= i < plan.args.len() implies !(
        #[trigger] plan.args[i]).contains('\0') by {
            assert(in_args(i) is None);
        }
    } else {
        let i = choose|i: int|
            0 <= i < plan.args.len() && #[trigger] in_args(i) == plan::first_fault(
                in_args,
                plan.args.len(),
            ) && forall|k: int| 0 <= k < i ==> (#[trigger] in_args(k)) is None;
        assert(plan.args[i].contains('\0'));
    }
}

/// What is wrong with an environment entry is named in one order: its key alone,
/// then its key against those before it, then its value.
pub proof fn law_an_entry_is_judged_in_order(env: Seq<(Seq<char>, Seq<char>)>, i: int)
    requires
        0 <= i < env.len(),
    ensures
        ({
            let key = env[i].0;
            let plain = key.len() > 0 && !key.contains('\0') && !key.contains('=');
            let again = exists|k: int| 0 <= k < i && (#[trigger] env[k]).0 == key;
            &&& plan::env_fault(env, i) == Some(Fault::EmptyEnvKey(i)) <==> key.len() == 0
            &&& plan::env_fault(env, i) == Some(Fault::EnvKeyNul(i)) <==> key.contains('\0')
            &&& plan::env_fault(env, i) == Some(Fault::EnvKeyEquals(i)) <==> key.contains('=')
                && !key.contains('\0')
            &&& plan::env_fault(env, i) == Some(Fault::DuplicateEnvKey(key)) <==> plain && again
            &&& plan::env_fault(env, i) == Some(Fault::EnvValueNul(key)) <==> plain && !again
                && env[i].1.contains('\0')
            &&& plan::env_fault(env, i) is None <==> plain && !again && !env[i].1.contains('\0')
        }),
{
}

/// A closed gate says why it is shut: it was opened, it was stopped, or it never
/// was open.
pub proof fn law_a_closed_gate_says_why(state: LifecycleState)
    ensures
        ActivationError::closed_gate(state) is AlreadyActivated <==> state is Activating
            || state is Running || state is Exited,
        ActivationError::closed_gate(state) is AlreadyStopped <==> state is Stopping
            || state is Stopped,
        !(ActivationError::closed_gate(state) is AlreadyActivated)
            && !(ActivationError::closed_gate(state) is AlreadyStopped)
            ==> ActivationError::closed_gate(state) == (ActivationError::GateUnavailable { state }),
{
}

/// A sweep leaves the three standard streams and its keepers, and closes every
/// other descriptor.
pub proof fn law_a_sweep_leaves_the_streams_and_the_keepers(keep: Seq<i32>, fd: i32)
    requires
        descriptors::ascending(keep),
        !keep.contains(i32::MAX),
    ensures
        (exists|i: int|
            0 <= i < descriptors::gaps(keep, descriptors::FIRST_SWEPT).len() && (
            #[trigger] descriptors::gaps(keep, descriptors::FIRST_SWEPT)[i]).0 <= fd
                <= descriptors::gaps(keep, descriptors::FIRST_SWEPT)[i].1) <==> fd > 2
            && !keep.contains(fd),
{
    descriptors::law_a_sweep_closes_all_but_the_keepers(keep, fd);
}

/// Limits are none at all only where no ceiling is set.
pub proof fn law_one_ceiling_is_a_limit(limits: ResourceLimits)
    ensures
        limits.unlimited() <==> limits.max_memory_bytes is None && limits.max_pids is None
            && limits.cpu_time_secs is None,
{
}

/// A policy is refused where its rules could not be built, and on Linux where the
/// kernel cannot express one of its grants; nothing else refuses it.
pub proof fn law_when_a_policy_is_refused(
    caps: CapabilityView,
    platform: Platform,
    available: LandlockRightsAvailable,
    reason: String,
)
    ensures
        policy::spec_fault(caps, platform, Err::<LandlockRightsAvailable, String>(reason)) == Some(
            reason@,
        ),
        policy::spec_fault(caps, platform, Ok::<LandlockRightsAvailable, String>(available))
            is None <==> (platform is Linux ==> forall|i: int|
            0 <= i < caps.fs_modes.len() ==> rules::grant_refusal(
                #[trigger] caps.fs_modes[i],
                available.version(),
            ) is None),
{
    rules::law_a_set_compiles_iff_every_grant_does(caps, available.version());
}

/// The sizes that both ends of a descriptor rely on.
pub proof fn law_sizes_are_fixed()
    ensures
        super::gate::GATE_MESSAGE_BYTES == 16,
        super::gate::ACTIVATION_TOKEN_BYTES == 32,
        super::gate::TOKEN_DIGEST_BYTES == 32,
        super::exit::STATUS_RECORD_LEN == 5,
        super::probe::PROBE_PATH_BYTES == 4096,
        super::probe::PROBE_REQUEST_BYTES == super::probe::OFFSET_PATH
            + super::probe::PROBE_PATH_BYTES,
        super::probe::OFFSET_PATH == super::probe::OFFSET_ADDR + super::probe::ADDR_BYTES,
        super::frame::MAX_CONTROL_FRAME_BYTES == 65536 + 4096,
        super::frame::LENGTH_PREFIX_BYTES == 4,
        super::detached::CONTROL_TIMEOUT == 10 * crate::time::NANOS_PER_SECOND,
        super::detached::MAX_CONTROL_WAIT == 30 * crate::time::NANOS_PER_SECOND,
        super::events::DETACHED_EVENT_RING_CAPACITY == 32,
        plan::MAX_PLAN_METADATA_BYTES == 4096,
{
}

} // verus!
