use nono::capability::CapabilitySet;
use nono::error::{NonoDiagnosticCode, NonoError};
use nono::lifecycle::cgroup::CgroupError;
use nono::lifecycle::cleanup::{Answers, DeathObservation, Probe, Question};
use nono::lifecycle::effect::Effect;
use nono::lifecycle::exit::{TAG_GATE_READY, TAG_NOTIFY_FD};
use nono::lifecycle::gate::{GateSecrets, GATE_MESSAGE_BYTES};
use nono::lifecycle::image::{refuse_unsupported, resolve_program, ExecImage};
use nono::lifecycle::plan::{Ceiling64, FIRST_GENERATION};
use nono::lifecycle::policy::{
    proxy_policy_for, required_network_filter, Applying, PlatformSandbox, SandboxPart,
    StaticNetworkFilter,
};
use nono::lifecycle::prepare::{
    adoption_started, draw_secrets, draw_session, draw_token, prepare_started, probe_answered,
    session_from, token_from, Activation, AdoptedChild, Failing,
    Handoff, Preparation, ProbeStart,
};
use nono::lifecycle::prepare_error::channel_error;
use nono::lifecycle::probe::{
    encode_request, Platform, TAG_PROBE_COULD_NOT_RUN, TAG_PROBE_PERMITTED, TAG_PROBE_REFUSED,
};
use nono::lifecycle::record::{
    classify_prepare_record, encode_record, listener_in, observe_gate_ending, prepare_outcome,
    read_status_record,
};
use nono::lifecycle::session::{SessionIdError, SessionIds};
use nono::lifecycle::{
    AbsenceBasis, ActivatedSandbox, ActivationError, ActivationHandle, ActivationObservation,
    ActivationOutcome, CleanupError, CleanupVerification, EnforcementMechanism, ExitOutcome,
    GateConfig, LifecycleEventKind, LifecycleOp, LifecycleState, PreExecStage, PrepareError,
    PreparedSandbox, ProbeError, ProbeId, ProbeIndeterminate, ProbeOp, ProbeOutcome, ProbeRequest,
    ProcessIdentity, ReapError, ResourceLimits, SandboxExit, SandboxPlan, SessionId, SessionMode,
    StopError, SupervisorStage, TransitionError, ValidatedPlan, ACTIVATION_TOKEN_BYTES,
};
use nono::capability_modes::landlock_map::LandlockRightsAvailable;
use nono::capability_modes::{Found, FsMode, FsModeCapability, FsModeSet};
use nono::errno;
use nono::path::PathBytes;
use nono::time::{Nanos, Timestamp};

const RELEASE: [u8; GATE_MESSAGE_BYTES] = [1; GATE_MESSAGE_BYTES];
const ABORT: [u8; GATE_MESSAGE_BYTES] = [2; GATE_MESSAGE_BYTES];
const PROBE: [u8; GATE_MESSAGE_BYTES] = [3; GATE_MESSAGE_BYTES];
const TOKEN: [u8; ACTIVATION_TOKEN_BYTES] = [0x5A; ACTIVATION_TOKEN_BYTES];
const SESSION: SessionId = SessionId(0x0191_e1a0_0000_7000_8000_0000_0000_0001);
const CHILD: i32 = 4242;

/// Seal a plan for a test, naming the failure if the plan is the bug.
fn sealed(plan: SandboxPlan) -> ValidatedPlan {
    match plan.validate() {
        Ok(plan) => plan,
        Err(err) => panic!("test plan must validate: {}", err.to_text()),
    }
}

/// What looking at a path answers.
fn inspect(path: &str) -> Result<bool, i32> {
    match nix::sys::stat::stat(path) {
        Ok(found) => Ok(found.st_mode & libc::S_IFMT == libc::S_IFREG),
        Err(errno) => Err(errno as i32),
    }
}

/// What a kernel of this age can enforce.
fn rights() -> LandlockRightsAvailable {
    LandlockRightsAvailable::from_abi_version(4)
}

fn resolved(program: &str) -> Result<PathBytes, PrepareError> {
    resolve_program(program, inspect(program))
}

fn child() -> ProcessIdentity {
    ProcessIdentity::from_parts(CHILD, Some(1), Some("this-boot".to_string()))
}

fn secrets() -> GateSecrets {
    GateSecrets::from_messages(RELEASE, ABORT, PROBE)
}

/// A child that reached the activation gate for `plan`.
fn held(plan: &ValidatedPlan) -> (PreparedSandbox, ActivationHandle) {
    let (mut held, handle) =
        PreparedSandbox::prepare(plan, SESSION, child(), secrets(), TOKEN, Nanos(1_000));
    let mut out = Vec::new();
    match held.observe_prepare(Ok(Some((TAG_GATE_READY, 0))), &mut out) {
        Ok(()) => (held, handle),
        Err(err) => panic!("prepare must succeed: {}", err.to_text()),
    }
}

fn held_child() -> (PreparedSandbox, ActivationHandle) {
    held_child_at(FIRST_GENERATION)
}

fn held_child_at(generation: u64) -> (PreparedSandbox, ActivationHandle) {
    held(&sealed(
        SandboxPlan::new("/bin/echo")
            .arg("held")
            .generation(generation),
    ))
}

fn expiring() -> (PreparedSandbox, ActivationHandle) {
    held(&sealed(SandboxPlan::new("/bin/echo").gate(GateConfig {
        activation_expiry: Some(Nanos::from_secs(5)),
    })))
}

/// Activate through to the handoff, as a driver whose child executes does.
fn activated(
    held: &mut PreparedSandbox,
    handle: &ActivationHandle,
) -> Result<ActivatedSandbox, ActivationError> {
    let mut out = Vec::new();
    match held.activate(handle, Nanos(2_000), &mut out) {
        Activation::Refused(err) => return Err(err),
        Activation::Expired => return Err(ActivationError::ActivationExpired),
        Activation::Release => {}
    }
    assert_eq!(held.release_message(), Some(&RELEASE));
    if let Err(failing) = held.released(Ok(()), &mut out) {
        return Err(failing.error);
    }
    match held.observe_activation(Ok(None), &mut out) {
        Handoff::Activated(run) => Ok(run),
        Handoff::Failed(failing) => Err(failing.error),
        Handoff::Refused(err) => Err(err),
    }
}

fn emitted(out: &[Effect]) -> Vec<&LifecycleEventKind> {
    out.iter()
        .filter_map(|effect| match effect {
            Effect::Emit(what) => Some(what),
            _ => None,
        })
        .collect()
}

#[test]
fn a_relative_program_is_refused_before_anything_is_forked() {
    assert_eq!(
        resolved("echo"),
        Err(PrepareError::ProgramNotAbsolute {
            program: "echo".to_string()
        })
    );
    assert_eq!(
        resolved("./echo"),
        Err(PrepareError::ProgramNotAbsolute {
            program: "./echo".to_string()
        })
    );
}

#[test]
fn a_missing_program_is_refused_with_its_errno() {
    assert_eq!(
        resolved("/nonexistent-nono-lifecycle-program"),
        Err(PrepareError::ProgramUnusable {
            program: PathBytes::from_text("/nonexistent-nono-lifecycle-program"),
            errno: libc::ENOENT,
        })
    );
}

#[test]
fn a_directory_is_not_a_program() {
    assert_eq!(
        resolved("/tmp"),
        Err(PrepareError::ProgramNotAFile {
            program: PathBytes::from_text("/tmp")
        })
    );
}

#[test]
fn a_real_program_resolves() -> Result<(), PrepareError> {
    assert_eq!(resolved("/bin/sh")?, PathBytes::from_text("/bin/sh"));
    Ok(())
}

#[test]
fn exec_image_puts_the_program_first_in_argv() -> Result<(), PrepareError> {
    let plan = sealed(SandboxPlan::new("/bin/echo").arg("one").arg("two"));
    let image = ExecImage::build(&PathBytes::from_text("/bin/echo"), &plan)?;
    let rendered: Vec<&[u8]> = image.argv.iter().map(|entry| entry.as_slice()).collect();
    assert_eq!(rendered, [b"/bin/echo".as_slice(), b"one", b"two"]);
    Ok(())
}

#[test]
fn exec_image_keeps_arguments_literal() -> Result<(), PrepareError> {
    let weird = "$(touch /tmp/nono-should-not-exist); `id`; a b";
    let plan = sealed(SandboxPlan::new("/bin/echo").arg(weird));
    let image = ExecImage::build(&PathBytes::from_text("/bin/echo"), &plan)?;
    assert_eq!(
        image.argv.get(1).map(|entry| entry.as_slice()),
        Some(weird.as_bytes())
    );
    Ok(())
}

#[test]
fn exec_image_renders_the_environment_as_key_equals_value() -> Result<(), PrepareError> {
    let plan = sealed(
        SandboxPlan::new("/bin/echo")
            .env("LANG", "C")
            .env("EMPTY", ""),
    );
    let image = ExecImage::build(&PathBytes::from_text("/bin/echo"), &plan)?;
    let rendered: Vec<&[u8]> = image.envp.iter().map(|entry| entry.as_slice()).collect();
    assert_eq!(rendered, [b"LANG=C".as_slice(), b"EMPTY="]);
    Ok(())
}

#[test]
fn exec_image_refuses_a_path_with_a_nul() {
    let plan = sealed(SandboxPlan::new("/bin/echo"));
    let program = PathBytes::from_bytes(b"/bin/ec\0ho".to_vec());
    assert_eq!(
        ExecImage::build(&program, &plan),
        Err(PrepareError::ProgramUnusable {
            program: PathBytes::from_bytes(b"/bin/ec\0ho".to_vec()),
            errno: 0
        })
    );
    let plan = sealed(
        SandboxPlan::new("/bin/echo").working_dir(PathBytes::from_bytes(b"/t\0mp".to_vec())),
    );
    assert_eq!(
        ExecImage::build(&PathBytes::from_text("/bin/echo"), &plan),
        Err(PrepareError::ProgramUnusable {
            program: PathBytes::from_text("/bin/echo"),
            errno: 0
        })
    );
    let plan =
        sealed(SandboxPlan::new("/bin/echo").working_dir(PathBytes::from_text("/tmp")));
    match ExecImage::build(&PathBytes::from_text("/bin/echo"), &plan) {
        Ok(image) => assert_eq!(image.working_dir, Some(b"/tmp".to_vec())),
        Err(err) => panic!("the image must build: {}", err.to_text()),
    }
}

#[test]
fn features_this_slice_cannot_deliver_are_refused_not_ignored() {
    let interactive = sealed(SandboxPlan::new("/bin/echo").session_mode(SessionMode::Interactive));
    assert_eq!(
        refuse_unsupported(&interactive, false).err(),
        Some(PrepareError::InteractiveNeedsSupervisor),
        "an ephemeral path has nobody to own a terminal"
    );
    assert_eq!(
        refuse_unsupported(&interactive, true),
        Ok(()),
        "the supervisor's own path owns one"
    );

    let limited = sealed(
        SandboxPlan::new("/bin/echo").resource_limits(ResourceLimits {
            max_memory_bytes: Ceiling64::new(1024),
            ..ResourceLimits::default()
        }),
    );
    assert_eq!(
        refuse_unsupported(&limited, false).err(),
        Some(PrepareError::UnsupportedPlanFeature {
            feature: "resource limits"
        })
    );

    assert_eq!(
        refuse_unsupported(&sealed(SandboxPlan::new("/bin/echo")), false),
        Ok(())
    );
}

#[test]
fn a_detached_plan_is_refused_by_every_path_that_cannot_supervise_one() {
    let detached = sealed(SandboxPlan::new("/bin/echo").detached(true));
    assert_eq!(
        refuse_unsupported(&detached, false).err(),
        Some(PrepareError::DetachedNeedsSupervisor)
    );
    assert_eq!(refuse_unsupported(&detached, true), Ok(()));

    // And the entry point refuses before it looks at anything else.
    let refused = Preparation::of(&detached, false, Platform::Linux, Err(2), Err("unbuilt".to_string()));
    assert!(
        matches!(refused, Err(PrepareError::DetachedNeedsSupervisor)),
        "expected a typed refusal"
    );
}

#[test]
fn a_preparation_decides_everything_before_the_fork() {
    let plan = sealed(
        SandboxPlan::new("/bin/echo")
            .arg("x")
            .capabilities(CapabilitySet::new().proxy_only(8080)),
    );
    let decided = match Preparation::of(&plan, false, Platform::Linux, Ok(true), Ok(rights())) {
        Ok(decided) => decided,
        Err(err) => panic!("the plan must be preparable: {}", err.to_text()),
    };
    assert_eq!(decided.image.argv.len(), 2);
    assert_eq!(
        decided.sandbox,
        PlatformSandbox {
            network_filter: StaticNetworkFilter::TcpOnly,
            proxy_notify: Some(false),
        }
    );
    assert_eq!(
        decided.proxy_policy.map(|policy| policy.proxy_port),
        Some(8080)
    );
    // The program comes before the platform's rules.
    assert_eq!(
        Preparation::of(&plan, false, Platform::Linux, Ok(false), Err("unbuilt".to_string())).err(),
        Some(PrepareError::ProgramNotAFile {
            program: PathBytes::from_text("/bin/echo")
        })
    );
    assert_eq!(
        Preparation::of(&plan, false, Platform::Linux, Ok(true), Err("unbuilt".to_string())).err(),
        Some(PrepareError::SandboxSpec {
            reason: "unbuilt".to_string()
        })
    );
}

#[test]
fn a_cgroup_parent_needs_a_platform_with_cgroups() {
    let plan = sealed(
        SandboxPlan::new("/bin/echo").cgroup_parent(PathBytes::from_text("/sys/fs/cgroup")),
    );
    for platform in [Platform::MacOs, Platform::Other] {
        assert_eq!(
            Preparation::of(&plan, false, platform, Err(2), Ok(rights())).err(),
            Some(PrepareError::UnsupportedPlanFeature {
                feature: "cgroup parent"
            })
        );
    }
    assert!(Preparation::of(&plan, false, Platform::Linux, Ok(true), Ok(rights())).is_ok());
}

#[test]
fn only_linux_needs_parts_beside_its_rules() {
    let plan = sealed(
        SandboxPlan::new("/bin/echo").capabilities(CapabilitySet::new().proxy_only(8080)),
    );
    let sandbox = match PlatformSandbox::build(&plan, Platform::MacOs, Ok(rights())) {
        Ok(sandbox) => sandbox,
        Err(err) => panic!("the policy must build: {}", err.to_text()),
    };
    assert_eq!(sandbox.network_filter, StaticNetworkFilter::Open);
    assert_eq!(sandbox.proxy_notify, None);
    assert_eq!(
        sandbox.after_part(SandboxPart::Ruleset, Ok(0)),
        Applying::Done { listener: None }
    );
}

#[test]
fn a_plan_with_a_refused_grant_is_not_prepared() {
    let grant = match FsModeCapability::new_dir(
        PathBytes::from_text("/srv"),
        Ok(Found {
            resolved: PathBytes::from_text("/srv"),
            is_dir: true,
        }),
        FsModeSet::of(&[FsMode::Truncate]),
    ) {
        Ok(grant) => grant,
        Err(err) => panic!("a directory must be grantable: {}", err.to_text()),
    };
    let plan = sealed(
        SandboxPlan::new("/bin/echo").capabilities(CapabilitySet::new().allow_path_modes(grant)),
    );
    let old = LandlockRightsAvailable::from_abi_version(2);
    match Preparation::of(&plan, false, Platform::Linux, Ok(true), Ok(old)).err() {
        Some(PrepareError::SandboxSpec { reason }) => assert!(
            reason.starts_with("grant /srv {truncate} is refused: Landlock ABI V2"),
            "{reason}"
        ),
        other => panic!("the grant must be refused: {other:?}"),
    }
    assert!(Preparation::of(&plan, false, Platform::Linux, Ok(true), Ok(rights())).is_ok());
    assert!(Preparation::of(&plan, false, Platform::MacOs, Ok(true), Ok(old)).is_ok());
}

#[test]
fn preparing_is_told_as_it_was_witnessed() {
    let mut out = Vec::new();
    prepare_started(&mut out);
    adoption_started(&mut out);
    assert_eq!(
        out,
        [
            Effect::Emit(LifecycleEventKind::PrepareStarted),
            Effect::EmitReconstructed(LifecycleEventKind::PrepareStarted),
        ]
    );
}

#[test]
fn an_absent_prepare_record_is_a_failure_not_a_silent_success() {
    assert_eq!(
        classify_prepare_record(Ok(None)),
        Err((PreExecStage::Unknown, 0))
    );
    assert_eq!(
        classify_prepare_record(Err(libc::EIO)),
        Err((PreExecStage::Unknown, libc::EIO))
    );
    assert_eq!(
        classify_prepare_record(Ok(Some((PreExecStage::Unknown.as_tag(), 0)))),
        Err((PreExecStage::Unknown, 0))
    );
}

#[test]
fn a_prepare_record_is_only_success_when_it_says_so() {
    assert_eq!(
        classify_prepare_record(Ok(Some((TAG_GATE_READY, 0)))),
        Ok(())
    );
    assert_eq!(
        classify_prepare_record(Ok(Some((PreExecStage::SandboxApply.as_tag(), libc::EPERM)))),
        Err((PreExecStage::SandboxApply, libc::EPERM))
    );
    assert_eq!(
        classify_prepare_record(Ok(Some((PreExecStage::Exec.as_tag(), libc::ENOENT)))),
        Err((PreExecStage::Exec, libc::ENOENT))
    );
}

#[test]
fn a_proxy_only_policy_prepares_the_supervisor_it_needs() {
    let plan = sealed(
        SandboxPlan::new("/bin/echo").capabilities(CapabilitySet::new().proxy_only(8080)),
    );
    let sandbox =
        PlatformSandbox::build(&plan, Platform::Linux, Ok(rights())).expect("a proxy-only plan must now build");
    assert!(
        sandbox.proxy_notify.is_some(),
        "a proxy-only plan must carry the listener that answers for it; \
         without one the child blocks on its first network syscall"
    );

    let policy = proxy_policy_for(&plan).expect("the rule the supervisor answers from");
    assert_eq!(policy.proxy_port, 8080);
    assert!(
        policy.bind_ports.is_empty(),
        "nothing asked to listen, so nothing may"
    );
}

#[test]
fn a_listener_is_prepared_from_the_policy_not_from_the_kernel() {
    let mediated = sealed(
        SandboxPlan::new("/bin/echo").capabilities(CapabilitySet::new().proxy_only(8080)),
    );
    assert!(PlatformSandbox::build(&mediated, Platform::Linux, Ok(rights()))
        .expect("build")
        .proxy_notify
        .is_some());

    for capabilities in [
        CapabilitySet::new().block_network(),
        CapabilitySet::new().block_network().allow_tcp_connect(443),
    ] {
        let plan = sealed(SandboxPlan::new("/bin/echo").capabilities(capabilities));
        assert!(PlatformSandbox::build(&plan, Platform::Linux, Ok(rights()))
            .expect("build")
            .proxy_notify
            .is_none());
        assert!(proxy_policy_for(&plan).is_none());
    }
}

#[test]
fn every_restrictive_network_policy_arms_the_filter_it_needs() {
    assert_eq!(
        required_network_filter(&CapabilitySet::new().block_network()),
        StaticNetworkFilter::BlockAll,
        "a blocked network with no exceptions must deny every socket"
    );
    assert_eq!(
        required_network_filter(&CapabilitySet::new().block_network().allow_tcp_connect(443)),
        StaticNetworkFilter::TcpOnly,
        "a TCP port exception must still deny every family Landlock cannot \
         express -- otherwise granting TCP:443 leaves UDP wide open"
    );

    for (caps, expected) in [
        (
            CapabilitySet::new().block_network(),
            StaticNetworkFilter::BlockAll,
        ),
        (
            CapabilitySet::new().block_network().allow_tcp_connect(443),
            StaticNetworkFilter::TcpOnly,
        ),
    ] {
        let plan = sealed(SandboxPlan::new("/bin/echo").capabilities(caps));
        match PlatformSandbox::build(&plan, Platform::Linux, Ok(rights())) {
            Ok(sandbox) => assert_eq!(sandbox.network_filter, expected),
            Err(err) => panic!("a restrictive plan must build: {}", err.to_text()),
        }
    }
}

#[test]
fn a_policy_that_did_not_ask_for_the_filter_does_not_get_one() {
    assert_eq!(
        required_network_filter(&CapabilitySet::new()),
        StaticNetworkFilter::Open,
        "an open policy must not be filtered"
    );

    let plan = sealed(SandboxPlan::new("/bin/echo").capabilities(CapabilitySet::new()));
    match PlatformSandbox::build(&plan, Platform::Linux, Ok(rights())) {
        Ok(sandbox) => assert_eq!(
            sandbox.network_filter,
            StaticNetworkFilter::Open,
            "an open policy must build without the filter step"
        ),
        Err(err) => panic!("an open plan must build: {}", err.to_text()),
    }
}

#[test]
fn a_filter_that_could_not_be_installed_is_a_failed_confinement() {
    assert_eq!(
        classify_prepare_record(Ok(Some((
            PreExecStage::NetworkFilter.as_tag(),
            libc::EPERM
        )))),
        Err((PreExecStage::NetworkFilter, libc::EPERM))
    );

    assert_eq!(
        prepare_outcome(PreExecStage::NetworkFilter, libc::EPERM),
        ExitOutcome::SandboxApplicationFailure {
            stage: PreExecStage::NetworkFilter,
            errno: libc::EPERM,
        }
    );
    assert_eq!(
        prepare_outcome(PreExecStage::SandboxApply, libc::ENOSYS),
        ExitOutcome::SandboxApplicationFailure {
            stage: PreExecStage::SandboxApply,
            errno: libc::ENOSYS,
        }
    );
    assert_eq!(
        prepare_outcome(PreExecStage::GateAborted, 0),
        ExitOutcome::PreExecFailure {
            stage: PreExecStage::GateAborted,
            errno: 0,
        }
    );

    let exit = SandboxExit::new(
        prepare_outcome(PreExecStage::NetworkFilter, libc::EPERM),
        ActivationObservation::NotActivated,
        ProcessIdentity::capture(0, None, None),
    );
    let err: NonoError = PrepareError::ChildFailed { exit }.into();
    assert_eq!(err.diagnostic_code(), NonoDiagnosticCode::SandboxDeniedPath);
}

#[test]
fn a_forged_handle_with_the_wrong_token_is_refused() {
    let (mut held, handle) = held_child();
    // Right session, right generation, wrong 32 bytes.
    let forged = ActivationHandle::new(
        handle.session_id(),
        handle.generation(),
        [0xEE; ACTIVATION_TOKEN_BYTES],
    );
    assert_eq!(
        activated(&mut held, &forged).err(),
        Some(ActivationError::InvalidActivationToken)
    );
    assert_eq!(
        held.state(),
        LifecycleState::Prepared,
        "a refused token must leave the activation gate open for the real handle"
    );

    match activated(&mut held, &handle) {
        Ok(mut running) => {
            let mut out = Vec::new();
            if let Err(err) = running.wait(Ok(ExitOutcome::Exited { code: 0 }), &mut out) {
                panic!("wait must observe the exit: {}", err.to_text());
            }
        }
        Err(err) => panic!("the genuine handle must still work: {}", err.to_text()),
    }
}

#[test]
fn the_generation_compared_on_release_is_the_one_the_caller_chose() {
    const CHOSEN: u64 = 7;
    let (mut held, handle) = held_child_at(CHOSEN);

    assert_eq!(handle.generation(), CHOSEN);
    assert_ne!(handle.generation(), FIRST_GENERATION);

    let stale = ActivationHandle::new(
        handle.session_id(),
        CHOSEN.saturating_sub(1),
        *handle.token(),
    );
    assert_eq!(
        activated(&mut held, &stale).err(),
        Some(ActivationError::WrongGeneration {
            expected: CHOSEN,
            supplied: CHOSEN - 1,
        })
    );
    assert_eq!(held.state(), LifecycleState::Prepared);

    assert!(activated(&mut held, &handle).is_ok());
}

#[test]
fn a_handle_for_another_generation_is_refused() {
    let (mut held, handle) = held_child();
    let next_generation = ActivationHandle::new(
        handle.session_id(),
        handle.generation().saturating_add(1),
        *handle.token(),
    );
    assert_eq!(
        activated(&mut held, &next_generation).err(),
        Some(ActivationError::WrongGeneration {
            expected: FIRST_GENERATION,
            supplied: FIRST_GENERATION.saturating_add(1),
        })
    );
    assert_eq!(held.state(), LifecycleState::Prepared);
}

#[test]
fn a_handle_for_another_session_is_refused() {
    let (mut held, handle) = held_child();
    let other = ActivationHandle::new(SessionId(9), handle.generation(), *handle.token());
    let mut out = Vec::new();
    assert_eq!(
        held.activate(&other, Nanos(2_000), &mut out),
        Activation::Refused(ActivationError::WrongSession {
            expected: SESSION,
            supplied: SessionId(9),
        })
    );
    assert_eq!(
        out,
        vec![Effect::Emit(LifecycleEventKind::ActivationAttempted {
            outcome: ActivationOutcome::RefusedWrongSession
        })]
    );
    assert_eq!(held.release_message(), None);
}

#[test]
fn a_gate_opens_once() {
    let (mut held, handle) = held_child();
    let run = match activated(&mut held, &handle) {
        Ok(run) => run,
        Err(err) => panic!("the handle must work: {}", err.to_text()),
    };
    assert_eq!(run.state(), LifecycleState::Running);
    assert_eq!(run.activation(), ActivationObservation::ExecOrKilledPreExec);
    assert_eq!(
        activated(&mut held, &handle).err(),
        Some(ActivationError::AlreadyActivated)
    );
    assert_eq!(held.release_message(), None);
    assert_eq!(held.abort_message(), None);
    assert!(!held.owns_child());
    let mut out = Vec::new();
    assert_eq!(held.left_behind(&mut out), None);
    assert!(out.is_empty());
}

#[test]
fn an_activation_is_told_in_order() {
    let (mut held, handle) = held_child();
    let mut out = Vec::new();
    assert_eq!(
        held.activate(&handle, Nanos(2_000), &mut out),
        Activation::Release
    );
    assert!(out.is_empty(), "nothing is told before the write");
    assert_eq!(held.released(Ok(()), &mut out), Ok(()));
    assert!(matches!(
        held.observe_activation(Ok(None), &mut out),
        Handoff::Activated(_)
    ));
    assert_eq!(
        out,
        vec![
            Effect::Emit(LifecycleEventKind::ActivationAttempted {
                outcome: ActivationOutcome::Accepted
            }),
            Effect::Emit(LifecycleEventKind::StateChanged {
                from: LifecycleState::Prepared,
                to: LifecycleState::Activating
            }),
            Effect::Persist {
                state: LifecycleState::Activating,
                activation: None
            },
            Effect::Emit(LifecycleEventKind::Released),
            Effect::Emit(LifecycleEventKind::ExecObserved),
            Effect::Emit(LifecycleEventKind::StateChanged {
                from: LifecycleState::Activating,
                to: LifecycleState::Running
            }),
            Effect::Persist {
                state: LifecycleState::Running,
                activation: None
            },
            Effect::CloseGate,
            Effect::CloseStatus,
            Effect::Persist {
                state: LifecycleState::Running,
                activation: Some(ActivationObservation::ExecOrKilledPreExec)
            },
        ]
    );
}

#[test]
fn an_expired_gate_refuses_even_the_right_token() {
    let (mut held, handle) = expiring();
    let deadline = Nanos(1_000 + 5_000_000_000);
    assert!(!held.has_expired(Nanos(deadline.0 - 1)));
    assert!(held.has_expired(deadline));
    let mut out = Vec::new();
    assert_eq!(
        held.activate(&handle, deadline, &mut out),
        Activation::Expired
    );
    assert_eq!(held.state(), LifecycleState::Stopping);
    assert!(out.contains(&Effect::WriteAbort));
    assert!(out.contains(&Effect::CloseGate));
    assert_eq!(held.abort_message(), Some(&ABORT));
    let mut out = Vec::new();
    assert_eq!(
        held.finish_expiry(
            Ok(Some((PreExecStage::GateAborted.as_tag(), 0))),
            Ok(ExitOutcome::Exited { code: 1 }),
            &mut out
        ),
        ActivationError::ActivationExpired
    );
    assert_eq!(held.state(), LifecycleState::Stopped);
    assert_eq!(
        held.exit().map(SandboxExit::outcome),
        Some(ExitOutcome::PreExecFailure {
            stage: PreExecStage::GateAborted,
            errno: 0
        })
    );
    assert_eq!(held.abort_message(), None);
    let mut out = Vec::new();
    assert_eq!(
        held.activate(&handle, deadline, &mut out),
        Activation::Refused(ActivationError::AlreadyStopped)
    );
}

#[test]
fn an_expiry_whose_death_was_not_observed_records_no_end() {
    let (mut held, handle) = expiring();
    let mut out = Vec::new();
    let late = Nanos(u128::MAX);
    assert_eq!(held.activate(&handle, late, &mut out), Activation::Expired);
    let lost = ReapError {
        pid: CHILD,
        errno: libc::ECHILD,
    };
    let mut out = Vec::new();
    held.finish_expiry(Ok(None), Err(lost), &mut out);
    assert_eq!(out, vec![Effect::CloseStatus]);
    assert_eq!(held.exit(), None);
    assert_eq!(held.state(), LifecycleState::Stopping);
    assert!(held.owns_child());
}

#[test]
fn a_child_that_failed_before_the_gate_is_a_failed_prepare() {
    let plan = sealed(SandboxPlan::new("/bin/echo"));
    let (mut held, _handle) =
        PreparedSandbox::prepare(&plan, SESSION, child(), secrets(), TOKEN, Nanos(0));
    assert_eq!(held.state(), LifecycleState::Preparing);
    let mut out = Vec::new();
    let said = Ok(Some((PreExecStage::SandboxApply.as_tag(), libc::EPERM)));
    let outcome = ExitOutcome::SandboxApplicationFailure {
        stage: PreExecStage::SandboxApply,
        errno: libc::EPERM,
    };
    assert_eq!(
        held.observe_prepare(said, &mut out),
        Err(PrepareError::ChildFailed {
            exit: SandboxExit::new(outcome, ActivationObservation::NotActivated, child())
        })
    );
    assert_eq!(held.state(), LifecycleState::Failed);
    assert_eq!(
        emitted(&out),
        vec![
            &LifecycleEventKind::ChildExited { outcome },
            &LifecycleEventKind::StateChanged {
                from: LifecycleState::Preparing,
                to: LifecycleState::Failed
            },
        ]
    );
    // The child is still there to be ended.
    let mut out = Vec::new();
    assert_eq!(held.left_behind(&mut out), Some(CHILD));
    assert_eq!(
        out,
        vec![
            Effect::WriteAbort,
            Effect::CloseGate,
            Effect::Emit(LifecycleEventKind::GateAborted)
        ]
    );
    held.forget();
    assert_eq!(held.abort_message(), None);
}

#[test]
fn a_ready_record_outside_a_preparation_is_refused() {
    let (mut held, _handle) = held_child();
    let mut out = Vec::new();
    assert_eq!(
        held.observe_prepare(Ok(Some((TAG_GATE_READY, 0))), &mut out),
        Err(PrepareError::Transition(TransitionError {
            from: LifecycleState::Prepared,
            op: LifecycleOp::PrepareSucceeded
        }))
    );
    assert_eq!(held.state(), LifecycleState::Prepared);
}

#[test]
fn a_listener_needs_a_policy_to_answer_from() {
    assert_eq!(listener_in(Ok(Some((TAG_NOTIFY_FD, 9)))), Some(9));
    assert_eq!(listener_in(Ok(Some((TAG_GATE_READY, 9)))), None);
    assert_eq!(listener_in(Ok(None)), None);

    let open = sealed(SandboxPlan::new("/bin/echo"));
    let (mut held, _handle) =
        PreparedSandbox::prepare(&open, SESSION, child(), secrets(), TOKEN, Nanos(0));
    let mut out = Vec::new();
    match held.adopt_notify_listener(9, Ok(()), &mut out) {
        Err(PrepareError::SandboxSpec { reason }) => {
            assert!(reason.contains("no proxy-only policy"), "{reason}");
        }
        other => panic!("a listener nobody can answer must be refused: {other:?}"),
    }
    assert_eq!(
        held.exit().map(SandboxExit::outcome),
        Some(ExitOutcome::SandboxApplicationFailure {
            stage: PreExecStage::NetworkFilter,
            errno: libc::EINVAL
        })
    );

    let proxied = sealed(
        SandboxPlan::new("/bin/echo").capabilities(CapabilitySet::new().proxy_only(8080)),
    );
    let (mut held, _handle) =
        PreparedSandbox::prepare(&proxied, SESSION, child(), secrets(), TOKEN, Nanos(0));
    assert_eq!(held.proxy_mediation().map(|policy| policy.proxy_port), Some(8080));
    let mut out = Vec::new();
    assert_eq!(held.adopt_notify_listener(9, Ok(()), &mut out), Ok(()));
    assert!(out.is_empty());
    assert_eq!(
        held.adopt_notify_listener(9, Err((libc::EPERM, "denied".to_string())), &mut out),
        Err(PrepareError::SandboxSpec {
            reason: "could not take the child's seccomp-notify listener (fd 9 in pid 4242): denied"
                .to_string()
        })
    );
    assert_eq!(held.state(), LifecycleState::Failed);
}

#[test]
fn a_release_that_never_landed_ran_nothing() {
    let (mut held, handle) = held_child();
    let mut out = Vec::new();
    assert_eq!(
        held.activate(&handle, Nanos(2_000), &mut out),
        Activation::Release
    );
    let failing = match held.released(Err(libc::EPIPE), &mut out) {
        Err(failing) => failing,
        Ok(()) => panic!("a failed write must fail the activation"),
    };
    assert_eq!(
        failing,
        Failing {
            recorded: None,
            activation: ActivationObservation::NotActivated,
            error: ActivationError::SupervisorFailed {
                stage: SupervisorStage::Release,
                errno: libc::EPIPE
            },
        }
    );
    assert!(!out.contains(&Effect::WriteAbort), "the claim is spent");
    let mut out = Vec::new();
    assert_eq!(
        held.finish_failed(failing, Ok(ExitOutcome::Signaled { signal: 9 }), &mut out),
        failing.error
    );
    assert_eq!(held.state(), LifecycleState::Failed);
    assert_eq!(
        held.exit().map(SandboxExit::outcome),
        Some(ExitOutcome::Signaled { signal: 9 })
    );
    assert_eq!(
        held.exit().map(SandboxExit::activation),
        Some(ActivationObservation::NotActivated)
    );
    assert!(!held.owns_child());
}

#[test]
fn a_child_that_failed_after_the_release_says_where() {
    let (mut held, handle) = held_child();
    let mut out = Vec::new();
    held.activate(&handle, Nanos(2_000), &mut out);
    assert_eq!(held.released(Ok(()), &mut out), Ok(()));
    let said = Ok(Some((PreExecStage::Exec.as_tag(), libc::ENOENT)));
    let failing = match held.observe_activation(said, &mut out) {
        Handoff::Failed(failing) => failing,
        _ => panic!("a record must fail the activation"),
    };
    assert_eq!(
        failing.error,
        ActivationError::PreExecFailed {
            stage: PreExecStage::Exec,
            errno: libc::ENOENT
        }
    );
    // What the child said outlasts a reap that failed.
    let lost = ReapError {
        pid: CHILD,
        errno: libc::ECHILD,
    };
    held.finish_failed(failing, Err(lost), &mut out);
    assert_eq!(
        held.exit().map(SandboxExit::outcome),
        Some(ExitOutcome::PreExecFailure {
            stage: PreExecStage::Exec,
            errno: libc::ENOENT
        })
    );
    assert!(held.owns_child());
}

#[test]
fn an_unreadable_status_leaves_the_activation_open() {
    let (mut held, handle) = held_child();
    let mut out = Vec::new();
    held.activate(&handle, Nanos(2_000), &mut out);
    assert_eq!(held.released(Ok(()), &mut out), Ok(()));
    let failing = match held.observe_activation(Err(libc::EIO), &mut out) {
        Handoff::Failed(failing) => failing,
        _ => panic!("a failed read must fail the activation"),
    };
    assert_eq!(
        failing.activation,
        ActivationObservation::ExecOrKilledPreExec
    );
    let lost = ReapError {
        pid: CHILD,
        errno: libc::ECHILD,
    };
    held.finish_failed(failing, Err(lost), &mut out);
    assert_eq!(
        held.exit().map(SandboxExit::outcome),
        Some(ExitOutcome::SupervisorFailure {
            stage: SupervisorStage::Reap,
            errno: libc::ECHILD
        })
    );
    let (mut idle, _handle) = held_child();
    assert!(matches!(
        idle.observe_activation(Ok(None), &mut out),
        Handoff::Refused(ActivationError::GateUnavailable {
            state: LifecycleState::Prepared
        })
    ));
}

#[test]
fn a_stop_before_activation_is_the_abort_it_was() {
    let (mut held, handle) = held_child();
    let mut out = Vec::new();
    assert_eq!(held.stop_before_activation(&mut out), Ok(()));
    assert_eq!(
        emitted(&out),
        vec![
            &LifecycleEventKind::StopRequested,
            &LifecycleEventKind::StateChanged {
                from: LifecycleState::Prepared,
                to: LifecycleState::Stopping
            },
            &LifecycleEventKind::GateAborted,
        ]
    );
    let lost = ReapError {
        pid: CHILD,
        errno: libc::ECHILD,
    };
    assert_eq!(
        held.stop_observed(Ok(None), Err(lost), &mut out),
        Err(StopError::Reap(lost))
    );
    let exit = match held.stop_observed(
        Ok(Some((PreExecStage::GateAborted.as_tag(), 0))),
        Ok(ExitOutcome::Exited { code: 1 }),
        &mut out,
    ) {
        Ok(exit) => exit,
        Err(err) => panic!("the stop must be observed: {}", err.to_text()),
    };
    assert_eq!(
        exit.outcome(),
        ExitOutcome::PreExecFailure {
            stage: PreExecStage::GateAborted,
            errno: 0
        }
    );
    assert_eq!(exit.activation(), ActivationObservation::NotActivated);
    assert_eq!(held.state(), LifecycleState::Stopped);
    assert_eq!(
        held.stop_before_activation(&mut out),
        Err(StopError::NotStoppable {
            state: LifecycleState::Stopped
        })
    );
    assert_eq!(
        held.stop_observed(Ok(None), Ok(ExitOutcome::Exited { code: 1 }), &mut out),
        Err(StopError::NotStoppable {
            state: LifecycleState::Stopped
        })
    );
    assert_eq!(
        held.activate(&handle, Nanos(2_000), &mut out),
        Activation::Refused(ActivationError::AlreadyStopped)
    );
}

#[test]
fn a_prepared_run_is_verified_only_after_its_end() {
    let (mut held, _handle) = held_child();
    let boot = Some("this-boot".to_string());
    let answers = Answers {
        boot_id: boot.clone(),
        probe: Ok(Probe::Absent),
        start_time: None,
    };
    let mut out = Vec::new();
    assert_eq!(
        held.verify_cleanup(&answers, &mut out),
        Err(CleanupError {
            state: LifecycleState::Prepared
        })
    );
    assert_eq!(
        held.cleanup_question(&boot),
        Err(CleanupError {
            state: LifecycleState::Prepared
        })
    );
    assert_eq!(held.stop_before_activation(&mut out), Ok(()));
    assert!(held
        .stop_observed(Ok(None), Ok(ExitOutcome::Signaled { signal: 9 }), &mut out)
        .is_ok());
    assert_eq!(held.cleanup_question(&boot), Ok(Question::Group(CHILD)));
    let verdict = CleanupVerification::ConfirmedAbsent {
        basis: AbsenceBasis::ReapedAndGroupEmpty { pgid: CHILD },
    };
    let mut out = Vec::new();
    assert_eq!(held.verify_cleanup(&answers, &mut out), Ok(verdict));
    assert_eq!(held.state(), LifecycleState::CleanupVerified);
    assert_eq!(
        emitted(&out),
        vec![
            &LifecycleEventKind::CleanupVerdict { verdict },
            &LifecycleEventKind::StateChanged {
                from: LifecycleState::Stopped,
                to: LifecycleState::CleanupVerified
            },
        ]
    );
    assert_ne!(DeathObservation::Reaped, DeathObservation::NotReaped);
}

fn hosts(mode: FsMode) -> ProbeRequest {
    ProbeRequest {
        id: ProbeId::new("hosts"),
        op: ProbeOp::OpenPath {
            path: PathBytes::from_text("/etc/hosts"),
            mode,
        },
    }
}

#[test]
fn a_probe_reaches_only_a_held_child() {
    let (mut held, handle) = held_child();
    let now = Timestamp(7);
    assert_eq!(
        held.probe_enforcement(&hosts(FsMode::ReadContents), Platform::Other, now),
        Err(ProbeError::ChildUnreachable {
            errno: errno::not_implemented(Platform::Other)
        })
    );
    match held.probe_enforcement(&hosts(FsMode::ReadMetadata), Platform::Linux, now) {
        Ok(ProbeStart::Settled(seen)) => {
            assert_eq!(
                seen.outcome,
                ProbeOutcome::Indeterminate {
                    reason: ProbeIndeterminate::MechanismCannotExpress {
                        mechanism: EnforcementMechanism::Landlock
                    }
                }
            );
            assert_eq!(seen.observed_at, now);
        }
        other => panic!("stat must be settled without the child: {other:?}"),
    }
    let unsayable = ProbeRequest {
        id: ProbeId::new("nul"),
        op: ProbeOp::OpenPath {
            path: PathBytes::from_bytes(b"/etc/ho\0sts".to_vec()),
            mode: FsMode::ReadContents,
        },
    };
    match held.probe_enforcement(&unsayable, Platform::Linux, now) {
        Ok(ProbeStart::Settled(seen)) => assert_eq!(
            seen.outcome,
            ProbeOutcome::Indeterminate {
                reason: ProbeIndeterminate::ProbeCouldNotRun {
                    errno: libc::EINVAL
                }
            }
        ),
        other => panic!("a path that cannot be sent must be settled: {other:?}"),
    }
    let request = hosts(FsMode::ReadContents);
    let expected = match encode_request(&request.op, Platform::Linux) {
        Ok(wire) => wire,
        Err(errno) => panic!("the request must encode: {errno}"),
    };
    assert_eq!(
        held.probe_enforcement(&request, Platform::Linux, now),
        Ok(ProbeStart::Ask {
            wire: expected,
            mechanism: EnforcementMechanism::Landlock
        })
    );
    assert_eq!(held.probe_message(), Some(&PROBE));

    assert!(activated(&mut held, &handle).is_ok());
    assert_eq!(
        held.probe_enforcement(&request, Platform::Linux, now),
        Err(ProbeError::NotLegalInState {
            state: LifecycleState::Running
        })
    );
    assert_eq!(held.probe_message(), None);
}

#[test]
fn a_probe_answer_is_the_childs_own() {
    let request = hosts(FsMode::ReadContents);
    let mechanism = EnforcementMechanism::Landlock;
    let now = Timestamp(9);
    let answer = |said| probe_answered(&request, mechanism, Ok(()), said, now);
    for (tag, errno, outcome) in [
        (TAG_PROBE_PERMITTED, 0, ProbeOutcome::Permitted),
        (
            TAG_PROBE_REFUSED,
            libc::EACCES,
            ProbeOutcome::Refused {
                errno: libc::EACCES,
            },
        ),
        (
            TAG_PROBE_COULD_NOT_RUN,
            libc::ENOENT,
            ProbeOutcome::Indeterminate {
                reason: ProbeIndeterminate::ProbeCouldNotRun {
                    errno: libc::ENOENT,
                },
            },
        ),
    ] {
        match answer(Ok(Some((tag, errno)))) {
            Ok(seen) => {
                assert_eq!(seen.outcome, outcome);
                assert!(!seen.denial_observed);
            }
            Err(err) => panic!("a reply must be an answer: {}", err.to_text()),
        }
    }
    assert_eq!(
        answer(Ok(Some((PreExecStage::GateClosed.as_tag(), 4)))),
        Err(ProbeError::ChildUnreachable { errno: 4 })
    );
    assert_eq!(
        answer(Ok(None)),
        Err(ProbeError::ChildUnreachable { errno: 0 })
    );
    assert_eq!(
        answer(Err(libc::EIO)),
        Err(ProbeError::ChildUnreachable { errno: libc::EIO })
    );
    assert_eq!(
        probe_answered(&request, mechanism, Err(libc::EPIPE), Ok(None), now),
        Err(ProbeError::ChildUnreachable { errno: libc::EPIPE })
    );
}

#[test]
fn an_adopted_child_is_held_like_any_other() {
    let adopted = AdoptedChild {
        session_id: SESSION,
        generation: 3,
        identity: child(),
        process_group: CHILD,
        secrets: secrets(),
        expiry: Some(Nanos(10)),
        proxy_policy: None,
    };
    let (held, handle) = PreparedSandbox::adopt(adopted, TOKEN, Nanos(5));
    assert_eq!(held.state(), LifecycleState::Preparing);
    assert_eq!(held.session_id(), SESSION);
    assert_eq!(held.generation(), 3);
    assert_eq!(held.identity(), &child());
    assert_eq!(held.process_group(), CHILD);
    assert_eq!(held.expiry(), Some(Nanos(10)));
    assert_eq!(handle.generation(), 3);
    assert_eq!(handle.token(), &TOKEN);
}

#[test]
fn tokens_are_drawn_fresh() {
    assert_eq!(token_from(Ok(TOKEN)), Ok(TOKEN));
    assert_eq!(
        token_from(Err(getrandom::Error::UNSUPPORTED)),
        Err(PrepareError::TokenGeneration)
    );
    match (draw_token(), draw_token()) {
        (Ok(one), Ok(two)) => assert_ne!(one, two),
        _ => panic!("the system must give randomness"),
    }
    match (draw_secrets(), draw_secrets()) {
        (Ok(one), Ok(two)) => assert_ne!(one.abort(), two.abort()),
        _ => panic!("the system must give randomness"),
    }
}

#[test]
fn records_round_trip_and_a_cut_one_names_no_stage() {
    for errno in [0, 1, -1, 0x1234_5678, i32::MIN, i32::MAX] {
        let record = encode_record(0x16, errno);
        assert_eq!(record[0], 0x16);
        assert_eq!(&record[1..], &errno.to_le_bytes());
        assert_eq!(read_status_record(&record), Some((0x16, errno)));
    }
    assert_eq!(read_status_record(&[]), None);
    assert_eq!(
        read_status_record(&[0x16, 1, 2]),
        Some((PreExecStage::Unknown.as_tag(), 0))
    );
    assert_eq!(observe_gate_ending(Ok(None)), None);
    assert_eq!(observe_gate_ending(Err(libc::EIO)), None);
}

#[test]
fn a_policy_is_put_in_force_part_by_part() {
    let parts = PlatformSandbox {
        network_filter: StaticNetworkFilter::TcpOnly,
        proxy_notify: Some(false),
    };
    assert_eq!(parts.first_part(), SandboxPart::Ruleset);
    assert_eq!(
        parts.after_part(SandboxPart::Ruleset, Ok(0)),
        Applying::Next(SandboxPart::TcpOnly)
    );
    assert_eq!(
        parts.after_part(SandboxPart::TcpOnly, Ok(0)),
        Applying::Next(SandboxPart::Listener)
    );
    assert_eq!(
        parts.after_part(SandboxPart::Listener, Ok(11)),
        Applying::Done { listener: Some(11) }
    );
    assert_eq!(
        parts.after_part(SandboxPart::Ruleset, Err(1)),
        Applying::Failed {
            stage: PreExecStage::SandboxApply,
            errno: 1
        }
    );
    assert_eq!(
        parts.after_part(SandboxPart::Listener, Err(1)),
        Applying::Failed {
            stage: PreExecStage::NetworkFilter,
            errno: 1
        }
    );
    let open = PlatformSandbox {
        network_filter: StaticNetworkFilter::Open,
        proxy_notify: None,
    };
    assert_eq!(
        open.after_part(SandboxPart::Ruleset, Ok(0)),
        Applying::Done { listener: None }
    );
}

#[test]
fn prepare_errors_say_what_was_refused() {
    assert_eq!(
        channel_error(Some(24)).to_text(),
        "lifecycle channel setup failed: errno 24"
    );
    assert_eq!(channel_error(None), PrepareError::ChannelSetup { errno: 0 });
    assert_eq!(
        PrepareError::ProgramUnusable {
            program: PathBytes::from_text("/x"),
            errno: 2
        }
        .to_text(),
        "plan program /x is unusable: errno 2"
    );
    assert_eq!(
        PrepareError::ProgramNotAFile {
            program: PathBytes::from_bytes(vec![b'/', 0xFF])
        }
        .to_text(),
        "plan program /\u{FFFD} is not a regular file"
    );
    assert_eq!(
        PrepareError::SupervisorUnresponsive {
            image: PathBytes::from_text("/bin/me"),
            waited: Nanos(1_500_000_000)
        }
        .to_text(),
        "the re-executed supervisor /bin/me did not report readiness within 1.5s; the usual cause \
         is that nono::lifecycle::supervisor_entry() is not called at the top of this binary's \
         main()"
    );
    assert_eq!(
        PrepareError::ControlSocketPathTooLong {
            path: PathBytes::from_text("/s"),
            needed: 120,
            limit: 108
        }
        .to_text(),
        "control socket path for the store /s needs 120 bytes (limit 108)"
    );
    assert_eq!(
        PrepareError::Transition(TransitionError {
            from: LifecycleState::Planning,
            op: LifecycleOp::BeginActivate
        })
        .to_text(),
        "begin_activate is not legal in state planning"
    );
    for (error, text) in [
        (
            PrepareError::DetachedNotRequested,
            "SessionStore::prepare_detached needs a plan built with .detached(true)",
        ),
        (
            PrepareError::TokenGeneration,
            "activation token could not be generated",
        ),
        (PrepareError::Fork { errno: 11 }, "fork failed: errno 11"),
        (
            PrepareError::Terminal {
                stage: "grantpt",
                errno: 5,
            },
            "pseudo-terminal setup failed at stage grantpt: errno 5",
        ),
        (
            PrepareError::SupervisorHandshake {
                stage: "read",
                errno: 0,
            },
            "the supervisor handshake failed at stage read: errno 0",
        ),
        (
            PrepareError::SupervisorImageUnreadable { errno: 2 },
            "this executable could not be resolved for re-execution: errno 2",
        ),
        (
            PrepareError::ControlSocket {
                path: PathBytes::from_text("/s/x.sock"),
                errno: 98,
            },
            "control socket /s/x.sock could not be created: errno 98",
        ),
    ] {
        assert_eq!(error.to_text(), text);
    }
}

/// A probe of a held child that answers with `reply`.
fn probed(held: &PreparedSandbox, id: &str, op: ProbeOp, reply: (u8, i32)) -> ProbeOutcome {
    let request = ProbeRequest {
        id: ProbeId::new(id),
        op,
    };
    let seen = match held.probe_enforcement(&request, Platform::Linux, Timestamp(1)) {
        Ok(ProbeStart::Settled(seen)) => seen,
        Ok(ProbeStart::Ask { mechanism, .. }) => {
            match probe_answered(&request, mechanism, Ok(()), Ok(Some(reply)), Timestamp(2)) {
                Ok(seen) => seen,
                Err(err) => panic!("the held child must answer {id}: {}", err.to_text()),
            }
        }
        Err(err) => panic!("the held child must answer {id}: {}", err.to_text()),
    };
    assert_eq!(seen.id.as_str(), id);
    assert!(
        !seen.denial_observed,
        "an error number is not a captured denial record"
    );
    seen.outcome
}

fn open_path(path: &str, mode: FsMode) -> ProbeOp {
    ProbeOp::OpenPath {
        path: PathBytes::from_text(path),
        mode,
    }
}

fn execute(program: &str) -> ProbeOp {
    ProbeOp::Execute {
        program: PathBytes::from_text(program),
    }
}

#[test]
fn a_refusal_is_never_reported_as_an_observed_denial() {
    let (held, _handle) = held_child();
    let refused = probed(
        &held,
        "denial",
        open_path("/ungranted.txt", FsMode::Write),
        (TAG_PROBE_REFUSED, libc::EACCES),
    );
    assert_eq!(
        refused,
        ProbeOutcome::Refused {
            errno: libc::EACCES
        }
    );
    let permitted = probed(
        &held,
        "denial-permitted",
        open_path("/", FsMode::ReadDir),
        (TAG_PROBE_PERMITTED, 0),
    );
    assert_eq!(permitted, ProbeOutcome::Permitted);
    let indeterminate = probed(
        &held,
        "denial-indeterminate",
        execute("/bin/echo"),
        (TAG_PROBE_PERMITTED, 0),
    );
    assert!(matches!(indeterminate, ProbeOutcome::Indeterminate { .. }));
}

#[test]
fn exec_has_no_in_scope_probe_and_the_child_survives_being_asked() {
    let (held, _handle) = held_child();
    assert_eq!(
        probed(&held, "exec", execute("/bin/echo"), (TAG_PROBE_PERMITTED, 0)),
        ProbeOutcome::Indeterminate {
            reason: ProbeIndeterminate::PlatformHasNoInScopeProbe
        }
    );
    assert_eq!(held.state(), LifecycleState::Prepared);
    assert_eq!(
        probed(
            &held,
            "after-exec",
            open_path("/", FsMode::ReadDir),
            (TAG_PROBE_PERMITTED, 0)
        ),
        ProbeOutcome::Permitted
    );
}

#[test]
fn a_probe_is_refused_once_there_is_no_held_child_to_ask() {
    let (mut held, _handle) = held_child();
    let mut out = Vec::new();
    assert_eq!(held.stop_before_activation(&mut out), Ok(()));
    if let Err(err) = held.stop_observed(
        Ok(Some((PreExecStage::GateAborted.as_tag(), 0))),
        Ok(ExitOutcome::Exited { code: 1 }),
        &mut out,
    ) {
        panic!("the stop must be observed: {}", err.to_text());
    }
    let refused = held.probe_enforcement(
        &ProbeRequest {
            id: ProbeId::new("too-late"),
            op: open_path("/", FsMode::ReadDir),
        },
        Platform::Linux,
        Timestamp(3),
    );
    assert_eq!(
        refused,
        Err(ProbeError::NotLegalInState {
            state: LifecycleState::Stopped
        }),
        "a probe of the installed enforcement needs the installed child"
    );
}

#[test]
fn a_session_that_cannot_be_named_is_a_refusal() {
    let mut ids = SessionIds::new();
    let first = draw_session(&mut ids);
    let second = draw_session(&mut ids);
    match (first, second) {
        (Ok(first), Ok(second)) => assert!(first.0 < second.0),
        other => panic!("a session must be nameable here: {other:?}"),
    }
    assert_eq!(session_from(Ok(SESSION)), Ok(SESSION));
    for err in [
        SessionIdError::ClockBeforeEpoch,
        SessionIdError::NoRandomness,
        SessionIdError::Exhausted,
    ] {
        assert_eq!(session_from(Err(err)), Err(PrepareError::TokenGeneration));
    }
}

#[test]
fn a_stop_that_could_not_kill_by_cgroup_says_so() {
    let (mut held, handle) = held_child();
    let run = match activated(&mut held, &handle) {
        Ok(run) => run,
        Err(err) => panic!("the child must be released: {}", err.to_text()),
    };
    let mut out = Vec::new();
    run.stop_contained(Some(Ok(())), Platform::Linux, &mut out);
    run.stop_contained(None, Platform::MacOs, &mut out);
    assert!(out.is_empty());
    let failed = || CgroupError::NoKillFile {
        path: PathBytes::from_text("/sys/fs/cgroup/nono.x"),
    };
    run.stop_contained(Some(Err(failed())), Platform::Linux, &mut out);
    run.stop_contained(None, Platform::Linux, &mut out);
    assert_eq!(
        out,
        [
            Effect::Emit(LifecycleEventKind::StopCgroupFailed {
                detail: failed().to_text()
            }),
            Effect::Emit(LifecycleEventKind::StopCgroupFailed {
                detail: "the run was not placed in a cgroup".to_string()
            }),
        ]
    );
}

#[test]
fn only_what_releases_the_child_is_admitted() {
    let (mut held, handle) = held_child();
    let admits = |held: &PreparedSandbox, handle: &ActivationHandle| {
        held.admits(handle, Nanos(2_000))
    };
    assert!(admits(&held, &handle));
    for other in [
        ActivationHandle::new(SessionId(1), FIRST_GENERATION, TOKEN),
        ActivationHandle::new(SESSION, FIRST_GENERATION + 1, TOKEN),
        ActivationHandle::new(SESSION, FIRST_GENERATION, [0; ACTIVATION_TOKEN_BYTES]),
    ] {
        assert!(!admits(&held, &other));
    }
    assert!(activated(&mut held, &handle).is_ok());
    assert!(!admits(&held, &handle));
    let (held, handle) = expiring();
    assert!(admits(&held, &handle));
    assert!(!held.admits(&handle, Nanos::from_secs(60)));
}
