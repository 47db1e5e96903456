use nono::capability::{CapabilitySet, NetworkMode};
use nono::lifecycle::events::EventEmitter;
use nono::lifecycle::plan::{Ceiling32, Ceiling64, FIRST_GENERATION};
use nono::lifecycle::{
    EventSink, GateConfig, LifecycleEvent, LifecycleEventKind, LifecycleState, PlanError,
    ResourceLimits, SandboxPlan, SessionId, SessionMode, MAX_PLAN_METADATA_BYTES,
};
use nono::path::PathBytes;
use nono::time::Nanos;
use std::sync::{Arc, Mutex};

#[derive(Default)]
struct CountingSink {
    events: Mutex<Vec<LifecycleEvent>>,
}

impl CountingSink {
    fn count(&self) -> usize {
        self.events.lock().map(|guard| guard.len()).unwrap_or(0)
    }
}

impl EventSink for CountingSink {
    fn emit(&self, event: &LifecycleEvent) {
        if let Ok(mut guard) = self.events.lock() {
            guard.push(event.clone());
        }
    }
}

fn minimal() -> SandboxPlan {
    SandboxPlan::new("/bin/echo")
}

#[test]
fn minimal_plan_validates() -> Result<(), PlanError> {
    let validated = minimal().validate()?;
    assert_eq!(validated.program(), "/bin/echo");
    assert!(validated.args().is_empty());
    Ok(())
}

#[test]
fn defaults_are_least_privilege() -> Result<(), PlanError> {
    let validated = minimal().validate()?;
    assert!(
        validated.env().is_empty(),
        "no environment may be inherited implicitly"
    );
    assert_eq!(validated.session_mode(), SessionMode::Headless);
    assert!(!validated.is_detached());
    assert!(validated.metadata().is_empty());
    assert!(validated.working_dir().is_none());
    assert!(validated.gate().activation_expiry.is_none());
    assert_eq!(validated.resource_limits(), ResourceLimits::default());
    assert!(validated.event_sink().is_none());
    Ok(())
}

#[test]
fn full_plan_round_trips_through_validation() -> Result<(), PlanError> {
    let limits = ResourceLimits {
        max_memory_bytes: Ceiling64::new(1024 * 1024),
        max_pids: Ceiling32::new(16),
        cpu_time_secs: Ceiling64::new(60),
    };
    let validated = SandboxPlan::new("/usr/bin/env")
        .arg("--chdir")
        .args(&["one", "two"])
        .working_dir(PathBytes::from_text("/tmp"))
        .env("PATH", "/usr/bin")
        .env("LANG", "C")
        .capabilities(CapabilitySet::new().block_network())
        .resource_limits(limits)
        .session_mode(SessionMode::Interactive)
        .detached(true)
        .gate(GateConfig {
            activation_expiry: Some(Nanos::from_secs(5)),
        })
        .metadata(vec![1, 2, 3])
        .validate()?;

    assert_eq!(validated.program(), "/usr/bin/env");
    assert_eq!(validated.args(), ["--chdir", "one", "two"]);
    assert_eq!(validated.working_dir(), Some(&PathBytes::from_text("/tmp")));
    assert_eq!(
        validated.env(),
        [
            ("PATH".to_string(), "/usr/bin".to_string()),
            ("LANG".to_string(), "C".to_string()),
        ]
    );
    assert_eq!(
        validated.capabilities().network_mode(),
        &NetworkMode::Blocked
    );
    assert_eq!(validated.resource_limits(), limits);
    assert_eq!(validated.session_mode(), SessionMode::Interactive);
    assert!(validated.is_detached());
    assert_eq!(
        validated.gate().activation_expiry,
        Some(Nanos::from_secs(5))
    );
    assert_eq!(validated.metadata(), [1, 2, 3]);
    Ok(())
}

#[test]
fn network_mode_is_stored_on_the_capability_set() -> Result<(), PlanError> {
    let validated = minimal()
        .network_mode(NetworkMode::ProxyOnly {
            port: 8080,
            bind_ports: vec![],
        })
        .validate()?;
    assert_eq!(
        validated.capabilities().network_mode(),
        &NetworkMode::ProxyOnly {
            port: 8080,
            bind_ports: vec![],
        }
    );
    Ok(())
}

#[test]
fn later_capability_set_replaces_the_network_mode_builder() -> Result<(), PlanError> {
    // Single source of truth: the capability set holds the network mode,
    // so a later `capabilities()` call wins over an earlier one.
    let validated = minimal()
        .network_mode(NetworkMode::Blocked)
        .capabilities(CapabilitySet::new())
        .validate()?;
    assert_eq!(
        validated.capabilities().network_mode(),
        &NetworkMode::AllowAll
    );
    Ok(())
}

#[test]
fn empty_program_is_rejected() {
    assert_eq!(
        SandboxPlan::new("").validate().err(),
        Some(PlanError::EmptyProgram)
    );
}

#[test]
fn program_with_interior_nul_is_rejected() {
    assert_eq!(
        SandboxPlan::new("/bin/ec\0ho").validate().err(),
        Some(PlanError::ProgramNul)
    );
}

#[test]
fn arg_with_interior_nul_is_rejected() {
    assert_eq!(
        minimal().arg("ok").arg("ba\0d").validate().err(),
        Some(PlanError::ArgNul { index: 1 })
    );
}

#[test]
fn relative_working_dir_is_rejected() {
    assert_eq!(
        minimal().working_dir(PathBytes::from_text("relative/dir")).validate().err(),
        Some(PlanError::RelativeWorkingDir {
            path: PathBytes::from_text("relative/dir")
        })
    );
}

#[test]
fn validation_does_not_touch_the_filesystem() -> Result<(), PlanError> {
    // Existence and canonicalization are prepare()'s job; validate() is pure.
    let validated = minimal()
        .working_dir(PathBytes::from_text("/nonexistent-nono-lifecycle-dir/deeper"))
        .validate()?;
    assert_eq!(
        validated.working_dir(),
        Some(&PathBytes::from_text("/nonexistent-nono-lifecycle-dir/deeper"))
    );
    Ok(())
}

#[test]
fn empty_env_key_is_rejected() {
    assert_eq!(
        minimal().env("", "value").validate().err(),
        Some(PlanError::EmptyEnvKey { index: 0 })
    );
}

#[test]
fn env_key_with_interior_nul_is_rejected() {
    assert_eq!(
        minimal()
            .env("PATH", "/usr/bin")
            .env("BA\0D", "x")
            .validate()
            .err(),
        Some(PlanError::EnvKeyNul { index: 1 })
    );
}

#[test]
fn env_key_containing_equals_is_rejected() {
    assert_eq!(
        minimal().env("A=B", "x").validate().err(),
        Some(PlanError::EnvKeyEquals { index: 0 })
    );
}

#[test]
fn a_repeated_env_key_is_rejected_not_silently_resolved() {
    // `execve` takes the vector verbatim and the winner is
    // platform-dependent, so the only safe answer is to refuse.
    assert_eq!(
        minimal()
            .env("PATH", "/usr/bin")
            .env("LANG", "C")
            .env("PATH", "/attacker/bin")
            .validate()
            .err(),
        Some(PlanError::DuplicateEnvKey {
            key: "PATH".to_string()
        })
    );
}

#[test]
fn distinct_env_keys_are_kept_in_insertion_order() -> Result<(), PlanError> {
    let validated = minimal().env("B", "2").env("A", "1").validate()?;
    assert_eq!(
        validated.env(),
        [
            ("B".to_string(), "2".to_string()),
            ("A".to_string(), "1".to_string()),
        ]
    );
    Ok(())
}

#[test]
fn env_value_with_interior_nul_is_rejected() {
    assert_eq!(
        minimal().env("PATH", "/usr\0/bin").validate().err(),
        Some(PlanError::EnvValueNul {
            key: "PATH".to_string()
        })
    );
}

#[test]
fn metadata_at_the_limit_is_accepted() -> Result<(), PlanError> {
    let validated = minimal()
        .metadata(vec![0_u8; MAX_PLAN_METADATA_BYTES])
        .validate()?;
    assert_eq!(validated.metadata().len(), MAX_PLAN_METADATA_BYTES);
    Ok(())
}

#[test]
fn metadata_over_the_limit_is_rejected() {
    let size = MAX_PLAN_METADATA_BYTES + 1;
    assert_eq!(
        minimal().metadata(vec![0_u8; size]).validate().err(),
        Some(PlanError::MetadataTooLarge {
            size,
            max: MAX_PLAN_METADATA_BYTES
        })
    );
}

#[test]
fn zero_activation_expiry_is_rejected() {
    assert_eq!(
        minimal()
            .gate(GateConfig {
                activation_expiry: Some(Nanos(0))
            })
            .validate()
            .err(),
        Some(PlanError::ZeroActivationExpiry)
    );
}

#[test]
fn event_sink_survives_validation_and_receives_events() -> Result<(), PlanError> {
    let sink = Arc::new(CountingSink::default());
    let validated = minimal()
        .event_sink(sink.clone() as Arc<dyn EventSink>)
        .validate()?;

    let emitted = match validated.event_sink() {
        Some(emitted) => emitted,
        None => panic!("event sink must survive validation"),
    };
    // Emitted through the run's own emitter, which is the only thing that
    // builds an event: the envelope's session, sequence, and clock are not
    // a caller's to invent.
    EventEmitter::new(Some(Arc::clone(emitted)), SessionId(0), 1).emit(
        LifecycleEventKind::StateChanged {
            from: LifecycleState::Planning,
            to: LifecycleState::Preparing,
        },
    );
    assert_eq!(sink.count(), 1);
    Ok(())
}

#[test]
fn debug_output_does_not_leak_env_values_or_metadata() -> Result<(), PlanError> {
    let plan = minimal()
        .env("TOKEN", "super-secret-value")
        .metadata(b"opaque-secret-blob".to_vec());
    let rendered = plan.to_text();
    assert!(rendered.contains("TOKEN"), "{rendered}");
    assert!(!rendered.contains("super-secret-value"), "{rendered}");
    assert!(!rendered.contains("opaque-secret-blob"), "{rendered}");

    let rendered = plan.validate()?.to_text();
    assert!(!rendered.contains("super-secret-value"), "{rendered}");
    assert!(!rendered.contains("opaque-secret-blob"), "{rendered}");
    Ok(())
}

#[test]
fn a_plan_renders_everything_but_its_values() -> Result<(), PlanError> {
    assert_eq!(
        minimal().to_text(),
        "SandboxPlan { program: \"/bin/echo\", args: 0, working_dir: None, cgroup_parent: None, \
         workload_uid: None, env_keys: [], capabilities: CapabilitySet { fs_modes: [], \
         network_mode: AllowAll, tcp_connect_ports: [], localhost_port_ranges: [] }, \
         resource_limits: ResourceLimits { max_memory_bytes: None, max_pids: None, \
         cpu_time_secs: None }, session_mode: Headless, detached: false, \
         gate: GateConfig { activation_expiry: None }, metadata_bytes: 0, event_sink: false }"
    );
    let full = minimal()
        .arg("one")
        .working_dir(PathBytes::from_text("/tmp"))
        .cgroup_parent(PathBytes::from_text("/sys/fs/cgroup"))
        .workload_uid(12)
        .env("A", "1")
        .env("B", "2")
        .network_mode(NetworkMode::Blocked)
        .resource_limits(ResourceLimits {
            max_memory_bytes: Ceiling64::new(1024),
            max_pids: Ceiling32::new(16),
            cpu_time_secs: None,
        })
        .session_mode(SessionMode::Interactive)
        .detached(true)
        .gate(GateConfig {
            activation_expiry: Some(Nanos::from_secs(5)),
        })
        .metadata(vec![0, 1, 2])
        .event_sink(Arc::new(CountingSink::default()));
    let shown = "SandboxPlan { program: \"/bin/echo\", args: 1, working_dir: Some(\"/tmp\"), \
         cgroup_parent: Some(\"/sys/fs/cgroup\"), workload_uid: Some(12), \
         env_keys: [\"A\", \"B\"], capabilities: CapabilitySet { fs_modes: [], \
         network_mode: Blocked, tcp_connect_ports: [], localhost_port_ranges: [] }, \
         resource_limits: ResourceLimits { max_memory_bytes: Some(1024), max_pids: Some(16), \
         cpu_time_secs: None }, session_mode: Interactive, detached: true, \
         gate: GateConfig { activation_expiry: Some(5s) }, metadata_bytes: 3, event_sink: true }";
    assert_eq!(full.to_text(), shown);
    assert_eq!(full.validate()?.to_text(), format!("ValidatedPlan({shown})"));
    Ok(())
}

#[test]
fn a_plan_starts_at_the_first_generation() -> Result<(), PlanError> {
    assert_eq!(minimal().validate()?.generation(), FIRST_GENERATION);
    assert_eq!(minimal().generation(7).validate()?.generation(), 7);
    assert_eq!(minimal().workload_uid(12).validate()?.workload_uid(), Some(12));
    Ok(())
}

#[test]
fn a_relative_cgroup_parent_is_rejected() {
    assert_eq!(
        minimal()
            .cgroup_parent(PathBytes::from_text("slice"))
            .validate()
            .err(),
        Some(PlanError::RelativeCgroupParent {
            path: PathBytes::from_text("slice")
        })
    );
}

#[test]
fn a_ceiling_is_never_zero() {
    assert_eq!(Ceiling64::new(0), None);
    assert_eq!(Ceiling32::new(0), None);
    assert_eq!(Ceiling64::new(5).map(|ceiling| ceiling.get()), Some(5));
    assert_eq!(Ceiling32::new(6).map(|ceiling| ceiling.get()), Some(6));
}

#[test]
fn plan_errors_say_what_was_wrong() {
    assert!(PlanError::MetadataTooLarge {
        size: 65537,
        max: 65536
    }
    .to_text()
    .contains("65537"));
    let relative = PlanError::RelativeWorkingDir {
        path: PathBytes::from_text("relative/dir"),
    };
    assert_eq!(
        relative.to_text(),
        "plan working directory must be absolute: relative/dir"
    );
    let parent = PlanError::RelativeCgroupParent {
        path: PathBytes::from_text("slice"),
    };
    assert_eq!(
        parent.to_text(),
        "cgroup parent must be absolute, got \"slice\""
    );
    for (bytes, shown) in [
        (b"sl\xFFice".to_vec(), "\"sl\\xFFice\""),
        (b"a\"b\n".to_vec(), "\"a\\\"b\\n\""),
        ("it's \u{e9}".as_bytes().to_vec(), "\"it\\'s \u{e9}\""),
        (b"\xE2\x82".to_vec(), "\"\\xE2\\x82\""),
    ] {
        let parent = PlanError::RelativeCgroupParent {
            path: PathBytes::from_bytes(bytes),
        };
        assert_eq!(
            parent.to_text(),
            format!("cgroup parent must be absolute, got {shown}")
        );
    }
}
