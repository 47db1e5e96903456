use nono::capability_modes::FsMode;
use nono::errno;
use nono::lifecycle::probe;
use nono::lifecycle::probe::{
    classify, classify_connect, classify_errno, classify_reply, decode_request, encode_request,
    call_reply, fs_mode_tag, installed_mechanism, observation, observation_at,
    settled_before_asking, CallOutcome, ChildProbe, Platform, ProbeAddr, ProbeCall, ADDR_BYTES,
    FAMILY_V4, FAMILY_V6, OFFSET_ADDR, OFFSET_DETAIL, OFFSET_FAMILY, OFFSET_OP, OFFSET_PATH, OFFSET_PORT,
    OP_BIND, OP_CONNECT, OP_OPEN_PATH, PROBE_PATH_BYTES, PROBE_REQUEST_BYTES, PROTO_TCP, PROTO_UDP,
    TAG_PROBE_COULD_NOT_RUN, TAG_PROBE_PERMITTED, TAG_PROBE_REFUSED,
};
use nono::lifecycle::{
    EnforcementMechanism, LifecycleState, PreExecStage, ProbeError, ProbeId, ProbeIndeterminate,
    ProbeOp, ProbeOutcome, ProbeScope, TransportProtocol,
};
use nono::path::PathBytes;
use nono::time::Timestamp;

const LOCALHOST_V6: [u8; 16] = [0, 0, 0, 0, 0, 0, 0, 0, 0, 0, 0, 0, 0, 0, 0, 1];

/// How long a path a socket address can hold here, with its NUL.
const ROOM: usize = 108;

/// What the child answers to a record that names nothing it can attempt.
fn run_probe_in_child(wire: &[u8]) -> (u8, i32) {
    match probe::run_probe_in_child(wire, ROOM, Platform::Linux) {
        ProbeCall::Reply { tag, errno } => (tag, errno),
        call => panic!("the record must not be acted on: {call:?}"),
    }
}

#[test]
fn every_reply_tag_is_distinct_and_is_not_a_pre_exec_stage() {
    let replies = [
        TAG_PROBE_PERMITTED,
        TAG_PROBE_REFUSED,
        TAG_PROBE_COULD_NOT_RUN,
    ];
    for (index, tag) in replies.iter().enumerate() {
        for other in replies.iter().skip(index.saturating_add(1)) {
            assert_ne!(tag, other, "reply tags must be distinct");
        }
        // A reply that decoded as a stage would let a probe answer be
        // mistaken for a dying child, and vice versa.
        assert_eq!(
            PreExecStage::from_tag(*tag),
            PreExecStage::Unknown,
            "reply tag {tag:#04x} collides with a pre-exec stage"
        );
        assert!(
            classify_reply(*tag, 0).is_some(),
            "reply tag {tag:#04x} must decode"
        );
    }
}

#[test]
fn a_record_that_is_not_a_reply_decodes_to_nothing() {
    // The child writes these when it is dying, not when it is answering.
    assert_eq!(classify_reply(PreExecStage::SandboxApply.as_tag(), 1), None);
    assert_eq!(classify_reply(PreExecStage::GateAborted.as_tag(), 0), None);
    assert_eq!(classify_reply(0xFF, 0), None);
}

#[test]
fn replies_decode_to_the_outcome_they_name() {
    assert_eq!(
        classify_reply(TAG_PROBE_PERMITTED, 0),
        Some(ProbeOutcome::Permitted)
    );
    assert_eq!(
        classify_reply(TAG_PROBE_REFUSED, libc::EPERM),
        Some(ProbeOutcome::Refused { errno: libc::EPERM })
    );
    assert_eq!(
        classify_reply(TAG_PROBE_COULD_NOT_RUN, libc::ENOENT),
        Some(ProbeOutcome::Indeterminate {
            reason: ProbeIndeterminate::ProbeCouldNotRun {
                errno: libc::ENOENT
            }
        })
    );
}

#[test]
fn only_a_refusal_is_a_refusal() {
    assert_eq!(
        classify_errno(libc::EPERM),
        (TAG_PROBE_REFUSED, libc::EPERM)
    );
    assert_eq!(
        classify_errno(libc::EACCES),
        (TAG_PROBE_REFUSED, libc::EACCES)
    );
    // ENOENT says the object is not there. It says nothing about what the
    // enforcement would have done, so it must not become `Permitted`.
    assert_eq!(
        classify_errno(libc::ENOENT),
        (TAG_PROBE_COULD_NOT_RUN, libc::ENOENT)
    );
    assert_eq!(
        classify_errno(libc::ECONNREFUSED),
        (TAG_PROBE_COULD_NOT_RUN, libc::ECONNREFUSED)
    );
}

#[test]
fn exec_has_no_probe_that_is_in_scope_for_a_held_child() {
    // Executing anything would destroy the process under question, and
    // forking a helper to execute it would run a program. Neither answers
    // the question that was asked.
    assert_eq!(
        settled_before_asking(&ProbeOp::Execute {
            program: PathBytes::from_text("/bin/echo")
        }, Platform::Linux),
        Some(ProbeIndeterminate::PlatformHasNoInScopeProbe)
    );
    assert_eq!(
        settled_before_asking(&ProbeOp::OpenPath {
            path: PathBytes::from_text("/bin/echo"),
            mode: FsMode::Execute,
        }, Platform::Linux),
        Some(ProbeIndeterminate::PlatformHasNoInScopeProbe)
    );
    // A bundle is four questions; one syscall asks one.
    assert_eq!(
        settled_before_asking(&ProbeOp::OpenPath {
            path: PathBytes::from_text("/tmp/x"),
            mode: FsMode::AtomicWrite,
        }, Platform::Linux),
        Some(ProbeIndeterminate::PlatformHasNoInScopeProbe)
    );
}

#[test]
fn landlock_cannot_be_asked_about_stat() {
    assert_eq!(
        settled_before_asking(&ProbeOp::OpenPath {
            path: PathBytes::from_text("/etc/hosts"),
            mode: FsMode::ReadMetadata,
        }, Platform::Linux),
        Some(ProbeIndeterminate::MechanismCannotExpress {
            mechanism: EnforcementMechanism::Landlock
        })
    );
}

#[test]
fn seatbelt_can_be_asked_about_stat() {
    // Seatbelt has `file-read-metadata`, so the question is a real one
    // there and must reach the child.
    assert_eq!(
        settled_before_asking(&ProbeOp::OpenPath {
            path: PathBytes::from_text("/etc/hosts"),
            mode: FsMode::ReadMetadata,
        }, Platform::MacOs),
        None
    );
}

#[test]
fn every_mode_that_reaches_the_child_has_a_distinct_tag() {
    let mut tags = Vec::new();
    for mode in FsMode::ALL {
        let settled = settled_before_asking(&ProbeOp::OpenPath {
            path: PathBytes::from_text("/tmp/x"),
            mode,
        }, Platform::Linux);
        match fs_mode_tag(mode) {
            Some(tag) => {
                assert!(!tags.contains(&tag), "{mode:?} reuses tag {tag:#04x}");
                tags.push(tag);
            }
            // A mode with no tag must never be sent, which is exactly what
            // `settled_before_asking` guarantees.
            None => assert!(
                settled.is_some(),
                "{mode:?} has no wire tag and no settled answer"
            ),
        }
    }
}

#[test]
fn a_path_request_carries_its_path_and_a_terminating_nul() -> Result<(), i32> {
    let wire = encode_request(&ProbeOp::OpenPath {
        path: PathBytes::from_text("/etc/hosts"),
        mode: FsMode::ReadContents,
    }, Platform::Linux)?;
    assert_eq!(wire[OFFSET_OP], OP_OPEN_PATH);
    assert_eq!(Some(wire[OFFSET_DETAIL]), fs_mode_tag(FsMode::ReadContents));
    let end = OFFSET_PATH.saturating_add("/etc/hosts".len());
    assert_eq!(&wire[OFFSET_PATH..end], b"/etc/hosts");
    assert_eq!(wire[end], 0, "the child reads this region as a C string");
    Ok(())
}

#[test]
fn a_path_that_cannot_be_a_c_string_is_refused_before_the_child_sees_it() {
    let interior_nul = PathBytes::from_bytes(b"/etc/ho\0sts".to_vec());
    assert_eq!(
        encode_request(&ProbeOp::OpenPath {
            path: interior_nul,
            mode: FsMode::ReadContents,
        }, Platform::Linux),
        Err(libc::EINVAL)
    );

    let mut long = String::from("/");
    while long.len() < PROBE_PATH_BYTES {
        long.push('a');
    }
    assert_eq!(
        encode_request(&ProbeOp::OpenPath {
            path: PathBytes::from_text(&long),
            mode: FsMode::ReadContents,
        }, Platform::Linux),
        Err(libc::ENAMETOOLONG)
    );
}

#[test]
fn an_operation_with_no_wire_tag_is_never_encoded() {
    // Belt and braces with `settled_before_asking`: even if a future caller
    // reached the encoder directly, these two cannot become a record.
    assert_eq!(
        encode_request(&ProbeOp::Execute {
            program: PathBytes::from_text("/bin/echo")
        }, Platform::Linux),
        Err(libc::EINVAL)
    );
    assert_eq!(
        encode_request(&ProbeOp::OpenPath {
            path: PathBytes::from_text("/bin/echo"),
            mode: FsMode::Execute,
        }, Platform::Linux),
        Err(libc::EINVAL)
    );
}

#[test]
fn an_address_request_carries_the_address_in_network_order() -> Result<(), i32> {
    let v4 = encode_request(&ProbeOp::Connect {
        protocol: TransportProtocol::Tcp,
        addr: ProbeAddr::V4 { octets: [203, 0, 113, 7], port: 8080 },
    }, Platform::Linux)?;
    assert_eq!(v4[OFFSET_OP], OP_CONNECT);
    assert_eq!(v4[OFFSET_DETAIL], PROTO_TCP);
    assert_eq!(v4[OFFSET_FAMILY], FAMILY_V4);
    assert_eq!(
        u16::from_le_bytes([v4[OFFSET_PORT], v4[OFFSET_PORT.saturating_add(1)]]),
        8080
    );
    assert_eq!(
        &v4[OFFSET_ADDR..OFFSET_ADDR.saturating_add(4)],
        &[203, 0, 113, 7]
    );

    let v6 = encode_request(&ProbeOp::Bind {
        protocol: TransportProtocol::Udp,
        addr: ProbeAddr::V6 { octets: LOCALHOST_V6, port: 9 },
    }, Platform::Linux)?;
    assert_eq!(v6[OFFSET_OP], OP_BIND);
    assert_eq!(v6[OFFSET_DETAIL], PROTO_UDP);
    assert_eq!(v6[OFFSET_FAMILY], FAMILY_V6);
    assert_eq!(
        &v6[OFFSET_ADDR..OFFSET_ADDR.saturating_add(ADDR_BYTES)],
        &LOCALHOST_V6
    );
    Ok(())
}

#[test]
fn an_unknown_request_record_is_reported_rather_than_acted_on() {
    // The supervisor never writes one of these; a child that received one
    // must not fall through to a syscall.
    let mut wire: [u8; PROBE_REQUEST_BYTES] = [0_u8; PROBE_REQUEST_BYTES];
    wire[OFFSET_OP] = 0x7F;
    assert_eq!(
        run_probe_in_child(&wire),
        (TAG_PROBE_COULD_NOT_RUN, libc::EINVAL)
    );

    // An op we do know about with a detail byte we do not.
    wire[OFFSET_OP] = OP_OPEN_PATH;
    wire[OFFSET_DETAIL] = 0x7F;
    assert_eq!(
        run_probe_in_child(&wire),
        (TAG_PROBE_COULD_NOT_RUN, libc::EINVAL)
    );
}

#[test]
fn an_observation_never_claims_a_denial_record() {
    // `denial_observed` is false on every outcome, including a refusal.
    // The library observes no denial events on either platform — see
    // `super::support`'s KernelDenial entry (NotObserved) and the first
    // paragraph of `super::events`.
    for outcome in [
        ProbeOutcome::Permitted,
        ProbeOutcome::Refused { errno: libc::EPERM },
        ProbeOutcome::Indeterminate {
            reason: ProbeIndeterminate::PlatformHasNoInScopeProbe,
        },
    ] {
        let observed = observation(
            ProbeId::new("denial"),
            outcome,
            EnforcementMechanism::Seatbelt,
        );
        assert!(!observed.denial_observed);
        assert_eq!(observed.scope, ProbeScope::InstalledChild);
    }
}

#[test]
fn this_build_installs_exactly_one_mechanism() {
    assert_eq!(
        installed_mechanism(Platform::MacOs),
        Some(EnforcementMechanism::Seatbelt)
    );
    assert_eq!(
        installed_mechanism(Platform::Linux),
        Some(EnforcementMechanism::Landlock)
    );
    assert_eq!(installed_mechanism(Platform::Other), None);
}

#[test]
fn the_vocabularies_render_distinctly() {
    let mut seen = Vec::new();
    for mechanism in EnforcementMechanism::ALL {
        assert!(!seen.contains(&mechanism.as_str()));
        seen.push(mechanism.as_str());
        assert_eq!(mechanism.as_str().to_string(), mechanism.as_str());
    }
    for scope in ProbeScope::ALL {
        assert_eq!(scope.as_str().to_string(), scope.as_str());
    }
    for protocol in TransportProtocol::ALL {
        assert_eq!(protocol.as_str().to_string(), protocol.as_str());
    }
    assert_eq!(
        ProbeIndeterminate::MechanismCannotExpress {
            mechanism: EnforcementMechanism::Landlock
        }
        .as_str()
        .to_string(),
        "mechanism_cannot_express"
    );
    assert_eq!(ProbeId::new("tag").as_str().to_string(), "tag");
    assert_eq!(ProbeId::new("tag").as_str(), "tag");
}

#[test]
fn the_child_reads_back_what_was_asked() -> Result<(), i32> {
    for mode in FsMode::ALL {
        let op = ProbeOp::OpenPath {
            path: PathBytes::from_text("/etc/hosts"),
            mode,
        };
        match encode_request(&op, Platform::Linux) {
            Ok(wire) => assert_eq!(
                decode_request(&wire),
                ChildProbe::OpenPath { mode, path_len: 10 }
            ),
            Err(errno) => assert_eq!(errno, libc::EINVAL),
        }
    }
    let addr = ProbeAddr::V4 {
        octets: [203, 0, 113, 7],
        port: 8080,
    };
    let protocol = TransportProtocol::Udp;
    let wire = encode_request(&ProbeOp::Connect { protocol, addr }, Platform::Linux)?;
    assert_eq!(decode_request(&wire), ChildProbe::Connect { protocol, addr });
    let addr = ProbeAddr::V6 {
        octets: LOCALHOST_V6,
        port: 65535,
    };
    let wire = encode_request(&ProbeOp::Bind { protocol, addr }, Platform::Linux)?;
    assert_eq!(wire.len(), PROBE_REQUEST_BYTES);
    assert_eq!(decode_request(&wire), ChildProbe::Bind { protocol, addr });
    Ok(())
}

#[test]
fn a_socket_record_with_an_unknown_tag_is_malformed() -> Result<(), i32> {
    let wire = encode_request(&ProbeOp::Connect {
        protocol: TransportProtocol::Tcp,
        addr: ProbeAddr::V4 {
            octets: [127, 0, 0, 1],
            port: 80,
        },
    }, Platform::Linux)?;
    for offset in [OFFSET_DETAIL, OFFSET_FAMILY] {
        let mut broken = wire.clone();
        broken[offset] = 0x7F;
        assert_eq!(run_probe_in_child(&broken), (TAG_PROBE_COULD_NOT_RUN, libc::EINVAL));
    }
    assert_eq!(run_probe_in_child(&wire[1..]), (TAG_PROBE_COULD_NOT_RUN, libc::EINVAL));
    Ok(())
}

#[test]
fn an_attempt_is_classified_by_its_number() {
    assert_eq!(classify(Ok(())), (TAG_PROBE_PERMITTED, 0));
    assert_eq!(classify(Err(libc::EACCES)), (TAG_PROBE_REFUSED, libc::EACCES));
    assert_eq!(classify_connect(Ok(()), Platform::Linux), (TAG_PROBE_PERMITTED, 0));
    assert_eq!(
        classify_connect(Err(libc::EINPROGRESS), Platform::Linux),
        (TAG_PROBE_PERMITTED, 0)
    );
    assert_eq!(
        classify(Err(libc::EINPROGRESS)),
        (TAG_PROBE_COULD_NOT_RUN, libc::EINPROGRESS)
    );
    assert_eq!(
        classify_connect(Err(libc::EPERM), Platform::Linux),
        (TAG_PROBE_REFUSED, libc::EPERM)
    );
}

#[test]
fn each_operation_is_attempted_by_its_own_call() -> Result<(), i32> {
    let call = |mode, path: &str| -> Result<ProbeCall, i32> {
        let wire = encode_request(&ProbeOp::OpenPath {
            path: PathBytes::from_text(path),
            mode,
        }, Platform::Linux)?;
        Ok(probe::run_probe_in_child(&wire, ROOM, Platform::Linux))
    };
    let open = |write, directory, append, truncate| ProbeCall::Open {
        write,
        directory,
        append,
        truncate,
    };
    for (mode, expected) in [
        (FsMode::ReadContents, open(false, false, false, false)),
        (FsMode::ReadDir, open(false, true, false, false)),
        (FsMode::ReadMetadata, ProbeCall::Stat),
        (FsMode::Write, open(true, false, false, false)),
        (FsMode::Append, open(true, false, true, false)),
        (FsMode::Create, ProbeCall::CreateNew),
        (FsMode::Truncate, open(true, false, false, true)),
        (FsMode::RemoveFile, ProbeCall::Unlink),
        (FsMode::RemoveDir, ProbeCall::Rmdir),
        (FsMode::Rename, ProbeCall::RenameOntoItself),
        (FsMode::UnixSocketConnect, ProbeCall::UnixConnect),
    ] {
        assert_eq!(call(mode, "/tmp/x")?, expected);
    }
    assert_eq!(
        call(FsMode::UnixSocketConnect, &format!("/{}", "a".repeat(107)))?,
        ProbeCall::Reply {
            tag: TAG_PROBE_COULD_NOT_RUN,
            errno: libc::ENAMETOOLONG
        }
    );
    assert_eq!(
        call(FsMode::UnixSocketConnect, &format!("/{}", "a".repeat(106)))?,
        ProbeCall::UnixConnect
    );
    Ok(())
}

#[test]
fn setup_is_not_the_operation_under_question() {
    for call in [ProbeCall::UnixConnect, ProbeCall::Stat] {
        assert_eq!(
            call_reply(call, CallOutcome::SetupFailed(libc::EPERM), Platform::Linux),
            (TAG_PROBE_COULD_NOT_RUN, libc::EPERM)
        );
        assert_eq!(
            call_reply(call, CallOutcome::Returned(Err(libc::EPERM)), Platform::Linux),
            (TAG_PROBE_REFUSED, libc::EPERM)
        );
        assert_eq!(
            call_reply(call, CallOutcome::Returned(Ok(())), Platform::Linux),
            (TAG_PROBE_PERMITTED, 0)
        );
    }
    assert_eq!(
        call_reply(
            ProbeCall::UnixConnect,
            CallOutcome::Returned(Err(libc::EINPROGRESS)), Platform::Linux),
        (TAG_PROBE_PERMITTED, 0)
    );
    assert_eq!(
        call_reply(
            ProbeCall::Unlink,
            CallOutcome::Returned(Err(libc::EINPROGRESS)), Platform::Linux),
        (TAG_PROBE_COULD_NOT_RUN, libc::EINPROGRESS)
    );
}

#[test]
fn an_observation_is_stamped_when_it_arrived() {
    let seen = observation_at(
        ProbeId::new("wire"),
        ProbeOutcome::Permitted,
        EnforcementMechanism::Landlock,
        Timestamp(5),
    );
    assert_eq!(seen.observed_at, Timestamp(5));
    assert_eq!(seen.id.as_str(), "wire");
    let before = match std::time::SystemTime::now().duration_since(std::time::UNIX_EPOCH) {
        Ok(after) => Timestamp(after.as_nanos() as i128),
        Err(_) => panic!("the clock must be after the epoch"),
    };
    let now = observation(
        ProbeId::new("wire"),
        ProbeOutcome::Permitted,
        EnforcementMechanism::Landlock,
    );
    assert!(now.observed_at >= before);
}

#[test]
fn probe_errors_say_where_the_run_was() {
    assert_eq!(
        ProbeError::NotLegalInState {
            state: LifecycleState::Running
        }
        .to_text(),
        "a probe is only legal while the child is held at its gate; run is running"
    );
    assert_eq!(
        ProbeError::ChildUnreachable { errno: 32 }.to_text(),
        "the held child could not be reached: errno 32"
    );
}

#[test]
fn error_numbers_are_this_platforms() {
    assert_eq!(errno::EPERM, libc::EPERM);
    assert_eq!(errno::ESRCH, libc::ESRCH);
    assert_eq!(errno::EINTR, libc::EINTR);
    assert_eq!(errno::EACCES, libc::EACCES);
    assert_eq!(errno::EINVAL, libc::EINVAL);
    assert_eq!(errno::EPIPE, libc::EPIPE);
    assert_eq!(errno::try_again(Platform::Linux), libc::EAGAIN);
    assert_eq!(errno::name_too_long(Platform::Linux), libc::ENAMETOOLONG);
    assert_eq!(errno::not_implemented(Platform::Linux), libc::ENOSYS);
    assert_eq!(errno::in_progress(Platform::Linux), libc::EINPROGRESS);
    assert_eq!(errno::try_again(Platform::MacOs), 35);
    assert_eq!(errno::name_too_long(Platform::MacOs), 63);
    assert_eq!(errno::not_implemented(Platform::MacOs), 78);
    assert_eq!(errno::in_progress(Platform::MacOs), 36);
}

#[test]
fn an_attempt_is_classified_by_its_platforms_numbers() {
    assert_eq!(
        classify_connect(Err(36), Platform::MacOs),
        (TAG_PROBE_PERMITTED, 0)
    );
    assert_eq!(
        classify_connect(Err(115), Platform::MacOs),
        (TAG_PROBE_COULD_NOT_RUN, 115)
    );
    let long = "a".repeat(PROBE_PATH_BYTES);
    assert_eq!(
        encode_request(
            &ProbeOp::OpenPath {
                path: PathBytes::from_text(&long),
                mode: FsMode::ReadContents,
            },
            Platform::MacOs
        ),
        Err(63)
    );
}
