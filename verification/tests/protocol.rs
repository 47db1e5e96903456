use nono::capability_modes::FsMode;
use nono::lifecycle::cleanup::Probe;
use nono::lifecycle::detached::{
    connect_error, exchanged, hello, unexpected, wipe_request, WaitStep,
};
use nono::lifecycle::frame::{
    after_poll, malformed_body, poll_outcome, read_exact_by, read_prefix, remaining_millis,
    wait_for, write_all_by, write_frame, FrameStep, PollOutcome, SecretBytes,
    CONTROL_ENVELOPE_ALLOWANCE, LENGTH_PREFIX_BYTES, WORST_CASE_JSON_ESCAPE,
};
use nono::lifecycle::probe::{Platform, ProbeAddr, PROBE_PATH_BYTES};
use nono::lifecycle::protocol::{reply_name, AttachAck, WindowSize};
use nono::lifecycle::record::Moved;
use nono::lifecycle::{
    AbsenceBasis, ActivationError, ActivationHandle, ActivationObservation, CleanupVerification,
    ControlRefusal, ControlReply, ControlRequest, DetachedError, DetachedSession,
    EnforcementMechanism, ExitOutcome, FrameError, LifecycleState, ProbeError, ProbeId,
    ProbeObservation, ProbeOp, ProbeOutcome, ProbeRequest, ProbeScope, ProcessIdentity, SandboxExit,
    SessionId, SessionRecord, SessionStatus, StopError, TransportProtocol, WaitOutcome, ACTIVATION_TOKEN_BYTES,
    CONTROL_PROTOCOL_VERSION, CONTROL_TIMEOUT, MAX_CONTROL_FRAME_BYTES, MAX_CONTROL_WAIT,
    MAX_RECORD_BYTES,
};
use nono::path::PathBytes;
use nono::time::{Nanos, Timestamp, NANOS_PER_SECOND};

fn framed(body: Vec<u8>) -> Result<SecretBytes, FrameError> {
    write_frame(Ok(SecretBytes::new(body)))
}

/// Read one frame from `stream`, as a reader with everything at hand does.
fn read_frame(stream: &[u8]) -> Result<Vec<u8>, FrameError> {
    let mut prefix = [0_u8; LENGTH_PREFIX_BYTES];
    prefix.copy_from_slice(&stream[..LENGTH_PREFIX_BYTES]);
    let length = read_prefix(&prefix)?;
    Ok(stream[LENGTH_PREFIX_BYTES..LENGTH_PREFIX_BYTES + length].to_vec())
}

#[test]
fn a_frame_reads_back_and_leaves_the_rest() -> Result<(), FrameError> {
    let mut stream = framed(b"hello".to_vec())?.as_slice().to_vec();
    assert_eq!(&stream[..4], &[5, 0, 0, 0]);
    stream.extend_from_slice(framed(b"".to_vec())?.as_slice());
    stream.extend_from_slice(framed(vec![b'x'; 300])?.as_slice());
    assert_eq!(read_frame(&stream)?, b"hello");
    assert_eq!(read_frame(&stream[9..])?, b"");
    assert_eq!(read_frame(&stream[13..])?, vec![b'x'; 300]);
    Ok(())
}

#[test]
fn an_oversize_length_prefix_is_refused_before_a_byte_of_body_is_read() {
    let announced = 1_024_u32 * 1_024 * 1_024;
    assert_eq!(
        read_prefix(&announced.to_le_bytes()).err(),
        Some(FrameError::TooLarge {
            size: u64::from(announced),
            limit: MAX_CONTROL_FRAME_BYTES,
        })
    );
}

#[test]
fn a_frame_exactly_at_the_bound_is_still_read() -> Result<(), FrameError> {
    let body = vec![b'x'; MAX_CONTROL_FRAME_BYTES];
    let length = MAX_CONTROL_FRAME_BYTES as u32;
    let frame = framed(body.clone())?;
    let stream = frame.as_slice();
    assert_eq!(&stream[..LENGTH_PREFIX_BYTES], &length.to_le_bytes());
    assert_eq!(read_frame(stream)?, body);
    Ok(())
}

#[test]
fn a_record_at_its_bound_still_fits_a_frame() {
    assert_eq!(
        MAX_CONTROL_FRAME_BYTES,
        MAX_RECORD_BYTES + CONTROL_ENVELOPE_ALLOWANCE
    );
    assert_eq!(MAX_CONTROL_FRAME_BYTES, 69_632);
}

#[test]
fn a_garbage_body_is_malformed_not_a_guess() {
    let parsed = serde_json::from_slice::<serde_json::Value>(b"not json at all");
    let outcome = parsed.map_err(|err| malformed_body(err.to_string()));
    assert!(
        matches!(outcome, Err(FrameError::Malformed { .. })),
        "expected a malformed frame, got {outcome:?}"
    );
}

#[test]
fn a_value_that_cannot_be_encoded_is_malformed() {
    match write_frame(Err("path is not text".to_string())) {
        Err(err) => {
            assert_eq!(
                err,
                FrameError::Malformed {
                    why: "value could not be encoded: path is not text".to_string()
                }
            );
            assert!(err.is_reportable());
        }
        Ok(_) => panic!("nothing may be written"),
    }
}

#[test]
fn a_read_with_no_writer_times_out_rather_than_parking() {
    let deadline = Nanos(80_000_000);
    assert_eq!(wait_for(Nanos(0), deadline), Ok(80));
    assert_eq!(
        after_poll(poll_outcome(0, 0)),
        Err(FrameError::Timeout),
        "nothing became ready"
    );
    assert_eq!(wait_for(deadline, deadline), Err(FrameError::Timeout));
}

#[test]
fn a_closed_peer_is_a_close_not_a_timeout() {
    assert_eq!(
        read_exact_by(0, LENGTH_PREFIX_BYTES, Moved::Count(0), Platform::Linux),
        FrameStep::Failed(FrameError::Closed)
    );
    assert_eq!(
        write_all_by(3, 9, Moved::Failed(libc::EPIPE), Platform::Linux),
        FrameStep::Failed(FrameError::Closed)
    );
}

#[test]
fn transfers_go_on_from_where_they_stand() {
    assert_eq!(read_exact_by(0, 4, Moved::Count(3), Platform::Linux), FrameStep::Continue(3));
    assert_eq!(read_exact_by(3, 4, Moved::Count(1), Platform::Linux), FrameStep::Done);
    for again in [libc::EINTR, libc::EAGAIN] {
        assert_eq!(
            read_exact_by(2, 4, Moved::Failed(again), Platform::Linux),
            FrameStep::Continue(2)
        );
        assert_eq!(
            write_all_by(2, 4, Moved::Failed(again), Platform::Linux),
            FrameStep::Continue(2)
        );
    }
    assert_eq!(
        read_exact_by(2, 4, Moved::Failed(libc::EPIPE), Platform::Linux),
        FrameStep::Failed(FrameError::Io { errno: libc::EPIPE })
    );
    assert_eq!(
        write_all_by(2, 4, Moved::Failed(libc::EIO), Platform::Linux),
        FrameStep::Failed(FrameError::Io { errno: libc::EIO })
    );
}

#[test]
fn a_poll_is_classified() {
    assert_eq!(poll_outcome(1, 0), PollOutcome::Ready);
    assert_eq!(poll_outcome(0, libc::EINTR), PollOutcome::TimedOut);
    assert_eq!(poll_outcome(-1, libc::EINTR), PollOutcome::Interrupted);
    assert_eq!(
        poll_outcome(-1, libc::EINVAL),
        PollOutcome::Failed(libc::EINVAL)
    );
    assert_eq!(after_poll(PollOutcome::Ready), Ok(true));
    assert_eq!(after_poll(PollOutcome::Interrupted), Ok(false));
    assert_eq!(
        after_poll(PollOutcome::Failed(9)),
        Err(FrameError::Io { errno: 9 })
    );
}

#[test]
fn debug_never_renders_the_activation_token() {
    let request = ControlRequest::Activate {
        token: [0xAB; ACTIVATION_TOKEN_BYTES],
    };
    let rendered = request.to_text();
    assert!(rendered.contains("<redacted>"), "{rendered}");
    assert!(!rendered.contains("171"), "{rendered}");
    assert!(!rendered.contains("ab"), "{rendered}");
}

#[test]
fn a_deadline_that_has_passed_yields_no_time_rather_than_forever() {
    let now = Nanos::from_secs(100);
    assert_eq!(remaining_millis(now, now), None);
    let past = Nanos::from_secs(99);
    assert_eq!(remaining_millis(now, past), None);
    let future = Nanos::from_secs(102);
    let left = remaining_millis(now, future);
    assert!(left.is_some_and(|millis| millis > 0), "{left:?}");
    assert_eq!(left, Some(2_000));
    assert_eq!(remaining_millis(Nanos(0), Nanos(1)), Some(1));
    assert_eq!(remaining_millis(Nanos(0), Nanos(u128::MAX)), Some(i32::MAX));
}

fn hello_request() -> ControlRequest {
    ControlRequest::Hello {
        protocol: CONTROL_PROTOCOL_VERSION,
        session_id: SessionId(0),
        generation: 1,
    }
}

/// One probe of `/etc/hosts`, for the frames that carry one.
fn probe_request(mode: FsMode) -> ProbeRequest {
    ProbeRequest {
        id: ProbeId::new("wire"),
        op: ProbeOp::OpenPath {
            path: PathBytes::from_text("/etc/hosts"),
            mode,
        },
    }
}

#[test]
fn a_request_names_itself_for_a_refusal_that_has_to() {
    assert_eq!(hello_request().as_str(), "hello");
    assert_eq!(ControlRequest::Stop.as_str(), "stop");
    assert_eq!(ControlRequest::Status.as_str(), "status");
    assert_eq!(ControlRequest::VerifyCleanup.as_str(), "verify_cleanup");
    assert_eq!(ControlRequest::Goodbye.as_str(), "goodbye");
    assert_eq!(
        ControlRequest::Attach {
            window: WindowSize::new(24, 80)
        }
        .as_str(),
        "attach"
    );
    assert_eq!(
        ControlRequest::Wait {
            deadline_millis: 10
        }
        .as_str(),
        "wait"
    );
    assert_eq!(
        ControlRequest::Activate {
            token: [0; ACTIVATION_TOKEN_BYTES]
        }
        .as_str(),
        "activate"
    );
    assert_eq!(
        ControlRequest::ProbeEnforcement {
            request: probe_request(FsMode::ReadContents)
        }
        .as_str(),
        "probe_enforcement"
    );
}

#[test]
fn requests_render_for_a_trace_line() {
    assert_eq!(
        hello_request().to_text(),
        "Hello { protocol: 2, session_id: 00000000-0000-0000-0000-000000000000, generation: 1 }"
    );
    assert_eq!(
        ControlRequest::Wait {
            deadline_millis: 10
        }
        .to_text(),
        "Wait { deadline_millis: 10 }"
    );
    assert_eq!(
        ControlRequest::Attach {
            window: WindowSize::new(24, 80)
        }
        .to_text(),
        "Attach { window: WindowSize { rows: 24, cols: 80 } }"
    );
    assert_eq!(
        ControlRequest::ProbeEnforcement {
            request: probe_request(FsMode::Write)
        }
        .to_text(),
        "ProbeEnforcement { request: ProbeRequest { id: ProbeId(\"wire\"), \
         op: OpenPath { path: \"/etc/hosts\", mode: Write } } }"
    );
    assert_eq!(ControlRequest::Stop.to_text(), "Stop");
    assert_eq!(ControlRequest::Goodbye.to_text(), "Goodbye");
}

/// The body of a frame that carries one probe of a path.
fn probe_body(request: &ControlRequest) -> Vec<u8> {
    let (id, path, mode) = match request {
        ControlRequest::ProbeEnforcement { request } => match &request.op {
            ProbeOp::OpenPath { path, mode } => (request.id.as_str(), path.to_text(), *mode),
            op => panic!("expected a path: {op:?}"),
        },
        request => panic!("expected a probe: {}", request.to_text()),
    };
    let mut op = serde_json::Map::new();
    op.insert("probe_op".to_string(), "open_path".into());
    op.insert("path".to_string(), path.into());
    op.insert("mode".to_string(), mode.as_str().into());
    let mut inner = serde_json::Map::new();
    inner.insert("id".to_string(), id.into());
    inner.insert("op".to_string(), op.into());
    let mut outer = serde_json::Map::new();
    outer.insert("op".to_string(), request.as_str().into());
    outer.insert("request".to_string(), inner.into());
    match serde_json::to_vec(&serde_json::Value::Object(outer)) {
        Ok(body) => body,
        Err(err) => panic!("a request must encode: {err}"),
    }
}

#[test]
fn a_probe_request_too_large_for_a_frame_is_refused_with_nothing_written() {
    let request = ControlRequest::ProbeEnforcement {
        request: ProbeRequest {
            id: ProbeId::new(&"x".repeat(MAX_CONTROL_FRAME_BYTES)),
            op: ProbeOp::OpenPath {
                path: PathBytes::from_text("/etc/hosts"),
                mode: FsMode::ReadContents,
            },
        },
    };
    let body = probe_body(&request);
    let size = body.len() as u64;
    assert!(size > MAX_CONTROL_FRAME_BYTES as u64);
    match framed(body) {
        Err(err) => assert_eq!(
            err,
            FrameError::TooLarge {
                size,
                limit: MAX_CONTROL_FRAME_BYTES
            }
        ),
        Ok(_) => panic!("an oversize body must not be framed"),
    }
}

#[test]
fn the_longest_probe_path_the_child_accepts_still_fits_a_frame() {
    let mut path = String::from("/");
    while path.len() < PROBE_PATH_BYTES.saturating_sub(1) {
        path.push('a');
    }
    let request = ControlRequest::ProbeEnforcement {
        request: ProbeRequest {
            id: ProbeId::new("longest"),
            op: ProbeOp::OpenPath {
                path: PathBytes::from_text(&path),
                mode: FsMode::ReadContents,
            },
        },
    };
    let encoded = probe_body(&request);
    assert!(
        encoded.len() < MAX_CONTROL_FRAME_BYTES,
        "a path the child would accept must fit a frame: {} bytes",
        encoded.len()
    );
    assert!(framed(encoded).is_ok());
    assert!(
        PROBE_PATH_BYTES * WORST_CASE_JSON_ESCAPE + CONTROL_ENVELOPE_ALLOWANCE
            < MAX_CONTROL_FRAME_BYTES
    );
}

fn shown_connect(octets: [u8; 16]) -> String {
    ControlRequest::ProbeEnforcement {
        request: ProbeRequest {
            id: ProbeId::new("net"),
            op: ProbeOp::Connect {
                protocol: TransportProtocol::Tcp,
                addr: ProbeAddr::V6 { octets, port: 443 },
            },
        },
    }
    .to_text()
}

#[test]
fn a_session_asks_for_what_it_was_asked() {
    let session = match DetachedSession::connect(SessionId(4), 2, supervisor(), greeting(2, 4, 2)) {
        Ok(session) => session,
        Err(err) => panic!("the greeting must be accepted: {}", err.to_text()),
    };
    let window = WindowSize::new(24, 80);
    for (asked, expected) in [
        (session.stop_request(), ControlRequest::Stop),
        (session.status_request(), ControlRequest::Status),
        (session.cleanup_request(), ControlRequest::VerifyCleanup),
        (
            session.probe_request(probe_request(FsMode::Write)),
            ControlRequest::ProbeEnforcement {
                request: probe_request(FsMode::Write),
            },
        ),
        (
            session.attach_request(window),
            ControlRequest::Attach { window },
        ),
        (session.goodbye(), ControlRequest::Goodbye),
    ] {
        assert_eq!(asked.to_text(), expected.to_text());
    }
}

#[test]
fn a_probe_renders_its_whole_operation() {
    let bind = ControlRequest::ProbeEnforcement {
        request: ProbeRequest {
            id: ProbeId::new("net"),
            op: ProbeOp::Bind {
                protocol: TransportProtocol::Udp,
                addr: ProbeAddr::V4 {
                    octets: [203, 0, 113, 7],
                    port: 8080,
                },
            },
        },
    };
    assert_eq!(
        bind.to_text(),
        "ProbeEnforcement { request: ProbeRequest { id: ProbeId(\"net\"), \
         op: Bind { protocol: Udp, addr: 203.0.113.7:8080 } } }"
    );
    let run = ControlRequest::ProbeEnforcement {
        request: ProbeRequest {
            id: ProbeId::new("a\"b"),
            op: ProbeOp::Execute {
                program: PathBytes::from_bytes(b"/bin/\xFF".to_vec()),
            },
        },
    };
    assert_eq!(
        run.to_text(),
        "ProbeEnforcement { request: ProbeRequest { id: ProbeId(\"a\\\"b\"), \
         op: Execute { program: \"/bin/\\xFF\" } } }"
    );
}

#[test]
fn a_long_address_renders_in_its_short_form() {
    for (octets, shown) in [
        ([0; 16], "::"),
        ([0, 0, 0, 0, 0, 0, 0, 0, 0, 0, 0, 0, 0, 0, 0, 1], "::1"),
        (
            [0x20, 1, 0x0D, 0xB8, 0, 0, 0, 0, 0, 0, 0, 0, 0, 0, 0, 1],
            "2001:db8::1",
        ),
        (
            [0x20, 1, 0, 0, 0, 0, 0, 1, 0, 0, 0, 0, 0, 0, 0, 1],
            "2001:0:0:1::1",
        ),
        (
            [0x20, 1, 0, 0, 0, 0, 0, 1, 0, 1, 0, 0, 0, 0, 0, 1],
            "2001::1:1:0:0:1",
        ),
        (
            [0, 1, 0, 0, 0, 2, 0, 3, 0, 4, 0, 5, 0, 6, 0xAB, 0xCD],
            "1:0:2:3:4:5:6:abcd",
        ),
        (
            [0xFE, 0x80, 0, 0, 0, 0, 0, 0, 0, 0, 0, 0, 0, 0, 0, 0],
            "fe80::",
        ),
        (
            [0, 0, 0, 0, 0, 0, 0, 0, 0, 0, 0xFF, 0xFF, 192, 0, 2, 1],
            "::ffff:192.0.2.1",
        ),
    ] {
        assert_eq!(
            shown_connect(octets),
            format!(
                "ProbeEnforcement {{ request: ProbeRequest {{ id: ProbeId(\"net\"), \
                 op: Connect {{ protocol: Tcp, addr: [{shown}]:443 }} }} }}"
            )
        );
    }
}

#[test]
fn frame_errors_say_what_happened() {
    for (error, text, reportable) in [
        (
            FrameError::Io { errno: 5 },
            "control socket i/o failed: errno 5",
            false,
        ),
        (
            FrameError::Timeout,
            "control frame did not complete before its deadline",
            false,
        ),
        (
            FrameError::Closed,
            "the control connection was closed by the peer",
            false,
        ),
        (
            FrameError::TooLarge { size: 9, limit: 8 },
            "control frame announced 9 bytes (max 8)",
            true,
        ),
        (
            FrameError::Malformed {
                why: "nonsense".to_string(),
            },
            "control frame could not be understood: nonsense",
            true,
        ),
    ] {
        assert_eq!(error.to_text(), text);
        assert_eq!(error.is_reportable(), reportable);
        assert_eq!(error.clone(), error);
    }
}

#[test]
fn refusals_say_which_check_refused() {
    for (refusal, text) in [
        (
            ControlRefusal::ProtocolVersion {
                expected: 1,
                supplied: 2,
            },
            "control protocol version 2 is not 1",
        ),
        (
            ControlRefusal::WrongSession {
                expected: SessionId(0),
                supplied: SessionId(u128::MAX),
            },
            "control connection is for session ffffffff-ffff-ffff-ffff-ffffffffffff, not \
             00000000-0000-0000-0000-000000000000",
        ),
        (
            ControlRefusal::WrongGeneration {
                expected: 1,
                supplied: 2,
            },
            "control connection is for generation 2, not 1",
        ),
        (
            ControlRefusal::Busy,
            "another client is connected to this session",
        ),
        (
            ControlRefusal::HelloExpected,
            "the first control frame must be a hello",
        ),
        (
            ControlRefusal::FrameTooLarge {
                size: 1 << 30,
                limit: MAX_CONTROL_FRAME_BYTES,
            },
            "control frame announced 1073741824 bytes (max 69632)",
        ),
        (
            ControlRefusal::Malformed {
                why: "nonsense".to_string(),
            },
            "control frame could not be understood: nonsense",
        ),
        (
            ControlRefusal::Activation(ActivationError::AlreadyActivated),
            "this sandbox has already been activated",
        ),
        (
            ControlRefusal::Stop(StopError::NotStoppable {
                state: LifecycleState::Exited,
            }),
            "stop is not legal in state exited",
        ),
        (
            ControlRefusal::Cleanup {
                state: LifecycleState::Running,
            },
            "cleanup verification is not legal in state running",
        ),
        (
            ControlRefusal::Probe(ProbeError::ChildUnreachable { errno: 0 }),
            "the held child could not be reached: errno 0",
        ),
        (
            ControlRefusal::ProbeAfterActivation {
                state: LifecycleState::Running,
                required_scope: ProbeScope::RederivedSibling,
            },
            "a probe after activation would be scope rederived_sibling, which this build does not \
             produce; run is running",
        ),
        (
            ControlRefusal::NoTerminal,
            "this run is headless: there is no terminal to attach to",
        ),
        (
            ControlRefusal::Unimplemented {
                op: "reprepare".to_string(),
            },
            "control operation reprepare is not implemented in this build",
        ),
    ] {
        assert_eq!(refusal.to_text(), text);
        assert_eq!(refusal.clone(), refusal);
    }
}

#[test]
fn a_reply_that_answers_a_different_question_is_named_not_panicked_on() {
    let err = unexpected("stopped", &ControlReply::Farewell);
    assert_eq!(
        err,
        DetachedError::UnexpectedReply {
            expected: "stopped",
            received: "farewell".to_string(),
        }
    );
    assert_eq!(
        err.to_text(),
        "the supervisor answered farewell where stopped was expected"
    );
}

#[test]
fn a_refusal_is_reachable_without_matching_on_the_whole_error() {
    let refused = DetachedError::Refused(ControlRefusal::Busy);
    assert_eq!(refused.refusal(), Some(&ControlRefusal::Busy));
    assert_eq!(
        DetachedError::NoSupervisor {
            session_id: SessionId(0)
        }
        .refusal(),
        None
    );
}

#[test]
fn the_wait_bound_is_shorter_than_the_transport_bound_it_rides_on() {
    assert!(
        MAX_CONTROL_WAIT < MAX_CONTROL_WAIT + CONTROL_TIMEOUT,
        "the reply allowance must be strictly more than the wait itself"
    );
    assert!(CONTROL_TIMEOUT > NANOS_PER_SECOND);
}

fn supervisor() -> ProcessIdentity {
    ProcessIdentity::from_parts(77, Some(5), None)
}

fn greeting(protocol: u32, session: u128, generation: u64) -> Result<ControlReply, FrameError> {
    Ok(ControlReply::Hello {
        protocol,
        session_id: SessionId(session),
        generation,
        state: LifecycleState::Prepared,
    })
}

fn connected() -> DetachedSession {
    match DetachedSession::connect(SessionId(4), 2, supervisor(), greeting(2, 4, 2)) {
        Ok(session) => session,
        Err(err) => panic!("the hello must be accepted: {}", err.to_text()),
    }
}

#[test]
fn a_hello_is_checked_on_this_side_too() {
    assert!(
        hello(SessionId(4), 2)
            == ControlRequest::Hello {
                protocol: CONTROL_PROTOCOL_VERSION,
                session_id: SessionId(4),
                generation: 2
            }
    );
    let connect = |reply| DetachedSession::connect(SessionId(4), 2, supervisor(), reply).err();
    assert_eq!(
        connect(greeting(1, 9, 9)),
        Some(DetachedError::Refused(ControlRefusal::ProtocolVersion {
            expected: 2,
            supplied: 1
        }))
    );
    assert_eq!(
        connect(greeting(2, 9, 9)),
        Some(DetachedError::Refused(ControlRefusal::WrongSession {
            expected: SessionId(4),
            supplied: SessionId(9)
        }))
    );
    assert_eq!(
        connect(greeting(2, 4, 9)),
        Some(DetachedError::Refused(ControlRefusal::WrongGeneration {
            expected: 2,
            supplied: 9
        }))
    );
    assert_eq!(
        connect(Ok(ControlReply::Farewell)),
        Some(unexpected("hello", &ControlReply::Farewell))
    );
    assert_eq!(
        connect(Err(FrameError::Timeout)),
        Some(DetachedError::Frame(FrameError::Timeout))
    );
    let session = connected();
    assert_eq!(session.session_id(), SessionId(4));
    assert_eq!(session.generation(), 2);
    assert_eq!(session.supervisor(), &supervisor());
    assert_eq!(session.opened_in(), LifecycleState::Prepared);
    assert_eq!(session.cgroup(), None);
}

#[test]
fn an_activation_learns_the_cgroup() {
    let mut session = connected();
    let handle = ActivationHandle::new(SessionId(4), 2, [7; ACTIVATION_TOKEN_BYTES]);
    let mut request = session.activate_request(&handle);
    assert!(
        request
            == ControlRequest::Activate {
                token: [7; ACTIVATION_TOKEN_BYTES]
            }
    );
    wipe_request(&mut request);
    assert!(
        request
            == ControlRequest::Activate {
                token: [0; ACTIVATION_TOKEN_BYTES]
            }
    );
    let mut stop = ControlRequest::Stop;
    wipe_request(&mut stop);
    assert!(stop == ControlRequest::Stop);
    let refusal = ControlRefusal::Activation(ActivationError::InvalidActivationToken);
    assert_eq!(
        session.activate(Ok(ControlReply::Refused {
            refusal: refusal.clone()
        })),
        Err(DetachedError::Refused(refusal))
    );
    assert_eq!(session.cgroup(), None);
    assert_eq!(
        session.activate(Ok(ControlReply::Activated {
            state: LifecycleState::Running,
            cgroup: Some("nono-4".to_string())
        })),
        Ok(LifecycleState::Running)
    );
    assert_eq!(session.cgroup(), Some("nono-4"));
}

fn ended() -> SandboxExit {
    SandboxExit::new(
        ExitOutcome::Exited { code: 3 },
        ActivationObservation::Observed,
        supervisor(),
    )
}

#[test]
fn a_long_wait_is_made_of_short_ones() {
    let (request, timeout) = connected().wait_request(Nanos(0), Nanos::from_secs(45));
    assert!(
        request
            == ControlRequest::Wait {
                deadline_millis: 30_000
            }
    );
    assert_eq!(timeout, Nanos::from_secs(40));
    let (request, timeout) =
        connected().wait_request(Nanos::from_secs(30), Nanos::from_secs(45));
    assert!(
        request
            == ControlRequest::Wait {
                deadline_millis: 15_000
            }
    );
    assert_eq!(timeout, Nanos::from_secs(25));
    let still = || {
        Ok(ControlReply::Waited {
            outcome: WaitOutcome::StillRunning,
        })
    };
    assert_eq!(
        connected().wait(still(), Nanos(1), Nanos(2)),
        Ok(WaitStep::Again)
    );
    assert_eq!(
        connected().wait(still(), Nanos(2), Nanos(2)),
        Ok(WaitStep::Done(WaitOutcome::StillRunning))
    );
    match connected().wait(
        Ok(ControlReply::Waited {
            outcome: WaitOutcome::Exit(ended()),
        }),
        Nanos(1),
        Nanos(2),
    ) {
        Ok(WaitStep::Done(outcome)) => assert_eq!(outcome.exit(), Some(&ended())),
        other => panic!("an exit ends the wait: {other:?}"),
    }
    assert_eq!(WaitOutcome::StillRunning.exit(), None);
}

#[test]
fn each_operation_takes_only_its_own_reply() {
    assert_eq!(
        connected().stop(Ok(ControlReply::Stopped { exit: ended() })),
        Ok(ended())
    );
    assert_eq!(
        connected().stop(Ok(ControlReply::Farewell)).err(),
        Some(unexpected("stopped", &ControlReply::Farewell))
    );
    let verdict = CleanupVerification::ConfirmedAbsent {
        basis: AbsenceBasis::BootIdChanged,
    };
    let cleanup = || ControlReply::Cleanup {
        verdict,
        state: LifecycleState::CleanupVerified,
    };
    assert_eq!(
        connected().verify_cleanup(Ok(cleanup())),
        Ok(verdict)
    );
    assert_eq!(
        connected().status(Ok(cleanup())).err(),
        Some(DetachedError::UnexpectedReply {
            expected: "status",
            received: "cleanup".to_string()
        })
    );
    let status = SessionStatus::new(
        LifecycleState::Exited,
        SessionRecord {
            state: LifecycleState::Running,
            events: vec![],
            exit: Some(ended()),
        },
    );
    assert_eq!(status.state(), LifecycleState::Exited);
    assert_eq!(status.record().state, LifecycleState::Running);
    assert!(status.events().is_empty());
    assert_eq!(status.exit(), Some(&ended()));
    match connected().status(Ok(ControlReply::Status {
        status: Box::new(status),
    })) {
        Ok(told) => assert_eq!(told.state(), LifecycleState::Exited),
        Err(err) => panic!("a status is a status: {}", err.to_text()),
    }
    let seen = || ProbeObservation {
        id: ProbeId::new("wire"),
        outcome: ProbeOutcome::Refused {
            errno: libc::EACCES,
        },
        mechanism: EnforcementMechanism::Seatbelt,
        scope: ProbeScope::InstalledChild,
        denial_observed: false,
        observed_at: Timestamp(1_755_000_000_123_000_000),
    };
    assert_eq!(
        connected().probe_enforcement(Ok(ControlReply::ProbeObservation(seen()))),
        Ok(seen()),
        "an observation must cross unchanged"
    );
    let ack = || AttachAck {
        state: LifecycleState::Running,
        replayed: 7,
        dropped: 3,
        exit: None,
    };
    assert_eq!(
        connected().attach(Ok(ControlReply::AttachAck {
            ack: Box::new(ack())
        })),
        Ok(ack())
    );
    assert_eq!(
        connected().attach(Ok(ControlReply::Refused {
            refusal: ControlRefusal::NoTerminal
        })),
        Err(DetachedError::Refused(ControlRefusal::NoTerminal))
    );
    assert_eq!(reply_name(&ControlReply::Farewell), "farewell");
    assert_eq!(
        exchanged(Ok(ControlReply::Farewell)),
        Ok(ControlReply::Farewell)
    );
    assert_ne!(Probe::Absent, Probe::Present);
}

#[test]
fn detached_errors_say_what_failed() {
    assert_eq!(
        DetachedError::NoSupervisor {
            session_id: SessionId(0)
        }
        .to_text(),
        "session 00000000-0000-0000-0000-000000000000 has no live supervisor to attach to"
    );
    let refused = connect_error(&PathBytes::from_text("/s/x.sock"), Some(libc::ECONNREFUSED));
    assert_eq!(
        refused.to_text(),
        "control socket /s/x.sock could not be connected to: errno 111"
    );
    assert_eq!(
        connect_error(&PathBytes::from_text("/s"), None),
        DetachedError::Connect {
            path: PathBytes::from_text("/s"),
            errno: 0
        }
    );
    assert_eq!(
        DetachedError::Refused(ControlRefusal::Busy).to_text(),
        ControlRefusal::Busy.to_text()
    );
    assert_eq!(
        DetachedError::Frame(FrameError::Closed).to_text(),
        FrameError::Closed.to_text()
    );
}
