use nono::lifecycle::gate::{
    ct_eq, token_digest, GateDecision, GateSecrets, GATE_MESSAGE_BYTES, TOKEN_DIGEST_BYTES,
};
use nono::lifecycle::session::{SessionIdError, SessionIds, RANDOM_BYTES};
use nono::lifecycle::{
    ActivationError, ActivationHandle, LifecycleState, PreExecStage, ReapError, SessionId,
    StopError, SupervisorStage, ACTIVATION_TOKEN_BYTES,
};

fn fresh() -> SessionId {
    match SessionIds::new().fresh() {
        Ok(id) => id,
        Err(err) => panic!("a session must be nameable here: {err:?}"),
    }
}

fn token(fill: u8) -> [u8; ACTIVATION_TOKEN_BYTES] {
    [fill; ACTIVATION_TOKEN_BYTES]
}

#[test]
fn debug_never_renders_the_token() {
    let secret = token(0xAB);
    let handle = ActivationHandle::new(SessionId(0), 1, secret);
    let rendered = handle.to_text();
    assert!(rendered.contains("<redacted>"), "{rendered}");
    assert!(
        !rendered.contains(&format!("{secret:?}")),
        "the token array leaked: {rendered}"
    );
    // Neither the decimal nor the hex spelling of a token byte appears.
    assert!(!rendered.contains("171"), "{rendered}");
    assert!(!rendered.contains("ab"), "{rendered}");
}

#[test]
fn handle_reports_its_session_and_generation() {
    let session_id = fresh();
    let handle = ActivationHandle::new(session_id, 7, token(1));
    assert_eq!(handle.session_id(), session_id);
    assert_eq!(handle.generation(), 7);
}

#[test]
fn the_digest_is_not_the_token() {
    let secret = token(0x5A);
    let digest = token_digest(&secret);
    assert_ne!(digest, secret, "storing the token would defeat the digest");
}

#[test]
fn the_digest_is_stable_and_distinguishes_tokens() {
    assert_eq!(token_digest(&token(1)), token_digest(&token(1)));
    assert_ne!(token_digest(&token(1)), token_digest(&token(2)));
}

#[test]
fn the_digest_is_sha_256() {
    // SHA-256 of thirty-two zero bytes.
    let expected: [u8; TOKEN_DIGEST_BYTES] = [
        0x66, 0x68, 0x7a, 0xad, 0xf8, 0x62, 0xbd, 0x77, 0x6c, 0x8f, 0xc1, 0x8b, 0x8e, 0x9f, 0x8e,
        0x20, 0x08, 0x97, 0x14, 0x85, 0x6e, 0xe2, 0x33, 0xb3, 0x90, 0x2a, 0x59, 0x1d, 0x0d, 0x5f,
        0x29, 0x25,
    ];
    assert_eq!(token_digest(&token(0)), expected);
}

#[test]
fn constant_time_compare_accepts_only_exact_matches() {
    let digest = token_digest(&token(9));
    assert!(ct_eq(&digest, &digest));

    let mut first_byte_differs = digest;
    first_byte_differs[0] ^= 0x01;
    assert!(!ct_eq(&digest, &first_byte_differs));

    let mut last_byte_differs = digest;
    last_byte_differs[TOKEN_DIGEST_BYTES - 1] ^= 0x01;
    assert!(!ct_eq(&digest, &last_byte_differs));
}

#[test]
fn constant_time_compare_rejects_length_mismatches() {
    assert!(!ct_eq(&[1, 2, 3], &[1, 2]));
    assert!(!ct_eq(&[], &[0]));
    assert!(ct_eq(&[], &[]));
}

#[test]
fn a_closed_gate_names_why_it_is_closed() {
    assert_eq!(
        ActivationError::from_closed_gate(LifecycleState::Activating),
        ActivationError::AlreadyActivated
    );
    assert_eq!(
        ActivationError::from_closed_gate(LifecycleState::Running),
        ActivationError::AlreadyActivated
    );
    assert_eq!(
        ActivationError::from_closed_gate(LifecycleState::Exited),
        ActivationError::AlreadyActivated
    );
    assert_eq!(
        ActivationError::from_closed_gate(LifecycleState::Stopping),
        ActivationError::AlreadyStopped
    );
    assert_eq!(
        ActivationError::from_closed_gate(LifecycleState::Stopped),
        ActivationError::AlreadyStopped
    );
    assert_eq!(
        ActivationError::from_closed_gate(LifecycleState::Failed),
        ActivationError::GateUnavailable {
            state: LifecycleState::Failed
        }
    );
}

fn secrets() -> GateSecrets {
    match GateSecrets::generate() {
        Ok(secrets) => secrets,
        Err(err) => panic!("the system CSPRNG must answer: {err}"),
    }
}

#[test]
fn the_gate_recognises_its_own_two_messages() {
    let secrets = secrets();
    assert_eq!(
        secrets.classify(secrets.release()),
        GateDecision::Release,
        "the release message must release"
    );
    assert_eq!(
        secrets.classify(secrets.abort()),
        GateDecision::Abort,
        "the abort message must abort"
    );
    assert_ne!(
        secrets.release(),
        secrets.abort(),
        "release and abort must never be the same bytes"
    );
    assert_eq!(secrets.classify(secrets.probe()), GateDecision::Probe);
}

#[test]
fn a_message_the_gate_did_not_issue_is_refused() {
    let secrets = secrets();
    for guess in [
        [0x00; GATE_MESSAGE_BYTES],
        [0xFF; GATE_MESSAGE_BYTES],
        [b'R'; GATE_MESSAGE_BYTES],
        [b'A'; GATE_MESSAGE_BYTES],
    ] {
        assert_eq!(
            secrets.classify(&guess),
            GateDecision::Unknown,
            "a guessed message must never release or abort"
        );
    }
}

#[test]
fn a_near_miss_message_is_refused() {
    let secrets = secrets();
    for flipped in [0, GATE_MESSAGE_BYTES / 2, GATE_MESSAGE_BYTES - 1] {
        let mut nearly = *secrets.release();
        nearly[flipped] ^= 0x01;
        assert_eq!(
            secrets.classify(&nearly),
            GateDecision::Unknown,
            "one wrong bit at index {flipped} must still be refused"
        );
    }
}

#[test]
fn two_gates_never_share_a_release_message() {
    assert_ne!(secrets().release(), secrets().release());
}

#[test]
fn gate_secrets_debug_never_renders_either_message() {
    let rendered = secrets().to_text();
    assert!(rendered.contains("<redacted>"), "{rendered}");
    assert!(!rendered.contains('['), "{rendered}");
}

#[test]
fn activation_errors_never_render_secret_material() {
    let errors = [
        ActivationError::InvalidActivationToken,
        ActivationError::ActivationExpired,
        ActivationError::AlreadyActivated,
        ActivationError::AlreadyStopped,
    ];
    for error in errors {
        let rendered = error.to_text();
        assert!(!rendered.contains("token: "), "{rendered}");
        assert!(!rendered.contains("digest"), "{rendered}");
    }
}

#[test]
fn a_draw_is_kept_as_it_was_and_the_first_failure_is_reported() {
    let (one, two, three) = (
        Ok([1; GATE_MESSAGE_BYTES]),
        Ok([2; GATE_MESSAGE_BYTES]),
        Ok([3; GATE_MESSAGE_BYTES]),
    );
    match GateSecrets::from_draws(one, two, three) {
        Ok(secrets) => {
            assert_eq!(secrets.release(), &[1; GATE_MESSAGE_BYTES]);
            assert_eq!(secrets.abort(), &[2; GATE_MESSAGE_BYTES]);
            assert_eq!(secrets.probe(), &[3; GATE_MESSAGE_BYTES]);
        }
        Err(err) => panic!("three messages make a gate: {err}"),
    }
    let early = getrandom::Error::UNSUPPORTED;
    let late = getrandom::Error::new_custom(7);
    assert_ne!(early, late);
    for (release, abort, probe, first) in [
        (Err(early), Err(late), three, early),
        (one, Err(late), Err(early), late),
        (one, two, Err(early), early),
    ] {
        assert_eq!(
            GateSecrets::from_draws(release, abort, probe).err(),
            Some(first)
        );
    }
}

#[test]
fn a_message_that_is_two_messages_is_none() {
    let same = [7; GATE_MESSAGE_BYTES];
    let confused = GateSecrets::from_messages(same, same, [9; GATE_MESSAGE_BYTES]);
    assert_eq!(confused.classify(&same), GateDecision::Unknown);
    assert_eq!(
        confused.classify(&[9; GATE_MESSAGE_BYTES]),
        GateDecision::Probe
    );
}

#[test]
fn activation_and_stop_errors_say_what_was_refused() {
    assert_eq!(
        ActivationError::WrongGeneration {
            expected: 7,
            supplied: 6
        }
        .to_text(),
        "activation handle is for generation 6, not 7"
    );
    assert_eq!(
        ActivationError::WrongSession {
            expected: SessionId(1),
            supplied: SessionId(0)
        }
        .to_text(),
        "activation handle is for session 00000000-0000-0000-0000-000000000000, \
         not 00000000-0000-0000-0000-000000000001"
    );
    assert_eq!(
        ActivationError::GateUnavailable {
            state: LifecycleState::Failed
        }
        .to_text(),
        "the activation gate is not open in state failed"
    );
    assert_eq!(
        ActivationError::PreExecFailed {
            stage: PreExecStage::Exec,
            errno: 2
        }
        .to_text(),
        "child failed before exec at stage exec: errno 2"
    );
    assert_eq!(
        ActivationError::SupervisorFailed {
            stage: SupervisorStage::Release,
            errno: -1
        }
        .to_text(),
        "supervisor failed at stage release: errno -1"
    );
    assert_eq!(
        StopError::NotStoppable {
            state: LifecycleState::Exited
        }
        .to_text(),
        "stop is not legal in state exited"
    );
    assert_eq!(
        StopError::SignalFailed {
            target: 9,
            errno: 1
        }
        .to_text(),
        "stop signal could not be delivered to 9: errno 1"
    );
    let reap = ReapError { pid: 3, errno: 10 };
    assert_eq!(StopError::Reap(reap).to_text(), reap.to_text());
}

#[test]
fn a_session_identifier_is_its_time_and_its_draw() {
    let random: [u8; RANDOM_BYTES] = [0xFF, 0xCC, 0xFF, 0x0C, 0x0C, 0x3F, 1, 2, 3, 0x98];
    let span = 0x017F_22E2_79B0_u128 * 1_000_000 + 999_999;
    assert_eq!(
        SessionId::from_draw(Ok(span), Ok(random)),
        Ok(SessionId(0x017F_22E2_79B0_7FCC_BF0C_0C3F_0102_0398))
    );
    assert_eq!(
        SessionId::from_draw(Err(1), Ok(random)),
        Err(SessionIdError::ClockBeforeEpoch)
    );
    assert_eq!(
        SessionId::from_draw(Ok(span), Err(getrandom::Error::UNSUPPORTED)),
        Err(SessionIdError::NoRandomness)
    );
    assert_eq!(
        SessionId::from_draw(Err(1), Err(getrandom::Error::UNSUPPORTED)),
        Err(SessionIdError::ClockBeforeEpoch)
    );
}

#[test]
fn session_identifiers_are_ordered_by_their_creation() {
    let mut ids = SessionIds::new();
    let mut last = None;
    for _ in 0..10_000 {
        let id = match ids.fresh() {
            Ok(id) => id.0,
            Err(err) => panic!("a session must be nameable here: {err:?}"),
        };
        assert_eq!((id >> 76) & 0xF, 7);
        assert_eq!((id >> 62) & 3, 2);
        assert!(Some(id) > last);
        last = Some(id);
    }
}

#[test]
fn an_identifier_follows_the_last_whatever_the_clock_does() {
    let late: u128 = 0x017F_22E2_79B0 * 1_000_000;
    let mut ids = SessionIds::new();
    let first = SessionId(0x017F_22E2_79B0_7FCC_BFFF_FFFF_0102_0398);
    let draw: [u8; RANDOM_BYTES] = [0xFF, 0xCC, 0xFF, 0xFF, 0xFF, 0xFF, 1, 2, 3, 0x98];
    assert_eq!(ids.next(Ok(late), Ok(draw)), Ok(first));
    // An earlier draw of the same time takes the next counter and its own tail.
    let low: [u8; RANDOM_BYTES] = [0, 0, 0, 0, 0, 0, 9, 9, 9, 9];
    assert_eq!(
        ids.next(Ok(late), Ok(low)),
        Ok(SessionId(0x017F_22E2_79B0_7FCD_8000_0000_0909_0909))
    );
    // A clock that stepped back does not bring the identifiers back.
    assert_eq!(
        ids.next(Ok(1), Ok(low)),
        Ok(SessionId(0x017F_22E2_79B0_7FCD_8000_0001_0909_0909))
    );
    // What could not be made is not counted.
    assert_eq!(
        ids.next(Err(1), Ok(low)),
        Err(SessionIdError::ClockBeforeEpoch)
    );
    assert_eq!(
        ids.next(Ok(1), Err(getrandom::Error::UNSUPPORTED)),
        Err(SessionIdError::NoRandomness)
    );
    assert_eq!(
        ids.next(Ok(1), Ok(low)),
        Ok(SessionId(0x017F_22E2_79B0_7FCD_8000_0002_0909_0909))
    );
    // A later time needs no counter.
    assert_eq!(
        ids.next(Ok(late + 1_000_000), Ok(low)),
        Ok(SessionId(0x017F_22E2_79B1_7000_8000_0000_0909_0909))
    );
}

#[test]
fn a_used_up_counter_moves_the_time_on() {
    let full: [u8; RANDOM_BYTES] = [0xFF; RANDOM_BYTES];
    let mut ids = SessionIds::new();
    assert_eq!(
        ids.next(Ok(5_000_000), Ok(full)),
        Ok(SessionId(0x0000_0000_0005_7FFF_BFFF_FFFF_FFFF_FFFF))
    );
    assert_eq!(
        ids.next(Ok(5_000_000), Ok(full)),
        Ok(SessionId(0x0000_0000_0006_7000_8000_0000_FFFF_FFFF))
    );
    let end: u128 = 0xFFFF_FFFF_FFFF * 1_000_000;
    let last = SessionId(0xFFFF_FFFF_FFFF_7FFF_BFFF_FFFF_FFFF_FFFF);
    assert_eq!(ids.next(Ok(end), Ok(full)), Ok(last));
    assert_eq!(
        ids.next(Ok(end), Ok(full)),
        Err(SessionIdError::Exhausted)
    );
}

#[test]
fn session_identifiers_are_version_seven_and_render_their_bits() {
    let id = fresh();
    assert_eq!((id.0 >> 76) & 0xF, 7);
    assert_ne!(id, fresh());
    let fixed = SessionId(0x0123_4567_89ab_cdef_0123_4567_89ab_cdef);
    assert_eq!(fixed.to_text(), "01234567-89ab-cdef-0123-456789abcdef");
    assert_eq!(fixed.to_simple_text(), "0123456789abcdef0123456789abcdef");
    assert_eq!(
        fixed.to_text(),
        uuid::Uuid::from_u128(fixed.0).to_string()
    );
}
