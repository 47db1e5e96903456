use nix::sys::signal::{kill, killpg};
use nix::unistd::{getpid, Pid};
use nono::lifecycle::cleanup::{
    classify, question, verify_after_reap, verify_and_record, verify_identity, Answers,
    DeathObservation, Probe, Question,
};
use nono::lifecycle::identity::{boot_id, process_start_time};
use nono::lifecycle::state::Transition;
use nono::lifecycle::sync_core::SharedLifecycle;
use nono::lifecycle::{
    AbsenceBasis, CleanupError, CleanupVerification, IndeterminateReason, LifecycleState,
    ProcessIdentity, SurvivorEvidence, UnsupportedReason,
};

fn read_text(path: &str) -> Option<String> {
    let file = nix::fcntl::open(
        path,
        nix::fcntl::OFlag::O_RDONLY,
        nix::sys::stat::Mode::empty(),
    )
    .ok()?;
    let mut text = Vec::new();
    let mut buffer = [0_u8; 4096];
    loop {
        match nix::unistd::read(&file, &mut buffer) {
            Ok(0) => break,
            Ok(count) => text.extend_from_slice(&buffer[..count]),
            Err(_) => return None,
        }
    }
    String::from_utf8(text).ok()
}

fn stat_of(pid: i32) -> Option<String> {
    read_text(&format!("/proc/{pid}/stat"))
}

fn boot_text() -> Option<String> {
    read_text("/proc/sys/kernel/random/boot_id")
}

fn current_boot() -> Option<String> {
    boot_text().and_then(|raw| boot_id(&raw))
}

fn current_pid() -> i32 {
    getpid().as_raw()
}

/// This process, as it really is.
fn live_identity() -> ProcessIdentity {
    ProcessIdentity::capture(current_pid(), stat_of(current_pid()), boot_text())
}

/// What the platform says now about what has to be asked.
fn answers(identity: &ProcessIdentity, pgid: i32, death: DeathObservation) -> Answers {
    let boot_id = current_boot();
    let probe = match question(identity, pgid, death, &boot_id) {
        Question::Group(pgid) => {
            classify(killpg(Pid::from_raw(pgid), None).map_err(|errno| errno as i32))
        }
        Question::Pid(pid) => classify(kill(Pid::from_raw(pid), None).map_err(|errno| errno as i32)),
        Question::Settled(_) => Probe::Failed(0),
    };
    Answers {
        boot_id,
        probe: Ok(probe),
        start_time: stat_of(identity.pid()).and_then(|stat| process_start_time(&stat)),
    }
}

/// A process group that answers.
const LIVE_GROUP: i32 = 4242;

/// What the platform says where the probed group has a member.
fn group_answers() -> Answers {
    Answers {
        boot_id: current_boot(),
        probe: Ok(classify(Ok(()))),
        start_time: None,
    }
}

fn identity_verdict(identity: &ProcessIdentity) -> CleanupVerification {
    verify_identity(
        identity,
        &answers(identity, i32::MAX, DeathObservation::NotReaped),
    )
}

fn reaped_verdict(identity: &ProcessIdentity, pgid: i32) -> CleanupVerification {
    verify_after_reap(
        identity,
        pgid,
        &answers(identity, pgid, DeathObservation::Reaped),
    )
}

fn recorded(
    shared: &mut SharedLifecycle,
    identity: &ProcessIdentity,
    pgid: i32,
    death: DeathObservation,
) -> Result<(CleanupVerification, Option<Transition>), CleanupError> {
    let answers = answers(identity, pgid, death);
    verify_and_record(shared, identity, pgid, death, &answers)
}

#[test]
fn a_reused_pid_proves_the_recorded_process_is_gone() {
    let live = live_identity();
    let reused = ProcessIdentity::from_parts(
        live.pid(),
        live.start_time().map(|value| value.wrapping_sub(1)),
        live.boot_id().map(str::to_string),
    );
    assert_eq!(
        identity_verdict(&reused),
        CleanupVerification::ConfirmedAbsent {
            basis: AbsenceBasis::IdentityMismatch { pid: reused.pid() }
        }
    );
}

#[test]
fn a_live_matching_identity_is_reported_as_still_present() {
    let live = live_identity();
    assert_eq!(
        identity_verdict(&live),
        CleanupVerification::StillPresent {
            survivors: SurvivorEvidence::IdentityMatch { pid: live.pid() }
        }
    );
}

#[test]
fn a_boot_change_proves_absence_without_probing_the_pid() {
    let live = live_identity();
    let previous_boot = ProcessIdentity::from_parts(
        live.pid(),
        live.start_time(),
        Some("boot-that-is-not-this-one".to_string()),
    );
    assert_eq!(
        identity_verdict(&previous_boot),
        CleanupVerification::ConfirmedAbsent {
            basis: AbsenceBasis::BootIdChanged
        }
    );
    assert_eq!(
        reaped_verdict(&previous_boot, live.pid()),
        CleanupVerification::ConfirmedAbsent {
            basis: AbsenceBasis::BootIdChanged
        }
    );
}

#[test]
fn an_unreadable_start_time_is_indeterminate_not_a_proof_of_absence() {
    let live = live_identity();
    let unrecorded =
        ProcessIdentity::from_parts(live.pid(), None, live.boot_id().map(str::to_string));
    assert_eq!(
        identity_verdict(&unrecorded),
        CleanupVerification::Indeterminate {
            reason: IndeterminateReason::IdentityUnreadable { pid: live.pid() }
        }
    );
}

#[test]
fn a_pid_no_process_can_hold_is_confirmed_absent() {
    let absent = ProcessIdentity::from_parts(i32::MAX, Some(1), current_boot());
    assert_eq!(
        identity_verdict(&absent),
        CleanupVerification::ConfirmedAbsent {
            basis: AbsenceBasis::PidAbsent { pid: i32::MAX }
        }
    );
}

#[test]
fn a_process_group_that_would_name_our_own_is_never_probed() {
    let live = live_identity();
    for pgid in [0, 1, -1, i32::MIN] {
        assert_eq!(
            reaped_verdict(&live, pgid),
            CleanupVerification::Indeterminate {
                reason: IndeterminateReason::UnprobableProcessGroup { pgid }
            },
            "pgid {pgid} must never be probed"
        );
    }
}

#[test]
fn a_pid_that_would_name_our_own_group_is_never_probed() {
    for pid in [0, -1, i32::MIN] {
        let identity = ProcessIdentity::from_parts(pid, Some(1), current_boot());
        assert_eq!(
            identity_verdict(&identity),
            CleanupVerification::Indeterminate {
                reason: IndeterminateReason::UnprobablePid { pid }
            },
            "pid {pid} must never be probed"
        );
    }
}

#[test]
fn a_group_with_a_live_member_is_reported_as_still_present() {
    let live = live_identity();
    let own_group = LIVE_GROUP;
    assert!(own_group > 1, "the group must be a real one");
    assert_eq!(
        verify_after_reap(&live, own_group, &group_answers()),
        CleanupVerification::StillPresent {
            survivors: SurvivorEvidence::ProcessGroupMember { pgid: own_group }
        }
    );
}

#[test]
fn an_empty_group_after_a_reap_is_confirmed_absent() {
    let live = live_identity();
    assert_eq!(
        reaped_verdict(&live, i32::MAX),
        CleanupVerification::ConfirmedAbsent {
            basis: AbsenceBasis::ReapedAndGroupEmpty { pgid: i32::MAX }
        }
    );
}

#[test]
fn only_a_proof_of_absence_records_the_confirmation() {
    let mut shared = SharedLifecycle::new(LifecycleState::Exited);
    let live = live_identity();
    let own_group = LIVE_GROUP;
    let (verdict, change) = match verify_and_record(
        &mut shared,
        &live,
        own_group,
        DeathObservation::Reaped,
        &group_answers(),
    ) {
            Ok(pair) => pair,
            Err(err) => panic!("verification must be legal in Exited: {err:?}"),
        };
    assert!(matches!(verdict, CleanupVerification::StillPresent { .. }));
    assert_eq!(change, None, "a survivor must not move the machine");
    assert_eq!(shared.state(), LifecycleState::Exited);
}

#[test]
fn a_confirmed_absence_moves_the_machine_exactly_once() {
    let mut shared = SharedLifecycle::new(LifecycleState::Stopped);
    let absent = ProcessIdentity::from_parts(i32::MAX, Some(1), current_boot());

    let (verdict, change) =
        match recorded(&mut shared, &absent, i32::MAX, DeathObservation::Reaped) {
            Ok(pair) => pair,
            Err(err) => panic!("verification must be legal in Stopped: {err:?}"),
        };
    assert!(verdict.is_confirmed_absent());
    assert_eq!(
        change,
        Some(Transition {
            from: LifecycleState::Stopped,
            to: LifecycleState::CleanupVerified,
        })
    );

    assert_eq!(
        recorded(&mut shared, &absent, i32::MAX, DeathObservation::Reaped),
        Err(CleanupError {
            state: LifecycleState::CleanupVerified
        })
    );
}

#[test]
fn a_run_whose_end_was_never_observed_is_refused_before_anything_is_probed() {
    for state in [
        LifecycleState::Planning,
        LifecycleState::Preparing,
        LifecycleState::Prepared,
        LifecycleState::Activating,
        LifecycleState::Running,
        LifecycleState::Stopping,
    ] {
        let mut shared = SharedLifecycle::new(state);
        assert_eq!(
            recorded(
                &mut shared,
                &live_identity(),
                i32::MAX,
                DeathObservation::NotReaped
            ),
            Err(CleanupError { state }),
            "verification must be refused in {state:?}"
        );
        assert_eq!(shared.state(), state, "a refusal must move nothing");
    }
}

#[test]
fn the_death_observation_chooses_the_probe() {
    let live = live_identity();
    let mut shared = SharedLifecycle::new(LifecycleState::Failed);
    let (reaped, _) = match recorded(&mut shared, &live, i32::MAX, DeathObservation::Reaped) {
        Ok(pair) => pair,
        Err(err) => panic!("verification must be legal in Failed: {err:?}"),
    };
    assert_eq!(
        reaped,
        CleanupVerification::ConfirmedAbsent {
            basis: AbsenceBasis::ReapedAndGroupEmpty { pgid: i32::MAX }
        }
    );

    let mut shared = SharedLifecycle::new(LifecycleState::Failed);
    let (not_reaped, _) =
        match recorded(&mut shared, &live, i32::MAX, DeathObservation::NotReaped) {
            Ok(pair) => pair,
            Err(err) => panic!("verification must be legal in Failed: {err:?}"),
        };
    assert_eq!(
        not_reaped,
        CleanupVerification::StillPresent {
            survivors: SurvivorEvidence::IdentityMatch { pid: live.pid() }
        }
    );
}

#[test]
fn a_sent_signal_is_never_part_of_a_verdict() {
    let bases = [
        AbsenceBasis::ReapedAndGroupEmpty { pgid: 2 },
        AbsenceBasis::PidAbsent { pid: 2 },
        AbsenceBasis::IdentityMismatch { pid: 2 },
        AbsenceBasis::BootIdChanged,
    ];
    for basis in bases {
        match basis {
            AbsenceBasis::ReapedAndGroupEmpty { .. }
            | AbsenceBasis::PidAbsent { .. }
            | AbsenceBasis::IdentityMismatch { .. }
            | AbsenceBasis::BootIdChanged => {}
        }
    }
}

#[test]
fn verdict_display_matches_the_serde_tag() {
    let verdict = CleanupVerification::Unsupported {
        reason: UnsupportedReason::NoProcessProbe,
    };
    assert_eq!(verdict.as_str().to_string(), "unsupported");
    assert_eq!(verdict.as_str(), "unsupported");
    assert!(!verdict.is_confirmed_absent());
}

#[test]
fn cleanup_error_names_the_state_that_refused() {
    let err = CleanupError {
        state: LifecycleState::Running,
    };
    assert!(err.to_text().contains("running"), "{}", err.to_text());
}

#[test]
fn a_probe_that_settles_nothing_says_why() {
    let run = ProcessIdentity::from_parts(40, Some(5), Some("boot".to_string()));
    let told = |probe| Answers {
        boot_id: Some("boot".to_string()),
        probe,
        start_time: None,
    };
    assert_eq!(
        verify_identity(&run, &told(Ok(Probe::Denied))),
        CleanupVerification::Indeterminate {
            reason: IndeterminateReason::PidProbeDenied { pid: 40 }
        }
    );
    assert_eq!(
        verify_after_reap(&run, 40, &told(Ok(Probe::Denied))),
        CleanupVerification::Indeterminate {
            reason: IndeterminateReason::ProcessGroupProbeDenied { pgid: 40 }
        }
    );
    assert_eq!(
        verify_after_reap(&run, 40, &told(Ok(Probe::Failed(22)))),
        CleanupVerification::Indeterminate {
            reason: IndeterminateReason::ProbeFailed {
                target: 40,
                errno: 22
            }
        }
    );
    assert_eq!(
        verify_identity(&run, &told(Err(UnsupportedReason::NoProcessProbe))),
        CleanupVerification::Unsupported {
            reason: UnsupportedReason::NoProcessProbe
        }
    );
    // The pid is alive and its start time cannot be read now.
    assert_eq!(
        verify_identity(&run, &told(Ok(Probe::Present))),
        CleanupVerification::Indeterminate {
            reason: IndeterminateReason::IdentityUnreadable { pid: 40 }
        }
    );
}

#[test]
fn signal_numbers_are_classified() {
    assert_eq!(classify(Ok(())), Probe::Present);
    assert_eq!(classify(Err(libc::ESRCH)), Probe::Absent);
    assert_eq!(classify(Err(libc::EPERM)), Probe::Denied);
    assert_eq!(classify(Err(libc::EINVAL)), Probe::Failed(libc::EINVAL));
}
