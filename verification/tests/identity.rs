use nix::unistd::getpid;
use nono::lifecycle::identity::{boot_id, boot_time_id, process_start_time, start_time_of};
use nono::lifecycle::ProcessIdentity;

fn read_text(path: &str) -> Option<String> {
    let file = nix::fcntl::open(
        path,
        nix::fcntl::OFlag::O_RDONLY,
        nix::sys::stat::Mode::empty(),
    )
    .ok()?;
    let mut text = Vec::new();
    let mut buffer = [0_u8; 4096];
    loop {
        match nix::unistd::read(&file, &mut buffer) {
            Ok(0) => break,
            Ok(count) => text.extend_from_slice(&buffer[..count]),
            Err(_) => return None,
        }
    }
    String::from_utf8(text).ok()
}

fn stat_of(pid: i32) -> Option<String> {
    read_text(&format!("/proc/{pid}/stat"))
}

fn boot_text() -> Option<String> {
    read_text("/proc/sys/kernel/random/boot_id")
}

fn current_boot() -> Option<String> {
    boot_text().and_then(|raw| boot_id(&raw))
}

fn current_pid() -> i32 {
    getpid().as_raw()
}

fn captured() -> ProcessIdentity {
    ProcessIdentity::capture(current_pid(), stat_of(current_pid()), boot_text())
}

fn is_same_process(identity: &ProcessIdentity) -> bool {
    let start = stat_of(identity.pid()).and_then(|stat| process_start_time(&stat));
    identity.is_same_process(start, &current_boot())
}

#[test]
fn capturing_our_own_identity_recognises_us() {
    let identity = captured();
    assert_eq!(identity.pid(), current_pid());
    assert!(
        is_same_process(&identity),
        "the running process must recognise itself: {identity:?}"
    );
}

#[test]
fn this_platform_reports_a_start_time() {
    assert!(
        captured().start_time().is_some(),
        "supported platforms must report a start time"
    );
}

#[test]
fn this_platform_reports_a_boot_id() {
    assert!(
        captured().boot_id().is_some(),
        "supported platforms must report a boot identity"
    );
}

#[test]
fn a_changed_start_time_is_not_the_same_process() {
    let identity = captured();
    let recycled = ProcessIdentity::from_parts(
        identity.pid(),
        identity.start_time().map(|value| value.wrapping_add(1)),
        identity.boot_id().map(str::to_string),
    );
    assert!(
        !is_same_process(&recycled),
        "a pid whose start time moved is a different process"
    );
}

#[test]
fn a_changed_boot_id_is_not_the_same_process() {
    let identity = captured();
    let rebooted = ProcessIdentity::from_parts(
        identity.pid(),
        identity.start_time(),
        Some("not-this-boot".to_string()),
    );
    assert!(
        !is_same_process(&rebooted),
        "a pid from another boot is a different process"
    );
}

#[test]
fn a_missing_start_time_fails_closed() {
    let identity = ProcessIdentity::from_parts(current_pid(), None, current_boot());
    assert!(
        !is_same_process(&identity),
        "an unrecorded start time must never verify"
    );
}

#[test]
fn a_missing_boot_id_fails_closed() {
    let nameless = ProcessIdentity::from_parts(7, Some(1), None);
    assert!(!nameless.is_same_process(Some(1), &None));
    assert!(!nameless.is_same_process(Some(1), &Some("boot".to_string())));
    let named = ProcessIdentity::from_parts(7, Some(1), Some("boot".to_string()));
    assert!(!named.is_same_process(Some(1), &None));
    assert!(named.is_same_process(Some(1), &Some("boot".to_string())));
}

#[test]
fn an_unreadable_pid_is_not_the_same_process() {
    // pid 0 is not a process that can be read.
    let identity = ProcessIdentity::from_parts(0, Some(1), current_boot());
    assert!(!is_same_process(&identity));
}

#[test]
fn the_start_time_is_the_twenty_second_field_after_the_last_paren() {
    let stat = "1 (a) b (c)) S 0 1 1 0 -1 4194560 1 2 3 4 5 6 7 8 20 0 1 0 987 10 11";
    assert_eq!(process_start_time(stat), Some(987));
    assert_eq!(process_start_time("1 (x) S 0 1"), None);
    assert_eq!(process_start_time("no paren at all"), None);
}

#[test]
fn a_boot_id_is_trimmed_and_never_empty() {
    assert_eq!(boot_id("  abc-def\n"), Some("abc-def".to_string()));
    assert_eq!(boot_id(" \n"), None);
}

#[test]
fn split_clocks_are_joined() {
    assert_eq!(start_time_of(3, 7), Some(3_000_007));
    assert_eq!(start_time_of(u64::MAX, 0), None);
    assert_eq!(boot_time_id(1_754_990_000, 42), "1754990000.000042");
}
