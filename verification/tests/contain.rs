use nono::capability::{CapabilitySet, CapabilitySource, NetworkMode};
use nono::capability_modes::landlock_map::{LandlockRightName, LandlockRightsAvailable};
use nono::capability_modes::rules::{landlock_rules, seatbelt_rules};
use nono::capability_modes::{Found, FsMode, FsModeCapability, FsModeSet, GrantError};
use nono::lifecycle::cgroup::{cgroup_name, CgroupError, RunCgroup, CGROUP2_ROOT};
use nono::lifecycle::descriptors::{descriptor_limit, is_kept, sort_keepers, Sweep};
use nono::lifecycle::SessionId;
use nono::path::PathBytes;

fn root() -> PathBytes {
    PathBytes::from_text(CGROUP2_ROOT)
}

#[test]
fn a_name_that_is_not_one_component_is_refused() {
    for name in ["", "a/b", "..", "../escape", "a/../b"] {
        let created = RunCgroup::create(&PathBytes::from_text("/sys/fs/cgroup"), name);
        assert!(
            created.is_err(),
            "the name {name:?} must be refused rather than sanitised"
        );
    }
}

#[test]
fn a_component_is_neither_here_nor_above() {
    for name in [".", ".."] {
        assert_eq!(
            RunCgroup::create(&root(), name).err(),
            Some(CgroupError::Name {
                name: name.to_string()
            })
        );
    }
    for name in ["a..b", "..a", "a..", "...", "a."] {
        assert!(RunCgroup::create(&root(), name).is_ok(), "{name}");
    }
}

#[test]
fn a_cgroup_stands_under_its_parent() {
    let cgroup = match RunCgroup::create(&root(), "nono.x") {
        Ok(cgroup) => cgroup,
        Err(err) => panic!("a plain name must do: {}", err.to_text()),
    };
    assert_eq!(cgroup.path(), &PathBytes::from_text("/sys/fs/cgroup/nono.x"));
    assert_eq!(
        cgroup.place(42),
        (
            PathBytes::from_text("/sys/fs/cgroup/nono.x/cgroup.procs"),
            "42".to_string()
        )
    );
    assert_eq!(
        cgroup.kill_all(true),
        Ok((
            PathBytes::from_text("/sys/fs/cgroup/nono.x/cgroup.kill"),
            "1"
        ))
    );
    assert_eq!(
        cgroup.kill_all(false),
        Err(CgroupError::NoKillFile {
            path: PathBytes::from_text("/sys/fs/cgroup/nono.x")
        })
    );
    assert_eq!(
        RunCgroup::create(&PathBytes::from_text("/a/"), "b")
            .map(|cgroup| cgroup.kill_file())
            .ok(),
        Some(PathBytes::from_text("/a/b/cgroup.kill"))
    );
}

#[test]
fn a_run_has_a_cgroup_of_its_own() {
    let session = SessionId(0x0123_4567_89ab_cdef_0123_4567_89ab_cdef);
    assert_eq!(
        RunCgroup::for_run(None, session).path(),
        &PathBytes::from_text("/sys/fs/cgroup/nono-0123456789abcdef0123456789abcdef")
    );
    assert_eq!(
        RunCgroup::for_run(Some(&PathBytes::from_text("/a/b")), session).path(),
        &PathBytes::from_text("/a/b/nono-0123456789abcdef0123456789abcdef")
    );
}

#[test]
fn members_are_the_numbers_on_the_lines() {
    let cgroup = match RunCgroup::create(&root(), "x") {
        Ok(cgroup) => cgroup,
        Err(err) => panic!("a plain name must do: {}", err.to_text()),
    };
    assert_eq!(
        cgroup.members(Ok("1\n 22 \r\nnone\n\n-3".to_string())),
        Ok(vec![1, 22, -3])
    );
    assert_eq!(cgroup.is_empty(Ok("".to_string())), Ok(true));
    assert_eq!(cgroup.is_empty(Ok("7\n".to_string())), Ok(false));
    let unread = cgroup.is_empty(Err("denied".to_string()));
    assert_eq!(
        unread,
        Err(CgroupError::Io {
            path: PathBytes::from_text("/sys/fs/cgroup/x/cgroup.procs"),
            source: "denied".to_string()
        })
    );
}

#[test]
fn cgroup_errors_say_what_was_missing() {
    assert_eq!(
        CgroupError::Name {
            name: "a\"b/".to_string()
        }
        .to_text(),
        "cgroup name \"a\\\"b/\" must be a single path component"
    );
    assert_eq!(
        CgroupError::Io {
            path: PathBytes::from_text("/c"),
            source: "denied".to_string()
        }
        .to_text(),
        "cgroup /c: denied"
    );
    assert_eq!(
        CgroupError::NoKillFile {
            path: PathBytes::from_text("/c")
        }
        .to_text(),
        "/c has no cgroup.kill; killing a whole cgroup in one write needs kernel 5.14"
    );
}

#[test]
fn a_session_names_its_cgroup() {
    let name = cgroup_name(SessionId(0xAB));
    assert_eq!(name, "nono-000000000000000000000000000000ab");
    assert!(RunCgroup::create(&root(), &name).is_ok());
    assert_ne!(name, cgroup_name(SessionId(0xAC)));
}

fn swept(mut keep: Vec<i32>) -> Vec<(i32, i32)> {
    sort_keepers(&mut keep);
    let mut sweep = Sweep::start(&keep);
    let mut gaps = Vec::new();
    while let Some(gap) = sweep.next_gap(&keep) {
        gaps.push(gap);
    }
    gaps
}

#[test]
fn a_sweep_leaves_the_keepers_and_the_standard_streams() {
    assert_eq!(swept(vec![]), vec![(3, i32::MAX)]);
    assert_eq!(swept(vec![9, 5]), vec![(3, 4), (6, 8), (10, i32::MAX)]);
    assert_eq!(swept(vec![3, 4]), vec![(5, i32::MAX)]);
    assert_eq!(
        swept(vec![7, -1, 2, 7]),
        vec![(3, 6), (8, i32::MAX)],
        "a keeper that names no descriptor bounds nothing"
    );
}

#[test]
fn keepers_are_sorted_in_place() {
    let mut keep = [9, -1, 5, 5, 3];
    sort_keepers(&mut keep);
    assert_eq!(keep, [-1, 3, 5, 5, 9]);
    assert!(is_kept(&keep, 9));
    assert!(!is_kept(&keep, 8));
    assert_eq!(descriptor_limit(256), 256);
    assert_eq!(descriptor_limit(3), 1024);
    assert_eq!(descriptor_limit(-1), 1024);
}

fn found(path: &str, is_dir: bool) -> Result<Found, i32> {
    Ok(Found {
        resolved: PathBytes::from_text(path),
        is_dir,
    })
}

fn dir_grant(path: &str, modes: &[FsMode]) -> FsModeCapability {
    match FsModeCapability::new_dir(
        PathBytes::from_text(path),
        found(path, true),
        FsModeSet::of(modes),
    ) {
        Ok(grant) => grant,
        Err(err) => panic!("a directory must be grantable: {}", err.to_text()),
    }
}

fn file_grant(path: &str, modes: &[FsMode]) -> FsModeCapability {
    match FsModeCapability::new_file(
        PathBytes::from_text(path),
        found(path, false),
        FsModeSet::of(modes),
    ) {
        Ok(grant) => grant,
        Err(err) => panic!("a file must be grantable: {}", err.to_text()),
    }
}

#[test]
fn a_grant_says_what_it_covers() {
    let modes = FsModeSet::of(&[FsMode::Write, FsMode::ReadContents]);
    let dir = FsModeCapability::new_dir(
        PathBytes::from_text("link"),
        found("/srv/data", true),
        modes,
    );
    match dir {
        Ok(dir) => {
            assert!(!dir.is_file);
            assert_eq!(dir.source, CapabilitySource::User);
            assert_eq!(dir.to_text(), "/srv/data {read_contents, write}");
        }
        Err(err) => panic!("a directory must be grantable: {}", err.to_text()),
    }
    let file =
        FsModeCapability::new_file(PathBytes::from_text("f"), found("/srv/f", false), modes);
    match file {
        Ok(file) => {
            assert!(file.is_file);
            assert_eq!(file.original, PathBytes::from_text("f"));
        }
        Err(err) => panic!("a file must be grantable: {}", err.to_text()),
    }
}

#[test]
fn a_path_that_leads_elsewhere_is_not_granted() {
    let modes = FsModeSet::of(&[FsMode::ReadContents]);
    let path = || PathBytes::from_text("p");
    let texts = [
        (
            FsModeCapability::new_dir(path(), Err(libc::ENOENT), modes),
            GrantError::Unresolved {
                path: path(),
                errno: libc::ENOENT,
            },
            "path p could not be resolved: errno 2",
        ),
        (
            FsModeCapability::new_dir(path(), found("/p", false), modes),
            GrantError::NotADirectory { path: path() },
            "path p is not a directory",
        ),
        (
            FsModeCapability::new_file(path(), found("/p", true), modes),
            GrantError::NotAFile { path: path() },
            "path p is not a single file",
        ),
        (
            FsModeCapability::new_file(path(), Err(libc::EACCES), modes),
            GrantError::Unresolved {
                path: path(),
                errno: libc::EACCES,
            },
            "path p could not be resolved: errno 13",
        ),
    ];
    for (refused, expected, text) in texts {
        match refused {
            Ok(grant) => panic!("must be refused: {grant:?}"),
            Err(err) => {
                assert_eq!(err.to_text(), text);
                assert_eq!(err, expected);
            }
        }
    }
}

#[test]
fn every_grant_of_a_set_gets_its_rule() {
    let caps = CapabilitySet::new()
        .allow_path_modes(dir_grant("/srv", &[FsMode::AtomicWrite]))
        .allow_path_modes(file_grant("/etc/hosts", &[FsMode::ReadContents]));
    assert_eq!(caps.fs_modes().len(), 2);
    match landlock_rules(&caps, LandlockRightsAvailable::from_abi_version(3)) {
        Ok(rules) => {
            assert_eq!(rules.len(), 2);
            assert_eq!(rules[1].rights, [LandlockRightName::ReadFile]);
            assert!(rules[0].rights.contains(&LandlockRightName::Refer));
        }
        Err(reason) => panic!("the rules must build: {reason}"),
    }
    let rules = seatbelt_rules(&caps);
    assert_eq!(rules.len(), 2);
    assert!(rules[0].temp_sibling_operations.is_empty());
    assert!(!rules[1].operations.is_empty());
}

#[test]
fn a_grant_that_no_rule_stands_for_is_refused() {
    let caps = CapabilitySet::new()
        .allow_path_modes(dir_grant("/ok", &[FsMode::ReadContents]))
        .allow_path_modes(dir_grant("/srv", &[FsMode::Rename]))
        .allow_path_modes(file_grant("/f", &[FsMode::Create]));
    let first = match landlock_rules(&caps, LandlockRightsAvailable::from_abi_version(1)) {
        Ok(rules) => panic!("must be refused: {rules:?}"),
        Err(reason) => reason,
    };
    assert!(
        first.starts_with("grant /srv {rename} is refused: Landlock ABI V1 does not carry refer"),
        "{first}"
    );
    let second = match landlock_rules(&caps, LandlockRightsAvailable::from_abi_version(2)) {
        Ok(rules) => panic!("must be refused: {rules:?}"),
        Err(reason) => reason,
    };
    assert!(
        second.starts_with("grant /f {create} is refused: Landlock will not carry make_reg"),
        "{second}"
    );
}

#[test]
fn a_set_renders_its_grants_and_its_network() {
    let caps = CapabilitySet::new()
        .allow_path_modes(dir_grant("/srv", &[FsMode::Rename, FsMode::Create]))
        .allow_tcp_connect(443)
        .allow_tcp_connect(80)
        .allow_localhost_ports(3000, 3010)
        .set_network_mode(NetworkMode::ProxyOnly {
            port: 8080,
            bind_ports: vec![9],
        });
    assert_eq!(
        caps.to_text(),
        "CapabilitySet { fs_modes: [/srv {create, rename}], \
         network_mode: ProxyOnly { port: 8080, bind_ports: [9] }, \
         tcp_connect_ports: [443, 80], localhost_port_ranges: [(3000, 3010)] }"
    );
    assert_eq!(caps.clone(), caps);
}
