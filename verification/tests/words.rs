use nono::bytes::{from_le, to_le};
use nono::capability_modes::landlock_map::{LandlockRightName, LandlockRightsAvailable};
use nono::capability_modes::sbpl_map::SbplOperation;
use nono::capability_modes::{
    landlock_map, sbpl_map, AlwaysAllowedReason, BundleReason, DelegationTarget, FsMode, FsModeSet,
    ModeTarget, RefusalReason,
};
use nono::parse::{chars_of, parse_i32, parse_lines, parse_u64, trim_range};
use nono::path::{bytes_hold_nul, PathBytes};
use nono::text::{holds_char, push_decimal, push_signed, push_six_digits};
use nono::time::{instant, Nanos, Timestamp};

#[test]
fn numbers_are_written_in_decimal() {
    for (number, text) in [(0, "0"), (7, "7"), (10, "10"), (u64::MAX, "18446744073709551615")] {
        let mut written = String::from("n=");
        push_decimal(&mut written, number);
        assert_eq!(written, format!("n={text}"));
    }
    for number in [0, -1, 42, i64::MIN, i64::MAX] {
        let mut written = String::new();
        push_signed(&mut written, number);
        assert_eq!(written, number.to_string());
    }
    let mut written = String::new();
    push_six_digits(&mut written, 42);
    assert_eq!(written, "000042");
    assert!(holds_char("a=b", '='));
    assert!(!holds_char("ab", '='));
}

#[test]
fn numbers_are_read_as_they_are_written() {
    let read = |text: &str| {
        let chars = chars_of(text);
        (
            parse_u64(&chars),
            parse_i32(&chars, 0, chars.len()),
        )
    };
    assert_eq!(read("42"), (Some(42), Some(42)));
    assert_eq!(read("+7"), (Some(7), Some(7)));
    assert_eq!(read("-7"), (None, Some(-7)));
    assert_eq!(read("-2147483648"), (None, Some(i32::MIN)));
    assert_eq!(read("2147483648"), (Some(2_147_483_648), None));
    assert_eq!(read("18446744073709551615"), (Some(u64::MAX), None));
    assert_eq!(read("18446744073709551616"), (None, None));
    assert_eq!(read(""), (None, None));
    assert_eq!(read("4x"), (None, None));
    assert_eq!(parse_lines(&chars_of("3\n\n x \n-4\n")), vec![3, -4]);
    assert_eq!(trim_range(&chars_of(" \ta b\n"), 0, 6), (2, 5));
}

#[test]
fn numbers_travel_least_significant_byte_first() {
    assert_eq!(to_le(0x1234_5678), [0x78, 0x56, 0x34, 0x12]);
    assert_eq!(from_le(0x78, 0x56, 0x34, 0x12), 0x1234_5678);
    assert_eq!(to_le(u32::MAX), u32::MAX.to_le_bytes());
}

#[test]
fn paths_are_bytes() {
    let path = PathBytes::from_text("/tmp/\u{e9}");
    assert!(path.is_absolute());
    assert_eq!(path.to_text(), "/tmp/\u{e9}");
    assert_eq!(path.as_bytes(), "/tmp/\u{e9}".as_bytes());
    assert!(!PathBytes::from_text("tmp").is_absolute());
    assert!(!PathBytes::from_text("").is_absolute());
    assert!(bytes_hold_nul(b"a\0b"));
    assert!(!bytes_hold_nul(b""));
}

#[test]
fn spans_are_measured_and_shown() {
    assert_eq!(Nanos(7).since(Nanos(3)), Nanos(4));
    assert_eq!(Nanos(3).since(Nanos(7)), Nanos(0));
    assert_eq!(Nanos::from_secs(2), Nanos(2_000_000_000));
    assert_eq!(Nanos(1_500_000_000).to_text(), "1.5s");
    assert_eq!(Nanos(2_000_000).to_text(), "2ms");
    assert_eq!(instant(Ok(5)), Timestamp(5));
    assert_eq!(instant(Err(5)), Timestamp(-5));
    assert_eq!(instant(Ok(u128::MAX)), Timestamp(i128::MAX));
    assert_eq!(instant(Err(u128::MAX)), Timestamp(-i128::MAX));
}

#[test]
fn rights_and_operations_have_stable_names() {
    assert_eq!(LandlockRightName::MakeReg.as_str(), "make_reg");
    assert_eq!(LandlockRightName::Refer.first_abi(), 2);
    assert_eq!(LandlockRightName::Truncate.first_abi(), 3);
    assert_eq!(LandlockRightName::ReadFile.first_abi(), 1);
    let v2 = LandlockRightsAvailable::from_abi_version(2);
    assert_eq!(v2.abi(), 2);
    assert!(v2.has(LandlockRightName::Refer));
    assert!(!v2.has(LandlockRightName::Truncate));
    assert_eq!(SbplOperation::FileWriteUnlink.as_str(), "file-write-unlink");
    assert_eq!(FsMode::UnixSocketConnect.as_str(), "unix_socket_connect");
}

#[test]
fn a_refusal_names_the_right_and_the_version() {
    let compiled = landlock_map::compile(
        FsModeSet::of(&[FsMode::Truncate]),
        LandlockRightsAvailable::from_abi_version(1),
    );
    let Some(refusal) = compiled.modes.first_refusal() else {
        panic!("truncation must be refused there");
    };
    assert_eq!(
        refusal.why,
        RefusalReason::UnsupportedRight {
            right: LandlockRightName::Truncate,
            abi: 1,
            needed_abi: 3
        }
    );
    let text = refusal.why.to_text();
    for part in ["truncate", "V1", "V3"] {
        assert!(text.contains(part), "{text}");
    }
    let unfit = RefusalReason::DirectoryOnlyRightOnFile {
        right: LandlockRightName::ReadDir,
    };
    assert!(unfit.to_text().contains("read_dir"), "{}", unfit.to_text());
    let allowed = landlock_map::compile(
        FsModeSet::of(&[FsMode::Write]),
        LandlockRightsAvailable::from_abi_version(1),
    );
    assert_eq!(allowed.modes.first_refusal(), None);
    assert!(allowed.modes.grants(FsMode::Append));
    assert!(!allowed.modes.grants(FsMode::Create));
}

#[test]
fn every_disclosure_can_be_explained() {
    let mut seen = Vec::new();
    for reason in [
        BundleReason::AppendImpliesWrite,
        BundleReason::AtomicWriteCluster,
        BundleReason::SeatbeltTruncateIsWriteData,
        BundleReason::SeatbeltRenameIsCreatePlusUnlink,
        BundleReason::SeatbeltUnlinkCoversFilesAndDirectories,
        BundleReason::SeatbeltReadDataCoversFilesAndDirectories,
    ] {
        assert!(!seen.contains(&reason.explain()));
        seen.push(reason.explain());
    }
    assert_eq!(
        BundleReason::AtomicWriteCluster.explain(),
        "atomic_write is a published name for create + write + rename + remove_file"
    );
    assert!(AlwaysAllowedReason::LandlockCannotRestrictMetadata
        .explain()
        .contains("Landlock"));
    let delegated = DelegationTarget::UnixSocketCapability;
    assert_ne!(
        delegated.explain(ModeTarget::Landlock),
        delegated.explain(ModeTarget::Seatbelt)
    );
}

#[test]
fn a_set_renders_its_names_in_order() {
    assert_eq!(
        FsModeSet::of(&[FsMode::Write, FsMode::ReadContents]).to_text(),
        "{read_contents, write}"
    );
    assert_eq!(FsModeSet::empty().to_text(), "{}");
    let mut set = FsModeSet::empty();
    set.insert(FsMode::Rename);
    set.insert(FsMode::Rename);
    assert_eq!(set.len(), 1);
    assert_eq!(set.iter(), vec![FsMode::Rename]);
}

#[test]
fn granting_more_never_takes_away() {
    for mode in FsMode::ALL {
        let one = sbpl_map::compile(FsModeSet::of(&[mode]), false);
        let all = sbpl_map::compile(FsModeSet::of(&FsMode::ALL), false);
        for operation in one.operations {
            assert!(all.operations.contains(&operation));
        }
    }
}
