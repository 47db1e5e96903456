use nono::capability::AccessMode;
use nono::capability_modes::{FsMode, FsModeSet};

#[test]
fn every_mode_has_a_distinct_bit_and_a_distinct_name() {
    let mut bits = 0u16;
    let mut names = std::collections::HashSet::new();
    for mode in FsMode::ALL {
        assert_eq!(
            bits & mode.bit(),
            0,
            "{mode:?} shares a bit with another mode"
        );
        bits |= mode.bit();
        assert!(names.insert(mode.as_str()), "{mode:?} shares a name");
    }
    assert_eq!(bits.count_ones() as usize, FsMode::ALL.len());
}

#[test]
fn a_set_round_trips_through_iter_in_all_order() {
    let set = FsModeSet::of(&[FsMode::Execute, FsMode::ReadContents, FsMode::Write]);
    let collected: Vec<FsMode> = set.iter();
    assert_eq!(
        collected,
        vec![FsMode::ReadContents, FsMode::Write, FsMode::Execute]
    );
    assert_eq!(set.len(), 3);
    assert!(!set.is_empty());
    assert!(FsModeSet::empty().is_empty());
}

#[test]
fn atomic_write_is_a_published_expansion_not_magic() {
    assert_eq!(
        FsMode::AtomicWrite.expands_to(),
        &[
            FsMode::Create,
            FsMode::Write,
            FsMode::Rename,
            FsMode::RemoveFile
        ]
    );
    // Truncate is deliberately absent: an atomic write replaces, it does
    // not shorten. If this ever changes it has to change here, in the
    // docs, and in both mapping tables at once.
    assert!(!FsMode::AtomicWrite.expands_to().contains(&FsMode::Truncate));
    for mode in FsMode::ALL {
        if mode != FsMode::AtomicWrite {
            assert!(mode.expands_to().is_empty(), "{mode:?} must be a leaf");
        }
    }
}

#[test]
fn the_coarse_access_modes_are_described_as_the_bundles_they_are() {
    let read = FsModeSet::describes_access_mode(AccessMode::Read);
    assert!(read.contains(FsMode::ReadContents));
    assert!(read.contains(FsMode::ReadDir));
    assert!(read.contains(FsMode::ReadMetadata));
    // The one that surprises people: coarse Read grants EXECUTE on Linux
    // and, on macOS, is what lets a path be exec'd at all.
    assert!(read.contains(FsMode::Execute));
    assert!(!read.contains(FsMode::Write));

    let write = FsModeSet::describes_access_mode(AccessMode::Write);
    for mode in [
        FsMode::Write,
        FsMode::Append,
        FsMode::Create,
        FsMode::Truncate,
        FsMode::RemoveFile,
        FsMode::RemoveDir,
        FsMode::Rename,
    ] {
        assert!(write.contains(mode), "coarse Write must describe {mode:?}");
    }
    assert!(!write.contains(FsMode::ReadContents));

    assert_eq!(
        FsModeSet::describes_access_mode(AccessMode::ReadWrite),
        read.union(write)
    );
}
