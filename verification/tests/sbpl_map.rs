use nono::capability_modes::sbpl_map::{compile, CompiledSbpl, SbplOperation};
use nono::capability_modes::{BundleReason, DelegationTarget, FsMode, FsModeSet, ModeDelegation};

fn compile_one(mode: FsMode) -> CompiledSbpl {
    compile(FsModeSet::empty().with(mode), false)
}

#[test]
fn every_mode_maps_to_the_operations_the_contract_names() {
    let table = [
        (
            FsMode::ReadContents,
            vec![
                SbplOperation::FileReadData,
                SbplOperation::FileMapExecutable,
            ],
        ),
        (FsMode::ReadDir, vec![SbplOperation::FileReadData]),
        (FsMode::ReadMetadata, vec![SbplOperation::FileReadMetadata]),
        (FsMode::Write, vec![SbplOperation::FileWriteData]),
        (FsMode::Append, vec![SbplOperation::FileWriteData]),
        (FsMode::Truncate, vec![SbplOperation::FileWriteData]),
        (FsMode::Create, vec![SbplOperation::FileWriteCreate]),
        (FsMode::RemoveFile, vec![SbplOperation::FileWriteUnlink]),
        (FsMode::RemoveDir, vec![SbplOperation::FileWriteUnlink]),
        (
            FsMode::Rename,
            vec![
                SbplOperation::FileWriteCreate,
                SbplOperation::FileWriteUnlink,
            ],
        ),
        (
            FsMode::Execute,
            vec![SbplOperation::ProcessExec, SbplOperation::FileMapExecutable],
        ),
    ];
    for (mode, expected) in table {
        for operation in expected {
            assert!(
                compile_one(mode).operations.contains(&operation),
                "{mode:?} must compile to {operation:?}"
            );
        }
    }
}

#[test]
fn read_metadata_is_enforceable_here_unlike_on_linux() {
    let compiled = compile_one(FsMode::ReadMetadata);
    assert_eq!(compiled.operations, vec![SbplOperation::FileReadMetadata]);
    assert_eq!(compiled.modes.enforced(), &[FsMode::ReadMetadata]);
    assert!(
        compiled.modes.always_allowed().is_empty(),
        "macOS restricts stat(2); reporting it as always-allowed would be wrong"
    );
    // The distinction that makes the mode worth having: a metadata grant
    // does not confer a data read.
    assert!(!compiled.operations.contains(&SbplOperation::FileReadData));
    assert!(!compiled.modes.grants(FsMode::ReadContents));
}

#[test]
fn write_append_and_truncate_are_one_operation_and_it_is_disclosed() {
    let compiled = compile_one(FsMode::Write);
    assert_eq!(compiled.operations, vec![SbplOperation::FileWriteData]);
    let append = match compiled.modes.bundle_for(FsMode::Append) {
        Some(bundle) => bundle,
        None => panic!("a write grant must disclose that it also appends"),
    };
    assert_eq!(append.why, BundleReason::AppendImpliesWrite);
    let truncate = match compiled.modes.bundle_for(FsMode::Truncate) {
        Some(bundle) => bundle,
        None => panic!("a write grant must disclose that it also truncates"),
    };
    assert_eq!(truncate.why, BundleReason::SeatbeltTruncateIsWriteData);
}

#[test]
fn rename_is_disclosed_as_the_create_plus_unlink_pair_it_really_is() {
    let compiled = compile_one(FsMode::Rename);
    assert_eq!(
        compiled.operations,
        vec![
            SbplOperation::FileWriteCreate,
            SbplOperation::FileWriteUnlink
        ]
    );
    for member in [FsMode::Create, FsMode::RemoveFile] {
        let bundle = match compiled.modes.bundle_for(member) {
            Some(bundle) => bundle,
            None => panic!("a rename grant must disclose that it also grants {member:?}"),
        };
        assert_eq!(bundle.why, BundleReason::SeatbeltRenameIsCreatePlusUnlink);
    }
    // And transitively: unlink cannot be narrowed to files.
    assert!(compiled.modes.grants(FsMode::RemoveDir));
}

#[test]
fn unlink_cannot_be_narrowed_to_files_and_says_so() {
    let compiled = compile_one(FsMode::RemoveFile);
    let bundle = match compiled.modes.bundle_for(FsMode::RemoveDir) {
        Some(bundle) => bundle,
        None => panic!("a remove-file grant must disclose that it also removes directories"),
    };
    assert_eq!(
        bundle.why,
        BundleReason::SeatbeltUnlinkCoversFilesAndDirectories
    );
}

#[test]
fn execute_is_a_path_scoped_process_exec_not_a_read() {
    let compiled = compile_one(FsMode::Execute);
    assert!(compiled.operations.contains(&SbplOperation::ProcessExec));
    assert!(!compiled.operations.contains(&SbplOperation::FileReadData));
    // And the converse, which is what makes the exec negative test mean
    // something: a readable path is not an executable one.
    assert!(
        !compile_one(FsMode::ReadContents)
            .operations
            .contains(&SbplOperation::ProcessExec)
    );
}

#[test]
fn atomic_write_on_a_file_adds_the_hex_suffixed_temp_sibling_rule() {
    let file = compile(FsModeSet::empty().with(FsMode::AtomicWrite), true);
    assert_eq!(
        file.temp_sibling_operations,
        vec![
            SbplOperation::FileReadMetadata,
            SbplOperation::FileWriteData,
            SbplOperation::FileWriteCreate,
            SbplOperation::FileWriteUnlink,
        ]
    );
    // A directory grant is a subpath; the temp file is already inside it.
    let dir = compile(FsModeSet::empty().with(FsMode::AtomicWrite), false);
    assert!(dir.temp_sibling_operations.is_empty());
    assert!(dir.operations.contains(&SbplOperation::FileWriteCreate));
    assert!(dir.operations.contains(&SbplOperation::FileWriteUnlink));
    assert!(dir.operations.contains(&SbplOperation::FileWriteData));
}

#[test]
fn seatbelt_refuses_nothing_because_it_has_no_version_gates() {
    let compiled = compile(FsModeSet::of(&FsMode::ALL), true);
    assert!(compiled.modes.refused().is_empty());
    assert_eq!(
        compiled.modes.delegated(),
        &[ModeDelegation {
            mode: FsMode::UnixSocketConnect,
            target: DelegationTarget::UnixSocketCapability,
        }][..]
    );
}

#[test]
fn creating_with_removing_discloses_the_rename_it_allows() {
    for removing in [FsMode::RemoveFile, FsMode::RemoveDir] {
        let compiled = compile(
            FsModeSet::empty().with(FsMode::Create).with(removing),
            false,
        );
        assert_eq!(
            compiled.operations,
            [
                SbplOperation::FileWriteCreate,
                SbplOperation::FileWriteUnlink
            ]
        );
        let bundle = match compiled.modes.bundle_for(FsMode::Rename) {
            Some(bundle) => bundle,
            None => panic!("the rename must be disclosed"),
        };
        assert_eq!(bundle.requested, FsMode::Create);
        assert_eq!(bundle.why, BundleReason::SeatbeltRenameIsCreatePlusUnlink);
        assert!(compiled.modes.grants(FsMode::Rename));
    }
    assert!(compile_one(FsMode::Create)
        .modes
        .bundle_for(FsMode::Rename)
        .is_none());
    assert!(compile_one(FsMode::RemoveFile)
        .modes
        .bundle_for(FsMode::Rename)
        .is_none());
}
