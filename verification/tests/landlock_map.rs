use nono::capability_modes::landlock_map::{
    compile, rights_for, CompiledLandlock, LandlockRightName, LandlockRightsAvailable,
};
use nono::capability_modes::{
    AlwaysAllowedReason, BundleReason, DelegationTarget, FsMode, FsModeSet, ModeDelegation,
    ModeRefusal, RefusalReason,
};

fn compile_one(mode: FsMode, abi: u8) -> CompiledLandlock {
    compile(
        FsModeSet::empty().with(mode),
        LandlockRightsAvailable::from_abi_version(abi),
    )
}

#[test]
fn every_leaf_mode_maps_to_the_right_the_contract_names() {
    let table = [
        (FsMode::ReadContents, LandlockRightName::ReadFile),
        (FsMode::ReadDir, LandlockRightName::ReadDir),
        (FsMode::Write, LandlockRightName::WriteFile),
        (FsMode::Append, LandlockRightName::WriteFile),
        (FsMode::Create, LandlockRightName::MakeReg),
        (FsMode::Truncate, LandlockRightName::Truncate),
        (FsMode::RemoveFile, LandlockRightName::RemoveFile),
        (FsMode::RemoveDir, LandlockRightName::RemoveDir),
        (FsMode::Rename, LandlockRightName::Refer),
        (FsMode::Execute, LandlockRightName::Execute),
    ];
    for (mode, right) in table {
        let compiled = compile_one(mode, 6);
        assert!(
            compiled.rights.contains(&right),
            "{mode:?} must compile to {right:?}"
        );
        assert!(
            compiled.modes.refused().is_empty(),
            "{mode:?} must not be refused on V6"
        );
    }
}

#[test]
fn create_grants_make_reg_and_no_other_node_type() {
    let compiled = compile_one(FsMode::Create, 6);
    assert_eq!(compiled.rights, vec![LandlockRightName::MakeReg]);
    // The published decision: a create grant does not confer directory,
    // symlink, socket, fifo, char- or block-device creation. Deleting this
    // assertion is what a silent widening of `create` would look like.
    assert_eq!(compiled.modes.enforced(), &[FsMode::Create]);
    assert!(compiled.modes.bundled().is_empty());
}

#[test]
fn read_metadata_is_a_disclosed_no_op_not_a_grant() {
    let compiled = compile_one(FsMode::ReadMetadata, 6);
    assert!(
        compiled.rights.is_empty(),
        "Landlock has no right for stat(2); compiling one would be an invention"
    );
    assert!(compiled.modes.enforced().is_empty());
    let disclosed = compiled.modes.always_allowed();
    assert_eq!(disclosed.len(), 1);
    assert_eq!(disclosed[0].mode, FsMode::ReadMetadata);
    assert_eq!(
        disclosed[0].why,
        AlwaysAllowedReason::LandlockCannotRestrictMetadata
    );
}

#[test]
fn append_is_disclosed_as_a_write_grant_in_both_directions() {
    let appended = compile_one(FsMode::Append, 6);
    assert_eq!(appended.rights, vec![LandlockRightName::WriteFile]);
    let bundle = match appended.modes.bundle_for(FsMode::Write) {
        Some(bundle) => bundle,
        None => panic!("granting append must disclose that it also grants write"),
    };
    assert_eq!(bundle.requested, FsMode::Append);
    assert_eq!(bundle.why, BundleReason::AppendImpliesWrite);

    let written = compile_one(FsMode::Write, 6);
    let bundle = match written.modes.bundle_for(FsMode::Append) {
        Some(bundle) => bundle,
        None => panic!("granting write must disclose that it also grants append"),
    };
    assert_eq!(bundle.why, BundleReason::AppendImpliesWrite);
}

#[test]
fn asking_for_both_halves_of_a_bundle_discloses_nothing() {
    let compiled = compile(
        FsModeSet::of(&[FsMode::Write, FsMode::Append]),
        LandlockRightsAvailable::from_abi_version(6),
    );
    assert!(
        compiled.modes.bundled().is_empty(),
        "a caller who named both halves is not being widened"
    );
    assert_eq!(
        compiled.modes.enforced(),
        &[FsMode::Write, FsMode::Append][..]
    );
}

#[test]
fn truncate_is_refused_below_abi_v3_rather_than_dropped() {
    for abi in [1u8, 2] {
        let compiled = compile_one(FsMode::Truncate, abi);
        assert_eq!(
            compiled.modes.refused(),
            &[ModeRefusal {
                mode: FsMode::Truncate,
                why: RefusalReason::UnsupportedRight {
                    right: LandlockRightName::Truncate,
                    abi,
                    needed_abi: 3,
                },
            }][..],
            "ABI V{abi} must refuse truncate, not silently grant nothing"
        );
        assert!(
            compiled.rights.is_empty(),
            "a refused grant produces no rule at all"
        );
    }
    assert!(compile_one(FsMode::Truncate, 3).modes.refused().is_empty());
}

#[test]
fn rename_is_refused_below_abi_v2_rather_than_dropped() {
    let compiled = compile_one(FsMode::Rename, 1);
    assert_eq!(
        compiled.modes.refused(),
        &[ModeRefusal {
            mode: FsMode::Rename,
            why: RefusalReason::UnsupportedRight {
                right: LandlockRightName::Refer,
                abi: 1,
                needed_abi: 2,
            },
        }][..]
    );
    assert!(compiled.rights.is_empty());
    assert!(compile_one(FsMode::Rename, 2).modes.refused().is_empty());
}

#[test]
fn atomic_write_expands_to_its_members_and_discloses_each() {
    let compiled = compile_one(FsMode::AtomicWrite, 6);
    assert_eq!(
        compiled.rights,
        vec![
            LandlockRightName::WriteFile,
            LandlockRightName::MakeReg,
            LandlockRightName::RemoveFile,
            LandlockRightName::Refer,
        ]
        .into_iter()
        .collect::<std::collections::BTreeSet<_>>()
        .into_iter()
        .collect::<Vec<_>>()
    );
    for member in FsMode::ATOMIC_WRITE_MEMBERS {
        let bundle = match compiled.modes.bundle_for(member) {
            Some(bundle) => bundle,
            None => panic!("atomic_write must disclose that it grants {member:?}"),
        };
        assert_eq!(bundle.requested, FsMode::AtomicWrite);
        assert_eq!(bundle.why, BundleReason::AtomicWriteCluster);
    }
    // Append rides in transitively through Write, and is disclosed too.
    assert!(compiled.modes.grants(FsMode::Append));
    assert!(!compiled.modes.grants(FsMode::Truncate));
}

#[test]
fn atomic_write_fails_closed_on_a_kernel_without_refer() {
    let compiled = compile_one(FsMode::AtomicWrite, 1);
    assert_eq!(compiled.modes.refused().len(), 1);
    assert_eq!(compiled.modes.refused()[0].mode, FsMode::Rename);
    assert!(
        compiled.rights.is_empty(),
        "an atomic-write grant that cannot rename is not an atomic-write grant"
    );
}

#[test]
fn unix_socket_connect_is_delegated_not_compiled_into_a_path_rule() {
    let compiled = compile_one(FsMode::UnixSocketConnect, 6);
    assert!(compiled.rights.is_empty());
    assert!(compiled.modes.enforced().is_empty());
    assert_eq!(
        compiled.modes.delegated(),
        &[ModeDelegation {
            mode: FsMode::UnixSocketConnect,
            target: DelegationTarget::UnixSocketCapability,
        }][..]
    );
}

#[test]
fn the_full_vocabulary_on_v6_refuses_nothing_and_invents_nothing() {
    let all = FsModeSet::of(&FsMode::ALL);
    let compiled = compile(all, LandlockRightsAvailable::from_abi_version(6));
    assert!(compiled.modes.refused().is_empty());
    // Every right in the table, and nothing that is not in the table.
    let expected: std::collections::BTreeSet<LandlockRightName> = FsMode::ALL
        .iter()
        .flat_map(|mode| rights_for(*mode).iter().copied())
        .collect();
    assert_eq!(
        compiled
            .rights
            .iter()
            .copied()
            .collect::<std::collections::BTreeSet<LandlockRightName>>(),
        expected
    );
}

#[test]
fn a_refused_grant_confers_nothing() {
    let refused = compile_one(FsMode::AtomicWrite, 1);
    assert!(refused.modes.first_refusal().is_some());
    for mode in FsMode::ALL {
        assert!(!refused.modes.grants(mode), "{mode:?}");
    }
    let whole = compile_one(FsMode::AtomicWrite, 2);
    assert!(whole.modes.grants(FsMode::Rename));
    assert!(!whole.modes.grants(FsMode::ReadDir));
}
