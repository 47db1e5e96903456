//! What each platform makes of a request, mode by mode: which modes a request
//! confers, which rights or operations its rule carries, and what the report says
//! of each mode. Each law speaks of the request alone.

use vstd::prelude::*;
use super::closure;
use super::compile;
use super::compile::{
    AlwaysAllowedReason, BundleReason, DelegationTarget, ModeAlwaysAllowed, ModeDelegation,
    ModeRefusal, ModeTarget, RefusalReason,
};
use super::landlock_map;
use super::landlock_map::LandlockRightName;
use super::laws;
use super::mode_set;
use super::mode_set::FsModeSet;
use super::sbpl_map;
use super::sbpl_map::SbplOperation;
use super::FsMode;

verus! {

/// Under Landlock a request confers what it names, a write with an append and an
/// append with a write, and with an atomic write its members and the append that
/// comes with a write. It confers nothing else.
pub proof fn law_landlock_confers(requested: Set<FsMode>, mode: FsMode)
    ensures
        landlock_map::landlock_granted(requested).contains(mode) <==> {
            ||| requested.contains(mode)
            ||| mode is Write && requested.contains(FsMode::Append)
            ||| mode is Append && requested.contains(FsMode::Write)
            ||| requested.contains(FsMode::AtomicWrite) && (mode is Create || mode is Write
                || mode is Append || mode is Rename || mode is RemoveFile)
        },
{
    if landlock_map::landlock_granted(requested).contains(mode) {
        lemma_landlock_at_most(requested, mode);
    }
    lemma_landlock_asked(requested, mode);
    lemma_landlock_members(requested);
    lemma_landlock_asked(requested, FsMode::Append);
    lemma_landlock_asked(requested, FsMode::Write);
    laws::law_append_is_a_write_grant(requested);
}

/// What is asked for is granted under Landlock.
proof fn lemma_landlock_asked(requested: Set<FsMode>, mode: FsMode)
    ensures
        requested.contains(mode) ==> landlock_map::landlock_granted(requested).contains(mode),
{
    laws::law_granting_is_a_closure(|m: FsMode| landlock_map::implied_modes(m), requested);
}

proof fn lemma_landlock_members(requested: Set<FsMode>)
    ensures
        requested.contains(FsMode::AtomicWrite) ==> {
            let granted = landlock_map::landlock_granted(requested);
            granted.contains(FsMode::Create) && granted.contains(FsMode::Write)
                && granted.contains(FsMode::Rename) && granted.contains(FsMode::RemoveFile)
        },
{
    let members = super::atomic_write_members();
    assert(members[0] == FsMode::Create);
    assert(members[1] == FsMode::Write);
    assert(members[2] == FsMode::Rename);
    assert(members[3] == FsMode::RemoveFile);
    if requested.contains(FsMode::AtomicWrite) {
        assert(members.contains(FsMode::Create));
        assert(members.contains(FsMode::Write));
        assert(members.contains(FsMode::Rename));
        assert(members.contains(FsMode::RemoveFile));
        laws::law_atomic_write_grants_its_members(requested, FsMode::Create);
        laws::law_atomic_write_grants_its_members(requested, FsMode::Write);
        laws::law_atomic_write_grants_its_members(requested, FsMode::Rename);
        laws::law_atomic_write_grants_its_members(requested, FsMode::RemoveFile);
    }
}

/// Where an implication of Landlock leads.
proof fn lemma_landlock_bound(mode: FsMode, i: int)
    requires
        0 <= i < landlock_map::implied_modes(mode).len(),
    ensures
        ({
            let to = landlock_map::implied_modes(mode)[i].0;
            match mode {
                FsMode::Write => to is Append,
                FsMode::Append => to is Write,
                FsMode::AtomicWrite => to is Create || to is Write || to is Rename
                    || to is RemoveFile,
                _ => false,
            }
        }),
{
}

proof fn lemma_landlock_at_most(requested: Set<FsMode>, mode: FsMode)
    requires
        landlock_map::landlock_granted(requested).contains(mode),
    ensures
        ({
            ||| requested.contains(mode)
            ||| mode is Write && requested.contains(FsMode::Append)
            ||| mode is Append && requested.contains(FsMode::Write)
            ||| requested.contains(FsMode::AtomicWrite) && (mode is Create || mode is Write
                || mode is Append || mode is Rename || mode is RemoveFile)
        }),
{
    let implied = |m: FsMode| landlock_map::implied_modes(m);
    let bound = Set::new(
        |m: FsMode|
            {
                ||| requested.contains(m)
                ||| m is Write && requested.contains(FsMode::Append)
                ||| m is Append && requested.contains(FsMode::Write)
                ||| requested.contains(FsMode::AtomicWrite) && (m is Create || m is Write
                    || m is Append || m is Rename || m is RemoveFile)
            },
    );
    assert forall|m: FsMode, i: int|
        bound.contains(m) && 0 <= i < implied(m).len() implies bound.contains(
        (#[trigger] implied(m)[i]).0,
    ) by {
        lemma_landlock_bound(m, i);
        let to = landlock_map::implied_modes(m)[i].0;
        assert(bound.contains(to));
    }
    laws::lemma_granted_in_closed_set(implied, requested, bound);
}

/// Landlock drags in only what it cannot tell apart: a mode that a request
/// confers without naming it has the very rights of a mode that the request
/// names, or comes with an atomic write.
pub proof fn law_landlock_drags_in_only_what_it_cannot_tell_apart(
    requested: Set<FsMode>,
    mode: FsMode,
)
    requires
        landlock_map::landlock_granted(requested).contains(mode),
        !requested.contains(mode),
    ensures
        (requested.contains(FsMode::AtomicWrite) && (mode is Create || mode is Write
            || mode is Append || mode is Rename || mode is RemoveFile)) || exists|named: FsMode|
            #[trigger]
            requested.contains(named) && landlock_map::rights_of(named).len() > 0
                && landlock_map::rights_of(named) == landlock_map::rights_of(mode),
{
    law_landlock_confers(requested, mode);
    if !requested.contains(FsMode::AtomicWrite) {
        if mode is Write {
            assert(requested.contains(FsMode::Append));
            assert(landlock_map::rights_of(FsMode::Append) =~= landlock_map::rights_of(mode));
        } else {
            assert(requested.contains(FsMode::Write));
            assert(landlock_map::rights_of(FsMode::Write) =~= landlock_map::rights_of(mode));
        }
    }
}

/// A Landlock rule carries each right for the modes that stand for it, and for no
/// other.
pub proof fn law_a_landlock_rule_carries(requested: Set<FsMode>, right: LandlockRightName)
    ensures
        landlock_map::needed_rights(landlock_map::landlock_granted(requested)).contains(right)
            <==> (match right {
            LandlockRightName::ReadFile => requested.contains(FsMode::ReadContents),
            LandlockRightName::ReadDir => requested.contains(FsMode::ReadDir),
            LandlockRightName::WriteFile => requested.contains(FsMode::Write)
                || requested.contains(FsMode::Append) || requested.contains(FsMode::AtomicWrite),
            LandlockRightName::Execute => requested.contains(FsMode::Execute),
            LandlockRightName::MakeReg => requested.contains(FsMode::Create) || requested.contains(
                FsMode::AtomicWrite,
            ),
            LandlockRightName::RemoveFile => requested.contains(FsMode::RemoveFile)
                || requested.contains(FsMode::AtomicWrite),
            LandlockRightName::RemoveDir => requested.contains(FsMode::RemoveDir),
            LandlockRightName::Refer => requested.contains(FsMode::Rename) || requested.contains(
                FsMode::AtomicWrite,
            ),
            LandlockRightName::Truncate => requested.contains(FsMode::Truncate),
        }),
{
    let granted = landlock_map::landlock_granted(requested);
    laws::law_landlock_rights_are_exact(granted);
    assert forall|m: FsMode| granted.contains(m) <==> {
        ||| requested.contains(m)
        ||| m is Write && requested.contains(FsMode::Append)
        ||| m is Append && requested.contains(FsMode::Write)
        ||| requested.contains(FsMode::AtomicWrite) && (m is Create || m is Write || m is Append
            || m is Rename || m is RemoveFile)
    } by {
        law_landlock_confers(requested, m);
    }
    let needing = match right {
        LandlockRightName::ReadFile => FsMode::ReadContents,
        LandlockRightName::ReadDir => FsMode::ReadDir,
        LandlockRightName::WriteFile => FsMode::Write,
        LandlockRightName::Execute => FsMode::Execute,
        LandlockRightName::MakeReg => FsMode::Create,
        LandlockRightName::RemoveFile => FsMode::RemoveFile,
        LandlockRightName::RemoveDir => FsMode::RemoveDir,
        LandlockRightName::Refer => FsMode::Rename,
        LandlockRightName::Truncate => FsMode::Truncate,
    };
    assert(landlock_map::rights_of(needing)[0] == right);
    assert(landlock_map::rights_of(needing).contains(right));
    if landlock_map::needed(granted, right) {
        let m = choose|m: FsMode| #[trigger]
            granted.contains(m) && landlock_map::rights_of(m).contains(right);
        assert(landlock_map::rights_of(m).len() == 1);
        assert(landlock_map::rights_of(m)[0] == right);
        assert(m == needing || (m is Append && right is WriteFile));
    }
    if granted.contains(needing) {
        assert(landlock_map::needed(granted, right));
    }
}

/// Without an atomic write, the rights of a rule are exactly those of the modes
/// that were asked for: what rides along adds none.
pub proof fn law_what_rides_along_adds_no_right(requested: Set<FsMode>, right: LandlockRightName)
    requires
        !requested.contains(FsMode::AtomicWrite),
    ensures
        landlock_map::needed_rights(landlock_map::landlock_granted(requested)).contains(right)
            <==> exists|mode: FsMode| #[trigger]
            requested.contains(mode) && landlock_map::rights_of(mode).contains(right),
{
    let granted = landlock_map::landlock_granted(requested);
    laws::law_landlock_rights_are_exact(granted);
    if landlock_map::needed(granted, right) {
        let m = choose|m: FsMode| #[trigger]
            granted.contains(m) && landlock_map::rights_of(m).contains(right);
        if !requested.contains(m) {
            law_landlock_drags_in_only_what_it_cannot_tell_apart(requested, m);
        }
    }
    if exists|mode: FsMode| #[trigger]
        requested.contains(mode) && landlock_map::rights_of(mode).contains(right) {
        let m = choose|m: FsMode| #[trigger]
            requested.contains(m) && landlock_map::rights_of(m).contains(right);
        law_landlock_confers(requested, m);
        assert(granted.contains(m));
    }
}

/// What a Landlock report says of each mode: what it refuses and from which
/// version on it would not, what it enforces, what it cannot restrict, what it
/// leaves to the socket capability, and what it discloses.
pub proof fn law_a_landlock_report_says(requested: Set<FsMode>, abi: u8, mode: FsMode)
    requires
        abi >= 1,
    ensures
        ({
            let report = landlock_map::landlock_report(requested, abi);
            let renames = requested.contains(FsMode::Rename) || requested.contains(
                FsMode::AtomicWrite,
            );
            &&& report.refused.contains(
                ModeRefusal {
                    mode: FsMode::Rename,
                    why: RefusalReason::UnsupportedRight {
                        right: LandlockRightName::Refer,
                        abi,
                        needed_abi: 2,
                    },
                },
            ) <==> renames && abi < 2
            &&& report.refused.contains(
                ModeRefusal {
                    mode: FsMode::Truncate,
                    why: RefusalReason::UnsupportedRight {
                        right: LandlockRightName::Truncate,
                        abi,
                        needed_abi: 3,
                    },
                },
            ) <==> requested.contains(FsMode::Truncate) && abi < 3
            &&& report.refuses(mode) <==> (mode is Rename && renames && abi < 2) || (
            mode is Truncate && requested.contains(mode) && abi < 3)
            &&& report.enforced.contains(mode) <==> requested.contains(mode) && match mode {
                FsMode::ReadMetadata => false,
                FsMode::UnixSocketConnect => false,
                FsMode::Rename => abi >= 2,
                FsMode::Truncate => abi >= 3,
                FsMode::AtomicWrite => abi >= 2 && (abi >= 3 || !requested.contains(
                    FsMode::Truncate,
                )),
                _ => true,
            }
            &&& report.always_allows(mode) <==> mode is ReadMetadata && requested.contains(mode)
            &&& report.delegates(mode) <==> mode is UnixSocketConnect && requested.contains(mode)
            &&& report.discloses(mode) <==> !requested.contains(mode) && {
                ||| mode is Write && requested.contains(FsMode::Append)
                ||| mode is Append && requested.contains(FsMode::Write)
                ||| requested.contains(FsMode::AtomicWrite) && (mode is Create || mode is Write
                    || mode is Append || mode is Rename || mode is RemoveFile)
            }
        }),
{
    let implied = |m: FsMode| landlock_map::implied_modes(m);
    let refusals = |m: FsMode| landlock_map::refusal_at(abi, m);
    let granted = landlock_map::landlock_granted(requested);
    let report = landlock_map::landlock_report(requested, abi);
    laws::lemma_listings(implied, refusals, ModeTarget::Landlock, requested);
    laws::law_nothing_is_widened_silently(implied, refusals, ModeTarget::Landlock, requested);
    law_landlock_confers(requested, mode);
    law_landlock_confers(requested, FsMode::Rename);
    law_landlock_confers(requested, FsMode::Truncate);
    lemma_refusals(requested, abi);
    if report.refused.len() > 0 {
        assert(report.refuses(report.refused[0].mode));
        law_landlock_confers(requested, report.refused[0].mode);
    }
    if renames_refused(requested, abi) {
        assert(report.refuses(FsMode::Rename));
    }
    if requested.contains(FsMode::Truncate) && abi < 3 {
        assert(report.refuses(FsMode::Truncate));
    }
}

spec fn renames_refused(requested: Set<FsMode>, abi: u8) -> bool {
    (requested.contains(FsMode::Rename) || requested.contains(FsMode::AtomicWrite)) && abi < 2
}

proof fn lemma_refusals(requested: Set<FsMode>, abi: u8)
    requires
        abi >= 1,
    ensures
        ({
            let report = landlock_map::landlock_report(requested, abi);
            &&& report.refused.contains(
                ModeRefusal {
                    mode: FsMode::Rename,
                    why: RefusalReason::UnsupportedRight {
                        right: LandlockRightName::Refer,
                        abi,
                        needed_abi: 2,
                    },
                },
            ) <==> renames_refused(requested, abi)
            &&& report.refused.contains(
                ModeRefusal {
                    mode: FsMode::Truncate,
                    why: RefusalReason::UnsupportedRight {
                        right: LandlockRightName::Truncate,
                        abi,
                        needed_abi: 3,
                    },
                },
            ) <==> requested.contains(FsMode::Truncate) && abi < 3
        }),
{
    let refusals = |m: FsMode| landlock_map::refusal_at(abi, m);
    let granted = landlock_map::landlock_granted(requested);
    let entry = compile::refusal_entry(granted, refusals);
    mode_set::lemma_all_modes();
    let all = super::all_modes();
    laws::lemma_filter_map::<ModeRefusal>(all, entry);
    law_landlock_confers(requested, FsMode::Rename);
    law_landlock_confers(requested, FsMode::Truncate);
    assert(all.contains(FsMode::Rename));
    assert(all.contains(FsMode::Truncate));
    let rename = ModeRefusal {
        mode: FsMode::Rename,
        why: RefusalReason::UnsupportedRight {
            right: LandlockRightName::Refer,
            abi,
            needed_abi: 2,
        },
    };
    let truncate = ModeRefusal {
        mode: FsMode::Truncate,
        why: RefusalReason::UnsupportedRight {
            right: LandlockRightName::Truncate,
            abi,
            needed_abi: 3,
        },
    };
    assert(entry(FsMode::Rename) == Some(rename) <==> renames_refused(requested, abi));
    assert(entry(FsMode::Truncate) == Some(truncate) <==> requested.contains(FsMode::Truncate)
        && abi < 3);
    let refused = all.filter_map(entry);
    if refused.contains(rename) {
        let m = choose|m: FsMode| #[trigger] all.contains(m) && entry(m) == Some(rename);
        assert(m is Rename);
    }
    if refused.contains(truncate) {
        let m = choose|m: FsMode| #[trigger] all.contains(m) && entry(m) == Some(truncate);
        assert(m is Truncate);
    }
}

/// The one mode that a platform cannot restrict is metadata under Landlock, and
/// the one mode that is left to another capability is the socket's, each with its
/// own reason and no more than once.
pub proof fn law_no_ops_and_delegations_name_one_mode(requested: Set<FsMode>, abi: u8)
    ensures
        landlock_map::landlock_report(requested, abi).always_allowed == (if requested.contains(
            FsMode::ReadMetadata,
        ) {
            seq![
                ModeAlwaysAllowed {
                    mode: FsMode::ReadMetadata,
                    why: AlwaysAllowedReason::LandlockCannotRestrictMetadata,
                },
            ]
        } else {
            Seq::empty()
        }),
        landlock_map::landlock_report(requested, abi).delegated == (if requested.contains(
            FsMode::UnixSocketConnect,
        ) {
            seq![
                ModeDelegation {
                    mode: FsMode::UnixSocketConnect,
                    target: DelegationTarget::UnixSocketCapability,
                },
            ]
        } else {
            Seq::empty()
        }),
        sbpl_map::seatbelt_report(requested).delegated == (if requested.contains(
            FsMode::UnixSocketConnect,
        ) {
            seq![
                ModeDelegation {
                    mode: FsMode::UnixSocketConnect,
                    target: DelegationTarget::UnixSocketCapability,
                },
            ]
        } else {
            Seq::empty()
        }),
{
    let refusals = |m: FsMode| landlock_map::refusal_at(abi, m);
    let never = |m: FsMode| None::<RefusalReason>;
    let granted = landlock_map::landlock_granted(requested);
    let all = super::all_modes();
    law_landlock_confers(requested, FsMode::ReadMetadata);
    law_landlock_confers(requested, FsMode::UnixSocketConnect);
    law_seatbelt_confers(requested, FsMode::UnixSocketConnect);
    mode_set::lemma_all_modes();
    let always = compile::always_allowed_entry(granted, refusals, ModeTarget::Landlock);
    lemma_one_entry(all, always, 2);
    let delegated = compile::delegation_entry(granted, refusals);
    lemma_one_entry(all, delegated, 11);
    let seatbelt = compile::delegation_entry(sbpl_map::seatbelt_granted(requested), never);
    lemma_one_entry(all, seatbelt, 11);
}

/// A listing to which only the item at `at` can map has that entry alone.
proof fn lemma_one_entry<B>(modes: Seq<FsMode>, entry: spec_fn(FsMode) -> Option<B>, at: int)
    requires
        0 <= at < modes.len(),
        forall|i: int| 0 <= i < modes.len() && i != at ==> entry(#[trigger] modes[i]) is None,
    ensures
        modes.filter_map(entry) == (match entry(modes[at]) {
            Some(item) => seq![item],
            None => Seq::empty(),
        }),
    decreases modes.len(),
{
    reveal(Seq::filter_map);
    let rest = modes.drop_last();
    if at == modes.len() - 1 {
        lemma_no_entry(rest, entry);
    } else {
        lemma_one_entry(rest, entry, at);
        assert(entry(modes[modes.len() - 1]) is None);
    }
    assert(modes.filter_map(entry) =~= (match entry(modes[at]) {
        Some(item) => seq![item],
        None => Seq::empty(),
    }));
}

proof fn lemma_no_entry<B>(modes: Seq<FsMode>, entry: spec_fn(FsMode) -> Option<B>)
    requires
        forall|i: int| 0 <= i < modes.len() ==> entry(#[trigger] modes[i]) is None,
    ensures
        modes.filter_map(entry) == Seq::<B>::empty(),
    decreases modes.len(),
{
    reveal(Seq::filter_map);
    if modes.len() > 0 {
        lemma_no_entry(modes.drop_last(), entry);
        assert(entry(modes[modes.len() - 1]) is None);
    }
}

/// Under Seatbelt a request confers what it names and what one of its operations
/// covers alike: reading a file with listing a directory, the three ways of
/// writing, the two ways of unlinking, a rename with a create and an unlink. It
/// confers nothing else.
pub proof fn law_seatbelt_confers(requested: Set<FsMode>, mode: FsMode)
    ensures
        sbpl_map::seatbelt_granted(requested).contains(mode) <==> {
            let whole = requested.contains(FsMode::Rename) || requested.contains(
                FsMode::AtomicWrite,
            );
            match mode {
                FsMode::ReadContents | FsMode::ReadDir => requested.contains(FsMode::ReadContents)
                    || requested.contains(FsMode::ReadDir),
                FsMode::Write | FsMode::Append | FsMode::Truncate => requested.contains(
                    FsMode::Write,
                ) || requested.contains(FsMode::Append) || requested.contains(FsMode::Truncate)
                    || requested.contains(FsMode::AtomicWrite),
                FsMode::RemoveFile | FsMode::RemoveDir => whole || requested.contains(
                    FsMode::RemoveFile,
                ) || requested.contains(FsMode::RemoveDir),
                FsMode::Create => whole || requested.contains(FsMode::Create),
                FsMode::Rename => whole || (requested.contains(FsMode::Create) && (
                requested.contains(FsMode::RemoveFile) || requested.contains(FsMode::RemoveDir))),
                _ => requested.contains(mode),
            }
        },
{
    if sbpl_map::seatbelt_granted(requested).contains(mode) {
        lemma_seatbelt_at_most(requested, mode);
    }
    lemma_seatbelt_keeps(requested);
    laws::lemma_create_and_unlink_rename(requested);
    lemma_seatbelt_reads(requested);
    lemma_seatbelt_writes(requested);
    lemma_seatbelt_moves(requested);
}

/// What is asked for is granted under Seatbelt.
proof fn lemma_seatbelt_keeps(requested: Set<FsMode>)
    ensures
        forall|mode: FsMode| #[trigger]
            requested.contains(mode) ==> sbpl_map::seatbelt_granted(requested).contains(mode),
{
    laws::law_granting_is_a_closure(|m: FsMode| sbpl_map::implied_within(requested, m), requested);
}

spec fn seatbelt_bound(requested: Set<FsMode>, mode: FsMode) -> bool {
    let whole = requested.contains(FsMode::Rename) || requested.contains(FsMode::AtomicWrite);
    match mode {
        FsMode::ReadContents | FsMode::ReadDir => requested.contains(FsMode::ReadContents)
            || requested.contains(FsMode::ReadDir),
        FsMode::Write | FsMode::Append | FsMode::Truncate => requested.contains(FsMode::Write)
            || requested.contains(FsMode::Append) || requested.contains(FsMode::Truncate)
            || requested.contains(FsMode::AtomicWrite),
        FsMode::RemoveFile | FsMode::RemoveDir => whole || requested.contains(FsMode::RemoveFile)
            || requested.contains(FsMode::RemoveDir),
        FsMode::Create => whole || requested.contains(FsMode::Create),
        FsMode::Rename => whole || (requested.contains(FsMode::Create) && (requested.contains(
            FsMode::RemoveFile,
        ) || requested.contains(FsMode::RemoveDir))),
        _ => requested.contains(mode),
    }
}

proof fn lemma_seatbelt_at_most(requested: Set<FsMode>, mode: FsMode)
    requires
        sbpl_map::seatbelt_granted(requested).contains(mode),
    ensures
        seatbelt_bound(requested, mode),
{
    let implied = |m: FsMode| sbpl_map::implied_within(requested, m);
    let bound = Set::new(|m: FsMode| seatbelt_bound(requested, m));
    assert forall|m: FsMode, i: int|
        bound.contains(m) && 0 <= i < implied(m).len() implies bound.contains(
        (#[trigger] implied(m)[i]).0,
    ) by {
        lemma_seatbelt_within(requested, m, i);
    }
    assert(requested.subset_of(bound));
    laws::lemma_granted_in_closed_set(implied, requested, bound);
}

proof fn lemma_seatbelt_within(requested: Set<FsMode>, mode: FsMode, i: int)
    requires
        seatbelt_bound(requested, mode),
        0 <= i < sbpl_map::implied_within(requested, mode).len(),
    ensures
        seatbelt_bound(requested, sbpl_map::implied_within(requested, mode)[i].0),
{
    lemma_seatbelt_bound(requested, mode, i);
}

/// Where an implication of Seatbelt leads.
proof fn lemma_seatbelt_bound(requested: Set<FsMode>, mode: FsMode, i: int)
    requires
        0 <= i < sbpl_map::implied_within(requested, mode).len(),
    ensures
        ({
            let to = sbpl_map::implied_within(requested, mode)[i].0;
            match mode {
                FsMode::ReadContents | FsMode::ReadDir => to is ReadContents || to is ReadDir,
                FsMode::Write | FsMode::Append | FsMode::Truncate => to is Write || to is Append
                    || to is Truncate,
                FsMode::RemoveFile | FsMode::RemoveDir => to is RemoveFile || to is RemoveDir,
                FsMode::Create => to is Rename && requested.contains(FsMode::Create) && (
                requested.contains(FsMode::RemoveFile) || requested.contains(FsMode::RemoveDir)),
                FsMode::Rename => to is Create || to is RemoveFile,
                FsMode::AtomicWrite => to is Create || to is Write || to is Rename
                    || to is RemoveFile,
                _ => false,
            }
        }),
{
}

proof fn lemma_seatbelt_reads(requested: Set<FsMode>)
    ensures
        ({
            let granted = sbpl_map::seatbelt_granted(requested);
            granted.contains(FsMode::ReadContents) <==> granted.contains(FsMode::ReadDir)
        }),
{
    let granted = sbpl_map::seatbelt_granted(requested);
    if granted.contains(FsMode::ReadContents) {
        laws::lemma_seatbelt_step(requested, FsMode::ReadContents, 0);
    }
    if granted.contains(FsMode::ReadDir) {
        laws::lemma_seatbelt_step(requested, FsMode::ReadDir, 0);
    }
}

proof fn lemma_seatbelt_writes(requested: Set<FsMode>)
    ensures
        ({
            let granted = sbpl_map::seatbelt_granted(requested);
            &&& granted.contains(FsMode::Write) <==> granted.contains(FsMode::Append)
            &&& granted.contains(FsMode::Write) <==> granted.contains(FsMode::Truncate)
        }),
{
    let granted = sbpl_map::seatbelt_granted(requested);
    if granted.contains(FsMode::Write) {
        laws::lemma_seatbelt_step(requested, FsMode::Write, 0);
        laws::lemma_seatbelt_step(requested, FsMode::Write, 1);
    }
    if granted.contains(FsMode::Append) {
        laws::lemma_seatbelt_step(requested, FsMode::Append, 0);
    }
    if granted.contains(FsMode::Truncate) {
        laws::lemma_seatbelt_step(requested, FsMode::Truncate, 0);
    }
}

proof fn lemma_seatbelt_moves(requested: Set<FsMode>)
    ensures
        ({
            let granted = sbpl_map::seatbelt_granted(requested);
            &&& granted.contains(FsMode::RemoveFile) <==> granted.contains(FsMode::RemoveDir)
            &&& granted.contains(FsMode::Rename) ==> granted.contains(FsMode::Create)
                && granted.contains(FsMode::RemoveFile)
            &&& granted.contains(FsMode::AtomicWrite) ==> granted.contains(FsMode::Rename)
                && granted.contains(FsMode::Write)
        }),
{
    lemma_seatbelt_unlinks(requested);
    lemma_seatbelt_renames(requested);
    lemma_seatbelt_atomic(requested);
}

proof fn lemma_seatbelt_unlinks(requested: Set<FsMode>)
    ensures
        sbpl_map::seatbelt_granted(requested).contains(FsMode::RemoveFile)
            <==> sbpl_map::seatbelt_granted(requested).contains(FsMode::RemoveDir),
{
    if sbpl_map::seatbelt_granted(requested).contains(FsMode::RemoveFile) {
        laws::lemma_seatbelt_step(requested, FsMode::RemoveFile, 0);
    }
    if sbpl_map::seatbelt_granted(requested).contains(FsMode::RemoveDir) {
        laws::lemma_seatbelt_step(requested, FsMode::RemoveDir, 0);
    }
}

proof fn lemma_seatbelt_renames(requested: Set<FsMode>)
    ensures
        sbpl_map::seatbelt_granted(requested).contains(FsMode::Rename)
            ==> sbpl_map::seatbelt_granted(requested).contains(FsMode::Create)
            && sbpl_map::seatbelt_granted(requested).contains(FsMode::RemoveFile),
{
    if sbpl_map::seatbelt_granted(requested).contains(FsMode::Rename) {
        laws::lemma_seatbelt_step(requested, FsMode::Rename, 0);
        laws::lemma_seatbelt_step(requested, FsMode::Rename, 1);
    }
}

proof fn lemma_seatbelt_atomic(requested: Set<FsMode>)
    ensures
        sbpl_map::seatbelt_granted(requested).contains(FsMode::AtomicWrite)
            ==> sbpl_map::seatbelt_granted(requested).contains(FsMode::Rename)
            && sbpl_map::seatbelt_granted(requested).contains(FsMode::Write),
{
    if sbpl_map::seatbelt_granted(requested).contains(FsMode::AtomicWrite) {
        laws::lemma_seatbelt_step(requested, FsMode::AtomicWrite, 1);
        laws::lemma_seatbelt_step(requested, FsMode::AtomicWrite, 2);
    }
}

/// A Seatbelt rule allows each operation for the modes that stand for it, and for
/// no other.
pub proof fn law_a_seatbelt_rule_allows(requested: Set<FsMode>, operation: SbplOperation)
    ensures
        sbpl_map::needed_operations(sbpl_map::seatbelt_granted(requested)).contains(operation)
            <==> {
            let whole = requested.contains(FsMode::Rename) || requested.contains(
                FsMode::AtomicWrite,
            );
            match operation {
                SbplOperation::FileReadData => requested.contains(FsMode::ReadContents)
                    || requested.contains(FsMode::ReadDir),
                SbplOperation::FileReadMetadata => requested.contains(FsMode::ReadMetadata),
                SbplOperation::FileWriteData => requested.contains(FsMode::Write)
                    || requested.contains(FsMode::Append) || requested.contains(FsMode::Truncate)
                    || requested.contains(FsMode::AtomicWrite),
                SbplOperation::FileWriteCreate => whole || requested.contains(FsMode::Create),
                SbplOperation::FileWriteUnlink => whole || requested.contains(FsMode::RemoveFile)
                    || requested.contains(FsMode::RemoveDir),
                SbplOperation::ProcessExec => requested.contains(FsMode::Execute),
                SbplOperation::FileMapExecutable => requested.contains(FsMode::Execute)
                    || requested.contains(FsMode::ReadContents) || requested.contains(
                    FsMode::ReadDir,
                ),
            }
        },
{
    let granted = sbpl_map::seatbelt_granted(requested);
    laws::law_seatbelt_operations_are_exact(granted);
    law_seatbelt_confers(requested, FsMode::ReadContents);
    law_seatbelt_confers(requested, FsMode::ReadDir);
    law_seatbelt_confers(requested, FsMode::ReadMetadata);
    law_seatbelt_confers(requested, FsMode::Write);
    law_seatbelt_confers(requested, FsMode::Append);
    law_seatbelt_confers(requested, FsMode::Truncate);
    law_seatbelt_confers(requested, FsMode::Create);
    law_seatbelt_confers(requested, FsMode::RemoveFile);
    law_seatbelt_confers(requested, FsMode::RemoveDir);
    law_seatbelt_confers(requested, FsMode::Rename);
    law_seatbelt_confers(requested, FsMode::Execute);
    let needing = match operation {
        SbplOperation::FileReadData => FsMode::ReadDir,
        SbplOperation::FileReadMetadata => FsMode::ReadMetadata,
        SbplOperation::FileWriteData => FsMode::Write,
        SbplOperation::FileWriteCreate => FsMode::Create,
        SbplOperation::FileWriteUnlink => FsMode::RemoveFile,
        SbplOperation::ProcessExec => FsMode::Execute,
        SbplOperation::FileMapExecutable => FsMode::Execute,
    };
    let at: int = if operation is FileMapExecutable {
        1
    } else {
        0
    };
    assert(sbpl_map::operations_of(needing)[at] == operation);
    assert(sbpl_map::operations_of(needing).contains(operation));
    assert(sbpl_map::operations_of(FsMode::ReadContents)[1] == SbplOperation::FileMapExecutable);
    assert(sbpl_map::operations_of(FsMode::ReadContents).contains(
        SbplOperation::FileMapExecutable,
    ));
    if granted.contains(needing) || (operation is FileMapExecutable && granted.contains(
        FsMode::ReadContents,
    )) {
        assert(sbpl_map::needed(granted, operation));
    }
    if sbpl_map::needed(granted, operation) {
        let m = choose|m: FsMode| #[trigger]
            granted.contains(m) && sbpl_map::operations_of(m).contains(operation);
        laws::lemma_who_needs(m, operation);
    }
}

/// What a Seatbelt report says of each mode. Seatbelt enforces what was asked
/// for, an atomic write among it, except for what it leaves to the socket
/// capability, and discloses what it confers beyond.
pub proof fn law_a_seatbelt_report_says(requested: Set<FsMode>, mode: FsMode)
    ensures
        ({
            let report = sbpl_map::seatbelt_report(requested);
            &&& !report.refuses(mode)
            &&& !report.always_allows(mode)
            &&& report.enforced.contains(mode) <==> requested.contains(mode)
                && !(mode is UnixSocketConnect)
            &&& report.delegates(mode) <==> requested.contains(mode) && mode is UnixSocketConnect
            &&& report.discloses(mode) <==> !requested.contains(mode)
                && sbpl_map::seatbelt_granted(requested).contains(mode)
        }),
{
    let implied = |m: FsMode| sbpl_map::implied_within(requested, m);
    let refusals = |m: FsMode| None::<RefusalReason>;
    laws::lemma_listings(implied, refusals, ModeTarget::Seatbelt, requested);
    laws::law_nothing_is_widened_silently(implied, refusals, ModeTarget::Seatbelt, requested);
    laws::law_seatbelt_refuses_nothing(requested);
    law_seatbelt_confers(requested, mode);
}

/// The reason of an entry is one that its mode can have: no platform is blamed
/// for what it does not do.
pub proof fn law_reasons_fit_what_rides_along(requested: Set<FsMode>, abi: u8, i: int)
    ensures
        0 <= i < landlock_map::landlock_report(requested, abi).bundled.len() ==> {
            let entry = landlock_map::landlock_report(requested, abi).bundled[i];
            match entry.why {
                BundleReason::AppendImpliesWrite => entry.also_granted is Write
                    || entry.also_granted is Append,
                BundleReason::AtomicWriteCluster => entry.requested is AtomicWrite && (
                entry.also_granted is Create || entry.also_granted is Write
                    || entry.also_granted is Rename || entry.also_granted is RemoveFile),
                _ => false,
            }
        },
        0 <= i < sbpl_map::seatbelt_report(requested).bundled.len() ==> {
            let entry = sbpl_map::seatbelt_report(requested).bundled[i];
            match entry.why {
                BundleReason::AppendImpliesWrite => entry.also_granted is Write
                    || entry.also_granted is Append,
                BundleReason::AtomicWriteCluster => entry.requested is AtomicWrite && (
                entry.also_granted is Create || entry.also_granted is Write
                    || entry.also_granted is Rename || entry.also_granted is RemoveFile),
                BundleReason::SeatbeltTruncateIsWriteData => entry.also_granted is Write
                    || entry.also_granted is Append || entry.also_granted is Truncate,
                BundleReason::SeatbeltRenameIsCreatePlusUnlink => entry.also_granted is Create
                    || entry.also_granted is RemoveFile || entry.also_granted is Rename,
                BundleReason::SeatbeltUnlinkCoversFilesAndDirectories =>
                    entry.also_granted is RemoveFile || entry.also_granted is RemoveDir,
                BundleReason::SeatbeltReadDataCoversFilesAndDirectories =>
                    entry.also_granted is ReadContents || entry.also_granted is ReadDir,
            }
        },
{
    let landlock = |m: FsMode| landlock_map::implied_modes(m);
    let refusals = |m: FsMode| landlock_map::refusal_at(abi, m);
    let seatbelt = |m: FsMode| sbpl_map::implied_within(requested, m);
    let never = |m: FsMode| None::<RefusalReason>;
    laws::law_nothing_is_widened_silently(landlock, refusals, ModeTarget::Landlock, requested);
    laws::law_nothing_is_widened_silently(seatbelt, never, ModeTarget::Seatbelt, requested);
    if 0 <= i < landlock_map::landlock_report(requested, abi).bundled.len() {
        let entry = landlock_map::landlock_report(requested, abi).bundled[i];
        lemma_landlock_reason(entry.requested, (entry.also_granted, entry.why));
    }
    if 0 <= i < sbpl_map::seatbelt_report(requested).bundled.len() {
        let entry = sbpl_map::seatbelt_report(requested).bundled[i];
        lemma_seatbelt_reason(requested, entry.requested, (entry.also_granted, entry.why));
    }
}

proof fn lemma_landlock_reason(root: FsMode, edge: (FsMode, BundleReason))
    requires
        closure::is_edge_from(|m: FsMode| landlock_map::implied_modes(m), root, edge),
    ensures
        match edge.1 {
            BundleReason::AppendImpliesWrite => edge.0 is Write || edge.0 is Append,
            BundleReason::AtomicWriteCluster => root is AtomicWrite && (edge.0 is Create
                || edge.0 is Write || edge.0 is Rename || edge.0 is RemoveFile),
            _ => false,
        },
{
    let implied = |m: FsMode| landlock_map::implied_modes(m);
    let from = choose|from: FsMode| #[trigger]
        closure::reaches(implied, root, from) && implied(from).contains(edge);
    let k = choose|k: int|
        0 <= k < landlock_map::implied_modes(from).len() && landlock_map::implied_modes(from)[k]
            == edge;
    if from is AtomicWrite {
        assert forall|m: FsMode, k: int| 0 <= k < implied(m).len() implies !((
        #[trigger] implied(m)[k]).0 is AtomicWrite) by {
            lemma_landlock_bound(m, k);
        }
        lemma_atomic_alone(implied, root);
    }
}

proof fn lemma_seatbelt_reason(
    requested: Set<FsMode>,
    root: FsMode,
    edge: (FsMode, BundleReason),
)
    requires
        closure::is_edge_from(|m: FsMode| sbpl_map::implied_within(requested, m), root, edge),
    ensures
        match edge.1 {
            BundleReason::AppendImpliesWrite => edge.0 is Write || edge.0 is Append,
            BundleReason::AtomicWriteCluster => root is AtomicWrite && (edge.0 is Create
                || edge.0 is Write || edge.0 is Rename || edge.0 is RemoveFile),
            BundleReason::SeatbeltTruncateIsWriteData => edge.0 is Write || edge.0 is Append
                || edge.0 is Truncate,
            BundleReason::SeatbeltRenameIsCreatePlusUnlink => edge.0 is Create
                || edge.0 is RemoveFile || edge.0 is Rename,
            BundleReason::SeatbeltUnlinkCoversFilesAndDirectories => edge.0 is RemoveFile
                || edge.0 is RemoveDir,
            BundleReason::SeatbeltReadDataCoversFilesAndDirectories => edge.0 is ReadContents
                || edge.0 is ReadDir,
        },
{
    let implied = |m: FsMode| sbpl_map::implied_within(requested, m);
    let from = choose|from: FsMode| #[trigger]
        closure::reaches(implied, root, from) && implied(from).contains(edge);
    let k = choose|k: int|
        0 <= k < sbpl_map::implied_within(requested, from).len() && sbpl_map::implied_within(
            requested,
            from,
        )[k] == edge;
    lemma_seatbelt_edge(requested, from, k);
    if from is AtomicWrite {
        assert forall|m: FsMode, k: int| 0 <= k < implied(m).len() implies !((
        #[trigger] implied(m)[k]).0 is AtomicWrite) by {
            lemma_seatbelt_bound(requested, m, k);
        }
        lemma_atomic_alone(implied, root);
    }
}

proof fn lemma_seatbelt_edge(requested: Set<FsMode>, from: FsMode, k: int)
    requires
        0 <= k < sbpl_map::implied_within(requested, from).len(),
    ensures
        ({
            let edge = sbpl_map::implied_within(requested, from)[k];
            match edge.1 {
                BundleReason::AppendImpliesWrite => edge.0 is Write || edge.0 is Append,
                BundleReason::AtomicWriteCluster => from is AtomicWrite && (edge.0 is Create
                    || edge.0 is Write || edge.0 is Rename || edge.0 is RemoveFile),
                BundleReason::SeatbeltTruncateIsWriteData => edge.0 is Write || edge.0 is Append
                    || edge.0 is Truncate,
                BundleReason::SeatbeltRenameIsCreatePlusUnlink => edge.0 is Create
                    || edge.0 is RemoveFile || edge.0 is Rename,
                BundleReason::SeatbeltUnlinkCoversFilesAndDirectories => edge.0 is RemoveFile
                    || edge.0 is RemoveDir,
                BundleReason::SeatbeltReadDataCoversFilesAndDirectories => edge.0 is ReadContents
                    || edge.0 is ReadDir,
            }
        }),
{
}

/// Only an atomic write leads to an atomic write.
proof fn lemma_atomic_alone(implied: closure::Implications, root: FsMode)
    requires
        forall|m: FsMode, k: int|
            0 <= k < implied(m).len() ==> !((#[trigger] implied(m)[k]).0 is AtomicWrite),
    ensures
        closure::reaches(implied, root, FsMode::AtomicWrite) ==> root is AtomicWrite,
{
    if closure::reaches(implied, root, FsMode::AtomicWrite) {
        let path = choose|path: Seq<FsMode>| #[trigger]
            closure::is_path(implied, path) && path.first() == root && path.last()
                == FsMode::AtomicWrite;
        if path.len() > 1 {
            assert(closure::implies_directly(
                implied,
                path[path.len() - 2],
                path[path.len() - 1],
            ));
        }
    }
}

/// A file's temp sibling is granted exactly what writing and renaming it takes,
/// and only beside an atomic write on a single file.
pub proof fn law_a_sibling_is_written_and_moved(operation: SbplOperation)
    ensures
        sbpl_map::sibling_operations().contains(operation) <==> {
            ||| operation is FileReadMetadata
            ||| operation is FileWriteData
            ||| operation is FileWriteCreate
            ||| operation is FileWriteUnlink
        },
        sbpl_map::sibling_operations().no_duplicates(),
{
    let siblings = sbpl_map::sibling_operations();
    assert(siblings[0] is FileReadMetadata);
    assert(siblings[1] is FileWriteData);
    assert(siblings[2] is FileWriteCreate);
    assert(siblings[3] is FileWriteUnlink);
    if operation is FileReadMetadata {
        assert(siblings[0] == operation);
    } else if operation is FileWriteData {
        assert(siblings[1] == operation);
    } else if operation is FileWriteCreate {
        assert(siblings[2] == operation);
    } else if operation is FileWriteUnlink {
        assert(siblings[3] == operation);
    }
}

/// A kernel without Landlock refuses every mode that takes a right, and only
/// those.
pub proof fn law_no_landlock_refuses_every_right(requested: Set<FsMode>, mode: FsMode)
    ensures
        landlock_map::landlock_report(requested, 0).refuses(mode)
            <==> landlock_map::landlock_granted(requested).contains(mode) && !(mode is ReadMetadata
            || mode is UnixSocketConnect || mode is AtomicWrite),
{
    let implied = |m: FsMode| landlock_map::implied_modes(m);
    let refusals = |m: FsMode| landlock_map::refusal_at(0, m);
    laws::lemma_listings(implied, refusals, ModeTarget::Landlock, requested);
}

/// A refusal names the right that is missing, the version that was found and the
/// first version that would do.
pub proof fn law_a_refusal_names_what_is_missing(requested: Set<FsMode>, abi: u8, i: int)
    requires
        0 <= i < landlock_map::landlock_report(requested, abi).refused.len(),
    ensures
        ({
            let refusal = landlock_map::landlock_report(requested, abi).refused[i];
            &&& landlock_map::landlock_granted(requested).contains(refusal.mode)
            &&& refusal.why matches RefusalReason::UnsupportedRight { right, abi: found, needed_abi }
                && found == abi && abi < needed_abi && needed_abi == (match right {
                LandlockRightName::Refer => 2int,
                LandlockRightName::Truncate => 3,
                _ => 1,
            }) && match refusal.mode {
                FsMode::ReadContents => right is ReadFile,
                FsMode::ReadDir => right is ReadDir,
                FsMode::Write => right is WriteFile,
                FsMode::Append => right is WriteFile,
                FsMode::Create => right is MakeReg,
                FsMode::Truncate => right is Truncate,
                FsMode::RemoveFile => right is RemoveFile,
                FsMode::RemoveDir => right is RemoveDir,
                FsMode::Rename => right is Refer,
                FsMode::Execute => right is Execute,
                _ => false,
            }
        }),
{
    let refusals = |m: FsMode| landlock_map::refusal_at(abi, m);
    let granted = landlock_map::landlock_granted(requested);
    let entry = compile::refusal_entry(granted, refusals);
    let all = super::all_modes();
    laws::lemma_filter_map::<ModeRefusal>(all, entry);
    let refusal = landlock_map::landlock_report(requested, abi).refused[i];
    assert(all.filter_map(entry).contains(refusal));
    let m = choose|m: FsMode| #[trigger] all.contains(m) && entry(m) == Some(refusal);
    assert(m == refusal.mode);
}

/// Keeping some of what is in order keeps the order.
proof fn lemma_filter_in_order<A>(items: Seq<A>, keep: spec_fn(A) -> bool, rank: spec_fn(A) -> int)
    requires
        forall|i: int, j: int|
            0 <= i < j < items.len() ==> rank(#[trigger] items[i]) < rank(#[trigger] items[j]),
    ensures
        forall|i: int, j: int|
            0 <= i < j < items.filter(keep).len() ==> rank(#[trigger] items.filter(keep)[i])
                < rank(#[trigger] items.filter(keep)[j]),
        forall|i: int|
            0 <= i < items.filter(keep).len() ==> items.contains(#[trigger] items.filter(keep)[i]),
    decreases items.len(),
{
    reveal(Seq::filter);
    if items.len() > 0 {
        let rest = items.drop_last();
        lemma_filter_in_order(rest, keep, rank);
        let kept = rest.filter(keep);
        let full = items.filter(keep);
        assert(items[items.len() - 1] == items.last());
        assert forall|i: int| 0 <= i < full.len() implies items.contains(#[trigger] full[i]) by {
            if i < kept.len() {
                assert(kept[i] == full[i]);
                let k = choose|k: int| 0 <= k < rest.len() && rest[k] == kept[i];
                assert(items[k] == full[i]);
            }
        }
        assert forall|i: int, j: int| 0 <= i < j < full.len() implies rank(#[trigger] full[i])
            < rank(#[trigger] full[j]) by {
            assert(kept[i] == full[i]);
            if j < kept.len() {
                assert(kept[j] == full[j]);
            } else {
                let k = choose|k: int| 0 <= k < rest.len() && rest[k] == kept[i];
                assert(items[k] == full[i]);
                assert(rank(items[k]) < rank(items[items.len() - 1]));
            }
        }
    }
}

/// The rights of a rule are listed reads first, then writes, then execution, then
/// what changes a tree.
pub proof fn law_rights_are_in_order(granted: Set<FsMode>, i: int, j: int)
    requires
        0 <= i < j < landlock_map::needed_rights(granted).len(),
    ensures
        ({
            let rank = |right: LandlockRightName|
                match right {
                    LandlockRightName::ReadFile => 0int,
                    LandlockRightName::ReadDir => 1,
                    LandlockRightName::WriteFile => 2,
                    LandlockRightName::Execute => 3,
                    LandlockRightName::MakeReg => 4,
                    LandlockRightName::RemoveFile => 5,
                    LandlockRightName::RemoveDir => 6,
                    LandlockRightName::Refer => 7,
                    LandlockRightName::Truncate => 8,
                };
            rank(landlock_map::needed_rights(granted)[i]) < rank(
                landlock_map::needed_rights(granted)[j],
            )
        }),
{
    let rank = |right: LandlockRightName|
        match right {
            LandlockRightName::ReadFile => 0int,
            LandlockRightName::ReadDir => 1,
            LandlockRightName::WriteFile => 2,
            LandlockRightName::Execute => 3,
            LandlockRightName::MakeReg => 4,
            LandlockRightName::RemoveFile => 5,
            LandlockRightName::RemoveDir => 6,
            LandlockRightName::Refer => 7,
            LandlockRightName::Truncate => 8,
        };
    lemma_filter_in_order(
        landlock_map::all_rights(),
        |right: LandlockRightName| landlock_map::needed(granted, right),
        rank,
    );
}

/// The operations of a rule are listed reads first, then writes, then execution.
pub proof fn law_operations_are_in_order(granted: Set<FsMode>, i: int, j: int)
    requires
        0 <= i < j < sbpl_map::needed_operations(granted).len(),
    ensures
        ({
            let rank = |operation: SbplOperation|
                match operation {
                    SbplOperation::FileReadData => 0int,
                    SbplOperation::FileReadMetadata => 1,
                    SbplOperation::FileWriteData => 2,
                    SbplOperation::FileWriteCreate => 3,
                    SbplOperation::FileWriteUnlink => 4,
                    SbplOperation::ProcessExec => 5,
                    SbplOperation::FileMapExecutable => 6,
                };
            rank(sbpl_map::needed_operations(granted)[i]) < rank(
                sbpl_map::needed_operations(granted)[j],
            )
        }),
{
    let rank = |operation: SbplOperation|
        match operation {
            SbplOperation::FileReadData => 0int,
            SbplOperation::FileReadMetadata => 1,
            SbplOperation::FileWriteData => 2,
            SbplOperation::FileWriteCreate => 3,
            SbplOperation::FileWriteUnlink => 4,
            SbplOperation::ProcessExec => 5,
            SbplOperation::FileMapExecutable => 6,
        };
    lemma_filter_in_order(
        sbpl_map::all_operations(),
        |operation: SbplOperation| sbpl_map::needed(granted, operation),
        rank,
    );
}

/// The listing of a set names each of its modes once, in the order of the
/// vocabulary: reads, writes, what changes a tree, execution, sockets, and the
/// atomic write.
pub proof fn law_modes_are_listed_in_order(set: Set<FsMode>, i: int, j: int)
    ensures
        forall|mode: FsMode| super::in_order(set).contains(mode) <==> set.contains(mode),
        0 <= i < j < super::in_order(set).len() ==> {
            let rank = |mode: FsMode|
                match mode {
                    FsMode::ReadContents => 0int,
                    FsMode::ReadDir => 1,
                    FsMode::ReadMetadata => 2,
                    FsMode::Write => 3,
                    FsMode::Append => 4,
                    FsMode::Create => 5,
                    FsMode::Truncate => 6,
                    FsMode::RemoveFile => 7,
                    FsMode::RemoveDir => 8,
                    FsMode::Rename => 9,
                    FsMode::Execute => 10,
                    FsMode::UnixSocketConnect => 11,
                    FsMode::AtomicWrite => 12,
                };
            rank(super::in_order(set)[i]) < rank(super::in_order(set)[j])
        },
{
    let rank = |mode: FsMode|
        match mode {
            FsMode::ReadContents => 0int,
            FsMode::ReadDir => 1,
            FsMode::ReadMetadata => 2,
            FsMode::Write => 3,
            FsMode::Append => 4,
            FsMode::Create => 5,
            FsMode::Truncate => 6,
            FsMode::RemoveFile => 7,
            FsMode::RemoveDir => 8,
            FsMode::Rename => 9,
            FsMode::Execute => 10,
            FsMode::UnixSocketConnect => 11,
            FsMode::AtomicWrite => 12,
        };
    mode_set::lemma_in_order(set);
    lemma_filter_in_order(super::all_modes(), |mode: FsMode| set.contains(mode), rank);
}

/// A coarse read stands for reading contents, directories and metadata and for
/// execution; a coarse write for every change to a file or a tree. They share no
/// mode, and neither reaches a socket or names a bundle.
pub proof fn law_coarse_grants_have_these_members(mode: FsMode)
    ensures
        FsModeSet::coarse_read().contains(mode) <==> mode is ReadContents || mode is ReadDir
            || mode is ReadMetadata || mode is Execute,
        FsModeSet::coarse_write().contains(mode) <==> mode is Write || mode is Append
            || mode is Create || mode is Truncate || mode is RemoveFile || mode is RemoveDir
            || mode is Rename,
        !(FsModeSet::coarse_read().contains(mode) && FsModeSet::coarse_write().contains(mode)),
        mode is UnixSocketConnect || mode is AtomicWrite <==> !FsModeSet::coarse_read().contains(
            mode,
        ) && !FsModeSet::coarse_write().contains(mode),
{
}

/// An atomic write stands for creating, writing, renaming and removing a file. It
/// replaces and does not shorten, and it adds nothing to a coarse write.
pub proof fn law_an_atomic_write_replaces(mode: FsMode)
    ensures
        super::atomic_write_members().contains(mode) <==> mode is Create || mode is Write
            || mode is Rename || mode is RemoveFile,
        super::atomic_write_members().contains(mode) ==> FsModeSet::coarse_write().contains(mode),
        super::atomic_write_members().no_duplicates(),
{
    let members = super::atomic_write_members();
    assert(members[0] is Create);
    assert(members[1] is Write);
    assert(members[2] is Rename);
    assert(members[3] is RemoveFile);
    if mode is Create {
        assert(members[0] == mode);
    } else if mode is Write {
        assert(members[1] == mode);
    } else if mode is Rename {
        assert(members[2] == mode);
    } else if mode is RemoveFile {
        assert(members[3] == mode);
    }
}

/// The modes that a listing maps to keep the order of the vocabulary.
proof fn lemma_filter_map_in_order<B>(
    modes: Seq<FsMode>,
    entry: spec_fn(FsMode) -> Option<B>,
    rank: spec_fn(FsMode) -> int,
    named: spec_fn(B) -> FsMode,
)
    requires
        forall|i: int, j: int|
            0 <= i < j < modes.len() ==> rank(#[trigger] modes[i]) < rank(#[trigger] modes[j]),
        forall|mode: FsMode| (#[trigger] entry(mode)) is Some ==> named(entry(mode)->0) == mode,
    ensures
        forall|i: int, j: int|
            0 <= i < j < modes.filter_map(entry).len() ==> rank(
                named(#[trigger] modes.filter_map(entry)[i]),
            ) < rank(named(#[trigger] modes.filter_map(entry)[j])),
        forall|i: int|
            0 <= i < modes.filter_map(entry).len() ==> modes.contains(
                named(#[trigger] modes.filter_map(entry)[i]),
            ),
    decreases modes.len(),
{
    reveal(Seq::filter_map);
    if modes.len() > 0 {
        let rest = modes.drop_last();
        lemma_filter_map_in_order(rest, entry, rank, named);
        let kept = rest.filter_map(entry);
        let full = modes.filter_map(entry);
        let last = modes.last();
        assert(modes[modes.len() - 1] == last);
        assert(entry(last) is Some ==> named(entry(last)->0) == last);
        assert forall|i: int| 0 <= i < full.len() implies modes.contains(
            named(#[trigger] full[i]),
        ) by {
            if i < kept.len() {
                assert(kept[i] == full[i]);
                let k = choose|k: int| 0 <= k < rest.len() && rest[k] == named(kept[i]);
                assert(modes[k] == named(full[i]));
            }
        }
        assert forall|i: int, j: int| 0 <= i < j < full.len() implies rank(
            named(#[trigger] full[i]),
        ) < rank(named(#[trigger] full[j])) by {
            assert(kept[i] == full[i]);
            if j < kept.len() {
                assert(kept[j] == full[j]);
            } else {
                let k = choose|k: int| 0 <= k < rest.len() && rest[k] == named(kept[i]);
                assert(modes[k] == named(full[i]));
                assert(rank(modes[k]) < rank(modes[modes.len() - 1]));
            }
        }
    }
}

/// What is refused is listed in the order of the vocabulary, so that the first
/// refusal is of the first mode that the kernel lacks.
pub proof fn law_refusals_are_in_order(requested: Set<FsMode>, abi: u8, i: int, j: int)
    requires
        0 <= i < j < landlock_map::landlock_report(requested, abi).refused.len(),
    ensures
        ({
            let rank = |mode: FsMode|
                match mode {
                    FsMode::ReadContents => 0int,
                    FsMode::ReadDir => 1,
                    FsMode::ReadMetadata => 2,
                    FsMode::Write => 3,
                    FsMode::Append => 4,
                    FsMode::Create => 5,
                    FsMode::Truncate => 6,
                    FsMode::RemoveFile => 7,
                    FsMode::RemoveDir => 8,
                    FsMode::Rename => 9,
                    FsMode::Execute => 10,
                    FsMode::UnixSocketConnect => 11,
                    FsMode::AtomicWrite => 12,
                };
            rank(landlock_map::landlock_report(requested, abi).refused[i].mode) < rank(
                landlock_map::landlock_report(requested, abi).refused[j].mode,
            )
        }),
{
    let rank = |mode: FsMode|
        match mode {
            FsMode::ReadContents => 0int,
            FsMode::ReadDir => 1,
            FsMode::ReadMetadata => 2,
            FsMode::Write => 3,
            FsMode::Append => 4,
            FsMode::Create => 5,
            FsMode::Truncate => 6,
            FsMode::RemoveFile => 7,
            FsMode::RemoveDir => 8,
            FsMode::Rename => 9,
            FsMode::Execute => 10,
            FsMode::UnixSocketConnect => 11,
            FsMode::AtomicWrite => 12,
        };
    let refusals = |m: FsMode| landlock_map::refusal_at(abi, m);
    let entry = compile::refusal_entry(landlock_map::landlock_granted(requested), refusals);
    lemma_filter_map_in_order::<ModeRefusal>(
        super::all_modes(),
        entry,
        rank,
        |refusal: ModeRefusal| refusal.mode,
    );
}

/// What is enforced is listed in the order of the vocabulary, with an atomic write
/// at its end, whatever the platform.
pub proof fn law_what_is_enforced_is_in_order(
    implied: closure::Implications,
    refusals: compile::Refusals,
    target: ModeTarget,
    requested: Set<FsMode>,
    i: int,
    j: int,
)
    requires
        0 <= i < j < compile::report(implied, refusals, target, requested).enforced.len(),
    ensures
        ({
            let rank = |mode: FsMode|
                match mode {
                    FsMode::ReadContents => 0int,
                    FsMode::ReadDir => 1,
                    FsMode::ReadMetadata => 2,
                    FsMode::Write => 3,
                    FsMode::Append => 4,
                    FsMode::Create => 5,
                    FsMode::Truncate => 6,
                    FsMode::RemoveFile => 7,
                    FsMode::RemoveDir => 8,
                    FsMode::Rename => 9,
                    FsMode::Execute => 10,
                    FsMode::UnixSocketConnect => 11,
                    FsMode::AtomicWrite => 12,
                };
            let enforced = compile::report(implied, refusals, target, requested).enforced;
            rank(enforced[i]) < rank(enforced[j])
        }),
{
    let rank = |mode: FsMode|
        match mode {
            FsMode::ReadContents => 0int,
            FsMode::ReadDir => 1,
            FsMode::ReadMetadata => 2,
            FsMode::Write => 3,
            FsMode::Append => 4,
            FsMode::Create => 5,
            FsMode::Truncate => 6,
            FsMode::RemoveFile => 7,
            FsMode::RemoveDir => 8,
            FsMode::Rename => 9,
            FsMode::Execute => 10,
            FsMode::UnixSocketConnect => 11,
            FsMode::AtomicWrite => 12,
        };
    let entry = compile::enforced_entry(requested, refusals, target);
    lemma_filter_map_in_order::<FsMode>(super::all_modes(), entry, rank, |mode: FsMode| mode);
    laws::lemma_filter_map::<FsMode>(super::all_modes(), entry);
    let leaves = super::all_modes().filter_map(entry);
    let enforced = compile::report(implied, refusals, target, requested).enforced;
    assert(enforced[i] == leaves[i]);
    assert(leaves.contains(leaves[i]));
    if j < leaves.len() {
        assert(enforced[j] == leaves[j]);
    }
}

/// Each entry of a report names the first requested mode, in the order of the
/// vocabulary, that drags its mode in.
pub proof fn law_the_first_cause_is_named(
    implied: closure::Implications,
    refusals: compile::Refusals,
    target: ModeTarget,
    requested: Set<FsMode>,
    i: int,
    earlier: FsMode,
)
    requires
        0 <= i < compile::report(implied, refusals, target, requested).bundled.len(),
        requested.contains(earlier),
        earlier.index() < compile::report(
            implied,
            refusals,
            target,
            requested,
        ).bundled[i].requested.index(),
    ensures
        !closure::reaches(
            implied,
            earlier,
            compile::report(implied, refusals, target, requested).bundled[i].also_granted,
        ),
{
    let entry = compile::report(implied, refusals, target, requested).bundled[i];
    let roots = super::in_order(requested);
    laws::law_nothing_is_widened_silently(implied, refusals, target, requested);
    mode_set::lemma_in_order(requested);
    assert(laws::first_to_reach(implied, roots, entry));
    let j = choose|j: int|
        0 <= j < roots.len() && #[trigger] roots[j] == entry.requested && forall|k: int|
            0 <= k < j ==> !closure::reaches(implied, #[trigger] roots[k], entry.also_granted);
    assert(roots.contains(earlier));
    let k = choose|k: int| 0 <= k < roots.len() && roots[k] == earlier;
    if j < k {
        law_modes_are_listed_in_order(requested, j, k);
    }
    assert(!closure::reaches(implied, roots[k], entry.also_granted));
}

} // verus!
