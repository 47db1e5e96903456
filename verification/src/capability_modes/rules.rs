//! The rules that the grants of a run compile to, and the first grant that no
//! rule can stand for. A refused grant ends the preparation of a run: there is
//! no partial apply.

use vstd::prelude::*;
use vstd::string::StringExecFns;
use crate::capability::{CapabilitySet, CapabilityView};
use super::compile::RefusalReason;
use super::grant;
use super::grant::{FsModeCapability, GrantView};
use super::landlock_map;
use super::landlock_map::{CompiledLandlock, LandlockRightName, LandlockRightsAvailable};
use super::platform_laws;
use super::sbpl_map;
use super::sbpl_map::{CompiledSbpl, SbplOperation};
use super::FsMode;

verus! {

/// Whether a rule on a single file may carry a right.
pub open spec fn fits_a_file(right: LandlockRightName) -> bool {
    right is Execute || right is WriteFile || right is ReadFile || right is Truncate
}

/// The first of `rights` that only a rule on a directory may carry.
pub open spec fn first_unfit(rights: Seq<LandlockRightName>) -> Option<LandlockRightName>
    decreases rights.len(),
{
    if rights.len() == 0 {
        None
    } else if !fits_a_file(rights[0]) {
        Some(rights[0])
    } else {
        first_unfit(rights.skip(1))
    }
}

/// The rights that the rule of a grant carries.
pub open spec fn rule_rights(grant: GrantView) -> Seq<LandlockRightName> {
    landlock_map::needed_rights(landlock_map::landlock_granted(grant.modes))
}

/// Why no Landlock rule can stand for a grant on a kernel at `abi`, where none
/// can: a mode that the kernel does not carry, or a right that a rule on a
/// single file may not.
pub open spec fn grant_refusal(grant: GrantView, abi: u8) -> Option<RefusalReason> {
    let report = landlock_map::landlock_report(grant.modes, abi);
    if report.refused.len() > 0 {
        Some(report.refused[0].why)
    } else if grant.is_file {
        match first_unfit(rule_rights(grant)) {
            Some(right) => Some(RefusalReason::DirectoryOnlyRightOnFile { right }),
            None => None,
        }
    } else {
        None
    }
}

/// The text of a refused grant.
pub open spec fn refusal_text(grant: GrantView, why: RefusalReason) -> Seq<char> {
    "grant "@ + grant::grant_text(grant) + " is refused: "@ + why.text()
}

/// The text of the first grant that is refused.
pub open spec fn first_refusal(grants: Seq<GrantView>, abi: u8) -> Option<Seq<char>>
    decreases grants.len(),
{
    if grants.len() == 0 {
        None
    } else {
        match first_refusal(grants.drop_last(), abi) {
            Some(text) => Some(text),
            None => match grant_refusal(grants.last(), abi) {
                Some(why) => Some(refusal_text(grants.last(), why)),
                None => None,
            },
        }
    }
}

/// Whether `rule` is the Landlock rule of a grant.
pub open spec fn is_landlock_rule(rule: CompiledLandlock, grant: GrantView, abi: u8) -> bool {
    &&& rule.modes@ == landlock_map::landlock_report(grant.modes, abi)
    &&& rule.rights@ == rule_rights(grant)
}

/// Whether `rule` is the Seatbelt rule of a grant.
pub open spec fn is_seatbelt_rule(rule: CompiledSbpl, grant: GrantView) -> bool {
    let granted = sbpl_map::seatbelt_granted(grant.modes);
    &&& rule.modes@ == sbpl_map::seatbelt_report(grant.modes)
    &&& rule.operations@ == sbpl_map::needed_operations(granted)
    &&& rule.temp_sibling_operations@ == (if grant.is_file && granted.contains(
        FsMode::AtomicWrite,
    ) {
        sbpl_map::sibling_operations()
    } else {
        Seq::<SbplOperation>::empty()
    })
}

fn find_unfit(rights: &Vec<LandlockRightName>) -> (found: Option<LandlockRightName>)
    ensures
        found == first_unfit(rights@),
{
    let mut i: usize = 0;
    assert(rights@.skip(0) =~= rights@);
    while i < rights.len()
        invariant
            i <= rights@.len(),
            first_unfit(rights@.skip(i as int)) == first_unfit(rights@),
        decreases rights@.len() - i,
    {
        match rights[i] {
            LandlockRightName::Execute
            | LandlockRightName::WriteFile
            | LandlockRightName::ReadFile
            | LandlockRightName::Truncate => {},
            right => {
                return Some(right);
            },
        }
        assert(rights@.skip(i as int).skip(1) =~= rights@.skip(i + 1));
        i += 1;
    }
    None
}

/// The Landlock rule of one grant, or why there is none.
pub fn landlock_rule(grant: &FsModeCapability, available: LandlockRightsAvailable) -> (rule: Result<
    CompiledLandlock,
    RefusalReason,
>)
    ensures
        match rule {
            Ok(rule) => grant_refusal(grant@, available.version()) is None && is_landlock_rule(
                rule,
                grant@,
                available.version(),
            ),
            Err(why) => grant_refusal(grant@, available.version()) == Some(why),
        },
{
    let rule = landlock_map::compile(grant.modes, available);
    if let Some(refusal) = rule.modes.first_refusal() {
        return Err(refusal.why);
    }
    if grant.is_file {
        if let Some(right) = find_unfit(&rule.rights) {
            return Err(RefusalReason::DirectoryOnlyRightOnFile { right });
        }
    }
    Ok(rule)
}

/// The Landlock rules of a set, one for each grant and in the same order, or the
/// first refusal in words.
pub fn landlock_rules(caps: &CapabilitySet, available: LandlockRightsAvailable) -> (rules: Result<
    Vec<CompiledLandlock>,
    String,
>)
    ensures
        match rules {
            Ok(rules) => {
                &&& first_refusal(caps@.fs_modes, available.version()) is None
                &&& rules@.len() == caps@.fs_modes.len()
                &&& forall|i: int|
                    0 <= i < rules@.len() ==> is_landlock_rule(
                        #[trigger] rules@[i],
                        caps@.fs_modes[i],
                        available.version(),
                    )
            },
            Err(reason) => first_refusal(caps@.fs_modes, available.version()) == Some(reason@),
        },
{
    let grants = caps.fs_modes();
    let ghost all = caps@.fs_modes;
    let ghost abi = available.version();
    let mut rules: Vec<CompiledLandlock> = Vec::new();
    let mut i: usize = 0;
    while i < grants.len()
        invariant
            i <= grants@.len() == all.len(),
            all == caps@.fs_modes,
            all == crate::capability::grants_of(grants@),
            abi == available.version(),
            rules@.len() == i,
            first_refusal(all.take(i as int), abi) is None,
            forall|k: int|
                0 <= k < i ==> is_landlock_rule(#[trigger] rules@[k], all[k], abi),
        decreases grants@.len() - i,
    {
        proof {
            assert(all.take(i + 1).drop_last() =~= all.take(i as int));
            assert(all.take(i + 1).last() == grants@[i as int]@);
        }
        match landlock_rule(&grants[i], available) {
            Ok(rule) => rules.push(rule),
            Err(why) => {
                let mut reason = "grant ".to_string();
                reason.append(grants[i].to_text().as_str());
                reason.append(" is refused: ");
                reason.append(why.to_text().as_str());
                proof {
                    lemma_refusal_stays(all, i + 1, abi);
                }
                return Err(reason);
            },
        }
        i += 1;
    }
    assert(all.take(i as int) =~= all);
    Ok(rules)
}

/// The Seatbelt rules of a set, one for each grant and in the same order.
/// Seatbelt refuses none.
pub fn seatbelt_rules(caps: &CapabilitySet) -> (rules: Vec<CompiledSbpl>)
    ensures
        rules@.len() == caps@.fs_modes.len(),
        forall|i: int|
            0 <= i < rules@.len() ==> is_seatbelt_rule(#[trigger] rules@[i], caps@.fs_modes[i]),
{
    let grants = caps.fs_modes();
    let mut rules: Vec<CompiledSbpl> = Vec::new();
    let mut i: usize = 0;
    while i < grants.len()
        invariant
            i <= grants@.len() == caps@.fs_modes.len(),
            caps@.fs_modes == crate::capability::grants_of(grants@),
            rules@.len() == i,
            forall|k: int| 0 <= k < i ==> is_seatbelt_rule(#[trigger] rules@[k], caps@.fs_modes[k]),
        decreases grants@.len() - i,
    {
        assert(caps@.fs_modes[i as int] == grants@[i as int]@);
        rules.push(sbpl_map::compile(grants[i].modes, grants[i].is_file));
        i += 1;
    }
    rules
}

/// The first refusal stays the first when more grants are looked at.
proof fn lemma_refusal_stays(grants: Seq<GrantView>, count: int, abi: u8)
    requires
        0 <= count <= grants.len(),
        first_refusal(grants.take(count), abi) is Some,
    ensures
        first_refusal(grants, abi) == first_refusal(grants.take(count), abi),
    decreases grants.len(),
{
    if count < grants.len() {
        assert(grants.drop_last().take(count) =~= grants.take(count));
        lemma_refusal_stays(grants.drop_last(), count, abi);
    } else {
        assert(grants.take(count) =~= grants);
    }
}

/// No grant of a run is left out: a set compiles exactly when every grant in it
/// does.
pub proof fn law_a_set_compiles_iff_every_grant_does(caps: CapabilityView, abi: u8)
    ensures
        first_refusal(caps.fs_modes, abi) is None <==> forall|i: int|
            0 <= i < caps.fs_modes.len() ==> grant_refusal(#[trigger] caps.fs_modes[i], abi) is None,
{
    lemma_none_refused(caps.fs_modes, abi);
}

proof fn lemma_none_refused(grants: Seq<GrantView>, abi: u8)
    ensures
        first_refusal(grants, abi) is None <==> forall|i: int|
            0 <= i < grants.len() ==> grant_refusal(#[trigger] grants[i], abi) is None,
    decreases grants.len(),
{
    if grants.len() > 0 {
        let head = grants.drop_last();
        lemma_none_refused(head, abi);
        assert forall|i: int| 0 <= i < head.len() implies head[i] == #[trigger] grants[i] by {}
        if first_refusal(grants, abi) is None {
            assert forall|i: int| 0 <= i < grants.len() implies grant_refusal(
                #[trigger] grants[i],
                abi,
            ) is None by {
                if i < head.len() {
                    assert(grant_refusal(head[i], abi) is None);
                }
            }
        } else if forall|i: int|
            0 <= i < grants.len() ==> grant_refusal(#[trigger] grants[i], abi) is None {
            assert forall|i: int| 0 <= i < head.len() implies grant_refusal(
                #[trigger] head[i],
                abi,
            ) is None by {
                assert(grant_refusal(grants[i], abi) is None);
            }
            assert(grant_refusal(grants[grants.len() - 1], abi) is None);
        }
    }
}

/// A single file is never given a right that its rule may not carry.
pub proof fn law_a_file_rule_holds_file_rights(rule: CompiledLandlock, grant: GrantView, abi: u8)
    requires
        grant.is_file,
        grant_refusal(grant, abi) is None,
        is_landlock_rule(rule, grant, abi),
    ensures
        forall|i: int| 0 <= i < rule.rights@.len() ==> fits_a_file(#[trigger] rule.rights@[i]),
{
    lemma_all_fit(rule.rights@);
}

proof fn lemma_all_fit(rights: Seq<LandlockRightName>)
    requires
        first_unfit(rights) is None,
    ensures
        forall|i: int| 0 <= i < rights.len() ==> fits_a_file(#[trigger] rights[i]),
    decreases rights.len(),
{
    if rights.len() > 0 {
        let rest = rights.skip(1);
        lemma_all_fit(rest);
        assert forall|i: int| 0 <= i < rights.len() implies fits_a_file(#[trigger] rights[i]) by {
            if i > 0 {
                assert(rights[i] == rest[i - 1]);
            }
        }
    }
}

/// A kernel that has Landlock refuses a grant for three things: a rename before
/// the second version, a truncation before the third, and on a single file
/// whatever only a directory can be given.
pub proof fn law_when_a_grant_is_refused(grant: GrantView, abi: u8)
    requires
        abi >= 1,
    ensures
        ({
            let renames = grant.modes.contains(FsMode::Rename) || grant.modes.contains(
                FsMode::AtomicWrite,
            );
            let in_a_tree = renames || grant.modes.contains(FsMode::ReadDir)
                || grant.modes.contains(FsMode::Create) || grant.modes.contains(FsMode::RemoveFile)
                || grant.modes.contains(FsMode::RemoveDir);
            grant_refusal(grant, abi) is Some <==> {
                ||| renames && abi < 2
                ||| grant.modes.contains(FsMode::Truncate) && abi < 3
                ||| grant.is_file && in_a_tree
            }
        }),
{
    let report = landlock_map::landlock_report(grant.modes, abi);
    let rights = rule_rights(grant);
    platform_laws::law_a_landlock_report_says(grant.modes, abi, FsMode::Rename);
    platform_laws::law_a_landlock_report_says(grant.modes, abi, FsMode::Truncate);
    if report.refused.len() > 0 {
        let refused = report.refused[0].mode;
        platform_laws::law_a_landlock_report_says(grant.modes, abi, refused);
        assert(report.refuses(refused));
    }
    if report.refuses(FsMode::Rename) || report.refuses(FsMode::Truncate) {
        assert(report.refused.len() > 0);
    }
    lemma_unfit(rights);
    assert forall|right: LandlockRightName| rights.contains(right) <==> (match right {
        LandlockRightName::ReadFile => grant.modes.contains(FsMode::ReadContents),
        LandlockRightName::ReadDir => grant.modes.contains(FsMode::ReadDir),
        LandlockRightName::WriteFile => grant.modes.contains(FsMode::Write)
            || grant.modes.contains(FsMode::Append) || grant.modes.contains(FsMode::AtomicWrite),
        LandlockRightName::Execute => grant.modes.contains(FsMode::Execute),
        LandlockRightName::MakeReg => grant.modes.contains(FsMode::Create) || grant.modes.contains(
            FsMode::AtomicWrite,
        ),
        LandlockRightName::RemoveFile => grant.modes.contains(FsMode::RemoveFile)
            || grant.modes.contains(FsMode::AtomicWrite),
        LandlockRightName::RemoveDir => grant.modes.contains(FsMode::RemoveDir),
        LandlockRightName::Refer => grant.modes.contains(FsMode::Rename) || grant.modes.contains(
            FsMode::AtomicWrite,
        ),
        LandlockRightName::Truncate => grant.modes.contains(FsMode::Truncate),
    }) by {
        platform_laws::law_a_landlock_rule_carries(grant.modes, right);
    }
    assert(rights.contains(LandlockRightName::ReadDir) <==> grant.modes.contains(FsMode::ReadDir));
    assert(rights.contains(LandlockRightName::MakeReg) <==> grant.modes.contains(FsMode::Create)
        || grant.modes.contains(FsMode::AtomicWrite));
    assert(rights.contains(LandlockRightName::RemoveFile) <==> grant.modes.contains(
        FsMode::RemoveFile,
    ) || grant.modes.contains(FsMode::AtomicWrite));
    assert(rights.contains(LandlockRightName::RemoveDir) <==> grant.modes.contains(
        FsMode::RemoveDir,
    ));
    assert(rights.contains(LandlockRightName::Refer) <==> grant.modes.contains(FsMode::Rename)
        || grant.modes.contains(FsMode::AtomicWrite));
}

/// A right that no rule on a single file may carry is the first that is named.
proof fn lemma_unfit(rights: Seq<LandlockRightName>)
    ensures
        first_unfit(rights) is Some <==> rights.contains(LandlockRightName::ReadDir)
            || rights.contains(LandlockRightName::MakeReg) || rights.contains(
            LandlockRightName::RemoveFile,
        ) || rights.contains(LandlockRightName::RemoveDir) || rights.contains(
            LandlockRightName::Refer,
        ),
        first_unfit(rights) matches Some(right) ==> rights.contains(right),
    decreases rights.len(),
{
    if rights.len() > 0 {
        let rest = rights.skip(1);
        lemma_unfit(rest);
        assert forall|right: LandlockRightName| #[trigger] rights.contains(right) <==> (rights[0]
            == right || rest.contains(right)) by {
            if rest.contains(right) {
                let k = choose|k: int| 0 <= k < rest.len() && rest[k] == right;
                assert(rights[k + 1] == right);
            }
            if rights.contains(right) && rights[0] != right {
                let k = choose|k: int| 0 <= k < rights.len() && rights[k] == right;
                assert(rest[k - 1] == right);
            }
        }
    }
}

/// What a refusal on a single file names is a right that the rule would have
/// carried and that only a directory can be given.
pub proof fn law_an_unfit_right_is_a_real_one(grant: GrantView, abi: u8)
    ensures
        grant_refusal(grant, abi) matches Some(RefusalReason::DirectoryOnlyRightOnFile { right })
            ==> grant.is_file && rule_rights(grant).contains(right) && !(right is Execute
            || right is WriteFile || right is ReadFile || right is Truncate),
{
    let report = landlock_map::landlock_report(grant.modes, abi);
    if report.refused.len() > 0 {
        platform_laws::law_a_refusal_names_what_is_missing(grant.modes, abi, 0);
    }
    lemma_unfit(rule_rights(grant));
    lemma_unfit_is_unfit(rule_rights(grant));
}

proof fn lemma_unfit_is_unfit(rights: Seq<LandlockRightName>)
    ensures
        first_unfit(rights) matches Some(right) ==> !fits_a_file(right),
    decreases rights.len(),
{
    if rights.len() > 0 {
        lemma_unfit_is_unfit(rights.skip(1));
    }
}

/// The refusal of a set is that of its first refused grant, named by its path and
/// its modes and with its own reason.
pub proof fn law_the_first_refused_grant_is_named(
    grants: Seq<GrantView>,
    abi: u8,
    i: int,
    why: RefusalReason,
)
    requires
        0 <= i < grants.len(),
        grant_refusal(grants[i], abi) == Some(why),
        forall|k: int| 0 <= k < i ==> grant_refusal(#[trigger] grants[k], abi) is None,
    ensures
        first_refusal(grants, abi) == Some(
            "grant "@ + grant::grant_text(grants[i]) + " is refused: "@ + why.text(),
        ),
{
    let before = grants.take(i);
    assert forall|k: int| 0 <= k < before.len() implies grant_refusal(
        #[trigger] before[k],
        abi,
    ) is None by {
        assert(before[k] == grants[k]);
    }
    lemma_none_refused(before, abi);
    assert(grants.take(i + 1).drop_last() =~= before);
    assert(grants.take(i + 1).last() == grants[i]);
    lemma_refusal_stays(grants, i + 1, abi);
}

/// The rule of a grant is what its modes come to: its rights on Landlock, its
/// operations on Seatbelt, and for an atomic write on a single file also what its
/// temp sibling takes.
pub proof fn law_a_rule_is_what_its_modes_come_to(
    landlock: CompiledLandlock,
    seatbelt: CompiledSbpl,
    grant: GrantView,
    abi: u8,
)
    requires
        is_landlock_rule(landlock, grant, abi),
        is_seatbelt_rule(seatbelt, grant),
    ensures
        landlock.rights@.contains(LandlockRightName::Execute) <==> grant.modes.contains(
            FsMode::Execute,
        ),
        landlock.rights@.contains(LandlockRightName::ReadFile) <==> grant.modes.contains(
            FsMode::ReadContents,
        ),
        seatbelt.operations@.contains(SbplOperation::ProcessExec) <==> grant.modes.contains(
            FsMode::Execute,
        ),
        seatbelt.temp_sibling_operations@.len() > 0 <==> grant.is_file && grant.modes.contains(
            FsMode::AtomicWrite,
        ),
{
    platform_laws::law_a_landlock_rule_carries(grant.modes, LandlockRightName::Execute);
    platform_laws::law_a_landlock_rule_carries(grant.modes, LandlockRightName::ReadFile);
    platform_laws::law_a_seatbelt_rule_allows(grant.modes, SbplOperation::ProcessExec);
    platform_laws::law_seatbelt_confers(grant.modes, FsMode::AtomicWrite);
}

/// A grant is shown as the path it leads to and its modes between braces.
pub proof fn law_a_grant_is_shown_as_its_path_and_modes(grant: GrantView)
    ensures
        grant::grant_text(grant) == crate::path::lossy_utf8(grant.resolved) + " {"@
            + super::mode_set::joined_names(super::in_order(grant.modes)) + "}"@,
{
}

} // verus!
