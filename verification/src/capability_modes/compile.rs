//! Compiling a mode set: what a platform will do with each mode of a request.

use std::collections::VecDeque;
use vstd::prelude::*;
use vstd::string::StringExecFns;
use crate::text;
use crate::text::push_decimal;
use super::closure;
use super::closure::Implications;
use super::landlock_map::LandlockRightName;
use super::{FsMode, FsModeSet, MODE_COUNT};

verus! {

/// Which platform a mode set is being compiled for.
#[derive(Debug, Clone, Copy, PartialEq, Eq, Hash, Structural)]
pub enum ModeTarget {
    /// Landlock LSM.
    Landlock,
    /// Seatbelt / SBPL.
    Seatbelt,
}

/// Why a grant confers a mode the caller did not ask for.
///
/// Every variant names an operation that the kernel's own vocabulary cannot
/// tell apart from another.
#[derive(Debug, Clone, Copy, PartialEq, Eq, Hash, Structural)]
pub enum BundleReason {
    /// Neither platform has an append-only right.
    AppendImpliesWrite,
    /// [`FsMode::AtomicWrite`] is a name for its members.
    AtomicWriteCluster,
    /// Seatbelt has no truncate operation.
    SeatbeltTruncateIsWriteData,
    /// Seatbelt has no rename operation.
    SeatbeltRenameIsCreatePlusUnlink,
    /// Seatbelt's `file-write-unlink` covers `unlink(2)` and `rmdir(2)` alike.
    SeatbeltUnlinkCoversFilesAndDirectories,
    /// Seatbelt's `file-read-data` covers `read(2)` and `readdir(3)` alike.
    SeatbeltReadDataCoversFilesAndDirectories,
}

impl BundleReason {
    /// The explanation of a reason.
    pub open spec fn explanation(self) -> Seq<char> {
        match self {
            BundleReason::AppendImpliesWrite =>
                "neither Landlock nor Seatbelt has an append-only right; an append grant compiles to the same write right as a write grant"@,
            BundleReason::AtomicWriteCluster =>
                "atomic_write is a published name for create + write + rename + remove_file"@,
            BundleReason::SeatbeltTruncateIsWriteData =>
                "Seatbelt has no truncate operation; truncation is checked as file-write-data"@,
            BundleReason::SeatbeltRenameIsCreatePlusUnlink =>
                "Seatbelt has no rename operation; rename is checked as file-write-create on the destination and file-write-unlink on the source"@,
            BundleReason::SeatbeltUnlinkCoversFilesAndDirectories =>
                "Seatbelt's file-write-unlink covers unlink(2) and rmdir(2) alike"@,
            BundleReason::SeatbeltReadDataCoversFilesAndDirectories =>
                "Seatbelt's file-read-data is what both read(2) on a file and readdir(3) on a directory are checked against"@,
        }
    }

    /// One sentence a human can check.
    #[must_use]
    pub fn explain(self) -> (sentence: &'static str)
        ensures
            sentence@ == self.explanation(),
    {
        match self {
            BundleReason::AppendImpliesWrite =>
                "neither Landlock nor Seatbelt has an append-only right; an append grant compiles to the same write right as a write grant",
            BundleReason::AtomicWriteCluster =>
                "atomic_write is a published name for create + write + rename + remove_file",
            BundleReason::SeatbeltTruncateIsWriteData =>
                "Seatbelt has no truncate operation; truncation is checked as file-write-data",
            BundleReason::SeatbeltRenameIsCreatePlusUnlink =>
                "Seatbelt has no rename operation; rename is checked as file-write-create on the destination and file-write-unlink on the source",
            BundleReason::SeatbeltUnlinkCoversFilesAndDirectories =>
                "Seatbelt's file-write-unlink covers unlink(2) and rmdir(2) alike",
            BundleReason::SeatbeltReadDataCoversFilesAndDirectories =>
                "Seatbelt's file-read-data is what both read(2) on a file and readdir(3) on a directory are checked against",
        }
    }
}

/// A mode the caller did not ask for that the grant confers anyway.
#[derive(Debug, Clone, Copy, PartialEq, Eq, Hash, Structural)]
pub struct ModeBundle {
    /// The mode the caller did ask for.
    pub requested: FsMode,
    /// The mode that rides along with it.
    pub also_granted: FsMode,
    /// Why the platform cannot separate them.
    pub why: BundleReason,
}

/// Why the platform will not express a mode, so the grant fails closed.
#[derive(Debug, Clone, Copy, PartialEq, Eq, Hash, Structural)]
pub enum RefusalReason {
    /// The Landlock right this mode needs is not carried by the detected ABI.
    UnsupportedRight {
        /// The right that is missing.
        right: LandlockRightName,
        /// The ABI version actually detected.
        abi: u8,
        /// The ABI version that first carries the right.
        needed_abi: u8,
    },
    /// The Landlock right this mode needs may not appear in a rule whose path is
    /// not a directory.
    DirectoryOnlyRightOnFile {
        /// The right that only a directory rule may carry.
        right: LandlockRightName,
    },
}

impl RefusalReason {
    /// The text of a refusal.
    pub open spec fn text(self) -> Seq<char> {
        match self {
            RefusalReason::UnsupportedRight { right, abi, needed_abi } => "Landlock ABI V"@
                + text::decimal(abi as nat) + " does not carry "@ + right.name()
                + ", which first appears in V"@ + text::decimal(needed_abi as nat)
                + "; on this kernel the operation cannot be restricted at all, so the grant is refused rather than compiled to a rule that would enforce nothing"@,
            RefusalReason::DirectoryOnlyRightOnFile { right } => "Landlock will not carry "@
                + right.name()
                + " in a rule on a path that is not a directory: the kernel accepts only EXECUTE, WRITE_FILE, READ_FILE, TRUNCATE and IOCTL_DEV there and refuses anything else with EINVAL, so the grant is refused rather than compiled to a rule the kernel would reject or a library would silently empty"@,
        }
    }

    /// The refusal as a sentence for a human.
    pub fn to_text(&self) -> (text: String)
        ensures
            text@ == self.text(),
    {
        match self {
            RefusalReason::UnsupportedRight { right, abi, needed_abi } => {
                let mut text = "Landlock ABI V".to_string();
                push_decimal(&mut text, *abi as u64);
                text.append(" does not carry ");
                text.append(right.as_str());
                text.append(", which first appears in V");
                push_decimal(&mut text, *needed_abi as u64);
                text.append(
                    "; on this kernel the operation cannot be restricted at all, so the grant is refused rather than compiled to a rule that would enforce nothing",
                );
                text
            },
            RefusalReason::DirectoryOnlyRightOnFile { right } => {
                let mut text = "Landlock will not carry ".to_string();
                text.append(right.as_str());
                text.append(
                    " in a rule on a path that is not a directory: the kernel accepts only EXECUTE, WRITE_FILE, READ_FILE, TRUNCATE and IOCTL_DEV there and refuses anything else with EINVAL, so the grant is refused rather than compiled to a rule the kernel would reject or a library would silently empty",
                );
                text
            },
        }
    }
}

/// A mode the platform will not express here.
#[derive(Debug, Clone, Copy, PartialEq, Eq, Hash, Structural)]
pub struct ModeRefusal {
    /// The mode that cannot be honoured.
    pub mode: FsMode,
    /// Why not.
    pub why: RefusalReason,
}

/// Why a grant is a no-op.
#[derive(Debug, Clone, Copy, PartialEq, Eq, Hash, Structural)]
pub enum AlwaysAllowedReason {
    /// Landlock has no access right covering `stat(2)` and its relatives.
    LandlockCannotRestrictMetadata,
}

impl AlwaysAllowedReason {
    /// The explanation of a reason.
    pub open spec fn explanation(self) -> Seq<char> {
        "Landlock has no access right covering stat(2)/statx(2)/access(2): a landlocked process can always read metadata for any path it can name, so granting read_metadata changes nothing"@
    }

    /// One sentence a human can check.
    #[must_use]
    pub fn explain(self) -> (sentence: &'static str)
        ensures
            sentence@ == self.explanation(),
    {
        match self {
            AlwaysAllowedReason::LandlockCannotRestrictMetadata =>
                "Landlock has no access right covering stat(2)/statx(2)/access(2): a landlocked process can always read metadata for any path it can name, so granting read_metadata changes nothing",
        }
    }
}

/// A mode the platform cannot restrict at all.
#[derive(Debug, Clone, Copy, PartialEq, Eq, Hash, Structural)]
pub struct ModeAlwaysAllowed {
    /// The mode whose grant is a no-op.
    pub mode: FsMode,
    /// Why it is a no-op.
    pub why: AlwaysAllowedReason,
}

/// Which other mechanism in this library enforces a delegated mode.
#[derive(Debug, Clone, Copy, PartialEq, Eq, Hash, Structural)]
pub enum DelegationTarget {
    /// The socket capability.
    UnixSocketCapability,
}

impl DelegationTarget {
    /// What enforces a delegated mode.
    pub open spec fn explanation(self, target: ModeTarget) -> Seq<char> {
        match target {
            ModeTarget::Seatbelt =>
                "enforced by the UnixSocketCapability's own Seatbelt rules ((allow network-outbound (path …))), not by a filesystem rule"@,
            ModeTarget::Landlock =>
                "Landlock has no AF_UNIX connect right; the grant is carried by the UnixSocketCapability and enforced only where the seccomp-notify AF_UNIX mediation is installed"@,
        }
    }

    /// What actually enforces the mode, per platform, in one sentence.
    #[must_use]
    pub fn explain(self, target: ModeTarget) -> (sentence: &'static str)
        ensures
            sentence@ == self.explanation(target),
    {
        match (self, target) {
            (DelegationTarget::UnixSocketCapability, ModeTarget::Seatbelt) =>
                "enforced by the UnixSocketCapability's own Seatbelt rules ((allow network-outbound (path …))), not by a filesystem rule",
            (DelegationTarget::UnixSocketCapability, ModeTarget::Landlock) =>
                "Landlock has no AF_UNIX connect right; the grant is carried by the UnixSocketCapability and enforced only where the seccomp-notify AF_UNIX mediation is installed",
        }
    }
}

/// A mode enforced by another capability rather than by the filesystem rules.
#[derive(Debug, Clone, Copy, PartialEq, Eq, Hash, Structural)]
pub struct ModeDelegation {
    /// The delegated mode.
    pub mode: FsMode,
    /// What enforces it instead.
    pub target: DelegationTarget,
}

/// How enforceable one mode is on one platform.
#[derive(Debug, Clone, Copy, PartialEq, Eq, Hash, Structural)]
pub enum ModeEnforceability {
    /// The platform expresses this mode as a grant distinct from the others.
    Enforceable,
    /// The platform cannot separate it from another mode.
    BundledWith {
        /// The mode it cannot be separated from.
        mode: FsMode,
    },
    /// The platform cannot restrict the operation at all.
    Unrestrictable,
    /// The platform could express it, but not at the version detected here.
    NeedsAbi {
        /// The first ABI version that carries the right.
        abi: u8,
    },
    /// The platform has no mechanism for it.
    Unsupported,
    /// Enforced by a sibling capability rather than by the filesystem rules.
    Delegated {
        /// What enforces it.
        target: DelegationTarget,
    },
}

/// What a platform will actually do with a requested [`FsModeSet`].
#[derive(Debug, Clone, PartialEq, Eq)]
pub struct CompiledModes {
    enforced: Vec<FsMode>,
    bundled: Vec<ModeBundle>,
    always_allowed: Vec<ModeAlwaysAllowed>,
    refused: Vec<ModeRefusal>,
    delegated: Vec<ModeDelegation>,
}

/// The five lists of a [`CompiledModes`].
#[verifier::ext_equal]
pub struct ModeReport {
    /// Modes the platform grants as asked.
    pub enforced: Seq<FsMode>,
    /// Modes that ride along, each with the mode that drags it in.
    pub bundled: Seq<ModeBundle>,
    /// Modes whose grant is a no-op.
    pub always_allowed: Seq<ModeAlwaysAllowed>,
    /// Modes that make the grant fail closed.
    pub refused: Seq<ModeRefusal>,
    /// Modes that a sibling capability enforces.
    pub delegated: Seq<ModeDelegation>,
}

impl ModeReport {
    /// Whether an entry discloses that `mode` rides along.
    pub open spec fn discloses(self, mode: FsMode) -> bool {
        exists|i: int| 0 <= i < self.bundled.len() && (#[trigger] self.bundled[i]).also_granted == mode
    }

    /// Whether `mode` is refused.
    pub open spec fn refuses(self, mode: FsMode) -> bool {
        exists|i: int| 0 <= i < self.refused.len() && (#[trigger] self.refused[i]).mode == mode
    }

    /// Whether `mode` is reported as a no-op.
    pub open spec fn always_allows(self, mode: FsMode) -> bool {
        exists|i: int|
            0 <= i < self.always_allowed.len() && (#[trigger] self.always_allowed[i]).mode == mode
    }

    /// Whether `mode` is left to a sibling capability.
    pub open spec fn delegates(self, mode: FsMode) -> bool {
        exists|i: int| 0 <= i < self.delegated.len() && (#[trigger] self.delegated[i]).mode == mode
    }
}

impl View for CompiledModes {
    type V = ModeReport;

    closed spec fn view(&self) -> ModeReport {
        ModeReport {
            enforced: self.enforced@,
            bundled: self.bundled@,
            always_allowed: self.always_allowed@,
            refused: self.refused@,
            delegated: self.delegated@,
        }
    }
}

/// A platform's refusals: why a mode cannot be expressed, where it cannot.
pub type Refusals = spec_fn(FsMode) -> Option<RefusalReason>;

/// Whether an entry of `bundled` names `mode` as riding along.
pub open spec fn named(bundled: Seq<ModeBundle>, mode: FsMode) -> bool {
    exists|i: int| 0 <= i < bundled.len() && (#[trigger] bundled[i]).also_granted == mode
}

/// `before`, extended by an entry for each mode that `root` drags in, that the
/// caller did not request and that no entry names yet.
pub open spec fn disclosed_for(
    requested: Set<FsMode>,
    before: Seq<ModeBundle>,
    root: FsMode,
    found: Seq<(FsMode, BundleReason)>,
) -> Seq<ModeBundle>
    decreases found.len(),
{
    if found.len() == 0 {
        before
    } else {
        let earlier = disclosed_for(requested, before, root, found.drop_last());
        let (mode, why) = found.last();
        if requested.contains(mode) || named(earlier, mode) {
            earlier
        } else {
            earlier.push(ModeBundle { requested: root, also_granted: mode, why })
        }
    }
}

/// The entries that disclose what `roots` drag in beyond `requested`, root by
/// root.
pub open spec fn disclosures(
    implied: Implications,
    requested: Set<FsMode>,
    roots: Seq<FsMode>,
) -> Seq<ModeBundle>
    decreases roots.len(),
{
    if roots.len() == 0 {
        Seq::empty()
    } else {
        disclosed_for(
            requested,
            disclosures(implied, requested, roots.drop_last()),
            roots.last(),
            closure::dragged_in(implied, roots.last()),
        )
    }
}

/// The refusal of `mode`, where it is granted and cannot be expressed.
pub open spec fn refusal_entry(granted: Set<FsMode>, refusals: Refusals) -> spec_fn(
    FsMode,
) -> Option<ModeRefusal> {
    |mode: FsMode|
        match refusals(mode) {
            Some(why) if granted.contains(mode) => Some(ModeRefusal { mode, why }),
            _ => None,
        }
}

/// Whether `mode` is granted and not refused.
pub open spec fn honoured(granted: Set<FsMode>, refusals: Refusals, mode: FsMode) -> bool {
    granted.contains(mode) && refusals(mode) is None
}

/// Whether the platform cannot restrict `mode` at all.
pub open spec fn unrestrictable(target: ModeTarget, mode: FsMode) -> bool {
    mode is ReadMetadata && target is Landlock
}

/// The entry for `mode`, where it is honoured and its grant is a no-op.
pub open spec fn always_allowed_entry(
    granted: Set<FsMode>,
    refusals: Refusals,
    target: ModeTarget,
) -> spec_fn(FsMode) -> Option<ModeAlwaysAllowed> {
    |mode: FsMode|
        if honoured(granted, refusals, mode) && unrestrictable(target, mode) {
            Some(
                ModeAlwaysAllowed {
                    mode,
                    why: AlwaysAllowedReason::LandlockCannotRestrictMetadata,
                },
            )
        } else {
            None
        }
}

/// The entry for `mode`, where it is honoured by a sibling capability.
pub open spec fn delegation_entry(granted: Set<FsMode>, refusals: Refusals) -> spec_fn(
    FsMode,
) -> Option<ModeDelegation> {
    |mode: FsMode|
        if honoured(granted, refusals, mode) && mode is UnixSocketConnect {
            Some(ModeDelegation { mode, target: DelegationTarget::UnixSocketCapability })
        } else {
            None
        }
}

/// `mode`, where the filesystem rules enforce it as the caller asked.
pub open spec fn enforced_entry(
    requested: Set<FsMode>,
    refusals: Refusals,
    target: ModeTarget,
) -> spec_fn(FsMode) -> Option<FsMode> {
    |mode: FsMode|
        if requested.contains(mode) && refusals(mode) is None && !(mode is AtomicWrite)
            && !(mode is UnixSocketConnect) && !unrestrictable(target, mode) {
            Some(mode)
        } else {
            None
        }
}

/// What a platform does with `requested`.
pub open spec fn report(
    implied: Implications,
    refusals: Refusals,
    target: ModeTarget,
    requested: Set<FsMode>,
) -> ModeReport {
    let granted = closure::granted_by(implied, requested);
    let refused = super::all_modes().filter_map(refusal_entry(granted, refusals));
    let leaves = super::all_modes().filter_map(enforced_entry(requested, refusals, target));
    ModeReport {
        enforced: if requested.contains(FsMode::AtomicWrite) && refused.len() == 0 {
            leaves.push(FsMode::AtomicWrite)
        } else {
            leaves
        },
        bundled: disclosures(implied, requested, super::in_order(requested)),
        always_allowed: super::all_modes().filter_map(always_allowed_entry(granted, refusals, target)),
        refused,
        delegated: super::all_modes().filter_map(delegation_entry(granted, refusals)),
    }
}

/// The search from one requested mode.
///
/// Adds to `granted` what `root` drags in and to `bundled` the entries that
/// disclose it.
fn follow<I: Fn(FsMode, ModeTarget) -> &'static [(FsMode, BundleReason)]>(
    root: FsMode,
    requested: FsModeSet,
    target: ModeTarget,
    implications: &I,
    Ghost(implied): Ghost<Implications>,
    granted: &mut FsModeSet,
    disclosed: &mut FsModeSet,
    bundled: &mut Vec<ModeBundle>,
)
    requires
        forall|mode: FsMode| implications.requires((mode, target)),
        forall|mode: FsMode, edges: &'static [(FsMode, BundleReason)]|
            implications.ensures((mode, target), edges) ==> edges@ == implied(mode),
        old(granted)@.contains(root),
        forall|mode: FsMode| old(disclosed)@.contains(mode) <==> named(old(bundled)@, mode),
    ensures
        final(granted)@ == old(granted)@.union(
            Set::new(|mode: FsMode| closure::met(root, closure::dragged_in(implied, root), mode)),
        ),
        final(bundled)@ == disclosed_for(
            requested@,
            old(bundled)@,
            root,
            closure::dragged_in(implied, root),
        ),
        forall|mode: FsMode| final(disclosed)@.contains(mode) <==> named(final(bundled)@, mode),
{
    let mut seen = FsModeSet::empty().with(root);
    let mut queue: VecDeque<FsMode> = VecDeque::new();
    queue.push_back(root);
    let ghost mut found: Seq<(FsMode, BundleReason)> = Seq::empty();
    let ghost mut i: nat = 0;
    proof {
        assert(granted@ =~= old(granted)@.union(
            Set::new(|mode: FsMode| closure::met(root, found, mode)),
        ));
    }
    while queue.len() > 0
        invariant
            forall|mode: FsMode| implications.requires((mode, target)),
            forall|mode: FsMode, edges: &'static [(FsMode, BundleReason)]|
                implications.ensures((mode, target), edges) ==> edges@ == implied(mode),
            closure::distinct(root, found),
            i <= found.len() + 1,
            queue@ =~= Seq::new(
                (found.len() + 1 - i) as nat,
                |k: int| closure::place(root, found, i + k),
            ),
            forall|mode: FsMode| seen@.contains(mode) <==> closure::met(root, found, mode),
            granted@ == old(granted)@.union(Set::new(|mode: FsMode| closure::met(root, found, mode))),
            bundled@ == disclosed_for(requested@, old(bundled)@, root, found),
            forall|mode: FsMode| disclosed@.contains(mode) <==> named(bundled@, mode),
            closure::search(implied, root, found, i) == closure::dragged_in(implied, root),
        decreases MODE_COUNT + 1 - i,
    {
        let current = queue.pop_front().unwrap();
        proof {
            closure::lemma_distinct_len(root, found);
        }
        let edges = implications(current, target);
        let ghost start = found;
        let mut k: usize = 0;
        proof {
            assert(current == closure::place(root, start, i as int));
            assert(edges@ == implied(current));
            assert(edges@.take(0).len() == 0);
        }
        while k < edges.len()
            invariant
                k <= edges.len(),
                edges@ == implied(current),
                closure::distinct(root, start),
                i <= start.len(),
                current == closure::place(root, start, i as int),
                found == closure::extended(root, start, edges@.take(k as int)),
                closure::distinct(root, found),
                start.is_prefix_of(found),
                queue@ =~= Seq::new(
                    (found.len() - i) as nat,
                    |x: int| closure::place(root, found, i + 1 + x),
                ),
                forall|mode: FsMode| seen@.contains(mode) <==> closure::met(root, found, mode),
                granted@ == old(granted)@.union(Set::new(|mode: FsMode| closure::met(root, found, mode))),
                bundled@ == disclosed_for(requested@, old(bundled)@, root, found),
                forall|mode: FsMode| disclosed@.contains(mode) <==> named(bundled@, mode),
            decreases edges.len() - k,
        {
            let (mode, why) = edges[k];
            let ghost before = found;
            proof {
                let taken = edges@.take(k + 1);
                assert(taken.drop_last() =~= edges@.take(k as int));
                assert(taken.last() == (mode, why));
                found = closure::extended(root, start, taken);
                closure::lemma_extended(root, start, taken);
            }
            if !seen.contains(mode) {
                seen.insert(mode);
                queue.push_back(mode);
                granted.insert(mode);
                proof {
                    assert(found == before.push((mode, why)));
                    lemma_met_push(root, before, (mode, why));
                    assert(found.drop_last() =~= before);
                    assert(granted@ =~= old(granted)@.union(
                        Set::new(|mode: FsMode| closure::met(root, found, mode)),
                    ));
                }
                if !requested.contains(mode) && !disclosed.contains(mode) {
                    disclosed.insert(mode);
                    let ghost named_before = bundled@;
                    bundled.push(ModeBundle { requested: root, also_granted: mode, why });
                    proof {
                        lemma_named_push(
                            named_before,
                            ModeBundle { requested: root, also_granted: mode, why },
                        );
                    }
                }
            }
            k += 1;
        }
        proof {
            assert(edges@.take(k as int) =~= edges@);
            i = i + 1;
        }
    }
}

proof fn lemma_met_push(
    root: FsMode,
    found: Seq<(FsMode, BundleReason)>,
    edge: (FsMode, BundleReason),
)
    ensures
        forall|mode: FsMode|
            closure::met(root, found.push(edge), mode) <==> (closure::met(root, found, mode) || mode == edge.0),
{
    let longer = found.push(edge);
    assert forall|mode: FsMode| closure::met(root, longer, mode) <==> (closure::met(root, found, mode) || mode
        == edge.0) by {
        if closure::met(root, found, mode) && mode != root {
            let i = choose|i: int| 0 <= i < found.len() && (#[trigger] found[i]).0 == mode;
            assert(longer[i].0 == mode);
        }
        if mode == edge.0 {
            assert(longer[found.len() as int].0 == mode);
        }
    }
}

proof fn lemma_named_push(bundled: Seq<ModeBundle>, entry: ModeBundle)
    ensures
        forall|mode: FsMode|
            named(bundled.push(entry), mode) <==> (named(bundled, mode) || mode
                == entry.also_granted),
{
    let longer = bundled.push(entry);
    assert forall|mode: FsMode| named(longer, mode) <==> (named(bundled, mode) || mode
        == entry.also_granted) by {
        if named(bundled, mode) {
            let i = choose|i: int|
                0 <= i < bundled.len() && (#[trigger] bundled[i]).also_granted == mode;
            assert(longer[i].also_granted == mode);
        }
        if mode == entry.also_granted {
            assert(longer[bundled.len() as int].also_granted == mode);
        }
    }
}

/// The union of what the requested roots meet is what the request grants.
proof fn lemma_granted(implied: Implications, requested: Set<FsMode>, granted: Set<FsMode>)
    requires
        forall|mode: FsMode|
            granted.contains(mode) <==> (requested.contains(mode) || exists|i: int|
                0 <= i < super::in_order(requested).len() && closure::met(
                    #[trigger] super::in_order(requested)[i],
                    closure::dragged_in(implied, super::in_order(requested)[i]),
                    mode,
                )),
    ensures
        granted =~= closure::granted_by(implied, requested),
{
    let roots = super::in_order(requested);
    super::mode_set::lemma_in_order(requested);
    let full = closure::granted_by(implied, requested);
    assert forall|mode: FsMode| granted.contains(mode) <==> full.contains(mode) by {
        if requested.contains(mode) {
            closure::lemma_reaches_self(implied, mode);
            assert(requested.contains(mode) && closure::reaches(implied, mode, mode));
        } else if granted.contains(mode) {
            let i = choose|i: int|
                0 <= i < roots.len() && closure::met(
                    #[trigger] roots[i],
                    closure::dragged_in(implied, roots[i]),
                    mode,
                );
            assert(roots.contains(roots[i]));
            closure::lemma_dragged_in(implied, roots[i]);
            assert(requested.contains(roots[i]) && closure::reaches(implied, roots[i], mode));
        }
        if full.contains(mode) {
            let root = choose|root: FsMode| #[trigger]
                requested.contains(root) && closure::reaches(implied, root, mode);
            closure::lemma_dragged_in(implied, root);
            assert(roots.contains(root));
            let i = choose|i: int| 0 <= i < roots.len() && roots[i] == root;
            assert(closure::met(roots[i], closure::dragged_in(implied, roots[i]), mode));
        }
    }
}

/// Everything `requested` grants, and the entries that disclose the rest.
fn close<I: Fn(FsMode, ModeTarget) -> &'static [(FsMode, BundleReason)]>(
    requested: FsModeSet,
    target: ModeTarget,
    implications: &I,
    Ghost(implied): Ghost<Implications>,
) -> (closed: (Vec<ModeBundle>, FsModeSet))
    requires
        forall|mode: FsMode| implications.requires((mode, target)),
        forall|mode: FsMode, edges: &'static [(FsMode, BundleReason)]|
            implications.ensures((mode, target), edges) ==> edges@ == implied(mode),
    ensures
        closed.0@ == disclosures(implied, requested@, super::in_order(requested@)),
        closed.1@ == closure::granted_by(implied, requested@),
{
    let mut bundled: Vec<ModeBundle> = Vec::new();
    let mut granted = requested;
    let mut disclosed = FsModeSet::empty();

    // Breadth-first from each requested mode, so that the mode named in a bundle
    // entry is the one the caller wrote and not an intermediate.
    let roots = requested.iter();
    let mut r: usize = 0;
    while r < roots.len()
        invariant
            r <= roots.len(),
            roots@ == super::in_order(requested@),
            forall|mode: FsMode| implications.requires((mode, target)),
            forall|mode: FsMode, edges: &'static [(FsMode, BundleReason)]|
                implications.ensures((mode, target), edges) ==> edges@ == implied(mode),
            forall|mode: FsMode|
                granted@.contains(mode) <==> (requested@.contains(mode) || exists|i: int|
                    0 <= i < r && closure::met(
                        #[trigger] roots@[i],
                        closure::dragged_in(implied, roots@[i]),
                        mode,
                    )),
            bundled@ == disclosures(implied, requested@, roots@.take(r as int)),
            forall|mode: FsMode| disclosed@.contains(mode) <==> named(bundled@, mode),
        decreases roots.len() - r,
    {
        let root = roots[r];
        let ghost before = granted@;
        proof {
            super::mode_set::lemma_in_order(requested@);
            assert(roots@.contains(root));
        }
        follow(
            root,
            requested,
            target,
            implications,
            Ghost(implied),
            &mut granted,
            &mut disclosed,
            &mut bundled,
        );
        r += 1;
        proof {
            let taken = roots@.take(r as int);
            assert(taken.drop_last() =~= roots@.take(r - 1));
            assert forall|mode: FsMode|
                granted@.contains(mode) <==> (requested@.contains(mode) || exists|i: int|
                    0 <= i < r && closure::met(
                        #[trigger] roots@[i],
                        closure::dragged_in(implied, roots@[i]),
                        mode,
                    )) by {
                if granted@.contains(mode) && !before.contains(mode) {
                    assert(closure::met(
                        roots@[r - 1],
                        closure::dragged_in(implied, roots@[r - 1]),
                        mode,
                    ));
                }
            }
        }
    }
    proof {
        assert(roots@.take(r as int) =~= roots@);
        lemma_granted(implied, requested@, granted@);
    }
    (bundled, granted)
}

/// Sort what is granted into the four lists beside the disclosures.
fn classify<R: Fn(FsMode) -> Option<RefusalReason>>(
    requested: FsModeSet,
    granted: FsModeSet,
    target: ModeTarget,
    refuse: &R,
    bundled: Vec<ModeBundle>,
    Ghost(refusals): Ghost<Refusals>,
) -> (compiled: CompiledModes)
    requires
        forall|mode: FsMode| refuse.requires((mode,)),
        forall|mode: FsMode, why: Option<RefusalReason>|
            refuse.ensures((mode,), why) ==> why == refusals(mode),
        requested@.subset_of(granted@),
    ensures
        compiled@.bundled == bundled@,
        compiled@.refused == super::all_modes().filter_map(refusal_entry(granted@, refusals)),
        compiled@.always_allowed == super::all_modes().filter_map(
            always_allowed_entry(granted@, refusals, target),
        ),
        compiled@.delegated == super::all_modes().filter_map(delegation_entry(granted@, refusals)),
        compiled@.enforced == (if requested@.contains(FsMode::AtomicWrite)
            && compiled@.refused.len() == 0 {
            super::all_modes().filter_map(enforced_entry(requested@, refusals, target)).push(
                FsMode::AtomicWrite,
            )
        } else {
            super::all_modes().filter_map(enforced_entry(requested@, refusals, target))
        }),
{
    let mut enforced: Vec<FsMode> = Vec::new();
    let mut always_allowed: Vec<ModeAlwaysAllowed> = Vec::new();
    let mut refused: Vec<ModeRefusal> = Vec::new();
    let mut delegated: Vec<ModeDelegation> = Vec::new();
    let ghost all = super::all_modes();
    let ghost refusal = refusal_entry(granted@, refusals);
    let ghost always = always_allowed_entry(granted@, refusals, target);
    let ghost delegation = delegation_entry(granted@, refusals);
    let ghost enforcement = enforced_entry(requested@, refusals, target);
    let mut m: usize = 0;
    proof {
        assert(all.take(0).len() == 0);
    }
    while m < MODE_COUNT
        invariant
            m <= MODE_COUNT,
            all == super::all_modes(),
            refusal == refusal_entry(granted@, refusals),
            always == always_allowed_entry(granted@, refusals, target),
            delegation == delegation_entry(granted@, refusals),
            enforcement == enforced_entry(requested@, refusals, target),
            forall|mode: FsMode| refuse.requires((mode,)),
            forall|mode: FsMode, why: Option<RefusalReason>|
                refuse.ensures((mode,), why) ==> why == refusals(mode),
            requested@.subset_of(granted@),
            refused@ == all.take(m as int).filter_map(refusal),
            always_allowed@ == all.take(m as int).filter_map(always),
            delegated@ == all.take(m as int).filter_map(delegation),
            enforced@ == all.take(m as int).filter_map(enforcement),
        decreases MODE_COUNT - m,
    {
        let mode = FsMode::ALL[m];
        proof {
            assert(all[m as int] == mode);
            all.lemma_filter_map_take_succ(refusal, m as int);
            all.lemma_filter_map_take_succ(always, m as int);
            all.lemma_filter_map_take_succ(delegation, m as int);
            all.lemma_filter_map_take_succ(enforcement, m as int);
        }
        if granted.contains(mode) {
            match refuse(mode) {
                Some(why) => refused.push(ModeRefusal { mode, why }),
                None => match (mode, target) {
                    // A name, not an operation: its members are granted already.
                    (FsMode::AtomicWrite, _) => {},
                    (FsMode::UnixSocketConnect, _) => delegated.push(
                        ModeDelegation { mode, target: DelegationTarget::UnixSocketCapability },
                    ),
                    (FsMode::ReadMetadata, ModeTarget::Landlock) => always_allowed.push(
                        ModeAlwaysAllowed {
                            mode,
                            why: AlwaysAllowedReason::LandlockCannotRestrictMetadata,
                        },
                    ),
                    _ => {
                        // A mode that rode in on a bundle is disclosed there:
                        // `enforced` is what the caller asked for and got.
                        if requested.contains(mode) {
                            enforced.push(mode);
                        }
                    },
                },
            }
        }
        m += 1;
    }
    proof {
        assert(all.take(m as int) =~= all);
    }

    // `AtomicWrite` is a name whose members are all present. Recorded last, so
    // that it stands after the members it stands for.
    if requested.contains(FsMode::AtomicWrite) && refused.is_empty() {
        enforced.push(FsMode::AtomicWrite);
    }
    CompiledModes { enforced, bundled, always_allowed, refused, delegated }
}

/// Compile `requested` for `target`, given whatever the platform can do.
///
/// The shared half of both platform mappings. `implications` is the platform's
/// table of modes it cannot tell apart, `refuse` its refusals; the two ghost
/// arguments say what these return. Returns the report and everything granted.
pub fn compile_common<
    I: Fn(FsMode, ModeTarget) -> &'static [(FsMode, BundleReason)],
    R: Fn(FsMode) -> Option<RefusalReason>,
>(
    requested: FsModeSet,
    target: ModeTarget,
    implications: I,
    refuse: R,
    Ghost(implied): Ghost<Implications>,
    Ghost(refusals): Ghost<Refusals>,
) -> (compiled: (CompiledModes, FsModeSet))
    requires
        forall|mode: FsMode| implications.requires((mode, target)),
        forall|mode: FsMode, edges: &'static [(FsMode, BundleReason)]|
            implications.ensures((mode, target), edges) ==> edges@ == implied(mode),
        forall|mode: FsMode| refuse.requires((mode,)),
        forall|mode: FsMode, why: Option<RefusalReason>|
            refuse.ensures((mode,), why) ==> why == refusals(mode),
    ensures
        compiled.0@ == report(implied, refusals, target, requested@),
        compiled.1@ == closure::granted_by(implied, requested@),
{
    let (bundled, granted) = close(requested, target, &implications, Ghost(implied));
    proof {
        assert forall|mode: FsMode| requested@.contains(mode) implies granted@.contains(mode) by {
            closure::lemma_reaches_self(implied, mode);
        }
    }
    let compiled = classify(requested, granted, target, &refuse, bundled, Ghost(refusals));
    (compiled, granted)
}

impl CompiledModes {
    /// Modes the platform grants as asked.
    #[must_use]
    pub fn enforced(&self) -> (modes: &[FsMode])
        ensures
            modes@ == self@.enforced,
    {
        self.enforced.as_slice()
    }

    /// Modes the caller did not ask for that the grant confers anyway.
    #[must_use]
    pub fn bundled(&self) -> (entries: &[ModeBundle])
        ensures
            entries@ == self@.bundled,
    {
        self.bundled.as_slice()
    }

    /// Modes whose grant is a no-op because the platform cannot restrict them.
    #[must_use]
    pub fn always_allowed(&self) -> (entries: &[ModeAlwaysAllowed])
        ensures
            entries@ == self@.always_allowed,
    {
        self.always_allowed.as_slice()
    }

    /// Modes the platform will not express, which make the grant fail closed.
    #[must_use]
    pub fn refused(&self) -> (entries: &[ModeRefusal])
        ensures
            entries@ == self@.refused,
    {
        self.refused.as_slice()
    }

    /// Modes enforced by a sibling capability rather than by filesystem rules.
    #[must_use]
    pub fn delegated(&self) -> (entries: &[ModeDelegation])
        ensures
            entries@ == self@.delegated,
    {
        self.delegated.as_slice()
    }

    /// The first refusal, if any. A caller about to apply a policy checks this
    /// and fails; there is no partial apply.
    #[must_use]
    pub fn first_refusal(&self) -> (refusal: Option<&ModeRefusal>)
        ensures
            match refusal {
                Some(entry) => self@.refused.len() > 0 && *entry == self@.refused[0],
                None => self@.refused.len() == 0,
            },
    {
        if self.refused.len() > 0 {
            Some(&self.refused[0])
        } else {
            None
        }
    }

    /// Whether `mode` will be conferred, whether asked for or bundled in. A
    /// refusal fails the whole grant closed, and then no mode is.
    #[must_use]
    pub fn grants(&self, mode: FsMode) -> (conferred: bool)
        ensures
            conferred == (self@.refused.len() == 0 && (self@.enforced.contains(mode)
                || self@.discloses(mode) || self@.delegates(mode))),
    {
        if self.refused.len() > 0 {
            return false;
        }
        let mut i: usize = 0;
        while i < self.enforced.len()
            invariant
                i <= self.enforced.len(),
                self.refused@.len() == 0,
                forall|k: int| 0 <= k < i ==> self.enforced@[k] != mode,
            decreases self.enforced.len() - i,
        {
            if self.enforced[i] == mode {
                assert(self@.enforced[i as int] == mode);
                return true;
            }
            i += 1;
        }
        if self.bundle_for(mode).is_some() {
            return true;
        }
        let mut i: usize = 0;
        while i < self.delegated.len()
            invariant
                i <= self.delegated.len(),
                self.refused@.len() == 0,
                forall|k: int| 0 <= k < i ==> (#[trigger] self.delegated@[k]).mode != mode,
            decreases self.delegated.len() - i,
        {
            if self.delegated[i].mode == mode {
                assert(self@.delegated[i as int].mode == mode);
                return true;
            }
            i += 1;
        }
        false
    }

    /// The first bundle entry that discloses `also_granted`, if there is one.
    #[must_use]
    pub fn bundle_for(&self, also_granted: FsMode) -> (entry: Option<&ModeBundle>)
        ensures
            entry is Some <==> self@.discloses(also_granted),
            entry matches Some(found) ==> found.also_granted == also_granted && exists|i: int|
                0 <= i < self@.bundled.len() && *found == self@.bundled[i] && forall|k: int|
                    0 <= k < i ==> (#[trigger] self@.bundled[k]).also_granted != also_granted,
    {
        let mut i: usize = 0;
        while i < self.bundled.len()
            invariant
                i <= self.bundled.len(),
                forall|k: int|
                    0 <= k < i ==> (#[trigger] self.bundled@[k]).also_granted != also_granted,
            decreases self.bundled.len() - i,
        {
            if self.bundled[i].also_granted == also_granted {
                assert(self@.bundled[i as int].also_granted == also_granted);
                return Some(&self.bundled[i]);
            }
            i += 1;
        }
        None
    }
}

} // verus!
