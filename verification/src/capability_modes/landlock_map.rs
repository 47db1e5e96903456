//! Filesystem modes to Landlock access rights.

use vstd::prelude::*;
use super::closure;
use super::compile;
use super::compile::{
    compile_common, BundleReason, CompiledModes, ModeReport, ModeTarget, RefusalReason,
};
use super::{FsMode, FsModeSet};

verus! {

/// A Landlock filesystem access right, named as the kernel names it.
#[derive(Debug, Clone, Copy, PartialEq, Eq, PartialOrd, Ord, Hash, Structural)]
pub enum LandlockRightName {
    /// `LANDLOCK_ACCESS_FS_READ_FILE`.
    ReadFile,
    /// `LANDLOCK_ACCESS_FS_READ_DIR`.
    ReadDir,
    /// `LANDLOCK_ACCESS_FS_WRITE_FILE`.
    WriteFile,
    /// `LANDLOCK_ACCESS_FS_EXECUTE`.
    Execute,
    /// `LANDLOCK_ACCESS_FS_MAKE_REG`.
    MakeReg,
    /// `LANDLOCK_ACCESS_FS_REMOVE_FILE`.
    RemoveFile,
    /// `LANDLOCK_ACCESS_FS_REMOVE_DIR`.
    RemoveDir,
    /// `LANDLOCK_ACCESS_FS_REFER` (ABI V2+).
    Refer,
    /// `LANDLOCK_ACCESS_FS_TRUNCATE` (ABI V3+).
    Truncate,
}

impl LandlockRightName {
    /// The name of a right.
    pub open spec fn name(self) -> Seq<char> {
        match self {
            LandlockRightName::ReadFile => "read_file"@,
            LandlockRightName::ReadDir => "read_dir"@,
            LandlockRightName::WriteFile => "write_file"@,
            LandlockRightName::Execute => "execute"@,
            LandlockRightName::MakeReg => "make_reg"@,
            LandlockRightName::RemoveFile => "remove_file"@,
            LandlockRightName::RemoveDir => "remove_dir"@,
            LandlockRightName::Refer => "refer"@,
            LandlockRightName::Truncate => "truncate"@,
        }
    }

    /// The stable snake_case name.
    #[must_use]
    pub fn as_str(self) -> (name: &'static str)
        ensures
            name@ == self.name(),
    {
        match self {
            LandlockRightName::ReadFile => "read_file",
            LandlockRightName::ReadDir => "read_dir",
            LandlockRightName::WriteFile => "write_file",
            LandlockRightName::Execute => "execute",
            LandlockRightName::MakeReg => "make_reg",
            LandlockRightName::RemoveFile => "remove_file",
            LandlockRightName::RemoveDir => "remove_dir",
            LandlockRightName::Refer => "refer",
            LandlockRightName::Truncate => "truncate",
        }
    }

    /// The first ABI version of a right.
    pub open spec fn since(self) -> u8 {
        match self {
            LandlockRightName::Refer => 2,
            LandlockRightName::Truncate => 3,
            _ => 1,
        }
    }

    /// The first Landlock ABI version that carries this right.
    #[must_use]
    pub fn first_abi(self) -> (abi: u8)
        ensures
            abi == self.since(),
    {
        match self {
            LandlockRightName::Refer => 2,
            LandlockRightName::Truncate => 3,
            _ => 1,
        }
    }
}

/// Every right, in the order in which rules list them.
pub open spec fn all_rights() -> Seq<LandlockRightName> {
    seq![
        LandlockRightName::ReadFile,
        LandlockRightName::ReadDir,
        LandlockRightName::WriteFile,
        LandlockRightName::Execute,
        LandlockRightName::MakeReg,
        LandlockRightName::RemoveFile,
        LandlockRightName::RemoveDir,
        LandlockRightName::Refer,
        LandlockRightName::Truncate,
    ]
}

const RIGHT_COUNT: usize = 9;

const RIGHT_ORDER: [LandlockRightName; 9] = [
    LandlockRightName::ReadFile,
    LandlockRightName::ReadDir,
    LandlockRightName::WriteFile,
    LandlockRightName::Execute,
    LandlockRightName::MakeReg,
    LandlockRightName::RemoveFile,
    LandlockRightName::RemoveDir,
    LandlockRightName::Refer,
    LandlockRightName::Truncate,
];

/// Which Landlock rights the kernel in front of us carries.
#[derive(Debug, Clone, Copy, PartialEq, Eq, Hash, Structural)]
pub struct LandlockRightsAvailable {
    abi: u8,
}

impl LandlockRightsAvailable {
    /// The ABI version the rights are those of.
    pub closed spec fn version(self) -> u8 {
        self.abi
    }

    /// The rights a kernel at `abi` carries. Each ABI is a superset of the last.
    #[must_use]
    pub fn from_abi_version(abi: u8) -> (available: Self)
        ensures
            available.version() == abi,
    {
        Self { abi }
    }

    /// The detected ABI version.
    #[must_use]
    pub fn abi(self) -> (abi: u8)
        ensures
            abi == self.version(),
    {
        self.abi
    }

    /// Whether `right` is carried here.
    #[must_use]
    pub fn has(self, right: LandlockRightName) -> (carried: bool)
        ensures
            carried == (self.version() >= right.since()),
    {
        self.abi >= right.first_abi()
    }
}

/// The rights one mode needs, before any ABI gate is applied.
///
/// `Create` is `MakeReg` and only that: the other six kinds of node have no mode.
pub open spec fn rights_of(mode: FsMode) -> Seq<LandlockRightName> {
    match mode {
        FsMode::ReadContents => seq![LandlockRightName::ReadFile],
        FsMode::ReadDir => seq![LandlockRightName::ReadDir],
        FsMode::Write => seq![LandlockRightName::WriteFile],
        FsMode::Append => seq![LandlockRightName::WriteFile],
        FsMode::Create => seq![LandlockRightName::MakeReg],
        FsMode::Truncate => seq![LandlockRightName::Truncate],
        FsMode::RemoveFile => seq![LandlockRightName::RemoveFile],
        FsMode::RemoveDir => seq![LandlockRightName::RemoveDir],
        FsMode::Rename => seq![LandlockRightName::Refer],
        FsMode::Execute => seq![LandlockRightName::Execute],
        FsMode::ReadMetadata => Seq::empty(),
        FsMode::UnixSocketConnect => Seq::empty(),
        FsMode::AtomicWrite => Seq::empty(),
    }
}

/// The rights one mode needs, before any ABI gate is applied.
#[must_use]
pub fn rights_for(mode: FsMode) -> (rights: &'static [LandlockRightName])
    ensures
        rights@ == rights_of(mode),
{
    match mode {
        FsMode::ReadContents => &[LandlockRightName::ReadFile],
        FsMode::ReadDir => &[LandlockRightName::ReadDir],
        FsMode::Write | FsMode::Append => &[LandlockRightName::WriteFile],
        FsMode::Create => &[LandlockRightName::MakeReg],
        FsMode::Truncate => &[LandlockRightName::Truncate],
        FsMode::RemoveFile => &[LandlockRightName::RemoveFile],
        FsMode::RemoveDir => &[LandlockRightName::RemoveDir],
        FsMode::Rename => &[LandlockRightName::Refer],
        FsMode::Execute => &[LandlockRightName::Execute],
        // Landlock cannot restrict stat(2), has no AF_UNIX right, and an atomic
        // write is a name for members that carry their own rights.
        FsMode::ReadMetadata | FsMode::UnixSocketConnect | FsMode::AtomicWrite => &[],
    }
}

/// Modes Landlock cannot tell apart, and why.
pub open spec fn implied_modes(mode: FsMode) -> Seq<(FsMode, BundleReason)> {
    match mode {
        FsMode::Write => seq![(FsMode::Append, BundleReason::AppendImpliesWrite)],
        FsMode::Append => seq![(FsMode::Write, BundleReason::AppendImpliesWrite)],
        FsMode::AtomicWrite => seq![
            (FsMode::Create, BundleReason::AtomicWriteCluster),
            (FsMode::Write, BundleReason::AtomicWriteCluster),
            (FsMode::Rename, BundleReason::AtomicWriteCluster),
            (FsMode::RemoveFile, BundleReason::AtomicWriteCluster),
        ],
        _ => Seq::empty(),
    }
}

/// Modes Landlock cannot tell apart, and why.
pub fn implications(mode: FsMode, target: ModeTarget) -> (edges: &'static [(
    FsMode,
    BundleReason,
)])
    requires
        target is Landlock,
    ensures
        edges@ == implied_modes(mode),
{
    match mode {
        // `WRITE_FILE` covers an append in both directions.
        FsMode::Write => &[(FsMode::Append, BundleReason::AppendImpliesWrite)],
        FsMode::Append => &[(FsMode::Write, BundleReason::AppendImpliesWrite)],
        FsMode::AtomicWrite => &[
            (FsMode::Create, BundleReason::AtomicWriteCluster),
            (FsMode::Write, BundleReason::AtomicWriteCluster),
            (FsMode::Rename, BundleReason::AtomicWriteCluster),
            (FsMode::RemoveFile, BundleReason::AtomicWriteCluster),
        ],
        _ => &[],
    }
}

/// Why a kernel at `abi` cannot express `mode`: the first right that it lacks.
pub open spec fn refusal_at(abi: u8, mode: FsMode) -> Option<RefusalReason> {
    if rights_of(mode).len() > 0 && abi < rights_of(mode)[0].since() {
        Some(
            RefusalReason::UnsupportedRight {
                right: rights_of(mode)[0],
                abi,
                needed_abi: rights_of(mode)[0].since(),
            },
        )
    } else {
        None
    }
}

/// Why `available` cannot express `mode`, where it cannot.
fn missing_right(mode: FsMode, available: LandlockRightsAvailable) -> (why: Option<RefusalReason>)
    ensures
        why == refusal_at(available.version(), mode),
{
    let rights = rights_for(mode);
    let mut i: usize = 0;
    while i < rights.len()
        invariant
            i <= rights.len(),
            rights@ == rights_of(mode),
            rights@.len() <= 1,
            forall|k: int| 0 <= k < i ==> available.version() >= (#[trigger] rights@[k]).since(),
        decreases rights.len() - i,
    {
        let right = rights[i];
        if !available.has(right) {
            return Some(
                RefusalReason::UnsupportedRight {
                    right,
                    abi: available.abi(),
                    needed_abi: right.first_abi(),
                },
            );
        }
        i += 1;
    }
    None
}

/// What compiling an [`FsModeSet`] for Landlock produced.
#[derive(Debug, Clone, PartialEq, Eq)]
pub struct CompiledLandlock {
    /// What the platform will and will not do with each mode.
    pub modes: CompiledModes,
    /// The rights to put in the rule, sorted and without duplicates. Empty when
    /// no requested mode needs one, or when a mode was refused.
    pub rights: Vec<LandlockRightName>,
}

/// Whether a mode of `granted` needs `right`.
pub open spec fn needed(granted: Set<FsMode>, right: LandlockRightName) -> bool {
    exists|mode: FsMode| #[trigger]
        granted.contains(mode) && rights_of(mode).contains(right)
}

/// The rights that the modes of `granted` need, each once, in rule order.
pub open spec fn needed_rights(granted: Set<FsMode>) -> Seq<LandlockRightName> {
    all_rights().filter(|right: LandlockRightName| needed(granted, right))
}

/// The Landlock report of a request.
pub open spec fn landlock_report(requested: Set<FsMode>, abi: u8) -> ModeReport {
    compile::report(
        |mode: FsMode| implied_modes(mode),
        |mode: FsMode| refusal_at(abi, mode),
        ModeTarget::Landlock,
        requested,
    )
}

/// Everything a request grants under Landlock.
pub open spec fn landlock_granted(requested: Set<FsMode>) -> Set<FsMode> {
    closure::granted_by(|mode: FsMode| implied_modes(mode), requested)
}

/// Whether one of `modes` needs `right`.
fn any_needs(modes: &Vec<FsMode>, right: LandlockRightName) -> (found: bool)
    ensures
        found == exists|i: int|
            0 <= i < modes@.len() && rights_of(#[trigger] modes@[i]).contains(right),
{
    let mut i: usize = 0;
    while i < modes.len()
        invariant
            i <= modes.len(),
            forall|k: int| 0 <= k < i ==> !rights_of(#[trigger] modes@[k]).contains(right),
        decreases modes.len() - i,
    {
        let rights = rights_for(modes[i]);
        let mut j: usize = 0;
        while j < rights.len()
            invariant
                i < modes.len(),
                j <= rights.len(),
                rights@ == rights_of(modes@[i as int]),
                forall|k: int| 0 <= k < j ==> rights@[k] != right,
            decreases rights.len() - j,
        {
            if rights[j] == right {
                assert(rights_of(modes@[i as int]).contains(right));
                return true;
            }
            j += 1;
        }
        i += 1;
    }
    false
}

/// Compile `requested` against the rights `available` really carries.
///
/// A mode whose right the ABI does not carry is refused, never dropped, and a
/// refused grant has no rights at all: fail closed means that the rule is never
/// built, not that it is built without the part that failed.
#[must_use]
pub fn compile(requested: FsModeSet, available: LandlockRightsAvailable) -> (compiled:
    CompiledLandlock)
    ensures
        compiled.modes@ == landlock_report(requested@, available.version()),
        compiled.rights@ == (if compiled.modes@.refused.len() == 0 {
            needed_rights(landlock_granted(requested@))
        } else {
            Seq::<LandlockRightName>::empty()
        }),
{
    let refuse = |mode: FsMode| -> (why: Option<RefusalReason>)
        ensures
            why == refusal_at(available.version(), mode),
        { missing_right(mode, available) };
    let (modes, granted) = compile_common(
        requested,
        ModeTarget::Landlock,
        implications,
        refuse,
        Ghost(|mode: FsMode| implied_modes(mode)),
        Ghost(|mode: FsMode| refusal_at(available.version(), mode)),
    );
    let mut rights: Vec<LandlockRightName> = Vec::new();
    if modes.refused().len() == 0 {
        let granted_modes = granted.iter();
        let ghost keep = |right: LandlockRightName| needed(granted@, right);
        let ghost all = all_rights();
        let mut i: usize = 0;
        proof {
            reveal(Seq::filter);
            assert(all.take(0).filter(keep) =~= Seq::empty());
        }
        while i < RIGHT_COUNT
            invariant
                i <= RIGHT_COUNT,
                all == all_rights(),
                keep == (|right: LandlockRightName| needed(granted@, right)),
                granted_modes@.to_set() == granted@,
                rights@ == all.take(i as int).filter(keep),
            decreases RIGHT_COUNT - i,
        {
            let right = RIGHT_ORDER[i];
            proof {
                all.take(i as int).lemma_filter_push(right, keep);
                assert(all.take(i + 1) =~= all.take(i as int).push(right));
            }
            let wanted = any_needs(&granted_modes, right);
            proof {
                if wanted {
                    let k = choose|k: int|
                        0 <= k < granted_modes@.len() && rights_of(
                            #[trigger] granted_modes@[k],
                        ).contains(right);
                    assert(granted_modes@.to_set().contains(granted_modes@[k]));
                    assert(needed(granted@, right));
                }
                if needed(granted@, right) {
                    let mode = choose|mode: FsMode| #[trigger]
                        granted@.contains(mode) && rights_of(mode).contains(right);
                    assert(granted_modes@.contains(mode));
                    let k = choose|k: int|
                        0 <= k < granted_modes@.len() && granted_modes@[k] == mode;
                    assert(rights_of(granted_modes@[k]).contains(right));
                }
            }
            if wanted {
                rights.push(right);
            }
            i += 1;
        }
        assert(all.take(i as int) =~= all);
    }
    CompiledLandlock { modes, rights }
}

} // verus!
