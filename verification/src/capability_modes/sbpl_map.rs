//! Filesystem modes to Seatbelt SBPL operations.
//!
//! Seatbelt's vocabulary is coarser than Landlock's in most places and finer in
//! one: it has `file-read-metadata`. Every place where it is coarser produces a
//! [`BundleReason`] rather than a silent superset.

use vstd::prelude::*;
use super::closure;
use super::compile;
use super::compile::{
    compile_common, BundleReason, CompiledModes, ModeReport, ModeTarget, RefusalReason,
};
use super::{FsMode, FsModeSet};

verus! {

/// A Seatbelt operation, spelled as it appears in a profile.
#[derive(Debug, Clone, Copy, PartialEq, Eq, PartialOrd, Ord, Hash, Structural)]
pub enum SbplOperation {
    /// `read(2)` on a file, `readdir(3)` on a directory.
    FileReadData,
    /// `stat(2)` and friends.
    FileReadMetadata,
    /// Writing, appending and truncating alike.
    FileWriteData,
    /// Creating a node of any type.
    FileWriteCreate,
    /// `unlink(2)` and `rmdir(2)` alike.
    FileWriteUnlink,
    /// `execve(2)`, scoped to a path filter.
    ProcessExec,
    /// Mapping a file `PROT_EXEC`.
    FileMapExecutable,
}

impl SbplOperation {
    /// The name of an operation.
    pub open spec fn name(self) -> Seq<char> {
        match self {
            SbplOperation::FileReadData => "file-read-data"@,
            SbplOperation::FileReadMetadata => "file-read-metadata"@,
            SbplOperation::FileWriteData => "file-write-data"@,
            SbplOperation::FileWriteCreate => "file-write-create"@,
            SbplOperation::FileWriteUnlink => "file-write-unlink"@,
            SbplOperation::ProcessExec => "process-exec*"@,
            SbplOperation::FileMapExecutable => "file-map-executable"@,
        }
    }

    /// The operation name as written in a profile.
    #[must_use]
    pub fn as_str(self) -> (name: &'static str)
        ensures
            name@ == self.name(),
    {
        match self {
            SbplOperation::FileReadData => "file-read-data",
            SbplOperation::FileReadMetadata => "file-read-metadata",
            SbplOperation::FileWriteData => "file-write-data",
            SbplOperation::FileWriteCreate => "file-write-create",
            SbplOperation::FileWriteUnlink => "file-write-unlink",
            SbplOperation::ProcessExec => "process-exec*",
            SbplOperation::FileMapExecutable => "file-map-executable",
        }
    }
}

/// Every operation, in the order in which profiles list them.
pub open spec fn all_operations() -> Seq<SbplOperation> {
    seq![
        SbplOperation::FileReadData,
        SbplOperation::FileReadMetadata,
        SbplOperation::FileWriteData,
        SbplOperation::FileWriteCreate,
        SbplOperation::FileWriteUnlink,
        SbplOperation::ProcessExec,
        SbplOperation::FileMapExecutable,
    ]
}

const OPERATION_COUNT: usize = 7;

const OPERATION_ORDER: [SbplOperation; 7] = [
    SbplOperation::FileReadData,
    SbplOperation::FileReadMetadata,
    SbplOperation::FileWriteData,
    SbplOperation::FileWriteCreate,
    SbplOperation::FileWriteUnlink,
    SbplOperation::ProcessExec,
    SbplOperation::FileMapExecutable,
];

/// The operations one mode needs.
///
/// `file-map-executable` rides with `read_contents` because a loader maps every
/// library out of paths the process can read. It is no exec grant:
/// `process-exec*` is what decides.
pub open spec fn operations_of(mode: FsMode) -> Seq<SbplOperation> {
    match mode {
        FsMode::ReadContents => seq![SbplOperation::FileReadData, SbplOperation::FileMapExecutable],
        FsMode::ReadDir => seq![SbplOperation::FileReadData],
        FsMode::ReadMetadata => seq![SbplOperation::FileReadMetadata],
        FsMode::Write => seq![SbplOperation::FileWriteData],
        FsMode::Append => seq![SbplOperation::FileWriteData],
        FsMode::Truncate => seq![SbplOperation::FileWriteData],
        FsMode::Create => seq![SbplOperation::FileWriteCreate],
        FsMode::RemoveFile => seq![SbplOperation::FileWriteUnlink],
        FsMode::RemoveDir => seq![SbplOperation::FileWriteUnlink],
        FsMode::Rename => seq![SbplOperation::FileWriteCreate, SbplOperation::FileWriteUnlink],
        FsMode::Execute => seq![SbplOperation::ProcessExec, SbplOperation::FileMapExecutable],
        FsMode::UnixSocketConnect => Seq::empty(),
        FsMode::AtomicWrite => Seq::empty(),
    }
}

/// The operations one mode needs.
#[must_use]
pub fn operations_for(mode: FsMode) -> (operations: &'static [SbplOperation])
    ensures
        operations@ == operations_of(mode),
{
    match mode {
        FsMode::ReadContents => &[SbplOperation::FileReadData, SbplOperation::FileMapExecutable],
        FsMode::ReadDir => &[SbplOperation::FileReadData],
        FsMode::ReadMetadata => &[SbplOperation::FileReadMetadata],
        FsMode::Write | FsMode::Append | FsMode::Truncate => &[SbplOperation::FileWriteData],
        FsMode::Create => &[SbplOperation::FileWriteCreate],
        FsMode::RemoveFile | FsMode::RemoveDir => &[SbplOperation::FileWriteUnlink],
        FsMode::Rename => &[SbplOperation::FileWriteCreate, SbplOperation::FileWriteUnlink],
        FsMode::Execute => &[SbplOperation::ProcessExec, SbplOperation::FileMapExecutable],
        // Enforced by the socket capability's own rules; a name for its members.
        FsMode::UnixSocketConnect | FsMode::AtomicWrite => &[],
    }
}

/// Modes Seatbelt cannot tell apart, and why.
pub open spec fn implied_modes(mode: FsMode) -> Seq<(FsMode, BundleReason)> {
    match mode {
        FsMode::Write => seq![
            (FsMode::Append, BundleReason::AppendImpliesWrite),
            (FsMode::Truncate, BundleReason::SeatbeltTruncateIsWriteData),
        ],
        FsMode::Append => seq![
            (FsMode::Write, BundleReason::AppendImpliesWrite),
            (FsMode::Truncate, BundleReason::SeatbeltTruncateIsWriteData),
        ],
        FsMode::Truncate => seq![
            (FsMode::Write, BundleReason::SeatbeltTruncateIsWriteData),
            (FsMode::Append, BundleReason::SeatbeltTruncateIsWriteData),
        ],
        FsMode::RemoveFile => seq![
            (FsMode::RemoveDir, BundleReason::SeatbeltUnlinkCoversFilesAndDirectories),
        ],
        FsMode::RemoveDir => seq![
            (FsMode::RemoveFile, BundleReason::SeatbeltUnlinkCoversFilesAndDirectories),
        ],
        FsMode::ReadContents => seq![
            (FsMode::ReadDir, BundleReason::SeatbeltReadDataCoversFilesAndDirectories),
        ],
        FsMode::ReadDir => seq![
            (FsMode::ReadContents, BundleReason::SeatbeltReadDataCoversFilesAndDirectories),
        ],
        FsMode::Rename => seq![
            (FsMode::Create, BundleReason::SeatbeltRenameIsCreatePlusUnlink),
            (FsMode::RemoveFile, BundleReason::SeatbeltRenameIsCreatePlusUnlink),
        ],
        FsMode::AtomicWrite => seq![
            (FsMode::Create, BundleReason::AtomicWriteCluster),
            (FsMode::Write, BundleReason::AtomicWriteCluster),
            (FsMode::Rename, BundleReason::AtomicWriteCluster),
            (FsMode::RemoveFile, BundleReason::AtomicWriteCluster),
        ],
        _ => Seq::empty(),
    }
}

/// Modes Seatbelt cannot tell apart, and why.
pub fn implications(mode: FsMode, target: ModeTarget) -> (edges: &'static [(
    FsMode,
    BundleReason,
)])
    requires
        target is Seatbelt,
    ensures
        edges@ == implied_modes(mode),
{
    match mode {
        FsMode::Write => &[
            (FsMode::Append, BundleReason::AppendImpliesWrite),
            (FsMode::Truncate, BundleReason::SeatbeltTruncateIsWriteData),
        ],
        FsMode::Append => &[
            (FsMode::Write, BundleReason::AppendImpliesWrite),
            (FsMode::Truncate, BundleReason::SeatbeltTruncateIsWriteData),
        ],
        FsMode::Truncate => &[
            (FsMode::Write, BundleReason::SeatbeltTruncateIsWriteData),
            (FsMode::Append, BundleReason::SeatbeltTruncateIsWriteData),
        ],
        FsMode::RemoveFile => &[
            (FsMode::RemoveDir, BundleReason::SeatbeltUnlinkCoversFilesAndDirectories),
        ],
        FsMode::RemoveDir => &[
            (FsMode::RemoveFile, BundleReason::SeatbeltUnlinkCoversFilesAndDirectories),
        ],
        FsMode::ReadContents => &[
            (FsMode::ReadDir, BundleReason::SeatbeltReadDataCoversFilesAndDirectories),
        ],
        FsMode::ReadDir => &[
            (FsMode::ReadContents, BundleReason::SeatbeltReadDataCoversFilesAndDirectories),
        ],
        // A rename is checked as a create on the destination and an unlink on
        // the source, so granting it really does grant both.
        FsMode::Rename => &[
            (FsMode::Create, BundleReason::SeatbeltRenameIsCreatePlusUnlink),
            (FsMode::RemoveFile, BundleReason::SeatbeltRenameIsCreatePlusUnlink),
        ],
        FsMode::AtomicWrite => &[
            (FsMode::Create, BundleReason::AtomicWriteCluster),
            (FsMode::Write, BundleReason::AtomicWriteCluster),
            (FsMode::Rename, BundleReason::AtomicWriteCluster),
            (FsMode::RemoveFile, BundleReason::AtomicWriteCluster),
        ],
        _ => &[],
    }
}

/// Whether a request allows both halves of a rename without asking for one: a
/// create, and an unlink under either of its names.
pub open spec fn renames_anyway(requested: Set<FsMode>) -> bool {
    requested.contains(FsMode::Create) && (requested.contains(FsMode::RemoveFile)
        || requested.contains(FsMode::RemoveDir))
}

/// Modes Seatbelt cannot tell apart within a request: those it never can, and a
/// rename where the request allows both of its halves.
pub open spec fn implied_within(requested: Set<FsMode>, mode: FsMode) -> Seq<
    (FsMode, BundleReason),
> {
    if mode is Create && renames_anyway(requested) {
        seq![(FsMode::Rename, BundleReason::SeatbeltRenameIsCreatePlusUnlink)]
    } else {
        implied_modes(mode)
    }
}

/// Modes Seatbelt cannot tell apart where an unlink is allowed beside a create.
fn implications_with_unlink(mode: FsMode, target: ModeTarget) -> (edges: &'static [(
    FsMode,
    BundleReason,
)])
    requires
        target is Seatbelt,
    ensures
        edges@ == (if mode is Create {
            seq![(FsMode::Rename, BundleReason::SeatbeltRenameIsCreatePlusUnlink)]
        } else {
            implied_modes(mode)
        }),
{
    match mode {
        FsMode::Create => &[(FsMode::Rename, BundleReason::SeatbeltRenameIsCreatePlusUnlink)],
        _ => implications(mode, target),
    }
}

/// What compiling an [`FsModeSet`] for Seatbelt produced.
#[derive(Debug, Clone, PartialEq, Eq)]
pub struct CompiledSbpl {
    /// What the platform will and will not do with each mode.
    pub modes: CompiledModes,
    /// Operations to allow on the granted path, sorted and without duplicates.
    pub operations: Vec<SbplOperation>,
    /// Operations to allow on the hex-suffixed temp sibling of a file grant, for
    /// [`FsMode::AtomicWrite`]. A directory grant already covers the sibling.
    pub temp_sibling_operations: Vec<SbplOperation>,
}

/// Whether a mode of `granted` needs `operation`.
pub open spec fn needed(granted: Set<FsMode>, operation: SbplOperation) -> bool {
    exists|mode: FsMode| #[trigger]
        granted.contains(mode) && operations_of(mode).contains(operation)
}

/// The operations that the modes of `granted` need, each once, in profile order.
pub open spec fn needed_operations(granted: Set<FsMode>) -> Seq<SbplOperation> {
    all_operations().filter(|operation: SbplOperation| needed(granted, operation))
}

/// What a temp-file write does to its temp sibling.
pub open spec fn sibling_operations() -> Seq<SbplOperation> {
    seq![
        SbplOperation::FileReadMetadata,
        SbplOperation::FileWriteData,
        SbplOperation::FileWriteCreate,
        SbplOperation::FileWriteUnlink,
    ]
}

/// The Seatbelt report of a request. Seatbelt has no version gates, so it
/// refuses no mode.
pub open spec fn seatbelt_report(requested: Set<FsMode>) -> ModeReport {
    compile::report(
        |mode: FsMode| implied_within(requested, mode),
        |mode: FsMode| None::<RefusalReason>,
        ModeTarget::Seatbelt,
        requested,
    )
}

/// Everything a request grants under Seatbelt.
pub open spec fn seatbelt_granted(requested: Set<FsMode>) -> Set<FsMode> {
    closure::granted_by(|mode: FsMode| implied_within(requested, mode), requested)
}

/// Whether one of `modes` needs `operation`.
fn any_needs(modes: &Vec<FsMode>, operation: SbplOperation) -> (found: bool)
    ensures
        found == exists|i: int|
            0 <= i < modes@.len() && operations_of(#[trigger] modes@[i]).contains(operation),
{
    let mut i: usize = 0;
    while i < modes.len()
        invariant
            i <= modes.len(),
            forall|k: int| 0 <= k < i ==> !operations_of(#[trigger] modes@[k]).contains(operation),
        decreases modes.len() - i,
    {
        let operations = operations_for(modes[i]);
        let mut j: usize = 0;
        while j < operations.len()
            invariant
                i < modes.len(),
                j <= operations.len(),
                operations@ == operations_of(modes@[i as int]),
                forall|k: int| 0 <= k < j ==> operations@[k] != operation,
            decreases operations.len() - j,
        {
            if operations[j] == operation {
                assert(operations_of(modes@[i as int]).contains(operation));
                return true;
            }
            j += 1;
        }
        i += 1;
    }
    false
}

/// Compile `requested` for Seatbelt.
///
/// `is_file` selects whether an atomic-write grant needs the temp-sibling rule:
/// a directory grant is a subpath that the temp file is inside, a file grant is
/// a literal and the temp file is another path.
#[must_use]
pub fn compile(requested: FsModeSet, is_file: bool) -> (compiled: CompiledSbpl)
    ensures
        compiled.modes@ == seatbelt_report(requested@),
        compiled.operations@ == needed_operations(seatbelt_granted(requested@)),
        compiled.temp_sibling_operations@ == (if is_file && seatbelt_granted(requested@).contains(
            FsMode::AtomicWrite,
        ) {
            sibling_operations()
        } else {
            Seq::<SbplOperation>::empty()
        }),
{
    let refuse = |_mode: FsMode| -> (why: Option<RefusalReason>)
        ensures
            why == None::<RefusalReason>,
        { None };
    let joined = requested.contains(FsMode::Create) && (requested.contains(FsMode::RemoveFile)
        || requested.contains(FsMode::RemoveDir));
    let (modes, granted) = if joined {
        compile_common(
            requested,
            ModeTarget::Seatbelt,
            implications_with_unlink,
            refuse,
            Ghost(|mode: FsMode| implied_within(requested@, mode)),
            Ghost(|mode: FsMode| None::<RefusalReason>),
        )
    } else {
        compile_common(
            requested,
            ModeTarget::Seatbelt,
            implications,
            refuse,
            Ghost(|mode: FsMode| implied_within(requested@, mode)),
            Ghost(|mode: FsMode| None::<RefusalReason>),
        )
    };
    let mut operations: Vec<SbplOperation> = Vec::new();
    let granted_modes = granted.iter();
    let ghost keep = |operation: SbplOperation| needed(granted@, operation);
    let ghost all = all_operations();
    let mut i: usize = 0;
    proof {
        reveal(Seq::filter);
        assert(all.take(0).filter(keep) =~= Seq::empty());
    }
    while i < OPERATION_COUNT
        invariant
            i <= OPERATION_COUNT,
            all == all_operations(),
            keep == (|operation: SbplOperation| needed(granted@, operation)),
            granted_modes@.to_set() == granted@,
            operations@ == all.take(i as int).filter(keep),
        decreases OPERATION_COUNT - i,
    {
        let operation = OPERATION_ORDER[i];
        proof {
            all.take(i as int).lemma_filter_push(operation, keep);
            assert(all.take(i + 1) =~= all.take(i as int).push(operation));
        }
        let wanted = any_needs(&granted_modes, operation);
        proof {
            if wanted {
                let k = choose|k: int|
                    0 <= k < granted_modes@.len() && operations_of(
                        #[trigger] granted_modes@[k],
                    ).contains(operation);
                assert(granted_modes@.to_set().contains(granted_modes@[k]));
                assert(needed(granted@, operation));
            }
            if needed(granted@, operation) {
                let mode = choose|mode: FsMode| #[trigger]
                    granted@.contains(mode) && operations_of(mode).contains(operation);
                assert(granted_modes@.contains(mode));
                let k = choose|k: int| 0 <= k < granted_modes@.len() && granted_modes@[k] == mode;
                assert(operations_of(granted_modes@[k]).contains(operation));
            }
        }
        if wanted {
            operations.push(operation);
        }
        i += 1;
    }
    assert(all.take(i as int) =~= all);

    let mut temp_sibling_operations: Vec<SbplOperation> = Vec::new();
    if is_file && granted.contains(FsMode::AtomicWrite) {
        temp_sibling_operations.push(SbplOperation::FileReadMetadata);
        temp_sibling_operations.push(SbplOperation::FileWriteData);
        temp_sibling_operations.push(SbplOperation::FileWriteCreate);
        temp_sibling_operations.push(SbplOperation::FileWriteUnlink);
    }
    CompiledSbpl { modes, operations, temp_sibling_operations }
}

} // verus!
