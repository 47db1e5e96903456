//! A filesystem capability vocabulary with one word per operation.
//!
//! A coarse [`AccessMode`][crate::capability::AccessMode] is a bundle: a caller
//! who says "write" cannot find out that they also said "may rename anything in
//! this tree". [`FsModeSet`] lets them name the operations one by one.
//!
//! No platform enforces all thirteen modes separately, so compiling a mode set
//! does not return a bag of rights. It returns a [`CompiledModes`] that says of
//! every mode whether it is enforced, bundled in, always allowed, refused or
//! delegated. Nothing is dropped and nothing is widened without an entry that
//! names it: [`laws`] states this for every request.
//!
//! [`landlock_map`] and [`sbpl_map`] take the platform's abilities as data and
//! read nothing about the machine they run on.

use vstd::prelude::*;
pub mod closure;
pub mod compile;
pub mod grant;
pub mod landlock_map;
pub mod laws;
pub mod mode_set;
pub mod name_laws;
pub mod platform_laws;
pub mod rules;
pub mod sbpl_map;

pub use compile::{
    AlwaysAllowedReason, BundleReason, CompiledModes, DelegationTarget, ModeAlwaysAllowed,
    ModeBundle, ModeDelegation, ModeEnforceability, ModeRefusal, ModeTarget, RefusalReason,
};
pub use grant::{Found, FsModeCapability, GrantError};
pub use mode_set::FsModeSet;

verus! {

/// One filesystem operation a grant can name.
///
/// Twelve of these are leaves. The thirteenth, [`FsMode::AtomicWrite`], is a
/// named bundle: it expands to a fixed set of leaves ([`FsMode::expands_to`])
/// and has no enforcement of its own.
#[derive(Debug, Clone, Copy, PartialEq, Eq, PartialOrd, Ord, Hash, Structural)]
pub enum FsMode {
    /// Read the bytes of a file.
    ReadContents,
    /// List a directory.
    ReadDir,
    /// `stat(2)` and friends. Landlock has no right for this; Seatbelt has.
    ReadMetadata,
    /// Write bytes into an existing file.
    Write,
    /// Write bytes at the end of an existing file.
    Append,
    /// Create a regular file.
    Create,
    /// Shorten a file.
    Truncate,
    /// `unlink(2)` a file.
    RemoveFile,
    /// `rmdir(2)` a directory.
    RemoveDir,
    /// `rename(2)` and `link(2)`, including across directories.
    Rename,
    /// `execve(2)` the path.
    Execute,
    /// `connect(2)` to a pathname `AF_UNIX` socket.
    UnixSocketConnect,
    /// The create-write-rename-unlink cluster a temp-file write needs.
    AtomicWrite,
}

/// How many modes the vocabulary has.
pub const MODE_COUNT: usize = 13;

/// Every mode, in the order that reports share.
pub open spec fn all_modes() -> Seq<FsMode> {
    seq![
        FsMode::ReadContents,
        FsMode::ReadDir,
        FsMode::ReadMetadata,
        FsMode::Write,
        FsMode::Append,
        FsMode::Create,
        FsMode::Truncate,
        FsMode::RemoveFile,
        FsMode::RemoveDir,
        FsMode::Rename,
        FsMode::Execute,
        FsMode::UnixSocketConnect,
        FsMode::AtomicWrite,
    ]
}

/// What [`FsMode::AtomicWrite`] stands for.
pub open spec fn atomic_write_members() -> Seq<FsMode> {
    seq![FsMode::Create, FsMode::Write, FsMode::Rename, FsMode::RemoveFile]
}

/// The modes of `set`, in [`all_modes`] order.
pub open spec fn in_order(set: Set<FsMode>) -> Seq<FsMode> {
    all_modes().filter(|mode: FsMode| set.contains(mode))
}

impl FsMode {
    /// Every mode, in a fixed order that the report tables share.
    pub const ALL: [FsMode; 13] = [
        FsMode::ReadContents,
        FsMode::ReadDir,
        FsMode::ReadMetadata,
        FsMode::Write,
        FsMode::Append,
        FsMode::Create,
        FsMode::Truncate,
        FsMode::RemoveFile,
        FsMode::RemoveDir,
        FsMode::Rename,
        FsMode::Execute,
        FsMode::UnixSocketConnect,
        FsMode::AtomicWrite,
    ];

    /// What [`FsMode::AtomicWrite`] stands for: `Create` the temp file, `Write`
    /// its contents, `Rename` it over the target, `RemoveFile` the leftover when
    /// the rename never happens. Not [`FsMode::Truncate`]: an atomic write
    /// replaces, it does not shorten.
    pub const ATOMIC_WRITE_MEMBERS: [FsMode; 4] = [
        FsMode::Create,
        FsMode::Write,
        FsMode::Rename,
        FsMode::RemoveFile,
    ];

    /// The name of a mode.
    pub open spec fn name(self) -> Seq<char> {
        match self {
            FsMode::ReadContents => "read_contents"@,
            FsMode::ReadDir => "read_dir"@,
            FsMode::ReadMetadata => "read_metadata"@,
            FsMode::Write => "write"@,
            FsMode::Append => "append"@,
            FsMode::Create => "create"@,
            FsMode::Truncate => "truncate"@,
            FsMode::RemoveFile => "remove_file"@,
            FsMode::RemoveDir => "remove_dir"@,
            FsMode::Rename => "rename"@,
            FsMode::Execute => "execute"@,
            FsMode::UnixSocketConnect => "unix_socket_connect"@,
            FsMode::AtomicWrite => "atomic_write"@,
        }
    }

    /// The position of a mode in [`all_modes`].
    pub open spec fn index(self) -> u16 {
        match self {
            FsMode::ReadContents => 0,
            FsMode::ReadDir => 1,
            FsMode::ReadMetadata => 2,
            FsMode::Write => 3,
            FsMode::Append => 4,
            FsMode::Create => 5,
            FsMode::Truncate => 6,
            FsMode::RemoveFile => 7,
            FsMode::RemoveDir => 8,
            FsMode::Rename => 9,
            FsMode::Execute => 10,
            FsMode::UnixSocketConnect => 11,
            FsMode::AtomicWrite => 12,
        }
    }

    /// The stable snake_case name.
    #[must_use]
    pub fn as_str(self) -> (name: &'static str)
        ensures
            name@ == self.name(),
    {
        match self {
            FsMode::ReadContents => "read_contents",
            FsMode::ReadDir => "read_dir",
            FsMode::ReadMetadata => "read_metadata",
            FsMode::Write => "write",
            FsMode::Append => "append",
            FsMode::Create => "create",
            FsMode::Truncate => "truncate",
            FsMode::RemoveFile => "remove_file",
            FsMode::RemoveDir => "remove_dir",
            FsMode::Rename => "rename",
            FsMode::Execute => "execute",
            FsMode::UnixSocketConnect => "unix_socket_connect",
            FsMode::AtomicWrite => "atomic_write",
        }
    }

    /// The leaves this mode is a name for, or an empty slice when it is itself a
    /// leaf.
    #[must_use]
    pub fn expands_to(self) -> (leaves: &'static [FsMode])
        ensures
            leaves@ == (if self is AtomicWrite {
                atomic_write_members()
            } else {
                Seq::<FsMode>::empty()
            }),
    {
        match self {
            FsMode::AtomicWrite => &[
                FsMode::Create,
                FsMode::Write,
                FsMode::Rename,
                FsMode::RemoveFile,
            ],
            _ => &[],
        }
    }

    /// This mode's bit in an [`FsModeSet`]: the one at its position in
    /// [`FsMode::ALL`].
    pub fn bit(self) -> (bit: u16)
        ensures
            bit == 1u16 << self.index(),
            all_modes()[self.index() as int] == self,
    {
        let index: u16 = match self {
            FsMode::ReadContents => 0,
            FsMode::ReadDir => 1,
            FsMode::ReadMetadata => 2,
            FsMode::Write => 3,
            FsMode::Append => 4,
            FsMode::Create => 5,
            FsMode::Truncate => 6,
            FsMode::RemoveFile => 7,
            FsMode::RemoveDir => 8,
            FsMode::Rename => 9,
            FsMode::Execute => 10,
            FsMode::UnixSocketConnect => 11,
            FsMode::AtomicWrite => 12,
        };
        1u16 << index
    }
}

} // verus!
