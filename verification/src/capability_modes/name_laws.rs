//! The names that the vocabulary is known by. Each name stands for one thing, and
//! each thing goes by one name.

use vstd::prelude::*;
use crate::text;
use super::compile::{DelegationTarget, ModeTarget, RefusalReason};
use super::landlock_map::LandlockRightName;
use super::sbpl_map::SbplOperation;
use super::FsMode;

verus! {

/// A mode is known by its name, and by no other.
pub proof fn law_a_mode_is_known_by_its_name(mode: FsMode)
    ensures
        mode.name() == "read_contents"@ <==> mode is ReadContents,
        mode.name() == "read_dir"@ <==> mode is ReadDir,
        mode.name() == "read_metadata"@ <==> mode is ReadMetadata,
        mode.name() == "write"@ <==> mode is Write,
        mode.name() == "append"@ <==> mode is Append,
        mode.name() == "create"@ <==> mode is Create,
        mode.name() == "truncate"@ <==> mode is Truncate,
        mode.name() == "remove_file"@ <==> mode is RemoveFile,
        mode.name() == "remove_dir"@ <==> mode is RemoveDir,
        mode.name() == "rename"@ <==> mode is Rename,
        mode.name() == "execute"@ <==> mode is Execute,
        mode.name() == "unix_socket_connect"@ <==> mode is UnixSocketConnect,
        mode.name() == "atomic_write"@ <==> mode is AtomicWrite,
{
    reveal_strlit("read_contents");
    assert("read_contents"@.len() == 13);
    reveal_strlit("read_dir");
    assert("read_dir"@.len() == 8);
    reveal_strlit("read_metadata");
    assert("read_metadata"@.len() == 13);
    reveal_strlit("write");
    assert("write"@.len() == 5);
    reveal_strlit("append");
    assert("append"@.len() == 6);
    reveal_strlit("create");
    assert("create"@.len() == 6);
    reveal_strlit("truncate");
    assert("truncate"@.len() == 8);
    reveal_strlit("remove_file");
    assert("remove_file"@.len() == 11);
    reveal_strlit("remove_dir");
    assert("remove_dir"@.len() == 10);
    reveal_strlit("rename");
    assert("rename"@.len() == 6);
    reveal_strlit("execute");
    assert("execute"@.len() == 7);
    reveal_strlit("unix_socket_connect");
    assert("unix_socket_connect"@.len() == 19);
    reveal_strlit("atomic_write");
    assert("atomic_write"@.len() == 12);
    assert("read_contents"@[5] != "read_metadata"@[5]);
    assert("read_dir"@[0] != "truncate"@[0]);
    assert("append"@[0] != "create"@[0]);
    assert("append"@[0] != "rename"@[0]);
    assert("create"@[0] != "rename"@[0]);
}

/// A Landlock right is known by its name, and by no other.
pub proof fn law_a_right_is_known_by_its_name(right: LandlockRightName)
    ensures
        right.name() == "read_file"@ <==> right is ReadFile,
        right.name() == "read_dir"@ <==> right is ReadDir,
        right.name() == "write_file"@ <==> right is WriteFile,
        right.name() == "execute"@ <==> right is Execute,
        right.name() == "make_reg"@ <==> right is MakeReg,
        right.name() == "remove_file"@ <==> right is RemoveFile,
        right.name() == "remove_dir"@ <==> right is RemoveDir,
        right.name() == "refer"@ <==> right is Refer,
        right.name() == "truncate"@ <==> right is Truncate,
{
    reveal_strlit("read_file");
    assert("read_file"@.len() == 9);
    reveal_strlit("read_dir");
    assert("read_dir"@.len() == 8);
    reveal_strlit("write_file");
    assert("write_file"@.len() == 10);
    reveal_strlit("execute");
    assert("execute"@.len() == 7);
    reveal_strlit("make_reg");
    assert("make_reg"@.len() == 8);
    reveal_strlit("remove_file");
    assert("remove_file"@.len() == 11);
    reveal_strlit("remove_dir");
    assert("remove_dir"@.len() == 10);
    reveal_strlit("refer");
    assert("refer"@.len() == 5);
    reveal_strlit("truncate");
    assert("truncate"@.len() == 8);
    assert("read_dir"@[0] != "make_reg"@[0]);
    assert("read_dir"@[0] != "truncate"@[0]);
    assert("write_file"@[0] != "remove_dir"@[0]);
    assert("make_reg"@[0] != "truncate"@[0]);
}

/// A Seatbelt operation is known by the name that a profile gives it, and by no
/// other.
pub proof fn law_an_operation_is_known_by_its_name(operation: SbplOperation)
    ensures
        operation.name() == "file-read-data"@ <==> operation is FileReadData,
        operation.name() == "file-read-metadata"@ <==> operation is FileReadMetadata,
        operation.name() == "file-write-data"@ <==> operation is FileWriteData,
        operation.name() == "file-write-create"@ <==> operation is FileWriteCreate,
        operation.name() == "file-write-unlink"@ <==> operation is FileWriteUnlink,
        operation.name() == "process-exec*"@ <==> operation is ProcessExec,
        operation.name() == "file-map-executable"@ <==> operation is FileMapExecutable,
{
    reveal_strlit("file-read-data");
    assert("file-read-data"@.len() == 14);
    reveal_strlit("file-read-metadata");
    assert("file-read-metadata"@.len() == 18);
    reveal_strlit("file-write-data");
    assert("file-write-data"@.len() == 15);
    reveal_strlit("file-write-create");
    assert("file-write-create"@.len() == 17);
    reveal_strlit("file-write-unlink");
    assert("file-write-unlink"@.len() == 17);
    reveal_strlit("process-exec*");
    assert("process-exec*"@.len() == 13);
    reveal_strlit("file-map-executable");
    assert("file-map-executable"@.len() == 19);
    assert("file-write-create"@[11] != "file-write-unlink"@[11]);
}

/// What a delegated mode is left to is told for the platform at hand: Seatbelt has
/// rules of its own for sockets, and Landlock has no right for them.
pub proof fn law_a_delegation_is_told_for_its_platform(target: DelegationTarget)
    ensures
        target.explanation(ModeTarget::Landlock).take(8) == seq![
            'L',
            'a',
            'n',
            'd',
            'l',
            'o',
            'c',
            'k',
        ],
        target.explanation(ModeTarget::Seatbelt).take(8) == seq![
            'e',
            'n',
            'f',
            'o',
            'r',
            'c',
            'e',
            'd',
        ],
{
    reveal_strlit(
        "Landlock has no AF_UNIX connect right; the grant is carried by the UnixSocketCapability and enforced only where the seccomp-notify AF_UNIX mediation is installed",
    );
    reveal_strlit(
        "enforced by the UnixSocketCapability's own Seatbelt rules ((allow network-outbound (path …))), not by a filesystem rule",
    );
    assert(target.explanation(ModeTarget::Landlock).take(8) =~= seq![
        'L',
        'a',
        'n',
        'd',
        'l',
        'o',
        'c',
        'k',
    ]);
    assert(target.explanation(ModeTarget::Seatbelt).take(8) =~= seq![
        'e',
        'n',
        'f',
        'o',
        'r',
        'c',
        'e',
        'd',
    ]);
}

/// A refusal says the version that was found before the version that is needed.
pub proof fn law_a_refusal_says_what_was_found_and_what_is_needed(
    right: LandlockRightName,
    abi: u8,
    needed_abi: u8,
)
    ensures
        (RefusalReason::UnsupportedRight { right, abi, needed_abi }).text() == "Landlock ABI V"@
            + text::decimal(abi as nat) + " does not carry "@ + right.name()
            + ", which first appears in V"@ + text::decimal(needed_abi as nat)
            + "; on this kernel the operation cannot be restricted at all, so the grant is refused rather than compiled to a rule that would enforce nothing"@,
{
}

} // verus!
