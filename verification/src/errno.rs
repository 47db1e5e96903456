//! The platform error numbers that decisions turn on. Some are the same wherever
//! there are any; the rest go by the platform, with Linux on one side and the BSD
//! family, macOS with it, on the other.

use vstd::prelude::*;
use crate::lifecycle::probe::Platform;

verus! {

/// Operation not permitted.
pub const EPERM: i32 = 1;

/// No such process.
pub const ESRCH: i32 = 3;

/// Interrupted call.
pub const EINTR: i32 = 4;

/// Permission denied.
pub const EACCES: i32 = 13;

/// Invalid argument.
pub const EINVAL: i32 = 22;

/// Broken pipe.
pub const EPIPE: i32 = 32;

/// Try again: `EAGAIN`.
pub open spec fn try_again_on(platform: Platform) -> i32 {
    if platform is Linux {
        11
    } else {
        35
    }
}

/// Try again: `EAGAIN`.
pub fn try_again(platform: Platform) -> (errno: i32)
    ensures
        errno == try_again_on(platform),
{
    match platform {
        Platform::Linux => 11,
        _ => 35,
    }
}

/// File name too long: `ENAMETOOLONG`.
pub open spec fn name_too_long_on(platform: Platform) -> i32 {
    if platform is Linux {
        36
    } else {
        63
    }
}

/// File name too long: `ENAMETOOLONG`.
pub fn name_too_long(platform: Platform) -> (errno: i32)
    ensures
        errno == name_too_long_on(platform),
{
    match platform {
        Platform::Linux => 36,
        _ => 63,
    }
}

/// Function not implemented: `ENOSYS`.
pub open spec fn not_implemented_on(platform: Platform) -> i32 {
    if platform is Linux {
        38
    } else {
        78
    }
}

/// Function not implemented: `ENOSYS`.
pub fn not_implemented(platform: Platform) -> (errno: i32)
    ensures
        errno == not_implemented_on(platform),
{
    match platform {
        Platform::Linux => 38,
        _ => 78,
    }
}

/// Operation now in progress: `EINPROGRESS`.
pub open spec fn in_progress_on(platform: Platform) -> i32 {
    if platform is Linux {
        115
    } else {
        36
    }
}

/// Operation now in progress: `EINPROGRESS`.
pub fn in_progress(platform: Platform) -> (errno: i32)
    ensures
        errno == in_progress_on(platform),
{
    match platform {
        Platform::Linux => 115,
        _ => 36,
    }
}

} // verus!
