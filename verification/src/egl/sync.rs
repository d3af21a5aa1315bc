//! EGL sync fences: when waiting on the server is possible, the flags and timeout a client wait
//! gets, and what the sync calls return.
use vstd::prelude::*;
use vstd::string::StringSliceAdditionalSpecFns;

use super::consts as egl;
use crate::context::Version;
use crate::error::{Error, ErrorKind};
use crate::extensions::ExtensionSet;

verus! {

/// Waiting on the server needs EGL 1.5 or `EGL_KHR_wait_sync`.
pub fn check_wait_support(version: Version, exts: &ExtensionSet) -> (r: Result<(), Error>)
    ensures
        r is Ok <==> version.spec_at_least(Version { major: 1, minor: 5 }) || exts@.contains(
            "EGL_KHR_wait_sync".spec_bytes(),
        ),
        r matches Err(e) ==> e.kind == ErrorKind::NotSupported(
            "Sync::wait is not supported if EGL_KHR_wait_sync isn't available",
        ),
{
    if !version.at_least(1, 5) && !exts.contains("EGL_KHR_wait_sync") {
        return Err(
            Error::from_kind(
                ErrorKind::NotSupported(
                    "Sync::wait is not supported if EGL_KHR_wait_sync isn't available",
                ),
            ),
        );
    }
    Ok(())
}

/// Whether a sync status is signalled.
pub fn is_signalled(status: i32) -> (r: bool)
    ensures
        r == (status as u32 == egl::SIGNALED),
{
    status as u32 == egl::SIGNALED
}

/// The flags of a client wait: flush the bound context where asked.
pub fn client_wait_flags(flush: bool) -> (r: i32)
    ensures
        r == (if flush {
            egl::SYNC_FLUSH_COMMANDS_BIT
        } else {
            0i32
        }),
{
    if flush {
        egl::SYNC_FLUSH_COMMANDS_BIT
    } else {
        0
    }
}

/// The longest timeout a client wait takes, in nanoseconds.
pub const MAX_TIMEOUT_NANOS: u64 = 0xFFFF_FFFF_FFFF_FFFE;

/// The timeout of a client wait of `nanos` nanoseconds: at most `u64::MAX - 1`, the larger
/// ones being cut to it (`u64::MAX` means forever).
pub fn timeout_from_nanos(nanos: u128) -> (r: u64)
    ensures
        nanos <= MAX_TIMEOUT_NANOS ==> r == nanos,
        nanos > MAX_TIMEOUT_NANOS ==> r == MAX_TIMEOUT_NANOS,
{
    if nanos > MAX_TIMEOUT_NANOS as u128 {
        MAX_TIMEOUT_NANOS
    } else {
        nanos as u64
    }
}

/// The flags and timeout `eglClientWaitSyncKHR` gets for a wait of `timeout_nanos` whole
/// nanoseconds (`Duration::as_nanos` of the wait); no timeout waits forever.
pub fn client_wait_request(timeout_nanos: Option<u128>, flush: bool) -> (r: (i32, u64))
    ensures
        r.0 == (if flush {
            egl::SYNC_FLUSH_COMMANDS_BIT
        } else {
            0i32
        }),
        r.1 == match timeout_nanos {
            None => egl::FOREVER,
            Some(n) => if n <= MAX_TIMEOUT_NANOS {
                n as u64
            } else {
                MAX_TIMEOUT_NANOS
            },
        },
{
    let flags = client_wait_flags(flush);
    let t = match timeout_nanos {
        Some(n) => timeout_from_nanos(n),
        None => egl::FOREVER,
    };
    (flags, t)
}

/// Whether a result is one `eglClientWaitSyncKHR` gives.
pub open spec fn is_client_wait_result(result: u32) -> bool {
    result == 0 || result == egl::TIMEOUT_EXPIRED || result == egl::CONDITION_SATISFIED
}

/// What a client wait returned: whether the sync was signalled before the timeout, or the
/// error `eglGetError` reported.
pub fn client_wait_outcome(result: u32, error_code: u32) -> (r: Result<bool, Error>)
    requires
        is_client_wait_result(result),
        result == 0 ==> error_code != egl::SUCCESS,
    ensures
        result == egl::CONDITION_SATISFIED ==> r == Ok::<bool, Error>(true),
        result == egl::TIMEOUT_EXPIRED ==> r == Ok::<bool, Error>(false),
        result == 0 ==> (r matches Err(e) && super::spec_error_kind(error_code) == Some(e.kind)
            && e.raw_code == Some(error_code as i64)),
{
    if result == egl::TIMEOUT_EXPIRED {
        Ok(false)
    } else if result == egl::CONDITION_SATISFIED {
        Ok(true)
    } else {
        Err(super::failure(error_code))
    }
}

/// A sync is exported as a file descriptor only where it is a native fence.
pub fn check_native_fence(sync_type: i32) -> (r: Result<(), Error>)
    ensures
        r is Ok <==> sync_type as u32 == egl::SYNC_NATIVE_FENCE_ANDROID,
        r matches Err(e) ==> e.kind == ErrorKind::NotSupported("The sync is not a native fence"),
{
    if sync_type as u32 != egl::SYNC_NATIVE_FENCE_ANDROID {
        return Err(Error::from_kind(ErrorKind::NotSupported("The sync is not a native fence")));
    }
    Ok(())
}

/// The file descriptor `eglDupNativeFenceFDANDROID` returned, checked: none is the error
/// `eglGetError` reported.
pub fn check_fence_fd(fd: i32, error_code: u32) -> (r: Result<i32, Error>)
    requires
        fd == egl::NO_NATIVE_FENCE_FD_ANDROID ==> error_code != egl::SUCCESS,
    ensures
        fd != egl::NO_NATIVE_FENCE_FD_ANDROID ==> r == Ok::<i32, Error>(fd),
        fd == egl::NO_NATIVE_FENCE_FD_ANDROID ==> (r matches Err(e) && super::spec_error_kind(
            error_code,
        ) == Some(e.kind)),
{
    if fd == egl::NO_NATIVE_FENCE_FD_ANDROID {
        Err(super::failure(error_code))
    } else {
        Ok(fd)
    }
}

} // verus!
