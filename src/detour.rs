use vstd::prelude::*;

verus! {

/// Why an intercepted call was left to the native function.
#[derive(Debug, Clone, PartialEq, Eq)]
pub enum Bypass {
    /// The policy keeps this path local.
    IgnoredFile,
    /// A relative path with no managed base to resolve it against.
    RelativePath,
    /// The local descriptor is not one of ours.
    LocalFdNotFound(i32),
    /// Nothing to send.
    EmptyBuffer,
    /// The remote peer's protocol does not have this operation.
    NotImplemented,
    /// An argument that could not be turned into a request (bad `whence`, bad string).
    CStrConversion,
    /// A size that does not fit the native type; the native call reports it.
    SizeOverflow,
}

/// What the remote peer answered when it failed a request.
#[derive(Debug, Clone, Copy, PartialEq, Eq)]
pub enum ResponseError {
    /// The remote side does not know the request.
    NotImplemented,
    /// The remote operation failed with this error number.
    Remote(i32),
}

/// Why a virtualized call failed.
#[derive(Debug, Clone, PartialEq, Eq)]
pub enum HookError {
    /// The remote file was opened but no local placeholder could be made for it.
    LocalFileCreation(u64),
    /// A required pointer argument was null.
    NullPointer,
    /// A pointer argument could not be used.
    BadPointer,
    /// Reserved or unknown flag bits were set.
    BadFlag,
    /// An empty path without the flag that allows one.
    EmptyPath,
    /// A descriptor that cannot name a remote resource.
    BadDescriptor,
    /// The connection to the remote peer is gone.
    Disconnected,
    /// The remote peer reported a failure.
    Response(ResponseError),
}

/// The outcome of one intercepted operation: go on with a value, fall back to
/// the native call, or fail.
#[derive(Debug, Clone, PartialEq, Eq)]
pub enum Detour<T> {
    Success(T),
    Bypass(Bypass),
    Error(HookError),
}

/// The outcome of a remote reply: success carries the answer, the remote
/// peer's lack of the operation becomes a bypass when `bypass_unimplemented`.
pub fn from_response<T>(reply: Result<T, HookError>, bypass_unimplemented: bool) -> (r: Detour<T>)
    ensures
        match reply {
            Ok(v) => r == Detour::Success(v),
            Err(HookError::Response(ResponseError::NotImplemented)) if bypass_unimplemented => r
                == Detour::<T>::Bypass(Bypass::NotImplemented),
            Err(e) => r == Detour::<T>::Error(e),
        },
{
    match reply {
        Ok(v) => Detour::Success(v),
        Err(HookError::Response(ResponseError::NotImplemented)) if bypass_unimplemented => {
            Detour::Bypass(Bypass::NotImplemented)
        },
        Err(e) => Detour::Error(e),
    }
}

/// `errno` values used to report a failed call.
pub const ENOENT: i32 = 2;

pub const EIO: i32 = 5;

pub const EBADF: i32 = 9;

pub const EFAULT: i32 = 14;

pub const EINVAL: i32 = 22;

pub const ENOSYS: i32 = 38;

/// The `errno` a failed hook reports for an error.
pub open spec fn errno_spec(e: HookError) -> i32 {
    match e {
        HookError::NullPointer | HookError::BadPointer => EFAULT,
        HookError::BadFlag => EINVAL,
        HookError::EmptyPath => ENOENT,
        HookError::BadDescriptor => EBADF,
        HookError::Response(ResponseError::Remote(code)) => code,
        HookError::Response(ResponseError::NotImplemented) => ENOSYS,
        HookError::LocalFileCreation(_) | HookError::Disconnected => EIO,
    }
}

pub fn errno_of(e: &HookError) -> (r: i32)
    ensures
        r == errno_spec(*e),
{
    match e {
        HookError::NullPointer | HookError::BadPointer => EFAULT,
        HookError::BadFlag => EINVAL,
        HookError::EmptyPath => ENOENT,
        HookError::BadDescriptor => EBADF,
        HookError::Response(ResponseError::Remote(code)) => *code,
        HookError::Response(ResponseError::NotImplemented) => ENOSYS,
        HookError::LocalFileCreation(_) | HookError::Disconnected => EIO,
    }
}

} // verus!
