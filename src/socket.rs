use vstd::prelude::*;

use crate::detour::{Detour, HookError};
use crate::open_files::{close_owed, OpenFiles};

verus! {

/// What `gethostname` hands back for a remote host name.
#[derive(Debug, Clone, Copy, PartialEq, Eq)]
pub struct HostnameCopy {
    /// How many bytes of the name (with its terminating nul) go to the caller's buffer.
    pub copy_len: usize,
    /// The return value of the call.
    pub ret: i32,
    /// Whether `errno` is set to `EINVAL`: the buffer was too short.
    pub einval: bool,
}

/// `gethostname` into a buffer of `name_length` bytes, for a host name of
/// `host_len` bytes counting its nul: as much as fits is copied, and a name
/// that does not fit is an `EINVAL` failure.
pub fn gethostname_copy(host_len: usize, name_length: usize) -> (r: HostnameCopy)
    ensures
        r.copy_len == if name_length < host_len {
            name_length
        } else {
            host_len
        },
        host_len > name_length ==> r.ret == -1 && r.einval,
        host_len <= name_length ==> r.ret == 0 && !r.einval,
{
    let copy_len = if name_length < host_len {
        name_length
    } else {
        host_len
    };
    if host_len > name_length {
        HostnameCopy { copy_len, ret: -1, einval: true }
    } else {
        HostnameCopy { copy_len, ret: 0, einval: false }
    }
}

/// Whether `dup2(old_fd, new_fd)` reaches the native call: for equal
/// descriptors it returns `new_fd` without doing anything.
pub fn dup2_calls_native(old_fd: i32, new_fd: i32) -> (r: bool)
    ensures
        r == (old_fd != new_fd),
{
    old_fd != new_fd
}

/// Bookkeeping after a native `dup`, `dup2` or `dup3` of `old_fd` returned
/// `native_result`. A failure (`-1`) is returned as it is and changes
/// nothing. Otherwise the new descriptor becomes an alias of `old_fd`'s
/// remote file, if `old_fd` is ours, and loses any binding it had if not.
/// The second result is the remote handle owed a close for the binding the
/// new descriptor lost, if that was its last alias.
pub fn after_dup(table: &mut OpenFiles, old_fd: i32, native_result: i32) -> (r: (i32, Option<u64>))
    requires
        old(table).wf(),
    ensures
        final(table).wf(),
        r.0 == native_result,
        native_result == -1 ==> final(table)@ == old(table)@ && r.1 is None,
        native_result != -1 && native_result != old_fd && old(table)@.contains_key(old_fd) ==> final(table)@
            == old(table)@.insert(native_result, old(table)@[old_fd]),
        native_result != -1 && native_result != old_fd && !old(table)@.contains_key(old_fd) ==> final(table)@
            == old(table)@.remove(native_result),
        native_result != -1 && native_result != old_fd ==> r.1 == close_owed(
            old(table)@,
            native_result,
        ),
        native_result == old_fd ==> final(table)@ == old(table)@ && r.1 is None,
{
    if native_result == -1 {
        return (native_result, None);
    }
    let close = table.dup(old_fd, native_result);
    (native_result, close)
}

/// The result of an `accept`-family hook. The native call runs first: a
/// failure (`-1`) is returned as it is, and the bookkeeping outcome is only
/// looked at after a success. Then a success returns its value, a bypass the
/// native result, and an error `-1` with the error to report in `errno`.
pub fn finish_accept(native_result: i32, bookkeeping: Detour<i32>) -> (r: (i32, Option<HookError>))
    ensures
        native_result == -1 ==> r == (-1i32, None::<HookError>),
        native_result != -1 ==> r == match bookkeeping {
            Detour::Success(v) => (v, None::<HookError>),
            Detour::Bypass(_) => (native_result, None::<HookError>),
            Detour::Error(e) => (-1i32, Some(e)),
        },
{
    if native_result == -1 {
        return (-1, None);
    }
    match bookkeeping {
        Detour::Success(v) => (v, None),
        Detour::Bypass(_) => (native_result, None),
        Detour::Error(e) => (-1, Some(e)),
    }
}

} // verus!
