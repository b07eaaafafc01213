use vstd::prelude::*;

use crate::detour::{Bypass, Detour, HookError};
use crate::file_ops::{remote_of, FileRequest, AT_FDCWD};
use crate::open_files::OpenFiles;
use crate::path::{is_absolute, SLASH};

verus! {

/// `statx` flag: operate on `dirfd` itself when the path is empty.
pub const AT_EMPTY_PATH: i32 = 0x1000;

/// `statx` flag: do not follow a final symbolic link.
pub const AT_SYMLINK_NOFOLLOW: i32 = 0x100;

/// The reserved bit of a `statx` mask.
pub const STATX_RESERVED: i32 = -2147483648;

/// The fields a generic metadata record fills: type, mode, link count, owner,
/// group, access, modification and change times, inode, size and block count.
pub const STATX_BASIC_STATS: u32 = 0x7ff;

pub const NANOS_PER_SEC: i64 = 1000000000;

/// File metadata as the remote peer reports it.
#[derive(Debug, Clone, Copy, PartialEq, Eq)]
pub struct Metadata {
    pub device_id: u64,
    pub size: u64,
    pub user_id: u32,
    pub group_id: u32,
    pub mode: u32,
    pub inode: u64,
    pub hard_links: u64,
    pub access_time: i64,
    pub modification_time: i64,
    pub creation_time: i64,
    pub block_size: u64,
    pub blocks: u64,
    pub rdevice_id: u64,
}

/// A `statx` time stamp.
#[derive(Debug, Clone, Copy, PartialEq, Eq)]
pub struct StatxTimestamp {
    pub tv_sec: i64,
    pub tv_nsec: u32,
}

/// The fields of a `statx` record that the remote metadata can fill.
#[derive(Debug, Clone, Copy, PartialEq, Eq)]
pub struct StatxRecord {
    pub mask: u32,
    pub attributes_mask: u64,
    pub blksize: u32,
    pub nlink: u32,
    pub uid: u32,
    pub gid: u32,
    pub mode: u16,
    pub ino: u64,
    pub size: u64,
    pub blocks: u64,
    pub atime: StatxTimestamp,
    pub ctime: StatxTimestamp,
    pub mtime: StatxTimestamp,
    pub rdev_major: u32,
    pub rdev_minor: u32,
    pub dev_major: u32,
    pub dev_minor: u32,
}

/// The major number of a device id, in the glibc encoding.
pub open spec fn dev_major(dev: u64) -> u32 {
    (((dev & 0xfff00u64) >> 8u64) | ((dev & 0xfffff00000000000u64) >> 32u64)) as u32
}

/// The minor number of a device id, in the glibc encoding.
pub open spec fn dev_minor(dev: u64) -> u32 {
    ((dev & 0xffu64) | ((dev & 0xffffff00000u64) >> 12u64)) as u32
}

/// Relies on libc::major: the major number of a device id, by the bit layout above.
#[verifier::external_body]
fn device_major(dev: u64) -> (r: u32)
    ensures
        r == dev_major(dev),
{
    libc::major(dev)
}

/// Relies on libc::minor: the minor number of a device id, by the bit layout above.
#[verifier::external_body]
fn device_minor(dev: u64) -> (r: u32)
    ensures
        r == dev_minor(dev),
{
    libc::minor(dev)
}

/// A nanosecond count as seconds and nanoseconds; a negative count is the epoch.
pub open spec fn timestamp_of(nanos: i64) -> StatxTimestamp {
    if nanos < 0 {
        StatxTimestamp { tv_sec: 0, tv_nsec: 0 }
    } else {
        StatxTimestamp {
            tv_sec: (nanos / NANOS_PER_SEC) as i64,
            tv_nsec: (nanos % NANOS_PER_SEC) as u32,
        }
    }
}

pub fn nanos_to_statx(nanos: i64) -> (r: StatxTimestamp)
    ensures
        r == timestamp_of(nanos),
{
    if nanos < 0 {
        StatxTimestamp { tv_sec: 0, tv_nsec: 0 }
    } else {
        StatxTimestamp { tv_sec: nanos / NANOS_PER_SEC, tv_nsec: (nanos % NANOS_PER_SEC) as u32 }
    }
}

pub open spec fn saturate_u32(v: u64) -> u32 {
    if v > u32::MAX {
        u32::MAX
    } else {
        v as u32
    }
}

fn to_u32_saturating(v: u64) -> (r: u32)
    ensures
        r == saturate_u32(v),
{
    if v > u32::MAX as u64 {
        u32::MAX
    } else {
        v as u32
    }
}

/// The `statx` record for remote metadata `m`.
pub open spec fn statx_of(m: Metadata) -> StatxRecord {
    StatxRecord {
        mask: STATX_BASIC_STATS,
        attributes_mask: 0,
        blksize: saturate_u32(m.block_size),
        nlink: saturate_u32(m.hard_links),
        uid: m.user_id,
        gid: m.group_id,
        mode: (m.mode % 65536) as u16,
        ino: m.inode,
        size: m.size,
        blocks: m.blocks,
        atime: timestamp_of(m.access_time),
        ctime: timestamp_of(m.creation_time),
        mtime: timestamp_of(m.modification_time),
        rdev_major: dev_major(m.rdevice_id),
        rdev_minor: dev_minor(m.rdevice_id),
        dev_major: dev_major(m.device_id),
        dev_minor: dev_minor(m.device_id),
    }
}

/// Fills a `statx` record from remote metadata. Fields the metadata cannot
/// give (attribute flags, alignment hints) are left out of the mask.
pub fn fill_statx(m: &Metadata) -> (r: StatxRecord)
    ensures
        r == statx_of(*m),
{
    StatxRecord {
        mask: STATX_BASIC_STATS,
        attributes_mask: 0,
        blksize: to_u32_saturating(m.block_size),
        nlink: to_u32_saturating(m.hard_links),
        uid: m.user_id,
        gid: m.group_id,
        mode: (m.mode % 65536) as u16,
        ino: m.inode,
        size: m.size,
        blocks: m.blocks,
        atime: nanos_to_statx(m.access_time),
        ctime: nanos_to_statx(m.creation_time),
        mtime: nanos_to_statx(m.modification_time),
        rdev_major: device_major(m.rdevice_id),
        rdev_minor: device_minor(m.rdevice_id),
        dev_major: device_major(m.device_id),
        dev_minor: device_minor(m.device_id),
    }
}

/// The metadata request of `statx`. `buffer_present` and `path` (`None` for a
/// null pointer) are the caller's pointers; `remote` is the policy's answer
/// for an absolute path.
pub fn statx_request(
    table: &OpenFiles,
    dir_fd: i32,
    path: Option<Vec<u8>>,
    buffer_present: bool,
    flags: i32,
    mask: i32,
    remote: bool,
) -> (r: Detour<FileRequest>)
    requires
        table.wf(),
    ensures
        !buffer_present ==> r == Detour::<FileRequest>::Error(HookError::BadPointer),
        buffer_present && path is None ==> r == Detour::<FileRequest>::Error(HookError::BadPointer),
        buffer_present && path is Some && mask & STATX_RESERVED != 0 ==> r
            == Detour::<FileRequest>::Error(HookError::BadFlag),
        buffer_present && path is Some && mask & STATX_RESERVED == 0 ==> ({
            let p = path->0;
            let follow = flags & AT_SYMLINK_NOFOLLOW == 0;
            if is_absolute(p@) {
                if remote {
                    r == Detour::Success(
                        FileRequest::Xstat { fd: None, path: Some(p), follow_symlink: follow },
                    )
                } else {
                    r == Detour::<FileRequest>::Bypass(Bypass::IgnoredFile)
                }
            } else if p.len() > 0 && dir_fd == AT_FDCWD {
                r == Detour::<FileRequest>::Bypass(Bypass::RelativePath)
            } else if p.len() == 0 && flags & AT_EMPTY_PATH == 0 {
                r == Detour::<FileRequest>::Error(HookError::EmptyPath)
            } else {
                match remote_of(table@, dir_fd) {
                    Detour::Success(fd) => r == Detour::Success(
                        FileRequest::Xstat {
                            fd: Some(fd),
                            path: if p.len() > 0 {
                                Some(p)
                            } else {
                                None
                            },
                            follow_symlink: follow,
                        },
                    ),
                    _ => r == Detour::<FileRequest>::Bypass(Bypass::LocalFdNotFound(dir_fd)),
                }
            }
        }),
{
    if !buffer_present {
        return Detour::Error(HookError::BadPointer);
    }
    let p = match path {
        Some(p) => p,
        None => {
            return Detour::Error(HookError::BadPointer);
        },
    };
    if mask & STATX_RESERVED != 0 {
        return Detour::Error(HookError::BadFlag);
    }
    let follow_symlink = flags & AT_SYMLINK_NOFOLLOW == 0;
    if p.len() > 0 && p[0] == SLASH {
        if remote {
            Detour::Success(FileRequest::Xstat { fd: None, path: Some(p), follow_symlink })
        } else {
            Detour::Bypass(Bypass::IgnoredFile)
        }
    } else if p.len() > 0 && dir_fd == AT_FDCWD {
        Detour::Bypass(Bypass::RelativePath)
    } else if p.len() == 0 && flags & AT_EMPTY_PATH == 0 {
        Detour::Error(HookError::EmptyPath)
    } else {
        match table.get_remote_fd(dir_fd) {
            Some(fd) => {
                let path = if p.len() > 0 {
                    Some(p)
                } else {
                    None
                };
                Detour::Success(FileRequest::Xstat { fd: Some(fd), path, follow_symlink })
            },
            None => Detour::Bypass(Bypass::LocalFdNotFound(dir_fd)),
        }
    }
}

} // verus!
