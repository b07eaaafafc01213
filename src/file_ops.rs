use vstd::prelude::*;

use crate::detour::{Bypass, Detour, HookError};
use crate::open_files::{close_owed, OpenFiles, RemoteFile};
use crate::path::{absolute_path, is_absolute, normalize};

verus! {

/// Largest number of bytes asked of the remote peer in one read.
pub const MAX_READ_SIZE: u64 = 1048576;

/// The `dirfd` that stands for the current working directory.
pub const AT_FDCWD: i32 = -100;

/// `whence` values of `lseek`.
pub const SEEK_SET: i32 = 0;

pub const SEEK_CUR: i32 = 1;

pub const SEEK_END: i32 = 2;

/// How a file is to be opened, as the remote peer reads it.
#[derive(Debug, Clone, Copy, PartialEq, Eq)]
pub struct OpenOptions {
    pub read: bool,
    pub write: bool,
    pub append: bool,
    pub truncate: bool,
    pub create: bool,
    pub create_new: bool,
}

impl OpenOptions {
    pub open spec fn spec_is_write(&self) -> bool {
        self.write || self.append || self.truncate || self.create || self.create_new
    }

    /// Whether opening this way may change the file.
    pub fn is_write(&self) -> (r: bool)
        ensures
            r == self.spec_is_write(),
    {
        self.write || self.append || self.truncate || self.create || self.create_new
    }
}

/// Where a seek counts from.
#[derive(Debug, Clone, Copy, PartialEq, Eq)]
pub enum SeekFrom {
    Start(u64),
    Current(i64),
    End(i64),
}

/// A request for the remote peer.
#[allow(inconsistent_fields)]
#[derive(Debug, Clone, PartialEq, Eq)]
pub enum FileRequest {
    Open { path: Vec<u8>, options: OpenOptions },
    OpenRelative { relative_fd: u64, path: Vec<u8>, options: OpenOptions },
    Read { remote_fd: u64, buffer_size: u64 },
    ReadLimited { remote_fd: u64, buffer_size: u64, start_from: u64 },
    Write { fd: u64, write_bytes: Vec<u8> },
    WriteLimited { remote_fd: u64, write_bytes: Vec<u8>, start_from: u64 },
    Seek { fd: u64, seek_from: SeekFrom },
    Close { fd: u64 },
    Access { pathname: Vec<u8>, mode: u8 },
    Xstat { fd: Option<u64>, path: Option<Vec<u8>>, follow_symlink: bool },
    XstatFs { fd: u64 },
    GetDEnts64 { remote_fd: u64, buffer_size: u64 },
    FdOpenDir { remote_fd: u64 },
    ReadLink { path: Vec<u8> },
}

/// What the path policy said of one path: the path it is rewritten to, and
/// whether that path is handled remotely for the access asked.
pub struct PathDecision {
    pub remapped: Vec<u8>,
    pub remote: bool,
}

pub open spec fn clamp(amount: u64) -> u64 {
    if amount > MAX_READ_SIZE {
        MAX_READ_SIZE
    } else {
        amount
    }
}

/// The remote handle of `local`, or the bypass for a descriptor that is not ours.
pub open spec fn remote_of(table: Map<i32, (u64, Seq<u8>)>, local: i32) -> Detour<u64> {
    if table.contains_key(local) {
        Detour::Success(table[local].0)
    } else {
        Detour::Bypass(Bypass::LocalFdNotFound(local))
    }
}

/// The remote handle bound to `local`; a bypass when `local` is not ours.
pub fn get_remote_fd(table: &OpenFiles, local: i32) -> (r: Detour<u64>)
    requires
        table.wf(),
    ensures
        r == remote_of(table@, local),
{
    match table.get_remote_fd(local) {
        Some(fd) => Detour::Success(fd),
        None => Detour::Bypass(Bypass::LocalFdNotFound(local)),
    }
}

/// The read request for `amount` bytes of a remote file, at most
/// `MAX_READ_SIZE` of them.
pub fn remote_read(remote_fd: u64, amount: u64) -> (r: FileRequest)
    ensures
        r == (FileRequest::Read { remote_fd, buffer_size: clamp(amount) }),
{
    let buffer_size = if amount > MAX_READ_SIZE {
        MAX_READ_SIZE
    } else {
        amount
    };
    FileRequest::Read { remote_fd, buffer_size }
}

/// The close notice for a remote file.
pub fn remote_close(fd: u64) -> (r: FileRequest)
    ensures
        r == (FileRequest::Close { fd }),
{
    FileRequest::Close { fd }
}

/// `read` on a local descriptor.
pub fn read(table: &OpenFiles, local: i32, amount: u64) -> (r: Detour<FileRequest>)
    requires
        table.wf(),
    ensures
        match remote_of(table@, local) {
            Detour::Success(fd) => r == Detour::Success(
                FileRequest::Read { remote_fd: fd, buffer_size: clamp(amount) },
            ),
            Detour::Bypass(b) => r == Detour::<FileRequest>::Bypass(b),
            Detour::Error(e) => r == Detour::<FileRequest>::Error(e),
        },
{
    match get_remote_fd(table, local) {
        Detour::Success(fd) => Detour::Success(remote_read(fd, amount)),
        Detour::Bypass(b) => Detour::Bypass(b),
        Detour::Error(e) => Detour::Error(e),
    }
}

/// `pread` on a local descriptor.
pub fn pread(table: &OpenFiles, local: i32, buffer_size: u64, offset: u64) -> (r: Detour<
    FileRequest,
>)
    requires
        table.wf(),
    ensures
        table@.contains_key(local) ==> r == Detour::Success(
            FileRequest::ReadLimited {
                remote_fd: table@[local].0,
                buffer_size,
                start_from: offset,
            },
        ),
        !table@.contains_key(local) ==> r == Detour::<FileRequest>::Bypass(
            Bypass::LocalFdNotFound(local),
        ),
{
    match table.get_remote_fd(local) {
        Some(remote_fd) => Detour::Success(
            FileRequest::ReadLimited { remote_fd, buffer_size, start_from: offset },
        ),
        None => Detour::Bypass(Bypass::LocalFdNotFound(local)),
    }
}

fn copy_bytes(b: &[u8]) -> (r: Vec<u8>)
    ensures
        r@ == b@,
{
    let mut out: Vec<u8> = Vec::new();
    let mut i: usize = 0;
    while i < b.len()
        invariant
            0 <= i <= b@.len(),
            out@ == b@.take(i as int),
        decreases b@.len() - i,
    {
        out.push(b[i]);
        assert(b@.take(i + 1) =~= b@.take(i as int).push(b@[i as int]));
        i = i + 1;
    }
    assert(b@.take(i as int) =~= b@);
    out
}

/// `pwrite` on a local descriptor.
pub fn pwrite(table: &OpenFiles, local: i32, buffer: &[u8], offset: u64) -> (r: Detour<
    FileRequest,
>)
    requires
        table.wf(),
    ensures
        table@.contains_key(local) ==> (r matches Detour::Success(
            FileRequest::WriteLimited { remote_fd, write_bytes, start_from },
        ) && remote_fd == table@[local].0 && write_bytes@ == buffer@ && start_from == offset),
        !table@.contains_key(local) ==> r == Detour::<FileRequest>::Bypass(
            Bypass::LocalFdNotFound(local),
        ),
{
    match table.get_remote_fd(local) {
        Some(remote_fd) => Detour::Success(
            FileRequest::WriteLimited {
                remote_fd,
                write_bytes: copy_bytes(buffer),
                start_from: offset,
            },
        ),
        None => Detour::Bypass(Bypass::LocalFdNotFound(local)),
    }
}

/// The seek origin for an `lseek` `whence`; `None` for an unknown one.
pub open spec fn seek_from(offset: i64, whence: i32) -> Option<SeekFrom> {
    if whence == SEEK_SET {
        Some(SeekFrom::Start(offset as u64))
    } else if whence == SEEK_CUR {
        Some(SeekFrom::Current(offset))
    } else if whence == SEEK_END {
        Some(SeekFrom::End(offset))
    } else {
        None
    }
}

/// `lseek` on a local descriptor. An unknown `whence` is left to the native call.
pub fn lseek(table: &OpenFiles, local: i32, offset: i64, whence: i32) -> (r: Detour<FileRequest>)
    requires
        table.wf(),
    ensures
        !table@.contains_key(local) ==> r == Detour::<FileRequest>::Bypass(
            Bypass::LocalFdNotFound(local),
        ),
        table@.contains_key(local) ==> r == match seek_from(offset, whence) {
            Some(s) => Detour::Success(FileRequest::Seek { fd: table@[local].0, seek_from: s }),
            None => Detour::<FileRequest>::Bypass(Bypass::CStrConversion),
        },
{
    let fd = match table.get_remote_fd(local) {
        Some(fd) => fd,
        None => {
            return Detour::Bypass(Bypass::LocalFdNotFound(local));
        },
    };
    let seek_from = if whence == SEEK_SET {
        SeekFrom::Start(offset as u64)
    } else if whence == SEEK_CUR {
        SeekFrom::Current(offset)
    } else if whence == SEEK_END {
        SeekFrom::End(offset)
    } else {
        return Detour::Bypass(Bypass::CStrConversion);
    };
    Detour::Success(FileRequest::Seek { fd, seek_from })
}

/// `write` on a local descriptor; `None` stands for a buffer that could not be read.
pub fn write(table: &OpenFiles, local: i32, write_bytes: Option<Vec<u8>>) -> (r: Detour<
    FileRequest,
>)
    requires
        table.wf(),
    ensures
        !table@.contains_key(local) ==> r == Detour::<FileRequest>::Bypass(
            Bypass::LocalFdNotFound(local),
        ),
        table@.contains_key(local) ==> r == match write_bytes {
            Some(b) => Detour::Success(FileRequest::Write { fd: table@[local].0, write_bytes: b }),
            None => Detour::<FileRequest>::Bypass(Bypass::EmptyBuffer),
        },
{
    let fd = match table.get_remote_fd(local) {
        Some(fd) => fd,
        None => {
            return Detour::Bypass(Bypass::LocalFdNotFound(local));
        },
    };
    match write_bytes {
        Some(b) => Detour::Success(FileRequest::Write { fd, write_bytes: b }),
        None => Detour::Bypass(Bypass::EmptyBuffer),
    }
}

/// `fsync` on a local descriptor: nothing to flush locally, so success for ours.
pub fn fsync(table: &OpenFiles, local: i32) -> (r: Detour<i32>)
    requires
        table.wf(),
    ensures
        table@.contains_key(local) ==> r == Detour::Success(0i32),
        !table@.contains_key(local) ==> r == Detour::<i32>::Bypass(Bypass::LocalFdNotFound(local)),
{
    if table.contains(local) {
        Detour::Success(0)
    } else {
        Detour::Bypass(Bypass::LocalFdNotFound(local))
    }
}

/// `fstatfs` on a local descriptor.
pub fn xstatfs(table: &OpenFiles, local: i32) -> (r: Detour<FileRequest>)
    requires
        table.wf(),
    ensures
        table@.contains_key(local) ==> r == Detour::Success(
            FileRequest::XstatFs { fd: table@[local].0 },
        ),
        !table@.contains_key(local) ==> r == Detour::<FileRequest>::Bypass(
            Bypass::LocalFdNotFound(local),
        ),
{
    match table.get_remote_fd(local) {
        Some(fd) => Detour::Success(FileRequest::XstatFs { fd }),
        None => Detour::Bypass(Bypass::LocalFdNotFound(local)),
    }
}

/// `getdents64` on a local descriptor.
pub fn getdents64(table: &OpenFiles, local: i32, buffer_size: u64) -> (r: Detour<FileRequest>)
    requires
        table.wf(),
    ensures
        table@.contains_key(local) ==> r == Detour::Success(
            FileRequest::GetDEnts64 { remote_fd: table@[local].0, buffer_size },
        ),
        !table@.contains_key(local) ==> r == Detour::<FileRequest>::Bypass(
            Bypass::LocalFdNotFound(local),
        ),
{
    match table.get_remote_fd(local) {
        Some(remote_fd) => Detour::Success(FileRequest::GetDEnts64 { remote_fd, buffer_size }),
        None => Detour::Bypass(Bypass::LocalFdNotFound(local)),
    }
}

/// `fdopendir` on a local descriptor: asks for a directory stream of its remote file.
pub fn fdopendir(table: &OpenFiles, local: i32) -> (r: Detour<FileRequest>)
    requires
        table.wf(),
    ensures
        table@.contains_key(local) ==> r == Detour::Success(
            FileRequest::FdOpenDir { remote_fd: table@[local].0 },
        ),
        !table@.contains_key(local) ==> r == Detour::<FileRequest>::Bypass(
            Bypass::LocalFdNotFound(local),
        ),
{
    match table.get_remote_fd(local) {
        Some(remote_fd) => Detour::Success(FileRequest::FdOpenDir { remote_fd }),
        None => Detour::Bypass(Bypass::LocalFdNotFound(local)),
    }
}

pub open spec fn sum_lens(lens: Seq<u64>) -> int
    decreases lens.len(),
{
    if lens.len() == 0 {
        0
    } else {
        sum_lens(lens.drop_last()) + lens.last()
    }
}

/// Total size of a `readv` vector; a null vector, or a total past `u64`,
/// is left to the native call.
pub fn readv(lens: Option<&[u64]>) -> (r: Detour<u64>)
    ensures
        match lens {
            None => r == Detour::<u64>::Bypass(Bypass::EmptyBuffer),
            Some(l) => if sum_lens(l@) <= u64::MAX {
                r == Detour::Success(sum_lens(l@) as u64)
            } else {
                r == Detour::<u64>::Bypass(Bypass::SizeOverflow)
            },
        },
{
    let l = match lens {
        Some(l) => l,
        None => {
            return Detour::Bypass(Bypass::EmptyBuffer);
        },
    };
    let mut total: u64 = 0;
    let mut i: usize = 0;
    while i < l.len()
        invariant
            lens == Some(l),
            0 <= i <= l@.len(),
            total == sum_lens(l@.take(i as int)),
        decreases l@.len() - i,
    {
        assert(l@.take(i + 1).drop_last() =~= l@.take(i as int));
        assert(l@.take(i + 1).last() == l@[i as int]);
        if total > u64::MAX - l[i] {
            proof {
                lemma_sum_prefix_le(l@, i + 1);
            }
            return Detour::Bypass(Bypass::SizeOverflow);
        }
        total = total + l[i];
        i = i + 1;
    }
    assert(l@.take(i as int) =~= l@);
    Detour::Success(total)
}

proof fn lemma_sum_prefix_le(s: Seq<u64>, n: int)
    requires
        0 <= n <= s.len(),
    ensures
        sum_lens(s.take(n)) <= sum_lens(s),
    decreases s.len(),
{
    if n < s.len() {
        assert(s.drop_last().take(n) =~= s.take(n));
        lemma_sum_prefix_le(s.drop_last(), n);
    } else {
        assert(s.take(n) =~= s);
    }
}

/// The open request for `path`, which the policy rewrote and judged as
/// `decision` says. Relative paths and paths kept local are bypassed.
pub fn open(path: &[u8], decision: PathDecision, options: OpenOptions) -> (r: Detour<FileRequest>)
    ensures
        !is_absolute(path@) ==> r == Detour::<FileRequest>::Bypass(Bypass::RelativePath),
        is_absolute(path@) && !decision.remote ==> r == Detour::<FileRequest>::Bypass(
            Bypass::IgnoredFile,
        ),
        is_absolute(path@) && decision.remote ==> r == Detour::Success(
            FileRequest::Open { path: decision.remapped, options },
        ),
{
    if path.len() == 0 || path[0] != crate::path::SLASH {
        return Detour::Bypass(Bypass::RelativePath);
    }
    if !decision.remote {
        return Detour::Bypass(Bypass::IgnoredFile);
    }
    Detour::Success(FileRequest::Open { path: decision.remapped, options })
}

/// The open request of `openat`: an absolute path, or one relative to the
/// working directory, goes the way of `open`; any other is opened relative
/// to the remote file of `dir_fd`.
pub fn openat(
    table: &OpenFiles,
    dir_fd: i32,
    path: &[u8],
    decision: PathDecision,
    options: OpenOptions,
) -> (r: Detour<FileRequest>)
    requires
        table.wf(),
    ensures
        is_absolute(path@) || dir_fd == AT_FDCWD ==> r == (if !is_absolute(path@) {
            Detour::<FileRequest>::Bypass(Bypass::RelativePath)
        } else if !decision.remote {
            Detour::<FileRequest>::Bypass(Bypass::IgnoredFile)
        } else {
            Detour::Success(FileRequest::Open { path: decision.remapped, options })
        }),
        !(is_absolute(path@) || dir_fd == AT_FDCWD) && !table@.contains_key(dir_fd) ==> r
            == Detour::<FileRequest>::Bypass(Bypass::LocalFdNotFound(dir_fd)),
        !(is_absolute(path@) || dir_fd == AT_FDCWD) && table@.contains_key(dir_fd) ==> (r matches Detour::Success(
            FileRequest::OpenRelative { relative_fd, path: p, options: o },
        ) && relative_fd == table@[dir_fd].0 && p@ == path@ && o == options),
{
    let absolute = path.len() > 0 && path[0] == crate::path::SLASH;
    if absolute || dir_fd == AT_FDCWD {
        open(path, decision, options)
    } else {
        match table.get_remote_fd(dir_fd) {
            Some(relative_fd) => Detour::Success(
                FileRequest::OpenRelative { relative_fd, path: copy_bytes(path), options },
            ),
            None => Detour::Bypass(Bypass::LocalFdNotFound(dir_fd)),
        }
    }
}

/// Finishes an open whose remote side succeeded with `remote_fd`, once the
/// local placeholder descriptor was asked for. With a placeholder, it is
/// bound to the remote file and returned. Without one, the remote file is
/// closed again and the open fails; the table is left as it was. The second
/// result lists the remote handles owed a close.
pub fn complete_open(
    table: &mut OpenFiles,
    remote_fd: u64,
    path: Vec<u8>,
    placeholder: Option<i32>,
) -> (r: (Detour<i32>, Vec<u64>))
    requires
        old(table).wf(),
    ensures
        final(table).wf(),
        placeholder is None ==> r.0 == Detour::<i32>::Error(HookError::LocalFileCreation(remote_fd))
            && r.1@ == seq![remote_fd] && final(table)@ == old(table)@,
        placeholder matches Some(local) ==> r.0 == Detour::Success(local) && final(table)@ == old(
            table,
        )@.insert(local, (remote_fd, path@)) && r.1@ == match close_owed(old(table)@, local) {
            Some(fd) => seq![fd],
            None => Seq::<u64>::empty(),
        },
{
    let mut closes: Vec<u64> = Vec::new();
    match placeholder {
        None => {
            closes.push(remote_fd);
            assert(closes@ =~= seq![remote_fd]);
            (Detour::Error(HookError::LocalFileCreation(remote_fd)), closes)
        },
        Some(local) => {
            match table.insert(local, RemoteFile::new(remote_fd, path)) {
                Some(fd) => {
                    closes.push(fd);
                    assert(closes@ =~= seq![fd]);
                },
                None => {
                    assert(closes@ =~= Seq::<u64>::empty());
                },
            }
            (Detour::Success(local), closes)
        },
    }
}

/// Closes `local`: the remote close notice is owed only when it was the last
/// alias of its remote file.
pub fn close(table: &mut OpenFiles, local: i32) -> (r: Option<FileRequest>)
    requires
        old(table).wf(),
    ensures
        final(table).wf(),
        final(table)@ == old(table)@.remove(local),
        r == match close_owed(old(table)@, local) {
            Some(fd) => Some(FileRequest::Close { fd }),
            None => None::<FileRequest>,
        },
{
    match table.remove(local) {
        Some(fd) => Some(remote_close(fd)),
        None => None,
    }
}

/// The `access` request for `path`, which the policy judged as `decision` says.
pub fn access(path: &[u8], decision: PathDecision, mode: u8) -> (r: Detour<FileRequest>)
    ensures
        !is_absolute(path@) ==> r == Detour::<FileRequest>::Bypass(Bypass::RelativePath),
        is_absolute(path@) && !decision.remote ==> r == Detour::<FileRequest>::Bypass(
            Bypass::IgnoredFile,
        ),
        is_absolute(path@) && decision.remote ==> r == Detour::Success(
            FileRequest::Access { pathname: decision.remapped, mode },
        ),
{
    if path.len() == 0 || path[0] != crate::path::SLASH {
        return Detour::Bypass(Bypass::RelativePath);
    }
    if !decision.remote {
        return Detour::Bypass(Bypass::IgnoredFile);
    }
    Detour::Success(FileRequest::Access { pathname: decision.remapped, mode })
}

/// The `readlink` request: the rewritten path must be absolute and handled remotely.
pub fn read_link(decision: PathDecision) -> (r: Detour<FileRequest>)
    ensures
        !is_absolute(decision.remapped@) ==> r == Detour::<FileRequest>::Bypass(
            Bypass::RelativePath,
        ),
        is_absolute(decision.remapped@) && !decision.remote ==> r
            == Detour::<FileRequest>::Bypass(Bypass::IgnoredFile),
        is_absolute(decision.remapped@) && decision.remote ==> r == Detour::Success(
            FileRequest::ReadLink { path: decision.remapped },
        ),
{
    if decision.remapped.len() == 0 || decision.remapped[0] != crate::path::SLASH {
        return Detour::Bypass(Bypass::RelativePath);
    }
    if !decision.remote {
        return Detour::Bypass(Bypass::IgnoredFile);
    }
    Detour::Success(FileRequest::ReadLink { path: decision.remapped })
}

/// The first step of `realpath`: the rewritten path with `.` and `..`
/// resolved, for a path that is absolute.
pub fn realpath(path: &[u8], remapped: &[u8]) -> (r: Detour<Vec<u8>>)
    ensures
        !is_absolute(path@) ==> r == Detour::<Vec<u8>>::Bypass(Bypass::RelativePath),
        is_absolute(path@) ==> (r matches Detour::Success(p) && p@ == normalize(remapped@)),
{
    if path.len() == 0 || path[0] != crate::path::SLASH {
        return Detour::Bypass(Bypass::RelativePath);
    }
    Detour::Success(absolute_path(remapped))
}

/// The second step of `realpath`: the metadata request that confirms the
/// resolved path exists, when the policy has it handled remotely.
pub fn realpath_check(resolved: Vec<u8>, remote: bool) -> (r: Detour<FileRequest>)
    ensures
        !remote ==> r == Detour::<FileRequest>::Bypass(Bypass::IgnoredFile),
        remote ==> r == Detour::Success(
            FileRequest::Xstat { fd: None, path: Some(resolved), follow_symlink: true },
        ),
{
    if !remote {
        return Detour::Bypass(Bypass::IgnoredFile);
    }
    Detour::Success(FileRequest::Xstat { fd: None, path: Some(resolved), follow_symlink: true })
}

/// The last step of `realpath`: the resolved path once the metadata
/// request confirmed it exists; the check's bypass or error otherwise.
pub fn realpath_finish<T>(resolved: Vec<u8>, check: Detour<T>) -> (r: Detour<Vec<u8>>)
    ensures
        match check {
            Detour::Success(_) => r == Detour::Success(resolved),
            Detour::Bypass(b) => r == Detour::<Vec<u8>>::Bypass(b),
            Detour::Error(e) => r == Detour::<Vec<u8>>::Error(e),
        },
{
    match check {
        Detour::Success(_) => Detour::Success(resolved),
        Detour::Bypass(b) => Detour::Bypass(b),
        Detour::Error(e) => Detour::Error(e),
    }
}

/// The metadata request of the `stat` family: `stat`/`lstat` (a path),
/// `fstat` (a descriptor) and `fstatat` (both). `decision` is the policy's
/// answer for the path, when there is one.
pub fn xstat(
    table: &OpenFiles,
    path: Option<Vec<u8>>,
    fd: Option<i32>,
    decision: PathDecision,
    follow_symlink: bool,
) -> (r: Detour<FileRequest>)
    requires
        table.wf(),
    ensures
        ({
            match (path, fd) {
                (Some(p), Some(f)) => if f == AT_FDCWD {
                    if !is_absolute(p@) {
                        r == Detour::<FileRequest>::Bypass(Bypass::RelativePath)
                    } else if !decision.remote {
                        r == Detour::<FileRequest>::Bypass(Bypass::IgnoredFile)
                    } else {
                        r == Detour::Success(
                            FileRequest::Xstat {
                                fd: None,
                                path: Some(decision.remapped),
                                follow_symlink,
                            },
                        )
                    }
                } else {
                    match remote_of(table@, f) {
                        Detour::Success(rf) => r == Detour::Success(
                            FileRequest::Xstat { fd: Some(rf), path: Some(p), follow_symlink },
                        ),
                        _ => r == Detour::<FileRequest>::Bypass(Bypass::LocalFdNotFound(f)),
                    }
                },
                (Some(p), None) => if !is_absolute(p@) {
                    r == Detour::<FileRequest>::Bypass(Bypass::RelativePath)
                } else if !decision.remote {
                    r == Detour::<FileRequest>::Bypass(Bypass::IgnoredFile)
                } else {
                    r == Detour::Success(
                        FileRequest::Xstat {
                            fd: None,
                            path: Some(decision.remapped),
                            follow_symlink,
                        },
                    )
                },
                (None, Some(f)) => match remote_of(table@, f) {
                    Detour::Success(rf) => r == Detour::Success(
                        FileRequest::Xstat { fd: Some(rf), path: None, follow_symlink },
                    ),
                    _ => r == Detour::<FileRequest>::Bypass(Bypass::LocalFdNotFound(f)),
                },
                (None, None) => r == Detour::<FileRequest>::Error(HookError::NullPointer),
            }
        }),
{
    match (path, fd) {
        (Some(p), Some(f)) => {
            if f == AT_FDCWD {
                if p.len() == 0 || p[0] != crate::path::SLASH {
                    Detour::Bypass(Bypass::RelativePath)
                } else if !decision.remote {
                    Detour::Bypass(Bypass::IgnoredFile)
                } else {
                    Detour::Success(
                        FileRequest::Xstat { fd: None, path: Some(decision.remapped), follow_symlink },
                    )
                }
            } else {
                match table.get_remote_fd(f) {
                    Some(rf) => Detour::Success(
                        FileRequest::Xstat { fd: Some(rf), path: Some(p), follow_symlink },
                    ),
                    None => Detour::Bypass(Bypass::LocalFdNotFound(f)),
                }
            }
        },
        (Some(p), None) => {
            if p.len() == 0 || p[0] != crate::path::SLASH {
                Detour::Bypass(Bypass::RelativePath)
            } else if !decision.remote {
                Detour::Bypass(Bypass::IgnoredFile)
            } else {
                Detour::Success(
                    FileRequest::Xstat { fd: None, path: Some(decision.remapped), follow_symlink },
                )
            }
        },
        (None, Some(f)) => match table.get_remote_fd(f) {
            Some(rf) => Detour::Success(FileRequest::Xstat { fd: Some(rf), path: None, follow_symlink }),
            None => Detour::Bypass(Bypass::LocalFdNotFound(f)),
        },
        (None, None) => Detour::Error(HookError::NullPointer),
    }
}

} // verus!
