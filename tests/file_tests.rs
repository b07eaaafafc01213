use mirrord_layer_core::file_ops::realpath_finish;
use mirrord_layer_core::detour::{Bypass, Detour, HookError};
use mirrord_layer_core::file_ops::{
    access, close, complete_open, fdopendir, fsync, getdents64, lseek, open, openat, pread,
    pwrite, read, read_link, readv, realpath, realpath_check, xstat, xstatfs,
    FileRequest, OpenOptions, PathDecision, SeekFrom, AT_FDCWD, MAX_READ_SIZE,
};
use mirrord_layer_core::open_files::{OpenFiles, RemoteFile};

fn opts() -> OpenOptions {
    OpenOptions { read: true, write: false, append: false, truncate: false, create: false, create_new: false }
}

fn remote(p: &str) -> PathDecision {
    PathDecision { remapped: p.as_bytes().to_vec(), remote: true }
}

fn local(p: &str) -> PathDecision {
    PathDecision { remapped: p.as_bytes().to_vec(), remote: false }
}

fn table_with(local: i32, remote_fd: u64) -> OpenFiles {
    let mut t = OpenFiles::new();
    t.insert(local, RemoteFile::new(remote_fd, b"/f".to_vec()));
    t
}

#[test]
fn read_is_clamped() {
    let t = table_with(10, 7);
    assert_eq!(
        read(&t, 10, 5_000_000),
        Detour::Success(FileRequest::Read { remote_fd: 7, buffer_size: 1_048_576 })
    );
    assert_eq!(
        read(&t, 10, MAX_READ_SIZE),
        Detour::Success(FileRequest::Read { remote_fd: 7, buffer_size: MAX_READ_SIZE })
    );
    assert_eq!(read(&t, 10, 12), Detour::Success(FileRequest::Read { remote_fd: 7, buffer_size: 12 }));
}

#[test]
fn unmanaged_descriptor_bypasses() {
    let t = table_with(10, 7);
    assert_eq!(read(&t, 11, 1), Detour::Bypass(Bypass::LocalFdNotFound(11)));
    assert_eq!(fsync(&t, 11), Detour::Bypass(Bypass::LocalFdNotFound(11)));
    assert_eq!(xstatfs(&t, 11), Detour::Bypass(Bypass::LocalFdNotFound(11)));
    assert_eq!(fdopendir(&t, 11), Detour::Bypass(Bypass::LocalFdNotFound(11)));
}

#[test]
fn descriptor_requests() {
    let t = table_with(10, 7);
    assert_eq!(fsync(&t, 10), Detour::Success(0));
    assert_eq!(
        pread(&t, 10, 100, 5),
        Detour::Success(FileRequest::ReadLimited { remote_fd: 7, buffer_size: 100, start_from: 5 })
    );
    assert_eq!(
        pwrite(&t, 10, b"hey", 9),
        Detour::Success(FileRequest::WriteLimited { remote_fd: 7, write_bytes: b"hey".to_vec(), start_from: 9 })
    );
    assert_eq!(
        getdents64(&t, 10, 512),
        Detour::Success(FileRequest::GetDEnts64 { remote_fd: 7, buffer_size: 512 })
    );
    assert_eq!(xstatfs(&t, 10), Detour::Success(FileRequest::XstatFs { fd: 7 }));
    assert_eq!(fdopendir(&t, 10), Detour::Success(FileRequest::FdOpenDir { remote_fd: 7 }));
}

#[test]
fn seek_origins() {
    let t = table_with(3, 1);
    assert_eq!(lseek(&t, 3, 4, 0), Detour::Success(FileRequest::Seek { fd: 1, seek_from: SeekFrom::Start(4) }));
    assert_eq!(lseek(&t, 3, -4, 1), Detour::Success(FileRequest::Seek { fd: 1, seek_from: SeekFrom::Current(-4) }));
    assert_eq!(lseek(&t, 3, -2, 2), Detour::Success(FileRequest::Seek { fd: 1, seek_from: SeekFrom::End(-2) }));
    assert_eq!(lseek(&t, 3, 0, 9), Detour::Bypass(Bypass::CStrConversion));
}

#[test]
fn write_without_buffer_bypasses() {
    let t = table_with(3, 1);
    assert_eq!(mirrord_layer_core::file_ops::write(&t, 3, None), Detour::Bypass(Bypass::EmptyBuffer));
    assert_eq!(
        mirrord_layer_core::file_ops::write(&t, 3, Some(vec![1, 2])),
        Detour::Success(FileRequest::Write { fd: 1, write_bytes: vec![1, 2] })
    );
}

#[test]
fn readv_totals() {
    assert_eq!(readv(None), Detour::Bypass(Bypass::EmptyBuffer));
    assert_eq!(readv(Some(&[3, 4, 5])), Detour::Success(12));
    assert_eq!(readv(Some(&[])), Detour::Success(0));
    assert_eq!(readv(Some(&[u64::MAX, 1])), Detour::Bypass(Bypass::SizeOverflow));
}

#[test]
fn open_policy() {
    assert_eq!(open(b"rel/x", remote("/x"), opts()), Detour::Bypass(Bypass::RelativePath));
    assert_eq!(open(b"/etc/x", local("/etc/x"), opts()), Detour::Bypass(Bypass::IgnoredFile));
    assert_eq!(
        open(b"/app/x", remote("/data/x"), opts()),
        Detour::Success(FileRequest::Open { path: b"/data/x".to_vec(), options: opts() })
    );
}

#[test]
fn openat_relative_to_managed_dir() {
    let t = table_with(20, 8);
    assert_eq!(
        openat(&t, 20, b"sub/f", local("sub/f"), opts()),
        Detour::Success(FileRequest::OpenRelative { relative_fd: 8, path: b"sub/f".to_vec(), options: opts() })
    );
    assert_eq!(openat(&t, 21, b"sub/f", remote("sub/f"), opts()), Detour::Bypass(Bypass::LocalFdNotFound(21)));
    assert_eq!(openat(&t, AT_FDCWD, b"sub/f", remote("sub/f"), opts()), Detour::Bypass(Bypass::RelativePath));
    assert_eq!(
        openat(&t, 21, b"/abs", remote("/abs"), opts()),
        Detour::Success(FileRequest::Open { path: b"/abs".to_vec(), options: opts() })
    );
}

#[test]
fn open_binds_placeholder_to_remote() {
    let mut t = OpenFiles::new();
    let (r, closes) = complete_open(&mut t, 42, b"/data/x".to_vec(), Some(9));
    assert_eq!(r, Detour::Success(9));
    assert!(closes.is_empty());
    assert_eq!(t.get_remote_fd(9), Some(42));
    let _ = complete_open(&mut t, 43, b"/data/y".to_vec(), Some(10));
    assert_eq!(t.get_remote_fd(9), Some(42));
    assert_eq!(close(&mut t, 10), Some(FileRequest::Close { fd: 43 }));
    assert_eq!(t.get_remote_fd(9), Some(42));
    assert_eq!(close(&mut t, 9), Some(FileRequest::Close { fd: 42 }));
    assert_eq!(t.get_remote_fd(9), None);
}

#[test]
fn placeholder_failure_rolls_back() {
    let mut t = table_with(3, 1);
    let (r, closes) = complete_open(&mut t, 42, b"/data/x".to_vec(), None);
    assert_eq!(r, Detour::Error(HookError::LocalFileCreation(42)));
    assert_eq!(closes, vec![42]);
    assert_eq!(t.get_remote_fd(3), Some(1));
    assert!(!t.contains(42));
}

#[test]
fn access_and_readlink() {
    assert_eq!(access(b"x", remote("/x"), 4), Detour::Bypass(Bypass::RelativePath));
    assert_eq!(access(b"/x", local("/x"), 4), Detour::Bypass(Bypass::IgnoredFile));
    assert_eq!(
        access(b"/x", remote("/y"), 4),
        Detour::Success(FileRequest::Access { pathname: b"/y".to_vec(), mode: 4 })
    );
    assert_eq!(read_link(remote("y")), Detour::Bypass(Bypass::RelativePath));
    assert_eq!(read_link(local("/y")), Detour::Bypass(Bypass::IgnoredFile));
    assert_eq!(read_link(remote("/y")), Detour::Success(FileRequest::ReadLink { path: b"/y".to_vec() }));
}

#[test]
fn realpath_steps() {
    assert_eq!(realpath(b"x/..", b"x/.."), Detour::Bypass(Bypass::RelativePath));
    assert_eq!(realpath(b"/a/../b/./c", b"/m/a/../b/./c"), Detour::Success(b"/m/b/c".to_vec()));
    assert_eq!(realpath_check(b"/m/b/c".to_vec(), false), Detour::Bypass(Bypass::IgnoredFile));
    assert_eq!(
        realpath_check(b"/m/b/c".to_vec(), true),
        Detour::Success(FileRequest::Xstat { fd: None, path: Some(b"/m/b/c".to_vec()), follow_symlink: true })
    );
}

#[test]
fn stat_family() {
    let t = table_with(5, 50);
    assert_eq!(xstat(&t, None, None, remote("/"), true), Detour::Error(HookError::NullPointer));
    assert_eq!(
        xstat(&t, None, Some(5), remote("/"), false),
        Detour::Success(FileRequest::Xstat { fd: Some(50), path: None, follow_symlink: false })
    );
    assert_eq!(
        xstat(&t, Some(b"/p".to_vec()), None, remote("/q"), true),
        Detour::Success(FileRequest::Xstat { fd: None, path: Some(b"/q".to_vec()), follow_symlink: true })
    );
    assert_eq!(xstat(&t, Some(b"p".to_vec()), None, remote("p"), true), Detour::Bypass(Bypass::RelativePath));
    assert_eq!(
        xstat(&t, Some(b"p".to_vec()), Some(5), remote("p"), true),
        Detour::Success(FileRequest::Xstat { fd: Some(50), path: Some(b"p".to_vec()), follow_symlink: true })
    );
    assert_eq!(
        xstat(&t, Some(b"/p".to_vec()), Some(AT_FDCWD), local("/p"), true),
        Detour::Bypass(Bypass::IgnoredFile)
    );
    assert_eq!(xstat(&t, None, Some(6), remote("/"), true), Detour::Bypass(Bypass::LocalFdNotFound(6)));
}

#[test]
fn realpath_needs_existing_path() {
    assert_eq!(realpath_finish(b"/m/b".to_vec(), Detour::Success(())), Detour::Success(b"/m/b".to_vec()));
    assert_eq!(
        realpath_finish(b"/m/b".to_vec(), Detour::<()>::Error(HookError::Disconnected)),
        Detour::Error(HookError::Disconnected)
    );
    assert_eq!(
        realpath_finish(b"/m/b".to_vec(), Detour::<()>::Bypass(Bypass::NotImplemented)),
        Detour::Bypass(Bypass::NotImplemented)
    );
}

#[test]
fn fstatat_cwd_sends_rewritten_path() {
    let t = OpenFiles::new();
    assert_eq!(
        xstat(&t, Some(b"/p".to_vec()), Some(AT_FDCWD), remote("/q"), true),
        Detour::Success(FileRequest::Xstat { fd: None, path: Some(b"/q".to_vec()), follow_symlink: true })
    );
}
