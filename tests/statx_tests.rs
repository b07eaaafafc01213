use mirrord_layer_core::detour::{Bypass, Detour, HookError};
use mirrord_layer_core::file_ops::{FileRequest, AT_FDCWD};
use mirrord_layer_core::open_files::{OpenFiles, RemoteFile};
use mirrord_layer_core::statx::{
    fill_statx, nanos_to_statx, statx_request, Metadata, StatxTimestamp, AT_EMPTY_PATH,
    AT_SYMLINK_NOFOLLOW, STATX_BASIC_STATS,
};

fn meta() -> Metadata {
    Metadata {
        device_id: (8u64 << 8) | 3,
        size: 4096,
        user_id: 1000,
        group_id: 100,
        mode: 0o100644 | (1 << 20),
        inode: 77,
        hard_links: 1u64 << 40,
        access_time: 1_500_000_000_123_456_789,
        modification_time: -5,
        creation_time: 2_000_000_001,
        block_size: 4096,
        blocks: 8,
        rdevice_id: (0x123u64 << 8) | (0x45u64 << 20) | 0x67,
    }
}

#[test]
fn statx_fields() {
    let r = fill_statx(&meta());
    assert_eq!(r.mask, STATX_BASIC_STATS);
    assert_eq!(r.mask, 0x7ff);
    assert_eq!(r.attributes_mask, 0);
    assert_eq!(r.blksize, 4096);
    assert_eq!(r.nlink, u32::MAX);
    assert_eq!(r.uid, 1000);
    assert_eq!(r.gid, 100);
    assert_eq!(r.mode, 0o100644);
    assert_eq!(r.ino, 77);
    assert_eq!(r.size, 4096);
    assert_eq!(r.blocks, 8);
    assert_eq!(r.atime, StatxTimestamp { tv_sec: 1_500_000_000, tv_nsec: 123_456_789 });
    assert_eq!(r.mtime, StatxTimestamp { tv_sec: 0, tv_nsec: 0 });
    assert_eq!(r.ctime, StatxTimestamp { tv_sec: 2, tv_nsec: 1 });
    assert_eq!((r.dev_major, r.dev_minor), (8, 3));
    assert_eq!((r.rdev_major, r.rdev_minor), (0x123, 0x4567));
}

#[test]
fn large_timestamp() {
    assert_eq!(
        nanos_to_statx(i64::MAX),
        StatxTimestamp { tv_sec: i64::MAX / 1_000_000_000, tv_nsec: (i64::MAX % 1_000_000_000) as u32 }
    );
}

#[test]
fn statx_requests() {
    let mut t = OpenFiles::new();
    t.insert(7, RemoteFile::new(70, b"/d".to_vec()));
    let p = |s: &str| Some(s.as_bytes().to_vec());
    assert_eq!(statx_request(&t, 7, p("/a"), false, 0, 0, true), Detour::Error(HookError::BadPointer));
    assert_eq!(statx_request(&t, 7, None, true, 0, 0, true), Detour::Error(HookError::BadPointer));
    assert_eq!(statx_request(&t, 7, p("/a"), true, 0, i32::MIN, true), Detour::Error(HookError::BadFlag));
    assert_eq!(
        statx_request(&t, 7, p("/a"), true, AT_SYMLINK_NOFOLLOW, 0x7ff, true),
        Detour::Success(FileRequest::Xstat { fd: None, path: p("/a"), follow_symlink: false })
    );
    assert_eq!(statx_request(&t, 7, p("/a"), true, 0, 0, false), Detour::Bypass(Bypass::IgnoredFile));
    assert_eq!(statx_request(&t, AT_FDCWD, p("a"), true, 0, 0, true), Detour::Bypass(Bypass::RelativePath));
    assert_eq!(
        statx_request(&t, 7, p("a"), true, 0, 0, true),
        Detour::Success(FileRequest::Xstat { fd: Some(70), path: p("a"), follow_symlink: true })
    );
    assert_eq!(
        statx_request(&t, 7, p(""), true, AT_EMPTY_PATH, 0, true),
        Detour::Success(FileRequest::Xstat { fd: Some(70), path: None, follow_symlink: true })
    );
    assert_eq!(statx_request(&t, 7, p(""), true, 0, 0, true), Detour::Error(HookError::EmptyPath));
    assert_eq!(statx_request(&t, 8, p("a"), true, 0, 0, true), Detour::Bypass(Bypass::LocalFdNotFound(8)));
}
