use mirrord_layer_core::detour::{Detour, HookError};
use mirrord_layer_core::hooks::{socket_hooks, symbol, Platform, SocketHook};
use mirrord_layer_core::open_dirs::{complete_fdopendir, DirStream, OpenDirs};

#[test]
fn dns_hooks_only_with_remote_dns() {
    let without = socket_hooks(Platform::Linux, false);
    assert!(!without.contains(&SocketHook::GetAddrInfo));
    assert!(!without.contains(&SocketHook::FreeAddrInfo));
    assert!(!without.contains(&SocketHook::GetHostByName));
    let with = socket_hooks(Platform::Linux, true);
    assert_eq!(with.len(), without.len() + 3);
    assert_eq!(&with[with.len() - 3..], &[SocketHook::GetHostByName, SocketHook::GetAddrInfo, SocketHook::FreeAddrInfo]);
    assert!(!with.contains(&SocketHook::DnsConfigurationCopy));
}

#[test]
fn platform_specific_hooks() {
    let linux = socket_hooks(Platform::Linux, true);
    assert!(linux.contains(&SocketHook::Accept4) && linux.contains(&SocketHook::Dup3));
    let mac = socket_hooks(Platform::MacOs, true);
    assert!(!mac.contains(&SocketHook::Accept4));
    assert!(mac.contains(&SocketHook::DnsConfigurationCopy) && mac.contains(&SocketHook::DnsConfigurationFree));
    let mut names: Vec<&str> = mac.iter().map(|h| symbol(*h)).collect();
    let n = names.len();
    names.sort();
    names.dedup();
    assert_eq!(names.len(), n);
    assert_eq!(symbol(SocketHook::ConnectNoCancel), "_connect$NOCANCEL");
}

#[test]
fn dir_stream_registered() {
    let mut dirs = OpenDirs::new();
    let (r, closes) = complete_fdopendir(&mut dirs, 30, 4, Some(12));
    assert_eq!(r, Detour::Success(12));
    assert!(closes.is_empty());
    assert_eq!(dirs.get(12), Some(DirStream { remote_dir_fd: 30, owner_fd: 4 }));
    assert_eq!(dirs.remove(12), Some(DirStream { remote_dir_fd: 30, owner_fd: 4 }));
    assert_eq!(dirs.get(12), None);
}

#[test]
fn dir_stream_placeholder_failure_closes_remote() {
    let mut dirs = OpenDirs::new();
    let (r, closes) = complete_fdopendir(&mut dirs, 30, 4, None);
    assert_eq!(r, Detour::Error(HookError::LocalFileCreation(30)));
    assert_eq!(closes, vec![30]);
    let (r, closes) = complete_fdopendir(&mut dirs, 31, 4, Some(-1));
    assert_eq!(r, Detour::Error(HookError::LocalFileCreation(31)));
    assert_eq!(closes, vec![31]);
    assert_eq!(dirs.get(0), None);
}

#[test]
fn dns_symbol_names() {
    assert_eq!(symbol(SocketHook::GetAddrInfo), "getaddrinfo");
    assert_eq!(symbol(SocketHook::FreeAddrInfo), "freeaddrinfo");
    assert_eq!(symbol(SocketHook::GetHostByName), "gethostbyname");
    assert_eq!(symbol(SocketHook::Socket), "socket");
}
