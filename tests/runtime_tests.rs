use mirrord_layer_core::addrinfo::AddrInfoAction;
use mirrord_layer_core::detour::errno_of;
use mirrord_layer_core::addrinfo::{FreeStrategy, ManagedAddrInfo};
use mirrord_layer_core::bridge::{Bridge, Inbound, InboundAction, LogLevel};
use mirrord_layer_core::config::ExternalProxyConfig;
use mirrord_layer_core::detour::{from_response, Bypass, Detour, HookError, ResponseError};
use mirrord_layer_core::operator::{check_config, check_no_port_locks, OperatorApiError, OperatorSessionTarget};
use mirrord_layer_core::placeholder::{new_placeholder_name, placeholder_name};

#[test]
fn own_address_list_is_released_here() {
    let mut reg = ManagedAddrInfo::new();
    reg.register(0x1000);
    assert_eq!(reg.release_chain(&[0x1000, 0x2000, 0x3000]), FreeStrategy::Owned);
    assert!(!reg.contains(0x1000));
    assert!(!reg.contains(0x2000));
    assert!(!reg.contains(0x3000));
}

#[test]
fn native_address_list_goes_native() {
    let mut reg = ManagedAddrInfo::new();
    reg.register(0x1000);
    assert_eq!(reg.release_chain(&[0x5000, 0x6000]), FreeStrategy::Native);
    assert!(reg.contains(0x1000));
    assert_eq!(reg.release_chain(&[0x1000]), FreeStrategy::Owned);
    assert_eq!(reg.release_chain(&[0x1000]), FreeStrategy::Native);
}

#[test]
fn replies_go_to_oldest_waiter() {
    let mut b = Bridge::new();
    assert!(b.submit(1));
    assert!(b.submit(2));
    assert_eq!(b.on_inbound(Inbound::Log(LogLevel::Warn)), InboundAction::Log(LogLevel::Warn));
    assert_eq!(b.on_inbound(Inbound::Reply), InboundAction::Deliver(1));
    assert_eq!(b.on_inbound(Inbound::Reply), InboundAction::Deliver(2));
    assert_eq!(b.on_inbound(Inbound::Reply), InboundAction::Drop);
}

#[test]
fn disconnect_fails_pending_and_later() {
    let mut b = Bridge::new();
    assert!(b.submit(1));
    assert!(b.submit(2));
    assert_eq!(b.on_inbound(Inbound::Closed), InboundAction::FailAll(vec![1, 2]));
    assert!(!b.is_connected());
    assert!(!b.submit(3));
    assert!(!b.submit(4));
    assert_eq!(b.disconnect(), Vec::<u64>::new());
}

#[test]
fn decode_error_ends_transport() {
    let mut b = Bridge::new();
    assert!(b.submit(7));
    assert_eq!(b.on_inbound(Inbound::DecodeError), InboundAction::FailAll(vec![7]));
    assert!(!b.submit(8));
}

#[test]
fn response_outcomes() {
    assert_eq!(from_response::<u8>(Ok(3), true), Detour::Success(3));
    assert_eq!(
        from_response::<u8>(Err(HookError::Response(ResponseError::NotImplemented)), true),
        Detour::Bypass(Bypass::NotImplemented)
    );
    assert_eq!(
        from_response::<u8>(Err(HookError::Response(ResponseError::NotImplemented)), false),
        Detour::Error(HookError::Response(ResponseError::NotImplemented))
    );
    assert_eq!(from_response::<u8>(Err(HookError::Disconnected), true), Detour::Error(HookError::Disconnected));
}

#[test]
fn placeholder_names() {
    assert_eq!(placeholder_name(0, b"abc"), b"0-abc".to_vec());
    assert_eq!(placeholder_name(1234, b"Zz9"), b"1234-Zz9".to_vec());
    let n = new_placeholder_name(56);
    assert_eq!(n.len(), 3 + 16);
    assert_eq!(&n[..3], b"56-");
    assert!(n[3..].iter().all(|c| c.is_ascii_alphanumeric()));
}

#[test]
fn external_proxy_defaults() {
    let c = ExternalProxyConfig::default();
    assert!(c.tls_enable);
    assert_eq!(c.start_idle_timeout, 60);
    assert_eq!(c.idle_timeout, 5);
    assert_eq!(c.log_level, None);
    assert_eq!(c.log_destination, None);
    assert!(c.json_log);
}

#[test]
fn operator_checks() {
    let v = "3.1.0".to_string();
    assert_eq!(check_config(false, None, &v), Ok(()));
    assert_eq!(check_config(true, Some(true), &v), Ok(()));
    assert_eq!(
        check_config(true, None, &v),
        Err(OperatorApiError::UnsupportedFeature { feature: "copy target".to_string(), operator_version: v.clone() })
    );
    assert_eq!(check_no_port_locks(None), Ok(()));
    assert_eq!(check_no_port_locks(Some(None)), Ok(()));
    assert_eq!(check_no_port_locks(Some(Some(0))), Ok(()));
    assert_eq!(check_no_port_locks(Some(Some(2))), Err(OperatorApiError::ConcurrentStealAbort));
    let t = OperatorSessionTarget::Raw("deploy/app".to_string());
    assert_ne!(t, OperatorSessionTarget::Copied("deploy/app".to_string()));
}

#[test]
fn null_address_list_goes_native() {
    let mut reg = ManagedAddrInfo::new();
    reg.register(0x1000);
    assert_eq!(reg.release_chain(&[]), FreeStrategy::Native);
    assert!(reg.contains(0x1000));
}

#[test]
fn getaddrinfo_outcomes() {
    let mut reg = ManagedAddrInfo::new();
    assert_eq!(reg.after_getaddrinfo(Detour::Bypass(Bypass::IgnoredFile)), AddrInfoAction::CallNative);
    assert!(!reg.contains(0x9000));
    assert_eq!(reg.after_getaddrinfo(Detour::Error(HookError::Disconnected)), AddrInfoAction::Fail(HookError::Disconnected));
    assert_eq!(reg.after_getaddrinfo(Detour::Success(0x9000)), AddrInfoAction::Return(0x9000));
    assert!(reg.contains(0x9000));
    assert_eq!(reg.release_chain(&[0x9000, 0x9100]), FreeStrategy::Owned);
    assert!(!reg.contains(0x9000));
}

#[test]
fn error_numbers() {
    assert_eq!(errno_of(&HookError::BadPointer), 14);
    assert_eq!(errno_of(&HookError::NullPointer), 14);
    assert_eq!(errno_of(&HookError::BadFlag), 22);
    assert_eq!(errno_of(&HookError::EmptyPath), 2);
    assert_eq!(errno_of(&HookError::BadDescriptor), 9);
    assert_eq!(errno_of(&HookError::Response(ResponseError::Remote(13))), 13);
    assert_eq!(errno_of(&HookError::Response(ResponseError::NotImplemented)), 38);
    assert_eq!(errno_of(&HookError::Disconnected), 5);
    assert_eq!(errno_of(&HookError::LocalFileCreation(3)), 5);
}
