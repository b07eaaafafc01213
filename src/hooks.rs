use vstd::prelude::*;

verus! {

/// The platform the layer is installed on.
#[derive(Debug, Clone, Copy, PartialEq, Eq)]
pub enum Platform {
    Linux,
    MacOs,
}

/// A native entry point that the socket layer replaces.
#[derive(Debug, Clone, Copy, PartialEq, Eq)]
pub enum SocketHook {
    Socket,
    RecvFrom,
    SendTo,
    RecvMsg,
    SendMsg,
    Bind,
    Listen,
    Connect,
    ConnectNoCancel,
    Fcntl,
    Dup,
    Dup2,
    GetPeerName,
    GetSockName,
    GetHostName,
    UvAccept4,
    Accept4,
    Dup3,
    Accept,
    AcceptNoCancel,
    GetHostByName,
    GetAddrInfo,
    FreeAddrInfo,
    DnsConfigurationCopy,
    DnsConfigurationFree,
}

/// The hooks installed whatever the configuration, in installation order.
pub open spec fn base_hooks(platform: Platform) -> Seq<SocketHook> {
    let common = seq![
        SocketHook::Socket,
        SocketHook::RecvFrom,
        SocketHook::SendTo,
        SocketHook::RecvMsg,
        SocketHook::SendMsg,
        SocketHook::Bind,
        SocketHook::Listen,
        SocketHook::Connect,
        SocketHook::ConnectNoCancel,
        SocketHook::Fcntl,
        SocketHook::Dup,
        SocketHook::Dup2,
        SocketHook::GetPeerName,
        SocketHook::GetSockName,
        SocketHook::GetHostName,
    ];
    let linux = if platform == Platform::Linux {
        seq![SocketHook::UvAccept4, SocketHook::Accept4, SocketHook::Dup3]
    } else {
        Seq::empty()
    };
    common + linux + seq![SocketHook::Accept, SocketHook::AcceptNoCancel]
}

/// The name-resolution hooks, installed only when names are resolved remotely.
pub open spec fn dns_hooks(platform: Platform) -> Seq<SocketHook> {
    let common = seq![SocketHook::GetHostByName, SocketHook::GetAddrInfo, SocketHook::FreeAddrInfo];
    if platform == Platform::MacOs {
        common + seq![SocketHook::DnsConfigurationCopy, SocketHook::DnsConfigurationFree]
    } else {
        common
    }
}

/// The socket hooks to install, in order. The name-resolution hooks come
/// last, and only with `remote_dns`; otherwise those symbols stay untouched.
pub fn socket_hooks(platform: Platform, remote_dns: bool) -> (r: Vec<SocketHook>)
    ensures
        r@ == base_hooks(platform) + (if remote_dns {
            dns_hooks(platform)
        } else {
            Seq::<SocketHook>::empty()
        }),
{
    let mut v: Vec<SocketHook> = vec![
        SocketHook::Socket,
        SocketHook::RecvFrom,
        SocketHook::SendTo,
        SocketHook::RecvMsg,
        SocketHook::SendMsg,
        SocketHook::Bind,
        SocketHook::Listen,
        SocketHook::Connect,
        SocketHook::ConnectNoCancel,
        SocketHook::Fcntl,
        SocketHook::Dup,
        SocketHook::Dup2,
        SocketHook::GetPeerName,
        SocketHook::GetSockName,
        SocketHook::GetHostName,
    ];
    let linux = match platform {
        Platform::Linux => true,
        Platform::MacOs => false,
    };
    if linux {
        v.push(SocketHook::UvAccept4);
        v.push(SocketHook::Accept4);
        v.push(SocketHook::Dup3);
    }
    v.push(SocketHook::Accept);
    v.push(SocketHook::AcceptNoCancel);
    assert(v@ =~= base_hooks(platform));
    let ghost base = v@;
    if remote_dns {
        v.push(SocketHook::GetHostByName);
        v.push(SocketHook::GetAddrInfo);
        v.push(SocketHook::FreeAddrInfo);
        if !linux {
            v.push(SocketHook::DnsConfigurationCopy);
            v.push(SocketHook::DnsConfigurationFree);
        }
        assert(v@ =~= base + dns_hooks(platform));
    } else {
        assert(v@ =~= base + Seq::<SocketHook>::empty());
    }
    v
}

/// The name of the native symbol a hook replaces.
pub open spec fn symbol_name(hook: SocketHook) -> Seq<char> {
    match hook {
        SocketHook::Socket => "socket"@,
        SocketHook::RecvFrom => "recvfrom"@,
        SocketHook::SendTo => "sendto"@,
        SocketHook::RecvMsg => "recvmsg"@,
        SocketHook::SendMsg => "sendmsg"@,
        SocketHook::Bind => "bind"@,
        SocketHook::Listen => "listen"@,
        SocketHook::Connect => "connect"@,
        SocketHook::ConnectNoCancel => "_connect$NOCANCEL"@,
        SocketHook::Fcntl => "fcntl"@,
        SocketHook::Dup => "dup"@,
        SocketHook::Dup2 => "dup2"@,
        SocketHook::GetPeerName => "getpeername"@,
        SocketHook::GetSockName => "getsockname"@,
        SocketHook::GetHostName => "gethostname"@,
        SocketHook::UvAccept4 => "uv__accept4"@,
        SocketHook::Accept4 => "accept4"@,
        SocketHook::Dup3 => "dup3"@,
        SocketHook::Accept => "accept"@,
        SocketHook::AcceptNoCancel => "_accept$NOCANCEL"@,
        SocketHook::GetHostByName => "gethostbyname"@,
        SocketHook::GetAddrInfo => "getaddrinfo"@,
        SocketHook::FreeAddrInfo => "freeaddrinfo"@,
        SocketHook::DnsConfigurationCopy => "dns_configuration_copy"@,
        SocketHook::DnsConfigurationFree => "dns_configuration_free"@,
    }
}

/// The symbol a hook replaces.
pub fn symbol(hook: SocketHook) -> (r: &'static str)
    ensures
        r@ == symbol_name(hook),
{
    match hook {
        SocketHook::Socket => "socket",
        SocketHook::RecvFrom => "recvfrom",
        SocketHook::SendTo => "sendto",
        SocketHook::RecvMsg => "recvmsg",
        SocketHook::SendMsg => "sendmsg",
        SocketHook::Bind => "bind",
        SocketHook::Listen => "listen",
        SocketHook::Connect => "connect",
        SocketHook::ConnectNoCancel => "_connect$NOCANCEL",
        SocketHook::Fcntl => "fcntl",
        SocketHook::Dup => "dup",
        SocketHook::Dup2 => "dup2",
        SocketHook::GetPeerName => "getpeername",
        SocketHook::GetSockName => "getsockname",
        SocketHook::GetHostName => "gethostname",
        SocketHook::UvAccept4 => "uv__accept4",
        SocketHook::Accept4 => "accept4",
        SocketHook::Dup3 => "dup3",
        SocketHook::Accept => "accept",
        SocketHook::AcceptNoCancel => "_accept$NOCANCEL",
        SocketHook::GetHostByName => "gethostbyname",
        SocketHook::GetAddrInfo => "getaddrinfo",
        SocketHook::FreeAddrInfo => "freeaddrinfo",
        SocketHook::DnsConfigurationCopy => "dns_configuration_copy",
        SocketHook::DnsConfigurationFree => "dns_configuration_free",
    }
}

/// Each hook is installed once: no entry point appears twice in the list.
pub proof fn lemma_socket_hooks_distinct(platform: Platform, remote_dns: bool)
    ensures
        (base_hooks(platform) + (if remote_dns {
            dns_hooks(platform)
        } else {
            Seq::<SocketHook>::empty()
        })).no_duplicates(),
{
    let s = base_hooks(platform) + (if remote_dns {
        dns_hooks(platform)
    } else {
        Seq::<SocketHook>::empty()
    });
    assert forall|i: int, j: int| 0 <= i < s.len() && 0 <= j < s.len() && i != j implies s[i]
        != s[j] by {
        lemma_hook_order(platform, remote_dns, i, j);
    }
}

spec fn hook_index(h: SocketHook) -> int {
    match h {
        SocketHook::Socket => 0,
        SocketHook::RecvFrom => 1,
        SocketHook::SendTo => 2,
        SocketHook::RecvMsg => 3,
        SocketHook::SendMsg => 4,
        SocketHook::Bind => 5,
        SocketHook::Listen => 6,
        SocketHook::Connect => 7,
        SocketHook::ConnectNoCancel => 8,
        SocketHook::Fcntl => 9,
        SocketHook::Dup => 10,
        SocketHook::Dup2 => 11,
        SocketHook::GetPeerName => 12,
        SocketHook::GetSockName => 13,
        SocketHook::GetHostName => 14,
        SocketHook::UvAccept4 => 15,
        SocketHook::Accept4 => 16,
        SocketHook::Dup3 => 17,
        SocketHook::Accept => 18,
        SocketHook::AcceptNoCancel => 19,
        SocketHook::GetHostByName => 20,
        SocketHook::GetAddrInfo => 21,
        SocketHook::FreeAddrInfo => 22,
        SocketHook::DnsConfigurationCopy => 23,
        SocketHook::DnsConfigurationFree => 24,
    }
}

/// The list is in strictly increasing `hook_index` order.
proof fn lemma_hook_order(platform: Platform, remote_dns: bool, i: int, j: int)
    requires
        ({
            let s = base_hooks(platform) + (if remote_dns {
                dns_hooks(platform)
            } else {
                Seq::<SocketHook>::empty()
            });
            0 <= i < j < s.len() || 0 <= j < i < s.len()
        }),
    ensures
        ({
            let s = base_hooks(platform) + (if remote_dns {
                dns_hooks(platform)
            } else {
                Seq::<SocketHook>::empty()
            });
            hook_index(s[i]) != hook_index(s[j])
        }),
{
    let s = base_hooks(platform) + (if remote_dns {
        dns_hooks(platform)
    } else {
        Seq::<SocketHook>::empty()
    });
    assert forall|k: int| 0 <= k < s.len() - 1 implies hook_index(#[trigger] s[k]) < hook_index(
        s[k + 1],
    ) by {
        if platform == Platform::Linux {
            if remote_dns {
                assert(s =~= seq![
                    SocketHook::Socket, SocketHook::RecvFrom, SocketHook::SendTo,
                    SocketHook::RecvMsg, SocketHook::SendMsg, SocketHook::Bind,
                    SocketHook::Listen, SocketHook::Connect, SocketHook::ConnectNoCancel,
                    SocketHook::Fcntl, SocketHook::Dup, SocketHook::Dup2,
                    SocketHook::GetPeerName, SocketHook::GetSockName, SocketHook::GetHostName,
                    SocketHook::UvAccept4, SocketHook::Accept4, SocketHook::Dup3,
                    SocketHook::Accept, SocketHook::AcceptNoCancel, SocketHook::GetHostByName,
                    SocketHook::GetAddrInfo, SocketHook::FreeAddrInfo,
                ]);
            } else {
                assert(s =~= seq![
                    SocketHook::Socket, SocketHook::RecvFrom, SocketHook::SendTo,
                    SocketHook::RecvMsg, SocketHook::SendMsg, SocketHook::Bind,
                    SocketHook::Listen, SocketHook::Connect, SocketHook::ConnectNoCancel,
                    SocketHook::Fcntl, SocketHook::Dup, SocketHook::Dup2,
                    SocketHook::GetPeerName, SocketHook::GetSockName, SocketHook::GetHostName,
                    SocketHook::UvAccept4, SocketHook::Accept4, SocketHook::Dup3,
                    SocketHook::Accept, SocketHook::AcceptNoCancel,
                ]);
            }
        } else {
            if remote_dns {
                assert(s =~= seq![
                    SocketHook::Socket, SocketHook::RecvFrom, SocketHook::SendTo,
                    SocketHook::RecvMsg, SocketHook::SendMsg, SocketHook::Bind,
                    SocketHook::Listen, SocketHook::Connect, SocketHook::ConnectNoCancel,
                    SocketHook::Fcntl, SocketHook::Dup, SocketHook::Dup2,
                    SocketHook::GetPeerName, SocketHook::GetSockName, SocketHook::GetHostName,
                    SocketHook::Accept, SocketHook::AcceptNoCancel, SocketHook::GetHostByName,
                    SocketHook::GetAddrInfo, SocketHook::FreeAddrInfo,
                    SocketHook::DnsConfigurationCopy, SocketHook::DnsConfigurationFree,
                ]);
            } else {
                assert(s =~= seq![
                    SocketHook::Socket, SocketHook::RecvFrom, SocketHook::SendTo,
                    SocketHook::RecvMsg, SocketHook::SendMsg, SocketHook::Bind,
                    SocketHook::Listen, SocketHook::Connect, SocketHook::ConnectNoCancel,
                    SocketHook::Fcntl, SocketHook::Dup, SocketHook::Dup2,
                    SocketHook::GetPeerName, SocketHook::GetSockName, SocketHook::GetHostName,
                    SocketHook::Accept, SocketHook::AcceptNoCancel,
                ]);
            }
        }
    }
    lemma_increasing(s, i, j);
}

proof fn lemma_increasing(s: Seq<SocketHook>, i: int, j: int)
    requires
        forall|k: int| 0 <= k < s.len() - 1 ==> hook_index(#[trigger] s[k]) < hook_index(s[k + 1]),
        0 <= i < j < s.len() || 0 <= j < i < s.len(),
    ensures
        hook_index(s[i]) != hook_index(s[j]),
{
    if i < j {
        lemma_increasing_lt(s, i, j);
    } else {
        lemma_increasing_lt(s, j, i);
    }
}

proof fn lemma_increasing_lt(s: Seq<SocketHook>, i: int, j: int)
    requires
        forall|k: int| 0 <= k < s.len() - 1 ==> hook_index(#[trigger] s[k]) < hook_index(s[k + 1]),
        0 <= i < j < s.len(),
    ensures
        hook_index(s[i]) < hook_index(s[j]),
    decreases j - i,
{
    if i + 1 < j {
        lemma_increasing_lt(s, i, j - 1);
        assert(hook_index(s[j - 1]) < hook_index(s[j]));
    } else {
        assert(hook_index(s[i]) < hook_index(s[i + 1]));
    }
}

} // verus!
