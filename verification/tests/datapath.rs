use sentinel_sidecar::bpf::{
    decode_original_dst, ignored_port_keys, ignored_ports, original_dst_key, Endpoint,
};
use sentinel_sidecar::byte_order::ByteOrder;
use sentinel_sidecar::datapath::{
    connect4, handle_sockops, ignored_port_key, try_connect4, Connect4Action, Connect4Context,
    CookieRecord, OriginalDst, SockOpsAction, SockOpsContext, SrcKey,
    BPF_SOCK_OPS_ACTIVE_ESTABLISHED_CB, BPF_SOCK_OPS_TCP_CONNECT_CB, IPPROTO_TCP, LOOPBACK_IP,
    PROXY_UID,
};
use sentinel_sidecar::bpf;

const LE: ByteOrder = ByteOrder::LittleEndian;

fn app_connect(user_ip4: u32, user_port: u32, cookie: u64) -> Connect4Context {
    Connect4Context {
        uid_gid: (1000u64 << 32) | 1000,
        protocol: IPPROTO_TCP,
        cgroup_ignored: false,
        user_ip4,
        user_port,
        port_ignored: false,
        cookie,
    }
}

#[test]
fn connect4_redirects_application_traffic() {
    // 142.250.1.2:80 as the kernel presents it on a little-endian host.
    let ctx = app_connect(0x0201_FA8E, 0x5000, 42);
    let out = connect4(LE, &ctx);
    assert_eq!(out.verdict, 1);
    assert_eq!(
        out.action,
        Connect4Action::Redirect {
            stash: CookieRecord {
                cookie: 42,
                dst: OriginalDst { ipv4_addr: 0x0201_FA8E, port: 0x5000 },
            },
            user_ip4: LOOPBACK_IP,
            user_port: 0x993A,
        }
    );
    assert_eq!(try_connect4(LE, &ctx), Ok(out.action));
}

#[test]
fn connect4_without_cookie_is_left_alone() {
    let out = connect4(LE, &app_connect(0x0201_FA8E, 0x5000, 0));
    assert_eq!(out.verdict, 1);
    assert_eq!(out.action, Connect4Action::Allow);
}

#[test]
fn connect4_leaves_sidecar_cgroup_alone() {
    let mut ctx = app_connect(0x0201_FA8E, 0x5000, 42);
    ctx.cgroup_ignored = true;
    let out = connect4(LE, &ctx);
    assert_eq!(out.verdict, 1);
    assert_eq!(out.action, Connect4Action::Allow);
}

#[test]
fn connect4_leaves_non_tcp_alone() {
    // A UDP socket connecting to 8.8.4.4:5000.
    let mut ctx = app_connect(0x0404_0808, 0x8813, 42);
    ctx.protocol = 17;
    let out = connect4(LE, &ctx);
    assert_eq!(out.verdict, 1);
    assert_eq!(out.action, Connect4Action::Allow);
}

#[test]
fn connect4_leaves_sidecar_uid_alone() {
    let mut ctx = app_connect(0x0201_FA8E, 0x5000, 42);
    ctx.uid_gid = (1337u64 << 32) | PROXY_UID as u64;
    assert_eq!(connect4(LE, &ctx).action, Connect4Action::Allow);
    // Only the lower half (the uid) counts.
    ctx.uid_gid = (PROXY_UID as u64) << 32;
    assert_ne!(connect4(LE, &ctx).action, Connect4Action::Allow);
}

#[test]
fn connect4_leaves_loopback_alone() {
    let ctx = app_connect(LOOPBACK_IP, 0x5000, 42);
    assert_eq!(connect4(LE, &ctx).action, Connect4Action::Allow);
}

#[test]
fn connect4_leaves_ignored_ports_alone() {
    let mut ctx = app_connect(0x0201_FA8E, 0xBB01, 42);
    ctx.port_ignored = true;
    assert_eq!(connect4(LE, &ctx).action, Connect4Action::Allow);
}

#[test]
fn ignored_port_key_takes_low_half() {
    assert_eq!(ignored_port_key(0x0001_1F90), 0x1F90);
    assert_eq!(ignored_port_key(0x5000), 0x5000);
}

#[test]
fn ignored_ports_are_configured_in_network_order() {
    assert_eq!(ignored_ports(), vec![6443, 10250, 53, 22, 8080]);
    assert_eq!(
        ignored_port_keys(LE),
        vec![6443u16.swap_bytes(), 10250u16.swap_bytes(), 53u16.swap_bytes(), 22u16.swap_bytes(), 8080u16.swap_bytes()]
    );
    assert_eq!(ignored_port_keys(ByteOrder::BigEndian), vec![6443, 10250, 53, 22, 8080]);
    // A connection to port 53 presents 0x3500; its key is configured.
    assert!(ignored_port_keys(LE).contains(&ignored_port_key(0x3500)));
    // A connection to port 80 presents 0x5000; its key is not.
    assert!(!ignored_port_keys(LE).contains(&ignored_port_key(0x5000)));
}

#[test]
fn sockops_records_established_intercepted_connection() {
    let dst = OriginalDst { ipv4_addr: 0x0201_FA8E, port: 0x5000 };
    let ctx = SockOpsContext {
        op: BPF_SOCK_OPS_ACTIVE_ESTABLISHED_CB,
        cookie: 42,
        stashed: Some(dst),
        local_ip4: 0x0500_000A,
        local_port: 40000,
    };
    let out = handle_sockops(LE, &ctx);
    assert_eq!(out.ret, 0);
    assert_eq!(
        out.action,
        SockOpsAction::RecordConnection {
            key: SrcKey { ip: 0x0500_000A, port: 40000u16.swap_bytes() },
            dst,
        }
    );
}

#[test]
fn sockops_ignores_connections_without_stash_or_cookie() {
    let base = SockOpsContext {
        op: BPF_SOCK_OPS_ACTIVE_ESTABLISHED_CB,
        cookie: 42,
        stashed: None,
        local_ip4: 0x0500_000A,
        local_port: 40000,
    };
    assert_eq!(handle_sockops(LE, &base).action, SockOpsAction::Nothing);
    let no_cookie = SockOpsContext {
        cookie: 0,
        stashed: Some(OriginalDst { ipv4_addr: 1, port: 2 }),
        ..base
    };
    assert_eq!(handle_sockops(LE, &no_cookie).action, SockOpsAction::Nothing);
}

#[test]
fn sockops_enables_state_callbacks_on_connect() {
    let ctx = SockOpsContext {
        op: BPF_SOCK_OPS_TCP_CONNECT_CB,
        cookie: 0,
        stashed: None,
        local_ip4: 0,
        local_port: 0,
    };
    let out = handle_sockops(LE, &ctx);
    assert_eq!(out.ret, 0);
    assert_eq!(out.action, SockOpsAction::EnableStateCallback { flags: 4 });
    let other = SockOpsContext { op: 5, ..ctx };
    assert_eq!(handle_sockops(LE, &other).action, SockOpsAction::Nothing);
}

#[test]
fn original_destination_survives_interception() {
    for order in [ByteOrder::LittleEndian, ByteOrder::BigEndian] {
        let dst = Endpoint { ip: 0x8EFA_0102, port: 80 };
        let src = Endpoint { ip: 0x0A00_0005, port: 40000 };
        let conv16 = |x: u16| if order == LE { x.swap_bytes() } else { x };
        let conv32 = |x: u32| if order == LE { x.swap_bytes() } else { x };
        let ctx = app_connect(conv32(dst.ip), conv16(dst.port) as u32, 7);
        let stash = match connect4(order, &ctx).action {
            Connect4Action::Redirect { stash: rec, .. } => rec,
            other => panic!("not redirected: {:?}", other),
        };
        assert_eq!(stash.cookie, 7);
        let est = SockOpsContext {
            op: BPF_SOCK_OPS_ACTIVE_ESTABLISHED_CB,
            cookie: stash.cookie,
            stashed: Some(stash.dst),
            local_ip4: conv32(src.ip),
            local_port: src.port as u32,
        };
        let (key, value) = match handle_sockops(order, &est).action {
            SockOpsAction::RecordConnection { key, dst } => (key, dst),
            other => panic!("not recorded: {:?}", other),
        };
        let user_key = original_dst_key(order, src.ip, src.port);
        assert_eq!((key.ip, key.port), (user_key.ipv4_addr, user_key.port));
        let read = bpf::OriginalDst { ipv4_addr: value.ipv4_addr, port: value.port };
        assert_eq!(decode_original_dst(order, &read), dst);
    }
}
