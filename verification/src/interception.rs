//! Laws of the interception path as a whole: what the kernel hooks record and
//! what the sidecar looks up and decodes fit together.
use vstd::prelude::*;

use crate::bpf;
use crate::bpf::{
    spec_decode_original_dst, spec_ignored_port_keys, spec_ignored_ports, spec_original_dst_key,
    Endpoint,
};
use crate::byte_order::{
    lemma_network_u16_round_trip, lemma_network_u32_round_trip, spec_from_network_u16,
    spec_from_network_u32, spec_to_network_u16, spec_to_network_u32, ByteOrder,
};
use crate::proxy::{
    spec_step, ConnectionAction, ConnectionEvent, ConnectionState, PeerAddr,
};
use crate::datapath::{
    spec_connect4_action, spec_connect4_passes_through, spec_ignored_port_key,
    spec_sockops_action, Connect4Action, Connect4Context, CookieRecord, OriginalDst,
    SockOpsAction, SockOpsContext, SrcKey, BPF_SOCK_OPS_ACTIVE_ESTABLISHED_CB, IPPROTO_TCP, LOOPBACK_IP,
    PROXY_PORT,
};

verus! {

/// The `connect4` context of a TCP connection to `dst` (host byte order) as
/// the kernel presents it: destination address and port in network byte order.
pub open spec fn spec_connect_to(
    order: ByteOrder,
    dst: Endpoint,
    uid_gid: u64,
    cgroup_ignored: bool,
    port_ignored: bool,
    cookie: u64,
) -> Connect4Context {
    Connect4Context {
        uid_gid,
        protocol: IPPROTO_TCP,
        cgroup_ignored,
        user_ip4: spec_to_network_u32(order, dst.ip),
        user_port: spec_to_network_u16(order, dst.port) as u32,
        port_ignored,
        cookie,
    }
}

/// The `sock_ops` context of the establishment of a connection from `src`
/// (host byte order): local address in network byte order, local port in
/// host byte order, and what `COOKIE_ORIG_DST` holds under its cookie.
pub open spec fn spec_established_from(
    order: ByteOrder,
    src: Endpoint,
    cookie: u64,
    stashed: Option<OriginalDst>,
) -> SockOpsContext {
    SockOpsContext {
        op: BPF_SOCK_OPS_ACTIVE_ESTABLISHED_CB,
        cookie,
        stashed,
        local_ip4: spec_to_network_u32(order, src.ip),
        local_port: src.port as u32,
    }
}

/// A kernel-side map key read by the sidecar (the two share one layout).
pub open spec fn spec_key_as_read(key: SrcKey) -> bpf::SrcKey {
    bpf::SrcKey { ipv4_addr: key.ip, port: key.port }
}

/// A kernel-side map value read by the sidecar (the two share one layout).
pub open spec fn spec_dst_as_read(dst: OriginalDst) -> bpf::OriginalDst {
    bpf::OriginalDst { ipv4_addr: dst.ipv4_addr, port: dst.port }
}

/// Law: the original destination survives interception.  On a host of any
/// byte order, when `connect4` intercepts a connection to `dst` (only
/// connections with a cookie are intercepted), it stashes an entry under
/// that cookie and redirects the
/// connection to the sidecar; when the connection from `src` is established,
/// `sock_ops` publishes that entry under exactly the key that the sidecar
/// computes from the peer address `src` of the accepted connection; and the
/// sidecar decodes the entry to `dst`.
pub proof fn lemma_original_destination_preserved(
    order: ByteOrder,
    dst: Endpoint,
    src: Endpoint,
    uid_gid: u64,
    cgroup_ignored: bool,
    port_ignored: bool,
    cookie: u64,
)
    requires
        !spec_connect4_passes_through(
            spec_connect_to(order, dst, uid_gid, cgroup_ignored, port_ignored, cookie),
        ),
    ensures
        ({
            let ctx = spec_connect_to(order, dst, uid_gid, cgroup_ignored, port_ignored, cookie);
            let stashed = OriginalDst { ipv4_addr: ctx.user_ip4, port: ctx.user_port as u16 };
            let est = spec_established_from(order, src, cookie, Some(stashed));
            &&& spec_connect4_action(order, ctx) == Connect4Action::Redirect {
                stash: CookieRecord { cookie, dst: stashed },
                user_ip4: LOOPBACK_IP,
                user_port: spec_to_network_u16(order, PROXY_PORT) as u32,
            }
            &&& spec_sockops_action(order, est) is RecordConnection
            &&& spec_key_as_read(spec_sockops_action(order, est)->key) == spec_original_dst_key(
                order,
                src.ip,
                src.port,
            )
            &&& spec_sockops_action(order, est)->dst == stashed
            &&& spec_decode_original_dst(order, spec_dst_as_read(stashed)) == dst
        }),
{
    lemma_network_u32_round_trip(order, dst.ip, dst.ip);
    lemma_network_u16_round_trip(order, dst.port, dst.port);
    let ctx = spec_connect_to(order, dst, uid_gid, cgroup_ignored, port_ignored, cookie);
    assert((spec_to_network_u16(order, dst.port) as u32) as u16 == spec_to_network_u16(
        order,
        dst.port,
    ));
    assert((src.port as u32) as u16 == src.port);
}

/// Law: a connection that `sock_ops` sees established is published only when
/// `connect4` stashed a destination under its cookie, and then under the key
/// that the sidecar computes from the connection's source, with the stashed
/// value unchanged.
pub proof fn lemma_only_intercepted_connections_published(
    order: ByteOrder,
    src: Endpoint,
    cookie: u64,
    stashed: Option<OriginalDst>,
)
    ensures
        spec_sockops_action(order, spec_established_from(order, src, cookie, stashed))
            is RecordConnection <==> (cookie != 0 && stashed is Some),
        spec_sockops_action(order, spec_established_from(order, src, cookie, stashed))
            is RecordConnection ==> {
            let a = spec_sockops_action(order, spec_established_from(order, src, cookie, stashed));
            &&& spec_key_as_read(a->key) == spec_original_dst_key(order, src.ip, src.port)
            &&& Some(a->dst) == stashed
        },
{
    assert((src.port as u32) as u16 == src.port);
}

/// Law: the port check of `connect4` hits exactly for the configured ports.
/// The kernel presents a destination port `q` in network byte order; the
/// key that `connect4` looks up for it is among the keys that the sidecar
/// writes into `IGNORED_PORTS` if and only if `q` is an ignored port.
pub proof fn lemma_ignored_ports_match(order: ByteOrder, q: u16)
    ensures
        spec_ignored_port_keys(order).contains(
            spec_ignored_port_key(spec_to_network_u16(order, q) as u32),
        ) <==> spec_ignored_ports().contains(q),
{
    let key = spec_ignored_port_key(spec_to_network_u16(order, q) as u32);
    assert(key == spec_to_network_u16(order, q));
    let ports = spec_ignored_ports();
    let keys = spec_ignored_port_keys(order);
    if keys.contains(key) {
        let i = choose|i: int| 0 <= i < keys.len() && keys[i] == key;
        lemma_network_u16_round_trip(order, ports[i], q);
        assert(ports[i] == q);
    }
    if ports.contains(q) {
        let i = choose|i: int| 0 <= i < ports.len() && ports[i] == q;
        assert(keys[i] == key);
    }
}

/// Law: a redirected connection goes to the sidecar.  On every host the
/// rewritten port reads back as 15001; on a little-endian host the rewritten
/// address reads back as `127.0.0.1`, and a connection to `127.0.0.1` is one
/// that `connect4` leaves alone.
pub proof fn lemma_redirect_targets_sidecar(order: ByteOrder, ctx: Connect4Context)
    ensures
        spec_connect4_action(order, ctx) matches Connect4Action::Redirect { user_port, .. }
            ==> spec_from_network_u16(order, user_port as u16) == PROXY_PORT,
        spec_from_network_u32(ByteOrder::LittleEndian, LOOPBACK_IP) == 0x7F00_0001u32,
        spec_to_network_u32(ByteOrder::LittleEndian, 0x7F00_0001u32) == LOOPBACK_IP,
{
    lemma_network_u16_round_trip(order, PROXY_PORT, PROXY_PORT);
    assert((spec_to_network_u16(order, PROXY_PORT) as u32) as u16 == spec_to_network_u16(
        order,
        PROXY_PORT,
    ));
}

/// Law: the proxy reaches the original destination.  For a connection to
/// `dst` intercepted by `connect4` and accepted by the sidecar from `src`
/// (with a non-zero port) in eBPF mode, the proxy looks up the key under
/// which `sock_ops` published the stashed entry, and, given that entry, goes
/// on to check flow control for `dst` itself.
pub proof fn lemma_proxy_recovers_original_destination(
    order: ByteOrder,
    dst: Endpoint,
    src: Endpoint,
    uid_gid: u64,
    cgroup_ignored: bool,
    port_ignored: bool,
    cookie: u64,
)
    requires
        !spec_connect4_passes_through(
            spec_connect_to(order, dst, uid_gid, cgroup_ignored, port_ignored, cookie),
        ),
        src.port != 0,
    ensures
        ({
            let ctx = spec_connect_to(order, dst, uid_gid, cgroup_ignored, port_ignored, cookie);
            let stashed = OriginalDst { ipv4_addr: ctx.user_ip4, port: ctx.user_port as u16 };
            let published = spec_sockops_action(
                order,
                spec_established_from(order, src, cookie, Some(stashed)),
            );
            let start = spec_step(
                order,
                ConnectionState::Accepted,
                ConnectionEvent::Start { peer: PeerAddr::V4 { ip: src.ip, port: src.port }, ebpf: true },
            );
            let found = spec_step(
                order,
                start.0,
                ConnectionEvent::MapLookup { found: Some(spec_dst_as_read(published->dst)) },
            );
            &&& start.1 == ConnectionAction::LookupMap { key: spec_key_as_read(published->key) }
            &&& found.0 == ConnectionState::AwaitingFlowCheck { target: dst }
            &&& found.1 == ConnectionAction::CheckFlow { target: dst }
        }),
{
    lemma_original_destination_preserved(
        order,
        dst,
        src,
        uid_gid,
        cgroup_ignored,
        port_ignored,
        cookie,
    );
}

} // verus!
