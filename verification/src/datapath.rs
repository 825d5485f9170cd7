//! Decisions of the kernel hooks that intercept outbound TCP connections.
//!
//! Two hooks cooperate through two kernel maps:
//! - the `connect4` hook runs on every IPv4 `connect()` of the pod; unless
//!   the connection must be left alone, it stashes the original destination
//!   under the socket cookie and rewrites the destination to the sidecar
//!   (`127.0.0.1:15001`);
//! - the `sock_ops` hook runs on TCP events; when an intercepted connection
//!   becomes established it copies the stashed destination into the table
//!   keyed by the connection's source address and port, where the sidecar
//!   looks it up.
//!
//! Each hook is a function from what the kernel hands it (context fields and
//! map lookups) to a verdict and the map writes and context rewrites that the
//! hook performs.
use vstd::prelude::*;

use crate::byte_order::{spec_to_network_u16, to_network_u16, ByteOrder};

verus! {

/// User id under which the sidecar runs; its own connections are not redirected.
pub const PROXY_UID: u32 = 1337;

/// Port on which the sidecar accepts redirected connections.
pub const PROXY_PORT: u16 = 15001;

/// `127.0.0.1` as the kernel stores it in `user_ip4`, read natively on a
/// little-endian host.
pub const LOOPBACK_IP: u32 = 0x0100007F;

/// Protocol number of TCP, the only protocol whose connections are intercepted.
pub const IPPROTO_TCP: u32 = 6;

/// `sock_ops` operation: an active open is about to send its SYN.
pub const BPF_SOCK_OPS_TCP_CONNECT_CB: u32 = 3;

/// `sock_ops` operation: an active open has become established.
pub const BPF_SOCK_OPS_ACTIVE_ESTABLISHED_CB: u32 = 4;

/// `sock_ops` callback flag that asks for TCP state-change callbacks.
pub const BPF_SOCK_OPS_STATE_CB_FLAG: u32 = 4;

/// Where a connection originally wanted to go, as stored in the kernel maps:
/// address and port in network byte order.
#[derive(Clone, Copy, Debug, PartialEq, Eq, Structural)]
pub struct OriginalDst {
    pub ipv4_addr: u32,
    pub port: u16,
}

/// Source address and port of an established connection, in network byte
/// order: the key under which the original destination is published.
#[derive(Clone, Copy, Debug, PartialEq, Eq, Structural)]
pub struct SrcKey {
    pub ip: u32,
    pub port: u16,
}

/// What the `connect4` hook reads from the kernel.
#[derive(Clone, Copy, Debug, PartialEq, Eq, Structural)]
pub struct Connect4Context {
    /// `bpf_get_current_uid_gid()`: gid in the upper half, uid in the lower.
    pub uid_gid: u64,
    /// The socket's protocol (`protocol` of the socket address context).
    pub protocol: u32,
    /// Whether the caller's cgroup id is in `IGNORED_CGROUPS`.
    pub cgroup_ignored: bool,
    /// Destination address (`user_ip4`), network byte order.
    pub user_ip4: u32,
    /// Destination port (`user_port`), network byte order in the low 16 bits.
    pub user_port: u32,
    /// Whether `ignored_port_key(user_port)` is in `IGNORED_PORTS`.
    pub port_ignored: bool,
    /// The socket cookie (0 when the kernel has none).
    pub cookie: u64,
}

/// An original destination stashed under a socket cookie.
#[derive(Clone, Copy, Debug, PartialEq, Eq, Structural)]
pub struct CookieRecord {
    pub cookie: u64,
    pub dst: OriginalDst,
}

/// What the `connect4` hook does to the connection.
#[derive(Clone, Copy, Debug, PartialEq, Eq, Structural)]
pub enum Connect4Action {
    /// Leave the destination untouched.
    Allow,
    /// Insert `stash` into `COOKIE_ORIG_DST`, then rewrite the destination to
    /// `user_ip4:user_port`.
    Redirect { stash: CookieRecord, user_ip4: u32, user_port: u32 },
}

/// The verdict returned to the kernel (1 lets the connection proceed) and the
/// effect of the hook.
#[derive(Clone, Copy, Debug, PartialEq, Eq, Structural)]
pub struct Connect4Outcome {
    pub verdict: i32,
    pub action: Connect4Action,
}

/// What the `sock_ops` hook reads from the kernel.
#[derive(Clone, Copy, Debug, PartialEq, Eq, Structural)]
pub struct SockOpsContext {
    /// The operation that triggered the hook.
    pub op: u32,
    /// The socket cookie (0 when the kernel has none).
    pub cookie: u64,
    /// `COOKIE_ORIG_DST` looked up under `cookie`.
    pub stashed: Option<OriginalDst>,
    /// Local (source) address, network byte order.
    pub local_ip4: u32,
    /// Local (source) port, host byte order.
    pub local_port: u32,
}

/// What the `sock_ops` hook does.
#[derive(Clone, Copy, Debug, PartialEq, Eq, Structural)]
pub enum SockOpsAction {
    /// Nothing.
    Nothing,
    /// Insert `key -> dst` into `CONNECT_ORIG_DST`.
    RecordConnection { key: SrcKey, dst: OriginalDst },
    /// Call `bpf_sock_ops_cb_flags_set` with `flags`.
    EnableStateCallback { flags: i32 },
}

/// The value returned to the kernel and the effect of the hook.
#[derive(Clone, Copy, Debug, PartialEq, Eq, Structural)]
pub struct SockOpsOutcome {
    pub ret: u32,
    pub action: SockOpsAction,
}

/// Whether the `connect4` hook must leave the connection alone: anything but
/// TCP, the sidecar's own traffic (its cgroup or its uid), loopback
/// destinations, destination ports on the ignore list, and sockets without a
/// cookie (whose original destination could not be kept).
pub open spec fn spec_connect4_passes_through(ctx: Connect4Context) -> bool {
    ||| ctx.protocol != IPPROTO_TCP
    ||| ctx.cookie == 0
    ||| ctx.cgroup_ignored
    ||| ctx.uid_gid as u32 == PROXY_UID
    ||| ctx.user_ip4 == LOOPBACK_IP
    ||| ctx.port_ignored
}

/// The original destination of a connection as `connect4` records it.
pub open spec fn spec_original_dst_of(ctx: Connect4Context) -> OriginalDst {
    OriginalDst { ipv4_addr: ctx.user_ip4, port: ctx.user_port as u16 }
}

/// The effect of the `connect4` hook.
pub open spec fn spec_connect4_action(order: ByteOrder, ctx: Connect4Context) -> Connect4Action {
    if spec_connect4_passes_through(ctx) {
        Connect4Action::Allow
    } else {
        Connect4Action::Redirect {
            stash: CookieRecord { cookie: ctx.cookie, dst: spec_original_dst_of(ctx) },
            user_ip4: LOOPBACK_IP,
            user_port: spec_to_network_u16(order, PROXY_PORT) as u32,
        }
    }
}

/// The key of `IGNORED_PORTS` that `connect4` looks up for a destination
/// port as the kernel stores it.
pub open spec fn spec_ignored_port_key(user_port: u32) -> u16 {
    user_port as u16
}

/// The key of `IGNORED_PORTS` for the destination port `user_port` (the low
/// 16 bits, which hold the network-order port).
pub fn ignored_port_key(user_port: u32) -> (key: u16)
    ensures
        key == spec_ignored_port_key(user_port),
        key == user_port % 0x1_0000,
{
    let key = user_port as u16;
    assert(key == user_port % 0x1_0000) by (bit_vector)
        requires
            key == user_port as u16,
    ;
    key
}

/// The decision of the `connect4` hook, which never fails.
pub fn try_connect4(order: ByteOrder, ctx: &Connect4Context) -> (r: Result<Connect4Action, i32>)
    ensures
        r == Ok::<Connect4Action, i32>(spec_connect4_action(order, *ctx)),
{
    // The caller's uid is the lower half of `uid_gid`.
    let uid = ctx.uid_gid as u32;
    // Only TCP connections are intercepted.
    if ctx.protocol != IPPROTO_TCP {
        return Ok(Connect4Action::Allow);
    }
    // Traffic of the sidecar's own cgroup.
    if ctx.cgroup_ignored {
        return Ok(Connect4Action::Allow);
    }
    // Traffic of the sidecar's user.
    if uid == PROXY_UID {
        return Ok(Connect4Action::Allow);
    }
    // Loopback destinations.
    if ctx.user_ip4 == LOOPBACK_IP {
        return Ok(Connect4Action::Allow);
    }
    // Ports on the ignore list.
    if ctx.port_ignored {
        return Ok(Connect4Action::Allow);
    }
    // Without a cookie the original destination could not be kept.
    if ctx.cookie == 0 {
        return Ok(Connect4Action::Allow);
    }
    let orig_dst = OriginalDst { ipv4_addr: ctx.user_ip4, port: ctx.user_port as u16 };
    let stash = CookieRecord { cookie: ctx.cookie, dst: orig_dst };
    let new_port = to_network_u16(order, 15001u16);
    Ok(Connect4Action::Redirect { stash, user_ip4: LOOPBACK_IP, user_port: new_port as u32 })
}

/// The `connect4` hook: the verdict is 1 (let the connection proceed, to its
/// original or rewritten destination), and the effect is that of
/// [`try_connect4`].
///
/// A connection is left alone exactly when it is not TCP, comes from the
/// sidecar (its cgroup or its uid), goes to loopback, goes to an ignored
/// port, or has no cookie; otherwise its original destination is stashed
/// under its cookie and it is redirected to `127.0.0.1:15001`.  Every
/// redirected connection thus keeps its original destination.
pub fn connect4(order: ByteOrder, ctx: &Connect4Context) -> (out: Connect4Outcome)
    ensures
        out.verdict == 1,
        out.action == spec_connect4_action(order, *ctx),
        out.action == Connect4Action::Allow <==> spec_connect4_passes_through(*ctx),
        out.action is Redirect ==> out.action->stash == (CookieRecord {
            cookie: ctx.cookie,
            dst: spec_original_dst_of(*ctx),
        }),
        out.action is Redirect ==> ctx.cookie != 0,
{
    match try_connect4(order, ctx) {
        Ok(action) => Connect4Outcome { verdict: 1, action },
        Err(ret) => Connect4Outcome { verdict: ret, action: Connect4Action::Allow },
    }
}

/// The key under which `sock_ops` publishes a connection: its local address
/// as the kernel gives it, and its local port converted to network order.
pub open spec fn spec_sockops_key(order: ByteOrder, local_ip4: u32, local_port: u32) -> SrcKey {
    SrcKey { ip: local_ip4, port: spec_to_network_u16(order, local_port as u16) }
}

/// The effect of the `sock_ops` hook.
pub open spec fn spec_sockops_action(order: ByteOrder, ctx: SockOpsContext) -> SockOpsAction {
    if ctx.op == BPF_SOCK_OPS_ACTIVE_ESTABLISHED_CB {
        if ctx.cookie != 0 && ctx.stashed is Some {
            SockOpsAction::RecordConnection {
                key: spec_sockops_key(order, ctx.local_ip4, ctx.local_port),
                dst: ctx.stashed->0,
            }
        } else {
            SockOpsAction::Nothing
        }
    } else if ctx.op == BPF_SOCK_OPS_TCP_CONNECT_CB {
        SockOpsAction::EnableStateCallback { flags: BPF_SOCK_OPS_STATE_CB_FLAG as i32 }
    } else {
        SockOpsAction::Nothing
    }
}

/// The `sock_ops` hook.  It always returns 0.  When an intercepted connection
/// (one whose cookie has a stashed destination) becomes established, the
/// stashed destination is published under the connection's source address
/// and network-order source port; when a connection starts, state-change
/// callbacks are enabled so that the establishment is seen.
pub fn handle_sockops(order: ByteOrder, ctx: &SockOpsContext) -> (out: SockOpsOutcome)
    ensures
        out.ret == 0,
        out.action == spec_sockops_action(order, *ctx),
{
    let op = ctx.op;
    if op == BPF_SOCK_OPS_ACTIVE_ESTABLISHED_CB {
        if ctx.cookie != 0 {
            if let Some(orig_dst) = ctx.stashed {
                let port_be = to_network_u16(order, ctx.local_port as u16);
                let key = SrcKey { ip: ctx.local_ip4, port: port_be };
                return SockOpsOutcome {
                    ret: 0,
                    action: SockOpsAction::RecordConnection { key, dst: orig_dst },
                };
            }
        }
        SockOpsOutcome { ret: 0, action: SockOpsAction::Nothing }
    } else if op == BPF_SOCK_OPS_TCP_CONNECT_CB {
        SockOpsOutcome {
            ret: 0,
            action: SockOpsAction::EnableStateCallback { flags: BPF_SOCK_OPS_STATE_CB_FLAG as i32 },
        }
    } else {
        SockOpsOutcome { ret: 0, action: SockOpsAction::Nothing }
    }
}


/// Law: which connections `connect4` intercepts, and how.  A connection is
/// left alone exactly when it is not TCP (protocol 6), has no cookie, comes
/// from an ignored cgroup, runs under uid 1337 exactly (the lower 32 bits of
/// `uid_gid`; every other uid is intercepted), goes to `127.0.0.1` (raw
/// `0x0100007F`) or goes to an ignored port.  Every other connection is
/// redirected to `127.0.0.1:15001` (port in network order) with its own
/// destination address and the low 16 bits of its port stashed under its
/// cookie.
pub proof fn lemma_connect4_intercepts_exactly(order: ByteOrder, ctx: Connect4Context)
    ensures
        spec_connect4_action(order, ctx) == Connect4Action::Allow <==> (ctx.protocol != 6
            || ctx.cookie == 0 || ctx.cgroup_ignored || ctx.uid_gid % 0x1_0000_0000 == 1337
            || ctx.user_ip4 == 0x0100_007F || ctx.port_ignored),
        spec_connect4_action(order, ctx) != Connect4Action::Allow ==> spec_connect4_action(
            order,
            ctx,
        ) == (Connect4Action::Redirect {
            stash: CookieRecord {
                cookie: ctx.cookie,
                dst: OriginalDst {
                    ipv4_addr: ctx.user_ip4,
                    port: (ctx.user_port % 0x1_0000) as u16,
                },
            },
            user_ip4: 0x0100_007F,
            user_port: spec_to_network_u16(order, 15001) as u32,
        }),
{
    let x = ctx.uid_gid;
    let u = x as u32;
    assert(u == x % 0x1_0000_0000) by (bit_vector)
        requires
            u == x as u32,
    ;
    let p = ctx.user_port;
    let q = p as u16;
    assert(q == p % 0x1_0000) by (bit_vector)
        requires
            q == p as u16,
    ;
}

/// Law: what `sock_ops` does for each operation.  On a connection start
/// (operation 3) it always asks for state callbacks (flag 4), whatever the
/// cookie, the stash and the addresses.  On an active establishment
/// (operation 4) it publishes exactly when the socket has a cookie and a
/// stashed destination, and then publishes that destination unchanged under
/// the local address as given and the low 16 bits of the local port in
/// network order.  On any other operation it does nothing.
pub proof fn lemma_sockops_by_operation(order: ByteOrder, ctx: SockOpsContext)
    ensures
        ctx.op == 3 ==> spec_sockops_action(order, ctx) == (SockOpsAction::EnableStateCallback {
            flags: 4,
        }),
        ctx.op == 4 ==> (spec_sockops_action(order, ctx) is RecordConnection <==> (ctx.cookie
            != 0 && ctx.stashed is Some)),
        ctx.op == 4 && ctx.cookie != 0 && ctx.stashed is Some ==> spec_sockops_action(order, ctx)
            == (SockOpsAction::RecordConnection {
            key: SrcKey {
                ip: ctx.local_ip4,
                port: spec_to_network_u16(order, (ctx.local_port % 0x1_0000) as u16),
            },
            dst: ctx.stashed->0,
        }),
        ctx.op == 4 && !(ctx.cookie != 0 && ctx.stashed is Some) ==> spec_sockops_action(
            order,
            ctx,
        ) == SockOpsAction::Nothing,
        ctx.op != 3 && ctx.op != 4 ==> spec_sockops_action(order, ctx) == SockOpsAction::Nothing,
{
    let p = ctx.local_port;
    let q = p as u16;
    assert(q == p % 0x1_0000) by (bit_vector)
        requires
            q == p as u16,
    ;
}

} // verus!
