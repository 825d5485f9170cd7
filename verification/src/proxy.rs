//! Decisions of the outbound proxy for one accepted connection.
//!
//! The proxy finds where the connection originally wanted to go (from the
//! interception map in eBPF mode, falling back to the `SO_ORIGINAL_DST`
//! socket option; from the socket option alone otherwise), asks flow control
//! whether the destination may be reached, and then either forwards the
//! connection or answers `429 Too Many Requests`.  Each step of the glue
//! (map lookup, socket option, flow check, forwarding) is an action of
//! [`step`], and its outcome is the next event.
use vstd::prelude::*;

use crate::bpf::{
    original_dst_from_lookup, original_dst_key, spec_decode_original_dst, spec_original_dst_key,
    Endpoint, OriginalDst, SrcKey,
};
use crate::byte_order::ByteOrder;
use crate::sentinel::spec_hardcoded_resource;

verus! {

/// The peer address of an accepted connection.
#[derive(Clone, Copy, Debug, PartialEq, Eq, Structural)]
pub enum PeerAddr {
    /// An IPv4 peer, address and port in host byte order.
    V4 { ip: u32, port: u16 },
    /// An IPv6 peer.
    V6,
}

/// Why the handling of a connection ended without forwarding it.
#[derive(Clone, Copy, Debug, PartialEq, Eq, Structural)]
pub enum ProxyError {
    /// eBPF mode needs an IPv4 peer with a non-zero port.
    Ipv6NotSupported,
    /// The `SO_ORIGINAL_DST` socket option failed.
    OriginalDstUnavailable,
}

/// Where the handling of a connection stands.
#[derive(Clone, Copy, Debug, PartialEq, Eq, Structural)]
pub enum ConnectionState {
    /// Accepted; nothing decided yet.
    Accepted,
    /// Waiting for the lookup of the connection in `CONNECT_ORIG_DST`.
    AwaitingMapLookup,
    /// Waiting for the `SO_ORIGINAL_DST` socket option.
    AwaitingOriginalDst,
    /// The original destination is known; waiting for flow control.
    AwaitingFlowCheck { target: Endpoint },
    /// Handling is over.
    Finished,
}

/// What the glue observed.
#[derive(Clone, Copy, Debug, PartialEq, Eq, Structural)]
pub enum ConnectionEvent {
    /// A connection was accepted from `peer`; `ebpf` tells whether the
    /// interception maps are available.
    Start { peer: PeerAddr, ebpf: bool },
    /// The lookup in `CONNECT_ORIG_DST` found `found` (`None` also when the
    /// map could not be opened or read).
    MapLookup { found: Option<OriginalDst> },
    /// The `SO_ORIGINAL_DST` socket option gave `result` (`None` on failure).
    OriginalDst { result: Option<Endpoint> },
    /// Flow control let the destination pass (`true`) or blocked it.
    FlowChecked { passed: bool },
}

/// What the glue must do next.
#[derive(Clone, Copy, Debug, PartialEq, Eq, Structural)]
pub enum ConnectionAction {
    /// Look `key` up in `CONNECT_ORIG_DST`; report a `MapLookup` event.
    LookupMap { key: SrcKey },
    /// Query `SO_ORIGINAL_DST`; report an `OriginalDst` event.
    QueryOriginalDst,
    /// Run the flow check for the resource [`flow_resource`]`(target)`;
    /// report a `FlowChecked` event.
    CheckFlow { target: Endpoint },
    /// Connect to `target` and copy bytes both ways until both sides close.
    Forward { target: Endpoint },
    /// Flow control refused the destination: write
    /// [`too_many_requests_response`] to the client, then end with a
    /// permission-denied error.
    RejectTooManyRequests,
    /// End with `error`.
    Fail { error: ProxyError },
}

/// Whether `event` is one that the glue can report in `state`.
pub open spec fn spec_accepts(state: ConnectionState, event: ConnectionEvent) -> bool {
    match (state, event) {
        (ConnectionState::Accepted, ConnectionEvent::Start { .. }) => true,
        (ConnectionState::AwaitingMapLookup, ConnectionEvent::MapLookup { .. }) => true,
        (ConnectionState::AwaitingOriginalDst, ConnectionEvent::OriginalDst { .. }) => true,
        (ConnectionState::AwaitingFlowCheck { .. }, ConnectionEvent::FlowChecked { .. }) => true,
        _ => false,
    }
}

/// The next state and action.
pub open spec fn spec_step(
    order: ByteOrder,
    state: ConnectionState,
    event: ConnectionEvent,
) -> (ConnectionState, ConnectionAction) {
    match event {
        ConnectionEvent::Start { peer, ebpf } => {
            if !ebpf {
                (ConnectionState::AwaitingOriginalDst, ConnectionAction::QueryOriginalDst)
            } else {
                match peer {
                    PeerAddr::V4 { ip, port } => if port != 0 {
                        (
                            ConnectionState::AwaitingMapLookup,
                            ConnectionAction::LookupMap {
                                key: spec_original_dst_key(order, ip, port),
                            },
                        )
                    } else {
                        (
                            ConnectionState::Finished,
                            ConnectionAction::Fail { error: ProxyError::Ipv6NotSupported },
                        )
                    },
                    PeerAddr::V6 => (
                        ConnectionState::Finished,
                        ConnectionAction::Fail { error: ProxyError::Ipv6NotSupported },
                    ),
                }
            }
        },
        ConnectionEvent::MapLookup { found } => match found {
            Some(dst) => {
                let target = spec_decode_original_dst(order, dst);
                (
                    ConnectionState::AwaitingFlowCheck { target },
                    ConnectionAction::CheckFlow { target },
                )
            },
            None => (ConnectionState::AwaitingOriginalDst, ConnectionAction::QueryOriginalDst),
        },
        ConnectionEvent::OriginalDst { result } => match result {
            Some(target) => (
                ConnectionState::AwaitingFlowCheck { target },
                ConnectionAction::CheckFlow { target },
            ),
            None => (
                ConnectionState::Finished,
                ConnectionAction::Fail { error: ProxyError::OriginalDstUnavailable },
            ),
        },
        ConnectionEvent::FlowChecked { passed } => {
            let target = state->target;
            if passed {
                (ConnectionState::Finished, ConnectionAction::Forward { target })
            } else {
                (ConnectionState::Finished, ConnectionAction::RejectTooManyRequests)
            }
        },
    }
}

/// One step of the handling of a connection.
pub fn step(order: ByteOrder, state: &ConnectionState, event: ConnectionEvent) -> (r: (
    ConnectionState,
    ConnectionAction,
))
    requires
        spec_accepts(*state, event),
    ensures
        r == spec_step(order, *state, event),
{
    match event {
        ConnectionEvent::Start { peer, ebpf } => {
            if !ebpf {
                return (ConnectionState::AwaitingOriginalDst, ConnectionAction::QueryOriginalDst);
            }
            // eBPF mode: the peer's address and port are the lookup key.
            let (src_ip, src_port) = match peer {
                PeerAddr::V4 { ip, port } => (ip, port),
                PeerAddr::V6 => (0u32, 0u16),
            };
            if src_port != 0 {
                (
                    ConnectionState::AwaitingMapLookup,
                    ConnectionAction::LookupMap { key: original_dst_key(order, src_ip, src_port) },
                )
            } else {
                (
                    ConnectionState::Finished,
                    ConnectionAction::Fail { error: ProxyError::Ipv6NotSupported },
                )
            }
        },
        ConnectionEvent::MapLookup { found } => match original_dst_from_lookup(order, found) {
            Some(target) => (
                ConnectionState::AwaitingFlowCheck { target },
                ConnectionAction::CheckFlow { target },
            ),
            // Map miss: fall back to the socket option.
            None => (ConnectionState::AwaitingOriginalDst, ConnectionAction::QueryOriginalDst),
        },
        ConnectionEvent::OriginalDst { result } => match result {
            Some(target) => (
                ConnectionState::AwaitingFlowCheck { target },
                ConnectionAction::CheckFlow { target },
            ),
            None => (
                ConnectionState::Finished,
                ConnectionAction::Fail { error: ProxyError::OriginalDstUnavailable },
            ),
        },
        ConnectionEvent::FlowChecked { passed } => {
            let target = match state {
                ConnectionState::AwaitingFlowCheck { target } => *target,
                _ => Endpoint { ip: 0, port: 0 },
            };
            if passed {
                (ConnectionState::Finished, ConnectionAction::Forward { target })
            } else {
                (ConnectionState::Finished, ConnectionAction::RejectTooManyRequests)
            }
        },
    }
}

/// The character of the decimal digit `d` (`0 <= d < 10`).
pub open spec fn spec_digit(d: nat) -> char {
    seq!['0', '1', '2', '3', '4', '5', '6', '7', '8', '9'][d as int]
}

/// The decimal digits of `n`, without leading zeros.
pub open spec fn spec_decimal(n: nat) -> Seq<char>
    decreases n,
{
    let digit = spec_digit(n % 10);
    if n < 10 {
        seq![digit]
    } else {
        spec_decimal(n / 10) + seq![digit]
    }
}

/// The `k`-th octet (from the most significant) of an IPv4 address.
pub open spec fn spec_octet(ip: u32, k: int) -> nat {
    ((ip as nat / pow256(3 - k)) % 256) as nat
}

/// `256` to the power `e` for `0 <= e <= 3`.
pub open spec fn pow256(e: int) -> nat {
    if e <= 0 {
        1
    } else if e == 1 {
        256
    } else if e == 2 {
        0x1_0000
    } else {
        0x100_0000
    }
}

/// The dotted-decimal text `a.b.c.d` of an IPv4 address.
pub open spec fn spec_dotted_quad(ip: u32) -> Seq<char> {
    spec_decimal(spec_octet(ip, 0)) + seq!['.'] + spec_decimal(spec_octet(ip, 1)) + seq!['.']
        + spec_decimal(spec_octet(ip, 2)) + seq!['.'] + spec_decimal(spec_octet(ip, 3))
}

/// The text of the decimal digit `d`.
fn digit_text(d: u8) -> (t: &'static str)
    requires
        d < 10,
    ensures
        t@ == seq![spec_digit(d as nat)],
{
    proof {
        reveal_strlit("0");
        reveal_strlit("1");
        reveal_strlit("2");
        reveal_strlit("3");
        reveal_strlit("4");
        reveal_strlit("5");
        reveal_strlit("6");
        reveal_strlit("7");
        reveal_strlit("8");
        reveal_strlit("9");
    }
    let t = match d {
        0 => "0",
        1 => "1",
        2 => "2",
        3 => "3",
        4 => "4",
        5 => "5",
        6 => "6",
        7 => "7",
        8 => "8",
        _ => "9",
    };
    assert(t@ =~= seq![spec_digit(d as nat)]);
    t
}

/// Appends the decimal digits of `n`, without leading zeros, to `s`.
fn append_decimal(s: &mut String, n: u8)
    ensures
        final(s)@ == old(s)@ + spec_decimal(n as nat),
{
    let ghost start = s@;
    reveal_with_fuel(spec_decimal, 3);
    if n >= 100 {
        s.append(digit_text(n / 100));
    }
    if n >= 10 {
        s.append(digit_text((n / 10) % 10));
    }
    s.append(digit_text(n % 10));
    let ghost m = n as nat;
    if n >= 100 {
        assert(spec_decimal(m / 100) =~= seq![spec_digit(m / 100)]);
        assert(spec_decimal(m / 10) =~= seq![spec_digit(m / 100), spec_digit((m / 10) % 10)]) by {
            assert((m / 10) / 10 == m / 100);
        }
        assert(s@ =~= start + spec_decimal(m));
    } else if n >= 10 {
        assert(spec_decimal(m / 10) =~= seq![spec_digit(m / 10)]);
        assert((m / 10) % 10 == m / 10);
        assert(s@ =~= start + spec_decimal(m));
    } else {
        assert(s@ =~= start + spec_decimal(m));
    }
}

/// The flow-control resource of a destination: its address in dotted-decimal
/// form (as `Ipv4Addr` displays it).
pub fn flow_resource(target: Endpoint) -> (s: String)
    ensures
        s@ == spec_dotted_quad(target.ip),
{
    let ip = target.ip;
    let a = (ip >> 24u32) as u8;
    let b = ((ip >> 16u32) & 0xffu32) as u8;
    let c = ((ip >> 8u32) & 0xffu32) as u8;
    let d = (ip & 0xffu32) as u8;
    assert(a == (ip / 0x100_0000) % 256 && b == (ip / 0x1_0000) % 256 && c == (ip / 256) % 256
        && d == ip % 256) by (bit_vector)
        requires
            a == (ip >> 24u32) as u8,
            b == ((ip >> 16u32) & 0xffu32) as u8,
            c == ((ip >> 8u32) & 0xffu32) as u8,
            d == (ip & 0xffu32) as u8,
    ;
    let dot = ".";
    proof {
        reveal_strlit(".");
    }
    let mut s = String::new();
    append_decimal(&mut s, a);
    s.append(dot);
    append_decimal(&mut s, b);
    s.append(dot);
    append_decimal(&mut s, c);
    s.append(dot);
    append_decimal(&mut s, d);
    assert(s@ =~= spec_dotted_quad(ip));
    s
}

/// The header of the answer to a refused connection.
pub open spec fn spec_too_many_requests_head() -> Seq<char> {
    "HTTP/1.1 429 Too Many Requests\r\nConnection: close\r\nContent-Type: text/plain\r\nContent-Length: 19\r\n\r\n"@
}

/// The body of the answer to a refused connection.
pub open spec fn spec_too_many_requests_body() -> Seq<char> {
    "Blocked by Sentinel"@
}

/// The answer written to a client whose destination flow control refused.
pub fn too_many_requests_response() -> (r: &'static str)
    ensures
        r@ == spec_too_many_requests_head() + spec_too_many_requests_body(),
{
    let r = "HTTP/1.1 429 Too Many Requests\r\nConnection: close\r\nContent-Type: text/plain\r\nContent-Length: 19\r\n\r\nBlocked by Sentinel";
    proof {
        reveal_strlit(
            "HTTP/1.1 429 Too Many Requests\r\nConnection: close\r\nContent-Type: text/plain\r\nContent-Length: 19\r\n\r\nBlocked by Sentinel",
        );
        reveal_strlit(
            "HTTP/1.1 429 Too Many Requests\r\nConnection: close\r\nContent-Type: text/plain\r\nContent-Length: 19\r\n\r\n",
        );
        reveal_strlit("Blocked by Sentinel");
    }
    assert(r@ =~= spec_too_many_requests_head() + spec_too_many_requests_body());
    r
}

/// Law: the answer to a refused connection is well framed: its header ends
/// with the blank line after `Content-Length: 19`, and its body, which
/// follows, is exactly 19 ASCII characters (19 bytes) long.
pub proof fn lemma_too_many_requests_framing()
    ensures
        spec_too_many_requests_body().len() == 19,
        spec_too_many_requests_head().len() >= 22,
        spec_too_many_requests_head().subrange(
            spec_too_many_requests_head().len() - 22,
            spec_too_many_requests_head().len() as int,
        ) =~= "Content-Length: 19\r\n\r\n"@,
        forall|i: int|
            0 <= i < spec_too_many_requests_body().len() ==> (spec_too_many_requests_body()[i] as u32)
                < 128,
{
    reveal_strlit(
        "HTTP/1.1 429 Too Many Requests\r\nConnection: close\r\nContent-Type: text/plain\r\nContent-Length: 19\r\n\r\n",
    );
    reveal_strlit("Blocked by Sentinel");
    reveal_strlit("Content-Length: 19\r\n\r\n");
}

/// Law: the built-in flow rule governs the connections whose original
/// destination is `1.1.1.1`: their flow-control resource is its resource.
pub proof fn lemma_hardcoded_rule_resource()
    ensures
        spec_dotted_quad(0x0101_0101u32) == spec_hardcoded_resource(),
{
    let ip = 0x0101_0101u32;
    assert(spec_octet(ip, 0) == 1);
    assert(spec_octet(ip, 1) == 1);
    assert(spec_octet(ip, 2) == 1);
    assert(spec_octet(ip, 3) == 1);
    assert(spec_decimal(1) =~= seq!['1']);
    assert(spec_dotted_quad(ip) =~= spec_hardcoded_resource());
}

/// Law: the destination found by the socket option is used as it is.  In
/// whatever state accepts it, a successful `SO_ORIGINAL_DST` result `t`
/// (already in host order) leads to the flow check of `t` itself, and a
/// failed one ends the handling with `OriginalDstUnavailable`.
pub proof fn lemma_socket_option_target_unchanged(
    order: ByteOrder,
    state: ConnectionState,
    t: Endpoint,
)
    requires
        spec_accepts(state, ConnectionEvent::OriginalDst { result: Some(t) }),
    ensures
        spec_step(order, state, ConnectionEvent::OriginalDst { result: Some(t) }) == (
            ConnectionState::AwaitingFlowCheck { target: t },
            ConnectionAction::CheckFlow { target: t },
        ),
        spec_step(order, state, ConnectionEvent::OriginalDst { result: None }) == (
            ConnectionState::Finished,
            ConnectionAction::Fail { error: ProxyError::OriginalDstUnavailable },
        ),
{
}

/// Law: flow control decides between forwarding to the very target it
/// checked and refusing.  From the flow check of `t`, an admitted connection
/// is forwarded to `t` unchanged and a refused one is answered with
/// `429 Too Many Requests`; either way the handling is over.
pub proof fn lemma_flow_check_decides(order: ByteOrder, t: Endpoint, passed: bool)
    ensures
        passed ==> spec_step(
            order,
            ConnectionState::AwaitingFlowCheck { target: t },
            ConnectionEvent::FlowChecked { passed },
        ) == (ConnectionState::Finished, ConnectionAction::Forward { target: t }),
        !passed ==> spec_step(
            order,
            ConnectionState::AwaitingFlowCheck { target: t },
            ConnectionEvent::FlowChecked { passed },
        ) == (ConnectionState::Finished, ConnectionAction::RejectTooManyRequests),
{
}

} // verus!
