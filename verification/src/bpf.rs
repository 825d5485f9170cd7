//! The sidecar's side of the interception maps: the keys it writes into
//! `IGNORED_PORTS`, the key under which it looks up a connection in
//! `CONNECT_ORIG_DST`, and the decoding of what it finds there.
use vstd::prelude::*;

use crate::byte_order::{
    from_network_u16, from_network_u32, spec_from_network_u16, spec_from_network_u32,
    spec_to_network_u16, spec_to_network_u32, to_network_u16, to_network_u32, ByteOrder,
};

verus! {

/// An original destination as the sidecar reads it from `CONNECT_ORIG_DST`:
/// address and port in network byte order.
#[derive(Clone, Copy, Debug, PartialEq, Eq, Structural)]
pub struct OriginalDst {
    pub ipv4_addr: u32,
    pub port: u16,
}

/// The key of `CONNECT_ORIG_DST` as the sidecar writes it: source address and
/// port of the accepted connection, in network byte order.
#[derive(Clone, Copy, Debug, PartialEq, Eq, Structural)]
pub struct SrcKey {
    pub ipv4_addr: u32,
    pub port: u16,
}

/// An IPv4 address and port in host byte order (the address as the integer
/// `a << 24 | b << 16 | c << 8 | d` of `a.b.c.d`).
#[derive(Clone, Copy, Debug, PartialEq, Eq, Structural)]
pub struct Endpoint {
    pub ip: u32,
    pub port: u16,
}

/// The key under which the original destination of the connection accepted
/// from `src_ip:src_port` is looked up.
pub open spec fn spec_original_dst_key(order: ByteOrder, src_ip: u32, src_port: u16) -> SrcKey {
    SrcKey {
        ipv4_addr: spec_to_network_u32(order, src_ip),
        port: spec_to_network_u16(order, src_port),
    }
}

/// The destination that a map entry describes, in host byte order.
pub open spec fn spec_decode_original_dst(order: ByteOrder, dst: OriginalDst) -> Endpoint {
    Endpoint {
        ip: spec_from_network_u32(order, dst.ipv4_addr),
        port: spec_from_network_u16(order, dst.port),
    }
}

/// The key under which the original destination of the connection accepted
/// from `src_ip:src_port` (host byte order) is looked up: both converted to
/// network byte order, as the kernel hook stores them.
pub fn original_dst_key(order: ByteOrder, src_ip: u32, src_port: u16) -> (key: SrcKey)
    ensures
        key == spec_original_dst_key(order, src_ip, src_port),
{
    SrcKey { ipv4_addr: to_network_u32(order, src_ip), port: to_network_u16(order, src_port) }
}

/// The destination that a map entry describes, converted to host byte order.
pub fn decode_original_dst(order: ByteOrder, dst: &OriginalDst) -> (e: Endpoint)
    ensures
        e == spec_decode_original_dst(order, *dst),
{
    Endpoint { ip: from_network_u32(order, dst.ipv4_addr), port: from_network_u16(order, dst.port) }
}

/// The original destination of an accepted connection, given what the lookup
/// of its key in `CONNECT_ORIG_DST` found: `None` when nothing was found,
/// otherwise the entry in host byte order.
pub fn original_dst_from_lookup(order: ByteOrder, found: Option<OriginalDst>) -> (r: Option<
    Endpoint,
>)
    ensures
        found is None ==> r is None,
        found matches Some(dst) ==> r == Some(spec_decode_original_dst(order, dst)),
{
    match found {
        Some(dst) => Some(decode_original_dst(order, &dst)),
        None => None,
    }
}

/// Destination ports whose connections are never redirected: the Kubernetes
/// API server, the kubelet, DNS, SSH and health checks.
pub open spec fn spec_ignored_ports() -> Seq<u16> {
    seq![6443u16, 10250u16, 53u16, 22u16, 8080u16]
}

/// The keys of `IGNORED_PORTS`: each ignored port in network byte order, as
/// the kernel hook sees destination ports.
pub open spec fn spec_ignored_port_keys(order: ByteOrder) -> Seq<u16> {
    spec_ignored_ports().map_values(|p: u16| spec_to_network_u16(order, p))
}

/// The ports of [`spec_ignored_ports`], in that order.
pub fn ignored_ports() -> (ports: Vec<u16>)
    ensures
        ports@ == spec_ignored_ports(),
{
    let ports: Vec<u16> = vec![6443, 10250, 53, 22, 8080];
    assert(ports@ =~= spec_ignored_ports());
    ports
}

/// The keys to write into `IGNORED_PORTS`: the ignored ports converted to
/// network byte order, in the order of [`ignored_ports`].
pub fn ignored_port_keys(order: ByteOrder) -> (keys: Vec<u16>)
    ensures
        keys@ == spec_ignored_port_keys(order),
{
    let ports = ignored_ports();
    let mut keys: Vec<u16> = Vec::new();
    let mut i: usize = 0;
    while i < ports.len()
        invariant
            ports@ == spec_ignored_ports(),
            i <= ports.len(),
            keys@.len() == i,
            forall|k: int| 0 <= k < i ==> keys@[k] == spec_to_network_u16(order, ports@[k]),
        decreases ports.len() - i,
    {
        keys.push(to_network_u16(order, ports[i]));
        i = i + 1;
    }
    assert(keys@ =~= spec_ignored_port_keys(order));
    keys
}

/// Where the compiled kernel program is looked for.
#[derive(Clone, Copy, Debug, PartialEq, Eq, Structural)]
pub enum EbpfObject {
    /// Installed in the container image.
    Installed,
    /// Left by a development build in the source tree.
    Development,
}

/// The file of each place where the kernel program is looked for.
pub open spec fn spec_ebpf_object_path(obj: EbpfObject) -> Seq<char> {
    match obj {
        EbpfObject::Installed => "/app/mas-sentinel-ebpf"@,
        EbpfObject::Development => "ebpf/target/bpfel-unknown-none/release/mas-sentinel-ebpf"@,
    }
}

/// The file of `obj`.
pub fn ebpf_object_path(obj: EbpfObject) -> (p: &'static str)
    ensures
        p@ == spec_ebpf_object_path(obj),
{
    match obj {
        EbpfObject::Installed => "/app/mas-sentinel-ebpf",
        EbpfObject::Development => "ebpf/target/bpfel-unknown-none/release/mas-sentinel-ebpf",
    }
}

/// Which kernel program to load: the installed one when its file exists,
/// else the development build when its file exists, else none (interception
/// is then skipped and the proxy relies on `SO_ORIGINAL_DST`).
pub fn choose_ebpf_object(installed_exists: bool, development_exists: bool) -> (r: Option<
    EbpfObject,
>)
    ensures
        installed_exists ==> r == Some(EbpfObject::Installed),
        !installed_exists && development_exists ==> r == Some(EbpfObject::Development),
        !installed_exists && !development_exists ==> r is None,
{
    if installed_exists {
        Some(EbpfObject::Installed)
    } else if development_exists {
        Some(EbpfObject::Development)
    } else {
        None
    }
}

/// The destination held in a `sockaddr_in` returned by the `SO_ORIGINAL_DST`
/// socket option (address and port in network byte order), in host byte
/// order.
pub fn endpoint_from_sockaddr_in(order: ByteOrder, s_addr: u32, sin_port: u16) -> (e: Endpoint)
    ensures
        e == (Endpoint {
            ip: spec_from_network_u32(order, s_addr),
            port: spec_from_network_u16(order, sin_port),
        }),
{
    Endpoint { ip: from_network_u32(order, s_addr), port: from_network_u16(order, sin_port) }
}

} // verus!
