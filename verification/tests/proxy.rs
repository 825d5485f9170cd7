use sentinel_sidecar::bpf::{
    choose_ebpf_object, ebpf_object_path, endpoint_from_sockaddr_in, original_dst_from_lookup,
    EbpfObject, Endpoint, OriginalDst, SrcKey,
};
use sentinel_sidecar::byte_order::ByteOrder;
use sentinel_sidecar::proxy::{
    flow_resource, step, too_many_requests_response, ConnectionAction, ConnectionEvent,
    ConnectionState, PeerAddr, ProxyError,
};

const LE: ByteOrder = ByteOrder::LittleEndian;

#[test]
fn ebpf_mode_looks_up_the_map_then_checks_flow() {
    let (s, a) = step(
        LE,
        &ConnectionState::Accepted,
        ConnectionEvent::Start { peer: PeerAddr::V4 { ip: 0x0A00_0005, port: 40000 }, ebpf: true },
    );
    assert_eq!(s, ConnectionState::AwaitingMapLookup);
    assert_eq!(
        a,
        ConnectionAction::LookupMap {
            key: SrcKey { ipv4_addr: 0x0500_000A, port: 40000u16.swap_bytes() }
        }
    );
    let found = OriginalDst { ipv4_addr: 0x0101_0101, port: 443u16.swap_bytes() };
    let (s, a) = step(LE, &s, ConnectionEvent::MapLookup { found: Some(found) });
    let target = Endpoint { ip: 0x0101_0101, port: 443 };
    assert_eq!(s, ConnectionState::AwaitingFlowCheck { target });
    assert_eq!(a, ConnectionAction::CheckFlow { target });
    let (s2, a2) = step(LE, &s, ConnectionEvent::FlowChecked { passed: true });
    assert_eq!(s2, ConnectionState::Finished);
    assert_eq!(a2, ConnectionAction::Forward { target });
    let (s3, a3) = step(LE, &s, ConnectionEvent::FlowChecked { passed: false });
    assert_eq!(s3, ConnectionState::Finished);
    assert_eq!(a3, ConnectionAction::RejectTooManyRequests);
}

#[test]
fn map_miss_falls_back_to_socket_option() {
    let (s, a) = step(LE, &ConnectionState::AwaitingMapLookup, ConnectionEvent::MapLookup {
        found: None,
    });
    assert_eq!(s, ConnectionState::AwaitingOriginalDst);
    assert_eq!(a, ConnectionAction::QueryOriginalDst);
    let target = Endpoint { ip: 0x0808_0808, port: 53 };
    let (s, a) = step(LE, &s, ConnectionEvent::OriginalDst { result: Some(target) });
    assert_eq!(s, ConnectionState::AwaitingFlowCheck { target });
    assert_eq!(a, ConnectionAction::CheckFlow { target });
}

#[test]
fn socket_option_failure_ends_handling() {
    let (s, a) = step(LE, &ConnectionState::AwaitingOriginalDst, ConnectionEvent::OriginalDst {
        result: None,
    });
    assert_eq!(s, ConnectionState::Finished);
    assert_eq!(a, ConnectionAction::Fail { error: ProxyError::OriginalDstUnavailable });
}

#[test]
fn ebpf_mode_refuses_ipv6_and_port_zero() {
    for peer in [PeerAddr::V6, PeerAddr::V4 { ip: 0x0A00_0005, port: 0 }] {
        let (s, a) =
            step(LE, &ConnectionState::Accepted, ConnectionEvent::Start { peer, ebpf: true });
        assert_eq!(s, ConnectionState::Finished);
        assert_eq!(a, ConnectionAction::Fail { error: ProxyError::Ipv6NotSupported });
    }
}

#[test]
fn without_ebpf_the_socket_option_is_used() {
    for peer in [PeerAddr::V6, PeerAddr::V4 { ip: 0x0A00_0005, port: 1234 }] {
        let (s, a) =
            step(LE, &ConnectionState::Accepted, ConnectionEvent::Start { peer, ebpf: false });
        assert_eq!(s, ConnectionState::AwaitingOriginalDst);
        assert_eq!(a, ConnectionAction::QueryOriginalDst);
    }
}

#[test]
fn resource_is_dotted_decimal_address() {
    assert_eq!(flow_resource(Endpoint { ip: 0x0101_0101, port: 80 }), "1.1.1.1");
    assert_eq!(flow_resource(Endpoint { ip: 0xC0A8_000A, port: 80 }), "192.168.0.10");
    assert_eq!(flow_resource(Endpoint { ip: 0, port: 0 }), "0.0.0.0");
    assert_eq!(flow_resource(Endpoint { ip: u32::MAX, port: 0 }), "255.255.255.255");
    assert_eq!(flow_resource(Endpoint { ip: 0x8EFA_0102, port: 0 }), "142.250.1.2");
}

#[test]
fn too_many_requests_answer_is_well_framed() {
    let r = too_many_requests_response();
    assert_eq!(
        r,
        "HTTP/1.1 429 Too Many Requests\r\nConnection: close\r\nContent-Type: text/plain\r\nContent-Length: 19\r\n\r\nBlocked by Sentinel"
    );
    let (head, body) = r.split_once("\r\n\r\n").unwrap();
    assert!(head.ends_with("Content-Length: 19"));
    assert_eq!(body.len(), 19);
}

#[test]
fn lookup_result_is_decoded() {
    assert_eq!(original_dst_from_lookup(LE, None), None);
    let found = OriginalDst { ipv4_addr: 0x0201_FA8E, port: 0x5000 };
    assert_eq!(
        original_dst_from_lookup(LE, Some(found)),
        Some(Endpoint { ip: 0x8EFA_0102, port: 80 })
    );
}

#[test]
fn sockaddr_in_is_decoded() {
    assert_eq!(
        endpoint_from_sockaddr_in(LE, 0x0100_007F, 0x993A),
        Endpoint { ip: 0x7F00_0001, port: 15001 }
    );
}

#[test]
fn ebpf_object_choice_prefers_installed() {
    assert_eq!(choose_ebpf_object(true, true), Some(EbpfObject::Installed));
    assert_eq!(choose_ebpf_object(true, false), Some(EbpfObject::Installed));
    assert_eq!(choose_ebpf_object(false, true), Some(EbpfObject::Development));
    assert_eq!(choose_ebpf_object(false, false), None);
    assert_eq!(ebpf_object_path(EbpfObject::Installed), "/app/mas-sentinel-ebpf");
    assert_eq!(
        ebpf_object_path(EbpfObject::Development),
        "ebpf/target/bpfel-unknown-none/release/mas-sentinel-ebpf"
    );
}
