use tunshare::net::{Cidr, Ipv4Addr, SocketAddr, SocketAddrV4};
use tunshare::system::anchor::{anchor_update, AnchorUpdate};
use tunshare::system::mapping::{Mapping, MappingKey, MappingTable, Protocol, Selector};
use tunshare::system::natpmp::{
    apply_map_request, build_error_response, build_external_address_response,
    build_mapping_response, find_available_port, handle_request, is_lan_client, parse_request,
    sssoe, MapReply, MapRequest, NatPmpServer, Request, ServerEvent, MIN_ALLOWED_PORT,
    RESPONSE_FLAG,
};

const SECOND: u64 = 1_000_000_000;

fn client(last: u8) -> SocketAddr {
    SocketAddr::V4(SocketAddrV4::new(Ipv4Addr::new(192, 168, 2, last), 40000))
}

fn map_request(opcode: u8, internal_port: u16, external_port: u16, lifetime: u32) -> Vec<u8> {
    let mut data = vec![0u8, opcode, 0, 0];
    data.extend_from_slice(&internal_port.to_be_bytes());
    data.extend_from_slice(&external_port.to_be_bytes());
    data.extend_from_slice(&lifetime.to_be_bytes());
    data
}

fn mapping(protocol: Protocol, external_port: u16, owner: u8, internal_port: u16) -> Mapping {
    Mapping {
        internal_ip: Ipv4Addr::new(192, 168, 2, owner),
        internal_port,
        external_port,
        protocol,
        lifetime_secs: 3600,
        created_at: 0,
    }
}

#[test]
fn test_network_from_ip() {
    assert_eq!(
        NatPmpServer::network_from_ip(Ipv4Addr::new(192, 168, 2, 1)),
        "192.168.2.0/24"
    );
    assert_eq!(
        NatPmpServer::network_from_ip(Ipv4Addr::new(10, 0, 0, 1)),
        "10.0.0.0/24"
    );
}

#[test]
fn test_build_external_address_response() {
    let ip = Ipv4Addr::new(10, 8, 0, 1);
    let resp = build_external_address_response(42, ip);
    assert_eq!(resp.len(), 12);
    assert_eq!(resp[0], 0); // version
    assert_eq!(resp[1], RESPONSE_FLAG); // response opcode
    assert_eq!(u16::from_be_bytes([resp[2], resp[3]]), 0); // success
    assert_eq!(u32::from_be_bytes([resp[4], resp[5], resp[6], resp[7]]), 42); // sssoe
    assert_eq!(&resp[8..12], &[10, 8, 0, 1]); // IP
}

#[test]
fn test_build_mapping_response() {
    let resp = build_mapping_response(129, 100, 8080, 8080, 3600);
    assert_eq!(resp.len(), 16);
    assert_eq!(resp[0], 0); // version
    assert_eq!(resp[1], 129); // response opcode (UDP)
    assert_eq!(u16::from_be_bytes([resp[2], resp[3]]), 0); // success
    assert_eq!(
        u32::from_be_bytes([resp[4], resp[5], resp[6], resp[7]]),
        100
    ); // sssoe
    assert_eq!(u16::from_be_bytes([resp[8], resp[9]]), 8080); // internal port
    assert_eq!(u16::from_be_bytes([resp[10], resp[11]]), 8080); // external port
    assert_eq!(
        u32::from_be_bytes([resp[12], resp[13], resp[14], resp[15]]),
        3600
    ); // lifetime
}

#[test]
fn test_build_error_response() {
    let resp = build_error_response(RESPONSE_FLAG + 1, 5);
    assert_eq!(resp.len(), 8);
    assert_eq!(resp[0], 0); // version
    assert_eq!(resp[1], RESPONSE_FLAG + 1); // response opcode
    assert_eq!(u16::from_be_bytes([resp[2], resp[3]]), 5); // result code
    assert_eq!(u32::from_be_bytes([resp[4], resp[5], resp[6], resp[7]]), 0);
    // sssoe
}

#[test]
fn test_find_available_port() {
    let mappings = MappingTable::new();
    assert_eq!(
        find_available_port(&mappings, Protocol::Tcp),
        Some(MIN_ALLOWED_PORT)
    );

    let mut mappings = MappingTable::new();
    mappings.insert(Mapping {
        internal_ip: Ipv4Addr::new(192, 168, 2, 100),
        internal_port: 8080,
        external_port: 1024,
        protocol: Protocol::Tcp,
        lifetime_secs: 3600,
        created_at: 0,
    });
    assert_eq!(find_available_port(&mappings, Protocol::Tcp), Some(1025));
    // UDP should still find 1024 since it's a different protocol
    assert_eq!(find_available_port(&mappings, Protocol::Udp), Some(1024));
}

#[test]
fn test_is_lan_client() {
    let lan = "192.168.2.0/24";

    let on_lan = SocketAddr::V4(SocketAddrV4::new(Ipv4Addr::new(192, 168, 2, 100), 12345));
    assert!(is_lan_client(&on_lan, lan));

    let off_lan = SocketAddr::V4(SocketAddrV4::new(Ipv4Addr::new(10, 0, 0, 1), 12345));
    assert!(!is_lan_client(&off_lan, lan));

    let boundary = SocketAddr::V4(SocketAddrV4::new(Ipv4Addr::new(192, 168, 3, 1), 12345));
    assert!(!is_lan_client(&boundary, lan));
}

#[test]
fn test_mapping_expiry() {
    let now = 5 * SECOND;
    let mapping = Mapping {
        internal_ip: Ipv4Addr::new(192, 168, 2, 100),
        internal_port: 8080,
        external_port: 8080,
        protocol: Protocol::Tcp,
        lifetime_secs: 0, // Expired immediately
        created_at: now,
    };
    assert!(mapping.is_expired(now));

    let mapping = Mapping {
        internal_ip: Ipv4Addr::new(192, 168, 2, 100),
        internal_port: 8080,
        external_port: 8080,
        protocol: Protocol::Tcp,
        lifetime_secs: 3600,
        created_at: now,
    };
    assert!(!mapping.is_expired(now));
}

#[test]
fn external_address_response_exact_bytes() {
    assert_eq!(
        build_external_address_response(42, Ipv4Addr::new(10, 8, 0, 1)),
        vec![0, 128, 0, 0, 0, 0, 0, 42, 10, 8, 0, 1]
    );
}

#[test]
fn mapping_response_exact_bytes() {
    assert_eq!(
        build_mapping_response(130, 0x01020304, 0x1f90, 0x0400, 0x00000e10),
        vec![0, 130, 0, 0, 1, 2, 3, 4, 0x1f, 0x90, 4, 0, 0, 0, 0x0e, 0x10]
    );
}

#[test]
fn error_response_exact_bytes() {
    assert_eq!(build_error_response(129, 0x0102), vec![0, 129, 1, 2, 0, 0, 0, 0]);
}

#[test]
fn tcp_map_on_empty_table_then_udp_on_same_port() {
    let mut table = MappingTable::new();
    let ext = Ipv4Addr::new(10, 8, 0, 1);
    let handled = handle_request(
        &map_request(2, 8080, 1024, 3600),
        client(100),
        ext,
        7 * SECOND,
        "utun4",
        &mut table,
    );
    assert_eq!(
        handled.response,
        Some(build_mapping_response(130, 7, 8080, 1024, 3600))
    );
    let resp = handled.response.unwrap();
    assert_eq!(resp[1], 130);
    assert_eq!(u16::from_be_bytes([resp[2], resp[3]]), 0);
    assert_eq!(u16::from_be_bytes([resp[10], resp[11]]), 1024);
    assert_eq!(u32::from_be_bytes([resp[12], resp[13], resp[14], resp[15]]), 3600);
    assert_eq!(
        handled.anchor,
        Some(AnchorUpdate::Load(
            "rdr pass on utun4 proto tcp from any to any port 1024 -> 192.168.2.100 port 8080\n\
             pass in quick on utun4 proto tcp from any to 192.168.2.100 port 8080\n"
                .to_string()
        ))
    );

    let handled = handle_request(
        &map_request(1, 9090, 1024, 3600),
        client(101),
        ext,
        8 * SECOND,
        "utun4",
        &mut table,
    );
    let resp = handled.response.unwrap();
    assert_eq!(resp, build_mapping_response(129, 8, 9090, 1024, 3600));
    assert_eq!(
        table.get(MappingKey { protocol: Protocol::Tcp, external_port: 1024 }),
        Some(Mapping {
            internal_ip: Ipv4Addr::new(192, 168, 2, 100),
            internal_port: 8080,
            external_port: 1024,
            protocol: Protocol::Tcp,
            lifetime_secs: 3600,
            created_at: 7 * SECOND,
        })
    );
    assert_eq!(
        table.get(MappingKey { protocol: Protocol::Udp, external_port: 1024 }),
        Some(Mapping {
            internal_ip: Ipv4Addr::new(192, 168, 2, 101),
            internal_port: 9090,
            external_port: 1024,
            protocol: Protocol::Udp,
            lifetime_secs: 3600,
            created_at: 8 * SECOND,
        })
    );
}

#[test]
fn free_suggested_port_is_granted() {
    let mut table = MappingTable::new();
    table.insert(mapping(Protocol::Udp, 5000, 100, 80));
    let r = MapRequest {
        protocol: Protocol::Udp,
        client: Ipv4Addr::new(192, 168, 2, 101),
        internal_port: 22,
        suggested_external: 5001,
        lifetime: 60,
    };
    let outcome = apply_map_request(&mut table, &r, 0);
    assert_eq!(
        outcome.reply,
        MapReply::Granted { internal_port: 22, external_port: 5001, lifetime: 60 }
    );
    assert!(outcome.reload);
}

#[test]
fn own_port_is_granted_again() {
    let mut table = MappingTable::new();
    table.insert(mapping(Protocol::Udp, 5000, 100, 80));
    let r = MapRequest {
        protocol: Protocol::Udp,
        client: Ipv4Addr::new(192, 168, 2, 100),
        internal_port: 81,
        suggested_external: 5000,
        lifetime: 120,
    };
    let outcome = apply_map_request(&mut table, &r, 3 * SECOND);
    assert_eq!(
        outcome.reply,
        MapReply::Granted { internal_port: 81, external_port: 5000, lifetime: 120 }
    );
    let stored = table.get(MappingKey { protocol: Protocol::Udp, external_port: 5000 }).unwrap();
    assert_eq!(stored.internal_port, 81);
    assert_eq!(stored.created_at, 3 * SECOND);
}

#[test]
fn port_of_another_client_falls_back_to_lowest_free() {
    let mut table = MappingTable::new();
    table.insert(mapping(Protocol::Tcp, 1024, 100, 80));
    table.insert(mapping(Protocol::Tcp, 1025, 100, 81));
    table.insert(mapping(Protocol::Tcp, 5000, 100, 82));
    let r = MapRequest {
        protocol: Protocol::Tcp,
        client: Ipv4Addr::new(192, 168, 2, 101),
        internal_port: 443,
        suggested_external: 5000,
        lifetime: 60,
    };
    let outcome = apply_map_request(&mut table, &r, 0);
    assert_eq!(
        outcome.reply,
        MapReply::Granted { internal_port: 443, external_port: 1026, lifetime: 60 }
    );
}

#[test]
fn low_suggested_port_falls_back_to_lowest_free() {
    let mut table = MappingTable::new();
    table.insert(mapping(Protocol::Udp, 1024, 100, 80));
    let r = MapRequest {
        protocol: Protocol::Udp,
        client: Ipv4Addr::new(192, 168, 2, 101),
        internal_port: 53,
        suggested_external: 53,
        lifetime: 60,
    };
    let outcome = apply_map_request(&mut table, &r, 0);
    assert_eq!(
        outcome.reply,
        MapReply::Granted { internal_port: 53, external_port: 1025, lifetime: 60 }
    );
}

#[test]
fn lifetime_is_capped() {
    let mut table = MappingTable::new();
    let r = MapRequest {
        protocol: Protocol::Udp,
        client: Ipv4Addr::new(192, 168, 2, 101),
        internal_port: 53,
        suggested_external: 2000,
        lifetime: 100_000,
    };
    let outcome = apply_map_request(&mut table, &r, 0);
    assert_eq!(
        outcome.reply,
        MapReply::Granted { internal_port: 53, external_port: 2000, lifetime: 7200 }
    );
    assert_eq!(
        table.get(MappingKey { protocol: Protocol::Udp, external_port: 2000 }).unwrap().lifetime_secs,
        7200
    );
}

#[test]
fn out_of_resources_when_every_port_is_taken() {
    let mut table = MappingTable::new();
    for port in 1024..=65535u16 {
        table.insert(mapping(Protocol::Udp, port, 100, 1));
    }
    let data = map_request(1, 99, 0, 60);
    let handled = handle_request(&data, client(101), Ipv4Addr::new(1, 2, 3, 4), 0, "utun0", &mut table);
    assert_eq!(handled.response, Some(build_error_response(129, 4)));
    assert_eq!(handled.anchor, None);
    // The other protocol still has room.
    let data = map_request(2, 99, 0, 60);
    let handled = handle_request(&data, client(101), Ipv4Addr::new(1, 2, 3, 4), 0, "utun0", &mut table);
    assert_eq!(handled.response, Some(build_mapping_response(130, 0, 99, 1024, 60)));
}

#[test]
fn delete_all_removes_only_the_clients_mappings() {
    let mut table = MappingTable::new();
    table.insert(mapping(Protocol::Udp, 2000, 100, 1));
    table.insert(mapping(Protocol::Tcp, 2000, 100, 2));
    table.insert(mapping(Protocol::Tcp, 2001, 101, 3));
    let handled = handle_request(
        &map_request(1, 0, 0, 0),
        client(100),
        Ipv4Addr::new(1, 2, 3, 4),
        9 * SECOND,
        "utun0",
        &mut table,
    );
    assert_eq!(handled.response, Some(build_mapping_response(129, 9, 0, 0, 0)));
    assert_eq!(table.keys(), vec![MappingKey { protocol: Protocol::Tcp, external_port: 2001 }]);
    assert_eq!(
        table.get(MappingKey { protocol: Protocol::Tcp, external_port: 2001 }),
        Some(mapping(Protocol::Tcp, 2001, 101, 3))
    );
    assert_eq!(
        handled.anchor,
        Some(AnchorUpdate::Load(
            "rdr pass on utun0 proto tcp from any to any port 2001 -> 192.168.2.101 port 3\n\
             pass in quick on utun0 proto tcp from any to 192.168.2.101 port 3\n"
                .to_string()
        ))
    );
    // A second delete-all finds nothing and leaves the anchor alone.
    let handled = handle_request(
        &map_request(1, 0, 0, 0),
        client(100),
        Ipv4Addr::new(1, 2, 3, 4),
        9 * SECOND,
        "utun0",
        &mut table,
    );
    assert_eq!(handled.anchor, None);
}

#[test]
fn delete_all_of_the_last_mapping_flushes_the_anchor() {
    let mut table = MappingTable::new();
    table.insert(mapping(Protocol::Udp, 2000, 100, 1));
    let handled = handle_request(
        &map_request(2, 0, 0, 0),
        client(100),
        Ipv4Addr::new(1, 2, 3, 4),
        0,
        "utun0",
        &mut table,
    );
    assert_eq!(handled.response, Some(build_mapping_response(130, 0, 0, 0, 0)));
    assert_eq!(handled.anchor, Some(AnchorUpdate::Flush));
    assert!(table.is_empty());
}

#[test]
fn delete_by_internal_port() {
    let mut table = MappingTable::new();
    table.insert(mapping(Protocol::Udp, 2000, 100, 7));
    table.insert(mapping(Protocol::Udp, 2001, 100, 8));
    table.insert(mapping(Protocol::Tcp, 2002, 100, 7));
    table.insert(mapping(Protocol::Udp, 2003, 101, 7));
    let handled = handle_request(
        &map_request(1, 7, 0, 0),
        client(100),
        Ipv4Addr::new(1, 2, 3, 4),
        0,
        "utun0",
        &mut table,
    );
    assert_eq!(handled.response, Some(build_mapping_response(129, 0, 7, 0, 0)));
    assert!(handled.anchor.is_some());
    assert!(!table.contains_key(MappingKey { protocol: Protocol::Udp, external_port: 2000 }));
    assert!(table.contains_key(MappingKey { protocol: Protocol::Udp, external_port: 2001 }));
    assert!(table.contains_key(MappingKey { protocol: Protocol::Tcp, external_port: 2002 }));
    assert!(table.contains_key(MappingKey { protocol: Protocol::Udp, external_port: 2003 }));
}

#[test]
fn lifetime_zero_with_suggested_port_deletes_that_slot() {
    let mut table = MappingTable::new();
    table.insert(mapping(Protocol::Udp, 2000, 100, 7));
    let handled = handle_request(
        &map_request(1, 7, 2000, 0),
        client(100),
        Ipv4Addr::new(1, 2, 3, 4),
        0,
        "utun0",
        &mut table,
    );
    assert_eq!(handled.response, Some(build_mapping_response(129, 0, 7, 2000, 0)));
    assert_eq!(handled.anchor, Some(AnchorUpdate::Flush));
    assert!(table.is_empty());
}

#[test]
fn requests_that_are_refused() {
    let mut table = MappingTable::new();
    let ext = Ipv4Addr::new(1, 2, 3, 4);
    // Too short: no reply.
    assert_eq!(handle_request(&[0], client(1), ext, 0, "utun0", &mut table).response, None);
    assert_eq!(handle_request(&[], client(1), ext, 0, "utun0", &mut table).response, None);
    // Version not zero.
    assert_eq!(
        handle_request(&[1, 0], client(1), ext, 0, "utun0", &mut table).response,
        Some(vec![0, 128, 0, 1, 0, 0, 0, 0])
    );
    // Mapping request under twelve bytes.
    assert_eq!(
        handle_request(&[0, 2, 0, 0, 0, 80, 4, 0, 0, 0, 0], client(1), ext, 0, "utun0", &mut table)
            .response,
        Some(vec![0, 130, 0, 2, 0, 0, 0, 0])
    );
    // Mapping request from no IPv4 source.
    assert_eq!(
        handle_request(&map_request(1, 80, 2000, 60), SocketAddr::V6, ext, 0, "utun0", &mut table)
            .response,
        Some(vec![0, 129, 0, 2, 0, 0, 0, 0])
    );
    // Unknown opcode.
    assert_eq!(
        handle_request(&[0, 3], client(1), ext, 0, "utun0", &mut table).response,
        Some(vec![0, 131, 0, 5, 0, 0, 0, 0])
    );
    assert_eq!(
        handle_request(&[0, 200], client(1), ext, 0, "utun0", &mut table).response,
        Some(vec![0, 72, 0, 5, 0, 0, 0, 0])
    );
    assert!(table.is_empty());
}

#[test]
fn external_address_request() {
    let mut table = MappingTable::new();
    let handled = handle_request(
        &[0, 0],
        client(1),
        Ipv4Addr::new(10, 8, 0, 1),
        42 * SECOND + 999_999_999,
        "utun0",
        &mut table,
    );
    assert_eq!(handled.response, Some(vec![0, 128, 0, 0, 0, 0, 0, 42, 10, 8, 0, 1]));
    assert_eq!(handled.anchor, None);
}

#[test]
fn uptime_wraps_at_32_bits() {
    assert_eq!(sssoe(0), 0);
    assert_eq!(sssoe(SECOND - 1), 0);
    assert_eq!(sssoe(4_294_967_296 * SECOND + 5 * SECOND), 5);
}

#[test]
fn parse_request_decodes_fields() {
    let data = map_request(2, 0x1234, 0x5678, 0x9abcdef0);
    assert_eq!(
        parse_request(&data, client(9)),
        Request::MapPort(MapRequest {
            protocol: Protocol::Tcp,
            client: Ipv4Addr::new(192, 168, 2, 9),
            internal_port: 0x1234,
            suggested_external: 0x5678,
            lifetime: 0x9abcdef0,
        })
    );
    assert_eq!(parse_request(&[0, 0], SocketAddr::V6), Request::ExternalAddress);
    assert_eq!(parse_request(&[0, 9], SocketAddr::V6), Request::UnsupportedOpcode { opcode: 9 });
}

#[test]
fn mapping_expires_after_its_lifetime() {
    let m = Mapping {
        internal_ip: Ipv4Addr::new(192, 168, 2, 100),
        internal_port: 1,
        external_port: 2000,
        protocol: Protocol::Udp,
        lifetime_secs: 10,
        created_at: 3 * SECOND + 5,
    };
    assert!(!m.is_expired(3 * SECOND + 5));
    assert!(!m.is_expired(13 * SECOND + 4));
    assert!(m.is_expired(13 * SECOND + 5));
    assert!(m.is_expired(u64::MAX));
    // A clock that reads earlier than the creation shows no age.
    assert!(!m.is_expired(0));
}

#[test]
fn remove_where_selects() {
    let mut table = MappingTable::new();
    table.insert(mapping(Protocol::Udp, 2000, 100, 7));
    table.insert(mapping(Protocol::Udp, 2001, 101, 7));
    assert!(!table.remove_where(Selector::OwnedBy(Ipv4Addr::new(192, 168, 2, 102))));
    assert!(table.remove_where(Selector::ExpiredAt(3600 * SECOND)));
    assert!(table.is_empty());
}

#[test]
fn anchor_rules_hold_every_mapping_once() {
    let mut table = MappingTable::new();
    assert_eq!(anchor_update("utun4", &table), AnchorUpdate::Flush);
    table.insert(mapping(Protocol::Udp, 2000, 100, 7));
    table.insert(mapping(Protocol::Tcp, 65535, 101, 65535));
    let first = "rdr pass on utun4 proto udp from any to any port 2000 -> 192.168.2.100 port 7\n\
                 pass in quick on utun4 proto udp from any to 192.168.2.100 port 7\n";
    let second = "rdr pass on utun4 proto tcp from any to any port 65535 -> 192.168.2.101 port 65535\n\
                  pass in quick on utun4 proto tcp from any to 192.168.2.101 port 65535\n";
    match anchor_update("utun4", &table) {
        AnchorUpdate::Load(text) => {
            assert!(text == format!("{first}{second}") || text == format!("{second}{first}"));
        }
        AnchorUpdate::Flush => panic!("a table with mappings loads rules"),
    }
}

#[test]
fn lan_check_handles_prefix_lengths() {
    let at = |a, b, c, d| SocketAddr::V4(SocketAddrV4::new(Ipv4Addr::new(a, b, c, d), 1));
    assert!(is_lan_client(&at(8, 8, 8, 8), "10.0.0.0/0"));
    assert!(is_lan_client(&at(10, 1, 2, 3), "10.1.2.3/32"));
    assert!(!is_lan_client(&at(10, 1, 2, 4), "10.1.2.3/32"));
    assert!(is_lan_client(&at(10, 1, 2, 2), "10.1.2.3/31"));
    assert!(!is_lan_client(&at(10, 1, 2, 4), "10.1.2.3/31"));
    assert!(is_lan_client(&at(10, 255, 0, 1), "10.0.0.0/8"));
    assert!(!is_lan_client(&at(11, 0, 0, 1), "10.0.0.0/8"));
    assert!(is_lan_client(&at(10, 0, 0, 1), "10.0.0.0/+8"));
    assert!(is_lan_client(&at(10, 0, 0, 1), "10.0.0.0/008"));
    assert!(!is_lan_client(&at(10, 0, 0, 1), "10.0.0.0/33"));
    assert!(!is_lan_client(&at(10, 0, 0, 1), "10.0.0.0/99999999999"));
    assert!(!is_lan_client(&at(10, 0, 0, 1), "10.0.0.0"));
    assert!(!is_lan_client(&at(10, 0, 0, 1), "10.0.0.0/"));
    assert!(!is_lan_client(&at(10, 0, 0, 1), "10.0.0.0/8/1"));
    assert!(!is_lan_client(&at(10, 0, 0, 1), "10.0.0/8"));
    assert!(!is_lan_client(&at(10, 0, 0, 1), "10.00.0.0/8"));
    assert!(!is_lan_client(&at(10, 0, 0, 1), "10.0.0.256/8"));
    assert!(!is_lan_client(&SocketAddr::V6, "10.0.0.0/0"));
}

#[test]
fn lan_check_agrees_with_the_network_of_the_gateway() {
    let lan = NatPmpServer::network_from_ip(Ipv4Addr::new(192, 168, 2, 1));
    assert!(is_lan_client(&client(0), &lan));
    assert!(is_lan_client(&client(255), &lan));
    let next = SocketAddr::V4(SocketAddrV4::new(Ipv4Addr::new(192, 168, 3, 1), 1));
    let before = SocketAddr::V4(SocketAddrV4::new(Ipv4Addr::new(192, 168, 1, 255), 1));
    assert!(!is_lan_client(&next, &lan));
    assert!(!is_lan_client(&before, &lan));
}

#[test]
fn ipv4_text_round_trip() {
    let ip = Ipv4Addr::new(0, 10, 200, 255);
    assert_eq!(ip.to_text(), "0.10.200.255");
    assert_eq!(Ipv4Addr::parse("0.10.200.255"), Some(ip));
    assert_eq!(Ipv4Addr::parse("1.2.3"), None);
    assert_eq!(Ipv4Addr::parse("1.2.3.4.5"), None);
    assert_eq!(Ipv4Addr::parse("1.2.3.04"), None);
    assert_eq!(Ipv4Addr::parse("1.2.3.4 "), None);
    assert_eq!(Ipv4Addr::parse(""), None);
    assert_eq!(
        Cidr::parse("172.16.0.0/12"),
        Some(Cidr { network: Ipv4Addr::new(172, 16, 0, 0), prefix_len: 12 })
    );
}

#[test]
fn server_drops_datagrams_from_outside_the_lan() {
    let server = NatPmpServer::new("utun4", "en0", "192.168.2.0/24");
    let mut state = server.start(None);
    assert_eq!(state.external_ip, Ipv4Addr::new(0, 0, 0, 0));
    let outside = SocketAddr::V4(SocketAddrV4::new(Ipv4Addr::new(192, 168, 3, 1), 1));
    let action = state.step(
        ServerEvent::Datagram { data: map_request(1, 80, 2000, 60), src: outside },
        0,
    );
    assert_eq!(action.reply, None);
    assert_eq!(action.anchor, None);
    assert!(state.mappings.is_empty());
    let action = state.step(
        ServerEvent::Datagram { data: map_request(1, 80, 2000, 60), src: client(5) },
        0,
    );
    assert_eq!(action.reply, Some(build_mapping_response(129, 0, 80, 2000, 60)));
    assert!(!action.stop);
}

#[test]
fn server_sweeps_refreshes_and_stops() {
    let server = NatPmpServer::new("utun4", "en0", "192.168.2.0/24");
    let mut state = server.start(Some(Ipv4Addr::new(10, 8, 0, 6)));
    state.step(ServerEvent::Datagram { data: map_request(1, 80, 2000, 60), src: client(5) }, 0);
    state.step(ServerEvent::Datagram { data: map_request(2, 81, 2001, 90), src: client(5) }, 0);

    let action = state.step(ServerEvent::ExpiryTick, 30 * SECOND);
    assert_eq!(action.anchor, None);
    let action = state.step(ServerEvent::ExpiryTick, 60 * SECOND);
    assert_eq!(
        action.anchor,
        Some(AnchorUpdate::Load(
            "rdr pass on utun4 proto tcp from any to any port 2001 -> 192.168.2.5 port 81\n\
             pass in quick on utun4 proto tcp from any to 192.168.2.5 port 81\n"
                .to_string()
        ))
    );
    let action = state.step(ServerEvent::ExpiryTick, 90 * SECOND);
    assert_eq!(action.anchor, Some(AnchorUpdate::Flush));

    state.step(ServerEvent::ExternalIpQueried(None), 0);
    assert_eq!(state.external_ip, Ipv4Addr::new(10, 8, 0, 6));
    state.step(ServerEvent::ExternalIpQueried(Some(Ipv4Addr::new(10, 8, 0, 7))), 0);
    assert_eq!(state.external_ip, Ipv4Addr::new(10, 8, 0, 7));

    let action = state.step(ServerEvent::ShutdownSignal(false), 0);
    assert!(!action.stop);
    let action = state.step(ServerEvent::ShutdownSignal(true), 0);
    assert!(action.stop);
    assert_eq!(action.anchor, Some(AnchorUpdate::Flush));
}
