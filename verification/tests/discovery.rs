//! Tests of the discovery core: service-name validity, query construction,
//! datagram decoding decisions, and response extraction.

use mdns::{
    build_query, check_service_name, mdns_group_address, new_receive_buffer, process_datagram,
    session_config, Error, Ipv4Address, ListenStep, Record, RecordKind, Response,
    SocketAddressV4, MAX_QUERY_NAME_LEN, MDNS_PORT, RECEIVE_BUFFER_LEN,
};

fn push_u16(v: &mut Vec<u8>, x: u16) {
    v.extend_from_slice(&x.to_be_bytes());
}

fn push_name(v: &mut Vec<u8>, name: &str) {
    for label in name.split('.') {
        v.push(label.len() as u8);
        v.extend_from_slice(label.as_bytes());
    }
    v.push(0);
}

/// A response header (QR and AA set) announcing `answers` answer records.
fn response_header(answers: u16) -> Vec<u8> {
    let mut v = vec![0u8; 12];
    v[2] = 0x84;
    v[6] = (answers >> 8) as u8;
    v[7] = answers as u8;
    v
}

fn push_srv(v: &mut Vec<u8>, owner: &str, port: u16, target: &str) {
    push_name(v, owner);
    push_u16(v, 33); // SRV
    push_u16(v, 1); // IN
    v.extend_from_slice(&[0, 0, 0, 120]); // TTL
    let mut rdata = Vec::new();
    push_u16(&mut rdata, 0); // priority
    push_u16(&mut rdata, 0); // weight
    push_u16(&mut rdata, port);
    push_name(&mut rdata, target);
    push_u16(v, rdata.len() as u16);
    v.extend_from_slice(&rdata);
}

fn push_a(v: &mut Vec<u8>, owner: &str, ip: [u8; 4]) {
    push_name(v, owner);
    push_u16(v, 1); // A
    push_u16(v, 1); // IN
    v.extend_from_slice(&[0, 0, 0, 120]); // TTL
    push_u16(v, 4);
    v.extend_from_slice(&ip);
}

fn ipv4(o0: u8, o1: u8, o2: u8, o3: u8) -> Ipv4Address {
    Ipv4Address {
        octet0: o0,
        octet1: o1,
        octet2: o2,
        octet3: o3,
    }
}

fn record(name: &str, kind: RecordKind) -> Record {
    Record {
        name: name.to_string(),
        kind,
    }
}

fn srv(name: &str, port: u16, target: &str) -> Record {
    record(
        name,
        RecordKind::Srv {
            port,
            target: target.to_string(),
        },
    )
}

#[test]
fn accepts_ordinary_service_names() {
    assert!(check_service_name("_rpc._tcp.local"));
    assert!(check_service_name("_googlecast._tcp.local"));
    assert!(check_service_name("a"));
    assert!(check_service_name("a..b"));
}

#[test]
fn rejects_empty_name() {
    assert!(!check_service_name(""));
}

#[test]
fn rejects_non_ascii_name() {
    assert!(!check_service_name("_rpc._tcp.lōcal"));
}

#[test]
fn label_length_boundary() {
    let label62 = "a".repeat(62);
    let label63 = "a".repeat(63);
    assert!(check_service_name(&format!("{}.local", label62)));
    assert!(!check_service_name(&format!("{}.local", label63)));
    assert!(check_service_name(&label62));
    assert!(!check_service_name(&label63));
}

#[test]
fn query_has_exact_wire_format() {
    let query = build_query("_rpc._tcp.local").unwrap();
    let mut expected = vec![0u8; 12];
    expected[5] = 1; // one question, all other counts zero, ID 0, no flags
    push_name(&mut expected, "_rpc._tcp.local");
    push_u16(&mut expected, 12); // PTR
    push_u16(&mut expected, 1); // IN
    assert_eq!(query, expected);
}

#[test]
fn query_for_too_long_name_fails() {
    // Nine 60-byte labels: valid labels, but far over one packet's room.
    let long_name = vec!["a".repeat(60); 9].join(".");
    assert!(long_name.len() > MAX_QUERY_NAME_LEN);
    assert!(check_service_name(&long_name));
    assert_eq!(build_query(&long_name), Err(Error::QueryTooLong));
}

#[test]
fn longest_fitting_name_builds() {
    // Seven 62-byte labels and one 53-byte label, joined by 7 dots: 494.
    let mut labels = vec!["a".repeat(62); 7];
    labels.push("a".repeat(53));
    let name = labels.join(".");
    assert_eq!(name.len(), MAX_QUERY_NAME_LEN);
    assert!(check_service_name(&name));
    let query = build_query(&name).unwrap();
    assert_eq!(query.len(), 512);
}

#[test]
fn own_query_decodes_to_empty_response() {
    let query = build_query("_rpc._tcp.local").unwrap();
    match process_datagram(&query, query.len()) {
        ListenStep::Reply(response) => {
            assert_eq!(response.hostname, None);
            assert_eq!(response.socket_address, None);
        }
        other => panic!("expected a reply, got {:?}", other),
    }
}

#[test]
fn empty_read_is_skipped() {
    let buffer = new_receive_buffer();
    assert!(matches!(process_datagram(&buffer, 0), ListenStep::Skipped));
}

#[test]
fn receive_buffer_is_zeroed() {
    let buffer = new_receive_buffer();
    assert_eq!(buffer.len(), RECEIVE_BUFFER_LEN);
    assert!(buffer.iter().all(|&b| b == 0));
}

#[test]
fn reply_with_srv_and_a_yields_address() {
    let mut packet = response_header(2);
    push_srv(&mut packet, "printer._rpc._tcp.local", 8080, "host.local");
    push_a(&mut packet, "host.local", [192, 168, 1, 5]);
    match process_datagram(&packet, packet.len()) {
        ListenStep::Reply(response) => {
            assert_eq!(response.hostname.as_deref(), Some("host.local"));
            assert_eq!(
                response.socket_address,
                Some(SocketAddressV4 {
                    ip: ipv4(192, 168, 1, 5),
                    port: 8080,
                })
            );
        }
        other => panic!("expected a reply, got {:?}", other),
    }
}

#[test]
fn reply_without_matching_a_yields_hostname_only() {
    let mut packet = response_header(2);
    push_srv(&mut packet, "printer._rpc._tcp.local", 8080, "host.local");
    push_a(&mut packet, "elsewhere.local", [10, 0, 0, 9]);
    match process_datagram(&packet, packet.len()) {
        ListenStep::Reply(response) => {
            assert_eq!(response.hostname.as_deref(), Some("host.local"));
            assert_eq!(response.socket_address, None);
        }
        other => panic!("expected a reply, got {:?}", other),
    }
}

#[test]
fn reply_without_address_bearing_records_yields_absent_fields() {
    let mut packet = response_header(1);
    // A PTR record: name information only, no host or address.
    push_name(&mut packet, "_rpc._tcp.local");
    push_u16(&mut packet, 12); // PTR
    push_u16(&mut packet, 1); // IN
    packet.extend_from_slice(&[0, 0, 0, 120]);
    let mut rdata = Vec::new();
    push_name(&mut rdata, "printer._rpc._tcp.local");
    push_u16(&mut packet, rdata.len() as u16);
    packet.extend_from_slice(&rdata);
    match process_datagram(&packet, packet.len()) {
        ListenStep::Reply(response) => {
            assert_eq!(response.hostname, None);
            assert_eq!(response.socket_address, None);
        }
        other => panic!("expected a reply, got {:?}", other),
    }
}

#[test]
fn a_record_alone_yields_absent_fields() {
    let mut packet = response_header(1);
    push_a(&mut packet, "host.local", [192, 168, 1, 5]);
    match process_datagram(&packet, packet.len()) {
        ListenStep::Reply(response) => {
            assert_eq!(response.hostname, None);
            assert_eq!(response.socket_address, None);
        }
        other => panic!("expected a reply, got {:?}", other),
    }
}

#[test]
fn malformed_datagram_never_ends_the_loop() {
    let garbage: Vec<u8> = vec![0xff, 0x13, 0x00, 0x07, 0xaa];
    assert!(matches!(
        process_datagram(&garbage, garbage.len()),
        ListenStep::DecodeError(_)
    ));
    // The same decision function keeps working afterwards.
    let mut packet = response_header(2);
    push_srv(&mut packet, "printer._rpc._tcp.local", 9, "host.local");
    push_a(&mut packet, "host.local", [127, 0, 0, 1]);
    assert!(matches!(
        process_datagram(&packet, packet.len()),
        ListenStep::Reply(_)
    ));
}

#[test]
fn truncated_header_is_a_decode_error() {
    let packet = response_header(1);
    assert!(matches!(
        process_datagram(&packet, 5),
        ListenStep::DecodeError(_)
    ));
}

#[test]
fn extraction_takes_first_srv_and_first_matching_a() {
    let records = vec![
        record("early.local", RecordKind::A(ipv4(10, 0, 0, 1))),
        srv("one._rpc._tcp.local", 7000, "early.local"),
        srv("two._rpc._tcp.local", 8000, "late.local"),
        record("early.local", RecordKind::A(ipv4(10, 0, 0, 2))),
    ];
    let response = Response::from_records(&records);
    assert_eq!(response.hostname.as_deref(), Some("early.local"));
    assert_eq!(
        response.socket_address,
        Some(SocketAddressV4 {
            ip: ipv4(10, 0, 0, 1),
            port: 7000,
        })
    );
}

#[test]
fn extraction_ignores_other_record_kinds() {
    let records = vec![
        record("x.local", RecordKind::Other),
        record("host.local", RecordKind::Other),
    ];
    let response = Response::from_records(&records);
    assert_eq!(response.hostname, None);
    assert_eq!(response.socket_address, None);
}

#[test]
fn session_config_with_loopback_joins_on_loopback() {
    let config = session_config("_rpc._tcp.local".to_string(), ipv4(192, 168, 1, 7), true);
    assert_eq!(config.service_name, "_rpc._tcp.local");
    assert!(config.multicast_loopback);
    assert_eq!(config.join_interface, ipv4(127, 0, 0, 1));
    assert_eq!(config.multicast_group, ipv4(224, 0, 0, 251));
    assert_eq!(config.multicast_port, MDNS_PORT);
    assert_eq!(config.receive_buffer_len, RECEIVE_BUFFER_LEN);
}

#[test]
fn session_config_without_loopback_joins_on_interface() {
    let config = session_config("_rpc._tcp.local".to_string(), ipv4(192, 168, 1, 7), false);
    assert!(!config.multicast_loopback);
    assert_eq!(config.join_interface, ipv4(192, 168, 1, 7));
}

#[test]
fn session_configs_always_allow_coexistence() {
    let one = session_config("_a._tcp.local".to_string(), ipv4(192, 168, 1, 7), true);
    let two = session_config("_b._tcp.local".to_string(), ipv4(10, 0, 0, 3), false);
    for config in [&one, &two] {
        assert!(config.reuse_address);
        assert!(config.reuse_port);
        assert_eq!(config.bind_address, ipv4(0, 0, 0, 0));
        assert_eq!(config.bind_port, MDNS_PORT);
    }
}

#[test]
fn query_destination_is_the_mdns_group() {
    let dest = mdns_group_address();
    assert_eq!(dest.ip, ipv4(224, 0, 0, 251));
    assert_eq!(dest.port, 5353);
}
