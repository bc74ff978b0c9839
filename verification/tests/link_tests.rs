use sb_ctrl_bridge::link::{
    interface_from_query, mac_eq, prepare_ifname, protocol_from_wire, FrameMeta, LinkError,
    LinkSession, NetworkInterface, ETHERNET_HW_TYPE, HOST_PACKET_KIND, HW_ADDR_LEN,
};

const NAME_LIMIT: usize = 16;
const PEER_MAC: [u8; 6] = [0xE2, 0x18, 0xE1, 0x2C, 0xF9, 0x79];

fn test_session() -> LinkSession {
    let iface = interface_from_query(ETHERNET_HW_TYPE, [0x02, 0x00, 0x00, 0x00, 0x00, 0x01], 3)
        .expect("Ethernet hardware type must be accepted");
    LinkSession::new(iface, 0xDEAD, PEER_MAC)
}

fn meta_from(source: [u8; 6], packet_kind: u8) -> FrameMeta {
    FrameMeta {
        packet_kind,
        source,
        hw_type: ETHERNET_HW_TYPE,
        hw_addr_len: HW_ADDR_LEN,
        protocol: 0xDEAD,
    }
}

#[test]
fn valid_name_is_padded_to_the_limit() {
    let buf = prepare_ifname("eth0", NAME_LIMIT).expect("short ASCII name must be accepted");
    assert_eq!(buf.len(), NAME_LIMIT);
    assert_eq!(&buf[..4], b"eth0");
    assert!(buf[4..].iter().all(|&b| b == 0));
}

#[test]
fn name_at_the_limit_is_rejected() {
    // Exactly `limit` bytes leaves no room for the terminating zero.
    let name = "abcdefghijklmnop";
    assert_eq!(name.len(), NAME_LIMIT);
    assert_eq!(prepare_ifname(name, NAME_LIMIT), Err(LinkError::NameInvalid));
}

#[test]
fn name_just_below_the_limit_is_accepted() {
    let name = "abcdefghijklmno";
    assert_eq!(name.len(), NAME_LIMIT - 1);
    let buf = prepare_ifname(name, NAME_LIMIT).expect("15-byte name must fit a 16-byte limit");
    assert_eq!(&buf[..15], name.as_bytes());
    assert_eq!(buf[15], 0);
}

#[test]
fn non_ascii_name_is_rejected_before_any_kernel_call() {
    assert_eq!(prepare_ifname("ethé", NAME_LIMIT), Err(LinkError::NameInvalid));
    assert_eq!(prepare_ifname("интерфейс", NAME_LIMIT), Err(LinkError::NameInvalid));
}

#[test]
fn overlong_name_is_rejected_before_any_kernel_call() {
    assert_eq!(
        prepare_ifname("averylonginterfacename", NAME_LIMIT),
        Err(LinkError::NameInvalid)
    );
}

#[test]
fn ethernet_interface_is_accepted() {
    let iface: NetworkInterface =
        interface_from_query(ETHERNET_HW_TYPE, [1, 2, 3, 4, 5, 6], 7).unwrap();
    assert_eq!(iface.index, 7);
    assert_eq!(iface.hw_addr, [1, 2, 3, 4, 5, 6]);
}

#[test]
fn non_ethernet_interface_is_rejected() {
    // 772 is the kernel's hardware type for the loopback device.
    assert_eq!(
        interface_from_query(772, [0; 6], 1),
        Err(LinkError::WrongLinkType)
    );
}

#[test]
fn bind_protocol_bytes_are_network_byte_order() {
    let session = test_session();
    assert_eq!(session.bind_protocol_bytes(), (0xDE, 0xAD));
}

#[test]
fn received_protocol_is_read_back_in_host_order() {
    assert_eq!(protocol_from_wire(0xDE, 0xAD), 0xDEAD);
    assert_eq!(protocol_from_wire(0x00, 0x2A), 0x002A);
    // Round trip through both conventions.
    let session = test_session();
    let (hi, lo) = session.bind_protocol_bytes();
    assert_eq!(protocol_from_wire(hi, lo), 0xDEAD);
}

#[test]
fn frames_from_other_sources_are_ignored_until_the_peer_replies() {
    // A frame from a stranger arrives first, then a genuine reply:
    // the stranger's frame is invisible, the reply is delivered.
    let session = test_session();
    let stranger = meta_from([0xAA; 6], HOST_PACKET_KIND);
    let reply = meta_from(PEER_MAC, HOST_PACKET_KIND);
    assert!(!session.accept_frame(&stranger));
    assert!(session.accept_frame(&reply));
    let trace = vec![stranger, reply];
    assert_eq!(session.select_frame(&trace), Some(1));
}

#[test]
fn the_first_genuine_reply_is_the_one_delivered() {
    let session = test_session();
    let trace = vec![
        meta_from([0xAA; 6], HOST_PACKET_KIND),
        meta_from(PEER_MAC, HOST_PACKET_KIND),
        meta_from(PEER_MAC, HOST_PACKET_KIND),
    ];
    assert_eq!(session.select_frame(&trace), Some(1));
}

#[test]
fn non_host_destined_frames_are_ignored() {
    // Even a frame from the right peer is discarded when the kernel
    // classified it as overheard rather than addressed to this host.
    let session = test_session();
    let overheard = meta_from(PEER_MAC, 1);
    assert!(!session.accept_frame(&overheard));
    let trace = vec![overheard];
    assert_eq!(session.select_frame(&trace), None);
}

#[test]
fn select_frame_waits_when_nothing_matches() {
    let session = test_session();
    let trace = vec![
        meta_from([0xAA; 6], HOST_PACKET_KIND),
        meta_from(PEER_MAC, 2),
        meta_from([0x01, 0x02, 0x03, 0x04, 0x05, 0x06], HOST_PACKET_KIND),
    ];
    assert_eq!(session.select_frame(&trace), None);
    assert_eq!(session.select_frame(&Vec::new()), None);
}

#[test]
fn metadata_consistency_check_matches_the_bound_protocol() {
    let session = test_session();
    let good = meta_from(PEER_MAC, HOST_PACKET_KIND);
    assert!(session.metadata_consistent(&good));
    let wrong_protocol = FrameMeta { protocol: 0xBEEF, ..good };
    assert!(!session.metadata_consistent(&wrong_protocol));
    let wrong_hw_type = FrameMeta { hw_type: 772, ..good };
    assert!(!session.metadata_consistent(&wrong_hw_type));
    let wrong_len = FrameMeta { hw_addr_len: 8, ..good };
    assert!(!session.metadata_consistent(&wrong_len));
}

#[test]
fn mac_comparison_is_byte_for_byte() {
    assert!(mac_eq(&PEER_MAC, &[0xE2, 0x18, 0xE1, 0x2C, 0xF9, 0x79]));
    assert!(!mac_eq(&PEER_MAC, &[0xE2, 0x18, 0xE1, 0x2C, 0xF9, 0x78]));
    assert!(!mac_eq(&[0; 6], &[0, 0, 0, 0, 0, 1]));
}

#[test]
fn session_records_the_configured_endpoint() {
    let session = test_session();
    assert_eq!(session.peer.hw_addr, PEER_MAC);
    assert_eq!(session.peer.protocol, 0xDEAD);
    assert_eq!(session.interface.index, 3);
}
