use pnet::packet::arp::{ArpHardwareType, ArpOperations, MutableArpPacket};
use pnet::packet::ethernet::{EtherTypes, MutableEthernetPacket};
use pnet::packet::icmp::{IcmpPacket, IcmpTypes, MutableIcmpPacket};
use pnet::packet::ip::IpNextHeaderProtocols;
use pnet::packet::ipv4::{self, Ipv4Packet, MutableIpv4Packet};
use pnet::packet::{icmp, Packet};
use vipping::arp::{arp_frame_is_readable, arp_reply_sender, build_arp_packet};
use vipping::icmp::{echo_frame_is_readable, echo_reply_matches};
use vipping::net::arp::{build_arp_reply, build_arp_request};
use pnet::packet::util::checksum;
use vipping::net::icmp::build_icmp_packet;
use vipping::net::packet::{classify_frame, frame_is_parsable, ArpPacket, NetFrame};
use vipping::net::{get_interface_by_name, Interface};
use vipping::types::{Ipv4Addr, MacAddr};

const PADDING: [u8; 48] = [
    0x00, 0x00, 0x00, 0x00, 0x00, 0x00, 0x00, 0x00, 0x10, 0x11, 0x12, 0x13, 0x14, 0x15, 0x16, 0x17,
    0x18, 0x19, 0x1a, 0x1b, 0x1c, 0x1d, 0x1e, 0x1f, 0x20, 0x21, 0x22, 0x23, 0x24, 0x25, 0x26, 0x27,
    0x28, 0x29, 0x2a, 0x2b, 0x2c, 0x2d, 0x2e, 0x2f, 0x30, 0x31, 0x32, 0x33, 0x34, 0x35, 0x36, 0x37,
];

fn pmac(m: MacAddr) -> pnet::util::MacAddr {
    pnet::util::MacAddr(m.0, m.1, m.2, m.3, m.4, m.5)
}

fn pip(a: Ipv4Addr) -> core::net::Ipv4Addr {
    core::net::Ipv4Addr::new(a.0, a.1, a.2, a.3)
}

fn our_mac() -> MacAddr {
    MacAddr(0x02, 0x11, 0x22, 0x33, 0x44, 0x55)
}

fn peer_mac() -> MacAddr {
    MacAddr(0x0a, 0xbb, 0xcc, 0xdd, 0xee, 0x01)
}

/// The request frame as pnet's packet setters write it.
fn pnet_arp_frame(op_reply: bool, src: MacAddr, dst: MacAddr, ip_src: Ipv4Addr, ip_dst: Ipv4Addr) -> Vec<u8> {
    let mut buffer = [0u8; 42];
    let mut epkt = MutableEthernetPacket::new(&mut buffer).unwrap();
    epkt.set_destination(if op_reply { pmac(dst) } else { pnet::util::MacAddr::broadcast() });
    epkt.set_source(pmac(src));
    epkt.set_ethertype(EtherTypes::Arp);
    let mut arp_buffer = [0u8; 28];
    let mut apkt = MutableArpPacket::new(&mut arp_buffer).unwrap();
    apkt.set_operation(if op_reply { ArpOperations::Reply } else { ArpOperations::Request });
    apkt.set_hardware_type(ArpHardwareType::new(1));
    apkt.set_protocol_type(EtherTypes::Ipv4);
    apkt.set_hw_addr_len(6);
    apkt.set_proto_addr_len(4);
    apkt.set_sender_hw_addr(pmac(src));
    apkt.set_target_hw_addr(if op_reply { pmac(dst) } else { pnet::util::MacAddr::zero() });
    apkt.set_sender_proto_addr(pip(ip_src));
    apkt.set_target_proto_addr(pip(ip_dst));
    epkt.set_payload(&arp_buffer);
    epkt.packet().to_vec()
}

/// The echo request frame as pnet's packet setters and checksums write it.
fn pnet_echo_frame(src: MacAddr, dst: MacAddr, ip_src: Ipv4Addr, ip_dst: Ipv4Addr, id: u16, ts: u64) -> Vec<u8> {
    let mut buffer = [0u8; 98];
    let mut ip_buffer = [0u8; 84];
    let mut icmp_buffer = [0u8; 64];
    let mut ethernet_packet = MutableEthernetPacket::new(&mut buffer).unwrap();
    ethernet_packet.set_destination(pmac(dst));
    ethernet_packet.set_source(pmac(src));
    ethernet_packet.set_ethertype(EtherTypes::Ipv4);
    let mut ip_packet = MutableIpv4Packet::new(&mut ip_buffer).unwrap();
    ip_packet.set_version(4);
    ip_packet.set_header_length(5);
    ip_packet.set_total_length(84);
    ip_packet.set_identification(id);
    ip_packet.set_flags(0x02);
    ip_packet.set_ttl(64);
    ip_packet.set_next_level_protocol(IpNextHeaderProtocols::Icmp);
    ip_packet.set_source(pip(ip_src));
    ip_packet.set_destination(pip(ip_dst));
    let ip_checksum = ipv4::checksum(&Ipv4Packet::new(ip_packet.packet()).unwrap());
    ip_packet.set_checksum(ip_checksum);
    let mut icmp_packet = MutableIcmpPacket::new(&mut icmp_buffer).unwrap();
    icmp_packet.set_icmp_type(IcmpTypes::EchoRequest);
    let mut icmp_payload = id.to_be_bytes().to_vec();
    icmp_payload.push(0x00);
    icmp_payload.push(0x01);
    icmp_payload.extend(ts.to_le_bytes());
    icmp_payload.extend(PADDING);
    icmp_packet.set_payload(&icmp_payload);
    let icmp_checksum = icmp::checksum(&IcmpPacket::new(icmp_packet.packet()).unwrap());
    icmp_packet.set_checksum(icmp_checksum);
    ip_packet.set_payload(icmp_packet.packet());
    ethernet_packet.set_payload(ip_packet.packet());
    ethernet_packet.packet().to_vec()
}

#[test]
fn arp_request_is_broadcast_request() {
    let frame = build_arp_request(our_mac(), Ipv4Addr(10, 0, 0, 123), Ipv4Addr(10, 0, 0, 1));
    let expected: Vec<u8> = vec![
        0xff, 0xff, 0xff, 0xff, 0xff, 0xff, 0x02, 0x11, 0x22, 0x33, 0x44, 0x55, 0x08, 0x06, 0x00,
        0x01, 0x08, 0x00, 0x06, 0x04, 0x00, 0x01, 0x02, 0x11, 0x22, 0x33, 0x44, 0x55, 10, 0, 0, 123,
        0, 0, 0, 0, 0, 0, 10, 0, 0, 1,
    ];
    assert_eq!(frame, expected);
    assert_eq!(frame, pnet_arp_frame(false, our_mac(), peer_mac(), Ipv4Addr(10, 0, 0, 123), Ipv4Addr(10, 0, 0, 1)));
}

#[test]
fn arp_reply_matches_pnet_layout() {
    let frame = build_arp_reply(our_mac(), peer_mac(), Ipv4Addr(10, 0, 0, 123), Ipv4Addr(10, 0, 0, 7));
    assert_eq!(frame.len(), 42);
    assert_eq!(&frame[0..6], &[0x0a, 0xbb, 0xcc, 0xdd, 0xee, 0x01]);
    assert_eq!(&frame[20..22], &[0x00, 0x02]);
    assert_eq!(frame, pnet_arp_frame(true, our_mac(), peer_mac(), Ipv4Addr(10, 0, 0, 123), Ipv4Addr(10, 0, 0, 7)));
}

#[test]
fn arp_packet_from_interface() {
    let iface = Interface { name: "eth0".to_string(), index: 2, mac: Some(our_mac()) };
    let frame = build_arp_packet(&iface, Ipv4Addr(192, 168, 1, 5), Ipv4Addr(192, 168, 1, 1));
    assert_eq!(frame, build_arp_request(our_mac(), Ipv4Addr(192, 168, 1, 5), Ipv4Addr(192, 168, 1, 1)));
}

#[test]
fn echo_request_matches_pnet_layout() {
    let src = Ipv4Addr(10, 0, 0, 123);
    let dst = Ipv4Addr(8, 8, 8, 8);
    let ts = 0x0102_0304_0506_0708u64;
    let frame = build_icmp_packet(our_mac(), peer_mac(), src, dst, 0xbeef, ts);
    assert_eq!(frame.len(), 98);
    assert_eq!(frame, pnet_echo_frame(our_mac(), peer_mac(), src, dst, 0xbeef, ts));
    assert_eq!(&frame[12..14], &[0x08, 0x00]);
    assert_eq!(&frame[14..24], &[0x45, 0x00, 0x00, 84, 0xbe, 0xef, 0x40, 0x00, 64, 1]);
    assert_eq!(&frame[34..36], &[8, 0]);
    assert_eq!(&frame[38..42], &[0xbe, 0xef, 0x00, 0x01]);
    assert_eq!(&frame[42..50], &[8, 7, 6, 5, 4, 3, 2, 1]);
    assert_eq!(&frame[50..98], &PADDING[..]);
}

#[test]
fn echo_request_checksums_verify() {
    let frame = build_icmp_packet(our_mac(), peer_mac(), Ipv4Addr(1, 2, 3, 4), Ipv4Addr(5, 6, 7, 8), 7, 1_700_000_000);
    assert_eq!(checksum(&frame[14..34], 10), 0);
    assert_eq!(checksum(&frame[34..98], 32), 0);
    assert_eq!(ipv4::checksum(&Ipv4Packet::new(&frame[14..34]).unwrap()), u16::from_be_bytes([frame[24], frame[25]]));
    assert_eq!(icmp::checksum(&IcmpPacket::new(&frame[34..98]).unwrap()), u16::from_be_bytes([frame[36], frame[37]]));
    let stored_ip = u16::from_be_bytes([frame[24], frame[25]]);
    assert_eq!(stored_ip, checksum(&frame[14..34], 5));
    let stored_icmp = u16::from_be_bytes([frame[36], frame[37]]);
    assert_eq!(stored_icmp, checksum(&frame[34..98], 1));
}

#[test]
fn classify_reads_arp_request_back() {
    let frame = build_arp_request(our_mac(), Ipv4Addr(10, 0, 0, 123), Ipv4Addr(10, 0, 0, 1));
    assert!(frame_is_parsable(&frame));
    match classify_frame(&frame) {
        NetFrame::Arp(a) => assert_eq!(
            a,
            ArpPacket {
                hardware_type: 1,
                protocol_type: 0x0800,
                hw_addr_len: 6,
                proto_addr_len: 4,
                operation: 1,
                sender_hw_addr: our_mac(),
                sender_proto_addr: Ipv4Addr(10, 0, 0, 123),
                target_hw_addr: MacAddr(0, 0, 0, 0, 0, 0),
                target_proto_addr: Ipv4Addr(10, 0, 0, 1),
            }
        ),
        other => panic!("unexpected {:?}", other),
    }
}

#[test]
fn classify_reads_echo_request_back() {
    let frame = build_icmp_packet(our_mac(), peer_mac(), Ipv4Addr(1, 2, 3, 4), Ipv4Addr(5, 6, 7, 8), 0x1234, 9);
    assert!(frame_is_parsable(&frame));
    match classify_frame(&frame) {
        NetFrame::Icmp(m) => {
            assert_eq!(m.source, Ipv4Addr(1, 2, 3, 4));
            assert_eq!(m.destination, Ipv4Addr(5, 6, 7, 8));
            assert_eq!(m.icmp_type, 8);
            assert_eq!(m.icmp_code, 0);
            assert_eq!(m.payload.len(), 60);
            assert_eq!(&m.payload[0..4], &[0x12, 0x34, 0x00, 0x01]);
        }
        other => panic!("unexpected {:?}", other),
    }
}

#[test]
fn classify_ignores_other_traffic() {
    let mut frame = build_icmp_packet(our_mac(), peer_mac(), Ipv4Addr(1, 2, 3, 4), Ipv4Addr(5, 6, 7, 8), 1, 1);
    frame[23] = 17;
    assert!(frame_is_parsable(&frame));
    assert!(matches!(classify_frame(&frame), NetFrame::Other));
    let mut ipv6 = frame.clone();
    ipv6[12] = 0x86;
    ipv6[13] = 0xdd;
    assert!(matches!(classify_frame(&ipv6), NetFrame::Other));
}

#[test]
fn short_frames_are_not_parsable() {
    assert!(!frame_is_parsable(&[0u8; 13]));
    let arp = build_arp_request(our_mac(), Ipv4Addr(1, 1, 1, 1), Ipv4Addr(2, 2, 2, 2));
    assert!(!frame_is_parsable(&arp[..41]));
    assert!(frame_is_parsable(&arp[..14 + 28]));
    let echo = build_icmp_packet(our_mac(), peer_mac(), Ipv4Addr(1, 2, 3, 4), Ipv4Addr(5, 6, 7, 8), 1, 1);
    assert!(!frame_is_parsable(&echo[..33]));
    assert!(!frame_is_parsable(&echo[..37]));
    assert!(frame_is_parsable(&echo[..38]));
}

#[test]
fn ipv4_payload_follows_total_length() {
    // A total length of 24 leaves four payload bytes, whatever follows.
    let mut frame = build_icmp_packet(our_mac(), peer_mac(), Ipv4Addr(1, 2, 3, 4), Ipv4Addr(5, 6, 7, 8), 0xabcd, 1);
    frame[16] = 0;
    frame[17] = 24;
    match classify_frame(&frame) {
        NetFrame::Icmp(m) => assert_eq!(m.payload.len(), 0),
        other => panic!("unexpected {:?}", other),
    }
    frame[17] = 20;
    assert!(!frame_is_parsable(&frame));
}

#[test]
fn arp_listener_picks_reply_from_target() {
    let reply = build_arp_reply(peer_mac(), our_mac(), Ipv4Addr(10, 0, 0, 1), Ipv4Addr(10, 0, 0, 123));
    assert!(arp_frame_is_readable(&reply));
    assert_eq!(arp_reply_sender(&reply, Ipv4Addr(10, 0, 0, 1)), Some(peer_mac()));
    assert_eq!(arp_reply_sender(&reply, Ipv4Addr(10, 0, 0, 2)), None);
    let request = build_arp_request(peer_mac(), Ipv4Addr(10, 0, 0, 1), Ipv4Addr(10, 0, 0, 123));
    assert_eq!(arp_reply_sender(&request, Ipv4Addr(10, 0, 0, 1)), None);
    let echo = build_icmp_packet(our_mac(), peer_mac(), Ipv4Addr(10, 0, 0, 1), Ipv4Addr(5, 6, 7, 8), 1, 1);
    assert_eq!(arp_reply_sender(&echo, Ipv4Addr(10, 0, 0, 1)), None);
    assert!(!arp_frame_is_readable(&reply[..30]));
    assert!(!arp_frame_is_readable(&reply[..10]));
    assert!(arp_frame_is_readable(&echo[..20]));
}

#[test]
fn echo_listener_takes_only_the_destinations_reply() {
    let src = Ipv4Addr(1, 2, 3, 4);
    let dst = Ipv4Addr(5, 6, 7, 8);
    let request = build_icmp_packet(our_mac(), peer_mac(), src, dst, 0x4242, 3);
    assert!(echo_frame_is_readable(&request));
    // The outgoing request, seen on the raw channel, is not its own answer.
    assert!(!echo_reply_matches(&request, dst, 0x4242));
    assert!(!echo_reply_matches(&request, src, 0x4242));
    // The destination's echo reply: addresses swapped, type 0, payload echoed.
    let mut reply = request.clone();
    reply[26..30].copy_from_slice(&[5, 6, 7, 8]);
    reply[30..34].copy_from_slice(&[1, 2, 3, 4]);
    reply[34] = 0;
    assert!(echo_reply_matches(&reply, dst, 0x4242));
    assert!(!echo_reply_matches(&reply, dst, 0x4243));
    assert!(!echo_reply_matches(&reply, Ipv4Addr(9, 9, 9, 9), 0x4242));
    let arp = build_arp_request(our_mac(), Ipv4Addr(1, 1, 1, 1), Ipv4Addr(2, 2, 2, 2));
    assert!(!echo_reply_matches(&arp, dst, 0x0101));
    assert!(!echo_frame_is_readable(&request[..30]));
    // An ICMP payload shorter than two bytes never matches.
    let mut short = reply.clone();
    short[16] = 0;
    short[17] = 25;
    assert!(!echo_reply_matches(&short, dst, 0x4242));
}

#[test]
fn interface_lookup_takes_first_match() {
    let ifaces = vec![
        Interface { name: "lo".to_string(), index: 1, mac: None },
        Interface { name: "ens8".to_string(), index: 3, mac: Some(our_mac()) },
        Interface { name: "ens8".to_string(), index: 4, mac: None },
    ];
    let found = get_interface_by_name(ifaces, "ens8").unwrap();
    assert_eq!(found.index, 3);
    assert_eq!(found.mac, Some(our_mac()));
    let none = get_interface_by_name(vec![Interface { name: "lo".to_string(), index: 1, mac: None }], "eth0");
    assert!(none.is_none());
    assert!(get_interface_by_name(Vec::new(), "lo").is_none());
}
