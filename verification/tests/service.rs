use vipping::net::arp::{build_arp_reply, build_arp_request};
use vipping::net::packet::{classify_frame, ArpPacket, IcmpMessage, NetFrame};
use vipping::service::{
    arp_target, ping_status_code, prepare_icmp_request, process_arp_pkt, process_icmp_pkt,
    reply_answers_record,
    ArpAction, PingAction, PingEvent, PingPhase, PingSession,
};
use vipping::types::{Ipv4Addr, MacAddr, PingIdRecordEntry};
use vipping::net::icmp::build_icmp_packet;

const SRC: Ipv4Addr = Ipv4Addr(10, 0, 0, 123);
const DST: Ipv4Addr = Ipv4Addr(10, 0, 0, 1);
const GW: Ipv4Addr = Ipv4Addr(10, 0, 0, 254);
const MAC: MacAddr = MacAddr(0x0a, 0, 0, 0, 0, 1);
const OURS: MacAddr = MacAddr(0x02, 0, 0, 0, 0, 9);

fn arp_of(frame: &[u8]) -> ArpPacket {
    match classify_frame(frame) {
        NetFrame::Arp(a) => a,
        other => panic!("unexpected {:?}", other),
    }
}

#[test]
fn arp_request_is_answered_for_asked_address() {
    let request = build_arp_request(MAC, DST, SRC);
    let action = process_arp_pkt(&arp_of(&request));
    assert_eq!(action, ArpAction::ReplyIfInUse { mac_dst: MAC, ip_src: SRC, ip_dst: DST });
    if let ArpAction::ReplyIfInUse { mac_dst, ip_src, ip_dst } = action {
        let reply = build_arp_reply(OURS, mac_dst, ip_src, ip_dst);
        assert_eq!(process_arp_pkt(&arp_of(&reply)), ArpAction::Learn { ip: SRC, mac: OURS });
    }
}

#[test]
fn arp_reply_is_learned_and_other_operations_ignored() {
    let reply = build_arp_reply(MAC, OURS, DST, SRC);
    assert_eq!(process_arp_pkt(&arp_of(&reply)), ArpAction::Learn { ip: DST, mac: MAC });
    let mut odd = arp_of(&reply);
    odd.operation = 3;
    assert_eq!(process_arp_pkt(&odd), ArpAction::Ignore);
}

#[test]
fn echo_reply_yields_source_and_identifier() {
    let reply = IcmpMessage {
        source: DST,
        destination: SRC,
        icmp_type: 0,
        icmp_code: 0,
        checksum: 0,
        payload: vec![0xab, 0xcd, 0, 1, 9, 9],
    };
    assert_eq!(process_icmp_pkt(&reply), Some((DST, 0xabcd)));
    let request = IcmpMessage { icmp_type: 8, ..reply };
    assert_eq!(process_icmp_pkt(&request), None);
    let unreachable = IcmpMessage {
        source: DST,
        destination: SRC,
        icmp_type: 3,
        icmp_code: 1,
        checksum: 0,
        payload: vec![],
    };
    assert_eq!(process_icmp_pkt(&unreachable), None);
}

#[test]
fn echo_request_from_service_is_not_taken_for_reply() {
    let frame = build_icmp_packet(OURS, MAC, SRC, DST, 77, 5);
    match classify_frame(&frame) {
        NetFrame::Icmp(m) => assert_eq!(process_icmp_pkt(&m), None),
        other => panic!("unexpected {:?}", other),
    }
}

#[test]
fn prepared_request_carries_its_identifier() {
    let (id, frame) = prepare_icmp_request(OURS, MAC, SRC, DST, 1234);
    assert_eq!(frame, build_icmp_packet(OURS, MAC, SRC, DST, id, 1234));
    assert_eq!(u16::from_be_bytes([frame[38], frame[39]]), id);
    assert_eq!(u16::from_be_bytes([frame[18], frame[19]]), id);
}

#[test]
fn record_entry_matches_only_its_identifier() {
    let now = std::time::SystemTime::now();
    let entry = PingIdRecordEntry::new(0x1234, now);
    assert!(entry.equals(0x1234));
    assert!(!entry.equals(0x1235));
    assert_eq!(entry.time(), now);
}

#[test]
fn status_codes() {
    assert_eq!(ping_status_code(true), 0);
    assert_eq!(ping_status_code(false), -1);
}

#[test]
fn arp_target_prefers_gateway() {
    assert_eq!(arp_target(DST, Some(GW)), GW);
    assert_eq!(arp_target(DST, None), DST);
}

#[test]
fn ping_with_cached_mac_and_reply() {
    let (mut s, a) = PingSession::new(SRC, DST, None, 1_000_000);
    assert_eq!(a, PingAction::MarkAddressInUse(SRC));
    assert_eq!(s.step(PingEvent::Done), PingAction::LookupMac(DST));
    assert_eq!(
        s.step(PingEvent::MacLookedUp(Some(MAC))),
        PingAction::SendEchoRequest { mac_dst: MAC, ip_src: SRC, ip_dst: DST }
    );
    assert_eq!(s.step(PingEvent::EchoSent(42)), PingAction::RecordPingId { ip_dst: DST, packet_id: 42 });
    assert_eq!(s.step(PingEvent::Waited { elapsed_us: 0 }), PingAction::LookupReply(DST));
    assert_eq!(s.step(PingEvent::ReplyLookedUp(None)), PingAction::SleepMicros(300));
    assert_eq!(s.step(PingEvent::Waited { elapsed_us: 400 }), PingAction::LookupReply(DST));
    // A reply left by an earlier ping answers another request.
    assert_eq!(s.step(PingEvent::ReplyLookedUp(Some(41))), PingAction::SleepMicros(300));
    assert_eq!(s.step(PingEvent::Waited { elapsed_us: 800 }), PingAction::LookupReply(DST));
    assert_eq!(s.step(PingEvent::ReplyLookedUp(Some(42))), PingAction::Finish { success: true });
    assert_eq!(s.phase, PingPhase::Finished { success: true });
    assert_eq!(s.step(PingEvent::Done), PingAction::Finish { success: true });
}

#[test]
fn ping_resolves_gateway_mac_first() {
    let (mut s, _) = PingSession::new(SRC, DST, Some(GW), 2_000_000);
    assert_eq!(s.step(PingEvent::Done), PingAction::LookupMac(GW));
    assert_eq!(s.step(PingEvent::MacLookedUp(None)), PingAction::SendArpRequest { ip_src: SRC, ip_dst: GW });
    assert_eq!(s.step(PingEvent::Waited { elapsed_us: 5 }), PingAction::LookupMac(GW));
    assert_eq!(s.step(PingEvent::MacLookedUp(None)), PingAction::SleepMicros(2000));
    assert_eq!(s.step(PingEvent::Waited { elapsed_us: 2100 }), PingAction::LookupMac(GW));
    assert_eq!(
        s.step(PingEvent::MacLookedUp(Some(MAC))),
        PingAction::SendEchoRequest { mac_dst: MAC, ip_src: SRC, ip_dst: DST }
    );
}

#[test]
fn ping_gives_up_when_mac_never_resolves() {
    let (mut s, _) = PingSession::new(SRC, DST, None, 1000);
    s.step(PingEvent::Done);
    s.step(PingEvent::MacLookedUp(None));
    assert_eq!(s.step(PingEvent::Waited { elapsed_us: 1000 }), PingAction::Finish { success: false });
    assert_eq!(s.phase, PingPhase::Finished { success: false });
}

#[test]
fn ping_gives_up_when_reply_never_comes() {
    let (mut s, _) = PingSession::new(SRC, DST, None, 1000);
    s.step(PingEvent::Done);
    s.step(PingEvent::MacLookedUp(Some(MAC)));
    s.step(PingEvent::EchoSent(1));
    assert_eq!(s.step(PingEvent::Waited { elapsed_us: 10 }), PingAction::LookupReply(DST));
    assert_eq!(s.step(PingEvent::ReplyLookedUp(None)), PingAction::SleepMicros(300));
    assert_eq!(s.step(PingEvent::Waited { elapsed_us: 1001 }), PingAction::Finish { success: false });
}

#[test]
fn zero_timeout_fails_before_first_lookup() {
    let (mut s, _) = PingSession::new(SRC, DST, None, 0);
    s.step(PingEvent::Done);
    s.step(PingEvent::MacLookedUp(Some(MAC)));
    s.step(PingEvent::EchoSent(9));
    assert_eq!(s.step(PingEvent::Waited { elapsed_us: 0 }), PingAction::Finish { success: false });
}

#[test]
fn unexpected_event_ends_ping() {
    let (mut s, _) = PingSession::new(SRC, DST, None, 1000);
    assert_eq!(s.step(PingEvent::EchoSent(3)), PingAction::Finish { success: false });
    assert_eq!(s.ip_dst, DST);
}

#[test]
fn echoed_payload_answers_request() {
    let frame = build_icmp_packet(OURS, MAC, SRC, DST, 0x5151, 99);
    // The peer's reply: addresses swapped, type 0, the payload echoed back.
    let mut reply = frame.clone();
    reply[26..30].copy_from_slice(&[10, 0, 0, 1]);
    reply[30..34].copy_from_slice(&[10, 0, 0, 123]);
    reply[34] = 0;
    match classify_frame(&reply) {
        NetFrame::Icmp(m) => {
            assert_eq!(m.icmp_type, 0);
            assert_eq!(&m.payload[..], &frame[38..98]);
            assert_eq!(process_icmp_pkt(&m), Some((DST, 0x5151)));
        }
        other => panic!("unexpected {:?}", other),
    }
}

#[test]
fn reply_must_carry_recorded_identifier() {
    let entry = PingIdRecordEntry::new(7, std::time::SystemTime::now());
    assert!(reply_answers_record(Some(entry), 7));
    assert!(!reply_answers_record(Some(entry), 8));
    assert!(!reply_answers_record(None, 7));
}

#[test]
fn listener_timeout_defaults_to_one_second() {
    assert_eq!(vipping::net::listen_timeout_secs(None), 1);
    assert_eq!(vipping::net::listen_timeout_secs(Some(5)), 5);
}
