//! Waiting for an echo reply over a dedicated channel: the test that picks
//! the destination's echo reply out of the received frames.
use vstd::prelude::*;
use crate::types::{Ipv4Addr, MacAddr};
use crate::net::bytes::{be16_at, read_ipv4, read_u16_be};
use crate::net::icmp::{echo_request_frame, echo_request_message_checked, lemma_echo_request_frame_reads_back};
use crate::net::packet::{
    ethernet_payload, frame_ethertype, ipv4_payload, ipv4_payload_range, ipv4_protocol,
    ipv4_source, ETHERNET_HEADER_LEN, ETHERTYPE_IPV4, ICMP_ECHO_REPLY, IPV4_HEADER_LEN,
    IP_PROTOCOL_ICMP,
};

verus! {

/// Whether a received frame holds an Ethernet header and, when its
/// EtherType says IPv4, a whole IPv4 header.
pub open spec fn echo_listener_can_read(f: Seq<u8>) -> bool {
    &&& f.len() >= ETHERNET_HEADER_LEN
    &&& frame_ethertype(f) == ETHERTYPE_IPV4 ==> f.len() >= ETHERNET_HEADER_LEN + IPV4_HEADER_LEN
}

/// Whether `f` answers the echo request with identifier `packet_id` sent to
/// `ip_dst`: an ICMP echo reply (type 0) carried over IPv4 from `ip_dst`,
/// whose payload after the 4-byte ICMP header is at least two bytes long and
/// starts with the identifier.
pub open spec fn echo_answer(f: Seq<u8>, ip_dst: Ipv4Addr, packet_id: u16) -> bool {
    let ip = ethernet_payload(f);
    let message = ipv4_payload(ip);
    &&& frame_ethertype(f) == ETHERTYPE_IPV4
    &&& ipv4_protocol(ip) == IP_PROTOCOL_ICMP
    &&& ipv4_source(ip) == ip_dst
    &&& message.len() >= 6
    &&& message[0] == ICMP_ECHO_REPLY
    &&& be16_at(message, 4) == packet_id
}

/// Whether the listener can read `frame`.
pub fn echo_frame_is_readable(frame: &[u8]) -> (b: bool)
    ensures
        b == echo_listener_can_read(frame@),
{
    if frame.len() < ETHERNET_HEADER_LEN {
        false
    } else if read_u16_be(frame, 12) == ETHERTYPE_IPV4 {
        frame.len() >= ETHERNET_HEADER_LEN + IPV4_HEADER_LEN
    } else {
        true
    }
}

/// Whether `frame` is the echo reply from `ip_dst` to the request with
/// identifier `packet_id`.
pub fn echo_reply_matches(frame: &[u8], ip_dst: Ipv4Addr, packet_id: u16) -> (b: bool)
    requires
        echo_listener_can_read(frame@),
    ensures
        b == echo_answer(frame@, ip_dst, packet_id),
{
    if read_u16_be(frame, 12) != ETHERTYPE_IPV4 || frame[23] != IP_PROTOCOL_ICMP {
        return false;
    }
    if read_ipv4(frame, 26) != ip_dst {
        return false;
    }
    let (start, end) = ipv4_payload_range(frame, ETHERNET_HEADER_LEN);
    if end - start < 6 {
        return false;
    }
    frame[start] == ICMP_ECHO_REPLY && read_u16_be(frame, start + 4) == packet_id
}

/// An echo request, the listener's own outgoing one included, is never
/// taken for the answer to any request.
pub proof fn lemma_echo_request_is_not_an_answer(
    mac_src: MacAddr,
    mac_dst: MacAddr,
    ip_src: Ipv4Addr,
    ip_dst: Ipv4Addr,
    id: u16,
    timestamp: u64,
    any_ip: Ipv4Addr,
    any_id: u16,
)
    ensures
        echo_listener_can_read(echo_request_frame(mac_src, mac_dst, ip_src, ip_dst, id, timestamp)),
        !echo_answer(echo_request_frame(mac_src, mac_dst, ip_src, ip_dst, id, timestamp), any_ip, any_id),
{
    lemma_echo_request_frame_reads_back(mac_src, mac_dst, ip_src, ip_dst, id, timestamp);
    let m = echo_request_message_checked(id, timestamp);
    assert(m[0] == 8);
}


/// What the echo-reply test looks at: the frame is ICMP over IPv4 from
/// `ip_dst`, and the ICMP message (the IPv4 payload) is an echo reply of at
/// least six bytes whose identifier, the big-endian value in its bytes 4
/// and 5, is `packet_id`.
pub proof fn lemma_echo_answer_reads_message_identifier(f: Seq<u8>, ip_dst: Ipv4Addr, packet_id: u16)
    ensures
        echo_answer(f, ip_dst, packet_id) <==> {
            let ip = f.skip(14);
            let message = ipv4_payload(ip);
            &&& f[12] == 0x08 && f[13] == 0x00
            &&& ip[9] == 1
            &&& ip[12] == ip_dst.0 && ip[13] == ip_dst.1 && ip[14] == ip_dst.2 && ip[15] == ip_dst.3
            &&& message.len() >= 6
            &&& message[0] == 0
            &&& message[4] as int * 256 + message[5] as int == packet_id as int
        },
{
}

/// The IPv4 header's identification field (frame bytes 18 and 19), which
/// the replying host sets as it likes, has no say in whether a frame is the
/// echo reply: overwriting it never changes the answer.
pub proof fn lemma_echo_answer_ignores_ipv4_identification(
    f: Seq<u8>,
    ip_dst: Ipv4Addr,
    packet_id: u16,
    hi: u8,
    lo: u8,
)
    requires
        f.len() >= ETHERNET_HEADER_LEN + IPV4_HEADER_LEN,
    ensures
        echo_answer(f.update(18, hi).update(19, lo), ip_dst, packet_id) == echo_answer(
            f,
            ip_dst,
            packet_id,
        ),
{
    let g = f.update(18, hi).update(19, lo);
    let ip = ethernet_payload(f);
    let iq = ethernet_payload(g);
    assert(iq =~= ip.update(4, hi).update(5, lo));
    assert(frame_ethertype(g) == frame_ethertype(f));
    assert(ipv4_protocol(iq) == ipv4_protocol(ip));
    assert(ipv4_source(iq) == ipv4_source(ip));
    assert(ipv4_payload(iq) =~= ipv4_payload(ip));
}

} // verus!
