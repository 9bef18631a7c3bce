//! Resolving one hardware address over a dedicated channel: the request to
//! send and the test that picks the answer out of the received frames.
use vstd::prelude::*;
use crate::types::{Ipv4Addr, MacAddr};
use crate::net::Interface;
use crate::net::arp::{
    arp_reply_frame, arp_request_frame, build_arp_request, lemma_arp_reply_reads_back,
};
use crate::net::bytes::read_u16_be;
use crate::net::packet::{
    arp_from_bytes, ethernet_payload, frame_ethertype, lemma_padded_arp_frame_is_parsable,
    read_arp_packet, ARP_OP_REPLY,
    ARP_PACKET_LEN, ETHERNET_HEADER_LEN, ETHERTYPE_ARP,
};

verus! {

/// The broadcast request, from the interface's hardware address at `src`,
/// for the hardware address of `dst`.
pub fn build_arp_packet(iface: &Interface, src: Ipv4Addr, dst: Ipv4Addr) -> (v: Vec<u8>)
    requires
        iface.mac is Some,
    ensures
        v@ == arp_request_frame(iface.mac->0, src, dst),
{
    let mac = match iface.mac {
        Some(m) => m,
        None => MacAddr::zero(),
    };
    build_arp_request(mac, src, dst)
}

/// Whether a received frame holds an Ethernet header and, when its
/// EtherType says ARP, a whole ARP packet.
pub open spec fn arp_listener_can_read(f: Seq<u8>) -> bool {
    &&& f.len() >= ETHERNET_HEADER_LEN
    &&& frame_ethertype(f) == ETHERTYPE_ARP ==> f.len() >= ETHERNET_HEADER_LEN + ARP_PACKET_LEN
}

/// The answer to a request for `dst`, if `f` is one: an ARP reply sent by
/// `dst`, whose sender hardware address is the answer.
pub open spec fn arp_answer(f: Seq<u8>, dst: Ipv4Addr) -> Option<MacAddr> {
    let arp = arp_from_bytes(ethernet_payload(f));
    if frame_ethertype(f) == ETHERTYPE_ARP && arp.operation == ARP_OP_REPLY
        && arp.sender_proto_addr == dst {
        Some(arp.sender_hw_addr)
    } else {
        None
    }
}

/// Whether the listener can read `frame`.
pub fn arp_frame_is_readable(frame: &[u8]) -> (b: bool)
    ensures
        b == arp_listener_can_read(frame@),
        frame_ethertype(frame@) == ETHERTYPE_ARP && frame@.len() >= ETHERNET_HEADER_LEN
            + ARP_PACKET_LEN ==> b,
{
    if frame.len() < ETHERNET_HEADER_LEN {
        false
    } else if read_u16_be(frame, 12) == ETHERTYPE_ARP {
        frame.len() >= ETHERNET_HEADER_LEN + ARP_PACKET_LEN
    } else {
        true
    }
}

/// The hardware address of `dst`, if `frame` is its ARP reply.
pub fn arp_reply_sender(frame: &[u8], dst: Ipv4Addr) -> (r: Option<MacAddr>)
    requires
        arp_listener_can_read(frame@),
    ensures
        r == arp_answer(frame@, dst),
{
    if read_u16_be(frame, 12) != ETHERTYPE_ARP {
        return None;
    }
    let arp = read_arp_packet(frame, ETHERNET_HEADER_LEN);
    if arp.operation == ARP_OP_REPLY && arp.sender_proto_addr == dst {
        Some(arp.sender_hw_addr)
    } else {
        None
    }
}


/// An ARP frame with room for the whole ARP packet can be read by the
/// listener, and any bytes after the packet (such as Ethernet padding) keep
/// it readable and do not change the answer found in it.
pub proof fn lemma_padded_arp_frame_is_readable(f: Seq<u8>, extra: Seq<u8>, dst: Ipv4Addr)
    requires
        frame_ethertype(f) == ETHERTYPE_ARP,
        f.len() >= ETHERNET_HEADER_LEN + ARP_PACKET_LEN,
    ensures
        arp_listener_can_read(f),
        arp_listener_can_read(f + extra),
        arp_answer(f + extra, dst) == arp_answer(f, dst),
{
    lemma_padded_arp_frame_is_parsable(f, extra);
}

/// The reply of the host at `ip_src`, padded or not, answers a request for
/// `ip_src` with the reply's sender hardware address, and answers no request
/// for another address.
pub proof fn lemma_arp_reply_answers_request(
    mac_src: MacAddr,
    mac_dst: MacAddr,
    ip_src: Ipv4Addr,
    ip_dst: Ipv4Addr,
    extra: Seq<u8>,
    other: Ipv4Addr,
)
    ensures
        arp_listener_can_read(arp_reply_frame(mac_src, mac_dst, ip_src, ip_dst) + extra),
        arp_answer(arp_reply_frame(mac_src, mac_dst, ip_src, ip_dst) + extra, ip_src) == Some(mac_src),
        other != ip_src ==> arp_answer(arp_reply_frame(mac_src, mac_dst, ip_src, ip_dst) + extra, other) is None,
{
    let f = arp_reply_frame(mac_src, mac_dst, ip_src, ip_dst);
    lemma_arp_reply_reads_back(mac_src, mac_dst, ip_src, ip_dst);
    crate::net::packet::lemma_arp_bytes_roundtrip(
        crate::net::arp::arp_packet(ARP_OP_REPLY, mac_src, ip_src, mac_dst, ip_dst),
    );
    assert(f.len() == 42);
    lemma_padded_arp_frame_is_readable(f, extra, ip_src);
    lemma_padded_arp_frame_is_readable(f, extra, other);
}

} // verus!
