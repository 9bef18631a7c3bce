//! ARP requests and replies for IPv4 over Ethernet.
use vstd::prelude::*;
use crate::types::{Ipv4Addr, MacAddr};
use crate::net::packet::{
    ArpPacket, arp_bytes, arp_from_bytes, ethernet_payload, frame_ethertype, parsable_frame,
    lemma_arp_bytes_roundtrip, ethernet_header, push_arp_packet, push_ethernet_header,
    ARP_HARDWARE_ETHERNET, ARP_OP_REPLY, ARP_OP_REQUEST, ETHERTYPE_ARP, ETHERTYPE_IPV4,
};

verus! {

/// The ARP packet of `sender` (at `sender_ip`) with operation `operation`,
/// addressed to `target` at `target_ip`.
pub open spec fn arp_packet(
    operation: u16,
    sender: MacAddr,
    sender_ip: Ipv4Addr,
    target: MacAddr,
    target_ip: Ipv4Addr,
) -> ArpPacket {
    ArpPacket {
        hardware_type: ARP_HARDWARE_ETHERNET,
        protocol_type: ETHERTYPE_IPV4,
        hw_addr_len: 6,
        proto_addr_len: 4,
        operation,
        sender_hw_addr: sender,
        sender_proto_addr: sender_ip,
        target_hw_addr: target,
        target_proto_addr: target_ip,
    }
}

/// The broadcast frame in which `mac_src`, at `ip_src`, asks who has `ip_dst`.
pub open spec fn arp_request_frame(mac_src: MacAddr, ip_src: Ipv4Addr, ip_dst: Ipv4Addr) -> Seq<u8> {
    ethernet_header(MacAddr(0xff, 0xff, 0xff, 0xff, 0xff, 0xff), mac_src, ETHERTYPE_ARP)
        + arp_bytes(
        arp_packet(ARP_OP_REQUEST, mac_src, ip_src, MacAddr(0, 0, 0, 0, 0, 0), ip_dst),
    )
}

/// The frame in which `mac_src` tells `mac_dst` (at `ip_dst`) that `ip_src` is at `mac_src`.
pub open spec fn arp_reply_frame(
    mac_src: MacAddr,
    mac_dst: MacAddr,
    ip_src: Ipv4Addr,
    ip_dst: Ipv4Addr,
) -> Seq<u8> {
    ethernet_header(mac_dst, mac_src, ETHERTYPE_ARP) + arp_bytes(
        arp_packet(ARP_OP_REPLY, mac_src, ip_src, mac_dst, ip_dst),
    )
}

fn arp_frame(
    eth_dst: MacAddr,
    operation: u16,
    sender: MacAddr,
    sender_ip: Ipv4Addr,
    target: MacAddr,
    target_ip: Ipv4Addr,
) -> (v: Vec<u8>)
    ensures
        v@ == ethernet_header(eth_dst, sender, ETHERTYPE_ARP) + arp_bytes(
            arp_packet(operation, sender, sender_ip, target, target_ip),
        ),
{
    let mut v: Vec<u8> = Vec::new();
    push_ethernet_header(&mut v, eth_dst, sender, ETHERTYPE_ARP);
    let a = ArpPacket {
        hardware_type: ARP_HARDWARE_ETHERNET,
        protocol_type: ETHERTYPE_IPV4,
        hw_addr_len: 6,
        proto_addr_len: 4,
        operation,
        sender_hw_addr: sender,
        sender_proto_addr: sender_ip,
        target_hw_addr: target,
        target_proto_addr: target_ip,
    };
    push_arp_packet(&mut v, &a);
    assert(v@ =~= ethernet_header(eth_dst, sender, ETHERTYPE_ARP) + arp_bytes(a));
    v
}

/// The 42-byte broadcast ARP request frame in which `mac_src`, at `ip_src`,
/// asks for the hardware address of `ip_dst`.
pub fn build_arp_request(mac_src: MacAddr, ip_src: Ipv4Addr, ip_dst: Ipv4Addr) -> (v: Vec<u8>)
    ensures
        v@ == arp_request_frame(mac_src, ip_src, ip_dst),
        v@.len() == 42,
{
    proof {
        crate::net::packet::lemma_arp_bytes_roundtrip(
            arp_packet(ARP_OP_REQUEST, mac_src, ip_src, MacAddr(0, 0, 0, 0, 0, 0), ip_dst),
        );
    }
    arp_frame(MacAddr::broadcast(), ARP_OP_REQUEST, mac_src, ip_src, MacAddr::zero(), ip_dst)
}

/// The 42-byte ARP reply frame, sent from `mac_src` to `mac_dst`, saying
/// that `ip_src` is at `mac_src`; its target is `mac_dst` at `ip_dst`.
pub fn build_arp_reply(mac_src: MacAddr, mac_dst: MacAddr, ip_src: Ipv4Addr, ip_dst: Ipv4Addr) -> (v:
    Vec<u8>)
    ensures
        v@ == arp_reply_frame(mac_src, mac_dst, ip_src, ip_dst),
        v@.len() == 42,
{
    proof {
        crate::net::packet::lemma_arp_bytes_roundtrip(
            arp_packet(ARP_OP_REPLY, mac_src, ip_src, mac_dst, ip_dst),
        );
    }
    arp_frame(mac_dst, ARP_OP_REPLY, mac_src, ip_src, mac_dst, ip_dst)
}


/// An ARP request frame reads back as the ARP request it was built from.
pub proof fn lemma_arp_request_reads_back(mac_src: MacAddr, ip_src: Ipv4Addr, ip_dst: Ipv4Addr)
    ensures
        ({
            let f = arp_request_frame(mac_src, ip_src, ip_dst);
            &&& parsable_frame(f)
            &&& frame_ethertype(f) == ETHERTYPE_ARP
            &&& arp_from_bytes(ethernet_payload(f)) == arp_packet(
                ARP_OP_REQUEST,
                mac_src,
                ip_src,
                MacAddr(0, 0, 0, 0, 0, 0),
                ip_dst,
            )
        }),
{
    let a = arp_packet(ARP_OP_REQUEST, mac_src, ip_src, MacAddr(0, 0, 0, 0, 0, 0), ip_dst);
    let f = arp_request_frame(mac_src, ip_src, ip_dst);
    lemma_arp_bytes_roundtrip(a);
    assert(ethernet_payload(f) =~= arp_bytes(a));
    assert(f[12] == 8 && f[13] == 6);
}

/// An ARP reply frame reads back as the ARP reply it was built from.
pub proof fn lemma_arp_reply_reads_back(
    mac_src: MacAddr,
    mac_dst: MacAddr,
    ip_src: Ipv4Addr,
    ip_dst: Ipv4Addr,
)
    ensures
        ({
            let f = arp_reply_frame(mac_src, mac_dst, ip_src, ip_dst);
            &&& parsable_frame(f)
            &&& frame_ethertype(f) == ETHERTYPE_ARP
            &&& arp_from_bytes(ethernet_payload(f)) == arp_packet(
                ARP_OP_REPLY,
                mac_src,
                ip_src,
                mac_dst,
                ip_dst,
            )
        }),
{
    let a = arp_packet(ARP_OP_REPLY, mac_src, ip_src, mac_dst, ip_dst);
    let f = arp_reply_frame(mac_src, mac_dst, ip_src, ip_dst);
    lemma_arp_bytes_roundtrip(a);
    assert(ethernet_payload(f) =~= arp_bytes(a));
    assert(f[12] == 8 && f[13] == 6);
}

} // verus!
