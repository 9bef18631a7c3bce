//! ICMP echo requests carried in IPv4 over Ethernet.
use vstd::prelude::*;
use crate::types::{Ipv4Addr, MacAddr};
use crate::net::bytes::{be16, le64, push_all, push_ipv4, push_u16_be, push_u64_le, set_u16_be};
use crate::net::checksum::{checksum, internet_checksum, lemma_checksum_verifies, word_count};
use crate::net::packet::{
    ethernet_header, ethernet_payload, frame_ethertype, ipv4_destination, ipv4_payload,
    ipv4_protocol, ipv4_source, parsable_frame, push_ethernet_header, ETHERTYPE_IPV4,
    IP_PROTOCOL_ICMP,
};

verus! {

/// The 48 bytes that fill an echo request after the timestamp: eight zeros,
/// then the values 0x10 through 0x37.
pub open spec fn echo_padding() -> Seq<u8> {
    Seq::new(48, |i: int| if i < 8 { 0u8 } else { (i + 8) as u8 })
}

/// The 20-byte IPv4 header of an echo request: version 4, no options, total
/// length 84, identification `id`, don't-fragment, TTL 64, protocol ICMP,
/// header checksum `csum`.
pub open spec fn echo_ipv4_header(id: u16, src: Ipv4Addr, dst: Ipv4Addr, csum: u16) -> Seq<u8> {
    seq![0x45u8, 0x00] + be16(84) + be16(id) + seq![0x40u8, 0x00, 64, 1] + be16(csum) + src.octets()
        + dst.octets()
}

/// The 64-byte echo request message: type 8, code 0, checksum `csum`, then
/// the identifier, sequence number 1, the timestamp in seconds (least
/// significant byte first) and the padding.
pub open spec fn echo_request_message(id: u16, timestamp: u64, csum: u16) -> Seq<u8> {
    seq![8u8, 0] + be16(csum) + be16(id) + seq![0u8, 1] + le64(timestamp) + echo_padding()
}

/// The IPv4 header of an echo request with its checksum filled in.
pub open spec fn echo_ipv4_header_checked(id: u16, src: Ipv4Addr, dst: Ipv4Addr) -> Seq<u8> {
    echo_ipv4_header(id, src, dst, internet_checksum(echo_ipv4_header(id, src, dst, 0), 5))
}

/// The echo request message with its checksum filled in.
pub open spec fn echo_request_message_checked(id: u16, timestamp: u64) -> Seq<u8> {
    echo_request_message(id, timestamp, internet_checksum(echo_request_message(id, timestamp, 0), 1))
}

/// The 98-byte frame that carries an echo request from `mac_src`/`ip_src`
/// to `mac_dst`/`ip_dst`.
pub open spec fn echo_request_frame(
    mac_src: MacAddr,
    mac_dst: MacAddr,
    ip_src: Ipv4Addr,
    ip_dst: Ipv4Addr,
    id: u16,
    timestamp: u64,
) -> Seq<u8> {
    ethernet_header(mac_dst, mac_src, ETHERTYPE_IPV4) + echo_ipv4_header_checked(id, ip_src, ip_dst)
        + echo_request_message_checked(id, timestamp)
}

fn push_echo_padding(v: &mut Vec<u8>)
    ensures
        final(v)@ == old(v)@ + echo_padding(),
{
    let mut k: u8 = 0;
    while k < 48
        invariant
            k <= 48,
            v@ == old(v)@ + echo_padding().take(k as int),
        decreases 48 - k,
    {
        if k < 8 {
            v.push(0);
        } else {
            v.push(k + 8);
        }
        k = k + 1;
        assert(v@ =~= old(v)@ + echo_padding().take(k as int));
    }
    assert(echo_padding().take(48) =~= echo_padding());
}

fn echo_ipv4_header_bytes(id: u16, src: Ipv4Addr, dst: Ipv4Addr) -> (v: Vec<u8>)
    ensures
        v@ == echo_ipv4_header_checked(id, src, dst),
{
    let mut v: Vec<u8> = Vec::new();
    v.push(0x45);
    v.push(0x00);
    push_u16_be(&mut v, 84);
    push_u16_be(&mut v, id);
    v.push(0x40);
    v.push(0x00);
    v.push(64);
    v.push(1);
    push_u16_be(&mut v, 0);
    push_ipv4(&mut v, src);
    push_ipv4(&mut v, dst);
    let ghost blank = echo_ipv4_header(id, src, dst, 0);
    assert(v@ =~= blank);
    let c = checksum(v.as_slice(), 5);
    set_u16_be(&mut v, 10, c);
    assert(v@ =~= echo_ipv4_header(id, src, dst, c));
    v
}

fn echo_request_bytes(id: u16, timestamp: u64) -> (v: Vec<u8>)
    ensures
        v@ == echo_request_message_checked(id, timestamp),
{
    let mut v: Vec<u8> = Vec::new();
    v.push(8);
    v.push(0);
    push_u16_be(&mut v, 0);
    push_u16_be(&mut v, id);
    v.push(0);
    v.push(1);
    push_u64_le(&mut v, timestamp);
    push_echo_padding(&mut v);
    proof {
        crate::net::bytes::lemma_le_bytes_len(timestamp as nat, 8);
    }
    let ghost blank = echo_request_message(id, timestamp, 0);
    assert(v@ =~= blank);
    let c = checksum(v.as_slice(), 1);
    set_u16_be(&mut v, 2, c);
    assert(v@ =~= echo_request_message(id, timestamp, c));
    v
}

/// The 98-byte frame (Ethernet 14, IPv4 20, ICMP 64) that carries an echo
/// request with identifier `packet_id` from `mac_src`/`ip_src` to
/// `mac_dst`/`ip_dst`, stamped with `timestamp` seconds since the Unix epoch.
pub fn build_icmp_packet(
    mac_src: MacAddr,
    mac_dst: MacAddr,
    ip_src: Ipv4Addr,
    ip_dst: Ipv4Addr,
    packet_id: u16,
    timestamp: u64,
) -> (v: Vec<u8>)
    ensures
        v@ == echo_request_frame(mac_src, mac_dst, ip_src, ip_dst, packet_id, timestamp),
        v@.len() == 98,
{
    let mut v: Vec<u8> = Vec::new();
    push_ethernet_header(&mut v, mac_dst, mac_src, ETHERTYPE_IPV4);
    let header = echo_ipv4_header_bytes(packet_id, ip_src, ip_dst);
    push_all(&mut v, header.as_slice());
    let message = echo_request_bytes(packet_id, timestamp);
    push_all(&mut v, message.as_slice());
    proof {
        crate::net::bytes::lemma_le64_len(timestamp);
    }
    v
}


proof fn lemma_echo_parts_len(id: u16, src: Ipv4Addr, dst: Ipv4Addr, timestamp: u64, c: u16)
    ensures
        echo_ipv4_header(id, src, dst, c).len() == 20,
        echo_request_message(id, timestamp, c).len() == 64,
{
    crate::net::bytes::lemma_le64_len(timestamp);
}

/// The payload of an echo request message, after its 4-byte header, is 60
/// bytes long and starts with the identifier.
pub proof fn lemma_echo_message_carries_id(id: u16, timestamp: u64)
    ensures
        echo_request_message_checked(id, timestamp).skip(4).len() == 60,
        crate::net::bytes::be16_at(echo_request_message_checked(id, timestamp).skip(4), 0) == id,
{
    crate::net::bytes::lemma_le64_len(timestamp);
    let m = echo_request_message_checked(id, timestamp);
    assert(m[4] == (id / 256) as u8 && m[5] == (id % 256) as u8);
}

/// Both checksums that an echo request frame carries verify: summing the
/// IPv4 header (bytes 14 to 34) or the ICMP message (bytes 34 to 98) with
/// every word counted, checksum field included, gives checksum 0.
pub proof fn lemma_echo_request_checksums_verify(
    mac_src: MacAddr,
    mac_dst: MacAddr,
    ip_src: Ipv4Addr,
    ip_dst: Ipv4Addr,
    id: u16,
    timestamp: u64,
)
    ensures
        ({
            let f = echo_request_frame(mac_src, mac_dst, ip_src, ip_dst, id, timestamp);
            &&& internet_checksum(f.subrange(14, 34), 10) == 0
            &&& internet_checksum(f.subrange(34, 98), 32) == 0
        }),
{
    let f = echo_request_frame(mac_src, mac_dst, ip_src, ip_dst, id, timestamp);
    let blank_header = echo_ipv4_header(id, ip_src, ip_dst, 0);
    let blank_message = echo_request_message(id, timestamp, 0);
    let ch = internet_checksum(blank_header, 5);
    let cm = internet_checksum(blank_message, 1);
    lemma_echo_parts_len(id, ip_src, ip_dst, timestamp, 0);
    lemma_echo_parts_len(id, ip_src, ip_dst, timestamp, ch);
    lemma_echo_parts_len(id, ip_src, ip_dst, timestamp, cm);
    lemma_checksum_verifies(blank_header, 5);
    lemma_checksum_verifies(blank_message, 1);
    let filled_header = blank_header.update(10, (ch / 256) as u8).update(11, (ch % 256) as u8);
    let filled_message = blank_message.update(2, (cm / 256) as u8).update(3, (cm % 256) as u8);
    assert(filled_header =~= echo_ipv4_header(id, ip_src, ip_dst, ch));
    assert(filled_message =~= echo_request_message(id, timestamp, cm));
    assert(f.subrange(14, 34) =~= filled_header);
    assert(f.subrange(34, 98) =~= filled_message);
}

/// An echo request frame reads back as an ICMP message over IPv4 from
/// `ip_src` to `ip_dst` whose IPv4 payload is the whole echo request.
pub proof fn lemma_echo_request_frame_reads_back(
    mac_src: MacAddr,
    mac_dst: MacAddr,
    ip_src: Ipv4Addr,
    ip_dst: Ipv4Addr,
    id: u16,
    timestamp: u64,
)
    ensures
        ({
            let f = echo_request_frame(mac_src, mac_dst, ip_src, ip_dst, id, timestamp);
            let ip = ethernet_payload(f);
            &&& parsable_frame(f)
            &&& frame_ethertype(f) == ETHERTYPE_IPV4
            &&& ipv4_protocol(ip) == IP_PROTOCOL_ICMP
            &&& ipv4_source(ip) == ip_src
            &&& ipv4_destination(ip) == ip_dst
            &&& ipv4_payload(ip) == echo_request_message_checked(id, timestamp)
        }),
{
    let f = echo_request_frame(mac_src, mac_dst, ip_src, ip_dst, id, timestamp);
    let header = echo_ipv4_header_checked(id, ip_src, ip_dst);
    let message = echo_request_message_checked(id, timestamp);
    let ch = internet_checksum(echo_ipv4_header(id, ip_src, ip_dst, 0), 5);
    lemma_echo_parts_len(id, ip_src, ip_dst, timestamp, ch);
    lemma_echo_parts_len(id, ip_src, ip_dst, timestamp, internet_checksum(echo_request_message(id, timestamp, 0), 1));
    let ip = ethernet_payload(f);
    assert(ip =~= header + message);
    assert(ip[0] == 0x45);
    assert(ip[2] == 0 && ip[3] == 84);
    assert(ip.subrange(20, 84) =~= message);
    assert(f[12] == 8 && f[13] == 0);
}

} // verus!
