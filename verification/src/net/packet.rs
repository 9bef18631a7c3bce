//! Ethernet II, ARP, IPv4 and ICMP: field layout, reading and writing.
use vstd::prelude::*;
use crate::types::{Ipv4Addr, MacAddr};
use crate::net::bytes::{
    be16, be16_at, ipv4_at, mac_at, push_ipv4, push_mac, push_u16_be, read_ipv4, read_mac,
    read_u16_be, copy_range, bytes_between, lemma_bytes_between_skip,
};

verus! {

/// Length of an Ethernet II header: two addresses and the EtherType.
pub const ETHERNET_HEADER_LEN: usize = 14;

/// Length of an ARP packet for IPv4 over Ethernet.
pub const ARP_PACKET_LEN: usize = 28;

/// Length of an IPv4 header without options.
pub const IPV4_HEADER_LEN: usize = 20;

/// Length of the fixed ICMP header: type, code and checksum.
pub const ICMP_HEADER_LEN: usize = 4;

pub const ETHERTYPE_IPV4: u16 = 0x0800;

pub const ETHERTYPE_ARP: u16 = 0x0806;

/// ARP hardware type for Ethernet.
pub const ARP_HARDWARE_ETHERNET: u16 = 1;

pub const ARP_OP_REQUEST: u16 = 1;

pub const ARP_OP_REPLY: u16 = 2;

/// IPv4 protocol number of ICMP.
pub const IP_PROTOCOL_ICMP: u8 = 1;

pub const ICMP_ECHO_REPLY: u8 = 0;

pub const ICMP_ECHO_REQUEST: u8 = 8;

/// The fields of an ARP packet, in wire order.
#[derive(Clone, Copy, Debug, PartialEq, Eq, Structural)]
pub struct ArpPacket {
    pub hardware_type: u16,
    pub protocol_type: u16,
    pub hw_addr_len: u8,
    pub proto_addr_len: u8,
    pub operation: u16,
    pub sender_hw_addr: MacAddr,
    pub sender_proto_addr: Ipv4Addr,
    pub target_hw_addr: MacAddr,
    pub target_proto_addr: Ipv4Addr,
}

/// An ICMP message together with the addresses of the IPv4 packet that
/// carried it.
#[derive(Debug)]
pub struct IcmpMessage {
    pub source: Ipv4Addr,
    pub destination: Ipv4Addr,
    pub icmp_type: u8,
    pub icmp_code: u8,
    pub checksum: u16,
    /// Everything after the type, code and checksum.
    pub payload: Vec<u8>,
}

/// What a received frame carries, as far as the service cares.
#[derive(Debug)]
pub enum NetFrame {
    Arp(ArpPacket),
    Icmp(IcmpMessage),
    Other,
}

/// The 14-byte Ethernet II header.
pub open spec fn ethernet_header(destination: MacAddr, source: MacAddr, ethertype: u16) -> Seq<u8> {
    destination.octets() + source.octets() + be16(ethertype)
}

/// The 28 bytes of an ARP packet.
pub open spec fn arp_bytes(a: ArpPacket) -> Seq<u8> {
    be16(a.hardware_type) + be16(a.protocol_type) + seq![a.hw_addr_len, a.proto_addr_len] + be16(
        a.operation,
    ) + a.sender_hw_addr.octets() + a.sender_proto_addr.octets() + a.target_hw_addr.octets()
        + a.target_proto_addr.octets()
}

/// The ARP packet whose fields are the first 28 bytes of `s`.
pub open spec fn arp_from_bytes(s: Seq<u8>) -> ArpPacket {
    ArpPacket {
        hardware_type: be16_at(s, 0),
        protocol_type: be16_at(s, 2),
        hw_addr_len: s[4],
        proto_addr_len: s[5],
        operation: be16_at(s, 6),
        sender_hw_addr: mac_at(s, 8),
        sender_proto_addr: ipv4_at(s, 14),
        target_hw_addr: mac_at(s, 18),
        target_proto_addr: ipv4_at(s, 24),
    }
}

/// The EtherType of an Ethernet frame.
pub open spec fn frame_ethertype(f: Seq<u8>) -> u16 {
    be16_at(f, 12)
}

/// What follows the Ethernet header.
pub open spec fn ethernet_payload(f: Seq<u8>) -> Seq<u8> {
    f.skip(ETHERNET_HEADER_LEN as int)
}

/// The IPv4 header length in bytes, from the IHL field.
pub open spec fn ipv4_header_len(ip: Seq<u8>) -> int {
    (ip[0] % 16) as int * 4
}

pub open spec fn ipv4_total_length(ip: Seq<u8>) -> int {
    be16_at(ip, 2) as int
}

pub open spec fn ipv4_protocol(ip: Seq<u8>) -> u8 {
    ip[9]
}

pub open spec fn ipv4_source(ip: Seq<u8>) -> Ipv4Addr {
    ipv4_at(ip, 12)
}

pub open spec fn ipv4_destination(ip: Seq<u8>) -> Ipv4Addr {
    ipv4_at(ip, 16)
}

/// Where the payload of an IPv4 packet starts: after the header and its
/// options, and never inside the fixed 20-byte header.
pub open spec fn ipv4_payload_start(ip: Seq<u8>) -> int {
    if ipv4_header_len(ip) < 20 {
        20
    } else {
        ipv4_header_len(ip)
    }
}

/// Where the payload of an IPv4 packet ends: total length minus header
/// length after its start, cut at the end of the buffer.
pub open spec fn ipv4_payload_end(ip: Seq<u8>) -> int {
    let declared = if ipv4_total_length(ip) > ipv4_header_len(ip) {
        ipv4_total_length(ip) - ipv4_header_len(ip)
    } else {
        0
    };
    if ipv4_payload_start(ip) + declared < ip.len() {
        ipv4_payload_start(ip) + declared
    } else {
        ip.len() as int
    }
}

/// The payload of an IPv4 packet.
pub open spec fn ipv4_payload(ip: Seq<u8>) -> Seq<u8> {
    if ip.len() <= ipv4_payload_start(ip) {
        Seq::empty()
    } else {
        ip.subrange(ipv4_payload_start(ip), ipv4_payload_end(ip))
    }
}

/// Whether `m` is the ICMP message `icmp`, carried from `source` to `destination`.
pub open spec fn icmp_message_is(
    m: IcmpMessage,
    source: Ipv4Addr,
    destination: Ipv4Addr,
    icmp: Seq<u8>,
) -> bool {
    &&& m.source == source
    &&& m.destination == destination
    &&& m.icmp_type == icmp[0]
    &&& m.icmp_code == icmp[1]
    &&& m.checksum == be16_at(icmp, 2)
    &&& m.payload@ == icmp.skip(4)
}

/// Whether a frame is long enough for every header that its type fields
/// announce: Ethernet always, ARP after an ARP EtherType, IPv4 after an
/// IPv4 EtherType, and the ICMP header inside an IPv4 packet of protocol ICMP.
pub open spec fn parsable_frame(f: Seq<u8>) -> bool {
    &&& f.len() >= ETHERNET_HEADER_LEN
    &&& frame_ethertype(f) == ETHERTYPE_ARP ==> f.len() >= ETHERNET_HEADER_LEN + ARP_PACKET_LEN
    &&& frame_ethertype(f) == ETHERTYPE_IPV4 ==> {
        &&& f.len() >= ETHERNET_HEADER_LEN + IPV4_HEADER_LEN
        &&& ipv4_protocol(ethernet_payload(f)) == IP_PROTOCOL_ICMP ==> ipv4_payload(
            ethernet_payload(f),
        ).len() >= ICMP_HEADER_LEN
    }
}

/// How a parsable frame is classified.
pub open spec fn frame_classified_as(f: Seq<u8>, r: NetFrame) -> bool {
    let ip = ethernet_payload(f);
    match r {
        NetFrame::Arp(a) => frame_ethertype(f) == ETHERTYPE_ARP && a == arp_from_bytes(
            ethernet_payload(f),
        ),
        NetFrame::Icmp(m) => {
            &&& frame_ethertype(f) == ETHERTYPE_IPV4
            &&& ipv4_protocol(ip) == IP_PROTOCOL_ICMP
            &&& icmp_message_is(m, ipv4_source(ip), ipv4_destination(ip), ipv4_payload(ip))
        },
        NetFrame::Other => frame_ethertype(f) != ETHERTYPE_ARP && !(frame_ethertype(f)
            == ETHERTYPE_IPV4 && ipv4_protocol(ip) == IP_PROTOCOL_ICMP),
    }
}

/// Reading an ARP packet back from its bytes gives the same packet.
pub proof fn lemma_arp_bytes_roundtrip(a: ArpPacket)
    ensures
        arp_bytes(a).len() == ARP_PACKET_LEN,
        arp_from_bytes(arp_bytes(a)) == a,
{
    let s = arp_bytes(a);
    assert(be16_at(s, 0) == a.hardware_type);
    assert(be16_at(s, 2) == a.protocol_type);
    assert(be16_at(s, 6) == a.operation);
}

/// Any 28 or more bytes read as an ARP packet and written back give the
/// first 28 bytes again: the ARP layout has no redundant encodings.
pub proof fn lemma_arp_from_bytes_roundtrip(s: Seq<u8>)
    requires
        s.len() >= ARP_PACKET_LEN,
    ensures
        arp_bytes(arp_from_bytes(s)) == s.take(ARP_PACKET_LEN as int),
{
    assert(arp_bytes(arp_from_bytes(s)) =~= s.take(ARP_PACKET_LEN as int));
}

/// An ARP frame with room for the whole ARP packet is parsable, and stays
/// so with any bytes after it (such as the padding up to the Ethernet
/// minimum size); those bytes change neither its type nor the packet read.
pub proof fn lemma_padded_arp_frame_is_parsable(f: Seq<u8>, extra: Seq<u8>)
    requires
        frame_ethertype(f) == ETHERTYPE_ARP,
        f.len() >= ETHERNET_HEADER_LEN + ARP_PACKET_LEN,
    ensures
        parsable_frame(f),
        parsable_frame(f + extra),
        frame_ethertype(f + extra) == ETHERTYPE_ARP,
        arp_from_bytes(ethernet_payload(f + extra)) == arp_from_bytes(ethernet_payload(f)),
{
    let g = f + extra;
    assert(g[12] == f[12] && g[13] == f[13]);
    let p = ethernet_payload(f);
    let q = ethernet_payload(g);
    assert forall|i: int| 0 <= i < ARP_PACKET_LEN implies q[i] == p[i] by {
        assert(q[i] == g[i + 14]);
        assert(p[i] == f[i + 14]);
    }
    assert(arp_from_bytes(q) == arp_from_bytes(p));
}

/// Appends the 14-byte Ethernet header.
pub fn push_ethernet_header(v: &mut Vec<u8>, destination: MacAddr, source: MacAddr, ethertype: u16)
    ensures
        final(v)@ == old(v)@ + ethernet_header(destination, source, ethertype),
{
    push_mac(v, destination);
    push_mac(v, source);
    push_u16_be(v, ethertype);
    assert(final(v)@ =~= old(v)@ + ethernet_header(destination, source, ethertype));
}

/// Appends the 28 bytes of an ARP packet.
pub fn push_arp_packet(v: &mut Vec<u8>, a: &ArpPacket)
    ensures
        final(v)@ == old(v)@ + arp_bytes(*a),
{
    push_u16_be(v, a.hardware_type);
    push_u16_be(v, a.protocol_type);
    v.push(a.hw_addr_len);
    v.push(a.proto_addr_len);
    push_u16_be(v, a.operation);
    push_mac(v, a.sender_hw_addr);
    push_ipv4(v, a.sender_proto_addr);
    push_mac(v, a.target_hw_addr);
    push_ipv4(v, a.target_proto_addr);
    assert(final(v)@ =~= old(v)@ + arp_bytes(*a));
}

/// Reads the ARP packet that starts at `f[off]`.
pub fn read_arp_packet(f: &[u8], off: usize) -> (a: ArpPacket)
    requires
        off + ARP_PACKET_LEN <= f.len(),
    ensures
        a == arp_from_bytes(f@.skip(off as int)),
{
    let ghost s = f@.skip(off as int);
    let a = ArpPacket {
        hardware_type: read_u16_be(f, off),
        protocol_type: read_u16_be(f, off + 2),
        hw_addr_len: f[off + 4],
        proto_addr_len: f[off + 5],
        operation: read_u16_be(f, off + 6),
        sender_hw_addr: read_mac(f, off + 8),
        sender_proto_addr: read_ipv4(f, off + 14),
        target_hw_addr: read_mac(f, off + 18),
        target_proto_addr: read_ipv4(f, off + 24),
    };
    assert(a == arp_from_bytes(s));
    a
}

/// The bounds, within `f`, of the payload of the IPv4 packet that starts at `f[off]`.
pub fn ipv4_payload_range(f: &[u8], off: usize) -> (r: (usize, usize))
    requires
        off + IPV4_HEADER_LEN <= f.len(),
    ensures
        r.0 <= r.1 <= f@.len(),
        bytes_between(f@, r.0, r.1) == ipv4_payload(f@.skip(off as int)),
{
    let ghost ip = f@.skip(off as int);
    let hl: usize = (f[off] % 16) as usize * 4;
    let start: usize = if hl < 20 { 20 } else { hl };
    let tl: usize = read_u16_be(f, off + 2) as usize;
    let declared: usize = if tl > hl { tl - hl } else { 0 };
    let ip_len: usize = f.len() - off;
    assert(ipv4_header_len(ip) == hl);
    assert(ipv4_total_length(ip) == tl);
    if ip_len <= start {
        assert(f@.subrange(f@.len() as int, f@.len() as int) =~= Seq::<u8>::empty());
        (f.len(), f.len())
    } else {
        let end: usize = if start + declared < ip_len { start + declared } else { ip_len };
        assert(f@.subrange(off + start, off + end) =~= ip.subrange(start as int, end as int));
        (off + start, off + end)
    }
}

/// Reads the ICMP message stored in `f[start .. end]`.
fn read_control_message(
    f: &[u8],
    start: usize,
    end: usize,
    source: Ipv4Addr,
    destination: Ipv4Addr,
) -> (m: IcmpMessage)
    requires
        start + 4 <= end <= f@.len(),
    ensures
        icmp_message_is(m, source, destination, bytes_between(f@, start, end)),
{
    let m = IcmpMessage {
        source,
        destination,
        icmp_type: f[start],
        icmp_code: f[start + 1],
        checksum: read_u16_be(f, start + 2),
        payload: copy_range(f, start + 4, end),
    };
    proof {
        lemma_bytes_between_skip(f@, start, end, 4);
    }
    m
}

/// Whether every header that the frame's type fields announce fits in it.
pub fn frame_is_parsable(frame: &[u8]) -> (b: bool)
    ensures
        b == parsable_frame(frame@),
        frame_ethertype(frame@) == ETHERTYPE_ARP && frame@.len() >= ETHERNET_HEADER_LEN
            + ARP_PACKET_LEN ==> b,
{
    if frame.len() < ETHERNET_HEADER_LEN {
        return false;
    }
    let ethertype = read_u16_be(frame, 12);
    if ethertype == ETHERTYPE_ARP {
        frame.len() >= ETHERNET_HEADER_LEN + ARP_PACKET_LEN
    } else if ethertype == ETHERTYPE_IPV4 {
        if frame.len() < ETHERNET_HEADER_LEN + IPV4_HEADER_LEN {
            false
        } else if frame[23] == IP_PROTOCOL_ICMP {
            let (start, end) = ipv4_payload_range(frame, ETHERNET_HEADER_LEN);
            end - start >= ICMP_HEADER_LEN
        } else {
            true
        }
    } else {
        true
    }
}

/// Sorts a received frame into ARP, ICMP over IPv4, or anything else, and
/// reads the packet it carries.
pub fn classify_frame(frame: &[u8]) -> (r: NetFrame)
    requires
        parsable_frame(frame@),
    ensures
        frame_classified_as(frame@, r),
{
    let ethertype = read_u16_be(frame, 12);
    if ethertype == ETHERTYPE_ARP {
        NetFrame::Arp(read_arp_packet(frame, ETHERNET_HEADER_LEN))
    } else if ethertype == ETHERTYPE_IPV4 && frame[23] == IP_PROTOCOL_ICMP {
        let (start, end) = ipv4_payload_range(frame, ETHERNET_HEADER_LEN);
        let source = read_ipv4(frame, 26);
        let destination = read_ipv4(frame, 30);
        NetFrame::Icmp(read_control_message(frame, start, end, source, destination))
    } else {
        NetFrame::Other
    }
}

} // verus!
