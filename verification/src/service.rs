//! The decisions of the ping service: what to do with each received frame,
//! and the steps of one ping from address resolution to the echo reply.
use vstd::prelude::*;
use crate::types::{Ipv4Addr, MacAddr, PingIdRecordEntry};
use crate::net::bytes::{be16_at, read_u16_be};
use crate::net::icmp::{build_icmp_packet, echo_request_frame, echo_request_message_checked};
use crate::net::arp::{
    arp_reply_frame, arp_request_frame, lemma_arp_reply_reads_back, lemma_arp_request_reads_back,
};
use crate::net::packet::{
    arp_from_bytes, ethernet_payload, ArpPacket, IcmpMessage, ARP_OP_REPLY, ARP_OP_REQUEST,
    ICMP_ECHO_REPLY,
};
use crate::arp::arp_answer;

verus! {

/// What to do about a received ARP packet.
#[derive(Clone, Copy, Debug, PartialEq, Eq, Structural)]
pub enum ArpAction {
    /// Tell `mac_dst`, at `ip_dst`, that `ip_src` is here, provided `ip_src`
    /// is an address this host pings from.
    ReplyIfInUse { mac_dst: MacAddr, ip_src: Ipv4Addr, ip_dst: Ipv4Addr },
    /// Remember that `ip` is at `mac`.
    Learn { ip: Ipv4Addr, mac: MacAddr },
    Ignore,
}

/// The action for an ARP packet: a request is answered on behalf of the
/// address it asks for, a reply teaches the sender's address, anything else
/// is ignored.
pub open spec fn arp_action_for(arp: ArpPacket) -> ArpAction {
    if arp.operation == ARP_OP_REQUEST {
        ArpAction::ReplyIfInUse {
            mac_dst: arp.sender_hw_addr,
            ip_src: arp.target_proto_addr,
            ip_dst: arp.sender_proto_addr,
        }
    } else if arp.operation == ARP_OP_REPLY {
        ArpAction::Learn { ip: arp.sender_proto_addr, mac: arp.sender_hw_addr }
    } else {
        ArpAction::Ignore
    }
}

/// Decides what to do about a received ARP packet.
pub fn process_arp_pkt(arp: &ArpPacket) -> (r: ArpAction)
    ensures
        r == arp_action_for(*arp),
{
    if arp.operation == ARP_OP_REQUEST {
        ArpAction::ReplyIfInUse {
            mac_dst: arp.sender_hw_addr,
            ip_src: arp.target_proto_addr,
            ip_dst: arp.sender_proto_addr,
        }
    } else if arp.operation == ARP_OP_REPLY {
        ArpAction::Learn { ip: arp.sender_proto_addr, mac: arp.sender_hw_addr }
    } else {
        ArpAction::Ignore
    }
}

/// For an echo reply, the address it came from and the identifier in the
/// first two bytes of its payload (the request recorded for that address
/// is answered if it carries this identifier); nothing for other messages.
pub fn process_icmp_pkt(message: &IcmpMessage) -> (r: Option<(Ipv4Addr, u16)>)
    requires
        message.icmp_type == ICMP_ECHO_REPLY ==> message.payload@.len() >= 2,
    ensures
        message.icmp_type == ICMP_ECHO_REPLY ==> r == Some((message.source, be16_at(message.payload@, 0))),
        message.icmp_type != ICMP_ECHO_REPLY ==> r is None,
{
    if message.icmp_type == ICMP_ECHO_REPLY {
        Some((message.source, read_u16_be(message.payload.as_slice(), 0)))
    } else {
        None
    }
}

/// Whether an echo reply carrying `packet_id` answers the request recorded
/// for the address it came from; when it does, the record is done with and
/// the round-trip time is stored.
pub fn reply_answers_record(record: Option<PingIdRecordEntry>, packet_id: u16) -> (b: bool)
    ensures
        b == (record matches Some(entry) && entry.spec_id() == packet_id),
{
    match record {
        Some(entry) => entry.equals(packet_id),
        None => false,
    }
}

/// A fresh identifier for an echo request, drawn by `rand::random::<u16>()`
/// from the thread-local generator. Nothing is claimed of the value: any
/// `u16` may come back, and two calls may return anything.
#[verifier::external_body]
fn random_packet_id() -> u16 {
    rand::random::<u16>()
}

/// Draws a random identifier and builds the echo request frame that carries
/// it from `mac_src`/`ip_src` to `mac_dst`/`ip_dst`, stamped `timestamp`.
pub fn prepare_icmp_request(
    mac_src: MacAddr,
    mac_dst: MacAddr,
    ip_src: Ipv4Addr,
    ip_dst: Ipv4Addr,
    timestamp: u64,
) -> (r: (u16, Vec<u8>))
    ensures
        r.1@ == echo_request_frame(mac_src, mac_dst, ip_src, ip_dst, r.0, timestamp),
{
    let packet_id = random_packet_id();
    let frame = build_icmp_packet(mac_src, mac_dst, ip_src, ip_dst, packet_id, timestamp);
    (packet_id, frame)
}

/// The status code a ping answers with: 0 when the echo reply arrived, -1 otherwise.
pub fn ping_status_code(success: bool) -> (code: i32)
    ensures
        code == (if success { 0i32 } else { -1i32 }),
{
    if success {
        0
    } else {
        -1
    }
}


/// How long to wait between two looks at the ARP table while resolving.
pub const ARP_POLL_INTERVAL_US: u64 = 2000;

/// How long to wait between two looks for the echo reply.
pub const REPLY_POLL_INTERVAL_US: u64 = 300;

/// The address whose hardware address a ping needs: the gateway when there
/// is one, the destination itself otherwise.
pub open spec fn spec_arp_target(ip_dst: Ipv4Addr, gateway: Option<Ipv4Addr>) -> Ipv4Addr {
    match gateway {
        Some(g) => g,
        None => ip_dst,
    }
}

/// The address whose hardware address a ping needs.
pub fn arp_target(ip_dst: Ipv4Addr, gateway: Option<Ipv4Addr>) -> (t: Ipv4Addr)
    ensures
        t == spec_arp_target(ip_dst, gateway),
        gateway matches Some(g) ==> t == g,
        gateway is None ==> t == ip_dst,
{
    match gateway {
        Some(g) => g,
        None => ip_dst,
    }
}

/// Where a ping stands.
#[derive(Clone, Copy, Debug, PartialEq, Eq, Structural)]
pub enum PingPhase {
    /// The source address is being marked as one this host answers for.
    MarkingAddress,
    /// The ARP table is consulted once for the target.
    CheckingArpTable,
    /// An ARP request went out; the ARP table is polled until the deadline.
    ResolvingMac,
    /// The echo request is being sent.
    SendingEcho,
    /// The identifier of the echo request is being recorded.
    RecordingId { packet_id: u16 },
    /// The echo reply to the request with this identifier is polled for
    /// until the deadline.
    AwaitingReply { packet_id: u16 },
    Finished { success: bool },
}

/// What the caller is asked to do next; each action is answered by an event.
#[derive(Clone, Copy, Debug, PartialEq, Eq, Structural)]
pub enum PingAction {
    /// Mark the address as in use, then report `Done`.
    MarkAddressInUse(Ipv4Addr),
    /// Look the address up in the ARP table, then report `MacLookedUp`.
    LookupMac(Ipv4Addr),
    /// Send an ARP request from `ip_src` for `ip_dst`, start the resolution
    /// clock, then report `Waited` with the time elapsed on it.
    SendArpRequest { ip_src: Ipv4Addr, ip_dst: Ipv4Addr },
    /// Sleep this many microseconds, then report `Waited` with the time
    /// elapsed on the running clock.
    SleepMicros(u64),
    /// Send an echo request to `mac_dst`/`ip_dst` from `ip_src`, then report
    /// `EchoSent` with its identifier.
    SendEchoRequest { mac_dst: MacAddr, ip_src: Ipv4Addr, ip_dst: Ipv4Addr },
    /// Record the identifier for `ip_dst` with the current time, start the
    /// reply clock, then report `Waited` with the time elapsed on it.
    RecordPingId { ip_dst: Ipv4Addr, packet_id: u16 },
    /// Look for a recorded reply from the address, then report
    /// `ReplyLookedUp` with the identifier of the request it answered.
    LookupReply(Ipv4Addr),
    /// The ping is over.
    Finish { success: bool },
}

/// What the caller reports after carrying out an action.
#[derive(Clone, Copy, Debug)]
pub enum PingEvent {
    Done,
    MacLookedUp(Option<MacAddr>),
    Waited { elapsed_us: u128 },
    EchoSent(u16),
    /// The identifier of the request that the reply recorded for the
    /// destination answered, if a reply is recorded.
    ReplyLookedUp(Option<u16>),
}

/// One ping from `ip_src` to `ip_dst`, through `gateway` if there is one,
/// giving up on each of its two waits after `timeout_us` microseconds.
#[derive(Clone, Copy, Debug)]
pub struct PingSession {
    pub ip_src: Ipv4Addr,
    pub ip_dst: Ipv4Addr,
    pub gateway: Option<Ipv4Addr>,
    pub timeout_us: u128,
    pub phase: PingPhase,
}

/// The session in `phase` with the same parameters as `s`.
pub open spec fn in_phase(s: PingSession, phase: PingPhase) -> PingSession {
    PingSession { phase, ..s }
}

/// The step of a ping: from the session and the event that answered the
/// last action, the next session and the next action. An event that does
/// not answer the pending action ends the ping without success.
pub open spec fn ping_transition(s: PingSession, e: PingEvent) -> (PingSession, PingAction) {
    let target = spec_arp_target(s.ip_dst, s.gateway);
    let fail = (in_phase(s, PingPhase::Finished { success: false }), PingAction::Finish { success: false });
    match (s.phase, e) {
        (PingPhase::Finished { success }, _) => (s, PingAction::Finish { success }),
        (PingPhase::MarkingAddress, PingEvent::Done) => (
            in_phase(s, PingPhase::CheckingArpTable),
            PingAction::LookupMac(target),
        ),
        (PingPhase::CheckingArpTable, PingEvent::MacLookedUp(Some(mac))) => (
            in_phase(s, PingPhase::SendingEcho),
            PingAction::SendEchoRequest { mac_dst: mac, ip_src: s.ip_src, ip_dst: s.ip_dst },
        ),
        (PingPhase::CheckingArpTable, PingEvent::MacLookedUp(None)) => (
            in_phase(s, PingPhase::ResolvingMac),
            PingAction::SendArpRequest { ip_src: s.ip_src, ip_dst: target },
        ),
        (PingPhase::ResolvingMac, PingEvent::Waited { elapsed_us }) => if elapsed_us < s.timeout_us {
            (s, PingAction::LookupMac(target))
        } else {
            fail
        },
        (PingPhase::ResolvingMac, PingEvent::MacLookedUp(Some(mac))) => (
            in_phase(s, PingPhase::SendingEcho),
            PingAction::SendEchoRequest { mac_dst: mac, ip_src: s.ip_src, ip_dst: s.ip_dst },
        ),
        (PingPhase::ResolvingMac, PingEvent::MacLookedUp(None)) => (
            s,
            PingAction::SleepMicros(ARP_POLL_INTERVAL_US),
        ),
        (PingPhase::SendingEcho, PingEvent::EchoSent(packet_id)) => (
            in_phase(s, PingPhase::RecordingId { packet_id }),
            PingAction::RecordPingId { ip_dst: s.ip_dst, packet_id },
        ),
        (PingPhase::RecordingId { packet_id }, PingEvent::Waited { elapsed_us }) => if elapsed_us
            < s.timeout_us {
            (in_phase(s, PingPhase::AwaitingReply { packet_id }), PingAction::LookupReply(s.ip_dst))
        } else {
            fail
        },
        (PingPhase::AwaitingReply { .. }, PingEvent::Waited { elapsed_us }) => if elapsed_us
            < s.timeout_us {
            (s, PingAction::LookupReply(s.ip_dst))
        } else {
            fail
        },
        (PingPhase::AwaitingReply { packet_id }, PingEvent::ReplyLookedUp(answered)) => if answered
            == Some(packet_id) {
            (in_phase(s, PingPhase::Finished { success: true }), PingAction::Finish { success: true })
        } else {
            (s, PingAction::SleepMicros(REPLY_POLL_INTERVAL_US))
        },
        _ => fail,
    }
}

impl PingSession {
    /// Starts a ping; the first action marks the source address as in use.
    pub fn new(
        ip_src: Ipv4Addr,
        ip_dst: Ipv4Addr,
        gateway: Option<Ipv4Addr>,
        timeout_us: u128,
    ) -> (r: (PingSession, PingAction))
        ensures
            r.0 == (PingSession { ip_src, ip_dst, gateway, timeout_us, phase: PingPhase::MarkingAddress }),
            r.1 == PingAction::MarkAddressInUse(ip_src),
    {
        (
            PingSession { ip_src, ip_dst, gateway, timeout_us, phase: PingPhase::MarkingAddress },
            PingAction::MarkAddressInUse(ip_src),
        )
    }

    fn finish(&mut self, success: bool) -> (a: PingAction)
        ensures
            *final(self) == in_phase(*old(self), PingPhase::Finished { success }),
            a == (PingAction::Finish { success }),
    {
        self.phase = PingPhase::Finished { success };
        PingAction::Finish { success }
    }

    /// Advances the ping by the event that answered the last action and
    /// returns the next action.
    pub fn step(&mut self, event: PingEvent) -> (a: PingAction)
        ensures
            (*final(self), a) == ping_transition(*old(self), event),
            a matches PingAction::RecordPingId { ip_dst: d, packet_id: p } ==> {
                &&& d == old(self).ip_dst
                &&& old(self).phase == PingPhase::SendingEcho
                &&& event == PingEvent::EchoSent(p)
            },
            a matches PingAction::LookupMac(t) ==> {
                &&& old(self).gateway matches Some(g) ==> t == g
                &&& old(self).gateway is None ==> t == old(self).ip_dst
            },
            a matches PingAction::SendArpRequest { ip_src, ip_dst } ==> {
                &&& ip_src == old(self).ip_src
                &&& old(self).gateway matches Some(g) ==> ip_dst == g
                &&& old(self).gateway is None ==> ip_dst == old(self).ip_dst
            },
            a matches PingAction::SendEchoRequest { ip_src, ip_dst, .. } ==> ip_src == old(
                self,
            ).ip_src && ip_dst == old(self).ip_dst,
            a matches PingAction::LookupReply(d) ==> d == old(self).ip_dst,
    {
        let target = arp_target(self.ip_dst, self.gateway);
        match self.phase {
            PingPhase::Finished { success } => PingAction::Finish { success },
            PingPhase::MarkingAddress => match event {
                PingEvent::Done => {
                    self.phase = PingPhase::CheckingArpTable;
                    PingAction::LookupMac(target)
                },
                _ => self.finish(false),
            },
            PingPhase::CheckingArpTable => match event {
                PingEvent::MacLookedUp(Some(mac)) => {
                    self.phase = PingPhase::SendingEcho;
                    PingAction::SendEchoRequest { mac_dst: mac, ip_src: self.ip_src, ip_dst: self.ip_dst }
                },
                PingEvent::MacLookedUp(None) => {
                    self.phase = PingPhase::ResolvingMac;
                    PingAction::SendArpRequest { ip_src: self.ip_src, ip_dst: target }
                },
                _ => self.finish(false),
            },
            PingPhase::ResolvingMac => match event {
                PingEvent::Waited { elapsed_us } => {
                    if elapsed_us < self.timeout_us {
                        PingAction::LookupMac(target)
                    } else {
                        self.finish(false)
                    }
                },
                PingEvent::MacLookedUp(Some(mac)) => {
                    self.phase = PingPhase::SendingEcho;
                    PingAction::SendEchoRequest { mac_dst: mac, ip_src: self.ip_src, ip_dst: self.ip_dst }
                },
                PingEvent::MacLookedUp(None) => PingAction::SleepMicros(ARP_POLL_INTERVAL_US),
                _ => self.finish(false),
            },
            PingPhase::SendingEcho => match event {
                PingEvent::EchoSent(packet_id) => {
                    self.phase = PingPhase::RecordingId { packet_id };
                    PingAction::RecordPingId { ip_dst: self.ip_dst, packet_id }
                },
                _ => self.finish(false),
            },
            PingPhase::RecordingId { packet_id } => match event {
                PingEvent::Waited { elapsed_us } => {
                    if elapsed_us < self.timeout_us {
                        self.phase = PingPhase::AwaitingReply { packet_id };
                        PingAction::LookupReply(self.ip_dst)
                    } else {
                        self.finish(false)
                    }
                },
                _ => self.finish(false),
            },
            PingPhase::AwaitingReply { packet_id } => match event {
                PingEvent::Waited { elapsed_us } => {
                    if elapsed_us < self.timeout_us {
                        PingAction::LookupReply(self.ip_dst)
                    } else {
                        self.finish(false)
                    }
                },
                PingEvent::ReplyLookedUp(answered) => {
                    let matches = match answered {
                        Some(id) => id == packet_id,
                        None => false,
                    };
                    if matches {
                        self.finish(true)
                    } else {
                        PingAction::SleepMicros(REPLY_POLL_INTERVAL_US)
                    }
                },
                _ => self.finish(false),
            },
        }
    }
}


/// An ARP exchange between the service and another host. When a host at
/// `asker_mac`/`asker_ip` asks for `asked_ip`, the service decides to answer
/// the asker with `asked_ip` (if it pings from that address); the reply it
/// then builds is what the asker's listener accepts as the answer, naming
/// the service's hardware address, and a service that receives such a reply
/// learns that `asked_ip` is at `our_mac`. A request is never taken for an answer.
pub proof fn lemma_arp_exchange(
    asker_mac: MacAddr,
    asker_ip: Ipv4Addr,
    our_mac: MacAddr,
    asked_ip: Ipv4Addr,
    any_ip: Ipv4Addr,
)
    ensures
        ({
            let request = arp_request_frame(asker_mac, asker_ip, asked_ip);
            let reply = arp_reply_frame(our_mac, asker_mac, asked_ip, asker_ip);
            &&& arp_action_for(arp_from_bytes(ethernet_payload(request)))
                == (ArpAction::ReplyIfInUse { mac_dst: asker_mac, ip_src: asked_ip, ip_dst: asker_ip })
            &&& arp_answer(reply, asked_ip) == Some(our_mac)
            &&& arp_action_for(arp_from_bytes(ethernet_payload(reply)))
                == (ArpAction::Learn { ip: asked_ip, mac: our_mac })
            &&& arp_answer(request, any_ip) is None
        }),
{
    lemma_arp_request_reads_back(asker_mac, asker_ip, asked_ip);
    lemma_arp_reply_reads_back(our_mac, asker_mac, asked_ip, asker_ip);
}

/// An echo reply that carries back the payload of one of the service's echo
/// requests, as an echoing host does, is taken as the answer to the
/// request with that request's identifier, from the reply's source.
pub proof fn lemma_echoed_payload_answers_request(message: IcmpMessage, id: u16, timestamp: u64)
    requires
        message.icmp_type == ICMP_ECHO_REPLY,
        message.payload@ == echo_request_message_checked(id, timestamp).skip(4),
    ensures
        message.payload@.len() >= 2,
        be16_at(message.payload@, 0) == id,
{
    crate::net::icmp::lemma_echo_message_carries_id(id, timestamp);
}

/// A finished ping stays finished, with the same outcome.
pub proof fn lemma_ping_finished_is_final(s: PingSession, e: PingEvent)
    requires
        s.phase matches PingPhase::Finished { .. },
    ensures
        ping_transition(s, e).0 == s,
        ping_transition(s, e).1 == (PingAction::Finish { success: s.phase->success }),
{
}

/// A step never changes what is being pinged, from where, through which
/// gateway, or the time allowed.
pub proof fn lemma_ping_keeps_parameters(s: PingSession, e: PingEvent)
    ensures
        ping_transition(s, e).0.ip_src == s.ip_src,
        ping_transition(s, e).0.ip_dst == s.ip_dst,
        ping_transition(s, e).0.gateway == s.gateway,
        ping_transition(s, e).0.timeout_us == s.timeout_us,
{
}

/// A ping succeeds only on the step where, while waiting for the reply to
/// its echo request, a reply to exactly that request is found.
pub proof fn lemma_ping_success_needs_reply(s: PingSession, e: PingEvent)
    requires
        !(s.phase matches PingPhase::Finished { .. }),
        ping_transition(s, e).0.phase == (PingPhase::Finished { success: true }),
    ensures
        s.phase matches PingPhase::AwaitingReply { packet_id } && e == PingEvent::ReplyLookedUp(
            Some(packet_id),
        ),
        ping_transition(s, e).1 == (PingAction::Finish { success: true }),
{
}

/// The identifier that a ping records and waits for is the one its echo
/// request was sent with: it is taken from the `EchoSent` event and kept
/// unchanged afterwards.
pub proof fn lemma_ping_waits_for_its_own_id(s: PingSession, e: PingEvent, packet_id: u16)
    requires
        ping_transition(s, e).0.phase == (PingPhase::RecordingId { packet_id })
            || ping_transition(s, e).0.phase == (PingPhase::AwaitingReply { packet_id }),
    ensures
        (s.phase == PingPhase::SendingEcho && e == PingEvent::EchoSent(packet_id))
            || s.phase == (PingPhase::RecordingId { packet_id })
            || s.phase == (PingPhase::AwaitingReply { packet_id }),
{
}

/// Every hardware address the ping looks up or asks for belongs to the
/// gateway when there is one and to the destination otherwise, and every
/// ARP request goes out from the ping's source address.
pub proof fn lemma_ping_resolves_arp_target(s: PingSession, e: PingEvent)
    ensures
        ping_transition(s, e).1 matches PingAction::LookupMac(t) ==> t == spec_arp_target(s.ip_dst, s.gateway),
        ping_transition(s, e).1 matches PingAction::SendArpRequest { ip_src, ip_dst } ==> ip_src
            == s.ip_src && ip_dst == spec_arp_target(s.ip_dst, s.gateway),
{
}

/// The address whose hardware address a ping resolves is the gateway
/// whenever one is given, whatever the destination, and the destination
/// itself otherwise.
pub proof fn lemma_arp_target_is_gateway_or_destination(ip_dst: Ipv4Addr, gateway: Option<Ipv4Addr>)
    ensures
        gateway matches Some(g) ==> spec_arp_target(ip_dst, gateway) == g,
        gateway is None ==> spec_arp_target(ip_dst, gateway) == ip_dst,
{
}

/// Every step that looks up or asks for a hardware address names the
/// gateway when the ping has one, and the destination otherwise; ARP
/// requests go out from the ping's source.
pub proof fn lemma_ping_resolves_next_hop(s: PingSession, e: PingEvent)
    ensures
        ping_transition(s, e).1 matches PingAction::LookupMac(t) ==> {
            &&& s.gateway matches Some(g) ==> t == g
            &&& s.gateway is None ==> t == s.ip_dst
        },
        ping_transition(s, e).1 matches PingAction::SendArpRequest { ip_src, ip_dst } ==> {
            &&& ip_src == s.ip_src
            &&& s.gateway matches Some(g) ==> ip_dst == g
            &&& s.gateway is None ==> ip_dst == s.ip_dst
        },
{
}

/// The identifier of the echo request is recorded under the ping's
/// destination, never under the gateway, since the echo reply comes from
/// the destination and is looked up by its source address; replies are
/// looked for under the destination as well. Recording happens exactly on
/// the step after the echo request was sent, with that request's identifier.
pub proof fn lemma_ping_records_id_under_destination(s: PingSession, e: PingEvent)
    ensures
        ping_transition(s, e).1 matches PingAction::RecordPingId { ip_dst: d, packet_id: p } ==> {
            &&& d == s.ip_dst
            &&& s.phase == PingPhase::SendingEcho
            &&& e == PingEvent::EchoSent(p)
        },
        ping_transition(s, e).1 matches PingAction::LookupReply(d) ==> d == s.ip_dst,
        s.phase == PingPhase::SendingEcho ==> (e matches PingEvent::EchoSent(p) ==> ping_transition(
            s,
            e,
        ).1 == (PingAction::RecordPingId { ip_dst: s.ip_dst, packet_id: p })),
{
}

/// The echo request goes, from the ping's source to its destination, to the
/// hardware address that the ARP table lookup just returned.
pub proof fn lemma_ping_echo_goes_to_resolved_mac(s: PingSession, e: PingEvent)
    ensures
        ping_transition(s, e).1 matches PingAction::SendEchoRequest { mac_dst, ip_src, ip_dst } ==> {
            &&& (s.phase == PingPhase::CheckingArpTable || s.phase == PingPhase::ResolvingMac)
            &&& e matches PingEvent::MacLookedUp(Some(m)) && m == mac_dst
            &&& ip_src == s.ip_src
            &&& ip_dst == s.ip_dst
        },
{
}

/// Once the time allowed has run out on either wait, the ping fails.
pub proof fn lemma_ping_gives_up_at_deadline(s: PingSession, elapsed_us: u128)
    requires
        s.phase == PingPhase::ResolvingMac || s.phase is RecordingId || s.phase is AwaitingReply,
        elapsed_us >= s.timeout_us,
    ensures
        ping_transition(s, PingEvent::Waited { elapsed_us }).0.phase == (PingPhase::Finished {
            success: false,
        }),
        ping_transition(s, PingEvent::Waited { elapsed_us }).1 == (PingAction::Finish {
            success: false,
        }),
{
}

/// When the target's hardware address is already in the ARP table, a ping
/// sends no ARP request: after marking the source address and one lookup it
/// sends the echo request to the cached address.
pub proof fn lemma_ping_uses_cached_mac(
    ip_src: Ipv4Addr,
    ip_dst: Ipv4Addr,
    gateway: Option<Ipv4Addr>,
    timeout_us: u128,
    cached: MacAddr,
)
    ensures
        ({
            let s0 = PingSession { ip_src, ip_dst, gateway, timeout_us, phase: PingPhase::MarkingAddress };
            let (s1, a1) = ping_transition(s0, PingEvent::Done);
            let (s2, a2) = ping_transition(s1, PingEvent::MacLookedUp(Some(cached)));
            &&& a1 == PingAction::LookupMac(spec_arp_target(ip_dst, gateway))
            &&& a2 == (PingAction::SendEchoRequest { mac_dst: cached, ip_src, ip_dst })
            &&& s2.phase == PingPhase::SendingEcho
        }),
{
}

} // verus!
