use vstd::prelude::*;

verus! {

/// A 48-bit Ethernet hardware address, one field per octet.
#[derive(Clone, Copy, Debug, PartialEq, Eq, Structural)]
pub struct MacAddr(pub u8, pub u8, pub u8, pub u8, pub u8, pub u8);

/// An IPv4 address, one field per octet, most significant first.
#[derive(Clone, Copy, Debug, PartialEq, Eq, Structural)]
pub struct Ipv4Addr(pub u8, pub u8, pub u8, pub u8);

impl MacAddr {
    /// The six octets in wire order.
    pub open spec fn octets(self) -> Seq<u8> {
        seq![self.0, self.1, self.2, self.3, self.4, self.5]
    }

    /// The all-ones broadcast address `ff:ff:ff:ff:ff:ff`.
    pub fn broadcast() -> (m: MacAddr)
        ensures
            m == MacAddr(0xff, 0xff, 0xff, 0xff, 0xff, 0xff),
    {
        MacAddr(0xff, 0xff, 0xff, 0xff, 0xff, 0xff)
    }

    /// The all-zero address `00:00:00:00:00:00`.
    pub fn zero() -> (m: MacAddr)
        ensures
            m == MacAddr(0, 0, 0, 0, 0, 0),
    {
        MacAddr(0, 0, 0, 0, 0, 0)
    }
}

impl Ipv4Addr {
    /// The four octets in wire order.
    pub open spec fn octets(self) -> Seq<u8> {
        seq![self.0, self.1, self.2, self.3]
    }
}

/// Makes `std::time::SystemTime` usable in fields and signatures; Verus sees
/// nothing inside a value of it, and nothing is claimed of it.
#[verifier::external_type_specification]
#[verifier::external_body]
pub struct ExSystemTime(std::time::SystemTime);

/// The identifier of an outstanding echo request together with the moment
/// it was sent.
#[derive(Clone, Copy)]
pub struct PingIdRecordEntry {
    id: u16,
    time: std::time::SystemTime,
}

impl PingIdRecordEntry {
    /// The identifier this entry waits for.
    pub closed spec fn spec_id(&self) -> u16 {
        self.id
    }

    /// The moment the request was sent.
    pub closed spec fn spec_time(&self) -> std::time::SystemTime {
        self.time
    }

    pub fn new(id: u16, time: std::time::SystemTime) -> (e: Self)
        ensures
            e.spec_id() == id,
            e.spec_time() == time,
    {
        Self { id, time }
    }

    /// Whether a reply carrying identifier `id` answers this request.
    pub fn equals(&self, id: u16) -> (b: bool)
        ensures
            b <==> self.spec_id() == id,
    {
        self.id == id
    }

    /// The moment the request was sent.
    pub fn time(&self) -> (t: std::time::SystemTime)
        ensures
            t == self.spec_time(),
    {
        self.time
    }
}

} // verus!
