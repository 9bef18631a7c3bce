//! Network interfaces and the wire formats the service speaks.
pub mod bytes;
pub mod checksum;
pub mod packet;
pub mod arp;
pub mod icmp;

use vstd::prelude::*;
use crate::types::MacAddr;

verus! {

/// How long a one-off listener waits for its answer when no timeout is
/// given, in seconds.
pub const DEFAULT_LISTEN_TIMEOUT_SECS: u64 = 1;

/// The number of seconds a one-off listener waits: the timeout given, or
/// one second.
pub fn listen_timeout_secs(timeout: Option<u64>) -> (t: u64)
    ensures
        t == (match timeout {
            Some(given) => given,
            None => DEFAULT_LISTEN_TIMEOUT_SECS,
        }),
{
    match timeout {
        Some(given) => given,
        None => DEFAULT_LISTEN_TIMEOUT_SECS,
    }
}

/// What the service needs to know of a network interface.
#[derive(Debug)]
pub struct Interface {
    pub name: String,
    /// The operating system's index of the interface.
    pub index: u32,
    /// The interface's hardware address, where it has one.
    pub mac: Option<MacAddr>,
}

/// Whether `i` is the position of the first interface called `name`.
pub open spec fn first_named(interfaces: Seq<Interface>, name: Seq<char>, i: int) -> bool {
    &&& 0 <= i < interfaces.len()
    &&& interfaces[i].name@ == name
    &&& forall|j: int| 0 <= j < i ==> interfaces[j].name@ != name
}

/// The first of `interfaces` whose name is `name`, if any.
pub fn get_interface_by_name(interfaces: Vec<Interface>, name: &str) -> (r: Option<Interface>)
    ensures
        r is None <==> forall|i: int| 0 <= i < interfaces@.len() ==> interfaces@[i].name@ != name@,
        r matches Some(found) ==> exists|i: int|
            first_named(interfaces@, name@, i) && found == interfaces@[i],
{
    let wanted: String = name.to_owned();
    let mut list = interfaces;
    let ghost all = list@;
    let mut i: usize = 0;
    while i < list.len()
        invariant
            list@ == all,
            all == interfaces@,
            wanted@ == name@,
            i <= all.len(),
            forall|j: int| 0 <= j < i ==> all[j].name@ != name@,
        decreases all.len() - i,
    {
        if list[i].name == wanted {
            let found = list.swap_remove(i);
            assert(first_named(all, name@, i as int));
            return Some(found);
        }
        i = i + 1;
    }
    None
}

} // verus!
