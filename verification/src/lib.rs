//! Verified core of a virtual-IP ping service: Ethernet, ARP, IPv4 and ICMP
//! frame building and parsing, the Internet checksum, and the decisions
//! that drive a ping from address resolution to the echo reply.
pub mod types;
pub mod net;
pub mod service;
pub mod arp;
pub mod icmp;
