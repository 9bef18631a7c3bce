# vipping

A ping service for virtual IP addresses: it answers ARP for the source
addresses it pings from, resolves the next hop by ARP, sends ICMP echo
requests over a raw Ethernet channel and reports the round-trip time over
HTTP (`POST /ping` on port 8000; the interface comes from `INTERFACE`).

- `src/` is the verified library (Verus): frame layouts and the Internet
  checksum's specification, computed by pnet behind a trusted wrapper (`net/`), the decisions of the service and the ping state machine
  (`service.rs`), the listeners' frame tests for one-off ARP resolution and
  echo (`arp.rs`, `icmp.rs`), and the request record (`types.rs`).
- `app/` is the program around it: the HTTP server, the raw channel, the
  expiring tables, the clock, threads and timeouts.
- `tests/` runs the library, and compares its frames with those that pnet's
  packet setters and checksums write.
