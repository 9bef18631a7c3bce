//! Byte-level encoding of the fixed-width fields that packets carry.
use vstd::prelude::*;
use crate::types::{Ipv4Addr, MacAddr};

verus! {

/// A 16-bit value in network (big-endian) byte order.
pub open spec fn be16(x: u16) -> Seq<u8> {
    seq![(x / 256) as u8, (x % 256) as u8]
}

/// The big-endian 16-bit value stored at `s[i]`, `s[i + 1]`.
pub open spec fn be16_at(s: Seq<u8>, i: int) -> u16 {
    (s[i] as int * 256 + s[i + 1] as int) as u16
}

/// The `n` low-order bytes of `x`, least significant first.
pub open spec fn le_bytes(x: nat, n: nat) -> Seq<u8>
    decreases n,
{
    if n == 0 {
        Seq::empty()
    } else {
        seq![(x % 256) as u8] + le_bytes(x / 256, (n - 1) as nat)
    }
}

/// The hardware address stored at `s[i .. i + 6]`.
pub open spec fn mac_at(s: Seq<u8>, i: int) -> MacAddr {
    MacAddr(s[i], s[i + 1], s[i + 2], s[i + 3], s[i + 4], s[i + 5])
}

/// The IPv4 address stored at `s[i .. i + 4]`.
pub open spec fn ipv4_at(s: Seq<u8>, i: int) -> Ipv4Addr {
    Ipv4Addr(s[i], s[i + 1], s[i + 2], s[i + 3])
}

/// The bytes `s[start .. end]`.
pub open spec fn bytes_between(s: Seq<u8>, start: usize, end: usize) -> Seq<u8> {
    s.subrange(start as int, end as int)
}

/// Dropping the first `k` of the bytes between `start` and `end`.
pub proof fn lemma_bytes_between_skip(s: Seq<u8>, start: usize, end: usize, k: usize)
    requires
        start + k <= end <= s.len(),
    ensures
        bytes_between(s, start, end).skip(k as int) == s.subrange(start + k, end as int),
{
    assert(bytes_between(s, start, end).skip(k as int) =~= s.subrange(start + k, end as int));
}

/// The eight bytes of `x`, least significant first.
pub open spec fn le64(x: u64) -> Seq<u8> {
    le_bytes(x as nat, 8)
}

pub proof fn lemma_le_bytes_len(x: nat, n: nat)
    ensures
        le_bytes(x, n).len() == n,
    decreases n,
{
    if n > 0 {
        lemma_le_bytes_len(x / 256, (n - 1) as nat);
    }
}

pub proof fn lemma_le64_len(x: u64)
    ensures
        le64(x).len() == 8,
{
    lemma_le_bytes_len(x as nat, 8);
}

pub fn push_u16_be(v: &mut Vec<u8>, x: u16)
    ensures
        final(v)@ == old(v)@ + be16(x),
{
    v.push((x / 256) as u8);
    v.push((x % 256) as u8);
}

pub fn push_mac(v: &mut Vec<u8>, m: MacAddr)
    ensures
        final(v)@ == old(v)@ + m.octets(),
{
    v.push(m.0);
    v.push(m.1);
    v.push(m.2);
    v.push(m.3);
    v.push(m.4);
    v.push(m.5);
}

pub fn push_ipv4(v: &mut Vec<u8>, a: Ipv4Addr)
    ensures
        final(v)@ == old(v)@ + a.octets(),
{
    v.push(a.0);
    v.push(a.1);
    v.push(a.2);
    v.push(a.3);
}

/// Appends the eight bytes of `x`, least significant first.
pub fn push_u64_le(v: &mut Vec<u8>, x: u64)
    ensures
        final(v)@ == old(v)@ + le64(x),
{
    let ghost start = v@;
    let mut rest: u64 = x;
    let mut k: usize = 0;
    while k < 8
        invariant
            k <= 8,
            start + le_bytes(x as nat, 8) == v@ + le_bytes(rest as nat, (8 - k) as nat),
        decreases 8 - k,
    {
        let ghost before = v@;
        v.push((rest % 256) as u8);
        proof {
            assert(le_bytes(rest as nat, (8 - k) as nat) == seq![(rest % 256) as u8] + le_bytes(
                (rest / 256) as nat,
                (8 - k - 1) as nat,
            ));
            assert(v@ + le_bytes((rest / 256) as nat, (8 - k - 1) as nat) == before + (seq![
                (rest % 256) as u8,
            ] + le_bytes((rest / 256) as nat, (8 - k - 1) as nat)));
        }
        rest = rest / 256;
        k = k + 1;
    }
    assert(le_bytes(rest as nat, 0) =~= Seq::<u8>::empty());
    assert(v@ + Seq::<u8>::empty() =~= v@);
}

pub fn read_u16_be(s: &[u8], i: usize) -> (x: u16)
    requires
        i + 1 < s@.len(),
    ensures
        x == be16_at(s@, i as int),
{
    s[i] as u16 * 256 + s[i + 1] as u16
}

pub fn read_mac(s: &[u8], i: usize) -> (m: MacAddr)
    requires
        i + 6 <= s@.len(),
    ensures
        m == mac_at(s@, i as int),
{
    MacAddr(s[i], s[i + 1], s[i + 2], s[i + 3], s[i + 4], s[i + 5])
}

pub fn read_ipv4(s: &[u8], i: usize) -> (a: Ipv4Addr)
    requires
        i + 4 <= s@.len(),
    ensures
        a == ipv4_at(s@, i as int),
{
    Ipv4Addr(s[i], s[i + 1], s[i + 2], s[i + 3])
}

/// Overwrites `v[i]`, `v[i + 1]` with `x` in network byte order.
pub fn set_u16_be(v: &mut Vec<u8>, i: usize, x: u16)
    requires
        i + 2 <= old(v).len(),
    ensures
        final(v)@ == old(v)@.take(i as int) + be16(x) + old(v)@.skip(i + 2),
{
    v.set(i, (x / 256) as u8);
    v.set(i + 1, (x % 256) as u8);
    assert(final(v)@ =~= old(v)@.take(i as int) + be16(x) + old(v)@.skip(i + 2));
}

/// Appends every byte of `s`.
pub fn push_all(v: &mut Vec<u8>, s: &[u8])
    ensures
        final(v)@ == old(v)@ + s@,
{
    let mut i: usize = 0;
    while i < s.len()
        invariant
            i <= s@.len(),
            v@ == old(v)@ + s@.take(i as int),
        decreases s@.len() - i,
    {
        v.push(s[i]);
        i = i + 1;
        assert(v@ =~= old(v)@ + s@.take(i as int));
    }
    assert(s@.take(s@.len() as int) =~= s@);
}

/// A fresh vector holding `s[start .. end]`.
pub fn copy_range(s: &[u8], start: usize, end: usize) -> (v: Vec<u8>)
    requires
        start <= end <= s@.len(),
    ensures
        v@ == s@.subrange(start as int, end as int),
{
    let mut v: Vec<u8> = Vec::new();
    let mut i: usize = start;
    while i < end
        invariant
            start <= i <= end <= s@.len(),
            v@ == s@.subrange(start as int, i as int),
        decreases end - i,
    {
        v.push(s[i]);
        i = i + 1;
        assert(v@ =~= s@.subrange(start as int, i as int));
    }
    v
}

} // verus!
