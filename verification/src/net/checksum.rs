//! The 16-bit ones'-complement Internet checksum used by IPv4 and ICMP.
use vstd::prelude::*;
use vstd::arithmetic::div_mod::{lemma_fundamental_div_mod, lemma_mod_multiples_vanish};

verus! {

/// The `k`-th big-endian 16-bit word of `data`; an odd final byte is the
/// high byte of a last word whose low byte is zero.
pub open spec fn word(data: Seq<u8>, k: int) -> nat {
    if 2 * k + 1 < data.len() {
        (data[2 * k] as nat) * 256 + data[2 * k + 1] as nat
    } else if 2 * k < data.len() {
        (data[2 * k] as nat) * 256
    } else {
        0
    }
}

/// The number of words, counting an odd final byte as one.
pub open spec fn word_count(data: Seq<u8>) -> nat {
    ((data.len() + 1) / 2) as nat
}

/// The sum of the first `n` words of `data`, the word with index `skip` left out.
pub open spec fn sum_words(data: Seq<u8>, skip: nat, n: nat) -> nat
    decreases n,
{
    if n == 0 {
        0
    } else if n - 1 == skip {
        sum_words(data, skip, (n - 1) as nat)
    } else {
        sum_words(data, skip, (n - 1) as nat) + word(data, n - 1)
    }
}

/// Folds the carries above bit 16 back into the low 16 bits until none remain.
pub open spec fn fold_carries(s: nat) -> nat
    decreases s,
{
    if s < 0x10000 {
        s
    } else {
        fold_carries(s / 0x10000 + s % 0x10000)
    }
}

/// The Internet checksum of `data` with the word at index `skip` (the
/// checksum field itself) regarded as zero; the empty input has checksum 0.
pub open spec fn internet_checksum(data: Seq<u8>, skip: nat) -> u16 {
    if data.len() == 0 {
        0
    } else {
        (0xffff - fold_carries(sum_words(data, skip, word_count(data)))) as u16
    }
}

pub proof fn lemma_fold_carries_bound(s: nat)
    ensures
        fold_carries(s) < 0x10000,
        s == 0 <==> fold_carries(s) == 0,
        fold_carries(s) <= s,
    decreases s,
{
    if s >= 0x10000 {
        lemma_fold_carries_bound(s / 0x10000 + s % 0x10000);
    }
}

/// Two buffers that agree on every word below `n` except the one at `skip`
/// have the same sum of those words.
proof fn lemma_sum_words_agree(d1: Seq<u8>, d2: Seq<u8>, skip: nat, n: nat)
    requires
        forall|k: int| 0 <= k < n && k != skip ==> word(d1, k) == word(d2, k),
    ensures
        sum_words(d1, skip, n) == sum_words(d2, skip, n),
    decreases n,
{
    if n > 0 {
        lemma_sum_words_agree(d1, d2, skip, (n - 1) as nat);
    }
}

/// Counting every word equals counting all but `skip` and adding word `skip`.
proof fn lemma_sum_words_split(data: Seq<u8>, skip: nat, all: nat, n: nat)
    requires
        skip < n <= all,
    ensures
        sum_words(data, all, n) == sum_words(data, skip, n) + word(data, skip as int),
    decreases n,
{
    if n - 1 > skip {
        lemma_sum_words_split(data, skip, all, (n - 1) as nat);
    } else {
        lemma_sum_words_agree_all(data, skip, all, (n - 1) as nat);
    }
}

proof fn lemma_sum_words_agree_all(data: Seq<u8>, skip: nat, all: nat, n: nat)
    requires
        n <= skip,
        n <= all,
    ensures
        sum_words(data, all, n) == sum_words(data, skip, n),
    decreases n,
{
    if n > 0 {
        lemma_sum_words_agree_all(data, skip, all, (n - 1) as nat);
    }
}

/// Folding carries keeps the value modulo 0xffff.
proof fn lemma_fold_carries_mod(s: nat)
    ensures
        fold_carries(s) % 0xffff == s % 0xffff,
    decreases s,
{
    if s >= 0x10000 {
        let q = s / 0x10000;
        let r = s % 0x10000;
        lemma_fundamental_div_mod(s as int, 0x10000);
        assert(s == 0xffff * q + (q + r));
        lemma_mod_multiples_vanish(q as int, (q + r) as int, 0xffff);
        lemma_fold_carries_mod(q + r);
    }
}

/// Overwriting the two bytes of the skipped word leaves the checksum unchanged:
/// the checksum field itself does not take part in the checksum.
pub proof fn lemma_checksum_ignores_field(data: Seq<u8>, skip: nat, hi: u8, lo: u8)
    requires
        2 * skip + 1 < data.len(),
    ensures
        internet_checksum(data.update(2 * skip as int, hi).update(2 * skip as int + 1, lo), skip)
            == internet_checksum(data, skip),
{
    let d2 = data.update(2 * skip as int, hi).update(2 * skip as int + 1, lo);
    assert forall|k: int| 0 <= k < word_count(data) && k != skip implies word(d2, k) == word(
        data,
        k,
    ) by {
        assert(2 * k != 2 * skip && 2 * k + 1 != 2 * skip && 2 * k != 2 * skip + 1 && 2 * k + 1
            != 2 * skip + 1);
    }
    lemma_sum_words_agree(d2, data, skip, word_count(data));
}

/// Storing the checksum of a buffer in its checksum field makes the buffer
/// check: its checksum over every word, none skipped, is zero.
pub proof fn lemma_checksum_verifies(data: Seq<u8>, skip: nat)
    requires
        2 * skip + 1 < data.len(),
    ensures
        ({
            let c = internet_checksum(data, skip);
            let filled = data.update(2 * skip as int, (c / 256) as u8).update(2 * skip as int + 1, (c % 256) as u8);
            internet_checksum(filled, word_count(filled)) == 0
        }),
{
    let c = internet_checksum(data, skip);
    let filled = data.update(2 * skip as int, (c / 256) as u8).update(2 * skip as int + 1, (c % 256) as u8);
    let n = word_count(data);
    let s = sum_words(data, skip, n);
    lemma_checksum_ignores_field(data, skip, (c / 256) as u8, (c % 256) as u8);
    lemma_sum_words_agree(filled, data, skip, n);
    lemma_sum_words_split(filled, skip, n, n);
    assert(word(filled, skip as int) == c);
    lemma_fold_carries_bound(s);
    let t: nat = (s + (0xffff - fold_carries(s))) as nat;
    assert(sum_words(filled, n, n) == t);
    lemma_fold_carries_mod(s);
    lemma_fold_carries_mod(t);
    lemma_fold_carries_bound(t);
    lemma_fundamental_div_mod(s as int, 0xffff);
    lemma_fundamental_div_mod(fold_carries(s) as int, 0xffff);
    assert(t == 0xffff * (s / 0xffff) + (0xffff - fold_carries(s) + s % 0xffff));
    assert(0xffff - fold_carries(s) + s % 0xffff == 0xffff * (1 - fold_carries(s) / 0xffff));
    lemma_mod_multiples_vanish((s / 0xffff) as int, (0xffff - fold_carries(s) + s % 0xffff) as int, 0xffff);
    assert(t % 0xffff == 0) by {
        lemma_mod_multiples_vanish((1 - fold_carries(s) / 0xffff) as int, 0, 0xffff);
    }
    assert(t > 0);
    assert(fold_carries(t) == 0xffff) by {
        lemma_fundamental_div_mod(fold_carries(t) as int, 0xffff);
    }
}

/// The Internet checksum of `data`, the word with index `skipword` left
/// out, as computed by `pnet::packet::util::checksum` (pnet_packet 0.35):
/// it adds the big-endian 16-bit words into a `u32`, an odd last byte as
/// the high byte of a word, folds the carries back in, and returns the
/// complement; it returns 0 for empty input. The contract claims exactly
/// `internet_checksum`. The length bound keeps pnet's `u32` sum from
/// overflowing.
#[verifier::external_body]
pub(crate) fn checksum(data: &[u8], skipword: usize) -> (c: u16)
    requires
        data@.len() <= 0x20000,
    ensures
        c == internet_checksum(data@, skipword as nat),
{
    pnet::packet::util::checksum(data, skipword)
}

} // verus!
