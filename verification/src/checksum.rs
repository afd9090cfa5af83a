//! Internet checksum arithmetic: folding, TCP/UDP pseudo-header sums for
//! IPv4 and IPv6, and the IPv4 header checksum.
use vstd::prelude::*;
use crate::bytes::{bswap32, get_le16, htonl, le16, le16_bytes, splice};

verus! {

/// One 32-to-16 fold: low half plus high half.
pub open spec fn fold16(x: int) -> int {
    x % 0x10000 + x / 0x10000
}

/// One 64-to-32 fold: low half plus high half.
pub open spec fn fold32(x: int) -> int {
    x % 0x1_0000_0000 + x / 0x1_0000_0000
}

/// Folds a 64-bit partial sum twice into 32 bits.
pub open spec fn spec_from64to32(x: u64) -> u32 {
    fold32(fold32(x as int)) as u32
}

/// Folds a 32-bit partial sum twice into 16 bits and complements it.
pub open spec fn spec_csum_fold(x: u32) -> u16 {
    (0xffff - fold16(fold16(x as int))) as u16
}

/// Sum of the raw 16-bit words `s[0..2], s[2..4], ...`, `n` words in all.
pub open spec fn word_sum(s: Seq<u8>, n: nat) -> nat
    decreases n,
{
    if n == 0 {
        0
    } else {
        word_sum(s, (n - 1) as nat) + le16(s, 2 * (n - 1)) as nat
    }
}

/// 32-bit addition with end-around carry.
pub open spec fn add_carry(a: u32, b: u32) -> u32 {
    if a + b > 0xffff_ffff {
        (a + b - 0xffff_ffff) as u32
    } else {
        (a + b) as u32
    }
}

/// The unfolded IPv4 TCP/UDP pseudo-header sum.
pub open spec fn spec_csum_tcpudp_nofold(saddr: u32, daddr: u32, len: u32, proto: u8, sum: u32) -> u32 {
    spec_from64to32(
        (sum + saddr + daddr + (vstd::wrapping::u32_specs::wrapping_add(proto as u32, len) as int)
            * 256) as u64,
    )
}

/// The IPv6 TCP/UDP pseudo-header sum before the final fold.
pub open spec fn ipv6_pseudo_sum(saddr: Seq<u32>, daddr: Seq<u32>, len: u32, proto: u8, csum: u32) -> u32 {
    let s1 = add_carry(add_carry(add_carry(add_carry(csum, saddr[0]), saddr[1]), saddr[2]), saddr[3]);
    let s2 = add_carry(add_carry(add_carry(add_carry(s1, daddr[0]), daddr[1]), daddr[2]), daddr[3]);
    add_carry(add_carry(s2, bswap32(len)), bswap32(proto as u32))
}

/// The IPv4 header checksum as the header-rewriting programs compute it:
/// the raw words of the first 20 bytes are summed, folded once, complemented
/// and truncated to 16 bits.
pub open spec fn spec_ipv4_check(h: Seq<u8>) -> u16 {
    (0xffff - fold16(word_sum(h, 10) as int) % 0x10000) as u16
}

proof fn lemma_fold16_bound(x: int)
    requires
        0 <= x <= 0xffff_ffff,
    ensures
        fold16(x) <= 0x1fffe,
        fold16(fold16(x)) <= 0xffff,
        0 <= fold16(fold16(x)),
{
}

/// Sums `n` raw words is at most `n * 0xffff`.
pub proof fn lemma_word_sum_bound(s: Seq<u8>, n: nat)
    ensures
        word_sum(s, n) <= n * 0xffff,
    decreases n,
{
    if n > 0 {
        lemma_word_sum_bound(s, (n - 1) as nat);
    }
}

/// Only the first `n` words take part in `word_sum(s, n)`.
pub proof fn lemma_word_sum_prefix(s: Seq<u8>, t: Seq<u8>, n: nat)
    requires
        2 * n <= s.len(),
        2 * n <= t.len(),
        s.take(2 * n as int) == t.take(2 * n as int),
    ensures
        word_sum(s, n) == word_sum(t, n),
    decreases n,
{
    if n > 0 {
        assert(s[2 * (n - 1)] == s.take(2 * n as int)[2 * (n - 1)]);
        assert(t[2 * (n - 1)] == t.take(2 * n as int)[2 * (n - 1)]);
        assert(s[2 * (n - 1) + 1] == s.take(2 * n as int)[2 * (n - 1) + 1]);
        assert(t[2 * (n - 1) + 1] == t.take(2 * n as int)[2 * (n - 1) + 1]);
        assert(s.take(2 * (n - 1)) =~= s.take(2 * n as int).take(2 * (n - 1)));
        assert(t.take(2 * (n - 1)) =~= t.take(2 * n as int).take(2 * (n - 1)));
        lemma_word_sum_prefix(s, t, (n - 1) as nat);
    }
}

/// Replacing word `k` changes the word sum by the difference of the words.
pub proof fn lemma_word_sum_update(s: Seq<u8>, k: nat, w: u16, n: nat)
    requires
        k < n,
        2 * n <= s.len(),
    ensures
        word_sum(splice(s, 2 * k as int, le16_bytes(w)), n) + le16(s, 2 * k as int) == word_sum(s, n)
            + w,
    decreases n,
{
    let t = splice(s, 2 * k as int, le16_bytes(w));
    assert(t.len() == s.len());
    if n - 1 == k {
        assert(t[2 * k as int] == (w % 256) as u8);
        assert(t[2 * k as int + 1] == (w / 256) as u8);
        assert(t.take(2 * k as int) =~= s.take(2 * k as int));
        lemma_word_sum_prefix(s, t, k);
    } else {
        assert(t[2 * (n - 1)] == s[2 * (n - 1)]);
        assert(t[2 * (n - 1) + 1] == s[2 * (n - 1) + 1]);
        lemma_word_sum_update(s, k, w, (n - 1) as nat);
    }
}

proof fn lemma_complement_folds_to_zero(s: int)
    requires
        0 <= s <= 10 * 0xffff,
        fold16(s) <= 0xffff,
    ensures
        fold16(fold16(s + 0xffff - fold16(s))) == 0xffff,
{
    let hi = s / 0x10000;
    let lo = s % 0x10000;
    assert(s == hi * 0x10000 + lo);
    assert(0 <= hi <= 9);
    let t = s + 0xffff - fold16(s);
    assert(t == (hi + 1) * 0xffff);
    assert(t == hi * 0x10000 + (0x10000 - hi - 1));
    assert(t / 0x10000 == hi);
    assert(t % 0x10000 == 0x10000 - hi - 1);
}

/// Checksum law of the IPv4 header: once the checksum computed over a
/// header whose check field is clear is stored in that field, the header
/// verifies, i.e. its folded, complemented word sum is zero.  It fails only
/// where the single fold of the computation overflows 16 bits.
pub proof fn lemma_ipv4_check_verifies(h: Seq<u8>)
    requires
        20 <= h.len(),
        h[10] == 0,
        h[11] == 0,
        fold16(word_sum(h, 10) as int) <= 0xffff,
    ensures
        spec_csum_fold(word_sum(splice(h, 10, le16_bytes(spec_ipv4_check(h))), 10) as u32) == 0,
{
    let c = spec_ipv4_check(h);
    lemma_word_sum_bound(h, 10);
    lemma_word_sum_update(h, 5, c, 10);
    assert(le16(h, 10) == 0);
    let s = word_sum(h, 10) as int;
    assert(c == 0xffff - fold16(s));
    lemma_complement_folds_to_zero(s);
}

/// Folds a 64-bit partial checksum into 32 bits.
pub fn from64to32(x: u64) -> (r: u32)
    ensures
        r == spec_from64to32(x),
{
    let y = x % 0x1_0000_0000 + x / 0x1_0000_0000;
    let z = y % 0x1_0000_0000 + y / 0x1_0000_0000;
    z as u32
}

/// Folds a 32-bit partial checksum into the final 16-bit checksum.
pub fn csum_fold(csum: u32) -> (r: u16)
    ensures
        r == spec_csum_fold(csum),
{
    proof {
        lemma_fold16_bound(csum as int);
    }
    let s1 = csum % 0x10000 + csum / 0x10000;
    let s2 = s1 % 0x10000 + s1 / 0x10000;
    (0xffff - s2) as u16
}

/// One 64-to-32 fold is the value less a multiple of `0xffff_ffff`, is
/// zero only for zero, and shrinks the value into 33, then 32 bits.
proof fn lemma_fold32_step(x: int)
    requires
        0 <= x < 0x1_0000_0000_0000_0000,
    ensures
        fold32(x) == x - (x / 0x1_0000_0000) * 0xffff_ffff,
        fold32(x) == 0 <==> x == 0,
        0 <= fold32(x) <= 0x1_ffff_fffe,
        x <= 0x1_ffff_fffe ==> fold32(x) <= 0xffff_ffff,
{
    let q = x / 0x1_0000_0000;
    let l = x % 0x1_0000_0000;
    vstd::arithmetic::div_mod::lemma_fundamental_div_mod(x, 0x1_0000_0000);
    assert(0 <= l < 0x1_0000_0000);
    assert(x == 0x1_0000_0000 * q + l);
    assert(0 <= q < 0x1_0000_0000);
    assert(x <= 0x1_ffff_fffe ==> q <= 1);
}

/// Folding law: the 64-to-32 fold keeps a sum's value modulo
/// `0xffff_ffff` (the modulus of end-around-carry arithmetic) and is zero
/// exactly for a zero sum.  So `u64::MAX` folds to `0xffff_ffff` and
/// `1 << 32` to 1.
pub proof fn lemma_from64to32_congruent(x: u64)
    ensures
        spec_from64to32(x) as int % 0xffff_ffff == x as int % 0xffff_ffff,
        spec_from64to32(x) == 0 <==> x == 0,
        spec_from64to32(0xffff_ffff_ffff_ffffu64) == 0xffff_ffff,
        spec_from64to32(0x1_0000_0000u64) == 1,
{
    let f1 = fold32(x as int);
    lemma_fold32_step(x as int);
    lemma_fold32_step(f1);
    let f2 = fold32(f1);
    assert(f2 == x as int - ((x as int) / 0x1_0000_0000 + f1 / 0x1_0000_0000) * 0xffff_ffff);
    vstd::arithmetic::div_mod::lemma_mod_multiples_vanish(
        -((x as int) / 0x1_0000_0000 + f1 / 0x1_0000_0000),
        x as int,
        0xffff_ffff,
    );
    assert(spec_from64to32(x) as int == f2);
    assert(fold32(0xffff_ffff_ffff_ffff) == 0x1_ffff_fffe);
    assert(fold32(0x1_ffff_fffe) == 0xffff_ffff);
    assert(fold32(0x1_0000_0000) == 1);
    assert(fold32(1) == 1);
}

/// Pseudo-header law: where the protocol plus the length fits in 32 bits,
/// the pseudo-header sum is, modulo `0xffff_ffff`, the plain sum of `sum`,
/// both addresses and 256 times protocol plus length, and it is zero only
/// when all of them are.
pub proof fn lemma_csum_tcpudp_nofold_congruent(saddr: u32, daddr: u32, len: u32, proto: u8, sum: u32)
    requires
        proto as u32 + len <= u32::MAX,
    ensures
        spec_csum_tcpudp_nofold(saddr, daddr, len, proto, sum) as int % 0xffff_ffff == (sum + saddr + daddr + (proto
            + len) * 256) % 0xffff_ffff,
        spec_csum_tcpudp_nofold(saddr, daddr, len, proto, sum) == 0 <==> (sum == 0 && saddr == 0 && daddr == 0
            && proto == 0 && len == 0),
{
    let t: int = sum + saddr + daddr + (proto + len) * 256;
    assert(vstd::wrapping::u32_specs::wrapping_add(proto as u32, len) == proto + len);
    assert(0 <= t < 0x1_0000_0000_0000_0000);
    assert((t as u64) as int == t);
    lemma_from64to32_congruent(t as u64);
}

/// Partial checksum of the IPv4 TCP/UDP pseudo header added to `sum`.
pub fn csum_tcpudp_nofold(saddr: u32, daddr: u32, len: u32, proto: u8, sum: u32) -> (r: u32)
    ensures
        r == spec_csum_tcpudp_nofold(saddr, daddr, len, proto, sum),
{
    let mut s: u64 = sum as u64;
    s = s + saddr as u64;
    s = s + daddr as u64;
    s = s + ((proto as u32).wrapping_add(len) as u64) * 256;
    from64to32(s)
}

/// Final TCP/UDP checksum over the IPv4 pseudo header and `sum`.
pub fn csum_tcpudp_magic(saddr: u32, daddr: u32, len: u32, proto: u8, sum: u32) -> (r: u16)
    ensures
        r == spec_csum_fold(spec_csum_tcpudp_nofold(saddr, daddr, len, proto, sum)),
{
    csum_fold(csum_tcpudp_nofold(saddr, daddr, len, proto, sum))
}

fn add_with_carry(a: u32, b: u32) -> (r: u32)
    ensures
        r == add_carry(a, b),
{
    if a > 0xffff_ffff - b {
        a - (0xffff_ffff - b)
    } else {
        a + b
    }
}

/// One end-around-carry addition: the plain sum less `k` times
/// `0xffff_ffff` for one carry `k`, and zero only when both words are.
proof fn lemma_add_carry_step(a: u32, b: u32) -> (k: int)
    ensures
        k == 0 || k == 1,
        add_carry(a, b) == a + b - k * 0xffff_ffff,
        add_carry(a, b) == 0 <==> (a == 0 && b == 0),
{
    if a + b > 0xffff_ffff { 1 } else { 0 }
}

/// The plain sum of the words of the IPv6 pseudo header and `csum`.
pub open spec fn ipv6_pseudo_total(saddr: Seq<u32>, daddr: Seq<u32>, len: u32, proto: u8, csum: u32) -> int {
    csum + saddr[0] + saddr[1] + saddr[2] + saddr[3] + daddr[0] + daddr[1] + daddr[2] + daddr[3] + bswap32(len)
        + bswap32(proto as u32)
}

/// The end-around-carry sum is the plain sum less a number of carries
/// times `0xffff_ffff`, and zero exactly when every word is.
proof fn lemma_pseudo_sum_form(saddr: Seq<u32>, daddr: Seq<u32>, len: u32, proto: u8, csum: u32) -> (k: int)
    ensures
        0 <= k <= 10,
        ipv6_pseudo_sum(saddr, daddr, len, proto, csum) == ipv6_pseudo_total(saddr, daddr, len, proto, csum) - k
            * 0xffff_ffff,
        ipv6_pseudo_sum(saddr, daddr, len, proto, csum) == 0 <==> ipv6_pseudo_total(saddr, daddr, len, proto, csum)
            == 0,
{
    let r1 = add_carry(csum, saddr[0]);
    let k1 = lemma_add_carry_step(csum, saddr[0]);
    let r2 = add_carry(r1, saddr[1]);
    let k2 = lemma_add_carry_step(r1, saddr[1]);
    let r3 = add_carry(r2, saddr[2]);
    let k3 = lemma_add_carry_step(r2, saddr[2]);
    let r4 = add_carry(r3, saddr[3]);
    let k4 = lemma_add_carry_step(r3, saddr[3]);
    let r5 = add_carry(r4, daddr[0]);
    let k5 = lemma_add_carry_step(r4, daddr[0]);
    let r6 = add_carry(r5, daddr[1]);
    let k6 = lemma_add_carry_step(r5, daddr[1]);
    let r7 = add_carry(r6, daddr[2]);
    let k7 = lemma_add_carry_step(r6, daddr[2]);
    let r8 = add_carry(r7, daddr[3]);
    let k8 = lemma_add_carry_step(r7, daddr[3]);
    let r9 = add_carry(r8, bswap32(len));
    let k9 = lemma_add_carry_step(r8, bswap32(len));
    let k10 = lemma_add_carry_step(r9, bswap32(proto as u32));
    k1 + k2 + k3 + k4 + k5 + k6 + k7 + k8 + k9 + k10
}

/// Two end-around-carry sums of the same words are equal: each is the
/// plain total less some carries, lies in `[0, 0xffff_ffff]`, and is zero
/// exactly when the total is.
proof fn lemma_carry_sums_equal(r1: u32, r2: u32, t: int, k1: int, k2: int)
    requires
        r1 == t - k1 * 0xffff_ffff,
        r2 == t - k2 * 0xffff_ffff,
        r1 == 0 <==> t == 0,
        r2 == 0 <==> t == 0,
    ensures
        r1 == r2,
{
    if t != 0 {
        assert(r1 - r2 == (k2 - k1) * 0xffff_ffff);
        if k1 < k2 {
            assert((k2 - k1) * 0xffff_ffff >= 0xffff_ffff) by (nonlinear_arith)
                requires
                    k2 - k1 >= 1,
            ;
        } else if k1 > k2 {
            assert((k1 - k2) * 0xffff_ffff >= 0xffff_ffff) by (nonlinear_arith)
                requires
                    k1 - k2 >= 1,
            ;
        }
    }
}

/// Address-swap law of the IPv6 pseudo-header checksum: exchanging the
/// source and destination addresses leaves the checksum unchanged (the
/// end-around-carry sum does not depend on the order of its words).  And
/// the checksum of an all-zero pseudo header is `0xffff`.
pub proof fn lemma_ipv6_magic_swap(saddr: Seq<u32>, daddr: Seq<u32>, len: u32, proto: u8, csum: u32)
    ensures
        ipv6_pseudo_sum(saddr, daddr, len, proto, csum) == ipv6_pseudo_sum(daddr, saddr, len, proto, csum),
        spec_csum_fold(ipv6_pseudo_sum(saddr, daddr, len, proto, csum)) == spec_csum_fold(
            ipv6_pseudo_sum(daddr, saddr, len, proto, csum),
        ),
        spec_csum_fold(ipv6_pseudo_sum(seq![0u32, 0u32, 0u32, 0u32], seq![0u32, 0u32, 0u32, 0u32], 0, 0, 0))
            == 0xffff,
{
    let k1 = lemma_pseudo_sum_form(saddr, daddr, len, proto, csum);
    let k2 = lemma_pseudo_sum_form(daddr, saddr, len, proto, csum);
    assert(ipv6_pseudo_total(saddr, daddr, len, proto, csum) == ipv6_pseudo_total(daddr, saddr, len, proto, csum));
    lemma_carry_sums_equal(
        ipv6_pseudo_sum(saddr, daddr, len, proto, csum),
        ipv6_pseudo_sum(daddr, saddr, len, proto, csum),
        ipv6_pseudo_total(saddr, daddr, len, proto, csum),
        k1,
        k2,
    );
    lemma_zero_pseudo_sum();
}

proof fn lemma_zero_pseudo_sum()
    ensures
        spec_csum_fold(ipv6_pseudo_sum(seq![0u32, 0u32, 0u32, 0u32], seq![0u32, 0u32, 0u32, 0u32], 0, 0, 0))
            == 0xffff,
{
    let z = seq![0u32, 0u32, 0u32, 0u32];
    let _k0 = lemma_pseudo_sum_form(z, z, 0, 0, 0);
    assert(bswap32(0u32) == 0);
    assert(ipv6_pseudo_total(z, z, 0, 0, 0) == 0);
    assert(ipv6_pseudo_sum(z, z, 0, 0, 0) == 0);
}

/// Final TCP/UDP checksum over the IPv6 pseudo header and `csum`.
pub fn csum_ipv6_magic(saddr: &[u32; 4], daddr: &[u32; 4], len: u32, proto: u8, csum: u32) -> (r: u16)
    ensures
        r == spec_csum_fold(ipv6_pseudo_sum(saddr@, daddr@, len, proto, csum)),
{
    let mut sum = csum;
    sum = add_with_carry(sum, saddr[0]);
    sum = add_with_carry(sum, saddr[1]);
    sum = add_with_carry(sum, saddr[2]);
    sum = add_with_carry(sum, saddr[3]);
    sum = add_with_carry(sum, daddr[0]);
    sum = add_with_carry(sum, daddr[1]);
    sum = add_with_carry(sum, daddr[2]);
    sum = add_with_carry(sum, daddr[3]);
    let ulen = htonl(len);
    sum = add_with_carry(sum, ulen);
    let uproto = htonl(proto as u32);
    sum = add_with_carry(sum, uproto);
    csum_fold(sum)
}

/// Sum of the raw words of `p[off..off + 2 * n]`: the partial checksum of
/// that range.
pub fn csum_partial(p: &[u8], off: usize, n: usize) -> (r: u32)
    requires
        off + 2 * n <= p@.len(),
        n <= 0x10000,
    ensures
        r == word_sum(p@.skip(off as int), n as nat),
{
    let ghost s = p@.skip(off as int);
    let plen = p.len();
    let mut sum: u32 = 0;
    let mut i: usize = 0;
    while i < n
        invariant
            i <= n <= 0x10000,
            plen == p@.len(),
            off + 2 * n <= p@.len(),
            s == p@.skip(off as int),
            sum == word_sum(s, i as nat),
        decreases n - i,
    {
        proof {
            lemma_word_sum_bound(s, i as nat);
            assert(s[2 * i as int] == p@[off + 2 * i]);
            assert(s[2 * i + 1] == p@[off + 2 * i + 1]);
        }
        let w = get_le16(p, off + 2 * i);
        sum = sum + w as u32;
        i = i + 1;
    }
    sum
}

/// The IPv4 header checksum over `h[0..20]` (whose check field the caller
/// has cleared).
pub fn ipv4_check(h: &[u8]) -> (r: u16)
    requires
        20 <= h@.len(),
    ensures
        r == spec_ipv4_check(h@),
{
    let csum = csum_partial(h, 0, 10);
    assert(h@.skip(0) =~= h@);
    proof {
        lemma_word_sum_bound(h@, 10);
    }
    let s = (csum % 0x10000) + (csum / 0x10000);
    (0xffff - s % 0x10000) as u16
}

/// The IPv4 header checksum over the header at `p[off..off + 20]` (whose
/// check field the caller has cleared).
pub fn ipv4_check_at(p: &[u8], off: usize) -> (r: u16)
    requires
        off + 20 <= p@.len(),
    ensures
        r == spec_ipv4_check(p@.skip(off as int)),
{
    let csum = csum_partial(p, off, 10);
    proof {
        lemma_word_sum_bound(p@.skip(off as int), 10);
    }
    let s = (csum % 0x10000) + (csum / 0x10000);
    (0xffff - s % 0x10000) as u16
}

} // verus!
