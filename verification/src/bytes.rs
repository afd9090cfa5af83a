//! Byte order and wire-field access.
//!
//! Packets are byte sequences.  A "raw" field is what a load of the field
//! yields on a little-endian machine (the byte order of the eBPF target);
//! a network-order field is read big-endian.
use vstd::prelude::*;

verus! {

/// Big-endian 16-bit value at `s[i..i + 2]`.
pub open spec fn be16(s: Seq<u8>, i: int) -> u16 {
    (s[i] * 256 + s[i + 1]) as u16
}

/// Big-endian 32-bit value at `s[i..i + 4]`.
pub open spec fn be32(s: Seq<u8>, i: int) -> u32 {
    (s[i] * 0x1000000 + s[i + 1] * 0x10000 + s[i + 2] * 0x100 + s[i + 3]) as u32
}

/// Little-endian (raw) 16-bit value at `s[i..i + 2]`.
pub open spec fn le16(s: Seq<u8>, i: int) -> u16 {
    (s[i] + s[i + 1] * 256) as u16
}

/// Little-endian (raw) 32-bit value at `s[i..i + 4]`.
pub open spec fn le32(s: Seq<u8>, i: int) -> u32 {
    (s[i] + s[i + 1] * 0x100 + s[i + 2] * 0x10000 + s[i + 3] * 0x1000000) as u32
}

/// The two bytes of `x` in network order.
pub open spec fn be16_bytes(x: u16) -> Seq<u8> {
    seq![(x / 256) as u8, (x % 256) as u8]
}

/// The four bytes of `x` in network order.
pub open spec fn be32_bytes(x: u32) -> Seq<u8> {
    seq![(x / 0x1000000) as u8, ((x / 0x10000) % 256) as u8, ((x / 256) % 256) as u8, (x % 256) as u8]
}

/// The two bytes of `x` as a little-endian store writes them.
pub open spec fn le16_bytes(x: u16) -> Seq<u8> {
    seq![(x % 256) as u8, (x / 256) as u8]
}

/// The four bytes of `x` as a little-endian store writes them.
pub open spec fn le32_bytes(x: u32) -> Seq<u8> {
    seq![(x % 256) as u8, ((x / 256) % 256) as u8, ((x / 0x10000) % 256) as u8, (x / 0x1000000) as u8]
}

/// `s` with `b` written over it from position `off` on.
pub open spec fn splice(s: Seq<u8>, off: int, b: Seq<u8>) -> Seq<u8> {
    s.take(off) + b + s.skip(off + b.len())
}

/// 16-bit byte swap: what `to_be`/`from_be` do on a little-endian machine.
pub open spec fn bswap16(x: u16) -> u16 {
    ((x % 256) * 256 + x / 256) as u16
}

/// 32-bit byte swap: what `to_be`/`from_be` do on a little-endian machine.
pub open spec fn bswap32(x: u32) -> u32 {
    ((x % 256) * 0x1000000 + ((x / 256) % 256) * 0x10000 + ((x / 0x10000) % 256) * 0x100 + x
        / 0x1000000) as u32
}

/// Host to network order, 16 bits.
pub fn htons(x: u16) -> (r: u16)
    ensures
        r == bswap16(x),
{
    (x % 256) * 256 + x / 256
}

/// Network to host order, 16 bits.
pub fn ntohs(x: u16) -> (r: u16)
    ensures
        r == bswap16(x),
{
    (x % 256) * 256 + x / 256
}

/// Host to network order, 32 bits.
pub fn htonl(x: u32) -> (r: u32)
    ensures
        r == bswap32(x),
{
    (x % 256) * 0x1000000 + ((x / 256) % 256) * 0x10000 + ((x / 0x10000) % 256) * 0x100 + x
        / 0x1000000
}

/// Network-order 16-bit field at `p[off..off + 2]`.
pub fn get_unaligned_be16(p: &[u8], off: usize) -> (r: u16)
    requires
        off + 2 <= p@.len(),
    ensures
        r == be16(p@, off as int),
{
    (p[off] as u16) * 256 + (p[off + 1] as u16)
}

/// Network-order 32-bit field at `p[off..off + 4]`.
pub fn get_unaligned_be32(p: &[u8], off: usize) -> (r: u32)
    requires
        off + 4 <= p@.len(),
    ensures
        r == be32(p@, off as int),
{
    (p[off] as u32) * 0x1000000 + (p[off + 1] as u32) * 0x10000 + (p[off + 2] as u32) * 0x100 + (
    p[off + 3] as u32)
}

/// Raw (little-endian) 16-bit field at `p[off..off + 2]`.
pub fn get_le16(p: &[u8], off: usize) -> (r: u16)
    requires
        off + 2 <= p@.len(),
    ensures
        r == le16(p@, off as int),
{
    (p[off] as u16) + (p[off + 1] as u16) * 256
}

/// Raw (little-endian) 32-bit field at `p[off..off + 4]`.
pub fn get_le32(p: &[u8], off: usize) -> (r: u32)
    requires
        off + 4 <= p@.len(),
    ensures
        r == le32(p@, off as int),
{
    (p[off] as u32) + (p[off + 1] as u32) * 0x100 + (p[off + 2] as u32) * 0x10000 + (p[off
        + 3] as u32) * 0x1000000
}

/// Raw 32-bit word of a 16-byte address at byte offset `off`.
pub fn u32_from_le(b: &[u8; 16], off: usize) -> (r: u32)
    requires
        off + 4 <= 16,
    ensures
        r == le32(b@, off as int),
{
    (b[off] as u32) + (b[off + 1] as u32) * 0x100 + (b[off + 2] as u32) * 0x10000 + (b[off
        + 3] as u32) * 0x1000000
}

/// Word-wise equality of two IPv6 addresses.
pub fn v6_equal(a: [u32; 4], b: [u32; 4]) -> (r: bool)
    ensures
        r == (a@ == b@),
{
    let r = a[0] == b[0] && a[1] == b[1] && a[2] == b[2] && a[3] == b[3];
    proof {
        if r {
            assert(a@ =~= b@);
        }
    }
    r
}

/// Appends `x` in network order.
pub fn push_be16(v: &mut Vec<u8>, x: u16)
    ensures
        final(v)@ == old(v)@ + be16_bytes(x),
{
    v.push((x / 256) as u8);
    v.push((x % 256) as u8);
    assert(v@ =~= old(v)@ + be16_bytes(x));
}

/// Appends `x` in network order.
pub fn push_be32(v: &mut Vec<u8>, x: u32)
    ensures
        final(v)@ == old(v)@ + be32_bytes(x),
{
    v.push((x / 0x1000000) as u8);
    v.push(((x / 0x10000) % 256) as u8);
    v.push(((x / 256) % 256) as u8);
    v.push((x % 256) as u8);
    assert(v@ =~= old(v)@ + be32_bytes(x));
}

/// Appends `x` as a little-endian store writes it.
pub fn push_le16(v: &mut Vec<u8>, x: u16)
    ensures
        final(v)@ == old(v)@ + le16_bytes(x),
{
    v.push((x % 256) as u8);
    v.push((x / 256) as u8);
    assert(v@ =~= old(v)@ + le16_bytes(x));
}

/// Appends `x` as a little-endian store writes it.
pub fn push_le32(v: &mut Vec<u8>, x: u32)
    ensures
        final(v)@ == old(v)@ + le32_bytes(x),
{
    v.push((x % 256) as u8);
    v.push(((x / 256) % 256) as u8);
    v.push(((x / 0x10000) % 256) as u8);
    v.push((x / 0x1000000) as u8);
    assert(v@ =~= old(v)@ + le32_bytes(x));
}

/// Appends `p[from..to]`.
pub fn push_range(v: &mut Vec<u8>, p: &[u8], from: usize, to: usize)
    requires
        from <= to <= p@.len(),
    ensures
        final(v)@ == old(v)@ + p@.subrange(from as int, to as int),
{
    let mut i = from;
    while i < to
        invariant
            from <= i <= to <= p@.len(),
            v@ == old(v)@ + p@.subrange(from as int, i as int),
        decreases to - i,
    {
        v.push(p[i]);
        i += 1;
        assert(v@ =~= old(v)@ + p@.subrange(from as int, i as int));
    }
}

/// A fresh copy of `p`.
pub fn to_vec(p: &[u8]) -> (r: Vec<u8>)
    ensures
        r@ == p@,
{
    let mut r: Vec<u8> = Vec::new();
    push_range(&mut r, p, 0, p.len());
    assert(p@.subrange(0, p@.len() as int) =~= p@);
    assert(r@ =~= p@);
    r
}

/// Writes `x` in network order over `v[off..off + 2]`.
pub fn set_be16(v: &mut Vec<u8>, off: usize, x: u16)
    requires
        off + 2 <= old(v)@.len(),
    ensures
        final(v)@ == splice(old(v)@, off as int, be16_bytes(x)),
{
    let n = v.len();
    v.set(off, (x / 256) as u8);
    v.set(off + 1, (x % 256) as u8);
    assert(v@ =~= splice(old(v)@, off as int, be16_bytes(x)));
}

/// Writes `x` in network order over `v[off..off + 4]`.
pub fn set_be32(v: &mut Vec<u8>, off: usize, x: u32)
    requires
        off + 4 <= old(v)@.len(),
    ensures
        final(v)@ == splice(old(v)@, off as int, be32_bytes(x)),
{
    let n = v.len();
    v.set(off, (x / 0x1000000) as u8);
    v.set(off + 1, ((x / 0x10000) % 256) as u8);
    v.set(off + 2, ((x / 256) % 256) as u8);
    v.set(off + 3, (x % 256) as u8);
    assert(v@ =~= splice(old(v)@, off as int, be32_bytes(x)));
}

/// Writes `x` as a little-endian store does over `v[off..off + 2]`.
pub fn set_le16(v: &mut Vec<u8>, off: usize, x: u16)
    requires
        off + 2 <= old(v)@.len(),
    ensures
        final(v)@ == splice(old(v)@, off as int, le16_bytes(x)),
{
    let n = v.len();
    v.set(off, (x % 256) as u8);
    v.set(off + 1, (x / 256) as u8);
    assert(v@ =~= splice(old(v)@, off as int, le16_bytes(x)));
}

/// Stores `x` little-endian at `v[off..off + 4]`.
pub fn set_le32(v: &mut Vec<u8>, off: usize, x: u32)
    requires
        off + 4 <= old(v)@.len(),
    ensures
        final(v)@ == splice(old(v)@, off as int, le32_bytes(x)),
{
    let _n = v.len();
    v.set(off, (x % 256) as u8);
    v.set(off + 1, ((x / 256) % 256) as u8);
    v.set(off + 2, ((x / 0x10000) % 256) as u8);
    v.set(off + 3, (x / 0x1000000) as u8);
    assert(v@ =~= splice(old(v)@, off as int, le32_bytes(x)));
}

/// A network-order read gives back what a network-order write stored.
pub proof fn lemma_be16_roundtrip(x: u16)
    ensures
        be16(be16_bytes(x), 0) == x,
{
}

/// A network-order read gives back what a network-order write stored.
pub proof fn lemma_be32_roundtrip(x: u32)
    ensures
        be32(be32_bytes(x), 0) == x,
{
}

/// A raw read gives back what a raw (little-endian) store wrote.
pub proof fn lemma_le32_roundtrip(x: u32)
    ensures
        le32(le32_bytes(x), 0) == x,
{
}

/// A raw read of four bytes that a raw store wrote gives the word back.
pub proof fn lemma_le32_read(q: Seq<u8>, off: int, x: u32)
    requires
        0 <= off,
        off + 4 <= q.len(),
        q.subrange(off, off + 4) == le32_bytes(x),
    ensures
        le32(q, off) == x,
{
    lemma_le32_roundtrip(x);
    assert(q[off] == le32_bytes(x)[0]);
    assert(q[off + 1] == le32_bytes(x)[1]);
    assert(q[off + 2] == le32_bytes(x)[2]);
    assert(q[off + 3] == le32_bytes(x)[3]);
}

/// Storing a raw read writes the same four bytes back.
pub proof fn lemma_le32_bytes_of_read(q: Seq<u8>, off: int)
    requires
        0 <= off,
        off + 4 <= q.len(),
    ensures
        le32_bytes(le32(q, off)) == q.subrange(off, off + 4),
{
    let b0 = q[off];
    let b1 = q[off + 1];
    let b2 = q[off + 2];
    let b3 = q[off + 3];
    let x = le32(q, off);
    assert(x == (b0 as u32) + (b1 as u32) * 0x100 + (b2 as u32) * 0x10000 + (b3 as u32) * 0x1000000);
    assert(((b0 as u32) + (b1 as u32) * 0x100 + (b2 as u32) * 0x10000 + (b3 as u32) * 0x1000000) % 256 == b0 as u32
        && ((((b0 as u32) + (b1 as u32) * 0x100 + (b2 as u32) * 0x10000 + (b3 as u32) * 0x1000000) / 256) % 256)
        == b1 as u32 && ((((b0 as u32) + (b1 as u32) * 0x100 + (b2 as u32) * 0x10000 + (b3 as u32) * 0x1000000)
        / 0x10000) % 256) == b2 as u32 && (((b0 as u32) + (b1 as u32) * 0x100 + (b2 as u32) * 0x10000 + (b3 as u32)
        * 0x1000000) / 0x1000000) == b3 as u32) by (bit_vector);
    assert(le32_bytes(x) =~= q.subrange(off, off + 4));
}

/// A little-endian store of the byte-swapped value writes the value in
/// network order.
pub proof fn lemma_le32_bytes_bswap(x: u32)
    ensures
        le32_bytes(bswap32(x)) == be32_bytes(x),
{
    let y = bswap32(x);
    assert(y == ((x % 256) * 0x1000000 + ((x / 256) % 256) * 0x10000 + ((x / 0x10000) % 256)
        * 0x100 + x / 0x1000000) as u32);
    assert((((x % 256) * 0x1000000 + ((x / 256) % 256) * 0x10000 + ((x / 0x10000) % 256) * 0x100
        + x / 0x1000000) as u32) % 256 == x / 0x1000000) by (bit_vector);
    assert(((((x % 256) * 0x1000000 + ((x / 256) % 256) * 0x10000 + ((x / 0x10000) % 256) * 0x100
        + x / 0x1000000) as u32) / 256) % 256 == (x / 0x10000) % 256) by (bit_vector);
    assert(((((x % 256) * 0x1000000 + ((x / 256) % 256) * 0x10000 + ((x / 0x10000) % 256) * 0x100
        + x / 0x1000000) as u32) / 0x10000) % 256 == (x / 256) % 256) by (bit_vector);
    assert((((x % 256) * 0x1000000 + ((x / 256) % 256) * 0x10000 + ((x / 0x10000) % 256) * 0x100
        + x / 0x1000000) as u32) / 0x1000000 == x % 256) by (bit_vector);
    assert(le32_bytes(y) =~= be32_bytes(x));
}

/// Byte swapping twice is the identity.
pub proof fn lemma_bswap16_involutive(x: u16)
    ensures
        bswap16(bswap16(x)) == x,
{
}

/// Byte swapping twice is the identity.
pub proof fn lemma_bswap32_involutive(x: u32)
    ensures
        bswap32(bswap32(x)) == x,
{
    let y = bswap32(x);
    assert(y == ((x % 256) * 0x1000000 + ((x / 256) % 256) * 0x10000 + ((x / 0x10000) % 256)
        * 0x100 + x / 0x1000000) as u32);
    assert(((((x % 256) * 0x1000000 + ((x / 256) % 256) * 0x10000 + ((x / 0x10000) % 256) * 0x100
        + x / 0x1000000) as u32) % 256) * 0x1000000 + (((((x % 256) * 0x1000000 + ((x / 256) % 256)
        * 0x10000 + ((x / 0x10000) % 256) * 0x100 + x / 0x1000000) as u32) / 256) % 256) * 0x10000
        + (((((x % 256) * 0x1000000 + ((x / 256) % 256) * 0x10000 + ((x / 0x10000) % 256) * 0x100
        + x / 0x1000000) as u32) / 0x10000) % 256) * 0x100 + (((x % 256) * 0x1000000 + ((x / 256)
        % 256) * 0x10000 + ((x / 0x10000) % 256) * 0x100 + x / 0x1000000) as u32) / 0x1000000
        == x) by (bit_vector);
}

} // verus!
