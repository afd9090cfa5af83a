//! SipHash-2-4 of a 16-byte message given as two 64-bit words.
use vstd::prelude::*;

verus! {

/// 64-bit rotate left by `shift` modulo 64.
pub open spec fn rotl64(word: u64, shift: u32) -> u64 {
    let s = shift % 64;
    if s == 0 {
        word
    } else {
        (word << s) | (word >> ((64 - s) as u32))
    }
}

/// 64-bit addition modulo 2^64.
pub open spec fn add64(a: u64, b: u64) -> u64 {
    ((a + b) % 0x1_0000_0000_0000_0000) as u64
}

/// One SipRound over the state `(v0, v1, v2, v3)`.
pub open spec fn sipround(v: (u64, u64, u64, u64)) -> (u64, u64, u64, u64) {
    let (v0, v1, v2, v3) = v;
    let v0 = add64(v0, v1);
    let v1 = rotl64(v1, 13) ^ v0;
    let v0 = rotl64(v0, 32);
    let v2 = add64(v2, v3);
    let v3 = rotl64(v3, 16) ^ v2;
    let v0 = add64(v0, v3);
    let v3 = rotl64(v3, 21) ^ v0;
    let v2 = add64(v2, v1);
    let v1 = rotl64(v1, 17) ^ v2;
    let v2 = rotl64(v2, 32);
    (v0, v1, v2, v3)
}

pub open spec fn sipround2(v: (u64, u64, u64, u64)) -> (u64, u64, u64, u64) {
    sipround(sipround(v))
}

/// Absorbs one message word `m`: `v3 ^= m`, two rounds, `v0 ^= m`.
pub open spec fn sip_absorb(v: (u64, u64, u64, u64), m: u64) -> (u64, u64, u64, u64) {
    let w = sipround2((v.0, v.1, v.2, v.3 ^ m));
    (w.0 ^ m, w.1, w.2, w.3)
}

/// SipHash-2-4 of the 16-byte message `first || second` (each word in
/// little-endian byte order) under `key`.
#[verifier::opaque]
pub open spec fn spec_siphash_2u64(first: u64, second: u64, key: Seq<u64>) -> u64 {
    let v = (
        0x736f6d6570736575u64 ^ key[0],
        0x646f72616e646f6du64 ^ key[1],
        0x6c7967656e657261u64 ^ key[0],
        0x7465646279746573u64 ^ key[1],
    );
    let v = sip_absorb(v, first);
    let v = sip_absorb(v, second);
    let v = sip_absorb(v, 16u64 << 56u64);
    let v = sipround2(sipround2((v.0, v.1, v.2 ^ 0xff, v.3)));
    (v.0 ^ v.1) ^ (v.2 ^ v.3)
}

/// Rotates `word` left by `shift` (taken modulo 64).
pub fn rol64(word: u64, shift: u32) -> (r: u64)
    ensures
        r == rotl64(word, shift),
{
    let s = shift % 64;
    if s == 0 {
        word
    } else {
        (word << s) | (word >> (64 - s))
    }
}

fn siphash_round(v: (u64, u64, u64, u64)) -> (r: (u64, u64, u64, u64))
    ensures
        r == sipround(v),
{
    let (mut v0, mut v1, mut v2, mut v3) = v;
    v0 = v0.wrapping_add(v1);
    v1 = rol64(v1, 13);
    v1 = v1 ^ v0;
    v0 = rol64(v0, 32);
    v2 = v2.wrapping_add(v3);
    v3 = rol64(v3, 16);
    v3 = v3 ^ v2;
    v0 = v0.wrapping_add(v3);
    v3 = rol64(v3, 21);
    v3 = v3 ^ v0;
    v2 = v2.wrapping_add(v1);
    v1 = rol64(v1, 17);
    v1 = v1 ^ v2;
    v2 = rol64(v2, 32);
    (v0, v1, v2, v3)
}

fn absorb(v: (u64, u64, u64, u64), m: u64) -> (r: (u64, u64, u64, u64))
    ensures
        r == sip_absorb(v, m),
{
    let w = siphash_round(siphash_round((v.0, v.1, v.2, v.3 ^ m)));
    (w.0 ^ m, w.1, w.2, w.3)
}

/// SipHash-2-4 of the two words `first`, `second` under `key`.
pub fn siphash_2u64(first: u64, second: u64, key: &[u64; 2]) -> (r: u64)
    ensures
        r == spec_siphash_2u64(first, second, key@),
{
    reveal(spec_siphash_2u64);
    let v = (
        0x736f6d6570736575u64 ^ key[0],
        0x646f72616e646f6du64 ^ key[1],
        0x6c7967656e657261u64 ^ key[0],
        0x7465646279746573u64 ^ key[1],
    );
    let v = absorb(v, first);
    let v = absorb(v, second);
    let b: u64 = 16u64 << 56u64;
    let v = absorb(v, b);
    let v = siphash_round(siphash_round(siphash_round(siphash_round((v.0, v.1, v.2 ^ 0xff, v.3)))));
    (v.0 ^ v.1) ^ (v.2 ^ v.3)
}

} // verus!
