//! Bob Jenkins' lookup3 hash (`jhash`) in the form the networking programs
//! use: the general byte-string version, the 16-byte key version and the
//! two-word version.
use vstd::prelude::*;
use crate::bytes::le32;

verus! {

/// The initial value every jhash variant starts from.
pub const JHASH_INITVAL: u32 = 0xdeadbeef;

/// 32-bit rotate left by `shift` modulo 32.
pub open spec fn rotl32(word: u32, shift: u32) -> u32 {
    let s = shift % 32;
    if s == 0 {
        word
    } else {
        (word << s) | (word >> ((32 - s) as u32))
    }
}

/// Addition modulo 2^32.
pub open spec fn add32(a: u32, b: u32) -> u32 {
    vstd::wrapping::u32_specs::wrapping_add(a, b)
}

/// Subtraction modulo 2^32.
pub open spec fn sub32(a: u32, b: u32) -> u32 {
    vstd::wrapping::u32_specs::wrapping_sub(a, b)
}

/// `__jhash_mix` on the state `(a, b, c)`.
pub open spec fn mix(s: (u32, u32, u32)) -> (u32, u32, u32) {
    let (a, b, c) = s;
    let a = sub32(a, c) ^ rotl32(c, 4);
    let c = add32(c, b);
    let b = sub32(b, a) ^ rotl32(a, 6);
    let a = add32(a, c);
    let c = sub32(c, b) ^ rotl32(b, 8);
    let b = add32(b, a);
    let a = sub32(a, c) ^ rotl32(c, 16);
    let c = add32(c, b);
    let b = sub32(b, a) ^ rotl32(a, 19);
    let a = add32(a, c);
    let c = sub32(c, b) ^ rotl32(b, 4);
    let b = add32(b, a);
    (a, b, c)
}

/// `__jhash_final` on the state `(a, b, c)`.
pub open spec fn final_mix(s: (u32, u32, u32)) -> (u32, u32, u32) {
    let (a, b, c) = s;
    let c = sub32(c ^ b, rotl32(b, 14));
    let a = sub32(a ^ c, rotl32(c, 11));
    let b = sub32(b ^ a, rotl32(a, 25));
    let c = sub32(c ^ b, rotl32(b, 16));
    let a = sub32(a ^ c, rotl32(c, 4));
    let b = sub32(b ^ a, rotl32(a, 14));
    let c = sub32(c ^ b, rotl32(b, 24));
    (a, b, c)
}

/// The last up-to-12 bytes `k` folded into the state, and the result.
pub open spec fn jhash_tail(k: Seq<u8>, s: (u32, u32, u32)) -> u32 {
    let n = k.len();
    let (a, b, c) = s;
    let c = if n >= 12 { add32(c, (k[11] * 0x1000000) as u32) } else { c };
    let c = if n >= 11 { add32(c, (k[10] * 0x10000) as u32) } else { c };
    let c = if n >= 10 { add32(c, (k[9] * 0x100) as u32) } else { c };
    let c = if n >= 9 { add32(c, k[8] as u32) } else { c };
    let b = if n >= 8 { add32(b, (k[7] * 0x1000000) as u32) } else { b };
    let b = if n >= 7 { add32(b, (k[6] * 0x10000) as u32) } else { b };
    let b = if n >= 6 { add32(b, (k[5] * 0x100) as u32) } else { b };
    let b = if n >= 5 { add32(b, k[4] as u32) } else { b };
    let a = if n >= 4 { add32(a, (k[3] * 0x1000000) as u32) } else { a };
    let a = if n >= 3 { add32(a, (k[2] * 0x10000) as u32) } else { a };
    let a = if n >= 2 { add32(a, (k[1] * 0x100) as u32) } else { a };
    if n >= 1 {
        let a = add32(a, k[0] as u32);
        final_mix((a, b, c ^ a)).2
    } else {
        c
    }
}

/// Hash of the bytes `k` continued from state `s`: 12-byte blocks are mixed
/// while more than 12 bytes remain, then the tail is folded in.
pub open spec fn jhash_blocks(k: Seq<u8>, s: (u32, u32, u32)) -> u32
    decreases k.len(),
{
    if k.len() > 12 {
        let s2 = mix(
            (add32(s.0, le32(k, 0)), add32(s.1, le32(k, 4)), add32(s.2, le32(k, 8))),
        );
        jhash_blocks(k.skip(12), s2)
    } else {
        jhash_tail(k, s)
    }
}

/// jhash of the byte string `k` with seed `initval`.
pub open spec fn spec_jhash(k: Seq<u8>, initval: u32) -> u32 {
    let iv = add32(add32(JHASH_INITVAL, k.len() as u32), initval);
    jhash_blocks(k, (iv, iv, iv))
}

/// jhash of a 16-byte key given as four words.
pub open spec fn spec_jhash_16(k: Seq<u32>, initval: u32) -> u32 {
    let iv = add32(add32(JHASH_INITVAL, 16), initval);
    let s = mix((add32(iv, k[0]), add32(iv, k[1]), add32(iv, k[2])));
    final_mix((add32(s.0, k[3]), s.1, s.2)).2
}

/// jhash of two words.
pub open spec fn spec_jhash_2words(a: u32, b: u32, initval: u32) -> u32 {
    let iv = add32(add32(initval, JHASH_INITVAL), 8);
    final_mix((add32(a, iv), add32(b, iv), iv)).2
}

/// Rotates `word` left by `shift` (taken modulo 32).
pub fn rol32(word: u32, shift: u32) -> (r: u32)
    ensures
        r == rotl32(word, shift),
{
    let s = shift % 32;
    if s == 0 {
        word
    } else {
        (word << s) | (word >> (32 - s))
    }
}

/// `__jhash_mix` on three words in place.
pub fn jhash_mix(a: &mut u32, b: &mut u32, c: &mut u32)
    ensures
        (*final(a), *final(b), *final(c)) == mix((*old(a), *old(b), *old(c))),
{
    *a = a.wrapping_sub(*c);
    *a = *a ^ rol32(*c, 4);
    *c = c.wrapping_add(*b);
    *b = b.wrapping_sub(*a);
    *b = *b ^ rol32(*a, 6);
    *a = a.wrapping_add(*c);
    *c = c.wrapping_sub(*b);
    *c = *c ^ rol32(*b, 8);
    *b = b.wrapping_add(*a);
    *a = a.wrapping_sub(*c);
    *a = *a ^ rol32(*c, 16);
    *c = c.wrapping_add(*b);
    *b = b.wrapping_sub(*a);
    *b = *b ^ rol32(*a, 19);
    *a = a.wrapping_add(*c);
    *c = c.wrapping_sub(*b);
    *c = *c ^ rol32(*b, 4);
    *b = b.wrapping_add(*a);
}

/// `__jhash_final` on three words in place.
pub fn jhash_final(a: &mut u32, b: &mut u32, c: &mut u32)
    ensures
        (*final(a), *final(b), *final(c)) == final_mix((*old(a), *old(b), *old(c))),
{
    *c = *c ^ *b;
    *c = c.wrapping_sub(rol32(*b, 14));
    *a = *a ^ *c;
    *a = a.wrapping_sub(rol32(*c, 11));
    *b = *b ^ *a;
    *b = b.wrapping_sub(rol32(*a, 25));
    *c = *c ^ *b;
    *c = c.wrapping_sub(rol32(*b, 16));
    *a = *a ^ *c;
    *a = a.wrapping_sub(rol32(*c, 4));
    *b = *b ^ *a;
    *b = b.wrapping_sub(rol32(*a, 14));
    *c = *c ^ *b;
    *c = c.wrapping_sub(rol32(*b, 24));
}

/// jhash of the first `length` bytes of `key` with seed `initval`.  Words
/// are loaded in little-endian byte order.
pub fn jhash(key: &[u8], length: u32, initval: u32) -> (r: u32)
    requires
        length as int <= key@.len(),
    ensures
        r == spec_jhash(key@.take(length as int), initval),
{
    let mut a = JHASH_INITVAL.wrapping_add(length).wrapping_add(initval);
    let mut b = a;
    let mut c = a;
    let ghost full = key@.take(length as int);
    let mut off: usize = 0;
    let mut len = length;
    assert(full.skip(0) =~= full);
    while len > 12
        invariant
            off + len == length,
            length as int <= key@.len(),
            full == key@.take(length as int),
            spec_jhash(full, initval) == jhash_blocks(full.skip(off as int), (a, b, c)),
        decreases len,
    {
        let ghost rest = full.skip(off as int);
        proof {
            assert(rest.len() == len);
            assert(le32(rest, 0) == crate::bytes::le32(key@, off as int));
            assert(le32(rest, 4) == crate::bytes::le32(key@, off + 4));
            assert(le32(rest, 8) == crate::bytes::le32(key@, off + 8));
            assert(rest.skip(12) =~= full.skip(off + 12));
        }
        a = a.wrapping_add(crate::bytes::get_le32(key, off));
        b = b.wrapping_add(crate::bytes::get_le32(key, off + 4));
        c = c.wrapping_add(crate::bytes::get_le32(key, off + 8));
        jhash_mix(&mut a, &mut b, &mut c);
        len = len - 12;
        off = off + 12;
    }
    let ghost k = full.skip(off as int);
    assert(k.len() == len);
    assert forall|j: int| 0 <= j < k.len() implies k[j] == key@[off + j] by {}
    if len >= 12 {
        c = c.wrapping_add((key[off + 11] as u32) * 0x1000000);
    }
    if len >= 11 {
        c = c.wrapping_add((key[off + 10] as u32) * 0x10000);
    }
    if len >= 10 {
        c = c.wrapping_add((key[off + 9] as u32) * 0x100);
    }
    if len >= 9 {
        c = c.wrapping_add(key[off + 8] as u32);
    }
    if len >= 8 {
        b = b.wrapping_add((key[off + 7] as u32) * 0x1000000);
    }
    if len >= 7 {
        b = b.wrapping_add((key[off + 6] as u32) * 0x10000);
    }
    if len >= 6 {
        b = b.wrapping_add((key[off + 5] as u32) * 0x100);
    }
    if len >= 5 {
        b = b.wrapping_add(key[off + 4] as u32);
    }
    if len >= 4 {
        a = a.wrapping_add((key[off + 3] as u32) * 0x1000000);
    }
    if len >= 3 {
        a = a.wrapping_add((key[off + 2] as u32) * 0x10000);
    }
    if len >= 2 {
        a = a.wrapping_add((key[off + 1] as u32) * 0x100);
    }
    if len >= 1 {
        a = a.wrapping_add(key[off] as u32);
        c = c ^ a;
        jhash_final(&mut a, &mut b, &mut c);
    }
    c
}

/// jhash of a 16-byte key given as four words.
pub fn jhash_16(k: &[u32; 4], initval: u32) -> (r: u32)
    ensures
        r == spec_jhash_16(k@, initval),
{
    let mut a = JHASH_INITVAL.wrapping_add(16).wrapping_add(initval);
    let mut b = a;
    let mut c = a;
    a = a.wrapping_add(k[0]);
    b = b.wrapping_add(k[1]);
    c = c.wrapping_add(k[2]);
    jhash_mix(&mut a, &mut b, &mut c);
    a = a.wrapping_add(k[3]);
    jhash_final(&mut a, &mut b, &mut c);
    c
}

/// jhash of two words.
pub fn jhash_2words(a_in: u32, b_in: u32, initval: u32) -> (r: u32)
    ensures
        r == spec_jhash_2words(a_in, b_in, initval),
{
    let iv = initval.wrapping_add(JHASH_INITVAL).wrapping_add(8);
    let mut a = a_in.wrapping_add(iv);
    let mut b = b_in.wrapping_add(iv);
    let mut c = iv;
    jhash_final(&mut a, &mut b, &mut c);
    c
}

} // verus!
