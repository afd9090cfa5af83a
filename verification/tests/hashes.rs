use bpf_progs::bytes::{
    get_le16, get_le32, get_unaligned_be16, get_unaligned_be32, htonl, htons, ntohs, push_be16, push_be32,
    push_le16, push_le32, set_be16, set_be32, set_le16, set_le32, u32_from_le, v6_equal,
};
use bpf_progs::checksum::{
    csum_fold, csum_ipv6_magic, csum_partial, csum_tcpudp_magic, csum_tcpudp_nofold, from64to32, ipv4_check,
    ipv4_check_at,
};
use bpf_progs::jhash::{jhash, jhash_16, jhash_2words, jhash_final, jhash_mix, rol32};
use bpf_progs::siphash::{rol64, siphash_2u64};

#[test]
fn byte_order_swaps() {
    assert_eq!(htons(0x1234), 0x3412);
    assert_eq!(ntohs(0x3412), 0x1234);
    assert_eq!(htonl(0x11223344), 0x44332211);
    assert_eq!(htons(htons(0xbeef)), 0xbeef);
}

#[test]
fn field_loads() {
    let p = [0x12u8, 0x34, 0x56, 0x78, 0x9a];
    assert_eq!(get_unaligned_be16(&p, 1), 0x3456);
    assert_eq!(get_unaligned_be32(&p, 1), 0x3456789a);
    assert_eq!(get_le16(&p, 0), 0x3412);
    assert_eq!(get_le32(&p, 0), 0x78563412);
    let a: [u8; 16] = [0, 1, 2, 3, 4, 5, 6, 7, 8, 9, 10, 11, 12, 13, 14, 15];
    assert_eq!(u32_from_le(&a, 4), 0x07060504);
    assert!(v6_equal([1, 2, 3, 4], [1, 2, 3, 4]));
    assert!(!v6_equal([1, 2, 3, 4], [1, 2, 3, 5]));
}

#[test]
fn field_stores() {
    let mut v: Vec<u8> = Vec::new();
    push_be16(&mut v, 0x0102);
    push_be32(&mut v, 0x03040506);
    push_le16(&mut v, 0x0708);
    push_le32(&mut v, 0x090a0b0c);
    assert_eq!(v, vec![1, 2, 3, 4, 5, 6, 8, 7, 0x0c, 0x0b, 0x0a, 0x09]);
    set_be16(&mut v, 0, 0xaabb);
    set_le16(&mut v, 2, 0xccdd);
    set_be32(&mut v, 4, 0x11223344);
    set_le32(&mut v, 8, 0x55667788);
    assert_eq!(v, vec![0xaa, 0xbb, 0xdd, 0xcc, 0x11, 0x22, 0x33, 0x44, 0x88, 0x77, 0x66, 0x55]);
}

#[test]
fn checksum_folds() {
    assert_eq!(from64to32(0xffff_ffff_ffff_ffff), 0xffff_ffff);
    assert_eq!(from64to32(0x1_0000_0001), 2);
    assert_eq!(from64to32(1 << 32), 1);
    assert_eq!(from64to32(0), 0);
    // the fold keeps the value modulo 0xffff_ffff
    let x: u64 = 0x1234_5678_9abc_def0;
    assert_eq!(from64to32(x) as u64 % 0xffff_ffff, x % 0xffff_ffff);
    assert_eq!(csum_fold(0x1234), 0xedcb);
    assert_eq!(csum_fold(0xffff_0001), 0xfffe);
    assert_eq!(csum_fold(0), 0xffff);
}

#[test]
fn pseudo_header_sums() {
    // 127.0.0.1 -> 127.0.0.2, raw, TCP, 20 bytes.
    assert_eq!(csum_tcpudp_nofold(0x0100007f, 0x0200007f, 20, 6, 0), 0x3001afe);
    let plain: u64 = 0xffff_ffff + 0xffff_fff0 + 0x8000_0000 + (17 + 1000) * 256;
    let r = csum_tcpudp_nofold(0xffff_fff0, 0x8000_0000, 1000, 17, 0xffff_ffff);
    assert_eq!(r as u64 % 0xffff_ffff, plain % 0xffff_ffff);
    assert_eq!(csum_tcpudp_nofold(0, 0, 0, 0, 0), 0);
    assert_eq!(csum_tcpudp_magic(0x0100007f, 0x0200007f, 20, 6, 0), 0xe201);
    let sa = [0u32, 0, 0, 0x01000000];
    let da = [0u32, 0, 0, 0x02000000];
    assert_eq!(csum_ipv6_magic(&sa, &da, 20, 6, 0), 0xe2ff);
}

#[test]
fn ipv4_header_checksum() {
    let h = [0x45u8, 0, 0, 0x54, 0, 0, 0x40, 0, 0x40, 1, 0, 0, 10, 0, 0, 1, 10, 0, 0, 2];
    let c = ipv4_check(&h);
    // Stored raw, the field reads 0x26a7 in network order.
    assert_eq!(c, 0xa726);
    assert_eq!(c.to_le_bytes(), [0x26, 0xa7]);
    let mut framed = vec![0u8; 14];
    framed.extend_from_slice(&h);
    assert_eq!(ipv4_check_at(&framed, 14), 0xa726);
    // The header with its checksum filled in sums to all ones.
    let mut full = h;
    full[10] = 0x26;
    full[11] = 0xa7;
    assert_eq!(csum_fold(csum_partial(&full, 0, 10)), 0);
}

#[test]
fn csum_partial_sums_raw_words() {
    let p = [1u8, 2, 3, 4, 5];
    assert_eq!(csum_partial(&p, 0, 2), 0x0201 + 0x0403);
    assert_eq!(csum_partial(&p, 1, 2), 0x0302 + 0x0504);
    assert_eq!(csum_partial(&p, 3, 0), 0);
}

#[test]
fn rotations() {
    assert_eq!(rol32(0x8000_0001, 1), 3);
    assert_eq!(rol32(0x12345678, 8), 0x34567812);
    assert_eq!(rol32(0xdeadbeef, 32), 0xdeadbeef);
    assert_eq!(rol64(0x8000_0000_0000_0001, 1), 3);
    assert_eq!(rol64(0x0123_4567_89ab_cdef, 68), 0x1234_5678_9abc_def0);
}

#[test]
fn jhash_vectors() {
    let k: Vec<u8> = (0u8..16).collect();
    assert_eq!(jhash(&k, 16, 12), 0x2e1bbc23);
    assert_eq!(jhash(b"abc", 3, 0), 0x5f092435);
    assert_eq!(jhash(b"", 0, 5), 0xdeadbef4);
    let k13: Vec<u8> = (1u8..14).collect();
    assert_eq!(jhash(&k13, 13, 0x1234), 0x03f1196b);
    // Only the first `length` bytes count.
    assert_eq!(jhash(b"abcdef", 3, 0), 0x5f092435);
}

#[test]
fn jhash_word_forms() {
    let w = [0x03020100u32, 0x07060504, 0x0b0a0908, 0x0f0e0d0c];
    assert_eq!(jhash_16(&w, 12), 0x09b814c4);
    assert_eq!(jhash_2words(0x0a000001, 0x50, 24), 0x17d22d6a);
    assert_eq!(jhash_2words(0, 0, 0), 0x58c184bf);
}

#[test]
fn jhash_mix_and_final_change_state() {
    let (mut a, mut b, mut c) = (1u32, 2u32, 3u32);
    jhash_mix(&mut a, &mut b, &mut c);
    assert_ne!((a, b, c), (1, 2, 3));
    let (mut x, mut y, mut z) = (0xdeadbef7u32, 0xdeadbef7u32, 0xdeadbef7u32);
    jhash_final(&mut x, &mut y, &mut z);
    // jhash_2words(0, 0, 0) is this final mix of three copies of its seed.
    assert_eq!(z, 0x58c184bf);
}

#[test]
fn siphash_reference_vector() {
    // SipHash-2-4, key 00..0f, message 00..0f.
    let key = [0x0706050403020100u64, 0x0f0e0d0c0b0a0908];
    assert_eq!(siphash_2u64(0x0706050403020100, 0x0f0e0d0c0b0a0908, &key), 0x3f2acc7f57c29bdb);
    assert_eq!(siphash_2u64(1, 2, &[3, 4]), 0x542ce3264c0382d2);
}
