//! TCP SYN cookies issued and checked by a traffic-control program.
//!
//! A SYN is answered with a SYN-ACK whose sequence number is a cookie: the
//! upper 24 bits come from SipHash over the connection's addresses, ports
//! and sequence number, the low 8 bits encode the MSS index, window scale,
//! SACK and ECN.  The final ACK of the handshake is checked against the
//! same hash and the connection parameters are recovered from the cookie.
//!
//! Packets start at the Ethernet header.  Where the program resizes the
//! packet (`bpf_skb_change_tail`) the caller does so and hands over the
//! resized packet.
use vstd::prelude::*;
use crate::bytes::{
    be16, be16_bytes, be32, be32_bytes, get_le16, get_le32, get_unaligned_be16,
    get_unaligned_be32, le16, le16_bytes, le32, push_be16, push_be32, push_range, set_le16, splice,
};
use crate::checksum::{
    csum_fold, csum_ipv6_magic, csum_partial, csum_tcpudp_magic, ipv6_pseudo_sum,
    spec_csum_fold, spec_csum_tcpudp_nofold, word_sum,
};
use crate::siphash::{siphash_2u64, spec_siphash_2u64};

verus! {

pub const TC_ACT_OK: i32 = 0;
pub const TC_ACT_SHOT: i32 = 2;

pub const COOKIE_MASK: u32 = 0xff;
pub const BPF_SYNCOOKIE_WSCALE_MASK: u32 = 0xf;
pub const BPF_SYNCOOKIE_SACK: u32 = 0x10;
pub const BPF_SYNCOOKIE_ECN: u32 = 0x20;

pub const MSS_LOCAL_IPV4: u16 = 65495;
pub const MSS_LOCAL_IPV6: u16 = 65476;

pub const TCP_LISTEN: u32 = 10;

/// Connection parameters handed to the kernel with a request socket
/// (`struct bpf_tcp_req_attrs`).
#[derive(Clone, Copy)]
pub struct TcpReqAttrs {
    pub rcv_tsval: u32,
    pub rcv_tsecr: u32,
    pub mss: u16,
    pub rcv_wscale: u8,
    pub snd_wscale: u8,
    pub ecn_ok: u8,
    pub wscale_ok: u8,
    pub sack_ok: u8,
    pub tstamp_ok: u8,
    pub usec_ts_ok: u8,
}

/// Where the headers of a TCP packet sit: IPv4 or IPv6 after a 14-byte
/// Ethernet header, and the offset of the TCP header.
#[derive(Clone, Copy)]
pub struct TcpHeaders {
    pub ipv4: bool,
    pub tcp_off: usize,
}

/// Result of classifying a packet.
pub enum SyncookieAction {
    /// Not for this program: let it pass (`TC_ACT_OK`).
    Pass,
    /// A SYN to answer with a cookie.
    Syn(TcpHeaders),
    /// Any other segment: check it as the last ACK of a handshake.
    Ack(TcpHeaders),
}

/// Result of a socket lookup for an ACK.
pub enum SockLookup {
    Missing,
    Found { state: u32, is_tcp_sock: bool },
}

/// What to do with an ACK.
pub enum AckAction {
    Pass,
    Shot,
    /// Create the request socket with these attributes.
    Assign(TcpReqAttrs),
}

/// The lookup key of an ACK's socket; addresses are 4 or 16 bytes long and
/// ports are raw.
pub struct SockTuple {
    pub saddr: Vec<u8>,
    pub daddr: Vec<u8>,
    pub sport: u16,
    pub dport: u16,
}

pub open spec fn attrs_zero() -> TcpReqAttrs {
    TcpReqAttrs {
        rcv_tsval: 0,
        rcv_tsecr: 0,
        mss: 0,
        rcv_wscale: 0,
        snd_wscale: 0,
        ecn_ok: 0,
        wscale_ok: 0,
        sack_ok: 0,
        tstamp_ok: 0,
        usec_ts_ok: 0,
    }
}

impl TcpReqAttrs {
    /// All fields zero.
    pub fn new() -> (r: TcpReqAttrs)
        ensures
            r == attrs_zero(),
    {
        TcpReqAttrs {
            rcv_tsval: 0,
            rcv_tsecr: 0,
            mss: 0,
            rcv_wscale: 0,
            snd_wscale: 0,
            ecn_ok: 0,
            wscale_ok: 0,
            sack_ok: 0,
            tstamp_ok: 0,
            usec_ts_ok: 0,
        }
    }
}

/// The MSS table of IPv4 (`ipv4`) or IPv6.
pub open spec fn msstab(ipv4: bool, i: int) -> u16 {
    if ipv4 {
        if i == 0 { 536 } else if i == 1 { 1300 } else if i == 2 { 1460 } else { MSS_LOCAL_IPV4 }
    } else {
        if i == 0 { 1220 } else if i == 1 { 1420 } else if i == 2 { 8940 } else { MSS_LOCAL_IPV6 }
    }
}

/// The largest index whose table entry is at most `mss` (0 if none is).
pub open spec fn spec_find_mssind(tab: Seq<u16>, mss: u16) -> int {
    if mss >= tab[3] {
        3
    } else if mss >= tab[2] {
        2
    } else if mss >= tab[1] {
        1
    } else {
        0
    }
}

pub open spec fn msstab_seq(ipv4: bool) -> Seq<u16> {
    seq![msstab(ipv4, 0), msstab(ipv4, 1), msstab(ipv4, 2), msstab(ipv4, 3)]
}

/// The SipHash key of the cookies.
pub open spec fn test_key() -> Seq<u64> {
    seq![0x0706050403020100u64, 0x0f0e0d0c0b0a0908u64]
}

/// Headers of a TCP over IPv4 (no options) or IPv6 (TCP next header)
/// packet, or `None`.
pub open spec fn spec_load_headers(p: Seq<u8>) -> Option<TcpHeaders> {
    if p.len() < 14 {
        None
    } else if be16(p, 12) == 0x0800 {
        if p.len() < 34 || p[14] % 16 != 5 || p[14] / 16 != 4 || p[23] != 6 || p.len() < 54 {
            None
        } else {
            Some(TcpHeaders { ipv4: true, tcp_off: 34 })
        }
    } else if be16(p, 12) == 0x86dd {
        if p.len() < 54 || p[14] / 16 != 6 || p[20] != 6 || p.len() < 74 {
            None
        } else {
            Some(TcpHeaders { ipv4: false, tcp_off: 54 })
        }
    } else {
        None
    }
}

/// The headers' description fits the packet.
pub open spec fn headers_fit(p: Seq<u8>, h: TcpHeaders) -> bool {
    &&& (h.ipv4 ==> h.tcp_off == 34)
    &&& (!h.ipv4 ==> h.tcp_off == 54)
    &&& h.tcp_off + 20 <= p.len()
}

/// The TCP flags byte.
pub open spec fn tcp_flags(p: Seq<u8>, h: TcpHeaders) -> u8 {
    p[h.tcp_off + 13]
}

/// The TCP data offset in 32-bit words.
pub open spec fn tcp_doff(p: Seq<u8>, h: TcpHeaders) -> u8 {
    p[h.tcp_off + 12] / 16
}

pub open spec fn has_flag(f: u8, bit: u8) -> bool {
    f & bit != 0
}

/// Classification of a packet.
pub open spec fn spec_classify(p: Seq<u8>) -> SyncookieAction {
    match spec_load_headers(p) {
        None => SyncookieAction::Pass,
        Some(h) => {
            let f = tcp_flags(p, h);
            if has_flag(f, 4) {
                SyncookieAction::Pass
            } else if has_flag(f, 2) {
                if has_flag(f, 0x10) {
                    SyncookieAction::Pass
                } else {
                    SyncookieAction::Syn(h)
                }
            } else {
                SyncookieAction::Ack(h)
            }
        },
    }
}

/// The packet length to resize to before options are rewritten: room for
/// 40 bytes of options after the 20-byte TCP header.
pub open spec fn spec_reload_len(p: Seq<u8>, h: TcpHeaders) -> Option<u32> {
    let doff = tcp_doff(p, h);
    if doff < 5 {
        None
    } else {
        Some((p.len() + 60 - doff * 4) as u32)
    }
}

/// Checks on the resized packet: 60 bytes of TCP header fit, and an IPv4
/// header checksum verifies.
pub open spec fn spec_validate_header(q: Seq<u8>, h: TcpHeaders) -> bool {
    &&& h.tcp_off + 60 <= q.len()
    &&& (h.ipv4 ==> spec_csum_fold(word_sum(q.skip(14), ((q[14] % 16) * 2) as nat) as u32) == 0)
}

/// `next(sz)` of the option parser succeeds at offset `off`.
pub open spec fn next_ok(len: int, off: int, sz: int) -> bool {
    off <= 0xffff - sz && off + sz < len
}

/// One option: whether parsing stops, the next offset and the attributes.
pub open spec fn parse_option_step(q: Seq<u8>, syn: bool, off: int, a: TcpReqAttrs) -> (bool, int, TcpReqAttrs) {
    let len = q.len() as int;
    if !next_ok(len, off, 1) {
        (true, off, a)
    } else if q[off] == 0 {
        (true, off + 1, a)
    } else if q[off] == 1 {
        (false, off + 1, a)
    } else if !next_ok(len, off + 1, 1) {
        (true, off + 1, a)
    } else if q[off + 1] < 2 {
        (true, off + 2, a)
    } else {
        let opcode = q[off];
        let opsize = q[off + 1];
        let o2 = off + 2;
        let a2 = if opcode == 2 {
            if opsize == 4 && syn && next_ok(len, o2, 2) {
                TcpReqAttrs { mss: be16(q, o2), ..a }
            } else {
                a
            }
        } else if opcode == 3 {
            if opsize == 3 && syn && next_ok(len, o2, 1) {
                TcpReqAttrs { wscale_ok: 1, snd_wscale: q[o2], ..a }
            } else {
                a
            }
        } else if opcode == 8 {
            if opsize == 10 && next_ok(len, o2, 4) && next_ok(len, o2 + 4, 4) {
                TcpReqAttrs {
                    rcv_tsval: be32(q, o2),
                    rcv_tsecr: be32(q, o2 + 4),
                    tstamp_ok: if syn && be32(q, o2 + 4) != 0 { 0 } else { 1 },
                    ..a
                }
            } else {
                a
            }
        } else if opcode == 4 {
            if opsize == 2 && syn {
                TcpReqAttrs { sack_ok: 1, ..a }
            } else {
                a
            }
        } else {
            a
        };
        (false, off + opsize, a2)
    }
}

/// Up to `n` options parsed from offset `off`.
pub open spec fn parse_options(q: Seq<u8>, syn: bool, off: int, a: TcpReqAttrs, n: nat) -> TcpReqAttrs
    decreases n,
{
    if n == 0 {
        a
    } else {
        let (stop, off2, a2) = parse_option_step(q, syn, off, a);
        if stop {
            a2
        } else {
            parse_options(q, syn, off2, a2, (n - 1) as nat)
        }
    }
}

/// The attributes the options of `q` give (at most 40 options).
pub open spec fn spec_parse_options(q: Seq<u8>, h: TcpHeaders) -> TcpReqAttrs {
    parse_options(q, has_flag(tcp_flags(q, h), 2), h.tcp_off + 20, attrs_zero(), 40)
}

/// The SYN carries what this program requires: the local MSS, a window
/// scale in 1..14, timestamps, SACK, ECE and CWR.
pub open spec fn spec_validate_sysctl(a: TcpReqAttrs, ipv4: bool, flags: u8) -> bool {
    &&& (ipv4 ==> a.mss == MSS_LOCAL_IPV4)
    &&& (!ipv4 ==> a.mss == MSS_LOCAL_IPV6)
    &&& a.wscale_ok != 0
    &&& a.snd_wscale != 0
    &&& (a.snd_wscale as u32) < BPF_SYNCOOKIE_WSCALE_MASK
    &&& a.tstamp_ok != 0
    &&& a.sack_ok != 0
    &&& has_flag(flags, 0x40)
    &&& has_flag(flags, 0x80)
}

/// The first hashed word: both IPv4 addresses, or the first byte of the
/// IPv6 source and the first word of the IPv6 destination (raw words).
pub open spec fn cookie_first(q: Seq<u8>, h: TcpHeaders) -> u64 {
    if h.ipv4 {
        ((le32(q, 26) as u64) << 32u64) | (le32(q, 30) as u64)
    } else {
        (((le32(q, 22) & 0xff) as u64) << 32u64) | (le32(q, 38) as u64)
    }
}

/// The second hashed word: sequence number and raw ports.
pub open spec fn cookie_second(seq: u32, source: u16, dest: u16) -> u64 {
    ((seq as u64) << 32u64) | ((source as u64) << 16u64) | (dest as u64)
}

/// The hash a cookie is built from.
pub open spec fn cookie_hash(q: Seq<u8>, h: TcpHeaders, seq: u32) -> u32 {
    spec_siphash_2u64(
        cookie_first(q, h),
        cookie_second(seq, le16(q, h.tcp_off as int), le16(q, h.tcp_off + 2)),
        test_key(),
    ) as u32
}

/// The cookie: the hash with its low byte replaced by the MSS index, the
/// window scale, SACK and ECN bits.
pub open spec fn make_cookie(hash: u32, mssind: u32, a: TcpReqAttrs, ecn: bool) -> u32 {
    let c = (hash & !COOKIE_MASK) | (mssind << 6u32);
    let c = if a.wscale_ok != 0 { c | ((a.snd_wscale as u32) & BPF_SYNCOOKIE_WSCALE_MASK) } else { c };
    let c = if a.sack_ok != 0 { c | BPF_SYNCOOKIE_SACK } else { c };
    if a.tstamp_ok != 0 && ecn { c | BPF_SYNCOOKIE_ECN } else { c }
}

/// The timestamp echoed back to us: random upper bits, the hash's low byte.
pub open spec fn cookie_tsecr(hash: u32, random: u32) -> u32 {
    (random & !COOKIE_MASK) | (hash & COOKIE_MASK)
}

/// The cookie and the attributes after preparing a SYN-ACK.
pub open spec fn spec_prepare_cookie(q: Seq<u8>, h: TcpHeaders, a: TcpReqAttrs, random: u32) -> (u32, TcpReqAttrs) {
    let mssind = spec_find_mssind(msstab_seq(h.ipv4), a.mss);
    let a1 = TcpReqAttrs { mss: msstab(h.ipv4, mssind), ..a };
    let hash = cookie_hash(q, h, be32(q, h.tcp_off + 4));
    let a2 = if a1.tstamp_ok != 0 { TcpReqAttrs { rcv_tsecr: cookie_tsecr(hash, random), ..a1 } } else { a1 };
    let f = tcp_flags(q, h);
    (make_cookie(hash, mssind as u32, a2, has_flag(f, 0x40) && has_flag(f, 0x80)), a2)
}

/// The cookie's hash bits match `hash`.
pub open spec fn cookie_matches(hash: u32, cookie: u32, tstamp_ok: u8, tsecr: u32) -> bool {
    let h = if tstamp_ok != 0 {
        vstd::wrapping::u32_specs::wrapping_sub(hash, tsecr & COOKIE_MASK)
    } else {
        hash & !COOKIE_MASK
    };
    vstd::wrapping::u32_specs::wrapping_sub(h, cookie & !COOKIE_MASK) == 0
}

/// The attributes a cookie encodes.
pub open spec fn decode_cookie(cookie: u32, ipv4: bool, a: TcpReqAttrs) -> TcpReqAttrs {
    let ws = (cookie & BPF_SYNCOOKIE_WSCALE_MASK) as u8;
    TcpReqAttrs {
        mss: msstab(ipv4, ((cookie >> 6u32) & 3) as int),
        snd_wscale: ws,
        rcv_wscale: ws,
        wscale_ok: if ws as u32 == BPF_SYNCOOKIE_WSCALE_MASK { 1 } else { 0 },
        sack_ok: (cookie & BPF_SYNCOOKIE_SACK) as u8,
        ecn_ok: (cookie & BPF_SYNCOOKIE_ECN) as u8,
        ..a
    }
}

/// Checks the cookie an ACK acknowledges; the decoded attributes on
/// success.
pub open spec fn spec_validate_cookie(q: Seq<u8>, h: TcpHeaders, a: TcpReqAttrs) -> Option<TcpReqAttrs> {
    let t = h.tcp_off as int;
    let cookie = vstd::wrapping::u32_specs::wrapping_sub(be32(q, t + 8), 1);
    let seq = vstd::wrapping::u32_specs::wrapping_sub(be32(q, t + 4), 1);
    let hash = cookie_hash(q, h, seq);
    if cookie_matches(hash, cookie, a.tstamp_ok, a.rcv_tsecr) {
        Some(decode_cookie(cookie, h.ipv4, a))
    } else {
        None
    }
}

/// The options of the SYN-ACK, as 32-bit words in network order.
pub open spec fn synack_options(a: TcpReqAttrs) -> Seq<u8> {
    let mss = be32_bytes((0x0204_0000 + a.mss) as u32);
    let ws = if a.wscale_ok != 0 { be32_bytes((0x0103_0300 + a.snd_wscale) as u32) } else { Seq::empty() };
    let ts = if a.tstamp_ok != 0 {
        be32_bytes(if a.sack_ok != 0 { 0x0402_080au32 } else { 0x0101_080au32 }) + be32_bytes(a.rcv_tsecr)
            + be32_bytes(a.rcv_tsval)
    } else if a.sack_ok != 0 {
        be32_bytes(0x0101_0402u32)
    } else {
        Seq::empty()
    };
    mss + ws + ts
}

/// The SYN-ACK's TCP flags: ACK set, CWR clear, ECE kept only when
/// timestamps, ECE and CWR were all present.
pub open spec fn synack_flags(f: u8, tstamp_ok: u8) -> u8 {
    let f0 = f | 0x10;
    let f1 = if tstamp_ok == 0 || !has_flag(f0, 0x40) || !has_flag(f0, 0x80) { f0 & 0xbf } else { f0 };
    f1 & 0x7f
}

/// The SYN-ACK's TCP header with a clear checksum field and the options.
pub open spec fn synack_tcp_nocheck(q: Seq<u8>, t: int, cookie: u32, a: TcpReqAttrs) -> Seq<u8> {
    let opts = synack_options(a);
    let doff = 5 + opts.len() / 4;
    q.subrange(t + 2, t + 4) + q.subrange(t, t + 2) + be32_bytes(cookie) + be32_bytes(
        vstd::wrapping::u32_specs::wrapping_add(be32(q, t + 4), 1),
    ) + seq![(q[t + 12] % 16 + doff * 16) as u8, synack_flags(q[t + 13], a.tstamp_ok)] + q.subrange(
        t + 14,
        t + 16,
    ) + seq![0u8, 0u8] + q.subrange(t + 18, t + 20) + opts
}

/// The SYN-ACK's IPv4 header with a clear checksum field.
pub open spec fn synack_ip4_nocheck(q: Seq<u8>, tcp_len: int) -> Seq<u8> {
    seq![q[14], 0u8] + be16_bytes((20 + tcp_len) as u16) + seq![0u8, 0u8] + q.subrange(20, 22) + seq![
        64u8,
        q[23],
        0u8,
        0u8,
    ] + q.subrange(30, 34) + q.subrange(26, 30)
}

/// The SYN-ACK's IPv6 header.
pub open spec fn synack_ip6(q: Seq<u8>, tcp_len: int) -> Seq<u8> {
    seq![0x60u8, 0u8, 0u8, 0u8] + be16_bytes(tcp_len as u16) + seq![q[20], 64u8] + q.subrange(38, 54)
        + q.subrange(22, 38)
}

/// The raw address words of an IPv6 address at `q[off..off + 16]`.
pub open spec fn addr_words(q: Seq<u8>, off: int) -> Seq<u32> {
    seq![le32(q, off), le32(q, off + 4), le32(q, off + 8), le32(q, off + 12)]
}

/// The TCP checksum of the SYN-ACK.
pub open spec fn synack_tcp_check(q: Seq<u8>, h: TcpHeaders, tcp: Seq<u8>) -> u16 {
    let sum = word_sum(tcp, tcp.len() / 2) as u32;
    if h.ipv4 {
        spec_csum_fold(spec_csum_tcpudp_nofold(le32(q, 30), le32(q, 26), tcp.len() as u32, 6, sum))
    } else {
        spec_csum_fold(ipv6_pseudo_sum(addr_words(q, 38), addr_words(q, 22), tcp.len() as u32, 6, sum))
    }
}

/// The SYN-ACK's TCP header and options, checksum filled in.
pub open spec fn synack_tcp(q: Seq<u8>, h: TcpHeaders, cookie: u32, a: TcpReqAttrs) -> Seq<u8> {
    let tcp0 = synack_tcp_nocheck(q, h.tcp_off as int, cookie, a);
    splice(tcp0, 16, le16_bytes(synack_tcp_check(q, h, tcp0)))
}

/// The SYN-ACK's IP header for a TCP segment of `tcp_len` bytes.
pub open spec fn synack_ip(q: Seq<u8>, h: TcpHeaders, tcp_len: int) -> Seq<u8> {
    if h.ipv4 {
        let ip0 = synack_ip4_nocheck(q, tcp_len);
        splice(ip0, 10, le16_bytes(spec_csum_fold(word_sum(ip0, 10) as u32)))
    } else {
        synack_ip6(q, tcp_len)
    }
}

/// The whole SYN-ACK packet built from the (resized) SYN `q`.
pub open spec fn synack_packet(q: Seq<u8>, h: TcpHeaders, cookie: u32, a: TcpReqAttrs) -> Seq<u8> {
    let tcp = synack_tcp(q, h, cookie, a);
    q.subrange(6, 12) + q.subrange(0, 6) + q.subrange(12, 14) + synack_ip(q, h, tcp.len() as int) + tcp
}

/// The reply to a SYN, given the resized packet (`None` if resizing
/// failed); `None` means the SYN is dropped.
pub open spec fn spec_handle_syn(q: Option<Seq<u8>>, h: TcpHeaders, random: u32) -> Option<Seq<u8>> {
    match q {
        None => None,
        Some(q) => {
            if !spec_validate_header(q, h) {
                None
            } else {
                let a = spec_parse_options(q, h);
                if !spec_validate_sysctl(a, h.ipv4, tcp_flags(q, h)) {
                    None
                } else {
                    let (cookie, a2) = spec_prepare_cookie(q, h, a, random);
                    Some(synack_packet(q, h, cookie, a2))
                }
            }
        },
    }
}

/// What to do with an ACK given the socket lookup and the resized packet.
pub open spec fn spec_handle_ack(lookup: SockLookup, q: Option<Seq<u8>>, h: TcpHeaders) -> AckAction {
    match lookup {
        SockLookup::Missing => AckAction::Pass,
        SockLookup::Found { state, is_tcp_sock } => {
            if state != TCP_LISTEN {
                AckAction::Pass
            } else if !is_tcp_sock {
                AckAction::Shot
            } else {
                match q {
                    None => AckAction::Shot,
                    Some(q) => {
                        if !spec_validate_header(q, h) {
                            AckAction::Shot
                        } else {
                            match spec_validate_cookie(q, h, spec_parse_options(q, h)) {
                                None => AckAction::Shot,
                                Some(a) => AckAction::Assign(a),
                            }
                        }
                    },
                }
            }
        },
    }
}

proof fn lemma_cookie_bits(hash: u32, m: u32, w: u32, s: u32, e: u32)
    requires
        m <= 3,
        w <= 0xf,
        s == 0 || s == 0x10,
        e == 0 || e == 0x20,
    ensures
        ((((hash & !0xffu32) | (m << 6u32)) | w) | s | e) & !0xffu32 == hash & !0xffu32,
        (((((hash & !0xffu32) | (m << 6u32)) | w) | s | e) >> 6u32) & 3 == m,
        ((((hash & !0xffu32) | (m << 6u32)) | w) | s | e) & 0xf == w,
        ((((hash & !0xffu32) | (m << 6u32)) | w) | s | e) & 0x10 == s,
        ((((hash & !0xffu32) | (m << 6u32)) | w) | s | e) & 0x20 == e,
{
    assert(((((hash & !0xffu32) | (m << 6u32)) | w) | s | e) & !0xffu32 == hash & !0xffu32) by (bit_vector)
        requires
            m <= 3,
            w <= 0xf,
            s == 0 || s == 0x10,
            e == 0 || e == 0x20,
    ;
    assert((((((hash & !0xffu32) | (m << 6u32)) | w) | s | e) >> 6u32) & 3 == m) by (bit_vector)
        requires
            m <= 3,
            w <= 0xf,
            s == 0 || s == 0x10,
            e == 0 || e == 0x20,
    ;
    assert(((((hash & !0xffu32) | (m << 6u32)) | w) | s | e) & 0xf == w) by (bit_vector)
        requires
            m <= 3,
            w <= 0xf,
            s == 0 || s == 0x10,
            e == 0 || e == 0x20,
    ;
    assert(((((hash & !0xffu32) | (m << 6u32)) | w) | s | e) & 0x10 == s) by (bit_vector)
        requires
            m <= 3,
            w <= 0xf,
            s == 0 || s == 0x10,
            e == 0 || e == 0x20,
    ;
    assert(((((hash & !0xffu32) | (m << 6u32)) | w) | s | e) & 0x20 == e) by (bit_vector)
        requires
            m <= 3,
            w <= 0xf,
            s == 0 || s == 0x10,
            e == 0 || e == 0x20,
    ;
}

/// The cookie in the form of `lemma_cookie_bits`: each optional bit is or-ed
/// in, as zero when absent.
proof fn lemma_make_cookie_form(hash: u32, m: u32, a: TcpReqAttrs, ecn: bool)
    ensures
        ({
            let w = if a.wscale_ok != 0 { (a.snd_wscale as u32) & 0xf } else { 0u32 };
            let s = if a.sack_ok != 0 { 0x10u32 } else { 0u32 };
            let e = if a.tstamp_ok != 0 && ecn { 0x20u32 } else { 0u32 };
            &&& make_cookie(hash, m, a, ecn) == ((((hash & !0xffu32) | (m << 6u32)) | w) | s | e)
            &&& w <= 0xf
        }),
{
    let c = (hash & !0xffu32) | (m << 6u32);
    let ws = a.snd_wscale as u32;
    assert(ws & 0xf <= 0xf) by (bit_vector);
    assert(c | 0u32 == c) by (bit_vector);
    assert(forall|x: u32| #[trigger] (x | 0u32) == x) by {
        assert forall|x: u32| #[trigger] (x | 0u32) == x by {
            assert(x | 0u32 == x) by (bit_vector);
        }
    }
}

/// Cookie law: an ACK that acknowledges the cookie sent in reply to a SYN
/// of the same connection (same addresses and ports, the next sequence
/// number, and, if it carries timestamps, an echoed timestamp whose low
/// byte is that of the one sent) passes the cookie check, and the parameters decoded from the
/// cookie are the ones chosen for the SYN: the table MSS, the window scale,
/// SACK and ECN.
pub proof fn lemma_syncookie_roundtrip(
    syn: Seq<u8>,
    h: TcpHeaders,
    a: TcpReqAttrs,
    random: u32,
    ack: Seq<u8>,
    h2: TcpHeaders,
    b: TcpReqAttrs,
)
    requires
        headers_fit(syn, h),
        headers_fit(ack, h2),
        h.ipv4 == h2.ipv4,
        cookie_first(ack, h2) == cookie_first(syn, h),
        le16(ack, h2.tcp_off as int) == le16(syn, h.tcp_off as int),
        le16(ack, h2.tcp_off + 2) == le16(syn, h.tcp_off + 2),
        be32(ack, h2.tcp_off + 4) == vstd::wrapping::u32_specs::wrapping_add(be32(syn, h.tcp_off + 4), 1),
        be32(ack, h2.tcp_off + 8) == vstd::wrapping::u32_specs::wrapping_add(
            spec_prepare_cookie(syn, h, a, random).0,
            1,
        ),
        b.tstamp_ok != 0 ==> spec_prepare_cookie(syn, h, a, random).1.tstamp_ok != 0
            && b.rcv_tsecr & COOKIE_MASK == spec_prepare_cookie(syn, h, a, random).1.rcv_tsecr & COOKIE_MASK,
    ensures
        ({
            let (cookie, a2) = spec_prepare_cookie(syn, h, a, random);
            let f = tcp_flags(syn, h);
            match spec_validate_cookie(ack, h2, b) {
                Some(d) => {
                    &&& d.mss == a2.mss
                    &&& d.snd_wscale == (if a2.wscale_ok != 0 { a2.snd_wscale & 0xf } else { 0 })
                    &&& (d.sack_ok != 0) == (a2.sack_ok != 0)
                    &&& (d.ecn_ok != 0) == (a2.tstamp_ok != 0 && has_flag(f, 0x40) && has_flag(f, 0x80))
                },
                None => false,
            }
        }),
{
    let (cookie, a2) = spec_prepare_cookie(syn, h, a, random);
    let f = tcp_flags(syn, h);
    let ecn = has_flag(f, 0x40) && has_flag(f, 0x80);
    let mssind = spec_find_mssind(msstab_seq(h.ipv4), a.mss);
    let hash = cookie_hash(syn, h, be32(syn, h.tcp_off + 4));
    let t2 = h2.tcp_off as int;
    let c2 = vstd::wrapping::u32_specs::wrapping_sub(be32(ack, t2 + 8), 1);
    let s2 = vstd::wrapping::u32_specs::wrapping_sub(be32(ack, t2 + 4), 1);
    assert(c2 == cookie);
    assert(s2 == be32(syn, h.tcp_off + 4));
    assert(cookie_hash(ack, h2, s2) == hash);
    lemma_make_cookie_form(hash, mssind as u32, a2, ecn);
    let w = if a2.wscale_ok != 0 { (a2.snd_wscale as u32) & 0xf } else { 0u32 };
    let s = if a2.sack_ok != 0 { 0x10u32 } else { 0u32 };
    let e = if a2.tstamp_ok != 0 && ecn { 0x20u32 } else { 0u32 };
    lemma_cookie_bits(hash, mssind as u32, w, s, e);
    if b.tstamp_ok != 0 {
        let r = cookie_tsecr(hash, random);
        let t = b.rcv_tsecr;
        assert(t & 0xffu32 == r & 0xffu32);
        assert(((random & !0xffu32) | (hash & 0xffu32)) & 0xffu32 == hash & 0xffu32) by (bit_vector);
        assert(t & 0xffu32 == hash & 0xffu32);
        assert(hash & 0xffu32 <= hash && hash - (hash & 0xffu32) == hash & !0xffu32) by (bit_vector);
    }
    let ws8 = a2.snd_wscale;
    assert(((ws8 as u32) & 0xf) as u8 == ws8 & 0xf) by (bit_vector);
    assert(msstab(h.ipv4, mssind) == a2.mss);
}

/// The addresses, ports and acknowledgement number of a SYN-ACK.
pub open spec fn answers(r: Seq<u8>, q: Seq<u8>, h: TcpHeaders) -> bool {
    let t = h.tcp_off as int;
    &&& r.subrange(0, 6) == q.subrange(6, 12)
    &&& r.subrange(6, 12) == q.subrange(0, 6)
    &&& r.subrange(12, 14) == q.subrange(12, 14)
    &&& h.ipv4 ==> r.subrange(26, 30) == q.subrange(30, 34) && r.subrange(30, 34) == q.subrange(26, 30)
    &&& !h.ipv4 ==> r.subrange(22, 38) == q.subrange(38, 54) && r.subrange(38, 54) == q.subrange(22, 38)
    &&& r.subrange(t, t + 2) == q.subrange(t + 2, t + 4)
    &&& r.subrange(t + 2, t + 4) == q.subrange(t, t + 2)
    &&& be32(r, t + 8) == vstd::wrapping::u32_specs::wrapping_add(be32(q, t + 4), 1)
    &&& q[t + 13] & 0x02 != 0 ==> r[t + 13] & 0x12 == 0x12
}

proof fn lemma_synack_tcp_head(q: Seq<u8>, h: TcpHeaders, cookie: u32, a: TcpReqAttrs)
    requires
        headers_fit(q, h),
    ensures
        ({
            let t = h.tcp_off as int;
            let tcp = synack_tcp(q, h, cookie, a);
            &&& tcp.len() >= 20
            &&& tcp.subrange(0, 2) == q.subrange(t + 2, t + 4)
            &&& tcp.subrange(2, 4) == q.subrange(t, t + 2)
            &&& tcp.subrange(8, 12) == be32_bytes(vstd::wrapping::u32_specs::wrapping_add(be32(q, t + 4), 1))
            &&& q[t + 13] & 0x02 != 0 ==> tcp[13] & 0x12 == 0x12
        }),
{
    let t = h.tcp_off as int;
    let tcp0 = synack_tcp_nocheck(q, t, cookie, a);
    let tcp = synack_tcp(q, h, cookie, a);
    assert(tcp0.len() >= 20);
    assert(tcp.subrange(0, 12) =~= tcp0.subrange(0, 12));
    assert(tcp.subrange(0, 2) =~= q.subrange(t + 2, t + 4));
    assert(tcp.subrange(2, 4) =~= q.subrange(t, t + 2));
    assert(tcp.subrange(8, 12) =~= be32_bytes(vstd::wrapping::u32_specs::wrapping_add(be32(q, t + 4), 1)));
    let f = q[t + 13];
    assert(tcp[13] == synack_flags(f, a.tstamp_ok));
    assert(f & 0x02 != 0 ==> (((f | 0x10) & 0xbf) & 0x7f) & 0x12 == 0x12 && ((f | 0x10) & 0x7f) & 0x12 == 0x12)
        by (bit_vector);
}

proof fn lemma_synack_ip_addresses(q: Seq<u8>, h: TcpHeaders, tcp_len: int)
    requires
        headers_fit(q, h),
    ensures
        ({
            let ip = synack_ip(q, h, tcp_len);
            &&& ip.len() == h.tcp_off - 14
            &&& h.ipv4 ==> ip.subrange(12, 16) == q.subrange(30, 34) && ip.subrange(16, 20) == q.subrange(26, 30)
            &&& !h.ipv4 ==> ip.subrange(8, 24) == q.subrange(38, 54) && ip.subrange(24, 40) == q.subrange(22, 38)
        }),
{
    let ip = synack_ip(q, h, tcp_len);
    if h.ipv4 {
        let ip0 = synack_ip4_nocheck(q, tcp_len);
        assert(ip0.len() == 20);
        assert(ip.subrange(12, 20) =~= ip0.subrange(12, 20));
        assert(ip.subrange(12, 16) =~= q.subrange(30, 34));
        assert(ip.subrange(16, 20) =~= q.subrange(26, 30));
    } else {
        assert(ip.subrange(8, 24) =~= q.subrange(38, 54));
        assert(ip.subrange(24, 40) =~= q.subrange(22, 38));
    }
}

proof fn lemma_synack_packet_answers(q: Seq<u8>, h: TcpHeaders, cookie: u32, a: TcpReqAttrs)
    requires
        headers_fit(q, h),
    ensures
        answers(synack_packet(q, h, cookie, a), q, h),
{
    let t = h.tcp_off as int;
    let tcp = synack_tcp(q, h, cookie, a);
    let ip = synack_ip(q, h, tcp.len() as int);
    let r = synack_packet(q, h, cookie, a);
    lemma_synack_tcp_head(q, h, cookie, a);
    lemma_synack_ip_addresses(q, h, tcp.len() as int);
    let eth = q.subrange(6, 12) + q.subrange(0, 6) + q.subrange(12, 14);
    assert(r =~= eth + ip + tcp);
    assert(r.subrange(0, 6) =~= q.subrange(6, 12));
    assert(r.subrange(6, 12) =~= q.subrange(0, 6));
    assert(r.subrange(12, 14) =~= q.subrange(12, 14));
    if h.ipv4 {
        assert(r.subrange(26, 30) =~= ip.subrange(12, 16));
        assert(r.subrange(30, 34) =~= ip.subrange(16, 20));
    } else {
        assert(r.subrange(22, 38) =~= ip.subrange(8, 24));
        assert(r.subrange(38, 54) =~= ip.subrange(24, 40));
    }
    assert(r.subrange(t, t + 2) =~= tcp.subrange(0, 2));
    assert(r.subrange(t + 2, t + 4) =~= tcp.subrange(2, 4));
    let ackn = vstd::wrapping::u32_specs::wrapping_add(be32(q, t + 4), 1);
    assert(r.subrange(t + 8, t + 12) =~= tcp.subrange(8, 12));
    crate::bytes::lemma_be32_roundtrip(ackn);
    let b = be32_bytes(ackn);
    assert(r[t + 8] == b[0] && r[t + 9] == b[1] && r[t + 10] == b[2] && r[t + 11] == b[3]);
    assert(r[t + 13] == tcp[13]);
}

/// Reply law: the SYN-ACK built for a SYN goes back to its sender.  Its
/// Ethernet addresses are the SYN's, exchanged; its IP source address is
/// the SYN's destination and its IP destination the SYN's source (bytes
/// 26..30 and 30..34 for IPv4, 22..38 and 38..54 for IPv6); its TCP ports
/// are the SYN's, exchanged; it acknowledges the SYN's sequence number
/// plus one, and has SYN and ACK set (see [`answers`]).
pub proof fn lemma_synack_answers_syn(q: Seq<u8>, h: TcpHeaders, random: u32)
    requires
        headers_fit(q, h),
    ensures
        spec_handle_syn(Some(q), h, random) matches Some(r) ==> answers(r, q, h),
{
    if spec_validate_header(q, h) {
        let a = spec_parse_options(q, h);
        if spec_validate_sysctl(a, h.ipv4, tcp_flags(q, h)) {
            let (cookie, a2) = spec_prepare_cookie(q, h, a, random);
            lemma_synack_packet_answers(q, h, cookie, a2);
        }
    }
}

/// The bytes of an optional packet.
pub open spec fn opt_view(q: Option<&[u8]>) -> Option<Seq<u8>> {
    match q {
        Some(s) => Some(s@),
        None => None,
    }
}

// ---------------------------------------------------------------------
// Executable code
// ---------------------------------------------------------------------

/// Locates the Ethernet, IP and TCP headers.
pub fn tcp_load_headers(p: &[u8]) -> (r: Option<TcpHeaders>)
    ensures
        r == spec_load_headers(p@),
        r matches Some(h) ==> headers_fit(p@, h),
{
    let len = p.len();
    if len < 14 {
        return None;
    }
    let h_proto = get_unaligned_be16(p, 12);
    if h_proto == 0x0800 {
        if len < 34 {
            return None;
        }
        let ihl_version = p[14];
        if ihl_version % 16 != 5 {
            return None;
        }
        if ihl_version / 16 != 4 {
            return None;
        }
        if p[23] != 6 {
            return None;
        }
        if len < 54 {
            return None;
        }
        Some(TcpHeaders { ipv4: true, tcp_off: 34 })
    } else if h_proto == 0x86dd {
        if len < 54 {
            return None;
        }
        if p[14] / 16 != 6 {
            return None;
        }
        if p[20] != 6 {
            return None;
        }
        if len < 74 {
            return None;
        }
        Some(TcpHeaders { ipv4: false, tcp_off: 54 })
    } else {
        None
    }
}

/// RST flag.
pub fn tcp_rst(p: &[u8], h: TcpHeaders) -> (r: bool)
    requires
        headers_fit(p@, h),
    ensures
        r == has_flag(tcp_flags(p@, h), 4),
{
    p[h.tcp_off + 13] & 4 != 0
}

/// SYN flag.
pub fn tcp_syn_flag(p: &[u8], h: TcpHeaders) -> (r: bool)
    requires
        headers_fit(p@, h),
    ensures
        r == has_flag(tcp_flags(p@, h), 2),
{
    p[h.tcp_off + 13] & 2 != 0
}

/// ACK flag.
pub fn tcp_ack_flag(p: &[u8], h: TcpHeaders) -> (r: bool)
    requires
        headers_fit(p@, h),
    ensures
        r == has_flag(tcp_flags(p@, h), 0x10),
{
    p[h.tcp_off + 13] & 0x10 != 0
}

/// ECE flag.
pub fn tcp_ece(p: &[u8], h: TcpHeaders) -> (r: bool)
    requires
        headers_fit(p@, h),
    ensures
        r == has_flag(tcp_flags(p@, h), 0x40),
{
    p[h.tcp_off + 13] & 0x40 != 0
}

/// CWR flag.
pub fn tcp_cwr(p: &[u8], h: TcpHeaders) -> (r: bool)
    requires
        headers_fit(p@, h),
    ensures
        r == has_flag(tcp_flags(p@, h), 0x80),
{
    p[h.tcp_off + 13] & 0x80 != 0
}

/// TCP data offset in 32-bit words.
pub fn get_tcp_doff(p: &[u8], h: TcpHeaders) -> (r: u8)
    requires
        headers_fit(p@, h),
    ensures
        r == tcp_doff(p@, h),
{
    p[h.tcp_off + 12] / 16
}

/// Decides what the program does with a packet.
pub fn tcp_custom_syncookie(p: &[u8]) -> (r: SyncookieAction)
    ensures
        r == spec_classify(p@),
{
    match tcp_load_headers(p) {
        None => SyncookieAction::Pass,
        Some(h) => {
            if tcp_rst(p, h) {
                SyncookieAction::Pass
            } else if tcp_syn_flag(p, h) {
                if tcp_ack_flag(p, h) {
                    SyncookieAction::Pass
                } else {
                    SyncookieAction::Syn(h)
                }
            } else {
                SyncookieAction::Ack(h)
            }
        },
    }
}

/// The length to resize the packet to before the options are rewritten.
pub fn tcp_reload_headers(p: &[u8], h: TcpHeaders) -> (r: Option<u32>)
    requires
        headers_fit(p@, h),
        p@.len() <= 0xffff,
    ensures
        r == spec_reload_len(p@, h),
{
    let doff = get_tcp_doff(p, h);
    if doff < 5 {
        return None;
    }
    Some((p.len() as u32) + 60 - (doff as u32) * 4)
}

/// Checks the resized packet: 60 bytes of TCP header room and, for IPv4, a
/// verifying header checksum.
pub fn tcp_validate_header(q: &[u8], h: TcpHeaders) -> (r: bool)
    requires
        h.tcp_off == 34 || h.tcp_off == 54,
    ensures
        r == spec_validate_header(q@, h),
{
    if q.len() < h.tcp_off + 60 {
        return false;
    }
    if h.ipv4 {
        let ihl = q[14] % 16;
        let csum2 = csum_partial(q, 14, (ihl as usize) * 2);
        if csum_fold(csum2) != 0 {
            return false;
        }
    }
    true
}

/// `next(sz)` of the option parser.
fn next(q: &[u8], off: u32, sz: u32) -> (r: bool)
    requires
        sz <= 4,
    ensures
        r == next_ok(q@.len() as int, off as int, sz as int),
{
    if off > 0xffff - sz {
        return false;
    }
    ((off + sz) as usize) < q.len()
}

/// Parses one option at `off`.  Returns whether to stop, the next offset
/// and the updated attributes.
pub fn tcp_parse_option(q: &[u8], syn: bool, off: u32, a: TcpReqAttrs) -> (r: (bool, u32, TcpReqAttrs))
    ensures
        (r.0, r.1 as int, r.2) == parse_option_step(q@, syn, off as int, a),
        !r.0 ==> r.1 <= 0xffff + 256,
{
    if !next(q, off, 1) {
        return (true, off, a);
    }
    let opcode = q[off as usize];
    if opcode == 0 {
        return (true, off + 1, a);
    }
    if opcode == 1 {
        return (false, off + 1, a);
    }
    if !next(q, off + 1, 1) {
        return (true, off + 1, a);
    }
    let opsize = q[(off + 1) as usize];
    if opsize < 2 {
        return (true, off + 2, a);
    }
    let o2 = off + 2;
    let mut a2 = a;
    if opcode == 2 {
        if opsize == 4 && syn && next(q, o2, 2) {
            a2.mss = get_unaligned_be16(q, o2 as usize);
        }
    } else if opcode == 3 {
        if opsize == 3 && syn && next(q, o2, 1) {
            a2.wscale_ok = 1;
            a2.snd_wscale = q[o2 as usize];
        }
    } else if opcode == 8 {
        if opsize == 10 && next(q, o2, 4) && next(q, o2 + 4, 4) {
            a2.rcv_tsval = get_unaligned_be32(q, o2 as usize);
            a2.rcv_tsecr = get_unaligned_be32(q, (o2 + 4) as usize);
            if syn && a2.rcv_tsecr != 0 {
                a2.tstamp_ok = 0;
            } else {
                a2.tstamp_ok = 1;
            }
        }
    } else if opcode == 4 {
        if opsize == 2 && syn {
            a2.sack_ok = 1;
        }
    }
    (false, off + opsize as u32, a2)
}

/// Parses at most 40 options of the (resized) packet.
pub fn tcp_parse_options(q: &[u8], h: TcpHeaders) -> (r: TcpReqAttrs)
    requires
        headers_fit(q@, h),
    ensures
        r == spec_parse_options(q@, h),
{
    let syn = tcp_syn_flag(q, h);
    let mut off: u32 = (h.tcp_off + 20) as u32;
    let mut a = TcpReqAttrs::new();
    let mut i: u32 = 0;
    while i < 40
        invariant
            i <= 40,
            off <= 0xffff + 256,
            syn == has_flag(tcp_flags(q@, h), 2),
            spec_parse_options(q@, h) == parse_options(q@, syn, off as int, a, (40 - i) as nat),
        decreases 40 - i,
    {
        if off > 0xffff {
            // No `next` can succeed from here on.
            assert(parse_option_step(q@, syn, off as int, a).0);
            return a;
        }
        let (stop, off2, a2) = tcp_parse_option(q, syn, off, a);
        if stop {
            return a2;
        }
        off = off2;
        a = a2;
        i = i + 1;
    }
    a
}

/// Checks the SYN's options against what this program requires.
pub fn tcp_validate_sysctl(a: &TcpReqAttrs, q: &[u8], h: TcpHeaders) -> (r: bool)
    requires
        headers_fit(q@, h),
    ensures
        r == spec_validate_sysctl(*a, h.ipv4, tcp_flags(q@, h)),
{
    if (h.ipv4 && a.mss != MSS_LOCAL_IPV4) || (!h.ipv4 && a.mss != MSS_LOCAL_IPV6) {
        return false;
    }
    if a.wscale_ok == 0 || a.snd_wscale == 0 || (a.snd_wscale as u32) >= BPF_SYNCOOKIE_WSCALE_MASK {
        return false;
    }
    if a.tstamp_ok == 0 {
        return false;
    }
    if a.sack_ok == 0 {
        return false;
    }
    if !tcp_ece(q, h) || !tcp_cwr(q, h) {
        return false;
    }
    true
}

/// The index of the largest table entry at most `mss` (0 if none is).
pub fn find_mssind(tab: &[u16; 4], mss: u16) -> (r: i32)
    ensures
        r == spec_find_mssind(tab@, mss),
        0 <= r <= 3,
{
    let mut i: i32 = 3;
    loop
        invariant
            0 <= i <= 3,
            forall|j: int| i < j <= 3 ==> mss < tab@[j],
        ensures
            0 <= i <= 3,
            i == 0 || mss >= tab@[i as int],
            forall|j: int| i < j <= 3 ==> mss < tab@[j],
        decreases i,
    {
        if i == 0 {
            break;
        }
        if mss >= tab[i as usize] {
            break;
        }
        i -= 1;
    }
    i
}

fn msstab_array(ipv4: bool) -> (r: [u16; 4])
    ensures
        r@ == msstab_seq(ipv4),
{
    let r: [u16; 4] = if ipv4 {
        [536, 1300, 1460, MSS_LOCAL_IPV4]
    } else {
        [1280 - 60, 1480 - 60, 9000 - 60, MSS_LOCAL_IPV6]
    };
    assert(r@ =~= msstab_seq(ipv4));
    r
}

fn cookie_hash_exec(q: &[u8], h: TcpHeaders, seq: u32) -> (r: u32)
    requires
        headers_fit(q@, h),
    ensures
        r == cookie_hash(q@, h, seq),
{
    let first: u64 = if h.ipv4 {
        ((get_le32(q, 26) as u64) << 32u64) | (get_le32(q, 30) as u64)
    } else {
        (((get_le32(q, 22) & 0xff) as u64) << 32u64) | (get_le32(q, 38) as u64)
    };
    let source = get_le16(q, h.tcp_off);
    let dest = get_le16(q, h.tcp_off + 2);
    let second: u64 = ((seq as u64) << 32u64) | ((source as u64) << 16u64) | (dest as u64);
    let key: [u64; 2] = [0x0706050403020100, 0x0f0e0d0c0b0a0908];
    assert(key@ =~= test_key());
    siphash_2u64(first, second, &key) as u32
}

/// Builds the cookie for a SYN and updates the attributes: the MSS is
/// rounded down to a table entry and, with timestamps, the echoed
/// timestamp carries the hash's low byte under `random` upper bits.
pub fn tcp_prepare_cookie(q: &[u8], h: TcpHeaders, a: TcpReqAttrs, random: u32) -> (r: (u32, TcpReqAttrs))
    requires
        headers_fit(q@, h),
    ensures
        r == spec_prepare_cookie(q@, h, a, random),
{
    let tab = msstab_array(h.ipv4);
    let mssind = find_mssind(&tab, a.mss);
    let mut a2 = a;
    a2.mss = tab[mssind as usize];
    let seq = get_unaligned_be32(q, h.tcp_off + 4);
    let mut hash = cookie_hash_exec(q, h, seq);
    if a2.tstamp_ok != 0 {
        let mut r = random;
        r = r & !COOKIE_MASK;
        r = r | (hash & COOKIE_MASK);
        a2.rcv_tsecr = r;
    }
    hash = hash & !COOKIE_MASK;
    hash = hash | ((mssind as u32) << 6u32);
    if a2.wscale_ok != 0 {
        hash = hash | ((a2.snd_wscale as u32) & BPF_SYNCOOKIE_WSCALE_MASK);
    }
    if a2.sack_ok != 0 {
        hash = hash | BPF_SYNCOOKIE_SACK;
    }
    if a2.tstamp_ok != 0 && tcp_ece(q, h) && tcp_cwr(q, h) {
        hash = hash | BPF_SYNCOOKIE_ECN;
    }
    (hash, a2)
}

/// Checks the cookie an ACK acknowledges and decodes it.
pub fn tcp_validate_cookie(q: &[u8], h: TcpHeaders, a: TcpReqAttrs) -> (r: Option<TcpReqAttrs>)
    requires
        headers_fit(q@, h),
    ensures
        r == spec_validate_cookie(q@, h, a),
{
    let cookie = get_unaligned_be32(q, h.tcp_off + 8).wrapping_sub(1);
    let seq = get_unaligned_be32(q, h.tcp_off + 4).wrapping_sub(1);
    let mut hash = cookie_hash_exec(q, h, seq);
    if a.tstamp_ok != 0 {
        hash = hash.wrapping_sub(a.rcv_tsecr & COOKIE_MASK);
    } else {
        hash = hash & !COOKIE_MASK;
    }
    hash = hash.wrapping_sub(cookie & !COOKIE_MASK);
    if hash != 0 {
        return None;
    }
    let tab = msstab_array(h.ipv4);
    assert((cookie >> 6u32) & 3 <= 3) by (bit_vector);
    let mssind = ((cookie >> 6u32) & 3) as usize;
    let mut a2 = a;
    a2.mss = tab[mssind];
    let snd_wscale = (cookie & BPF_SYNCOOKIE_WSCALE_MASK) as u8;
    a2.snd_wscale = snd_wscale;
    a2.rcv_wscale = snd_wscale;
    a2.wscale_ok = if snd_wscale as u32 == BPF_SYNCOOKIE_WSCALE_MASK { 1 } else { 0 };
    a2.sack_ok = (cookie & BPF_SYNCOOKIE_SACK) as u8;
    a2.ecn_ok = (cookie & BPF_SYNCOOKIE_ECN) as u8;
    Some(a2)
}

/// Appends the SYN-ACK's options.
pub fn tcp_write_options(out: &mut Vec<u8>, a: &TcpReqAttrs)
    ensures
        final(out)@ == old(out)@ + synack_options(*a),
{
    push_be32(out, 0x0204_0000 + a.mss as u32);
    let ghost o1 = out@;
    if a.wscale_ok != 0 {
        push_be32(out, 0x0103_0300 + a.snd_wscale as u32);
    }
    let ghost o2 = out@;
    if a.tstamp_ok != 0 {
        if a.sack_ok != 0 {
            push_be32(out, 0x0402_080a);
        } else {
            push_be32(out, 0x0101_080a);
        }
        push_be32(out, a.rcv_tsecr);
        push_be32(out, a.rcv_tsval);
    } else if a.sack_ok != 0 {
        push_be32(out, 0x0101_0402);
    }
    assert(out@ =~= old(out)@ + synack_options(*a));
}

#[verifier::rlimit(40)]
fn build_synack_tcp_nocheck(q: &[u8], h: TcpHeaders, cookie: u32, a: &TcpReqAttrs) -> (r: Vec<u8>)
    requires
        headers_fit(q@, h),
    ensures
        r@ == synack_tcp_nocheck(q@, h.tcp_off as int, cookie, *a),
        20 <= r@.len() <= 40,
        r@.len() % 4 == 0,
{
    let t = h.tcp_off;
    let mut tcp: Vec<u8> = Vec::new();
    push_range(&mut tcp, q, t + 2, t + 4);
    push_range(&mut tcp, q, t, t + 2);
    push_be32(&mut tcp, cookie);
    push_be32(&mut tcp, get_unaligned_be32(q, t + 4).wrapping_add(1));
    let mut opts: Vec<u8> = Vec::new();
    tcp_write_options(&mut opts, a);
    assert(opts@ =~= synack_options(*a));
    let doff: u8 = 5 + (opts.len() / 4) as u8;
    tcp.push(q[t + 12] % 16 + doff * 16);
    let f0 = q[t + 13] | 0x10;
    let f1 = if a.tstamp_ok == 0 || f0 & 0x40 == 0 || f0 & 0x80 == 0 {
        f0 & 0xbf
    } else {
        f0
    };
    tcp.push(f1 & 0x7f);
    push_range(&mut tcp, q, t + 14, t + 16);
    tcp.push(0);
    tcp.push(0);
    push_range(&mut tcp, q, t + 18, t + 20);
    push_range(&mut tcp, opts.as_slice(), 0, opts.len());
    assert(opts@.subrange(0, opts@.len() as int) =~= opts@);
    assert(tcp@ =~= synack_tcp_nocheck(q@, t as int, cookie, *a));
    tcp
}

fn build_synack_tcp(q: &[u8], h: TcpHeaders, cookie: u32, a: &TcpReqAttrs) -> (r: Vec<u8>)
    requires
        headers_fit(q@, h),
    ensures
        r@ == synack_tcp(q@, h, cookie, *a),
        20 <= r@.len() <= 40,
{
    let mut tcp = build_synack_tcp_nocheck(q, h, cookie, a);
    let tcp_len = tcp.len();
    let csum = csum_partial(tcp.as_slice(), 0, tcp_len / 2);
    assert(tcp@.skip(0) =~= tcp@);
    let check = if h.ipv4 {
        csum_tcpudp_magic(get_le32(q, 30), get_le32(q, 26), tcp_len as u32, 6, csum)
    } else {
        let sa: [u32; 4] = [get_le32(q, 38), get_le32(q, 42), get_le32(q, 46), get_le32(q, 50)];
        let da: [u32; 4] = [get_le32(q, 22), get_le32(q, 26), get_le32(q, 30), get_le32(q, 34)];
        assert(sa@ =~= addr_words(q@, 38));
        assert(da@ =~= addr_words(q@, 22));
        csum_ipv6_magic(&sa, &da, tcp_len as u32, 6, csum)
    };
    set_le16(&mut tcp, 16, check);
    tcp
}

fn build_synack_ip(q: &[u8], h: TcpHeaders, tcp_len: usize) -> (r: Vec<u8>)
    requires
        headers_fit(q@, h),
        tcp_len <= 40,
    ensures
        r@ == synack_ip(q@, h, tcp_len as int),
{
    let mut ip: Vec<u8> = Vec::new();
    if h.ipv4 {
        ip.push(q[14]);
        ip.push(0);
        push_be16(&mut ip, (20 + tcp_len) as u16);
        ip.push(0);
        ip.push(0);
        push_range(&mut ip, q, 20, 22);
        ip.push(64);
        ip.push(q[23]);
        ip.push(0);
        ip.push(0);
        push_range(&mut ip, q, 30, 34);
        push_range(&mut ip, q, 26, 30);
        assert(ip@ =~= synack_ip4_nocheck(q@, tcp_len as int));
        let ip_sum = csum_partial(ip.as_slice(), 0, 10);
        assert(ip@.skip(0) =~= ip@);
        let ip_check = csum_fold(ip_sum);
        set_le16(&mut ip, 10, ip_check);
    } else {
        ip.push(0x60);
        ip.push(0);
        ip.push(0);
        ip.push(0);
        push_be16(&mut ip, tcp_len as u16);
        ip.push(q[20]);
        ip.push(64);
        push_range(&mut ip, q, 38, 54);
        push_range(&mut ip, q, 22, 38);
        assert(ip@ =~= synack_ip6(q@, tcp_len as int));
    }
    ip
}

/// Builds the whole SYN-ACK answering the (resized) SYN `q` with `cookie`.
pub fn build_synack(q: &[u8], h: TcpHeaders, cookie: u32, a: &TcpReqAttrs) -> (r: Vec<u8>)
    requires
        headers_fit(q@, h),
    ensures
        r@ == synack_packet(q@, h, cookie, *a),
{
    let tcp = build_synack_tcp(q, h, cookie, a);
    let ip = build_synack_ip(q, h, tcp.len());
    let mut out: Vec<u8> = Vec::new();
    push_range(&mut out, q, 6, 12);
    push_range(&mut out, q, 0, 6);
    push_range(&mut out, q, 12, 14);
    push_range(&mut out, ip.as_slice(), 0, ip.len());
    push_range(&mut out, tcp.as_slice(), 0, tcp.len());
    assert(ip@.subrange(0, ip@.len() as int) =~= ip@);
    assert(tcp@.subrange(0, tcp@.len() as int) =~= tcp@);
    assert(out@ =~= synack_packet(q@, h, cookie, *a));
    out
}

/// Answers a SYN.  `q` is the packet after resizing it to
/// `tcp_reload_headers` (`None` if that failed); `random` supplies the upper
/// bits of the echoed timestamp.  `None` means the SYN is dropped
/// (`TC_ACT_SHOT`); otherwise the packet is to be replaced by the result and
/// sent back out of the interface it came from.
pub fn tcp_handle_syn(q: Option<&[u8]>, h: TcpHeaders, random: u32) -> (r: Option<Vec<u8>>)
    requires
        h.tcp_off == 34 || h.tcp_off == 54,
        h.ipv4 <==> h.tcp_off == 34,
    ensures
        r matches Some(v) ==> spec_handle_syn(opt_view(q), h, random) == Some(v@),
        r is None ==> spec_handle_syn(opt_view(q), h, random) is None,
{
    match q {
        None => None,
        Some(q) => {
            if !tcp_validate_header(q, h) {
                return None;
            }
            let a = tcp_parse_options(q, h);
            if !tcp_validate_sysctl(&a, q, h) {
                return None;
            }
            let (cookie, a2) = tcp_prepare_cookie(q, h, a, random);
            Some(build_synack(q, h, cookie, &a2))
        },
    }
}

/// The socket lookup key of an ACK: its addresses and raw ports.
pub fn tcp_lookup_tuple(p: &[u8], h: TcpHeaders) -> (r: SockTuple)
    requires
        headers_fit(p@, h),
    ensures
        h.ipv4 ==> r.saddr@ == p@.subrange(26, 30) && r.daddr@ == p@.subrange(30, 34),
        !h.ipv4 ==> r.saddr@ == p@.subrange(22, 38) && r.daddr@ == p@.subrange(38, 54),
        r.sport == le16(p@, h.tcp_off as int),
        r.dport == le16(p@, h.tcp_off + 2),
{
    let mut saddr: Vec<u8> = Vec::new();
    let mut daddr: Vec<u8> = Vec::new();
    if h.ipv4 {
        push_range(&mut saddr, p, 26, 30);
        push_range(&mut daddr, p, 30, 34);
    } else {
        push_range(&mut saddr, p, 22, 38);
        push_range(&mut daddr, p, 38, 54);
    }
    assert(saddr@ =~= Seq::<u8>::empty() + saddr@);
    SockTuple { saddr, daddr, sport: get_le16(p, h.tcp_off), dport: get_le16(p, h.tcp_off + 2) }
}

/// Decides what to do with an ACK.  `lookup` is the socket found for
/// `tcp_lookup_tuple`; `q` is the packet after resizing it to
/// `tcp_reload_headers` (the caller resizes only for a listening TCP socket;
/// `None` if that failed).
pub fn tcp_handle_ack(lookup: SockLookup, q: Option<&[u8]>, h: TcpHeaders) -> (r: AckAction)
    requires
        h.tcp_off == 34 || h.tcp_off == 54,
        h.ipv4 <==> h.tcp_off == 34,
    ensures
        r == spec_handle_ack(lookup, opt_view(q), h),
{
    match lookup {
        SockLookup::Missing => AckAction::Pass,
        SockLookup::Found { state, is_tcp_sock } => {
            if state != TCP_LISTEN {
                return AckAction::Pass;
            }
            if !is_tcp_sock {
                return AckAction::Shot;
            }
            match q {
                None => AckAction::Shot,
                Some(q) => {
                    if !tcp_validate_header(q, h) {
                        return AckAction::Shot;
                    }
                    let a = tcp_parse_options(q, h);
                    match tcp_validate_cookie(q, h, a) {
                        None => AckAction::Shot,
                        Some(a2) => AckAction::Assign(a2),
                    }
                },
            }
        },
    }
}

} // verus!
