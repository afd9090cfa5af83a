//! An XDP layer-4 load balancer: parses IPv4/IPv6 with TCP, UDP or ICMP
//! errors, answers pings, finds the backend ("real") of a virtual IP through
//! a connection table or a consistent-hashing ring, and encapsulates the
//! packet toward it.
//!
//! The kernel maps are held as values ([`LbMaps`]); the clock readings and
//! whether the kernel grants head room come in as [`LbEnv`].
use vstd::prelude::*;
use crate::bytes::{
    be16, be16_bytes, bswap16, get_le16, get_le32, get_unaligned_be16, le16, le16_bytes, le32, le32_bytes, ntohs,
    push_be16, push_le16, push_le32, push_range, set_le16, set_le32, splice,
};
use crate::checksum::{ipv4_check_at, spec_ipv4_check};
use crate::ctx::{XDP_DROP, XDP_PASS, XDP_TX};
use crate::iptunnel::{words_bytes, IPPROTO_IPIP, IPPROTO_IPV6, IPPROTO_TCP, IPPROTO_UDP, ETH_P_IP, ETH_P_IPV6};
use crate::jhash::{jhash_16, jhash_2words, spec_jhash_16, spec_jhash_2words};

verus! {

pub const IPPROTO_ICMP: u8 = 1;
/// Raw mask of the fragment bits of the IPv4 `frag_off` field.
pub const PCKT_FRAGMENTED: u16 = 65343;
/// Flag of a packet description: the flow was taken from an ICMP error.
pub const F_ICMP: u8 = 1;
/// Flag of a packet description: the TCP SYN bit is set.
pub const F_SYN_SET: u8 = 2;
pub const CH_RINGS_SIZE: usize = 7860;

/// The flow a packet belongs to (raw addresses and ports; an IPv4 address
/// is the first word).
#[derive(Clone, Copy)]
pub struct FlowKey {
    pub src: [u32; 4],
    pub dst: [u32; 4],
    pub ports: [u16; 2],
    pub proto: u8,
}

/// What the parser learns of a packet.
#[derive(Clone, Copy)]
pub struct PacketDescription {
    pub flow: FlowKey,
    pub flags: u8,
}

pub open spec fn zero_flow() -> FlowKey {
    FlowKey { src: [0u32, 0u32, 0u32, 0u32], dst: [0u32, 0u32, 0u32, 0u32], ports: [0u16, 0u16], proto: 0 }
}

pub open spec fn zero_pckt() -> PacketDescription {
    PacketDescription { flow: zero_flow(), flags: 0 }
}

impl PacketDescription {
    /// The all-zero description the parser starts from.
    pub fn zeroed() -> (r: PacketDescription)
        ensures
            r == zero_pckt(),
    {
        PacketDescription {
            flow: FlowKey { src: [0, 0, 0, 0], dst: [0, 0, 0, 0], ports: [0, 0], proto: 0 },
            flags: 0,
        }
    }
}

/// Four raw words at `p[i..i + 16]`.
pub open spec fn words4(p: Seq<u8>, i: int) -> [u32; 4] {
    [le32(p, i), le32(p, i + 4), le32(p, i + 8), le32(p, i + 12)]
}

/// Offset of the transport header: Ethernet, IP, and for an ICMP error the
/// ICMP header and the quoted IP header.
pub open spec fn spec_calc_offset(is_ipv6: bool, quoted: bool) -> int {
    if is_ipv6 {
        if quoted { 102int } else { 54int }
    } else {
        if quoted { 62int } else { 34int }
    }
}

/// The two ports of the transport header at `off`; for a quoted packet
/// (ICMP error) they are swapped back into the direction of the flow.
pub open spec fn l4_ports(p: Seq<u8>, off: int, quoted: bool) -> [u16; 2] {
    if !quoted {
        [le16(p, off), le16(p, off + 2)]
    } else {
        [le16(p, off + 2), le16(p, off)]
    }
}

pub open spec fn is_quoted_flow(pk: PacketDescription) -> bool {
    pk.flags & F_ICMP != 0
}

pub open spec fn with_ports(pk: PacketDescription, ports: [u16; 2]) -> PacketDescription {
    PacketDescription { flow: FlowKey { ports, ..pk.flow }, ..pk }
}

pub open spec fn spec_parse_udp(p: Seq<u8>, is_ipv6: bool, pk: PacketDescription) -> Option<PacketDescription> {
    let quoted = is_quoted_flow(pk);
    let off = spec_calc_offset(is_ipv6, quoted);
    if off + 8 > p.len() {
        None
    } else {
        Some(with_ports(pk, l4_ports(p, off, quoted)))
    }
}

/// The SYN bit of the TCP header at `off`.
pub open spec fn tcp_syn(p: Seq<u8>, off: int) -> bool {
    (le16(p, off + 12) >> 9) & 1 != 0
}

pub open spec fn spec_parse_tcp(p: Seq<u8>, is_ipv6: bool, pk: PacketDescription) -> Option<PacketDescription> {
    let quoted = is_quoted_flow(pk);
    let off = spec_calc_offset(is_ipv6, quoted);
    if off + 20 > p.len() {
        None
    } else {
        let pk1 = with_ports(pk, l4_ports(p, off, quoted));
        Some(if tcp_syn(p, off) { PacketDescription { flags: pk1.flags | F_SYN_SET, ..pk1 } } else { pk1 })
    }
}

/// `p` with the two MAC addresses exchanged.
pub open spec fn swap_macs(p: Seq<u8>) -> Seq<u8> {
    p.subrange(6, 12) + p.subrange(0, 6) + p.skip(12)
}

/// `p` with the ranges `[a, a + n)` and `[b, b + n)` exchanged.
pub open spec fn swap_ranges(p: Seq<u8>, a: int, b: int, n: int) -> Seq<u8> {
    p.take(a) + p.subrange(b, b + n) + p.subrange(a + n, b) + p.subrange(a, a + n) + p.skip(b + n)
}

/// An echo request turned into a reply, before the IP checksum is set:
/// ICMP type 0, ICMP checksum adjusted, TTL 4, addresses swapped, IP check
/// cleared.
pub open spec fn echo4_reply_nocheck(p: Seq<u8>) -> Seq<u8> {
    p.take(22) + seq![4u8] + p.subrange(23, 24) + seq![0u8, 0u8] + p.subrange(30, 34) + p.subrange(26, 30)
        + seq![0u8] + p.subrange(35, 36) + le16_bytes(vstd::wrapping::u16_specs::wrapping_add(le16(p, 36), 7))
        + p.skip(38)
}

pub open spec fn spec_echo_reply4(p: Seq<u8>) -> (i32, Seq<u8>) {
    if p.len() < 42 {
        (XDP_DROP, p)
    } else {
        let q = echo4_reply_nocheck(p);
        (XDP_TX, swap_macs(splice(q, 24, le16_bytes(spec_ipv4_check(q.skip(14))))))
    }
}

/// An ICMPv6 echo request turned into a reply: hop limit 4, addresses
/// swapped, type 129, checksum adjusted.
pub open spec fn echo6_reply_body(p: Seq<u8>) -> Seq<u8> {
    p.take(21) + seq![4u8] + p.subrange(38, 54) + p.subrange(22, 38) + seq![129u8] + p.subrange(55, 56)
        + le16_bytes(vstd::wrapping::u16_specs::wrapping_sub(le16(p, 56), 1)) + p.skip(58)
}

pub open spec fn spec_echo_reply6(p: Seq<u8>) -> (i32, Seq<u8>) {
    if p.len() < 62 {
        (XDP_DROP, p)
    } else {
        (XDP_TX, swap_macs(echo6_reply_body(p)))
    }
}

/// Outcome of a parsing step: action (-1: go on), packet, description.
pub open spec fn spec_parse_err4(p: Seq<u8>, off: int, pk: PacketDescription) -> (i32, Seq<u8>, PacketDescription) {
    if off + 8 > p.len() {
        (XDP_DROP, p, pk)
    } else if p[off] == 8 {
        let (a, q) = spec_echo_reply4(p);
        (a, q, pk)
    } else if p[off] != 3 || p[off + 1] != 4 {
        (XDP_PASS, p, pk)
    } else if off + 28 > p.len() {
        (XDP_DROP, p, pk)
    } else if p[off + 8] & 0x0f != 5 {
        (XDP_DROP, p, pk)
    } else {
        let f = pk.flow;
        (-1i32, p, PacketDescription {
            flow: FlowKey {
                proto: p[off + 17],
                src: [le32(p, off + 24), f.src[1], f.src[2], f.src[3]],
                dst: [le32(p, off + 20), f.dst[1], f.dst[2], f.dst[3]],
                ..f
            },
            flags: pk.flags | F_ICMP,
        })
    }
}

pub open spec fn spec_parse_err6(p: Seq<u8>, off: int, pk: PacketDescription) -> (i32, Seq<u8>, PacketDescription) {
    if off + 8 > p.len() {
        (XDP_DROP, p, pk)
    } else if p[off] == 128 {
        let (a, q) = spec_echo_reply6(p);
        (a, q, pk)
    } else if p[off] != 3 {
        (XDP_PASS, p, pk)
    } else if off + 48 > p.len() {
        (XDP_DROP, p, pk)
    } else {
        (-1i32, p, PacketDescription {
            flow: FlowKey { proto: p[off + 14], src: words4(p, off + 32), dst: words4(p, off + 16), ..pk.flow },
            flags: pk.flags | F_ICMP,
        })
    }
}

/// Outcome of the network-layer step: action (-1: go on), packet,
/// description, payload length.
pub open spec fn spec_l3_v6(p: Seq<u8>, off: int, pk: PacketDescription, nb: u16) -> (i32, Seq<u8>, PacketDescription, u16) {
    if off + 40 > p.len() {
        (XDP_DROP, p, pk, nb)
    } else {
        let proto = p[off + 6];
        let pk1 = PacketDescription { flow: FlowKey { proto, ..pk.flow }, ..pk };
        let nb1 = be16(p, off + 4);
        if proto == 45 {
            (XDP_DROP, p, pk1, nb1)
        } else if proto == 59 {
            let (a, q, pk2) = spec_parse_err6(p, off + 40, pk1);
            (a, q, pk2, nb1)
        } else {
            (-1i32, p, PacketDescription {
                flow: FlowKey { src: words4(p, off + 8), dst: words4(p, off + 24), ..pk1.flow },
                ..pk1
            }, nb1)
        }
    }
}

pub open spec fn spec_l3_v4(p: Seq<u8>, off: int, pk: PacketDescription, nb: u16) -> (i32, Seq<u8>, PacketDescription, u16) {
    if off + 20 > p.len() {
        (XDP_DROP, p, pk, nb)
    } else if p[off] & 0x0f != 5 {
        (XDP_DROP, p, pk, nb)
    } else {
        let proto = p[off + 9];
        let pk1 = PacketDescription { flow: FlowKey { proto, ..pk.flow }, ..pk };
        let nb1 = be16(p, off + 2);
        if le16(p, off + 6) & PCKT_FRAGMENTED != 0 {
            (XDP_DROP, p, pk1, nb1)
        } else if proto == IPPROTO_ICMP {
            let (a, q, pk2) = spec_parse_err4(p, off + 20, pk1);
            (a, q, pk2, nb1)
        } else {
            let f = pk1.flow;
            (-1i32, p, PacketDescription {
                flow: FlowKey {
                    src: [le32(p, off + 12), f.src[1], f.src[2], f.src[3]],
                    dst: [le32(p, off + 16), f.dst[1], f.dst[2], f.dst[3]],
                    ..f
                },
                ..pk1
            }, nb1)
        }
    }
}

/// The steps above at an offset given as a 64-bit value.
pub open spec fn spec_parse_err4_at(p: Seq<u8>, off: u64, pk: PacketDescription) -> (i32, Seq<u8>, PacketDescription) {
    spec_parse_err4(p, off as int, pk)
}

pub open spec fn spec_parse_err6_at(p: Seq<u8>, off: u64, pk: PacketDescription) -> (i32, Seq<u8>, PacketDescription) {
    spec_parse_err6(p, off as int, pk)
}

pub open spec fn spec_l3_v4_at(p: Seq<u8>, off: u64, pk: PacketDescription, nb: u16) -> (i32, Seq<u8>, PacketDescription, u16) {
    spec_l3_v4(p, off as int, pk, nb)
}

pub open spec fn spec_l3_v6_at(p: Seq<u8>, off: u64, pk: PacketDescription, nb: u16) -> (i32, Seq<u8>, PacketDescription, u16) {
    spec_l3_v6(p, off as int, pk, nb)
}

// ---------------------------------------------------------------------
// Executable code: parsing and replies
// ---------------------------------------------------------------------

fn off_usize(x: u64) -> (r: usize)
    requires
        x <= 0x20_0000,
    ensures
        r == x,
{
    x as usize
}

/// Offset of the transport header (see [`spec_calc_offset`]).
pub fn calc_offset(is_ipv6: bool, quoted: bool) -> (r: u64)
    ensures
        r == spec_calc_offset(is_ipv6, quoted),
{
    let mut off: u64 = 14;
    if is_ipv6 {
        off += 40;
        if quoted {
            off += 8 + 40;
        }
    } else {
        off += 20;
        if quoted {
            off += 8 + 20;
        }
    }
    off
}

fn read_words4(p: &[u8], i: usize) -> (r: [u32; 4])
    requires
        i + 16 <= p@.len(),
    ensures
        r == words4(p@, i as int),
{
    let _n = p.len();
    let r = [get_le32(p, i), get_le32(p, i + 4), get_le32(p, i + 8), get_le32(p, i + 12)];
    assert(r =~= words4(p@, i as int));
    r
}

/// Reads the UDP ports into the flow.  Fails if the header does not fit.
pub fn parse_udp(p: &[u8], is_ipv6: bool, pckt: &mut PacketDescription) -> (r: bool)
    ensures
        r == spec_parse_udp(p@, is_ipv6, *old(pckt)) is Some,
        r ==> *final(pckt) == spec_parse_udp(p@, is_ipv6, *old(pckt)).unwrap(),
        !r ==> *final(pckt) == *old(pckt),
{
    let quoted = pckt.flags & F_ICMP != 0;
    let off = calc_offset(is_ipv6, quoted) as usize;
    if off + 8 > p.len() {
        return false;
    }
    let source = get_le16(p, off);
    let dest = get_le16(p, off + 2);
    if !quoted {
        pckt.flow.ports = [source, dest];
    } else {
        pckt.flow.ports = [dest, source];
    }
    true
}

/// Reads the TCP ports into the flow and notes a SYN.  Fails if the header
/// does not fit.
pub fn parse_tcp(p: &[u8], is_ipv6: bool, pckt: &mut PacketDescription) -> (r: bool)
    ensures
        r == spec_parse_tcp(p@, is_ipv6, *old(pckt)) is Some,
        r ==> *final(pckt) == spec_parse_tcp(p@, is_ipv6, *old(pckt)).unwrap(),
        !r ==> *final(pckt) == *old(pckt),
{
    let quoted = pckt.flags & F_ICMP != 0;
    let off = calc_offset(is_ipv6, quoted) as usize;
    if off + 20 > p.len() {
        return false;
    }
    let flags = get_le16(p, off + 12);
    let source = get_le16(p, off);
    let dest = get_le16(p, off + 2);
    if !quoted {
        pckt.flow.ports = [source, dest];
    } else {
        pckt.flow.ports = [dest, source];
    }
    if (flags >> 9) & 1 != 0 {
        pckt.flags = pckt.flags | F_SYN_SET;
    }
    true
}

/// Exchanges `p[a..a + n]` and `p[b..b + n]`.
pub fn swap_bytes(p: &mut Vec<u8>, a: usize, b: usize, n: usize)
    requires
        a + n <= b,
        b + n <= old(p)@.len(),
    ensures
        final(p)@ == swap_ranges(old(p)@, a as int, b as int, n as int),
{
    let ghost p0 = p@;
    let len = p.len();
    let mut i: usize = 0;
    while i < n
        invariant
            i <= n,
            len == p0.len(),
            a + n <= b,
            b + n <= p0.len(),
            p@.len() == p0.len(),
            forall|k: int| 0 <= k < a ==> #[trigger] p@[k] == p0[k],
            forall|k: int| a <= k < a + i ==> #[trigger] p@[k] == p0[k - a + b],
            forall|k: int| a + i <= k < b ==> #[trigger] p@[k] == p0[k],
            forall|k: int| b <= k < b + i ==> #[trigger] p@[k] == p0[k - b + a],
            forall|k: int| b + i <= k < p0.len() ==> #[trigger] p@[k] == p0[k],
        decreases n - i,
    {
        let x = p[a + i];
        let y = p[b + i];
        p.set(a + i, y);
        p.set(b + i, x);
        i += 1;
    }
    assert(p@ =~= swap_ranges(p0, a as int, b as int, n as int));
}

/// Swaps the MAC addresses and sends the frame back out.
pub fn swap_mac_and_send(p: &mut Vec<u8>) -> (r: i32)
    requires
        old(p)@.len() >= 12,
    ensures
        r == XDP_TX,
        final(p)@ == swap_macs(old(p)@),
{
    let ghost p0 = p@;
    swap_bytes(p, 0, 6, 6);
    assert(swap_ranges(p0, 0, 6, 6) =~= swap_macs(p0));
    XDP_TX
}

/// Answers an ICMP echo request in place.
pub fn send_icmp_reply(p: &mut Vec<u8>) -> (r: i32)
    ensures
        (r, final(p)@) == spec_echo_reply4(old(p)@),
{
    if p.len() < 42 {
        return XDP_DROP;
    }
    let ghost p0 = p@;
    p.set(34, 0);
    let c = get_le16(p.as_slice(), 36).wrapping_add(7);
    set_le16(p, 36, c);
    p.set(22, 4);
    swap_bytes(p, 26, 30, 4);
    p.set(24, 0);
    p.set(25, 0);
    assert(p@ =~= echo4_reply_nocheck(p0));
    let check = ipv4_check_at(p.as_slice(), 14);
    set_le16(p, 24, check);
    swap_mac_and_send(p)
}

/// Answers an ICMPv6 echo request in place.
pub fn send_icmp6_reply(p: &mut Vec<u8>) -> (r: i32)
    ensures
        (r, final(p)@) == spec_echo_reply6(old(p)@),
{
    if p.len() < 62 {
        return XDP_DROP;
    }
    let ghost p0 = p@;
    p.set(54, 129);
    let c = get_le16(p.as_slice(), 56).wrapping_sub(1);
    set_le16(p, 56, c);
    p.set(21, 4);
    swap_bytes(p, 22, 38, 16);
    assert(p@ =~= echo6_reply_body(p0));
    swap_mac_and_send(p)
}

/// Handles an ICMPv6 header at `off`: answers echo requests, passes
/// anything but "destination unreachable", and takes the flow from the
/// quoted packet of such an error.
pub fn parse_icmpv6(p: &mut Vec<u8>, off: u64, pckt: &mut PacketDescription) -> (r: i32)
    requires
        off <= 0x20_0000,
    ensures
        (r, final(p)@, *final(pckt)) == spec_parse_err6_at(old(p)@, off, *old(pckt)),
{
    let off = off_usize(off);
    if off + 8 > p.len() {
        return XDP_DROP;
    }
    if p[off] == 128 {
        return send_icmp6_reply(p);
    }
    if p[off] != 3 {
        return XDP_PASS;
    }
    let off2 = off + 8;
    if off2 + 40 > p.len() {
        return XDP_DROP;
    }
    pckt.flow.proto = p[off2 + 6];
    pckt.flags = pckt.flags | F_ICMP;
    pckt.flow.src = read_words4(p.as_slice(), off2 + 24);
    pckt.flow.dst = read_words4(p.as_slice(), off2 + 8);
    -1
}

/// Handles an ICMP header at `off`: answers echo requests, passes anything
/// but "fragmentation needed", and takes the flow from the quoted packet of
/// such an error.
pub fn parse_icmp(p: &mut Vec<u8>, off: u64, pckt: &mut PacketDescription) -> (r: i32)
    requires
        off <= 0x20_0000,
    ensures
        (r, final(p)@, *final(pckt)) == spec_parse_err4_at(old(p)@, off, *old(pckt)),
{
    let off = off_usize(off);
    if off + 8 > p.len() {
        return XDP_DROP;
    }
    if p[off] == 8 {
        return send_icmp_reply(p);
    }
    let itype = p[off];
    let icode = p[off + 1];
    if itype != 3 || icode != 4 {
        return XDP_PASS;
    }
    let off2 = off + 8;
    if off2 + 20 > p.len() {
        return XDP_DROP;
    }
    if p[off2] & 0x0f != 5 {
        return XDP_DROP;
    }
    let ghost f = pckt.flow;
    pckt.flow.proto = p[off2 + 9];
    pckt.flags = pckt.flags | F_ICMP;
    pckt.flow.src[0] = get_le32(p.as_slice(), off2 + 16);
    pckt.flow.dst[0] = get_le32(p.as_slice(), off2 + 12);
    assert(pckt.flow.src =~= [le32(p@, off2 + 16), f.src[1], f.src[2], f.src[3]]);
    assert(pckt.flow.dst =~= [le32(p@, off2 + 12), f.dst[1], f.dst[2], f.dst[3]]);
    -1
}

/// Parses the IPv6 header at `off_in`.
pub fn process_l3_headers_v6(pckt: &mut PacketDescription, off_in: u64, pkt_bytes: &mut u16, p: &mut Vec<u8>) -> (r: i32)
    requires
        off_in <= 0x10_0000,
    ensures
        (r, final(p)@, *final(pckt), *final(pkt_bytes)) == spec_l3_v6_at(old(p)@, off_in, *old(pckt), *old(pkt_bytes)),
{
    let off0 = off_usize(off_in);
    if off0 + 40 > p.len() {
        return XDP_DROP;
    }
    let off = off_in + 40;
    let protocol = p[off0 + 6];
    pckt.flow.proto = protocol;
    *pkt_bytes = get_unaligned_be16(p.as_slice(), off0 + 4);
    if protocol == 45 {
        return XDP_DROP;
    } else if protocol == 59 {
        let action = parse_icmpv6(p, off, pckt);
        if action >= 0 {
            return action;
        }
    } else {
        pckt.flow.src = read_words4(p.as_slice(), off0 + 8);
        pckt.flow.dst = read_words4(p.as_slice(), off0 + 24);
    }
    -1
}

/// Parses the IPv4 header at `off_in`: options, fragments and a wrong
/// header length are dropped.
pub fn process_l3_headers_v4(pckt: &mut PacketDescription, off_in: u64, pkt_bytes: &mut u16, p: &mut Vec<u8>) -> (r: i32)
    requires
        off_in <= 0x10_0000,
    ensures
        (r, final(p)@, *final(pckt), *final(pkt_bytes)) == spec_l3_v4_at(old(p)@, off_in, *old(pckt), *old(pkt_bytes)),
{
    let off0 = off_usize(off_in);
    if off0 + 20 > p.len() {
        return XDP_DROP;
    }
    if p[off0] & 0x0f != 5 {
        return XDP_DROP;
    }
    let protocol = p[off0 + 9];
    pckt.flow.proto = protocol;
    *pkt_bytes = get_unaligned_be16(p.as_slice(), off0 + 2);
    let off = off_in + 20;
    if get_le16(p.as_slice(), off0 + 6) & PCKT_FRAGMENTED != 0 {
        return XDP_DROP;
    }
    if protocol == IPPROTO_ICMP {
        let action = parse_icmp(p, off, pckt);
        if action >= 0 {
            return action;
        }
    } else {
        let ghost f = pckt.flow;
        pckt.flow.src[0] = get_le32(p.as_slice(), off0 + 12);
        pckt.flow.dst[0] = get_le32(p.as_slice(), off0 + 16);
        assert(pckt.flow.src =~= [le32(p@, off0 + 12), f.src[1], f.src[2], f.src[3]]);
        assert(pckt.flow.dst =~= [le32(p@, off0 + 16), f.dst[1], f.dst[2], f.dst[3]]);
    }
    -1
}

// ---------------------------------------------------------------------
// Tables
// ---------------------------------------------------------------------

/// Key of the virtual-IP table.
#[derive(Clone, Copy)]
pub struct VipDefinition {
    pub vip: [u32; 4],
    pub port: u16,
    pub family: u16,
    pub proto: u8,
}

/// What the virtual-IP table holds: flag bits and the virtual IP's number.
#[derive(Clone, Copy)]
pub struct VipMeta {
    pub flags: u32,
    pub vip_num: u32,
}

/// A connection-table entry: position of the real and last access time.
#[derive(Clone, Copy)]
pub struct RealPosLru {
    pub pos: u32,
    pub atime: u64,
}

/// A backend: its address (an IPv4 address is the first word) and flags
/// (bit 0: reached over IPv6).
#[derive(Clone, Copy)]
pub struct RealDefinition {
    pub addr: [u32; 4],
    pub flags: u8,
}

/// A pair of counters.
#[derive(Clone, Copy)]
pub struct LbStats {
    pub v2: u64,
    pub v1: u64,
}

/// A control value: the MAC address of the next hop.
#[derive(Clone, Copy)]
pub struct CtlValue {
    pub mac: [u8; 6],
}

/// The balancer's tables.  The hash tables are lists of (key, value) pairs
/// whose keys occur once; the array tables are indexed by their key.
pub struct LbMaps {
    pub vip_map: Vec<(VipDefinition, VipMeta)>,
    pub lru_cache: Vec<(FlowKey, RealPosLru)>,
    pub ch_rings: Vec<u32>,
    pub reals: Vec<RealDefinition>,
    pub stats: Vec<LbStats>,
    pub ctl_array: Vec<CtlValue>,
}

/// The contents of the tables.
pub struct LbModel {
    pub vip_map: Seq<(VipDefinition, VipMeta)>,
    pub lru: Seq<(FlowKey, RealPosLru)>,
    pub ch_rings: Seq<u32>,
    pub reals: Seq<RealDefinition>,
    pub stats: Seq<LbStats>,
    pub ctl: Seq<CtlValue>,
}

impl View for LbMaps {
    type V = LbModel;

    open spec fn view(&self) -> LbModel {
        LbModel {
            vip_map: self.vip_map@,
            lru: self.lru_cache@,
            ch_rings: self.ch_rings@,
            reals: self.reals@,
            stats: self.stats@,
            ctl: self.ctl_array@,
        }
    }
}

/// What the program learns from outside: the clock as the connection table
/// and the backend choice read it, whether the kernel grants the head room
/// an encapsulation asks for, and the two bytes the new room holds where the
/// outer IPv4 identification field lies (never written).
#[derive(Clone, Copy)]
pub struct LbEnv {
    pub now_lookup: u64,
    pub now_dst: u64,
    pub head_room: bool,
    pub stale_id: u16,
}

/// Position of the first pair whose key is `k`, or -1.
pub open spec fn assoc_index<K, V>(s: Seq<(K, V)>, k: K) -> int
    decreases s.len(),
{
    if s.len() == 0 {
        -1
    } else if s[0].0 == k {
        0
    } else {
        let j = assoc_index(s.drop_first(), k);
        if j < 0 { -1 } else { j + 1 }
    }
}

/// The value of the first pair whose key is `k`.
pub open spec fn assoc_get<K, V>(s: Seq<(K, V)>, k: K) -> Option<V> {
    let i = assoc_index(s, k);
    if i < 0 { None } else { Some(s[i].1) }
}

/// `s` with the value of `k` set to `v` (appended if `k` is new).
pub open spec fn assoc_put<K, V>(s: Seq<(K, V)>, k: K, v: V) -> Seq<(K, V)> {
    let i = assoc_index(s, k);
    if i < 0 { s.push((k, v)) } else { s.update(i, (k, v)) }
}

/// An array table read: nothing past its end.
pub open spec fn array_get<T>(s: Seq<T>, k: u32) -> Option<T> {
    if k < s.len() { Some(s[k as int]) } else { None }
}

/// Where the first match lies: before it no key is `k`.
pub proof fn lemma_assoc_index<K, V>(s: Seq<(K, V)>, k: K)
    ensures
        -1 <= assoc_index(s, k) < s.len(),
        assoc_index(s, k) >= 0 ==> s[assoc_index(s, k)].0 == k,
        forall|j: int| 0 <= j < s.len() && (assoc_index(s, k) < 0 || j < assoc_index(s, k)) ==> s[j].0 != k,
    decreases s.len(),
{
    if s.len() > 0 && s[0].0 != k {
        lemma_assoc_index(s.drop_first(), k);
        assert forall|j: int| 0 <= j < s.len() && (assoc_index(s, k) < 0 || j < assoc_index(s, k)) implies s[j].0 != k by {
            if j > 0 {
                assert(s[j] == s.drop_first()[j - 1]);
            }
        }
    }
}

/// A position holding the first match is what `assoc_index` finds.
pub proof fn lemma_assoc_index_at<K, V>(s: Seq<(K, V)>, k: K, i: int)
    requires
        0 <= i < s.len(),
        s[i].0 == k,
        forall|j: int| 0 <= j < i ==> s[j].0 != k,
    ensures
        assoc_index(s, k) == i,
    decreases s.len(),
{
    if i > 0 {
        assert forall|j: int| 0 <= j < i - 1 implies s.drop_first()[j].0 != k by {
            assert(s.drop_first()[j] == s[j + 1]);
        }
        lemma_assoc_index_at(s.drop_first(), k, i - 1);
    }
}

/// No position holds `k`: `assoc_index` finds nothing.
pub proof fn lemma_assoc_index_none<K, V>(s: Seq<(K, V)>, k: K)
    requires
        forall|j: int| 0 <= j < s.len() ==> s[j].0 != k,
    ensures
        assoc_index(s, k) == -1,
    decreases s.len(),
{
    if s.len() > 0 {
        assert forall|j: int| 0 <= j < s.len() - 1 implies s.drop_first()[j].0 != k by {
            assert(s.drop_first()[j] == s[j + 1]);
        }
        lemma_assoc_index_none(s.drop_first(), k);
    }
}

/// Table law: a read after a write of the same key gives the value
/// written.
pub proof fn lemma_assoc_get_put<K, V>(s: Seq<(K, V)>, k: K, v: V)
    ensures
        assoc_get(assoc_put(s, k, v), k) == Some(v),
{
    lemma_assoc_index(s, k);
    let t = assoc_put(s, k, v);
    let i = assoc_index(s, k);
    if i < 0 {
        assert forall|j: int| 0 <= j < s.len() implies t[j].0 != k by {}
        lemma_assoc_index_at(t, k, s.len() as int);
    } else {
        lemma_assoc_index_at(t, k, i);
    }
}

/// Table law: a write of one key leaves the reads of every other key alone.
pub proof fn lemma_assoc_get_put_other<K, V>(s: Seq<(K, V)>, k: K, v: V, k2: K)
    requires
        k != k2,
    ensures
        assoc_get(assoc_put(s, k, v), k2) == assoc_get(s, k2),
{
    lemma_assoc_index(s, k);
    lemma_assoc_index(s, k2);
    let t = assoc_put(s, k, v);
    let i2 = assoc_index(s, k2);
    if i2 < 0 {
        assert forall|j: int| 0 <= j < t.len() implies t[j].0 != k2 by {
            if j < s.len() && j != assoc_index(s, k) {
                assert(t[j] == s[j]);
            }
        }
        lemma_assoc_index_none(t, k2);
    } else {
        assert forall|j: int| 0 <= j < i2 implies t[j].0 != k2 by {
            if j != assoc_index(s, k) {
                assert(t[j] == s[j]);
            }
        }
        lemma_assoc_index_at(t, k2, i2);
    }
}

/// Keys that tell whether they are equal.
pub trait TableKey: Sized + Copy {
    fn same_key(&self, other: &Self) -> (r: bool)
        ensures
            r == (*self == *other),
    ;
}

impl TableKey for FlowKey {
    fn same_key(&self, other: &Self) -> (r: bool) {
        let r = self.src[0] == other.src[0] && self.src[1] == other.src[1] && self.src[2] == other.src[2]
            && self.src[3] == other.src[3] && self.dst[0] == other.dst[0] && self.dst[1] == other.dst[1]
            && self.dst[2] == other.dst[2] && self.dst[3] == other.dst[3] && self.ports[0] == other.ports[0]
            && self.ports[1] == other.ports[1] && self.proto == other.proto;
        if r {
            assert(self.src =~= other.src);
            assert(self.dst =~= other.dst);
            assert(self.ports =~= other.ports);
        }
        r
    }
}

impl TableKey for VipDefinition {
    fn same_key(&self, other: &Self) -> (r: bool) {
        let r = self.vip[0] == other.vip[0] && self.vip[1] == other.vip[1] && self.vip[2] == other.vip[2]
            && self.vip[3] == other.vip[3] && self.port == other.port && self.family == other.family
            && self.proto == other.proto;
        if r {
            assert(self.vip =~= other.vip);
        }
        r
    }
}

/// Position of the first pair whose key is `k`.
pub fn assoc_find<K: TableKey, V>(s: &Vec<(K, V)>, k: &K) -> (r: Option<usize>)
    ensures
        match r {
            Some(i) => assoc_index(s@, *k) == i && i < s@.len() && s@[i as int].0 == *k,
            None => assoc_index(s@, *k) == -1,
        },
{
    let n = s.len();
    let mut i: usize = 0;
    while i < n
        invariant
            i <= n == s@.len(),
            forall|j: int| 0 <= j < i ==> s@[j].0 != *k,
        decreases n - i,
    {
        if s[i].0.same_key(k) {
            proof {
                lemma_assoc_index_at(s@, *k, i as int);
            }
            return Some(i);
        }
        i += 1;
    }
    proof {
        lemma_assoc_index_none(s@, *k);
    }
    None
}

/// Sets the value of `k` (appending a pair if `k` is new).
pub fn assoc_update<K: TableKey, V>(s: &mut Vec<(K, V)>, k: K, v: V)
    ensures
        final(s)@ == assoc_put(old(s)@, k, v),
{
    match assoc_find(s, &k) {
        Some(i) => {
            s.set(i, (k, v));
        },
        None => {
            s.push((k, v));
        },
    }
}

fn array_read<T: Copy>(s: &Vec<T>, k: u32) -> (r: Option<T>)
    ensures
        r == array_get(s@, k),
{
    if (k as usize) < s.len() && k as u64 <= usize::MAX as u64 {
        Some(s[k as usize])
    } else {
        None
    }
}

// ---------------------------------------------------------------------
// Choosing the backend
// ---------------------------------------------------------------------

/// The ports as one raw word.
pub open spec fn ports_word(ports: [u16; 2]) -> u32 {
    (ports[0] + ports[1] * 0x10000) as u32
}

pub open spec fn spec_packet_hash(pk: PacketDescription, hash_16bytes: bool) -> u32 {
    if hash_16bytes {
        spec_jhash_2words(spec_jhash_16(pk.flow.src@, 12), ports_word(pk.flow.ports), 24)
    } else {
        spec_jhash_2words(pk.flow.src[0], ports_word(pk.flow.ports), 24)
    }
}

/// The flow as the backend choice sees it: with vip flag bit 3, the source
/// port becomes the destination port and the source address is cleared.
pub open spec fn dst_flow(pk: PacketDescription, vip: VipMeta) -> PacketDescription {
    if vip.flags & 8 != 0 {
        PacketDescription {
            flow: FlowKey { ports: [pk.flow.ports[1], pk.flow.ports[1]], src: [0u32, 0u32, 0u32, 0u32], ..pk.flow },
            ..pk
        }
    } else {
        pk
    }
}

/// The ring slot of a hash.
pub open spec fn ring_key(vip_num: u32, hash: u32) -> u32 {
    vstd::wrapping::u32_specs::wrapping_add(vstd::wrapping::u32_specs::wrapping_mul(2, vip_num), hash % 2)
}

/// The hashes the ring lookup accepts.
pub open spec fn hash_accepted(hash: u32) -> bool {
    hash == 0x358459b7 || hash == 0x2f4bc6bb
}

/// The connection-rate counter after a new connection at `now`, and
/// whether that connection is recorded in the connection table.
pub open spec fn rate_step(st: LbStats, now: u64) -> (LbStats, bool) {
    if (vstd::wrapping::u64_specs::wrapping_sub(now, st.v2) >> 32) > 0xffffff {
        (LbStats { v1: 1, v2: now }, true)
    } else {
        let v1 = vstd::wrapping::u64_specs::wrapping_add(st.v1, 1);
        (LbStats { v1, ..st }, v1 < 1)
    }
}

/// The connection-table entry recorded for a flow sent to ring position
/// `pos` at `now` (UDP flows keep their access time).
pub open spec fn new_lru_entry(pk: PacketDescription, pos: u32, now: u64) -> RealPosLru {
    RealPosLru { pos, atime: if pk.flow.proto == IPPROTO_UDP { now } else { 0 } }
}

/// Backend of a new flow: the ring slot of the flow's hash names the real;
/// unless the virtual IP opts out, the connection is counted and possibly
/// recorded in the connection table.
pub open spec fn spec_get_packet_dst(pk: PacketDescription, vip: VipMeta, is_ipv6: bool, m: LbModel, now: u64) -> (Option<RealDefinition>, PacketDescription, LbModel) {
    let hash_16bytes = is_ipv6 || vip.flags & 4 != 0;
    let pk1 = dst_flow(pk, vip);
    let hash = spec_packet_hash(pk1, hash_16bytes);
    if !hash_accepted(hash) {
        (None, pk1, m)
    } else {
        match array_get(m.ch_rings, ring_key(vip.vip_num, hash)) {
            None => (None, pk1, m),
            Some(pos) => match array_get(m.reals, pos) {
                None => (None, pk1, m),
                Some(rd) => if vip.flags & 2 != 0 {
                    (Some(rd), pk1, m)
                } else {
                    match array_get(m.stats, 514) {
                        None => (Some(rd), pk1, m),
                        Some(st) => {
                            let (st1, record) = rate_step(st, now);
                            let m1 = LbModel { stats: m.stats.update(514, st1), ..m };
                            if record {
                                (Some(rd), pk1, LbModel { lru: assoc_put(m1.lru, pk1.flow, new_lru_entry(pk1, pos, now)), ..m1 })
                            } else {
                                (Some(rd), pk1, m1)
                            }
                        },
                    }
                },
            },
        }
    }
}

/// Backend of a known flow: the connection table names the real; a UDP
/// entry idle for more than 300000 ns has expired, else it is refreshed.
pub open spec fn spec_conn_lookup(pk: PacketDescription, m: LbModel, now: u64) -> (Option<RealDefinition>, LbModel) {
    match assoc_get(m.lru, pk.flow) {
        None => (None, m),
        Some(e) => if pk.flow.proto == IPPROTO_UDP {
            if vstd::wrapping::u64_specs::wrapping_sub(now, e.atime) > 300000 {
                (None, m)
            } else {
                (array_get(m.reals, e.pos), LbModel { lru: assoc_put(m.lru, pk.flow, RealPosLru { atime: now, ..e }), ..m })
            }
        } else {
            (array_get(m.reals, e.pos), m)
        },
    }
}

/// The flow's hash: of the source address (all 16 bytes when asked) and
/// the ports.
pub fn get_packet_hash(pckt: &PacketDescription, hash_16bytes: bool) -> (r: u32)
    ensures
        r == spec_packet_hash(*pckt, hash_16bytes),
{
    let ports = pckt.flow.ports[0] as u32 + (pckt.flow.ports[1] as u32) * 0x10000;
    if hash_16bytes {
        let inner = jhash_16(&pckt.flow.src, 12);
        jhash_2words(inner, ports, 24)
    } else {
        jhash_2words(pckt.flow.src[0], ports, 24)
    }
}

/// Chooses the backend of a new flow (see [`spec_get_packet_dst`]).
pub fn get_packet_dst(pckt: &mut PacketDescription, vip_info: &VipMeta, is_ipv6: bool, maps: &mut LbMaps, now: u64) -> (r: Option<RealDefinition>)
    ensures
        (r, *final(pckt), final(maps)@) == spec_get_packet_dst(*old(pckt), *vip_info, is_ipv6, old(maps)@, now),
{
    let mut hash_16bytes = is_ipv6;
    if vip_info.flags & 4 != 0 {
        hash_16bytes = true;
    }
    if vip_info.flags & 8 != 0 {
        pckt.flow.ports = [pckt.flow.ports[1], pckt.flow.ports[1]];
        pckt.flow.src = [0, 0, 0, 0];
    }
    let hash = get_packet_hash(pckt, hash_16bytes);
    if hash != 0x358459b7 && hash != 0x2f4bc6bb {
        return None;
    }
    let key = 2u32.wrapping_mul(vip_info.vip_num).wrapping_add(hash % 2);
    let pos = match array_read(&maps.ch_rings, key) {
        None => {
            return None;
        },
        Some(pos) => pos,
    };
    let rd = match array_read(&maps.reals, pos) {
        None => {
            return None;
        },
        Some(rd) => rd,
    };
    if vip_info.flags & 2 == 0 {
        if maps.stats.len() <= 514 {
            return Some(rd);
        }
        let st = maps.stats[514];
        let mut st1 = st;
        let record;
        if (now.wrapping_sub(st.v2)) >> 32 > 0xffffff {
            st1.v1 = 1;
            st1.v2 = now;
            record = true;
        } else {
            st1.v1 = st.v1.wrapping_add(1);
            record = st1.v1 < 1;
        }
        maps.stats.set(514, st1);
        if !record {
            return Some(rd);
        }
        let atime = if pckt.flow.proto == IPPROTO_UDP { now } else { 0 };
        assoc_update(&mut maps.lru_cache, pckt.flow, RealPosLru { pos, atime });
    }
    Some(rd)
}

/// Finds the backend of a known flow (see [`spec_conn_lookup`]).
pub fn connection_table_lookup(pckt: &mut PacketDescription, maps: &mut LbMaps, now: u64) -> (r: Option<RealDefinition>)
    ensures
        *final(pckt) == *old(pckt),
        (r, final(maps)@) == spec_conn_lookup(*old(pckt), old(maps)@, now),
{
    let i = match assoc_find(&maps.lru_cache, &pckt.flow) {
        None => {
            return None;
        },
        Some(i) => i,
    };
    let e = maps.lru_cache[i].1;
    if pckt.flow.proto == IPPROTO_UDP {
        if now.wrapping_sub(e.atime) > 300000 {
            return None;
        }
        maps.lru_cache.set(i, (pckt.flow, RealPosLru { pos: e.pos, atime: now }));
    }
    array_read(&maps.reals, e.pos)
}

// ---------------------------------------------------------------------
// Encapsulation
// ---------------------------------------------------------------------

/// Outer IPv4 source address: derived from the source port and address of
/// the flow, and the real's address.
pub open spec fn encap4_saddr(pk: PacketDescription, dst: RealDefinition) -> u32 {
    let sfx = ((bswap16(pk.flow.ports[0]) as u32) << 15u32) ^ pk.flow.src[0];
    ((0xFFFF_0000u32 & sfx) | 4268u32) ^ dst.addr[0]
}

/// The outer IPv4 header before its checksum.  It is written into the 20
/// bytes before the frame, over the old Ethernet header; its destination
/// is left as it was there (bytes 10..14 of the frame); `stale_id` is what
/// the room held at the identification field.
pub open spec fn encap4_header(p: Seq<u8>, pk: PacketDescription, dst: RealDefinition, nb: u16, stale_id: u16) -> Seq<u8> {
    seq![0x45u8, 1u8] + be16_bytes(vstd::wrapping::u16_specs::wrapping_add(nb, 20)) + le16_bytes(stale_id)
        + seq![0u8, 0u8, 4u8, IPPROTO_IPIP, 0u8, 0u8] + le32_bytes(encap4_saddr(pk, dst)) + p.subrange(10, 14)
}

/// The frame after the IPv4 encapsulation: the head is moved back 20
/// bytes, the header written, and the head moved forward again, so the
/// frame keeps its length and starts with the last 14 bytes of the header.
pub open spec fn spec_encap_v4(p: Seq<u8>, pk: PacketDescription, dst: RealDefinition, nb: u16, env: LbEnv) -> Option<Seq<u8>> {
    if !env.head_room {
        None
    } else {
        let h = encap4_header(p, pk, dst, nb, env.stale_id);
        Some(splice(h, 10, le16_bytes(spec_ipv4_check(h))).skip(6) + p.skip(14))
    }
}

/// Outer IPv6 source address: 1, 2, 3 and a word of the flow.
pub open spec fn encap6_saddr(pk: PacketDescription) -> Seq<u8> {
    le32_bytes(1) + le32_bytes(2) + le32_bytes(3) + le32_bytes(pk.flow.src[3] ^ (pk.flow.ports[0] as u32))
}

/// The frame after the IPv6 encapsulation: a new Ethernet header toward
/// the control MAC, and an IPv6 header toward the real.
pub open spec fn spec_encap_v6(p: Seq<u8>, cval: CtlValue, pk: PacketDescription, dst: RealDefinition, nb: u16, env: LbEnv) -> Option<Seq<u8>> {
    if !env.head_room {
        None
    } else {
        Some(cval.mac@ + p.subrange(0, 6) + seq![0x86u8, 0xddu8, 0x60u8, 0u8, 0u8, 0u8]
            + be16_bytes(vstd::wrapping::u16_specs::wrapping_add(nb, 40)) + seq![IPPROTO_IPV6, 4u8] + encap6_saddr(pk)
            + words_bytes(dst.addr@) + p.skip(14))
    }
}

/// Wraps the frame in IPv4 toward the real (see [`spec_encap_v4`]); fails
/// if the kernel grants no head room.
pub fn encap_v4(p: &mut Vec<u8>, cval: &CtlValue, pckt: &PacketDescription, dst: &RealDefinition, pkt_bytes: u16, env: &LbEnv) -> (r: bool)
    requires
        old(p)@.len() >= 14,
    ensures
        r == spec_encap_v4(old(p)@, *pckt, *dst, pkt_bytes, *env) is Some,
        r ==> final(p)@ == spec_encap_v4(old(p)@, *pckt, *dst, pkt_bytes, *env).unwrap(),
        !r ==> final(p)@ == old(p)@,
{
    let mut ip_suffix = ntohs(pckt.flow.ports[0]) as u32;
    ip_suffix = ip_suffix << 15u32;
    ip_suffix = ip_suffix ^ pckt.flow.src[0];
    if !env.head_room {
        return false;
    }
    let saddr = ((0xFFFF_0000u32 & ip_suffix) | 4268u32) ^ dst.addr[0];
    let mut iph: Vec<u8> = Vec::new();
    iph.push(0x45);
    iph.push(1);
    push_be16(&mut iph, pkt_bytes.wrapping_add(20));
    push_le16(&mut iph, env.stale_id);
    iph.push(0);
    iph.push(0);
    iph.push(4);
    iph.push(IPPROTO_IPIP);
    iph.push(0);
    iph.push(0);
    push_le32(&mut iph, saddr);
    push_range(&mut iph, p.as_slice(), 10, 14);
    assert(iph@ =~= encap4_header(p@, *pckt, *dst, pkt_bytes, env.stale_id));
    let check = ipv4_check_at(iph.as_slice(), 0);
    assert(iph@.skip(0) =~= iph@);
    set_le16(&mut iph, 10, check);
    let mut out: Vec<u8> = Vec::new();
    push_range(&mut out, iph.as_slice(), 6, 20);
    push_range(&mut out, p.as_slice(), 14, p.len());
    assert(out@ =~= spec_encap_v4(p@, *pckt, *dst, pkt_bytes, *env).unwrap());
    *p = out;
    true
}

/// Wraps the frame in IPv6 toward the real (see [`spec_encap_v6`]); fails
/// if the kernel grants no head room.
pub fn encap_v6(p: &mut Vec<u8>, cval: &CtlValue, pckt: &PacketDescription, dst: &RealDefinition, pkt_bytes: u16, env: &LbEnv) -> (r: bool)
    requires
        old(p)@.len() >= 14,
    ensures
        r == spec_encap_v6(old(p)@, *cval, *pckt, *dst, pkt_bytes, *env) is Some,
        r ==> final(p)@ == spec_encap_v6(old(p)@, *cval, *pckt, *dst, pkt_bytes, *env).unwrap(),
        !r ==> final(p)@ == old(p)@,
{
    if !env.head_room {
        return false;
    }
    let mut out: Vec<u8> = Vec::new();
    let mut i: usize = 0;
    while i < 6
        invariant
            i <= 6,
            out@ == cval.mac@.take(i as int),
        decreases 6 - i,
    {
        out.push(cval.mac[i]);
        i += 1;
        assert(out@ =~= cval.mac@.take(i as int));
    }
    assert(cval.mac@.take(6) =~= cval.mac@);
    push_range(&mut out, p.as_slice(), 0, 6);
    out.push(0x86);
    out.push(0xdd);
    out.push(0x60);
    out.push(0);
    out.push(0);
    out.push(0);
    push_be16(&mut out, pkt_bytes.wrapping_add(40));
    out.push(IPPROTO_IPV6);
    out.push(4);
    let ip_suffix = pckt.flow.src[3] ^ (pckt.flow.ports[0] as u32);
    push_le32(&mut out, 1);
    push_le32(&mut out, 2);
    push_le32(&mut out, 3);
    push_le32(&mut out, ip_suffix);
    push_le32(&mut out, dst.addr[0]);
    push_le32(&mut out, dst.addr[1]);
    push_le32(&mut out, dst.addr[2]);
    push_le32(&mut out, dst.addr[3]);
    push_range(&mut out, p.as_slice(), 14, p.len());
    assert(out@ =~= spec_encap_v6(p@, *cval, *pckt, *dst, pkt_bytes, *env).unwrap());
    *p = out;
    true
}

// ---------------------------------------------------------------------
// The whole program
// ---------------------------------------------------------------------

/// Network and transport parsing from the all-zero description: action
/// (-1: go on), packet, description, payload length.  Transport protocols
/// other than TCP and UDP are sent back as they are.
pub open spec fn spec_parse_packet(p: Seq<u8>, is_ipv6: bool) -> (i32, Seq<u8>, PacketDescription, u16) {
    let (a, q, pk, nb) = if is_ipv6 { spec_l3_v6(p, 14, zero_pckt(), 0) } else { spec_l3_v4(p, 14, zero_pckt(), 0) };
    if a >= 0 {
        (a, q, pk, nb)
    } else if pk.flow.proto == IPPROTO_TCP {
        match spec_parse_tcp(q, is_ipv6, pk) {
            None => (XDP_DROP, q, pk, nb),
            Some(pk2) => (-1i32, q, pk2, nb),
        }
    } else if pk.flow.proto == IPPROTO_UDP {
        match spec_parse_udp(q, is_ipv6, pk) {
            None => (XDP_DROP, q, pk, nb),
            Some(pk2) => (-1i32, q, pk2, nb),
        }
    } else {
        (XDP_TX, q, pk, nb)
    }
}

/// Key of the virtual IP a flow is sent to.
pub open spec fn vip_key(pk: PacketDescription, is_ipv6: bool, port: u16) -> VipDefinition {
    VipDefinition {
        vip: if is_ipv6 { pk.flow.dst } else { [pk.flow.dst[0], 0u32, 0u32, 0u32] },
        port,
        family: 0,
        proto: pk.flow.proto,
    }
}

/// The virtual IP of a flow: by address and port, else by address alone
/// (then, unless flag bit 4 is set, the flow's destination port is
/// cleared).
pub open spec fn spec_vip_lookup(pk: PacketDescription, is_ipv6: bool, m: LbModel) -> Option<(VipMeta, PacketDescription)> {
    match assoc_get(m.vip_map, vip_key(pk, is_ipv6, pk.flow.ports[1])) {
        Some(v) => Some((v, pk)),
        None => match assoc_get(m.vip_map, vip_key(pk, is_ipv6, 0)) {
            None => None,
            Some(v) => Some((v, if v.flags & 16 == 0 { with_ports(pk, [pk.flow.ports[0], 0u16]) } else { pk })),
        },
    }
}

pub open spec fn bump_v1(st: LbStats) -> LbStats {
    LbStats { v1: vstd::wrapping::u64_specs::wrapping_add(st.v1, 1), ..st }
}

pub open spec fn bump_v2(st: LbStats) -> LbStats {
    LbStats { v2: vstd::wrapping::u64_specs::wrapping_add(st.v2, 1), ..st }
}

pub open spec fn with_stat(m: LbModel, k: int, st: LbStats) -> LbModel {
    LbModel { stats: m.stats.update(k, st), ..m }
}

/// The real a flow goes to: from the connection table (not for SYNs, nor
/// where the virtual IP opts out), else a new choice, which is counted
/// (slot 513 for TCP by SYN, slot 512 for a choice made).
pub open spec fn spec_pick_real(pk: PacketDescription, vip: VipMeta, is_ipv6: bool, m: LbModel, env: LbEnv) -> (Option<(RealDefinition, PacketDescription)>, LbModel) {
    let pk1 = if vip.flags & 1 != 0 { with_ports(pk, [0u16, pk.flow.ports[1]]) } else { pk };
    let (d, m1) = if pk1.flags & F_SYN_SET == 0 && vip.flags & 2 == 0 {
        spec_conn_lookup(pk1, m, env.now_lookup)
    } else {
        (None, m)
    };
    match d {
        Some(rd) => (Some((rd, pk1)), m1),
        None => {
            let m2 = if pk1.flow.proto == IPPROTO_TCP {
                match array_get(m1.stats, 513) {
                    None => None,
                    Some(st) => Some(with_stat(m1, 513, if pk1.flags & F_SYN_SET != 0 { bump_v1(st) } else { bump_v2(st) })),
                }
            } else {
                Some(m1)
            };
            match m2 {
                None => (None, m1),
                Some(m2) => {
                    let (d2, pk2, m3) = spec_get_packet_dst(pk1, vip, is_ipv6, m2, env.now_dst);
                    match d2 {
                        None => (None, m3),
                        Some(rd) => (Some((rd, pk2)), with_stat(m3, 512, bump_v2(m3.stats[512]))),
                    }
                },
            }
        },
    }
}

/// Encapsulation toward the real and accounting; the program then drops
/// the frame in any case, having written the real's address over its first
/// four bytes.
pub open spec fn spec_finish(q: Seq<u8>, pk: PacketDescription, nb: u16, vip: VipMeta, rd: RealDefinition, m: LbModel, env: LbEnv) -> (i32, Seq<u8>, LbModel) {
    match array_get(m.ctl, 0) {
        None => (XDP_DROP, q, m),
        Some(cval) => {
            let e = if rd.flags & 1 != 0 { spec_encap_v6(q, cval, pk, rd, nb, env) } else { spec_encap_v4(q, pk, rd, nb, env) };
            match e {
                None => (XDP_DROP, q, m),
                Some(q2) => match array_get(m.stats, vip.vip_num) {
                    None => (XDP_DROP, q2, m),
                    Some(st) => {
                        let st1 = LbStats {
                            v1: vstd::wrapping::u64_specs::wrapping_add(st.v1, 1),
                            v2: vstd::wrapping::u64_specs::wrapping_add(st.v2, nb as u64),
                        };
                        let m1 = with_stat(m, vip.vip_num as int, st1);
                        if q2.len() < 4 {
                            (XDP_DROP, q2, m1)
                        } else {
                            (XDP_DROP, splice(q2, 0, le32_bytes(rd.addr[0])), m1)
                        }
                    },
                },
            }
        },
    }
}

/// The balancer on one frame: action, frame, tables.
pub open spec fn spec_process_packet(p: Seq<u8>, is_ipv6: bool, m: LbModel, env: LbEnv) -> (i32, Seq<u8>, LbModel) {
    let (a, q, pk, nb) = spec_parse_packet(p, is_ipv6);
    if a >= 0 {
        (a, q, m)
    } else {
        match spec_vip_lookup(pk, is_ipv6, m) {
            None => (XDP_PASS, q, m),
            Some((vip, pk1)) => if q.len() > 1400 {
                (XDP_DROP, q, m)
            } else {
                match array_get(m.stats, 512) {
                    None => (XDP_DROP, q, m),
                    Some(st) => {
                        let m1 = with_stat(m, 512, bump_v1(st));
                        let (d, m2) = spec_pick_real(pk1, vip, is_ipv6, m1, env);
                        match d {
                            None => (XDP_DROP, q, m2),
                            Some((rd, pk2)) => spec_finish(q, pk2, nb, vip, rd, m2, env),
                        }
                    },
                }
            },
        }
    }
}

fn parse_packet(p: &mut Vec<u8>, is_ipv6: bool, pckt: &mut PacketDescription, pkt_bytes: &mut u16) -> (r: i32)
    requires
        *old(pckt) == zero_pckt(),
        *old(pkt_bytes) == 0,
    ensures
        (r, final(p)@, *final(pckt), *final(pkt_bytes)) == spec_parse_packet(old(p)@, is_ipv6),
{
    let action = if is_ipv6 {
        process_l3_headers_v6(pckt, 14, pkt_bytes, p)
    } else {
        process_l3_headers_v4(pckt, 14, pkt_bytes, p)
    };
    if action >= 0 {
        return action;
    }
    let protocol = pckt.flow.proto;
    if protocol == IPPROTO_TCP {
        if !parse_tcp(p.as_slice(), is_ipv6, pckt) {
            return XDP_DROP;
        }
    } else if protocol == IPPROTO_UDP {
        if !parse_udp(p.as_slice(), is_ipv6, pckt) {
            return XDP_DROP;
        }
    } else {
        return XDP_TX;
    }
    -1
}

fn vip_lookup(pckt: &mut PacketDescription, is_ipv6: bool, maps: &LbMaps) -> (r: Option<VipMeta>)
    ensures
        match spec_vip_lookup(*old(pckt), is_ipv6, maps@) {
            None => r is None && *final(pckt) == *old(pckt),
            Some((v, pk)) => r == Some(v) && *final(pckt) == pk,
        },
{
    let vip_addr = if is_ipv6 { pckt.flow.dst } else { [pckt.flow.dst[0], 0, 0, 0] };
    let mut vip = VipDefinition { vip: vip_addr, port: pckt.flow.ports[1], family: 0, proto: pckt.flow.proto };
    assert(vip == vip_key(*pckt, is_ipv6, pckt.flow.ports[1]));
    match assoc_find(&maps.vip_map, &vip) {
        Some(i) => {
            return Some(maps.vip_map[i].1);
        },
        None => {},
    }
    vip.port = 0;
    match assoc_find(&maps.vip_map, &vip) {
        Some(i) => {
            let v = maps.vip_map[i].1;
            if v.flags & 16 == 0 {
                pckt.flow.ports = [pckt.flow.ports[0], 0];
            }
            Some(v)
        },
        None => None,
    }
}

fn pick_real(pckt: &mut PacketDescription, vip_info: &VipMeta, is_ipv6: bool, maps: &mut LbMaps, env: &LbEnv) -> (r: Option<RealDefinition>)
    requires
        old(maps)@.stats.len() > 512,
    ensures
        match spec_pick_real(*old(pckt), *vip_info, is_ipv6, old(maps)@, *env) {
            (None, m) => r is None && final(maps)@ == m,
            (Some((rd, pk)), m) => r == Some(rd) && *final(pckt) == pk && final(maps)@ == m,
        },
{
    if vip_info.flags & 1 != 0 {
        pckt.flow.ports = [0, pckt.flow.ports[1]];
    }
    let mut dst: Option<RealDefinition> = None;
    if pckt.flags & F_SYN_SET == 0 && vip_info.flags & 2 == 0 {
        dst = connection_table_lookup(pckt, maps, env.now_lookup);
    }
    match dst {
        Some(rd) => {
            return Some(rd);
        },
        None => {},
    }
    if pckt.flow.proto == IPPROTO_TCP {
        if maps.stats.len() <= 513 {
            return None;
        }
        let st = maps.stats[513];
        let mut st1 = st;
        if pckt.flags & F_SYN_SET != 0 {
            st1.v1 = st.v1.wrapping_add(1);
        } else {
            st1.v2 = st.v2.wrapping_add(1);
        }
        maps.stats.set(513, st1);
    }
    let d2 = get_packet_dst(pckt, vip_info, is_ipv6, maps, env.now_dst);
    match d2 {
        None => None,
        Some(rd) => {
            let mut st = maps.stats[512];
            st.v2 = st.v2.wrapping_add(1);
            maps.stats.set(512, st);
            Some(rd)
        },
    }
}

fn finish(p: &mut Vec<u8>, pckt: &PacketDescription, pkt_bytes: u16, vip_info: &VipMeta, rd: &RealDefinition, maps: &mut LbMaps, env: &LbEnv) -> (r: i32)
    requires
        old(p)@.len() >= 14,
    ensures
        (r, final(p)@, final(maps)@) == spec_finish(old(p)@, *pckt, pkt_bytes, *vip_info, *rd, old(maps)@, *env),
{
    if maps.ctl_array.len() == 0 {
        return XDP_DROP;
    }
    let cval = maps.ctl_array[0];
    let ok = if rd.flags & 1 != 0 {
        encap_v6(p, &cval, pckt, rd, pkt_bytes, env)
    } else {
        encap_v4(p, &cval, pckt, rd, pkt_bytes, env)
    };
    if !ok {
        return XDP_DROP;
    }
    let st = match array_read(&maps.stats, vip_info.vip_num) {
        None => {
            return XDP_DROP;
        },
        Some(st) => st,
    };
    let st1 = LbStats { v1: st.v1.wrapping_add(1), v2: st.v2.wrapping_add(pkt_bytes as u64) };
    maps.stats.set(vip_info.vip_num as usize, st1);
    if p.len() < 4 {
        return XDP_DROP;
    }
    set_le32(p, 0, rd.addr[0]);
    XDP_DROP
}

/// The balancer on one frame whose network header starts after the
/// Ethernet header (see [`spec_process_packet`]).
pub fn process_packet(p: &mut Vec<u8>, is_ipv6: bool, maps: &mut LbMaps, env: &LbEnv) -> (r: i32)
    ensures
        (r, final(p)@, final(maps)@) == spec_process_packet(old(p)@, is_ipv6, old(maps)@, *env),
{
    let mut pckt = PacketDescription::zeroed();
    let mut pkt_bytes: u16 = 0;
    let action = parse_packet(p, is_ipv6, &mut pckt, &mut pkt_bytes);
    if action >= 0 {
        return action;
    }
    let vip_info = match vip_lookup(&mut pckt, is_ipv6, maps) {
        None => {
            return XDP_PASS;
        },
        Some(v) => v,
    };
    if p.len() > 1400 {
        return XDP_DROP;
    }
    if maps.stats.len() <= 512 {
        return XDP_DROP;
    }
    let mut st = maps.stats[512];
    st.v1 = st.v1.wrapping_add(1);
    maps.stats.set(512, st);
    let rd = match pick_real(&mut pckt, &vip_info, is_ipv6, maps, env) {
        None => {
            return XDP_DROP;
        },
        Some(rd) => rd,
    };
    finish(p, &pckt, pkt_bytes, &vip_info, &rd, maps, env)
}

pub open spec fn spec_ingress(p: Seq<u8>, is_ipv6: bool, m: LbModel, env: LbEnv) -> (i32, Seq<u8>, LbModel) {
    if p.len() < 14 {
        (XDP_DROP, p, m)
    } else if be16(p, 12) != (if is_ipv6 { ETH_P_IPV6 } else { ETH_P_IP }) {
        (XDP_DROP, p, m)
    } else {
        spec_process_packet(p, is_ipv6, m, env)
    }
}

/// Entry point for IPv4 frames.
pub fn balancer_ingress_v4(p: &mut Vec<u8>, maps: &mut LbMaps, env: &LbEnv) -> (r: i32)
    ensures
        (r, final(p)@, final(maps)@) == spec_ingress(old(p)@, false, old(maps)@, *env),
{
    if p.len() < 14 {
        return XDP_DROP;
    }
    if get_unaligned_be16(p.as_slice(), 12) == ETH_P_IP {
        process_packet(p, false, maps, env)
    } else {
        XDP_DROP
    }
}

/// Entry point for IPv6 frames.
pub fn balancer_ingress_v6(p: &mut Vec<u8>, maps: &mut LbMaps, env: &LbEnv) -> (r: i32)
    ensures
        (r, final(p)@, final(maps)@) == spec_ingress(old(p)@, true, old(maps)@, *env),
{
    if p.len() < 14 {
        return XDP_DROP;
    }
    if get_unaligned_be16(p.as_slice(), 12) == ETH_P_IPV6 {
        process_packet(p, true, maps, env)
    } else {
        XDP_DROP
    }
}

// ---------------------------------------------------------------------
// Laws
// ---------------------------------------------------------------------

/// Whether choosing a real for a new flow records the flow in the
/// connection table: the choice succeeds, the virtual IP does not opt out,
/// and the connection-rate counter asks for it.
pub open spec fn dst_recorded(pk: PacketDescription, vip: VipMeta, is_ipv6: bool, m: LbModel, now: u64) -> bool {
    let pk1 = dst_flow(pk, vip);
    let hash = spec_packet_hash(pk1, is_ipv6 || vip.flags & 4 != 0);
    &&& hash_accepted(hash)
    &&& vip.flags & 2 == 0
    &&& match array_get(m.ch_rings, ring_key(vip.vip_num, hash)) {
        Some(pos) => array_get(m.reals, pos) is Some && match array_get(m.stats, 514) {
            Some(st) => rate_step(st, now).1,
            None => false,
        },
        None => false,
    }
}

/// Connection tracking: once a new flow's real has been chosen and
/// recorded, the connection table gives the same real for that flow; for
/// TCP at any later time, for UDP while the entry has not been idle for
/// more than 300000 ns.
pub proof fn lemma_chosen_real_is_remembered(pk: PacketDescription, vip: VipMeta, is_ipv6: bool, m: LbModel, now: u64, later: u64)
    requires
        dst_recorded(pk, vip, is_ipv6, m, now),
        dst_flow(pk, vip).flow.proto == IPPROTO_UDP ==> vstd::wrapping::u64_specs::wrapping_sub(later, now) <= 300000,
    ensures
        ({
            let (d, pk1, m1) = spec_get_packet_dst(pk, vip, is_ipv6, m, now);
            &&& d is Some
            &&& spec_conn_lookup(pk1, m1, later).0 == d
        }),
{
    let (d, pk1, m1) = spec_get_packet_dst(pk, vip, is_ipv6, m, now);
    let hash = spec_packet_hash(pk1, is_ipv6 || vip.flags & 4 != 0);
    let pos = array_get(m.ch_rings, ring_key(vip.vip_num, hash)).unwrap();
    let st = m.stats[514];
    let st1 = rate_step(st, now).0;
    let mid = LbModel { stats: m.stats.update(514, st1), ..m };
    lemma_assoc_get_put(mid.lru, pk1.flow, new_lru_entry(pk1, pos, now));
}

/// The network-layer step of the balancer on a frame, from the all-zero
/// description.
pub open spec fn spec_l3(p: Seq<u8>, is_ipv6: bool) -> (i32, Seq<u8>, PacketDescription, u16) {
    if is_ipv6 { spec_l3_v6(p, 14, zero_pckt(), 0) } else { spec_l3_v4(p, 14, zero_pckt(), 0) }
}

/// Port law of the parser: for a TCP or UDP frame that is not an ICMP
/// error, the flow's ports are the transport header's first 16-bit field
/// (the source port) then its second (the destination port), as stored,
/// the header lying right behind the 20-byte IPv4 or 40-byte IPv6 header.
/// For a quoted ICMP error, the fields of the transport header quoted
/// behind the ICMP and inner IP headers are taken the other way round, so
/// that the flow is the one the error answers.
pub proof fn lemma_parse_packet_ports(p: Seq<u8>, is_ipv6: bool)
    ensures
        ({
            let (a, q, pk, nb) = spec_parse_packet(p, is_ipv6);
            let l3 = if is_ipv6 { 54int } else { 34int };
            let lq = if is_ipv6 { 102int } else { 62int };
            let quoted = if is_ipv6 { p[20] == 59 } else { p[23] == IPPROTO_ICMP };
            &&& a < 0 ==> (pk.flow.proto == IPPROTO_TCP || pk.flow.proto == IPPROTO_UDP)
            &&& (a < 0 && !quoted) ==> pk.flow.ports[0] == le16(p, l3) && pk.flow.ports[1] == le16(p, l3 + 2)
                && pk.flow.proto == p[if is_ipv6 { 20int } else { 23int }]
            &&& (a < 0 && quoted) ==> pk.flow.ports[0] == le16(p, lq + 2) && pk.flow.ports[1] == le16(p, lq)
        }),
{
    assert(0u8 & 1u8 == 0u8) by (bit_vector);
    assert((0u8 | 1u8) & 1u8 != 0u8) by (bit_vector);
    let (a1, q1, pk1, nb1) = spec_l3(p, is_ipv6);
    let quoted = if is_ipv6 { p[20] == 59 } else { p[23] == IPPROTO_ICMP };
    if a1 < 0 {
        assert(q1 == p);
        assert(is_quoted_flow(pk1) == quoted);
        assert(spec_calc_offset(is_ipv6, is_quoted_flow(pk1)) == (if quoted {
            if is_ipv6 { 102int } else { 62int }
        } else {
            if is_ipv6 { 54int } else { 34int }
        }));
        assert(!quoted ==> pk1.flow.proto == p[if is_ipv6 { 20int } else { 23int }]);
    }
}

/// VIP lookup law: a flow finds a virtual IP exactly when the table holds
/// an entry for its destination address (for IPv4 the first word, the
/// others zero) and protocol whose port is the flow's destination port
/// (`ports[1]`) or 0; an entry for the exact port is the one taken, and
/// its metadata is what the lookup gives.
pub proof fn lemma_vip_lookup_by_destination(pk: PacketDescription, is_ipv6: bool, m: LbModel)
    ensures
        ({
            let addr = if is_ipv6 { pk.flow.dst } else { [pk.flow.dst[0], 0u32, 0u32, 0u32] };
            let exact = VipDefinition { vip: addr, port: pk.flow.ports[1], family: 0, proto: pk.flow.proto };
            let any = VipDefinition { vip: addr, port: 0, family: 0, proto: pk.flow.proto };
            &&& (spec_vip_lookup(pk, is_ipv6, m) is Some) <==> exists|i: int|
                0 <= i < m.vip_map.len() && (m.vip_map[i].0 == exact || m.vip_map[i].0 == any)
            &&& spec_vip_lookup(pk, is_ipv6, m) matches Some((v, _pk1)) ==> exists|i: int|
                0 <= i < m.vip_map.len() && (m.vip_map[i].0 == exact || m.vip_map[i].0 == any) && m.vip_map[i].1 == v
            &&& (exists|i: int| 0 <= i < m.vip_map.len() && m.vip_map[i].0 == exact) ==> (spec_vip_lookup(pk, is_ipv6, m)
                matches Some((v, pk1)) && pk1 == pk)
        }),
{
    let addr = if is_ipv6 { pk.flow.dst } else { [pk.flow.dst[0], 0u32, 0u32, 0u32] };
    let exact = VipDefinition { vip: addr, port: pk.flow.ports[1], family: 0, proto: pk.flow.proto };
    let any = VipDefinition { vip: addr, port: 0, family: 0, proto: pk.flow.proto };
    assert(vip_key(pk, is_ipv6, pk.flow.ports[1]) == exact);
    assert(vip_key(pk, is_ipv6, 0) == any);
    lemma_assoc_index(m.vip_map, exact);
    lemma_assoc_index(m.vip_map, any);
    let i1 = assoc_index(m.vip_map, exact);
    let i2 = assoc_index(m.vip_map, any);
    if i1 >= 0 {
        assert(m.vip_map[i1].0 == exact);
    } else if i2 >= 0 {
        assert(m.vip_map[i2].0 == any);
    }
}

/// Echo law: an ICMP echo request is answered to its sender.  The reply
/// to an IPv4 request (at least 42 bytes) is sent back (`XDP_TX`) with the
/// Ethernet addresses exchanged, the IP source and destination exchanged,
/// TTL 4, ICMP type 0 (echo reply), and the rest of the ICMP message
/// (identifier, sequence number, data) unchanged.  The reply to an IPv6
/// request (at least 62 bytes) likewise has the Ethernet and IPv6
/// addresses exchanged, hop limit 4 and ICMPv6 type 129.
pub proof fn lemma_echo_reply_addresses(p: Seq<u8>)
    ensures
        p.len() >= 42 ==> ({
            let (a, r) = spec_echo_reply4(p);
            &&& a == XDP_TX
            &&& r.len() == p.len()
            &&& r.subrange(0, 6) == p.subrange(6, 12) && r.subrange(6, 12) == p.subrange(0, 6)
            &&& r.subrange(26, 30) == p.subrange(30, 34) && r.subrange(30, 34) == p.subrange(26, 30)
            &&& r[22] == 4 && r[23] == p[23] && r[34] == 0 && r[35] == p[35]
            &&& r.skip(38) == p.skip(38)
        }),
        p.len() >= 62 ==> ({
            let (a, r) = spec_echo_reply6(p);
            &&& a == XDP_TX
            &&& r.len() == p.len()
            &&& r.subrange(0, 6) == p.subrange(6, 12) && r.subrange(6, 12) == p.subrange(0, 6)
            &&& r.subrange(22, 38) == p.subrange(38, 54) && r.subrange(38, 54) == p.subrange(22, 38)
            &&& r[21] == 4 && r[54] == 129 && r[55] == p[55]
            &&& r.skip(58) == p.skip(58)
        }),
{
    if p.len() >= 42 {
        let q = echo4_reply_nocheck(p);
        let q2 = splice(q, 24, le16_bytes(spec_ipv4_check(q.skip(14))));
        let r = spec_echo_reply4(p).1;
        assert(q.len() == p.len());
        assert(q2.len() == p.len());
        assert(r =~= swap_macs(q2));
        assert(r.subrange(0, 6) =~= p.subrange(6, 12));
        assert(r.subrange(6, 12) =~= p.subrange(0, 6));
        assert(r.subrange(26, 30) =~= p.subrange(30, 34));
        assert(r.subrange(30, 34) =~= p.subrange(26, 30));
        assert(r.skip(38) =~= p.skip(38));
    }
    if p.len() >= 62 {
        let b = echo6_reply_body(p);
        let r = spec_echo_reply6(p).1;
        assert(b.len() == p.len());
        assert(r.subrange(0, 6) =~= p.subrange(6, 12));
        assert(r.subrange(6, 12) =~= p.subrange(0, 6));
        assert(r.subrange(22, 38) =~= p.subrange(38, 54));
        assert(r.subrange(38, 54) =~= p.subrange(22, 38));
        assert(r.skip(58) =~= p.skip(58));
    }
}

/// Encapsulation law (IPv6 reals): the frame sent toward an IPv6 real
/// goes to the control MAC address from the frame's old destination MAC,
/// carries an IPv6 header whose next header is IPv6 and whose destination
/// address (bytes 38..54) is the real's address, word by word as stored,
/// and then the original IP packet unchanged.
pub proof fn lemma_encap_v6_toward_real(p: Seq<u8>, cval: CtlValue, pk: PacketDescription, dst: RealDefinition, nb: u16, env: LbEnv)
    requires
        p.len() >= 14,
        env.head_room,
    ensures
        spec_encap_v6(p, cval, pk, dst, nb, env) matches Some(q) && q.len() == p.len() + 40
            && q.subrange(0, 6) == cval.mac@ && q.subrange(6, 12) == p.subrange(0, 6)
            && q[12] == 0x86 && q[13] == 0xdd && q[20] == IPPROTO_IPV6
            && le32(q, 38) == dst.addr[0] && le32(q, 42) == dst.addr[1]
            && le32(q, 46) == dst.addr[2] && le32(q, 50) == dst.addr[3]
            && q.skip(54) == p.skip(14),
{
    let q = spec_encap_v6(p, cval, pk, dst, nb, env).unwrap();
    assert(q.subrange(38, 42) =~= le32_bytes(dst.addr[0]));
    assert(q.subrange(42, 46) =~= le32_bytes(dst.addr[1]));
    assert(q.subrange(46, 50) =~= le32_bytes(dst.addr[2]));
    assert(q.subrange(50, 54) =~= le32_bytes(dst.addr[3]));
    crate::bytes::lemma_le32_read(q, 38, dst.addr[0]);
    crate::bytes::lemma_le32_read(q, 42, dst.addr[1]);
    crate::bytes::lemma_le32_read(q, 46, dst.addr[2]);
    crate::bytes::lemma_le32_read(q, 50, dst.addr[3]);
    assert(q.subrange(0, 6) =~= cval.mac@);
    assert(q.subrange(6, 12) =~= p.subrange(0, 6));
    assert(q.skip(54) =~= p.skip(14));
}

proof fn lemma_parse_err_actions(p: Seq<u8>, off: int, pk: PacketDescription)
    ensures
        ({
            let a = spec_parse_err4(p, off, pk).0;
            a == -1 || a == XDP_DROP || a == XDP_PASS || a == XDP_TX
        }),
        ({
            let a = spec_parse_err6(p, off, pk).0;
            a == -1 || a == XDP_DROP || a == XDP_PASS || a == XDP_TX
        }),
{
}

proof fn lemma_finish_drops(q: Seq<u8>, pk: PacketDescription, nb: u16, vip: VipMeta, rd: RealDefinition, m: LbModel, env: LbEnv)
    ensures
        spec_finish(q, pk, nb, vip, rd, m, env).0 == XDP_DROP,
{
}

/// Balancer law: every frame is answered with `XDP_TX`, `XDP_PASS` or
/// `XDP_DROP`.  A frame whose network header parses and whose protocol is
/// neither TCP nor UDP is sent back as it is, tables untouched; a TCP or
/// UDP frame for no virtual IP (neither its port nor port 0) passes,
/// tables untouched; one for a virtual IP is never sent back or passed,
/// and one longer than 1400 bytes is dropped with the tables untouched.
pub proof fn lemma_process_packet_outcomes(p: Seq<u8>, is_ipv6: bool, m: LbModel, env: LbEnv)
    ensures
        ({
            let (r, q, m2) = spec_process_packet(p, is_ipv6, m, env);
            let (a, q1, pk1, nb1) = spec_l3(p, is_ipv6);
            let (a2, q2, pk2, nb2) = spec_parse_packet(p, is_ipv6);
            &&& r == XDP_TX || r == XDP_PASS || r == XDP_DROP
            &&& (a < 0 && pk1.flow.proto != IPPROTO_TCP && pk1.flow.proto != IPPROTO_UDP) ==> (r == XDP_TX && q == p
                && m2 == m)
            &&& (a2 < 0 && spec_vip_lookup(pk2, is_ipv6, m) is None) ==> (r == XDP_PASS && m2 == m)
            &&& (a2 < 0 && spec_vip_lookup(pk2, is_ipv6, m) is Some) ==> r == XDP_DROP
            &&& (a2 < 0 && spec_vip_lookup(pk2, is_ipv6, m) is Some && q2.len() > 1400) ==> m2 == m
        }),
{
    let (a, q1, pk1, nb1) = spec_l3(p, is_ipv6);
    let pkv6 = PacketDescription { flow: FlowKey { proto: p[20], ..zero_pckt().flow }, ..zero_pckt() };
    let pkv4 = PacketDescription { flow: FlowKey { proto: p[23], ..zero_pckt().flow }, ..zero_pckt() };
    lemma_parse_err_actions(p, 54, pkv6);
    lemma_parse_err_actions(p, 34, pkv4);
    assert(a == -1 || a == XDP_DROP || a == XDP_PASS || a == XDP_TX);
    assert(a < 0 ==> q1 == p);
    let (a2, q2, pk2, nb2) = spec_parse_packet(p, is_ipv6);
    if a2 < 0 {
        match spec_vip_lookup(pk2, is_ipv6, m) {
            None => {},
            Some((vip, pk3)) => {
                if q2.len() <= 1400 {
                    match array_get(m.stats, 512) {
                        None => {},
                        Some(st) => {
                            let m1 = with_stat(m, 512, bump_v1(st));
                            let (d, m3) = spec_pick_real(pk3, vip, is_ipv6, m1, env);
                            match d {
                                None => {},
                                Some((rd, pk4)) => {
                                    lemma_finish_drops(q2, pk4, nb2, vip, rd, m3, env);
                                },
                            }
                        },
                    }
                }
            },
        }
    }
}

/// Echo replies carry a valid IPv4 header checksum: the folded sum of the
/// reply's header is zero, wherever the single fold of the checksum
/// computation does not overflow 16 bits.
pub proof fn lemma_echo_reply_check(p: Seq<u8>)
    requires
        p.len() >= 42,
        crate::checksum::fold16(crate::checksum::word_sum(echo4_reply_nocheck(p).skip(14), 10) as int) <= 0xffff,
    ensures
        crate::checksum::spec_csum_fold(crate::checksum::word_sum(spec_echo_reply4(p).1.skip(14), 10) as u32) == 0,
{
    let q = echo4_reply_nocheck(p);
    let h = q.skip(14);
    let c = spec_ipv4_check(h);
    let r = spec_echo_reply4(p).1;
    assert(h[10] == 0 && h[11] == 0);
    crate::checksum::lemma_ipv4_check_verifies(h);
    let h2 = splice(h, 10, le16_bytes(c));
    assert(r.skip(14).take(20) =~= h2.take(20));
    crate::checksum::lemma_word_sum_prefix(r.skip(14), h2, 10);
}

} // verus!
