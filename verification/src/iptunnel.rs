//! XDP IP-in-IP tunnel transmitter: a packet to a configured virtual IP and
//! port is wrapped in an outer IPv4 (IPIP) or IPv6 (IP6IP6) header toward
//! the tunnel endpoint and sent back out.
//!
//! The virtual-IP table is a list of entries; a lookup finds the first
//! entry whose key matches.  Per-protocol transmit counters are a vector of
//! 256 counters.
use vstd::prelude::*;
use crate::bytes::{
    be16, be16_bytes, bswap16, get_le16, get_le32, get_unaligned_be16, htons, le16, le16_bytes,
    le32, le32_bytes, push_be16, push_le16, push_le32, push_range, set_le16, splice,
};
use crate::checksum::{ipv4_check, spec_ipv4_check};
use crate::ctx::{XDP_DROP, XDP_PASS, XDP_TX};

verus! {

pub const AF_INET: u16 = 2;
pub const AF_INET6: u16 = 10;
pub const ETH_P_IP: u16 = 0x0800;
pub const ETH_P_IPV6: u16 = 0x86dd;
pub const IPPROTO_TCP: u8 = 6;
pub const IPPROTO_UDP: u8 = 17;
pub const IPPROTO_IPIP: u8 = 4;
pub const IPPROTO_IPV6: u8 = 41;

/// Key of the virtual-IP table: destination address (an IPv4 address is
/// the first word, the rest zero), raw destination port, family, protocol.
#[derive(Clone, Copy)]
pub struct Vip {
    pub daddr: [u32; 4],
    pub dport: u16,
    pub family: u16,
    pub protocol: u8,
}

/// A tunnel: outer source and destination addresses (raw words; an IPv4
/// address is the first word), family, and next-hop MAC address.
#[derive(Clone, Copy)]
pub struct IptnlInfo {
    pub saddr: [u32; 4],
    pub daddr: [u32; 4],
    pub family: u16,
    pub dmac: [u8; 6],
}

/// The virtual-IP to tunnel table.
pub struct VipTunnelMap {
    pub entries: Vec<(Vip, IptnlInfo)>,
}

/// What the program decides before moving the packet head.
#[derive(Clone, Copy)]
pub enum TunnelDecision {
    /// `XDP_DROP`.
    Drop,
    /// `XDP_PASS`.
    Pass,
    /// Grow the head by 20 bytes and wrap in IPv4 toward this tunnel.
    Tx4 { tnl: IptnlInfo, protocol: u8 },
    /// Grow the head by 40 bytes and wrap in IPv6 toward this tunnel.
    Tx6 { tnl: IptnlInfo, protocol: u8 },
}

pub open spec fn vip_matches(a: Vip, b: Vip) -> bool {
    a.daddr@ == b.daddr@ && a.dport == b.dport && a.family == b.family && a.protocol == b.protocol
}

/// The first entry of `s` whose key matches `k`.
pub open spec fn map_lookup(s: Seq<(Vip, IptnlInfo)>, k: Vip) -> Option<IptnlInfo>
    decreases s.len(),
{
    if s.len() == 0 {
        None
    } else if vip_matches(s[0].0, k) {
        Some(s[0].1)
    } else {
        map_lookup(s.drop_first(), k)
    }
}

/// The raw destination port of the TCP or UDP header at `off` (0 for other
/// protocols), or -1 if the header does not fit.
pub open spec fn spec_get_dport(p: Seq<u8>, off: int, protocol: u8) -> int {
    if protocol == IPPROTO_TCP {
        if off + 20 > p.len() { -1 } else { le16(p, off + 2) as int }
    } else if protocol == IPPROTO_UDP {
        if off + 8 > p.len() { -1 } else { le16(p, off + 2) as int }
    } else {
        0
    }
}

/// The raw destination port of a TCP or UDP header at `off` that is known
/// to fit (bytes `off + 2`, `off + 3`, as stored); 0 for other protocols.
pub open spec fn spec_get_dport_dynptr(p: Seq<u8>, off: int, protocol: u8) -> int {
    if protocol == IPPROTO_TCP || protocol == IPPROTO_UDP { le16(p, off + 2) as int } else { 0 }
}

pub open spec fn v4_key(p: Seq<u8>, dport: int) -> Vip {
    Vip { daddr: [le32(p, 30), 0, 0, 0], dport: dport as u16, family: AF_INET, protocol: p[23] }
}

pub open spec fn v6_key(p: Seq<u8>, dport: int) -> Vip {
    Vip {
        daddr: [le32(p, 38), le32(p, 42), le32(p, 46), le32(p, 50)],
        dport: dport as u16,
        family: AF_INET6,
        protocol: p[20],
    }
}

/// The decision for an IPv4 packet; `l3_ok`/`dport` are the outcome of
/// reading the network and transport headers.
pub open spec fn decide_v4(p: Seq<u8>, m: Seq<(Vip, IptnlInfo)>, l3_ok: bool, dport: int) -> TunnelDecision {
    if !l3_ok || dport == -1 {
        TunnelDecision::Drop
    } else {
        match map_lookup(m, v4_key(p, dport)) {
            Some(tnl) => if tnl.family == AF_INET {
                TunnelDecision::Tx4 { tnl, protocol: p[23] }
            } else {
                TunnelDecision::Pass
            },
            None => TunnelDecision::Pass,
        }
    }
}

/// The decision for an IPv6 packet.
pub open spec fn decide_v6(p: Seq<u8>, m: Seq<(Vip, IptnlInfo)>, l3_ok: bool, dport: int) -> TunnelDecision {
    if !l3_ok || dport == -1 {
        TunnelDecision::Drop
    } else {
        match map_lookup(m, v6_key(p, dport)) {
            Some(tnl) => if tnl.family == AF_INET6 {
                TunnelDecision::Tx6 { tnl, protocol: p[20] }
            } else {
                TunnelDecision::Pass
            },
            None => TunnelDecision::Pass,
        }
    }
}

/// The decision of the direct-packet-access program.
pub open spec fn spec_xdp_tx_iptunnel(p: Seq<u8>, m: Seq<(Vip, IptnlInfo)>) -> TunnelDecision {
    if p.len() < 14 {
        TunnelDecision::Drop
    } else if le16(p, 12) == bswap16(ETH_P_IP) {
        decide_v4(p, m, p.len() >= 34, spec_get_dport(p, 34, p[23]))
    } else if le16(p, 12) == bswap16(ETH_P_IPV6) {
        decide_v6(p, m, p.len() >= 54, spec_get_dport(p, 54, p[20]))
    } else {
        TunnelDecision::Drop
    }
}

/// The decision of the dynptr program: the network header is read as a
/// slice together with a TCP-sized (or, for short packets, UDP-sized)
/// transport header, and the port is read from that slice.
pub open spec fn spec_xdp_tx_iptunnel_dynptr(p: Seq<u8>, m: Seq<(Vip, IptnlInfo)>) -> TunnelDecision {
    let l4 = if p.len() < 54 { 8int } else { 20int };
    if p.len() < 14 {
        TunnelDecision::Drop
    } else if le16(p, 12) == bswap16(ETH_P_IP) {
        decide_v4(p, m, p.len() >= 34 + l4, spec_get_dport_dynptr(p, 34, p[23]))
    } else if le16(p, 12) == bswap16(ETH_P_IPV6) {
        decide_v6(p, m, p.len() >= 54 + l4, spec_get_dport_dynptr(p, 54, p[20]))
    } else {
        TunnelDecision::Drop
    }
}

/// The new Ethernet header: the old destination as source, the tunnel's
/// next hop as destination.
pub open spec fn tunnel_eth(p: Seq<u8>, tnl: IptnlInfo, eth_p: u16) -> Seq<u8> {
    tnl.dmac@ + p.subrange(0, 6) + be16_bytes(eth_p)
}

/// The outer IPv4 header before its checksum; `stale_id` is what the new
/// head room held where the identification field lies (never written).
pub open spec fn tunnel_ip4_nocheck(p: Seq<u8>, tnl: IptnlInfo, stale_id: u16) -> Seq<u8> {
    seq![0x45u8, 0u8] + be16_bytes(vstd::wrapping::u16_specs::wrapping_add(be16(p, 16), 20)) + le16_bytes(stale_id) + seq![0u8, 0u8, 8u8, IPPROTO_IPIP, 0u8, 0u8]
        + le32_bytes(tnl.saddr[0]) + le32_bytes(tnl.daddr[0])
}

/// The packet sent for an IPv4 tunnel.
pub open spec fn tunnel_packet4(p: Seq<u8>, tnl: IptnlInfo, stale_id: u16) -> Seq<u8> {
    let ip0 = tunnel_ip4_nocheck(p, tnl, stale_id);
    tunnel_eth(p, tnl, ETH_P_IP) + splice(ip0, 10, le16_bytes(spec_ipv4_check(ip0))) + p.skip(14)
}

pub open spec fn words_bytes(w: Seq<u32>) -> Seq<u8> {
    le32_bytes(w[0]) + le32_bytes(w[1]) + le32_bytes(w[2]) + le32_bytes(w[3])
}

/// The packet sent for an IPv6 tunnel.
pub open spec fn tunnel_packet6(p: Seq<u8>, tnl: IptnlInfo) -> Seq<u8> {
    tunnel_eth(p, tnl, ETH_P_IPV6) + seq![0x60u8, 0u8, 0u8, 0u8] + be16_bytes(vstd::wrapping::u16_specs::wrapping_add(be16(p, 18), 40)) + seq![
        IPPROTO_IPV6,
        8u8,
    ] + words_bytes(tnl.saddr@) + words_bytes(tnl.daddr@) + p.skip(14)
}

// ---------------------------------------------------------------------
// Executable code
// ---------------------------------------------------------------------

fn vip_eq(a: &Vip, b: &Vip) -> (r: bool)
    ensures
        r == vip_matches(*a, *b),
{
    let r = a.daddr[0] == b.daddr[0] && a.daddr[1] == b.daddr[1] && a.daddr[2] == b.daddr[2]
        && a.daddr[3] == b.daddr[3] && a.dport == b.dport && a.family == b.family && a.protocol
        == b.protocol;
    proof {
        if a.daddr[0] == b.daddr[0] && a.daddr[1] == b.daddr[1] && a.daddr[2] == b.daddr[2] && a.daddr[3]
            == b.daddr[3] {
            assert(a.daddr@ =~= b.daddr@);
        }
    }
    r
}

impl VipTunnelMap {
    /// The tunnel of the first entry whose key matches `k`.
    pub fn lookup(&self, k: &Vip) -> (r: Option<IptnlInfo>)
        ensures
            r == map_lookup(self.entries@, *k),
    {
        let mut i: usize = 0;
        let n = self.entries.len();
        assert(self.entries@.skip(0) =~= self.entries@);
        while i < n
            invariant
                i <= n == self.entries@.len(),
                map_lookup(self.entries@, *k) == map_lookup(self.entries@.skip(i as int), *k),
            decreases n - i,
        {
            let ghost rest = self.entries@.skip(i as int);
            assert(rest[0] == self.entries@[i as int]);
            assert(rest.drop_first() =~= self.entries@.skip(i + 1));
            if vip_eq(&self.entries[i].0, k) {
                return Some(self.entries[i].1);
            }
            i += 1;
        }
        None
    }
}

/// The raw destination port of the TCP or UDP header at `off`, which the
/// dynptr program has already read in full as a slice; 0 for other
/// protocols.
pub fn get_dport_dynptr(p: &[u8], off: usize, protocol: u8) -> (r: i32)
    requires
        off + 4 <= p.len(),
    ensures
        r == spec_get_dport_dynptr(p@, off as int, protocol),
        0 <= r <= 0xffff,
{
    if protocol == IPPROTO_TCP || protocol == IPPROTO_UDP {
        get_le16(p, off + 2) as i32
    } else {
        0
    }
}

/// The raw destination port of the transport header at `off`, 0 for other
/// protocols, -1 if it does not fit.
pub fn get_dport(p: &[u8], off: usize, protocol: u8) -> (r: i32)
    requires
        off <= usize::MAX - 20,
    ensures
        r == spec_get_dport(p@, off as int, protocol),
{
    if protocol == IPPROTO_TCP {
        if off + 20 > p.len() {
            return -1;
        }
        get_le16(p, off + 2) as i32
    } else if protocol == IPPROTO_UDP {
        if off + 8 > p.len() {
            return -1;
        }
        get_le16(p, off + 2) as i32
    } else {
        0
    }
}

fn lookup_v4(p: &[u8], m: &VipTunnelMap, l3_ok: bool, dport: i32) -> (r: TunnelDecision)
    requires
        l3_ok ==> p@.len() >= 34,
    ensures
        r == decide_v4(p@, m.entries@, l3_ok, dport as int),
{
    if !l3_ok || dport == -1 {
        return TunnelDecision::Drop;
    }
    let vip = Vip { daddr: [get_le32(p, 30), 0, 0, 0], dport: dport as u16, family: AF_INET, protocol: p[23] };
    assert(vip.daddr@ =~= v4_key(p@, dport as int).daddr@);
    let found = m.lookup(&vip);
    proof {
        lemma_lookup_congruent(m.entries@, vip, v4_key(p@, dport as int));
    }
    match found {
        Some(tnl) => if tnl.family == AF_INET {
            TunnelDecision::Tx4 { tnl, protocol: p[23] }
        } else {
            TunnelDecision::Pass
        },
        None => TunnelDecision::Pass,
    }
}

fn lookup_v6(p: &[u8], m: &VipTunnelMap, l3_ok: bool, dport: i32) -> (r: TunnelDecision)
    requires
        l3_ok ==> p@.len() >= 54,
    ensures
        r == decide_v6(p@, m.entries@, l3_ok, dport as int),
{
    if !l3_ok || dport == -1 {
        return TunnelDecision::Drop;
    }
    let vip = Vip {
        daddr: [get_le32(p, 38), get_le32(p, 42), get_le32(p, 46), get_le32(p, 50)],
        dport: dport as u16,
        family: AF_INET6,
        protocol: p[20],
    };
    assert(vip.daddr@ =~= v6_key(p@, dport as int).daddr@);
    let found = m.lookup(&vip);
    proof {
        lemma_lookup_congruent(m.entries@, vip, v6_key(p@, dport as int));
    }
    match found {
        Some(tnl) => if tnl.family == AF_INET6 {
            TunnelDecision::Tx6 { tnl, protocol: p[20] }
        } else {
            TunnelDecision::Pass
        },
        None => TunnelDecision::Pass,
    }
}

/// Port-read law of the dynptr program: on a packet with room for a full
/// TCP header behind either network header (74 bytes or more), reading the
/// port through the slice gives the port the direct program reads, so both
/// programs decide alike.
pub proof fn lemma_dynptr_port_read(p: Seq<u8>, m: Seq<(Vip, IptnlInfo)>)
    requires
        p.len() >= 74,
    ensures
        spec_get_dport(p, 34, p[23]) == spec_get_dport_dynptr(p, 34, p[23]),
        spec_get_dport(p, 54, p[20]) == spec_get_dport_dynptr(p, 54, p[20]),
        spec_xdp_tx_iptunnel_dynptr(p, m) == spec_xdp_tx_iptunnel(p, m),
{
}

/// Tunnel addressing law (IPv6): the packet sent for an IPv6 tunnel is the
/// original packet behind a new Ethernet header (the tunnel's next hop as
/// destination, the packet's old destination as source) and an outer IPv6
/// header carrying IPv6, hop limit 8, whose source address (bytes 22..38)
/// is the tunnel's `saddr` and whose destination (bytes 38..54) is its
/// `daddr`, word by word as stored.
pub proof fn lemma_tunnel_packet6_addresses(p: Seq<u8>, tnl: IptnlInfo)
    requires
        p.len() >= 54,
    ensures
        ({
            let q = tunnel_packet6(p, tnl);
            &&& q.len() == p.len() + 40
            &&& q.subrange(0, 6) == tnl.dmac@
            &&& q.subrange(6, 12) == p.subrange(0, 6)
            &&& be16(q, 12) == ETH_P_IPV6
            &&& q[14] == 0x60 && q[20] == IPPROTO_IPV6 && q[21] == 8
            &&& le32(q, 22) == tnl.saddr[0] && le32(q, 26) == tnl.saddr[1]
            &&& le32(q, 30) == tnl.saddr[2] && le32(q, 34) == tnl.saddr[3]
            &&& le32(q, 38) == tnl.daddr[0] && le32(q, 42) == tnl.daddr[1]
            &&& le32(q, 46) == tnl.daddr[2] && le32(q, 50) == tnl.daddr[3]
            &&& q.skip(54) == p.skip(14)
        }),
{
    let q = tunnel_packet6(p, tnl);
    let e = tunnel_eth(p, tnl, ETH_P_IPV6);
    assert(e.len() == 14);
    crate::bytes::lemma_be16_roundtrip(ETH_P_IPV6);
    assert(q.subrange(12, 14) =~= be16_bytes(ETH_P_IPV6));
    assert(be16(q, 12) == be16(be16_bytes(ETH_P_IPV6), 0));
    let base = e + seq![0x60u8, 0u8, 0u8, 0u8] + be16_bytes(vstd::wrapping::u16_specs::wrapping_add(be16(p, 18), 40))
        + seq![IPPROTO_IPV6, 8u8];
    assert(base.len() == 22);
    let w = words_bytes(tnl.saddr@) + words_bytes(tnl.daddr@);
    assert(q =~= base + w + p.skip(14));
    assert(q.subrange(22, 26) =~= le32_bytes(tnl.saddr[0]));
    crate::bytes::lemma_le32_read(q, 22, tnl.saddr[0]);
    assert(q.subrange(26, 30) =~= le32_bytes(tnl.saddr[1]));
    crate::bytes::lemma_le32_read(q, 26, tnl.saddr[1]);
    assert(q.subrange(30, 34) =~= le32_bytes(tnl.saddr[2]));
    crate::bytes::lemma_le32_read(q, 30, tnl.saddr[2]);
    assert(q.subrange(34, 38) =~= le32_bytes(tnl.saddr[3]));
    crate::bytes::lemma_le32_read(q, 34, tnl.saddr[3]);
    assert(q.subrange(38, 42) =~= le32_bytes(tnl.daddr[0]));
    crate::bytes::lemma_le32_read(q, 38, tnl.daddr[0]);
    assert(q.subrange(42, 46) =~= le32_bytes(tnl.daddr[1]));
    crate::bytes::lemma_le32_read(q, 42, tnl.daddr[1]);
    assert(q.subrange(46, 50) =~= le32_bytes(tnl.daddr[2]));
    crate::bytes::lemma_le32_read(q, 46, tnl.daddr[2]);
    assert(q.subrange(50, 54) =~= le32_bytes(tnl.daddr[3]));
    crate::bytes::lemma_le32_read(q, 50, tnl.daddr[3]);
    assert(q.subrange(0, 6) =~= tnl.dmac@);
    assert(q.subrange(6, 12) =~= p.subrange(0, 6));
    assert(q.skip(54) =~= p.skip(14));
}

/// Tunnel addressing law (IPv4): the packet sent for an IPv4 tunnel is the
/// original packet behind a new Ethernet header and an outer IPv4 header
/// carrying IP-in-IP, whose source address (bytes 26..30) is the tunnel's
/// `saddr` and whose destination (bytes 30..34) is its `daddr`.
pub proof fn lemma_tunnel_packet4_addresses(p: Seq<u8>, tnl: IptnlInfo, stale_id: u16)
    requires
        p.len() >= 34,
    ensures
        ({
            let q = tunnel_packet4(p, tnl, stale_id);
            &&& q.len() == p.len() + 20
            &&& q.subrange(0, 6) == tnl.dmac@
            &&& q.subrange(6, 12) == p.subrange(0, 6)
            &&& be16(q, 12) == ETH_P_IP
            &&& q[14] == 0x45 && q[23] == IPPROTO_IPIP
            &&& le32(q, 26) == tnl.saddr[0]
            &&& le32(q, 30) == tnl.daddr[0]
            &&& q.skip(34) == p.skip(14)
        }),
{
    let q = tunnel_packet4(p, tnl, stale_id);
    let ip0 = tunnel_ip4_nocheck(p, tnl, stale_id);
    let ip = splice(ip0, 10, le16_bytes(spec_ipv4_check(ip0)));
    assert(ip0.len() == 20);
    assert(ip.len() == 20);
    crate::bytes::lemma_be16_roundtrip(ETH_P_IP);
    crate::bytes::lemma_le32_roundtrip(tnl.saddr[0]);
    crate::bytes::lemma_le32_roundtrip(tnl.daddr[0]);
    assert(q.subrange(12, 14) =~= be16_bytes(ETH_P_IP));
    assert(be16(q, 12) == be16(be16_bytes(ETH_P_IP), 0));
    assert(q.subrange(26, 30) =~= le32_bytes(tnl.saddr[0]));
    assert(q.subrange(30, 34) =~= le32_bytes(tnl.daddr[0]));
    assert(le32(q, 26) == le32(le32_bytes(tnl.saddr[0]), 0));
    assert(le32(q, 30) == le32(le32_bytes(tnl.daddr[0]), 0));
    assert(q.subrange(0, 6) =~= tnl.dmac@);
    assert(q.subrange(6, 12) =~= p.subrange(0, 6));
    assert(q.skip(34) =~= p.skip(14));
}

/// A lookup result is the tunnel of an entry whose key matches.
proof fn lemma_map_lookup_found(s: Seq<(Vip, IptnlInfo)>, k: Vip)
    ensures
        map_lookup(s, k) matches Some(t) ==> exists|i: int| 0 <= i < s.len() && vip_matches(#[trigger] s[i].0, k) && s[i].1 == t,
    decreases s.len(),
{
    if s.len() > 0 && !vip_matches(s[0].0, k) {
        lemma_map_lookup_found(s.drop_first(), k);
        if let Some(t) = map_lookup(s, k) {
            let i = choose|i: int| 0 <= i < s.drop_first().len() && vip_matches(#[trigger] s.drop_first()[i].0, k) && s.drop_first()[i].1 == t;
            assert(s[i + 1] == s.drop_first()[i]);
        }
    }
}

/// The raw destination port of a TCP or UDP header at `off`, 0 for other
/// protocols.
pub open spec fn raw_dport(p: Seq<u8>, off: int, protocol: u8) -> u16 {
    if protocol == IPPROTO_TCP || protocol == IPPROTO_UDP { le16(p, off + 2) } else { 0 }
}

/// Tunnel choice law: a packet is wrapped toward a tunnel only when the
/// table holds an entry for the packet's destination address (bytes 30..34
/// of an IPv4 packet, 38..54 of an IPv6 one, as stored), its protocol and
/// its destination port (the transport header's second field, 0 for
/// protocols without ports), of the packet's family; the tunnel is that
/// entry's, of the same family.  Both programs choose so.
pub proof fn lemma_tunnel_chosen_by_destination(p: Seq<u8>, m: Seq<(Vip, IptnlInfo)>, dynptr: bool)
    ensures
        ({
            let d = if dynptr { spec_xdp_tx_iptunnel_dynptr(p, m) } else { spec_xdp_tx_iptunnel(p, m) };
            &&& d matches TunnelDecision::Tx4 { tnl, protocol } ==> p.len() >= 34 && le16(p, 12) == 0x0008
                && protocol == p[23] && tnl.family == AF_INET && exists|i: int| 0 <= i < m.len() && #[trigger] m[i].1 == tnl
                && m[i].0.daddr@ == seq![le32(p, 30), 0u32, 0u32, 0u32] && m[i].0.family == AF_INET
                && m[i].0.protocol == p[23] && m[i].0.dport == raw_dport(p, 34, p[23])
            &&& d matches TunnelDecision::Tx6 { tnl, protocol } ==> p.len() >= 54 && le16(p, 12) == 0xdd86
                && protocol == p[20] && tnl.family == AF_INET6 && exists|i: int| 0 <= i < m.len() && #[trigger] m[i].1 == tnl
                && m[i].0.daddr@ == seq![le32(p, 38), le32(p, 42), le32(p, 46), le32(p, 50)] && m[i].0.family == AF_INET6
                && m[i].0.protocol == p[20] && m[i].0.dport == raw_dport(p, 54, p[20])
        }),
{
    let d = if dynptr { spec_xdp_tx_iptunnel_dynptr(p, m) } else { spec_xdp_tx_iptunnel(p, m) };
    assert(bswap16(ETH_P_IP) == 0x0008);
    assert(bswap16(ETH_P_IPV6) == 0xdd86);
    if p.len() >= 14 {
        if le16(p, 12) == 0x0008 && p.len() >= 34 {
            let dp = if dynptr { spec_get_dport_dynptr(p, 34, p[23]) } else { spec_get_dport(p, 34, p[23]) };
            let k = v4_key(p, dp);
            lemma_map_lookup_found(m, k);
            if d is Tx4 {
                assert(dp != -1);
                assert(dp as u16 == raw_dport(p, 34, p[23]));
                assert(k.daddr@ =~= seq![le32(p, 30), 0u32, 0u32, 0u32]);
            }
        } else if le16(p, 12) == 0xdd86 && p.len() >= 54 {
            let dp = if dynptr { spec_get_dport_dynptr(p, 54, p[20]) } else { spec_get_dport(p, 54, p[20]) };
            let k = v6_key(p, dp);
            lemma_map_lookup_found(m, k);
            if d is Tx6 {
                assert(dp != -1);
                assert(dp as u16 == raw_dport(p, 54, p[20]));
                assert(k.daddr@ =~= seq![le32(p, 38), le32(p, 42), le32(p, 46), le32(p, 50)]);
            }
        }
    }
}

/// Keys that match the same entries give the same lookup result.
pub proof fn lemma_lookup_congruent(s: Seq<(Vip, IptnlInfo)>, a: Vip, b: Vip)
    requires
        vip_matches(a, b),
    ensures
        map_lookup(s, a) == map_lookup(s, b),
    decreases s.len(),
{
    if s.len() > 0 {
        lemma_lookup_congruent(s.drop_first(), a, b);
    }
}

/// Decision for an IPv4 packet (direct packet access).
pub fn handle_ipv4(p: &[u8], m: &VipTunnelMap) -> (r: TunnelDecision)
    requires
        p@.len() >= 14,
    ensures
        r == decide_v4(p@, m.entries@, p@.len() >= 34, spec_get_dport(p@, 34, p@[23])),
{
    if p.len() < 34 {
        return TunnelDecision::Drop;
    }
    let dport = get_dport(p, 34, p[23]);
    lookup_v4(p, m, true, dport)
}

/// Decision for an IPv6 packet (direct packet access).
pub fn handle_ipv6(p: &[u8], m: &VipTunnelMap) -> (r: TunnelDecision)
    requires
        p@.len() >= 14,
    ensures
        r == decide_v6(p@, m.entries@, p@.len() >= 54, spec_get_dport(p@, 54, p@[20])),
{
    if p.len() < 54 {
        return TunnelDecision::Drop;
    }
    let dport = get_dport(p, 54, p[20]);
    lookup_v6(p, m, true, dport)
}

/// Decides what to do with a packet: drop it, pass it, or send it through
/// a tunnel (direct packet access variant).
pub fn tx_decision(p: &[u8], m: &VipTunnelMap) -> (r: TunnelDecision)
    ensures
        r == spec_xdp_tx_iptunnel(p@, m.entries@),
{
    if p.len() < 14 {
        return TunnelDecision::Drop;
    }
    let h_proto = get_le16(p, 12);
    if h_proto == htons(ETH_P_IP) {
        handle_ipv4(p, m)
    } else if h_proto == htons(ETH_P_IPV6) {
        handle_ipv6(p, m)
    } else {
        TunnelDecision::Drop
    }
}

/// Decides what to do with a packet (dynptr variant: headers are read as
/// fixed-size slices).
pub fn tx_decision_dynptr(p: &[u8], m: &VipTunnelMap) -> (r: TunnelDecision)
    ensures
        r == spec_xdp_tx_iptunnel_dynptr(p@, m.entries@),
{
    if p.len() < 14 {
        return TunnelDecision::Drop;
    }
    let l4: usize = if p.len() < 54 { 8 } else { 20 };
    let h_proto = get_le16(p, 12);
    if h_proto == htons(ETH_P_IP) {
        let ok = p.len() >= 34 + l4;
        let dport: i32 = if ok { get_dport_dynptr(p, 34, p[23]) } else { 0 };
        lookup_v4(p, m, ok, dport)
    } else if h_proto == htons(ETH_P_IPV6) {
        let ok = p.len() >= 54 + l4;
        let dport: i32 = if ok { get_dport_dynptr(p, 54, p[20]) } else { 0 };
        lookup_v6(p, m, ok, dport)
    } else {
        TunnelDecision::Drop
    }
}

/// Writes the new Ethernet header.
pub fn set_ethhdr(out: &mut Vec<u8>, p: &[u8], tnl: &IptnlInfo, h_proto: u16)
    requires
        p@.len() >= 6,
    ensures
        final(out)@ == old(out)@ + tunnel_eth(p@, *tnl, h_proto),
{
    let mut i: usize = 0;
    while i < 6
        invariant
            i <= 6,
            out@ == old(out)@ + tnl.dmac@.subrange(0, i as int),
        decreases 6 - i,
    {
        out.push(tnl.dmac[i]);
        i += 1;
        assert(out@ =~= old(out)@ + tnl.dmac@.subrange(0, i as int));
    }
    push_range(out, p, 0, 6);
    push_be16(out, h_proto);
    assert(tnl.dmac@.subrange(0, 6) =~= tnl.dmac@);
    assert(out@ =~= old(out)@ + tunnel_eth(p@, *tnl, h_proto));
}

/// The packet sent through an IPv4 tunnel; `stale_id` is the raw value the
/// new head room held at the identification field.
pub fn tunnel_encap4(p: &[u8], tnl: &IptnlInfo, stale_id: u16) -> (r: Vec<u8>)
    requires
        p@.len() >= 34,
    ensures
        r@ == tunnel_packet4(p@, *tnl, stale_id),
{
    let mut ip: Vec<u8> = Vec::new();
    ip.push(0x45);
    ip.push(0);
    let payload_len = get_unaligned_be16(p, 16);
    push_be16(&mut ip, payload_len.wrapping_add(20));
    push_le16(&mut ip, stale_id);
    ip.push(0);
    ip.push(0);
    ip.push(8);
    ip.push(IPPROTO_IPIP);
    ip.push(0);
    ip.push(0);
    push_le32(&mut ip, tnl.saddr[0]);
    push_le32(&mut ip, tnl.daddr[0]);
    assert(ip@ =~= tunnel_ip4_nocheck(p@, *tnl, stale_id));
    let check = ipv4_check(ip.as_slice());
    set_le16(&mut ip, 10, check);
    let mut out: Vec<u8> = Vec::new();
    set_ethhdr(&mut out, p, tnl, ETH_P_IP);
    push_range(&mut out, ip.as_slice(), 0, ip.len());
    push_range(&mut out, p, 14, p.len());
    assert(ip@.subrange(0, ip@.len() as int) =~= ip@);
    assert(p@.subrange(14, p@.len() as int) =~= p@.skip(14));
    assert(out@ =~= tunnel_packet4(p@, *tnl, stale_id));
    out
}

/// The packet sent through an IPv6 tunnel.
pub fn tunnel_encap6(p: &[u8], tnl: &IptnlInfo) -> (r: Vec<u8>)
    requires
        p@.len() >= 54,
    ensures
        r@ == tunnel_packet6(p@, *tnl),
{
    let mut out: Vec<u8> = Vec::new();
    set_ethhdr(&mut out, p, tnl, ETH_P_IPV6);
    out.push(0x60);
    out.push(0);
    out.push(0);
    out.push(0);
    let payload_len = get_unaligned_be16(p, 18);
    push_be16(&mut out, payload_len.wrapping_add(40));
    out.push(IPPROTO_IPV6);
    out.push(8);
    push_le32(&mut out, tnl.saddr[0]);
    push_le32(&mut out, tnl.saddr[1]);
    push_le32(&mut out, tnl.saddr[2]);
    push_le32(&mut out, tnl.saddr[3]);
    push_le32(&mut out, tnl.daddr[0]);
    push_le32(&mut out, tnl.daddr[1]);
    push_le32(&mut out, tnl.daddr[2]);
    push_le32(&mut out, tnl.daddr[3]);
    push_range(&mut out, p, 14, p.len());
    assert(p@.subrange(14, p@.len() as int) =~= p@.skip(14));
    assert(out@ =~= tunnel_packet6(p@, *tnl));
    out
}

/// Counts a transmitted packet of `protocol` (counters wrap).
pub fn count_tx(rxcnt: &mut Vec<u64>, protocol: u8)
    requires
        old(rxcnt)@.len() == 256,
    ensures
        final(rxcnt)@ == old(rxcnt)@.update(
            protocol as int,
            vstd::wrapping::u64_specs::wrapping_add(old(rxcnt)@[protocol as int], 1),
        ),
{
    let i = protocol as usize;
    let v = rxcnt[i].wrapping_add(1);
    rxcnt.set(i, v);
}

/// IPv4 tunnel law: the outer header the tunnel writes verifies whenever
/// its single checksum fold does not overflow.
pub proof fn lemma_tunnel_ip4_check(p: Seq<u8>, tnl: IptnlInfo, stale_id: u16)
    requires
        crate::checksum::fold16(crate::checksum::word_sum(tunnel_ip4_nocheck(p, tnl, stale_id), 10) as int)
            <= 0xffff,
    ensures
        ({
            let ip0 = tunnel_ip4_nocheck(p, tnl, stale_id);
            crate::checksum::spec_csum_fold(
                crate::checksum::word_sum(splice(ip0, 10, le16_bytes(spec_ipv4_check(ip0))), 10) as u32,
            ) == 0
        }),
{
    crate::checksum::lemma_ipv4_check_verifies(tunnel_ip4_nocheck(p, tnl, stale_id));
}

/// The tunnel program on one packet: the verdict, the packet, and the
/// transmit counters.  `head_room` is whether the kernel grants the room
/// for the outer header; `dynptr` selects the variant that reads headers
/// as fixed-size slices.
pub open spec fn spec_tx_program(p: Seq<u8>, m: Seq<(Vip, IptnlInfo)>, rx: Seq<u64>, head_room: bool, stale_id: u16, dynptr: bool) -> (i32, Seq<u8>, Seq<u64>) {
    let d = if dynptr { spec_xdp_tx_iptunnel_dynptr(p, m) } else { spec_xdp_tx_iptunnel(p, m) };
    match d {
        TunnelDecision::Drop => (XDP_DROP, p, rx),
        TunnelDecision::Pass => (XDP_PASS, p, rx),
        TunnelDecision::Tx4 { tnl, protocol } => if !head_room {
            (XDP_DROP, p, rx)
        } else {
            (XDP_TX, tunnel_packet4(p, tnl, stale_id), rx.update(protocol as int, vstd::wrapping::u64_specs::wrapping_add(rx[protocol as int], 1)))
        },
        TunnelDecision::Tx6 { tnl, protocol } => if !head_room {
            (XDP_DROP, p, rx)
        } else {
            (XDP_TX, tunnel_packet6(p, tnl), rx.update(protocol as int, vstd::wrapping::u64_specs::wrapping_add(rx[protocol as int], 1)))
        },
    }
}

fn run_tx(d: TunnelDecision, p: &mut Vec<u8>, rxcnt: &mut Vec<u64>, head_room: bool, stale_id: u16) -> (r: i32)
    requires
        old(rxcnt)@.len() == 256,
        d matches TunnelDecision::Tx4 { .. } ==> old(p)@.len() >= 34,
        d matches TunnelDecision::Tx6 { .. } ==> old(p)@.len() >= 54,
    ensures
        final(rxcnt)@.len() == 256,
        (r, final(p)@, final(rxcnt)@) == (match d {
            TunnelDecision::Drop => (XDP_DROP, old(p)@, old(rxcnt)@),
            TunnelDecision::Pass => (XDP_PASS, old(p)@, old(rxcnt)@),
            TunnelDecision::Tx4 { tnl, protocol } => if !head_room {
                (XDP_DROP, old(p)@, old(rxcnt)@)
            } else {
                (XDP_TX, tunnel_packet4(old(p)@, tnl, stale_id), old(rxcnt)@.update(protocol as int, vstd::wrapping::u64_specs::wrapping_add(old(rxcnt)@[protocol as int], 1)))
            },
            TunnelDecision::Tx6 { tnl, protocol } => if !head_room {
                (XDP_DROP, old(p)@, old(rxcnt)@)
            } else {
                (XDP_TX, tunnel_packet6(old(p)@, tnl), old(rxcnt)@.update(protocol as int, vstd::wrapping::u64_specs::wrapping_add(old(rxcnt)@[protocol as int], 1)))
            },
        }),
{
    match d {
        TunnelDecision::Drop => XDP_DROP,
        TunnelDecision::Pass => XDP_PASS,
        TunnelDecision::Tx4 { tnl, protocol } => {
            if !head_room {
                return XDP_DROP;
            }
            let out = tunnel_encap4(p.as_slice(), &tnl, stale_id);
            *p = out;
            count_tx(rxcnt, protocol);
            XDP_TX
        },
        TunnelDecision::Tx6 { tnl, protocol } => {
            if !head_room {
                return XDP_DROP;
            }
            let out = tunnel_encap6(p.as_slice(), &tnl);
            *p = out;
            count_tx(rxcnt, protocol);
            XDP_TX
        },
    }
}

/// The tunnel program (direct packet access; see [`spec_tx_program`]).
pub fn _xdp_tx_iptunnel(p: &mut Vec<u8>, m: &VipTunnelMap, rxcnt: &mut Vec<u64>, head_room: bool, stale_id: u16) -> (r: i32)
    requires
        old(rxcnt)@.len() == 256,
    ensures
        final(rxcnt)@.len() == 256,
        (r, final(p)@, final(rxcnt)@) == spec_tx_program(old(p)@, m.entries@, old(rxcnt)@, head_room, stale_id, false),
{
    let d = tx_decision(p.as_slice(), m);
    run_tx(d, p, rxcnt, head_room, stale_id)
}

/// The tunnel program (dynptr variant; see [`spec_tx_program`]).
pub fn _xdp_tx_iptunnel_dynptr(p: &mut Vec<u8>, m: &VipTunnelMap, rxcnt: &mut Vec<u64>, head_room: bool, stale_id: u16) -> (r: i32)
    requires
        old(rxcnt)@.len() == 256,
    ensures
        final(rxcnt)@.len() == 256,
        (r, final(p)@, final(rxcnt)@) == spec_tx_program(old(p)@, m.entries@, old(rxcnt)@, head_room, stale_id, true),
{
    let d = tx_decision_dynptr(p.as_slice(), m);
    run_tx(d, p, rxcnt, head_room, stale_id)
}

} // verus!
