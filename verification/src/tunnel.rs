//! In-place tunnel encapsulation and decapsulation by a traffic-control
//! program: IPIP, GRE, UDP (FOU), VXLAN, SIT, IP6TNL, IP6GRE and IP6UDP
//! tunnels, each optionally carrying an MPLS label or an inner Ethernet
//! header.
//!
//! A plan is computed from the packet (the bytes `bpf_skb_load_bytes` reads,
//! from the Ethernet header on): how much room to open after the MAC header,
//! with which `bpf_skb_adjust_room` flags, and the outer headers to store in
//! it.  Decapsulation plans how much to remove.
use vstd::prelude::*;
use crate::bytes::{
    be16, be16_bytes, be32_bytes, bswap16, bswap32, get_unaligned_be16, htonl, htons, le16_bytes,
    push_be16, push_be32, push_range, set_le16, splice,
};
use crate::checksum::{fold16, ipv4_check, lemma_ipv4_check_verifies, spec_csum_fold, spec_ipv4_check, word_sum};

verus! {

pub const TC_ACT_OK: i32 = 0;
pub const TC_ACT_SHOT: i32 = 2;

pub const ETH_HLEN: u32 = 14;
pub const ETH_P_IP: u16 = 0x0800;
pub const ETH_P_IPV6: u16 = 0x86DD;
pub const ETH_P_MPLS_UC: u16 = 0x8847;
pub const ETH_P_TEB: u16 = 0x6558;

pub const IPPROTO_TCP: u8 = 6;
pub const IPPROTO_UDP: u8 = 17;
pub const IPPROTO_IPIP: u8 = 4;
pub const IPPROTO_IPV6: u8 = 41;
pub const IPPROTO_GRE: u8 = 47;
pub const NEXTHDR_DEST: u8 = 60;

pub const UDP_PORT: u16 = 5555;
pub const MPLS_OVER_UDP_PORT: u16 = 6635;
pub const ETH_OVER_UDP_PORT: u16 = 7777;
pub const VXLAN_UDP_PORT: u16 = 8472;

pub const EXTPROTO_VXLAN: u16 = 0x1;
pub const VNI_ID: u32 = 1;

pub const CFG_PORT: u16 = 8000;
pub const CFG_UDP_SRC: u16 = 20000;

pub const BPF_F_ADJ_ROOM_FIXED_GSO: u64 = 1;
pub const BPF_F_ADJ_ROOM_ENCAP_L3_IPV4: u64 = 2;
pub const BPF_F_ADJ_ROOM_ENCAP_L3_IPV6: u64 = 4;
pub const BPF_F_ADJ_ROOM_ENCAP_L4_GRE: u64 = 8;
pub const BPF_F_ADJ_ROOM_ENCAP_L4_UDP: u64 = 16;
pub const BPF_F_ADJ_ROOM_ENCAP_L2_ETH: u64 = 64;
pub const BPF_F_ADJ_ROOM_DECAP_L3_IPV4: u64 = 128;
pub const BPF_F_ADJ_ROOM_DECAP_L3_IPV6: u64 = 256;

/// An encapsulation to perform.  [`encap_verdict`] carries it out with
/// the kernel's answers and gives the program's verdict.
pub enum EncapPlan {
    /// Leave the packet alone (`TC_ACT_OK`).
    Pass,
    /// Drop the packet (`TC_ACT_SHOT`).
    Shot,
    /// Open `olen` bytes after the MAC header with `flags`, store `outer`
    /// there and, when `eth_proto` is given, set the Ethernet protocol to it
    /// (loading the Ethernet header and storing it back).  The verdict is
    /// `TC_ACT_OK` when all of that succeeds, else `TC_ACT_SHOT`.
    Encap { olen: u32, flags: u64, outer: Vec<u8>, eth_proto: Option<u16> },
}

/// The mathematical content of an [`EncapPlan`].
pub enum EncapModel {
    Pass,
    Shot,
    Encap { olen: int, flags: u64, outer: Seq<u8>, eth_proto: Option<u16> },
}

impl View for EncapPlan {
    type V = EncapModel;

    open spec fn view(&self) -> EncapModel {
        match self {
            EncapPlan::Pass => EncapModel::Pass,
            EncapPlan::Shot => EncapModel::Shot,
            EncapPlan::Encap { olen, flags, outer, eth_proto } => EncapModel::Encap {
                olen: *olen as int,
                flags: *flags,
                outer: outer@,
                eth_proto: *eth_proto,
            },
        }
    }
}

/// A decapsulation to perform.  [`decap_verdict`] carries it out with
/// the kernel's answer and gives the program's verdict.
#[derive(PartialEq, Eq, Structural)]
pub enum DecapPlan {
    /// Leave the packet alone (`TC_ACT_OK`).
    Pass,
    /// Remove `olen` bytes after the MAC header with `flags`; the verdict is
    /// `TC_ACT_OK` when the kernel does so, else `TC_ACT_SHOT`.
    Decap { olen: u32, flags: u64 },
}

/// A helper call that carries out a tunnel plan.
#[derive(Clone, Copy, PartialEq, Eq, Structural)]
pub enum TunnelCall {
    /// `bpf_skb_adjust_room(len_diff, BPF_ADJ_ROOM_MAC, flags)`.
    AdjustRoom { len_diff: i64, flags: u64 },
    /// `bpf_skb_store_bytes(ETH_HLEN, outer, len, BPF_F_INVALIDATE_HASH)`:
    /// the plan's outer headers stored after the MAC header.
    StoreOuter { len: u32 },
    /// `bpf_skb_load_bytes(0, eth, ETH_HLEN)`.
    LoadEth,
    /// `bpf_skb_store_bytes(0, eth, ETH_HLEN, 0)` with the Ethernet
    /// protocol set to `proto`.
    StoreEth { proto: u16 },
}

/// What the kernel answers to the calls of an encapsulation.
#[derive(Clone, Copy)]
pub struct EncapAnswers {
    pub adjust_ret: i64,
    pub store_ret: i64,
    pub eth_load_ret: i64,
    pub eth_store_ret: i64,
}

/// The IHL field of a version/IHL byte.
pub fn ip_ihl(b: u8) -> (r: u8)
    ensures
        r == b % 16,
{
    assert(b & 0xF == b % 16) by (bit_vector);
    b & 0xF
}

/// The `bpf_skb_adjust_room` flag bits that announce an inner L2 header of
/// `len` bytes.
pub fn adj_room_encap_l2(len: i32) -> (r: u64)
    ensures
        r == ((len as u64) & 0xff) << 56u64,
{
    ((len as u64) & 0xff) << 56
}

/// MPLS label 1000 with the bottom-of-stack bit and TTL 255, as the raw
/// value whose little-endian store writes it in network order.
pub fn mpls_label() -> (r: u32)
    ensures
        r == bswap32(0x003e_81ff),
{
    assert((1000u32 << 12u32) | 0x0000_0100 | 0xff == 0x003e_81ff) by (bit_vector);
    htonl((1000u32 << 12u32) | 0x0000_0100 | 0xff)
}

/// The MPLS label stack entry as it appears on the wire.
pub open spec fn mpls_bytes() -> Seq<u8> {
    be32_bytes(0x003e_81ff)
}

/// The VXLAN header (I flag, VNI 1) as it appears on the wire.
pub open spec fn vxlan_bytes() -> Seq<u8> {
    be32_bytes(0x0800_0000) + be32_bytes(0x0000_0100)
}

/// Length of the inner L2 header and the UDP destination port for it.
pub open spec fn l2_params(l2_proto: u16, ext_proto: u16) -> (int, u16) {
    if l2_proto == ETH_P_MPLS_UC {
        (4, MPLS_OVER_UDP_PORT)
    } else if l2_proto == ETH_P_TEB {
        if ext_proto & EXTPROTO_VXLAN != 0 {
            (22, VXLAN_UDP_PORT)
        } else {
            (14, ETH_OVER_UDP_PORT)
        }
    } else {
        (0, UDP_PORT)
    }
}

/// The inner L2 header: an MPLS label, or (a VXLAN header and) a copy of
/// the packet's Ethernet header; `None` if that header cannot be read.
pub open spec fn l2_bytes(p: Seq<u8>, l2_proto: u16, ext_proto: u16) -> Option<Seq<u8>> {
    if l2_proto == ETH_P_MPLS_UC {
        Some(mpls_bytes())
    } else if l2_proto == ETH_P_TEB {
        if p.len() < 14 {
            None
        } else if ext_proto & EXTPROTO_VXLAN != 0 {
            Some(vxlan_bytes() + p.subrange(0, 14))
        } else {
            Some(p.subrange(0, 14))
        }
    } else {
        Some(Seq::empty())
    }
}

/// The outer L4 header (GRE or UDP), empty for IP-in-IP, `None` for an
/// unsupported protocol; `ipv4` admits IPIP.
pub open spec fn l4_bytes(encap_proto: u8, ipv4: bool, l2_proto: u16, udp_dst: u16, udp_len: u16) -> Option<Seq<u8>> {
    if encap_proto == IPPROTO_GRE {
        Some(seq![0u8, 0u8] + be16_bytes(l2_proto))
    } else if encap_proto == IPPROTO_UDP {
        Some(be16_bytes(CFG_UDP_SRC) + be16_bytes(udp_dst) + be16_bytes(udp_len) + seq![0u8, 0u8])
    } else if encap_proto == IPPROTO_IPV6 || (ipv4 && encap_proto == IPPROTO_IPIP) {
        Some(Seq::empty())
    } else {
        None
    }
}

/// `bpf_skb_adjust_room` flags of an L4 header.
pub open spec fn l4_flags(encap_proto: u8) -> u64 {
    if encap_proto == IPPROTO_GRE {
        BPF_F_ADJ_ROOM_ENCAP_L4_GRE
    } else if encap_proto == IPPROTO_UDP {
        BPF_F_ADJ_ROOM_ENCAP_L4_UDP
    } else {
        0
    }
}

/// `bpf_skb_adjust_room` flags of an L2 header.
pub open spec fn l2_flags(l2_proto: u16) -> u64 {
    if l2_proto == ETH_P_TEB { BPF_F_ADJ_ROOM_ENCAP_L2_ETH } else { 0 }
}

/// The IPv4 header an IPv4-outer tunnel starts from: the packet's own IPv4
/// header, or for an IPv6 packet (SIT) one built from its IPv6 header; and
/// the length of that inner network header.  `None` if it cannot be read.
pub open spec fn encap4_inner(p: Seq<u8>, encap_proto: u8) -> Option<(Seq<u8>, int)> {
    if encap_proto == IPPROTO_IPV6 {
        if p.len() < 54 {
            None
        } else {
            Some((
                seq![0x45u8, 0u8] + be16_bytes((40 + be16(p, 18)) as u16) + seq![
                    0u8,
                    0u8,
                    0u8,
                    0u8,
                    vstd::wrapping::u8_specs::wrapping_sub(p[21], 1),
                    p[20],
                    0u8,
                    0u8,
                ] + be32_bytes(0xc0a8_0101) + be32_bytes(0xc0a8_0102),
                40,
            ))
        }
    } else {
        if p.len() < 34 {
            None
        } else {
            Some((p.subrange(14, 34), 20))
        }
    }
}

/// The outer IPv4 header: the inner one with the total length grown by
/// `olen`, the tunnel protocol and a fresh checksum.
pub open spec fn outer_ip4(inner: Seq<u8>, olen: int, encap_proto: u8) -> Seq<u8> {
    let ip0 = inner.subrange(0, 2) + be16_bytes((olen + be16(inner, 2)) as u16) + inner.subrange(4, 9)
        + seq![encap_proto, 0u8, 0u8] + inner.subrange(12, 20);
    splice(ip0, 10, le16_bytes(spec_ipv4_check(ip0)))
}

/// The encapsulation plan of an IPv4-outer tunnel.
pub open spec fn spec_encap_ipv4(p: Seq<u8>, encap_proto: u8, l2_proto: u16, ext_proto: u16) -> EncapModel {
    match encap4_inner(p, encap_proto) {
        None => EncapModel::Pass,
        Some((inner, tcp_off)) => {
            if inner[0] % 16 != 5 || inner[9] != IPPROTO_TCP || p.len() < 14 + tcp_off + 20 || be16(
                p,
                14 + tcp_off + 2,
            ) != CFG_PORT {
                EncapModel::Pass
            } else {
                let (l2_len, udp_dst) = l2_params(l2_proto, ext_proto);
                let udp_len = (be16(inner, 2) + 8 + l2_len) as u16;
                match l4_bytes(encap_proto, true, l2_proto, udp_dst, udp_len) {
                    None => EncapModel::Pass,
                    Some(l4) => match l2_bytes(p, l2_proto, ext_proto) {
                        None => EncapModel::Shot,
                        Some(l2) => {
                            let olen = 20 + l4.len() + l2_len;
                            EncapModel::Encap {
                                olen,
                                flags: BPF_F_ADJ_ROOM_FIXED_GSO | BPF_F_ADJ_ROOM_ENCAP_L3_IPV4 | ((
                                l2_len as u64) << 56u64) | l4_flags(encap_proto) | l2_flags(l2_proto),
                                outer: outer_ip4(inner, olen, encap_proto) + l4 + l2,
                                eth_proto: if encap_proto == IPPROTO_IPV6 { Some(ETH_P_IP) } else { None },
                            }
                        },
                    },
                }
            }
        },
    }
}

/// The outer IPv6 header: the inner one with the payload length grown by
/// `olen` and the tunnel protocol as next header.
pub open spec fn outer_ip6(inner: Seq<u8>, olen: int, encap_proto: u8) -> Seq<u8> {
    inner.subrange(0, 4) + be16_bytes((olen + be16(inner, 4)) as u16) + seq![encap_proto] + inner.subrange(
        7,
        40,
    )
}

/// The encapsulation plan of an IPv6-outer tunnel.
pub open spec fn spec_encap_ipv6(p: Seq<u8>, encap_proto: u8, l2_proto: u16, ext_proto: u16) -> EncapModel {
    if p.len() < 54 || p.len() < 74 || be16(p, 56) != CFG_PORT {
        EncapModel::Pass
    } else {
        let inner = p.subrange(14, 54);
        let (l2_len, udp_dst) = l2_params(l2_proto, ext_proto);
        let udp_len = (be16(inner, 4) + 40 + 8 + l2_len) as u16;
        match l4_bytes(encap_proto, false, l2_proto, udp_dst, udp_len) {
            None => EncapModel::Pass,
            Some(l4) => match l2_bytes(p, l2_proto, ext_proto) {
                None => EncapModel::Shot,
                Some(l2) => {
                    let olen = 40 + l4.len() + l2_len;
                    EncapModel::Encap {
                        olen,
                        flags: BPF_F_ADJ_ROOM_FIXED_GSO | BPF_F_ADJ_ROOM_ENCAP_L3_IPV6 | ((l2_len as u64)
                            << 56u64) | l4_flags(encap_proto) | l2_flags(l2_proto),
                        outer: outer_ip6(inner, olen, encap_proto) + l4 + l2,
                        eth_proto: None,
                    }
                },
            },
        }
    }
}

/// The IPv6 header wrapping an IPv4 packet (4in6).
pub open spec fn ipip6_outer(p: Seq<u8>) -> Seq<u8> {
    let fd_addr = |last: u8| seq![0u8, 0xfdu8] + Seq::new(13, |i: int| 0u8) + seq![last];
    seq![0x60u8, 0u8, 0u8, 0u8] + p.subrange(16, 18) + seq![IPPROTO_IPIP, p[22]] + fd_addr(1u8) + fd_addr(2u8)
}

/// The encapsulation plan of the IPv4-in-IPv6 tunnel.
pub open spec fn spec_encap_ipv6_ipip6(p: Seq<u8>) -> EncapModel {
    if p.len() < 34 {
        EncapModel::Pass
    } else {
        let tcp_off = 14 + (p[14] % 16) * 4;
        if p.len() < tcp_off + 20 || be16(p, tcp_off + 2) != CFG_PORT {
            EncapModel::Pass
        } else {
            EncapModel::Encap {
                olen: 40,
                flags: BPF_F_ADJ_ROOM_FIXED_GSO | BPF_F_ADJ_ROOM_ENCAP_L3_IPV6,
                outer: ipip6_outer(p),
                eth_proto: Some(ETH_P_IPV6),
            }
        }
    }
}

/// The decapsulation plan for a tunnel header of protocol `proto` whose
/// network header spans `p[off..off + len]`.
pub open spec fn spec_decap_internal(p: Seq<u8>, off: int, len: int, proto: u8) -> DecapPlan {
    let base = BPF_F_ADJ_ROOM_FIXED_GSO;
    let at = off + len;
    if proto == IPPROTO_IPIP {
        DecapPlan::Decap { olen: len as u32, flags: base | BPF_F_ADJ_ROOM_DECAP_L3_IPV4 }
    } else if proto == IPPROTO_IPV6 {
        DecapPlan::Decap { olen: len as u32, flags: base | BPF_F_ADJ_ROOM_DECAP_L3_IPV6 }
    } else if proto == NEXTHDR_DEST {
        if p.len() < at + 2 {
            DecapPlan::Pass
        } else if p[at] == IPPROTO_IPIP {
            DecapPlan::Decap { olen: len as u32, flags: base | BPF_F_ADJ_ROOM_DECAP_L3_IPV4 }
        } else if p[at] == IPPROTO_IPV6 {
            DecapPlan::Decap { olen: len as u32, flags: base | BPF_F_ADJ_ROOM_DECAP_L3_IPV6 }
        } else {
            DecapPlan::Pass
        }
    } else if proto == IPPROTO_GRE {
        if p.len() < at + 4 {
            DecapPlan::Pass
        } else {
            let gp = be16(p, at + 2);
            let extra = if gp == ETH_P_MPLS_UC { 4int } else if gp == ETH_P_TEB { 14int } else { 0int };
            DecapPlan::Decap { olen: (len + 4 + extra) as u32, flags: base }
        }
    } else if proto == IPPROTO_UDP {
        if p.len() < at + 8 {
            DecapPlan::Pass
        } else {
            let dp = be16(p, at + 2);
            let extra = if dp == MPLS_OVER_UDP_PORT {
                4int
            } else if dp == ETH_OVER_UDP_PORT {
                14int
            } else if dp == VXLAN_UDP_PORT {
                22int
            } else {
                0int
            };
            DecapPlan::Decap { olen: (len + 8 + extra) as u32, flags: base }
        }
    } else {
        DecapPlan::Pass
    }
}

/// Decapsulation plan for an IPv4 outer header (options are not handled).
pub open spec fn spec_decap_ipv4(p: Seq<u8>) -> DecapPlan {
    if p.len() < 34 || p[14] % 16 != 5 {
        DecapPlan::Pass
    } else {
        spec_decap_internal(p, 14, 20, p[23])
    }
}

/// Decapsulation plan for an IPv6 outer header.
pub open spec fn spec_decap_ipv6(p: Seq<u8>) -> DecapPlan {
    if p.len() < 54 {
        DecapPlan::Pass
    } else {
        spec_decap_internal(p, 14, 40, p[20])
    }
}

/// The packet after an encapsulation plan is carried out.
pub open spec fn encapsulated(p: Seq<u8>, outer: Seq<u8>) -> Seq<u8> {
    p.subrange(0, 14) + outer + p.skip(14)
}

// ---------------------------------------------------------------------
// Executable code
// ---------------------------------------------------------------------

fn push_l2(out: &mut Vec<u8>, p: &[u8], l2_proto: u16, ext_proto: u16) -> (ok: bool)
    ensures
        ok == (l2_bytes(p@, l2_proto, ext_proto) is Some),
        ok ==> final(out)@ == old(out)@ + l2_bytes(p@, l2_proto, ext_proto).unwrap(),
        !ok ==> final(out)@ == old(out)@,
{
    if l2_proto == ETH_P_MPLS_UC {
        push_le32(out, mpls_label());
        proof {
            crate::bytes::lemma_le32_bytes_bswap(0x003e_81ff);
        }
        true
    } else if l2_proto == ETH_P_TEB {
        if p.len() < 14 {
            return false;
        }
        if ext_proto & EXTPROTO_VXLAN != 0 {
            assert(1u32 << 27u32 == 0x0800_0000) by (bit_vector);
            assert(VNI_ID << 8u32 == 0x0000_0100) by (bit_vector);
            push_le32(out, htonl(1u32 << 27u32));
            push_le32(out, htonl(VNI_ID << 8u32));
            proof {
                crate::bytes::lemma_le32_bytes_bswap(0x0800_0000);
                crate::bytes::lemma_le32_bytes_bswap(0x0000_0100);
            }
        }
        push_range(out, p, 0, 14);
        assert(out@ =~= old(out)@ + l2_bytes(p@, l2_proto, ext_proto).unwrap());
        true
    } else {
        assert(out@ =~= old(out)@ + Seq::<u8>::empty());
        true
    }
}

use crate::bytes::push_le32;

fn l2_params_exec(l2_proto: u16, ext_proto: u16) -> (r: (u32, u16))
    ensures
        (r.0 as int, r.1) == l2_params(l2_proto, ext_proto),
{
    if l2_proto == ETH_P_MPLS_UC {
        (4, MPLS_OVER_UDP_PORT)
    } else if l2_proto == ETH_P_TEB {
        if ext_proto & EXTPROTO_VXLAN != 0 {
            (22, VXLAN_UDP_PORT)
        } else {
            (14, ETH_OVER_UDP_PORT)
        }
    } else {
        (0, UDP_PORT)
    }
}

fn push_l4(out: &mut Vec<u8>, encap_proto: u8, ipv4: bool, l2_proto: u16, udp_dst: u16, udp_len: u16) -> (ok: bool)
    ensures
        ok == (l4_bytes(encap_proto, ipv4, l2_proto, udp_dst, udp_len) is Some),
        ok ==> final(out)@ == old(out)@ + l4_bytes(encap_proto, ipv4, l2_proto, udp_dst, udp_len).unwrap(),
        !ok ==> final(out)@ == old(out)@,
{
    if encap_proto == IPPROTO_GRE {
        out.push(0);
        out.push(0);
        push_be16(out, l2_proto);
        assert(out@ =~= old(out)@ + l4_bytes(encap_proto, ipv4, l2_proto, udp_dst, udp_len).unwrap());
        true
    } else if encap_proto == IPPROTO_UDP {
        push_be16(out, CFG_UDP_SRC);
        push_be16(out, udp_dst);
        push_be16(out, udp_len);
        out.push(0);
        out.push(0);
        assert(out@ =~= old(out)@ + l4_bytes(encap_proto, ipv4, l2_proto, udp_dst, udp_len).unwrap());
        true
    } else if encap_proto == IPPROTO_IPV6 || (ipv4 && encap_proto == IPPROTO_IPIP) {
        assert(out@ =~= old(out)@ + Seq::<u8>::empty());
        true
    } else {
        false
    }
}

fn l4_len(encap_proto: u8) -> (r: u32)
    ensures
        forall|ipv4: bool, l2p: u16, d: u16, l: u16|
            #![trigger l4_bytes(encap_proto, ipv4, l2p, d, l)]
            l4_bytes(encap_proto, ipv4, l2p, d, l) matches Some(b) ==> b.len() == r,
{
    if encap_proto == IPPROTO_GRE {
        4
    } else if encap_proto == IPPROTO_UDP {
        8
    } else {
        0
    }
}

fn l4_flags_exec(encap_proto: u8) -> (r: u64)
    ensures
        r == l4_flags(encap_proto),
{
    if encap_proto == IPPROTO_GRE {
        BPF_F_ADJ_ROOM_ENCAP_L4_GRE
    } else if encap_proto == IPPROTO_UDP {
        BPF_F_ADJ_ROOM_ENCAP_L4_UDP
    } else {
        0
    }
}

fn l2_flags_exec(l2_proto: u16) -> (r: u64)
    ensures
        r == l2_flags(l2_proto),
{
    if l2_proto == ETH_P_TEB {
        BPF_F_ADJ_ROOM_ENCAP_L2_ETH
    } else {
        0
    }
}

/// Reads the inner IPv4 header of an IPv4-outer tunnel (see
/// `encap4_inner`).
fn load_encap4_inner(p: &[u8], encap_proto: u8) -> (r: Option<(Vec<u8>, usize)>)
    ensures
        r matches Some((v, n)) ==> encap4_inner(p@, encap_proto) == Some((v@, n as int)),
        r is None ==> encap4_inner(p@, encap_proto) is None,
{
    let mut v: Vec<u8> = Vec::new();
    if encap_proto == IPPROTO_IPV6 {
        if p.len() < 54 {
            return None;
        }
        v.push(0x45);
        v.push(0);
        let payload_len = get_unaligned_be16(p, 18);
        push_be16(&mut v, (40u32 + payload_len as u32) as u16);
        v.push(0);
        v.push(0);
        v.push(0);
        v.push(0);
        v.push(p[21].wrapping_sub(1));
        v.push(p[20]);
        v.push(0);
        v.push(0);
        push_be32(&mut v, 0xc0a8_0101);
        push_be32(&mut v, 0xc0a8_0102);
        assert(v@ =~= encap4_inner(p@, encap_proto).unwrap().0);
        Some((v, 40))
    } else {
        if p.len() < 34 {
            return None;
        }
        push_range(&mut v, p, 14, 34);
        assert(v@ =~= p@.subrange(14, 34));
        Some((v, 20))
    }
}

/// An IPv4 header with its checksum field zeroed and then set to the
/// header's checksum.
pub open spec fn with_ipv4_csum(h: Seq<u8>) -> Seq<u8> {
    let h0 = splice(h, 10, le16_bytes(0));
    splice(h0, 10, le16_bytes(spec_ipv4_check(h0)))
}

/// Sets the checksum of the IPv4 header in the first 20 bytes of `iph`:
/// the field is zeroed, the header summed and the result stored.
pub fn set_ipv4_csum(iph: &mut Vec<u8>)
    requires
        old(iph)@.len() >= 20,
    ensures
        final(iph)@ == with_ipv4_csum(old(iph)@),
{
    set_le16(iph, 10, 0);
    let check = ipv4_check(iph.as_slice());
    set_le16(iph, 10, check);
}

/// Checksum law of [`set_ipv4_csum`]: the header it leaves verifies (its
/// folded, complemented word sum is zero), except where the single fold
/// of the computation overflows 16 bits.
pub proof fn lemma_set_ipv4_csum_verifies(h: Seq<u8>)
    requires
        h.len() >= 20,
        fold16(word_sum(splice(h, 10, le16_bytes(0)), 10) as int) <= 0xffff,
    ensures
        spec_csum_fold(word_sum(with_ipv4_csum(h), 10) as u32) == 0,
{
    let h0 = splice(h, 10, le16_bytes(0));
    assert(h0.len() == h.len());
    assert(h0[10] == 0 && h0[11] == 0);
    lemma_ipv4_check_verifies(h0);
}

fn build_outer_ip4(inner: &Vec<u8>, olen: u32, encap_proto: u8) -> (r: Vec<u8>)
    requires
        inner@.len() == 20,
        olen <= 100,
    ensures
        r@ == outer_ip4(inner@, olen as int, encap_proto),
{
    let mut ip: Vec<u8> = Vec::new();
    push_range(&mut ip, inner.as_slice(), 0, 2);
    let tot = get_unaligned_be16(inner.as_slice(), 2);
    push_be16(&mut ip, (olen + tot as u32) as u16);
    push_range(&mut ip, inner.as_slice(), 4, 9);
    ip.push(encap_proto);
    ip.push(0);
    ip.push(0);
    push_range(&mut ip, inner.as_slice(), 12, 20);
    let ghost ip0 = ip@;
    assert(ip0 =~= inner@.subrange(0, 2) + be16_bytes((olen + be16(inner@, 2)) as u16) + inner@.subrange(
        4,
        9,
    ) + seq![encap_proto, 0u8, 0u8] + inner@.subrange(12, 20));
    assert(splice(ip0, 10, le16_bytes(0)) =~= ip0);
    set_ipv4_csum(&mut ip);
    ip
}

/// Plans the encapsulation of an IPv4 TCP packet to port 8000 (or, for
/// `IPPROTO_IPV6`, an IPv6 one) in an IPv4 tunnel of protocol `encap_proto`
/// carrying L2 payload `l2_proto` (VXLAN when `ext_proto` says so).
pub fn __encap_ipv4(p: &[u8], encap_proto: u8, l2_proto: u16, ext_proto: u16) -> (r: EncapPlan)
    ensures
        r@ == spec_encap_ipv4(p@, encap_proto, l2_proto, ext_proto),
{
    let (inner, tcp_off) = match load_encap4_inner(p, encap_proto) {
        None => return EncapPlan::Pass,
        Some(x) => x,
    };
    if ip_ihl(inner[0]) != 5 || inner[9] != IPPROTO_TCP {
        return EncapPlan::Pass;
    }
    if p.len() < 14 + tcp_off + 20 {
        return EncapPlan::Pass;
    }
    if get_unaligned_be16(p, 14 + tcp_off + 2) != CFG_PORT {
        return EncapPlan::Pass;
    }
    let (l2_len, udp_dst) = l2_params_exec(l2_proto, ext_proto);
    let tot = get_unaligned_be16(inner.as_slice(), 2);
    let udp_len = (tot as u32 + 8 + l2_len) as u16;
    let mut tail: Vec<u8> = Vec::new();
    if !push_l4(&mut tail, encap_proto, true, l2_proto, udp_dst, udp_len) {
        return EncapPlan::Pass;
    }
    let l4n = l4_len(encap_proto);
    if !push_l2(&mut tail, p, l2_proto, ext_proto) {
        return EncapPlan::Shot;
    }
    let olen: u32 = 20 + l4n + l2_len;
    let flags: u64 = BPF_F_ADJ_ROOM_FIXED_GSO | BPF_F_ADJ_ROOM_ENCAP_L3_IPV4 | adj_room_encap_l2(
        l2_len as i32,
    ) | l4_flags_exec(encap_proto) | l2_flags_exec(l2_proto);
    assert(((l2_len as i32) as u64) & 0xff == l2_len as u64) by {
        assert(l2_len <= 22);
        let x = l2_len as u64;
        assert(x <= 22 ==> x & 0xff == x) by (bit_vector);
    }
    let mut outer = build_outer_ip4(&inner, olen, encap_proto);
    push_range(&mut outer, tail.as_slice(), 0, tail.len());
    assert(tail@.subrange(0, tail@.len() as int) =~= tail@);
    let eth_proto = if encap_proto == IPPROTO_IPV6 { Some(ETH_P_IP) } else { None };
    proof {
        let (sl2, sdst) = l2_params(l2_proto, ext_proto);
        assert(sl2 == l2_len && sdst == udp_dst);
        assert(udp_len == (be16(inner@, 2) + 8 + sl2) as u16);
        let l4 = l4_bytes(encap_proto, true, l2_proto, udp_dst, udp_len).unwrap();
        let l2 = l2_bytes(p@, l2_proto, ext_proto).unwrap();
        assert(l4.len() == l4n);
        assert(tail@ =~= l4 + l2);
        assert(outer@ =~= outer_ip4(inner@, olen as int, encap_proto) + l4 + l2);
    }
    EncapPlan::Encap { olen, flags, outer, eth_proto }
}

/// IPv4 tunnel without an extension protocol.
pub fn encap_ipv4(p: &[u8], encap_proto: u8, l2_proto: u16) -> (r: EncapPlan)
    ensures
        r@ == spec_encap_ipv4(p@, encap_proto, l2_proto, 0),
{
    __encap_ipv4(p, encap_proto, l2_proto, 0)
}

fn build_outer_ip6(inner: &[u8], olen: u32, encap_proto: u8) -> (r: Vec<u8>)
    requires
        inner@.len() == 40,
        olen <= 100,
    ensures
        r@ == outer_ip6(inner@, olen as int, encap_proto),
{
    let mut ip: Vec<u8> = Vec::new();
    push_range(&mut ip, inner, 0, 4);
    let plen = get_unaligned_be16(inner, 4);
    push_be16(&mut ip, (olen + plen as u32) as u16);
    ip.push(encap_proto);
    push_range(&mut ip, inner, 7, 40);
    assert(ip@ =~= outer_ip6(inner@, olen as int, encap_proto));
    ip
}

/// Plans the encapsulation of an IPv6 TCP packet to port 8000 in an IPv6
/// tunnel of protocol `encap_proto` carrying L2 payload `l2_proto`.
pub fn __encap_ipv6(p: &[u8], encap_proto: u8, l2_proto: u16, ext_proto: u16) -> (r: EncapPlan)
    ensures
        r@ == spec_encap_ipv6(p@, encap_proto, l2_proto, ext_proto),
{
    if p.len() < 54 {
        return EncapPlan::Pass;
    }
    if p.len() < 74 {
        return EncapPlan::Pass;
    }
    if get_unaligned_be16(p, 56) != CFG_PORT {
        return EncapPlan::Pass;
    }
    let mut inner: Vec<u8> = Vec::new();
    push_range(&mut inner, p, 14, 54);
    let (l2_len, udp_dst) = l2_params_exec(l2_proto, ext_proto);
    let plen = get_unaligned_be16(inner.as_slice(), 4);
    let udp_len = (plen as u32 + 40 + 8 + l2_len) as u16;
    let mut tail: Vec<u8> = Vec::new();
    if encap_proto == IPPROTO_IPIP {
        return EncapPlan::Pass;
    }
    if !push_l4(&mut tail, encap_proto, false, l2_proto, udp_dst, udp_len) {
        return EncapPlan::Pass;
    }
    let l4n = l4_len(encap_proto);
    if !push_l2(&mut tail, p, l2_proto, ext_proto) {
        return EncapPlan::Shot;
    }
    let olen: u32 = 40 + l4n + l2_len;
    let flags: u64 = BPF_F_ADJ_ROOM_FIXED_GSO | BPF_F_ADJ_ROOM_ENCAP_L3_IPV6 | adj_room_encap_l2(
        l2_len as i32,
    ) | l4_flags_exec(encap_proto) | l2_flags_exec(l2_proto);
    assert(((l2_len as i32) as u64) & 0xff == l2_len as u64) by {
        assert(l2_len <= 22);
        let x = l2_len as u64;
        assert(x <= 22 ==> x & 0xff == x) by (bit_vector);
    }
    let mut outer = build_outer_ip6(inner.as_slice(), olen, encap_proto);
    push_range(&mut outer, tail.as_slice(), 0, tail.len());
    assert(tail@.subrange(0, tail@.len() as int) =~= tail@);
    proof {
        assert(inner@ =~= p@.subrange(14, 54));
        let (sl2, sdst) = l2_params(l2_proto, ext_proto);
        assert(sl2 == l2_len && sdst == udp_dst);
        assert(udp_len == (be16(inner@, 4) + 40 + 8 + sl2) as u16);
        let l4 = l4_bytes(encap_proto, false, l2_proto, udp_dst, udp_len).unwrap();
        let l2 = l2_bytes(p@, l2_proto, ext_proto).unwrap();
        assert(l4.len() == l4n);
        assert(tail@ =~= l4 + l2);
        assert(outer@ =~= outer_ip6(inner@, olen as int, encap_proto) + l4 + l2);
    }
    EncapPlan::Encap { olen, flags, outer, eth_proto: None }
}

/// IPv6 tunnel without an extension protocol.
pub fn encap_ipv6(p: &[u8], encap_proto: u8, l2_proto: u16) -> (r: EncapPlan)
    ensures
        r@ == spec_encap_ipv6(p@, encap_proto, l2_proto, 0),
{
    __encap_ipv6(p, encap_proto, l2_proto, 0)
}

/// Plans the encapsulation of an IPv4 TCP packet to port 8000 in an IPv6
/// header (fd00::1 to fd00::2).
pub fn encap_ipv6_ipip6(p: &[u8]) -> (r: EncapPlan)
    ensures
        r@ == spec_encap_ipv6_ipip6(p@),
{
    if p.len() < 34 {
        return EncapPlan::Pass;
    }
    let ihl = ip_ihl(p[14]);
    let tcp_off = 14 + (ihl as usize) * 4;
    if p.len() < tcp_off + 20 {
        return EncapPlan::Pass;
    }
    if get_unaligned_be16(p, tcp_off + 2) != CFG_PORT {
        return EncapPlan::Pass;
    }
    let mut outer: Vec<u8> = Vec::new();
    outer.push(0x60);
    outer.push(0);
    outer.push(0);
    outer.push(0);
    push_range(&mut outer, p, 16, 18);
    outer.push(IPPROTO_IPIP);
    outer.push(p[22]);
    let mut k: usize = 0;
    while k < 2
        invariant
            k <= 2,
            outer@ == seq![0x60u8, 0u8, 0u8, 0u8] + p@.subrange(16, 18) + seq![IPPROTO_IPIP, p@[22]]
                + (if k >= 1 { seq![0u8, 0xfdu8] + Seq::new(13, |i: int| 0u8) + seq![1u8] } else { Seq::empty() })
                + (if k >= 2 { seq![0u8, 0xfdu8] + Seq::new(13, |i: int| 0u8) + seq![2u8] } else { Seq::empty() }),
        decreases 2 - k,
    {
        let ghost before = outer@;
        outer.push(0);
        outer.push(0xfd);
        let mut j: usize = 0;
        while j < 13
            invariant
                j <= 13,
                outer@ == before + seq![0u8, 0xfdu8] + Seq::new(j as nat, |i: int| 0u8),
            decreases 13 - j,
        {
            outer.push(0);
            j += 1;
            assert(outer@ =~= before + seq![0u8, 0xfdu8] + Seq::new(j as nat, |i: int| 0u8));
        }
        outer.push((k + 1) as u8);
        k += 1;
        assert(outer@ =~= seq![0x60u8, 0u8, 0u8, 0u8] + p@.subrange(16, 18) + seq![IPPROTO_IPIP, p@[22]]
            + (if k >= 1 { seq![0u8, 0xfdu8] + Seq::new(13, |i: int| 0u8) + seq![1u8] } else { Seq::empty() })
            + (if k >= 2 { seq![0u8, 0xfdu8] + Seq::new(13, |i: int| 0u8) + seq![2u8] } else { Seq::empty() }));
    }
    assert(outer@ =~= ipip6_outer(p@));
    EncapPlan::Encap {
        olen: 40,
        flags: BPF_F_ADJ_ROOM_FIXED_GSO | BPF_F_ADJ_ROOM_ENCAP_L3_IPV6,
        outer,
        eth_proto: Some(ETH_P_IPV6),
    }
}

/// Plans removing a tunnel header of protocol `proto` whose network header
/// spans `p[off..off + len]`.
pub fn decap_internal(p: &[u8], off: usize, len: usize, proto: u8) -> (r: DecapPlan)
    requires
        off + len <= usize::MAX - 8,
        len <= u32::MAX - 30,
    ensures
        r == spec_decap_internal(p@, off as int, len as int, proto),
{
    let base = BPF_F_ADJ_ROOM_FIXED_GSO;
    let at = off + len;
    if proto == IPPROTO_IPIP {
        DecapPlan::Decap { olen: len as u32, flags: base | BPF_F_ADJ_ROOM_DECAP_L3_IPV4 }
    } else if proto == IPPROTO_IPV6 {
        DecapPlan::Decap { olen: len as u32, flags: base | BPF_F_ADJ_ROOM_DECAP_L3_IPV6 }
    } else if proto == NEXTHDR_DEST {
        if p.len() < at + 2 {
            DecapPlan::Pass
        } else if p[at] == IPPROTO_IPIP {
            DecapPlan::Decap { olen: len as u32, flags: base | BPF_F_ADJ_ROOM_DECAP_L3_IPV4 }
        } else if p[at] == IPPROTO_IPV6 {
            DecapPlan::Decap { olen: len as u32, flags: base | BPF_F_ADJ_ROOM_DECAP_L3_IPV6 }
        } else {
            DecapPlan::Pass
        }
    } else if proto == IPPROTO_GRE {
        if p.len() < at + 4 {
            DecapPlan::Pass
        } else {
            let gp = get_unaligned_be16(p, at + 2);
            let extra: u32 = if gp == ETH_P_MPLS_UC { 4 } else if gp == ETH_P_TEB { 14 } else { 0 };
            DecapPlan::Decap { olen: len as u32 + 4 + extra, flags: base }
        }
    } else if proto == IPPROTO_UDP {
        if p.len() < at + 8 {
            DecapPlan::Pass
        } else {
            let dp = get_unaligned_be16(p, at + 2);
            let extra: u32 = if dp == MPLS_OVER_UDP_PORT {
                4
            } else if dp == ETH_OVER_UDP_PORT {
                14
            } else if dp == VXLAN_UDP_PORT {
                22
            } else {
                0
            };
            DecapPlan::Decap { olen: len as u32 + 8 + extra, flags: base }
        }
    } else {
        DecapPlan::Pass
    }
}

/// Plans removing an IPv4 tunnel header.
pub fn decap_ipv4(p: &[u8]) -> (r: DecapPlan)
    ensures
        r == spec_decap_ipv4(p@),
{
    if p.len() < 34 {
        return DecapPlan::Pass;
    }
    if ip_ihl(p[14]) != 5 {
        return DecapPlan::Pass;
    }
    decap_internal(p, 14, 20, p[23])
}

/// Plans removing an IPv6 tunnel header.
pub fn decap_ipv6(p: &[u8]) -> (r: DecapPlan)
    ensures
        r == spec_decap_ipv6(p@),
{
    if p.len() < 54 {
        return DecapPlan::Pass;
    }
    decap_internal(p, 14, 40, p[20])
}


/// `skb->protocol` (a raw, network-order value) names `eth_p`.
pub open spec fn skb_proto_is(protocol: u32, eth_p: u16) -> bool {
    protocol == bswap16(eth_p) as u32
}

fn skb_proto_is_exec(protocol: u32, eth_p: u16) -> (r: bool)
    ensures
        r == skb_proto_is(protocol, eth_p),
{
    protocol == htons(eth_p) as u32
}

/// Entry point: an IPv4-outer tunnel of protocol IPPROTO_IPIP carrying ETH_P_IP, for
/// packets whose `skb->protocol` is `ETH_P_IP`.
pub fn __encap_ipip_none(protocol: u32, p: &[u8]) -> (r: EncapPlan)
    ensures
        r@ == (if skb_proto_is(protocol, ETH_P_IP) { spec_encap_ipv4(p@, IPPROTO_IPIP, ETH_P_IP, 0) } else { EncapModel::Pass }),
{
    if skb_proto_is_exec(protocol, ETH_P_IP) {
        encap_ipv4(p, IPPROTO_IPIP, ETH_P_IP)
    } else {
        EncapPlan::Pass
    }
}

/// Entry point: an IPv4-outer tunnel of protocol IPPROTO_GRE carrying ETH_P_IP, for
/// packets whose `skb->protocol` is `ETH_P_IP`.
pub fn __encap_gre_none(protocol: u32, p: &[u8]) -> (r: EncapPlan)
    ensures
        r@ == (if skb_proto_is(protocol, ETH_P_IP) { spec_encap_ipv4(p@, IPPROTO_GRE, ETH_P_IP, 0) } else { EncapModel::Pass }),
{
    if skb_proto_is_exec(protocol, ETH_P_IP) {
        encap_ipv4(p, IPPROTO_GRE, ETH_P_IP)
    } else {
        EncapPlan::Pass
    }
}

/// Entry point: an IPv4-outer tunnel of protocol IPPROTO_GRE carrying ETH_P_MPLS_UC, for
/// packets whose `skb->protocol` is `ETH_P_IP`.
pub fn __encap_gre_mpls(protocol: u32, p: &[u8]) -> (r: EncapPlan)
    ensures
        r@ == (if skb_proto_is(protocol, ETH_P_IP) { spec_encap_ipv4(p@, IPPROTO_GRE, ETH_P_MPLS_UC, 0) } else { EncapModel::Pass }),
{
    if skb_proto_is_exec(protocol, ETH_P_IP) {
        encap_ipv4(p, IPPROTO_GRE, ETH_P_MPLS_UC)
    } else {
        EncapPlan::Pass
    }
}

/// Entry point: an IPv4-outer tunnel of protocol IPPROTO_GRE carrying ETH_P_TEB, for
/// packets whose `skb->protocol` is `ETH_P_IP`.
pub fn __encap_gre_eth(protocol: u32, p: &[u8]) -> (r: EncapPlan)
    ensures
        r@ == (if skb_proto_is(protocol, ETH_P_IP) { spec_encap_ipv4(p@, IPPROTO_GRE, ETH_P_TEB, 0) } else { EncapModel::Pass }),
{
    if skb_proto_is_exec(protocol, ETH_P_IP) {
        encap_ipv4(p, IPPROTO_GRE, ETH_P_TEB)
    } else {
        EncapPlan::Pass
    }
}

/// Entry point: an IPv4-outer tunnel of protocol IPPROTO_UDP carrying ETH_P_IP, for
/// packets whose `skb->protocol` is `ETH_P_IP`.
pub fn __encap_udp_none(protocol: u32, p: &[u8]) -> (r: EncapPlan)
    ensures
        r@ == (if skb_proto_is(protocol, ETH_P_IP) { spec_encap_ipv4(p@, IPPROTO_UDP, ETH_P_IP, 0) } else { EncapModel::Pass }),
{
    if skb_proto_is_exec(protocol, ETH_P_IP) {
        encap_ipv4(p, IPPROTO_UDP, ETH_P_IP)
    } else {
        EncapPlan::Pass
    }
}

/// Entry point: an IPv4-outer tunnel of protocol IPPROTO_UDP carrying ETH_P_MPLS_UC, for
/// packets whose `skb->protocol` is `ETH_P_IP`.
pub fn __encap_udp_mpls(protocol: u32, p: &[u8]) -> (r: EncapPlan)
    ensures
        r@ == (if skb_proto_is(protocol, ETH_P_IP) { spec_encap_ipv4(p@, IPPROTO_UDP, ETH_P_MPLS_UC, 0) } else { EncapModel::Pass }),
{
    if skb_proto_is_exec(protocol, ETH_P_IP) {
        encap_ipv4(p, IPPROTO_UDP, ETH_P_MPLS_UC)
    } else {
        EncapPlan::Pass
    }
}

/// Entry point: an IPv4-outer tunnel of protocol IPPROTO_UDP carrying ETH_P_TEB, for
/// packets whose `skb->protocol` is `ETH_P_IP`.
pub fn __encap_udp_eth(protocol: u32, p: &[u8]) -> (r: EncapPlan)
    ensures
        r@ == (if skb_proto_is(protocol, ETH_P_IP) { spec_encap_ipv4(p@, IPPROTO_UDP, ETH_P_TEB, 0) } else { EncapModel::Pass }),
{
    if skb_proto_is_exec(protocol, ETH_P_IP) {
        encap_ipv4(p, IPPROTO_UDP, ETH_P_TEB)
    } else {
        EncapPlan::Pass
    }
}

/// Entry point: an IPv4-outer tunnel of protocol IPPROTO_UDP carrying ETH_P_TEB over VXLAN, for
/// packets whose `skb->protocol` is `ETH_P_IP`.
pub fn __encap_vxlan_eth(protocol: u32, p: &[u8]) -> (r: EncapPlan)
    ensures
        r@ == (if skb_proto_is(protocol, ETH_P_IP) { spec_encap_ipv4(p@, IPPROTO_UDP, ETH_P_TEB, EXTPROTO_VXLAN) } else { EncapModel::Pass }),
{
    if skb_proto_is_exec(protocol, ETH_P_IP) {
        __encap_ipv4(p, IPPROTO_UDP, ETH_P_TEB, EXTPROTO_VXLAN)
    } else {
        EncapPlan::Pass
    }
}

/// Entry point: an IPv4-outer tunnel of protocol IPPROTO_IPV6 carrying ETH_P_IP, for
/// packets whose `skb->protocol` is `ETH_P_IPV6`.
pub fn __encap_sit_none(protocol: u32, p: &[u8]) -> (r: EncapPlan)
    ensures
        r@ == (if skb_proto_is(protocol, ETH_P_IPV6) { spec_encap_ipv4(p@, IPPROTO_IPV6, ETH_P_IP, 0) } else { EncapModel::Pass }),
{
    if skb_proto_is_exec(protocol, ETH_P_IPV6) {
        encap_ipv4(p, IPPROTO_IPV6, ETH_P_IP)
    } else {
        EncapPlan::Pass
    }
}

/// Entry point: an IPv6-outer tunnel of protocol IPPROTO_IPV6 carrying ETH_P_IPV6, for
/// packets whose `skb->protocol` is `ETH_P_IPV6`.
pub fn __encap_ip6tnl_none(protocol: u32, p: &[u8]) -> (r: EncapPlan)
    ensures
        r@ == (if skb_proto_is(protocol, ETH_P_IPV6) { spec_encap_ipv6(p@, IPPROTO_IPV6, ETH_P_IPV6, 0) } else { EncapModel::Pass }),
{
    if skb_proto_is_exec(protocol, ETH_P_IPV6) {
        encap_ipv6(p, IPPROTO_IPV6, ETH_P_IPV6)
    } else {
        EncapPlan::Pass
    }
}

/// Entry point: an IPv6-outer tunnel of protocol IPPROTO_GRE carrying ETH_P_IPV6, for
/// packets whose `skb->protocol` is `ETH_P_IPV6`.
pub fn __encap_ip6gre_none(protocol: u32, p: &[u8]) -> (r: EncapPlan)
    ensures
        r@ == (if skb_proto_is(protocol, ETH_P_IPV6) { spec_encap_ipv6(p@, IPPROTO_GRE, ETH_P_IPV6, 0) } else { EncapModel::Pass }),
{
    if skb_proto_is_exec(protocol, ETH_P_IPV6) {
        encap_ipv6(p, IPPROTO_GRE, ETH_P_IPV6)
    } else {
        EncapPlan::Pass
    }
}

/// Entry point: an IPv6-outer tunnel of protocol IPPROTO_GRE carrying ETH_P_MPLS_UC, for
/// packets whose `skb->protocol` is `ETH_P_IPV6`.
pub fn __encap_ip6gre_mpls(protocol: u32, p: &[u8]) -> (r: EncapPlan)
    ensures
        r@ == (if skb_proto_is(protocol, ETH_P_IPV6) { spec_encap_ipv6(p@, IPPROTO_GRE, ETH_P_MPLS_UC, 0) } else { EncapModel::Pass }),
{
    if skb_proto_is_exec(protocol, ETH_P_IPV6) {
        encap_ipv6(p, IPPROTO_GRE, ETH_P_MPLS_UC)
    } else {
        EncapPlan::Pass
    }
}

/// Entry point: an IPv6-outer tunnel of protocol IPPROTO_GRE carrying ETH_P_TEB, for
/// packets whose `skb->protocol` is `ETH_P_IPV6`.
pub fn __encap_ip6gre_eth(protocol: u32, p: &[u8]) -> (r: EncapPlan)
    ensures
        r@ == (if skb_proto_is(protocol, ETH_P_IPV6) { spec_encap_ipv6(p@, IPPROTO_GRE, ETH_P_TEB, 0) } else { EncapModel::Pass }),
{
    if skb_proto_is_exec(protocol, ETH_P_IPV6) {
        encap_ipv6(p, IPPROTO_GRE, ETH_P_TEB)
    } else {
        EncapPlan::Pass
    }
}

/// Entry point: an IPv6-outer tunnel of protocol IPPROTO_UDP carrying ETH_P_IPV6, for
/// packets whose `skb->protocol` is `ETH_P_IPV6`.
pub fn __encap_ip6udp_none(protocol: u32, p: &[u8]) -> (r: EncapPlan)
    ensures
        r@ == (if skb_proto_is(protocol, ETH_P_IPV6) { spec_encap_ipv6(p@, IPPROTO_UDP, ETH_P_IPV6, 0) } else { EncapModel::Pass }),
{
    if skb_proto_is_exec(protocol, ETH_P_IPV6) {
        encap_ipv6(p, IPPROTO_UDP, ETH_P_IPV6)
    } else {
        EncapPlan::Pass
    }
}

/// Entry point: an IPv6-outer tunnel of protocol IPPROTO_UDP carrying ETH_P_MPLS_UC, for
/// packets whose `skb->protocol` is `ETH_P_IPV6`.
pub fn __encap_ip6udp_mpls(protocol: u32, p: &[u8]) -> (r: EncapPlan)
    ensures
        r@ == (if skb_proto_is(protocol, ETH_P_IPV6) { spec_encap_ipv6(p@, IPPROTO_UDP, ETH_P_MPLS_UC, 0) } else { EncapModel::Pass }),
{
    if skb_proto_is_exec(protocol, ETH_P_IPV6) {
        encap_ipv6(p, IPPROTO_UDP, ETH_P_MPLS_UC)
    } else {
        EncapPlan::Pass
    }
}

/// Entry point: an IPv6-outer tunnel of protocol IPPROTO_UDP carrying ETH_P_TEB, for
/// packets whose `skb->protocol` is `ETH_P_IPV6`.
pub fn __encap_ip6udp_eth(protocol: u32, p: &[u8]) -> (r: EncapPlan)
    ensures
        r@ == (if skb_proto_is(protocol, ETH_P_IPV6) { spec_encap_ipv6(p@, IPPROTO_UDP, ETH_P_TEB, 0) } else { EncapModel::Pass }),
{
    if skb_proto_is_exec(protocol, ETH_P_IPV6) {
        encap_ipv6(p, IPPROTO_UDP, ETH_P_TEB)
    } else {
        EncapPlan::Pass
    }
}

/// Entry point: an IPv6-outer tunnel of protocol IPPROTO_UDP carrying ETH_P_TEB over VXLAN, for
/// packets whose `skb->protocol` is `ETH_P_IPV6`.
pub fn __encap_ip6vxlan_eth(protocol: u32, p: &[u8]) -> (r: EncapPlan)
    ensures
        r@ == (if skb_proto_is(protocol, ETH_P_IPV6) { spec_encap_ipv6(p@, IPPROTO_UDP, ETH_P_TEB, EXTPROTO_VXLAN) } else { EncapModel::Pass }),
{
    if skb_proto_is_exec(protocol, ETH_P_IPV6) {
        __encap_ipv6(p, IPPROTO_UDP, ETH_P_TEB, EXTPROTO_VXLAN)
    } else {
        EncapPlan::Pass
    }
}

/// Entry point: IPv4 in IPv6, for packets whose `skb->protocol` is IPv4.
pub fn __encap_ipip6_none(protocol: u32, p: &[u8]) -> (r: EncapPlan)
    ensures
        r@ == (if skb_proto_is(protocol, ETH_P_IP) { spec_encap_ipv6_ipip6(p@) } else { EncapModel::Pass }),
{
    if skb_proto_is_exec(protocol, ETH_P_IP) {
        encap_ipv6_ipip6(p)
    } else {
        EncapPlan::Pass
    }
}

/// Entry point of the decapsulator.
pub fn decap_f(protocol: u32, p: &[u8]) -> (r: DecapPlan)
    ensures
        r == (if skb_proto_is(protocol, ETH_P_IP) {
            spec_decap_ipv4(p@)
        } else if skb_proto_is(protocol, ETH_P_IPV6) {
            spec_decap_ipv6(p@)
        } else {
            DecapPlan::Pass
        }),
{
    if skb_proto_is_exec(protocol, ETH_P_IP) {
        decap_ipv4(p)
    } else if skb_proto_is_exec(protocol, ETH_P_IPV6) {
        decap_ipv6(p)
    } else {
        DecapPlan::Pass
    }
}

/// The tunnel and payload combinations whose header the decapsulator can
/// recognise: inner L2 payload only behind GRE or UDP, VXLAN only behind
/// UDP.
pub open spec fn decap_recognises(encap_proto: u8, l2_proto: u16, ext_proto: u16) -> bool {
    ||| l2_params(l2_proto, ext_proto).0 == 0
    ||| encap_proto == IPPROTO_UDP
    ||| (encap_proto == IPPROTO_GRE && !(l2_proto == ETH_P_TEB && ext_proto & EXTPROTO_VXLAN != 0))
}

/// Carrying out an encapsulation plan: the verdict and the calls made.
/// The room is opened first (any nonzero answer drops the packet), then
/// the outer headers are stored (a negative answer drops it), then, where
/// the Ethernet protocol changes, the Ethernet header is loaded and stored
/// back with it (a negative answer to either drops it).
pub open spec fn spec_encap_verdict(m: EncapModel, a: EncapAnswers) -> (i32, Seq<TunnelCall>) {
    match m {
        EncapModel::Pass => (TC_ACT_OK, seq![]),
        EncapModel::Shot => (TC_ACT_SHOT, seq![]),
        EncapModel::Encap { olen, flags, eth_proto, .. } => {
            let c1 = seq![TunnelCall::AdjustRoom { len_diff: olen as i64, flags }];
            if a.adjust_ret != 0 {
                (TC_ACT_SHOT, c1)
            } else {
                let c2 = c1.push(TunnelCall::StoreOuter { len: olen as u32 });
                if a.store_ret < 0 {
                    (TC_ACT_SHOT, c2)
                } else {
                    match eth_proto {
                        None => (TC_ACT_OK, c2),
                        Some(proto) => {
                            let c3 = c2.push(TunnelCall::LoadEth);
                            if a.eth_load_ret < 0 {
                                (TC_ACT_SHOT, c3)
                            } else {
                                let c4 = c3.push(TunnelCall::StoreEth { proto });
                                (if a.eth_store_ret < 0 { TC_ACT_SHOT } else { TC_ACT_OK }, c4)
                            }
                        },
                    }
                }
            }
        },
    }
}

/// Carries out an encapsulation plan (see [`spec_encap_verdict`]).
pub fn encap_verdict(plan: &EncapPlan, a: &EncapAnswers, calls: &mut Vec<TunnelCall>) -> (r: i32)
    ensures
        (r, final(calls)@) == ({
            let (v, cs) = spec_encap_verdict(plan@, *a);
            (v, old(calls)@ + cs)
        }),
{
    let ghost c0 = calls@;
    match plan {
        EncapPlan::Pass => {
            assert(calls@ =~= c0 + seq![]);
            TC_ACT_OK
        },
        EncapPlan::Shot => {
            assert(calls@ =~= c0 + seq![]);
            TC_ACT_SHOT
        },
        EncapPlan::Encap { olen, flags, eth_proto, .. } => {
            calls.push(TunnelCall::AdjustRoom { len_diff: *olen as i64, flags: *flags });
            if a.adjust_ret != 0 {
                assert(calls@ =~= c0 + spec_encap_verdict(plan@, *a).1);
                return TC_ACT_SHOT;
            }
            calls.push(TunnelCall::StoreOuter { len: *olen });
            if a.store_ret < 0 {
                assert(calls@ =~= c0 + spec_encap_verdict(plan@, *a).1);
                return TC_ACT_SHOT;
            }
            match eth_proto {
                None => {
                    assert(calls@ =~= c0 + spec_encap_verdict(plan@, *a).1);
                    TC_ACT_OK
                },
                Some(proto) => {
                    calls.push(TunnelCall::LoadEth);
                    if a.eth_load_ret < 0 {
                        assert(calls@ =~= c0 + spec_encap_verdict(plan@, *a).1);
                        return TC_ACT_SHOT;
                    }
                    calls.push(TunnelCall::StoreEth { proto: *proto });
                    assert(calls@ =~= c0 + spec_encap_verdict(plan@, *a).1);
                    if a.eth_store_ret < 0 {
                        TC_ACT_SHOT
                    } else {
                        TC_ACT_OK
                    }
                },
            }
        },
    }
}

/// Carrying out a decapsulation plan: the room is closed by the plan's
/// length (a nonzero answer drops the packet).
pub open spec fn spec_decap_verdict(d: DecapPlan, adjust_ret: i64) -> (i32, Seq<TunnelCall>) {
    match d {
        DecapPlan::Pass => (TC_ACT_OK, seq![]),
        DecapPlan::Decap { olen, flags } => (
            if adjust_ret != 0 { TC_ACT_SHOT } else { TC_ACT_OK },
            seq![TunnelCall::AdjustRoom { len_diff: (-(olen as int)) as i64, flags }],
        ),
    }
}

/// Carries out a decapsulation plan (see [`spec_decap_verdict`]).
pub fn decap_verdict(plan: &DecapPlan, adjust_ret: i64, calls: &mut Vec<TunnelCall>) -> (r: i32)
    ensures
        (r, final(calls)@) == ({
            let (v, cs) = spec_decap_verdict(*plan, adjust_ret);
            (v, old(calls)@ + cs)
        }),
{
    match plan {
        DecapPlan::Pass => {
            assert(calls@ =~= old(calls)@ + seq![]);
            TC_ACT_OK
        },
        DecapPlan::Decap { olen, flags } => {
            calls.push(TunnelCall::AdjustRoom { len_diff: -(*olen as i64), flags: *flags });
            if adjust_ret != 0 {
                TC_ACT_SHOT
            } else {
                TC_ACT_OK
            }
        },
    }
}

/// Round-trip law of the verdicts: where the kernel grants every call, an
/// IPv4-outer encapsulation the decapsulator recognises passes the packet
/// after opening `olen` bytes, and its decapsulation passes it after
/// closing exactly those `olen` bytes again.
pub proof fn lemma_encap_decap_verdicts(p: Seq<u8>, encap_proto: u8, l2_proto: u16, ext_proto: u16)
    requires
        decap_recognises(encap_proto, l2_proto, ext_proto),
    ensures
        spec_encap_ipv4(p, encap_proto, l2_proto, ext_proto) matches EncapModel::Encap { olen, outer, flags, .. } ==> ({
            let ok = EncapAnswers { adjust_ret: 0, store_ret: 0, eth_load_ret: 0, eth_store_ret: 0 };
            let (v1, c1) = spec_encap_verdict(spec_encap_ipv4(p, encap_proto, l2_proto, ext_proto), ok);
            let (v2, c2) = spec_decap_verdict(spec_decap_ipv4(encapsulated(p, outer)), 0);
            &&& v1 == TC_ACT_OK
            &&& c1[0] == TunnelCall::AdjustRoom { len_diff: olen as i64, flags }
            &&& v2 == TC_ACT_OK
            &&& c2.len() == 1
            &&& c2[0] matches TunnelCall::AdjustRoom { len_diff, flags: f } && len_diff == -(olen as i64)
                && f & BPF_F_ADJ_ROOM_FIXED_GSO != 0
        }),
{
    lemma_encap_ipv4_decap(p, encap_proto, l2_proto, ext_proto);
    if let EncapModel::Encap { olen, outer, .. } = spec_encap_ipv4(p, encap_proto, l2_proto, ext_proto) {
        let d = spec_decap_ipv4(encapsulated(p, outer));
        if let DecapPlan::Decap { olen: o2, flags: f } = d {
            assert(o2 == olen);
            assert(0 <= olen <= 100) by {
                let (l2_len, _u) = l2_params(l2_proto, ext_proto);
                assert(l2_len <= 22);
            }
            assert(f & BPF_F_ADJ_ROOM_FIXED_GSO != 0) by {
                let x = BPF_F_ADJ_ROOM_DECAP_L3_IPV4;
                let y = BPF_F_ADJ_ROOM_DECAP_L3_IPV6;
                assert((1u64 | x) & 1u64 != 0) by (bit_vector);
                assert((1u64 | y) & 1u64 != 0) by (bit_vector);
                assert(1u64 & 1u64 != 0) by (bit_vector);
            }
        }
    }
}

/// Tunnel law (IPv4 outer): decapsulating a packet encapsulated by the
/// IPv4 tunnel removes exactly the header the encapsulation added.  It
/// fails for payload combinations the decapsulator does not recognise
/// (an inner L2 header behind IP-in-IP, VXLAN behind GRE).
pub proof fn lemma_encap_ipv4_decap(p: Seq<u8>, encap_proto: u8, l2_proto: u16, ext_proto: u16)
    requires
        decap_recognises(encap_proto, l2_proto, ext_proto),
    ensures
        spec_encap_ipv4(p, encap_proto, l2_proto, ext_proto) matches EncapModel::Encap { olen, outer, .. }
            ==> spec_decap_ipv4(encapsulated(p, outer)) matches DecapPlan::Decap { olen: o2, .. } && o2
            == olen,
{
    if let EncapModel::Encap { olen, outer, .. } = spec_encap_ipv4(p, encap_proto, l2_proto, ext_proto) {
        let (inner, tcp_off) = encap4_inner(p, encap_proto).unwrap();
        let (l2_len, udp_dst) = l2_params(l2_proto, ext_proto);
        let udp_len = (be16(inner, 2) + 8 + l2_len) as u16;
        let l4 = l4_bytes(encap_proto, true, l2_proto, udp_dst, udp_len).unwrap();
        let l2 = l2_bytes(p, l2_proto, ext_proto).unwrap();
        let ip = outer_ip4(inner, olen, encap_proto);
        let ip0 = inner.subrange(0, 2) + be16_bytes((olen + be16(inner, 2)) as u16) + inner.subrange(4, 9)
            + seq![encap_proto, 0u8, 0u8] + inner.subrange(12, 20);
        assert(ip0.len() == 20);
        assert(ip.len() == 20);
        assert(ip[0] == inner[0]);
        assert(ip[9] == encap_proto);
        let q = encapsulated(p, outer);
        assert(outer == ip + l4 + l2);
        assert(q.len() >= 34 + l4.len());
        assert(q[14] == ip[0]);
        assert(q[23] == ip[9]);
        if encap_proto == IPPROTO_GRE {
            assert(q[36] == l4[2]);
            assert(q[37] == l4[3]);
            assert(be16(q, 36) == l2_proto);
        }
        if encap_proto == IPPROTO_UDP {
            assert(q[36] == l4[2]);
            assert(q[37] == l4[3]);
            assert(be16(q, 36) == udp_dst);
        }
    }
}

/// Tunnel law (IPv6 outer): decapsulating a packet encapsulated by the
/// IPv6 tunnel removes exactly the header the encapsulation added, for the
/// payload combinations the decapsulator recognises.
pub proof fn lemma_encap_ipv6_decap(p: Seq<u8>, encap_proto: u8, l2_proto: u16, ext_proto: u16)
    requires
        decap_recognises(encap_proto, l2_proto, ext_proto),
    ensures
        spec_encap_ipv6(p, encap_proto, l2_proto, ext_proto) matches EncapModel::Encap { olen, outer, .. }
            ==> spec_decap_ipv6(encapsulated(p, outer)) matches DecapPlan::Decap { olen: o2, .. } && o2
            == olen,
{
    if let EncapModel::Encap { olen, outer, .. } = spec_encap_ipv6(p, encap_proto, l2_proto, ext_proto) {
        let inner = p.subrange(14, 54);
        let (l2_len, udp_dst) = l2_params(l2_proto, ext_proto);
        let udp_len = (be16(inner, 4) + 40 + 8 + l2_len) as u16;
        let l4 = l4_bytes(encap_proto, false, l2_proto, udp_dst, udp_len).unwrap();
        let l2 = l2_bytes(p, l2_proto, ext_proto).unwrap();
        let ip = outer_ip6(inner, olen, encap_proto);
        assert(ip.len() == 40);
        assert(ip[6] == encap_proto);
        let q = encapsulated(p, outer);
        assert(outer == ip + l4 + l2);
        assert(q.len() >= 54 + l4.len());
        assert(q[20] == ip[6]);
        if encap_proto == IPPROTO_GRE {
            assert(q[56] == l4[2]);
            assert(q[57] == l4[3]);
            assert(be16(q, 56) == l2_proto);
        }
        if encap_proto == IPPROTO_UDP {
            assert(q[56] == l4[2]);
            assert(q[57] == l4[3]);
            assert(be16(q, 56) == udp_dst);
        }
    }
}

/// Tunnel law (IPv4 in IPv6): decapsulation removes exactly the IPv6
/// header the encapsulation added.
pub proof fn lemma_encap_ipip6_decap(p: Seq<u8>)
    ensures
        spec_encap_ipv6_ipip6(p) matches EncapModel::Encap { olen, outer, .. }
            ==> spec_decap_ipv6(encapsulated(p, outer)) == (DecapPlan::Decap {
            olen: olen as u32,
            flags: BPF_F_ADJ_ROOM_FIXED_GSO | BPF_F_ADJ_ROOM_DECAP_L3_IPV4,
        }),
{
    if let EncapModel::Encap { olen, outer, .. } = spec_encap_ipv6_ipip6(p) {
        let q = encapsulated(p, outer);
        assert(outer.len() == 40);
        assert(q[20] == outer[6]);
    }
}
} // verus!
