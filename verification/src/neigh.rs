//! Redirects between two hosts' namespaces: packets to the remote
//! endpoint get their MAC addresses cleared and are redirected through the
//! neighbour subsystem, either to a fixed interface or where a route lookup
//! says.  A guard program drops packets whose MAC addresses are still clear.
use vstd::prelude::*;
use crate::bytes::{bswap16, bswap32, get_le32, get_unaligned_be16, htonl, htons, le32};
use crate::balancer::words4;

verus! {

pub const TC_ACT_OK: i32 = 0;
pub const TC_ACT_SHOT: i32 = 2;
pub const ETH_P_IP: u16 = 0x0800;
pub const ETH_P_IPV6: u16 = 0x86dd;
pub const AF_INET: u8 = 2;
pub const AF_INET6: u8 = 10;
pub const ETH_ALEN: usize = 6;
pub const BPF_FIB_LKUP_RET_SUCCESS: i64 = 0;
pub const BPF_FIB_LKUP_RET_NOT_FWDED: i64 = 4;
pub const BPF_FIB_LKUP_RET_NO_NEIGH: i64 = 7;

/// 172.16.1.100 and 172.16.2.100.
pub const IP4_SRC: u32 = 0xac10_0164;
pub const IP4_DST: u32 = 0xac10_0264;
pub const IP6_SRC: [u8; 16] = [0, 0, 0, 0, 0, 0, 0, 0, 0, 0x01, 0xde, 0xad, 0xbe, 0xef, 0xca, 0xfe];
pub const IP6_DST: [u8; 16] = [0, 0, 0, 0, 0, 0, 0, 0, 0, 0x02, 0xde, 0xad, 0xbe, 0xef, 0xca, 0xfe];

/// A kernel helper call of the redirect programs.
#[derive(Clone, Copy)]
pub enum NeighCall {
    /// The first 12 bytes (the MAC addresses) are overwritten with zeros.
    ClearMacs,
    /// `bpf_redirect_neigh` to `ifindex`, toward the next hop of `family`
    /// at `addr` where one is given.
    RedirectNeigh { ifindex: u32, nh: Option<(u32, [u32; 4])> },
    /// `bpf_redirect` to `ifindex`.
    Redirect { ifindex: u32 },
    /// `bpf_fib_lookup` with these parameters.
    FibLookup { params: FibParams },
}

/// The route lookup's parameters and results.
#[derive(Clone, Copy)]
pub struct FibParams {
    pub family: u8,
    pub l4_protocol: u8,
    pub sport: u16,
    pub dport: u16,
    pub tot_len: u16,
    pub ifindex: u32,
    pub tos_flowinfo: u32,
    pub src: [u32; 4],
    pub dst: [u32; 4],
    pub smac: [u8; 6],
    pub dmac: [u8; 6],
}

/// Whether the 16 bytes at `p[off..]` are `addr`.
pub open spec fn bytes16_eq(p: Seq<u8>, off: int, addr: Seq<u8>) -> bool {
    p.subrange(off, off + 16) == addr
}

/// Whether the IPv6 destination at `p[off..off + 16]` is `addr`.
pub fn v6_daddr_equal(p: &[u8], off: usize, addr: &[u8; 16]) -> (r: bool)
    requires
        off + 16 <= p@.len(),
    ensures
        r == bytes16_eq(p@, off as int, addr@),
{
    let n = p.len();
    let mut i: usize = 0;
    while i < 16
        invariant
            i <= 16,
            n == p@.len(),
            off + 16 <= p@.len(),
            forall|j: int| 0 <= j < i ==> p@[off + j] == addr@[j],
        decreases 16 - i,
    {
        if p[off + i] != addr[i] {
            assert(p@.subrange(off as int, off + 16)[i as int] != addr@[i as int]);
            return false;
        }
        i += 1;
    }
    assert(p@.subrange(off as int, off + 16) =~= addr@);
    true
}

pub open spec fn spec_remote_v4(p: Seq<u8>, addr: u32) -> bool {
    p.len() >= 34 && le32(p, 30) == addr
}

pub open spec fn spec_remote_v6(p: Seq<u8>, addr: Seq<u8>) -> bool {
    p.len() >= 54 && bytes16_eq(p, 38, addr)
}

/// Whether an IPv4 packet goes to `addr` (raw, network order).
pub fn is_remote_ep_v4(p: &[u8], addr: u32) -> (r: bool)
    ensures
        r == spec_remote_v4(p@, addr),
{
    if p.len() < 34 {
        return false;
    }
    get_le32(p, 30) == addr
}

/// Whether an IPv6 packet goes to `addr`.
pub fn is_remote_ep_v6(p: &[u8], addr: &[u8; 16]) -> (r: bool)
    ensures
        r == spec_remote_v6(p@, addr@),
{
    if p.len() < 54 {
        return false;
    }
    v6_daddr_equal(p, 38, addr)
}

/// The redirect of a packet of `protocol` (raw): for the remote endpoint
/// (`v4_addr` in host order, `v6_addr`), clear the MAC addresses and
/// redirect to `ifindex`.  `store_ret` and `redirect_ret` are the kernel's
/// answers.
pub open spec fn spec_tc_redir(p: Seq<u8>, protocol: u32, v4_addr: u32, v6_addr: Seq<u8>, ifindex: u32, store_ret: i64, redirect_ret: i64) -> (i32, Seq<NeighCall>) {
    let redirect = if protocol == bswap16(ETH_P_IP) as u32 {
        spec_remote_v4(p, bswap32(v4_addr))
    } else if protocol == bswap16(ETH_P_IPV6) as u32 {
        spec_remote_v6(p, v6_addr)
    } else {
        false
    };
    if !redirect {
        (TC_ACT_OK, seq![])
    } else if store_ret < 0 {
        (TC_ACT_SHOT, seq![NeighCall::ClearMacs])
    } else {
        (redirect_ret as i32, seq![NeighCall::ClearMacs, NeighCall::RedirectNeigh { ifindex, nh: None }])
    }
}

/// Redirects packets to the remote endpoint (see [`spec_tc_redir`]).
pub fn tc_redir(p: &[u8], protocol: u32, v4_addr: u32, v6_addr: &[u8; 16], ifindex: u32, store_ret: i64, redirect_ret: i64, calls: &mut Vec<NeighCall>) -> (r: i32)
    ensures
        r == spec_tc_redir(p@, protocol, v4_addr, v6_addr@, ifindex, store_ret, redirect_ret).0,
        final(calls)@ == old(calls)@ + spec_tc_redir(p@, protocol, v4_addr, v6_addr@, ifindex, store_ret, redirect_ret).1,
{
    let redirect = if protocol == htons(ETH_P_IP) as u32 {
        is_remote_ep_v4(p, htonl(v4_addr))
    } else if protocol == htons(ETH_P_IPV6) as u32 {
        is_remote_ep_v6(p, v6_addr)
    } else {
        false
    };
    if !redirect {
        assert(calls@ =~= old(calls)@ + seq![]);
        return TC_ACT_OK;
    }
    calls.push(NeighCall::ClearMacs);
    if store_ret < 0 {
        assert(calls@ =~= old(calls)@ + seq![NeighCall::ClearMacs]);
        return TC_ACT_SHOT;
    }
    calls.push(NeighCall::RedirectNeigh { ifindex, nh: None });
    assert(calls@ =~= old(calls)@ + seq![NeighCall::ClearMacs, NeighCall::RedirectNeigh { ifindex, nh: None }]);
    redirect_ret as i32
}

/// Whether the MAC addresses of a frame are clear.
pub open spec fn macs_clear(p: Seq<u8>) -> bool {
    le32(p, 0) == 0 && le32(p, 4) == 0 && le32(p, 8) == 0
}

pub open spec fn spec_tc_chk(p: Seq<u8>) -> i32 {
    if p.len() < 14 || macs_clear(p) { TC_ACT_SHOT } else { TC_ACT_OK }
}

/// Drops frames that are too short or whose MAC addresses are clear.
pub fn tc_chk(p: &[u8]) -> (r: i32)
    ensures
        r == spec_tc_chk(p@),
{
    if p.len() < 14 {
        return TC_ACT_SHOT;
    }
    let r0 = get_le32(p, 0);
    let r1 = get_le32(p, 4);
    let r2 = get_le32(p, 8);
    if r0 == 0 && r1 == 0 && r2 == 0 {
        TC_ACT_SHOT
    } else {
        TC_ACT_OK
    }
}

/// Redirect on the destination side: toward the source host.
pub fn tc_dst(p: &[u8], protocol: u32, ifindex_src: u32, store_ret: i64, redirect_ret: i64, calls: &mut Vec<NeighCall>) -> (r: i32)
    ensures
        r == spec_tc_redir(p@, protocol, IP4_SRC, IP6_SRC@, ifindex_src, store_ret, redirect_ret).0,
        final(calls)@ == old(calls)@ + spec_tc_redir(p@, protocol, IP4_SRC, IP6_SRC@, ifindex_src, store_ret, redirect_ret).1,
{
    let a = IP6_SRC;
    tc_redir(p, protocol, IP4_SRC, &a, ifindex_src, store_ret, redirect_ret, calls)
}

/// Redirect on the source side: toward the destination host.
pub fn tc_src(p: &[u8], protocol: u32, ifindex_dst: u32, store_ret: i64, redirect_ret: i64, calls: &mut Vec<NeighCall>) -> (r: i32)
    ensures
        r == spec_tc_redir(p@, protocol, IP4_DST, IP6_DST@, ifindex_dst, store_ret, redirect_ret).0,
        final(calls)@ == old(calls)@ + spec_tc_redir(p@, protocol, IP4_DST, IP6_DST@, ifindex_dst, store_ret, redirect_ret).1,
{
    let a = IP6_DST;
    tc_redir(p, protocol, IP4_DST, &a, ifindex_dst, store_ret, redirect_ret, calls)
}

/// Redirect law: a packet a redirect program sends on has had its MAC
/// addresses cleared first, so the guard program would drop it if nothing filled
/// them in again.
pub proof fn lemma_redirect_clears(p: Seq<u8>, protocol: u32, v4_addr: u32, v6_addr: Seq<u8>, ifindex: u32, store_ret: i64, redirect_ret: i64)
    requires
        spec_tc_redir(p, protocol, v4_addr, v6_addr, ifindex, store_ret, redirect_ret).1.len() > 0,
    ensures
        spec_tc_redir(p, protocol, v4_addr, v6_addr, ifindex, store_ret, redirect_ret).1[0] matches NeighCall::ClearMacs,
        spec_tc_chk(Seq::new(12, |_i: int| 0u8) + p.skip(12)) == TC_ACT_SHOT,
{
}

/// Redirect choice law: a redirect program acts on a packet exactly when
/// it is an IPv4 packet (raw protocol 0x0008) whose destination address
/// (bytes 30..34) is the remote endpoint's address in network order, or an
/// IPv6 packet (raw 0xdd86) whose destination address (bytes 38..54) is the
/// remote endpoint's; other packets are let through with no call.
pub proof fn lemma_redirect_by_destination(p: Seq<u8>, protocol: u32, v4_addr: u32, v6_addr: Seq<u8>, ifindex: u32, store_ret: i64, redirect_ret: i64)
    ensures
        ({
            let (r, cs) = spec_tc_redir(p, protocol, v4_addr, v6_addr, ifindex, store_ret, redirect_ret);
            &&& protocol == 0x0008 ==> (cs.len() > 0 <==> (p.len() >= 34 && p.subrange(30, 34) == crate::bytes::be32_bytes(v4_addr)))
            &&& protocol == 0xdd86 ==> (cs.len() > 0 <==> (p.len() >= 54 && p.subrange(38, 54) == v6_addr))
            &&& (protocol != 0x0008 && protocol != 0xdd86) ==> (r == TC_ACT_OK && cs.len() == 0)
        }),
{
    assert(bswap16(ETH_P_IP) == 0x0008);
    assert(bswap16(ETH_P_IPV6) == 0xdd86);
    crate::bytes::lemma_le32_bytes_bswap(v4_addr);
    if p.len() >= 34 {
        crate::bytes::lemma_le32_bytes_of_read(p, 30);
        if p.subrange(30, 34) == crate::bytes::be32_bytes(v4_addr) {
            crate::bytes::lemma_le32_read(p, 30, bswap32(v4_addr));
        }
    }
}

// ---------------------------------------------------------------------
// Redirect after a route lookup
// ---------------------------------------------------------------------

/// All-zero lookup parameters.
pub open spec fn zero_fib() -> FibParams {
    FibParams {
        family: 0,
        l4_protocol: 0,
        sport: 0,
        dport: 0,
        tot_len: 0,
        ifindex: 0,
        tos_flowinfo: 0,
        src: [0u32, 0u32, 0u32, 0u32],
        dst: [0u32, 0u32, 0u32, 0u32],
        smac: [0u8, 0u8, 0u8, 0u8, 0u8, 0u8],
        dmac: [0u8, 0u8, 0u8, 0u8, 0u8, 0u8],
    }
}

pub open spec fn spec_fill_v4(p: Seq<u8>, f: FibParams) -> Option<FibParams> {
    if p.len() < 34 {
        None
    } else {
        Some(FibParams {
            family: AF_INET,
            tos_flowinfo: ((f.tos_flowinfo / 256) * 256 + p[15]) as u32,
            l4_protocol: p[23],
            sport: 0,
            dport: 0,
            tot_len: crate::bytes::be16(p, 16),
            src: [le32(p, 26), f.src[1], f.src[2], f.src[3]],
            dst: [le32(p, 30), f.dst[1], f.dst[2], f.dst[3]],
            ..f
        })
    }
}

pub open spec fn spec_fill_v6(p: Seq<u8>, f: FibParams) -> Option<FibParams> {
    if p.len() < 54 {
        None
    } else {
        Some(FibParams {
            family: AF_INET6,
            tos_flowinfo: 0,
            l4_protocol: p[20],
            sport: 0,
            dport: 0,
            tot_len: crate::bytes::be16(p, 18),
            src: words4(p, 22),
            dst: words4(p, 38),
            ..f
        })
    }
}

/// Fills the lookup parameters from an IPv4 header (-1: too short).
pub fn fill_fib_params_v4(p: &[u8], fib: &mut FibParams) -> (r: i32)
    ensures
        r == (if spec_fill_v4(p@, *old(fib)) is Some { 0i32 } else { -1i32 }),
        r == 0 ==> *final(fib) == spec_fill_v4(p@, *old(fib)).unwrap(),
        r != 0 ==> *final(fib) == *old(fib),
{
    if p.len() < 34 {
        return -1;
    }
    let ghost f = *fib;
    fib.family = AF_INET;
    fib.tos_flowinfo = (fib.tos_flowinfo / 256) * 256 + p[15] as u32;
    fib.l4_protocol = p[23];
    fib.sport = 0;
    fib.dport = 0;
    fib.tot_len = get_unaligned_be16(p, 16);
    fib.src[0] = get_le32(p, 26);
    fib.dst[0] = get_le32(p, 30);
    assert(fib.src =~= [le32(p@, 26), f.src[1], f.src[2], f.src[3]]);
    assert(fib.dst =~= [le32(p@, 30), f.dst[1], f.dst[2], f.dst[3]]);
    0
}

/// Fills the lookup parameters from an IPv6 header (-1: too short).
pub fn fill_fib_params_v6(p: &[u8], fib: &mut FibParams) -> (r: i32)
    ensures
        r == (if spec_fill_v6(p@, *old(fib)) is Some { 0i32 } else { -1i32 }),
        r == 0 ==> *final(fib) == spec_fill_v6(p@, *old(fib)).unwrap(),
        r != 0 ==> *final(fib) == *old(fib),
{
    if p.len() < 54 {
        return -1;
    }
    fib.family = AF_INET6;
    fib.tos_flowinfo = 0;
    fib.l4_protocol = p[20];
    fib.sport = 0;
    fib.dport = 0;
    fib.tot_len = get_unaligned_be16(p, 18);
    let s = [get_le32(p, 22), get_le32(p, 26), get_le32(p, 30), get_le32(p, 34)];
    let d = [get_le32(p, 38), get_le32(p, 42), get_le32(p, 46), get_le32(p, 50)];
    assert(s =~= words4(p@, 22));
    assert(d =~= words4(p@, 38));
    fib.src = s;
    fib.dst = d;
    0
}

/// The lookup parameters of a packet of `protocol` arriving on `ifindex`.
pub open spec fn fib_query(p: Seq<u8>, protocol: u32, ifindex: u32) -> Option<FibParams> {
    let f0 = FibParams { ifindex, ..zero_fib() };
    if protocol == bswap16(ETH_P_IP) as u32 {
        spec_fill_v4(p, f0)
    } else if protocol == bswap16(ETH_P_IPV6) as u32 {
        spec_fill_v6(p, f0)
    } else {
        None
    }
}

/// The frame with the MAC addresses the lookup found.
pub open spec fn with_fib_macs(p: Seq<u8>, f: FibParams) -> Seq<u8> {
    f.dmac@ + f.smac@ + p.skip(12)
}

/// The redirect after a route lookup: where the lookup forwards, clear the
/// MAC addresses, then redirect through the neighbour subsystem (no
/// neighbour yet) or with the found addresses.  `fib_ret`/`fib_out` are the
/// lookup's answer and the parameters it leaves; the others are the
/// kernel's answers.  Gives the verdict, the frame, and the calls.
pub open spec fn spec_tc_redir_fib(p: Seq<u8>, protocol: u32, ingress_ifindex: u32, fib_ret: i64, fib_out: FibParams, store_ret: i64, redirect_ret: i64) -> (i32, Seq<u8>, Seq<NeighCall>) {
    match fib_query(p, protocol, ingress_ifindex) {
        None => (TC_ACT_OK, p, seq![]),
        Some(q) => {
            let c0 = seq![NeighCall::FibLookup { params: q }];
            if fib_ret == BPF_FIB_LKUP_RET_NOT_FWDED || fib_ret < 0 {
                (TC_ACT_OK, p, c0)
            } else if store_ret < 0 {
                (TC_ACT_SHOT, p, c0.push(NeighCall::ClearMacs))
            } else {
                let cleared = Seq::new(12, |_i: int| 0u8) + p.skip(12);
                let c1 = c0.push(NeighCall::ClearMacs);
                if fib_ret == BPF_FIB_LKUP_RET_NO_NEIGH {
                    (redirect_ret as i32, cleared, c1.push(
                        NeighCall::RedirectNeigh { ifindex: fib_out.ifindex, nh: Some((fib_out.family as u32, fib_out.dst)) },
                    ))
                } else if fib_ret == BPF_FIB_LKUP_RET_SUCCESS {
                    (redirect_ret as i32, with_fib_macs(cleared, fib_out), c1.push(NeighCall::Redirect { ifindex: fib_out.ifindex }))
                } else {
                    (TC_ACT_SHOT, cleared, c1)
                }
            }
        },
    }
}

/// Route lookup law: the route-lookup redirect asks for the route from the
/// packet's source to its destination, on the interface it arrived on.
/// For an IPv4 frame (raw protocol 0x0008) of at least 34 bytes, its first
/// call is a lookup of family `AF_INET` whose `src[0]` is the IP header's
/// source address word (bytes 26..30) and whose `dst[0]` is its destination
/// address word (bytes 30..34); for an IPv6 frame (raw 0xdd86) of at least
/// 54 bytes, the source words are bytes 22..38 and the destination words
/// bytes 38..54.  Frames of any other protocol are let through untouched,
/// with no call.
pub proof fn lemma_fib_lookup_toward_destination(
    p: Seq<u8>,
    protocol: u32,
    ingress_ifindex: u32,
    fib_ret: i64,
    fib_out: FibParams,
    store_ret: i64,
    redirect_ret: i64,
)
    ensures
        ({
            let (r, q, cs) = spec_tc_redir_fib(p, protocol, ingress_ifindex, fib_ret, fib_out, store_ret, redirect_ret);
            &&& (protocol == 0x0008 && p.len() >= 34) ==> (cs.len() >= 1 && (cs[0] matches NeighCall::FibLookup { params }
                && params.family == AF_INET && params.ifindex == ingress_ifindex && params.src[0] == le32(p, 26)
                && params.dst[0] == le32(p, 30)))
            &&& (protocol == 0xdd86 && p.len() >= 54) ==> (cs.len() >= 1 && (cs[0] matches NeighCall::FibLookup { params }
                && params.family == AF_INET6 && params.ifindex == ingress_ifindex && params.src[0] == le32(p, 22)
                && params.src[1] == le32(p, 26) && params.src[2] == le32(p, 30) && params.src[3] == le32(p, 34)
                && params.dst[0] == le32(p, 38) && params.dst[1] == le32(p, 42) && params.dst[2] == le32(p, 46)
                && params.dst[3] == le32(p, 50)))
            &&& (protocol != 0x0008 && protocol != 0xdd86) ==> (r == TC_ACT_OK && q == p && cs.len() == 0)
        }),
{
    assert(bswap16(ETH_P_IP) == 0x0008);
    assert(bswap16(ETH_P_IPV6) == 0xdd86);
}

fn zero_params(ifindex: u32) -> (r: FibParams)
    ensures
        r == (FibParams { ifindex, ..zero_fib() }),
{
    let r = FibParams {
        family: 0,
        l4_protocol: 0,
        sport: 0,
        dport: 0,
        tot_len: 0,
        ifindex,
        tos_flowinfo: 0,
        src: [0, 0, 0, 0],
        dst: [0, 0, 0, 0],
        smac: [0, 0, 0, 0, 0, 0],
        dmac: [0, 0, 0, 0, 0, 0],
    };
    r
}

/// The route-lookup redirect (see [`spec_tc_redir_fib`]).
pub fn tc_redir_fib(p: &mut Vec<u8>, protocol: u32, ingress_ifindex: u32, fib_ret: i64, fib_out: &FibParams, store_ret: i64, redirect_ret: i64, calls: &mut Vec<NeighCall>) -> (r: i32)
    ensures
        ({
            let (r0, q, cs) = spec_tc_redir_fib(old(p)@, protocol, ingress_ifindex, fib_ret, *fib_out, store_ret, redirect_ret);
            &&& r == r0
            &&& final(p)@ == q
            &&& final(calls)@ == old(calls)@ + cs
        }),
{
    let mut fib = zero_params(ingress_ifindex);
    let ret = if protocol == htons(ETH_P_IP) as u32 {
        fill_fib_params_v4(p.as_slice(), &mut fib)
    } else if protocol == htons(ETH_P_IPV6) as u32 {
        fill_fib_params_v6(p.as_slice(), &mut fib)
    } else {
        -1
    };
    if ret != 0 {
        assert(calls@ =~= old(calls)@ + seq![]);
        return TC_ACT_OK;
    }
    calls.push(NeighCall::FibLookup { params: fib });
    if fib_ret == BPF_FIB_LKUP_RET_NOT_FWDED || fib_ret < 0 {
        return TC_ACT_OK;
    }
    calls.push(NeighCall::ClearMacs);
    if store_ret < 0 {
        return TC_ACT_SHOT;
    }
    let ghost p0 = p@;
    let mut i: usize = 0;
    while i < 12
        invariant
            i <= 12,
            p0.len() >= 34,
            p@.len() == p0.len(),
            forall|j: int| 0 <= j < i ==> p@[j] == 0,
            forall|j: int| i <= j < p0.len() ==> p@[j] == p0[j],
        decreases 12 - i,
    {
        p.set(i, 0);
        i += 1;
    }
    assert(p@ =~= Seq::new(12, |_i: int| 0u8) + p0.skip(12));
    if fib_ret == BPF_FIB_LKUP_RET_NO_NEIGH {
        calls.push(NeighCall::RedirectNeigh { ifindex: fib_out.ifindex, nh: Some((fib_out.family as u32, fib_out.dst)) });
        redirect_ret as i32
    } else if fib_ret == BPF_FIB_LKUP_RET_SUCCESS {
        let ghost p1 = p@;
        let mut k: usize = 0;
        while k < ETH_ALEN
            invariant
                k <= ETH_ALEN,
                p@.len() == p1.len(),
                p1.len() >= 34,
                forall|j: int| 0 <= j < k ==> #[trigger] p@[j] == fib_out.dmac@[j],
                forall|j: int| 6 <= j < k + 6 ==> #[trigger] p@[j] == fib_out.smac@[j - 6],
                forall|j: int| k <= j < 6 ==> #[trigger] p@[j] == p1[j],
                forall|j: int| k + 6 <= j < 12 ==> #[trigger] p@[j] == p1[j],
                forall|j: int| 12 <= j < p1.len() ==> #[trigger] p@[j] == p1[j],
            decreases ETH_ALEN - k,
        {
            p.set(k, fib_out.dmac[k]);
            p.set(k + 6, fib_out.smac[k]);
            k += 1;
        }
        assert(p@ =~= with_fib_macs(p1, *fib_out));
        calls.push(NeighCall::Redirect { ifindex: fib_out.ifindex });
        redirect_ret as i32
    } else {
        TC_ACT_SHOT
    }
}

} // verus!
