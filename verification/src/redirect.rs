//! Packet-marking programs around XDP redirects (a marker byte after the
//! headers records where the packet has been), and a classifier that
//! changes a UDP packet's length as its first payload byte asks.
use vstd::prelude::*;
use crate::bytes::get_le32;
use crate::bytes::le32;
use crate::ctx::{XDP_ABORTED, XDP_DROP, XDP_PASS};

verus! {

pub const XDP_REDIRECT: i32 = 4;
pub const IPPROTO_UDP: u8 = 17;
pub const MARK_XMIT: u8 = 0x00;
pub const MARK_IN: u8 = 0x42;
pub const MARK_SKB: u8 = 0x45;
/// Offset of the payload: Ethernet, IPv6 and UDP headers.
pub const HDR_SZ: usize = 62;
pub const IPV6_NEXTHDR_OFF: usize = 20;

/// The redirect program's settings and counters.
#[derive(Clone, Copy)]
pub struct RedirectState {
    pub ifindex_in: i32,
    pub ifindex_out: i32,
    pub pkts_seen_zero: i32,
    pub retcode: i32,
}

/// A kernel helper call of the redirect program.
#[derive(Clone, Copy, PartialEq, Eq, Structural)]
pub enum RedirectCall {
    /// The metadata area shrinks by `delta` bytes.
    AdjustMeta { delta: i32 },
    /// `bpf_redirect(ifindex)`.
    Redirect { ifindex: u32 },
}

/// The redirect program on one packet (with metadata `meta`): checks it
/// arrived where expected carrying the metadata marker, marks the payload,
/// drops the marker, and returns the configured verdict, stepping it down
/// toward XDP_PASS.  `adjust_ret`/`redirect_ret` are the kernel's answers.
pub open spec fn spec_xdp_redirect(p: Seq<u8>, meta: Seq<u8>, ingress_ifindex: u32, s: RedirectState, adjust_ret: i64, redirect_ret: i64) -> (i32, Seq<u8>, RedirectState, Seq<RedirectCall>) {
    let ret = s.retcode;
    if p.len() < HDR_SZ + 1 || ingress_ifindex != s.ifindex_in as u32 || meta.len() < 4 || le32(meta, 0) != 0x42 {
        (XDP_ABORTED, p, s, seq![])
    } else {
        let s1 = if p[HDR_SZ as int] == MARK_XMIT {
            RedirectState { pkts_seen_zero: vstd::wrapping::i32_specs::wrapping_add(s.pkts_seen_zero, 1), ..s }
        } else {
            s
        };
        let q = p.update(HDR_SZ as int, MARK_IN);
        let c0 = seq![RedirectCall::AdjustMeta { delta: 8 }];
        if adjust_ret != 0 {
            (XDP_ABORTED, q, s1, c0)
        } else {
            let s2 = if ret > XDP_PASS { RedirectState { retcode: (ret - 1) as i32, ..s1 } } else { s1 };
            if ret == XDP_REDIRECT {
                (redirect_ret as i32, q, s2, c0.push(RedirectCall::Redirect { ifindex: s.ifindex_out as u32 }))
            } else {
                (ret, q, s2, c0)
            }
        }
    }
}

/// The redirect program (see [`spec_xdp_redirect`]).
pub fn xdp_redirect(p: &mut Vec<u8>, meta: &[u8], ingress_ifindex: u32, s: &mut RedirectState, adjust_ret: i64, redirect_ret: i64, calls: &mut Vec<RedirectCall>) -> (r: i32)
    ensures
        ({
            let (r0, q, s1, cs) = spec_xdp_redirect(old(p)@, meta@, ingress_ifindex, *old(s), adjust_ret, redirect_ret);
            &&& r == r0
            &&& final(p)@ == q
            &&& *final(s) == s1
            &&& final(calls)@ == old(calls)@ + cs
        }),
{
    let ret = s.retcode;
    if p.len() < HDR_SZ + 1 {
        assert(calls@ =~= old(calls)@ + seq![]);
        return XDP_ABORTED;
    }
    if ingress_ifindex != s.ifindex_in as u32 {
        assert(calls@ =~= old(calls)@ + seq![]);
        return XDP_ABORTED;
    }
    if meta.len() < 4 {
        assert(calls@ =~= old(calls)@ + seq![]);
        return XDP_ABORTED;
    }
    if get_le32(meta, 0) != 0x42 {
        assert(calls@ =~= old(calls)@ + seq![]);
        return XDP_ABORTED;
    }
    if p[HDR_SZ] == MARK_XMIT {
        s.pkts_seen_zero = s.pkts_seen_zero.wrapping_add(1);
    }
    p.set(HDR_SZ, MARK_IN);
    calls.push(RedirectCall::AdjustMeta { delta: 8 });
    if adjust_ret != 0 {
        return XDP_ABORTED;
    }
    if ret > XDP_PASS {
        s.retcode = ret - 1;
    }
    if ret == XDP_REDIRECT {
        calls.push(RedirectCall::Redirect { ifindex: s.ifindex_out as u32 });
        return redirect_ret as i32;
    }
    ret
}

pub open spec fn spec_check_pkt(p: Seq<u8>) -> bool {
    p.len() >= HDR_SZ + 1 && p[IPV6_NEXTHDR_OFF as int] == IPPROTO_UDP && p[HDR_SZ as int] == MARK_IN
}

/// The program that redirects every packet to interface 111: the call it
/// makes, and as verdict the helper's answer `redirect_ret` (truncated).
pub fn xdp_redirect_to_111(redirect_ret: i64, calls: &mut Vec<RedirectCall>) -> (r: i32)
    ensures
        r == redirect_ret as i32,
        final(calls)@ == old(calls)@.push(RedirectCall::Redirect { ifindex: 111 }),
{
    calls.push(RedirectCall::Redirect { ifindex: 111 });
    redirect_ret as i32
}

/// The program that redirects every packet to interface 222.
pub fn xdp_redirect_to_222(redirect_ret: i64, calls: &mut Vec<RedirectCall>) -> (r: i32)
    ensures
        r == redirect_ret as i32,
        final(calls)@ == old(calls)@.push(RedirectCall::Redirect { ifindex: 222 }),
{
    calls.push(RedirectCall::Redirect { ifindex: 222 });
    redirect_ret as i32
}

/// Whether the packet is a marked UDP test packet; if so its marker is
/// replaced with `mark`.
pub fn check_pkt(p: &mut Vec<u8>, mark: u8) -> (r: bool)
    ensures
        r == spec_check_pkt(old(p)@),
        r ==> final(p)@ == old(p)@.update(HDR_SZ as int, mark),
        !r ==> final(p)@ == old(p)@,
{
    if p.len() < HDR_SZ + 1 {
        return false;
    }
    let nexthdr = p[IPV6_NEXTHDR_OFF];
    let payload_val = p[HDR_SZ];
    if nexthdr != IPPROTO_UDP || payload_val != MARK_IN {
        return false;
    }
    p.set(HDR_SZ, mark);
    true
}

/// Counts marked packets that reach XDP (re-marking them as sent); drops.
pub fn xdp_count_pkts(p: &mut Vec<u8>, pkts_seen_xdp: &mut i32) -> (r: i32)
    ensures
        r == XDP_DROP,
        spec_check_pkt(old(p)@) ==> final(p)@ == old(p)@.update(HDR_SZ as int, MARK_XMIT)
            && *final(pkts_seen_xdp) == vstd::wrapping::i32_specs::wrapping_add(*old(pkts_seen_xdp), 1),
        !spec_check_pkt(old(p)@) ==> final(p)@ == old(p)@ && *final(pkts_seen_xdp) == *old(pkts_seen_xdp),
{
    if check_pkt(p, MARK_XMIT) {
        *pkts_seen_xdp = pkts_seen_xdp.wrapping_add(1);
    }
    XDP_DROP
}

/// Counts marked packets that reach the stack (re-marking them); returns 0.
pub fn tc_count_pkts(p: &mut Vec<u8>, pkts_seen_tc: &mut i32) -> (r: i32)
    ensures
        r == 0,
        spec_check_pkt(old(p)@) ==> final(p)@ == old(p)@.update(HDR_SZ as int, MARK_SKB)
            && *final(pkts_seen_tc) == vstd::wrapping::i32_specs::wrapping_add(*old(pkts_seen_tc), 1),
        !spec_check_pkt(old(p)@) ==> final(p)@ == old(p)@ && *final(pkts_seen_tc) == *old(pkts_seen_tc),
{
    if check_pkt(p, MARK_SKB) {
        *pkts_seen_tc = pkts_seen_tc.wrapping_add(1);
    }
    0
}

/// Marking law: a packet marked on the way in, then counted at XDP, is
/// back to the "sent" marker, and counting it again does nothing.
pub proof fn lemma_mark_roundtrip(p: Seq<u8>)
    requires
        spec_check_pkt(p),
    ensures
        !spec_check_pkt(p.update(HDR_SZ as int, MARK_XMIT)),
        p.update(HDR_SZ as int, MARK_XMIT).update(HDR_SZ as int, MARK_IN) == p.update(HDR_SZ as int, MARK_IN),
{
    assert(p.update(HDR_SZ as int, MARK_XMIT).update(HDR_SZ as int, MARK_IN) =~= p.update(HDR_SZ as int, MARK_IN));
}

// ---------------------------------------------------------------------
// Changing the tail
// ---------------------------------------------------------------------

pub const TCX_PASS: i32 = 0;
pub const TCX_DROP: i32 = 2;
pub const BPF_SKB_MAX_LEN: u32 = 16384;

/// A kernel helper call of the tail-changing classifier.
#[derive(Clone, Copy, PartialEq, Eq, Structural)]
pub enum TailCall {
    /// The first `len` bytes are made linear.
    PullData { len: u32 },
    /// The packet's length is changed to `len`.
    ChangeTail { len: u32 },
}

/// The IPv4 protocol of the packet, if it has an IPv4 header of at least
/// 20 bytes.
pub open spec fn spec_parse_ip(p: Seq<u8>) -> Option<u8> {
    if p.len() < 34 || p[14] / 16 != 4 || p[14] % 16 < 5 { None } else { Some(p[23]) }
}

/// Reads the IPv4 header: gives its offset, and its protocol in `ip_proto`.
pub fn parse_ip_header(p: &[u8], ip_proto: &mut i32) -> (r: Option<usize>)
    ensures
        r is Some == spec_parse_ip(p@) is Some,
        r matches Some(off) ==> off == 14 && *final(ip_proto) == spec_parse_ip(p@).unwrap() as i32,
        r is None ==> *final(ip_proto) == *old(ip_proto),
{
    if p.len() < 34 {
        return None;
    }
    let ihl_version = p[14];
    let version = ihl_version >> 4u8;
    let ihl = ihl_version & 0xF;
    assert(version == ihl_version / 16 && ihl == ihl_version % 16) by (bit_vector)
        requires
            version == ihl_version >> 4u8,
            ihl == ihl_version & 0xF,
    ;
    if version != 4 {
        return None;
    }
    if ihl < 5 {
        return None;
    }
    *ip_proto = p[23] as i32;
    Some(14)
}

/// The offset of the UDP header after the IPv4 header, if it fits.
pub fn parse_udp_header(p: &[u8], iph: usize) -> (r: Option<usize>)
    requires
        iph + 20 <= p@.len(),
    ensures
        r == (if iph + (p@[iph as int] % 16) * 4 + 8 > p@.len() { None } else { Some((iph + (p@[iph as int] % 16) * 4) as usize) }),
{
    let b = p[iph];
    let ihl = b & 0xF;
    assert(ihl == b % 16) by (bit_vector)
        requires
            ihl == b & 0xF,
    ;
    let n = p.len();
    let room = n - iph;
    let hl = (ihl as usize) * 4;
    if hl > room || room - hl < 8 {
        return None;
    }
    Some(iph + hl)
}

/// The classifier on a packet of length `len` whose linear data is `p`:
/// for a UDP packet, the first payload byte selects a change of length
/// (`T`: one less, `G`: one more, both then undone; `E`: the maximum; `Z`:
/// zero); any other byte drops.  `ret1` is the answer to the first change,
/// recorded in `change_tail_ret`.
pub open spec fn spec_change_tail(p: Seq<u8>, len: u32, ret1: i64, change_tail_ret: i64) -> (i32, i64, Seq<TailCall>) {
    let c0 = seq![TailCall::PullData { len }];
    match spec_parse_ip(p) {
        None => (TCX_PASS, change_tail_ret, c0),
        Some(proto) => if proto != IPPROTO_UDP {
            (TCX_PASS, change_tail_ret, c0)
        } else {
            let udp = 14 + (p[14] % 16) * 4;
            if udp + 8 > p.len() || udp + 9 > p.len() {
                (TCX_PASS, change_tail_ret, c0)
            } else {
                let b = p[udp + 8];
                let undo = if ret1 == 0 { seq![TailCall::ChangeTail { len }] } else { seq![] };
                if b == 84 {
                    (TCX_PASS, ret1, c0 + seq![TailCall::ChangeTail { len: (len as i32 - 1) as u32 }] + undo)
                } else if b == 71 {
                    (TCX_PASS, ret1, c0 + seq![TailCall::ChangeTail { len: (len as i32 + 1) as u32 }] + undo)
                } else if b == 69 {
                    (TCX_PASS, ret1, c0.push(TailCall::ChangeTail { len: BPF_SKB_MAX_LEN }))
                } else if b == 90 {
                    (TCX_PASS, ret1, c0.push(TailCall::ChangeTail { len: 0 }))
                } else {
                    (TCX_DROP, change_tail_ret, c0)
                }
            }
        },
    }
}

/// The tail-changing classifier (see [`spec_change_tail`]).
pub fn change_tail(p: &[u8], len: u32, ret1: i64, change_tail_ret: &mut i64, calls: &mut Vec<TailCall>) -> (r: i32)
    requires
        len <= 0x7fff_fffe,
    ensures
        ({
            let (r0, ct, cs) = spec_change_tail(p@, len, ret1, *old(change_tail_ret));
            &&& r == r0
            &&& *final(change_tail_ret) == ct
            &&& final(calls)@ == old(calls)@ + cs
        }),
{
    let l = len as i32;
    calls.push(TailCall::PullData { len: l as u32 });
    let ghost c0 = calls@;
    let mut ip_proto: i32 = 0;
    let iph = match parse_ip_header(p, &mut ip_proto) {
        Some(o) => o,
        None => {
            return TCX_PASS;
        },
    };
    if ip_proto != IPPROTO_UDP as i32 {
        return TCX_PASS;
    }
    let udp = match parse_udp_header(p, iph) {
        Some(u) => u,
        None => {
            return TCX_PASS;
        },
    };
    if udp + 8 + 1 > p.len() {
        return TCX_PASS;
    }
    let byte0 = p[udp + 8];
    if byte0 == 84 {
        calls.push(TailCall::ChangeTail { len: (l - 1) as u32 });
        *change_tail_ret = ret1;
        if ret1 == 0 {
            calls.push(TailCall::ChangeTail { len: l as u32 });
        }
        assert(calls@ =~= old(calls)@ + spec_change_tail(p@, len, ret1, *old(change_tail_ret)).2);
        TCX_PASS
    } else if byte0 == 71 {
        calls.push(TailCall::ChangeTail { len: (l + 1) as u32 });
        *change_tail_ret = ret1;
        if ret1 == 0 {
            calls.push(TailCall::ChangeTail { len: l as u32 });
        }
        assert(calls@ =~= old(calls)@ + spec_change_tail(p@, len, ret1, *old(change_tail_ret)).2);
        TCX_PASS
    } else if byte0 == 69 {
        calls.push(TailCall::ChangeTail { len: BPF_SKB_MAX_LEN });
        *change_tail_ret = ret1;
        TCX_PASS
    } else if byte0 == 90 {
        calls.push(TailCall::ChangeTail { len: 0 });
        *change_tail_ret = ret1;
        TCX_PASS
    } else {
        TCX_DROP
    }
}

} // verus!
