//! Classifiers of the peer-redirect tests: packets are sent on between two
//! hosts through the peer of a device, on the first pass of an ingress
//! packet by way of the egress side; a layer-3 device's packets get an
//! Ethernet header first.
//!
//! The redirects and the header push are the kernel's: the programs give
//! their calls, and return what the last call answers.
use vstd::prelude::*;
use crate::bytes::le16_bytes;

verus! {

pub const TC_ACT_SHOT: i32 = 2;
pub const ETH_ALEN: usize = 6;
pub const ETH_HLEN: u32 = 14;
pub const BPF_F_EGRESS: u64 = 2;

/// The MAC addresses given to a layer-3 device's packets.
pub const SRC_MAC: [u8; 6] = [0x00, 0x11, 0x22, 0x33, 0x44, 0x55];
pub const DST_MAC: [u8; 6] = [0x00, 0x22, 0x33, 0x44, 0x55, 0x66];

/// A kernel helper call of the peer programs.
#[derive(Clone, Copy, PartialEq, Eq, Structural)]
pub enum PeerCall {
    /// `bpf_redirect_peer(ifindex, flags)`.
    RedirectPeer { ifindex: u32, flags: u64 },
    /// `bpf_redirect(ifindex, 0)`.
    Redirect { ifindex: u32 },
    /// `bpf_skb_change_head(len, 0)`: `len` zero bytes before the packet.
    ChangeHead { len: u32 },
    /// `bpf_skb_store_bytes(off, bytes)`.
    Store { off: u32, len: u32 },
}

/// The guard program on the peer device: drops every packet.
pub fn tc_chk() -> (r: i32)
    ensures
        r == TC_ACT_SHOT,
{
    TC_ACT_SHOT
}

/// Sends a packet through the peer of the source device; `redirect_ret`
/// is the kernel's answer, which is returned.
pub fn tc_dst(ifindex_src: u32, redirect_ret: i64, calls: &mut Vec<PeerCall>) -> (r: i32)
    ensures
        r == redirect_ret as i32,
        final(calls)@ == old(calls)@.push(PeerCall::RedirectPeer { ifindex: ifindex_src, flags: 0 }),
{
    calls.push(PeerCall::RedirectPeer { ifindex: ifindex_src, flags: 0 });
    redirect_ret as i32
}

/// Sends a packet through the peer of the destination device.
pub fn tc_src(ifindex_dst: u32, redirect_ret: i64, calls: &mut Vec<PeerCall>) -> (r: i32)
    ensures
        r == redirect_ret as i32,
        final(calls)@ == old(calls)@.push(PeerCall::RedirectPeer { ifindex: ifindex_dst, flags: 0 }),
{
    calls.push(PeerCall::RedirectPeer { ifindex: ifindex_dst, flags: 0 });
    redirect_ret as i32
}

/// An ingress packet seen for the first time (mark 0) is marked 1 and sent
/// out through the egress side of `first`'s peer; a marked one is
/// redirected to `second`.
pub open spec fn spec_ing(mark: u32, first: u32, second: u32, redirect_ret: i64) -> (i32, u32, PeerCall) {
    if mark == 0 {
        (redirect_ret as i32, 1u32, PeerCall::RedirectPeer { ifindex: first, flags: BPF_F_EGRESS })
    } else {
        (redirect_ret as i32, mark, PeerCall::Redirect { ifindex: second })
    }
}

/// Ingress on the destination side (see [`spec_ing`] with the source
/// device first).
pub fn tc_dst_ing(mark: &mut u32, ifindex_src: u32, ifindex_dst: u32, redirect_ret: i64, calls: &mut Vec<PeerCall>) -> (r: i32)
    ensures
        ({
            let (v, m, c) = spec_ing(*old(mark), ifindex_src, ifindex_dst, redirect_ret);
            &&& r == v
            &&& *final(mark) == m
            &&& final(calls)@ == old(calls)@.push(c)
        }),
{
    if *mark == 0 {
        *mark = 1;
        calls.push(PeerCall::RedirectPeer { ifindex: ifindex_src, flags: BPF_F_EGRESS });
        return redirect_ret as i32;
    }
    calls.push(PeerCall::Redirect { ifindex: ifindex_dst });
    redirect_ret as i32
}

/// Ingress on the source side (see [`spec_ing`] with the destination
/// device first).
pub fn tc_src_ing(mark: &mut u32, ifindex_src: u32, ifindex_dst: u32, redirect_ret: i64, calls: &mut Vec<PeerCall>) -> (r: i32)
    ensures
        ({
            let (v, m, c) = spec_ing(*old(mark), ifindex_dst, ifindex_src, redirect_ret);
            &&& r == v
            &&& *final(mark) == m
            &&& final(calls)@ == old(calls)@.push(c)
        }),
{
    if *mark == 0 {
        *mark = 1;
        calls.push(PeerCall::RedirectPeer { ifindex: ifindex_dst, flags: BPF_F_EGRESS });
        return redirect_ret as i32;
    }
    calls.push(PeerCall::Redirect { ifindex: ifindex_src });
    redirect_ret as i32
}

/// Layer-3 destination side: redirected to the source device.
pub fn tc_dst_l3(ifindex_src: u32, redirect_ret: i64, calls: &mut Vec<PeerCall>) -> (r: i32)
    ensures
        r == redirect_ret as i32,
        final(calls)@ == old(calls)@.push(PeerCall::Redirect { ifindex: ifindex_src }),
{
    calls.push(PeerCall::Redirect { ifindex: ifindex_src });
    redirect_ret as i32
}

/// The Ethernet header a layer-3 packet of `protocol` (the context's raw
/// field) gets: the source and destination MACs, then the protocol's two
/// bytes as the machine stores them.
pub open spec fn l3_eth_header(protocol: u32) -> Seq<u8> {
    SRC_MAC@ + DST_MAC@ + le16_bytes(protocol as u16)
}

/// Layer-3 source side: 14 zero bytes are pushed before the packet
/// (`head_ret` answers), the header is written in three stores
/// (`store_rets` answer them; a failed store has written nothing and
/// drops the packet, as does a failed push), and the packet goes through
/// the destination device's peer.
pub open spec fn spec_tc_src_l3(p: Seq<u8>, protocol: u32, ifindex_dst: u32, head_ret: i64, store_rets: [i64; 3], redirect_ret: i64) -> (i32, Seq<u8>, Seq<PeerCall>) {
    let pushed = Seq::new(14, |i: int| 0u8) + p;
    let h = l3_eth_header(protocol);
    let c0 = seq![PeerCall::ChangeHead { len: ETH_HLEN }];
    let c1 = c0.push(PeerCall::Store { off: 0, len: 6 });
    let c2 = c1.push(PeerCall::Store { off: 6, len: 6 });
    let c3 = c2.push(PeerCall::Store { off: 12, len: 2 });
    if head_ret != 0 {
        (TC_ACT_SHOT, p, c0)
    } else if store_rets[0] != 0 {
        (TC_ACT_SHOT, pushed, c1)
    } else if store_rets[1] != 0 {
        (TC_ACT_SHOT, h.take(6) + pushed.skip(6), c2)
    } else if store_rets[2] != 0 {
        (TC_ACT_SHOT, h.take(12) + pushed.skip(12), c3)
    } else {
        (redirect_ret as i32, h + p, c3.push(PeerCall::RedirectPeer { ifindex: ifindex_dst, flags: 0 }))
    }
}

fn write_bytes(p: &mut Vec<u8>, off: usize, b: &[u8])
    requires
        off + b@.len() <= old(p)@.len(),
    ensures
        final(p)@ == old(p)@.take(off as int) + b@ + old(p)@.skip(off + b@.len()),
{
    let n = p.len();
    let mut i: usize = 0;
    while i < b.len()
        invariant
            off + b@.len() <= p@.len(),
            p@.len() == old(p)@.len(),
            p@.len() == n,
            i <= b@.len(),
            forall|j: int| 0 <= j < off ==> p@[j] == old(p)@[j],
            forall|j: int| 0 <= j < i ==> p@[off + j] == b@[j],
            forall|j: int| off + i <= j < p@.len() ==> p@[j] == old(p)@[j],
        decreases b@.len() - i,
    {
        p.set(off + i, b[i]);
        i += 1;
    }
    assert(p@ =~= old(p)@.take(off as int) + b@ + old(p)@.skip(off + b@.len()));
}

/// Layer-3 source side (see [`spec_tc_src_l3`]).
pub fn tc_src_l3(p: &mut Vec<u8>, protocol: u32, ifindex_dst: u32, head_ret: i64, store_rets: [i64; 3], redirect_ret: i64, calls: &mut Vec<PeerCall>) -> (r: i32)
    requires
        old(p)@.len() + 14 <= usize::MAX,
    ensures
        ({
            let (v, p1, cs) = spec_tc_src_l3(old(p)@, protocol, ifindex_dst, head_ret, store_rets, redirect_ret);
            &&& r == v
            &&& final(p)@ == p1
            &&& final(calls)@ == old(calls)@ + cs
        }),
{
    let ghost p0 = p@;
    let ghost c0 = calls@;
    let proto = protocol as u16;
    calls.push(PeerCall::ChangeHead { len: ETH_HLEN });
    if head_ret != 0 {
        assert(calls@ =~= c0 + spec_tc_src_l3(p0, protocol, ifindex_dst, head_ret, store_rets, redirect_ret).2);
        return TC_ACT_SHOT;
    }
    let mut q: Vec<u8> = Vec::new();
    let mut i: usize = 0;
    while i < 14
        invariant
            i <= 14,
            q@ == Seq::new(i as nat, |k: int| 0u8),
        decreases 14 - i,
    {
        q.push(0);
        i += 1;
        assert(q@ =~= Seq::new(i as nat, |k: int| 0u8));
    }
    let n = p.len();
    crate::bytes::push_range(&mut q, p.as_slice(), 0, n);
    assert(p@.subrange(0, n as int) =~= p@);
    *p = q;
    let ghost pushed = p@;
    assert(pushed =~= Seq::new(14, |k: int| 0u8) + p0);
    let ghost h = l3_eth_header(protocol);
    calls.push(PeerCall::Store { off: 0, len: 6 });
    if store_rets[0] != 0 {
        assert(calls@ =~= c0 + spec_tc_src_l3(p0, protocol, ifindex_dst, head_ret, store_rets, redirect_ret).2);
        return TC_ACT_SHOT;
    }
    let src: [u8; 6] = SRC_MAC;
    write_bytes(p, 0, src.as_slice());
    assert(p@ =~= h.take(6) + pushed.skip(6));
    calls.push(PeerCall::Store { off: 6, len: 6 });
    if store_rets[1] != 0 {
        assert(calls@ =~= c0 + spec_tc_src_l3(p0, protocol, ifindex_dst, head_ret, store_rets, redirect_ret).2);
        return TC_ACT_SHOT;
    }
    let dst: [u8; 6] = DST_MAC;
    write_bytes(p, 6, dst.as_slice());
    assert(p@ =~= h.take(12) + pushed.skip(12));
    calls.push(PeerCall::Store { off: 12, len: 2 });
    if store_rets[2] != 0 {
        assert(calls@ =~= c0 + spec_tc_src_l3(p0, protocol, ifindex_dst, head_ret, store_rets, redirect_ret).2);
        return TC_ACT_SHOT;
    }
    let pb: [u8; 2] = [(proto % 256) as u8, (proto / 256) as u8];
    assert(pb@ =~= le16_bytes(proto));
    write_bytes(p, 12, pb.as_slice());
    assert(p@ =~= h + p0);
    calls.push(PeerCall::RedirectPeer { ifindex: ifindex_dst, flags: 0 });
    assert(calls@ =~= c0 + spec_tc_src_l3(p0, protocol, ifindex_dst, head_ret, store_rets, redirect_ret).2);
    redirect_ret as i32
}

/// Ingress law: a packet passes the ingress programs at most twice by way
/// of the peer; once marked, it is redirected plainly and keeps its mark.
pub proof fn lemma_ing_marks_once(mark: u32, first: u32, second: u32, ret1: i64, ret2: i64)
    requires
        mark == 0,
    ensures
        ({
            let (_, m1, c1) = spec_ing(mark, first, second, ret1);
            let (_, m2, c2) = spec_ing(m1, first, second, ret2);
            &&& c1 == PeerCall::RedirectPeer { ifindex: first, flags: BPF_F_EGRESS }
            &&& c2 == PeerCall::Redirect { ifindex: second }
            &&& m2 == 1
        }),
{
}

} // verus!
