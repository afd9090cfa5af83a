//! Earliest-departure-time pacing of one TCP flow: each packet of the flow
//! is given a departure time no earlier than the previous one plus its
//! length at the target rate; packets too far in the future are dropped or
//! marked.
use vstd::prelude::*;
use crate::bytes::{bswap16, get_le16, htons, le16};

verus! {

pub const TC_ACT_OK: i32 = 0;
pub const TC_ACT_SHOT: i32 = 2;
pub const ETH_P_IP: u16 = 0x0800;
pub const IPPROTO_TCP: u8 = 6;
pub const TIME_HORIZON_NS: u64 = 2_000_000_000;
pub const NS_PER_SEC: u64 = 1_000_000_000;
pub const ECN_HORIZON_NS: u64 = 5_000_000;
pub const BPF_ANY: u64 = 0;
pub const BPF_EXIST: u64 = 2;
/// The paced flow's source port.
pub const PACED_PORT: u16 = 9000;

/// What the program reads and writes of a socket buffer besides its bytes.
#[derive(Clone, Copy)]
pub struct EdtSkb {
    pub protocol: u32,
    pub len: u32,
    pub tstamp: u64,
}

/// A kernel helper call of the program.
#[derive(Clone, Copy, PartialEq, Eq, Structural)]
pub enum EdtCall {
    /// The flow's departure time is stored (`flags`: BPF_ANY or BPF_EXIST).
    StoreTstamp { tstamp: u64, flags: u64 },
    /// The packet is marked as having met congestion.
    EcnSetCe,
}

/// Transmission time of `len` bytes at `rate` bytes per second (0 without
/// a rate).
pub open spec fn pace_delay(len: u32, rate: u64) -> u64 {
    if rate != 0 { ((len as int * NS_PER_SEC as int) / (rate as int)) as u64 } else { 0 }
}

/// The pacing of one packet: the outcome, the packet's departure time, the
/// flow's stored time, and the calls.  `last` is the flow's stored time,
/// `now` the clock, `store_ret` the kernel's answer to the store.
pub open spec fn spec_throttle_flow(skb: EdtSkb, last: Option<u64>, target_rate: u64, now: u64, store_ret: i64) -> (i32, u64, Option<u64>, Seq<EdtCall>) {
    let delay_ns = pace_delay(skb.len, target_rate);
    let next: u64 = match last {
        Some(t) => vstd::wrapping::u64_specs::wrapping_add(t, delay_ns),
        None => 0,
    };
    let tstamp = if skb.tstamp < now { now } else { skb.tstamp };
    if next <= tstamp {
        let calls = seq![EdtCall::StoreTstamp { tstamp, flags: BPF_ANY }];
        if store_ret != 0 {
            (TC_ACT_SHOT, skb.tstamp, last, calls)
        } else {
            (TC_ACT_OK, skb.tstamp, Some(tstamp), calls)
        }
    } else if next - now >= TIME_HORIZON_NS {
        (TC_ACT_SHOT, skb.tstamp, last, seq![])
    } else {
        let ecn = if next - now >= ECN_HORIZON_NS { seq![EdtCall::EcnSetCe] } else { seq![] };
        let calls = ecn.push(EdtCall::StoreTstamp { tstamp: next, flags: BPF_EXIST });
        if store_ret != 0 {
            (TC_ACT_SHOT, skb.tstamp, last, calls)
        } else {
            (TC_ACT_OK, next, Some(next), calls)
        }
    }
}

/// Paces one packet of the flow (see [`spec_throttle_flow`]).
pub fn throttle_flow(skb: &mut EdtSkb, flow: &mut Option<u64>, target_rate: u64, now: u64, store_ret: i64, calls: &mut Vec<EdtCall>) -> (r: i32)
    ensures
        (r, final(skb).tstamp, *final(flow), final(calls)@) == ({
            let (r0, t, f, cs) = spec_throttle_flow(*old(skb), *old(flow), target_rate, now, store_ret);
            (r0, t, f, old(calls)@ + cs)
        }),
        final(skb).len == old(skb).len,
        final(skb).protocol == old(skb).protocol,
{
    let len = skb.len as u64;
    assert(len * NS_PER_SEC <= 0xffff_ffff * 1_000_000_000) by (nonlinear_arith)
        requires
            len <= 0xffff_ffff,
    ;
    let delay_ns: u64 = if target_rate != 0 { len * NS_PER_SEC / target_rate } else { 0 };
    let mut next_tstamp: u64 = 0;
    match *flow {
        Some(t) => {
            next_tstamp = t.wrapping_add(delay_ns);
        },
        None => {},
    }
    let mut tstamp = skb.tstamp;
    if tstamp < now {
        tstamp = now;
    }
    if next_tstamp <= tstamp {
        calls.push(EdtCall::StoreTstamp { tstamp, flags: BPF_ANY });
        if store_ret != 0 {
            return TC_ACT_SHOT;
        }
        *flow = Some(tstamp);
        return TC_ACT_OK;
    }
    if next_tstamp - now >= TIME_HORIZON_NS {
        assert(calls@ =~= old(calls)@ + seq![]);
        return TC_ACT_SHOT;
    }
    let ghost c0 = calls@;
    if next_tstamp - now >= ECN_HORIZON_NS {
        calls.push(EdtCall::EcnSetCe);
    }
    calls.push(EdtCall::StoreTstamp { tstamp: next_tstamp, flags: BPF_EXIST });
    assert(calls@ =~= old(calls)@ + spec_throttle_flow(*old(skb), *old(flow), target_rate, now, store_ret).3);
    if store_ret != 0 {
        return TC_ACT_SHOT;
    }
    *flow = Some(next_tstamp);
    skb.tstamp = next_tstamp;
    TC_ACT_OK
}

/// Whether the frame is a TCP segment of the paced flow; `None` where a
/// header it reads does not fit.
pub open spec fn spec_paced_segment(p: Seq<u8>) -> Option<bool> {
    if 34 > p.len() {
        None
    } else {
        let ihl = (p[14] % 16) * 4;
        if 14 + ihl > p.len() {
            None
        } else if p[23] != IPPROTO_TCP {
            Some(false)
        } else if 14 + ihl + 20 > p.len() {
            None
        } else {
            Some(le16(p, 14 + ihl) == bswap16(PACED_PORT))
        }
    }
}

/// Finds whether the frame is a segment of the paced flow.
pub fn paced_segment(p: &[u8]) -> (r: Option<bool>)
    ensures
        r == spec_paced_segment(p@),
{
    if 34 > p.len() {
        return None;
    }
    let b = p[14];
    let ihl = ((b & 0x0f) as usize) * 4;
    assert(b & 0x0f == b % 16) by (bit_vector);
    if 14 + ihl > p.len() {
        return None;
    }
    if p[23] != IPPROTO_TCP {
        return Some(false);
    }
    if 14 + ihl + 20 > p.len() {
        return None;
    }
    Some(get_le16(p, 14 + ihl) == htons(PACED_PORT))
}

pub open spec fn spec_tc_prog(p: Seq<u8>, skb: EdtSkb, last: Option<u64>, target_rate: u64, now: u64, store_ret: i64) -> (i32, u64, Option<u64>, Seq<EdtCall>) {
    if skb.protocol != bswap16(ETH_P_IP) as u32 {
        (TC_ACT_OK, skb.tstamp, last, seq![])
    } else {
        match spec_paced_segment(p) {
            None => (TC_ACT_SHOT, skb.tstamp, last, seq![]),
            Some(false) => (TC_ACT_OK, skb.tstamp, last, seq![]),
            Some(true) => spec_throttle_flow(skb, last, target_rate, now, store_ret),
        }
    }
}

/// The classifier: paces the TCP flow from port 9000 over IPv4.
pub fn tc_prog(p: &[u8], skb: &mut EdtSkb, flow: &mut Option<u64>, target_rate: u64, now: u64, store_ret: i64, calls: &mut Vec<EdtCall>) -> (r: i32)
    ensures
        (r, final(skb).tstamp, *final(flow), final(calls)@) == ({
            let (r0, t, f, cs) = spec_tc_prog(p@, *old(skb), *old(flow), target_rate, now, store_ret);
            (r0, t, f, old(calls)@ + cs)
        }),
{
    if skb.protocol != htons(ETH_P_IP) as u32 {
        assert(calls@ =~= old(calls)@ + seq![]);
        return TC_ACT_OK;
    }
    match paced_segment(p) {
        None => {
            assert(calls@ =~= old(calls)@ + seq![]);
            TC_ACT_SHOT
        },
        Some(false) => {
            assert(calls@ =~= old(calls)@ + seq![]);
            TC_ACT_OK
        },
        Some(true) => throttle_flow(skb, flow, target_rate, now, store_ret, calls),
    }
}

/// Pacing law: a packet the pacer lets through departs at the time the
/// flow then remembers, which is no earlier than the clock and no earlier
/// than the flow's previous departure plus the packet's transmission time.
pub proof fn lemma_paced_departure(skb: EdtSkb, last: Option<u64>, target_rate: u64, now: u64)
    requires
        last matches Some(l) ==> l + pace_delay(skb.len, target_rate) <= u64::MAX,
    ensures
        ({
            let (r, t, f, _c) = spec_throttle_flow(skb, last, target_rate, now, 0);
            let departs = if t < now { now } else { t };
            r == TC_ACT_OK ==> {
                &&& f == Some(departs)
                &&& departs >= now
                &&& (last matches Some(l) ==> departs >= l + pace_delay(skb.len, target_rate))
            }
        }),
{
}

} // verus!
