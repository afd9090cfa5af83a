//! Delivery-time checks of packets forwarded between network namespaces:
//! each program classifies the test traffic and counts, per test and per
//! checkpoint, whether the packet's timestamp is what it should be there.
use vstd::prelude::*;
use crate::bytes::{bswap16, get_le16, get_le32, htons, le16, le32};
use crate::balancer::words4;

verus! {

pub const TC_ACT_OK: i32 = 0;
pub const TC_ACT_SHOT: i32 = 2;
pub const TC_ACT_UNSPEC: i32 = -1;
pub const ETH_P_IP: u16 = 0x0800;
pub const ETH_P_IPV6: u16 = 0x86dd;
pub const IPPROTO_TCP: u8 = 6;
pub const IPPROTO_UDP: u8 = 17;

/// 172.16.1.100 and 172.16.2.100 as raw (network-order) words.
pub const IP4_SRC: u32 = 0x6401_10ac;
pub const IP4_DST: u32 = 0x6402_10ac;
/// The source and destination IPv6 addresses as raw words.
pub const IP6_SRC_ADDR32: [u32; 4] = [0, 0, 0xadde_0100, 0xfeca_efbe];
pub const IP6_DST_ADDR32: [u32; 4] = [0, 0, 0xadde_0200, 0xfeca_efbe];

pub const EGRESS_ENDHOST_MAGIC: u64 = 0x0b9fbeef;
pub const INGRESS_FWDNS_MAGIC: u64 = 0x1b9fbeef;
pub const EGRESS_FWDNS_MAGIC: u64 = 0x2b9fbeef;

// Checkpoint columns.
pub const INGRESS_FWDNS_P100: u32 = 0;
pub const INGRESS_FWDNS_P101: u32 = 1;
pub const EGRESS_FWDNS_P100: u32 = 2;
pub const EGRESS_FWDNS_P101: u32 = 3;
pub const INGRESS_ENDHOST: u32 = 4;
pub const EGRESS_ENDHOST: u32 = 5;
pub const SET_DTIME: u32 = 6;
pub const MAX_CNT: usize = 7;

// Test rows.
pub const TCP_IP6_CLEAR_DTIME: u32 = 0;
pub const TCP_IP4: u32 = 1;
pub const TCP_IP6: u32 = 2;
pub const UDP_IP4: u32 = 3;
pub const UDP_IP6: u32 = 4;
pub const TCP_IP4_RT_FWD: u32 = 5;
pub const TCP_IP6_RT_FWD: u32 = 6;
pub const UDP_IP4_RT_FWD: u32 = 7;
pub const UDP_IP6_RT_FWD: u32 = 8;
pub const UKN_TEST: u32 = 9;
pub const NR_TESTS: usize = 10;

pub const SRC_NS: u8 = 1;
pub const DST_NS: u8 = 2;

pub const BPF_SKB_CLOCK_REALTIME: u8 = 0;
pub const BPF_SKB_CLOCK_MONOTONIC: u8 = 1;
pub const BPF_SKB_CLOCK_TAI: u8 = 2;

/// What the programs read and write of a socket buffer besides its bytes.
#[derive(Clone, Copy)]
pub struct SkbTime {
    pub protocol: u32,
    pub tstamp: u64,
    pub tstamp_type: u8,
}

/// The counters: `dtimes` and `errs` hold a row of `MAX_CNT` columns per
/// test; `test` is the running test.
pub struct DtimeCounters {
    pub dtimes: Vec<u32>,
    pub errs: Vec<u32>,
    pub test: u32,
}

/// A kernel helper call of the forwarding programs.
#[derive(Clone, Copy, PartialEq, Eq, Structural)]
pub enum TstampCall {
    /// `bpf_skb_set_tstamp(tstamp, clock)`.
    SetTstamp { tstamp: u64, clock: u32 },
    /// `bpf_redirect_neigh(ifindex)`.
    RedirectNeigh { ifindex: u32 },
}

pub open spec fn counters_wf(c: DtimeCounters) -> bool {
    c.dtimes@.len() == NR_TESTS * MAX_CNT && c.errs@.len() == NR_TESTS * MAX_CNT
}

/// The row of the running test (unknown tests share the last row).
pub open spec fn spec_row(test: u32) -> int {
    if test < NR_TESTS { test as int } else { UKN_TEST as int }
}

/// `v` with the counter of `test` at column `idx` incremented.
pub open spec fn bump(v: Seq<u32>, test: u32, idx: u32) -> Seq<u32> {
    let i = spec_row(test) * MAX_CNT + idx;
    v.update(i, vstd::wrapping::u32_specs::wrapping_add(v[i], 1))
}

/// The transport protocol of a test.
pub open spec fn spec_get_proto(test: u32) -> u8 {
    if test == UDP_IP4 || test == UDP_IP6 || test == UDP_IP4_RT_FWD || test == UDP_IP6_RT_FWD {
        IPPROTO_UDP
    } else {
        IPPROTO_TCP
    }
}

/// The raw port of the receiving namespace in a test.
pub open spec fn test_port(test: u32) -> u16 {
    bswap16(vstd::wrapping::u32_specs::wrapping_add(50000, test) as u16)
}

/// The type of a packet after its network header: 0 where it is not test
/// traffic, -1 where its transport header does not fit, else the sender's
/// namespace in the second byte and the protocol in the first.
pub open spec fn classify_transport(p: Seq<u8>, ns: u8, proto: u8, trans: int, test: u32) -> i32 {
    if ns == 0 || proto != spec_get_proto(test) {
        0
    } else {
        let len = if proto == IPPROTO_TCP { 20int } else { 8int };
        if proto != IPPROTO_TCP && proto != IPPROTO_UDP {
            0
        } else if trans + len > p.len() {
            -1i32
        } else {
            let sport = le16(p, trans);
            let dport = le16(p, trans + 2);
            if (ns == SRC_NS && dport == test_port(test)) || (ns == DST_NS && sport == test_port(test)) {
                ((ns as i32) * 256 + proto as i32) as i32
            } else {
                0
            }
        }
    }
}

pub open spec fn spec_skb_get_type(p: Seq<u8>, protocol: u32, test: u32) -> i32 {
    if protocol == bswap16(ETH_P_IP) as u32 {
        if 34 > p.len() {
            -1i32
        } else {
            let saddr = le32(p, 26);
            let ns: u8 = if saddr == IP4_SRC { SRC_NS } else if saddr == IP4_DST { DST_NS } else { 0 };
            classify_transport(p, ns, p[23], 34, test)
        }
    } else if protocol == bswap16(ETH_P_IPV6) as u32 {
        if 54 > p.len() {
            -1i32
        } else {
            let saddr = words4(p, 22);
            let ns: u8 = if saddr@ == IP6_SRC_ADDR32@ { SRC_NS } else if saddr@ == IP6_DST_ADDR32@ { DST_NS } else { 0 };
            classify_transport(p, ns, p[20], 54, test)
        }
    } else {
        0
    }
}

pub open spec fn spec_skb_proto(t: i32) -> i32 {
    t & 0xff
}

pub open spec fn spec_skb_ns(t: i32) -> i32 {
    (t >> 8) & 0xff
}

/// Protocol byte of a packet type.
pub fn skb_proto(t: i32) -> (r: i32)
    ensures
        r == spec_skb_proto(t),
{
    t & 0xff
}

/// Namespace byte of a packet type.
pub fn skb_ns(t: i32) -> (r: i32)
    ensures
        r == spec_skb_ns(t),
{
    (t >> 8) & 0xff
}

/// The row of the running test.
pub fn row_for_test(test: u32) -> (r: usize)
    ensures
        r == spec_row(test),
{
    if (test as usize) < NR_TESTS && test <= 0xffff {
        test as usize
    } else {
        UKN_TEST as usize
    }
}

/// The transport protocol of the running test.
pub fn get_proto(test: u32) -> (r: u8)
    ensures
        r == spec_get_proto(test),
{
    if test == UDP_IP4 || test == UDP_IP6 || test == UDP_IP4_RT_FWD || test == UDP_IP6_RT_FWD {
        IPPROTO_UDP
    } else {
        IPPROTO_TCP
    }
}

/// Whether the running test clears the delivery time in the forwarding
/// namespace.
pub fn fwdns_clear_dtime(test: u32) -> (r: bool)
    ensures
        r == (test == TCP_IP6_CLEAR_DTIME),
{
    test == TCP_IP6_CLEAR_DTIME
}

/// Whether the running test forwards by redirect (not by routing).
pub fn bpf_fwd(test: u32) -> (r: bool)
    ensures
        r == (test < TCP_IP4_RT_FWD),
{
    test < TCP_IP4_RT_FWD
}

/// Increments the counter of the running test at column `idx` of `v`.
pub fn inc_counter(v: &mut Vec<u32>, test: u32, idx: u32)
    requires
        old(v)@.len() == NR_TESTS * MAX_CNT,
        idx < MAX_CNT,
    ensures
        final(v)@ == bump(old(v)@, test, idx),
{
    let row = row_for_test(test);
    let i = row * MAX_CNT + idx as usize;
    let x = v[i].wrapping_add(1);
    v.set(i, x);
}

/// Counts a delivery time seen at column `idx` for the running test.
pub fn inc_dtimes(c: &mut DtimeCounters, idx: u32)
    requires
        counters_wf(*old(c)),
        idx < MAX_CNT,
    ensures
        final(c).dtimes@ == bump(old(c).dtimes@, old(c).test, idx),
        final(c).errs@ == old(c).errs@,
        final(c).test == old(c).test,
{
    inc_counter(&mut c.dtimes, c.test, idx);
}

/// Counts an error at column `idx` for the running test.
pub fn inc_errs(c: &mut DtimeCounters, idx: u32)
    requires
        counters_wf(*old(c)),
        idx < MAX_CNT,
    ensures
        final(c).errs@ == bump(old(c).errs@, old(c).test, idx),
        final(c).dtimes@ == old(c).dtimes@,
        final(c).test == old(c).test,
{
    inc_counter(&mut c.errs, c.test, idx);
}

fn classify(p: &[u8], ns: u8, inet_proto: u8, trans: usize, test: u32) -> (r: i32)
    requires
        trans <= 54,
    ensures
        r == classify_transport(p@, ns, inet_proto, trans as int, test),
{
    if ns == 0 || inet_proto != get_proto(test) {
        return 0;
    }
    let dst_ns_port = htons(50000u32.wrapping_add(test) as u16);
    let sport: u16;
    let dport: u16;
    if inet_proto == IPPROTO_TCP {
        if trans + 20 > p.len() {
            return -1;
        }
        sport = get_le16(p, trans);
        dport = get_le16(p, trans + 2);
    } else if inet_proto == IPPROTO_UDP {
        if trans + 8 > p.len() {
            return -1;
        }
        sport = get_le16(p, trans);
        dport = get_le16(p, trans + 2);
    } else {
        return 0;
    }
    if (ns == SRC_NS && dport == dst_ns_port) || (ns == DST_NS && sport == dst_ns_port) {
        return (ns as i32) * 256 + inet_proto as i32;
    }
    0
}

/// Classifies a packet (see [`spec_skb_get_type`]).
pub fn skb_get_type(p: &[u8], protocol: u32, test: u32) -> (r: i32)
    ensures
        r == spec_skb_get_type(p@, protocol, test),
{
    if protocol == htons(ETH_P_IP) as u32 {
        if 34 > p.len() {
            return -1;
        }
        let saddr = get_le32(p, 26);
        let ns: u8 = if saddr == IP4_SRC { SRC_NS } else if saddr == IP4_DST { DST_NS } else { 0 };
        classify(p, ns, p[23], 34, test)
    } else if protocol == htons(ETH_P_IPV6) as u32 {
        if 54 > p.len() {
            return -1;
        }
        let w = [get_le32(p, 22), get_le32(p, 26), get_le32(p, 30), get_le32(p, 34)];
        assert(w =~= words4(p@, 22));
        let src = IP6_SRC_ADDR32;
        let dst = IP6_DST_ADDR32;
        let is_src = w[0] == src[0] && w[1] == src[1] && w[2] == src[2] && w[3] == src[3];
        let is_dst = w[0] == dst[0] && w[1] == dst[1] && w[2] == dst[2] && w[3] == dst[3];
        assert(is_src == (w@ == src@)) by {
            if is_src {
                assert(w@ =~= src@);
            }
        }
        assert(is_dst == (w@ == dst@)) by {
            if is_dst {
                assert(w@ =~= dst@);
            }
        }
        let ns: u8 = if is_src { SRC_NS } else if is_dst { DST_NS } else { 0 };
        classify(p, ns, p[20], 54, test)
    } else {
        0
    }
}

pub open spec fn spec_egress_host(p: Seq<u8>, s: SkbTime, dt: Seq<u32>, er: Seq<u32>, test: u32) -> (i32, SkbTime, Seq<u32>, Seq<u32>) {
    let t = spec_skb_get_type(p, s.protocol, test);
    if t == -1 {
        (TC_ACT_SHOT, s, dt, er)
    } else if t == 0 {
        (TC_ACT_OK, s, dt, er)
    } else {
        let proto = spec_skb_proto(t);
        let (dt1, er1) = if proto == IPPROTO_TCP as i32 {
            if s.tstamp_type == BPF_SKB_CLOCK_MONOTONIC && s.tstamp != 0 {
                (bump(dt, test, EGRESS_ENDHOST), er)
            } else {
                (dt, bump(er, test, EGRESS_ENDHOST))
            }
        } else if proto == IPPROTO_UDP as i32 {
            if s.tstamp_type == BPF_SKB_CLOCK_TAI && s.tstamp != 0 {
                (bump(dt, test, EGRESS_ENDHOST), er)
            } else {
                (dt, bump(er, test, EGRESS_ENDHOST))
            }
        } else if s.tstamp_type == BPF_SKB_CLOCK_REALTIME && s.tstamp != 0 {
            (dt, bump(er, test, EGRESS_ENDHOST))
        } else {
            (dt, er)
        };
        (TC_ACT_OK, SkbTime { tstamp: EGRESS_ENDHOST_MAGIC, ..s }, dt1, er1)
    }
}

/// Egress of the end host: the sender's stack must have set a delivery
/// time of the test's clock; the packet leaves with a marker time.
pub fn egress_host(p: &[u8], skb: &mut SkbTime, c: &mut DtimeCounters) -> (r: i32)
    requires
        counters_wf(*old(c)),
    ensures
        counters_wf(*final(c)),
        final(c).test == old(c).test,
        (r, *final(skb), final(c).dtimes@, final(c).errs@) == spec_egress_host(p@, *old(skb), old(c).dtimes@, old(c).errs@, old(c).test),
{
    let skb_type = skb_get_type(p, skb.protocol, c.test);
    if skb_type == -1 {
        return TC_ACT_SHOT;
    }
    if skb_type == 0 {
        return TC_ACT_OK;
    }
    let proto = skb_proto(skb_type);
    if proto == IPPROTO_TCP as i32 {
        if skb.tstamp_type == BPF_SKB_CLOCK_MONOTONIC && skb.tstamp != 0 {
            inc_dtimes(c, EGRESS_ENDHOST);
        } else {
            inc_errs(c, EGRESS_ENDHOST);
        }
    } else if proto == IPPROTO_UDP as i32 {
        if skb.tstamp_type == BPF_SKB_CLOCK_TAI && skb.tstamp != 0 {
            inc_dtimes(c, EGRESS_ENDHOST);
        } else {
            inc_errs(c, EGRESS_ENDHOST);
        }
    } else if skb.tstamp_type == BPF_SKB_CLOCK_REALTIME && skb.tstamp != 0 {
        inc_errs(c, EGRESS_ENDHOST);
    }
    skb.tstamp = EGRESS_ENDHOST_MAGIC;
    TC_ACT_OK
}

pub open spec fn spec_ingress_host(p: Seq<u8>, s: SkbTime, dt: Seq<u32>, er: Seq<u32>, test: u32) -> (i32, Seq<u32>, Seq<u32>) {
    let t = spec_skb_get_type(p, s.protocol, test);
    if t == -1 {
        (TC_ACT_SHOT, dt, er)
    } else if t == 0 {
        (TC_ACT_OK, dt, er)
    } else if s.tstamp_type == BPF_SKB_CLOCK_MONOTONIC && s.tstamp == EGRESS_FWDNS_MAGIC {
        (TC_ACT_OK, bump(dt, test, INGRESS_ENDHOST), er)
    } else {
        (TC_ACT_OK, dt, bump(er, test, INGRESS_ENDHOST))
    }
}

/// Ingress of the end host: the packet must arrive with the marker the
/// forwarding namespace's egress set.
pub fn ingress_host(p: &[u8], skb: &SkbTime, c: &mut DtimeCounters) -> (r: i32)
    requires
        counters_wf(*old(c)),
    ensures
        counters_wf(*final(c)),
        final(c).test == old(c).test,
        (r, final(c).dtimes@, final(c).errs@) == spec_ingress_host(p@, *skb, old(c).dtimes@, old(c).errs@, old(c).test),
{
    let skb_type = skb_get_type(p, skb.protocol, c.test);
    if skb_type == -1 {
        return TC_ACT_SHOT;
    }
    if skb_type == 0 {
        return TC_ACT_OK;
    }
    if skb.tstamp_type == BPF_SKB_CLOCK_MONOTONIC && skb.tstamp == EGRESS_FWDNS_MAGIC {
        inc_dtimes(c, INGRESS_ENDHOST);
    } else {
        inc_errs(c, INGRESS_ENDHOST);
    }
    TC_ACT_OK
}

pub open spec fn spec_ingress_fwdns_prio100(p: Seq<u8>, s: SkbTime, er: Seq<u32>, test: u32) -> (i32, SkbTime, Seq<u32>) {
    let t = spec_skb_get_type(p, s.protocol, test);
    if t == -1 {
        (TC_ACT_SHOT, s, er)
    } else if t == 0 {
        (TC_ACT_OK, s, er)
    } else {
        let er1 = if s.tstamp == EGRESS_ENDHOST_MAGIC { bump(er, test, INGRESS_FWDNS_P100) } else { er };
        let s1 = if test == TCP_IP6_CLEAR_DTIME { SkbTime { tstamp: 0, ..s } } else { s };
        (TC_ACT_UNSPEC, s1, er1)
    }
}

/// First ingress program of the forwarding namespace: a delivery time must
/// not show without asking for its type.
pub fn ingress_fwdns_prio100(p: &[u8], skb: &mut SkbTime, c: &mut DtimeCounters) -> (r: i32)
    requires
        counters_wf(*old(c)),
    ensures
        counters_wf(*final(c)),
        final(c).test == old(c).test,
        final(c).dtimes@ == old(c).dtimes@,
        (r, *final(skb), final(c).errs@) == spec_ingress_fwdns_prio100(p@, *old(skb), old(c).errs@, old(c).test),
{
    let skb_type = skb_get_type(p, skb.protocol, c.test);
    if skb_type == -1 {
        return TC_ACT_SHOT;
    }
    if skb_type == 0 {
        return TC_ACT_OK;
    }
    if skb.tstamp == EGRESS_ENDHOST_MAGIC {
        inc_errs(c, INGRESS_FWDNS_P100);
    }
    if fwdns_clear_dtime(c.test) {
        skb.tstamp = 0;
    }
    TC_ACT_UNSPEC
}

pub open spec fn spec_egress_fwdns_prio100(p: Seq<u8>, s: SkbTime, dt: Seq<u32>, er: Seq<u32>, test: u32) -> (i32, SkbTime, Seq<u32>, Seq<u32>) {
    let t = spec_skb_get_type(p, s.protocol, test);
    if t == -1 {
        (TC_ACT_SHOT, s, dt, er)
    } else if t == 0 {
        (TC_ACT_OK, s, dt, er)
    } else {
        let (dt1, er1) = if s.tstamp == INGRESS_FWDNS_MAGIC {
            (bump(dt, test, EGRESS_FWDNS_P100), er)
        } else {
            (dt, bump(er, test, EGRESS_FWDNS_P100))
        };
        let s1 = if test == TCP_IP6_CLEAR_DTIME { SkbTime { tstamp: 0, ..s } } else { s };
        (TC_ACT_UNSPEC, s1, dt1, er1)
    }
}

/// First egress program of the forwarding namespace: the delivery time the
/// ingress set must still be there.
pub fn egress_fwdns_prio100(p: &[u8], skb: &mut SkbTime, c: &mut DtimeCounters) -> (r: i32)
    requires
        counters_wf(*old(c)),
    ensures
        counters_wf(*final(c)),
        final(c).test == old(c).test,
        (r, *final(skb), final(c).dtimes@, final(c).errs@) == spec_egress_fwdns_prio100(p@, *old(skb), old(c).dtimes@, old(c).errs@, old(c).test),
{
    let skb_type = skb_get_type(p, skb.protocol, c.test);
    if skb_type == -1 {
        return TC_ACT_SHOT;
    }
    if skb_type == 0 {
        return TC_ACT_OK;
    }
    if skb.tstamp == INGRESS_FWDNS_MAGIC {
        inc_dtimes(c, EGRESS_FWDNS_P100);
    } else {
        inc_errs(c, EGRESS_FWDNS_P100);
    }
    if fwdns_clear_dtime(c.test) {
        skb.tstamp = 0;
    }
    TC_ACT_UNSPEC
}

/// The check of a second-priority program: with a typed delivery time, its
/// type and value must be the expected ones (and the test must not clear
/// it); without one, the test must be the one that clears it.
pub open spec fn fwdns_p101_ok(s: SkbTime, test: u32, tai_ok: bool, magic: u64) -> bool {
    if s.tstamp_type != 0 {
        !(test == TCP_IP6_CLEAR_DTIME || (s.tstamp_type != BPF_SKB_CLOCK_MONOTONIC && !(tai_ok
            && s.tstamp_type == BPF_SKB_CLOCK_TAI)) || s.tstamp != magic)
    } else {
        test == TCP_IP6_CLEAR_DTIME
    }
}

/// Counting the check, then marking the packet: directly for a monotonic
/// delivery time, else by asking the kernel (whose answer is `set_ret`).
pub open spec fn spec_p101_common(s: SkbTime, dt: Seq<u32>, er: Seq<u32>, test: u32, tai_ok: bool, expect: u64, mark: u64, col: u32, set_ret: i64) -> (SkbTime, Seq<u32>, Seq<u32>, Seq<TstampCall>) {
    let (dt1, er1) = if fwdns_p101_ok(s, test, tai_ok, expect) {
        (if s.tstamp_type != 0 { bump(dt, test, col) } else { dt }, er)
    } else {
        (dt, bump(er, test, col))
    };
    if s.tstamp_type == BPF_SKB_CLOCK_MONOTONIC {
        (SkbTime { tstamp: mark, ..s }, dt1, er1, seq![])
    } else {
        let calls = seq![TstampCall::SetTstamp { tstamp: mark, clock: BPF_SKB_CLOCK_MONOTONIC as u32 }];
        (s, dt1, if set_ret != 0 { bump(er1, test, SET_DTIME) } else { er1 }, calls)
    }
}

pub open spec fn spec_ingress_fwdns_prio101(p: Seq<u8>, s: SkbTime, dt: Seq<u32>, er: Seq<u32>, test: u32, ifindex_src: u32, ifindex_dst: u32, set_ret: i64, redirect_ret: i64) -> (i32, SkbTime, Seq<u32>, Seq<u32>, Seq<TstampCall>) {
    let t = spec_skb_get_type(p, s.protocol, test);
    if t == -1 || t == 0 {
        (TC_ACT_SHOT, s, dt, er, seq![])
    } else {
        let (s1, dt1, er1, calls) = spec_p101_common(s, dt, er, test, true, EGRESS_ENDHOST_MAGIC, INGRESS_FWDNS_MAGIC, INGRESS_FWDNS_P101, set_ret);
        if test < TCP_IP4_RT_FWD {
            let ifindex = if spec_skb_ns(t) == SRC_NS as i32 { ifindex_dst } else { ifindex_src };
            (redirect_ret as i32, s1, dt1, er1, calls.push(TstampCall::RedirectNeigh { ifindex }))
        } else {
            (TC_ACT_OK, s1, dt1, er1, calls)
        }
    }
}

fn p101_common(skb: &mut SkbTime, c: &mut DtimeCounters, tai_ok: bool, expect: u64, mark: u64, col: u32, set_ret: i64, calls: &mut Vec<TstampCall>)
    requires
        counters_wf(*old(c)),
        col < MAX_CNT,
    ensures
        counters_wf(*final(c)),
        final(c).test == old(c).test,
        (*final(skb), final(c).dtimes@, final(c).errs@, final(calls)@) == ({
            let (s1, dt1, er1, cs) = spec_p101_common(*old(skb), old(c).dtimes@, old(c).errs@, old(c).test, tai_ok, expect, mark, col, set_ret);
            (s1, dt1, er1, old(calls)@ + cs)
        }),
{
    let tstamp_type = skb.tstamp_type;
    let clear = fwdns_clear_dtime(c.test);
    if tstamp_type != 0 {
        if clear || (tstamp_type != BPF_SKB_CLOCK_MONOTONIC && !(tai_ok && tstamp_type == BPF_SKB_CLOCK_TAI))
            || skb.tstamp != expect {
            inc_errs(c, col);
        } else {
            inc_dtimes(c, col);
        }
    } else if !clear {
        inc_errs(c, col);
    }
    if tstamp_type == BPF_SKB_CLOCK_MONOTONIC {
        skb.tstamp = mark;
    } else {
        calls.push(TstampCall::SetTstamp { tstamp: mark, clock: BPF_SKB_CLOCK_MONOTONIC as u32 });
        if set_ret != 0 {
            inc_errs(c, SET_DTIME);
        }
    }
    assert(calls@ =~= old(calls)@ + spec_p101_common(*old(skb), old(c).dtimes@, old(c).errs@, old(c).test, tai_ok, expect, mark, col, set_ret).3);
}

/// Second ingress program of the forwarding namespace: checks the typed
/// delivery time, marks the packet, and redirects it to the other side
/// (`set_ret` and `redirect_ret` are the kernel's answers).
pub fn ingress_fwdns_prio101(p: &[u8], skb: &mut SkbTime, c: &mut DtimeCounters, ifindex_src: u32, ifindex_dst: u32, set_ret: i64, redirect_ret: i64, calls: &mut Vec<TstampCall>) -> (r: i32)
    requires
        counters_wf(*old(c)),
    ensures
        counters_wf(*final(c)),
        final(c).test == old(c).test,
        (r, *final(skb), final(c).dtimes@, final(c).errs@, final(calls)@) == ({
            let (r0, s1, dt1, er1, cs) = spec_ingress_fwdns_prio101(p@, *old(skb), old(c).dtimes@, old(c).errs@, old(c).test, ifindex_src, ifindex_dst, set_ret, redirect_ret);
            (r0, s1, dt1, er1, old(calls)@ + cs)
        }),
{
    let skb_type = skb_get_type(p, skb.protocol, c.test);
    if skb_type == -1 || skb_type == 0 {
        assert(calls@ =~= old(calls)@ + seq![]);
        return TC_ACT_SHOT;
    }
    let ghost c0 = calls@;
    p101_common(skb, c, true, EGRESS_ENDHOST_MAGIC, INGRESS_FWDNS_MAGIC, INGRESS_FWDNS_P101, set_ret, calls);
    if bpf_fwd(c.test) {
        let ifindex = if skb_ns(skb_type) == SRC_NS as i32 { ifindex_dst } else { ifindex_src };
        calls.push(TstampCall::RedirectNeigh { ifindex });
        assert(calls@ =~= old(calls)@ + spec_ingress_fwdns_prio101(p@, *old(skb), old(c).dtimes@, old(c).errs@, old(c).test, ifindex_src, ifindex_dst, set_ret, redirect_ret).4);
        return redirect_ret as i32;
    }
    TC_ACT_OK
}

pub open spec fn spec_egress_fwdns_prio101(p: Seq<u8>, s: SkbTime, dt: Seq<u32>, er: Seq<u32>, test: u32, set_ret: i64) -> (i32, SkbTime, Seq<u32>, Seq<u32>, Seq<TstampCall>) {
    let t = spec_skb_get_type(p, s.protocol, test);
    if t == -1 || t == 0 {
        (TC_ACT_SHOT, s, dt, er, seq![])
    } else {
        let (s1, dt1, er1, calls) = spec_p101_common(s, dt, er, test, false, INGRESS_FWDNS_MAGIC, EGRESS_FWDNS_MAGIC, EGRESS_FWDNS_P101, set_ret);
        (TC_ACT_OK, s1, dt1, er1, calls)
    }
}

/// Second egress program of the forwarding namespace: checks the
/// monotonic delivery time and marks the packet.
pub fn egress_fwdns_prio101(p: &[u8], skb: &mut SkbTime, c: &mut DtimeCounters, set_ret: i64, calls: &mut Vec<TstampCall>) -> (r: i32)
    requires
        counters_wf(*old(c)),
    ensures
        counters_wf(*final(c)),
        final(c).test == old(c).test,
        (r, *final(skb), final(c).dtimes@, final(c).errs@, final(calls)@) == ({
            let (r0, s1, dt1, er1, cs) = spec_egress_fwdns_prio101(p@, *old(skb), old(c).dtimes@, old(c).errs@, old(c).test, set_ret);
            (r0, s1, dt1, er1, old(calls)@ + cs)
        }),
{
    let skb_type = skb_get_type(p, skb.protocol, c.test);
    if skb_type == -1 || skb_type == 0 {
        assert(calls@ =~= old(calls)@ + seq![]);
        return TC_ACT_SHOT;
    }
    p101_common(skb, c, false, INGRESS_FWDNS_MAGIC, EGRESS_FWDNS_MAGIC, EGRESS_FWDNS_P101, set_ret, calls);
    TC_ACT_OK
}

/// A packet type packs the sender's namespace and the protocol: test
/// traffic of a test has that test's protocol and comes from one of the two
/// namespaces.
pub proof fn lemma_type_fields(p: Seq<u8>, protocol: u32, test: u32)
    requires
        spec_skb_get_type(p, protocol, test) > 0,
    ensures
        spec_skb_proto(spec_skb_get_type(p, protocol, test)) == spec_get_proto(test) as i32,
        spec_skb_ns(spec_skb_get_type(p, protocol, test)) == SRC_NS as i32 || spec_skb_ns(spec_skb_get_type(p, protocol, test)) == DST_NS as i32,
{
    let t = spec_skb_get_type(p, protocol, test);
    let proto = spec_get_proto(test) as i32;
    assert(proto == 6 || proto == 17);
    assert(t == 256 + proto || t == 512 + proto);
    assert((t & 0xff) == proto && (((t >> 8) & 0xff) == 1 || ((t >> 8) & 0xff) == 2)) by (bit_vector)
        requires
            t == 256 + proto || t == 512 + proto,
            proto == 6 || proto == 17,
    ;
}

} // verus!
