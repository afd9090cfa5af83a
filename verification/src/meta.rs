//! Packet metadata checks: an XDP program stores a 32-byte pattern in the
//! metadata area in front of a test packet (which ends with the same
//! pattern), and classifiers check that the pattern reached them.
use vstd::prelude::*;
use crate::bytes::set_le16;
use crate::ctx::{XDP_DROP, XDP_PASS};

verus! {

pub const TC_ACT_OK: i32 = 0;
pub const TC_ACT_SHOT: i32 = 2;
pub const META_SIZE: usize = 32;

/// The metadata pattern.
pub const META_WANT: [u8; 32] = [
    0x01, 0x02, 0x03, 0x04, 0x05, 0x06, 0x07, 0x08, 0x11, 0x12, 0x13, 0x14, 0x15, 0x16, 0x17, 0x18, 0x21,
    0x22, 0x23, 0x24, 0x25, 0x26, 0x27, 0x28, 0x31, 0x32, 0x33, 0x34, 0x35, 0x36, 0x37, 0x38,
];

/// Whether `s` starts with the pattern.
pub open spec fn has_pattern(s: Seq<u8>) -> bool {
    s.len() >= META_SIZE && s.take(META_SIZE as int) == META_WANT@
}

/// Whether a packet is a test packet: it ends with the pattern.
pub open spec fn spec_is_test_packet(p: Seq<u8>) -> bool {
    p.len() >= META_SIZE && p.skip(p.len() - META_SIZE) == META_WANT@
}

/// Whether the first 32 bytes of `a` are those of `b`.
pub fn bytes_eq(a: &[u8], b: &[u8; 32]) -> (r: bool)
    requires
        a@.len() >= META_SIZE,
    ensures
        r == (a@.take(META_SIZE as int) == b@),
{
    let mut i: usize = 0;
    while i < META_SIZE
        invariant
            i <= META_SIZE <= a@.len(),
            forall|j: int| 0 <= j < i ==> a@[j] == b@[j],
        decreases META_SIZE - i,
    {
        if a[i] != b[i] {
            assert(a@.take(META_SIZE as int)[i as int] != b@[i as int]);
            return false;
        }
        i += 1;
    }
    assert(a@.take(META_SIZE as int) =~= b@);
    true
}

/// The stream a program writes its failures to.
pub const BPF_STDERR: i32 = 2;

/// A line that a program writes to one of its output streams.
#[derive(Clone, Copy, PartialEq, Eq, Structural)]
pub enum StreamReport {
    /// "FAIL: metadata mismatch", on the error stream.
    MetadataMismatch,
}

impl StreamReport {
    /// The stream the line goes to.
    pub fn stream(&self) -> (r: i32)
        ensures
            r == BPF_STDERR,
    {
        BPF_STDERR
    }

    /// The line's text.
    pub fn text(&self) -> (r: &'static str)
        ensures
            r@ == "FAIL: metadata mismatch\n"@,
    {
        "FAIL: metadata mismatch\n"
    }
}

/// The lines written where `failed` holds: one mismatch report, or none.
pub open spec fn mismatch_if(failed: bool) -> Seq<StreamReport> {
    if failed { seq![StreamReport::MetadataMismatch] } else { seq![] }
}

/// Metadata long enough to hold the pattern that does not hold it: what a
/// check that first tests the length reports.
pub open spec fn long_mismatch(meta: Seq<u8>) -> bool {
    meta.len() >= META_SIZE && !has_pattern(meta)
}

/// Writes the mismatch report to the error stream.
pub fn stream_report_mismatch(reports: &mut Vec<StreamReport>)
    ensures
        final(reports)@ == old(reports)@.push(StreamReport::MetadataMismatch),
{
    reports.push(StreamReport::MetadataMismatch);
}

/// Whether the metadata starts with the pattern; a mismatch is reported
/// on the error stream, once.
pub fn check_metadata(meta_have: &[u8], reports: &mut Vec<StreamReport>) -> (r: bool)
    requires
        meta_have@.len() >= META_SIZE,
    ensures
        r == has_pattern(meta_have@),
        final(reports)@ == old(reports)@ + mismatch_if(!r),
{
    if bytes_eq(meta_have, &META_WANT) {
        assert(reports@ =~= old(reports)@ + mismatch_if(false));
        return true;
    }
    stream_report_mismatch(reports);
    assert(reports@ =~= old(reports)@ + mismatch_if(true));
    false
}

/// Whether the metadata area `meta` (what lies between the metadata
/// pointer and the packet) holds the pattern; only an area long enough
/// for it is checked, so only such an area can be reported.
pub fn check_skb_metadata(meta: &[u8], reports: &mut Vec<StreamReport>) -> (r: bool)
    ensures
        r == has_pattern(meta@),
        final(reports)@ == old(reports)@ + mismatch_if(long_mismatch(meta@)),
{
    if meta.len() < META_SIZE {
        assert(reports@ =~= old(reports)@ + mismatch_if(false));
        return false;
    }
    check_metadata(meta, reports)
}

/// Whether the packet ends with the pattern.
pub fn is_test_packet(p: &[u8]) -> (r: bool)
    ensures
        r == spec_is_test_packet(p@),
{
    let len = p.len();
    if len < META_SIZE {
        return false;
    }
    let mut i: usize = 0;
    let off = len - META_SIZE;
    while i < META_SIZE
        invariant
            i <= META_SIZE <= len == p@.len(),
            off == len - META_SIZE,
            forall|j: int| 0 <= j < i ==> p@[off + j] == META_WANT@[j],
        decreases META_SIZE - i,
    {
        if p[off + i] != META_WANT[i] {
            assert(p@.skip(off as int)[i as int] != META_WANT@[i as int]);
            return false;
        }
        i += 1;
    }
    assert(p@.skip(off as int) =~= META_WANT@);
    true
}

/// Classifier: notes a pass if the metadata holds the pattern; drops.
pub fn ing_cls(meta: &[u8], test_pass: &mut bool, reports: &mut Vec<StreamReport>) -> (r: i32)
    ensures
        r == TC_ACT_SHOT,
        *final(test_pass) == (*old(test_pass) || has_pattern(meta@)),
        final(reports)@ == old(reports)@ + mismatch_if(long_mismatch(meta@)),
{
    if meta.len() >= META_SIZE {
        if check_metadata(meta, reports) {
            *test_pass = true;
        }
    } else {
        assert(reports@ =~= old(reports)@ + mismatch_if(false));
    }
    TC_ACT_SHOT
}

/// XDP program: for a test packet, asks for 32 bytes of metadata room
/// (`adjust_ret` is the kernel's answer) and fills them with the pattern.
/// Returns the verdict and the bytes to store in the new room.
pub fn ing_xdp(p: &[u8], adjust_ret: i64) -> (r: (i32, Option<[u8; 32]>))
    ensures
        r == (if !spec_is_test_packet(p@) || adjust_ret < 0 { (XDP_DROP, None) } else { (XDP_PASS, Some(META_WANT)) }),
{
    if !is_test_packet(p) {
        return (XDP_DROP, None);
    }
    if adjust_ret < 0 {
        return (XDP_DROP, None);
    }
    (XDP_PASS, Some(META_WANT))
}

/// XDP program: as [`ing_xdp`], but the new room is zeroed.
pub fn ing_xdp_zalloc_meta(p: &[u8], adjust_ret: i64) -> (r: (i32, Option<[u8; 32]>))
    ensures
        r.0 == (if !spec_is_test_packet(p@) || adjust_ret < 0 { XDP_DROP } else { XDP_PASS }),
        r.1 is Some <==> (spec_is_test_packet(p@) && adjust_ret >= 0),
        r.1 matches Some(z) ==> z@ == Seq::new(32, |_i: int| 0u8),
{
    if !is_test_packet(p) {
        return (XDP_DROP, None);
    }
    if adjust_ret < 0 {
        return (XDP_DROP, None);
    }
    let z = [0u8; 32];
    assert(z@ =~= Seq::new(32, |_i: int| 0u8));
    (XDP_PASS, Some(z))
}

/// Classifier: notes a pass if a test packet arrives with no metadata.
pub fn tc_is_meta_empty(p: &[u8], meta_len: usize, test_pass: &mut bool) -> (r: i32)
    ensures
        r == TC_ACT_OK,
        *final(test_pass) == (*old(test_pass) || (spec_is_test_packet(p@) && meta_len == 0)),
{
    if !is_test_packet(p) {
        return TC_ACT_OK;
    }
    if meta_len != 0 {
        return TC_ACT_OK;
    }
    *test_pass = true;
    TC_ACT_OK
}

/// Whether a clone checks out: an Ethernet header, a test packet, and the
/// pattern in the metadata.
pub open spec fn clone_ok(meta: Seq<u8>, p: Seq<u8>) -> bool {
    p.len() >= 14 && spec_is_test_packet(p) && has_pattern(meta)
}

/// Whether a clone gets as far as the metadata check: an Ethernet header
/// and a test packet.
pub open spec fn clone_reaches_check(p: Seq<u8>) -> bool {
    p.len() >= 14 && spec_is_test_packet(p)
}

/// Classifier on a clone: where it checks out, overwrites the packet's
/// ethertype (raw 42) and notes a pass; drops.
pub fn clone_data_meta_survives_data_write(meta: &[u8], p: &mut Vec<u8>, test_pass: &mut bool, reports: &mut Vec<StreamReport>) -> (r: i32)
    ensures
        r == TC_ACT_SHOT,
        clone_ok(meta@, old(p)@) ==> final(p)@ == crate::bytes::splice(old(p)@, 12, crate::bytes::le16_bytes(42)) && *final(test_pass),
        !clone_ok(meta@, old(p)@) ==> final(p)@ == old(p)@ && *final(test_pass) == *old(test_pass),
        final(reports)@ == old(reports)@ + mismatch_if(clone_reaches_check(old(p)@) && long_mismatch(meta@)),
{
    if p.len() >= 14 && is_test_packet(p.as_slice()) && meta.len() >= META_SIZE {
        if check_metadata(meta, reports) {
            set_le16(p, 12, 42);
            *test_pass = true;
        }
    } else {
        assert(reports@ =~= old(reports)@ + mismatch_if(false));
    }
    TC_ACT_SHOT
}

/// Classifier on a clone: where it checks out, overwrites the first byte
/// of the metadata with 42 and notes a pass; drops.
pub fn clone_data_meta_survives_meta_write(meta: &mut Vec<u8>, p: &[u8], test_pass: &mut bool, reports: &mut Vec<StreamReport>) -> (r: i32)
    ensures
        r == TC_ACT_SHOT,
        clone_ok(old(meta)@, p@) ==> final(meta)@ == old(meta)@.update(0, 42) && *final(test_pass),
        !clone_ok(old(meta)@, p@) ==> final(meta)@ == old(meta)@ && *final(test_pass) == *old(test_pass),
        final(reports)@ == old(reports)@ + mismatch_if(clone_reaches_check(p@) && long_mismatch(old(meta)@)),
{
    if p.len() >= 14 && is_test_packet(p) && meta.len() >= META_SIZE {
        if check_metadata(meta.as_slice(), reports) {
            meta.set(0, 42);
            *test_pass = true;
        }
    } else {
        assert(reports@ =~= old(reports)@ + mismatch_if(false));
    }
    TC_ACT_SHOT
}

/// A helper that changes the packet's layout, as the metadata helper
/// tests call it.
#[derive(Clone, Copy, PartialEq, Eq, Structural)]
pub enum SkbHelperCall {
    /// A VLAN tag is pushed (`vlan_proto` as passed: 0).
    VlanPush { vlan_proto: u16, vlan_tci: u16 },
    /// The outer VLAN tag is popped.
    VlanPop,
    /// Room after the MAC header grows by `len_diff` (shrinks if negative).
    AdjustRoom { len_diff: i32 },
    /// `len` bytes of headroom are added in front of the packet.
    ChangeHead { len: u32 },
    /// The packet is resized to `len`.
    ChangeTail { len: u32 },
    /// The packet's protocol changes to `proto` (network order).
    ChangeProto { proto: u16 },
}

/// A step of a metadata helper test: a helper call, or a check that the
/// metadata still holds the pattern.
#[derive(Clone, Copy, PartialEq, Eq, Structural)]
pub enum MetaStep {
    Call(SkbHelperCall),
    Check,
}

/// Running `steps` from step `i`, with `rets[ri..]` answering the helper
/// calls and `metas[mi..]` the metadata areas the checks see: whether all
/// calls return 0 and all checks pass, the calls made, and the lines
/// reported (a failing check of an area long enough for the pattern
/// reports a mismatch).  A failing call or check ends the run.
pub open spec fn run_steps(steps: Seq<MetaStep>, i: int, rets: Seq<i64>, ri: int, metas: Seq<Vec<u8>>, mi: int) -> (bool, Seq<SkbHelperCall>, Seq<StreamReport>)
    decreases steps.len() - i,
{
    if i < 0 || i >= steps.len() {
        (true, seq![], seq![])
    } else {
        match steps[i] {
            MetaStep::Call(c) => {
                if rets[ri] != 0 {
                    (false, seq![c], seq![])
                } else {
                    let (ok, cs, rs) = run_steps(steps, i + 1, rets, ri + 1, metas, mi);
                    (ok, seq![c] + cs, rs)
                }
            },
            MetaStep::Check => {
                if !has_pattern(metas[mi]@) {
                    (false, seq![], mismatch_if(long_mismatch(metas[mi]@)))
                } else {
                    run_steps(steps, i + 1, rets, ri, metas, mi + 1)
                }
            },
        }
    }
}

/// The number of helper calls among `steps` from step `i`.
pub open spec fn calls_from(steps: Seq<MetaStep>, i: int) -> int
    decreases steps.len() - i,
{
    if i < 0 || i >= steps.len() {
        0
    } else {
        (if steps[i] is Call { 1int } else { 0int }) + calls_from(steps, i + 1)
    }
}

/// The number of checks among `steps` from step `i`.
pub open spec fn checks_from(steps: Seq<MetaStep>, i: int) -> int
    decreases steps.len() - i,
{
    if i < 0 || i >= steps.len() {
        0
    } else {
        (if steps[i] is Check { 1int } else { 0int }) + checks_from(steps, i + 1)
    }
}

proof fn lemma_counts_nonneg(steps: Seq<MetaStep>, i: int)
    ensures
        calls_from(steps, i) >= 0,
        checks_from(steps, i) >= 0,
    decreases steps.len() - i,
{
    if 0 <= i < steps.len() {
        lemma_counts_nonneg(steps, i + 1);
    }
}

/// Runs the steps from `i` (see [`run_steps`]).
fn run_meta_steps(steps: &Vec<MetaStep>, i: usize, rets: &[i64], ri: usize, metas: &Vec<Vec<u8>>, mi: usize, calls: &mut Vec<SkbHelperCall>, reports: &mut Vec<StreamReport>) -> (ok: bool)
    requires
        i <= steps@.len(),
        ri + calls_from(steps@, i as int) <= rets@.len(),
        mi + checks_from(steps@, i as int) <= metas@.len(),
    ensures
        (ok, final(calls)@, final(reports)@) == ({
            let (o, cs, rs) = run_steps(steps@, i as int, rets@, ri as int, metas@, mi as int);
            (o, old(calls)@ + cs, old(reports)@ + rs)
        }),
    decreases steps@.len() - i,
{
    if i >= steps.len() {
        assert(calls@ =~= old(calls)@ + seq![]);
        assert(reports@ =~= old(reports)@ + seq![]);
        return true;
    }
    proof {
        lemma_counts_nonneg(steps@, i + 1);
    }
    match steps[i] {
        MetaStep::Call(c) => {
            assert(calls_from(steps@, i as int) == 1 + calls_from(steps@, i + 1));
            assert(checks_from(steps@, i as int) == checks_from(steps@, i + 1));
            calls.push(c);
            if rets[ri] != 0 {
                assert(calls@ =~= old(calls)@ + seq![c]);
                assert(reports@ =~= old(reports)@ + seq![]);
                return false;
            }
            let ok = run_meta_steps(steps, i + 1, rets, ri + 1, metas, mi, calls, reports);
            assert(calls@ =~= old(calls)@ + (seq![c] + run_steps(steps@, i + 1, rets@, ri + 1, metas@, mi as int).1));
            ok
        },
        MetaStep::Check => {
            assert(calls_from(steps@, i as int) == calls_from(steps@, i + 1));
            assert(checks_from(steps@, i as int) == 1 + checks_from(steps@, i + 1));
            if !check_skb_metadata(metas[mi].as_slice(), reports) {
                assert(calls@ =~= old(calls)@ + seq![]);
                return false;
            }
            assert(mi < metas.len());
            assert(reports@ =~= old(reports)@);
            run_meta_steps(steps, i + 1, rets, ri, metas, mi + 1, calls, reports)
        },
    }
}

/// Runs a metadata helper test: `test_pass` is set where every call
/// succeeds and every check passes.  The packet is always dropped.
fn run_meta_test(steps: &Vec<MetaStep>, rets: &[i64], metas: &Vec<Vec<u8>>, test_pass: &mut bool, calls: &mut Vec<SkbHelperCall>, reports: &mut Vec<StreamReport>) -> (r: i32)
    requires
        calls_from(steps@, 0) <= rets@.len(),
        checks_from(steps@, 0) <= metas@.len(),
    ensures
        r == TC_ACT_SHOT,
        ({
            let (ok, cs, rs) = run_steps(steps@, 0, rets@, 0, metas@, 0);
            &&& *final(test_pass) == (*old(test_pass) || ok)
            &&& final(calls)@ == old(calls)@ + cs
            &&& final(reports)@ == old(reports)@ + rs
        }),
{
    if run_meta_steps(steps, 0, rets, 0, metas, 0, calls, reports) {
        *test_pass = true;
    }
    TC_ACT_SHOT
}

pub open spec fn vlan_push_pop_steps() -> Seq<MetaStep> {
    seq![
        MetaStep::Call(SkbHelperCall::VlanPush { vlan_proto: 0, vlan_tci: 42 }),
        MetaStep::Call(SkbHelperCall::VlanPush { vlan_proto: 0, vlan_tci: 207 }),
        MetaStep::Check,
        MetaStep::Call(SkbHelperCall::VlanPop),
        MetaStep::Call(SkbHelperCall::VlanPop),
        MetaStep::Check,
    ]
}

/// The VLAN helper test: two tags pushed, metadata checked, both popped,
/// checked again.  `rets` answers the four calls, `metas` gives the
/// metadata areas of the two checks.
pub fn helper_skb_vlan_push_pop(rets: &[i64], metas: &Vec<Vec<u8>>, test_pass: &mut bool, calls: &mut Vec<SkbHelperCall>, reports: &mut Vec<StreamReport>) -> (r: i32)
    requires
        rets@.len() == 4,
        metas@.len() == 2,
    ensures
        r == TC_ACT_SHOT,
        ({
            let (ok, cs, rs) = run_steps(vlan_push_pop_steps(), 0, rets@, 0, metas@, 0);
            &&& *final(test_pass) == (*old(test_pass) || ok)
            &&& final(calls)@ == old(calls)@ + cs
            &&& final(reports)@ == old(reports)@ + rs
        }),
{
    let mut steps: Vec<MetaStep> = Vec::new();
    steps.push(MetaStep::Call(SkbHelperCall::VlanPush { vlan_proto: 0, vlan_tci: 42 }));
    steps.push(MetaStep::Call(SkbHelperCall::VlanPush { vlan_proto: 0, vlan_tci: 207 }));
    steps.push(MetaStep::Check);
    steps.push(MetaStep::Call(SkbHelperCall::VlanPop));
    steps.push(MetaStep::Call(SkbHelperCall::VlanPop));
    steps.push(MetaStep::Check);
    assert(steps@ =~= vlan_push_pop_steps());
    proof {
        reveal_with_fuel(calls_from, 7);
        reveal_with_fuel(checks_from, 7);
    }
    run_meta_test(&steps, rets, metas, test_pass, calls, reports)
}

pub open spec fn adjust_room_steps() -> Seq<MetaStep> {
    seq![
        MetaStep::Call(SkbHelperCall::AdjustRoom { len_diff: 1 }),
        MetaStep::Check,
        MetaStep::Call(SkbHelperCall::AdjustRoom { len_diff: -1i32 }),
        MetaStep::Check,
        MetaStep::Call(SkbHelperCall::AdjustRoom { len_diff: 256 }),
        MetaStep::Check,
    ]
}

/// The room helper test: a 1-byte hole after the MAC header grown, shrunk,
/// then a 256-byte one (which reallocates the head), the metadata checked
/// after each.
pub fn helper_skb_adjust_room(rets: &[i64], metas: &Vec<Vec<u8>>, test_pass: &mut bool, calls: &mut Vec<SkbHelperCall>, reports: &mut Vec<StreamReport>) -> (r: i32)
    requires
        rets@.len() == 3,
        metas@.len() == 3,
    ensures
        r == TC_ACT_SHOT,
        ({
            let (ok, cs, rs) = run_steps(adjust_room_steps(), 0, rets@, 0, metas@, 0);
            &&& *final(test_pass) == (*old(test_pass) || ok)
            &&& final(calls)@ == old(calls)@ + cs
            &&& final(reports)@ == old(reports)@ + rs
        }),
{
    let mut steps: Vec<MetaStep> = Vec::new();
    steps.push(MetaStep::Call(SkbHelperCall::AdjustRoom { len_diff: 1 }));
    steps.push(MetaStep::Check);
    steps.push(MetaStep::Call(SkbHelperCall::AdjustRoom { len_diff: -1 }));
    steps.push(MetaStep::Check);
    steps.push(MetaStep::Call(SkbHelperCall::AdjustRoom { len_diff: 256 }));
    steps.push(MetaStep::Check);
    assert(steps@ =~= adjust_room_steps());
    proof {
        reveal_with_fuel(calls_from, 7);
        reveal_with_fuel(checks_from, 7);
    }
    run_meta_test(&steps, rets, metas, test_pass, calls, reports)
}

pub open spec fn change_head_tail_steps(len: u32) -> Seq<MetaStep> {
    seq![
        MetaStep::Call(SkbHelperCall::ChangeHead { len: 1 }),
        MetaStep::Check,
        MetaStep::Call(SkbHelperCall::ChangeHead { len: 256 }),
        MetaStep::Check,
        MetaStep::Call(SkbHelperCall::ChangeTail { len: vstd::wrapping::u32_specs::wrapping_add(len, 4096) }),
        MetaStep::Check,
    ]
}

/// The head/tail helper test: 1 byte, then 256 bytes of headroom added
/// (the second reallocates the head), then the packet grown by 4 KiB at
/// the back from its length `len` at that point, the metadata checked
/// after each.
pub fn helper_skb_change_head_tail(len: u32, rets: &[i64], metas: &Vec<Vec<u8>>, test_pass: &mut bool, calls: &mut Vec<SkbHelperCall>, reports: &mut Vec<StreamReport>) -> (r: i32)
    requires
        rets@.len() == 3,
        metas@.len() == 3,
    ensures
        r == TC_ACT_SHOT,
        ({
            let (ok, cs, rs) = run_steps(change_head_tail_steps(len), 0, rets@, 0, metas@, 0);
            &&& *final(test_pass) == (*old(test_pass) || ok)
            &&& final(calls)@ == old(calls)@ + cs
            &&& final(reports)@ == old(reports)@ + rs
        }),
{
    let mut steps: Vec<MetaStep> = Vec::new();
    steps.push(MetaStep::Call(SkbHelperCall::ChangeHead { len: 1 }));
    steps.push(MetaStep::Check);
    steps.push(MetaStep::Call(SkbHelperCall::ChangeHead { len: 256 }));
    steps.push(MetaStep::Check);
    steps.push(MetaStep::Call(SkbHelperCall::ChangeTail { len: len.wrapping_add(4096) }));
    steps.push(MetaStep::Check);
    assert(steps@ =~= change_head_tail_steps(len));
    proof {
        reveal_with_fuel(calls_from, 7);
        reveal_with_fuel(checks_from, 7);
    }
    run_meta_test(&steps, rets, metas, test_pass, calls, reports)
}

/// IPv6 and IPv4 ethertypes in network order, as stored.
pub const ETH_P_IPV6_BE: u16 = 0xdd86;
pub const ETH_P_IP_BE: u16 = 0x0008;

pub open spec fn change_proto_steps() -> Seq<MetaStep> {
    seq![
        MetaStep::Call(SkbHelperCall::ChangeProto { proto: ETH_P_IPV6_BE }),
        MetaStep::Check,
        MetaStep::Call(SkbHelperCall::ChangeProto { proto: ETH_P_IP_BE }),
        MetaStep::Check,
    ]
}

/// The protocol helper test: the packet turned into IPv6 and back into
/// IPv4, the metadata checked after each.
pub fn helper_skb_change_proto(rets: &[i64], metas: &Vec<Vec<u8>>, test_pass: &mut bool, calls: &mut Vec<SkbHelperCall>, reports: &mut Vec<StreamReport>) -> (r: i32)
    requires
        rets@.len() == 2,
        metas@.len() == 2,
    ensures
        r == TC_ACT_SHOT,
        ({
            let (ok, cs, rs) = run_steps(change_proto_steps(), 0, rets@, 0, metas@, 0);
            &&& *final(test_pass) == (*old(test_pass) || ok)
            &&& final(calls)@ == old(calls)@ + cs
            &&& final(reports)@ == old(reports)@ + rs
        }),
{
    let mut steps: Vec<MetaStep> = Vec::new();
    steps.push(MetaStep::Call(SkbHelperCall::ChangeProto { proto: ETH_P_IPV6_BE }));
    steps.push(MetaStep::Check);
    steps.push(MetaStep::Call(SkbHelperCall::ChangeProto { proto: ETH_P_IP_BE }));
    steps.push(MetaStep::Check);
    assert(steps@ =~= change_proto_steps());
    proof {
        reveal_with_fuel(calls_from, 5);
        reveal_with_fuel(checks_from, 5);
    }
    run_meta_test(&steps, rets, metas, test_pass, calls, reports)
}

/// Test-pass law: a metadata helper test that passes has made every
/// helper call of its script (none was skipped by an early stop).
pub proof fn lemma_meta_test_passes(steps: Seq<MetaStep>, i: int, rets: Seq<i64>, ri: int, metas: Seq<Vec<u8>>, mi: int)
    requires
        0 <= i <= steps.len(),
    ensures
        run_steps(steps, i, rets, ri, metas, mi).0 ==> run_steps(steps, i, rets, ri, metas, mi).1.len() == calls_from(steps, i),
    decreases steps.len() - i,
{
    if i < steps.len() {
        lemma_meta_test_passes(steps, i + 1, rets, ri + 1, metas, mi);
        lemma_meta_test_passes(steps, i + 1, rets, ri, metas, mi + 1);
    }
}

/// Metadata law: the metadata the XDP program writes in front of a test
/// packet passes every classifier check.
pub proof fn lemma_written_meta_checks(p: Seq<u8>, adjust_ret: i64, rest: Seq<u8>)
    requires
        spec_is_test_packet(p),
        adjust_ret >= 0,
    ensures
        ({
            let (_v, w) = if !spec_is_test_packet(p) || adjust_ret < 0 { (XDP_DROP, None::<[u8; 32]>) } else { (XDP_PASS, Some(META_WANT)) };
            has_pattern(w.unwrap()@ + rest)
        }),
{
    assert((META_WANT@ + rest).take(32) =~= META_WANT@);
}

} // verus!
