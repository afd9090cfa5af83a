//! Small XDP and classifier programs: reading the metadata a test run
//! supplies, logging devmap redirects, counting CPU-map runs, tail calls
//! from devmap programs, a packet-bounds check and the queue-event
//! redirect.
use vstd::prelude::*;
use crate::ctx::{xdp_md, XDP_ABORTED, XDP_DROP, XDP_PASS};

verus! {

/// The loopback interface's index.
pub const IFINDEX_LO: u32 = 1;
/// The tcx verdict "redirect".
pub const TCX_REDIRECT: i32 = 7;

/// The metadata word in front of a test-run packet, in host (little-endian)
/// order.
pub open spec fn meta_word(meta: Seq<u8>) -> u32 {
    (meta[0] as u32) | ((meta[1] as u32) << 8u32) | ((meta[2] as u32) << 16u32) | ((meta[3] as u32) << 24u32)
}

/// The test-run context program: with at least 4 bytes of metadata
/// (`meta`, what lies between the metadata pointer and the packet), it
/// reads the first metadata word, gives 4 bytes of metadata back
/// (`adjust_ret` is the kernel's answer) and returns the word; otherwise,
/// or where the kernel refuses, it aborts.
pub fn xdp_context(meta: &[u8], adjust_ret: i64) -> (r: i32)
    ensures
        r == if meta@.len() < 4 || adjust_ret != 0 { XDP_ABORTED } else { meta_word(meta@) as i32 },
{
    if meta.len() < 4 {
        return XDP_ABORTED;
    }
    let ret: u32 = (meta[0] as u32) | ((meta[1] as u32) << 8u32) | ((meta[2] as u32) << 16u32) | ((meta[3] as u32) << 24u32);
    if adjust_ret != 0 {
        return XDP_ABORTED;
    }
    ret as i32
}

/// What a devmap program logs: the receiving and sending devices and the
/// packet length.
#[derive(Clone, Copy, PartialEq, Eq, Structural)]
pub struct DevmapLog {
    pub ingress_ifindex: u32,
    pub egress_ifindex: u32,
    pub len: u32,
}

/// The log line of a devmap program for context `ctx`.
pub open spec fn spec_devmap_log(ctx: xdp_md) -> DevmapLog {
    DevmapLog {
        ingress_ifindex: ctx.ingress_ifindex,
        egress_ifindex: ctx.egress_ifindex,
        len: (ctx.data_end - ctx.data) as u32,
    }
}

/// The devmap program that logs each redirect and passes the packet.
pub fn xdpdm_devlog(ctx: &xdp_md) -> (r: (i32, DevmapLog))
    requires
        ctx.data <= ctx.data_end,
    ensures
        r == (XDP_PASS, spec_devmap_log(*ctx)),
{
    let len = ctx.data_end - ctx.data;
    (XDP_PASS, DevmapLog { ingress_ifindex: ctx.ingress_ifindex, egress_ifindex: ctx.egress_ifindex, len })
}

/// The program for devmap entries that logs each redirect and passes the
/// packet (as [`xdpdm_devlog`]).
pub fn xdp_dummy_dm(ctx: &xdp_md) -> (r: (i32, DevmapLog))
    requires
        ctx.data <= ctx.data_end,
    ensures
        r == (XDP_PASS, spec_devmap_log(*ctx)),
{
    let data_end = ctx.data_end;
    let data = ctx.data;
    let len = data_end - data;
    (XDP_PASS, DevmapLog { ingress_ifindex: ctx.ingress_ifindex, egress_ifindex: ctx.egress_ifindex, len })
}

/// The program for CPU-map entries, run on CPU `cpu`: counts its runs on
/// CPU 0 and drops packets from the loopback interface.
pub fn xdp_dummy_cm(cpu: u32, ctx: &xdp_md, redirect_count: &mut u32) -> (r: i32)
    ensures
        *final(redirect_count) == if cpu == 0 {
            vstd::wrapping::u32_specs::wrapping_add(*old(redirect_count), 1)
        } else {
            *old(redirect_count)
        },
        r == if ctx.ingress_ifindex == IFINDEX_LO { XDP_DROP } else { XDP_PASS },
{
    if cpu == 0 {
        *redirect_count = redirect_count.wrapping_add(1);
    }
    if ctx.ingress_ifindex == IFINDEX_LO {
        return XDP_DROP;
    }
    XDP_PASS
}

/// A program that first tries a tail call into slot `index` of the program
/// array and, where that slot is empty, goes on to return `verdict`.
#[derive(Clone, Copy, PartialEq, Eq, Structural)]
pub struct TailCallOr {
    pub index: u32,
    pub verdict: i32,
}

/// The devmap program: tries slot 1 (never filled; the call only ties the
/// program array to this program's attach type), then returns the
/// sending device's index.
pub fn xdp_devmap(ctx: &xdp_md) -> (r: TailCallOr)
    ensures
        r == (TailCallOr { index: 1, verdict: ctx.egress_ifindex as i32 }),
{
    TailCallOr { index: 1, verdict: ctx.egress_ifindex as i32 }
}

/// The entry program: tail-calls slot 0, else returns 0.
pub fn xdp_entry() -> (r: TailCallOr)
    ensures
        r == (TailCallOr { index: 0, verdict: 0 }),
{
    TailCallOr { index: 0, verdict: 0 }
}

/// The program that redirects every packet to entry 0 of its CPU or
/// device map: the entry asked for, and as verdict the helper's answer
/// `redirect_ret` (truncated).
pub fn xdp_redir_prog(redirect_ret: i64) -> (r: (u32, i32))
    ensures
        r == (0u32, redirect_ret as i32),
{
    (0, redirect_ret as i32)
}

/// The program attached in a test of map entries' attach types: passes
/// every packet.
pub fn xdp_dummy_prog() -> (r: i32)
    ensures
        r == XDP_PASS,
{
    XDP_PASS
}

/// The multi-buffer program for CPU-map entries: passes every packet.
pub fn xdp_dummy_cm_frags() -> (r: i32)
    ensures
        r == XDP_PASS,
{
    XDP_PASS
}

/// The multi-buffer program for device-map entries: passes every packet.
pub fn xdp_dummy_dm_frags() -> (r: i32)
    ensures
        r == XDP_PASS,
{
    XDP_PASS
}

/// The XDP program of the link tests: aborts every packet (verdict 0).
pub fn xdp_handler() -> (r: i32)
    ensures
        r == XDP_ABORTED,
{
    XDP_ABORTED
}

/// The classifier of the link tests: verdict 0 for every packet.
pub fn tc_handler() -> (r: i32)
    ensures
        r == 0,
{
    0
}

/// The classifier the tc hook tests attach: verdict 0 for every packet.
pub fn cls() -> (r: i32)
    ensures
        r == 0,
{
    0
}

/// The unprivileged classifier: 1 where the packet is too short for an
/// Ethernet and an IPv4 header, else 0.
pub fn pkt_ptr(p: &[u8]) -> (r: i32)
    ensures
        r == if 14 + 20 > p@.len() { 1i32 } else { 0i32 },
{
    if 14 + 20 > p.len() {
        return 1;
    }
    0
}

/// The queue-event verdict program: counts its run and asks for a
/// redirect.
pub fn qevent_redirect_verdict(verdict_calls: &mut u64) -> (r: i32)
    ensures
        r == TCX_REDIRECT,
        *final(verdict_calls) == vstd::wrapping::u64_specs::wrapping_add(*old(verdict_calls), 1),
{
    *verdict_calls = verdict_calls.wrapping_add(1);
    TCX_REDIRECT
}

/// The queue-event helper program: counts its run and redirects to the
/// configured interface; returns the interface index to redirect to and,
/// as verdict, the redirect helper's answer `redirect_ret` (truncated).
pub fn qevent_redirect_helper(redirect_ifindex: i32, redirect_ret: i64, helper_calls: &mut u64) -> (r: (u32, i32))
    ensures
        r == (redirect_ifindex as u32, redirect_ret as i32),
        *final(helper_calls) == vstd::wrapping::u64_specs::wrapping_add(*old(helper_calls), 1),
{
    *helper_calls = helper_calls.wrapping_add(1);
    (redirect_ifindex as u32, redirect_ret as i32)
}

} // verus!
