//! Classifiers that hash a window at each of the first 90 offsets of a
//! packet that has one, keeping the last hash as the packet's
//! traffic-control index: one over 14-byte windows (an Ethernet header);
//! [`crate::scale_wide`] over 32-byte ones.
use vstd::prelude::*;
use crate::bytes::push_range;
use crate::jhash::{jhash, spec_jhash};

verus! {

/// Length of the hashed window of this classifier (an Ethernet header).
pub const NH_OFF: u32 = 14;
/// Number of hashing steps.
pub const STEPS: u32 = 90;

/// Number of windows of `nh` bytes hashed: as many of the first 90
/// offsets as leave a whole window.
pub open spec fn steps_done(len: int, nh: u32) -> int {
    if len < nh {
        0
    } else if len - nh + 1 < STEPS {
        len - nh + 1
    } else {
        STEPS as int
    }
}

/// The traffic-control index after the run over `nh`-byte windows: the
/// hash of the last window, seeded with the first control word plus the
/// window's offset; unchanged if no window fits.
pub open spec fn spec_hash_windows(p: Seq<u8>, cb0: u32, tc_index: u32, nh: u32) -> u32 {
    let n = steps_done(p.len() as int, nh);
    if n == 0 {
        tc_index
    } else {
        spec_jhash(p.subrange(n - 1, n - 1 + nh), vstd::wrapping::u32_specs::wrapping_add(cb0, (n - 1) as u32))
    }
}

/// The traffic-control index after this classifier's run.
pub open spec fn spec_balancer_ingress(p: Seq<u8>, cb0: u32, tc_index: u32) -> u32 {
    spec_hash_windows(p, cb0, tc_index, NH_OFF)
}

/// One hashing step at offset `*i`: where an `nh`-byte window fits there,
/// it is hashed (seeded with `cb0 + *i`) into `tc_index` and `*i` moves on
/// by one; otherwise nothing changes.
pub fn step(p: &[u8], cb0: u32, nh: u32, i: &mut u32, tc_index: &mut u32)
    requires
        *old(i) < STEPS,
        nh <= 64,
    ensures
        (*old(i) as int) + (nh as int) <= p@.len() ==> *final(i) == *old(i) + 1 && *final(tc_index) == spec_jhash(
            p@.subrange(*old(i) as int, *old(i) + nh),
            vstd::wrapping::u32_specs::wrapping_add(cb0, *old(i)),
        ),
        (*old(i) as int) + (nh as int) > p@.len() ==> *final(i) == *old(i) && *final(tc_index) == *old(tc_index),
{
    let off = *i as usize;
    let len = p.len();
    if off > len || len - off < nh as usize {
        return;
    }
    let idx = *i;
    *i = idx + 1;
    let mut window: Vec<u8> = Vec::new();
    push_range(&mut window, p, off, off + nh as usize);
    assert(window@.take(nh as int) =~= window@);
    *tc_index = jhash(window.as_slice(), nh, cb0.wrapping_add(idx));
}

/// Runs the 90 steps over `nh`-byte windows (see [`spec_hash_windows`]).
pub fn hash_windows(p: &[u8], cb0: u32, nh: u32, tc_index: &mut u32)
    requires
        1 <= nh <= 64,
    ensures
        *final(tc_index) == spec_hash_windows(p@, cb0, *old(tc_index), nh),
{
    let len = p.len();
    let mut i: u32 = 0;
    let mut n: u32 = 0;
    while n < STEPS
        invariant
            1 <= nh <= 64,
            n <= STEPS,
            len == p@.len(),
            i <= n,
            i == (if steps_done(len as int, nh) < n { steps_done(len as int, nh) } else { n as int }),
            i == 0 ==> *tc_index == *old(tc_index),
            i > 0 ==> *tc_index == spec_jhash(p@.subrange(i - 1, i - 1 + nh), vstd::wrapping::u32_specs::wrapping_add(cb0, (i - 1) as u32)),
        decreases STEPS - n,
    {
        step(p, cb0, nh, &mut i, tc_index);
        n += 1;
    }
}

/// The classifier over 14-byte windows; returns 0.
pub fn balancer_ingress(p: &[u8], cb0: u32, tc_index: &mut u32) -> (r: i32)
    ensures
        r == 0,
        *final(tc_index) == spec_balancer_ingress(p@, cb0, *old(tc_index)),
{
    hash_windows(p, cb0, NH_OFF, tc_index);
    0
}

} // verus!
