//! The window-hashing classifier over 32-byte windows: the steps of
//! [`crate::scale::step`], 90 times.
use vstd::prelude::*;
use crate::scale::{hash_windows, spec_hash_windows};

verus! {

/// Length of the hashed window of this classifier.
pub const NH_OFF: u32 = 32;

/// The traffic-control index after this classifier's run.
pub open spec fn spec_balancer_ingress(p: Seq<u8>, cb0: u32, tc_index: u32) -> u32 {
    spec_hash_windows(p, cb0, tc_index, NH_OFF)
}

/// The classifier over 32-byte windows; returns 0.
pub fn balancer_ingress(p: &[u8], cb0: u32, tc_index: &mut u32) -> (r: i32)
    ensures
        r == 0,
        *final(tc_index) == spec_balancer_ingress(p@, cb0, *old(tc_index)),
{
    hash_windows(p, cb0, NH_OFF, tc_index);
    0
}

} // verus!
