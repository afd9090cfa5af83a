//! Variable-length string captures: two strings are read one after the
//! other into a payload buffer; each read that succeeds moves the write
//! position on by its length, and the lengths and total are recorded.
//!
//! The string reads are kernel helper calls: each handler takes their
//! results and gives where the second read writes and what is recorded.
use vstd::prelude::*;

verus! {

pub const MAX_LEN: u32 = 256;

/// Which process is traced, and whether capturing is on (bit 0).
#[derive(Clone, Copy)]
pub struct VarlenConfig {
    pub test_pid: i32,
    pub capture: u8,
}

/// What a 64-bit unsigned handler records.
#[derive(Clone, Copy)]
pub struct Payload64 {
    pub len1: u64,
    pub len2: u64,
    pub total: u64,
}

/// What a 32-bit handler records.
#[derive(Clone, Copy)]
pub struct Payload32 {
    pub len1: i32,
    pub len2: i32,
    pub total: i32,
}

/// Whether the running process `pid` is captured.
pub open spec fn spec_capturing(c: VarlenConfig, pid: i32) -> bool {
    c.test_pid == pid && c.capture & 1 != 0
}

pub fn capturing(c: &VarlenConfig, pid: i32) -> (r: bool)
    ensures
        r == spec_capturing(*c, pid),
{
    c.test_pid == pid && c.capture & 1 != 0
}

/// A read accepted by a signed check: its length, if not an error.
pub open spec fn signed_len(ret: i64) -> Option<int> {
    if ret >= 0 { Some(ret as int) } else { None }
}

/// A read accepted by an unsigned check: its length taken as a 32-bit
/// unsigned value, if at most the buffer size.
pub open spec fn unsigned_len(ret: i64) -> Option<int> {
    if (ret as u32) <= MAX_LEN { Some((ret as u32) as int) } else { None }
}

/// The write position after a read (0 for the first).
pub open spec fn after(pos: int, l: Option<int>) -> int {
    match l {
        Some(n) => pos + n,
        None => pos,
    }
}

/// Handler with 64-bit lengths and a signed check (the reads' results
/// `ret1`, `ret2` and the bad read's `ret_bad`).  Returns the position at
/// which the second string is written.
pub fn handler64_unsigned(c: &VarlenConfig, pid: i32, ret1: i64, ret2: i64, ret_bad: i64, g: &mut Payload64, ret_bad_read: &mut u64) -> (r: Option<u64>)
    ensures
        !spec_capturing(*c, pid) ==> r is None && *final(g) == *old(g) && *final(ret_bad_read) == *old(ret_bad_read),
        spec_capturing(*c, pid) ==> {
            &&& r == Some(after(0, signed_len(ret1)) as u64)
            &&& final(g).len1 == (if ret1 >= 0 { ret1 as u64 } else { old(g).len1 })
            &&& final(g).len2 == (if ret2 >= 0 { ret2 as u64 } else { old(g).len2 })
            &&& final(g).total == after(after(0, signed_len(ret1)), signed_len(ret2)) as u64
            &&& *final(ret_bad_read) == ret_bad as u64
        },
{
    if !capturing(c, pid) {
        return None;
    }
    let mut pos: u64 = 0;
    if ret1 >= 0 {
        pos = pos + ret1 as u64;
        g.len1 = ret1 as u64;
    }
    let second = pos;
    if ret2 >= 0 {
        pos = pos + ret2 as u64;
        g.len2 = ret2 as u64;
    }
    g.total = pos;
    *ret_bad_read = ret_bad as u64;
    Some(second)
}

fn signed32(c: &VarlenConfig, pid: i32, ret1: i64, ret2: i64, g: &mut Payload32) -> (r: Option<u64>)
    ensures
        !spec_capturing(*c, pid) ==> r is None && *final(g) == *old(g),
        spec_capturing(*c, pid) ==> {
            &&& r == Some(after(0, signed_len(ret1)) as u64)
            &&& final(g).len1 == (if ret1 >= 0 { ret1 as i32 } else { old(g).len1 })
            &&& final(g).len2 == (if ret2 >= 0 { ret2 as i32 } else { old(g).len2 })
            &&& final(g).total == after(after(0, signed_len(ret1)), signed_len(ret2)) as i32
        },
{
    if !capturing(c, pid) {
        return None;
    }
    let mut pos: u64 = 0;
    if ret1 >= 0 {
        pos = pos + ret1 as u64;
        g.len1 = ret1 as i32;
    }
    let second = pos;
    if ret2 >= 0 {
        pos = pos + ret2 as u64;
        g.len2 = ret2 as i32;
    }
    g.total = pos as i32;
    Some(second)
}

/// Handler with 64-bit reads and 32-bit lengths, signed check.
pub fn handler64_signed(c: &VarlenConfig, pid: i32, ret1: i64, ret2: i64, g: &mut Payload32) -> (r: Option<u64>)
    ensures
        !spec_capturing(*c, pid) ==> r is None && *final(g) == *old(g),
        spec_capturing(*c, pid) ==> {
            &&& r == Some(after(0, signed_len(ret1)) as u64)
            &&& final(g).len1 == (if ret1 >= 0 { ret1 as i32 } else { old(g).len1 })
            &&& final(g).len2 == (if ret2 >= 0 { ret2 as i32 } else { old(g).len2 })
            &&& final(g).total == after(after(0, signed_len(ret1)), signed_len(ret2)) as i32
        },
{
    signed32(c, pid, ret1, ret2, g)
}

/// Handler with 32-bit lengths, signed check.
pub fn handler32_signed(c: &VarlenConfig, pid: i32, ret1: i64, ret2: i64, g: &mut Payload32) -> (r: Option<u64>)
    ensures
        !spec_capturing(*c, pid) ==> r is None && *final(g) == *old(g),
        spec_capturing(*c, pid) ==> {
            &&& r == Some(after(0, signed_len(ret1)) as u64)
            &&& final(g).len1 == (if ret1 >= 0 { ret1 as i32 } else { old(g).len1 })
            &&& final(g).len2 == (if ret2 >= 0 { ret2 as i32 } else { old(g).len2 })
            &&& final(g).total == after(after(0, signed_len(ret1)), signed_len(ret2)) as i32
        },
{
    signed32(c, pid, ret1, ret2, g)
}

/// Handler with 32-bit lengths and an unsigned check: a result is accepted
/// when, taken as an unsigned 32-bit value, it is at most the buffer size.
pub fn handler32_unsigned(c: &VarlenConfig, pid: i32, ret1: i64, ret2: i64, g: &mut Payload32) -> (r: Option<u64>)
    ensures
        !spec_capturing(*c, pid) ==> r is None && *final(g) == *old(g),
        spec_capturing(*c, pid) ==> {
            &&& r == Some(after(0, unsigned_len(ret1)) as u64)
            &&& final(g).len1 == (if (ret1 as u32) <= MAX_LEN { (ret1 as u32) as i32 } else { old(g).len1 })
            &&& final(g).len2 == (if (ret2 as u32) <= MAX_LEN { (ret2 as u32) as i32 } else { old(g).len2 })
            &&& final(g).total == after(after(0, unsigned_len(ret1)), unsigned_len(ret2)) as i32
        },
{
    if !capturing(c, pid) {
        return None;
    }
    let mut pos: u64 = 0;
    let l1 = ret1 as u32;
    if l1 <= MAX_LEN {
        pos = pos + l1 as u64;
        g.len1 = l1 as i32;
    }
    let second = pos;
    let l2 = ret2 as u32;
    if l2 <= MAX_LEN {
        pos = pos + l2 as u64;
        g.len2 = l2 as i32;
    }
    g.total = pos as i32;
    Some(second)
}

/// A read of a null kernel address fails: 1 where it reports an error.
pub fn handler_exit(read_ret: i64) -> (r: i32)
    ensures
        r == (if read_ret != 0 { 1i32 } else { 0i32 }),
{
    if read_ret != 0 {
        1
    } else {
        0
    }
}

/// Capture law: the recorded total is the sum of the accepted lengths, and
/// the second string starts where the first ends.
pub proof fn lemma_total_is_sum(ret1: i64, ret2: i64)
    requires
        ret1 >= 0,
        ret2 >= 0,
    ensures
        after(after(0, signed_len(ret1)), signed_len(ret2)) == ret1 + ret2,
        after(0, signed_len(ret1)) == ret1,
{
}

} // verus!
