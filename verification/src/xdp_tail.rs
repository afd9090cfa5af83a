//! XDP programs that move the end of a packet: growing or shrinking the
//! tail by an amount chosen from the packet's length, and rewriting a
//! 16-byte block of a multi-buffer packet at an offset the packet names.
//!
//! The tail move itself is the kernel's (`bpf_xdp_adjust_tail`): the
//! programs give the amount and take the kernel's answer.
use vstd::prelude::*;
use crate::bytes::le32;
use crate::ctx::{XDP_ABORTED, XDP_DROP, XDP_PASS, XDP_TX};

verus! {

/// Room the kernel keeps behind the data for its shared info.
pub const TAILROOM: i32 = 320;

/// What a tail-moving program decides: its verdict and the amount it asked
/// the kernel to move the tail by, if it asked.
#[derive(Clone, Copy, PartialEq, Eq, Structural)]
pub struct TailOutcome {
    pub action: i32,
    pub delta: Option<i32>,
}

/// The growth the grow test asks for a packet of `data_len` bytes, or none
/// for a length no test uses.
pub open spec fn spec_grow_offset(data_len: i32) -> Option<i32> {
    if data_len == 54 {
        Some(4096i32)
    } else if data_len == 53 {
        Some(65536i32)
    } else if data_len == 74 {
        Some(40i32)
    } else if data_len == 64 {
        Some(128i32)
    } else if data_len == 128 {
        Some((4096 - 256 - TAILROOM - 128) as i32)
    } else if data_len == 9000 {
        Some(10i32)
    } else if data_len == 9001 {
        Some(4096i32)
    } else if data_len == 90000 {
        Some(10i32)
    } else if data_len == 90001 {
        Some(65536i32)
    } else {
        None
    }
}

/// The grow test on a packet of `buff_len` bytes (the buffer length the
/// kernel reports, taken as an `i32`), with `adjust_ret` the kernel's answer
/// to the tail move: no matching test aborts; a refused move drops; else
/// the packet goes back out.
pub open spec fn spec_adjust_tail_grow(buff_len: u64, adjust_ret: i64) -> TailOutcome {
    match spec_grow_offset(buff_len as i32) {
        None => TailOutcome { action: XDP_ABORTED, delta: None },
        Some(off) => TailOutcome { action: if adjust_ret != 0 { XDP_DROP } else { XDP_TX }, delta: Some(off) },
    }
}

/// Grows the tail by an amount chosen from the packet length (see
/// [`spec_adjust_tail_grow`]).
pub fn _xdp_adjust_tail_grow(buff_len: u64, adjust_ret: i64) -> (r: TailOutcome)
    ensures
        r == spec_adjust_tail_grow(buff_len, adjust_ret),
{
    let data_len = buff_len as i32;
    let offset: i32;
    if data_len == 54 {
        offset = 4096;
    } else if data_len == 53 {
        offset = 65536;
    } else if data_len == 74 {
        offset = 40;
    } else if data_len == 64 {
        offset = 128;
    } else if data_len == 128 {
        offset = 4096 - 256 - TAILROOM - data_len;
    } else if data_len == 9000 {
        offset = 10;
    } else if data_len == 9001 {
        offset = 4096;
    } else if data_len == 90000 {
        offset = 10;
    } else if data_len == 90001 {
        offset = 65536;
    } else {
        return TailOutcome { action: XDP_ABORTED, delta: None };
    }
    if adjust_ret != 0 {
        return TailOutcome { action: XDP_DROP, delta: Some(offset) };
    }
    TailOutcome { action: XDP_TX, delta: Some(offset) }
}

/// The shrink the shrink test asks for: 256 bytes of a 54-byte packet (more
/// than it has); for a 9000-byte multi-buffer packet an amount chosen by
/// its first byte (none for other first bytes or an empty linear part); 20
/// bytes otherwise.
pub open spec fn spec_shrink_offset(buff_len: u64, linear: Seq<u8>) -> Option<i32> {
    if buff_len == 54 {
        Some(256i32)
    } else if buff_len == 9000 {
        if linear.len() < 1 {
            None
        } else if linear[0] == 0 {
            Some(10i32)
        } else if linear[0] == 1 {
            Some(4100i32)
        } else if linear[0] == 2 {
            Some(8200i32)
        } else {
            None
        }
    } else {
        Some(20i32)
    }
}

/// The shrink test: `linear` is the packet's linear part, `adjust_ret` the
/// kernel's answer to moving the tail back by the chosen amount.
pub open spec fn spec_adjust_tail_shrink(buff_len: u64, linear: Seq<u8>, adjust_ret: i64) -> TailOutcome {
    match spec_shrink_offset(buff_len, linear) {
        None => TailOutcome { action: XDP_DROP, delta: None },
        Some(off) => TailOutcome { action: if adjust_ret != 0 { XDP_DROP } else { XDP_TX }, delta: Some((0 - off) as i32) },
    }
}

/// Shrinks the tail (see [`spec_adjust_tail_shrink`]).
pub fn _xdp_adjust_tail_shrink(buff_len: u64, linear: &[u8], adjust_ret: i64) -> (r: TailOutcome)
    ensures
        r == spec_adjust_tail_shrink(buff_len, linear@, adjust_ret),
{
    let offset: i32;
    if buff_len == 54 {
        offset = 256;
    } else if buff_len == 9000 {
        if linear.len() < 1 {
            return TailOutcome { action: XDP_DROP, delta: None };
        }
        let b0 = linear[0];
        if b0 == 0 {
            offset = 10;
        } else if b0 == 1 {
            offset = 4100;
        } else if b0 == 2 {
            offset = 8200;
        } else {
            return TailOutcome { action: XDP_DROP, delta: None };
        }
    } else {
        offset = 20;
    }
    if adjust_ret != 0 {
        return TailOutcome { action: XDP_DROP, delta: Some(0 - offset) };
    }
    TailOutcome { action: XDP_TX, delta: Some(0 - offset) }
}

/// Length of the block the frags test rewrites.
pub const FRAG_BLOCK: usize = 16;

/// The frags test on a multi-buffer packet whose bytes (linear part first,
/// then the fragments) are `buf` and whose linear part is `linear_len`
/// bytes long: the raw 32-bit word at the start names an offset; the
/// 16-byte block there must start and end with 0xaa, and both ends become
/// 0xbb.  A short linear part, a block past the end or other end bytes
/// drop the packet.
pub open spec fn spec_adjust_frags(linear_len: int, buf: Seq<u8>) -> (i32, Seq<u8>) {
    if linear_len < 4 {
        (XDP_DROP, buf)
    } else {
        let off = le32(buf, 0) as int;
        if off + 16 > buf.len() {
            (XDP_DROP, buf)
        } else if buf[off] != 0xaa || buf[off + 15] != 0xaa {
            (XDP_DROP, buf)
        } else {
            (XDP_PASS, buf.update(off, 0xbb).update(off + 15, 0xbb))
        }
    }
}

/// Rewrites the block a multi-buffer packet names (see
/// [`spec_adjust_frags`]).
pub fn xdp_adjust_frags(linear_len: usize, buf: &mut Vec<u8>) -> (r: i32)
    requires
        linear_len <= old(buf)@.len(),
    ensures
        (r, final(buf)@) == spec_adjust_frags(linear_len as int, old(buf)@),
{
    if linear_len < 4 {
        return XDP_DROP;
    }
    let offset = crate::bytes::get_le32(buf.as_slice(), 0);
    let n = buf.len();
    if offset as usize > n || n - (offset as usize) < FRAG_BLOCK {
        return XDP_DROP;
    }
    let off = offset as usize;
    let first = buf[off];
    let last = buf[off + 15];
    if first != 0xaa || last != 0xaa {
        return XDP_DROP;
    }
    buf.set(off, 0xbb);
    buf.set(off + 15, 0xbb);
    XDP_PASS
}

/// The frags test changes exactly the two end bytes of the block and keeps
/// the packet's length.
pub proof fn lemma_frags_touch_block_ends(linear_len: int, buf: Seq<u8>, i: int)
    requires
        spec_adjust_frags(linear_len, buf).0 == XDP_PASS,
        0 <= i < buf.len(),
        i != le32(buf, 0) as int,
        i != le32(buf, 0) as int + 15,
    ensures
        spec_adjust_frags(linear_len, buf).1.len() == buf.len(),
        spec_adjust_frags(linear_len, buf).1[i] == buf[i],
{
}

} // verus!
