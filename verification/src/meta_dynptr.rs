//! The metadata classifiers that reach the packet and its metadata through
//! dynamic pointers, and the dynamic pointers themselves.
//!
//! A dynamic pointer is a window onto a byte buffer (the packet or its
//! metadata area): reads, writes and slices are checked against the
//! window, and the window can be narrowed.  The classifiers copy the
//! 32-byte pattern between packet and metadata, or check it, in various
//! ways, and note a pass where the pattern is found.
use vstd::prelude::*;
use crate::meta::{
    check_metadata, has_pattern, is_test_packet, long_mismatch, mismatch_if, spec_is_test_packet, StreamReport, META_SIZE,
    META_WANT, TC_ACT_SHOT,
};

verus! {

pub const TC_ACT_UNSPEC: i32 = -1;
pub const BPF_OK: i32 = 0;
pub const BPF_DROP: i32 = 2;
pub const E2BIG: i64 = 7;
pub const EINVAL: i64 = 22;
pub const ERANGE: i64 = 34;
/// Length of an Ethernet header, where the test payload starts.
pub const ETHHDR_SZ: usize = 14;
/// Offset of the ethertype in the Ethernet header.
pub const ETHHDR_H_PROTO_OFFSET: usize = 12;
/// A quarter of the pattern.
pub const CHUNK_LEN: usize = 8;

/// A window `[off, off + size)` onto a buffer, read-only or not.
#[derive(Clone, Copy)]
pub struct Dynptr {
    pub off: usize,
    pub size: usize,
    pub rdonly: bool,
}

impl Dynptr {
    /// The window lies within a buffer of `len` bytes.
    pub open spec fn fits(self, len: nat) -> bool {
        self.off + self.size <= len
    }

    /// Whether `len` bytes from `offset` lie within the window.
    pub open spec fn in_range(self, offset: int, len: int) -> bool {
        offset <= self.size && len <= self.size - offset
    }
}

/// `n` zero bytes.
fn zeroed(n: usize) -> (v: Vec<u8>)
    ensures
        v@ == Seq::new(n as nat, |_i: int| 0u8),
{
    let mut v: Vec<u8> = Vec::new();
    let mut i: usize = 0;
    while i < n
        invariant
            i <= n,
            v@ == Seq::new(i as nat, |_i: int| 0u8),
        decreases n - i,
    {
        v.push(0);
        i += 1;
        assert(v@ =~= Seq::new(i as nat, |_i: int| 0u8));
    }
    v
}

/// A writable window onto a whole buffer of `len` bytes.
pub fn dynptr_from(len: usize) -> (d: Dynptr)
    ensures
        d == (Dynptr { off: 0, size: len, rdonly: false }),
{
    Dynptr { off: 0, size: len, rdonly: false }
}

/// Copies `len` bytes from `offset` in the window into `dst` from
/// `dst_off`; `-E2BIG` (nothing copied) where they are not all in the
/// window.
pub fn dynptr_read(dst: &mut Vec<u8>, dst_off: usize, len: usize, buf: &[u8], d: &Dynptr, offset: usize) -> (r: i64)
    requires
        d.fits(buf@.len()),
        dst_off + len <= old(dst)@.len(),
    ensures
        d.in_range(offset as int, len as int) ==> r == 0 && final(dst)@ == crate::bytes::splice(old(dst)@, dst_off as int, buf@.subrange(d.off + offset, d.off + offset + len)),
        !d.in_range(offset as int, len as int) ==> r == -E2BIG && final(dst)@ == old(dst)@,
{
    let blen = buf.len();
    if offset > d.size || len > d.size - offset {
        return -E2BIG;
    }
    let start = d.off + offset;
    let n = dst.len();
    let mut i: usize = 0;
    while i < len
        invariant
            dst@.len() == n == old(dst)@.len(),
            blen == buf@.len(),
            dst_off + len <= n,
            start + len <= buf@.len(),
            i <= len,
            forall|j: int| 0 <= j < dst_off ==> dst@[j] == old(dst)@[j],
            forall|j: int| dst_off <= j < dst_off + i ==> dst@[j] == buf@[start + (j - dst_off)],
            forall|j: int| dst_off + i <= j < n ==> dst@[j] == old(dst)@[j],
        decreases len - i,
    {
        dst.set(dst_off + i, buf[start + i]);
        i += 1;
    }
    assert(dst@ =~= crate::bytes::splice(old(dst)@, dst_off as int, buf@.subrange(d.off + offset, d.off + offset + len)));
    0
}

/// Copies `len` bytes of `src` from `src_off` into the window at
/// `offset`: `-EINVAL` for a read-only window, `-E2BIG` where they do not
/// fit; nothing is written then.
pub fn dynptr_write(buf: &mut Vec<u8>, d: &Dynptr, offset: usize, src: &[u8], src_off: usize, len: usize) -> (r: i64)
    requires
        d.fits(old(buf)@.len()),
        src_off + len <= src@.len(),
    ensures
        d.rdonly ==> r == -EINVAL && final(buf)@ == old(buf)@,
        !d.rdonly && !d.in_range(offset as int, len as int) ==> r == -E2BIG && final(buf)@ == old(buf)@,
        !d.rdonly && d.in_range(offset as int, len as int) ==> r == 0
            && final(buf)@ == crate::bytes::splice(old(buf)@, d.off + offset, src@.subrange(src_off as int, src_off + len)),
{
    let blen = buf.len();
    let slen = src.len();
    if d.rdonly {
        return -EINVAL;
    }
    if offset > d.size || len > d.size - offset {
        return -E2BIG;
    }
    let start = d.off + offset;
    let n = buf.len();
    let mut i: usize = 0;
    while i < len
        invariant
            buf@.len() == n == old(buf)@.len(),
            start + len <= n,
            start == d.off + offset,
            slen == src@.len(),
            src_off + len <= src@.len(),
            i <= len,
            forall|j: int| 0 <= j < start ==> buf@[j] == old(buf)@[j],
            forall|j: int| start <= j < start + i ==> buf@[j] == src@[src_off + (j - start)],
            forall|j: int| start + i <= j < n ==> buf@[j] == old(buf)@[j],
        decreases len - i,
    {
        buf.set(start + i, src[src_off + i]);
        i += 1;
    }
    assert(buf@ =~= crate::bytes::splice(old(buf)@, d.off + offset, src@.subrange(src_off as int, src_off + len)));
    0
}

/// Narrows the window to `[start, end)` of itself: `-ERANGE` where either
/// bound lies past the window, `-EINVAL` where they are reversed; the
/// window stays as it was then.
pub fn dynptr_adjust(d: &mut Dynptr, start: usize, end: usize) -> (r: i64)
    requires
        old(d).off + old(d).size <= usize::MAX,
    ensures
        (start > old(d).size || end > old(d).size) ==> r == -ERANGE && *final(d) == *old(d),
        (start <= old(d).size && end <= old(d).size && start > end) ==> r == -EINVAL && *final(d) == *old(d),
        (start <= end <= old(d).size) ==> r == 0 && *final(d) == (Dynptr { off: (old(d).off + start) as usize, size: (end - start) as usize, rdonly: old(d).rdonly }),
{
    if start > d.size || end > d.size {
        return -ERANGE;
    }
    if start > end {
        return -EINVAL;
    }
    d.off = d.off + start;
    d.size = end - start;
    0
}

/// Where a slice of `len` bytes at `offset` of the window starts in the
/// buffer, if it lies within the window (and, for a writable slice, the
/// window is writable).
pub fn dynptr_slice(d: &Dynptr, offset: usize, len: usize, writable: bool) -> (r: Option<usize>)
    requires
        d.off + d.size <= usize::MAX,
    ensures
        r == if d.in_range(offset as int, len as int) && !(writable && d.rdonly) { Some((d.off + offset) as usize) } else { None },
{
    if writable && d.rdonly {
        return None;
    }
    if offset > d.size || len > d.size - offset {
        return None;
    }
    Some(d.off + offset)
}

/// Reads the whole pattern's worth of metadata through a window and notes
/// a pass where it holds the pattern; drops.
pub fn ing_cls_dynptr_read(meta: &[u8], test_pass: &mut bool, reports: &mut Vec<StreamReport>) -> (r: i32)
    ensures
        r == TC_ACT_SHOT,
        *final(test_pass) == (*old(test_pass) || has_pattern(meta@)),
        final(reports)@ == old(reports)@ + mismatch_if(!has_pattern(meta@)),
{
    let mut meta_have: Vec<u8> = zeroed(32);
    let d = dynptr_from(meta.len());
    let _ = dynptr_read(&mut meta_have, 0, META_SIZE, meta, &d, 0);
    proof {
        if meta@.len() >= 32 {
            assert(meta_have@ =~= meta@.take(32));
            assert(meta_have@.take(32) =~= meta@.take(32));
        } else {
            assert(meta_have@[0] == 0u8);
            assert(META_WANT@[0] == 1u8);
            assert(meta_have@.take(32)[0] != META_WANT@[0]);
        }
    }
    if check_metadata(meta_have.as_slice(), reports) {
        *test_pass = true;
    }
    TC_ACT_SHOT
}

/// Copies the 32 bytes behind the Ethernet header into the metadata
/// through windows: a packet too short for them is dropped; metadata too
/// short for them is left alone.  Otherwise no verdict (-1).
pub fn ing_cls_dynptr_write(p: &[u8], meta: &mut Vec<u8>) -> (r: i32)
    ensures
        p@.len() < ETHHDR_SZ + META_SIZE ==> r == TC_ACT_SHOT && final(meta)@ == old(meta)@,
        p@.len() >= ETHHDR_SZ + META_SIZE ==> r == TC_ACT_UNSPEC && final(meta)@ == if old(meta)@.len() >= META_SIZE {
            p@.subrange(14, 46) + old(meta)@.skip(32)
        } else {
            old(meta)@
        },
{
    let data = dynptr_from(p.len());
    let src = match dynptr_slice(&data, ETHHDR_SZ, META_SIZE, false) {
        None => return TC_ACT_SHOT,
        Some(s) => s,
    };
    let md = dynptr_from(meta.len());
    let _ = dynptr_write(meta, &md, 0, p, src, META_SIZE);
    assert(old(meta)@.len() >= META_SIZE ==> meta@ =~= p@.subrange(14, 46) + old(meta)@.skip(32));
    TC_ACT_UNSPEC
}

/// Checks the metadata through a read-only slice of a window; drops.
pub fn ing_cls_dynptr_slice(meta: &[u8], test_pass: &mut bool, reports: &mut Vec<StreamReport>) -> (r: i32)
    ensures
        r == TC_ACT_SHOT,
        *final(test_pass) == (*old(test_pass) || has_pattern(meta@)),
        final(reports)@ == old(reports)@ + mismatch_if(long_mismatch(meta@)),
{
    let md = dynptr_from(meta.len());
    match dynptr_slice(&md, 0, META_SIZE, false) {
        None => {
            assert(reports@ =~= old(reports)@ + mismatch_if(false));
        },
        Some(_s) => {
            if check_metadata(meta, reports) {
                *test_pass = true;
            }
        },
    }
    TC_ACT_SHOT
}

/// Copies the 32 bytes behind the Ethernet header into the metadata
/// through a writable slice: either too short a packet or too short a
/// metadata area drops the packet.
pub fn ing_cls_dynptr_slice_rdwr(p: &[u8], meta: &mut Vec<u8>) -> (r: i32)
    ensures
        (p@.len() < ETHHDR_SZ + META_SIZE || old(meta)@.len() < META_SIZE) ==> r == TC_ACT_SHOT && final(meta)@ == old(meta)@,
        (p@.len() >= ETHHDR_SZ + META_SIZE && old(meta)@.len() >= META_SIZE) ==> r == TC_ACT_UNSPEC
            && final(meta)@ == p@.subrange(14, 46) + old(meta)@.skip(32),
{
    let data = dynptr_from(p.len());
    let src = match dynptr_slice(&data, ETHHDR_SZ, META_SIZE, false) {
        None => return TC_ACT_SHOT,
        Some(s) => s,
    };
    let md = dynptr_from(meta.len());
    let dst = match dynptr_slice(&md, 0, META_SIZE, true) {
        None => return TC_ACT_SHOT,
        Some(s) => s,
    };
    let full = dynptr_from(meta.len());
    let _ = dynptr_write(meta, &full, dst, p, src, META_SIZE);
    assert(meta@ =~= p@.subrange(14, 46) + old(meta)@.skip(32));
    TC_ACT_UNSPEC
}

/// Reads the metadata in four chunks through a window, a narrowed window,
/// an offset and a slice; with metadata shorter than the pattern the
/// slice fails and the packet is dropped unchecked.  Else a pass is
/// noted where the metadata holds the pattern.  Drops.
pub fn ing_cls_dynptr_offset_rd(meta: &[u8], test_pass: &mut bool, reports: &mut Vec<StreamReport>) -> (r: i32)
    ensures
        r == TC_ACT_SHOT,
        *final(test_pass) == (*old(test_pass) || has_pattern(meta@)),
        final(reports)@ == old(reports)@ + mismatch_if(long_mismatch(meta@)),
{
    let mut meta_have: Vec<u8> = zeroed(32);
    let mut md = dynptr_from(meta.len());
    let ghost m = meta@;
    let _ = dynptr_read(&mut meta_have, 0, CHUNK_LEN, meta, &md, 0);
    let size = md.size;
    let _ = dynptr_adjust(&mut md, CHUNK_LEN, size);
    let _ = dynptr_read(&mut meta_have, CHUNK_LEN, CHUNK_LEN, meta, &md, 0);
    let _ = dynptr_read(&mut meta_have, 2 * CHUNK_LEN, CHUNK_LEN, meta, &md, CHUNK_LEN);
    let src = match dynptr_slice(&md, 2 * CHUNK_LEN, CHUNK_LEN, false) {
        None => {
            assert(m.len() < 32);
            assert(reports@ =~= old(reports)@ + mismatch_if(false));
            return TC_ACT_SHOT;
        },
        Some(s) => s,
    };
    let full = dynptr_from(meta.len());
    let _ = dynptr_read(&mut meta_have, 3 * CHUNK_LEN, CHUNK_LEN, meta, &full, src);
    assert(m.len() >= 32);
    assert(meta_have@ =~= m.take(32));
    assert(meta_have@.take(32) =~= m.take(32));
    if check_metadata(meta_have.as_slice(), reports) {
        *test_pass = true;
    }
    TC_ACT_SHOT
}

/// The bytes of `meta` after the chunked write of `payload`: the chunks
/// that fit into the narrowed windows are written (all four, which the
/// slice needs, or the first `min(3, len / 8)`).
pub open spec fn offset_wr_result(meta: Seq<u8>, payload: Seq<u8>) -> Seq<u8> {
    let k: int = if meta.len() >= 32 { 4 } else if meta.len() >= 24 { 3 } else if meta.len() >= 16 { 2 } else if meta.len() >= 8 { 1 } else { 0 };
    payload.take(8 * k) + meta.skip(8 * k)
}

/// Writes the 32 bytes behind the Ethernet header (zeros where the packet
/// is too short to load them) into the metadata in four chunks, through a
/// window, a narrowed window, an offset and a slice; metadata shorter than
/// the pattern gets what fits and the packet is dropped.
#[verifier::rlimit(60)]
pub fn ing_cls_dynptr_offset_wr(p: &[u8], meta: &mut Vec<u8>) -> (r: i32)
    ensures
        ({
            let payload = if p@.len() >= ETHHDR_SZ + META_SIZE { p@.subrange(14, 46) } else { Seq::new(32, |_i: int| 0u8) };
            &&& final(meta)@ == offset_wr_result(old(meta)@, payload)
            &&& r == if old(meta)@.len() >= META_SIZE { TC_ACT_UNSPEC } else { TC_ACT_SHOT }
        }),
{
    let ghost m0 = meta@;
    let mut payload: Vec<u8> = zeroed(32);
    if p.len() >= ETHHDR_SZ + META_SIZE {
        let whole = dynptr_from(p.len());
        let _ = dynptr_read(&mut payload, 0, META_SIZE, p, &whole, ETHHDR_SZ);
    }
    let ghost pl = payload@;
    assert(pl.len() == 32);
    assert(p@.len() < ETHHDR_SZ + META_SIZE ==> pl =~= Seq::new(32, |_i: int| 0u8));
    assert(p@.len() >= ETHHDR_SZ + META_SIZE ==> pl =~= p@.subrange(14, 46));
    let n = meta.len();
    let mut md = dynptr_from(n);
    let _ = dynptr_write(meta, &md, 0, payload.as_slice(), 0, CHUNK_LEN);
    let size = md.size;
    let _ = dynptr_adjust(&mut md, CHUNK_LEN, size);
    let _ = dynptr_write(meta, &md, 0, payload.as_slice(), CHUNK_LEN, CHUNK_LEN);
    let _ = dynptr_write(meta, &md, CHUNK_LEN, payload.as_slice(), 2 * CHUNK_LEN, CHUNK_LEN);
    let dst = match dynptr_slice(&md, 2 * CHUNK_LEN, CHUNK_LEN, true) {
        None => {
            assert(meta@ =~= offset_wr_result(m0, pl));
            return TC_ACT_SHOT;
        },
        Some(s) => s,
    };
    let full = dynptr_from(n);
    let _ = dynptr_write(meta, &full, dst, payload.as_slice(), 3 * CHUNK_LEN, CHUNK_LEN);
    assert(meta@ =~= offset_wr_result(m0, pl));
    TC_ACT_UNSPEC
}

/// Out-of-range accesses to the metadata window must all be refused: a
/// read and a write just past it (`-E2BIG`), narrowing past it
/// (`-ERANGE`, twice) and slices just past it.  `from_meta_ret` is the
/// kernel's answer to making the window.  No verdict (-1) where all are
/// refused, else the packet is dropped; the metadata is never written.
pub fn ing_cls_dynptr_offset_oob(meta: &mut Vec<u8>, from_meta_ret: i64) -> (r: i32)
    ensures
        r == if from_meta_ret == 0 && old(meta)@.len() <= META_SIZE { TC_ACT_UNSPEC } else { TC_ACT_SHOT },
        final(meta)@ == old(meta)@,
{
    if from_meta_ret != 0 {
        return TC_ACT_SHOT;
    }
    let mut md = dynptr_from(meta.len());
    let mut one: Vec<u8> = zeroed(1);
    let err = dynptr_read(&mut one, 0, 1, meta.as_slice(), &md, META_SIZE);
    if err != -E2BIG {
        return TC_ACT_SHOT;
    }
    let err = dynptr_write(meta, &md, META_SIZE, one.as_slice(), 0, 1);
    if err != -E2BIG {
        return TC_ACT_SHOT;
    }
    let err = dynptr_adjust(&mut md, 0, META_SIZE + 1);
    if err != -ERANGE {
        return TC_ACT_SHOT;
    }
    let err = dynptr_adjust(&mut md, META_SIZE + 1, META_SIZE + 1);
    if err != -ERANGE {
        return TC_ACT_SHOT;
    }
    if dynptr_slice(&md, META_SIZE, 1, false).is_some() {
        return TC_ACT_SHOT;
    }
    if dynptr_slice(&md, META_SIZE, 1, true).is_some() {
        return TC_ACT_SHOT;
    }
    TC_ACT_UNSPEC
}

/// On a clone: a writable slice of the Ethernet header (too short a
/// packet drops), a test packet (else drop), then the metadata is read
/// through a window and a pass noted where it holds the pattern.  Drops.
pub fn clone_meta_dynptr_survives_data_slice_write(p: &[u8], meta: &[u8], test_pass: &mut bool, reports: &mut Vec<StreamReport>) -> (r: i32)
    ensures
        r == TC_ACT_SHOT,
        *final(test_pass) == (*old(test_pass) || (p@.len() >= ETHHDR_SZ && spec_is_test_packet(p@) && has_pattern(meta@))),
        final(reports)@ == old(reports)@ + mismatch_if(p@.len() >= ETHHDR_SZ && spec_is_test_packet(p@) && !has_pattern(meta@)),
{
    let data = dynptr_from(p.len());
    if dynptr_slice(&data, 0, ETHHDR_SZ, true).is_none() {
        assert(reports@ =~= old(reports)@ + mismatch_if(false));
        return TC_ACT_SHOT;
    }
    if !is_test_packet(p) {
        assert(reports@ =~= old(reports)@ + mismatch_if(false));
        return TC_ACT_SHOT;
    }
    ing_cls_dynptr_read(meta, test_pass, reports)
}

/// On a clone: a test packet, then the metadata is checked through a
/// writable slice (too short metadata drops).  Drops.
pub fn clone_meta_dynptr_survives_meta_slice_write(p: &[u8], meta: &[u8], test_pass: &mut bool, reports: &mut Vec<StreamReport>) -> (r: i32)
    ensures
        r == TC_ACT_SHOT,
        *final(test_pass) == (*old(test_pass) || (spec_is_test_packet(p@) && has_pattern(meta@))),
        final(reports)@ == old(reports)@ + mismatch_if(spec_is_test_packet(p@) && long_mismatch(meta@)),
{
    if !is_test_packet(p) {
        assert(reports@ =~= old(reports)@ + mismatch_if(false));
        return TC_ACT_SHOT;
    }
    let md = dynptr_from(meta.len());
    match dynptr_slice(&md, 0, META_SIZE, true) {
        None => {
            assert(reports@ =~= old(reports)@ + mismatch_if(false));
            TC_ACT_SHOT
        },
        Some(_s) => {
            if check_metadata(meta, reports) {
                *test_pass = true;
            }
            TC_ACT_SHOT
        },
    }
}

/// Reads the whole metadata through `md` and checks it.
fn read_and_check(meta: &[u8], md: &Dynptr, reports: &mut Vec<StreamReport>) -> (r: bool)
    requires
        md.off == 0,
        md.size == meta.len(),
        !md.rdonly,
    ensures
        r == has_pattern(meta@),
        final(reports)@ == old(reports)@ + mismatch_if(long_mismatch(meta@)),
{
    let mut meta_have: Vec<u8> = zeroed(32);
    let err = dynptr_read(&mut meta_have, 0, META_SIZE, meta, md, 0);
    if err != 0 {
        assert(reports@ =~= old(reports)@ + mismatch_if(false));
        return false;
    }
    assert(meta_have@ =~= meta@.take(32));
    assert(meta_have@.take(32) =~= meta@.take(32));
    check_metadata(meta_have.as_slice(), reports)
}

/// On a clone: a test packet with the pattern in its metadata has its
/// ethertype's first byte overwritten with 'x' through a window; the
/// metadata must still hold the pattern, and then a pass is noted.  Drops.
pub fn clone_meta_dynptr_rw_before_data_dynptr_write(p: &mut Vec<u8>, meta: &[u8], test_pass: &mut bool, reports: &mut Vec<StreamReport>) -> (r: i32)
    ensures
        r == TC_ACT_SHOT,
        (spec_is_test_packet(old(p)@) && has_pattern(meta@)) ==> *final(test_pass) && final(p)@ == old(p)@.update(12, 0x78u8),
        !(spec_is_test_packet(old(p)@) && has_pattern(meta@)) ==> *final(test_pass) == *old(test_pass) && final(p)@ == old(p)@,
        final(reports)@ == old(reports)@ + mismatch_if(spec_is_test_packet(old(p)@) && long_mismatch(meta@)),
{
    if !is_test_packet(p.as_slice()) {
        assert(reports@ =~= old(reports)@ + mismatch_if(false));
        return TC_ACT_SHOT;
    }
    let md = dynptr_from(meta.len());
    if md.rdonly {
        assert(reports@ =~= old(reports)@ + mismatch_if(false));
        return TC_ACT_SHOT;
    }
    if !read_and_check(meta, &md, reports) {
        return TC_ACT_SHOT;
    }
    let data = dynptr_from(p.len());
    let x: [u8; 1] = [0x78];
    let ghost p0 = p@;
    let _ = dynptr_write(p, &data, ETHHDR_H_PROTO_OFFSET, x.as_slice(), 0, 1);
    assert(p0.len() >= 32);
    assert(p@ =~= p0.update(12, 0x78u8));
    if !read_and_check(meta, &md, reports) {
        return TC_ACT_SHOT;
    }
    *test_pass = true;
    TC_ACT_SHOT
}

/// On a clone: a test packet with the pattern in its metadata has the
/// metadata's first byte rewritten (with its own value) through a window;
/// the metadata must still hold the pattern, and then a pass is noted.
/// Drops.
pub fn clone_meta_dynptr_rw_before_meta_dynptr_write(p: &[u8], meta: &mut Vec<u8>, test_pass: &mut bool, reports: &mut Vec<StreamReport>) -> (r: i32)
    ensures
        r == TC_ACT_SHOT,
        final(meta)@ == old(meta)@,
        *final(test_pass) == (*old(test_pass) || (spec_is_test_packet(p@) && has_pattern(old(meta)@))),
        final(reports)@ == old(reports)@ + mismatch_if(spec_is_test_packet(p@) && long_mismatch(old(meta)@)),
{
    if !is_test_packet(p) {
        assert(reports@ =~= old(reports)@ + mismatch_if(false));
        return TC_ACT_SHOT;
    }
    let md = dynptr_from(meta.len());
    if md.rdonly {
        assert(reports@ =~= old(reports)@ + mismatch_if(false));
        return TC_ACT_SHOT;
    }
    if !read_and_check(meta.as_slice(), &md, reports) {
        return TC_ACT_SHOT;
    }
    let ghost m0 = meta@;
    let first: [u8; 1] = [meta[0]];
    let _ = dynptr_write(meta, &md, 0, first.as_slice(), 0, 1);
    assert(meta@ =~= m0);
    if !read_and_check(meta.as_slice(), &md, reports) {
        return TC_ACT_SHOT;
    }
    *test_pass = true;
    TC_ACT_SHOT
}

/// Light-weight tunnel transmit hook: room for an IPv6 header is asked
/// for in front of the packet (`head_ret` answers); a refusal drops.
pub fn dummy_lwt_xmit(head_ret: i64) -> (r: i32)
    ensures
        r == if head_ret != 0 { BPF_DROP } else { BPF_OK },
{
    if head_ret != 0 {
        return BPF_DROP;
    }
    BPF_OK
}

/// Window law: what a write puts into a window, a read of the same place
/// gives back, and a window narrowed to `[start, end)` reads the buffer
/// from `start` on.
pub proof fn lemma_write_then_read(buf: Seq<u8>, d: Dynptr, offset: int, src: Seq<u8>)
    requires
        d.fits(buf.len()),
        !d.rdonly,
        0 <= offset,
        d.in_range(offset, src.len() as int),
    ensures
        crate::bytes::splice(buf, d.off + offset, src).subrange(d.off + offset, d.off + offset + src.len()) == src,
{
    assert(crate::bytes::splice(buf, d.off + offset, src).subrange(d.off + offset, d.off + offset + src.len()) =~= src);
}

} // verus!
