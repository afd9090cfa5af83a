//! XDP VLAN handling: parse up to two 802.1Q/802.1ad tags, drop or rewrite
//! one VLAN id, and strip the outer tag.
use vstd::prelude::*;
use crate::bytes::{be16, be16_bytes, bswap16, get_le16, get_unaligned_be16, htons, le16, set_be16, splice};
use crate::ctx::{XDP_ABORTED, XDP_PASS};

verus! {

pub const ETH_P_8021Q: u16 = 0x8100;
pub const ETH_P_8021AD: u16 = 0x88A8;
pub const VLAN_VID_MASK: u16 = 0x0fff;
pub const ETH_ALEN: usize = 6;
pub const VLAN_HDR_SZ: usize = 4;
/// The VLAN id the test programs drop or rewrite.
pub const TESTVLAN: u16 = 4011;
/// The VLAN id it is rewritten to.
pub const TO_VLAN: u16 = 0;

/// What the parser learns of an Ethernet frame.
#[derive(Clone, Copy, PartialEq, Eq, Structural)]
pub struct ParsePkt {
    pub l3_proto: u16,
    pub l3_offset: u16,
    pub vlan_outer: u16,
    pub vlan_inner: u16,
    pub vlan_outer_offset: u8,
    pub vlan_inner_offset: u8,
}

/// The all-zero parse state the programs start from.
pub open spec fn zero_pkt() -> ParsePkt {
    ParsePkt { l3_proto: 0, l3_offset: 0, vlan_outer: 0, vlan_inner: 0, vlan_outer_offset: 0, vlan_inner_offset: 0 }
}

impl ParsePkt {
    /// The all-zero parse state.
    pub fn zero() -> (r: ParsePkt)
        ensures
            r == zero_pkt(),
    {
        ParsePkt { l3_proto: 0, l3_offset: 0, vlan_outer: 0, vlan_inner: 0, vlan_outer_offset: 0, vlan_inner_offset: 0 }
    }
}

/// What an XDP program returns, with the head adjustment it asks the
/// kernel for (0: none).
#[derive(Clone, Copy, PartialEq, Eq, Structural)]
pub struct XdpOutcome {
    pub action: i32,
    pub head_adjust: i32,
}

/// Whether a raw ethertype is a VLAN tag type.
pub open spec fn is_vlan_type(raw: u16) -> bool {
    raw == bswap16(ETH_P_8021Q) || raw == bswap16(ETH_P_8021AD)
}

/// The VLAN id of the tag whose TCI starts at `off`.
pub open spec fn vid_at(p: Seq<u8>, off: int) -> u16 {
    (be16(p, off) % 4096) as u16
}

/// The parse state after reading the frame `p` (at least 22 bytes) into
/// `pkt`: each tag that is present overwrites its id and offset.
pub open spec fn parse_update(p: Seq<u8>, pkt: ParsePkt) -> ParsePkt {
    let t0 = le16(p, 12);
    let outer = is_vlan_type(t0);
    let off1: int = if outer { 18 } else { 14 };
    let t1 = if outer { le16(p, 16) } else { t0 };
    let inner = is_vlan_type(t1);
    let off2: int = if inner { off1 + 4 } else { off1 };
    let t2 = if inner { le16(p, off1 + 2) } else { t1 };
    let pk1 = if outer {
        ParsePkt { vlan_outer_offset: 14, vlan_outer: vid_at(p, 14), ..pkt }
    } else {
        pkt
    };
    let pk2 = if inner {
        ParsePkt { vlan_inner_offset: off1 as u8, vlan_inner: vid_at(p, off1), ..pk1 }
    } else {
        pk1
    };
    ParsePkt { l3_proto: bswap16(t2), l3_offset: off2 as u16, ..pk2 }
}

/// The parse of `p` from the all-zero state, if it is long enough.
pub open spec fn spec_parse(p: Seq<u8>) -> Option<ParsePkt> {
    if p.len() < 22 {
        None
    } else {
        Some(parse_update(p, zero_pkt()))
    }
}

pub open spec fn spec_drop_vlan_4011(p: Seq<u8>) -> i32 {
    match spec_parse(p) {
        None => XDP_ABORTED,
        Some(pk) => if pk.vlan_outer == TESTVLAN { XDP_ABORTED } else { XDP_PASS },
    }
}

/// The frame after rewriting outer VLAN 4011 to 0 (priority bits kept).
pub open spec fn spec_vlan_change(p: Seq<u8>) -> Seq<u8> {
    match spec_parse(p) {
        Some(pk) => if pk.vlan_outer == TESTVLAN {
            splice(p, 14, be16_bytes(((be16(p, 14) / 4096) * 4096 + TO_VLAN) as u16))
        } else {
            p
        },
        None => p,
    }
}

pub open spec fn spec_vlan_change_action(p: Seq<u8>) -> i32 {
    if p.len() < 22 { XDP_ABORTED } else { XDP_PASS }
}

/// Whether the outer tag is stripped: the frame parses and has one.
pub open spec fn strips_outer(p: Seq<u8>) -> bool {
    match spec_parse(p) {
        Some(pk) => pk.vlan_outer_offset != 0,
        None => false,
    }
}

/// The buffer after the two MAC addresses are moved 4 bytes up.
pub open spec fn macs_moved(p: Seq<u8>) -> Seq<u8> {
    p.take(4) + p.take(12) + p.skip(16)
}

/// The frame the kernel sees once the head has moved past the old tag.
pub open spec fn frame_without_outer(p: Seq<u8>) -> Seq<u8> {
    p.take(12) + p.skip(16)
}

// ---------------------------------------------------------------------
// Executable code
// ---------------------------------------------------------------------

/// Parses the Ethernet header and up to two VLAN tags into `pkt`.  Fails
/// (leaving `pkt` alone) on a frame shorter than an Ethernet header and
/// two tags.
pub fn parse_eth_frame(p: &[u8], pkt: &mut ParsePkt) -> (r: bool)
    ensures
        r == (p@.len() >= 22),
        r ==> *final(pkt) == parse_update(p@, *old(pkt)),
        !r ==> *final(pkt) == *old(pkt),
{
    let mut offset: u8 = 14;
    if p.len() < 22 {
        return false;
    }
    let ghost old_pkt = *pkt;
    let mut eth_type = get_le16(p, 12);
    if eth_type == htons(ETH_P_8021Q) || eth_type == htons(ETH_P_8021AD) {
        pkt.vlan_outer_offset = offset;
        let tci = get_unaligned_be16(p, 14);
        pkt.vlan_outer = tci & VLAN_VID_MASK;
        assert(tci & 0x0fff == tci % 4096) by (bit_vector);
        eth_type = get_le16(p, 16);
        offset = offset + 4;
    }
    if eth_type == htons(ETH_P_8021Q) || eth_type == htons(ETH_P_8021AD) {
        pkt.vlan_inner_offset = offset;
        let tci = get_unaligned_be16(p, offset as usize);
        pkt.vlan_inner = tci & VLAN_VID_MASK;
        assert(tci & 0x0fff == tci % 4096) by (bit_vector);
        eth_type = get_le16(p, offset as usize + 2);
        offset = offset + 4;
    }
    pkt.l3_proto = htons(eth_type);
    pkt.l3_offset = offset as u16;
    assert(*pkt == parse_update(p@, old_pkt));
    true
}

/// Drops (aborts) frames whose outer VLAN id is 4011.
pub fn xdp_drop_vlan_4011(p: &[u8]) -> (r: i32)
    ensures
        r == spec_drop_vlan_4011(p@),
{
    let mut pkt = ParsePkt::zero();
    if !parse_eth_frame(p, &mut pkt) {
        return XDP_ABORTED;
    }
    if pkt.vlan_outer == TESTVLAN {
        return XDP_ABORTED;
    }
    XDP_PASS
}

/// Rewrites outer VLAN id 4011 to 0, keeping the priority bits.
pub fn xdp_vlan_change(p: &mut Vec<u8>) -> (r: i32)
    ensures
        r == spec_vlan_change_action(old(p)@),
        final(p)@ == spec_vlan_change(old(p)@),
{
    let mut pkt = ParsePkt::zero();
    if !parse_eth_frame(p.as_slice(), &mut pkt) {
        return XDP_ABORTED;
    }
    if pkt.vlan_outer == TESTVLAN {
        let off = pkt.vlan_outer_offset as usize;
        let cur = get_unaligned_be16(p.as_slice(), off);
        assert(cur & 0xf000 == (cur / 4096) * 4096) by (bit_vector);
        assert((cur & 0xf000) | 0u16 == cur & 0xf000) by (bit_vector);
        assert(off == 14);
        set_be16(p, off, (cur & 0xf000) | TO_VLAN);
    }
    XDP_PASS
}

/// Copies `len` bytes from `src` to `dst` (`dst >= src`), last byte
/// first, so that overlapping ranges are moved correctly.
pub fn vmove_fwd(buf: &mut Vec<u8>, dst: usize, src: usize, len: usize)
    requires
        src <= dst,
        dst + len <= old(buf)@.len(),
    ensures
        final(buf)@ == old(buf)@.take(dst as int) + old(buf)@.subrange(src as int, src + len)
            + old(buf)@.skip(dst + len),
{
    let ghost b0 = buf@;
    let n = buf.len();
    let mut i = len;
    while i > 0
        invariant
            i <= len,
            n == b0.len(),
            src <= dst,
            dst + len <= b0.len(),
            buf@.len() == b0.len(),
            forall|k: int| 0 <= k < dst + i ==> #[trigger] buf@[k] == b0[k],
            forall|k: int| dst + i <= k < dst + len ==> #[trigger] buf@[k] == b0[k - dst + src],
            forall|k: int| dst + len <= k < b0.len() ==> #[trigger] buf@[k] == b0[k],
        decreases i,
    {
        i -= 1;
        let v = buf[src + i];
        buf.set(dst + i, v);
    }
    assert(buf@ =~= b0.take(dst as int) + b0.subrange(src as int, src + len) + b0.skip(dst + len));
}

/// Strips the outer VLAN tag: the MAC addresses move up over it and the
/// program asks for the head to move 4 bytes on.  The inner ethertype
/// becomes the frame's ethertype.
pub fn xdp_vlan_remove_outer(p: &mut Vec<u8>) -> (r: XdpOutcome)
    ensures
        old(p)@.len() < 22 ==> r == (XdpOutcome { action: XDP_ABORTED, head_adjust: 0 }),
        old(p)@.len() >= 22 && !strips_outer(old(p)@) ==> r == (XdpOutcome { action: XDP_PASS, head_adjust: 0 }),
        strips_outer(old(p)@) ==> r == (XdpOutcome { action: XDP_PASS, head_adjust: 4 }),
        !strips_outer(old(p)@) ==> final(p)@ == old(p)@,
        strips_outer(old(p)@) ==> final(p)@ == macs_moved(old(p)@),
{
    let mut pkt = ParsePkt::zero();
    if !parse_eth_frame(p.as_slice(), &mut pkt) {
        return XdpOutcome { action: XDP_ABORTED, head_adjust: 0 };
    }
    if pkt.vlan_outer_offset == 0 {
        return XdpOutcome { action: XDP_PASS, head_adjust: 0 };
    }
    let ghost p0 = p@;
    vmove_fwd(p, VLAN_HDR_SZ, 0, ETH_ALEN * 2);
    assert(p@ =~= macs_moved(p0));
    XdpOutcome { action: XDP_PASS, head_adjust: VLAN_HDR_SZ as i32 }
}

/// Shifts the two MAC addresses 4 bytes up, over the old ethertype and TCI.
pub fn shift_mac_4bytes_32bit(p: &mut Vec<u8>)
    requires
        old(p)@.len() >= 16,
    ensures
        final(p)@ == macs_moved(old(p)@),
{
    let ghost p0 = p@;
    vmove_fwd(p, VLAN_HDR_SZ, 0, ETH_ALEN * 2);
    assert(p@ =~= macs_moved(p0));
}

/// Second variant of outer-tag removal, through `shift_mac_4bytes_32bit`.
pub fn xdp_vlan_remove_outer2(p: &mut Vec<u8>) -> (r: XdpOutcome)
    ensures
        old(p)@.len() < 22 ==> r == (XdpOutcome { action: XDP_ABORTED, head_adjust: 0 }),
        old(p)@.len() >= 22 && !strips_outer(old(p)@) ==> r == (XdpOutcome { action: XDP_PASS, head_adjust: 0 }),
        strips_outer(old(p)@) ==> r == (XdpOutcome { action: XDP_PASS, head_adjust: 4 }),
        !strips_outer(old(p)@) ==> final(p)@ == old(p)@,
        strips_outer(old(p)@) ==> final(p)@ == macs_moved(old(p)@),
{
    let mut pkt = ParsePkt::zero();
    if !parse_eth_frame(p.as_slice(), &mut pkt) {
        return XdpOutcome { action: XDP_ABORTED, head_adjust: 0 };
    }
    if pkt.vlan_outer_offset == 0 {
        return XdpOutcome { action: XDP_PASS, head_adjust: 0 };
    }
    shift_mac_4bytes_32bit(p);
    XdpOutcome { action: XDP_PASS, head_adjust: VLAN_HDR_SZ as i32 }
}

// ---------------------------------------------------------------------
// Laws
// ---------------------------------------------------------------------

/// Stripping the outer tag: once the head has moved past it, the frame is
/// the two MAC addresses followed by everything after the old tag.
pub proof fn lemma_remove_outer_frame(p: Seq<u8>)
    requires
        strips_outer(p),
    ensures
        macs_moved(p).skip(4) == frame_without_outer(p),
{
    assert(macs_moved(p).skip(4) =~= frame_without_outer(p));
}

/// Stripping the outer tag exposes the inner one: on the new frame (long
/// enough to parse) the outer VLAN id is the old inner one, and there is an
/// outer tag exactly when there was an inner one.
pub proof fn lemma_remove_outer_exposes_inner(p: Seq<u8>)
    requires
        strips_outer(p),
        p.len() >= 26,
    ensures
        ({
            let q = frame_without_outer(p);
            let a = spec_parse(p).unwrap();
            let b = spec_parse(q).unwrap();
            &&& spec_parse(q) is Some
            &&& b.vlan_outer == a.vlan_inner
            &&& (b.vlan_outer_offset != 0) == (a.vlan_inner_offset != 0)
        }),
{
    let q = frame_without_outer(p);
    assert(q[12] == p[16] && q[13] == p[17] && q[14] == p[18] && q[15] == p[19]);
}

/// A VLAN tag to push: its protocol (network order, as the helper takes
/// it) and its tag control information.
#[derive(Clone, Copy, PartialEq, Eq, Structural)]
pub struct VlanTag {
    pub proto: u16,
    pub tci: u16,
}

/// The classifier that tags every packet with the test VLAN (802.1Q) and
/// lets it through; returns `TC_ACT_OK` (0) and the tag to push.
pub fn tc_vlan_push() -> (r: (i32, VlanTag))
    ensures
        r == (0i32, VlanTag { proto: bswap16(ETH_P_8021Q), tci: TESTVLAN }),
{
    (0, VlanTag { proto: htons(ETH_P_8021Q), tci: TESTVLAN })
}

/// After the VLAN rewrite, the drop program lets the frame pass.
pub proof fn lemma_change_then_pass(p: Seq<u8>)
    requires
        p.len() >= 22,
    ensures
        spec_drop_vlan_4011(spec_vlan_change(p)) == XDP_PASS,
{
    let pk = spec_parse(p).unwrap();
    if pk.vlan_outer == TESTVLAN {
        let x = be16(p, 14);
        let y = ((x / 4096) * 4096 + TO_VLAN) as u16;
        let q = spec_vlan_change(p);
        assert(q[12] == p[12] && q[13] == p[13]);
        assert(be16(q, 14) == y) by {
            crate::bytes::lemma_be16_roundtrip(y);
        }
        assert(y % 4096 == 0) by (nonlinear_arith)
            requires
                y == ((x / 4096) * 4096) as u16,
                x < 0x10000,
        ;
    }
}

} // verus!
