//! The classifiers of the tc link tests: each records that it ran, and the
//! first and the seventh look at the Ethernet header of IPv4 packets, the
//! first marking host packets as multicast (and tagging their destination
//! MAC), the seventh turning such packets back into host packets.
//!
//! Packets are byte sequences; the kernel's part (storing bytes, changing
//! the packet type, reading the device) is given as calls and answers.
use vstd::prelude::*;

verus! {

pub const TCX_NEXT: i32 = -1;
pub const TCX_PASS: i32 = 0;
/// `htons(ETH_P_IP)` as the context's protocol field holds it.
pub const PROTO_IP_RAW: u32 = 0x0008;
pub const PACKET_HOST: u32 = 0;
pub const PACKET_MULTICAST: u32 = 2;
pub const ETH_HLEN: usize = 14;

/// What the programs record.
#[derive(Clone, Copy)]
pub struct TcLinkGlobals {
    pub seen_tc1: bool,
    pub seen_tc2: bool,
    pub seen_tc3: bool,
    pub seen_tc4: bool,
    pub seen_tc5: bool,
    pub seen_tc6: bool,
    pub seen_tc7: bool,
    pub seen_tc8: bool,
    /// Setting: whether the first program retypes host packets.
    pub set_type: bool,
    pub seen_eth: bool,
    pub seen_host: bool,
    pub seen_mcast: bool,
    pub mark: i32,
    pub prio: i32,
    pub headroom: u16,
    pub tailroom: u16,
}

/// A kernel helper call of the classifiers.
#[derive(Clone, Copy, PartialEq, Eq, Structural)]
pub enum TcLinkCall {
    /// The Ethernet header is stored back with its first byte set to 4.
    StoreEth,
    /// `bpf_skb_change_type(pkt_type)`.
    ChangeType { pkt_type: u32 },
}

/// Whether an IPv4 packet's Ethernet header can be read.
pub open spec fn eth_readable(protocol: u32, p: Seq<u8>) -> bool {
    protocol == PROTO_IP_RAW && p.len() >= ETH_HLEN
}

/// The first ingress classifier: on an IPv4 packet whose header is read,
/// records whether its EtherType is IPv4 and whether it is a host packet;
/// with retyping on, a host packet gets 4 as its first byte (`store_ret`
/// is the kernel's answer to that store; a failed store returns at once)
/// and becomes multicast.  Gives verdict, packet, globals, calls.
pub open spec fn spec_tc1(protocol: u32, pkt_type: u32, p: Seq<u8>, g: TcLinkGlobals, store_ret: i64) -> (i32, Seq<u8>, TcLinkGlobals, Seq<TcLinkCall>) {
    if eth_readable(protocol, p) {
        let host = pkt_type == PACKET_HOST;
        let g1 = TcLinkGlobals { seen_eth: p[12] == 0x08 && p[13] == 0x00, seen_host: host, ..g };
        if host && g.set_type {
            if store_ret != 0 {
                (TCX_NEXT, p, g1, seq![TcLinkCall::StoreEth])
            } else {
                (TCX_NEXT, p.update(0, 4u8), TcLinkGlobals { seen_tc1: true, ..g1 },
                    seq![TcLinkCall::StoreEth, TcLinkCall::ChangeType { pkt_type: PACKET_MULTICAST }])
            }
        } else {
            (TCX_NEXT, p, TcLinkGlobals { seen_tc1: true, ..g1 }, seq![])
        }
    } else {
        (TCX_NEXT, p, TcLinkGlobals { seen_tc1: true, ..g }, seq![])
    }
}

/// The first ingress classifier (see [`spec_tc1`]).
pub fn tc1(protocol: u32, pkt_type: u32, p: &mut Vec<u8>, g: &mut TcLinkGlobals, store_ret: i64, calls: &mut Vec<TcLinkCall>) -> (r: i32)
    ensures
        ({
            let (v, p1, g1, cs) = spec_tc1(protocol, pkt_type, old(p)@, *old(g), store_ret);
            &&& r == v
            &&& final(p)@ == p1
            &&& *final(g) == g1
            &&& final(calls)@ == old(calls)@ + cs
        }),
{
    if protocol == PROTO_IP_RAW && p.len() >= ETH_HLEN {
        let host = pkt_type == PACKET_HOST;
        g.seen_eth = p[12] == 0x08 && p[13] == 0x00;
        g.seen_host = host;
        if host && g.set_type {
            calls.push(TcLinkCall::StoreEth);
            if store_ret != 0 {
                return TCX_NEXT;
            }
            p.set(0, 4);
            calls.push(TcLinkCall::ChangeType { pkt_type: PACKET_MULTICAST });
        }
    }
    g.seen_tc1 = true;
    assert(calls@ =~= old(calls)@ + spec_tc1(protocol, pkt_type, old(p)@, *old(g), store_ret).3);
    TCX_NEXT
}

/// Egress classifiers that only record that they ran.
pub fn tc2(g: &mut TcLinkGlobals) -> (r: i32)
    ensures
        r == TCX_NEXT,
        *final(g) == (TcLinkGlobals { seen_tc2: true, ..*old(g) }),
{
    g.seen_tc2 = true;
    TCX_NEXT
}

pub fn tc3(g: &mut TcLinkGlobals) -> (r: i32)
    ensures
        r == TCX_NEXT,
        *final(g) == (TcLinkGlobals { seen_tc3: true, ..*old(g) }),
{
    g.seen_tc3 = true;
    TCX_NEXT
}

pub fn tc4(g: &mut TcLinkGlobals) -> (r: i32)
    ensures
        r == TCX_NEXT,
        *final(g) == (TcLinkGlobals { seen_tc4: true, ..*old(g) }),
{
    g.seen_tc4 = true;
    TCX_NEXT
}

pub fn tc5(g: &mut TcLinkGlobals) -> (r: i32)
    ensures
        r == TCX_PASS,
        *final(g) == (TcLinkGlobals { seen_tc5: true, ..*old(g) }),
{
    g.seen_tc5 = true;
    TCX_PASS
}

pub fn tc6(g: &mut TcLinkGlobals) -> (r: i32)
    ensures
        r == TCX_PASS,
        *final(g) == (TcLinkGlobals { seen_tc6: true, ..*old(g) }),
{
    g.seen_tc6 = true;
    TCX_PASS
}

/// The second ingress classifier: an IPv4 packet whose first byte is 4,
/// with retyping on, records whether it arrived as multicast and becomes a
/// host packet again.
pub open spec fn spec_tc7(protocol: u32, pkt_type: u32, p: Seq<u8>, g: TcLinkGlobals) -> (TcLinkGlobals, Seq<TcLinkCall>) {
    if eth_readable(protocol, p) && p[0] == 4 && g.set_type {
        (TcLinkGlobals { seen_mcast: pkt_type == PACKET_MULTICAST, seen_tc7: true, ..g },
            seq![TcLinkCall::ChangeType { pkt_type: PACKET_HOST }])
    } else {
        (TcLinkGlobals { seen_tc7: true, ..g }, seq![])
    }
}

/// The second ingress classifier (see [`spec_tc7`]); always passes.
pub fn tc7(protocol: u32, pkt_type: u32, p: &[u8], g: &mut TcLinkGlobals, calls: &mut Vec<TcLinkCall>) -> (r: i32)
    ensures
        r == TCX_PASS,
        (*final(g), final(calls)@) == ({
            let (g1, cs) = spec_tc7(protocol, pkt_type, p@, *old(g));
            (g1, old(calls)@ + cs)
        }),
{
    if protocol == PROTO_IP_RAW && p.len() >= ETH_HLEN && p[0] == 4 && g.set_type {
        g.seen_mcast = pkt_type == PACKET_MULTICAST;
        calls.push(TcLinkCall::ChangeType { pkt_type: PACKET_HOST });
    }
    g.seen_tc7 = true;
    assert(calls@ =~= old(calls)@ + spec_tc7(protocol, pkt_type, p@, *old(g)).1);
    TCX_PASS
}

/// The egress classifier that records the packet's mark and priority (as
/// signed values) and the device's needed head- and tailroom (read from
/// the kernel, `headroom`/`tailroom`).
pub fn tc8(mark: u32, priority: u32, headroom: u16, tailroom: u16, g: &mut TcLinkGlobals) -> (r: i32)
    ensures
        r == TCX_PASS,
        *final(g) == (TcLinkGlobals {
            seen_tc8: true,
            mark: mark as i32,
            prio: priority as i32,
            headroom: headroom,
            tailroom: tailroom,
            ..*old(g)
        }),
{
    g.seen_tc8 = true;
    g.mark = mark as i32;
    g.prio = priority as i32;
    g.headroom = headroom;
    g.tailroom = tailroom;
    TCX_PASS
}

/// Retyping round trip: a host IPv4 packet that the first classifier
/// retypes (its store succeeding) is seen by the second as one to turn
/// back into a host packet.
pub proof fn lemma_retype_roundtrip(protocol: u32, p: Seq<u8>, g: TcLinkGlobals)
    requires
        eth_readable(protocol, p),
        g.set_type,
    ensures
        ({
            let (_, p1, g1, cs1) = spec_tc1(protocol, PACKET_HOST, p, g, 0);
            let (g2, cs2) = spec_tc7(protocol, PACKET_MULTICAST, p1, g1);
            &&& cs1.last() == TcLinkCall::ChangeType { pkt_type: PACKET_MULTICAST }
            &&& cs2 == seq![TcLinkCall::ChangeType { pkt_type: PACKET_HOST }]
            &&& g2.seen_mcast
            &&& g2.seen_host
        }),
{
}

} // verus!
