//! Classifiers of the tunnel tests that set and check the metadata of
//! lightweight tunnels: the tunnel key (endpoints, id, TTL), tunnel
//! options (ERSPAN, VXLAN group policy, Geneve), FOU/GUE encapsulation,
//! and IPsec state lookups.
//!
//! Handing the metadata to the kernel and reading it back are the
//! kernel's (`bpf_skb_{set,get}_tunnel_{key,opt}` and the others): each
//! program gives the calls it makes, with their arguments, and takes the
//! kernel's answers.  Addresses are "raw": what the field holds in memory
//! on the little-endian target.
use vstd::prelude::*;
use crate::bytes::{be16, bswap32, le32};

verus! {

pub const TC_ACT_OK: i32 = 0;
pub const TC_ACT_SHOT: i32 = 2;
pub const XDP_PASS: i32 = 2;

pub const BPF_F_TUNINFO_IPV6: u64 = 1;
pub const BPF_F_ZERO_CSUM_TX: u64 = 2;
pub const BPF_F_SEQ_NUMBER: u64 = 8;
pub const BPF_F_NO_TUNNEL_KEY: u64 = 16;
pub const BPF_F_TUNINFO_FLAGS: u64 = 16;
pub const BPF_F_CURRENT_NETNS: i32 = -1;

/// Tunnel flags as the key's raw field holds them.
pub const TUNNEL_CSUM: u16 = 0x0100;
pub const TUNNEL_KEY: u16 = 0x0400;

pub const IPPROTO_ICMP: u8 = 1;
pub const IPPROTO_UDP: u8 = 17;
pub const IPPROTO_ESP: u8 = 50;
pub const NEXTHDR_ICMP: u8 = 58;
pub const AF_INET: u16 = 2;
pub const ETH_HLEN: u32 = 14;
pub const PACKET_HOST: u32 = 0;
pub const VXLAN_UDP_PORT: u16 = 4789;
pub const FOU_BPF_ENCAP_FOU: i32 = 0;
pub const FOU_BPF_ENCAP_GUE: i32 = 1;

/// 172.16.1.100, raw.
pub const REMOTE_IP4: u32 = 0xac100164;
/// The only IPv4 address of veth1, 172.16.1.200, host order.
pub const ASSIGNED_ADDR_VETH1: u32 = 0xac1001c8;
/// `::11` last word, raw (network order).
pub const IP6_11_RAW: u32 = 0x11000000;
/// The VXLAN group policy the programs set and expect.
pub const VXLAN_GBP: u32 = 0x800FF;

/// UAPI `struct bpf_tunnel_key`; an IPv4 address is word 0 of its
/// address array.
#[derive(Clone, Copy, Debug)]
pub struct BpfTunnelKey {
    pub tunnel_id: u32,
    pub remote: [u32; 4],
    pub tunnel_tos: u8,
    pub tunnel_ttl: u8,
    pub tunnel_flags: u16,
    pub tunnel_label: u32,
    pub local: [u32; 4],
}

/// A tunnel option the programs hand over.
#[derive(Clone, Copy, Debug, PartialEq, Eq, Structural)]
pub enum TunnelOpt {
    /// ERSPAN version-2 metadata: the two bit-field bytes carry the
    /// direction and the hardware id.
    Erspan { version: i32, byte6: u8, byte7: u8 },
    /// VXLAN group policy.
    Vxlan { gbp: u32 },
    /// A Geneve option with class, type, flags byte and data (raw).
    Geneve { opt_class: u16, opt_type: u8, flags: u8, data: u32 },
}

/// What the IPsec state lookup of the XDP program asks for.
#[derive(Clone, Copy, Debug, PartialEq, Eq, Structural)]
pub struct XfrmStateOpts {
    pub netns_id: i32,
    pub daddr: u32,
    pub spi: u32,
    pub proto: u8,
    pub family: u16,
}

/// A kernel call of the tunnel programs.
#[derive(Clone, Copy, Debug)]
pub enum TunnelKeyCall {
    LookupLocalIp,
    SetKey { key: BpfTunnelKey, flags: u64 },
    GetKey { flags: u64 },
    SetOpt { opt: TunnelOpt },
    /// Reads an option of `size` bytes.
    GetOpt { size: u32 },
    SetFouEncap { sport: u16, dport: u16, encap_type: i32 },
    GetFouEncap,
    /// `bpf_csum_diff` of the old and the new destination (raw).
    CsumDiff { from: u32, to: u32 },
    Store { off: u32, value: u32 },
    L3CsumReplace { off: u32, diff: u64 },
    ChangeType { pkt_type: u32 },
    GetXfrmStateSkb,
    GetXfrmStateXdp { opts: XfrmStateOpts },
    ReleaseXfrmState,
}

pub open spec fn zero_key() -> BpfTunnelKey {
    BpfTunnelKey { tunnel_id: 0, remote: no_addr(), tunnel_tos: 0, tunnel_ttl: 0, tunnel_flags: 0, tunnel_label: 0, local: no_addr() }
}

pub open spec fn no_addr() -> [u32; 4] {
    [0u32, 0u32, 0u32, 0u32]
}

pub open spec fn addr4(a: u32) -> [u32; 4] {
    [a, 0, 0, 0]
}

pub open spec fn addr6_last(a: u32) -> [u32; 4] {
    [0, 0, 0, a]
}

/// The verdict of a step that fails on a negative answer.
pub open spec fn ok_unless_neg(ret: i64) -> i32 {
    if ret < 0 { TC_ACT_SHOT } else { TC_ACT_OK }
}

fn new_key() -> (k: BpfTunnelKey)
    ensures
        k == zero_key(),
{
    let k = BpfTunnelKey { tunnel_id: 0, remote: [0, 0, 0, 0], tunnel_tos: 0, tunnel_ttl: 0, tunnel_flags: 0, tunnel_label: 0, local: [0, 0, 0, 0] };
    assert(k.remote =~= no_addr());
    assert(k.local =~= no_addr());
    k
}

/// The key of the GRE, ERSPAN and Geneve senders: toward 172.16.1.100
/// with id 2 and TTL 64.
pub open spec fn gre_key() -> BpfTunnelKey {
    BpfTunnelKey { tunnel_id: 2, remote: addr4(REMOTE_IP4), tunnel_ttl: 64, ..zero_key() }
}

/// The IPv6 key of the senders toward `::11` with id `id`, label `label`.
pub open spec fn key6(id: u32, label: u32) -> BpfTunnelKey {
    BpfTunnelKey { tunnel_id: id, remote: addr6_last(IP6_11_RAW), tunnel_ttl: 64, tunnel_label: label, ..zero_key() }
}

/// A sender that sets one key: the key is handed over with `flags`; a
/// refused key drops the packet.
fn send_key(key: BpfTunnelKey, flags: u64, set_ret: i64, calls: &mut Vec<TunnelKeyCall>) -> (r: i32)
    ensures
        r == ok_unless_neg(set_ret),
        final(calls)@ == old(calls)@.push(TunnelKeyCall::SetKey { key, flags }),
{
    calls.push(TunnelKeyCall::SetKey { key, flags });
    if set_ret < 0 {
        return TC_ACT_SHOT;
    }
    TC_ACT_OK
}

/// A sender that sets a key and then an option; the option is only
/// handed over after the key was accepted.
pub open spec fn key_then_opt(key: BpfTunnelKey, flags: u64, opt: TunnelOpt, set_ret: i64, opt_ret: i64) -> (i32, Seq<TunnelKeyCall>) {
    let c1 = seq![TunnelKeyCall::SetKey { key, flags }];
    if set_ret < 0 {
        (TC_ACT_SHOT, c1)
    } else {
        (ok_unless_neg(opt_ret), c1.push(TunnelKeyCall::SetOpt { opt }))
    }
}

fn send_key_opt(key: BpfTunnelKey, flags: u64, opt: TunnelOpt, set_ret: i64, opt_ret: i64, calls: &mut Vec<TunnelKeyCall>) -> (r: i32)
    ensures
        r == key_then_opt(key, flags, opt, set_ret, opt_ret).0,
        final(calls)@ == old(calls)@ + key_then_opt(key, flags, opt, set_ret, opt_ret).1,
{
    let ghost c0 = calls@;
    calls.push(TunnelKeyCall::SetKey { key, flags });
    if set_ret < 0 {
        assert(calls@ =~= c0 + key_then_opt(key, flags, opt, set_ret, opt_ret).1);
        return TC_ACT_SHOT;
    }
    calls.push(TunnelKeyCall::SetOpt { opt });
    assert(calls@ =~= c0 + key_then_opt(key, flags, opt, set_ret, opt_ret).1);
    if opt_ret < 0 {
        return TC_ACT_SHOT;
    }
    TC_ACT_OK
}

/// A receiver that reads the key and then an option of `size` bytes.
pub open spec fn get_key_then_opt(flags: u64, size: u32, get_ret: i64, opt_ret: i64) -> (i32, Seq<TunnelKeyCall>) {
    let c1 = seq![TunnelKeyCall::GetKey { flags }];
    if get_ret < 0 {
        (TC_ACT_SHOT, c1)
    } else {
        (ok_unless_neg(opt_ret), c1.push(TunnelKeyCall::GetOpt { size }))
    }
}

fn recv_key_opt(flags: u64, size: u32, get_ret: i64, opt_ret: i64, calls: &mut Vec<TunnelKeyCall>) -> (r: i32)
    ensures
        r == get_key_then_opt(flags, size, get_ret, opt_ret).0,
        final(calls)@ == old(calls)@ + get_key_then_opt(flags, size, get_ret, opt_ret).1,
{
    let ghost c0 = calls@;
    calls.push(TunnelKeyCall::GetKey { flags });
    if get_ret < 0 {
        assert(calls@ =~= c0 + get_key_then_opt(flags, size, get_ret, opt_ret).1);
        return TC_ACT_SHOT;
    }
    calls.push(TunnelKeyCall::GetOpt { size });
    assert(calls@ =~= c0 + get_key_then_opt(flags, size, get_ret, opt_ret).1);
    if opt_ret < 0 {
        return TC_ACT_SHOT;
    }
    TC_ACT_OK
}

/// A receiver that only reads the key.
fn recv_key(flags: u64, get_ret: i64, calls: &mut Vec<TunnelKeyCall>) -> (r: i32)
    ensures
        r == ok_unless_neg(get_ret),
        final(calls)@ == old(calls)@.push(TunnelKeyCall::GetKey { flags }),
{
    calls.push(TunnelKeyCall::GetKey { flags });
    if get_ret < 0 {
        return TC_ACT_SHOT;
    }
    TC_ACT_OK
}

/// GRE sender: the GRE key, with a zero UDP checksum and sequence numbers.
pub fn gre_set_tunnel(set_ret: i64, calls: &mut Vec<TunnelKeyCall>) -> (r: i32)
    ensures
        r == ok_unless_neg(set_ret),
        final(calls)@ == old(calls)@.push(TunnelKeyCall::SetKey { key: gre_key(), flags: BPF_F_ZERO_CSUM_TX | BPF_F_SEQ_NUMBER }),
{
    let mut key = new_key();
    key.remote[0] = REMOTE_IP4;
    key.tunnel_id = 2;
    key.tunnel_tos = 0;
    key.tunnel_ttl = 64;
    assert(key == gre_key()) by {
        assert(key.remote =~= addr4(REMOTE_IP4));
    }
    send_key(key, BPF_F_ZERO_CSUM_TX | BPF_F_SEQ_NUMBER, set_ret, calls)
}

/// GRE sender without a GRE key field: only the remote and the TTL.
pub fn gre_set_tunnel_no_key(set_ret: i64, calls: &mut Vec<TunnelKeyCall>) -> (r: i32)
    ensures
        r == ok_unless_neg(set_ret),
        final(calls)@ == old(calls)@.push(TunnelKeyCall::SetKey {
            key: BpfTunnelKey { remote: addr4(REMOTE_IP4), tunnel_ttl: 64, ..zero_key() },
            flags: BPF_F_ZERO_CSUM_TX | BPF_F_SEQ_NUMBER | BPF_F_NO_TUNNEL_KEY,
        }),
{
    let mut key = new_key();
    key.remote[0] = REMOTE_IP4;
    key.tunnel_ttl = 64;
    assert(key.remote =~= addr4(REMOTE_IP4));
    send_key(key, BPF_F_ZERO_CSUM_TX | BPF_F_SEQ_NUMBER | BPF_F_NO_TUNNEL_KEY, set_ret, calls)
}

/// GRE receiver: the key must be readable.
pub fn gre_get_tunnel(get_ret: i64, calls: &mut Vec<TunnelKeyCall>) -> (r: i32)
    ensures
        r == ok_unless_neg(get_ret),
        final(calls)@ == old(calls)@.push(TunnelKeyCall::GetKey { flags: 0 }),
{
    recv_key(0, get_ret, calls)
}

/// IPv6 GRE-tap sender: toward `::11`, id 2, flow label 0xabcde.
pub fn ip6gretap_set_tunnel(set_ret: i64, calls: &mut Vec<TunnelKeyCall>) -> (r: i32)
    ensures
        r == ok_unless_neg(set_ret),
        final(calls)@ == old(calls)@.push(TunnelKeyCall::SetKey {
            key: key6(2, 0xabcde),
            flags: BPF_F_TUNINFO_IPV6 | BPF_F_ZERO_CSUM_TX | BPF_F_SEQ_NUMBER,
        }),
{
    let mut key = new_key();
    key.remote[3] = crate::bytes::htonl(0x11);
    key.tunnel_id = 2;
    key.tunnel_tos = 0;
    key.tunnel_ttl = 64;
    key.tunnel_label = 0xabcde;
    assert(key.remote =~= addr6_last(IP6_11_RAW));
    send_key(key, BPF_F_TUNINFO_IPV6 | BPF_F_ZERO_CSUM_TX | BPF_F_SEQ_NUMBER, set_ret, calls)
}

/// IPv6 GRE-tap receiver.
pub fn ip6gretap_get_tunnel(get_ret: i64, calls: &mut Vec<TunnelKeyCall>) -> (r: i32)
    ensures
        r == ok_unless_neg(get_ret),
        final(calls)@ == old(calls)@.push(TunnelKeyCall::GetKey { flags: BPF_F_TUNINFO_IPV6 }),
{
    recv_key(BPF_F_TUNINFO_IPV6, get_ret, calls)
}

/// The two bit-field bytes of ERSPAN version-2 metadata for a direction
/// and a 6-bit hardware id: the id's top two bits in the first, the
/// direction (bit 3) and the id's low four bits (bits 4-7) in the second.
pub open spec fn spec_erspan_md2(direction: u8, hwid: u8) -> (u8, u8) {
    ((hwid >> 4u8) & 3u8, ((direction << 3u8) | ((hwid & 0xfu8) << 4u8)) as u8)
}

/// The ERSPAN version-2 option for a direction and a hardware id.
pub fn set_erspan_md2(direction: u8, hwid: u8) -> (r: TunnelOpt)
    ensures
        r == (TunnelOpt::Erspan { version: 2, byte6: spec_erspan_md2(direction, hwid).0, byte7: spec_erspan_md2(direction, hwid).1 }),
{
    let hwid_lo = hwid & 0xf;
    let hwid_upper = (hwid >> 4u8) & 0x3;
    TunnelOpt::Erspan { version: 2, byte6: hwid_upper, byte7: (direction << 3u8) | (hwid_lo << 4u8) }
}

/// ERSPAN sender: the GRE key (zero UDP checksum), then metadata with
/// direction 1 and hardware id 7.
pub fn erspan_set_tunnel(set_ret: i64, opt_ret: i64, calls: &mut Vec<TunnelKeyCall>) -> (r: i32)
    ensures
        ({
            let opt = TunnelOpt::Erspan { version: 2, byte6: spec_erspan_md2(1, 7).0, byte7: spec_erspan_md2(1, 7).1 };
            let (v, cs) = key_then_opt(gre_key(), BPF_F_ZERO_CSUM_TX, opt, set_ret, opt_ret);
            r == v && final(calls)@ == old(calls)@ + cs
        }),
{
    let mut key = new_key();
    key.remote[0] = REMOTE_IP4;
    key.tunnel_id = 2;
    key.tunnel_ttl = 64;
    assert(key.remote =~= addr4(REMOTE_IP4));
    let opt = set_erspan_md2(1, 7);
    send_key_opt(key, BPF_F_ZERO_CSUM_TX, opt, set_ret, opt_ret, calls)
}

/// ERSPAN receiver: key, then the 12-byte metadata.
pub fn erspan_get_tunnel(get_ret: i64, opt_ret: i64, calls: &mut Vec<TunnelKeyCall>) -> (r: i32)
    ensures
        r == get_key_then_opt(0, 12, get_ret, opt_ret).0,
        final(calls)@ == old(calls)@ + get_key_then_opt(0, 12, get_ret, opt_ret).1,
{
    recv_key_opt(0, 12, get_ret, opt_ret, calls)
}

/// ERSPAN over IPv6 sender: toward `::11`, id 2, then metadata with
/// direction 0 and hardware id 17.
pub fn ip4ip6erspan_set_tunnel(set_ret: i64, opt_ret: i64, calls: &mut Vec<TunnelKeyCall>) -> (r: i32)
    ensures
        ({
            let opt = TunnelOpt::Erspan { version: 2, byte6: spec_erspan_md2(0, 17).0, byte7: spec_erspan_md2(0, 17).1 };
            let (v, cs) = key_then_opt(key6(2, 0), BPF_F_TUNINFO_IPV6, opt, set_ret, opt_ret);
            r == v && final(calls)@ == old(calls)@ + cs
        }),
{
    let mut key = new_key();
    key.remote[3] = crate::bytes::htonl(0x11);
    key.tunnel_id = 2;
    key.tunnel_ttl = 64;
    assert(key.remote =~= addr6_last(IP6_11_RAW));
    let opt = set_erspan_md2(0, 17);
    send_key_opt(key, BPF_F_TUNINFO_IPV6, opt, set_ret, opt_ret, calls)
}

/// ERSPAN over IPv6 receiver.
pub fn ip4ip6erspan_get_tunnel(get_ret: i64, opt_ret: i64, calls: &mut Vec<TunnelKeyCall>) -> (r: i32)
    ensures
        r == get_key_then_opt(BPF_F_TUNINFO_IPV6, 12, get_ret, opt_ret).0,
        final(calls)@ == old(calls)@ + get_key_then_opt(BPF_F_TUNINFO_IPV6, 12, get_ret, opt_ret).1,
{
    recv_key_opt(BPF_F_TUNINFO_IPV6, 12, get_ret, opt_ret, calls)
}

/// A VXLAN sender with the local address of the map (`local_ip`: none
/// when missing, which drops the packet) as `remote` or as `local`.
pub open spec fn spec_vxlan_set(local_ip: Option<u32>, local_is_remote: bool, set_ret: i64, opt_ret: i64) -> (i32, Seq<TunnelKeyCall>) {
    match local_ip {
        None => (TC_ACT_SHOT, seq![TunnelKeyCall::LookupLocalIp]),
        Some(ip) => {
            let key = if local_is_remote {
                BpfTunnelKey { tunnel_id: 2, remote: addr4(ip), local: addr4(REMOTE_IP4), tunnel_ttl: 64, ..zero_key() }
            } else {
                BpfTunnelKey { tunnel_id: 2, remote: addr4(REMOTE_IP4), local: addr4(ip), tunnel_ttl: 64, ..zero_key() }
            };
            let (v, cs) = key_then_opt(key, BPF_F_ZERO_CSUM_TX, TunnelOpt::Vxlan { gbp: VXLAN_GBP }, set_ret, opt_ret);
            (v, seq![TunnelKeyCall::LookupLocalIp] + cs)
        },
    }
}

fn vxlan_set(local_ip: Option<u32>, local_is_remote: bool, set_ret: i64, opt_ret: i64, calls: &mut Vec<TunnelKeyCall>) -> (r: i32)
    ensures
        r == spec_vxlan_set(local_ip, local_is_remote, set_ret, opt_ret).0,
        final(calls)@ == old(calls)@ + spec_vxlan_set(local_ip, local_is_remote, set_ret, opt_ret).1,
{
    let ghost c0 = calls@;
    calls.push(TunnelKeyCall::LookupLocalIp);
    let ip = match local_ip {
        None => {
            assert(calls@ =~= c0 + spec_vxlan_set(local_ip, local_is_remote, set_ret, opt_ret).1);
            return TC_ACT_SHOT;
        },
        Some(ip) => ip,
    };
    let mut key = new_key();
    if local_is_remote {
        key.local[0] = REMOTE_IP4;
        key.remote[0] = ip;
    } else {
        key.local[0] = ip;
        key.remote[0] = REMOTE_IP4;
    }
    key.tunnel_id = 2;
    key.tunnel_ttl = 64;
    assert(key.local =~= addr4(key.local[0]));
    assert(key.remote =~= addr4(key.remote[0]));
    let ghost c1 = calls@;
    let r = send_key_opt(key, BPF_F_ZERO_CSUM_TX, TunnelOpt::Vxlan { gbp: VXLAN_GBP }, set_ret, opt_ret, calls);
    assert(calls@ =~= c0 + spec_vxlan_set(local_ip, local_is_remote, set_ret, opt_ret).1);
    r
}

/// VXLAN sender toward the map's local address (see [`spec_vxlan_set`]).
pub fn vxlan_set_tunnel_dst(local_ip: Option<u32>, set_ret: i64, opt_ret: i64, calls: &mut Vec<TunnelKeyCall>) -> (r: i32)
    ensures
        r == spec_vxlan_set(local_ip, true, set_ret, opt_ret).0,
        final(calls)@ == old(calls)@ + spec_vxlan_set(local_ip, true, set_ret, opt_ret).1,
{
    vxlan_set(local_ip, true, set_ret, opt_ret, calls)
}

/// VXLAN sender from the map's local address.
pub fn vxlan_set_tunnel_src(local_ip: Option<u32>, set_ret: i64, opt_ret: i64, calls: &mut Vec<TunnelKeyCall>) -> (r: i32)
    ensures
        r == spec_vxlan_set(local_ip, false, set_ret, opt_ret).0,
        final(calls)@ == old(calls)@ + spec_vxlan_set(local_ip, false, set_ret, opt_ret).1,
{
    vxlan_set(local_ip, false, set_ret, opt_ret, calls)
}

/// VXLAN receiver: the key (with its flags) and the group policy are read
/// (`key` and `gbp` are what the kernel wrote); the packet must have come
/// to veth1's address with the expected policy, a key and no checksum.
pub open spec fn spec_vxlan_get_tunnel_src(get_ret: i64, key: BpfTunnelKey, opt_ret: i64, gbp: u32) -> (i32, Seq<TunnelKeyCall>) {
    let (v, cs) = get_key_then_opt(BPF_F_TUNINFO_FLAGS, 4, get_ret, opt_ret);
    if v == TC_ACT_SHOT {
        (v, cs)
    } else if key.local[0] != ASSIGNED_ADDR_VETH1 || gbp != VXLAN_GBP || key.tunnel_flags & TUNNEL_KEY == 0
        || key.tunnel_flags & TUNNEL_CSUM != 0 {
        (TC_ACT_SHOT, cs)
    } else {
        (TC_ACT_OK, cs)
    }
}

/// VXLAN receiver (see [`spec_vxlan_get_tunnel_src`]).
pub fn vxlan_get_tunnel_src(get_ret: i64, key: &BpfTunnelKey, opt_ret: i64, gbp: u32, calls: &mut Vec<TunnelKeyCall>) -> (r: i32)
    ensures
        r == spec_vxlan_get_tunnel_src(get_ret, *key, opt_ret, gbp).0,
        final(calls)@ == old(calls)@ + spec_vxlan_get_tunnel_src(get_ret, *key, opt_ret, gbp).1,
{
    let v = recv_key_opt(BPF_F_TUNINFO_FLAGS, 4, get_ret, opt_ret, calls);
    if v == TC_ACT_SHOT {
        return v;
    }
    if key.local[0] != ASSIGNED_ADDR_VETH1 || gbp != VXLAN_GBP || key.tunnel_flags & TUNNEL_KEY == 0
        || key.tunnel_flags & TUNNEL_CSUM != 0 {
        return TC_ACT_SHOT;
    }
    TC_ACT_OK
}

/// The outer destination fix-up on veth: a VXLAN packet (IPv4, UDP to
/// port 4789) not addressed to veth1 gets veth1's address as destination
/// (checksum difference `csum_diff` answered by the kernel, then the
/// store and the checksum update, answered by `store_ret`/`replace_ret`)
/// and becomes a host packet.  A frame too short for the headers it needs
/// is dropped; other frames pass untouched.
pub open spec fn spec_veth_set_outer_dst(p: Seq<u8>, csum_diff: i64, store_ret: i64, replace_ret: i64) -> (i32, Seq<TunnelKeyCall>) {
    let assigned = bswap32(ASSIGNED_ADDR_VETH1);
    if p.len() < 14 {
        (TC_ACT_SHOT, seq![])
    } else if be16(p, 12) != 0x0800 {
        (TC_ACT_OK, seq![])
    } else if p.len() < 34 {
        (TC_ACT_SHOT, seq![])
    } else if p[23] != IPPROTO_UDP {
        (TC_ACT_OK, seq![])
    } else if p.len() < 42 {
        (TC_ACT_SHOT, seq![])
    } else if be16(p, 36) != VXLAN_UDP_PORT {
        (TC_ACT_OK, seq![])
    } else if le32(p, 30) == assigned {
        (TC_ACT_OK, seq![])
    } else {
        let c1 = seq![
            TunnelKeyCall::CsumDiff { from: le32(p, 30), to: assigned },
            TunnelKeyCall::Store { off: 30u32, value: assigned },
        ];
        if store_ret < 0 {
            (TC_ACT_SHOT, c1)
        } else {
            let c2 = c1.push(TunnelKeyCall::L3CsumReplace { off: 24u32, diff: csum_diff as u64 });
            if replace_ret < 0 {
                (TC_ACT_SHOT, c2)
            } else {
                (TC_ACT_OK, c2.push(TunnelKeyCall::ChangeType { pkt_type: PACKET_HOST }))
            }
        }
    }
}

/// The outer destination fix-up (see [`spec_veth_set_outer_dst`]).
pub fn veth_set_outer_dst(p: &[u8], csum_diff: i64, store_ret: i64, replace_ret: i64, calls: &mut Vec<TunnelKeyCall>) -> (r: i32)
    ensures
        r == spec_veth_set_outer_dst(p@, csum_diff, store_ret, replace_ret).0,
        final(calls)@ == old(calls)@ + spec_veth_set_outer_dst(p@, csum_diff, store_ret, replace_ret).1,
{
    let ghost c0 = calls@;
    let assigned_ip = crate::bytes::htonl(ASSIGNED_ADDR_VETH1);
    if p.len() < 14 {
        assert(calls@ =~= c0 + seq![]);
        return TC_ACT_SHOT;
    }
    if crate::bytes::get_unaligned_be16(p, 12) != 0x0800 {
        assert(calls@ =~= c0 + seq![]);
        return TC_ACT_OK;
    }
    if p.len() < 34 {
        assert(calls@ =~= c0 + seq![]);
        return TC_ACT_SHOT;
    }
    if p[23] != IPPROTO_UDP {
        assert(calls@ =~= c0 + seq![]);
        return TC_ACT_OK;
    }
    if p.len() < 42 {
        assert(calls@ =~= c0 + seq![]);
        return TC_ACT_SHOT;
    }
    if crate::bytes::get_unaligned_be16(p, 36) != VXLAN_UDP_PORT {
        assert(calls@ =~= c0 + seq![]);
        return TC_ACT_OK;
    }
    let daddr = crate::bytes::get_le32(p, 30);
    if daddr != assigned_ip {
        calls.push(TunnelKeyCall::CsumDiff { from: daddr, to: assigned_ip });
        calls.push(TunnelKeyCall::Store { off: ETH_HLEN + 16, value: assigned_ip });
        if store_ret < 0 {
            assert(calls@ =~= c0 + spec_veth_set_outer_dst(p@, csum_diff, store_ret, replace_ret).1);
            return TC_ACT_SHOT;
        }
        calls.push(TunnelKeyCall::L3CsumReplace { off: 24u32, diff: csum_diff as u64 });
        if replace_ret < 0 {
            assert(calls@ =~= c0 + spec_veth_set_outer_dst(p@, csum_diff, store_ret, replace_ret).1);
            return TC_ACT_SHOT;
        }
        calls.push(TunnelKeyCall::ChangeType { pkt_type: PACKET_HOST });
    }
    assert(calls@ =~= c0 + spec_veth_set_outer_dst(p@, csum_diff, store_ret, replace_ret).1);
    TC_ACT_OK
}

/// An IPv6 VXLAN sender (id 22, TTL 64) between `::11` and the map's
/// local address (taken to network order) as remote or local.
pub open spec fn spec_ip6vxlan_set(local_ip: Option<u32>, local_is_remote: bool, set_ret: i64) -> (i32, Seq<TunnelKeyCall>) {
    match local_ip {
        None => (TC_ACT_SHOT, seq![TunnelKeyCall::LookupLocalIp]),
        Some(ip) => {
            let key = if local_is_remote {
                BpfTunnelKey { tunnel_id: 22, remote: addr6_last(bswap32(ip)), local: addr6_last(IP6_11_RAW), tunnel_ttl: 64, ..zero_key() }
            } else {
                BpfTunnelKey { tunnel_id: 22, remote: addr6_last(IP6_11_RAW), local: addr6_last(bswap32(ip)), tunnel_ttl: 64, ..zero_key() }
            };
            (ok_unless_neg(set_ret), seq![TunnelKeyCall::LookupLocalIp, TunnelKeyCall::SetKey { key, flags: BPF_F_TUNINFO_IPV6 }])
        },
    }
}

fn ip6vxlan_set(local_ip: Option<u32>, local_is_remote: bool, set_ret: i64, calls: &mut Vec<TunnelKeyCall>) -> (r: i32)
    ensures
        r == spec_ip6vxlan_set(local_ip, local_is_remote, set_ret).0,
        final(calls)@ == old(calls)@ + spec_ip6vxlan_set(local_ip, local_is_remote, set_ret).1,
{
    let ghost c0 = calls@;
    calls.push(TunnelKeyCall::LookupLocalIp);
    let ip = match local_ip {
        None => {
            assert(calls@ =~= c0 + spec_ip6vxlan_set(local_ip, local_is_remote, set_ret).1);
            return TC_ACT_SHOT;
        },
        Some(ip) => ip,
    };
    let mut key = new_key();
    let ip_raw = crate::bytes::htonl(ip);
    let eleven = crate::bytes::htonl(0x11);
    if local_is_remote {
        key.local[3] = eleven;
        key.remote[3] = ip_raw;
    } else {
        key.local[3] = ip_raw;
        key.remote[3] = eleven;
    }
    key.tunnel_id = 22;
    key.tunnel_ttl = 64;
    assert(key.local =~= addr6_last(key.local[3]));
    assert(key.remote =~= addr6_last(key.remote[3]));
    let r = send_key(key, BPF_F_TUNINFO_IPV6, set_ret, calls);
    assert(calls@ =~= c0 + spec_ip6vxlan_set(local_ip, local_is_remote, set_ret).1);
    r
}

/// IPv6 VXLAN sender toward the map's local address.
pub fn ip6vxlan_set_tunnel_dst(local_ip: Option<u32>, set_ret: i64, calls: &mut Vec<TunnelKeyCall>) -> (r: i32)
    ensures
        r == spec_ip6vxlan_set(local_ip, true, set_ret).0,
        final(calls)@ == old(calls)@ + spec_ip6vxlan_set(local_ip, true, set_ret).1,
{
    ip6vxlan_set(local_ip, true, set_ret, calls)
}

/// IPv6 VXLAN sender from the map's local address.
pub fn ip6vxlan_set_tunnel_src(local_ip: Option<u32>, set_ret: i64, calls: &mut Vec<TunnelKeyCall>) -> (r: i32)
    ensures
        r == spec_ip6vxlan_set(local_ip, false, set_ret).0,
        final(calls)@ == old(calls)@ + spec_ip6vxlan_set(local_ip, false, set_ret).1,
{
    ip6vxlan_set(local_ip, false, set_ret, calls)
}

/// IPv6 VXLAN receiver: the key read (`key`) must name the map's local
/// address as its local end and carry both the key and the checksum flag.
pub open spec fn spec_ip6vxlan_get_tunnel_src(local_ip: Option<u32>, get_ret: i64, key: BpfTunnelKey) -> (i32, Seq<TunnelKeyCall>) {
    match local_ip {
        None => (TC_ACT_SHOT, seq![TunnelKeyCall::LookupLocalIp]),
        Some(ip) => {
            let cs = seq![TunnelKeyCall::LookupLocalIp, TunnelKeyCall::GetKey { flags: BPF_F_TUNINFO_IPV6 | BPF_F_TUNINFO_FLAGS }];
            if get_ret < 0 || bswap32(key.local[3]) != ip || key.tunnel_flags & TUNNEL_KEY == 0 || key.tunnel_flags & TUNNEL_CSUM == 0 {
                (TC_ACT_SHOT, cs)
            } else {
                (TC_ACT_OK, cs)
            }
        },
    }
}

/// IPv6 VXLAN receiver (see [`spec_ip6vxlan_get_tunnel_src`]).
pub fn ip6vxlan_get_tunnel_src(local_ip: Option<u32>, get_ret: i64, key: &BpfTunnelKey, calls: &mut Vec<TunnelKeyCall>) -> (r: i32)
    ensures
        r == spec_ip6vxlan_get_tunnel_src(local_ip, get_ret, *key).0,
        final(calls)@ == old(calls)@ + spec_ip6vxlan_get_tunnel_src(local_ip, get_ret, *key).1,
{
    let ghost c0 = calls@;
    calls.push(TunnelKeyCall::LookupLocalIp);
    let ip = match local_ip {
        None => {
            assert(calls@ =~= c0 + spec_ip6vxlan_get_tunnel_src(local_ip, get_ret, *key).1);
            return TC_ACT_SHOT;
        },
        Some(ip) => ip,
    };
    calls.push(TunnelKeyCall::GetKey { flags: BPF_F_TUNINFO_IPV6 | BPF_F_TUNINFO_FLAGS });
    assert(calls@ =~= c0 + spec_ip6vxlan_get_tunnel_src(local_ip, get_ret, *key).1);
    if get_ret < 0 {
        return TC_ACT_SHOT;
    }
    if crate::bytes::htonl(key.local[3]) != ip || key.tunnel_flags & TUNNEL_KEY == 0 || key.tunnel_flags & TUNNEL_CSUM == 0 {
        return TC_ACT_SHOT;
    }
    TC_ACT_OK
}

/// The Geneve option of the senders: class 0x102 (raw 0x0201), type 8,
/// length 2, and `data` (raw).
pub open spec fn geneve_opt(data: u32) -> TunnelOpt {
    TunnelOpt::Geneve { opt_class: 0x0201, opt_type: 8, flags: 2, data }
}

/// Geneve sender: the GRE key (zero UDP checksum), then an option with
/// data 0xdeadbeef.
pub fn geneve_set_tunnel(set_ret: i64, opt_ret: i64, calls: &mut Vec<TunnelKeyCall>) -> (r: i32)
    ensures
        r == key_then_opt(gre_key(), BPF_F_ZERO_CSUM_TX, geneve_opt(bswap32(0xdeadbeef)), set_ret, opt_ret).0,
        final(calls)@ == old(calls)@ + key_then_opt(gre_key(), BPF_F_ZERO_CSUM_TX, geneve_opt(bswap32(0xdeadbeef)), set_ret, opt_ret).1,
{
    let mut key = new_key();
    key.remote[0] = REMOTE_IP4;
    key.tunnel_id = 2;
    key.tunnel_ttl = 64;
    assert(key.remote =~= addr4(REMOTE_IP4));
    let class = crate::bytes::htons(0x102);
    assert(class == 0x0201);
    let opt = TunnelOpt::Geneve { opt_class: class, opt_type: 0x08, flags: 2, data: crate::bytes::htonl(0xdeadbeef) };
    send_key_opt(key, BPF_F_ZERO_CSUM_TX, opt, set_ret, opt_ret, calls)
}

/// Geneve receiver: the key must be readable; a missing option is fine.
pub fn geneve_get_tunnel(get_ret: i64, calls: &mut Vec<TunnelKeyCall>) -> (r: i32)
    ensures
        r == ok_unless_neg(get_ret),
        final(calls)@ == old(calls)@ + if get_ret < 0 {
            seq![TunnelKeyCall::GetKey { flags: 0 }]
        } else {
            seq![TunnelKeyCall::GetKey { flags: 0 }, TunnelKeyCall::GetOpt { size: 4 }]
        },
{
    let v = recv_key_opt(0, 4, get_ret, 0, calls);
    v
}

/// IPv6 Geneve sender: toward `::11`, id 22, then an option with data
/// 0xfeedbeef.
pub fn ip6geneve_set_tunnel(set_ret: i64, opt_ret: i64, calls: &mut Vec<TunnelKeyCall>) -> (r: i32)
    ensures
        r == key_then_opt(key6(22, 0), BPF_F_TUNINFO_IPV6, geneve_opt(bswap32(0xfeedbeef)), set_ret, opt_ret).0,
        final(calls)@ == old(calls)@ + key_then_opt(key6(22, 0), BPF_F_TUNINFO_IPV6, geneve_opt(bswap32(0xfeedbeef)), set_ret, opt_ret).1,
{
    let mut key = new_key();
    key.remote[3] = crate::bytes::htonl(0x11);
    key.tunnel_id = 22;
    key.tunnel_ttl = 64;
    assert(key.remote =~= addr6_last(IP6_11_RAW));
    let class = crate::bytes::htons(0x102);
    assert(class == 0x0201);
    let opt = TunnelOpt::Geneve { opt_class: class, opt_type: 0x08, flags: 2, data: crate::bytes::htonl(0xfeedbeef) };
    send_key_opt(key, BPF_F_TUNINFO_IPV6, opt, set_ret, opt_ret, calls)
}

/// IPv6 Geneve receiver.
pub fn ip6geneve_get_tunnel(get_ret: i64, calls: &mut Vec<TunnelKeyCall>) -> (r: i32)
    ensures
        r == ok_unless_neg(get_ret),
        final(calls)@ == old(calls)@ + if get_ret < 0 {
            seq![TunnelKeyCall::GetKey { flags: BPF_F_TUNINFO_IPV6 }]
        } else {
            seq![TunnelKeyCall::GetKey { flags: BPF_F_TUNINFO_IPV6 }, TunnelKeyCall::GetOpt { size: 4 }]
        },
{
    recv_key_opt(BPF_F_TUNINFO_IPV6, 4, get_ret, 0, calls)
}

/// The key of the IP-in-IP senders for an IPv4 packet `p`: TTL 64, and
/// toward 172.16.1.100 for ICMP.
pub open spec fn ipip_key(p: Seq<u8>) -> BpfTunnelKey {
    BpfTunnelKey { remote: if p[9] == IPPROTO_ICMP { addr4(REMOTE_IP4) } else { no_addr() }, tunnel_ttl: 64, ..zero_key() }
}

fn make_ipip_key(p: &[u8]) -> (k: BpfTunnelKey)
    requires
        p@.len() >= 20,
    ensures
        k == ipip_key(p@),
{
    let mut key = new_key();
    key.tunnel_ttl = 64;
    if p[9] == IPPROTO_ICMP {
        key.remote[0] = REMOTE_IP4;
        assert(key.remote =~= addr4(REMOTE_IP4));
    }
    key
}

/// IP-in-IP sender on an IPv4 packet (no Ethernet header): too short a
/// packet is dropped; else [`ipip_key`].
pub fn ipip_set_tunnel(p: &[u8], set_ret: i64, calls: &mut Vec<TunnelKeyCall>) -> (r: i32)
    ensures
        p@.len() < 20 ==> r == TC_ACT_SHOT && final(calls)@ == old(calls)@,
        p@.len() >= 20 ==> r == ok_unless_neg(set_ret)
            && final(calls)@ == old(calls)@.push(TunnelKeyCall::SetKey { key: ipip_key(p@), flags: 0 }),
{
    if p.len() < 20 {
        return TC_ACT_SHOT;
    }
    let key = make_ipip_key(p);
    send_key(key, 0, set_ret, calls)
}

/// IP-in-IP receiver.
pub fn ipip_get_tunnel(get_ret: i64, calls: &mut Vec<TunnelKeyCall>) -> (r: i32)
    ensures
        r == ok_unless_neg(get_ret),
        final(calls)@ == old(calls)@.push(TunnelKeyCall::GetKey { flags: 0 }),
{
    recv_key(0, get_ret, calls)
}

/// An IP-in-IP sender with FOU/GUE encapsulation to port 5555 (raw
/// 0xb315) of type `encap_type`.
pub open spec fn spec_ipip_encap_set(p: Seq<u8>, encap_type: i32, set_ret: i64, encap_ret: i64) -> (i32, Seq<TunnelKeyCall>) {
    if p.len() < 20 {
        (TC_ACT_SHOT, seq![])
    } else {
        let c1 = seq![TunnelKeyCall::SetKey { key: ipip_key(p), flags: 0 }];
        if set_ret < 0 {
            (TC_ACT_SHOT, c1)
        } else {
            (ok_unless_neg(encap_ret), c1.push(TunnelKeyCall::SetFouEncap { sport: 0, dport: 0xb315, encap_type }))
        }
    }
}

fn ipip_encap_set(p: &[u8], encap_type: i32, set_ret: i64, encap_ret: i64, calls: &mut Vec<TunnelKeyCall>) -> (r: i32)
    ensures
        r == spec_ipip_encap_set(p@, encap_type, set_ret, encap_ret).0,
        final(calls)@ == old(calls)@ + spec_ipip_encap_set(p@, encap_type, set_ret, encap_ret).1,
{
    let ghost c0 = calls@;
    if p.len() < 20 {
        assert(calls@ =~= c0 + spec_ipip_encap_set(p@, encap_type, set_ret, encap_ret).1);
        return TC_ACT_SHOT;
    }
    let key = make_ipip_key(p);
    calls.push(TunnelKeyCall::SetKey { key, flags: 0 });
    if set_ret < 0 {
        assert(calls@ =~= c0 + spec_ipip_encap_set(p@, encap_type, set_ret, encap_ret).1);
        return TC_ACT_SHOT;
    }
    let dport = crate::bytes::htons(5555);
    assert(dport == 0xb315);
    calls.push(TunnelKeyCall::SetFouEncap { sport: 0, dport, encap_type });
    assert(calls@ =~= c0 + spec_ipip_encap_set(p@, encap_type, set_ret, encap_ret).1);
    if encap_ret < 0 {
        return TC_ACT_SHOT;
    }
    TC_ACT_OK
}

/// IP-in-IP sender with GUE encapsulation.
pub fn ipip_gue_set_tunnel(p: &[u8], set_ret: i64, encap_ret: i64, calls: &mut Vec<TunnelKeyCall>) -> (r: i32)
    ensures
        r == spec_ipip_encap_set(p@, FOU_BPF_ENCAP_GUE, set_ret, encap_ret).0,
        final(calls)@ == old(calls)@ + spec_ipip_encap_set(p@, FOU_BPF_ENCAP_GUE, set_ret, encap_ret).1,
{
    ipip_encap_set(p, FOU_BPF_ENCAP_GUE, set_ret, encap_ret, calls)
}

/// IP-in-IP sender with FOU encapsulation.
pub fn ipip_fou_set_tunnel(p: &[u8], set_ret: i64, encap_ret: i64, calls: &mut Vec<TunnelKeyCall>) -> (r: i32)
    ensures
        r == spec_ipip_encap_set(p@, FOU_BPF_ENCAP_FOU, set_ret, encap_ret).0,
        final(calls)@ == old(calls)@ + spec_ipip_encap_set(p@, FOU_BPF_ENCAP_FOU, set_ret, encap_ret).1,
{
    ipip_encap_set(p, FOU_BPF_ENCAP_FOU, set_ret, encap_ret, calls)
}

/// FOU/GUE receiver: key and encapsulation readable, and the
/// encapsulation's destination port (raw `dport`, as the kernel wrote it)
/// must be 5555.
pub open spec fn spec_ipip_encap_get_tunnel(get_ret: i64, encap_ret: i64, dport: u16) -> (i32, Seq<TunnelKeyCall>) {
    let c1 = seq![TunnelKeyCall::GetKey { flags: 0 }];
    if get_ret < 0 {
        (TC_ACT_SHOT, c1)
    } else if encap_ret < 0 {
        (TC_ACT_SHOT, c1.push(TunnelKeyCall::GetFouEncap))
    } else if crate::bytes::bswap16(dport) != 5555 {
        (TC_ACT_SHOT, c1.push(TunnelKeyCall::GetFouEncap))
    } else {
        (TC_ACT_OK, c1.push(TunnelKeyCall::GetFouEncap))
    }
}

/// FOU/GUE receiver (see [`spec_ipip_encap_get_tunnel`]).
pub fn ipip_encap_get_tunnel(get_ret: i64, encap_ret: i64, dport: u16, calls: &mut Vec<TunnelKeyCall>) -> (r: i32)
    ensures
        r == spec_ipip_encap_get_tunnel(get_ret, encap_ret, dport).0,
        final(calls)@ == old(calls)@ + spec_ipip_encap_get_tunnel(get_ret, encap_ret, dport).1,
{
    let ghost c0 = calls@;
    calls.push(TunnelKeyCall::GetKey { flags: 0 });
    if get_ret < 0 {
        assert(calls@ =~= c0 + spec_ipip_encap_get_tunnel(get_ret, encap_ret, dport).1);
        return TC_ACT_SHOT;
    }
    calls.push(TunnelKeyCall::GetFouEncap);
    assert(calls@ =~= c0 + spec_ipip_encap_get_tunnel(get_ret, encap_ret, dport).1);
    if encap_ret < 0 {
        return TC_ACT_SHOT;
    }
    if crate::bytes::ntohs(dport) != 5555 {
        return TC_ACT_SHOT;
    }
    TC_ACT_OK
}

/// The key of the IPv6 senders of an inner packet: TTL 64, and toward
/// `::11` where `icmp` holds.
pub open spec fn key6_if(is_icmp: bool) -> BpfTunnelKey {
    BpfTunnelKey { remote: if is_icmp { addr6_last(IP6_11_RAW) } else { no_addr() }, tunnel_ttl: 64, ..zero_key() }
}

fn make_key6_if(is_icmp: bool) -> (k: BpfTunnelKey)
    ensures
        k == key6_if(is_icmp),
{
    let mut key = new_key();
    key.tunnel_ttl = 64;
    if is_icmp {
        key.remote[3] = crate::bytes::htonl(0x11);
        assert(key.remote =~= addr6_last(IP6_11_RAW));
    }
    key
}

/// IPv4-in-IPv6 sender on an IPv4 packet: toward `::11` for ICMP.
pub fn ipip6_set_tunnel(p: &[u8], set_ret: i64, calls: &mut Vec<TunnelKeyCall>) -> (r: i32)
    ensures
        p@.len() < 20 ==> r == TC_ACT_SHOT && final(calls)@ == old(calls)@,
        p@.len() >= 20 ==> r == ok_unless_neg(set_ret)
            && final(calls)@ == old(calls)@.push(TunnelKeyCall::SetKey { key: key6_if(p@[9] == IPPROTO_ICMP), flags: BPF_F_TUNINFO_IPV6 }),
{
    if p.len() < 20 {
        return TC_ACT_SHOT;
    }
    let key = make_key6_if(p[9] == IPPROTO_ICMP);
    send_key(key, BPF_F_TUNINFO_IPV6, set_ret, calls)
}

/// IPv4-in-IPv6 receiver.
pub fn ipip6_get_tunnel(get_ret: i64, calls: &mut Vec<TunnelKeyCall>) -> (r: i32)
    ensures
        r == ok_unless_neg(get_ret),
        final(calls)@ == old(calls)@.push(TunnelKeyCall::GetKey { flags: BPF_F_TUNINFO_IPV6 }),
{
    recv_key(BPF_F_TUNINFO_IPV6, get_ret, calls)
}

/// IPv6-in-IPv6 sender on an IPv6 packet: toward `::11` for ICMPv6.
pub fn ip6ip6_set_tunnel(p: &[u8], set_ret: i64, calls: &mut Vec<TunnelKeyCall>) -> (r: i32)
    ensures
        p@.len() < 40 ==> r == TC_ACT_SHOT && final(calls)@ == old(calls)@,
        p@.len() >= 40 ==> r == ok_unless_neg(set_ret)
            && final(calls)@ == old(calls)@.push(TunnelKeyCall::SetKey { key: key6_if(p@[6] == NEXTHDR_ICMP), flags: BPF_F_TUNINFO_IPV6 }),
{
    if p.len() < 40 {
        return TC_ACT_SHOT;
    }
    let key = make_key6_if(p[6] == NEXTHDR_ICMP);
    send_key(key, BPF_F_TUNINFO_IPV6, set_ret, calls)
}

/// IPv6-in-IPv6 receiver.
pub fn ip6ip6_get_tunnel(get_ret: i64, calls: &mut Vec<TunnelKeyCall>) -> (r: i32)
    ensures
        r == ok_unless_neg(get_ret),
        final(calls)@ == old(calls)@.push(TunnelKeyCall::GetKey { flags: BPF_F_TUNINFO_IPV6 }),
{
    recv_key(BPF_F_TUNINFO_IPV6, get_ret, calls)
}

/// What the IPsec programs record.
#[derive(Clone, Copy)]
pub struct XfrmGlobals {
    pub xfrm_reqid: i32,
    pub xfrm_spi: i32,
    pub xfrm_remote_ip: i32,
    pub xfrm_replay_window: i32,
}

/// The IPsec state the kernel reports for a packet (SPI and remote
/// address raw).
#[derive(Clone, Copy)]
pub struct XfrmState {
    pub reqid: u32,
    pub spi: u32,
    pub remote_ipv4: u32,
}

/// Records the packet's IPsec state (`ret` the kernel's answer, `x` what it
/// wrote) in host order; passes every packet.
pub fn xfrm_get_state(ret: i64, x: &XfrmState, g: &mut XfrmGlobals, calls: &mut Vec<TunnelKeyCall>) -> (r: i32)
    ensures
        r == TC_ACT_OK,
        final(calls)@ == old(calls)@.push(TunnelKeyCall::GetXfrmStateSkb),
        *final(g) == if ret < 0 { *old(g) } else {
            XfrmGlobals {
                xfrm_reqid: x.reqid as i32,
                xfrm_spi: bswap32(x.spi) as i32,
                xfrm_remote_ip: bswap32(x.remote_ipv4) as i32,
                ..*old(g)
            }
        },
{
    calls.push(TunnelKeyCall::GetXfrmStateSkb);
    if ret < 0 {
        return TC_ACT_OK;
    }
    g.xfrm_reqid = x.reqid as i32;
    g.xfrm_spi = crate::bytes::htonl(x.spi) as i32;
    g.xfrm_remote_ip = crate::bytes::htonl(x.remote_ipv4) as i32;
    TC_ACT_OK
}

/// The XDP IPsec lookup on a frame `p` (whole, Ethernet first): where
/// the frame can be viewed (`dynptr_ret` 0) and carries an ESP header
/// behind its IPv4 header, the state for its destination and SPI is
/// looked up; `state` is the kernel's answer (none: no state; else its
/// replay window, if it has replay state), whose window is recorded and
/// which is released.  Every frame passes.
pub open spec fn spec_xfrm_get_state_xdp(p: Seq<u8>, dynptr_ret: i64, state: Option<Option<u32>>, g: XfrmGlobals) -> (XfrmGlobals, Seq<TunnelKeyCall>) {
    if dynptr_ret != 0 || p.len() < 34 || p[23] != IPPROTO_ESP || p.len() < 42 {
        (g, seq![])
    } else {
        let opts = XfrmStateOpts { netns_id: BPF_F_CURRENT_NETNS, daddr: le32(p, 30), spi: le32(p, 34), proto: IPPROTO_ESP, family: AF_INET };
        let c1 = seq![TunnelKeyCall::GetXfrmStateXdp { opts }];
        match state {
            None => (g, c1),
            Some(w) => {
                let g1 = match w {
                    Some(win) => XfrmGlobals { xfrm_replay_window: win as i32, ..g },
                    None => g,
                };
                (g1, c1.push(TunnelKeyCall::ReleaseXfrmState))
            },
        }
    }
}

/// The XDP IPsec lookup (see [`spec_xfrm_get_state_xdp`]).
pub fn xfrm_get_state_xdp(p: &[u8], dynptr_ret: i64, state: Option<Option<u32>>, g: &mut XfrmGlobals, calls: &mut Vec<TunnelKeyCall>) -> (r: i32)
    ensures
        r == XDP_PASS,
        *final(g) == spec_xfrm_get_state_xdp(p@, dynptr_ret, state, *old(g)).0,
        final(calls)@ == old(calls)@ + spec_xfrm_get_state_xdp(p@, dynptr_ret, state, *old(g)).1,
{
    let ghost c0 = calls@;
    if dynptr_ret != 0 || p.len() < 34 || p[23] != IPPROTO_ESP || p.len() < 42 {
        assert(calls@ =~= c0 + seq![]);
        return XDP_PASS;
    }
    let opts = XfrmStateOpts {
        netns_id: BPF_F_CURRENT_NETNS,
        daddr: crate::bytes::get_le32(p, 30),
        spi: crate::bytes::get_le32(p, 34),
        proto: IPPROTO_ESP,
        family: AF_INET,
    };
    calls.push(TunnelKeyCall::GetXfrmStateXdp { opts });
    match state {
        None => {},
        Some(w) => {
            match w {
                Some(win) => {
                    g.xfrm_replay_window = win as i32;
                },
                None => {},
            }
            calls.push(TunnelKeyCall::ReleaseXfrmState);
        },
    }
    assert(calls@ =~= c0 + spec_xfrm_get_state_xdp(p@, dynptr_ret, state, *old(g)).1);
    XDP_PASS
}

/// Release law: an IPsec state the XDP lookup obtains is always released,
/// as its last call, and one it does not obtain never is.
pub proof fn lemma_xfrm_state_released(p: Seq<u8>, dynptr_ret: i64, state: Option<Option<u32>>, g: XfrmGlobals)
    ensures
        ({
            let cs = spec_xfrm_get_state_xdp(p, dynptr_ret, state, g).1;
            &&& (state is Some && cs.len() > 0) ==> cs.last() == TunnelKeyCall::ReleaseXfrmState
            &&& state is None ==> !cs.contains(TunnelKeyCall::ReleaseXfrmState)
        }),
{
    let cs = spec_xfrm_get_state_xdp(p, dynptr_ret, state, g).1;
    if state is None && cs.len() > 0 {
        assert(cs.len() == 1);
        assert(cs[0] != TunnelKeyCall::ReleaseXfrmState);
    }
}

/// Fix-up law: a VXLAN frame the veth program rewrites ends up, when every
/// step succeeds, stored with veth1's address and retyped as a host
/// packet, and one already addressed to veth1 is left alone.
pub proof fn lemma_outer_dst_fixed(p: Seq<u8>, csum_diff: i64)
    requires
        p.len() >= 42,
        be16(p, 12) == 0x0800,
        p[23] == IPPROTO_UDP,
        be16(p, 36) == VXLAN_UDP_PORT,
    ensures
        le32(p, 30) != bswap32(ASSIGNED_ADDR_VETH1) ==> ({
            let (v, cs) = spec_veth_set_outer_dst(p, csum_diff, 0, 0);
            &&& v == TC_ACT_OK
            &&& cs[1] == TunnelKeyCall::Store { off: 30, value: bswap32(ASSIGNED_ADDR_VETH1) }
            &&& cs.last() == TunnelKeyCall::ChangeType { pkt_type: PACKET_HOST }
        }),
        le32(p, 30) == bswap32(ASSIGNED_ADDR_VETH1) ==> spec_veth_set_outer_dst(p, csum_diff, 0, 0) == (TC_ACT_OK, Seq::<TunnelKeyCall>::empty()),
{
}

} // verus!
