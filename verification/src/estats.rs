//! TCP extended statistics: on a reset, an event with the connection's
//! addresses and ports is recorded.  The socket's memory is read byte by
//! byte; a read that fails leaves a zero.
use vstd::prelude::*;

verus! {

pub const TCP_ESTATS_MAGIC: u32 = 0xBAADBEEF;
pub const TCP_ESTATS_TX_RESET: i32 = 8;
pub const AF_INET6: u16 = 10;
pub const TCP_ESTATS_ADDRTYPE_IPV4: u32 = 1;
pub const TCP_ESTATS_ADDRTYPE_IPV6: u32 = 2;

// Offsets of the fields read in the socket.
pub const OFF_SK_FAMILY: u64 = 0;
pub const OFF_SKC_DADDR: u64 = 8;
pub const OFF_SKC_DPORT: u64 = 16;
pub const OFF_SKC_V6_DADDR: u64 = 20;
pub const OFF_SKC_V6_RCV_SADDR: u64 = 36;
pub const OFF_INET_SADDR: u64 = 56;
pub const OFF_INET_SPORT: u64 = 60;

/// The event header.
#[derive(Clone, Copy)]
pub struct TcpEstatsEvent {
    pub pid: i32,
    pub cpu: i32,
    pub ts: u64,
    pub magic: u32,
    pub event_type: i32,
}

/// The connection: address type, local and remote addresses (network
/// bytes; an IPv4 address takes the first four) and raw ports.
#[derive(Clone, Copy)]
pub struct TcpEstatsConnId {
    pub local_address_type: u32,
    pub local_address: [u8; 16],
    pub rem_address: [u8; 16],
    pub localport: u16,
    pub remport: u16,
}

/// A recorded event.
#[derive(Clone, Copy)]
pub struct TcpEstatsBasicEvent {
    pub event: TcpEstatsEvent,
    pub conn_id: TcpEstatsConnId,
}

/// The byte of the socket's memory at `off` (0 where it cannot be read).
pub open spec fn sk_byte(sk: Seq<u8>, off: int) -> u8 {
    if 0 <= off < sk.len() { sk[off] } else { 0 }
}

/// The raw 16-bit field of the socket at `off`.
pub open spec fn sk_u16(sk: Seq<u8>, off: int) -> u16 {
    if 0 <= off && off + 2 <= sk.len() { (sk[off] + sk[off + 1] * 256) as u16 } else { 0 }
}

/// `d` with the 4 bytes of the socket at `from` written from `pos` on.
pub open spec fn set4(d: Seq<u8>, pos: int, sk: Seq<u8>, from: int) -> Seq<u8> {
    d.update(pos, sk_byte(sk, from)).update(pos + 1, sk_byte(sk, from + 1)).update(pos + 2, sk_byte(sk, from + 2)).update(
        pos + 3,
        sk_byte(sk, from + 3),
    )
}

/// `d` with the 16 bytes of the socket at `from` written over it.
pub open spec fn set16(d: Seq<u8>, sk: Seq<u8>, from: int) -> Seq<u8> {
    set4(set4(set4(set4(d, 0, sk, from), 4, sk, from + 4), 8, sk, from + 8), 12, sk, from + 12)
}

fn probe_u8(sk: &[u8], off: u64) -> (r: u8)
    ensures
        r == sk_byte(sk@, off as int),
{
    if off < sk.len() as u64 {
        sk[off as usize]
    } else {
        0
    }
}

fn probe_u16(sk: &[u8], off: u64) -> (r: u16)
    ensures
        r == sk_u16(sk@, off as int),
{
    let n = sk.len() as u64;
    if off <= n && n - off >= 2 {
        (sk[off as usize] as u16) + (sk[off as usize + 1] as u16) * 256
    } else {
        0
    }
}

/// Copies the 4 bytes of the socket at `from` into `dst[pos..pos + 4]`
/// (0 for a byte that cannot be read); the rest of `dst` is left alone.
pub fn unaligned_u32_set4<const N: usize>(dst: &mut [u8; N], pos: usize, sk: &[u8], from: u64)
    requires
        pos + 4 <= N,
        from <= u64::MAX - 3,
    ensures
        final(dst)@ == set4(old(dst)@, pos as int, sk@, from as int),
{
    dst[pos] = probe_u8(sk, from);
    dst[pos + 1] = probe_u8(sk, from + 1);
    dst[pos + 2] = probe_u8(sk, from + 2);
    dst[pos + 3] = probe_u8(sk, from + 3);
    assert(dst@ =~= set4(old(dst)@, pos as int, sk@, from as int));
}

/// Copy law: writing the 4 bytes of the socket at `from` at position `pos`
/// of any buffer with room for them puts byte `from + i` (0 where it cannot
/// be read) at `pos + i`, and changes nothing else.
pub proof fn lemma_set4_copies(d: Seq<u8>, pos: int, sk: Seq<u8>, from: int)
    requires
        0 <= pos,
        pos + 4 <= d.len(),
    ensures
        set4(d, pos, sk, from).len() == d.len(),
        forall|i: int| 0 <= i < 4 ==> #[trigger] set4(d, pos, sk, from)[pos + i] == sk_byte(sk, from + i),
        forall|j: int| 0 <= j < d.len() && !(pos <= j < pos + 4) ==> #[trigger] set4(d, pos, sk, from)[j] == d[j],
{
    assert forall|i: int| 0 <= i < 4 implies #[trigger] set4(d, pos, sk, from)[pos + i] == sk_byte(sk, from + i) by {
        if i == 0 {
        } else if i == 1 {
        } else if i == 2 {
        } else {
        }
    }
}

/// An IPv4 connection: the two addresses at `saddr` and `daddr`.
pub fn conn_id_ipv4_init(conn_id: &mut TcpEstatsConnId, sk: &[u8], saddr: u64, daddr: u64)
    requires
        saddr <= u64::MAX - 3,
        daddr <= u64::MAX - 3,
    ensures
        final(conn_id).local_address_type == TCP_ESTATS_ADDRTYPE_IPV4,
        final(conn_id).local_address@ == set4(old(conn_id).local_address@, 0, sk@, saddr as int),
        final(conn_id).rem_address@ == set4(old(conn_id).rem_address@, 0, sk@, daddr as int),
        final(conn_id).localport == old(conn_id).localport,
        final(conn_id).remport == old(conn_id).remport,
{
    conn_id.local_address_type = TCP_ESTATS_ADDRTYPE_IPV4;
    unaligned_u32_set4(&mut conn_id.local_address, 0, sk, saddr);
    unaligned_u32_set4(&mut conn_id.rem_address, 0, sk, daddr);
}

/// An IPv6 connection: the two 16-byte addresses at `saddr` and `daddr`.
pub fn conn_id_ipv6_init(conn_id: &mut TcpEstatsConnId, sk: &[u8], saddr: u64, daddr: u64)
    requires
        saddr <= u64::MAX - 15,
        daddr <= u64::MAX - 15,
    ensures
        final(conn_id).local_address_type == TCP_ESTATS_ADDRTYPE_IPV6,
        final(conn_id).local_address@ == set16(old(conn_id).local_address@, sk@, saddr as int),
        final(conn_id).rem_address@ == set16(old(conn_id).rem_address@, sk@, daddr as int),
        final(conn_id).localport == old(conn_id).localport,
        final(conn_id).remport == old(conn_id).remport,
{
    conn_id.local_address_type = TCP_ESTATS_ADDRTYPE_IPV6;
    unaligned_u32_set4(&mut conn_id.local_address, 0, sk, saddr);
    unaligned_u32_set4(&mut conn_id.local_address, 4, sk, saddr + 4);
    unaligned_u32_set4(&mut conn_id.local_address, 8, sk, saddr + 8);
    unaligned_u32_set4(&mut conn_id.local_address, 12, sk, saddr + 12);
    unaligned_u32_set4(&mut conn_id.rem_address, 0, sk, daddr);
    unaligned_u32_set4(&mut conn_id.rem_address, 4, sk, daddr + 4);
    unaligned_u32_set4(&mut conn_id.rem_address, 8, sk, daddr + 8);
    unaligned_u32_set4(&mut conn_id.rem_address, 12, sk, daddr + 12);
}

/// Fills in the connection of the socket: ports, then the addresses of its
/// family.
pub fn tcp_estats_conn_id_init(conn_id: &mut TcpEstatsConnId, sk: &[u8])
    ensures
        final(conn_id).localport == sk_u16(sk@, OFF_INET_SPORT as int),
        final(conn_id).remport == sk_u16(sk@, OFF_SKC_DPORT as int),
        sk_u16(sk@, OFF_SK_FAMILY as int) == AF_INET6 ==> {
            &&& final(conn_id).local_address_type == TCP_ESTATS_ADDRTYPE_IPV6
            &&& final(conn_id).local_address@ == set16(old(conn_id).local_address@, sk@, OFF_SKC_V6_RCV_SADDR as int)
            &&& final(conn_id).rem_address@ == set16(old(conn_id).rem_address@, sk@, OFF_SKC_V6_DADDR as int)
        },
        sk_u16(sk@, OFF_SK_FAMILY as int) != AF_INET6 ==> {
            &&& final(conn_id).local_address_type == TCP_ESTATS_ADDRTYPE_IPV4
            &&& final(conn_id).local_address@ == set4(old(conn_id).local_address@, 0, sk@, OFF_INET_SADDR as int)
            &&& final(conn_id).rem_address@ == set4(old(conn_id).rem_address@, 0, sk@, OFF_SKC_DADDR as int)
        },
{
    conn_id.localport = probe_u16(sk, OFF_INET_SPORT);
    conn_id.remport = probe_u16(sk, OFF_SKC_DPORT);
    if probe_u16(sk, OFF_SK_FAMILY) == AF_INET6 {
        conn_id_ipv6_init(conn_id, sk, OFF_SKC_V6_RCV_SADDR, OFF_SKC_V6_DADDR);
    } else {
        conn_id_ipv4_init(conn_id, sk, OFF_INET_SADDR, OFF_SKC_DADDR);
    }
}

/// Fills in the event header: magic, time `now`, type.
pub fn tcp_estats_ev_init(event: &mut TcpEstatsEvent, event_type: i32, now: u64)
    ensures
        *final(event) == (TcpEstatsEvent { magic: TCP_ESTATS_MAGIC, ts: now, event_type, ..*old(event) }),
{
    event.magic = TCP_ESTATS_MAGIC;
    event.ts = now;
    event.event_type = event_type;
}

/// Fills in the event header and the connection.
pub fn tcp_estats_init(sk: &[u8], event: &mut TcpEstatsEvent, conn_id: &mut TcpEstatsConnId, event_type: i32, now: u64)
    ensures
        *final(event) == (TcpEstatsEvent { magic: TCP_ESTATS_MAGIC, ts: now, event_type, ..*old(event) }),
        final(conn_id).localport == sk_u16(sk@, OFF_INET_SPORT as int),
        final(conn_id).remport == sk_u16(sk@, OFF_SKC_DPORT as int),
        sk_u16(sk@, OFF_SK_FAMILY as int) == AF_INET6 ==> {
            &&& final(conn_id).local_address_type == TCP_ESTATS_ADDRTYPE_IPV6
            &&& final(conn_id).local_address@ == set16(old(conn_id).local_address@, sk@, OFF_SKC_V6_RCV_SADDR as int)
            &&& final(conn_id).rem_address@ == set16(old(conn_id).rem_address@, sk@, OFF_SKC_V6_DADDR as int)
        },
        sk_u16(sk@, OFF_SK_FAMILY as int) != AF_INET6 ==> {
            &&& final(conn_id).local_address_type == TCP_ESTATS_ADDRTYPE_IPV4
            &&& final(conn_id).local_address@ == set4(old(conn_id).local_address@, 0, sk@, OFF_INET_SADDR as int)
            &&& final(conn_id).rem_address@ == set4(old(conn_id).rem_address@, 0, sk@, OFF_SKC_DADDR as int)
        },
{
    tcp_estats_ev_init(event, event_type, now);
    tcp_estats_conn_id_init(conn_id, sk);
}

/// The event recorded for the socket: everything zero but what the two
/// initialisations fill in.
pub fn send_basic_event(sk: &[u8], event_type: i32, now: u64) -> (r: TcpEstatsBasicEvent)
    ensures
        r.event == (TcpEstatsEvent { pid: 0, cpu: 0, ts: now, magic: TCP_ESTATS_MAGIC, event_type }),
        r.conn_id.localport == sk_u16(sk@, OFF_INET_SPORT as int),
        r.conn_id.remport == sk_u16(sk@, OFF_SKC_DPORT as int),
        sk_u16(sk@, OFF_SK_FAMILY as int) == AF_INET6 ==> {
            &&& r.conn_id.local_address_type == TCP_ESTATS_ADDRTYPE_IPV6
            &&& r.conn_id.local_address@ == set16(Seq::new(16, |_i: int| 0u8), sk@, OFF_SKC_V6_RCV_SADDR as int)
            &&& r.conn_id.rem_address@ == set16(Seq::new(16, |_i: int| 0u8), sk@, OFF_SKC_V6_DADDR as int)
        },
        sk_u16(sk@, OFF_SK_FAMILY as int) != AF_INET6 ==> {
            &&& r.conn_id.local_address_type == TCP_ESTATS_ADDRTYPE_IPV4
            &&& r.conn_id.local_address@ == set4(Seq::new(16, |_i: int| 0u8), 0, sk@, OFF_INET_SADDR as int)
            &&& r.conn_id.rem_address@ == set4(Seq::new(16, |_i: int| 0u8), 0, sk@, OFF_SKC_DADDR as int)
        },
{
    let mut ev = TcpEstatsBasicEvent {
        event: TcpEstatsEvent { pid: 0, cpu: 0, ts: 0, magic: 0, event_type: 0 },
        conn_id: TcpEstatsConnId {
            local_address_type: 0,
            local_address: [0u8; 16],
            rem_address: [0u8; 16],
            localport: 0,
            remport: 0,
        },
    };
    assert(ev.conn_id.local_address@ =~= Seq::new(16, |_i: int| 0u8));
    assert(ev.conn_id.rem_address@ =~= Seq::new(16, |_i: int| 0u8));
    tcp_estats_init(sk, &mut ev.event, &mut ev.conn_id, event_type, now);
    ev
}

/// The tracepoint: records a reset event for a socket (`sk_addr` is its
/// address, 0 for none).
pub fn _dummy_tracepoint(sk_addr: u64, sk: &[u8], now: u64) -> (r: (i32, Option<TcpEstatsBasicEvent>))
    ensures
        r.0 == 0,
        r.1 is Some <==> sk_addr != 0,
        r.1 matches Some(ev) ==> ev.event.event_type == TCP_ESTATS_TX_RESET && ev.event.magic == TCP_ESTATS_MAGIC
            && ev.event.ts == now && ev.conn_id.localport == sk_u16(sk@, OFF_INET_SPORT as int)
            && ev.conn_id.remport == sk_u16(sk@, OFF_SKC_DPORT as int),
{
    if sk_addr == 0 {
        return (0, None);
    }
    (0, Some(send_basic_event(sk, TCP_ESTATS_TX_RESET, now)))
}

} // verus!
