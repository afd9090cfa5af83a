//! A socket-operations program that records which callbacks ran and what
//! the socket reported, and sets a few socket options along the way.
//!
//! The kernel helper calls the program makes are listed by
//! [`testcb_calls`]; their answers come in as [`TestcbAnswers`], and
//! [`bpf_testcb`] gives the new context and counters for every answer.
use vstd::prelude::*;
use crate::ctx::{
    bpf_sock_ops, BPF_SOCK_OPS_ACTIVE_ESTABLISHED_CB, BPF_SOCK_OPS_PASSIVE_ESTABLISHED_CB,
    BPF_SOCK_OPS_RETRANS_CB, BPF_SOCK_OPS_RTO_CB, BPF_SOCK_OPS_STATE_CB, BPF_SOCK_OPS_STATE_CB_FLAG,
    BPF_SOCK_OPS_TCP_CONNECT_CB, BPF_SOCK_OPS_TCP_LISTEN_CB, IPPROTO_TCP_LEVEL, IPV6_TCLASS, SOL_IPV6,
    SOL_TCP, TCP_SAVED_SYN, TCP_SAVE_SYN, TCP_WINDOW_CLAMP,
};

verus! {

pub const AF_INET6: u32 = 10;
pub const BPF_TCP_CLOSE: u32 = 7;
pub const BPF_TCP_LISTEN: u32 = 10;
/// Length of the saved SYN the program reads: IPv6 and TCP headers.
pub const HEADER_LEN: usize = 60;
/// The window clamp the program asks for.
pub const WINDOW_CLAMP: i32 = 9216;

/// UAPI `struct tcpbpf_globals`: what the program records.
#[derive(Clone, Copy)]
pub struct tcpbpf_globals {
    pub event_map: u32,
    pub total_retrans: u32,
    pub data_segs_in: u32,
    pub data_segs_out: u32,
    pub bad_cb_test_rv: u32,
    pub good_cb_test_rv: u32,
    pub bytes_received: u64,
    pub bytes_acked: u64,
    pub num_listen: u32,
    pub num_close_events: u32,
    pub tcp_save_syn: u32,
    pub tcp_saved_syn: u32,
    pub window_clamp_client: u32,
    pub window_clamp_server: u32,
}

/// A kernel helper call the program makes.
#[derive(Clone, Copy, PartialEq, Eq, Structural)]
pub enum SockOpsCall {
    /// `bpf_setsockopt(level, optname, &optval, 4)`.
    SetSockOpt { level: i32, optname: i32, optval: i32 },
    /// `bpf_getsockopt(level, optname, buf, optlen)`.
    GetSockOpt { level: i32, optname: i32, optlen: i32 },
    /// `bpf_sock_ops_cb_flags_set(flags)`.
    CbFlagsSet { flags: i32 },
    /// `bpf_skc_to_tcp_sock(sk)`, then a read of its window clamp.
    TcpSockWindowClamp,
}

/// What the kernel answers to the calls of [`testcb_calls`].
#[derive(Clone, Copy)]
pub struct TestcbAnswers {
    /// Result of setting the window clamp.
    pub set_window_clamp: i64,
    /// The window clamp of the TCP socket, if the socket is one.
    pub tcp_sock_window_clamp: Option<u32>,
    /// Result of setting the undefined callback flag 0x80.
    pub cb_flags_bad: i64,
    /// Result of setting the state callback flag.
    pub cb_flags_good: i64,
    /// Result of setting the traffic class.
    pub set_tclass: i64,
    /// Result of reading the saved SYN, and the bytes read.
    pub saved_syn: i64,
    pub saved_syn_header: [u8; 60],
    /// Result of asking the listener to save SYNs.
    pub set_save_syn: i64,
}

pub open spec fn spec_window_clamp(sk: u64, tcp_sock_window_clamp: Option<u32>) -> i32 {
    if sk == 0 {
        -1i32
    } else {
        match tcp_sock_window_clamp {
            None => -1i32,
            Some(c) => c as i32,
        }
    }
}

/// The calls to read the window clamp of the context's socket.
pub open spec fn window_clamp_calls(sk: u64) -> Seq<SockOpsCall> {
    if sk == 0 { seq![] } else { seq![SockOpsCall::TcpSockWindowClamp] }
}

pub open spec fn set_clamp_call() -> SockOpsCall {
    SockOpsCall::SetSockOpt { level: SOL_TCP, optname: TCP_WINDOW_CLAMP, optval: WINDOW_CLAMP }
}

/// The helper calls of one run, in order.
pub open spec fn spec_testcb_calls(s: bpf_sock_ops) -> Seq<SockOpsCall> {
    if s.op == BPF_SOCK_OPS_TCP_CONNECT_CB {
        seq![set_clamp_call()] + window_clamp_calls(s.sk)
    } else if s.op == BPF_SOCK_OPS_ACTIVE_ESTABLISHED_CB {
        seq![SockOpsCall::CbFlagsSet { flags: 0x80 }, SockOpsCall::CbFlagsSet { flags: BPF_SOCK_OPS_STATE_CB_FLAG as i32 }]
    } else if s.op == BPF_SOCK_OPS_PASSIVE_ESTABLISHED_CB {
        seq![SockOpsCall::SetSockOpt { level: SOL_IPV6, optname: IPV6_TCLASS, optval: 0xff }]
            + (if s.family == AF_INET6 {
            seq![SockOpsCall::GetSockOpt { level: IPPROTO_TCP_LEVEL, optname: TCP_SAVED_SYN, optlen: 60 }]
        } else {
            seq![]
        }) + seq![set_clamp_call()] + window_clamp_calls(s.sk)
    } else if s.op == BPF_SOCK_OPS_TCP_LISTEN_CB {
        seq![
            SockOpsCall::CbFlagsSet { flags: BPF_SOCK_OPS_STATE_CB_FLAG as i32 },
            SockOpsCall::SetSockOpt { level: IPPROTO_TCP_LEVEL, optname: TCP_SAVE_SYN, optval: 1 },
        ]
    } else {
        seq![]
    }
}

/// The counters after a state change: a close of a listener counts a
/// listener, a close of a connection copies its totals; both count a close.
pub open spec fn state_cb_globals(s: bpf_sock_ops, g: tcpbpf_globals) -> tcpbpf_globals {
    if s.args[1] == BPF_TCP_CLOSE {
        let g1 = if s.args[0] == BPF_TCP_LISTEN {
            tcpbpf_globals { num_listen: vstd::wrapping::u32_specs::wrapping_add(g.num_listen, 1), ..g }
        } else {
            tcpbpf_globals {
                total_retrans: s.total_retrans,
                data_segs_in: s.data_segs_in,
                data_segs_out: s.data_segs_out,
                bytes_received: s.bytes_received,
                bytes_acked: s.bytes_acked,
                ..g
            }
        };
        tcpbpf_globals { num_close_events: vstd::wrapping::u32_specs::wrapping_add(g1.num_close_events, 1), ..g1 }
    } else {
        g
    }
}

/// The SYN bit of the saved SYN's TCP header.
pub open spec fn saved_syn_bit(h: [u8; 60]) -> u32 {
    ((h[53] >> 1u8) & 1u8) as u32
}

/// One run: the reply (in `args[0]`), the context, and the counters.
pub open spec fn spec_testcb(s: bpf_sock_ops, g: tcpbpf_globals, a: TestcbAnswers) -> (bpf_sock_ops, tcpbpf_globals) {
    let op = s.op;
    let g0 = tcpbpf_globals { event_map: g.event_map | vstd::wrapping::u32_specs::wrapping_shl(1, op), ..g };
    let clamp = spec_window_clamp(s.sk, a.tcp_sock_window_clamp) as u32;
    let (rv, s1, g1) = if op == BPF_SOCK_OPS_TCP_CONNECT_CB {
        (a.set_window_clamp, s, tcpbpf_globals { window_clamp_client: clamp, ..g0 })
    } else if op == BPF_SOCK_OPS_ACTIVE_ESTABLISHED_CB {
        (-1i64, s, tcpbpf_globals { bad_cb_test_rv: a.cb_flags_bad as u32, good_cb_test_rv: a.cb_flags_good as u32, ..g0 })
    } else if op == BPF_SOCK_OPS_PASSIVE_ESTABLISHED_CB {
        let g2 = if s.family == AF_INET6 && a.saved_syn as i32 == 0 {
            tcpbpf_globals { tcp_saved_syn: saved_syn_bit(a.saved_syn_header), ..g0 }
        } else {
            g0
        };
        (a.set_window_clamp, bpf_sock_ops { sk_txhash: 0x12345f, ..s }, tcpbpf_globals { window_clamp_server: clamp, ..g2 })
    } else if op == BPF_SOCK_OPS_STATE_CB {
        (-1i64, s, state_cb_globals(s, g0))
    } else if op == BPF_SOCK_OPS_TCP_LISTEN_CB {
        (-1i64, s, tcpbpf_globals { tcp_save_syn: (a.set_save_syn as i32) as u32, ..g0 })
    } else {
        (-1i64, s, g0)
    };
    (bpf_sock_ops { args: [rv as u32, s1.args[1], s1.args[2], s1.args[3]], ..s1 }, g1)
}

/// The window clamp of the context's socket, or -1 where there is no TCP
/// socket.
pub fn get_tp_window_clamp(sk: u64, tcp_sock_window_clamp: Option<u32>) -> (r: i32)
    ensures
        r == spec_window_clamp(sk, tcp_sock_window_clamp),
{
    if sk == 0 {
        return -1;
    }
    match tcp_sock_window_clamp {
        None => -1,
        Some(c) => c as i32,
    }
}

fn push_clamp_calls(v: &mut Vec<SockOpsCall>, sk: u64)
    ensures
        final(v)@ == old(v)@ + window_clamp_calls(sk),
{
    if sk != 0 {
        v.push(SockOpsCall::TcpSockWindowClamp);
    }
    assert(final(v)@ =~= old(v)@ + window_clamp_calls(sk)) by {
        if sk == 0 {
            assert(v@ =~= old(v)@ + window_clamp_calls(sk));
        }
    }
}

/// The helper calls one run of [`bpf_testcb`] makes, in order.
pub fn testcb_calls(skops: &bpf_sock_ops) -> (r: Vec<SockOpsCall>)
    ensures
        r@ == spec_testcb_calls(*skops),
{
    let mut v: Vec<SockOpsCall> = Vec::new();
    let op = skops.op;
    let set_clamp = SockOpsCall::SetSockOpt { level: SOL_TCP, optname: TCP_WINDOW_CLAMP, optval: WINDOW_CLAMP };
    if op == BPF_SOCK_OPS_TCP_CONNECT_CB {
        v.push(set_clamp);
        push_clamp_calls(&mut v, skops.sk);
    } else if op == BPF_SOCK_OPS_ACTIVE_ESTABLISHED_CB {
        v.push(SockOpsCall::CbFlagsSet { flags: 0x80 });
        v.push(SockOpsCall::CbFlagsSet { flags: BPF_SOCK_OPS_STATE_CB_FLAG as i32 });
    } else if op == BPF_SOCK_OPS_PASSIVE_ESTABLISHED_CB {
        v.push(SockOpsCall::SetSockOpt { level: SOL_IPV6, optname: IPV6_TCLASS, optval: 0xff });
        if skops.family == AF_INET6 {
            v.push(SockOpsCall::GetSockOpt { level: IPPROTO_TCP_LEVEL, optname: TCP_SAVED_SYN, optlen: 60 });
        }
        v.push(set_clamp);
        push_clamp_calls(&mut v, skops.sk);
    } else if op == BPF_SOCK_OPS_TCP_LISTEN_CB {
        v.push(SockOpsCall::CbFlagsSet { flags: BPF_SOCK_OPS_STATE_CB_FLAG as i32 });
        v.push(SockOpsCall::SetSockOpt { level: IPPROTO_TCP_LEVEL, optname: TCP_SAVE_SYN, optval: 1 });
    }
    assert(v@ =~= spec_testcb_calls(*skops));
    v
}

/// The socket-operations callback (see [`spec_testcb`]); always returns 1.
pub fn bpf_testcb(skops: &mut bpf_sock_ops, global: &mut tcpbpf_globals, answers: &TestcbAnswers) -> (r: i32)
    ensures
        r == 1,
        (*final(skops), *final(global)) == spec_testcb(*old(skops), *old(global), *answers),
{
    let mut rv: i64 = -1;
    let op = skops.op;
    global.event_map = global.event_map | 1u32.wrapping_shl(op);
    if op == BPF_SOCK_OPS_TCP_CONNECT_CB {
        rv = answers.set_window_clamp;
        global.window_clamp_client = get_tp_window_clamp(skops.sk, answers.tcp_sock_window_clamp) as u32;
    } else if op == BPF_SOCK_OPS_ACTIVE_ESTABLISHED_CB {
        global.bad_cb_test_rv = answers.cb_flags_bad as u32;
        global.good_cb_test_rv = answers.cb_flags_good as u32;
    } else if op == BPF_SOCK_OPS_PASSIVE_ESTABLISHED_CB {
        skops.sk_txhash = 0x12345f;
        rv = answers.set_tclass;
        if skops.family == AF_INET6 {
            let v = answers.saved_syn as i32;
            if v == 0 {
                let syn_byte = answers.saved_syn_header[53];
                let syn = (syn_byte >> 1u8) & 1u8;
                global.tcp_saved_syn = syn as u32;
            }
        }
        rv = answers.set_window_clamp;
        global.window_clamp_server = get_tp_window_clamp(skops.sk, answers.tcp_sock_window_clamp) as u32;
    } else if op == BPF_SOCK_OPS_RTO_CB || op == BPF_SOCK_OPS_RETRANS_CB {
    } else if op == BPF_SOCK_OPS_STATE_CB {
        let args = skops.args;
        if args[1] == BPF_TCP_CLOSE {
            if args[0] == BPF_TCP_LISTEN {
                global.num_listen = global.num_listen.wrapping_add(1);
            } else {
                global.total_retrans = skops.total_retrans;
                global.data_segs_in = skops.data_segs_in;
                global.data_segs_out = skops.data_segs_out;
                global.bytes_received = skops.bytes_received;
                global.bytes_acked = skops.bytes_acked;
            }
            global.num_close_events = global.num_close_events.wrapping_add(1);
        }
    } else if op == BPF_SOCK_OPS_TCP_LISTEN_CB {
        let v = answers.set_save_syn as i32;
        global.tcp_save_syn = v as u32;
    } else {
        rv = -1;
    }
    let ghost s1 = *skops;
    skops.args[0] = rv as u32;
    assert(skops.args =~= [rv as u32, s1.args[1], s1.args[2], s1.args[3]]);
    1
}

/// A listener's close is counted once as a listener and once as a close,
/// and every run records its callback in the event map.
pub proof fn lemma_testcb_counts(s: bpf_sock_ops, g: tcpbpf_globals, a: TestcbAnswers)
    requires
        s.op == BPF_SOCK_OPS_STATE_CB,
        s.args[1] == BPF_TCP_CLOSE,
        s.args[0] == BPF_TCP_LISTEN,
        g.num_listen < 0xffff_ffff,
        g.num_close_events < 0xffff_ffff,
    ensures
        ({
            let (s1, g1) = spec_testcb(s, g, a);
            &&& g1.num_listen == g.num_listen + 1
            &&& g1.num_close_events == g.num_close_events + 1
            &&& g1.event_map & (1u32 << 10u32) != 0
            &&& s1.args[0] == 0xffff_ffff
        }),
{
    let e = g.event_map;
    assert((e | (1u32 << (10u32 % 32))) & (1u32 << 10u32) != 0) by (bit_vector);
    assert(vstd::wrapping::u32_specs::wrapping_shl(1, s.op) == 1u32 << (10u32 % 32));
    let m1: i64 = -1i64;
    assert(m1 as u32 == 0xffff_ffff) by (bit_vector)
        requires
            m1 == -1,
    ;
}

} // verus!
