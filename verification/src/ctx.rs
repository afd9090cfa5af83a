//! Program contexts and return codes shared by the programs: the XDP
//! metadata, the socket-operations context, and XDP verdicts.
use vstd::prelude::*;

verus! {

pub const XDP_ABORTED: i32 = 0;
pub const XDP_DROP: i32 = 1;
pub const XDP_PASS: i32 = 2;
pub const XDP_TX: i32 = 3;

/// UAPI `struct xdp_md`.
#[derive(Clone, Copy)]
pub struct xdp_md {
    pub data: u32,
    pub data_end: u32,
    pub data_meta: u32,
    pub ingress_ifindex: u32,
    pub rx_queue_index: u32,
    pub egress_ifindex: u32,
}

/// UAPI `struct bpf_sock_ops`, up to the TCP flags of the current packet.
/// `args` also holds the reply a program gives back in `args[0]`.
#[derive(Clone, Copy)]
pub struct bpf_sock_ops {
    pub op: u32,
    pub args: [u32; 4],
    pub family: u32,
    pub remote_ip4: u32,
    pub local_ip4: u32,
    pub remote_ip6: [u32; 4],
    pub local_ip6: [u32; 4],
    pub remote_port: u32,
    pub local_port: u32,
    pub is_fullsock: u32,
    pub snd_cwnd: u32,
    pub srtt_us: u32,
    pub bpf_sock_ops_cb_flags: u32,
    pub state: u32,
    pub rtt_min: u32,
    pub snd_ssthresh: u32,
    pub rcv_nxt: u32,
    pub snd_nxt: u32,
    pub snd_una: u32,
    pub mss_cache: u32,
    pub ecn_flags: u32,
    pub rate_delivered: u32,
    pub rate_interval_us: u32,
    pub packets_out: u32,
    pub retrans_out: u32,
    pub total_retrans: u32,
    pub segs_in: u32,
    pub data_segs_in: u32,
    pub segs_out: u32,
    pub data_segs_out: u32,
    pub lost_out: u32,
    pub sacked_out: u32,
    pub sk_txhash: u32,
    pub bytes_received: u64,
    pub bytes_acked: u64,
    pub sk: u64,
    pub skb_data: u64,
    pub skb_data_end: u64,
    pub skb_len: u32,
    pub skb_tcp_flags: u32,
}

pub const BPF_SOCK_OPS_TCP_CONNECT_CB: u32 = 3;
pub const BPF_SOCK_OPS_ACTIVE_ESTABLISHED_CB: u32 = 4;
pub const BPF_SOCK_OPS_PASSIVE_ESTABLISHED_CB: u32 = 5;
pub const BPF_SOCK_OPS_RTO_CB: u32 = 8;
pub const BPF_SOCK_OPS_RETRANS_CB: u32 = 9;
pub const BPF_SOCK_OPS_STATE_CB: u32 = 10;
pub const BPF_SOCK_OPS_TCP_LISTEN_CB: u32 = 11;
pub const BPF_SOCK_OPS_PARSE_HDR_OPT_CB: u32 = 13;
pub const BPF_SOCK_OPS_HDR_OPT_LEN_CB: u32 = 14;
pub const BPF_SOCK_OPS_WRITE_HDR_OPT_CB: u32 = 15;

pub const BPF_SOCK_OPS_STATE_CB_FLAG: u32 = 4;
pub const BPF_SOCK_OPS_PARSE_ALL_HDR_OPT_CB_FLAG: u32 = 16;
pub const BPF_SOCK_OPS_PARSE_UNKNOWN_HDR_OPT_CB_FLAG: u32 = 32;
pub const BPF_SOCK_OPS_WRITE_HDR_OPT_CB_FLAG: u32 = 64;

pub const SOL_TCP: i32 = 6;
pub const IPPROTO_TCP_LEVEL: i32 = 6;
pub const SOL_IPV6: i32 = 41;
pub const IPV6_TCLASS: i32 = 67;
pub const TCP_WINDOW_CLAMP: i32 = 10;
pub const TCP_SAVE_SYN: i32 = 27;
pub const TCP_SAVED_SYN: i32 = 28;
pub const TCP_BPF_DELACK_MAX: i32 = 1003;
pub const TCP_BPF_RTO_MIN: i32 = 1004;

} // verus!
