//! Verified packet-processing logic of a suite of eBPF networking programs:
//! checksums, hashes, TCP SYN cookies, TCP header options, tunnel
//! encapsulation, VLAN handling, an L4 load balancer, BPF timers, tracing
//! probes and several small classifiers.  Every function works on plain
//! values (packet bytes, header fields, counters); the kernel side (helper
//! calls, maps, attaching) is left to the caller: where a program calls a
//! helper, the call comes out as a value and the helper's answer comes in as
//! an argument.
#![allow(non_camel_case_types)]

pub mod bytes;
pub mod ctx;

pub mod checksum;
pub mod siphash;
pub mod jhash;
pub mod syncookie;
pub mod tunnel;
pub mod iptunnel;
pub mod vlan;
pub mod balancer;
pub mod tcpbpf;
pub mod hdr_opt;
pub mod dtime;
pub mod edt;
pub mod scale;
pub mod scale_wide;
pub mod meta;
pub mod estats;
pub mod tld;
pub mod varlen;
pub mod neigh;
pub mod redirect;
pub mod wakeup;
pub mod timer;
pub mod lsm;
pub mod xdp_tail;
pub mod sysctl;
pub mod tclink;
pub mod peer;
pub mod tunnel_key;
pub mod meta_dynptr;
pub mod probes;
pub mod tracing;
pub mod timer_progs;
pub mod xdp_progs;
