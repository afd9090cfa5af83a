# bpf_progs

The packet-processing and bookkeeping logic of a suite of eBPF programs
(XDP, traffic-control classifiers, socket-operations programs, timers,
tracing probes), written as ordinary functions on plain values and proved
correct with Verus.

Each program becomes a function that takes what the program reads (packet
bytes, context fields, map values, the answers of the kernel helpers it
calls) and gives back what it decides (its verdict, the packet it leaves,
the counters it updates, the helper calls it makes, in order, and the
lines it writes to its output streams).  The
tunnel programs are split in two: a function that plans the
encapsulation or decapsulation from the packet, and one
(`encap_verdict`, `decap_verdict`) that takes the plan and the helpers'
answers and gives the calls and the verdict.  Each function's
contract states all of that exactly, over spec functions on sequences and
integers; public proof functions state the laws that relate several
functions (encapsulation undone by decapsulation, a SYN cookie accepted on
the ACK it answers, an option read back as it was written, and so on).

Layout:

- `src/bytes.rs`, `src/checksum.rs`, `src/jhash.rs`, `src/siphash.rs`:
  byte order, Internet checksums and the hash functions.
- `src/syncookie.rs`, `src/hdr_opt.rs`, `src/tcpbpf.rs`, `src/estats.rs`:
  TCP: SYN cookies, header options, socket-operation callbacks, statistics.
- `src/tunnel.rs`, `src/iptunnel.rs`, `src/tunnel_key.rs`: tunnel
  encapsulation and decapsulation, tunnel keys and options.
- `src/balancer.rs`, `src/scale.rs`, `src/scale_wide.rs`: the L4 load
  balancer and the window-hashing classifiers.
- `src/vlan.rs`, `src/meta.rs`, `src/meta_dynptr.rs`, `src/xdp_tail.rs`,
  `src/xdp_progs.rs`, `src/redirect.rs`: XDP programs.
- `src/dtime.rs`, `src/edt.rs`, `src/neigh.rs`, `src/peer.rs`,
  `src/tclink.rs`: classifiers.
- `src/timer.rs`, `src/timer_progs.rs`: timer programs and callbacks.
- `src/tracing.rs`, `src/probes.rs`, `src/lsm.rs`, `src/sysctl.rs`,
  `src/tld.rs`, `src/varlen.rs`, `src/wakeup.rs`: tracing, uprobe, LSM,
  sysctl and task-storage programs.
- `tests/`: the programs run on concrete inputs.
