//! Small tracing programs: fentry/fexit probes, tracepoints and LSM hooks
//! that record what they saw for the process under test, and the helper
//! calls they make.
//!
//! The kernel objects they read (tasks, sk_buffs, xdp buffers) come in as
//! the plain values read from them; the helper calls they make come out as
//! values of [`TraceCall`], in order, and the kernel's answers to them come
//! in as arguments.
use vstd::prelude::*;

verus! {

/// `BPF_F_CURRENT_CPU`: output to the current CPU's ring.
pub const BPF_F_CURRENT_CPU: u64 = 0xffffffff;
/// The `bpf()` command that creates a link.
pub const BPF_LINK_CREATE: i32 = 28;
/// Size of the error-message buffer of the XDP attach-failure tracepoint.
pub const ERRMSG_LEN: usize = 64;

/// A helper call of a tracing program.
#[derive(Clone, Copy, PartialEq, Eq, Structural)]
pub enum TraceCall {
    /// The map is walked with a callback that stops after one element.
    ForEachMapElem,
    /// The task is acquired.
    TaskAcquire,
    /// The acquired task is released.
    TaskRelease,
    /// The cgroup of id `id` is looked up.
    CgroupFromId { id: u64 },
    /// The task is checked against the cgroup found.
    TaskUnderCgroup,
    /// The cgroup found is released.
    CgroupRelease,
    /// `value` is sent to the perf ring buffer with `flags`.
    PerfOutput { flags: u64, value: u64 },
    /// `data` is sent to the BPF ring buffer.
    RingbufOutput { data: u32 },
}

/// The upper half of a pid/tgid pair: the process (thread group) id.
pub open spec fn spec_tgid(pid_tgid: u64) -> u64 {
    pid_tgid >> 32u64
}

/// The callback of the map walk: 1, which stops the walk.
pub fn test_cb() -> (r: i64)
    ensures
        r == 1,
{
    1
}

/// The fexit probes of the extable test: each loads through the returned
/// pointer (a fault there is fixed up by the kernel), walks the array with
/// [`test_cb`] and counts its run.  The three are the same program, run on
/// separate copies.
pub fn handle_fexit_ret_subprogs(triggered: &mut u32, calls: &mut Vec<TraceCall>) -> (r: i32)
    ensures
        r == 0,
        *final(triggered) == vstd::wrapping::u32_specs::wrapping_add(*old(triggered), 1),
        final(calls)@ == old(calls)@.push(TraceCall::ForEachMapElem),
{
    calls.push(TraceCall::ForEachMapElem);
    *triggered = triggered.wrapping_add(1);
    0
}

/// Second copy of [`handle_fexit_ret_subprogs`].
pub fn handle_fexit_ret_subprogs2(triggered: &mut u32, calls: &mut Vec<TraceCall>) -> (r: i32)
    ensures
        r == 0,
        *final(triggered) == vstd::wrapping::u32_specs::wrapping_add(*old(triggered), 1),
        final(calls)@ == old(calls)@.push(TraceCall::ForEachMapElem),
{
    calls.push(TraceCall::ForEachMapElem);
    *triggered = triggered.wrapping_add(1);
    0
}

/// Third copy of [`handle_fexit_ret_subprogs`].
pub fn handle_fexit_ret_subprogs3(triggered: &mut u32, calls: &mut Vec<TraceCall>) -> (r: i32)
    ensures
        r == 0,
        *final(triggered) == vstd::wrapping::u32_specs::wrapping_add(*old(triggered), 1),
        final(calls)@ == old(calls)@.push(TraceCall::ForEachMapElem),
{
    calls.push(TraceCall::ForEachMapElem);
    *triggered = triggered.wrapping_add(1);
    0
}

/// The raw tracepoint program next to the unused subprogram: returns 0.
pub fn main_prog() -> (r: i32)
    ensures
        r == 0,
{
    0
}

/// The scheduler-switch tracepoint: returns 0.
pub fn oncpu() -> (r: i32)
    ensures
        r == 0,
{
    0
}

/// The perf-event program of the unprivileged test: returns 0.
pub fn handle_perf_event() -> (r: i32)
    ensures
        r == 0,
{
    0
}

/// The three programs on one attach point whose trampolines are counted:
/// each returns 0.
pub fn fentry_test() -> (r: i32)
    ensures
        r == 0,
{
    0
}

/// See [`fentry_test`].
pub fn fmod_ret_test() -> (r: i32)
    ensures
        r == 0,
{
    0
}

/// See [`fentry_test`].
pub fn fexit_test() -> (r: i32)
    ensures
        r == 0,
{
    0
}

/// The global subprogram nothing calls: its argument plus one, wrapping.
pub fn unused1(x: i32) -> (r: i32)
    ensures
        r == vstd::wrapping::i32_specs::wrapping_add(x, 1),
{
    x.wrapping_add(1)
}

/// The timestamps the TAI-clock classifier stores in the packet.
#[derive(Clone, Copy, PartialEq, Eq, Structural)]
pub struct TaiStamps {
    pub tstamp: u64,
    pub cb0: u32,
    pub cb1: u32,
}

/// The classifier that reads the TAI clock twice (`ts1`, `ts2`): the first
/// reading becomes the packet's timestamp, the second is split over two
/// control-buffer words, low half first.  Returns 0.
pub fn time_tai(ts1: u64, ts2: u64) -> (r: (i32, TaiStamps))
    ensures
        r.0 == 0,
        r.1 == (TaiStamps { tstamp: ts1, cb0: (ts2 & 0xffffffff) as u32, cb1: (ts2 >> 32u64) as u32 }),
{
    (0, TaiStamps { tstamp: ts1, cb0: (ts2 & 0xffffffff) as u32, cb1: (ts2 >> 32u64) as u32 })
}

/// Split law: the two control-buffer words put back together give the
/// second reading.
pub proof fn lemma_tai_split(ts2: u64)
    ensures
        ({
            let lo = (ts2 & 0xffffffff) as u32;
            let hi = (ts2 >> 32u64) as u32;
            ((hi as u64) << 32u64) | (lo as u64) == ts2
        }),
{
    assert((((ts2 >> 32u64) as u32 as u64) << 32u64) | ((ts2 & 0xffffffff) as u32 as u64) == ts2) by (bit_vector);
}

/// The extension program that replaces a classifier: records the packet
/// length.  Returns 0.
pub fn test_pkt_md_access_new(len: u32, ext_called: &mut u64) -> (r: i32)
    ensures
        r == 0,
        *final(ext_called) == len as u64,
{
    *ext_called = len as u64;
    0
}

/// Probe on entry of the extension: records the packet length.
pub fn fentry(len: u32, fentry_called: &mut u64) -> (r: i32)
    ensures
        r == 0,
        *final(fentry_called) == len as u64,
{
    *fentry_called = len as u64;
    0
}

/// Probe on exit of the extension: records the packet length.
pub fn fexit(len: u32, fexit_called: &mut u64) -> (r: i32)
    ensures
        r == 0,
        *final(fexit_called) == len as u64,
{
    *fexit_called = len as u64;
    0
}

/// What the kernel answers to the new-task tracepoint's calls.
#[derive(Clone, Copy)]
pub struct NewTaskAnswers {
    /// The thread-group id of the acquired task, if it could be acquired.
    pub acquired_tgid: Option<i32>,
    /// Whether the cgroup was found.
    pub cgroup_found: bool,
    /// Whether the task is under that cgroup.
    pub under_cgroup: bool,
}

/// The new-task tracepoint, run by the process `pid_tgid`: only for the
/// local process, it acquires the new task; a task of another process
/// that is under cgroup `cgid` has its process id recorded.  Everything
/// acquired is released.
pub open spec fn spec_tp_btf_run(local_pid: i32, cgid: u64, pid_tgid: u64, a: NewTaskAnswers, remote_pid: i32) -> (i32, Seq<TraceCall>) {
    if local_pid as u64 != spec_tgid(pid_tgid) {
        (remote_pid, seq![])
    } else {
        match a.acquired_tgid {
            None => (remote_pid, seq![TraceCall::TaskAcquire]),
            Some(tgid) => {
                if local_pid != tgid {
                    let look = seq![TraceCall::TaskAcquire, TraceCall::CgroupFromId { id: cgid }];
                    if a.cgroup_found {
                        let rp = if a.under_cgroup { tgid } else { remote_pid };
                        (rp, look + seq![TraceCall::TaskUnderCgroup, TraceCall::CgroupRelease, TraceCall::TaskRelease])
                    } else {
                        (remote_pid, look.push(TraceCall::TaskRelease))
                    }
                } else {
                    (remote_pid, seq![TraceCall::TaskAcquire, TraceCall::TaskRelease])
                }
            },
        }
    }
}

/// The new-task tracepoint (see [`spec_tp_btf_run`]).  Returns 0.
pub fn tp_btf_run(local_pid: i32, cgid: u64, pid_tgid: u64, a: &NewTaskAnswers, remote_pid: &mut i32, calls: &mut Vec<TraceCall>) -> (r: i32)
    ensures
        r == 0,
        (*final(remote_pid), final(calls)@) == ({
            let (rp, cs) = spec_tp_btf_run(local_pid, cgid, pid_tgid, *a, *old(remote_pid));
            (rp, old(calls)@ + cs)
        }),
{
    let ghost c0 = calls@;
    if local_pid as u64 != (pid_tgid >> 32u64) {
        assert(calls@ =~= c0 + seq![]);
        return 0;
    }
    calls.push(TraceCall::TaskAcquire);
    match a.acquired_tgid {
        None => {
            assert(calls@ =~= c0 + seq![TraceCall::TaskAcquire]);
            0
        },
        Some(tgid) => {
            let mut cgroup_found = false;
            if local_pid != tgid {
                calls.push(TraceCall::CgroupFromId { id: cgid });
                cgroup_found = a.cgroup_found;
                if cgroup_found {
                    calls.push(TraceCall::TaskUnderCgroup);
                    if a.under_cgroup {
                        *remote_pid = tgid;
                    }
                }
            }
            if cgroup_found {
                calls.push(TraceCall::CgroupRelease);
            }
            calls.push(TraceCall::TaskRelease);
            assert(calls@ =~= c0 + spec_tp_btf_run(local_pid, cgid, pid_tgid, *a, *old(remote_pid)).1);
            0
        },
    }
}

/// The LSM hook on `bpf()` for the task `task_pid`: for the local task
/// creating a link, the root cgroup (id 1) is looked up, and the call is
/// refused (-1) where the task is not under it.
pub open spec fn spec_lsm_run(local_pid: i32, task_pid: i32, cmd: i32, cgroup_found: bool, under_cgroup: bool) -> (i32, Seq<TraceCall>) {
    if local_pid != task_pid || cmd != BPF_LINK_CREATE {
        (0, seq![])
    } else if !cgroup_found {
        (0, seq![TraceCall::CgroupFromId { id: 1 }])
    } else {
        (if under_cgroup { 0i32 } else { -1i32 }, seq![TraceCall::CgroupFromId { id: 1 }, TraceCall::TaskUnderCgroup, TraceCall::CgroupRelease])
    }
}

/// The LSM hook (see [`spec_lsm_run`]).
pub fn lsm_run(local_pid: i32, task_pid: i32, cmd: i32, cgroup_found: bool, under_cgroup: bool, calls: &mut Vec<TraceCall>) -> (r: i32)
    ensures
        (r, final(calls)@) == ({
            let (v, cs) = spec_lsm_run(local_pid, task_pid, cmd, cgroup_found, under_cgroup);
            (v, old(calls)@ + cs)
        }),
{
    let ghost c0 = calls@;
    if local_pid != task_pid {
        assert(calls@ =~= c0 + seq![]);
        return 0;
    }
    if cmd != BPF_LINK_CREATE {
        assert(calls@ =~= c0 + seq![]);
        return 0;
    }
    let mut ret: i32 = 0;
    calls.push(TraceCall::CgroupFromId { id: 1 });
    if cgroup_found {
        calls.push(TraceCall::TaskUnderCgroup);
        if !under_cgroup {
            ret = -1;
        }
        calls.push(TraceCall::CgroupRelease);
    }
    assert(calls@ =~= c0 + spec_lsm_run(local_pid, task_pid, cmd, cgroup_found, under_cgroup).1);
    ret
}

/// The nanosleep probe: for the process under test, the two recorded
/// values go to the perf buffer and to the ring buffer.  Returns 0.
pub fn sys_nanosleep_enter(pid_tgid: u64, test_pid: i32, perfbuf_val: u32, ringbuf_val: u32, calls: &mut Vec<TraceCall>) -> (r: i32)
    ensures
        r == 0,
        final(calls)@ == old(calls)@ + if (pid_tgid >> 32u64) as i32 != test_pid {
            seq![]
        } else {
            seq![
                TraceCall::PerfOutput { flags: BPF_F_CURRENT_CPU, value: perfbuf_val as u64 },
                TraceCall::RingbufOutput { data: ringbuf_val },
            ]
        },
{
    let cur_pid = (pid_tgid >> 32u64) as i32;
    if cur_pid != test_pid {
        assert(calls@ =~= old(calls)@ + seq![]);
        return 0;
    }
    calls.push(TraceCall::PerfOutput { flags: BPF_F_CURRENT_CPU, value: perfbuf_val as u64 });
    calls.push(TraceCall::RingbufOutput { data: ringbuf_val });
    0
}

/// The offset of the error message in the tracepoint record: the low 16
/// bits of its `__data_loc` word.
pub open spec fn spec_errmsg_offset(data_loc: u32) -> int {
    (data_loc as u16) as int
}

/// The bytes of the record from `off` (not negative) that a 64-byte
/// buffer can take: at most 63 (room for the NUL), and no further than the
/// record.
pub open spec fn errmsg_window(rec: Seq<u8>, off: int) -> Seq<u8> {
    if off >= rec.len() {
        Seq::empty()
    } else {
        let avail = rec.len() - off;
        let lim = if avail < (ERRMSG_LEN - 1) { avail } else { (ERRMSG_LEN - 1) as int };
        rec.subrange(off, off + lim)
    }
}

/// The length of the string in a window: up to its first NUL, or the
/// whole window.
pub open spec fn c_str_len(m: Seq<u8>) -> int {
    if exists|k: int| 0 <= k < m.len() && m[k] == 0 {
        choose|k: int| 0 <= k < m.len() && m[k] == 0 && (forall|j: int| 0 <= j < k ==> m[j] != 0)
    } else {
        m.len() as int
    }
}

/// The error-message buffer sent: the message's bytes (its string in
/// [`errmsg_window`]), then zeros.
pub open spec fn spec_errmsg(rec: Seq<u8>, data_loc: u32) -> Seq<u8> {
    let m = errmsg_window(rec, spec_errmsg_offset(data_loc));
    let n = c_str_len(m);
    Seq::new(ERRMSG_LEN as nat, |i: int| if i < n { m[i] } else { 0u8 })
}

/// The XDP attach-failure tracepoint: copies the error message out of the
/// tracepoint record `rec` into a zeroed 64-byte buffer, as a
/// NUL-terminated string, and sends the buffer to the perf buffer.
/// Returns 0 and the buffer.
pub fn tp__xdp__bpf_xdp_link_attach_failed(rec: &[u8], data_loc: u32) -> (r: (i32, Vec<u8>))
    ensures
        r.0 == 0,
        r.1@ == spec_errmsg(rec@, data_loc),
{
    let msg_off = (data_loc as u16) as usize;
    let mut errmsg: Vec<u8> = Vec::new();
    let mut i: usize = 0;
    while i < ERRMSG_LEN
        invariant
            i <= ERRMSG_LEN,
            errmsg@ == Seq::new(i as nat, |j: int| 0u8),
        decreases ERRMSG_LEN - i,
    {
        errmsg.push(0);
        i += 1;
    }
    let n = rec.len();
    let ghost m = errmsg_window(rec@, msg_off as int);
    let mut k: usize = 0;
    while k < ERRMSG_LEN - 1 && msg_off < n && k < n - msg_off && rec[msg_off + k] != 0
        invariant
            n == rec@.len(),
            msg_off < 65536,
            m == errmsg_window(rec@, msg_off as int),
            k <= m.len() <= 63,
            errmsg@.len() == ERRMSG_LEN,
            forall|j: int| 0 <= j < k ==> m[j] != 0,
            forall|j: int| 0 <= j < ERRMSG_LEN ==> errmsg@[j] == if j < k { m[j] } else { 0u8 },
        decreases ERRMSG_LEN - k,
    {
        assert(m[k as int] == rec@[msg_off + k]);
        errmsg.set(k, rec[msg_off + k]);
        k += 1;
    }
    proof {
        if k < m.len() {
            assert(m[k as int] == rec@[msg_off + k]);
            assert(m[k as int] == 0);
        }
        if exists|q: int| 0 <= q < m.len() && m[q] == 0 {
            let c = choose|q: int| 0 <= q < m.len() && m[q] == 0 && (forall|j: int| 0 <= j < q ==> m[j] != 0);
            assert(0 <= c < m.len() && m[c] == 0 && (forall|j: int| 0 <= j < c ==> m[j] != 0));
            if k == m.len() {
                assert(m[c] != 0);
            }
            if c < k {
                assert(m[c] != 0);
            } else if c > k {
                assert(m[k as int] != 0);
            }
            assert(c == k);
        } else {
            if k < m.len() {
                assert(m[k as int] == 0);
            }
        }
        assert(c_str_len(m) == k);
        assert(errmsg@ =~= spec_errmsg(rec@, data_loc));
    }
    (0, errmsg)
}

/// Termination law of the attach-failure message: the buffer sent is
/// always 64 bytes and always ends in a NUL, however long the message.
pub proof fn lemma_errmsg_terminated(rec: Seq<u8>, data_loc: u32)
    ensures
        spec_errmsg(rec, data_loc).len() == ERRMSG_LEN,
        spec_errmsg(rec, data_loc)[ERRMSG_LEN - 1] == 0,
{
    let m = errmsg_window(rec, spec_errmsg_offset(data_loc));
    assert(m.len() <= 63);
    if exists|k: int| 0 <= k < m.len() && m[k] == 0 {
        let c = choose|k: int| 0 <= k < m.len() && m[k] == 0 && (forall|j: int| 0 <= j < k ==> m[j] != 0);
        // the first NUL exists whenever some NUL does
        assert(exists|k: int| 0 <= k < m.len() && m[k] == 0 && (forall|j: int| 0 <= j < k ==> m[j] != 0)) by {
            lemma_first_nul(m);
        }
        assert(c < 63);
    }
    assert(c_str_len(m) <= 63);
}

proof fn lemma_first_nul(m: Seq<u8>)
    requires
        exists|k: int| 0 <= k < m.len() && m[k] == 0,
    ensures
        exists|k: int| 0 <= k < m.len() && m[k] == 0 && (forall|j: int| 0 <= j < k ==> m[j] != 0),
    decreases m.len(),
{
    if m[0] == 0 {
        assert(0 <= 0 < m.len() && m[0] == 0 && (forall|j: int| 0 <= j < 0 ==> m[j] != 0));
    } else {
        let w = choose|k: int| 0 <= k < m.len() && m[k] == 0;
        let t = m.drop_first();
        assert(t[w - 1] == 0);
        lemma_first_nul(t);
        let k = choose|k: int| 0 <= k < t.len() && t[k] == 0 && (forall|j: int| 0 <= j < k ==> t[j] != 0);
        assert(m[k + 1] == 0);
        assert forall|j: int| 0 <= j < k + 1 implies m[j] != 0 by {
            if j > 0 {
                assert(m[j] == t[j - 1]);
            }
        }
    }
}

/// The perf-output flags of the XDP fentry probe: the packet length in the
/// upper half (how much of the packet to append), the current CPU below.
pub open spec fn spec_xdp_output_flags(pkt_len: i32) -> u64 {
    ((pkt_len as i64 as u64) << 32u64) | BPF_F_CURRENT_CPU
}

/// What the XDP fentry probe sends and records.
#[derive(Clone, Copy, PartialEq, Eq, Structural)]
pub struct XdpTraceMeta {
    pub ifindex: i32,
    pub pkt_len: i32,
}

/// The probe on entry of an XDP program: the receiving device's index and
/// the buffer length go to the perf buffer, with the whole packet
/// appended; the index is recorded (sign-extended).  Returns 0, the flags
/// and the record sent.
pub fn trace_on_entry(ifindex: i32, buff_len: u64, test_result_fentry: &mut u64) -> (r: (i32, u64, XdpTraceMeta))
    ensures
        r.0 == 0,
        r.1 == spec_xdp_output_flags(buff_len as i32),
        r.2 == (XdpTraceMeta { ifindex, pkt_len: buff_len as i32 }),
        *final(test_result_fentry) == ifindex as i64 as u64,
{
    let pkt_len = buff_len as i32;
    let flags = ((pkt_len as i64 as u64) << 32u64) | BPF_F_CURRENT_CPU;
    *test_result_fentry = ifindex as i64 as u64;
    (0, flags, XdpTraceMeta { ifindex, pkt_len })
}

/// The probe on exit of an XDP program: records its verdict (the low half
/// of the return register, sign-extended).  Returns 0.
pub fn trace_on_exit(ret: u64, test_result_fexit: &mut u64) -> (r: i32)
    ensures
        r == 0,
        *final(test_result_fexit) == ret as i32 as i64 as u64,
{
    *test_result_fexit = ret as i32 as i64 as u64;
    0
}

} // verus!
