use bpf_progs::tracing::{
    fentry_test, fexit_test, fmod_ret_test, handle_perf_event, main_prog, oncpu,
    fentry, fexit, handle_fexit_ret_subprogs, handle_fexit_ret_subprogs2, handle_fexit_ret_subprogs3, lsm_run,
    sys_nanosleep_enter, test_cb, test_pkt_md_access_new, time_tai, tp__xdp__bpf_xdp_link_attach_failed, tp_btf_run,
    trace_on_entry, trace_on_exit, unused1, NewTaskAnswers, TraceCall, XdpTraceMeta, BPF_F_CURRENT_CPU,
    BPF_LINK_CREATE,
};

#[test]
fn fexit_probes_count_and_walk() {
    let mut triggered: u32 = 0;
    let mut calls = Vec::new();
    assert_eq!(handle_fexit_ret_subprogs(&mut triggered, &mut calls), 0);
    assert_eq!(handle_fexit_ret_subprogs2(&mut triggered, &mut calls), 0);
    assert_eq!(handle_fexit_ret_subprogs3(&mut triggered, &mut calls), 0);
    assert_eq!(triggered, 3);
    assert!(calls == vec![TraceCall::ForEachMapElem; 3]);
    assert_eq!(test_cb(), 1);
    let mut wrap: u32 = u32::MAX;
    handle_fexit_ret_subprogs(&mut wrap, &mut calls);
    assert_eq!(wrap, 0);
}

#[test]
fn unused_subprogram_adds_one() {
    assert_eq!(unused1(41), 42);
    assert_eq!(unused1(i32::MAX), i32::MIN);
}

#[test]
fn tai_stamps_split_the_second_reading() {
    let (r, st) = time_tai(1000, 0x1234_5678_9abc_def0);
    assert_eq!(r, 0);
    assert_eq!(st.tstamp, 1000);
    assert_eq!(st.cb0, 0x9abc_def0);
    assert_eq!(st.cb1, 0x1234_5678);
    assert_eq!(((st.cb1 as u64) << 32) | st.cb0 as u64, 0x1234_5678_9abc_def0);
}

#[test]
fn packet_length_recorders() {
    let mut ext: u64 = 0;
    let mut fe: u64 = 0;
    let mut fx: u64 = 0;
    assert_eq!(test_pkt_md_access_new(74, &mut ext), 0);
    assert_eq!(fentry(74, &mut fe), 0);
    assert_eq!(fexit(74, &mut fx), 0);
    assert_eq!((ext, fe, fx), (74, 74, 74));
}

#[test]
fn new_task_under_cgroup_records_remote_pid() {
    let pid_tgid: u64 = (100u64 << 32) | 100;
    let a = NewTaskAnswers { acquired_tgid: Some(200), cgroup_found: true, under_cgroup: true };
    let mut remote: i32 = 0;
    let mut calls = Vec::new();
    assert_eq!(tp_btf_run(100, 7, pid_tgid, &a, &mut remote, &mut calls), 0);
    assert_eq!(remote, 200);
    assert!(calls == vec![
        TraceCall::TaskAcquire,
        TraceCall::CgroupFromId { id: 7 },
        TraceCall::TaskUnderCgroup,
        TraceCall::CgroupRelease,
        TraceCall::TaskRelease,
    ]);
    // the local process itself is never recorded
    let a2 = NewTaskAnswers { acquired_tgid: Some(100), cgroup_found: true, under_cgroup: true };
    let mut remote2: i32 = 0;
    let mut calls2 = Vec::new();
    tp_btf_run(100, 7, pid_tgid, &a2, &mut remote2, &mut calls2);
    assert_eq!(remote2, 0);
    assert!(calls2 == vec![TraceCall::TaskAcquire, TraceCall::TaskRelease]);
    // another process runs the tracepoint: nothing happens
    let mut calls3 = Vec::new();
    tp_btf_run(100, 7, 5u64 << 32, &a, &mut remote2, &mut calls3);
    assert!(calls3.is_empty());
}

#[test]
fn lsm_refuses_link_create_outside_root_cgroup() {
    let mut calls = Vec::new();
    assert_eq!(lsm_run(9, 9, BPF_LINK_CREATE, true, false, &mut calls), -1);
    assert!(calls == vec![TraceCall::CgroupFromId { id: 1 }, TraceCall::TaskUnderCgroup, TraceCall::CgroupRelease]);
    let mut calls2 = Vec::new();
    assert_eq!(lsm_run(9, 9, BPF_LINK_CREATE, true, true, &mut calls2), 0);
    let mut calls3 = Vec::new();
    assert_eq!(lsm_run(9, 9, 0, true, false, &mut calls3), 0);
    assert!(calls3.is_empty());
    let mut calls4 = Vec::new();
    assert_eq!(lsm_run(9, 8, BPF_LINK_CREATE, true, false, &mut calls4), 0);
    assert!(calls4.is_empty());
}

#[test]
fn nanosleep_outputs_both_values() {
    let mut calls = Vec::new();
    assert_eq!(sys_nanosleep_enter(42u64 << 32, 42, 11, 22, &mut calls), 0);
    assert!(calls == vec![
        TraceCall::PerfOutput { flags: BPF_F_CURRENT_CPU, value: 11 },
        TraceCall::RingbufOutput { data: 22 },
    ]);
    let mut calls2 = Vec::new();
    sys_nanosleep_enter(41u64 << 32, 42, 11, 22, &mut calls2);
    assert!(calls2.is_empty());
}

#[test]
fn attach_failure_message_is_copied() {
    let mut rec = vec![0u8; 8];
    rec.extend_from_slice(b"native and generic XDP can't be active at the same time\0");
    let data_loc: u32 = (56u32 << 16) | 8;
    let (r, buf) = tp__xdp__bpf_xdp_link_attach_failed(&rec, data_loc);
    assert_eq!(r, 0);
    assert_eq!(buf.len(), 64);
    assert_eq!(&buf[..55], &b"native and generic XDP can't be active at the same time"[..]);
    assert!(buf[55..].iter().all(|b| *b == 0));
    // a message longer than the buffer is cut to 63 bytes and NUL-terminated
    let mut long = vec![0u8; 4];
    long.extend_from_slice(&[b'x'; 100]);
    let (_, buf2) = tp__xdp__bpf_xdp_link_attach_failed(&long, 4);
    assert!(buf2[..63].iter().all(|b| *b == b'x'));
    assert_eq!(buf2[63], 0);
    // an offset past the record gives an empty message
    let (_, buf3) = tp__xdp__bpf_xdp_link_attach_failed(&long, 500);
    assert!(buf3.iter().all(|b| *b == 0));
}

#[test]
fn xdp_fentry_and_fexit() {
    let mut res: u64 = 0;
    let (r, flags, meta) = trace_on_entry(1, 74, &mut res);
    assert_eq!(r, 0);
    assert_eq!(flags, (74u64 << 32) | 0xffff_ffff);
    assert!(meta == XdpTraceMeta { ifindex: 1, pkt_len: 74 });
    assert_eq!(res, 1);
    let (_, _, _) = trace_on_entry(-2, 10, &mut res);
    assert_eq!(res, (-2i64) as u64);
    let mut out: u64 = 0;
    assert_eq!(trace_on_exit(2, &mut out), 0);
    assert_eq!(out, 2);
    trace_on_exit(0xffff_ffff, &mut out);
    assert_eq!(out, u64::MAX);
}

#[test]
fn no_op_programs_return_zero() {
    assert_eq!((main_prog(), oncpu(), handle_perf_event()), (0, 0, 0));
    assert_eq!((fentry_test(), fmod_ret_test(), fexit_test()), (0, 0, 0));
}
