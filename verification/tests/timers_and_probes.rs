use bpf_progs::probes::{
    current_pid, handle_uprobe, handle_uprobe_byname, handle_uprobe_byname2, handle_uretprobe_byname, test1 as probe_test1,
    test3 as probe_test3, test_regs_change, test_regs_change_ip, AutoattachGlobals, UprobeGlobals,
};
use bpf_progs::timer::{
    bpf_in_interrupt, bpf_timer_test, elem_zero, get_preempt_count, hmap_elem, race, test3 as timer_test3, test_common,
    test_pinned_timer, timer_cb1, timer_cb2, timer_cb3, timer_cb_pinned, bpf_timer, TestMode, TimerAnswers, TimerCall,
    TimerCallback, TimerGlobals, TimerMap, ARRAY, HTAB, HTAB_MALLOC, LRU,
};

fn globals() -> TimerGlobals {
    TimerGlobals {
        bss_data: 0,
        err: 0,
        ok: 0,
        callback_check: 52,
        callback2_check: 52,
        abs_data: 0,
        pinned_callback_check: 0,
        pinned_cpu: 0,
    }
}

fn answers() -> TimerAnswers {
    TimerAnswers { array_found: true, cancel_array_ret: 1, cancel_self_ret: -35, start_self_ret: -22 }
}

#[test]
fn zero_element_and_context() {
    assert_eq!(elem_zero().t.opaque, [0, 0]);
    assert_eq!(get_preempt_count(), 0);
    assert_eq!(bpf_in_interrupt(), 0);
}

#[test]
fn htab_timer_counts_down() {
    let mut g = globals();
    let mut v = hmap_elem { counter: 3, timer: bpf_timer { opaque: [0, 0] } };
    let mut calls = Vec::new();
    timer_cb2(HTAB, &mut v, &mut g, &answers(), &mut calls);
    assert_eq!(v.counter, 2);
    assert_eq!(g.callback_check, 51);
    assert!(calls == vec![TimerCall::StartSelf { nsecs: 1000 }]);
    timer_cb2(HTAB, &mut v, &mut g, &answers(), &mut calls);
    timer_cb2(HTAB, &mut v, &mut g, &answers(), &mut calls);
    assert_eq!(v.counter, 0);
    // The last run checks the helpers' answers: all as expected, ok bit 2.
    assert_eq!(g.err, 0);
    assert_eq!(g.ok, 2);
    assert_eq!(calls.len(), 2 + 4);
    // With unexpected answers the error bits say which check failed.
    let mut g2 = globals();
    let mut v2 = hmap_elem { counter: 1, timer: bpf_timer { opaque: [0, 0] } };
    let bad = TimerAnswers { array_found: true, cancel_array_ret: 0, cancel_self_ret: 0, start_self_ret: 0 };
    timer_cb2(HTAB, &mut v2, &mut g2, &bad, &mut Vec::new());
    assert_eq!(g2.err, 8 | 16 | 32);
    let mut g3 = globals();
    let mut v3 = hmap_elem { counter: 1, timer: bpf_timer { opaque: [0, 0] } };
    timer_cb2(HTAB_MALLOC, &mut v3, &mut g3, &answers(), &mut Vec::new());
    assert_eq!((g3.err, g3.ok, g3.callback2_check), (0, 4, 51));
}

#[test]
fn array_timer_starts_lru_timer() {
    let mut g = globals();
    let mut calls = Vec::new();
    assert_eq!(timer_cb1(ARRAY, &mut g, 0, true, 0, 0, 0, &mut calls), 0);
    assert_eq!(g.bss_data, 5);
    assert!(calls[0] == TimerCall::StartSelf { nsecs: 1u64 << 35 });
    assert!(calls[2] == TimerCall::SetCallback { cb: TimerCallback::ArrayLru });
    assert!(calls[3] == TimerCall::Start { nsecs: 0, flags: 0 });
    let mut g2 = globals();
    timer_cb1(ARRAY, &mut g2, -1, true, -1, 0, 0, &mut Vec::new());
    assert_eq!(g2.err, 3);
}

#[test]
fn lru_timer_churns_until_reused() {
    let mut g = globals();
    let mut calls = Vec::new();
    timer_cb1(LRU, &mut g, 0, false, 0, 7, -22, &mut calls);
    // Keys 5, 6, 7 are added and looked up, then the cancel must fail.
    assert_eq!(calls.len(), 7);
    assert!(calls[0] == TimerCall::Update { map: TimerMap::Lru, key: 5 });
    assert!(calls[5] == TimerCall::Lookup { map: TimerMap::Lru, key: 7 });
    assert!(calls[6] == TimerCall::CancelSelf);
    assert_eq!((g.err, g.ok, g.bss_data), (0, 1, 5));
    // Never reused: keys 5 to 100.
    let mut g2 = globals();
    let mut c2 = Vec::new();
    timer_cb1(LRU, &mut g2, 0, false, 0, 0, 0, &mut c2);
    assert_eq!(c2.len(), 2 * 96 + 1);
    assert_eq!(g2.err, 4);
}

#[test]
fn absolute_and_pinned_timers() {
    let mut g = globals();
    let mut calls = Vec::new();
    timer_cb3(5000, &mut g, &mut calls);
    assert_eq!(g.abs_data, 6);
    assert!(calls[0] == TimerCall::StartSelfAbs { nsecs: 6000 });
    timer_cb3(5000, &mut g, &mut calls);
    assert_eq!(g.abs_data, 12);
    assert!(calls[1] == TimerCall::StartSelfAbs { nsecs: 5000 + (1u64 << 35) });
    let mut c = Vec::new();
    test_pinned_timer(false, 100, true, 0, 3, &mut g, &mut c);
    assert_eq!(g.pinned_cpu, 3);
    assert!(c[3] == TimerCall::Start { nsecs: 1100, flags: 3 });
    test_pinned_timer(true, 100, false, 0, 3, &mut g, &mut c);
    assert_eq!(g.err, 8192);
    timer_cb_pinned(4, &mut g);
    assert_eq!(g.err, 8192 | 16384);
    assert_eq!(g.pinned_callback_check, 1);
    let mut c3 = Vec::new();
    assert_eq!(timer_test3(10, true, -1, &mut g, &mut c3), 0);
    assert!(g.err & 2048 != 0);
    assert!(c3[0] == TimerCall::TracePrintk { n: 3 });
    assert!(c3[4] == TimerCall::Start { nsecs: 1010, flags: 1 });
}

#[test]
fn htab_setup_and_races() {
    let mut g = globals();
    let mut c = Vec::new();
    bpf_timer_test(true, -1, false, 0, &mut g, &mut c);
    assert_eq!(g.err, 512);
    assert_eq!(c.len(), 4 + 1);
    let mut r = Vec::new();
    test_common(TestMode::Update, true, -16, &mut r);
    assert!(r[3] == TimerCall::SetCallback { cb: TimerCallback::UpdateSelf });
    assert_eq!(r.len(), 5);
    let mut r2 = Vec::new();
    race(true, true, 0, &mut r2);
    assert!(r2.last() == Some(&TimerCall::CancelAsync));
    let mut r3 = Vec::new();
    race(false, true, -1, &mut r3);
    assert_eq!(r3.len(), 3);
}

fn uprobe_globals() -> UprobeGlobals {
    UprobeGlobals {
        my_pid: 42,
        test1_result: 0,
        test2_result: 0,
        test3_result: 0,
        test4_result: 0,
        regs: [0; 21],
        ip: 0,
    }
}

#[test]
fn uprobes_filter_by_pid() {
    assert_eq!(current_pid(42u64 << 32 | 7), 42);
    let mut g = uprobe_globals();
    probe_test1(41u64 << 32, &mut g);
    assert_eq!(g.test1_result, 0);
    probe_test1(42u64 << 32, &mut g);
    assert_eq!(g.test1_result, 1);
    let mut ctx = [0u64; 21];
    ctx[10] = 0xffff_ffff_0000_0009;
    probe_test3(42u64 << 32, &ctx, &mut g);
    assert_eq!(g.test3_result, 9);
}

#[test]
fn uprobes_change_registers() {
    let mut g = uprobe_globals();
    for i in 0..21 {
        g.regs[i] = 100 + i as u64;
    }
    g.ip = 0xdead;
    let mut ctx = [1u64; 21];
    test_regs_change(42u64 << 32, &mut ctx, &g);
    for i in 0..21 {
        let changed = [6, 7, 8, 9, 10, 11, 12, 13, 14].contains(&i);
        assert_eq!(ctx[i], if changed { 100 + i as u64 } else { 1 });
    }
    test_regs_change_ip(42u64 << 32, &mut ctx, &g);
    assert_eq!(ctx[16], 0xdead);
    let mut other = [1u64; 21];
    test_regs_change(1u64 << 32, &mut other, &g);
    assert_eq!(other, [1u64; 21]);
}

#[test]
fn autoattach_probes() {
    let mut g = AutoattachGlobals {
        uprobe_byname_parm1: 0,
        uprobe_byname_ran: 0,
        uretprobe_byname_rc: 0,
        uretprobe_byname_ret: 0,
        uretprobe_byname_ran: 0,
        uprobe_byname2_parm1: 0,
        uprobe_byname2_ran: 0,
        uretprobe_byname2_rc: 0,
        uretprobe_byname2_ran: 0,
        test_pid: 5,
        a: [0; 8],
    };
    let mut ctx = [0u64; 21];
    ctx[14] = 1;
    ctx[13] = 2;
    ctx[12] = 3;
    ctx[11] = 4;
    ctx[9] = 5;
    ctx[8] = 6;
    ctx[10] = 77;
    handle_uprobe_byname(&ctx, &mut g);
    assert_eq!(g.a, [1, 2, 3, 4, 5, 6, 0, 0]);
    assert_eq!((g.uprobe_byname_parm1, g.uprobe_byname_ran), (1, 1));
    handle_uretprobe_byname(&ctx, &mut g);
    assert_eq!((g.uretprobe_byname_rc, g.uretprobe_byname_ret, g.uretprobe_byname_ran), (77, 77, 2));
    handle_uprobe_byname2(4u64 << 32, &ctx, &mut g);
    assert_eq!(g.uprobe_byname2_ran, 0);
    handle_uprobe_byname2(5u64 << 32, &ctx, &mut g);
    assert_eq!((g.uprobe_byname2_parm1, g.uprobe_byname2_ran), (1, 3));
    let mut res: i32 = 0;
    handle_uprobe(0, -14, &mut res);
    assert_eq!(res, 0);
    handle_uprobe(0, 0, &mut res);
    assert_eq!(res, 1);
}
