use bpf_progs::timer::{
    cancel_self_callback, nmi_cancel, nmi_race, nmi_update, race_timer_callback, test1, test2, test4, test5,
    test_async_cancel_succeed, timer_error, update_self_callback, RaceCounters, TimerCall, TimerCallback, TimerGlobals,
    TimerMap, ARRAY, BPF_F_TIMER_ABS, BPF_F_TIMER_CPU_PIN, CLOCK_BOOTTIME, CLOCK_MONOTONIC, HTAB, HTAB_MALLOC, LRU,
};
use bpf_progs::timer_progs::{
    sys_enter, test1 as owner_test1, test_timer_interrupt, timer1_prog, timer2_prog, timer_cb, timer_cb1 as lockup_cb1,
    timer_cb2 as lockup_cb2, timer_in_interrupt, InterruptFlags, LockupErrs, OwnerAnswers, ProgCallback, ProgMap,
    ProgTimerCall,
};

fn globals() -> TimerGlobals {
    TimerGlobals {
        bss_data: 0,
        err: 0,
        ok: 0,
        callback_check: 52,
        callback2_check: 52,
        abs_data: 0,
        pinned_callback_check: 0,
        pinned_cpu: 0,
    }
}

#[test]
fn first_program_arms_array_timer() {
    let mut calls = Vec::new();
    assert_eq!(test1((true, true, true), &mut calls), 0);
    assert_eq!(calls.len(), 9);
    assert!(calls[0] == TimerCall::Lookup { map: TimerMap::Array, key: ARRAY });
    assert!(calls[2] == TimerCall::Update { map: TimerMap::Lru, key: LRU });
    assert!(calls[5] == TimerCall::SetCallbackOf { map: TimerMap::Array, key: ARRAY, cb: TimerCallback::ArrayLru });
    assert!(calls[6] == TimerCall::StartOf { map: TimerMap::Array, key: ARRAY, nsecs: 0, flags: 0 });
    assert!(calls[8] == TimerCall::Init { map: TimerMap::Array, clock: CLOCK_MONOTONIC });
    let mut short = Vec::new();
    test1((true, false, true), &mut short);
    assert_eq!(short.len(), 4);
}

#[test]
fn async_cancel_program() {
    let mut g = globals();
    let mut calls = Vec::new();
    assert_eq!(test_async_cancel_succeed(true, &mut g, &mut calls), 0);
    assert_eq!(g.ok, 7);
    assert!(calls[2] == TimerCall::SetCallback { cb: TimerCallback::Error });
    assert!(calls[3] == TimerCall::Start { nsecs: 100000, flags: 0 });
    assert!(calls[4] == TimerCall::CancelAsync);
    let mut g2 = globals();
    assert_eq!(timer_error(&mut g2), 0);
    assert_eq!(g2.err, 42);
}

#[test]
fn second_program_churns_then_arms_hash_timers() {
    let mut g = globals();
    let mut calls = Vec::new();
    assert_eq!(test2(&[true; 6], true, 0, true, -1, &mut g, &mut calls), 0);
    assert_eq!(g.err, 1024);
    // 4 + 4 + 7 + 7 churn calls, then two setups of 4 calls
    assert_eq!(calls.len(), 22 + 8);
    assert!(calls[0] == TimerCall::Update { map: TimerMap::Hmap, key: HTAB });
    assert!(calls[2] == TimerCall::Init { map: TimerMap::Hmap, clock: CLOCK_BOOTTIME });
    assert!(calls[4] == TimerCall::Update { map: TimerMap::HmapMalloc, key: HTAB_MALLOC });
    assert!(calls[11] == TimerCall::Delete { map: TimerMap::Hmap, key: 0 });
    assert!(calls[22] == TimerCall::Lookup { map: TimerMap::Hmap, key: HTAB });
}

#[test]
fn pinned_timer_programs() {
    let mut g = globals();
    let mut calls = Vec::new();
    test4(true, 0, 3, &mut g, &mut calls);
    assert_eq!(g.pinned_cpu, 3);
    assert!(calls[0] == TimerCall::TracePrintk { n: 4 });
    assert!(calls[4] == TimerCall::Start { nsecs: 1000, flags: BPF_F_TIMER_CPU_PIN });
    let mut calls5 = Vec::new();
    test5(500, true, 0, 2, &mut g, &mut calls5);
    assert!(calls5[0] == TimerCall::TracePrintk { n: 5 });
    assert!(calls5[4] == TimerCall::Start { nsecs: 1500, flags: BPF_F_TIMER_CPU_PIN | BPF_F_TIMER_ABS });
}

#[test]
fn race_callbacks_and_nmi_programs() {
    let mut calls = Vec::new();
    race_timer_callback(&mut calls);
    assert!(calls == vec![TimerCall::StartSelf { nsecs: 1_000_000 }]);
    let mut c = RaceCounters { test_hits: 0, update_hits: 0, cancel_hits: 0 };
    let mut u = Vec::new();
    update_self_callback(0, &mut c, &mut u);
    cancel_self_callback(&mut c, &mut u);
    assert_eq!((c.update_hits, c.cancel_hits), (1, 1));
    assert!(u == vec![TimerCall::Update { map: TimerMap::RaceArray, key: 0 }, TimerCall::CancelSelfAsync]);
    let mut n = Vec::new();
    nmi_race(true, 0, &mut c, &mut n);
    assert!(n.last() == Some(&TimerCall::CancelAsync));
    let mut n2 = Vec::new();
    nmi_update(true, -16, &mut c, &mut n2);
    assert!(n2[3] == TimerCall::SetCallback { cb: TimerCallback::UpdateSelf });
    let mut n3 = Vec::new();
    nmi_cancel(true, -22, &mut c, &mut n3);
    assert_eq!(n3.len(), 3);
    assert_eq!(c.test_hits, 3);
}

#[test]
fn crash_program_corrupts_then_cancels() {
    let mut calls = Vec::new();
    sys_enter(5, 5, 1, true, &mut calls);
    assert!(calls == vec![
        ProgTimerCall::UpdateCorrupted { map: ProgMap::Hmap, key: 0 },
        ProgTimerCall::Lookup { map: ProgMap::Hmap, key: 0 },
        ProgTimerCall::Cancel,
    ]);
    let mut calls2 = Vec::new();
    sys_enter(5, 5, 0, true, &mut calls2);
    assert!(calls2 == vec![ProgTimerCall::UpdateCorrupted { map: ProgMap::Amap, key: 0 }]);
    let mut calls3 = Vec::new();
    sys_enter(5, 6, 1, true, &mut calls3);
    assert!(calls3.is_empty());
}

#[test]
fn interrupt_flags_stay_clear() {
    let mut f = InterruptFlags { preempt_count: 9, in_interrupt: 9, in_interrupt_cb: 9 };
    let mut calls = Vec::new();
    test_timer_interrupt(true, &mut f, &mut calls);
    assert_eq!(f.in_interrupt, 0);
    assert!(calls[1] == ProgTimerCall::Init { owner: ProgMap::Array, clock: CLOCK_MONOTONIC });
    timer_in_interrupt(&mut f);
    assert_eq!((f.preempt_count, f.in_interrupt_cb), (0, 0));
}

#[test]
fn lockup_callbacks_cancel_each_other() {
    let mut e = LockupErrs { timer1_err: 0, timer2_err: 0 };
    let mut calls = Vec::new();
    lockup_cb1(true, -35, &mut e, &mut calls);
    assert_eq!(e.timer2_err, -35);
    assert!(calls == vec![ProgTimerCall::Lookup { map: ProgMap::Timer2Map, key: 0 }, ProgTimerCall::Cancel]);
    let mut calls2 = Vec::new();
    lockup_cb2(true, -35, &mut e, &mut calls2);
    assert_eq!(e.timer1_err, -35);
    let mut arm = Vec::new();
    timer1_prog(true, &mut arm);
    timer2_prog(false, &mut arm);
    assert!(arm[2] == ProgTimerCall::SetCallback { cb: ProgCallback::Lockup1 });
    assert!(arm[3] == ProgTimerCall::Start { nsecs: 1, flags: BPF_F_TIMER_CPU_PIN });
    assert_eq!(arm.len(), 5);
}

#[test]
fn owner_test_uses_the_other_inner_map() {
    let a = OwnerAnswers { inner1_found: true, inner2_found: true, elem_found: true, set_callback_ret: -22, start_ret: 0 };
    let mut err: u64 = 0;
    let mut calls = Vec::new();
    assert_eq!(owner_test1(&a, &mut err, &mut calls), 0);
    assert_eq!(err, 4);
    assert!(calls[3] == ProgTimerCall::Lookup { map: ProgMap::Inner { slot: 1 }, key: 1234 });
    assert!(calls[4] == ProgTimerCall::Init { owner: ProgMap::Inner { slot: 2 }, clock: CLOCK_MONOTONIC });
    assert_eq!(timer_cb(), 0);
}
