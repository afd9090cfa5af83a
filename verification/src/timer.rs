//! Timer callbacks of the timer tests: each callback counts its runs and
//! checks what the timer helpers answer, recording failures as bits of an
//! error word and completions as bits of an "ok" word.
use vstd::prelude::*;

verus! {

pub const ARRAY: i32 = 1;
pub const HTAB: i32 = 2;
pub const HTAB_MALLOC: i32 = 3;
pub const LRU: i32 = 4;
pub const EINVAL: i64 = 22;
pub const EBUSY: i64 = 16;
pub const EDEADLK: i64 = 35;
pub const CLOCK_MONOTONIC: u64 = 1;
pub const CLOCK_BOOTTIME: u64 = 7;
pub const BPF_F_TIMER_ABS: u64 = 1;
pub const BPF_F_TIMER_CPU_PIN: u64 = 2;

/// A timer's opaque storage.
#[derive(Clone, Copy)]
pub struct bpf_timer {
    pub opaque: [u64; 2],
}

/// An array element: one timer.
#[derive(Clone, Copy)]
pub struct elem {
    pub t: bpf_timer,
}

/// A hash-table element: a countdown and a timer.
#[derive(Clone, Copy)]
pub struct hmap_elem {
    pub counter: i32,
    pub timer: bpf_timer,
}

/// The tests' counters.
#[derive(Clone, Copy)]
pub struct TimerGlobals {
    pub bss_data: u64,
    pub err: u64,
    pub ok: u64,
    pub callback_check: u64,
    pub callback2_check: u64,
    pub abs_data: u64,
    pub pinned_callback_check: u64,
    pub pinned_cpu: i32,
}

/// The maps that hold the tests' timers.
#[derive(Clone, Copy, PartialEq, Eq, Structural)]
pub enum TimerMap {
    Array,
    Lru,
    Hmap,
    HmapMalloc,
    AbsTimer,
    SoftTimerPinned,
    AbsTimerPinned,
    RaceArray,
}

/// The callbacks a timer can be given.
#[derive(Clone, Copy, PartialEq, Eq, Structural)]
pub enum TimerCallback {
    ArrayLru,
    Htab,
    Abs,
    Pinned,
    Race,
    UpdateSelf,
    CancelSelf,
    /// The callback that must never run: it sets the error word to 42.
    Error,
}

/// A timer helper call of a callback.
#[derive(Clone, Copy, PartialEq, Eq, Structural)]
pub enum TimerCall {
    /// The element's own timer is started again after `nsecs`.
    StartSelf { nsecs: u64 },
    /// The array timer is cancelled.
    CancelArrayTimer,
    /// The element's own timer is cancelled.
    CancelSelf,
    /// The element is deleted.
    DeleteSelf,
    /// An element of `map` is looked up (and its timer used next).
    Lookup { map: TimerMap, key: i32 },
    /// An element of `map` is set to the program's initial value (a zero
    /// timer; for the hash tables, a countdown of 10).
    Update { map: TimerMap, key: i32 },
    /// An element of `map` is deleted.
    Delete { map: TimerMap, key: i32 },
    /// The timer looked up last is initialised on `map`'s clock `clock`.
    Init { map: TimerMap, clock: u64 },
    /// The timer looked up last gets callback `cb`.
    SetCallback { cb: TimerCallback },
    /// The timer looked up last is started.
    Start { nsecs: u64, flags: u64 },
    /// The timer looked up last is cancelled (waiting, or not).
    Cancel,
    CancelAsync,
    /// The callback's own timer is started at the absolute time `nsecs`.
    StartSelfAbs { nsecs: u64 },
    /// The callback's own timer is cancelled without waiting.
    CancelSelfAsync,
    /// The timer of `key` in `map` (not the one looked up last) gets
    /// callback `cb`.
    SetCallbackOf { map: TimerMap, key: i32, cb: TimerCallback },
    /// The timer of `key` in `map` (not the one looked up last) is started.
    StartOf { map: TimerMap, key: i32, nsecs: u64, flags: u64 },
    /// The program's name, "test" and the digit `n`, is written to the
    /// trace log.
    TracePrintk { n: u8 },
}

/// The counters of the race tests.
#[derive(Clone, Copy)]
pub struct RaceCounters {
    pub test_hits: u64,
    pub update_hits: u64,
    pub cancel_hits: u64,
}

/// What the timer helpers answer to a callback.
#[derive(Clone, Copy)]
pub struct TimerAnswers {
    /// Whether the array timer's element is found.
    pub array_found: bool,
    pub cancel_array_ret: i64,
    pub cancel_self_ret: i64,
    pub start_self_ret: i64,
}

/// An element with a zero timer.
pub fn elem_zero() -> (r: elem)
    ensures
        r.t.opaque@ == seq![0u64, 0u64],
{
    let r = elem { t: bpf_timer { opaque: [0, 0] } };
    assert(r.t.opaque@ =~= seq![0u64, 0u64]);
    r
}

/// The preemption count the programs see: always 0 here.
pub fn get_preempt_count() -> (r: i32)
    ensures
        r == 0,
{
    0
}

/// Whether the program runs in interrupt context: the preemption count.
pub fn bpf_in_interrupt() -> (r: i32)
    ensures
        r == 0,
{
    get_preempt_count()
}

/// The callback of the hash-table timers on the element of `key` with
/// countdown `counter`: counts the run; while the countdown is not done the
/// timer is restarted; else, for the preallocated table, the array timer is
/// cancelled (it must have been active) and the element's own timer must
/// refuse to cancel itself, the element is deleted and its timer must then
/// refuse to start; for the other table the same but for the array timer.
pub open spec fn spec_timer_cb2(key: i32, counter: i32, g: TimerGlobals, a: TimerAnswers) -> (i32, TimerGlobals, Seq<TimerCall>) {
    let g1 = if key == HTAB {
        TimerGlobals { callback_check: vstd::wrapping::u64_specs::wrapping_sub(g.callback_check, 1), ..g }
    } else {
        TimerGlobals { callback2_check: vstd::wrapping::u64_specs::wrapping_sub(g.callback2_check, 1), ..g }
    };
    let c1: i32 = if counter > 0 { (counter - 1) as i32 } else { counter };
    let rearm = counter > 0 && c1 != 0;
    if rearm {
        (c1, g1, seq![TimerCall::StartSelf { nsecs: 1000 }])
    } else if key == HTAB {
        if !a.array_found {
            (c1, g1, seq![])
        } else {
            let e1 = if a.cancel_array_ret != 1 { g1.err | 8 } else { g1.err };
            let e2 = if a.cancel_self_ret != -EDEADLK { e1 | 16 } else { e1 };
            let e3 = if a.start_self_ret != -EINVAL { e2 | 32 } else { e2 };
            (c1, TimerGlobals { err: e3, ok: g1.ok | 2, ..g1 }, seq![
                TimerCall::CancelArrayTimer,
                TimerCall::CancelSelf,
                TimerCall::DeleteSelf,
                TimerCall::StartSelf { nsecs: 1000 },
            ])
        }
    } else {
        let e1 = if key != HTAB_MALLOC { g1.err | 64 } else { g1.err };
        let e2 = if a.cancel_self_ret != -EDEADLK { e1 | 128 } else { e1 };
        (c1, TimerGlobals { err: e2, ok: g1.ok | 4, ..g1 }, seq![TimerCall::CancelSelf, TimerCall::DeleteSelf])
    }
}

/// The hash-table timer callback (see [`spec_timer_cb2`]); returns 0.
pub fn timer_cb2(key: i32, val: &mut hmap_elem, g: &mut TimerGlobals, a: &TimerAnswers, calls: &mut Vec<TimerCall>) -> (r: i64)
    ensures
        r == 0,
        ({
            let (c, g1, cs) = spec_timer_cb2(key, old(val).counter, *old(g), *a);
            &&& final(val).counter == c
            &&& final(val).timer == old(val).timer
            &&& *final(g) == g1
            &&& final(calls)@ == old(calls)@ + cs
        }),
{
    if key == HTAB {
        g.callback_check = g.callback_check.wrapping_sub(1);
    } else {
        g.callback2_check = g.callback2_check.wrapping_sub(1);
    }
    let mut rearm = false;
    if val.counter > 0 {
        val.counter = val.counter - 1;
        if val.counter != 0 {
            rearm = true;
        }
    }
    if rearm {
        calls.push(TimerCall::StartSelf { nsecs: 1000 });
    } else if key == HTAB {
        if !a.array_found {
            assert(calls@ =~= old(calls)@ + seq![]);
            return 0;
        }
        calls.push(TimerCall::CancelArrayTimer);
        if a.cancel_array_ret != 1 {
            g.err = g.err | 8;
        }
        calls.push(TimerCall::CancelSelf);
        if a.cancel_self_ret != -EDEADLK {
            g.err = g.err | 16;
        }
        calls.push(TimerCall::DeleteSelf);
        calls.push(TimerCall::StartSelf { nsecs: 1000 });
        if a.start_self_ret != -EINVAL {
            g.err = g.err | 32;
        }
        g.ok = g.ok | 2;
    } else {
        if key != HTAB_MALLOC {
            g.err = g.err | 64;
        }
        calls.push(TimerCall::CancelSelf);
        if a.cancel_self_ret != -EDEADLK {
            g.err = g.err | 128;
        }
        calls.push(TimerCall::DeleteSelf);
        g.ok = g.ok | 4;
    }
    assert(calls@ =~= old(calls)@ + spec_timer_cb2(key, old(val).counter, *old(g), *a).2);
    0
}

/// Countdown law: a timer whose countdown starts at `n > 0` is restarted
/// exactly while the countdown has not reached zero, and the countdown
/// drops by one each run.
pub proof fn lemma_countdown(key: i32, n: i32, g: TimerGlobals, a: TimerAnswers)
    requires
        n > 0,
    ensures
        spec_timer_cb2(key, n, g, a).0 == n - 1,
        (spec_timer_cb2(key, n, g, a).2 == seq![TimerCall::StartSelf { nsecs: 1000 }]) <==> n > 1,
{
    if n == 1 {
        let cs = spec_timer_cb2(key, n, g, a).2;
        if key == HTAB && a.array_found {
            assert(cs.len() == 4);
        } else if key == HTAB {
            assert(cs.len() == 0);
        } else {
            assert(cs.len() == 2);
        }
    }
}


/// The calls that set up a timer just looked up in `map`: initialise it on
/// `clock`, give it `cb`, start it.
pub open spec fn setup_calls(map: TimerMap, clock: u64, cb: TimerCallback, nsecs: u64, flags: u64) -> Seq<TimerCall> {
    seq![
        TimerCall::Init { map, clock },
        TimerCall::SetCallback { cb },
        TimerCall::Start { nsecs, flags },
    ]
}

/// The updates and lookups of keys 5, 6, ... that push out an LRU element:
/// `n` of each, alternating.
pub open spec fn lru_churn_calls(n: int) -> Seq<TimerCall> {
    Seq::new((2 * n) as nat, |j: int|
        if j % 2 == 0 {
            TimerCall::Update { map: TimerMap::Lru, key: (5 + j / 2) as i32 }
        } else {
            TimerCall::Lookup { map: TimerMap::Lru, key: (5 + j / 2) as i32 }
        })
}

/// The last key the churn adds: the one whose insertion reused the
/// callback's element (`reuse_at`, as the kernel's LRU decides), or 100.
pub open spec fn churn_last(reuse_at: i32) -> i32 {
    if 5 <= reuse_at <= 100 { reuse_at } else { 100i32 }
}

/// The callback of the array and LRU timers on key `key`: counts 5; the
/// array timer restarts itself (~35 s; `start_self_ret` answers, nonzero
/// sets error bit 1) and starts the LRU timer at once if it is found
/// (`lru_start_ret` nonzero sets bit 2); the LRU timer adds keys until its
/// own element is pushed out (`reuse_at`), then must find itself gone
/// (cancel answering `-EINVAL`, else bit 4) and sets ok bit 1.
pub open spec fn spec_timer_cb1(key: i32, g: TimerGlobals, start_self_ret: i64, lru_found: bool, lru_start_ret: i64, reuse_at: i32, cancel_ret: i64) -> (TimerGlobals, Seq<TimerCall>) {
    let g1 = TimerGlobals { bss_data: vstd::wrapping::u64_specs::wrapping_add(g.bss_data, 5), ..g };
    if key == ARRAY {
        let e1 = if start_self_ret != 0 { g1.err | 1 } else { g1.err };
        let c1 = seq![TimerCall::StartSelf { nsecs: 1u64 << 35u64 }, TimerCall::Lookup { map: TimerMap::Lru, key: LRU }];
        if !lru_found {
            (TimerGlobals { err: e1, ..g1 }, c1)
        } else {
            let e2 = if lru_start_ret != 0 { e1 | 2 } else { e1 };
            (TimerGlobals { err: e2, ..g1 }, c1 + seq![
                TimerCall::SetCallback { cb: TimerCallback::ArrayLru },
                TimerCall::Start { nsecs: 0, flags: 0 },
            ])
        }
    } else if key == LRU {
        let e1 = if cancel_ret != -EINVAL { g1.err | 4 } else { g1.err };
        (TimerGlobals { err: e1, ok: g1.ok | 1, ..g1 }, lru_churn_calls(churn_last(reuse_at) - 4).push(TimerCall::CancelSelf))
    } else {
        (g1, seq![])
    }
}

proof fn lemma_churn_step(n: int)
    requires
        0 <= n,
    ensures
        lru_churn_calls(n + 1) == lru_churn_calls(n)
            .push(TimerCall::Update { map: TimerMap::Lru, key: (5 + n) as i32 })
            .push(TimerCall::Lookup { map: TimerMap::Lru, key: (5 + n) as i32 }),
{
    let a = lru_churn_calls(n + 1);
    let b = lru_churn_calls(n)
        .push(TimerCall::Update { map: TimerMap::Lru, key: (5 + n) as i32 })
        .push(TimerCall::Lookup { map: TimerMap::Lru, key: (5 + n) as i32 });
    assert forall|j: int| 0 <= j < a.len() implies a[j] == b[j] by {
        if j < 2 * n {
        } else if j == 2 * n {
            assert(j % 2 == 0 && j / 2 == n);
        } else {
            assert(j % 2 == 1 && j / 2 == n);
        }
    }
    assert(a =~= b);
}

/// The array and LRU timer callback (see [`spec_timer_cb1`]); returns 0.
pub fn timer_cb1(key: i32, g: &mut TimerGlobals, start_self_ret: i64, lru_found: bool, lru_start_ret: i64, reuse_at: i32, cancel_ret: i64, calls: &mut Vec<TimerCall>) -> (r: i64)
    ensures
        r == 0,
        ({
            let (g1, cs) = spec_timer_cb1(key, *old(g), start_self_ret, lru_found, lru_start_ret, reuse_at, cancel_ret);
            &&& *final(g) == g1
            &&& final(calls)@ == old(calls)@ + cs
        }),
{
    let ghost c0 = calls@;
    g.bss_data = g.bss_data.wrapping_add(5);
    if key == ARRAY {
        calls.push(TimerCall::StartSelf { nsecs: 1u64 << 35u64 });
        if start_self_ret != 0 {
            g.err = g.err | 1;
        }
        calls.push(TimerCall::Lookup { map: TimerMap::Lru, key: LRU });
        if !lru_found {
            assert(calls@ =~= c0 + spec_timer_cb1(key, *old(g), start_self_ret, lru_found, lru_start_ret, reuse_at, cancel_ret).1);
            return 0;
        }
        calls.push(TimerCall::SetCallback { cb: TimerCallback::ArrayLru });
        calls.push(TimerCall::Start { nsecs: 0, flags: 0 });
        if lru_start_ret != 0 {
            g.err = g.err | 2;
        }
    } else if key == LRU {
        let mut i: i32 = 5;
        let mut done = false;
        assert(lru_churn_calls(0) =~= seq![]);
        assert(calls@ =~= c0 + lru_churn_calls(0));
        while !done && i <= 100
            invariant
                5 <= i <= 101,
                calls@ == c0 + lru_churn_calls((i - 5) as int),
                done ==> i - 1 == reuse_at && 5 <= reuse_at <= 100,
                !done ==> !(5 <= reuse_at < i),
            decreases 101 - i + (if done { 0int } else { 1int }),
        {
            proof {
                lemma_churn_step((i - 5) as int);
            }
            calls.push(TimerCall::Update { map: TimerMap::Lru, key: i });
            calls.push(TimerCall::Lookup { map: TimerMap::Lru, key: i });
            assert(calls@ =~= c0 + lru_churn_calls((i + 1 - 5) as int));
            if i == reuse_at {
                done = true;
            }
            i += 1;
        }
        assert(i - 5 == churn_last(reuse_at) - 4);
        calls.push(TimerCall::CancelSelf);
        if cancel_ret != -EINVAL {
            g.err = g.err | 4;
        }
        g.ok = g.ok | 1;
    }
    assert(calls@ =~= c0 + spec_timer_cb1(key, *old(g), start_self_ret, lru_found, lru_start_ret, reuse_at, cancel_ret).1);
    0
}

/// The callback of the absolute timer at time `now`: counts 6 and starts
/// itself again 1 µs later while the count is under 12, ~35 s later after.
pub open spec fn spec_timer_cb3(now: u64, g: TimerGlobals) -> (TimerGlobals, TimerCall) {
    let d = vstd::wrapping::u64_specs::wrapping_add(g.abs_data, 6);
    let at = if d < 12 {
        vstd::wrapping::u64_specs::wrapping_add(now, 1000)
    } else {
        vstd::wrapping::u64_specs::wrapping_add(now, 1u64 << 35u64)
    };
    (TimerGlobals { abs_data: d, ..g }, TimerCall::StartSelfAbs { nsecs: at })
}

/// The absolute timer's callback (see [`spec_timer_cb3`]); returns 0.
pub fn timer_cb3(now: u64, g: &mut TimerGlobals, calls: &mut Vec<TimerCall>) -> (r: i64)
    ensures
        r == 0,
        *final(g) == spec_timer_cb3(now, *old(g)).0,
        final(calls)@ == old(calls)@.push(spec_timer_cb3(now, *old(g)).1),
{
    g.abs_data = g.abs_data.wrapping_add(6);
    if g.abs_data < 12 {
        calls.push(TimerCall::StartSelfAbs { nsecs: now.wrapping_add(1000) });
    } else {
        calls.push(TimerCall::StartSelfAbs { nsecs: now.wrapping_add(1u64 << 35u64) });
    }
    0
}

/// The callback of the pinned timers, run on CPU `cpu`: a CPU other than
/// the one it was pinned to sets error bit 16384; each run is counted.
pub fn timer_cb_pinned(cpu: u32, g: &mut TimerGlobals) -> (r: i64)
    ensures
        r == 0,
        *final(g) == (TimerGlobals {
            err: if cpu as i32 != old(g).pinned_cpu { old(g).err | 16384 } else { old(g).err },
            pinned_callback_check: vstd::wrapping::u64_specs::wrapping_add(old(g).pinned_callback_check, 1),
            ..*old(g)
        }),
{
    if cpu as i32 != g.pinned_cpu {
        g.err = g.err | 16384;
    }
    g.pinned_callback_check = g.pinned_callback_check.wrapping_add(1);
    0
}

/// Setting up a pinned timer (`soft`: relative, else absolute from `now`),
/// on CPU `cpu`: a missing timer sets error bit 8192; a failed
/// initialisation (`init_ret`) bit 4096; the timer is pinned to `cpu` and
/// started 1 µs out.
pub open spec fn spec_test_pinned_timer(soft: bool, now: u64, found: bool, init_ret: i64, cpu: u32, g: TimerGlobals) -> (TimerGlobals, Seq<TimerCall>) {
    let map = if soft { TimerMap::SoftTimerPinned } else { TimerMap::AbsTimerPinned };
    let start: u64 = if soft { 0 } else { now };
    let flags: u64 = if soft { BPF_F_TIMER_CPU_PIN } else { BPF_F_TIMER_CPU_PIN | BPF_F_TIMER_ABS };
    let lookup = seq![TimerCall::Lookup { map, key: 0 }];
    if found {
        let e = if init_ret != 0 { g.err | 4096 } else { g.err };
        (TimerGlobals { err: e, pinned_cpu: cpu as i32, ..g },
            lookup + setup_calls(map, CLOCK_BOOTTIME, TimerCallback::Pinned, vstd::wrapping::u64_specs::wrapping_add(start, 1000), flags))
    } else {
        (TimerGlobals { err: g.err | 8192, ..g }, lookup)
    }
}

/// Sets up a pinned timer (see [`spec_test_pinned_timer`]).
pub fn test_pinned_timer(soft: bool, now: u64, found: bool, init_ret: i64, cpu: u32, g: &mut TimerGlobals, calls: &mut Vec<TimerCall>)
    ensures
        ({
            let (g1, cs) = spec_test_pinned_timer(soft, now, found, init_ret, cpu, *old(g));
            &&& *final(g) == g1
            &&& final(calls)@ == old(calls)@ + cs
        }),
{
    let ghost c0 = calls@;
    let map = if soft { TimerMap::SoftTimerPinned } else { TimerMap::AbsTimerPinned };
    let start_time: u64 = if soft { 0 } else { now };
    let mut flags: u64 = BPF_F_TIMER_CPU_PIN;
    if !soft {
        flags = flags | BPF_F_TIMER_ABS;
    }
    calls.push(TimerCall::Lookup { map, key: 0 });
    if found {
        calls.push(TimerCall::Init { map, clock: CLOCK_BOOTTIME });
        if init_ret != 0 {
            g.err = g.err | 4096;
        }
        calls.push(TimerCall::SetCallback { cb: TimerCallback::Pinned });
        g.pinned_cpu = cpu as i32;
        calls.push(TimerCall::Start { nsecs: start_time.wrapping_add(1000), flags });
    } else {
        g.err = g.err | 8192;
    }
    assert(calls@ =~= c0 + spec_test_pinned_timer(soft, now, found, init_ret, cpu, *old(g)).1);
}

/// Setting up the absolute timer at time `now`, after writing the
/// program's name, "test3", to the trace log: a failed initialisation
/// sets error bit 2048; it is started 1 µs out.  Returns 0.
pub fn test3(now: u64, found: bool, init_ret: i64, g: &mut TimerGlobals, calls: &mut Vec<TimerCall>) -> (r: i32)
    ensures
        r == 0,
        *final(g) == (TimerGlobals { err: if found && init_ret != 0 { old(g).err | 2048 } else { old(g).err }, ..*old(g) }),
        final(calls)@ == old(calls)@ + seq![TimerCall::TracePrintk { n: 3 }, TimerCall::Lookup { map: TimerMap::AbsTimer, key: 0 }] + (if found {
            setup_calls(TimerMap::AbsTimer, CLOCK_BOOTTIME, TimerCallback::Abs, vstd::wrapping::u64_specs::wrapping_add(now, 1000), BPF_F_TIMER_ABS)
        } else {
            seq![]
        }),
{
    let ghost c0 = calls@;
    calls.push(TimerCall::TracePrintk { n: 3 });
    calls.push(TimerCall::Lookup { map: TimerMap::AbsTimer, key: 0 });
    if found {
        calls.push(TimerCall::Init { map: TimerMap::AbsTimer, clock: CLOCK_BOOTTIME });
        if init_ret != 0 {
            g.err = g.err | 2048;
        }
        calls.push(TimerCall::SetCallback { cb: TimerCallback::Abs });
        calls.push(TimerCall::Start { nsecs: now.wrapping_add(1000), flags: BPF_F_TIMER_ABS });
    }
    assert(calls@ =~= c0 + seq![TimerCall::TracePrintk { n: 3 }, TimerCall::Lookup { map: TimerMap::AbsTimer, key: 0 }] + (if found {
        setup_calls(TimerMap::AbsTimer, CLOCK_BOOTTIME, TimerCallback::Abs, vstd::wrapping::u64_specs::wrapping_add(now, 1000), BPF_F_TIMER_ABS)
    } else {
        seq![]
    }));
    0
}

/// The calls that set up one hash-table timer, if its element is found.
pub open spec fn htab_setup(map: TimerMap, key: i32, found: bool) -> Seq<TimerCall> {
    seq![TimerCall::Lookup { map, key }] + if found {
        setup_calls(map, CLOCK_BOOTTIME, TimerCallback::Htab, 1000, 0)
    } else {
        seq![]
    }
}

/// Sets up the timers of both hash tables (preallocated: error bit 512
/// where initialisation fails; allocated on demand: bit 1024).  Returns 0.
pub fn bpf_timer_test(htab_found: bool, htab_init_ret: i64, malloc_found: bool, malloc_init_ret: i64, g: &mut TimerGlobals, calls: &mut Vec<TimerCall>) -> (r: i32)
    ensures
        r == 0,
        *final(g) == (TimerGlobals {
            err: ({
                let e1 = if htab_found && htab_init_ret != 0 { old(g).err | 512 } else { old(g).err };
                if malloc_found && malloc_init_ret != 0 { e1 | 1024 } else { e1 }
            }),
            ..*old(g)
        }),
        final(calls)@ == old(calls)@ + htab_setup(TimerMap::Hmap, HTAB, htab_found) + htab_setup(TimerMap::HmapMalloc, HTAB_MALLOC, malloc_found),
{
    let ghost c0 = calls@;
    calls.push(TimerCall::Lookup { map: TimerMap::Hmap, key: HTAB });
    if htab_found {
        calls.push(TimerCall::Init { map: TimerMap::Hmap, clock: CLOCK_BOOTTIME });
        if htab_init_ret != 0 {
            g.err = g.err | 512;
        }
        calls.push(TimerCall::SetCallback { cb: TimerCallback::Htab });
        calls.push(TimerCall::Start { nsecs: 1000, flags: 0 });
    }
    let ghost c1 = calls@;
    assert(c1 =~= c0 + htab_setup(TimerMap::Hmap, HTAB, htab_found));
    calls.push(TimerCall::Lookup { map: TimerMap::HmapMalloc, key: HTAB_MALLOC });
    if malloc_found {
        calls.push(TimerCall::Init { map: TimerMap::HmapMalloc, clock: CLOCK_BOOTTIME });
        if malloc_init_ret != 0 {
            g.err = g.err | 1024;
        }
        calls.push(TimerCall::SetCallback { cb: TimerCallback::Htab });
        calls.push(TimerCall::Start { nsecs: 1000, flags: 0 });
    }
    assert(calls@ =~= c1 + htab_setup(TimerMap::HmapMalloc, HTAB_MALLOC, malloc_found));
    0
}

/// How a race test treats its timer after starting it.
#[derive(Clone, Copy, PartialEq, Eq, Structural)]
pub enum TestMode {
    RaceSync,
    RaceAsync,
    Update,
    Cancel,
}

pub open spec fn mode_callback(mode: TestMode) -> TimerCallback {
    match mode {
        TestMode::RaceSync => TimerCallback::Race,
        TestMode::RaceAsync => TimerCallback::Race,
        TestMode::Update => TimerCallback::UpdateSelf,
        TestMode::Cancel => TimerCallback::CancelSelf,
    }
}

/// One run of a race test: the element is reset and looked up; a found
/// timer that initialises (or was already initialised: `-EBUSY`) gets the
/// mode's callback and starts at once, and is then cancelled for the race
/// modes (waiting or not).
pub open spec fn spec_test_common(mode: TestMode, found: bool, init_ret: i64) -> Seq<TimerCall> {
    let c0 = seq![TimerCall::Update { map: TimerMap::RaceArray, key: 0 }, TimerCall::Lookup { map: TimerMap::RaceArray, key: 0 }];
    if !found {
        c0
    } else if init_ret != 0 && init_ret != -EBUSY {
        c0.push(TimerCall::Init { map: TimerMap::RaceArray, clock: CLOCK_MONOTONIC })
    } else {
        let c1 = c0 + setup_calls(TimerMap::RaceArray, CLOCK_MONOTONIC, mode_callback(mode), 0, 0);
        match mode {
            TestMode::RaceAsync => c1.push(TimerCall::CancelAsync),
            TestMode::RaceSync => c1.push(TimerCall::Cancel),
            _ => c1,
        }
    }
}

/// A race test's run (see [`spec_test_common`]); returns 0.
pub fn test_common(mode: TestMode, found: bool, init_ret: i64, calls: &mut Vec<TimerCall>) -> (r: i32)
    ensures
        r == 0,
        final(calls)@ == old(calls)@ + spec_test_common(mode, found, init_ret),
{
    let ghost c0 = calls@;
    calls.push(TimerCall::Update { map: TimerMap::RaceArray, key: 0 });
    calls.push(TimerCall::Lookup { map: TimerMap::RaceArray, key: 0 });
    if !found {
        assert(calls@ =~= c0 + spec_test_common(mode, found, init_ret));
        return 0;
    }
    calls.push(TimerCall::Init { map: TimerMap::RaceArray, clock: CLOCK_MONOTONIC });
    if init_ret != 0 && init_ret != -EBUSY {
        assert(calls@ =~= c0 + spec_test_common(mode, found, init_ret));
        return 0;
    }
    let cb = match mode {
        TestMode::RaceSync => TimerCallback::Race,
        TestMode::RaceAsync => TimerCallback::Race,
        TestMode::Update => TimerCallback::UpdateSelf,
        TestMode::Cancel => TimerCallback::CancelSelf,
    };
    calls.push(TimerCall::SetCallback { cb });
    calls.push(TimerCall::Start { nsecs: 0, flags: 0 });
    match mode {
        TestMode::RaceAsync => {
            calls.push(TimerCall::CancelAsync);
        },
        TestMode::RaceSync => {
            calls.push(TimerCall::Cancel);
        },
        _ => {},
    }
    assert(calls@ =~= c0 + spec_test_common(mode, found, init_ret));
    0
}

/// The race program: asynchronous or waiting cancel, as set.
pub fn race(async_cancel: bool, found: bool, init_ret: i64, calls: &mut Vec<TimerCall>) -> (r: i32)
    ensures
        r == 0,
        final(calls)@ == old(calls)@ + spec_test_common(if async_cancel { TestMode::RaceAsync } else { TestMode::RaceSync }, found, init_ret),
{
    let mode = if async_cancel { TestMode::RaceAsync } else { TestMode::RaceSync };
    test_common(mode, found, init_ret, calls)
}

/// The first program: initialises the array timer of key 1 and the LRU
/// timer (after adding the LRU element), starts the array timer at once
/// with the array/LRU callback, and initialises the array timer of key 0
/// too.  `found` answers the three lookups in turn.
pub open spec fn spec_test1(found: (bool, bool, bool)) -> Seq<TimerCall> {
    let c1 = seq![TimerCall::Lookup { map: TimerMap::Array, key: ARRAY }];
    let c2 = c1 + seq![
        TimerCall::Init { map: TimerMap::Array, clock: CLOCK_MONOTONIC },
        TimerCall::Update { map: TimerMap::Lru, key: LRU },
        TimerCall::Lookup { map: TimerMap::Lru, key: LRU },
    ];
    let c3 = c2 + seq![
        TimerCall::Init { map: TimerMap::Lru, clock: CLOCK_MONOTONIC },
        TimerCall::SetCallbackOf { map: TimerMap::Array, key: ARRAY, cb: TimerCallback::ArrayLru },
        TimerCall::StartOf { map: TimerMap::Array, key: ARRAY, nsecs: 0, flags: 0 },
        TimerCall::Lookup { map: TimerMap::Array, key: 0 },
    ];
    if !found.0 {
        c1
    } else if !found.1 {
        c2
    } else if !found.2 {
        c3
    } else {
        c3.push(TimerCall::Init { map: TimerMap::Array, clock: CLOCK_MONOTONIC })
    }
}

/// The first program (see [`spec_test1`]); returns 0.
pub fn test1(found: (bool, bool, bool), calls: &mut Vec<TimerCall>) -> (r: i32)
    ensures
        r == 0,
        final(calls)@ == old(calls)@ + spec_test1(found),
{
    let ghost c0 = calls@;
    calls.push(TimerCall::Lookup { map: TimerMap::Array, key: ARRAY });
    if !found.0 {
        assert(calls@ =~= c0 + spec_test1(found));
        return 0;
    }
    calls.push(TimerCall::Init { map: TimerMap::Array, clock: CLOCK_MONOTONIC });
    calls.push(TimerCall::Update { map: TimerMap::Lru, key: LRU });
    calls.push(TimerCall::Lookup { map: TimerMap::Lru, key: LRU });
    if !found.1 {
        assert(calls@ =~= c0 + spec_test1(found));
        return 0;
    }
    calls.push(TimerCall::Init { map: TimerMap::Lru, clock: CLOCK_MONOTONIC });
    calls.push(TimerCall::SetCallbackOf { map: TimerMap::Array, key: ARRAY, cb: TimerCallback::ArrayLru });
    calls.push(TimerCall::StartOf { map: TimerMap::Array, key: ARRAY, nsecs: 0, flags: 0 });
    calls.push(TimerCall::Lookup { map: TimerMap::Array, key: 0 });
    if !found.2 {
        assert(calls@ =~= c0 + spec_test1(found));
        return 0;
    }
    calls.push(TimerCall::Init { map: TimerMap::Array, clock: CLOCK_MONOTONIC });
    assert(calls@ =~= c0 + spec_test1(found));
    0
}

/// The callback that must never run: sets the error word to 42.
pub fn timer_error(g: &mut TimerGlobals) -> (r: i64)
    ensures
        r == 0,
        *final(g) == (TimerGlobals { err: 42, ..*old(g) }),
{
    g.err = 42;
    0
}

/// The program whose timer is cancelled, without waiting, right after it
/// is started 100 µs out with [`timer_error`]; it then sets the ok word to
/// 7.  Returns 0.
pub fn test_async_cancel_succeed(found: bool, g: &mut TimerGlobals, calls: &mut Vec<TimerCall>) -> (r: i32)
    ensures
        r == 0,
        final(calls)@ == old(calls)@ + seq![TimerCall::Lookup { map: TimerMap::Array, key: ARRAY }] + if found {
            setup_calls(TimerMap::Array, CLOCK_MONOTONIC, TimerCallback::Error, 100000, 0).push(TimerCall::CancelAsync)
        } else {
            seq![]
        },
        *final(g) == if found { TimerGlobals { ok: 7, ..*old(g) } } else { *old(g) },
{
    let ghost c0 = calls@;
    calls.push(TimerCall::Lookup { map: TimerMap::Array, key: ARRAY });
    if !found {
        assert(calls@ =~= c0 + seq![TimerCall::Lookup { map: TimerMap::Array, key: ARRAY }] + seq![]);
        return 0;
    }
    calls.push(TimerCall::Init { map: TimerMap::Array, clock: CLOCK_MONOTONIC });
    calls.push(TimerCall::SetCallback { cb: TimerCallback::Error });
    calls.push(TimerCall::Start { nsecs: 100000, flags: 0 });
    calls.push(TimerCall::CancelAsync);
    g.ok = 7;
    assert(calls@ =~= c0 + seq![TimerCall::Lookup { map: TimerMap::Array, key: ARRAY }]
        + setup_calls(TimerMap::Array, CLOCK_MONOTONIC, TimerCallback::Error, 100000, 0).push(TimerCall::CancelAsync));
    0
}

/// Looking up the element of `key` in `map` and, if it is found,
/// initialising its timer on the boot clock.
pub open spec fn init_found(map: TimerMap, key: i32, found: bool) -> Seq<TimerCall> {
    seq![TimerCall::Lookup { map, key }] + if found {
        seq![TimerCall::Init { map, clock: CLOCK_BOOTTIME }]
    } else {
        seq![]
    }
}

fn push_init_found(map: TimerMap, key: i32, found: bool, calls: &mut Vec<TimerCall>)
    ensures
        final(calls)@ == old(calls)@ + init_found(map, key, found),
{
    calls.push(TimerCall::Lookup { map, key });
    if found {
        calls.push(TimerCall::Init { map, clock: CLOCK_BOOTTIME });
    }
    assert(calls@ =~= old(calls)@ + init_found(map, key, found));
}

/// A hash-table element of `map` under key `k` that is added, has its
/// timer initialised (where the lookup finds it) and is replaced again.
pub open spec fn churn_replace(map: TimerMap, k: i32, found: bool) -> Seq<TimerCall> {
    seq![TimerCall::Update { map, key: k }] + init_found(map, k, found) + seq![TimerCall::Update { map, key: k }]
}

/// The element of key 0 in `map` that is added, has its timer
/// initialised, is deleted, added again and has its timer initialised
/// again; `found_a` and `found_b` answer the two lookups.
pub open spec fn churn_delete(map: TimerMap, found_a: bool, found_b: bool) -> Seq<TimerCall> {
    seq![TimerCall::Update { map, key: 0 }] + init_found(map, 0, found_a)
        + seq![TimerCall::Delete { map, key: 0 }, TimerCall::Update { map, key: 0 }] + init_found(map, 0, found_b)
}

fn push_churn_replace(map: TimerMap, k: i32, found: bool, calls: &mut Vec<TimerCall>)
    ensures
        final(calls)@ == old(calls)@ + churn_replace(map, k, found),
{
    let ghost c0 = calls@;
    calls.push(TimerCall::Update { map, key: k });
    push_init_found(map, k, found, calls);
    calls.push(TimerCall::Update { map, key: k });
    assert(calls@ =~= c0 + churn_replace(map, k, found));
}

fn push_churn_delete(map: TimerMap, found_a: bool, found_b: bool, calls: &mut Vec<TimerCall>)
    ensures
        final(calls)@ == old(calls)@ + churn_delete(map, found_a, found_b),
{
    let ghost c0 = calls@;
    calls.push(TimerCall::Update { map, key: 0 });
    push_init_found(map, 0, found_a, calls);
    calls.push(TimerCall::Delete { map, key: 0 });
    calls.push(TimerCall::Update { map, key: 0 });
    push_init_found(map, 0, found_b, calls);
    assert(calls@ =~= c0 + churn_delete(map, found_a, found_b));
}

/// The second program's element churn: hash-table elements whose timers
/// are initialised and then freed by replacing or deleting the element,
/// in both tables.  `found` answers the six lookups in turn.
pub open spec fn spec_test2(found: Seq<bool>) -> Seq<TimerCall> {
    churn_replace(TimerMap::Hmap, HTAB, found[0]) + churn_replace(TimerMap::HmapMalloc, HTAB_MALLOC, found[1])
        + churn_delete(TimerMap::Hmap, found[2], found[3]) + churn_delete(TimerMap::HmapMalloc, found[4], found[5])
}

/// The second program: the churn of [`spec_test2`], then the hash-table
/// timers of [`bpf_timer_test`], whose answers are the other arguments.
pub fn test2(found: &[bool; 6], htab_found: bool, htab_init_ret: i64, malloc_found: bool, malloc_init_ret: i64, g: &mut TimerGlobals, calls: &mut Vec<TimerCall>) -> (r: i32)
    ensures
        r == 0,
        *final(g) == (TimerGlobals {
            err: ({
                let e1 = if htab_found && htab_init_ret != 0 { old(g).err | 512 } else { old(g).err };
                if malloc_found && malloc_init_ret != 0 { e1 | 1024 } else { e1 }
            }),
            ..*old(g)
        }),
        final(calls)@ == old(calls)@ + spec_test2(found@) + htab_setup(TimerMap::Hmap, HTAB, htab_found)
            + htab_setup(TimerMap::HmapMalloc, HTAB_MALLOC, malloc_found),
{
    let ghost c0 = calls@;
    push_churn_replace(TimerMap::Hmap, HTAB, found[0], calls);
    let ghost c1 = calls@;
    push_churn_replace(TimerMap::HmapMalloc, HTAB_MALLOC, found[1], calls);
    let ghost c2 = calls@;
    push_churn_delete(TimerMap::Hmap, found[2], found[3], calls);
    let ghost c3 = calls@;
    push_churn_delete(TimerMap::HmapMalloc, found[4], found[5], calls);
    proof {
        let a = churn_replace(TimerMap::Hmap, HTAB, found@[0]);
        let b = churn_replace(TimerMap::HmapMalloc, HTAB_MALLOC, found@[1]);
        let c = churn_delete(TimerMap::Hmap, found@[2], found@[3]);
        let d = churn_delete(TimerMap::HmapMalloc, found@[4], found@[5]);
        assert(c1 == c0 + a);
        assert(c2 == c1 + b);
        assert(c3 == c2 + c);
        assert(calls@ == c3 + d);
        assert(calls@ =~= c0 + (a + b + c + d));
    }
    bpf_timer_test(htab_found, htab_init_ret, malloc_found, malloc_init_ret, g, calls)
}

/// The fourth program: writes its name, "test4", to the trace log, then
/// sets up the relative pinned timer on CPU `cpu` (see
/// [`spec_test_pinned_timer`]).  Returns 0.
pub fn test4(found: bool, init_ret: i64, cpu: u32, g: &mut TimerGlobals, calls: &mut Vec<TimerCall>) -> (r: i32)
    ensures
        r == 0,
        ({
            let (g1, cs) = spec_test_pinned_timer(true, 0, found, init_ret, cpu, *old(g));
            &&& *final(g) == g1
            &&& final(calls)@ == old(calls)@ + seq![TimerCall::TracePrintk { n: 4 }] + cs
        }),
{
    calls.push(TimerCall::TracePrintk { n: 4 });
    test_pinned_timer(true, 0, found, init_ret, cpu, g, calls);
    assert(calls@ =~= old(calls)@ + seq![TimerCall::TracePrintk { n: 4 }] + spec_test_pinned_timer(true, 0, found, init_ret, cpu, *old(g)).1);
    0
}

/// The fifth program: writes its name, "test5", to the trace log, then
/// sets up the absolute pinned timer from time `now` on CPU `cpu` (see
/// [`spec_test_pinned_timer`]).  Returns 0.
pub fn test5(now: u64, found: bool, init_ret: i64, cpu: u32, g: &mut TimerGlobals, calls: &mut Vec<TimerCall>) -> (r: i32)
    ensures
        r == 0,
        ({
            let (g1, cs) = spec_test_pinned_timer(false, now, found, init_ret, cpu, *old(g));
            &&& *final(g) == g1
            &&& final(calls)@ == old(calls)@ + seq![TimerCall::TracePrintk { n: 5 }] + cs
        }),
{
    calls.push(TimerCall::TracePrintk { n: 5 });
    test_pinned_timer(false, now, found, init_ret, cpu, g, calls);
    assert(calls@ =~= old(calls)@ + seq![TimerCall::TracePrintk { n: 5 }] + spec_test_pinned_timer(false, now, found, init_ret, cpu, *old(g)).1);
    0
}

/// The callback of the race tests: starts its own timer again 1 ms out.
pub fn race_timer_callback(calls: &mut Vec<TimerCall>) -> (r: i64)
    ensures
        r == 0,
        final(calls)@ == old(calls)@.push(TimerCall::StartSelf { nsecs: 1000000 }),
{
    calls.push(TimerCall::StartSelf { nsecs: 1000000 });
    0
}

/// The callback that resets its own element (key `key`) and counts the
/// update.
pub fn update_self_callback(key: i32, c: &mut RaceCounters, calls: &mut Vec<TimerCall>) -> (r: i64)
    ensures
        r == 0,
        final(calls)@ == old(calls)@.push(TimerCall::Update { map: TimerMap::RaceArray, key }),
        *final(c) == (RaceCounters { update_hits: vstd::wrapping::u64_specs::wrapping_add(old(c).update_hits, 1), ..*old(c) }),
{
    calls.push(TimerCall::Update { map: TimerMap::RaceArray, key });
    c.update_hits = c.update_hits.wrapping_add(1);
    0
}

/// The callback that cancels its own timer without waiting and counts the
/// cancel.
pub fn cancel_self_callback(c: &mut RaceCounters, calls: &mut Vec<TimerCall>) -> (r: i64)
    ensures
        r == 0,
        final(calls)@ == old(calls)@.push(TimerCall::CancelSelfAsync),
        *final(c) == (RaceCounters { cancel_hits: vstd::wrapping::u64_specs::wrapping_add(old(c).cancel_hits, 1), ..*old(c) }),
{
    calls.push(TimerCall::CancelSelfAsync);
    c.cancel_hits = c.cancel_hits.wrapping_add(1);
    0
}

/// A race test run from a perf event (NMI): counts the hit, then runs
/// [`test_common`] in `mode`.
pub open spec fn nmi_counted(c: RaceCounters) -> RaceCounters {
    RaceCounters { test_hits: vstd::wrapping::u64_specs::wrapping_add(c.test_hits, 1), ..c }
}

/// The NMI race: starts and cancels without waiting.
pub fn nmi_race(found: bool, init_ret: i64, c: &mut RaceCounters, calls: &mut Vec<TimerCall>) -> (r: i32)
    ensures
        r == 0,
        *final(c) == nmi_counted(*old(c)),
        final(calls)@ == old(calls)@ + spec_test_common(TestMode::RaceAsync, found, init_ret),
{
    c.test_hits = c.test_hits.wrapping_add(1);
    test_common(TestMode::RaceAsync, found, init_ret, calls)
}

/// The NMI update test: the timer's callback resets its own element.
pub fn nmi_update(found: bool, init_ret: i64, c: &mut RaceCounters, calls: &mut Vec<TimerCall>) -> (r: i32)
    ensures
        r == 0,
        *final(c) == nmi_counted(*old(c)),
        final(calls)@ == old(calls)@ + spec_test_common(TestMode::Update, found, init_ret),
{
    c.test_hits = c.test_hits.wrapping_add(1);
    test_common(TestMode::Update, found, init_ret, calls)
}

/// The NMI cancel test: the timer's callback cancels itself.
pub fn nmi_cancel(found: bool, init_ret: i64, c: &mut RaceCounters, calls: &mut Vec<TimerCall>) -> (r: i32)
    ensures
        r == 0,
        *final(c) == nmi_counted(*old(c)),
        final(calls)@ == old(calls)@ + spec_test_common(TestMode::Cancel, found, init_ret),
{
    c.test_hits = c.test_hits.wrapping_add(1);
    test_common(TestMode::Cancel, found, init_ret, calls)
}

/// Eviction law: the LRU timer's callback adds at most the keys 5 to 100
/// and always ends by finding its own timer gone (one cancel, last).
pub proof fn lemma_lru_churn_bounded(g: TimerGlobals, start_self_ret: i64, lru_found: bool, lru_start_ret: i64, reuse_at: i32, cancel_ret: i64)
    ensures
        ({
            let (g1, cs) = spec_timer_cb1(LRU, g, start_self_ret, lru_found, lru_start_ret, reuse_at, cancel_ret);
            &&& 2 <= cs.len() - 1 <= 192
            &&& cs.last() == TimerCall::CancelSelf
            &&& g1.ok & 1 == 1
        }),
{
    let o = g.ok;
    assert((o | 1) & 1 == 1) by (bit_vector);
}

} // verus!
