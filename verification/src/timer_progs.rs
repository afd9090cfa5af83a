//! Smaller timer programs: one that frees a timer the user corrupted, one
//! that records whether its callback runs in interrupt context, two whose
//! callbacks cancel each other's timer, and one that initialises a timer
//! with the wrong owning map.
//!
//! As in [`crate::timer`], the programs' timer helper calls come out as
//! values of [`ProgTimerCall`], in order, and the helpers' answers come in
//! as arguments.
use vstd::prelude::*;
use crate::timer::{bpf_in_interrupt, CLOCK_BOOTTIME, CLOCK_MONOTONIC, BPF_F_TIMER_CPU_PIN};

verus! {

/// The word the crash test writes over the start of a map value.
pub const CRASH_WORD: u64 = 0xdeadcaf3;
pub const ARRAY_KEY: i32 = 1;
pub const ARRAY_KEY2: i32 = 2;
pub const HASH_KEY: i32 = 1234;

/// The maps of these programs.
#[derive(Clone, Copy, PartialEq, Eq, Structural)]
pub enum ProgMap {
    /// The crash test's array and hash table.
    Amap,
    Hmap,
    /// The interrupt test's array.
    Array,
    /// The lockup test's two arrays.
    Timer1Map,
    Timer2Map,
    /// The array of maps of the owner test, and the inner map found in
    /// its slot `slot`.
    OuterArr,
    Inner { slot: i32 },
}

/// The callbacks these programs give their timers.
#[derive(Clone, Copy, PartialEq, Eq, Structural)]
pub enum ProgCallback {
    Interrupt,
    Lockup1,
    Lockup2,
    Owner,
}

/// A helper call of these programs.
#[derive(Clone, Copy, PartialEq, Eq, Structural)]
pub enum ProgTimerCall {
    /// An element of `map` is looked up (and its timer used next).
    Lookup { map: ProgMap, key: i32 },
    /// An element of `map` is set to a zero value.
    Update { map: ProgMap, key: i32 },
    /// An element of `map` is set to a zero value whose first word is
    /// [`CRASH_WORD`] (a corrupted timer).
    UpdateCorrupted { map: ProgMap, key: i32 },
    /// The timer looked up last is initialised, owned by `owner`.
    Init { owner: ProgMap, clock: u64 },
    /// The timer looked up last gets callback `cb`.
    SetCallback { cb: ProgCallback },
    /// The timer looked up last is started.
    Start { nsecs: u64, flags: u64 },
    /// The timer looked up last is cancelled.
    Cancel,
}

/// The crash test on entry to nanosleep, in the thread group `tgid`: for
/// the process under test, the map selected by `crash_map` (1: the hash
/// table, else the array) gets an element with a corrupted timer; in the
/// hash table it is then looked up and its timer cancelled.
pub open spec fn spec_sys_enter(tgid: i32, pid: i32, crash_map: i32, found: bool) -> Seq<ProgTimerCall> {
    if tgid != pid {
        seq![]
    } else if crash_map == 1 {
        let c = seq![ProgTimerCall::UpdateCorrupted { map: ProgMap::Hmap, key: 0 }, ProgTimerCall::Lookup { map: ProgMap::Hmap, key: 0 }];
        if found { c.push(ProgTimerCall::Cancel) } else { c }
    } else {
        seq![ProgTimerCall::UpdateCorrupted { map: ProgMap::Amap, key: 0 }]
    }
}

/// The crash test (see [`spec_sys_enter`]); `found` answers the lookup.
/// Returns 0.
pub fn sys_enter(tgid: i32, pid: i32, crash_map: i32, found: bool, calls: &mut Vec<ProgTimerCall>) -> (r: i32)
    ensures
        r == 0,
        final(calls)@ == old(calls)@ + spec_sys_enter(tgid, pid, crash_map, found),
{
    let ghost c0 = calls@;
    if tgid != pid {
        assert(calls@ =~= c0 + spec_sys_enter(tgid, pid, crash_map, found));
        return 0;
    }
    if crash_map == 1 {
        calls.push(ProgTimerCall::UpdateCorrupted { map: ProgMap::Hmap, key: 0 });
        calls.push(ProgTimerCall::Lookup { map: ProgMap::Hmap, key: 0 });
        if !found {
            assert(calls@ =~= c0 + spec_sys_enter(tgid, pid, crash_map, found));
            return 0;
        }
        calls.push(ProgTimerCall::Cancel);
    } else {
        calls.push(ProgTimerCall::UpdateCorrupted { map: ProgMap::Amap, key: 0 });
    }
    assert(calls@ =~= c0 + spec_sys_enter(tgid, pid, crash_map, found));
    0
}

/// What the interrupt test records.
#[derive(Clone, Copy)]
pub struct InterruptFlags {
    pub preempt_count: i32,
    pub in_interrupt: i32,
    pub in_interrupt_cb: i32,
}

/// The interrupt test's callback: records the preemption count and whether
/// it runs in interrupt context.
pub fn timer_in_interrupt(f: &mut InterruptFlags) -> (r: i64)
    ensures
        r == 0,
        *final(f) == (InterruptFlags { preempt_count: 0, in_interrupt_cb: 0, ..*old(f) }),
{
    f.preempt_count = crate::timer::get_preempt_count();
    f.in_interrupt_cb = bpf_in_interrupt();
    0
}

/// The interrupt test: records whether the program runs in interrupt
/// context and starts the array's timer at once with
/// [`timer_in_interrupt`].  `found` answers the lookup.  Returns 0.
pub fn test_timer_interrupt(found: bool, f: &mut InterruptFlags, calls: &mut Vec<ProgTimerCall>) -> (r: i32)
    ensures
        r == 0,
        *final(f) == if found { InterruptFlags { in_interrupt: 0, ..*old(f) } } else { *old(f) },
        final(calls)@ == old(calls)@ + seq![ProgTimerCall::Lookup { map: ProgMap::Array, key: 0 }] + if found {
            seq![
                ProgTimerCall::Init { owner: ProgMap::Array, clock: CLOCK_MONOTONIC },
                ProgTimerCall::SetCallback { cb: ProgCallback::Interrupt },
                ProgTimerCall::Start { nsecs: 0, flags: 0 },
            ]
        } else {
            seq![]
        },
{
    let ghost c0 = calls@;
    calls.push(ProgTimerCall::Lookup { map: ProgMap::Array, key: 0 });
    if !found {
        assert(calls@ =~= c0 + seq![ProgTimerCall::Lookup { map: ProgMap::Array, key: 0 }] + seq![]);
        return 0;
    }
    f.in_interrupt = bpf_in_interrupt();
    calls.push(ProgTimerCall::Init { owner: ProgMap::Array, clock: CLOCK_MONOTONIC });
    calls.push(ProgTimerCall::SetCallback { cb: ProgCallback::Interrupt });
    calls.push(ProgTimerCall::Start { nsecs: 0, flags: 0 });
    assert(calls@ =~= c0 + seq![ProgTimerCall::Lookup { map: ProgMap::Array, key: 0 }] + seq![
        ProgTimerCall::Init { owner: ProgMap::Array, clock: CLOCK_MONOTONIC },
        ProgTimerCall::SetCallback { cb: ProgCallback::Interrupt },
        ProgTimerCall::Start { nsecs: 0, flags: 0 },
    ]);
    0
}

/// What the lockup test records: the answers of the cancels.
#[derive(Clone, Copy)]
pub struct LockupErrs {
    pub timer1_err: i32,
    pub timer2_err: i32,
}

/// The lookup of the other array's timer and, where it is found, its
/// cancel.
pub open spec fn cancel_other(map: ProgMap, found: bool) -> Seq<ProgTimerCall> {
    if found {
        seq![ProgTimerCall::Lookup { map, key: 0 }, ProgTimerCall::Cancel]
    } else {
        seq![ProgTimerCall::Lookup { map, key: 0 }]
    }
}

/// The first array's callback: cancels the second array's timer (where
/// found) and records the answer (`cancel_ret`, truncated).
pub fn timer_cb1(found: bool, cancel_ret: i64, e: &mut LockupErrs, calls: &mut Vec<ProgTimerCall>) -> (r: i64)
    ensures
        r == 0,
        final(calls)@ == old(calls)@ + cancel_other(ProgMap::Timer2Map, found),
        *final(e) == if found { LockupErrs { timer2_err: cancel_ret as i32, ..*old(e) } } else { *old(e) },
{
    calls.push(ProgTimerCall::Lookup { map: ProgMap::Timer2Map, key: 0 });
    if found {
        calls.push(ProgTimerCall::Cancel);
        e.timer2_err = cancel_ret as i32;
    }
    assert(calls@ =~= old(calls)@ + cancel_other(ProgMap::Timer2Map, found));
    0
}

/// The second array's callback: cancels the first array's timer (where
/// found) and records the answer.
pub fn timer_cb2(found: bool, cancel_ret: i64, e: &mut LockupErrs, calls: &mut Vec<ProgTimerCall>) -> (r: i64)
    ensures
        r == 0,
        final(calls)@ == old(calls)@ + cancel_other(ProgMap::Timer1Map, found),
        *final(e) == if found { LockupErrs { timer1_err: cancel_ret as i32, ..*old(e) } } else { *old(e) },
{
    calls.push(ProgTimerCall::Lookup { map: ProgMap::Timer1Map, key: 0 });
    if found {
        calls.push(ProgTimerCall::Cancel);
        e.timer1_err = cancel_ret as i32;
    }
    assert(calls@ =~= old(calls)@ + cancel_other(ProgMap::Timer1Map, found));
    0
}

/// Arming one array's timer: initialised on the boot clock, given `cb`,
/// started 1 ns out pinned to the current CPU.
pub open spec fn arm_pinned(map: ProgMap, cb: ProgCallback, found: bool) -> Seq<ProgTimerCall> {
    seq![ProgTimerCall::Lookup { map, key: 0 }] + if found {
        seq![
            ProgTimerCall::Init { owner: map, clock: CLOCK_BOOTTIME },
            ProgTimerCall::SetCallback { cb },
            ProgTimerCall::Start { nsecs: 1, flags: BPF_F_TIMER_CPU_PIN },
        ]
    } else {
        seq![]
    }
}

fn push_arm_pinned(map: ProgMap, cb: ProgCallback, found: bool, calls: &mut Vec<ProgTimerCall>)
    ensures
        final(calls)@ == old(calls)@ + arm_pinned(map, cb, found),
{
    calls.push(ProgTimerCall::Lookup { map, key: 0 });
    if found {
        calls.push(ProgTimerCall::Init { owner: map, clock: CLOCK_BOOTTIME });
        calls.push(ProgTimerCall::SetCallback { cb });
        calls.push(ProgTimerCall::Start { nsecs: 1, flags: BPF_F_TIMER_CPU_PIN });
    }
    assert(calls@ =~= old(calls)@ + arm_pinned(map, cb, found));
}

/// Arms the first array's timer with [`timer_cb1`].  Returns 0.
pub fn timer1_prog(found: bool, calls: &mut Vec<ProgTimerCall>) -> (r: i32)
    ensures
        r == 0,
        final(calls)@ == old(calls)@ + arm_pinned(ProgMap::Timer1Map, ProgCallback::Lockup1, found),
{
    push_arm_pinned(ProgMap::Timer1Map, ProgCallback::Lockup1, found, calls);
    0
}

/// Arms the second array's timer with [`timer_cb2`].  Returns 0.
pub fn timer2_prog(found: bool, calls: &mut Vec<ProgTimerCall>) -> (r: i32)
    ensures
        r == 0,
        final(calls)@ == old(calls)@ + arm_pinned(ProgMap::Timer2Map, ProgCallback::Lockup2, found),
{
    push_arm_pinned(ProgMap::Timer2Map, ProgCallback::Lockup2, found, calls);
    0
}

/// The callback of the owner test: does nothing.
pub fn timer_cb() -> (r: i64)
    ensures
        r == 0,
{
    0
}

/// What the kernel answers to the owner test.
#[derive(Clone, Copy)]
pub struct OwnerAnswers {
    /// Whether the inner maps of slots 1 and 2, and then the element, are
    /// found.
    pub inner1_found: bool,
    pub inner2_found: bool,
    pub elem_found: bool,
    pub set_callback_ret: i64,
    pub start_ret: i64,
}

/// The owner test: the timer of an element of the inner map of slot 1 is
/// initialised as owned by the inner map of slot 2 (which the kernel's
/// verifier refuses at load time), given [`timer_cb`] (a nonzero answer
/// sets error bit 4) and started (bit 8).
pub open spec fn spec_owner_test(a: OwnerAnswers, err: u64) -> (u64, Seq<ProgTimerCall>) {
    let c1 = seq![ProgTimerCall::Lookup { map: ProgMap::OuterArr, key: ARRAY_KEY }];
    let c2 = c1.push(ProgTimerCall::Lookup { map: ProgMap::OuterArr, key: ARRAY_KEY2 });
    let c3 = c2 + seq![
        ProgTimerCall::Update { map: ProgMap::Inner { slot: ARRAY_KEY }, key: HASH_KEY },
        ProgTimerCall::Lookup { map: ProgMap::Inner { slot: ARRAY_KEY }, key: HASH_KEY },
    ];
    if !a.inner1_found {
        (err, c1)
    } else if !a.inner2_found {
        (err, c2)
    } else if !a.elem_found {
        (err, c3)
    } else {
        let e1 = if a.set_callback_ret != 0 { err | 4 } else { err };
        let e2 = if a.start_ret != 0 { e1 | 8 } else { e1 };
        (e2, c3 + seq![
            ProgTimerCall::Init { owner: ProgMap::Inner { slot: ARRAY_KEY2 }, clock: CLOCK_MONOTONIC },
            ProgTimerCall::SetCallback { cb: ProgCallback::Owner },
            ProgTimerCall::Start { nsecs: 0, flags: 0 },
        ])
    }
}

/// The owner test (see [`spec_owner_test`]).  Returns 0.
pub fn test1(a: &OwnerAnswers, err: &mut u64, calls: &mut Vec<ProgTimerCall>) -> (r: i32)
    ensures
        r == 0,
        (*final(err), final(calls)@) == ({
            let (e, cs) = spec_owner_test(*a, *old(err));
            (e, old(calls)@ + cs)
        }),
{
    let ghost c0 = calls@;
    calls.push(ProgTimerCall::Lookup { map: ProgMap::OuterArr, key: ARRAY_KEY });
    if !a.inner1_found {
        assert(calls@ =~= c0 + spec_owner_test(*a, *old(err)).1);
        return 0;
    }
    calls.push(ProgTimerCall::Lookup { map: ProgMap::OuterArr, key: ARRAY_KEY2 });
    if !a.inner2_found {
        assert(calls@ =~= c0 + spec_owner_test(*a, *old(err)).1);
        return 0;
    }
    calls.push(ProgTimerCall::Update { map: ProgMap::Inner { slot: ARRAY_KEY }, key: HASH_KEY });
    calls.push(ProgTimerCall::Lookup { map: ProgMap::Inner { slot: ARRAY_KEY }, key: HASH_KEY });
    if !a.elem_found {
        assert(calls@ =~= c0 + spec_owner_test(*a, *old(err)).1);
        return 0;
    }
    calls.push(ProgTimerCall::Init { owner: ProgMap::Inner { slot: ARRAY_KEY2 }, clock: CLOCK_MONOTONIC });
    calls.push(ProgTimerCall::SetCallback { cb: ProgCallback::Owner });
    if a.set_callback_ret != 0 {
        *err = *err | 4;
    }
    calls.push(ProgTimerCall::Start { nsecs: 0, flags: 0 });
    if a.start_ret != 0 {
        *err = *err | 8;
    }
    assert(calls@ =~= c0 + spec_owner_test(*a, *old(err)).1);
    0
}

} // verus!
