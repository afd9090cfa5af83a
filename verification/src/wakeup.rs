//! Wakeup-source statistics: the kernel's list of wakeup sources is walked
//! (at most 1000 steps) and an event is emitted for each source with its
//! counters and its times brought up to date for a source that is active.
//!
//! Reading the list and the sources is the kernel's part; the library
//! decides whether the walk goes on and computes each event.
use vstd::prelude::*;

verus! {

pub const MAX_LOOP_ITER: i32 = 1000;
pub const WAKEUP_NAME_LEN: usize = 128;

/// The fields of a wakeup source the program reads (`flags` is the byte of
/// the device's power flags: bit 0 active, bit 1 autosleep enabled).
#[derive(Clone, Copy)]
pub struct WakeupSource {
    pub flags: u8,
    pub total_time: i64,
    pub max_time: i64,
    pub last_time: i64,
    pub start_prevent_time: i64,
    pub prevent_sleep_time: i64,
    pub event_count: u64,
    pub active_count: u64,
    pub expire_count: u64,
    pub wakeup_count: u64,
}

/// The event emitted for a source (its name is copied by the kernel).
#[derive(Clone, Copy)]
pub struct WakeupEvent {
    pub active_count: u64,
    pub active_time_ns: i64,
    pub event_count: u64,
    pub expire_count: u64,
    pub last_time_ns: i64,
    pub max_time_ns: i64,
    pub prevent_sleep_time_ns: i64,
    pub total_time_ns: i64,
    pub wakeup_count: u64,
}

pub open spec fn is_active(ws: WakeupSource) -> bool {
    ws.flags & 1 != 0
}

pub open spec fn autosleep(ws: WakeupSource) -> bool {
    ws.flags & 2 != 0
}

/// The event for a source at time `now`: an active source has been active
/// since its last time (if the clock is past it); that time is added to its
/// total and may be its new maximum, and with autosleep the time since it
/// started preventing sleep is added to its prevent-sleep time.
pub open spec fn spec_wakeup_event(ws: WakeupSource, now: i64) -> WakeupEvent {
    let active_time: i64 = if is_active(ws) && now > ws.last_time {
        vstd::wrapping::i64_specs::wrapping_sub(now, ws.last_time)
    } else {
        0
    };
    let total = if is_active(ws) { vstd::wrapping::i64_specs::wrapping_add(ws.total_time, active_time) } else { ws.total_time };
    let max = if is_active(ws) && active_time > ws.max_time { active_time } else { ws.max_time };
    let prevent = if is_active(ws) && autosleep(ws) && now > ws.start_prevent_time {
        vstd::wrapping::i64_specs::wrapping_add(ws.prevent_sleep_time, vstd::wrapping::i64_specs::wrapping_sub(now, ws.start_prevent_time))
    } else {
        ws.prevent_sleep_time
    };
    WakeupEvent {
        active_count: ws.active_count,
        active_time_ns: active_time,
        event_count: ws.event_count,
        expire_count: ws.expire_count,
        last_time_ns: ws.last_time,
        max_time_ns: max,
        prevent_sleep_time_ns: prevent,
        total_time_ns: total,
        wakeup_count: ws.wakeup_count,
    }
}

/// The event for the source `ws` at time `now` (see [`spec_wakeup_event`]).
pub fn wakeup_event(ws: &WakeupSource, now: i64) -> (r: WakeupEvent)
    ensures
        r == spec_wakeup_event(*ws, now),
{
    let active = ws.flags & 0x1 != 0;
    let autosleep_enable = ws.flags & 0x2 != 0;
    let mut max_time = ws.max_time;
    let mut prevent_sleep_time = ws.prevent_sleep_time;
    let mut total_time = ws.total_time;
    let mut active_time: i64 = 0;
    if active {
        if now > ws.last_time {
            active_time = now.wrapping_sub(ws.last_time);
        }
        total_time = total_time.wrapping_add(active_time);
        if active_time > max_time {
            max_time = active_time;
        }
        if autosleep_enable && now > ws.start_prevent_time {
            prevent_sleep_time = prevent_sleep_time.wrapping_add(now.wrapping_sub(ws.start_prevent_time));
        }
    }
    WakeupEvent {
        active_count: ws.active_count,
        active_time_ns: active_time,
        event_count: ws.event_count,
        expire_count: ws.expire_count,
        last_time_ns: ws.last_time,
        max_time_ns: max_time,
        prevent_sleep_time_ns: prevent_sleep_time,
        total_time_ns: total_time,
        wakeup_count: ws.wakeup_count,
    }
}

/// Whether the walk moves on to `next`: the read of the link succeeded
/// (`read_ret` 0), it is set, and it is not back at the head.
pub fn walk_continues(head: u64, next: u64, read_ret: i64) -> (r: bool)
    ensures
        r == (read_ret == 0 && next != 0 && next != head),
{
    read_ret == 0 && next != 0 && next != head
}

/// The walk of the list: `links[i]` is the answer (result, next link) to
/// the read of the i-th link; `can_reserve[i]` whether room for the i-th
/// event is granted.  Gives the number of sources an event is emitted for.
pub open spec fn walk_len(head: u64, links: Seq<(i64, u64)>, can_reserve: Seq<bool>, i: int) -> int
    decreases links.len() - i,
{
    if i >= MAX_LOOP_ITER || i >= links.len() || i >= can_reserve.len() {
        i
    } else if !(links[i].0 == 0 && links[i].1 != 0 && links[i].1 != head) || !can_reserve[i] {
        i
    } else {
        walk_len(head, links, can_reserve, i + 1)
    }
}

/// Counts the sources the walk emits events for (see [`walk_len`]).
pub fn iterate_wakeupsources(head: u64, links: &Vec<(i64, u64)>, can_reserve: &Vec<bool>) -> (r: usize)
    ensures
        r == walk_len(head, links@, can_reserve@, 0),
        r <= MAX_LOOP_ITER,
{
    let mut i: usize = 0;
    while i < MAX_LOOP_ITER as usize && i < links.len() && i < can_reserve.len()
        invariant
            i <= MAX_LOOP_ITER,
            walk_len(head, links@, can_reserve@, 0) == walk_len(head, links@, can_reserve@, i as int),
        decreases links@.len() - i,
    {
        let (ret, next) = links[i];
        if !walk_continues(head, next, ret) || !can_reserve[i] {
            return i;
        }
        i += 1;
    }
    i
}

/// Time law: an active source's totals never go down where nothing wraps:
/// its total time grows by its active time, and its maximum is at least
/// that active time.
pub proof fn lemma_active_time(ws: WakeupSource, now: i64)
    requires
        is_active(ws),
        now > ws.last_time,
        0 <= ws.last_time,
        0 <= ws.total_time,
        ws.total_time + (now - ws.last_time) <= i64::MAX,
    ensures
        spec_wakeup_event(ws, now).active_time_ns == now - ws.last_time,
        spec_wakeup_event(ws, now).total_time_ns == ws.total_time + (now - ws.last_time),
        spec_wakeup_event(ws, now).max_time_ns >= spec_wakeup_event(ws, now).active_time_ns,
{
}

} // verus!
