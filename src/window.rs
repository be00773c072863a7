//! The active window and cycle-phase arithmetic.
use vstd::prelude::*;
use crate::clock::{nanos_per_day, nanos_per_minute, LocalDateTime, TimeOfDay, SECONDS_PER_DAY};

verus! {

/// Whether time `t` lies in the daily window from `start` to `end`, both
/// inclusive; a window whose start is later than its end spans midnight.
pub open spec fn in_window(t: int, start: int, end: int) -> bool {
    if start <= end {
        start <= t && t <= end
    } else {
        t >= start || t <= end
    }
}

/// The date on which the window that `now` falls in (or last fell in) began.
pub open spec fn anchor_day(now: LocalDateTime, start: TimeOfDay, end: TimeOfDay) -> int {
    if start.nanos() <= end.nanos() || start.nanos() <= now.time.nanos() {
        now.day as int
    } else {
        now.day as int - 1
    }
}

/// The most recent instant at which the active window began.
pub open spec fn anchor_of(now: LocalDateTime, start: TimeOfDay, end: TimeOfDay) -> LocalDateTime {
    LocalDateTime { day: anchor_day(now, start, end) as i32, time: start }
}

/// Whole minutes from `anchor` to `now`, rounded down.
pub open spec fn minutes_between(anchor: LocalDateTime, now: LocalDateTime) -> int {
    (now.instant() - anchor.instant()) / nanos_per_minute()
}

/// The position of `now` in a cycle of `total` minutes that began at `anchor`.
pub open spec fn phase_of(now: LocalDateTime, anchor: LocalDateTime, total: int) -> int {
    minutes_between(anchor, now) % total
}

/// Whether `current` lies in the window from `start` to `end`, bounds included.
/// When `start` is later than `end` the window spans midnight.
pub fn is_within_window(current: TimeOfDay, start: TimeOfDay, end: TimeOfDay) -> (r: bool)
    requires
        current.wf(),
        start.wf(),
        end.wf(),
    ensures
        r == in_window(current.nanos(), start.nanos(), end.nanos()),
{
    if start.is_at_or_before(&end) {
        start.is_at_or_before(&current) && current.is_at_or_before(&end)
    } else {
        start.is_at_or_before(&current) || current.is_at_or_before(&end)
    }
}

/// The most recent instant at which the window began, relative to `now`: today
/// at `start`, except for a window spanning midnight while `now` is before
/// `start`, which began yesterday at `start`.
pub fn anchor_time(now: LocalDateTime, start: TimeOfDay, end: TimeOfDay) -> (r: LocalDateTime)
    requires
        now.wf(),
        start.wf(),
        end.wf(),
        now.day > i32::MIN,
    ensures
        r == anchor_of(now, start, end),
        r.wf(),
{
    if start.is_at_or_before(&end) || start.is_at_or_before(&now.time) {
        LocalDateTime { day: now.day, time: start }
    } else {
        LocalDateTime { day: now.day - 1, time: start }
    }
}

/// Whole minutes elapsed from `anchor` to `now`, rounded down.
pub fn elapsed_minutes(now: LocalDateTime, anchor: LocalDateTime) -> (r: u64)
    requires
        now.wf(),
        anchor.wf(),
        anchor.instant() <= now.instant(),
    ensures
        r as int == minutes_between(anchor, now),
{
    let days: i64 = now.day as i64 - anchor.day as i64;
    let diff: i64 = now.time.second_of_day as i64 - anchor.time.second_of_day as i64;
    assert(days >= 0) by (nonlinear_arith)
        requires
            now.day as int * nanos_per_day() + now.time.nanos() >= anchor.day as int
                * nanos_per_day() + anchor.time.nanos(),
            0 <= now.time.nanos() < nanos_per_day(),
            0 <= anchor.time.nanos() < nanos_per_day(),
            days == now.day - anchor.day,
    ;
    let borrow: i64 = if now.time.nanosecond < anchor.time.nanosecond { 1 } else { 0 };
    let nano: u32 = if now.time.nanosecond < anchor.time.nanosecond {
        now.time.nanosecond + (1_000_000_000 - anchor.time.nanosecond)
    } else {
        now.time.nanosecond - anchor.time.nanosecond
    };
    assert(days * 86_400 <= 0x1_0000_0000 * 86_400) by (nonlinear_arith)
        requires
            0 <= days <= 0x1_0000_0000,
    ;
    let seconds: i64 = days * (SECONDS_PER_DAY as i64) + diff - borrow;
    proof {
        let total = now.instant() - anchor.instant();
        assert(total == seconds as int * 1_000_000_000 + nano as int) by (nonlinear_arith)
            requires
                total == now.day as int * nanos_per_day() + now.time.second_of_day as int
                    * 1_000_000_000 + now.time.nanosecond as int - (anchor.day as int
                    * nanos_per_day() + anchor.time.second_of_day as int * 1_000_000_000
                    + anchor.time.nanosecond as int),
                nanos_per_day() == 86_400 * 1_000_000_000,
                seconds == (now.day - anchor.day) * 86_400 + now.time.second_of_day
                    - anchor.time.second_of_day - borrow,
                nano == now.time.nanosecond as int + borrow * 1_000_000_000
                    - anchor.time.nanosecond as int,
        ;
        assert(seconds >= 0) by (nonlinear_arith)
            requires
                total >= 0,
                total == seconds as int * 1_000_000_000 + nano as int,
                0 <= nano < 1_000_000_000,
        ;
        vstd::arithmetic::div_mod::lemma_fundamental_div_mod_converse(
            total,
            1_000_000_000,
            seconds as int,
            nano as int,
        );
        vstd::arithmetic::div_mod::lemma_div_denominator(total, 1_000_000_000, 60);
        assert(nanos_per_minute() == 1_000_000_000 * 60);
    }
    (seconds / 60) as u64
}

/// The phase of `now` in a cycle of `total_cycle` minutes that began at
/// `anchor`: whole minutes elapsed, modulo the cycle length.
pub fn cycle_phase(now: LocalDateTime, anchor: LocalDateTime, total_cycle: u64) -> (r: u64)
    requires
        now.wf(),
        anchor.wf(),
        anchor.instant() <= now.instant(),
        total_cycle > 0,
    ensures
        r as int == phase_of(now, anchor, total_cycle as int),
        r < total_cycle,
{
    elapsed_minutes(now, anchor) % total_cycle
}

/// In a window that does not span midnight, a time is inside exactly when it
/// lies between the two bounds, and outside as soon as it passes either one.
pub proof fn same_day_window(t: TimeOfDay, start: TimeOfDay, end: TimeOfDay)
    requires
        start.nanos() <= end.nanos(),
    ensures
        in_window(t.nanos(), start.nanos(), end.nanos()) <==> (start.nanos() <= t.nanos()
            && t.nanos() <= end.nanos()),
        t.nanos() < start.nanos() ==> !in_window(t.nanos(), start.nanos(), end.nanos()),
        t.nanos() > end.nanos() ==> !in_window(t.nanos(), start.nanos(), end.nanos()),
{
}

/// In a window that spans midnight, a time is inside exactly when it is at or
/// after the start or at or before the end: only the open gap between the end
/// and the start is outside.
pub proof fn overnight_window(t: TimeOfDay, start: TimeOfDay, end: TimeOfDay)
    requires
        start.nanos() > end.nanos(),
    ensures
        in_window(t.nanos(), start.nanos(), end.nanos()) <==> (t.nanos() >= start.nanos()
            || t.nanos() <= end.nanos()),
        !in_window(t.nanos(), start.nanos(), end.nanos()) <==> (end.nanos() < t.nanos()
            && t.nanos() < start.nanos()),
{
}

/// The anchor is never later than `now` and less than a day before it,
/// whenever `now` is not before the start of a window that does not span
/// midnight (there the anchor is later the same day).
pub proof fn anchor_is_recent(now: LocalDateTime, start: TimeOfDay, end: TimeOfDay)
    requires
        now.wf(),
        start.wf(),
        end.wf(),
        now.day > i32::MIN,
        start.nanos() <= end.nanos() ==> start.nanos() <= now.time.nanos(),
    ensures
        anchor_of(now, start, end).instant() <= now.instant(),
        now.instant() - anchor_of(now, start, end).instant() < nanos_per_day(),
{
    let a = anchor_of(now, start, end);
    assert(anchor_day(now, start, end) == a.day);
    assert(a.instant() == a.day as int * nanos_per_day() + start.nanos());
    if a.day == now.day {
    } else {
        assert(a.day as int == now.day as int - 1);
        assert(a.day as int * nanos_per_day() == now.day as int * nanos_per_day()
            - nanos_per_day()) by (nonlinear_arith)
            requires a.day as int == now.day as int - 1,
        ;
    }
}

/// The anchor of a window that spans midnight stays put across midnight:
/// at 23:59 of day `d` and at 00:00 of day `d + 1` it is day `d` at `start`,
/// and the minutes elapsed since it grow by one from the first to the second.
pub proof fn overnight_anchor_spans_midnight(d: i32, start: TimeOfDay, end: TimeOfDay)
    requires
        i32::MIN < d < i32::MAX,
        start.wf(),
        start.on_minute(),
        end.wf(),
        start.nanos() > end.nanos(),
    ensures
        ({
            let late = LocalDateTime { day: d, time: TimeOfDay { second_of_day: 86_340, nanosecond: 0 } };
            let early = LocalDateTime { day: (d + 1) as i32, time: TimeOfDay { second_of_day: 0, nanosecond: 0 } };
            let anchor = LocalDateTime { day: d, time: start };
            &&& anchor_of(late, start, end) == anchor
            &&& anchor_of(early, start, end) == anchor
            &&& minutes_between(anchor, early) == minutes_between(anchor, late) + 1
        }),
{
    let late = LocalDateTime { day: d, time: TimeOfDay { second_of_day: 86_340, nanosecond: 0 } };
    let early = LocalDateTime { day: (d + 1) as i32, time: TimeOfDay { second_of_day: 0, nanosecond: 0 } };
    let anchor = LocalDateTime { day: d, time: start };
    let sm = start.second_of_day as int / 60;
    assert(start.second_of_day as int == sm * 60);
    assert(sm <= 1439);
    assert(start.nanos() <= late.time.nanos());
    assert(late.instant() - anchor.instant() == (1439 - sm) * nanos_per_minute());
    assert(early.instant() - anchor.instant() == (1440 - sm) * nanos_per_minute()) by (
    nonlinear_arith)
        requires
            early.instant() == (d + 1) * nanos_per_day(),
            anchor.instant() == d * nanos_per_day() + sm * 60 * 1_000_000_000,
            nanos_per_day() == 1440 * nanos_per_minute(),
            nanos_per_minute() == 60 * 1_000_000_000,
    ;
    vstd::arithmetic::div_mod::lemma_div_multiples_vanish(1439 - sm, nanos_per_minute());
    vstd::arithmetic::div_mod::lemma_div_multiples_vanish(1440 - sm, nanos_per_minute());
}

/// The phase always lies in `[0, total)`, and is zero at the anchor itself.
pub proof fn phase_bounds(now: LocalDateTime, anchor: LocalDateTime, total: int)
    requires
        total > 0,
    ensures
        0 <= phase_of(now, anchor, total) < total,
        phase_of(anchor, anchor, total) == 0,
{
    assert(minutes_between(anchor, anchor) == 0);
    vstd::arithmetic::div_mod::lemma_small_mod(0, total as nat);
}

} // verus!
