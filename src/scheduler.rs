//! The decision made on each polling tick: which reminder, if any, is due.
use vstd::prelude::*;
use crate::clock::{nanos_per_minute, weekday_of, LocalDateTime, TimeOfDay};
use crate::settings::{parse_time_of_day, time_of, AppSettings};
use crate::window::{
    anchor_is_recent, anchor_of, anchor_time, cycle_phase, in_window, is_within_window,
    minutes_between, phase_bounds, phase_of,
};

verus! {

/// A reminder to deliver.
#[derive(Clone, Copy, Debug, PartialEq, Eq, Structural)]
pub enum Reminder {
    /// A work segment begins.
    WorkStart,
    /// A break segment begins.
    BreakStart,
}

impl Reminder {
    /// The reminder's category: `work-start` or `break-start`.
    pub fn category(&self) -> (r: &'static str)
        ensures
            *self == Reminder::WorkStart ==> r@ == "work-start"@,
            *self == Reminder::BreakStart ==> r@ == "break-start"@,
    {
        match self {
            Reminder::WorkStart => "work-start",
            Reminder::BreakStart => "break-start",
        }
    }

    /// The title of the notification.
    pub fn title(&self) -> (r: &'static str)
        ensures
            r@ == "时间到！"@,
    {
        "时间到！"
    }

    /// The body of the notification.
    pub fn message(&self) -> (r: &'static str)
        ensures
            *self == Reminder::WorkStart ==> r@ == "该工作了！"@,
            *self == Reminder::BreakStart ==> r@ == "该休息了！"@,
    {
        match self {
            Reminder::WorkStart => "该工作了！",
            Reminder::BreakStart => "该休息了！",
        }
    }
}

/// The reminder due at `now` for a cycle of `work` then `brk` minutes, a
/// window from `start` to `end` and the weekdays `days`: none off those days,
/// outside the window or for an empty cycle; otherwise work starts at phase
/// zero and the break at phase `work`. The window is tested with the minute
/// that `now` falls in, so every moment of a minute decides alike.
pub open spec fn reminder_for(
    work: int,
    brk: int,
    days: Seq<u8>,
    start: TimeOfDay,
    end: TimeOfDay,
    now: LocalDateTime,
) -> Option<Reminder> {
    if !days.contains(weekday_of(now.day as int) as u8) {
        None
    } else if !in_window(now.time.minute_start().nanos(), start.nanos(), end.nanos()) {
        None
    } else if work + brk == 0 {
        None
    } else {
        let phase = phase_of(now, anchor_of(now, start, end), work + brk);
        if phase == 0 {
            Some(Reminder::WorkStart)
        } else if phase == work {
            Some(Reminder::BreakStart)
        } else {
            None
        }
    }
}

/// The reminder due at `now` under settings `s`; none where a time of the
/// window does not read as `HH:MM`.
pub open spec fn tick_outcome(s: AppSettings, now: LocalDateTime) -> Option<Reminder> {
    match (time_of(s.start_time@), time_of(s.end_time@)) {
        (Some(start), Some(end)) => reminder_for(
            s.work_duration as int,
            s.break_duration as int,
            s.active_days@,
            start,
            end,
            now,
        ),
        _ => None,
    }
}

fn is_active_day(days: &Vec<u8>, day: u8) -> (r: bool)
    ensures
        r == days@.contains(day),
{
    let mut i: usize = 0;
    while i < days.len()
        invariant
            0 <= i <= days.len(),
            forall|j: int| 0 <= j < i ==> days@[j] != day,
        decreases days.len() - i,
    {
        if days[i] == day {
            return true;
        }
        i += 1;
    }
    false
}

/// The reminder due at `now` for settings whose window runs from `start` to `end`.
pub fn evaluate(
    settings: &AppSettings,
    start: TimeOfDay,
    end: TimeOfDay,
    now: LocalDateTime,
) -> (r: Option<Reminder>)
    requires
        start.wf(),
        end.wf(),
        now.wf(),
        now.day > i32::MIN,
    ensures
        r == reminder_for(
            settings.work_duration as int,
            settings.break_duration as int,
            settings.active_days@,
            start,
            end,
            now,
        ),
{
    let weekday = now.weekday();
    if !is_active_day(&settings.active_days, weekday) {
        return None;
    }
    let minute = now.time.truncate_to_minute();
    if !is_within_window(minute, start, end) {
        return None;
    }
    let anchor = anchor_time(now, start, end);
    let total_cycle: u64 = settings.work_duration as u64 + settings.break_duration as u64;
    if total_cycle == 0 {
        return None;
    }
    proof {
        anchor_is_recent(now, start, end);
    }
    let phase = cycle_phase(now, anchor, total_cycle);
    if phase == 0 {
        Some(Reminder::WorkStart)
    } else if phase == settings.work_duration as u64 {
        Some(Reminder::BreakStart)
    } else {
        None
    }
}

/// One polling tick: reads the window's times from `settings` and decides
/// which reminder is due at `now`. Times that do not read as `HH:MM` skip the
/// tick.
pub fn tick(settings: &AppSettings, now: LocalDateTime) -> (r: Option<Reminder>)
    requires
        now.wf(),
        now.day > i32::MIN,
    ensures
        r == tick_outcome(*settings, now),
{
    let start = parse_time_of_day(settings.start_time.as_str());
    let end = parse_time_of_day(settings.end_time.as_str());
    match (start, end) {
        (Some(start), Some(end)) => evaluate(settings, start, end, now),
        _ => None,
    }
}

proof fn lemma_minute_of(t: TimeOfDay)
    requires
        t.wf(),
    ensures
        t.minute_of_day() * nanos_per_minute() <= t.nanos() < (t.minute_of_day() + 1)
            * nanos_per_minute(),
{
    let m = t.minute_of_day();
    let s = t.second_of_day as int;
    assert(m * 60 <= s < (m + 1) * 60);
    assert(m * nanos_per_minute() <= t.nanos() < (m + 1) * nanos_per_minute()) by (nonlinear_arith)
        requires
            m * 60 <= s < (m + 1) * 60,
            t.nanos() == s * 1_000_000_000 + t.nanosecond as int,
            0 <= t.nanosecond < 1_000_000_000,
            nanos_per_minute() == 60_000_000_000,
    ;
}

proof fn lemma_on_minute(u: TimeOfDay)
    requires
        u.wf(),
        u.on_minute(),
    ensures
        u.nanos() == u.minute_of_day() * nanos_per_minute(),
{
    let s = u.second_of_day as int;
    assert(s == u.minute_of_day() * 60);
    assert(u.nanos() == u.minute_of_day() * nanos_per_minute()) by (nonlinear_arith)
        requires
            s == u.minute_of_day() * 60,
            u.nanos() == s * 1_000_000_000,
            nanos_per_minute() == 60_000_000_000,
    ;
}

/// Comparing a time with one on a minute boundary depends on the minutes
/// alone, but for the comparison `t <= u` within `u`'s own minute.
proof fn lemma_compare_minutes(t: TimeOfDay, u: TimeOfDay)
    requires
        t.wf(),
        u.wf(),
        u.on_minute(),
    ensures
        (u.nanos() <= t.nanos()) == (u.minute_of_day() <= t.minute_of_day()),
        t.minute_of_day() != u.minute_of_day() ==> ((t.nanos() <= u.nanos()) == (
        t.minute_of_day() < u.minute_of_day())),
{
    lemma_minute_of(t);
    lemma_on_minute(u);
    let (mt, mu) = (t.minute_of_day(), u.minute_of_day());
    assert(mu <= mt ==> mu * nanos_per_minute() <= mt * nanos_per_minute()) by (nonlinear_arith);
    assert(mt < mu ==> (mt + 1) * nanos_per_minute() <= mu * nanos_per_minute()) by (
    nonlinear_arith);
    assert(mu > mt + 1 ==> (mt + 1) * nanos_per_minute() < mu * nanos_per_minute()) by (
    nonlinear_arith);
    assert(mt < mu ==> mt * nanos_per_minute() < mu * nanos_per_minute()) by (nonlinear_arith);
    assert(mu < mt ==> (mu + 1) * nanos_per_minute() <= mt * nanos_per_minute()) by (
    nonlinear_arith);
}

/// Two moments in the same minute of the same day have the same phase in a
/// cycle anchored at a window start that lies on a minute boundary.
pub proof fn same_minute_same_phase(
    a: LocalDateTime,
    b: LocalDateTime,
    start: TimeOfDay,
    end: TimeOfDay,
    total: int,
)
    requires
        a.wf(),
        b.wf(),
        start.wf(),
        start.on_minute(),
        a.day == b.day,
        a.time.minute_of_day() == b.time.minute_of_day(),
        total > 0,
    ensures
        anchor_of(a, start, end) == anchor_of(b, start, end),
        phase_of(a, anchor_of(a, start, end), total) == phase_of(
            b,
            anchor_of(b, start, end),
            total,
        ),
{
    lemma_compare_minutes(a.time, start);
    lemma_compare_minutes(b.time, start);
    let anchor = anchor_of(a, start, end);
    assert(minutes_between(anchor, a) == minutes_between(anchor, b)) by {
        lemma_minute_of(a.time);
        lemma_minute_of(b.time);
        lemma_on_minute(start);
        let m = a.time.minute_of_day();
        let q = (a.day as int - anchor.day as int) * 1440 - start.minute_of_day() + m;
        let ra = a.time.nanos() - m * nanos_per_minute();
        let rb = b.time.nanos() - m * nanos_per_minute();
        assert(a.instant() - anchor.instant() == q * nanos_per_minute() + ra) by (nonlinear_arith)
            requires
                a.instant() == a.day as int * 86_400_000_000_000 + a.time.nanos(),
                anchor.instant() == anchor.day as int * 86_400_000_000_000 + start.minute_of_day()
                    * nanos_per_minute(),
                nanos_per_minute() == 60_000_000_000,
                q == (a.day as int - anchor.day as int) * 1440 - start.minute_of_day() + m,
                ra == a.time.nanos() - m * nanos_per_minute(),
        ;
        assert(b.instant() - anchor.instant() == q * nanos_per_minute() + rb) by (nonlinear_arith)
            requires
                b.instant() == b.day as int * 86_400_000_000_000 + b.time.nanos(),
                a.day == b.day,
                anchor.instant() == anchor.day as int * 86_400_000_000_000 + start.minute_of_day()
                    * nanos_per_minute(),
                nanos_per_minute() == 60_000_000_000,
                q == (a.day as int - anchor.day as int) * 1440 - start.minute_of_day() + m,
                rb == b.time.nanos() - m * nanos_per_minute(),
        ;
        vstd::arithmetic::div_mod::lemma_fundamental_div_mod_converse(
            a.instant() - anchor.instant(),
            nanos_per_minute(),
            q,
            ra,
        );
        vstd::arithmetic::div_mod::lemma_fundamental_div_mod_converse(
            b.instant() - anchor.instant(),
            nanos_per_minute(),
            q,
            rb,
        );
    }
}

/// Ticks that fall in the same minute of the same day, under the same
/// settings, decide the same reminder.
pub proof fn same_minute_same_reminder(s: AppSettings, a: LocalDateTime, b: LocalDateTime)
    requires
        a.wf(),
        b.wf(),
        a.day == b.day,
        a.time.minute_of_day() == b.time.minute_of_day(),
    ensures
        tick_outcome(s, a) == tick_outcome(s, b),
{
    if let (Some(start), Some(end)) = (time_of(s.start_time@), time_of(s.end_time@)) {
        lemma_compare_minutes(a.time, start);
        lemma_compare_minutes(b.time, start);
        assert(a.time.minute_start() == b.time.minute_start());
        let total = s.work_duration as int + s.break_duration as int;
        if total > 0 {
            same_minute_same_phase(a, b, start, end, total);
        }
    }
}

/// A tick at the very start of the window, on an active day and with a
/// non-empty cycle, starts work: the phase at the anchor is zero.
pub proof fn tick_at_anchor_starts_work(s: AppSettings, now: LocalDateTime)
    requires
        now.wf(),
        time_of(s.start_time@) is Some,
        time_of(s.end_time@) is Some,
        now == anchor_of(now, time_of(s.start_time@)->0, time_of(s.end_time@)->0),
        s.active_days@.contains(weekday_of(now.day as int) as u8),
        s.work_duration + s.break_duration > 0,
    ensures
        tick_outcome(s, now) == Some(Reminder::WorkStart),
{
    let start = time_of(s.start_time@)->0;
    let end = time_of(s.end_time@)->0;
    lemma_compare_minutes(now.time, start);
    lemma_on_minute(start);
    assert(now.time.minute_start().nanos() == start.nanos());
    phase_bounds(now, now, s.work_duration + s.break_duration);
}

/// Without break time the cycle is all work, and no tick ever starts a break.
pub proof fn no_break_reminder_without_break(s: AppSettings, now: LocalDateTime)
    requires
        s.break_duration == 0,
    ensures
        tick_outcome(s, now) != Some(Reminder::BreakStart),
{
    if let (Some(start), Some(end)) = (time_of(s.start_time@), time_of(s.end_time@)) {
        if s.work_duration > 0 {
            phase_bounds(now, anchor_of(now, start, end), s.work_duration as int);
        }
    }
}

/// An empty cycle, of no work and no break, never brings a reminder.
pub proof fn empty_cycle_never_reminds(s: AppSettings, now: LocalDateTime)
    requires
        s.work_duration == 0,
        s.break_duration == 0,
    ensures
        tick_outcome(s, now) is None,
{
}

} // verus!
