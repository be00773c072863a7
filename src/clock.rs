//! Plain-value wall-clock types: a time of day and a local date-time.
use vstd::prelude::*;

verus! {

pub const NANOS_PER_SECOND: u32 = 1_000_000_000;

pub const SECONDS_PER_MINUTE: u32 = 60;

pub const SECONDS_PER_DAY: u32 = 86_400;

/// Nanoseconds in one minute.
pub open spec fn nanos_per_minute() -> int {
    60_000_000_000int
}

/// Nanoseconds in one day.
pub open spec fn nanos_per_day() -> int {
    86_400_000_000_000int
}

/// A local wall-clock time of day: whole seconds since midnight and the
/// nanoseconds past that second.
#[derive(Clone, Copy, Debug, PartialEq, Eq, Structural)]
pub struct TimeOfDay {
    pub second_of_day: u32,
    pub nanosecond: u32,
}

impl TimeOfDay {
    pub open spec fn wf(self) -> bool {
        self.second_of_day < SECONDS_PER_DAY && self.nanosecond < NANOS_PER_SECOND
    }

    /// The time of day as nanoseconds since midnight.
    pub open spec fn nanos(self) -> int {
        self.second_of_day as int * NANOS_PER_SECOND as int + self.nanosecond as int
    }

    /// The minute of the day that this time falls in.
    pub open spec fn minute_of_day(self) -> int {
        self.second_of_day as int / SECONDS_PER_MINUTE as int
    }

    /// A time that lies exactly on the start of a minute.
    pub open spec fn on_minute(self) -> bool {
        self.nanosecond == 0 && self.second_of_day % SECONDS_PER_MINUTE == 0
    }

    /// The first instant of the minute that this time falls in.
    pub open spec fn minute_start(self) -> TimeOfDay {
        TimeOfDay {
            second_of_day: (self.second_of_day / SECONDS_PER_MINUTE * SECONDS_PER_MINUTE) as u32,
            nanosecond: 0,
        }
    }

    /// The time `hour:minute:00`, if `hour` and `minute` lie on a 24-hour clock.
    pub open spec fn hm_spec(hour: u32, minute: u32) -> Option<TimeOfDay> {
        if hour < 24 && minute < 60 {
            Some(TimeOfDay { second_of_day: (hour * 3600 + minute * 60) as u32, nanosecond: 0 })
        } else {
            None
        }
    }

    /// Builds a time from seconds since midnight and nanoseconds; `None` when
    /// either is out of range.
    pub fn new(second_of_day: u32, nanosecond: u32) -> (r: Option<TimeOfDay>)
        ensures
            r is Some <==> second_of_day < SECONDS_PER_DAY && nanosecond < NANOS_PER_SECOND,
            r matches Some(t) ==> t.second_of_day == second_of_day && t.nanosecond == nanosecond,
    {
        if second_of_day < SECONDS_PER_DAY && nanosecond < NANOS_PER_SECOND {
            Some(TimeOfDay { second_of_day, nanosecond })
        } else {
            None
        }
    }

    /// Builds the time `hour:minute:00`; `None` unless `hour < 24` and `minute < 60`.
    pub fn from_hm(hour: u32, minute: u32) -> (r: Option<TimeOfDay>)
        ensures
            r == Self::hm_spec(hour, minute),
            r matches Some(t) ==> t.wf() && t.on_minute(),
    {
        if hour < 24 && minute < 60 {
            Some(TimeOfDay { second_of_day: hour * 3600 + minute * 60, nanosecond: 0 })
        } else {
            None
        }
    }

    /// The first instant of the minute that this time falls in.
    pub fn truncate_to_minute(&self) -> (r: TimeOfDay)
        requires
            self.wf(),
        ensures
            r == self.minute_start(),
            r.wf(),
            r.on_minute(),
            r.minute_of_day() == self.minute_of_day(),
            r.nanos() <= self.nanos(),
    {
        TimeOfDay {
            second_of_day: self.second_of_day / SECONDS_PER_MINUTE * SECONDS_PER_MINUTE,
            nanosecond: 0,
        }
    }

    /// Whether `self` is no later than `other` in the day.
    pub fn is_at_or_before(&self, other: &TimeOfDay) -> (r: bool)
        requires
            self.wf(),
            other.wf(),
        ensures
            r == (self.nanos() <= other.nanos()),
    {
        self.second_of_day < other.second_of_day || (self.second_of_day == other.second_of_day
            && self.nanosecond <= other.nanosecond)
    }
}

/// The weekday of a day count, 1 for Monday through 7 for Sunday. Day 1 is
/// January 1 of year 1 of the proleptic Gregorian calendar, a Monday.
pub open spec fn weekday_of(day: int) -> int {
    (day - 1) % 7 + 1
}

/// A local date and time: the date as a count of days, with day 1 on January 1
/// of year 1 (proleptic Gregorian), and the time of day.
#[derive(Clone, Copy, Debug, PartialEq, Eq, Structural)]
pub struct LocalDateTime {
    pub day: i32,
    pub time: TimeOfDay,
}

impl LocalDateTime {
    pub open spec fn wf(self) -> bool {
        self.time.wf()
    }

    /// The moment as nanoseconds since the start of day 0.
    pub open spec fn instant(self) -> int {
        self.day as int * nanos_per_day() + self.time.nanos()
    }

    /// Builds a date-time from a day count and a time of day.
    pub fn new(day: i32, time: TimeOfDay) -> (r: LocalDateTime)
        ensures
            r.day == day,
            r.time == time,
    {
        LocalDateTime { day, time }
    }

    /// The weekday of this date, 1 for Monday through 7 for Sunday.
    pub fn weekday(&self) -> (r: u8)
        ensures
            r as int == weekday_of(self.day as int),
            1 <= r <= 7,
    {
        // 2_800_000_000 is a multiple of 7 that lifts every day count above zero.
        let shifted: u64 = (self.day as i64 - 1 + 2_800_000_000i64) as u64;
        let r: u8 = (shifted % 7) as u8 + 1;
        assert((self.day as int - 1 + 2_800_000_000) % 7 == (self.day as int - 1) % 7) by {
            vstd::arithmetic::div_mod::lemma_mod_add_multiples_vanish(
                self.day as int - 1,
                7,
            );
            assert(2_800_000_000int == 400_000_000int * 7);
            vstd::arithmetic::div_mod::lemma_mod_multiples_vanish(
                400_000_000,
                self.day as int - 1,
                7,
            );
        }
        r
    }
}

} // verus!
