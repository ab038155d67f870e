//! Elapsed seconds as days, hours and minutes, and the phrase that shows them.

use crate::text::{push_space_padded, push_zero_padded, space_padded, zero_padded};
use vstd::prelude::*;
use vstd::string::StringExecFns;

verus! {

/// Seconds in a day.
pub const SECONDS_PER_DAY: i64 = 86400;

/// Seconds in an hour.
pub const SECONDS_PER_HOUR: i64 = 3600;

/// Seconds in a minute.
pub const SECONDS_PER_MINUTE: i64 = 60;

/// Which of the three wordings a duration is shown in.
#[derive(Clone, Copy, Debug, PartialEq, Eq, Structural)]
pub enum Phrasing {
    /// Less than a day: hours and minutes only.
    Clock,
    /// Exactly one whole day, then hours and minutes.
    OneDay,
    /// Two whole days or more, then hours and minutes.
    ManyDays,
}

/// An elapsed time cut into whole days, hours of the last day and minutes of
/// the last hour. Seconds below the minute are dropped, never rounded.
#[derive(Clone, Copy, Debug, PartialEq, Eq, Structural)]
pub struct UpDuration {
    pub days: i64,
    pub hours: i64,
    pub minutes: i64,
}

/// Whole days in `seconds`.
pub open spec fn days_of(seconds: int) -> int {
    seconds / 86400
}

/// Whole hours in `seconds` beyond the whole days.
pub open spec fn hours_of(seconds: int) -> int {
    (seconds / 3600) % 24
}

/// Whole minutes in `seconds` beyond the whole hours.
pub open spec fn minutes_of(seconds: int) -> int {
    (seconds / 60) % 60
}

/// The wording that goes with a number of whole days.
pub open spec fn phrasing_of(days: int) -> Phrasing {
    if days == 1 {
        Phrasing::OneDay
    } else if days > 1 {
        Phrasing::ManyDays
    } else {
        Phrasing::Clock
    }
}

/// Hours and minutes as shown in every wording: the hour right-aligned in two
/// columns, a colon, the minute as two digits.
pub open spec fn clock_text(hours: int, minutes: int) -> Seq<char> {
    space_padded(hours, 2) + ":"@ + zero_padded(minutes, 2)
}

/// The phrase for a duration of `days`, `hours` and `minutes`.
pub open spec fn phrase_text(days: int, hours: int, minutes: int) -> Seq<char> {
    match phrasing_of(days) {
        Phrasing::OneDay => "up "@ + space_padded(days, 1) + " day, "@ + clock_text(hours, minutes)
            + ",  "@,
        Phrasing::ManyDays => "up "@ + space_padded(days, 1) + " days, "@ + clock_text(
            hours,
            minutes,
        ) + ",  "@,
        Phrasing::Clock => "up  "@ + clock_text(hours, minutes) + ", "@,
    }
}

/// The phrase for an uptime of `seconds`.
pub open spec fn uptime_text(seconds: int) -> Seq<char> {
    phrase_text(days_of(seconds), hours_of(seconds), minutes_of(seconds))
}

impl UpDuration {
    /// The parts are those of some non-negative number of seconds: no
    /// negative day count, an hour of the day, a minute of the hour.
    pub open spec fn wf(&self) -> bool {
        &&& 0 <= self.days
        &&& 0 <= self.hours <= 23
        &&& 0 <= self.minutes <= 59
    }

    /// The seconds that the parts add up to.
    pub open spec fn total_seconds(&self) -> int {
        self.days * 86400 + self.hours * 3600 + self.minutes * 60
    }

    /// Cuts `seconds` into days, hours and minutes by floor division.
    pub fn from_seconds(seconds: i64) -> (d: UpDuration)
        requires
            seconds >= 0,
        ensures
            d.days == days_of(seconds as int),
            d.hours == hours_of(seconds as int),
            d.minutes == minutes_of(seconds as int),
            d.wf(),
            d.total_seconds() <= seconds < d.total_seconds() + 60,
    {
        let days: i64 = seconds / SECONDS_PER_DAY;
        let hours: i64 = (seconds - days * SECONDS_PER_DAY) / SECONDS_PER_HOUR;
        let minutes: i64 = (seconds - days * SECONDS_PER_DAY - hours * SECONDS_PER_HOUR)
            / SECONDS_PER_MINUTE;
        UpDuration { days, hours, minutes }
    }

    /// The wording this duration is shown in.
    pub fn phrasing(&self) -> (p: Phrasing)
        ensures
            p == phrasing_of(self.days as int),
    {
        if self.days == 1 {
            Phrasing::OneDay
        } else if self.days > 1 {
            Phrasing::ManyDays
        } else {
            Phrasing::Clock
        }
    }

    /// The phrase that shows this duration.
    pub fn phrase(&self) -> (s: String)
        ensures
            s@ == phrase_text(self.days as int, self.hours as int, self.minutes as int),
    {
        let mut s: String = String::new();
        match self.phrasing() {
            Phrasing::OneDay => {
                s.append("up ");
                push_space_padded(&mut s, self.days, 1);
                s.append(" day, ");
                self.push_clock(&mut s);
                s.append(",  ");
            },
            Phrasing::ManyDays => {
                s.append("up ");
                push_space_padded(&mut s, self.days, 1);
                s.append(" days, ");
                self.push_clock(&mut s);
                s.append(",  ");
            },
            Phrasing::Clock => {
                s.append("up  ");
                self.push_clock(&mut s);
                s.append(", ");
            },
        }
        assert(s@ =~= phrase_text(self.days as int, self.hours as int, self.minutes as int));
        s
    }

    fn push_clock(&self, out: &mut String)
        ensures
            final(out)@ == old(out)@ + clock_text(self.hours as int, self.minutes as int),
    {
        push_space_padded(out, self.hours, 2);
        out.append(":");
        push_zero_padded(out, self.minutes, 2);
        assert(out@ =~= old(out)@ + clock_text(self.hours as int, self.minutes as int));
    }
}

/// The phrase that reports an uptime of `upsecs` seconds: the days, when there
/// are any, then hours and minutes.
pub fn print_uptime(upsecs: i64) -> (s: String)
    requires
        upsecs >= 0,
    ensures
        s@ == uptime_text(upsecs as int),
{
    UpDuration::from_seconds(upsecs).phrase()
}

/// Days, hours and minutes lose less than a minute of the seconds they were
/// cut from, and the hours and minutes stay within a day and an hour.
pub proof fn lemma_parts_bracket_seconds(seconds: int)
    requires
        seconds >= 0,
    ensures
        0 <= days_of(seconds),
        0 <= hours_of(seconds) <= 23,
        0 <= minutes_of(seconds) <= 59,
        days_of(seconds) * 86400 + hours_of(seconds) * 3600 + minutes_of(seconds) * 60 <= seconds,
        seconds < days_of(seconds) * 86400 + hours_of(seconds) * 3600 + (minutes_of(seconds) + 1)
            * 60,
{
}

/// The wording follows the day count alone: none, one, or more.
pub proof fn lemma_phrasing_by_days(seconds: int)
    requires
        seconds >= 0,
    ensures
        seconds < 86400 <==> phrasing_of(days_of(seconds)) == Phrasing::Clock,
        86400 <= seconds < 2 * 86400 <==> phrasing_of(days_of(seconds)) == Phrasing::OneDay,
        2 * 86400 <= seconds <==> phrasing_of(days_of(seconds)) == Phrasing::ManyDays,
{
}

} // verus!
