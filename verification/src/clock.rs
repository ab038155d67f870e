//! The wall clock: the time of day that opens the report, and the seconds
//! since the epoch that an uptime is reckoned from.

use crate::text::{lemma_two_places, push_zero_padded, zero_padded};
use vstd::prelude::*;
use vstd::string::StringExecFns;

verus! {

/// A time of day on the local clock.
#[derive(Clone, Copy, Debug, PartialEq, Eq, Structural)]
pub struct ClockTime {
    pub hour: i32,
    pub minute: i32,
    pub second: i32,
}

/// The time of day as the report shows it: two digits each for hour, minute
/// and second, colons between them, one space before and one after.
pub open spec fn time_text(hour: int, minute: int, second: int) -> Seq<char> {
    " "@ + zero_padded(hour, 2) + ":"@ + zero_padded(minute, 2) + ":"@ + zero_padded(second, 2)
        + " "@
}

impl ClockTime {
    /// The hour is one of a day's, the minute one of an hour's, and the
    /// second one of a minute's, a leap second counted in.
    pub open spec fn wf(&self) -> bool {
        &&& 0 <= self.hour <= 23
        &&& 0 <= self.minute <= 59
        &&& 0 <= self.second <= 60
    }

    /// The text of this time of day.
    pub open spec fn text(&self) -> Seq<char> {
        time_text(self.hour as int, self.minute as int, self.second as int)
    }

    /// This time of day as the report shows it.
    pub fn render(&self) -> (s: String)
        ensures
            s@ == self.text(),
    {
        let mut s: String = String::new();
        s.append(" ");
        push_zero_padded(&mut s, self.hour as i64, 2);
        s.append(":");
        push_zero_padded(&mut s, self.minute as i64, 2);
        s.append(":");
        push_zero_padded(&mut s, self.second as i64, 2);
        s.append(" ");
        assert(s@ =~= self.text());
        s
    }
}

/// A time of day takes ten characters: a space, two digits, a colon, two
/// digits, a colon, two digits, a space.
pub proof fn lemma_time_text_shape(time: ClockTime)
    requires
        time.wf(),
    ensures
        time.text().len() == 10,
        time.text()[0] == ' ',
        time.text()[3] == ':',
        time.text()[6] == ':',
        time.text()[9] == ' ',
{
    reveal_strlit(" ");
    reveal_strlit(":");
    lemma_two_places(time.hour as nat);
    lemma_two_places(time.minute as nat);
    lemma_two_places(time.second as nat);
}

/// Reads the local time of day through `time::now`, which asks the system
/// clock and the time zone in force. Nothing is known of the moment it
/// returns but what the crate documents of the fields: an hour from 0 to 23,
/// a minute from 0 to 59, a second from 0 to 60. The call does not return
/// where the system cannot break the current time down, which it can for any
/// year that fits its calendar.
#[verifier::external_body]
fn local_time_of_day() -> (now: ClockTime)
    ensures
        now.wf(),
{
    let tm = time::now();
    ClockTime { hour: tm.tm_hour, minute: tm.tm_min, second: tm.tm_sec }
}

/// Reads the system clock through `time::get_time` and hands back the whole
/// seconds since the epoch. Nothing is claimed of the value: the clock may
/// stand anywhere and may have been set back between two calls.
#[verifier::external_body]
pub(crate) fn seconds_since_epoch() -> (seconds: i64) {
    time::get_time().sec
}

/// The current local time of day, as the text that opens the report.
pub fn print_time() -> (s: String)
    ensures
        exists|now: ClockTime| #[trigger] now.wf() && s@ == now.text(),
{
    let now: ClockTime = local_time_of_day();
    now.render()
}

} // verus!
