//! How long the host has been up, from the best source at hand.

use crate::clock::seconds_since_epoch;
use crate::counter::{counter_value, parse_counter};
use vstd::prelude::*;

verus! {

/// The value that stands for an uptime that could not be determined.
pub const UPTIME_UNKNOWN: i64 = -1;

/// The hundredths of a second that the counter's text tells, where there is
/// such a text and it reads as a number.
pub open spec fn counter_reading(counter: Option<Seq<char>>) -> Option<i64> {
    match counter {
        Some(text) => counter_value(text),
        None => None,
    }
}

/// The hundredths of a second between a boot at `boot_time` and `now`, both
/// in seconds since the epoch. Negative where the clock stands before the
/// boot.
pub open spec fn since_boot(boot_time: int, now: int) -> int {
    (now - boot_time) * 100
}

/// What is left where the counter tells nothing: the time since the boot if
/// the boot time is known and that time fits the result, else the tick count
/// if the platform has one, else the unknown uptime.
pub open spec fn fallback_uptime(boot_time: Option<i64>, ticks: Option<i64>, now: i64) -> int {
    match boot_time {
        Some(t) => if i64::MIN <= since_boot(t as int, now as int) <= i64::MAX {
            since_boot(t as int, now as int)
        } else {
            -1
        },
        None => match ticks {
            Some(count) => count as int,
            None => -1,
        },
    }
}

/// The uptime in hundredths of a second: what the counter tells where it
/// tells anything, whatever the other sources would give; else the fallback.
pub open spec fn resolved_uptime(
    counter: Option<Seq<char>>,
    boot_time: Option<i64>,
    ticks: Option<i64>,
    now: i64,
) -> int {
    match counter_reading(counter) {
        Some(n) => n as int,
        None => fallback_uptime(boot_time, ticks, now),
    }
}

/// The view of a text that may be missing.
pub open spec fn text_view(text: Option<&str>) -> Option<Seq<char>> {
    match text {
        Some(t) => Some(t@),
        None => None,
    }
}

/// Reads the counter's text, if there is one.
pub fn read_counter(counter: Option<&str>) -> (value: Option<i64>)
    ensures
        value == counter_reading(text_view(counter)),
{
    match counter {
        Some(text) => parse_counter(text),
        None => None,
    }
}

/// The hundredths of a second from `boot_time` to `now`, where a signed
/// 64-bit integer holds them.
pub fn elapsed_since_boot(boot_time: i64, now: i64) -> (elapsed: Option<i64>)
    ensures
        match elapsed {
            Some(e) => e == since_boot(boot_time as int, now as int),
            None => !(i64::MIN <= since_boot(boot_time as int, now as int) <= i64::MAX),
        },
{
    match now.checked_sub(boot_time) {
        Some(seconds) => seconds.checked_mul(100),
        None => None,
    }
}

/// The uptime where the counter tells nothing, with the clock at `now`.
pub fn fallback(boot_time: Option<i64>, ticks: Option<i64>, now: i64) -> (uptime: i64)
    ensures
        uptime == fallback_uptime(boot_time, ticks, now),
{
    match boot_time {
        Some(t) => match elapsed_since_boot(t, now) {
            Some(elapsed) => elapsed,
            None => UPTIME_UNKNOWN,
        },
        None => match ticks {
            Some(count) => count,
            None => UPTIME_UNKNOWN,
        },
    }
}

/// The uptime in hundredths of a second, with the clock at `now`. `counter`
/// is the text of the kernel's counter where it could be read, `boot_time`
/// what the accounting records tell, `ticks` the platform's tick count where
/// it has one.
pub fn resolve_uptime(
    counter: Option<&str>,
    boot_time: Option<i64>,
    ticks: Option<i64>,
    now: i64,
) -> (uptime: i64)
    ensures
        uptime == resolved_uptime(text_view(counter), boot_time, ticks, now),
{
    match read_counter(counter) {
        Some(n) => n,
        None => fallback(boot_time, ticks, now),
    }
}

/// The uptime in hundredths of a second. The clock is read only where the
/// counter tells nothing and the boot time is known.
pub fn get_uptime(counter: Option<&str>, boot_time: Option<i64>, ticks: Option<i64>) -> (uptime:
    i64)
    ensures
        exists|now: i64| uptime == #[trigger] resolved_uptime(
            text_view(counter),
            boot_time,
            ticks,
            now,
        ),
        counter_reading(text_view(counter)) matches Some(n) ==> uptime == n,
        counter_reading(text_view(counter)) is None && boot_time is None ==> uptime == match ticks {
            Some(count) => count,
            None => UPTIME_UNKNOWN,
        },
{
    match read_counter(counter) {
        Some(n) => {
            assert(n == resolved_uptime(text_view(counter), boot_time, ticks, 0));
            n
        },
        None => {
            let now: i64 = match boot_time {
                Some(_) => seconds_since_epoch(),
                None => 0,
            };
            let uptime: i64 = fallback(boot_time, ticks, now);
            assert(uptime == resolved_uptime(text_view(counter), boot_time, ticks, now));
            uptime
        },
    }
}

/// A counter that reads as a number is the uptime, whatever the boot time,
/// the tick count and the clock are.
pub proof fn lemma_counter_wins(
    counter: Option<Seq<char>>,
    boot_time: Option<i64>,
    ticks: Option<i64>,
    now: i64,
)
    requires
        counter_reading(counter) is Some,
    ensures
        resolved_uptime(counter, boot_time, ticks, now) == counter_reading(counter)->0,
{
}

/// Without a counter that reads as a number, a known boot time gives the
/// time from it to the clock, in hundredths of a second, wherever that fits.
pub proof fn lemma_boot_time_is_second(
    counter: Option<Seq<char>>,
    boot_time: i64,
    ticks: Option<i64>,
    now: i64,
)
    requires
        counter_reading(counter) is None,
        i64::MIN <= (now - boot_time) * 100 <= i64::MAX,
    ensures
        resolved_uptime(counter, Some(boot_time), ticks, now) == (now - boot_time) * 100,
{
}

/// Without a counter that reads as a number and without a boot time, the
/// uptime is the tick count, and unknown where the platform has none.
pub proof fn lemma_ticks_are_last(counter: Option<Seq<char>>, ticks: Option<i64>, now: i64)
    requires
        counter_reading(counter) is None,
    ensures
        resolved_uptime(counter, None, ticks, now) == match ticks {
            Some(count) => count as int,
            None => UPTIME_UNKNOWN as int,
        },
{
}

/// The uptime always fits a signed 64-bit integer.
pub proof fn lemma_resolved_fits(
    counter: Option<Seq<char>>,
    boot_time: Option<i64>,
    ticks: Option<i64>,
    now: i64,
)
    ensures
        i64::MIN <= resolved_uptime(counter, boot_time, ticks, now) <= i64::MAX,
{
}

} // verus!
