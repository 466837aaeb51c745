//! The time of day.
use crate::text::decimal;
use vstd::prelude::*;

verus! {

/// Calls `SystemTime::elapsed` on the Unix epoch and gives the milliseconds of
/// the duration, or `None` where the clock stands before the epoch. Nothing is
/// claimed of the result: it depends on the clock.
#[verifier::external_body]
fn unix_millis() -> (time: Option<u128>) {
    match std::time::SystemTime::UNIX_EPOCH.elapsed() {
        Ok(elapsed) => Some(elapsed.as_millis()),
        Err(_) => None,
    }
}

/// The time that a reading of the clock stands for; a clock before the epoch
/// reads zero.
pub fn time_of(reading: Option<u128>) -> (time: u128)
    ensures
        time == (match reading {
            Some(millis) => millis,
            None => 0,
        }),
{
    match reading {
        Some(millis) => millis,
        None => 0,
    }
}

/// Makes one reading with `clock` and hands it on.
fn read_once<F: Fn() -> Option<u128>>(clock: F) -> (reading: Option<u128>)
    requires
        clock.requires(()),
    ensures
        clock.ensures((), reading),
{
    clock()
}

/// `time` is what the clock gave: the call of the clock returned the reading that
/// it stands for.
pub closed spec fn is_clock_time(time: u128) -> bool {
    exists|reading: Option<u128>| #[trigger]
        call_ensures(unix_millis, (), reading) && time == (match reading {
            Some(millis) => millis,
            None => 0,
        })
}

/// The text is the decimal numeral of a time that the clock gave.
pub open spec fn is_time_numeral(text: Seq<char>) -> bool {
    exists|time: u128| #[trigger] is_clock_time(time) && text == decimal(time as nat)
}

/// A clock time comes from the clock: some call of it returned the reading, and
/// the time is the milliseconds read, or zero before the epoch.
proof fn law_clock_times_are_readings(time: u128)
    requires
        is_clock_time(time),
    ensures
        call_ensures(unix_millis, (), Some(time)) || (time == 0 && call_ensures(
            unix_millis,
            (),
            None,
        )),
{
}

/// The milliseconds since the Unix epoch, as [`time_of`] takes them from the
/// clock. Which time it is depends on the clock; that it comes from the clock is
/// stated.
pub fn get_time() -> (time: u128)
    ensures
        is_clock_time(time),
{
    time_of(read_once(unix_millis))
}

} // verus!
