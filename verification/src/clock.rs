//! The local wall clock, read through `chrono`.

use vstd::prelude::*;

verus! {

/// Reads the current hour of the day in the local time zone: the `hour` of
/// `chrono::Local::now()`. Trusted: chrono documents the hour as a number from
/// 0 to 23, and nothing else is claimed of it. chrono panics if the system
/// clock stands before 1970.
#[verifier::external_body]
pub(crate) fn local_hour() -> (hour: u32)
    ensures
        hour < 24,
{
    chrono::Timelike::hour(&chrono::Local::now())
}

/// Reads the current day of the year in the local time zone: the `ordinal` of
/// `chrono::Local::now()`. Trusted: chrono documents the ordinal as a number
/// from 1 to 366, and nothing else is claimed of it. chrono panics if the
/// system clock stands before 1970.
#[verifier::external_body]
pub(crate) fn local_day_of_year() -> (day: u32)
    ensures
        1 <= day <= 366,
{
    chrono::Datelike::ordinal(&chrono::Local::now())
}

} // verus!
