//! The current time, as the scheduler reads it: nanoseconds since the Unix
//! epoch (UTC).
use vstd::prelude::*;

verus! {

/// The first second that a UTC date and time can have, in seconds since the
/// Unix epoch: midnight at the start of January 1 of year -262143.
pub const MIN_CLOCK_SECS: i64 = -8_334_601_228_800i64;

/// The last second that a UTC date and time can have, in seconds since the
/// Unix epoch: 23:59:59 on December 31 of year 262142.
pub const MAX_CLOCK_SECS: i64 = 8_210_266_876_799i64;

/// Nanoseconds in a second.
pub const NANOS_PER_SEC: i128 = 1_000_000_000i128;

/// The first instant that a UTC date and time can have, in nanoseconds
/// since the Unix epoch.
pub const MIN_CLOCK_NANOS: i128 = -8_334_601_228_800_000_000_000i128;

/// The last instant that a UTC date and time can have, in nanoseconds since
/// the Unix epoch.
pub const MAX_CLOCK_NANOS: i128 = 8_210_266_876_799_999_999_999i128;

/// Reads the system clock (`std::time::SystemTime::now`), turns the reading
/// into a UTC date and time with chrono's `DateTime::<Utc>::from`, and gives
/// it as whole seconds since the Unix epoch (`DateTime::timestamp`) and the
/// nanoseconds past that second (`DateTime::timestamp_subsec_nanos`).
///
/// Claimed of the outside code: the seconds lie within the range of a UTC
/// date and time that chrono can hold (a clock set before the epoch gives
/// negative seconds), and the nanoseconds are below one second, since the
/// conversion from `SystemTime` never makes a leap second. Which instant it
/// is depends on the machine and is left unsaid. chrono's conversion stops
/// the program only for a clock more than 260,000 years away from 1970,
/// beyond any date it can hold; the function takes no input by which that
/// machine state could be left out.
#[verifier::external_body]
fn utc_clock_reading() -> (r: (i64, u32))
    ensures
        MIN_CLOCK_SECS <= r.0 <= MAX_CLOCK_SECS,
        r.1 < 1_000_000_000,
{
    let now = chrono::DateTime::<chrono::Utc>::from(std::time::SystemTime::now());
    (now.timestamp(), now.timestamp_subsec_nanos())
}

/// The current time in nanoseconds since the Unix epoch: the clock's whole
/// seconds and its nanoseconds past them, within the range of a UTC date
/// and time.
pub fn utc_now_nanos() -> (now: i128)
    ensures
        MIN_CLOCK_NANOS <= now <= MAX_CLOCK_NANOS,
{
    let (secs, nanos) = utc_clock_reading();
    secs as i128 * NANOS_PER_SEC + nanos as i128
}

} // verus!
