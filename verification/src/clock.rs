//! Wall-clock time as milliseconds since the Unix epoch, the system clock in
//! whole seconds, and the monotonic clock by which rooms age.

use vstd::prelude::*;

verus! {

/// No reading of the wall clock reaches this many milliseconds: those of
/// 2^31 days.
pub const CLOCK_LIMIT_MILLIS: i64 = 185_542_587_187_200_000;

/// Reads the wall clock through `chrono::Utc::now` and converts the reading
/// with `DateTime::timestamp_millis`. The outside call takes the time that
/// has passed since the epoch and gives up where the system clock stands
/// before the epoch, so the reading is not negative; and it builds the
/// reading with `DateTime::from_timestamp`, which takes no more days than a
/// 32-bit number holds, so the reading stays below the milliseconds of 2^31
/// days. Which instant it is depends on the clock alone.
#[verifier::external_body]
pub(crate) fn wall_clock_millis() -> (now: i64)
    ensures
        0 <= now < CLOCK_LIMIT_MILLIS,
{
    chrono::Utc::now().timestamp_millis()
}

/// A reading of the system clock. Nothing of its inside is visible here: it
/// is carried to `since_epoch` and no further.
#[verifier::external_type_specification]
#[verifier::external_body]
pub struct ExSystemTime(std::time::SystemTime);

/// Reads the system clock through `std::time::SystemTime::now`. Nothing is
/// claimed of the reading.
#[verifier::external_body]
pub(crate) fn system_time_now() -> (now: std::time::SystemTime) {
    std::time::SystemTime::now()
}

/// The time from the epoch to `t` by `std::time::SystemTime::duration_since`,
/// or none where `t` lies before the epoch. Nothing is claimed of the span.
#[verifier::external_body]
pub(crate) fn since_epoch(t: &std::time::SystemTime) -> (elapsed: Option<std::time::Duration>) {
    t.duration_since(std::time::UNIX_EPOCH).ok()
}

/// The whole seconds of a span by `std::time::Duration::as_secs`. Nothing is
/// claimed of the number.
#[verifier::external_body]
pub(crate) fn whole_seconds_of(span: &std::time::Duration) -> (secs: u64) {
    span.as_secs()
}

/// An instant of the monotonic clock. Nothing of its inside is visible here:
/// it is carried to `millis_between` and no further.
#[verifier::external_type_specification]
#[verifier::external_body]
pub struct ExInstant(tokio::time::Instant);

/// Reads the monotonic clock through `tokio::time::Instant::now`. Nothing is
/// claimed of the instant that comes back.
#[verifier::external_body]
pub(crate) fn monotonic_now() -> (now: tokio::time::Instant) {
    tokio::time::Instant::now()
}

/// The milliseconds from `earlier` to `later` by
/// `tokio::time::Instant::duration_since`, which gives zero where `earlier`
/// is the later of the two. A span too long for the result type is held at
/// the type's largest value. Nothing is claimed of the number.
#[verifier::external_body]
pub(crate) fn millis_between(
    later: &tokio::time::Instant,
    earlier: &tokio::time::Instant,
) -> (millis: u64) {
    u64::try_from(later.duration_since(*earlier).as_millis()).unwrap_or(u64::MAX)
}

/// `t + d`, held at the largest representable instant.
pub open spec fn later(t: i64, d: i64) -> i64 {
    if t + d > i64::MAX {
        i64::MAX
    } else if t + d < i64::MIN {
        i64::MIN
    } else {
        (t + d) as i64
    }
}

/// The instant `d` milliseconds after `t`, held at the ends of the
/// representable range.
pub fn add_millis(t: i64, d: i64) -> (r: i64)
    ensures
        r == later(t, d),
{
    let sum: i128 = t as i128 + d as i128;
    if sum > i64::MAX as i128 {
        i64::MAX
    } else if sum < i64::MIN as i128 {
        i64::MIN
    } else {
        sum as i64
    }
}

/// Whether more than `d` milliseconds lie between `since` and `now`.
pub fn elapsed_more_than(now: i64, since: i64, d: i64) -> (r: bool)
    ensures
        r == (now - since > d),
{
    now as i128 - since as i128 > d as i128
}

/// Whole seconds since the epoch, rounded down.
pub open spec fn whole_seconds(millis: i64) -> int {
    millis as int / 1000
}

/// Whole seconds of a reading in milliseconds, rounded down.
pub fn seconds_of_millis(millis: i64) -> (secs: i64)
    ensures
        secs == whole_seconds(millis),
{
    let q = millis / 1000;
    if millis % 1000 < 0 {
        q - 1
    } else {
        q
    }
}

/// The current wall-clock time in milliseconds since the epoch. It is not
/// negative and lies below `CLOCK_LIMIT_MILLIS`.
pub fn now_millis() -> (now: i64)
    ensures
        0 <= now < CLOCK_LIMIT_MILLIS,
{
    wall_clock_millis()
}

/// The current time of the system clock in whole seconds since the epoch;
/// a clock that stands before the epoch counts as zero.
pub fn now_timestamp() -> (now: u64) {
    let reading = system_time_now();
    match since_epoch(&reading) {
        Some(span) => whole_seconds_of(&span),
        None => 0,
    }
}

} // verus!
