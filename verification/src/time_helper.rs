//! Time sources: where the service takes the timestamps that it writes on a
//! new item.

use std::sync::Arc;
use vstd::prelude::*;

verus! {

/// An instant in UTC: the whole seconds since 1970-01-01 00:00:00, and the
/// nanoseconds into that second.
#[derive(Clone, Copy, Debug, PartialEq, Eq, Structural)]
pub struct Timestamp {
    pub secs: i64,
    pub nanos: u32,
}

impl Timestamp {
    /// 1970-01-01 00:00:00 UTC.
    pub open spec fn epoch() -> Timestamp {
        Timestamp { secs: 0, nanos: 0 }
    }
}

/// Anything that can say what time it is.
pub trait IntoTimerHelper {
    fn now(&self) -> Timestamp;
}

/// Whether `at` is a time that `timer` may give when it is asked.
pub open spec fn tells<T: IntoTimerHelper>(timer: &T, at: Timestamp) -> bool {
    call_ensures(T::now, (timer,), at)
}

/// The two time sources that the service ships with.
#[derive(Clone, Copy, Debug, PartialEq, Eq, Structural)]
pub enum TimerHelper {
    /// The machine's clock.
    Directly,
    /// A clock that stands still at the epoch, for runs that must repeat.
    Mock,
}

/// The instant at which chrono places the given civil date and time of day
/// in UTC, or `None` where chrono knows no such instant.
pub uninterp spec fn utc_instant(
    year: int,
    month: int,
    day: int,
    hour: int,
    min: int,
    sec: int,
) -> Option<Timestamp>;

/// chrono's `TimeZone::with_ymd_and_hms` on `Utc`, read back as a
/// [`Timestamp`] by `DateTime::timestamp` and
/// `DateTime::timestamp_subsec_nanos`.
///
/// Trusted: the result is a function of the arguments, and midnight of
/// 1970-01-01, from which chrono counts its timestamps, is second 0 with no
/// fraction.
#[verifier::external_body]
fn utc_timestamp(year: i32, month: u32, day: u32, hour: u32, min: u32, sec: u32) -> (at: Option<
    Timestamp,
>)
    ensures
        at == utc_instant(year as int, month as int, day as int, hour as int, min as int, sec as int),
        year == 1970 && month == 1 && day == 1 && hour == 0 && min == 0 && sec == 0 ==> at
            == Some(Timestamp::epoch()),
{
    match chrono::TimeZone::with_ymd_and_hms(&chrono::Utc, year, month, day, hour, min, sec).single() {
        Some(at) => {
            let at = at.naive_utc().and_utc();
            Some(Timestamp { secs: at.timestamp(), nanos: at.timestamp_subsec_nanos() })
        },
        None => None,
    }
}

/// chrono's `Utc::now`, read back as a [`Timestamp`].
///
/// Trusted: the nanoseconds stay below two seconds' worth, the range that
/// chrono documents for `timestamp_subsec_nanos` (the second half of it is
/// a leap second). Nothing is claimed of the seconds: they are whatever the
/// machine's clock says. chrono panics where that clock stands before the
/// epoch.
#[verifier::external_body]
fn utc_now() -> (at: Timestamp)
    ensures
        at.nanos < 2_000_000_000,
{
    let now = chrono::Utc::now().naive_local().and_utc();
    Timestamp { secs: now.timestamp(), nanos: now.timestamp_subsec_nanos() }
}

impl TimerHelper {
    /// This time source behind a shared pointer, ready to be handed to
    /// whoever needs the time.
    pub fn creation(&self) -> (shared: Arc<TimerHelper>)
        ensures
            *shared == *self,
    {
        match self {
            TimerHelper::Directly => Arc::new(TimerHelper::Directly),
            TimerHelper::Mock => Arc::new(TimerHelper::Mock),
        }
    }
}

impl IntoTimerHelper for TimerHelper {
    /// The current time: chrono's midnight of 1970-01-01 in UTC, which is the
    /// epoch, on the clock that stands still; what the machine's clock shows otherwise.
    fn now(&self) -> (at: Timestamp)
        ensures
            *self == TimerHelper::Mock ==> Some(at) == utc_instant(1970, 1, 1, 0, 0, 0) && at
                == Timestamp::epoch(),
            *self == TimerHelper::Directly ==> clock_shows(at),
            at.nanos < 2_000_000_000,
    {
        match self {
            TimerHelper::Directly => utc_now(),
            TimerHelper::Mock => utc_timestamp(1970, 1, 1, 0, 0, 0).unwrap(),
        }
    }
}

/// Whether `at` is a time that the machine's clock may show when it is read
/// through chrono. Which times those are is up to the machine.
pub closed spec fn clock_shows(at: Timestamp) -> bool {
    call_ensures(utc_now, (), at)
}

} // verus!
