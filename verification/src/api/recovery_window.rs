//! The start of the window in which a recovered post is looked for.

use chrono::{DateTime, TimeDelta};
use vstd::prelude::*;

verus! {

/// Seconds before the publish request from which posts are considered. They
/// absorb clock skew between this machine and the API's servers, without
/// widening the search enough to meet unrelated posts.
pub const PUBLISH_RECOVERY_WINDOW_SECS: u64 = 5;

/// First second that a [`DateTime`] can hold: January 1, 262144 BCE.
pub const MIN_UTC_SECS: i64 = -8_334_601_228_800;

/// Last second that a [`DateTime`] can hold: December 31, 262142 CE.
pub const MAX_UTC_SECS: i64 = 8_210_266_876_799;

/// An instant in UTC, as the two values that name it: the instant's Unix
/// timestamp, and the nanoseconds since then. A billion nanoseconds and more
/// stand for a leap second, which only the last second of a minute can have.
#[derive(Clone, Copy, Debug, PartialEq, Eq, Structural)]
pub struct UtcInstant {
    /// Non-leap seconds since January 1, 1970.
    pub secs: i64,
    /// Nanoseconds since that second began.
    pub nanos: u32,
}

impl UtcInstant {
    /// The values name an instant that a [`DateTime`] can hold.
    pub open spec fn valid(self) -> bool {
        &&& MIN_UTC_SECS <= self.secs <= MAX_UTC_SECS
        &&& self.nanos < 2_000_000_000
        &&& self.nanos >= 1_000_000_000 ==> self.secs % 60 == 59
    }

    /// The timestamp of the second in which this instant lies, where a leap
    /// second counts as the second that follows.
    pub open spec fn whole_secs(self) -> int {
        self.secs + self.nanos / 1_000_000_000
    }

    /// The instant `window_secs` before this one can be held too.
    pub open spec fn reaches_back(self, window_secs: int) -> bool {
        &&& self.valid()
        &&& self.whole_secs() - window_secs >= MIN_UTC_SECS
    }

    /// Whether the instant that lies [`PUBLISH_RECOVERY_WINDOW_SECS`] before
    /// this one can be held in a [`DateTime`].
    pub fn window_fits(&self) -> (fits: bool)
        ensures
            fits == self.reaches_back(PUBLISH_RECOVERY_WINDOW_SECS as int),
            self.nanos < 1_000_000_000 ==> (fits <==> -8_334_601_228_795 <= self.secs
                <= 8_210_266_876_799),
            1_000_000_000 <= self.nanos < 2_000_000_000 ==> (fits <==> -8_334_601_228_796
                <= self.secs <= 8_210_266_876_799 && self.secs % 60 == 59),
            self.nanos >= 2_000_000_000 ==> !fits,
    {
        if self.secs < MIN_UTC_SECS || self.secs > MAX_UTC_SECS || self.nanos >= 2_000_000_000 {
            return false;
        }
        let leap: bool = self.nanos >= 1_000_000_000;
        // The first second is the first of a minute.
        if leap && (self.secs - MIN_UTC_SECS) as u64 % 60 != 59 {
            return false;
        }
        let whole_secs: i64 = if leap {
            self.secs + 1
        } else {
            self.secs
        };
        whole_secs - MIN_UTC_SECS >= PUBLISH_RECOVERY_WINDOW_SECS as i64
    }
}

/// `chrono::TimeDelta::from_std` on a duration of whole seconds, read by
/// `TimeDelta::num_seconds`: the same number of seconds, or an error where it
/// exceeds what a `TimeDelta` can hold, `i64::MAX` milliseconds.
#[verifier::external_body]
fn time_delta_from_std(secs: u64) -> (delta_secs: Option<i64>)
    ensures
        delta_secs == (if secs <= 9_223_372_036_854_775 {
            Some(secs as i64)
        } else {
            None
        }),
{
    match TimeDelta::from_std(std::time::Duration::from_secs(secs)) {
        Ok(delta) => Some(delta.num_seconds()),
        Err(_) => None,
    }
}

/// `chrono`'s `DateTime - TimeDelta`, read by `DateTime::timestamp`: the Unix
/// timestamp of the instant that lies `delta_secs` before the given one.
/// Stepping back from a leap second counts from the second that follows it.
///
/// The instant comes from `DateTime::from_timestamp`, which has a value for
/// every valid one, and the difference from `TimeDelta::seconds`, which panics
/// beyond `i64::MAX` milliseconds. The subtraction panics where the result is
/// before the first instant that a `DateTime` can hold.
#[verifier::external_body]
fn timestamp_before(instant: UtcInstant, delta_secs: i64) -> (timestamp: i64)
    requires
        0 < delta_secs <= 9_223_372_036_854_775,
        instant.reaches_back(delta_secs as int),
    ensures
        timestamp == instant.whole_secs() - delta_secs,
{
    let start = DateTime::from_timestamp(instant.secs, instant.nanos).unwrap();
    (start - TimeDelta::seconds(delta_secs)).timestamp()
}

/// The Unix timestamp from which posts are considered: the second that lies
/// [`PUBLISH_RECOVERY_WINDOW_SECS`] before `publish_start`.
pub fn recovery_since(publish_start: UtcInstant) -> (since: i64)
    requires
        publish_start.reaches_back(PUBLISH_RECOVERY_WINDOW_SECS as int),
    ensures
        since == publish_start.whole_secs() - PUBLISH_RECOVERY_WINDOW_SECS,
        publish_start.nanos < 1_000_000_000 ==> since == publish_start.secs - 5,
        publish_start.nanos >= 1_000_000_000 ==> since == publish_start.secs + 1 - 5,
{
    let window: i64 = match time_delta_from_std(PUBLISH_RECOVERY_WINDOW_SECS) {
        Some(delta_secs) => delta_secs,
        None => PUBLISH_RECOVERY_WINDOW_SECS as i64,
    };
    timestamp_before(publish_start, window)
}

/// The window can be opened for every instant of the calendar but those of its
/// first five seconds, and a leap second only ends a minute.
pub proof fn law_window_fits_the_calendar(start: UtcInstant)
    ensures
        start.nanos < 1_000_000_000 ==> (start.reaches_back(5) <==> -8_334_601_228_795
            <= start.secs <= 8_210_266_876_799),
        1_000_000_000 <= start.nanos < 2_000_000_000 ==> (start.reaches_back(5)
            <==> -8_334_601_228_796 <= start.secs <= 8_210_266_876_799 && start.secs % 60 == 59),
        start.nanos >= 2_000_000_000 ==> !start.reaches_back(5),
        start.nanos < 1_000_000_000 ==> start.whole_secs() == start.secs,
        1_000_000_000 <= start.nanos < 2_000_000_000 ==> start.whole_secs() == start.secs + 1,
{
}

} // verus!
