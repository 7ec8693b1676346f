use vstd::prelude::*;

verus! {

/// A lower bound, counted in seconds from the Unix epoch, on what an RFC 3339
/// text (four-digit year, offset under a day) can denote.
pub const MIN_SECS: i64 = -62_167_305_600;

/// An upper bound, counted in seconds from the Unix epoch, on what an RFC 3339
/// text can denote.
pub const MAX_SECS: i64 = 253_402_387_200;

/// Days from 1970-01-01 to the given date of the proleptic Gregorian calendar.
pub open spec fn days_from_civil(y: int, m: int, d: int) -> int {
    let yp = if m <= 2 { y - 1 } else { y };
    let mp = if m > 2 { m - 3 } else { m + 9 };
    365 * yp + yp / 4 - yp / 100 + yp / 400 + (153 * mp + 2) / 5 + d - 1 - 719468
}

/// An absolute point in time: whole seconds since 1970-01-01T00:00:00Z and
/// the nanoseconds past that second. A nanosecond count of one billion or
/// more marks a leap second, which can only follow the 59th second of a minute.
#[derive(Clone, Copy, Debug, PartialEq, Eq, Structural)]
pub struct Instant {
    pub secs: i64,
    pub nanos: u32,
}

impl Instant {
    pub open spec fn wf(&self) -> bool {
        &&& MIN_SECS <= self.secs <= MAX_SECS
        &&& self.nanos < 2_000_000_000
        &&& self.nanos >= 1_000_000_000 ==> self.secs % 60 == 59
    }

}

} // verus!
