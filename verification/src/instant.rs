use chrono::DateTime;
use std::ops::Sub;
use vstd::prelude::*;

verus! {

/// Nanoseconds in one second.
pub const NANOS_PER_SEC: u32 = 1_000_000_000;

/// The earliest second that an [`Instant`] can hold: midnight of 1 January of the
/// year -262143, counted from the Unix epoch.
pub const MIN_UNIX_SECS: i64 = -8_334_601_228_800;

/// The latest second that an [`Instant`] can hold: the last second of 31 December of
/// the year 262142, counted from the Unix epoch.
pub const MAX_UNIX_SECS: i64 = 8_210_266_876_799;

/// Whether `secs` seconds since the Unix epoch plus `nanos` nanoseconds name an
/// instant. A nanosecond count of a full second or more stands for a leap second,
/// which can only follow the last second of a minute.
pub open spec fn is_instant(secs: int, nanos: int) -> bool {
    &&& MIN_UNIX_SECS <= secs <= MAX_UNIX_SECS
    &&& 0 <= nanos < 2 * NANOS_PER_SEC
    &&& nanos >= NANOS_PER_SEC ==> secs % 60 == 59
}

/// The whole seconds in a signed count of nanoseconds, rounded toward zero.
pub open spec fn whole_seconds(nanos: int) -> int {
    if nanos >= 0 {
        nanos / (NANOS_PER_SEC as int)
    } else {
        -((-nanos) / (NANOS_PER_SEC as int))
    }
}

/// The whole seconds that chrono counts from the second instant to the first,
/// each given as seconds since the Unix epoch and nanoseconds.
pub uninterp spec fn elapsed_seconds(
    later_secs: int,
    later_nanos: int,
    earlier_secs: int,
    earlier_nanos: int,
) -> int;

/// A point in time in UTC: seconds since the Unix epoch and nanoseconds within
/// that second.
#[derive(Debug, Clone, Copy, PartialEq, Eq, Structural)]
pub struct Instant {
    secs: i64,
    nanos: u32,
}

/// Subtracts two `chrono::DateTime<Utc>` values, each rebuilt with
/// `DateTime::from_timestamp`, and takes `TimeDelta::num_seconds` of the difference.
///
/// Trusted: `from_timestamp` accepts every pair that `is_instant` admits; the
/// result depends on the four numbers alone, and it is named `elapsed_seconds`;
/// where neither instant is within a leap second, it is the difference of the two
/// instants in nanoseconds, cut to whole seconds toward zero.
#[verifier::external_body]
fn whole_seconds_between(
    later_secs: i64,
    later_nanos: u32,
    earlier_secs: i64,
    earlier_nanos: u32,
) -> (elapsed: i64)
    requires
        is_instant(later_secs as int, later_nanos as int),
        is_instant(earlier_secs as int, earlier_nanos as int),
    ensures
        elapsed == elapsed_seconds(
            later_secs as int,
            later_nanos as int,
            earlier_secs as int,
            earlier_nanos as int,
        ),
        later_nanos < NANOS_PER_SEC && earlier_nanos < NANOS_PER_SEC ==> elapsed == whole_seconds(
            (later_secs - earlier_secs) * NANOS_PER_SEC + later_nanos - earlier_nanos,
        ),
{
    let later = DateTime::from_timestamp(later_secs, later_nanos).unwrap();
    let earlier = DateTime::from_timestamp(earlier_secs, earlier_nanos).unwrap();
    later.sub(earlier).num_seconds()
}

impl Instant {
    #[verifier::type_invariant]
    spec fn valid(self) -> bool {
        is_instant(self.secs as int, self.nanos as int)
    }

    /// Seconds since the Unix epoch.
    pub closed spec fn unix_secs(self) -> int {
        self.secs as int
    }

    /// Nanoseconds since the last second boundary; a full second or more within a
    /// leap second.
    pub closed spec fn subsec_nanos(self) -> int {
        self.nanos as int
    }

    /// Whether the value names an instant.
    pub open spec fn wf(self) -> bool {
        is_instant(self.unix_secs(), self.subsec_nanos())
    }

    /// Whether the instant lies within a leap second.
    pub open spec fn in_leap_second(self) -> bool {
        self.subsec_nanos() >= NANOS_PER_SEC
    }

    /// The signed number of whole seconds from `earlier` to `self`. Outside leap
    /// seconds it is the difference of the two instants, rounded toward zero.
    pub open spec fn elapsed_since(self, earlier: Instant) -> int {
        if !self.in_leap_second() && !earlier.in_leap_second() {
            whole_seconds(
                (self.unix_secs() - earlier.unix_secs()) * NANOS_PER_SEC + self.subsec_nanos()
                    - earlier.subsec_nanos(),
            )
        } else {
            elapsed_seconds(
                self.unix_secs(),
                self.subsec_nanos(),
                earlier.unix_secs(),
                earlier.subsec_nanos(),
            )
        }
    }

    /// The instant `secs` seconds after the Unix epoch and `nanos` nanoseconds into
    /// that second, or `None` where the two do not name an instant.
    pub fn new(secs: i64, nanos: u32) -> (r: Option<Instant>)
        ensures
            r is Some <==> is_instant(secs as int, nanos as int),
            r matches Some(t) ==> t.unix_secs() == secs && t.subsec_nanos() == nanos && t.wf(),
    {
        if secs < MIN_UNIX_SECS || secs > MAX_UNIX_SECS || nanos >= 2 * NANOS_PER_SEC {
            return None;
        }
        if nanos >= NANOS_PER_SEC && (secs - MIN_UNIX_SECS) % 60 != 59 {
            return None;
        }
        Some(Instant { secs, nanos })
    }

    /// Seconds since the Unix epoch.
    pub fn secs(&self) -> (r: i64)
        ensures
            r == self.unix_secs(),
            self.wf(),
    {
        proof {
            use_type_invariant(self);
        }
        self.secs
    }

    /// Nanoseconds since the last second boundary.
    pub fn nanos(&self) -> (r: u32)
        ensures
            r == self.subsec_nanos(),
            self.wf(),
    {
        proof {
            use_type_invariant(self);
        }
        self.nanos
    }

    /// The signed number of whole seconds from `earlier` to `self`.
    pub fn seconds_since(&self, earlier: &Instant) -> (r: i64)
        ensures
            r == self.elapsed_since(*earlier),
    {
        proof {
            use_type_invariant(self);
            use_type_invariant(earlier);
        }
        whole_seconds_between(self.secs, self.nanos, earlier.secs, earlier.nanos)
    }
}

impl Default for Instant {
    /// The Unix epoch.
    fn default() -> (r: Instant)
        ensures
            r.unix_secs() == 0,
            r.subsec_nanos() == 0,
    {
        Instant { secs: 0, nanos: 0 }
    }
}

} // verus!
