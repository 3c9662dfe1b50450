//! Instants, their RFC 3339 texts, and the seconds between them.
//!
//! The calendar is that of `chrono`. An instant here holds what that crate's UTC date-times
//! hold, as plain integers.

use vstd::prelude::*;

verus! {

/// The first second that the calendar holds.
pub const FIRST_SECOND: i64 = -8334601228800;

/// The last second that the calendar holds.
pub const LAST_SECOND: i64 = 8210266876799;

/// The first second of the year 0.
pub const YEAR_0: i64 = -62167219200;

/// The last second of the year 9999.
pub const YEAR_9999_END: i64 = 253402300799;

/// The nanoseconds of a second.
pub const NANOS: u32 = 1_000_000_000;

/// A moment in UTC: seconds since the start of 1970, and nanoseconds within the second. A leap
/// second is told by a second's worth of extra nanoseconds in the last second of a minute.
#[derive(Clone, Copy, Debug, PartialEq, Eq)]
pub struct Instant {
    pub secs: i64,
    pub nanos: u32,
}

impl Instant {
    /// Whether the calendar holds the instant.
    pub open spec fn in_range(self) -> bool {
        &&& FIRST_SECOND <= self.secs <= LAST_SECOND
        &&& self.nanos < 2 * NANOS
        &&& self.nanos >= NANOS ==> (self.secs as int) % 60 == 59
    }

    /// Whether the instant lies within a leap second.
    pub open spec fn is_leap(self) -> bool {
        self.nanos >= NANOS
    }

    /// The seconds since midnight.
    pub open spec fn time_of_day(self) -> int {
        (self.secs as int) % 86400
    }

    /// The instant on a line of nanoseconds, leap seconds folded into the next second.
    pub open spec fn on_line(self) -> int {
        self.secs * NANOS + self.nanos
    }

    /// Whether the calendar holds the instant.
    pub fn is_in_range(&self) -> (r: bool)
        ensures
            r <==> self.in_range(),
            r <==> (-8334601228800 <= self.secs <= 8210266876799 && (self.nanos < 1_000_000_000 || (
            self.nanos < 2_000_000_000 && (self.secs as int) % 60 == 59))),
    {
        if self.secs < FIRST_SECOND || self.secs > LAST_SECOND || self.nanos >= 2 * NANOS {
            return false;
        }
        if self.nanos < NANOS {
            return true;
        }
        let shifted: i64 = self.secs - FIRST_SECOND;
        shifted % 60 == 59
    }
}

/// The nanoseconds from `then` to `now`. Where the one that is earlier in the day lies in a leap
/// second, that second counts as well.
pub open spec fn nanos_between(now: Instant, then: Instant) -> int {
    let leap: int = if now.time_of_day() > then.time_of_day() && then.is_leap() {
        1
    } else if now.time_of_day() < then.time_of_day() && now.is_leap() {
        -1
    } else {
        0
    };
    now.on_line() - then.on_line() + leap * NANOS
}

/// The whole seconds from `then` to `now`, cut towards zero.
pub open spec fn seconds_between(now: Instant, then: Instant) -> int {
    let n = nanos_between(now, then);
    if n >= 0 {
        n / NANOS as int
    } else {
        -((-n) / NANOS as int)
    }
}

/// The instant that a text denotes by RFC 3339, as seconds and nanoseconds, where it denotes one.
pub uninterp spec fn rfc3339_instant(text: Seq<char>) -> Option<(i64, u32)>;

/// The RFC 3339 text of an instant.
pub uninterp spec fn rfc3339_text(secs: i64, nanos: u32) -> Seq<char>;

/// `DateTime::parse_from_rfc3339`: the instant that the text denotes, where it denotes one. The
/// text has a four-digit year and an offset in whole minutes, so the calendar holds the instant.
#[verifier::external_body]
pub(crate) fn chrono_parse_rfc3339(text: &str) -> (r: Option<Instant>)
    ensures
        match r {
            Some(t) => t.in_range() && rfc3339_instant(text@) == Some((t.secs, t.nanos)),
            None => rfc3339_instant(text@) is None,
        },
{
    match chrono::DateTime::parse_from_rfc3339(text) {
        Ok(t) => Some(Instant { secs: t.timestamp(), nanos: t.timestamp_subsec_nanos() }),
        Err(_) => None,
    }
}

/// `DateTime::to_rfc3339`: the text of the instant. Of a year that RFC 3339 can write, the text
/// denotes the same instant when it is read.
#[verifier::external_body]
pub(crate) fn chrono_to_rfc3339(t: Instant) -> (r: String)
    requires
        t.in_range(),
    ensures
        r@ == rfc3339_text(t.secs, t.nanos),
        YEAR_0 <= t.secs <= YEAR_9999_END ==> rfc3339_instant(r@) == Some((t.secs, t.nanos)),
{
    chrono::DateTime::from_timestamp(t.secs, t.nanos).unwrap().to_rfc3339()
}

/// `DateTime - DateTime`, in whole seconds by `TimeDelta::num_seconds`.
#[verifier::external_body]
pub(crate) fn chrono_seconds_between(now: Instant, then: Instant) -> (r: i64)
    requires
        now.in_range(),
        then.in_range(),
    ensures
        r == seconds_between(now, then),
{
    let later = chrono::DateTime::from_timestamp(now.secs, now.nanos).unwrap();
    let earlier = chrono::DateTime::from_timestamp(then.secs, then.nanos).unwrap();
    (later - earlier).num_seconds()
}

/// The whole seconds between two instants exceed `limit` exactly once `limit + 1` seconds have
/// gone by.
pub proof fn law_seconds_are_cut(now: Instant, then: Instant, limit: nat)
    ensures
        seconds_between(now, then) > limit <==> nanos_between(now, then) >= (limit + 1) * NANOS,
{
    let n = nanos_between(now, then);
    if n >= 0 {
        assert(n / 1_000_000_000 > limit <==> n >= (limit + 1) * 1_000_000_000);
    }
}

/// Between instants outside leap seconds the time is the plain difference.
pub proof fn law_plain_difference(now: Instant, then: Instant)
    requires
        !now.is_leap(),
        !then.is_leap(),
    ensures
        nanos_between(now, then) == now.on_line() - then.on_line(),
{
}

/// What the calendar holds: the years from -262143 to 262142, and leap seconds at the ends of
/// minutes alone.
pub proof fn law_the_calendar(t: Instant)
    ensures
        t.in_range() <==> (-8334601228800 <= t.secs <= 8210266876799 && (t.nanos < 1_000_000_000 || (
        t.nanos < 2_000_000_000 && (t.secs as int) % 60 == 59))),
{
}

/// The whole seconds between two instants, told by their fields: the nanoseconds between them,
/// with one second more for a leap second that the one earlier in the day lies in, cut towards
/// zero.
pub proof fn law_whole_seconds(now: Instant, then: Instant)
    ensures
        ({
            let k = seconds_between(now, then);
            let leap: int = if (now.secs as int) % 86400 > (then.secs as int) % 86400 && then.nanos
                >= 1_000_000_000 {
                1
            } else if (now.secs as int) % 86400 < (then.secs as int) % 86400 && now.nanos
                >= 1_000_000_000 {
                -1
            } else {
                0
            };
            let d = (now.secs - then.secs + leap) * 1_000_000_000 + (now.nanos - then.nanos);
            &&& d >= 0 ==> k * 1_000_000_000 <= d < (k + 1) * 1_000_000_000
            &&& d <= 0 ==> (k - 1) * 1_000_000_000 < d <= k * 1_000_000_000
        }),
{
    let n = nanos_between(now, then);
    if n >= 0 {
        assert((n / 1_000_000_000) * 1_000_000_000 <= n);
    } else {
        assert(((-n) / 1_000_000_000) * 1_000_000_000 <= -n);
    }
}

/// Time turned round: the seconds from one instant to another are those the other way, with the
/// sign changed.
pub proof fn law_time_turned_round(a: Instant, b: Instant)
    ensures
        seconds_between(a, b) == -seconds_between(b, a),
        seconds_between(a, a) == 0,
{
}

/// Outside leap seconds, waiting longer never makes fewer seconds, and a whole second longer
/// makes one more.
pub proof fn law_waiting_makes_seconds(now: Instant, later: Instant, then: Instant)
    requires
        now.nanos < 1_000_000_000,
        then.nanos < 1_000_000_000,
        now.nanos == later.nanos,
        now.secs < later.secs,
        then.secs < now.secs,
    ensures
        seconds_between(later, then) == seconds_between(now, then) + (later.secs - now.secs),
{
}

} // verus!
