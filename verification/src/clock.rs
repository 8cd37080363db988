//! Points in time.
use vstd::prelude::*;

verus! {

/// A point in time: whole seconds since the beginning of 1970, and nanoseconds
/// behind them.
#[derive(Debug, Clone, Copy, PartialEq, Eq, Structural)]
pub struct Timestamp {
    pub secs: i64,
    pub nanos: u32,
}

/// The nanoseconds since the beginning of 1970.
pub open spec fn nanos_of(t: Timestamp) -> int {
    t.secs * 1_000_000_000 + t.nanos
}

/// The nanoseconds of a number of days.
pub open spec fn days_in_nanos(days: int) -> int {
    days * 86_400_000_000_000
}

/// The first second of the calendar that dates are written in.
pub const FIRST_SECOND: i64 = -8_334_601_228_800;

/// The last second of the calendar that dates are written in.
pub const LAST_SECOND: i64 = 8_210_266_876_799;

/// A point in time that the calendar holds.
pub open spec fn in_calendar(nanos: int) -> bool {
    FIRST_SECOND * 1_000_000_000 <= nanos < (LAST_SECOND + 1) * 1_000_000_000
}

/// The nanoseconds since the beginning of 1970.
pub fn to_nanos(t: Timestamp) -> (r: i128)
    ensures
        r == nanos_of(t),
        -10_000_000_000_000_000_000_000_000_000 < r < 10_000_000_000_000_000_000_000_000_000,
{
    (t.secs as i128) * 1_000_000_000 + (t.nanos as i128)
}

/// How many days a calendar date can be moved by, either way.
pub const MAX_DAYS: i64 = 106_751_991_167;

/// `span` nanoseconds behind `t` is a point in time that the calendar holds.
pub open spec fn can_add(t: Timestamp, span: int) -> bool {
    in_calendar(nanos_of(t) + span)
}

/// `days` days behind `t` are a point in time that the calendar holds.
pub open spec fn can_add_days(t: Timestamp, days: int) -> bool {
    -MAX_DAYS <= days <= MAX_DAYS && can_add(t, days_in_nanos(days))
}

/// The nanoseconds of a number of days.
pub fn days_span(days: i64) -> (r: i128)
    ensures
        r == days_in_nanos(days as int),
{
    (days as i128) * 86_400_000_000_000
}

/// Whether `days` days behind `t` are a point in time that the calendar holds.
pub fn check_days(t: Timestamp, days: i64) -> (r: bool)
    ensures
        r == can_add_days(t, days as int),
{
    if days < -MAX_DAYS || days > MAX_DAYS {
        return false;
    }
    let at: i128 = to_nanos(t) + days_span(days);
    (FIRST_SECOND as i128) * 1_000_000_000 <= at && at < ((LAST_SECOND as i128) + 1) * 1_000_000_000
}

/// What `chrono::DateTime::to_rfc3339` writes for the point in time of `secs`
/// seconds and `nanos` nanoseconds, in UTC; nothing where the calendar does not
/// hold it.
pub uninterp spec fn rfc3339_text(secs: i64, nanos: u32) -> Option<Seq<char>>;

/// A point in time as RFC 3339 text, by `chrono::DateTime::from_timestamp` and
/// `chrono::DateTime::to_rfc3339`. A function of the point in time, and nothing
/// where the calendar does not hold it.
#[verifier::external_body]
pub(crate) fn rfc3339(t: Timestamp) -> (r: Option<String>)
    ensures
        crate::text::opt_text(r) == rfc3339_text(t.secs, t.nanos),
{
    chrono::DateTime::from_timestamp(t.secs, t.nanos).map(|d| d.to_rfc3339())
}

} // verus!
