//! Points in time, the whole seconds between two of them, and the calls into `chrono`
//! that read the clock and read and write RFC 3339 text.
use vstd::prelude::*;

verus! {

/// A point in time: `secs` whole seconds after the Unix epoch plus `nanos` nanoseconds.
#[derive(Clone, Copy, Debug, PartialEq, Eq, Structural)]
pub struct Timestamp {
    pub secs: i64,
    pub nanos: u32,
}

/// The nanoseconds from the Unix epoch to `t`.
pub open spec fn epoch_nanos(t: Timestamp) -> int {
    t.secs * 1_000_000_000 + t.nanos
}

/// `a / b` rounded toward zero (for `b > 0`).
pub open spec fn div_toward_zero(a: int, b: int) -> int {
    if a >= 0 {
        a / b
    } else {
        -((-a) / b)
    }
}

/// The whole seconds from `earlier` to `later`, rounded toward zero (negative when
/// `later` comes first), as `(later - earlier).num_seconds()` counts them.
pub open spec fn whole_seconds_between(later: Timestamp, earlier: Timestamp) -> int {
    div_toward_zero(epoch_nanos(later) - epoch_nanos(earlier), 1_000_000_000)
}

/// The whole seconds from `earlier` to `later`, rounded toward zero.
pub fn seconds_between(later: Timestamp, earlier: Timestamp) -> (r: i128)
    ensures
        r == whole_seconds_between(later, earlier),
{
    let a: i128 = later.secs as i128 * 1_000_000_000 + later.nanos as i128;
    let b: i128 = earlier.secs as i128 * 1_000_000_000 + earlier.nanos as i128;
    let d: i128 = a - b;
    if d >= 0 {
        d / 1_000_000_000
    } else {
        let m: i128 = -d;
        -(m / 1_000_000_000)
    }
}

/// What `DateTime::parse_from_rfc3339` makes of a text, as a point in time.
pub uninterp spec fn rfc3339_instant(s: Seq<char>) -> Option<Timestamp>;

/// What `to_rfc3339` writes for the point in time `secs`/`nanos` (`None` where
/// `DateTime::from_timestamp` has no such point).
pub uninterp spec fn rfc3339_text(secs: i64, nanos: u32) -> Option<Seq<char>>;

/// The present time, as `chrono` makes a UTC `DateTime` from `std::time::SystemTime::now()`
/// (its `From<SystemTime>` conversion, which also takes times before 1970), in seconds and
/// nanoseconds since the Unix epoch. Nothing is claimed of the value: it is the time at the
/// call. That conversion unwraps chrono's range check, which a clock beyond about
/// 262,000 years from the epoch would fail; nothing here states that.
#[verifier::external_body]
pub(crate) fn now() -> (t: Timestamp) {
    let t = chrono::DateTime::<chrono::Utc>::from(std::time::SystemTime::now());
    Timestamp { secs: t.timestamp(), nanos: t.timestamp_subsec_nanos() }
}

/// `chrono::DateTime::parse_from_rfc3339`: the point in time that the text names, or
/// `None` where chrono rejects it; the result is `rfc3339_instant` of the text.
#[verifier::external_body]
pub(crate) fn parse_rfc3339(s: &str) -> (r: Option<Timestamp>)
    ensures
        r == rfc3339_instant(s@),
{
    match chrono::DateTime::parse_from_rfc3339(s) {
        Ok(dt) => Some(Timestamp { secs: dt.timestamp(), nanos: dt.timestamp_subsec_nanos() }),
        Err(_) => None,
    }
}

/// The point in time lies in the years 0000 to 9999, which RFC 3339 writes with four digits.
pub open spec fn four_digit_year(t: Timestamp) -> bool {
    -62_167_219_200 <= t.secs <= 253_402_300_799
}

/// `chrono::DateTime::to_rfc3339` of the UTC point in time that
/// `DateTime::from_timestamp(t.secs, t.nanos)` makes, or `None` where there is no such
/// point; the result is `rfc3339_text` of the two numbers. In the years 0000 to 9999 chrono
/// writes the date with four digits, the seconds (60 for a leap second), every nonzero
/// fraction exactly, and the offset `+00:00`, all of which `parse_from_rfc3339` reads back
/// to the same seconds and nanoseconds; outside those years it writes a signed year that
/// the parser refuses, and nothing is claimed there. `from_timestamp` refuses only seconds
/// beyond chrono's range of dates (far wider than those years), nanoseconds of 2 * 10^9 or
/// more, and nanoseconds from 10^9 on outside the last second of a minute; so in those years
/// every point with fewer than 10^9 nanoseconds is written.
#[verifier::external_body]
pub(crate) fn format_rfc3339(t: Timestamp) -> (r: Option<String>)
    ensures
        r matches Some(text) ==> rfc3339_text(t.secs, t.nanos) == Some(text@),
        r is None ==> rfc3339_text(t.secs, t.nanos) is None,
        four_digit_year(t) ==> (r matches Some(text) ==> rfc3339_instant(text@) == Some(t)),
        four_digit_year(t) && t.nanos < 1_000_000_000 ==> r is Some,
{
    match chrono::DateTime::from_timestamp(t.secs, t.nanos) {
        Some(dt) => Some(dt.to_rfc3339()),
        None => None,
    }
}

} // verus!
