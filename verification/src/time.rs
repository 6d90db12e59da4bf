//! Instants on the UTC time line, held as plain numbers, and the calendar texts
//! that `chrono` writes for them.

use vstd::prelude::*;

verus! {

/// Seconds in an hour.
pub const HOUR_SECS: i64 = 3_600;

/// Seconds in a day.
pub const DAY_SECS: i64 = 86_400;

/// Seconds in seven days.
pub const WEEK_SECS: i64 = 604_800;

/// The second in which the calendar begins: the first of the year -262143.
pub const FIRST_SEC: i64 = -8_334_601_228_800;

/// The second in which the calendar ends: the last of the year 262142.
pub const LAST_SEC: i64 = 8_210_266_876_799;

/// An instant: whole seconds since 1970-01-01T00:00:00Z and the nanoseconds
/// after that second. During a leap second `nanos` runs past 999,999,999.
#[derive(Clone, Copy, Debug, PartialEq, Eq, Structural)]
pub struct Timestamp {
    pub secs: i64,
    pub nanos: u32,
}

/// Whether the calendar has a date and time for the pair `(secs, nanos)`: the
/// second lies in the years from -262143 to 262142, and the nanoseconds are
/// below one second, or below two in the last second of a minute, where a leap
/// second is counted. These are the pairs of which `chrono` makes a
/// `DateTime<Utc>`.
pub open spec fn is_instant(secs: int, nanos: int) -> bool {
    &&& FIRST_SEC <= secs <= LAST_SEC
    &&& 0 <= nanos < 2_000_000_000
    &&& nanos >= 1_000_000_000 ==> secs % 60 == 59
}

/// Whether `c` names one of the fields year, month, day, hour, minute and
/// second in a pattern: `Y`, `m`, `d`, `H`, `M`, `S`.
pub open spec fn is_plain_field(c: char) -> bool {
    c == 'Y' || c == 'm' || c == 'd' || c == 'H' || c == 'M' || c == 'S'
}

/// Whether `pattern` is made of the fields `%Y`, `%m`, `%d`, `%H`, `%M`, `%S` and
/// of characters other than `%`. Such a pattern can be written for every
/// instant.
pub open spec fn plain_pattern(pattern: Seq<char>) -> bool
    decreases pattern.len(),
{
    if pattern.len() == 0 {
        true
    } else if pattern[0] != '%' {
        plain_pattern(pattern.drop_first())
    } else {
        pattern.len() >= 2 && is_plain_field(pattern[1]) && plain_pattern(
            pattern.subrange(2, pattern.len() as int),
        )
    }
}

/// The RFC 3339 text of the instant `(secs, nanos)` in UTC, or `None` where the
/// calendar has no date for it.
pub uninterp spec fn rfc3339_text(secs: i64, nanos: u32) -> Option<Seq<char>>;

/// The text of the instant `(secs, nanos)` in UTC under the strftime-style
/// pattern `format`, or `None` where the calendar has no date for the instant
/// or the pattern cannot be written.
pub uninterp spec fn strftime_text(secs: i64, nanos: u32, format: Seq<char>) -> Option<Seq<char>>;

/// Reads the clock.
///
/// Trusted: stands for `chrono::Utc::now`, read back through
/// `DateTime::timestamp` and `DateTime::timestamp_subsec_nanos`. `now` builds its
/// value with `DateTime::from_timestamp` from the system clock's whole seconds
/// and sub-second nanoseconds, so the pair is an instant with nanoseconds below
/// one second. Nothing else is claimed: two calls may differ.
#[verifier::external_body]
pub(crate) fn utc_now() -> (t: Timestamp)
    ensures
        t.nanos < 1_000_000_000,
        is_instant(t.secs as int, t.nanos as int),
{
    let now = chrono::Utc::now();
    Timestamp { secs: now.timestamp(), nanos: now.timestamp_subsec_nanos() }
}

/// Writes an instant in RFC 3339 form.
///
/// Trusted: stands for `chrono::DateTime::to_rfc3339` on the value that
/// `DateTime::from_timestamp` makes of the two numbers. The text depends on the
/// two numbers alone. It is `None` exactly where `from_timestamp` gives none,
/// which is for the pairs that are no instant: a second outside the years that
/// `NaiveDate` holds, or nanoseconds that `NaiveTime` refuses.
#[verifier::external_body]
pub(crate) fn chrono_rfc3339(secs: i64, nanos: u32) -> (r: Option<String>)
    ensures
        r.deep_view() == rfc3339_text(secs, nanos),
        r is Some <==> is_instant(secs as int, nanos as int),
{
    match chrono::DateTime::from_timestamp(secs, nanos) {
        Some(instant) => Some(instant.to_rfc3339()),
        None => None,
    }
}

/// Writes an instant under a strftime-style pattern.
///
/// Trusted: stands for `chrono::DateTime::format` on the value that
/// `DateTime::from_timestamp` makes of the two numbers, written out with
/// `DelayedFormat::write_to`. The text depends on the two numbers and the
/// pattern alone; it is `None` where `from_timestamp` gives none or `write_to`
/// reports an error, as it does for a pattern it cannot read. So there is a
/// text only for an instant, and there is one for every instant where the
/// pattern holds nothing but the six numeric fields and literal characters,
/// which `write_to` writes without fail.
#[verifier::external_body]
pub(crate) fn chrono_strftime(secs: i64, nanos: u32, format: &str) -> (r: Option<String>)
    ensures
        r.deep_view() == strftime_text(secs, nanos, format@),
        r is Some ==> is_instant(secs as int, nanos as int),
        is_instant(secs as int, nanos as int) && plain_pattern(format@) ==> r is Some,
{
    let mut out = String::new();
    match chrono::DateTime::from_timestamp(secs, nanos) {
        Some(instant) => match instant.format(format).write_to(&mut out) {
            Ok(()) => Some(out),
            Err(_) => None,
        },
        None => None,
    }
}

impl Timestamp {
    /// Whether the calendar has a date and time for this pair of numbers.
    pub open spec fn is_instant(self) -> bool {
        is_instant(self.secs as int, self.nanos as int)
    }

    /// The instant `secs` seconds before this one.
    pub fn earlier(&self, secs: i64) -> (r: Timestamp)
        requires
            i64::MIN <= self.secs - secs <= i64::MAX,
        ensures
            r.secs == self.secs - secs,
            r.nanos == self.nanos,
    {
        Timestamp { secs: self.secs - secs, nanos: self.nanos }
    }

    /// This instant in RFC 3339 form, or `None` where the calendar has no date
    /// for it.
    pub fn to_rfc3339(&self) -> (r: Option<String>)
        ensures
            r is Some <==> self.is_instant(),
            r.deep_view() == rfc3339_text(self.secs, self.nanos),
    {
        chrono_rfc3339(self.secs, self.nanos)
    }
}

} // verus!
