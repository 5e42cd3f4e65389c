use vstd::prelude::*;

verus! {

/// A UTC instant as seconds since the Unix epoch and the nanoseconds past
/// that second (above one billion only inside a leap second).
#[derive(Clone, Copy, Debug, PartialEq, Eq, Structural)]
pub struct Timestamp {
    pub secs: i64,
    pub nanos: u32,
}

/// The instant lies between 1970 and the end of 9999, off any leap second.
pub open spec fn shows_as_date(secs: i64, nanos: u32) -> bool {
    0 <= secs <= LAST_FOUR_DIGIT_SECOND && nanos < 1_000_000_000
}

/// The calendar text (`2024-01-31 12:00:00.5`) of the instant `secs`, `nanos`.
pub uninterp spec fn datetime_text(secs: i64, nanos: u32) -> Seq<char>;

/// The latest instant of the year 9999, in seconds since the epoch.
pub const LAST_FOUR_DIGIT_SECOND: i64 = 253_402_300_799;

/// Relies on `chrono`'s `From<SystemTime> for DateTime<Utc>`, applied to the
/// system clock and read back through `DateTime::timestamp` and
/// `DateTime::timestamp_subsec_nanos`: the conversion handles clocks before
/// 1970 as well as after, and its nanoseconds stay below one billion in both
/// cases.
#[verifier::external_body]
pub(crate) fn current_time() -> (r: Timestamp)
    ensures
        r.nanos < 1_000_000_000,
{
    let now = chrono::DateTime::<chrono::Utc>::from(std::time::SystemTime::now());
    Timestamp { secs: now.timestamp(), nanos: now.timestamp_subsec_nanos() }
}

/// Relies on `chrono::DateTime::from_timestamp` (`None` out of its calendar
/// range, and for two billion nanoseconds or more; `Some` for any
/// non-leap instant from 1970 to the end of 9999) and on the `Display` of
/// `NaiveDateTime`.
#[verifier::external_body]
pub(crate) fn calendar_text(secs: i64, nanos: u32) -> (r: Option<String>)
    ensures
        r matches Some(s) ==> s@ == datetime_text(secs, nanos),
        nanos >= 2_000_000_000 ==> r is None,
        shows_as_date(secs, nanos) ==> r is Some,
{
    match chrono::DateTime::from_timestamp(secs, nanos) {
        Some(d) => Some(d.naive_utc().to_string()),
        None => None,
    }
}

} // verus!
