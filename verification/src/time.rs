//! Points in time.
use vstd::prelude::*;

verus! {

/// A point in time by its number of seconds since the epoch; nothing where it
/// lies outside the calendar that chrono covers, which runs from the first
/// second of the year -262143 to the last of the year 262142.
pub open spec fn instant_of(seconds: i64) -> Option<i64> {
    if -8_334_601_228_800 <= seconds <= 8_210_266_876_799 {
        Some(seconds)
    } else {
        None
    }
}

/// `chrono::DateTime::from_timestamp`, without a fraction of a second, read
/// back by `timestamp`. It finds a point in time exactly within the years of
/// chrono's calendar, and reading back gives the number that went in.
#[verifier::external_body]
pub(crate) fn instant(seconds: i64) -> (result: Option<i64>)
    ensures
        result == instant_of(seconds),
{
    chrono::DateTime::from_timestamp(seconds, 0).map(|time| time.timestamp())
}

/// The text of a day, counted from the first day of the year 1; nothing where
/// chrono's calendar does not cover it.
pub uninterp spec fn date_chars(days: i32) -> Option<Seq<char>>;

/// `chrono::NaiveDate::from_num_days_from_ce_opt` and the `Display` form of
/// the date. The result is a function of the number of days, `date_chars`.
#[verifier::external_body]
pub(crate) fn date_text(days: i32) -> (result: Option<String>)
    ensures
        match result {
            Some(text) => date_chars(days) == Some(text@),
            None => date_chars(days) is None,
        },
{
    chrono::NaiveDate::from_num_days_from_ce_opt(days).map(|date| date.to_string())
}

/// The text of a time of day; nothing where there is no such time.
pub uninterp spec fn time_chars(seconds: u32, nanoseconds: u32) -> Option<Seq<char>>;

/// `chrono::NaiveTime::from_num_seconds_from_midnight_opt` and the `Display`
/// form of the time. The result is a function of both numbers, `time_chars`.
#[verifier::external_body]
pub(crate) fn time_text(seconds: u32, nanoseconds: u32) -> (result: Option<String>)
    ensures
        match result {
            Some(text) => time_chars(seconds, nanoseconds) == Some(text@),
            None => time_chars(seconds, nanoseconds) is None,
        },
{
    chrono::NaiveTime::from_num_seconds_from_midnight_opt(seconds, nanoseconds).map(
        |time| time.to_string(),
    )
}

/// The RFC 3339 text of a point in time; nothing where chrono's calendar does
/// not cover it.
pub uninterp spec fn rfc3339_chars(seconds: i64, nanoseconds: u32) -> Option<Seq<char>>;

/// `chrono::DateTime::from_timestamp` and `to_rfc3339`. The result is a
/// function of both numbers, `rfc3339_chars`.
#[verifier::external_body]
pub(crate) fn rfc3339_text(seconds: i64, nanoseconds: u32) -> (result: Option<String>)
    ensures
        match result {
            Some(text) => rfc3339_chars(seconds, nanoseconds) == Some(text@),
            None => rfc3339_chars(seconds, nanoseconds) is None,
        },
{
    chrono::DateTime::from_timestamp(seconds, nanoseconds).map(|time| time.to_rfc3339())
}

} // verus!
