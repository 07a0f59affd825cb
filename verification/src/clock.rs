//! The calendar and the wall clock, as whole numbers.
//!
//! A date is its day number in the proleptic Gregorian calendar, with
//! 0001-01-01 as day 1. An instant is whole seconds since 1970-01-01T00:00:00Z.
//! Reading the clock and rendering a date are delegated to `chrono`; the
//! contracts of the functions that do so are taken on trust from its source.

use vstd::prelude::*;

verus! {

/// Day number of 1970-01-01.
pub const EPOCH_DAY: i32 = 719_163;

/// Day number of the last date that `chrono` can represent (262142-12-31).
pub const MAX_DAY: i32 = 95_745_399;

/// Day of the week.
#[derive(Debug, Clone, Copy, PartialEq, Eq, Structural)]
pub enum Weekday {
    Mon,
    Tue,
    Wed,
    Thu,
    Fri,
    Sat,
    Sun,
}

/// The text `chrono` renders for a day number under the pattern `%Y-%m-%d`.
pub uninterp spec fn date_text(day: int) -> Seq<char>;

/// Trusted: `chrono::Utc::now().date_naive().num_days_from_ce()`.
///
/// `Utc::now` refuses a system clock set before the Unix epoch and cannot
/// return a date beyond `NaiveDate::MAX`, so the day number lies between the
/// two constants. Nothing else is claimed: two calls may differ.
#[verifier::external_body]
pub(crate) fn today() -> (day: i32)
    ensures
        EPOCH_DAY <= day <= MAX_DAY,
{
    chrono::Datelike::num_days_from_ce(&chrono::Utc::now().date_naive())
}

/// Trusted: `chrono::Utc::now().weekday()`, one arm per variant of
/// `chrono::Weekday`. Nothing is claimed of which day comes back.
#[verifier::external_body]
pub(crate) fn current_weekday() -> (day: Weekday) {
    match chrono::Datelike::weekday(&chrono::Utc::now()) {
        chrono::Weekday::Mon => Weekday::Mon,
        chrono::Weekday::Tue => Weekday::Tue,
        chrono::Weekday::Wed => Weekday::Wed,
        chrono::Weekday::Thu => Weekday::Thu,
        chrono::Weekday::Fri => Weekday::Fri,
        chrono::Weekday::Sat => Weekday::Sat,
        chrono::Weekday::Sun => Weekday::Sun,
    }
}

/// Trusted: `chrono::Utc::now().hour()`, which `chrono::Timelike` documents
/// as the hour number from 0 to 23.
#[verifier::external_body]
pub(crate) fn current_hour() -> (hour: u32)
    ensures
        hour < 24,
{
    chrono::Timelike::hour(&chrono::Utc::now())
}

/// Trusted: `chrono::Utc::now().timestamp()`. `Utc::now` refuses a system
/// clock set before the Unix epoch, so the count of seconds is not negative.
#[verifier::external_body]
pub(crate) fn now_timestamp() -> (seconds: i64)
    ensures
        seconds >= 0,
{
    chrono::Utc::now().timestamp()
}

/// Trusted: `chrono::NaiveDate::from_num_days_from_ce_opt(day)` rendered with
/// `format("%Y-%m-%d")`. Every day number from 1 to [`MAX_DAY`] is a date that
/// `chrono` represents, and the rendering depends on the day number alone.
#[verifier::external_body]
pub(crate) fn format_day(day: i32) -> (text: String)
    requires
        1 <= day <= MAX_DAY,
    ensures
        text@ == date_text(day as int),
{
    chrono::NaiveDate::from_num_days_from_ce_opt(day).unwrap().format("%Y-%m-%d").to_string()
}

} // verus!
