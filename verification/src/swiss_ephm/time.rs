//! From a calendar instant to the arguments of the engine's time conversion.
//!
//! The engine counts time in Julian days of Universal Time. It converts a
//! Gregorian calendar date and an hour of the day into that scale. What is
//! decided here is which date and which time of day an instant stands for;
//! the hour as one fractional number is formed by the caller, from the
//! parts given here.

use vstd::prelude::*;
use chrono::Datelike;
use chrono::NaiveDateTime;
use chrono::Timelike;
use crate::swiss_ephm::lifecycle::{assert_ephe_ready, Ephemeris, Phase};

verus! {

/// The engine's flag for the Gregorian calendar.
pub const SE_GREG_CAL: i32 = 1;

#[verifier::external_type_specification]
#[verifier::external_body]
pub struct ExNaiveDateTime(NaiveDateTime);

/// The calendar year of an instant of Universal Time.
pub uninterp spec fn instant_year(utc: NaiveDateTime) -> i32;

/// The month of an instant, from 1.
pub uninterp spec fn instant_month(utc: NaiveDateTime) -> u32;

/// The day of the month of an instant, from 1.
pub uninterp spec fn instant_day(utc: NaiveDateTime) -> u32;

/// The hour of the day of an instant.
pub uninterp spec fn instant_hour(utc: NaiveDateTime) -> u32;

/// The minute of the hour of an instant.
pub uninterp spec fn instant_minute(utc: NaiveDateTime) -> u32;

/// The second of the minute of an instant.
pub uninterp spec fn instant_second(utc: NaiveDateTime) -> u32;

/// The microseconds of an instant since its last whole second.
pub uninterp spec fn instant_micros(utc: NaiveDateTime) -> u32;

/// The year of the instant in Universal Time, by chrono's `Datelike::year`
/// on `DateTime<Utc>`.
#[verifier::external_body]
fn year_of(utc: &NaiveDateTime) -> (year: i32)
    ensures
        year == instant_year(*utc),
{
    utc.and_utc().year()
}

/// The month of the instant, by chrono's `Datelike::month` on
/// `DateTime<Utc>`, which counts the months from 1 to 12.
#[verifier::external_body]
fn month_of(utc: &NaiveDateTime) -> (month: u32)
    ensures
        month == instant_month(*utc),
        1 <= month <= 12,
{
    utc.and_utc().month()
}

/// The day of the month of the instant, by chrono's `Datelike::day` on
/// `DateTime<Utc>`, which counts the days from 1 to 31.
#[verifier::external_body]
fn day_of(utc: &NaiveDateTime) -> (day: u32)
    ensures
        day == instant_day(*utc),
        1 <= day <= 31,
{
    utc.and_utc().day()
}

/// The hour of the instant, by chrono's `Timelike::hour` on
/// `DateTime<Utc>`, from 0 to 23.
#[verifier::external_body]
fn hour_of(utc: &NaiveDateTime) -> (hour: u32)
    ensures
        hour == instant_hour(*utc),
        hour <= 23,
{
    utc.and_utc().hour()
}

/// The minute of the instant, by chrono's `Timelike::minute` on
/// `DateTime<Utc>`, from 0 to 59.
#[verifier::external_body]
fn minute_of(utc: &NaiveDateTime) -> (minute: u32)
    ensures
        minute == instant_minute(*utc),
        minute <= 59,
{
    utc.and_utc().minute()
}

/// The second of the instant, by chrono's `Timelike::second` on
/// `DateTime<Utc>`, from 0 to 59: chrono keeps a leap second in the
/// fraction, never in the second.
#[verifier::external_body]
fn second_of(utc: &NaiveDateTime) -> (second: u32)
    ensures
        second == instant_second(*utc),
        second <= 59,
{
    utc.and_utc().second()
}

/// The microseconds since the last whole second, by chrono's
/// `DateTime::timestamp_subsec_micros`. Within a leap second the value goes
/// on beyond 999,999, up to 1,999,999.
#[verifier::external_body]
fn micros_of(utc: &NaiveDateTime) -> (micros: u32)
    ensures
        micros == instant_micros(*utc),
        micros <= 1_999_999,
{
    utc.and_utc().timestamp_subsec_micros()
}

/// The arguments of one call of the engine's calendar conversion.
///
/// The engine takes the date, the hour of the day as one number and the
/// calendar flag. That number is
/// `hour + minute / 60 + second / 3600 + micros / 3,600,000,000`.
#[derive(Clone, Copy, Debug, PartialEq, Eq, Structural)]
pub struct JulianDayCall {
    pub year: i32,
    pub month: i32,
    pub day: i32,
    pub hour: u32,
    pub minute: u32,
    pub second: u32,
    pub micros: u32,
    /// The calendar flag: always the Gregorian calendar.
    pub calendar: i32,
}

/// Whether the parts are those of a date and a time of day.
pub open spec fn is_civil_time(
    month: u32,
    day: u32,
    hour: u32,
    minute: u32,
    second: u32,
    micros: u32,
) -> bool {
    &&& 1 <= month <= 12
    &&& 1 <= day <= 31
    &&& hour <= 23
    &&& minute <= 59
    &&& second <= 59
    &&& micros <= 1_999_999
}

/// The conversion call for the given date and time of day.
pub open spec fn civil_call(
    year: i32,
    month: u32,
    day: u32,
    hour: u32,
    minute: u32,
    second: u32,
    micros: u32,
) -> JulianDayCall {
    JulianDayCall {
        year,
        month: month as i32,
        day: day as i32,
        hour,
        minute,
        second,
        micros,
        calendar: SE_GREG_CAL,
    }
}

/// The conversion call for an instant of Universal Time.
pub open spec fn instant_call(utc: NaiveDateTime) -> JulianDayCall {
    civil_call(
        instant_year(utc),
        instant_month(utc),
        instant_day(utc),
        instant_hour(utc),
        instant_minute(utc),
        instant_second(utc),
        instant_micros(utc),
    )
}

fn civil(year: i32, month: u32, day: u32, hour: u32, minute: u32, second: u32, micros: u32) -> (call:
    JulianDayCall)
    requires
        is_civil_time(month, day, hour, minute, second, micros),
    ensures
        call == civil_call(year, month, day, hour, minute, second, micros),
        call.month == month,
        call.day == day,
{
    JulianDayCall {
        year,
        month: month as i32,
        day: day as i32,
        hour,
        minute,
        second,
        micros,
        calendar: SE_GREG_CAL,
    }
}

impl JulianDayCall {
    /// The conversion call for a date and a time of day, under the
    /// Gregorian calendar; `None` where the parts are out of range.
    pub fn from_civil(
        year: i32,
        month: u32,
        day: u32,
        hour: u32,
        minute: u32,
        second: u32,
        micros: u32,
    ) -> (call: Option<JulianDayCall>)
        ensures
            call is Some <==> is_civil_time(month, day, hour, minute, second, micros),
            call matches Some(c) ==> c == civil_call(
                year,
                month,
                day,
                hour,
                minute,
                second,
                micros,
            ),
            call matches Some(c) ==> c.month == month && c.day == day && c.calendar == SE_GREG_CAL,
    {
        if 1 <= month && month <= 12 && 1 <= day && day <= 31 && hour <= 23 && minute <= 59
            && second <= 59 && micros <= 1_999_999 {
            Some(civil(year, month, day, hour, minute, second, micros))
        } else {
            None
        }
    }
}

/// Prepares the conversion of an instant of Universal Time into a Julian
/// day.
///
/// The answer holds the arguments for the engine's calendar conversion: the
/// date and the time of day of `utc`, and the Gregorian calendar flag. It
/// depends on the instant alone. The engine must be ready.
pub fn utc_to_julian_day(engine: &Ephemeris, utc: &NaiveDateTime) -> (call: JulianDayCall)
    requires
        engine@.phase == Phase::Ready,
    ensures
        call == instant_call(*utc),
        call.calendar == SE_GREG_CAL,
        is_civil_time(
            instant_month(*utc),
            instant_day(*utc),
            instant_hour(*utc),
            instant_minute(*utc),
            instant_second(*utc),
            instant_micros(*utc),
        ),
{
    assert_ephe_ready(engine, "utc_to_julian_day");
    civil(
        year_of(utc),
        month_of(utc),
        day_of(utc),
        hour_of(utc),
        minute_of(utc),
        second_of(utc),
        micros_of(utc),
    )
}

} // verus!
