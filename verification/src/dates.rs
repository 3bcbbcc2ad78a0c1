//! Dates and times, and their conversions to and from milliseconds since the
//! UNIX epoch.
//!
//! `NaiveDate` and `NaiveDateTime` hold, as plain numbers, what the backend
//! reads of chrono's types of the same names: the day counted from the first
//! day of the common era (day 1 is January 1 of year 1), the second of that
//! day and the nanosecond of that second.
use vstd::prelude::*;

use crate::status::{Code, Status};
use vstd::arithmetic::div_mod::lemma_fundamental_div_mod_converse;

verus! {

/// The day number, counted from the common era, of January 1, 1970.
pub const UNIX_EPOCH_DAY: i64 = 719_163;

/// Milliseconds in a day.
pub const MILLIS_PER_DAY: i64 = 86_400_000;

/// A date, as a number of days from the common era.
#[derive(Debug, Clone, Copy, PartialEq, Eq, Structural)]
pub struct NaiveDate {
    pub days_from_ce: i32,
}

/// A date and a time of day.
#[derive(Debug, Clone, Copy, PartialEq, Eq, Structural)]
pub struct NaiveDateTime {
    /// The date.
    pub days_from_ce: i32,
    /// The seconds since midnight.
    pub secs_of_day: u32,
    /// The nanoseconds since the start of the second; 1_000_000_000 and more
    /// stand for a leap second.
    pub nanos: u32,
}

/// A point in time, as milliseconds since January 1, 1970 0:00 UTC.
#[derive(Debug, Clone, Copy, PartialEq, Eq, Structural)]
pub struct DateMillis {
    pub millis: i64,
}

/// A protobuf timestamp: seconds since the epoch, and a nanosecond offset.
#[derive(Debug, Clone, Copy, PartialEq, Eq, Structural)]
pub struct Timestamp {
    pub seconds: i64,
    pub nanos: i32,
}

/// An error converting between representations of a point in time.
#[derive(Debug, Clone, Copy, PartialEq, Eq, Structural)]
pub enum DateConversionError {
    /// milliseconds out of range
    MillisOutOfRange(i64),
    /// seconds too large to be converted to millis
    SecondsOutOfRange(i64),
}

impl NaiveDateTime {
    /// The time of day is a valid time: under a day, with a nanosecond part
    /// under two seconds, of which the second only in the last second of a minute.
    pub open spec fn wf(&self) -> bool {
        &&& self.secs_of_day < 86_400
        &&& self.nanos < 2_000_000_000
        &&& (self.nanos >= 1_000_000_000 ==> self.secs_of_day % 60 == 59)
    }

    /// The non-leap milliseconds since the epoch, as chrono's
    /// `and_utc().timestamp_millis()` computes them.
    pub open spec fn spec_millis(&self) -> int {
        (self.days_from_ce - UNIX_EPOCH_DAY) * 86_400_000 + self.secs_of_day * 1000 + self.nanos
            / 1_000_000
    }

    /// The date of this date and time.
    pub fn date(&self) -> (d: NaiveDate)
        ensures
            d.days_from_ce == self.days_from_ce,
    {
        NaiveDate { days_from_ce: self.days_from_ce }
    }
}

impl NaiveDate {
    /// This date at midnight.
    pub fn at_midnight(&self) -> (dt: NaiveDateTime)
        ensures
            dt.days_from_ce == self.days_from_ce,
            dt.secs_of_day == 0,
            dt.nanos == 0,
            dt.wf(),
    {
        NaiveDateTime { days_from_ce: self.days_from_ce, secs_of_day: 0, nanos: 0 }
    }
}

/// The date and time at `millis` milliseconds after the epoch, as chrono's
/// `DateTime::from_timestamp_millis` computes it when the date is within
/// chrono's range.
pub open spec fn naive_from_millis(millis: i64) -> NaiveDateTime {
    let secs = millis / 1000;
    NaiveDateTime {
        days_from_ce: millis_day(millis) as i32,
        secs_of_day: (secs % 86_400) as u32,
        nanos: ((millis % 1000) * 1_000_000) as u32,
    }
}

/// The day, counted from the common era, that holds the point `millis`
/// milliseconds after the epoch.
pub open spec fn millis_day(millis: i64) -> int {
    (millis / 1000) / 86_400 + UNIX_EPOCH_DAY
}

/// The day, counted from the common era, of chrono's earliest date
/// (`NaiveDate::MIN`, January 1 of year -262143).
pub const CHRONO_MIN_DAY: i64 = -95_746_129;

/// The day, counted from the common era, of chrono's latest date
/// (`NaiveDate::MAX`, December 31 of year 262142).
pub const CHRONO_MAX_DAY: i64 = 95_745_399;

/// Whether chrono can represent the date and time `millis` milliseconds after
/// the epoch: its day lies between chrono's earliest and latest date.
pub open spec fn chrono_millis_representable(millis: i64) -> bool {
    CHRONO_MIN_DAY <= millis_day(millis) <= CHRONO_MAX_DAY
}

/// Calls chrono's `DateTime::from_timestamp_millis` and takes the UTC date and
/// time. As chrono's source shows, the milliseconds are split by Euclidean
/// division into a day, a second of that day and a millisecond, and the result
/// is `None` exactly when the day lies outside `NaiveDate::MIN..=NaiveDate::MAX`.
#[verifier::external_body]
fn chrono_from_timestamp_millis(millis: i64) -> (r: Option<NaiveDateTime>)
    ensures
        r is Some <==> chrono_millis_representable(millis),
        r matches Some(dt) ==> dt == naive_from_millis(millis),
{
    match chrono::DateTime::from_timestamp_millis(millis) {
        Some(dt) => {
            let naive = dt.naive_utc();
            Some(NaiveDateTime {
                days_from_ce: chrono::Datelike::num_days_from_ce(&naive),
                secs_of_day: chrono::Timelike::num_seconds_from_midnight(&naive),
                nanos: chrono::Timelike::nanosecond(&naive),
            })
        },
        None => None,
    }
}

/// Division rounding toward zero, as Rust's `/` on integers.
pub open spec fn trunc_div(a: int, b: int) -> int {
    if a >= 0 {
        a / b
    } else {
        -((-a) / b)
    }
}

/// Whether `x` fits in an `i64`.
pub open spec fn fits_i64(x: int) -> bool {
    i64::MIN <= x <= i64::MAX
}

proof fn lemma_naive_from_millis(millis: i64)
    ensures
        naive_from_millis(millis).wf(),
        i32::MIN <= millis_day(millis) <= i32::MAX ==> naive_from_millis(millis).spec_millis()
            == millis,
{
    let m = millis as int;
    let secs = m / 1000;
    assert(0 <= m % 1000 < 1000);
    assert(0 <= secs % 86_400 < 86_400);
    assert(m == secs * 1000 + m % 1000);
    assert(secs == (secs / 86_400) * 86_400 + secs % 86_400);
    let days = secs / 86_400;
    assert(-1_000_000_000_000_000_000 <= secs / 86_400 <= 1_000_000_000_000_000_000) by (nonlinear_arith)
        requires
            secs == m / 1000,
            i64::MIN <= m <= i64::MAX,
    ;
    if i32::MIN <= millis_day(millis) <= i32::MAX {
        let dt = naive_from_millis(millis);
        assert(((m % 1000) * 1_000_000) / 1_000_000 == m % 1000) by (nonlinear_arith)
            requires
                0 <= m % 1000 < 1000,
        ;
        assert(days * 86_400_000 + (secs % 86_400) * 1000 == secs * 1000) by (nonlinear_arith)
            requires
                secs == days * 86_400 + secs % 86_400,
        ;
        assert(dt.days_from_ce == days + UNIX_EPOCH_DAY);
    }
}

impl DateMillis {
    /// Converts a protobuf timestamp into milliseconds.
    ///
    /// Fails with `SecondsOutOfRange(seconds)` when the seconds, in
    /// milliseconds, do not fit in an `i64`, and with
    /// `MillisOutOfRange(seconds * 1000)` when adding the nanoseconds, truncated
    /// to whole milliseconds toward zero, leaves the `i64` range.
    pub fn try_from_timestamp(value: Timestamp) -> (r: Result<DateMillis, DateConversionError>)
        ensures
            fits_i64(value.seconds * 1000) && fits_i64(
                value.seconds * 1000 + trunc_div(value.nanos as int, 1_000_000),
            ) ==> r == Ok::<DateMillis, DateConversionError>(
                DateMillis { millis: (value.seconds * 1000 + trunc_div(value.nanos as int, 1_000_000)) as i64 },
            ),
            r matches Ok(d) ==> fits_i64(value.seconds * 1000) && d.millis == value.seconds * 1000
                + trunc_div(value.nanos as int, 1_000_000),
            !fits_i64(value.seconds * 1000) <==> r == Err::<DateMillis, DateConversionError>(
                DateConversionError::SecondsOutOfRange(value.seconds),
            ),
            fits_i64(value.seconds * 1000) && !fits_i64(
                value.seconds * 1000 + trunc_div(value.nanos as int, 1_000_000),
            ) <==> r == Err::<DateMillis, DateConversionError>(
                DateConversionError::MillisOutOfRange((value.seconds * 1000) as i64),
            ),
    {
        match value.seconds.checked_mul(1000) {
            Some(res) => {
                let nanos = value.nanos as i64;
                let sub_millis: i64 = if nanos >= 0 {
                    nanos / 1_000_000
                } else {
                    -((-nanos) / 1_000_000)
                };
                match res.checked_add(sub_millis) {
                    Some(millis) => Ok(DateMillis { millis }),
                    None => Err(DateConversionError::MillisOutOfRange(res)),
                }
            },
            None => Err(DateConversionError::SecondsOutOfRange(value.seconds)),
        }
    }

    /// The milliseconds since the epoch of a date and time taken as UTC.
    pub fn from_naive_date_time(value: &NaiveDateTime) -> (d: DateMillis)
        requires
            value.wf(),
        ensures
            d.millis == value.spec_millis(),
    {
        let days = value.days_from_ce as i64 - UNIX_EPOCH_DAY;
        assert(-3_000_000_000 <= days <= 3_000_000_000);
        assert(-300_000_000_000_000_000 <= days * 86_400_000 <= 300_000_000_000_000_000) by (nonlinear_arith)
            requires
                -3_000_000_000 <= days <= 3_000_000_000,
        ;
        let day_millis = days * MILLIS_PER_DAY;
        let time_millis = value.secs_of_day as i64 * 1000 + (value.nanos / 1_000_000) as i64;
        DateMillis { millis: day_millis + time_millis }
    }
}

impl NaiveDateTime {
    /// The conversion of `value` to a date and time, given what chrono's
    /// conversion of its milliseconds gave: that date and time, or
    /// `MillisOutOfRange(millis)` when chrono gave none.
    pub fn from_chrono_result(value: DateMillis, converted: Option<NaiveDateTime>) -> (r: Result<
        NaiveDateTime,
        DateConversionError,
    >)
        ensures
            r is Ok <==> converted is Some,
            r matches Ok(dt) ==> converted == Some(dt),
            r matches Err(e) ==> e == DateConversionError::MillisOutOfRange(value.millis),
    {
        match converted {
            Some(dt) => Ok(dt),
            None => Err(DateConversionError::MillisOutOfRange(value.millis)),
        }
    }

    /// The UTC date and time `value` milliseconds after the epoch.
    ///
    /// Fails with `MillisOutOfRange(millis)` when the date lies outside chrono's range.
    pub fn try_from_date_millis(value: DateMillis) -> (r: Result<NaiveDateTime, DateConversionError>)
        ensures
            r is Ok <==> chrono_millis_representable(value.millis),
            r matches Ok(dt) ==> dt == naive_from_millis(value.millis) && dt.wf()
                && dt.spec_millis() == value.millis,
            r matches Err(e) ==> e == DateConversionError::MillisOutOfRange(value.millis),
    {
        let converted = chrono_from_timestamp_millis(value.millis);
        proof {
            if converted is Some {
                lemma_naive_from_millis(value.millis);
            }
        }
        NaiveDateTime::from_chrono_result(value, converted)
    }
}

/// Converting milliseconds into a date and time and back gives the same
/// milliseconds, whenever the first conversion succeeds.
pub proof fn lemma_millis_round_trip(millis: i64)
    requires
        i32::MIN <= millis_day(millis) <= i32::MAX,
    ensures
        naive_from_millis(millis).wf(),
        naive_from_millis(millis).spec_millis() == millis,
{
    lemma_naive_from_millis(millis);
}

/// A date and time within chrono's range, on a whole millisecond and outside a
/// leap second, converted to milliseconds and back is the same date and time:
/// `try_from_date_millis(from_naive_date_time(t))` is `Ok(t)`.
pub proof fn lemma_date_time_round_trip(t: NaiveDateTime)
    requires
        t.wf(),
        t.nanos < 1_000_000_000,
        t.nanos % 1_000_000 == 0,
        CHRONO_MIN_DAY <= t.days_from_ce <= CHRONO_MAX_DAY,
    ensures
        fits_i64(t.spec_millis()),
        chrono_millis_representable(t.spec_millis() as i64),
        naive_from_millis(t.spec_millis() as i64) == t,
{
    let days: int = t.days_from_ce - UNIX_EPOCH_DAY;
    let secs: int = days * 86_400 + t.secs_of_day;
    let ms: int = (t.nanos / 1_000_000) as int;
    let m: int = t.spec_millis();
    assert(0 <= ms < 1000);
    assert(m == secs * 1000 + ms) by (nonlinear_arith)
        requires
            m == days * 86_400_000 + t.secs_of_day * 1000 + ms,
            secs == days * 86_400 + t.secs_of_day,
    ;
    assert(-9_000_000_000_000_000 <= m <= 9_000_000_000_000_000) by (nonlinear_arith)
        requires
            m == days * 86_400_000 + t.secs_of_day * 1000 + ms,
            -97_000_000 <= days <= 96_000_000,
            0 <= t.secs_of_day < 86_400,
            0 <= ms < 1000,
    ;
    lemma_fundamental_div_mod_converse(m, 1000, secs, ms);
    lemma_fundamental_div_mod_converse(secs, 86_400, days, t.secs_of_day as int);
    assert(ms * 1_000_000 == t.nanos) by (nonlinear_arith)
        requires
            ms == t.nanos / 1_000_000,
            t.nanos % 1_000_000 == 0,
    ;
    let millis = m as i64;
    assert(millis as int == m);
    assert(millis / 1000 == secs);
    assert(millis % 1000 == ms);
}

/// Whether the optional date in milliseconds can be converted.
pub open spec fn optional_representable(d: Option<DateMillis>) -> bool {
    match d {
        Some(d) => chrono_millis_representable(d.millis),
        None => true,
    }
}

/// The conversion of an optional date in milliseconds.
pub open spec fn optional_naive(d: Option<DateMillis>) -> Option<NaiveDateTime> {
    match d {
        Some(d) => Some(naive_from_millis(d.millis)),
        None => None,
    }
}

/// Whether both dates are given and the start comes after the end.
pub open spec fn start_after_end(start: Option<DateMillis>, end: Option<DateMillis>) -> bool {
    match (start, end) {
        (Some(s), Some(e)) => s.millis > e.millis,
        _ => false,
    }
}

/// The message of a failed conversion of a start or end date.
pub const CONVERSION_FAILED: &'static str = "error creating tournament";

/// The message of a start date that lies after the end date.
pub const START_AFTER_END: &'static str = "start date is after end date";

/// Converts the optional start and end dates of a tournament or stage.
///
/// A date that cannot be converted gives an internal error; a start after the
/// end gives an invalid argument.
pub fn convert_start_end(start_date: Option<DateMillis>, end_date: Option<DateMillis>) -> (r: Result<
    (Option<NaiveDateTime>, Option<NaiveDateTime>),
    Status,
>)
    ensures
        r matches Ok((s, e)) ==> {
            &&& optional_representable(start_date) && optional_representable(end_date)
            &&& !start_after_end(start_date, end_date)
            &&& s == optional_naive(start_date)
            &&& e == optional_naive(end_date)
            &&& (s matches Some(s) ==> s.wf() && s.spec_millis() == start_date->0.millis)
            &&& (e matches Some(e) ==> e.wf() && e.spec_millis() == end_date->0.millis)
        },
        r matches Err(status) ==> {
            ||| (!optional_representable(start_date) || !optional_representable(end_date))
                && status == Status { code: Code::Internal, message: CONVERSION_FAILED }
            ||| optional_representable(start_date) && optional_representable(end_date)
                && start_after_end(start_date, end_date) && status == Status {
                code: Code::InvalidArgument,
                message: START_AFTER_END,
            }
        },
{
    let start: Option<NaiveDateTime> = match start_date {
        Some(date) => match NaiveDateTime::try_from_date_millis(date) {
            Ok(dt) => Some(dt),
            Err(_) => {
                return Err(Status::new(Code::Internal, CONVERSION_FAILED));
            },
        },
        None => None,
    };
    let end: Option<NaiveDateTime> = match end_date {
        Some(date) => match NaiveDateTime::try_from_date_millis(date) {
            Ok(dt) => Some(dt),
            Err(_) => {
                return Err(Status::new(Code::Internal, CONVERSION_FAILED));
            },
        },
        None => None,
    };
    if let (Some(s), Some(e)) = (start, end) {
        let start_millis = DateMillis::from_naive_date_time(&s);
        let end_millis = DateMillis::from_naive_date_time(&e);
        if start_millis.millis > end_millis.millis {
            return Err(Status::new(Code::InvalidArgument, START_AFTER_END));
        }
    }
    Ok((start, end))
}

} // verus!
