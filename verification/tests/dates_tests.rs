use tstats::dates::{
    convert_start_end, DateConversionError, DateMillis, NaiveDate, NaiveDateTime, Timestamp,
    CONVERSION_FAILED, START_AFTER_END, CHRONO_MAX_DAY, CHRONO_MIN_DAY,
};
use tstats::status::{Code, Status};

#[test]
fn timestamp_to_millis() {
    let r = DateMillis::try_from_timestamp(Timestamp { seconds: 1, nanos: 500_000_000 });
    assert_eq!(r, Ok(DateMillis { millis: 1500 }));
    let r = DateMillis::try_from_timestamp(Timestamp { seconds: 947_638_923, nanos: 4_999_999 });
    assert_eq!(r, Ok(DateMillis { millis: 947_638_923_004 }));
}

#[test]
fn negative_nanos_truncate_toward_zero() {
    let r = DateMillis::try_from_timestamp(Timestamp { seconds: -1, nanos: -500_000_000 });
    assert_eq!(r, Ok(DateMillis { millis: -1500 }));
    let r = DateMillis::try_from_timestamp(Timestamp { seconds: 0, nanos: -999_999 });
    assert_eq!(r, Ok(DateMillis { millis: 0 }));
}

#[test]
fn timestamp_seconds_out_of_range() {
    let r = DateMillis::try_from_timestamp(Timestamp { seconds: i64::MAX, nanos: 0 });
    assert_eq!(r, Err(DateConversionError::SecondsOutOfRange(i64::MAX)));
    let r = DateMillis::try_from_timestamp(Timestamp { seconds: i64::MIN / 999, nanos: 0 });
    assert_eq!(r, Err(DateConversionError::SecondsOutOfRange(i64::MIN / 999)));
}

#[test]
fn millis_to_date_time() {
    // 2000-01-12 01:02:03.004 UTC
    let dt = NaiveDateTime::try_from_date_millis(DateMillis { millis: 947_638_923_004 }).unwrap();
    assert_eq!(dt, NaiveDateTime { days_from_ce: 730_131, secs_of_day: 3723, nanos: 4_000_000 });
    assert_eq!(DateMillis::from_naive_date_time(&dt), DateMillis { millis: 947_638_923_004 });
}

#[test]
fn millis_before_epoch() {
    let dt = NaiveDateTime::try_from_date_millis(DateMillis { millis: -1 }).unwrap();
    assert_eq!(dt, NaiveDateTime { days_from_ce: 719_162, secs_of_day: 86_399, nanos: 999_000_000 });
    assert_eq!(DateMillis::from_naive_date_time(&dt).millis, -1);
}

#[test]
fn millis_round_trip() {
    for m in [0i64, 1, 999, 1000, 86_399_999, 86_400_000, -86_400_001, 1_700_000_000_123, -62_135_596_800_000] {
        let dt = NaiveDateTime::try_from_date_millis(DateMillis { millis: m }).unwrap();
        assert_eq!(DateMillis::from_naive_date_time(&dt).millis, m);
    }
}

#[test]
fn millis_out_of_chrono_range() {
    let r = NaiveDateTime::try_from_date_millis(DateMillis { millis: i64::MAX });
    assert_eq!(r, Err(DateConversionError::MillisOutOfRange(i64::MAX)));
    let r = NaiveDateTime::try_from_date_millis(DateMillis { millis: i64::MIN });
    assert_eq!(r, Err(DateConversionError::MillisOutOfRange(i64::MIN)));
}

#[test]
fn date_and_midnight() {
    let dt = NaiveDateTime { days_from_ce: 730_131, secs_of_day: 3723, nanos: 4_000_000 };
    let d = dt.date();
    assert_eq!(d, NaiveDate { days_from_ce: 730_131 });
    assert_eq!(d.at_midnight(), NaiveDateTime { days_from_ce: 730_131, secs_of_day: 0, nanos: 0 });
}

#[test]
fn start_end_in_order() {
    let r = convert_start_end(Some(DateMillis { millis: 3 }), Some(DateMillis { millis: 5 })).unwrap();
    assert_eq!(r.0.map(|d| DateMillis::from_naive_date_time(&d).millis), Some(3));
    assert_eq!(r.1.map(|d| DateMillis::from_naive_date_time(&d).millis), Some(5));
    let same = convert_start_end(Some(DateMillis { millis: 5 }), Some(DateMillis { millis: 5 }));
    assert!(same.is_ok());
}

#[test]
fn start_after_end_is_invalid_argument() {
    let r = convert_start_end(Some(DateMillis { millis: 5 }), Some(DateMillis { millis: 3 }));
    assert_eq!(r, Err(Status { code: Code::InvalidArgument, message: START_AFTER_END }));
    assert_eq!(START_AFTER_END, "start date is after end date");
}

#[test]
fn missing_dates_are_fine() {
    assert_eq!(convert_start_end(None, None), Ok((None, None)));
    let r = convert_start_end(None, Some(DateMillis { millis: 0 })).unwrap();
    assert!(r.0.is_none());
    assert_eq!(r.1, Some(NaiveDateTime { days_from_ce: 719_163, secs_of_day: 0, nanos: 0 }));
}

#[test]
fn unconvertible_date_is_internal_error() {
    let r = convert_start_end(Some(DateMillis { millis: i64::MAX }), None);
    assert_eq!(r, Err(Status { code: Code::Internal, message: CONVERSION_FAILED }));
    let r = convert_start_end(Some(DateMillis { millis: 0 }), Some(DateMillis { millis: i64::MIN }));
    assert_eq!(r, Err(Status { code: Code::Internal, message: "error creating tournament" }));
}

#[test]
fn chrono_result_becomes_conversion_result() {
    let dt = NaiveDateTime { days_from_ce: 719_163, secs_of_day: 1, nanos: 0 };
    assert_eq!(NaiveDateTime::from_chrono_result(DateMillis { millis: 1000 }, Some(dt)), Ok(dt));
    assert_eq!(
        NaiveDateTime::from_chrono_result(DateMillis { millis: i64::MAX }, None),
        Err(DateConversionError::MillisOutOfRange(i64::MAX))
    );
}

#[test]
fn timestamp_sub_millis_overflow_is_millis_out_of_range() {
    let r = DateMillis::try_from_timestamp(Timestamp { seconds: 9_223_372_036_854_775, nanos: 999_000_000 });
    assert_eq!(r, Err(DateConversionError::MillisOutOfRange(9_223_372_036_854_775_000)));
    let r = DateMillis::try_from_timestamp(Timestamp { seconds: 9_223_372_036_854_775, nanos: 807_000_000 });
    assert_eq!(r, Ok(DateMillis { millis: i64::MAX }));
}

#[test]
fn chrono_range_bounds() {
    let first = (CHRONO_MIN_DAY - 719_163) * 86_400_000;
    let last = (CHRONO_MAX_DAY - 719_163 + 1) * 86_400_000 - 1;
    assert_eq!(
        NaiveDateTime::try_from_date_millis(DateMillis { millis: first }),
        Ok(NaiveDateTime { days_from_ce: CHRONO_MIN_DAY as i32, secs_of_day: 0, nanos: 0 })
    );
    assert_eq!(
        NaiveDateTime::try_from_date_millis(DateMillis { millis: first - 1 }),
        Err(DateConversionError::MillisOutOfRange(first - 1))
    );
    assert_eq!(
        NaiveDateTime::try_from_date_millis(DateMillis { millis: last }),
        Ok(NaiveDateTime { days_from_ce: CHRONO_MAX_DAY as i32, secs_of_day: 86_399, nanos: 999_000_000 })
    );
    assert_eq!(
        NaiveDateTime::try_from_date_millis(DateMillis { millis: last + 1 }),
        Err(DateConversionError::MillisOutOfRange(last + 1))
    );
}

#[test]
fn date_time_round_trip() {
    let t = NaiveDateTime { days_from_ce: 738_000, secs_of_day: 45_296, nanos: 789_000_000 };
    let m = DateMillis::from_naive_date_time(&t);
    assert_eq!(NaiveDateTime::try_from_date_millis(m), Ok(t));
}
