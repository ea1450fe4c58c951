use rsntp::{ConversionError, SntpDateTime, SntpDuration};
use std::time::{Duration, SystemTime};

#[test]
fn sntp_duration_fixed_point_value_works() {
    let positive_duration = SntpDuration::from_secs(3600);
    let negative_duration = SntpDuration::from_secs(-3600);

    assert_eq!(positive_duration.as_fixed_point() as f64 / 4294967296.0, 3600.0);
    assert_eq!(negative_duration.as_fixed_point() as f64 / 4294967296.0, -3600.0);
}

#[test]
fn sntp_duration_abs_and_signum_works() {
    let positive_duration = SntpDuration::from_secs(3600);
    let negative_duration = SntpDuration::from_secs(-3600);

    assert_eq!(
        positive_duration.abs_as_std_duration().unwrap(),
        Duration::from_secs(3600)
    );
    assert_eq!(
        negative_duration.abs_as_std_duration().unwrap(),
        Duration::from_secs(3600)
    );

    assert_eq!(positive_duration.signum(), 1);
    assert_eq!(negative_duration.signum(), -1);
}

#[test]
fn sntp_duration_abs_parts_truncate_to_nanoseconds() {
    // Half a second is exactly 2^31 fixed-point units.
    let half_second = SntpDuration::from_fixed_point(0x8000_0000);
    assert_eq!(
        half_second.abs_as_std_duration().unwrap(),
        Duration::new(0, 500_000_000)
    );

    // One single fixed-point unit (about 233 ps) truncates to zero
    // nanoseconds.
    let one_unit = SntpDuration::from_fixed_point(1);
    assert_eq!(one_unit.abs_as_std_duration().unwrap(), Duration::new(0, 0));
}

#[test]
fn sntp_duration_converting_to_chrono_duration_works() {
    let positive_duration = SntpDuration::from_secs(3600);
    let negative_duration = SntpDuration::from_secs(-3600);

    let positive_chrono: chrono::Duration = positive_duration.into_chrono_duration().unwrap();
    let negative_chrono: chrono::Duration = negative_duration.into_chrono_duration().unwrap();

    assert_eq!(positive_chrono, chrono::Duration::hours(1));
    assert_eq!(negative_chrono, chrono::Duration::hours(-1));
}

#[test]
fn sntp_duration_converting_to_chrono_duration_fails_when_out_of_range() {
    // chrono holds at most i64::MAX milliseconds; 2^95 units is about
    // 2^63 seconds, far beyond that.
    let huge = SntpDuration::from_fixed_point(1i128 << 95);
    assert_eq!(
        huge.into_chrono_duration().unwrap_err(),
        ConversionError::Overflow
    );
    let huge_negative = SntpDuration::from_fixed_point(-(1i128 << 95));
    assert_eq!(
        huge_negative.into_chrono_duration().unwrap_err(),
        ConversionError::Overflow
    );
}

#[test]
fn sntp_duration_converting_to_time_duration_works() {
    let positive_duration = SntpDuration::from_secs(3600);
    let negative_duration = SntpDuration::from_secs(-3600);

    let positive_time: time::Duration = positive_duration.into_time_duration().unwrap();
    let negative_time: time::Duration = negative_duration.into_time_duration().unwrap();

    assert_eq!(positive_time, time::Duration::hours(1));
    assert_eq!(negative_time, time::Duration::hours(-1));
}

#[test]
fn sntp_date_time_converting_to_system_time_works() {
    let now = SystemTime::now();
    let datetime = SntpDateTime::new(SntpDuration::from_secs(3600));

    let systemtime_1 = datetime.into_system_time().unwrap();
    let systemtime_2 = now.checked_add(Duration::from_secs(3600)).unwrap();

    let unix_1 = systemtime_1
        .duration_since(std::time::UNIX_EPOCH)
        .unwrap()
        .as_secs_f64();
    let unix_2 = systemtime_2
        .duration_since(std::time::UNIX_EPOCH)
        .unwrap()
        .as_secs_f64();

    assert!((unix_1 - unix_2).abs() < 0.5);
}

#[test]
fn sntp_date_time_with_negative_offset_converts_to_an_earlier_instant() {
    let now = SystemTime::now();
    let datetime = SntpDateTime::new(SntpDuration::from_secs(-3600));

    let shifted = datetime.into_system_time().unwrap();
    let expected = now.checked_sub(Duration::from_secs(3600)).unwrap();

    let unix_1 = shifted
        .duration_since(std::time::UNIX_EPOCH)
        .unwrap()
        .as_secs_f64();
    let unix_2 = expected
        .duration_since(std::time::UNIX_EPOCH)
        .unwrap()
        .as_secs_f64();

    assert!((unix_1 - unix_2).abs() < 0.5);
}

#[test]
fn sntp_date_time_converting_to_time_offset_datetime_works() {
    // An offset of a tenth of a second, exactly in fixed point.
    let datetime = SntpDateTime::new(SntpDuration::from_fixed_point(429_496_730));
    let converted: time::OffsetDateTime = datetime.into_offset_date_time().unwrap();
    let diff = converted - time::OffsetDateTime::now_utc();

    assert!(diff.whole_milliseconds() > 90);
    assert!(diff.whole_milliseconds() < 110);
}

#[test]
fn unix_timestamp_applies_the_offset_to_the_clock() {
    let datetime = SntpDateTime::new(SntpDuration::from_secs(3600));
    let stamped = datetime.unix_timestamp().unwrap();
    let now = SystemTime::now()
        .duration_since(std::time::UNIX_EPOCH)
        .unwrap();

    let diff = stamped.as_secs_f64() - now.as_secs_f64();
    assert!(diff > 3599.5 && diff < 3600.5);
}

#[test]
fn corrected_unix_time_is_exact_for_a_supplied_clock_reading() {
    let datetime = SntpDateTime::new(SntpDuration::from_secs(-2));
    assert_eq!(
        datetime.unix_timestamp_from(10, 500_000_000).unwrap(),
        (8, 500_000_000)
    );

    let with_fraction = SntpDateTime::new(SntpDuration::from_fixed_point(-(0x8000_0000)));
    assert_eq!(
        with_fraction.unix_timestamp_from(10, 200_000_000).unwrap(),
        (9, 700_000_000)
    );
}

#[test]
fn corrected_unix_time_before_the_epoch_overflows() {
    let datetime = SntpDateTime::new(SntpDuration::from_secs(-100));
    assert_eq!(
        datetime.unix_timestamp_from(10, 0).unwrap_err(),
        ConversionError::Overflow
    );
}

#[test]
fn corrected_unix_time_past_the_largest_second_count_overflows() {
    let datetime = SntpDateTime::new(SntpDuration::from_secs(100));
    assert_eq!(
        datetime.unix_timestamp_from(u64::MAX - 10, 0).unwrap_err(),
        ConversionError::Overflow
    );
}
