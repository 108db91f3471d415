use chrono::{TimeZone, Utc};
use memfs::filetime::{filetime_from_nanos, filetime_of, EPOCH_AS_FILETIME};
use memfs::{filetime_from_utc, filetime_now, UtcTime};

fn utc_time(dt: chrono::DateTime<Utc>) -> UtcTime {
    UtcTime { secs: dt.timestamp(), subsec_nanos: dt.timestamp_subsec_nanos() }
}

#[test]
fn the_unix_epoch_as_file_time() {
    assert_eq!(EPOCH_AS_FILETIME, 116444736000000000);
    assert_eq!(filetime_from_nanos(0), 116444736000000000);
    assert_eq!(filetime_from_utc(UtcTime { secs: 0, subsec_nanos: 0 }), 116444736000000000);
}

#[test]
fn file_time_counts_hundreds_of_nanoseconds() {
    assert_eq!(filetime_from_nanos(99), EPOCH_AS_FILETIME);
    assert_eq!(filetime_from_nanos(100), EPOCH_AS_FILETIME + 1);
    assert_eq!(filetime_from_nanos(1_000_000_000), EPOCH_AS_FILETIME + 10_000_000);
    assert_eq!(
        filetime_from_utc(UtcTime { secs: 1_700_000_000, subsec_nanos: 123_456_789 }),
        133_444_736_001_234_567
    );
    assert_eq!(filetime_from_nanos(i64::MAX), 92233720368547758 + EPOCH_AS_FILETIME);
}

#[test]
fn file_time_before_the_epoch_wraps() {
    assert_eq!(filetime_from_nanos(-1), u64::MAX / 100 + EPOCH_AS_FILETIME);
    assert_eq!(filetime_from_nanos(-1), (-1i64) as u64 / 100 + EPOCH_AS_FILETIME);
    assert_eq!(filetime_from_nanos(i64::MIN), i64::MIN as u64 / 100 + EPOCH_AS_FILETIME);
    assert_eq!(filetime_from_nanos(-12345), (-12345i64) as u64 / 100 + EPOCH_AS_FILETIME);
}

#[test]
fn nanoseconds_that_do_not_fit() {
    let last = UtcTime { secs: 9_223_372_036, subsec_nanos: 854_775_807 };
    assert_eq!(last.timestamp_nanos_opt(), Some(i64::MAX));
    assert!(filetime_of(last).is_some());
    let beyond = UtcTime { secs: 9_223_372_036, subsec_nanos: 854_775_808 };
    assert_eq!(beyond.timestamp_nanos_opt(), None);
    assert_eq!(filetime_of(beyond), None);
    let first = UtcTime { secs: -9_223_372_037, subsec_nanos: 145_224_192 };
    assert_eq!(first.timestamp_nanos_opt(), Some(i64::MIN));
    let before = UtcTime { secs: -9_223_372_037, subsec_nanos: 145_224_191 };
    assert_eq!(before.timestamp_nanos_opt(), None);
    assert_eq!(UtcTime { secs: i64::MAX, subsec_nanos: u32::MAX }.timestamp_nanos_opt(), None);
    assert_eq!(UtcTime { secs: i64::MIN, subsec_nanos: 0 }.timestamp_nanos_opt(), None);
}

#[test]
fn nanoseconds_agree_with_chrono() {
    let times = [
        Utc.with_ymd_and_hms(1970, 1, 1, 0, 0, 0).unwrap(),
        Utc.with_ymd_and_hms(2024, 2, 29, 12, 34, 56).unwrap(),
        Utc.with_ymd_and_hms(1969, 12, 31, 23, 59, 59).unwrap(),
        Utc.with_ymd_and_hms(1601, 1, 1, 0, 0, 0).unwrap(),
        Utc.with_ymd_and_hms(2262, 4, 11, 23, 47, 16).unwrap(),
        Utc.with_ymd_and_hms(2262, 4, 11, 23, 47, 17).unwrap(),
        Utc.with_ymd_and_hms(1677, 9, 21, 0, 12, 43).unwrap(),
        Utc.with_ymd_and_hms(3000, 1, 1, 0, 0, 0).unwrap(),
        Utc.timestamp_opt(1_700_000_000, 999_999_999).unwrap(),
    ];
    for dt in times {
        let t = utc_time(dt);
        assert_eq!(t.timestamp_nanos_opt(), dt.timestamp_nanos_opt(), "{dt}");
        let expected = dt.timestamp_nanos_opt().map(|n| n as u64 / 100 + EPOCH_AS_FILETIME);
        assert_eq!(filetime_of(t), expected, "{dt}");
        if let Some(expected) = expected {
            assert_eq!(filetime_from_utc(t), expected);
        }
    }
}

#[test]
fn now_is_after_the_year_2020_and_does_not_run_backwards_by_much() {
    let year_2020 = filetime_from_utc(utc_time(Utc.with_ymd_and_hms(2020, 1, 1, 0, 0, 0).unwrap()));
    let a = filetime_now().unwrap();
    let b = filetime_now().unwrap();
    assert!(a > year_2020);
    let one_minute = 60 * 10_000_000;
    assert!(b + one_minute > a);
    let reference = filetime_from_utc(utc_time(Utc::now()));
    assert!(reference + one_minute > a && a + one_minute > reference);
}
