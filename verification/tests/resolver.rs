//! Resolver tests: the priority policy, offset and override-zone
//! interpretation, DST edge cases, and every parse-error path.

use x3f_time::datetime::{epoch_seconds, parse_datetime, parse_i64, parse_utc_offset, LocalDateTime};
use x3f_time::error::{ParseReason, X3fError};
use x3f_time::props::X3fProperty;
use x3f_time::resolve::{resolve_timestamp, Provenance};

fn props(pairs: &[(&str, &str)]) -> Vec<X3fProperty> {
    pairs
        .iter()
        .map(|(n, v)| X3fProperty { name: n.to_string(), value: v.to_string() })
        .collect()
}

#[test]
fn embedded_with_offset_is_exact() {
    let r = resolve_timestamp(Some("2017-07-14 11:40:00"), Some("+09:00"), &props(&[]), None)
        .unwrap()
        .unwrap();
    assert_eq!(r.epoch_seconds, 1_500_000_000);
    assert_eq!(r.provenance, Provenance::EmbeddedMetadata);
}

#[test]
fn embedded_with_negative_offset_is_exact() {
    let r = resolve_timestamp(Some("2017-07-13 21:10:00"), Some("-05:30"), &props(&[]), None)
        .unwrap()
        .unwrap();
    assert_eq!(r.epoch_seconds, 1_500_000_000);
}

#[test]
fn unix_epoch_is_zero() {
    let r = resolve_timestamp(Some("1970-01-01 00:00:00"), Some("+00:00"), &props(&[]), None)
        .unwrap()
        .unwrap();
    assert_eq!(r.epoch_seconds, 0);
}

#[test]
fn leap_day_is_exact() {
    let r = resolve_timestamp(Some("2020-02-29 00:00:00"), Some("+00:00"), &props(&[]), None)
        .unwrap()
        .unwrap();
    assert_eq!(r.epoch_seconds, 1_582_934_400);
}

#[test]
fn embedded_metadata_beats_device_clock() {
    // both an embedded date-time with offset and a TIME property: the
    // embedded metadata wins
    let table = props(&[("TIME", "999")]);
    let r = resolve_timestamp(Some("2017-07-14 02:40:00"), Some("+00:00"), &table, None)
        .unwrap()
        .unwrap();
    assert_eq!(r.provenance, Provenance::EmbeddedMetadata);
    assert_eq!(r.epoch_seconds, 1_500_000_000);
}

#[test]
fn device_clock_alone_is_utc_seconds() {
    // only TIME = "1500000000": the instant is the epoch plus exactly
    // 1,500,000,000 seconds, no timezone interpretation at all
    let table = props(&[("TIME", "1500000000")]);
    let r = resolve_timestamp(None, None, &table, Some("Asia/Tokyo")).unwrap().unwrap();
    assert_eq!(r.provenance, Provenance::DeviceClock);
    assert_eq!(r.epoch_seconds, 1_500_000_000);
}

#[test]
fn no_source_is_explicit_absence() {
    let r = resolve_timestamp(None, None, &props(&[("LENS", "30mm")]), None).unwrap();
    assert!(r.is_none());
}

#[test]
fn override_zone_interprets_local_time() {
    // Japan has no DST: 11:40 JST is 02:40 UTC, independent of the
    // process's own timezone
    let r = resolve_timestamp(Some("2017-07-14 11:40:00"), None, &props(&[]), Some("Asia/Tokyo"))
        .unwrap()
        .unwrap();
    assert_eq!(r.epoch_seconds, 1_500_000_000);
    assert_eq!(r.provenance, Provenance::EmbeddedMetadata);
}

#[test]
fn override_zone_beats_embedded_offset() {
    // with both an override zone and an embedded offset, the override wins
    let r = resolve_timestamp(
        Some("2017-07-14 11:40:00"),
        Some("+00:00"),
        &props(&[]),
        Some("Asia/Tokyo"),
    )
    .unwrap()
    .unwrap();
    assert_eq!(r.epoch_seconds, 1_500_000_000);
}

#[test]
fn unknown_zone_name_is_parse_error() {
    let e = resolve_timestamp(Some("2017-07-14 11:40:00"), None, &props(&[]), Some("Not/AZone"))
        .unwrap_err();
    assert_eq!(e, X3fError::Parse(ParseReason::ZoneName));
}

#[test]
fn dst_gap_is_explicit_error() {
    // 2021-03-14 02:30 never happened in New York (spring forward)
    let e = resolve_timestamp(
        Some("2021-03-14 02:30:00"),
        None,
        &props(&[]),
        Some("America/New_York"),
    )
    .unwrap_err();
    assert_eq!(e, X3fError::AmbiguousOrInvalidLocalTime);
}

#[test]
fn dst_overlap_is_explicit_error() {
    // 2021-11-07 01:30 happened twice in New York (fall back)
    let e = resolve_timestamp(
        Some("2021-11-07 01:30:00"),
        None,
        &props(&[]),
        Some("America/New_York"),
    )
    .unwrap_err();
    assert_eq!(e, X3fError::AmbiguousOrInvalidLocalTime);
}

#[test]
fn zone_without_gap_accepts_midwinter_midnight() {
    let r = resolve_timestamp(
        Some("2021-01-01 00:00:00"),
        None,
        &props(&[]),
        Some("America/New_York"),
    )
    .unwrap()
    .unwrap();
    // midnight EST is 05:00 UTC; 2021-01-01T05:00:00Z
    assert_eq!(r.epoch_seconds, 1_609_477_200);
}

#[test]
fn malformed_datetime_is_parse_error() {
    for bad in [
        "2017-13-01 00:00:00",  // month out of range
        "2017-02-29 00:00:00",  // not a leap year
        "2017-00-10 00:00:00",  // month zero
        "2017-01-00 00:00:00",  // day zero
        "2017-01-01 24:00:00",  // hour out of range
        "2017-01-01 00:60:00",  // minute out of range
        "2017-01-01 00:00:60",  // second out of range
        "2017-01-01T00:00:00",  // wrong separator
        "17-01-01 00:00:00",    // too short
        "2017-01-01 00:00:0x",  // non-digit
    ] {
        let e = resolve_timestamp(Some(bad), Some("+00:00"), &props(&[]), None).unwrap_err();
        assert_eq!(e, X3fError::Parse(ParseReason::DateTimeText), "input: {bad}");
    }
}

#[test]
fn malformed_offset_is_parse_error() {
    for bad in ["+9:00", "09:00", "+24:00", "+00:60", "+0000", "Z", "+00-00"] {
        let e = resolve_timestamp(Some("2017-07-14 02:40:00"), Some(bad), &props(&[]), None)
            .unwrap_err();
        assert_eq!(e, X3fError::Parse(ParseReason::OffsetText), "input: {bad}");
    }
}

#[test]
fn malformed_time_value_is_parse_error() {
    for bad in ["", "abc", "12a", "--5", "+", "-", "99999999999999999999"] {
        let table = props(&[("TIME", bad)]);
        let e = resolve_timestamp(None, None, &table, None).unwrap_err();
        assert_eq!(e, X3fError::Parse(ParseReason::TimeValue), "input: {bad}");
    }
}

#[test]
fn time_value_extremes_parse() {
    assert_eq!(parse_i64("9223372036854775807").unwrap(), i64::MAX);
    assert_eq!(parse_i64("-9223372036854775808").unwrap(), i64::MIN);
    assert!(parse_i64("9223372036854775808").is_err());
    assert!(parse_i64("-9223372036854775809").is_err());
    assert_eq!(parse_i64("+42").unwrap(), 42);
    assert_eq!(parse_i64("0").unwrap(), 0);
}

#[test]
fn parse_datetime_fields() {
    let dt = parse_datetime("2017-07-14 02:40:59").unwrap();
    assert_eq!(
        dt,
        LocalDateTime { year: 2017, month: 7, day: 14, hour: 2, minute: 40, second: 59 }
    );
    assert!(parse_datetime("2016-02-29 00:00:00").is_ok()); // leap year
    assert!(parse_datetime("2000-02-29 00:00:00").is_ok()); // 400-year rule
    assert!(parse_datetime("1900-02-29 00:00:00").is_err()); // 100-year rule
}

#[test]
fn parse_offset_values() {
    assert_eq!(parse_utc_offset("+00:00").unwrap(), 0);
    assert_eq!(parse_utc_offset("+09:00").unwrap(), 32_400);
    assert_eq!(parse_utc_offset("-05:30").unwrap(), -19_800);
    assert_eq!(parse_utc_offset("+23:59").unwrap(), 86_340);
}

#[test]
fn epoch_seconds_known_values() {
    let epoch = LocalDateTime { year: 1970, month: 1, day: 1, hour: 0, minute: 0, second: 0 };
    assert_eq!(epoch_seconds(&epoch), 0);
    let t = LocalDateTime { year: 2017, month: 7, day: 14, hour: 2, minute: 40, second: 0 };
    assert_eq!(epoch_seconds(&t), 1_500_000_000);
    let before = LocalDateTime { year: 1969, month: 12, day: 31, hour: 23, minute: 59, second: 59 };
    assert_eq!(epoch_seconds(&before), -1);
    let early = LocalDateTime { year: 1, month: 1, day: 1, hour: 0, minute: 0, second: 0 };
    assert_eq!(epoch_seconds(&early), -62_135_596_800);
    let late = LocalDateTime { year: 9999, month: 12, day: 31, hour: 23, minute: 59, second: 59 };
    assert_eq!(epoch_seconds(&late), 253_402_300_799);
}
