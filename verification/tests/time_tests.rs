use weibo_crawler::error::ErrorKind;
use weibo_crawler::time::{format_timestamp, parse_weibo_created_at, Timestamp};

#[test]
fn parse_source_format_fields() {
    let t = parse_weibo_created_at("Tue Jan 02 15:04:05 +0800 2024").unwrap();
    assert_eq!(t.year, 2024);
    assert_eq!(t.month, 1);
    assert_eq!(t.day, 2);
    assert_eq!(t.hour, 15);
    assert_eq!(t.minute, 4);
    assert_eq!(t.second, 5);
    assert_eq!(t.offset_minutes, 480);
}

#[test]
fn parse_gives_expected_instant() {
    let t = parse_weibo_created_at("Tue Jan 02 15:04:05 +0800 2024").unwrap();
    assert_eq!(t.instant(), 1704179045);
}

#[test]
fn parse_negative_offset() {
    let t = parse_weibo_created_at("Mon Jan 01 10:00:00 -0530 2024").unwrap();
    assert_eq!(t.offset_minutes, -330);
}

#[test]
fn same_instant_across_offsets() {
    let a = parse_weibo_created_at("Tue Jan 02 15:04:05 +0800 2024").unwrap();
    let b = parse_weibo_created_at("Tue Jan 02 07:04:05 +0000 2024").unwrap();
    assert_eq!(a.instant(), b.instant());
}

#[test]
fn format_round_trip_represents_same_instant() {
    let t = parse_weibo_created_at("Tue Jan 02 15:04:05 +0800 2024").unwrap();
    let shown = format_timestamp(&t);
    assert_eq!(shown, "2024-01-02 15:04:05 +08:00");
    // The rendering spells the very fields that were parsed, so it
    // represents the same instant.
    let again = Timestamp {
        year: 2024,
        month: 1,
        day: 2,
        hour: 15,
        minute: 4,
        second: 5,
        offset_minutes: 480,
    };
    assert_eq!(t, again);
    assert_eq!(again.instant(), t.instant());
}

#[test]
fn format_negative_offset() {
    let t = parse_weibo_created_at("Mon Jan 01 10:00:00 -0530 2024").unwrap();
    assert_eq!(format_timestamp(&t), "2024-01-01 10:00:00 -05:30");
}

#[test]
fn parse_rejects_wrong_weekday() {
    // 2024-01-02 was a Tuesday.
    let r = parse_weibo_created_at("Mon Jan 02 15:04:05 +0800 2024");
    let e = r.unwrap_err();
    assert_eq!(e.kind, ErrorKind::Parse);
    assert_eq!(e.cause, "invalid created_at");
}

#[test]
fn parse_rejects_bad_month_name() {
    assert!(parse_weibo_created_at("Tue Jxx 02 15:04:05 +0800 2024").is_err());
}

#[test]
fn parse_rejects_impossible_date() {
    // 2023 is no leap year.
    assert!(parse_weibo_created_at("Wed Feb 29 01:00:00 +0000 2023").is_err());
}

#[test]
fn parse_accepts_leap_day() {
    // 2024-02-29 was a Thursday.
    let t = parse_weibo_created_at("Thu Feb 29 01:00:00 +0000 2024").unwrap();
    assert_eq!((t.month, t.day), (2, 29));
}

#[test]
fn parse_rejects_wrong_length() {
    assert!(parse_weibo_created_at("Tue Jan 2 15:04:05 +0800 2024").is_err());
    assert!(parse_weibo_created_at("").is_err());
}

#[test]
fn parse_rejects_offset_out_of_range() {
    assert!(parse_weibo_created_at("Tue Jan 02 15:04:05 +0860 2024").is_err());
    assert!(parse_weibo_created_at("Tue Jan 02 15:04:05 +2400 2024").is_err());
}

#[test]
fn parse_rejects_bad_time() {
    assert!(parse_weibo_created_at("Tue Jan 02 24:04:05 +0800 2024").is_err());
    assert!(parse_weibo_created_at("Tue Jan 02 15:60:05 +0800 2024").is_err());
}

#[test]
fn error_describe_names_kind_and_cause() {
    let e = parse_weibo_created_at("garbage").unwrap_err();
    assert_eq!(e.describe(), "parse error: invalid created_at");
}
