use cascade_agent::time::Timestamp;

#[test]
fn epoch_formats() {
    let t = Timestamp::from_unix(0, 0).unwrap();
    assert_eq!(t.to_rfc3339(), "1970-01-01T00:00:00+00:00");
    assert_eq!(t.display_text(), "1970-01-01 00:00:00 UTC");
    assert_eq!(t.compact_text(), "19700101_000000");
}

#[test]
fn subsecond_instant_reads_back() {
    let t = Timestamp::from_unix(1_700_000_000, 123_456_789).unwrap();
    let text = t.to_rfc3339();
    assert_eq!(text, "2023-11-14T22:13:20.123456789+00:00");
    let back = Timestamp::parse_rfc3339(&text).unwrap();
    assert_eq!(back, t);
    assert_eq!(back.unix_seconds(), 1_700_000_000);
    assert_eq!(back.subsec_nanos(), 123_456_789);
}

#[test]
fn offsets_are_converted_to_utc() {
    let t = Timestamp::parse_rfc3339("2023-11-14T23:13:20+01:00").unwrap();
    assert_eq!(t.unix_seconds(), 1_700_000_000);
}

#[test]
fn unrepresentable_instants_are_refused() {
    assert!(Timestamp::from_unix(i64::MAX, 0).is_none());
    assert!(Timestamp::from_unix(0, 2_000_000_000).is_none());
    assert!(Timestamp::parse_rfc3339("not a date").is_err());
}

#[test]
fn leap_seconds_are_written_as_second_60_and_read_back() {
    let leap = Timestamp::from_unix(1_483_228_799, 1_000_000_000).unwrap();
    assert_eq!(leap.to_rfc3339(), "2016-12-31T23:59:60+00:00");
    assert_eq!(Timestamp::parse_rfc3339("2016-12-31T23:59:60+00:00").unwrap(), leap);
    assert!(Timestamp::from_unix(1_483_228_798, 1_000_000_000).is_none());
}

#[test]
fn representable_range_ends_where_chrono_ends() {
    assert!(Timestamp::from_unix(-8_334_601_228_800, 0).is_some());
    assert!(Timestamp::from_unix(-8_334_601_228_801, 999_999_999).is_none());
    assert!(Timestamp::from_unix(8_210_266_876_799, 1_999_999_999).is_some());
    assert!(Timestamp::from_unix(8_210_266_876_800, 0).is_none());
    assert!(Timestamp::from_unix(59, 1_999_999_999).is_some());
    assert!(Timestamp::from_unix(-1, 1_000_000_000).is_some());
    assert!(Timestamp::from_unix(-2, 1_000_000_000).is_none());
}
