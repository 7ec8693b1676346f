use tzstore::{
    append_timestamp, decode_timezone_name, list_in_timezone, list_in_timezone_json,
    parse_offset_timestamp, project, render_all, ServiceError, TimestampStore,
};

fn store_with(texts: &[&str]) -> TimestampStore {
    let mut store = TimestampStore::new();
    for t in texts {
        assert!(append_timestamp(&mut store, t).is_ok());
    }
    store
}

#[test]
fn parse_positive_offset_gives_utc_instant() {
    let p = parse_offset_timestamp("2023-05-01T10:00:00+02:00").unwrap();
    assert_eq!(p.instant.secs, 1_682_928_000);
    assert_eq!(p.instant.nanos, 0);
    assert_eq!(p.offset_secs, 7200);
}

#[test]
fn parse_zulu_and_numeric_offset_agree() {
    let a = parse_offset_timestamp("2023-05-01T08:00:00Z").unwrap();
    let b = parse_offset_timestamp("2023-05-01T10:00:00+02:00").unwrap();
    assert_eq!(a.instant, b.instant);
    assert_eq!(a.offset_secs, 0);
}

#[test]
fn parse_negative_offset_with_minutes() {
    let p = parse_offset_timestamp("2023-05-01T10:00:00-05:30").unwrap();
    assert_eq!(p.instant.secs, 1_682_935_200 + 19_800);
    assert_eq!(p.offset_secs, -19_800);
}

#[test]
fn parse_fraction_and_epoch() {
    let p = parse_offset_timestamp("1970-01-01T00:00:00.25Z").unwrap();
    assert_eq!(p.instant.secs, 0);
    assert_eq!(p.instant.nanos, 250_000_000);
}

#[test]
fn parse_leap_second() {
    let p = parse_offset_timestamp("2016-12-31T23:59:60Z").unwrap();
    assert_eq!(p.instant.secs, 1_483_228_799);
    assert_eq!(p.instant.nanos, 1_000_000_000);
}

#[test]
fn parse_extreme_years() {
    let lo = parse_offset_timestamp("0000-01-01T00:00:00+23:59").unwrap();
    assert_eq!(lo.instant.secs, -62_167_219_200 - 86_340);
    let hi = parse_offset_timestamp("9999-12-31T23:59:59-23:59").unwrap();
    assert_eq!(hi.instant.secs, 253_402_300_799 + 86_340);
}

#[test]
fn parse_rejects_missing_offset() {
    let r = parse_offset_timestamp("2023-05-01T10:00:00");
    assert!(matches!(r, Err(ServiceError::MalformedTimestamp(_))));
}

#[test]
fn round_trip_through_utc() {
    let store = store_with(&["2023-05-01T10:00:00+02:00", "2023-05-01T10:00:00.5-01:00"]);
    let v = list_in_timezone(&store, "UTC").unwrap();
    assert_eq!(v, vec!["2023-05-01T08:00:00+00:00".to_string(), "2023-05-01T11:00:00.500+00:00".to_string()]);
}

#[test]
fn insertion_order_is_kept() {
    let store = store_with(&[
        "2023-03-01T00:00:00Z",
        "2021-01-01T00:00:00Z",
        "2022-06-01T12:30:00Z",
        "2021-01-01T00:00:00Z",
    ]);
    assert_eq!(store.len(), 4);
    let v = list_in_timezone(&store, "UTC").unwrap();
    assert_eq!(
        v,
        vec![
            "2023-03-01T00:00:00+00:00".to_string(),
            "2021-01-01T00:00:00+00:00".to_string(),
            "2022-06-01T12:30:00+00:00".to_string(),
            "2021-01-01T00:00:00+00:00".to_string(),
        ]
    );
    let snap = store.snapshot();
    assert_eq!(snap.len(), 4);
    assert!(snap[0].secs > snap[1].secs);
}

#[test]
fn projection_is_repeatable() {
    let p = parse_offset_timestamp("2023-05-01T10:00:00+02:00").unwrap();
    let zone = decode_timezone_name("Europe/Paris").unwrap();
    let a = project(p.instant, &zone);
    let b = project(p.instant, &zone);
    assert_eq!(a, b);
    assert_eq!(a, "2023-05-01T10:00:00+02:00");
}

#[test]
fn seasonal_offsets_in_new_york() {
    let store = store_with(&["2023-01-15T12:00:00Z", "2023-07-15T12:00:00Z"]);
    let v = list_in_timezone(&store, "America/New_York").unwrap();
    assert_eq!(v[0], "2023-01-15T07:00:00-05:00");
    assert_eq!(v[1], "2023-07-15T08:00:00-04:00");
}

#[test]
fn malformed_input_is_rejected_and_not_stored() {
    let mut store = store_with(&["2023-05-01T10:00:00+02:00"]);
    let r = append_timestamp(&mut store, "not-a-date");
    assert!(matches!(r, Err(ServiceError::MalformedTimestamp(_))));
    assert_eq!(store.len(), 1);
}

#[test]
fn encoded_separator_matches_plain() {
    let store = store_with(&["2023-05-01T10:00:00+02:00"]);
    let encoded = list_in_timezone(&store, "Africa%2FAlgiers").unwrap();
    let plain = list_in_timezone(&store, "Africa/Algiers").unwrap();
    assert_eq!(encoded, plain);
    assert_eq!(plain, vec!["2023-05-01T09:00:00+01:00".to_string()]);
    assert_eq!(
        list_in_timezone_json(&store, "Africa%2FAlgiers"),
        list_in_timezone_json(&store, "Africa/Algiers")
    );
}

#[test]
fn decode_turns_encoded_separator_into_slash() {
    let z = decode_timezone_name("America%2FArgentina%2FBuenos_Aires").unwrap();
    assert_eq!(z.as_str(), "America/Argentina/Buenos_Aires");
    let r = decode_timezone_name("Africa%2fAlgiers");
    assert!(matches!(r, Err(ServiceError::UnknownTimezone(_))));
}

#[test]
fn empty_store_lists_nothing() {
    let store = TimestampStore::new();
    assert_eq!(list_in_timezone(&store, "UTC").unwrap(), Vec::<String>::new());
    assert_eq!(list_in_timezone_json(&store, "Africa%2FAlgiers").unwrap(), "[]");
}

#[test]
fn unknown_timezone_is_rejected() {
    let store = store_with(&["2023-05-01T10:00:00+02:00"]);
    assert!(matches!(list_in_timezone(&store, "Mars/Olympus"), Err(ServiceError::UnknownTimezone(_))));
    assert!(matches!(
        list_in_timezone_json(&store, "Mars%2FOlympus"),
        Err(ServiceError::UnknownTimezone(_))
    ));
}

#[test]
fn json_listing_in_zone() {
    let store = store_with(&["2023-01-15T12:00:00Z", "2023-07-15T12:00:00Z"]);
    let s = list_in_timezone_json(&store, "America%2FNew_York").unwrap();
    assert_eq!(s, "[\"2023-01-15T07:00:00-05:00\",\"2023-07-15T08:00:00-04:00\"]");
}

#[test]
fn render_all_keeps_order() {
    let store = store_with(&["2023-07-15T12:00:00Z", "2023-01-15T12:00:00Z"]);
    let zone = decode_timezone_name("Asia/Tokyo").unwrap();
    let v = render_all(&store.snapshot(), &zone);
    assert_eq!(v, vec!["2023-07-15T21:00:00+09:00".to_string(), "2023-01-15T21:00:00+09:00".to_string()]);
}

fn rejected(text: &str) -> bool {
    matches!(parse_offset_timestamp(text), Err(ServiceError::MalformedTimestamp(_)))
}

#[test]
fn fraction_is_kept_when_stored() {
    let mut store = TimestampStore::new();
    let p = append_timestamp(&mut store, "2023-07-15T12:00:00.5Z").unwrap();
    assert_eq!(p.instant.nanos, 500_000_000);
    assert_eq!(p.instant.secs, 1_689_422_400);
    assert_eq!(store.snapshot(), vec![p.instant]);
}

#[test]
fn fraction_beyond_nine_digits_is_ignored() {
    let p = parse_offset_timestamp("2023-07-15T12:00:00.1234567891Z").unwrap();
    assert_eq!(p.instant.nanos, 123_456_789);
    let q = parse_offset_timestamp("2023-07-15T12:00:00.000001+00:00").unwrap();
    assert_eq!(q.instant.nanos, 1_000);
}

#[test]
fn same_instant_from_different_offsets_stores_equal_values() {
    let mut a = TimestampStore::new();
    let mut b = TimestampStore::new();
    append_timestamp(&mut a, "2023-05-01T10:00:00.25+02:00").unwrap();
    append_timestamp(&mut b, "2023-05-01T08:00:00.25Z").unwrap();
    assert_eq!(a.snapshot(), b.snapshot());
}

#[test]
fn separators_and_signs_that_are_accepted() {
    let base = parse_offset_timestamp("2023-05-01T10:00:00-01:00").unwrap().instant;
    assert_eq!(parse_offset_timestamp("2023-05-01t10:00:00-01:00").unwrap().instant, base);
    assert_eq!(parse_offset_timestamp("2023-05-01 10:00:00-01:00").unwrap().instant, base);
    assert_eq!(parse_offset_timestamp("2023-05-01T10:00:00\u{2212}01:00").unwrap().instant, base);
    assert_eq!(parse_offset_timestamp("2023-05-01T11:00:00z").unwrap().instant, base);
}

#[test]
fn calendar_dates_are_checked() {
    assert!(rejected("2023-02-29T00:00:00Z"));
    assert!(parse_offset_timestamp("2024-02-29T00:00:00Z").is_ok());
    assert!(rejected("1900-02-29T00:00:00Z"));
    assert!(parse_offset_timestamp("2000-02-29T00:00:00Z").is_ok());
    assert!(rejected("2023-04-31T00:00:00Z"));
    assert!(rejected("2023-13-01T00:00:00Z"));
    assert!(rejected("2023-00-01T00:00:00Z"));
}

#[test]
fn malformed_times_and_offsets_are_rejected() {
    assert!(rejected("2023-05-01T24:00:00Z"));
    assert!(rejected("2023-05-01T10:60:00Z"));
    assert!(rejected("2023-05-01T10:00:61Z"));
    assert!(rejected("2023-05-01T10:00:00+24:00"));
    assert!(rejected("2023-05-01T10:00:00+02:60"));
    assert!(rejected("2023-05-01T10:00:00+0200"));
    assert!(rejected("2023-05-01T10:00:00.Z"));
    assert!(rejected("2023-05-01T10:00:00Z "));
    assert!(rejected("2023-05-01X10:00:00Z"));
    assert!(rejected("2023/05/01T10:00:00Z"));
    assert!(rejected(""));
    let p = parse_offset_timestamp("2023-05-01T10:00:00+23:59").unwrap();
    assert_eq!(p.offset_secs, 86_340);
}
