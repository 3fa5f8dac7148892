use asuka_core::text::{render_u64, split_once, str_eq};
use asuka_core::time::{deserialize_datetime, render_or_epoch, Timestamp};

#[test]
fn renders_a_known_instant() {
    let t = Timestamp::new(1704067200, 0);
    assert_eq!(t.render(), "2024-01-01 00:00:00 UTC");
}

#[test]
fn absent_instant_renders_as_epoch() {
    assert_eq!(render_or_epoch(None), "1970-01-01 00:00:00 UTC");
}

#[test]
fn watermark_comparison_is_inclusive() {
    let since = Timestamp::new(1704067200, 0);
    assert!(Timestamp::new(1704067200, 0).is_at_or_after(&since));
    assert!(Timestamp::new(1704067200, 1).is_at_or_after(&since));
    assert!(!Timestamp::new(1704067199, 999_999_999).is_at_or_after(&since));
}

#[test]
fn reads_sqlite_datetime_text() {
    assert_eq!(
        deserialize_datetime(Some("2024-01-01 00:00:00")),
        Ok(Some(Timestamp::new(1704067200, 0)))
    );
    assert_eq!(deserialize_datetime(None), Ok(None));
    assert_eq!(
        deserialize_datetime(Some("2024-01-01 00:00:00.5")),
        Ok(Some(Timestamp::new(1704067200, 500_000_000)))
    );
    assert_eq!(deserialize_datetime(Some("2024-01-01T00:00:00Z")), Err(()));
}

#[test]
fn renders_decimal_numbers() {
    assert_eq!(render_u64(0), "0");
    assert_eq!(render_u64(42), "42");
    assert_eq!(render_u64(u64::MAX), "18446744073709551615");
}

#[test]
fn splits_at_first_occurrence_only() {
    assert_eq!(
        split_once("site:https://example.com:8080/a", ':'),
        Some(("site".to_string(), "https://example.com:8080/a".to_string()))
    );
    assert_eq!(split_once("bogus", ':'), None);
    assert_eq!(split_once(":x", ':'), Some((String::new(), "x".to_string())));
}

#[test]
fn compares_texts() {
    assert!(str_eq("github", "github"));
    assert!(!str_eq("github", "githu"));
    assert!(!str_eq("site", "file"));
}
