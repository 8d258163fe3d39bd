use hackerai_desktop::throttle::{format_timestamp, parse_u64, should_check_for_updates};

#[test]
fn absent_file_means_check_is_due() {
    assert!(should_check_for_updates(None, 1_700_000_000));
    assert!(should_check_for_updates(None, 0));
}

#[test]
fn exactly_24_hours_means_check_is_due() {
    assert!(should_check_for_updates(Some("100"), 86_500));
}

#[test]
fn less_than_24_hours_means_no_check() {
    assert!(!should_check_for_updates(Some("101"), 86_500));
    assert!(!should_check_for_updates(Some("100"), 86_499));
}

#[test]
fn more_than_24_hours_means_check_is_due() {
    assert!(should_check_for_updates(Some("100"), 1_700_000_000));
}

#[test]
fn future_timestamp_means_no_check() {
    assert!(!should_check_for_updates(Some("1700000000"), 100));
}

#[test]
fn unparseable_content_fails_open() {
    assert!(should_check_for_updates(Some("garbage"), 100));
    assert!(should_check_for_updates(Some(""), 100));
    assert!(should_check_for_updates(Some("12x34"), 100));
    assert!(should_check_for_updates(Some("-5"), 100));
    assert!(should_check_for_updates(Some("18446744073709551616"), 100));
}

#[test]
fn surrounding_whitespace_is_trimmed() {
    assert!(should_check_for_updates(Some(" 100\n"), 86_500));
    assert!(!should_check_for_updates(Some("\t101 \r\n"), 86_500));
}

#[test]
fn parse_u64_plain_decimal() {
    assert_eq!(parse_u64("0"), Some(0));
    assert_eq!(parse_u64("42"), Some(42));
    assert_eq!(parse_u64("1700000000"), Some(1_700_000_000));
    assert_eq!(parse_u64("18446744073709551615"), Some(u64::MAX));
}

#[test]
fn parse_u64_rejects_non_decimal() {
    assert_eq!(parse_u64(""), None);
    assert_eq!(parse_u64("+1"), None);
    assert_eq!(parse_u64("-1"), None);
    assert_eq!(parse_u64("1 2"), None);
    assert_eq!(parse_u64("18446744073709551616"), None);
}

#[test]
fn format_timestamp_renders_plain_decimal() {
    assert_eq!(format_timestamp(0), "0");
    assert_eq!(format_timestamp(7), "7");
    assert_eq!(format_timestamp(1_234_567_890), "1234567890");
    assert_eq!(format_timestamp(u64::MAX), "18446744073709551615");
}

#[test]
fn format_then_parse_returns_the_same_value() {
    for &n in &[0u64, 1, 9, 10, 86_400, 1_700_000_000, u64::MAX] {
        assert_eq!(parse_u64(&format_timestamp(n)), Some(n));
    }
}
