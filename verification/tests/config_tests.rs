use cpu_monitor::config::interval_from_setting;
use cpu_monitor::config::parse_u64;

#[test]
fn parses_plain_number() {
    assert_eq!(parse_u64(b"500"), Some(500));
    assert_eq!(parse_u64(b"1"), Some(1));
    assert_eq!(parse_u64(b"0"), Some(0));
    assert_eq!(parse_u64(b"1000"), Some(1000));
}

#[test]
fn parses_with_leading_plus() {
    assert_eq!(parse_u64(b"+500"), Some(500));
    assert_eq!(parse_u64(b"+"), None);
    assert_eq!(parse_u64(b"++5"), None);
}

#[test]
fn parses_largest_value() {
    assert_eq!(parse_u64(b"18446744073709551615"), Some(u64::MAX));
}

#[test]
fn rejects_overflowing_value() {
    assert_eq!(parse_u64(b"18446744073709551616"), None);
    assert_eq!(parse_u64(b"99999999999999999999999"), None);
}

#[test]
fn rejects_non_numbers() {
    assert_eq!(parse_u64(b""), None);
    assert_eq!(parse_u64(b"notanumber"), None);
    assert_eq!(parse_u64(b"12a"), None);
    assert_eq!(parse_u64(b"-5"), None);
    assert_eq!(parse_u64(b" 5"), None);
}

#[test]
fn interval_from_value() {
    let r = interval_from_setting(Some(b"500")).unwrap();
    assert_eq!(r.millis(), 500);
}

#[test]
fn missing_setting_is_fatal() {
    let r = interval_from_setting(None);
    assert!(r.is_err());
    let msg = r.unwrap_err().message();
    assert!(msg.contains("REFRESH_MS"));
}

#[test]
fn malformed_setting_falls_back() {
    let r = interval_from_setting(Some(b"notanumber")).unwrap();
    assert_eq!(r.millis(), 1000);
}

#[test]
fn zero_setting_falls_back() {
    let r = interval_from_setting(Some(b"0")).unwrap();
    assert_eq!(r.millis(), 1000);
}

#[test]
fn empty_setting_falls_back() {
    let r = interval_from_setting(Some(b"")).unwrap();
    assert_eq!(r.millis(), 1000);
}

#[test]
fn overflowing_setting_falls_back() {
    let r = interval_from_setting(Some(b"99999999999999999999999")).unwrap();
    assert_eq!(r.millis(), 1000);
}

#[test]
fn interval_is_always_positive() {
    for setting in [&b"0"[..], b"", b"junk", b"1", b"250", b"+7"] {
        let r = interval_from_setting(Some(setting)).unwrap();
        assert!(r.millis() >= 1);
    }
}
