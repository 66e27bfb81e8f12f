use cryptoticker::interval::{parse_interval, DEFAULT_INTERVAL_SECS};

#[test]
fn whole_numbers_are_read() {
    assert_eq!(parse_interval("0"), Some(0));
    assert_eq!(parse_interval("90"), Some(90));
    assert_eq!(parse_interval("007"), Some(7));
    assert_eq!(parse_interval("+15"), Some(15));
    assert_eq!(parse_interval("18446744073709551615"), Some(u64::MAX));
    assert_eq!(parse_interval("000018446744073709551615"), Some(u64::MAX));
}

#[test]
fn anything_else_is_refused() {
    for text in ["", "+", "-", "-1", "-0", "1.5", "1e3", " 1", "1 ", "abc", "12a", "++1", "1+", "0x10", "1_000", "\u{0661}"] {
        assert_eq!(parse_interval(text), None, "{:?}", text);
    }
}

#[test]
fn numbers_beyond_64_bits_are_refused() {
    assert_eq!(parse_interval("18446744073709551616"), None);
    assert_eq!(parse_interval("18446744073709551620"), None);
    assert_eq!(parse_interval("99999999999999999999999999"), None);
    assert_eq!(parse_interval("184467440737095516150"), None);
}

#[test]
fn reading_agrees_with_the_standard_library() {
    for text in ["0", "1", "+1", "-1", "", "+", "10", "18446744073709551615", "18446744073709551616", "1a", "a1", "\u{0663}"] {
        assert_eq!(parse_interval(text), text.parse::<u64>().ok(), "{:?}", text);
    }
}

#[test]
fn default_interval_is_ninety_seconds() {
    assert_eq!(DEFAULT_INTERVAL_SECS, 90);
    assert_eq!(parse_interval(&DEFAULT_INTERVAL_SECS.to_string()), Some(90));
}
