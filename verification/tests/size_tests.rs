use itch_io::size::parse_size_text;
use itch_io::text::fmt_u64;
use itch_io::text::parse_u64;

#[test]
fn parse_size_megabytes() {
    assert_eq!(parse_size_text("12 MB"), Some(12_000_000));
}

#[test]
fn parse_size_kilobytes() {
    assert_eq!(parse_size_text("512 kB"), Some(512_000));
}

#[test]
fn parse_size_garbage_is_absent() {
    assert_eq!(parse_size_text("garbage"), None);
}

#[test]
fn parse_size_without_unit_is_absent() {
    assert_eq!(parse_size_text("12"), None);
}

#[test]
fn parse_size_unknown_unit_is_absent() {
    assert_eq!(parse_size_text("12 GB"), None);
    assert_eq!(parse_size_text("12 mb"), None);
}

#[test]
fn parse_size_non_numeric_value_is_absent() {
    assert_eq!(parse_size_text("twelve MB"), None);
    assert_eq!(parse_size_text(" MB"), None);
}

#[test]
fn parse_size_splits_at_first_space() {
    assert_eq!(parse_size_text("1 2 MB"), None);
}

#[test]
fn parse_size_end_to_end_formula() {
    assert_eq!(parse_size_text("45 MB"), Some(45_000_000));
    assert_eq!(parse_size_text("1 kB"), Some(1_000));
    assert_eq!(parse_size_text("0 MB"), Some(0));
}

#[test]
fn parse_size_overflow_is_absent() {
    assert_eq!(parse_size_text("18446744073709551615 MB"), None);
    assert_eq!(parse_size_text("18446744073709 MB"), Some(18_446_744_073_709_000_000));
}

#[test]
fn parse_u64_accepts_digits_and_plus() {
    assert_eq!(parse_u64("12345"), Some(12345));
    assert_eq!(parse_u64("+7"), Some(7));
    assert_eq!(parse_u64("0"), Some(0));
    assert_eq!(parse_u64("18446744073709551615"), Some(u64::MAX));
}

#[test]
fn parse_u64_rejects_malformed_and_overflow() {
    assert_eq!(parse_u64(""), None);
    assert_eq!(parse_u64("+"), None);
    assert_eq!(parse_u64("12a"), None);
    assert_eq!(parse_u64("-3"), None);
    assert_eq!(parse_u64(" 12"), None);
    assert_eq!(parse_u64("18446744073709551616"), None);
}

#[test]
fn parse_u64_matches_std() {
    for s in ["12345", "+7", "0", "", "+", "12a", "-3", " 12", "18446744073709551616",
        "18446744073709551615", "007"]
    {
        assert_eq!(parse_u64(s), s.parse::<u64>().ok(), "input {s:?}");
    }
}

#[test]
fn fmt_u64_decimal_digits() {
    assert_eq!(fmt_u64(0), "0");
    assert_eq!(fmt_u64(7), "7");
    assert_eq!(fmt_u64(12345), "12345");
    assert_eq!(fmt_u64(u64::MAX), "18446744073709551615");
}
