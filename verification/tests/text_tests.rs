use decibelle::text::{format_duration, parse_u64, u64_to_string, zero_pad_u64};

#[test]
fn renders_decimal_numbers() {
    assert_eq!(u64_to_string(0), "0");
    assert_eq!(u64_to_string(7), "7");
    assert_eq!(u64_to_string(1234567890), "1234567890");
    assert_eq!(u64_to_string(u64::MAX), "18446744073709551615");
}

#[test]
fn pads_with_leading_zeros() {
    assert_eq!(zero_pad_u64(5, 2), "05");
    assert_eq!(zero_pad_u64(42, 10), "0000000042");
    assert_eq!(zero_pad_u64(12345678901, 10), "12345678901");
    assert_eq!(zero_pad_u64(0, 3), "000");
    assert_eq!(zero_pad_u64(9, 0), "9");
}

#[test]
fn parses_decimal_numbers() {
    assert_eq!(parse_u64("0"), Some(0));
    assert_eq!(parse_u64("18446744073709551615"), Some(u64::MAX));
    assert_eq!(parse_u64("18446744073709551616"), None);
    assert_eq!(parse_u64("99999999999999999999"), None);
    assert_eq!(parse_u64(""), None);
    assert_eq!(parse_u64("12a"), None);
    assert_eq!(parse_u64("0042"), Some(42));
}

#[test]
fn formats_durations_like_a_clock() {
    assert_eq!(format_duration(0), "00:00");
    assert_eq!(format_duration(59), "00:59");
    assert_eq!(format_duration(60), "01:00");
    assert_eq!(format_duration(3599), "59:59");
    assert_eq!(format_duration(3600), "01:00:00");
    assert_eq!(format_duration(7322), "02:02:02");
    assert_eq!(format_duration(90000), "25:00:00");
}
