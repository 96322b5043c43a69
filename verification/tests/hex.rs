//! Hex quantity parsing against the base-16 reading of the suffix.

use blockviz::hex::parse_hex_u64;

#[test]
fn parse_agrees_with_base16_of_suffix() {
    let cases = [
        "0x0",
        "0x1",
        "0x10",
        "0x64",
        "0x32",
        "0x14",
        "0xa",
        "0xdeadBEEF",
        "0xffffffffffffffff",
        "0x0000000000000000000001",
    ];
    for s in cases {
        let expected = u64::from_str_radix(&s[2..], 16).ok();
        assert_eq!(parse_hex_u64(s), expected, "disagreement on {s}");
    }
}

#[test]
fn parse_rejects_non_hex_suffix_without_panicking() {
    let cases = ["0x", "0xg", "0x12z4", "0x 1", "0x-1", "0x1.5", "0xx"];
    for s in cases {
        assert_eq!(parse_hex_u64(s), None, "accepted {s}");
        assert_eq!(u64::from_str_radix(&s[2..], 16).ok(), None);
    }
}

#[test]
fn parse_rejects_missing_prefix() {
    assert_eq!(parse_hex_u64(""), None);
    assert_eq!(parse_hex_u64("0"), None);
    assert_eq!(parse_hex_u64("10"), None);
    assert_eq!(parse_hex_u64("x10"), None);
    assert_eq!(parse_hex_u64("0X10"), None);
    assert_eq!(parse_hex_u64("1x10"), None);
}

#[test]
fn parse_rejects_values_above_u64() {
    assert_eq!(parse_hex_u64("0xffffffffffffffff"), Some(u64::MAX));
    assert_eq!(parse_hex_u64("0x10000000000000000"), None);
    assert_eq!(parse_hex_u64("0xffffffffffffffffff"), None);
}

#[test]
fn parse_accepts_both_digit_cases() {
    assert_eq!(parse_hex_u64("0xAbCdEf"), Some(0xabcdef));
    assert_eq!(parse_hex_u64("0xABCDEF"), Some(0xabcdef));
}
