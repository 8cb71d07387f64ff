use doorkeeper::number::{parse_i16, parse_i32, parse_u32};
use doorkeeper::text::{same_text, split_fields};

#[test]
fn split_keeps_empty_pieces() {
    assert_eq!(split_fields("a::b:", ':'), vec!["a", "", "b", ""]);
    assert_eq!(split_fields("", ':'), vec![""]);
    assert_eq!(split_fields("noise:1:2", ':'), vec!["noise", "1", "2"]);
    assert_eq!(split_fields("héllo:wörld", ':'), vec!["héllo", "wörld"]);
}

#[test]
fn same_text_compares_characters() {
    assert!(same_text("led", "led"));
    assert!(same_text("", ""));
    assert!(!same_text("led", "lee"));
    assert!(!same_text("led", "le"));
}

#[test]
fn parse_unsigned() {
    assert_eq!(parse_u32("0"), Some(0));
    assert_eq!(parse_u32("+17"), Some(17));
    assert_eq!(parse_u32("00042"), Some(42));
    assert_eq!(parse_u32("4294967295"), Some(u32::MAX));
    assert_eq!(parse_u32("4294967296"), None);
    assert_eq!(parse_u32("99999999999999999999999"), None);
    assert_eq!(parse_u32("-0"), None);
    assert_eq!(parse_u32(""), None);
    assert_eq!(parse_u32("+"), None);
    assert_eq!(parse_u32(" 1"), None);
    assert_eq!(parse_u32("1a"), None);
}

#[test]
fn parse_signed() {
    assert_eq!(parse_i32("-2147483648"), Some(i32::MIN));
    assert_eq!(parse_i32("2147483647"), Some(i32::MAX));
    assert_eq!(parse_i32("2147483648"), None);
    assert_eq!(parse_i32("-"), None);
    assert_eq!(parse_i16("-32768"), Some(i16::MIN));
    assert_eq!(parse_i16("+32767"), Some(i16::MAX));
    assert_eq!(parse_i16("32768"), None);
    assert_eq!(parse_i16("-32769"), None);
    assert_eq!(parse_i16("-0"), Some(0));
    assert_eq!(parse_i16("--1"), None);
}
