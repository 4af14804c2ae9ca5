use xm125_radar_monitor::decimal::find_first;
use xm125_radar_monitor::decimal::parse_thousandths;
use xm125_radar_monitor::text::contains;
use xm125_radar_monitor::text::first_word;
use xm125_radar_monitor::text::is_blank;
use xm125_radar_monitor::text::position;
use xm125_radar_monitor::text::push_hex;
use xm125_radar_monitor::text::trim;
use xm125_radar_monitor::text::digit_value;
use xm125_radar_monitor::text::parse_unsigned;
use xm125_radar_monitor::text::push_decimal;
use xm125_radar_monitor::text::push_hex32;
use xm125_radar_monitor::text::Radix;

#[test]
fn a_needle_is_found_wherever_it_lies() {
    assert!(contains(b"Memory programmed", b"Memory"));
    assert!(contains(b"Memory programmed", b"programmed"));
    assert!(contains(b"Memory programmed", b"y p"));
    assert!(contains(b"abc", b"abc"));
    assert!(contains(b"abc", b""));
    assert!(contains(b"", b""));
    assert!(!contains(b"abc", b"abcd"));
    assert!(!contains(b"abc", b"ac"));
    assert!(!contains(b"", b"a"));
    assert!(contains(b"aab", b"ab"));
    assert!(!contains(b"50: -- -- 52-- ", b" 52 "));
    assert!(contains(b"50: -- -- 52 -- ", b" 52 "));
}

#[test]
fn decimal_numbers_are_parsed() {
    assert_eq!(parse_unsigned(b"42", Radix::Decimal, 255), Some(42));
    assert_eq!(parse_unsigned(b"+7", Radix::Decimal, 255), Some(7));
    assert_eq!(parse_unsigned(b"007", Radix::Decimal, 255), Some(7));
    assert_eq!(parse_unsigned(b"0", Radix::Decimal, 255), Some(0));
    assert_eq!(parse_unsigned(b"255", Radix::Decimal, 255), Some(255));
    assert_eq!(parse_unsigned(b"256", Radix::Decimal, 255), None);
    assert_eq!(parse_unsigned(b"99999999999999999999", Radix::Decimal, 255), None);
    assert_eq!(parse_unsigned(b"", Radix::Decimal, 255), None);
    assert_eq!(parse_unsigned(b"+", Radix::Decimal, 255), None);
    assert_eq!(parse_unsigned(b"-1", Radix::Decimal, 255), None);
    assert_eq!(parse_unsigned(b"++1", Radix::Decimal, 255), None);
    assert_eq!(parse_unsigned(b"12a", Radix::Decimal, 255), None);
    assert_eq!(parse_unsigned(b"1 ", Radix::Decimal, 255), None);
    assert_eq!(parse_unsigned(b"1f", Radix::Decimal, 255), None);
    assert_eq!(parse_unsigned(b"4294967295", Radix::Decimal, u32::MAX), Some(u32::MAX));
    assert_eq!(parse_unsigned(b"4294967296", Radix::Decimal, u32::MAX), None);
    assert_eq!(parse_unsigned(b"FFFFFFFF", Radix::Hexadecimal, u32::MAX), Some(u32::MAX));
    assert_eq!(Radix::Decimal.base(), 10);
    assert_eq!(Radix::Hexadecimal.base(), 16);
}

#[test]
fn hexadecimal_numbers_are_parsed() {
    assert_eq!(parse_unsigned(b"1F", Radix::Hexadecimal, 0xFFFF), Some(31));
    assert_eq!(parse_unsigned(b"1f", Radix::Hexadecimal, 0xFFFF), Some(31));
    assert_eq!(parse_unsigned(b"ffff", Radix::Hexadecimal, 0xFFFF), Some(65535));
    assert_eq!(parse_unsigned(b"10000", Radix::Hexadecimal, 0xFFFF), None);
    assert_eq!(parse_unsigned(b"0x1f", Radix::Hexadecimal, 0xFFFF), None);
    assert_eq!(parse_unsigned(b"g", Radix::Hexadecimal, 0xFFFF), None);
    assert_eq!(digit_value(b'a', Radix::Hexadecimal), Some(10));
    assert_eq!(digit_value(b'F', Radix::Hexadecimal), Some(15));
    assert_eq!(digit_value(b'a', Radix::Decimal), None);
    assert_eq!(digit_value(b'9', Radix::Decimal), Some(9));
    assert_eq!(digit_value(b'/', Radix::Decimal), None);
    assert_eq!(digit_value(b':', Radix::Hexadecimal), None);
}

#[test]
fn numbers_are_rendered() {
    let mut text = String::from("n=");
    push_decimal(&mut text, 0);
    text.push(' ');
    push_decimal(&mut text, 9);
    text.push(' ');
    push_decimal(&mut text, 10);
    text.push(' ');
    push_decimal(&mut text, 18_446_744_073_709_551_615);
    assert_eq!(text, "n=0 9 10 18446744073709551615");
    let mut text = String::from("0x");
    push_hex32(&mut text, 0x0000_00A0);
    text.push(' ');
    push_hex32(&mut text, 0xDEAD_BEEF);
    assert_eq!(text, "0x000000A0 DEADBEEF");
}

#[test]
fn decimal_text_becomes_the_nearest_thousandth() {
    assert_eq!(parse_thousandths(b"0.1"), Some(100));
    assert_eq!(parse_thousandths(b"2.9"), Some(2900));
    assert_eq!(parse_thousandths(b"1"), Some(1000));
    assert_eq!(parse_thousandths(b"1."), Some(1000));
    assert_eq!(parse_thousandths(b".5"), Some(500));
    assert_eq!(parse_thousandths(b"0"), Some(0));
    assert_eq!(parse_thousandths(b"0.000"), Some(0));
    assert_eq!(parse_thousandths(b"12.34"), Some(12340));
    assert_eq!(parse_thousandths(b"0.123"), Some(123));
    assert_eq!(parse_thousandths(b"007.050"), Some(7050));
    // The fourth decimal decides: five and above round up.
    assert_eq!(parse_thousandths(b"0.0624"), Some(62));
    assert_eq!(parse_thousandths(b"0.0625"), Some(63));
    assert_eq!(parse_thousandths(b"0.06249999"), Some(62));
    assert_eq!(parse_thousandths(b"0.9995"), Some(1000));
    assert_eq!(parse_thousandths(b"0.0004"), Some(0));
    assert_eq!(parse_thousandths(b"0.00049"), Some(0));
    assert_eq!(parse_thousandths(b"0.0005"), Some(1));
}

#[test]
fn text_that_is_no_decimal_number_has_no_thousandths() {
    for text in ["", ".", "1.2.3", "+1", "-1", "1e3", " 1", "1 ", "1,5", "abc", "0x10", "1.5m"] {
        assert_eq!(parse_thousandths(text.as_bytes()), None, "{}", text);
    }
}

#[test]
fn thousandths_that_do_not_fit_are_rejected() {
    assert_eq!(parse_thousandths(b"4294967.295"), Some(u32::MAX));
    assert_eq!(parse_thousandths(b"4294967.2954"), Some(u32::MAX));
    assert_eq!(parse_thousandths(b"4294967.2955"), None);
    assert_eq!(parse_thousandths(b"4294967.296"), None);
    assert_eq!(parse_thousandths(b"4294968"), None);
    assert_eq!(parse_thousandths(b"4294967296"), None);
    assert_eq!(parse_thousandths(b"99999999999999999999999.5"), None);
}

#[test]
fn the_first_of_a_byte_is_found() {
    assert_eq!(find_first(b"0.1:3.0", b':'), 3);
    assert_eq!(find_first(b"0.1:3.0", b'.'), 1);
    assert_eq!(find_first(b"abc", b':'), 3);
    assert_eq!(find_first(b"", b':'), 0);
    assert_eq!(find_first(b"::", b':'), 0);
}

#[test]
fn the_first_occurrence_is_found() {
    assert_eq!(position(b"abcabc", b"bc"), 1);
    assert_eq!(position(b"abcabc", b"abc"), 0);
    assert_eq!(position(b"abcabc", b"cab"), 2);
    assert_eq!(position(b"abcabc", b"x"), 6);
    assert_eq!(position(b"abc", b"abcd"), 3);
    assert_eq!(position(b"abc", b""), 0);
    assert_eq!(position(b"", b""), 0);
    assert_eq!(position(b"", b"a"), 0);
}

#[test]
fn blanks_are_trimmed() {
    assert_eq!(trim(b"  abc \r\n"), b"abc".to_vec());
    assert_eq!(trim(b"abc"), b"abc".to_vec());
    assert_eq!(trim(b" a b "), b"a b".to_vec());
    assert_eq!(trim(b" \t\n"), b"".to_vec());
    assert_eq!(trim(b""), b"".to_vec());
    assert_eq!(first_word(b"  one two"), Some(b"one".to_vec()));
    assert_eq!(first_word(b"one"), Some(b"one".to_vec()));
    assert_eq!(first_word(b"   "), None);
    for byte in [b' ', b'\t', b'\n', 11, 12, b'\r'] {
        assert!(is_blank(byte));
    }
    for byte in [0, 8, 14, 31, 33, b'a', 160, 255] {
        assert!(!is_blank(byte));
    }
}

#[test]
fn hexadecimal_digits_are_counted_from_the_right() {
    let mut text = String::new();
    push_hex(&mut text, 0xABCD, 2);
    text.push(' ');
    push_hex(&mut text, 0xABCD, 6);
    text.push(' ');
    push_hex(&mut text, 0xABCD, 0);
    assert_eq!(text, "CD 00ABCD ");
}
