use libpq::text::{
    chars_of, format_int, parse_i32, push_decimal, push_decimal_signed, string_from_chars,
    trim_string, white_space,
};

#[test]
fn decimal_formatting() {
    assert_eq!(format_int(0), "0");
    assert_eq!(format_int(7), "7");
    assert_eq!(format_int(-42), "-42");
    assert_eq!(format_int(1234567890), "1234567890");
    assert_eq!(format_int(i64::MAX), "9223372036854775807");
    assert_eq!(format_int(i64::MIN), "-9223372036854775808");
}

#[test]
fn decimal_appending() {
    let mut s = String::from("n=");
    push_decimal(&mut s, 340282366920938463463374607431768211455);
    assert_eq!(s, "n=340282366920938463463374607431768211455");
    let mut s = String::from("x");
    push_decimal_signed(&mut s, -10);
    assert_eq!(s, "x-10");
    let mut s = String::new();
    push_decimal_signed(&mut s, i128::MIN + 1);
    assert_eq!(s, "-170141183460469231731687303715884105727");
    let mut s = String::new();
    push_decimal_signed(&mut s, i128::MIN);
    assert_eq!(s, i128::MIN.to_string());
}

#[test]
fn whitespace_characters() {
    assert!(white_space(' '));
    assert!(white_space('\t'));
    assert!(white_space('\n'));
    assert!(white_space('\r'));
    assert!(white_space('\u{a0}'));
    assert!(white_space('\u{3000}'));
    assert!(!white_space('a'));
    assert!(!white_space('\u{200b}'));
    for c in ['\u{85}', '\u{1680}', '\u{2000}', '\u{200a}', '\u{2028}', '\u{2029}', '\u{202f}', '\u{205f}'] {
        assert_eq!(white_space(c), c.is_whitespace());
    }
}

#[test]
fn trimming() {
    assert_eq!(trim_string("  hello world \n"), "hello world");
    assert_eq!(trim_string(""), "");
    assert_eq!(trim_string(" \t\n "), "");
    assert_eq!(trim_string("x"), "x");
    assert_eq!(trim_string("\u{3000}ünï\u{a0}"), "ünï");
}

#[test]
fn characters_and_slices() {
    let v = chars_of("añb");
    assert_eq!(v, vec!['a', 'ñ', 'b']);
    assert_eq!(string_from_chars(&v, 1, 3), "ñb");
    assert_eq!(string_from_chars(&v, 2, 2), "");
}

#[test]
fn integer_parsing() {
    assert_eq!(parse_i32("0"), Some(0));
    assert_eq!(parse_i32("15"), Some(15));
    assert_eq!(parse_i32("+5"), Some(5));
    assert_eq!(parse_i32("-17"), Some(-17));
    assert_eq!(parse_i32("007"), Some(7));
    assert_eq!(parse_i32("2147483647"), Some(i32::MAX));
    assert_eq!(parse_i32("-2147483648"), Some(i32::MIN));
    assert_eq!(parse_i32("2147483648"), None);
    assert_eq!(parse_i32("-2147483649"), None);
    assert_eq!(parse_i32(""), None);
    assert_eq!(parse_i32("-"), None);
    assert_eq!(parse_i32("+"), None);
    assert_eq!(parse_i32(" 1"), None);
    assert_eq!(parse_i32("1a"), None);
    assert_eq!(parse_i32("+-1"), None);
    assert_eq!(parse_i32("99999999999999999999"), None);
}

#[test]
fn parsing_reads_back_formatted_numbers() {
    for v in [0i32, 1, -1, 42, -42, 1000000, i32::MAX, i32::MIN] {
        assert_eq!(parse_i32(&format_int(v as i64)), Some(v));
    }
}

#[test]
fn trimming_twice_changes_nothing() {
    for s in ["  a b  ", "\n\tx", "y\u{2003}", "   ", "", "plain"] {
        let once = trim_string(s);
        assert_eq!(trim_string(&once), once);
        assert!(!once.starts_with(char::is_whitespace));
        assert!(!once.ends_with(char::is_whitespace));
        assert!(s.contains(once.as_str()));
    }
}
