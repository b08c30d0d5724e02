use weixin::text::{chars_of, hex_string, i64_to_string, parse_error_text, parse_u32, text_eq, text_lt,
    u64_to_string, ParseIntErrorKind};

#[test]
fn hex_string_upper_and_lower() {
    assert_eq!(hex_string(&[0x00, 0xab, 0xff, 0x10], true), "00ABFF10");
    assert_eq!(hex_string(&[0x00, 0xab, 0xff, 0x10], false), "00abff10");
    assert_eq!(hex_string(&[], true), "");
}

#[test]
fn decimal_text_of_numbers() {
    assert_eq!(u64_to_string(0), "0");
    assert_eq!(u64_to_string(7), "7");
    assert_eq!(u64_to_string(1234567890), "1234567890");
    assert_eq!(u64_to_string(u64::MAX), u64::MAX.to_string());
    assert_eq!(i64_to_string(-42), "-42");
    assert_eq!(i64_to_string(0), "0");
    assert_eq!(i64_to_string(i64::MIN), i64::MIN.to_string());
    assert_eq!(i64_to_string(i64::MAX), i64::MAX.to_string());
}

#[test]
fn parse_u32_accepts_what_std_accepts() {
    assert_eq!(parse_u32("42"), Ok(42));
    assert_eq!(parse_u32("+7"), Ok(7));
    assert_eq!(parse_u32("007"), Ok(7));
    assert_eq!(parse_u32("4294967295"), Ok(u32::MAX));
}

#[test]
fn parse_u32_errors() {
    assert_eq!(parse_u32(""), Err(ParseIntErrorKind::Empty));
    assert_eq!(parse_u32("+"), Err(ParseIntErrorKind::InvalidDigit));
    assert_eq!(parse_u32("-"), Err(ParseIntErrorKind::InvalidDigit));
    assert_eq!(parse_u32("-1"), Err(ParseIntErrorKind::InvalidDigit));
    assert_eq!(parse_u32("12a"), Err(ParseIntErrorKind::InvalidDigit));
    assert_eq!(parse_u32(" 1"), Err(ParseIntErrorKind::InvalidDigit));
    assert_eq!(parse_u32("4294967296"), Err(ParseIntErrorKind::PosOverflow));
    assert_eq!(parse_u32("99999999999999"), Err(ParseIntErrorKind::PosOverflow));
}

#[test]
fn parse_u32_agrees_with_std() {
    for s in ["", "0", "+", "-", "+12", "-12", "12x", "4294967295", "4294967296", "x", "++1", "1+"] {
        let ours = parse_u32(s);
        let theirs = s.parse::<u32>();
        match (ours, theirs) {
            (Ok(a), Ok(b)) => assert_eq!(a, b),
            (Err(k), Err(e)) => assert_eq!(parse_error_text(k), e.to_string()),
            (a, b) => panic!("{:?} differs from {:?} on {:?}", a, b, s),
        }
    }
}

#[test]
fn parse_error_messages() {
    assert_eq!(parse_error_text(ParseIntErrorKind::Empty), "cannot parse integer from empty string");
    assert_eq!(parse_error_text(ParseIntErrorKind::InvalidDigit), "invalid digit found in string");
    assert_eq!(parse_error_text(ParseIntErrorKind::PosOverflow), "number too large to fit in target type");
}

#[test]
fn decimal_text_parses_back() {
    for n in [0u32, 9, 10, 99, 100, 65535, 4294967295] {
        assert_eq!(parse_u32(&u64_to_string(n as u64)), Ok(n));
    }
}

#[test]
fn text_order_and_equality() {
    assert!(text_lt("a", "b"));
    assert!(!text_lt("b", "a"));
    assert!(text_lt("", "a"));
    assert!(!text_lt("ab", "a"));
    assert!(text_lt("a", "ab"));
    assert!(!text_lt("same", "same"));
    assert!(text_lt("Z", "a"));
    assert!(text_eq("abc", "abc"));
    assert!(!text_eq("abc", "abd"));
    assert!(!text_eq("abc", "ab"));
}

#[test]
fn chars_of_text() {
    assert_eq!(chars_of("h\u{e9}!"), vec!['h', '\u{e9}', '!']);
    assert_eq!(chars_of(""), Vec::<char>::new());
}
