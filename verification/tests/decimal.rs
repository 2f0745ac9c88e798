use api_service::decimal::{decimal_string, parse_u16};

#[test]
fn decimal_string_of_small_numbers() {
    assert_eq!(decimal_string(0), "0");
    assert_eq!(decimal_string(7), "7");
    assert_eq!(decimal_string(9), "9");
    assert_eq!(decimal_string(10), "10");
    assert_eq!(decimal_string(19), "19");
    assert_eq!(decimal_string(44), "44");
    assert_eq!(decimal_string(100), "100");
    assert_eq!(decimal_string(1024), "1024");
}

#[test]
fn decimal_string_of_the_largest_number() {
    assert_eq!(decimal_string(usize::MAX), format!("{}", usize::MAX));
}

#[test]
fn decimal_string_agrees_with_formatting() {
    let mut n: usize = 0;
    while n < 20000 {
        assert_eq!(decimal_string(n), format!("{}", n));
        n += 1;
    }
    let mut p: usize = 1;
    while p < usize::MAX / 10 {
        assert_eq!(decimal_string(p), format!("{}", p));
        assert_eq!(decimal_string(p - 1), format!("{}", p - 1));
        assert_eq!(decimal_string(p + 1), format!("{}", p + 1));
        p *= 10;
    }
}

#[test]
fn parse_u16_reads_plain_digits() {
    assert_eq!(parse_u16("0"), Some(0));
    assert_eq!(parse_u16("80"), Some(80));
    assert_eq!(parse_u16("8080"), Some(8080));
    assert_eq!(parse_u16("65535"), Some(65535));
}

#[test]
fn parse_u16_accepts_a_plus_sign_and_leading_zeros() {
    assert_eq!(parse_u16("+80"), Some(80));
    assert_eq!(parse_u16("+0"), Some(0));
    assert_eq!(parse_u16("0080"), Some(80));
    assert_eq!(parse_u16("+000065535"), Some(65535));
    assert_eq!(parse_u16("00000000000000000000000000000001"), Some(1));
}

#[test]
fn parse_u16_refuses_what_does_not_fit() {
    assert_eq!(parse_u16("65536"), None);
    assert_eq!(parse_u16("70000"), None);
    assert_eq!(parse_u16("99999999999999999999999999"), None);
    assert_eq!(parse_u16("4294967376"), None);
}

#[test]
fn parse_u16_refuses_what_is_no_number() {
    assert_eq!(parse_u16(""), None);
    assert_eq!(parse_u16("+"), None);
    assert_eq!(parse_u16("-"), None);
    assert_eq!(parse_u16("-1"), None);
    assert_eq!(parse_u16("-0"), None);
    assert_eq!(parse_u16("++1"), None);
    assert_eq!(parse_u16("1+"), None);
    assert_eq!(parse_u16(" 80"), None);
    assert_eq!(parse_u16("80 "), None);
    assert_eq!(parse_u16("8_0"), None);
    assert_eq!(parse_u16("0x50"), None);
    assert_eq!(parse_u16("80.0"), None);
    assert_eq!(parse_u16("notanumber"), None);
    assert_eq!(parse_u16("\u{663}"), None);
    assert_eq!(parse_u16("8\u{ff10}"), None);
    assert_eq!(parse_u16("65536x"), None);
}

#[test]
fn parse_u16_agrees_with_the_standard_parser() {
    let mut n: u32 = 0;
    while n < 70000 {
        let plain = format!("{}", n);
        let signed = format!("+{}", n);
        let padded = format!("{:07}", n);
        assert_eq!(parse_u16(&plain), plain.parse::<u16>().ok());
        assert_eq!(parse_u16(&signed), signed.parse::<u16>().ok());
        assert_eq!(parse_u16(&padded), padded.parse::<u16>().ok());
        n += 1;
    }
    for text in ["", "+", "-", "-5", "+-5", "5-", " 5", "5 ", "\u{663}", "5e3", "0x10", "1_000", "\0"] {
        assert_eq!(parse_u16(text), text.parse::<u16>().ok(), "{:?}", text);
    }
}

#[test]
fn written_numbers_read_back() {
    let mut n: u16 = 0;
    loop {
        assert_eq!(parse_u16(&decimal_string(n as usize)), Some(n));
        if n == u16::MAX {
            break;
        }
        n += 1;
    }
}
