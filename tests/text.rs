use vox_bridge::text::{log_excerpt, parse_numeral, strip_quotes, to_decimal, to_decimal2};

#[test]
fn decimal_numerals() {
    assert_eq!(to_decimal(0), "0");
    assert_eq!(to_decimal(7), "7");
    assert_eq!(to_decimal(1203), "1203");
    assert_eq!(to_decimal(usize::MAX), usize::MAX.to_string());
    assert_eq!(to_decimal2(5), "05");
    assert_eq!(to_decimal2(0), "00");
    assert_eq!(to_decimal2(29), "29");
    assert_eq!(to_decimal2(123), "123");
}

#[test]
fn numerals_parse() {
    assert_eq!(parse_numeral("42"), Some(42));
    assert_eq!(parse_numeral("007"), Some(7));
    assert_eq!(parse_numeral(""), None);
    assert_eq!(parse_numeral("4a"), None);
    assert_eq!(parse_numeral("-1"), None);
    assert_eq!(parse_numeral(&usize::MAX.to_string()), Some(usize::MAX));
    assert_eq!(parse_numeral("99999999999999999999999"), None);
    assert_eq!(parse_numeral("99999999999999999999999x"), None);
}

#[test]
fn quotes_are_stripped() {
    assert_eq!(strip_quotes("\"Zundamon\" \"normal\""), "Zundamon normal");
    assert_eq!(strip_quotes(""), "");
    assert_eq!(strip_quotes("plain"), "plain");
}

#[test]
fn log_excerpt_truncates() {
    assert_eq!(log_excerpt("short"), "short");
    assert_eq!(log_excerpt("0123456789abcdef"), "0123456789abcdef");
    assert_eq!(log_excerpt("0123456789abcdefg"), "0123456789abcdef.");
    assert_eq!(log_excerpt("0123456789abcdefghi"), "0123456789abcdef...");
    assert_eq!(log_excerpt("0123456789abcdefghijklmnop"), "0123456789abcdef...");
    assert_eq!(log_excerpt("あいうえおかきくけこさしすせそたちつ"), "あいうえおかきくけこさしすせそた..");
}
