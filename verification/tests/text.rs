use cds_server::digits::{parse_port, u64_to_string};

#[test]
fn numbers_are_written_in_decimal() {
    assert_eq!(u64_to_string(0), "0");
    assert_eq!(u64_to_string(7), "7");
    assert_eq!(u64_to_string(10), "10");
    assert_eq!(u64_to_string(12345), "12345");
    assert_eq!(u64_to_string(18446744073709551615), "18446744073709551615");
}

#[test]
fn ports_parse_from_decimal_text() {
    assert_eq!(parse_port("8080"), Some(8080));
    assert_eq!(parse_port("0"), Some(0));
    assert_eq!(parse_port("+80"), Some(80));
    assert_eq!(parse_port("0008"), Some(8));
    assert_eq!(parse_port("65535"), Some(65535));
}

#[test]
fn bad_port_text_is_refused() {
    assert_eq!(parse_port(""), None);
    assert_eq!(parse_port("+"), None);
    assert_eq!(parse_port("-1"), None);
    assert_eq!(parse_port("80x"), None);
    assert_eq!(parse_port("x80"), None);
    assert_eq!(parse_port("65536"), None);
    assert_eq!(parse_port("99999999999999999999"), None);
    assert_eq!(parse_port("8 0"), None);
}
