use arsenal::literals::{hex_number, next_number, string_bytes};

#[test]
fn decimal_numbers() {
    assert_eq!(next_number("0"), Some(0));
    assert_eq!(next_number("42"), Some(42));
    assert_eq!(next_number("007"), Some(7));
    assert_eq!(next_number("18446744073709551615"), Some(u64::MAX));
    assert_eq!(next_number("18446744073709551616"), None);
    assert_eq!(next_number("99999999999999999999999"), None);
    assert_eq!(next_number(""), None);
    assert_eq!(next_number("12a"), None);
    assert_eq!(next_number("a"), None);
    assert_eq!(next_number("-1"), None);
    assert_eq!(next_number("1.5"), None);
    assert_eq!(next_number("\u{663}"), None);
}

#[test]
fn hexadecimal_numbers() {
    assert_eq!(hex_number("0x0"), Some(0));
    assert_eq!(hex_number("0xff"), Some(255));
    assert_eq!(hex_number("0XABCdef"), Some(0xabcdef));
    assert_eq!(hex_number("0xffffffffffffffff"), Some(u64::MAX));
    assert_eq!(hex_number("0x10000000000000000"), None);
    assert_eq!(hex_number("0x"), None);
    assert_eq!(hex_number("0"), None);
    assert_eq!(hex_number("ff"), None);
    assert_eq!(hex_number("1x10"), None);
    assert_eq!(hex_number("0xg"), None);
    assert_eq!(hex_number(""), None);
}

#[test]
fn bytes_of_strings() {
    assert_eq!(string_bytes("\"hi\""), Some(vec![b'h', b'i']));
    assert_eq!(string_bytes("\"\""), Some(vec![]));
    assert_eq!(string_bytes("\"a\\\"b\""), Some(vec![b'a', b'"', b'b']));
    assert_eq!(string_bytes("\"a\\\\b\""), Some(vec![b'a', b'b']));
    assert_eq!(string_bytes("\"a\\\""), Some(vec![b'a']));
    assert_eq!(string_bytes("\"\u{20ac}\""), Some(vec![0xe2, 0x82, 0xac]));
    assert_eq!(string_bytes("\""), None);
    assert_eq!(string_bytes("hi"), None);
    assert_eq!(string_bytes("\"hi"), None);
    assert_eq!(string_bytes(""), None);
}
