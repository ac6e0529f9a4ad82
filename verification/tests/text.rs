use request_observer::text::{chars_of, decimal_string};

#[test]
fn numerals_have_no_leading_zeros() {
    assert_eq!(decimal_string(0), "0");
    assert_eq!(decimal_string(7), "7");
    assert_eq!(decimal_string(10), "10");
    assert_eq!(decimal_string(200), "200");
    assert_eq!(decimal_string(500), "500");
    assert_eq!(decimal_string(65535), "65535");
    assert_eq!(decimal_string(u64::MAX), "18446744073709551615");
}

#[test]
fn numerals_are_those_of_the_standard_library() {
    for n in [0u64, 1, 9, 10, 11, 99, 100, 101, 404, 999, 1000, 12345, 1 << 40, u64::MAX - 1] {
        assert_eq!(decimal_string(n), n.to_string());
    }
}

#[test]
fn numerals_parse_back() {
    for n in [0u64, 5, 42, 1009, u64::MAX] {
        assert_eq!(decimal_string(n).parse::<u64>(), Ok(n));
    }
}

#[test]
fn characters_are_copied_in_order() {
    assert_eq!(chars_of(""), Vec::<char>::new());
    assert_eq!(chars_of("a/b"), vec!['a', '/', 'b']);
    assert_eq!(chars_of("\u{e9}\u{4e16}x"), vec!['\u{e9}', '\u{4e16}', 'x']);
}
