use tower_livereload::decimal::{push_decimal, read_length, starts_with};

fn std_parse(text: &str) -> Option<usize> {
    text.parse::<usize>().ok()
}

#[test]
fn read_length_reads_plain_digits() {
    assert_eq!(read_length(b"9"), Some(9));
    assert_eq!(read_length(b"0"), Some(0));
    assert_eq!(read_length(b"1234567890"), Some(1234567890));
}

#[test]
fn read_length_takes_one_plus_sign() {
    assert_eq!(read_length(b"+5"), Some(5));
    assert_eq!(read_length(b"+0"), Some(0));
    assert_eq!(read_length(b"++1"), None);
    assert_eq!(read_length(b"+"), None);
}

#[test]
fn read_length_takes_leading_zeros() {
    assert_eq!(read_length(b"007"), Some(7));
    assert_eq!(read_length(b"0000000000000000000000000000012"), Some(12));
}

#[test]
fn read_length_refuses_what_is_no_number() {
    assert_eq!(read_length(b""), None);
    assert_eq!(read_length(b"-5"), None);
    assert_eq!(read_length(b" 5"), None);
    assert_eq!(read_length(b"5 "), None);
    assert_eq!(read_length(b"1a"), None);
    assert_eq!(read_length(b"1+1"), None);
    assert_eq!(read_length(b"0x10"), None);
    assert_eq!(read_length(b"1.0"), None);
}

#[test]
fn read_length_stops_at_the_largest_usize() {
    let max = usize::MAX.to_string();
    assert_eq!(read_length(max.as_bytes()), Some(usize::MAX));
    let mut beyond = max.clone();
    beyond.push('0');
    assert_eq!(read_length(beyond.as_bytes()), None);
    // one more than the largest value: the last digit is raised by one
    let mut digits = max.into_bytes();
    let last = digits.len() - 1;
    if digits[last] < b'9' {
        digits[last] += 1;
        assert_eq!(read_length(&digits), None);
    }
}

#[test]
fn read_length_agrees_with_the_standard_parser() {
    let cases = [
        "", "+", "-", "0", "+0", "-0", "9", "10", "0010", "+0010", "++10", "+-1", "12345",
        "18446744073709551615", "18446744073709551616", "99999999999999999999999", " 1", "1 ",
        "1\t", "\n1", "1_000", "1e3", "١٢٣", "4294967295", "4294967296", "+4294967296",
    ];
    for case in cases {
        assert_eq!(read_length(case.as_bytes()), std_parse(case), "on {:?}", case);
    }
}

#[test]
fn push_decimal_appends_digits() {
    let mut out = b"retry: ".to_vec();
    push_decimal(&mut out, 1000);
    assert_eq!(out, b"retry: 1000".to_vec());
}

#[test]
fn push_decimal_writes_zero_and_the_largest_value() {
    let mut out = Vec::new();
    push_decimal(&mut out, 0);
    assert_eq!(out, b"0".to_vec());
    let mut out = Vec::new();
    push_decimal(&mut out, u128::MAX);
    assert_eq!(out, u128::MAX.to_string().into_bytes());
}

#[test]
fn push_decimal_agrees_with_the_standard_formatter() {
    let cases: [u128; 9] = [1, 9, 10, 11, 99, 100, 101, 65535, 1 << 64];
    for case in cases {
        let mut out = Vec::new();
        push_decimal(&mut out, case);
        assert_eq!(out, case.to_string().into_bytes());
    }
}

#[test]
fn written_lengths_read_back() {
    let cases: [usize; 6] = [0, 9, 27, 28, 1000, usize::MAX];
    for case in cases {
        let mut out = Vec::new();
        push_decimal(&mut out, case as u128);
        assert_eq!(read_length(&out), Some(case));
    }
}

#[test]
fn starts_with_compares_prefix() {
    assert!(starts_with(b"text/html; charset=utf-8", b"text/html"));
    assert!(starts_with(b"text/html", b"text/html"));
    assert!(starts_with(b"text/html", b""));
    assert!(starts_with(b"", b""));
    assert!(!starts_with(b"text/plain", b"text/html"));
    assert!(!starts_with(b"text/htm", b"text/html"));
    assert!(!starts_with(b"", b"t"));
    assert!(!starts_with(b"Text/html", b"text/html"));
}
