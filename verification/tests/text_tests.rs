use music_bot::text::{decimal, parse_index, starts_with, str_eq};

#[test]
fn decimal_renders_plain_digits() {
    assert_eq!(decimal(0), "0");
    assert_eq!(decimal(7), "7");
    assert_eq!(decimal(10), "10");
    assert_eq!(decimal(1234567890), "1234567890");
    assert_eq!(decimal(u64::MAX), u64::MAX.to_string());
}

#[test]
fn parse_index_accepts_what_usize_parse_accepts() {
    assert_eq!(parse_index("0"), Some(0));
    assert_eq!(parse_index("24"), Some(24));
    assert_eq!(parse_index("+5"), Some(5));
    assert_eq!(parse_index("007"), Some(7));
    assert_eq!(parse_index(&usize::MAX.to_string()), Some(usize::MAX));
}

#[test]
fn parse_index_rejects_what_usize_parse_rejects() {
    for s in ["", "+", "-", "-1", "1a", " 1", "1 ", "++1", "18446744073709551616", "99999999999999999999999"] {
        assert_eq!(parse_index(s), None, "input {:?}", s);
        assert!(s.parse::<usize>().is_err());
    }
}

#[test]
fn parse_index_reads_back_decimal() {
    for n in [0u64, 1, 9, 10, 24, 99, 100, 65535, 1 << 40] {
        assert_eq!(parse_index(&decimal(n)), Some(n as usize));
    }
}

#[test]
fn string_comparisons() {
    assert!(str_eq("info", "info"));
    assert!(!str_eq("info", "Info"));
    assert!(!str_eq("info", "inf"));
    assert!(str_eq("", ""));
    assert!(starts_with("https://youtube.com", "http"));
    assert!(starts_with("http", "http"));
    assert!(!starts_with("htt", "http"));
    assert!(!starts_with("ftp://x", "http"));
    assert!(starts_with("anything", ""));
}
