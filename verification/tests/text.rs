use holikeyz::text::{
    contains, decimal_string, lines, parse_i32, parse_u16, parse_u8, split_on, split_words,
    starts_with, utf8_shorter_than,
};

#[test]
fn lines_like_std() {
    for s in ["a\r\nb\n", "a\n\nb", "x\r", "", "\n", "a\n", "a\n\n", "\r\n", "one"] {
        let expected: Vec<String> = s.lines().map(|l| l.to_string()).collect();
        assert_eq!(lines(s), expected, "{:?}", s);
    }
}

#[test]
fn split_like_std() {
    for s in ["a::b", "", ":", "abc", "a:b:c:"] {
        let expected: Vec<String> = s.split(':').map(|l| l.to_string()).collect();
        assert_eq!(split_on(s, ':'), expected, "{:?}", s);
    }
}

#[test]
fn words_like_std() {
    for s in ["  inet 10.0.0.2/24 brd", "", "   ", "a\tb\u{3000}c", "x"] {
        let expected: Vec<String> = s.split_whitespace().map(|l| l.to_string()).collect();
        assert_eq!(split_words(s), expected, "{:?}", s);
    }
}

#[test]
fn numbers_like_std() {
    for s in ["65535", "65536", "+7", "-1", "", "+", "12a", "0"] {
        assert_eq!(parse_u16(s), s.parse::<u16>().ok(), "{:?}", s);
        assert_eq!(parse_u8(s), s.parse::<u8>().ok(), "{:?}", s);
    }
    for s in ["-2147483648", "2147483647", "2147483648", "-", "+5", "-0", "x"] {
        assert_eq!(parse_i32(s), s.parse::<i32>().ok(), "{:?}", s);
    }
    assert_eq!(decimal_string(0), "0");
    assert_eq!(decimal_string(9123), "9123");
}

#[test]
fn search_like_std() {
    assert!(starts_with("Elgato Ring Light 1", "Elgato"));
    assert!(!starts_with("Elg", "Elgato"));
    assert!(contains("wpa2 psk", "wpa2"));
    assert!(contains("abc", ""));
    assert!(!contains("wpa", "wpa2"));
}

#[test]
fn utf8_length_check() {
    assert!(utf8_shorter_than("ééé", 8));
    assert!(!utf8_shorter_than("éééé", 8));
    assert!(utf8_shorter_than("short", 8));
    assert!(!utf8_shorter_than("12345678", 8));
    assert!(!utf8_shorter_than("", 0));
}
