use relay_bot::number::parse_trimmed_i32;
use relay_bot::text::{
    ends_with, i64_to_decimal, join2, join3, join_path, last_segment_of, same_text, starts_with,
    u64_to_decimal,
};

#[test]
fn decimal_of_unsigned_numbers() {
    assert_eq!(u64_to_decimal(0), "0");
    assert_eq!(u64_to_decimal(7), "7");
    assert_eq!(u64_to_decimal(10), "10");
    assert_eq!(u64_to_decimal(1234567890), "1234567890");
    assert_eq!(u64_to_decimal(u64::MAX), "18446744073709551615");
}

#[test]
fn decimal_of_signed_numbers() {
    assert_eq!(i64_to_decimal(0), "0");
    assert_eq!(i64_to_decimal(-1), "-1");
    assert_eq!(i64_to_decimal(-1001234567890), "-1001234567890");
    assert_eq!(i64_to_decimal(i64::MAX), "9223372036854775807");
    assert_eq!(i64_to_decimal(i64::MIN), "-9223372036854775808");
}

#[test]
fn decimal_agrees_with_the_standard_notation() {
    for n in [-100000i64, -99, -10, -9, 0, 9, 10, 99, 100, 101, 65535, 4294967296] {
        assert_eq!(i64_to_decimal(n), n.to_string());
    }
}

#[test]
fn prefix_and_suffix_tests() {
    assert!(starts_with("ping me", "ping"));
    assert!(starts_with("ping", "ping"));
    assert!(!starts_with("pin", "ping"));
    assert!(!starts_with("a ping", "ping"));
    assert!(starts_with("anything", ""));
    assert!(ends_with("movie.torrent", ".torrent"));
    assert!(!ends_with("movie.torrent.txt", ".torrent"));
    assert!(!ends_with("torrent", ".torrent"));
    assert!(ends_with("привет.torrent", ".torrent"));
    assert!(starts_with("привет мир", "привет"));
}

#[test]
fn equal_texts() {
    assert!(same_text("audio/mpeg", "audio/mpeg"));
    assert!(!same_text("audio/mpeg", "audio/mp3"));
    assert!(!same_text("audio/mpeg", "audio/mpeg "));
    assert!(same_text("", ""));
}

#[test]
fn joining_texts() {
    assert_eq!(join2("a", "b"), "ab");
    assert_eq!(join3("a", "", "c"), "ac");
}

#[test]
fn joining_paths() {
    assert_eq!(join_path("/tmp", "tmp_5"), "/tmp/tmp_5");
    assert_eq!(join_path("/tmp/", "tmp_5"), "/tmp/tmp_5");
    assert_eq!(join_path("", "tmp_5"), "tmp_5");
    assert_eq!(join_path("/", "x"), "/x");
}

#[test]
fn last_segment_of_a_link() {
    assert_eq!(last_segment_of("http://host/dir/song.mp3"), "song.mp3");
    assert_eq!(last_segment_of("song.mp3"), "song.mp3");
    assert_eq!(last_segment_of("http://host/dir/"), "");
    assert_eq!(last_segment_of(""), "");
    assert_eq!(last_segment_of("/"), "");
}

#[test]
fn numbers_are_read_from_text() {
    assert_eq!(parse_trimmed_i32("0"), Some(0));
    assert_eq!(parse_trimmed_i32("42"), Some(42));
    assert_eq!(parse_trimmed_i32("  42\n"), Some(42));
    assert_eq!(parse_trimmed_i32("\t-17 "), Some(-17));
    assert_eq!(parse_trimmed_i32("+5"), Some(5));
    assert_eq!(parse_trimmed_i32("007"), Some(7));
    assert_eq!(parse_trimmed_i32("2147483647"), Some(i32::MAX));
    assert_eq!(parse_trimmed_i32("-2147483648"), Some(i32::MIN));
}

#[test]
fn malformed_numbers_are_refused() {
    assert_eq!(parse_trimmed_i32(""), None);
    assert_eq!(parse_trimmed_i32("   "), None);
    assert_eq!(parse_trimmed_i32("-"), None);
    assert_eq!(parse_trimmed_i32("+"), None);
    assert_eq!(parse_trimmed_i32("4 2"), None);
    assert_eq!(parse_trimmed_i32("42a"), None);
    assert_eq!(parse_trimmed_i32("--1"), None);
    assert_eq!(parse_trimmed_i32("2147483648"), None);
    assert_eq!(parse_trimmed_i32("-2147483649"), None);
    assert_eq!(parse_trimmed_i32("99999999999999999999999"), None);
}

#[test]
fn reading_numbers_agrees_with_the_standard_reading() {
    for text in ["12", " 12 ", "-0", "+0", "1e3", "0x10", "٣", "12\u{a0}", "\u{3000}7"] {
        assert_eq!(parse_trimmed_i32(text), text.trim().parse::<i32>().ok());
    }
}
