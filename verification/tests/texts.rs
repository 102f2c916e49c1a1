use anilink_downloader::progress::extract_speed_from_ffmpeg_line;
use anilink_downloader::text::{
    chars_of, contains, ends_with, find_char, find_from, is_space_char, parse_decimal,
    parse_unsigned, push_decimal, push_signed, rfind_char, same_chars, same_text, starts_with,
    string_of, trim, trim_bounds,
};

#[test]
fn characters_and_back() {
    let v = chars_of("aé日\u{1F600}");
    assert_eq!(v, vec!['a', 'é', '日', '\u{1F600}']);
    assert_eq!(string_of(&v), "aé日\u{1F600}");
    assert_eq!(string_of(&[]), "");
    assert!(same_chars(&v, &chars_of("aé日\u{1F600}")));
    assert!(!same_chars(&v, &chars_of("aé日")));
    assert!(same_text("", ""));
    assert!(!same_text("a", "b"));
}

#[test]
fn white_space_is_what_unicode_says() {
    for u in 0..0x3100u32 {
        if let Some(c) = char::from_u32(u) {
            assert_eq!(is_space_char(c), c.is_whitespace());
        }
    }
    assert_eq!(string_of(trim(&chars_of("\u{3000} a b\t\n"))), "a b");
    assert_eq!(string_of(trim(&chars_of("   "))), "");
    assert_eq!(trim_bounds(&chars_of("  ab ")), (2, 4));
    assert_eq!(trim_bounds(&chars_of("")), (0, 0));
}

#[test]
fn searching() {
    let hay = chars_of("abcabc");
    assert_eq!(find_from(&hay, &chars_of("bc"), 0), Some(1));
    assert_eq!(find_from(&hay, &chars_of("bc"), 2), Some(4));
    assert_eq!(find_from(&hay, &chars_of("bc"), 5), None);
    assert_eq!(find_from(&hay, &chars_of(""), 6), Some(6));
    assert_eq!(find_from(&hay, &chars_of(""), 7), None);
    assert_eq!(find_from(&hay, &chars_of("abcabcd"), 0), None);
    assert_eq!(find_char(&hay, 'c', 3), Some(5));
    assert_eq!(find_char(&hay, 'x', 0), None);
    assert_eq!(rfind_char(&hay, 'a'), Some(3));
    assert_eq!(rfind_char(&hay, 'x'), None);
    assert!(starts_with(&hay, &chars_of("abc")));
    assert!(!starts_with(&hay, &chars_of("bc")));
    assert!(ends_with(&hay, &chars_of("abc")));
    assert!(!ends_with(&hay, &chars_of("ab")));
    assert!(contains(&hay, &chars_of("ca")));
    assert!(!contains(&hay, &chars_of("cc")));
}

#[test]
fn numbers_are_read_and_written() {
    assert_eq!(parse_decimal(&chars_of("0"), 10), Some(0));
    assert_eq!(parse_decimal(&chars_of("0010"), 10), Some(10));
    assert_eq!(parse_decimal(&chars_of("11"), 10), None);
    assert_eq!(parse_decimal(&chars_of(""), 10), None);
    assert_eq!(parse_decimal(&chars_of("1a"), 10), None);
    assert_eq!(parse_decimal(&chars_of("+1"), 10), None);
    assert_eq!(parse_decimal(&chars_of("18446744073709551615"), u64::MAX), Some(u64::MAX));
    assert_eq!(parse_decimal(&chars_of("18446744073709551616"), u64::MAX), None);
    assert_eq!(parse_unsigned(&chars_of("+17"), 100), Some(17));
    assert_eq!(parse_unsigned(&chars_of("+"), 100), None);
    assert_eq!(parse_unsigned(&chars_of("++1"), 100), None);
    assert_eq!(parse_unsigned(&chars_of("-1"), 100), None);
    for n in [0u64, 7, 10, 99, 100, 12345, u64::MAX] {
        let mut out = vec!['#'];
        push_decimal(&mut out, n);
        assert_eq!(string_of(&out), format!("#{}", n));
    }
    for n in [0i64, -1, 1, i64::MIN, i64::MAX, -1000] {
        let mut out = Vec::new();
        push_signed(&mut out, n);
        assert_eq!(string_of(&out), format!("{}", n));
    }
}

#[test]
fn the_speed_that_the_tool_reports() {
    assert_eq!(
        extract_speed_from_ffmpeg_line("frame=1 time=00:00:01.00 bitrate=1 speed=1.23x"),
        Some("1.23x".to_string())
    );
    assert_eq!(extract_speed_from_ffmpeg_line("speed=  2x"), Some("".to_string()));
    assert_eq!(extract_speed_from_ffmpeg_line("xspeed=2x  speed=3x speed=4x"), Some("3x".to_string()));
    assert_eq!(extract_speed_from_ffmpeg_line("no such word"), None);
    assert_eq!(extract_speed_from_ffmpeg_line(""), None);
    assert_eq!(extract_speed_from_ffmpeg_line("   "), None);
}
