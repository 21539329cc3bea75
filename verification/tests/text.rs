use moonlit::decimal::{read_i64, read_u32, write_padded, write_u32, write_u64};
use moonlit::text::{
    chars_of, is_blank, is_white_space, same_text, text_begins, text_ends, text_holds, text_lines,
    trim,
};

const TEXTS: [&str; 22] = [
    "", " ", "a", "aa", "ab", "abc", "aab", " a ", "\ta\n", "\u{a0}x\u{3000}", "..", "a..b", ".a.",
    "/x", "\\x", "ñandú — ×", "es-MX", "e", "\r\n", "a\r\nb\n\nc", "a\rb", "\n\n",
];

#[test]
fn white_space_is_that_of_unicode() {
    for u in 0..=0x10ffffu32 {
        if let Some(c) = char::from_u32(u) {
            assert_eq!(is_white_space(c), c.is_whitespace(), "{u:x}");
        }
    }
}

#[test]
fn texts_compare_like_strings() {
    for a in TEXTS {
        assert_eq!(trim(a), a.trim());
        assert_eq!(is_blank(a), a.trim().is_empty());
        assert_eq!(chars_of(a), a.chars().collect::<Vec<char>>());
        assert_eq!(text_lines(a), a.lines().collect::<Vec<&str>>(), "{a:?}");
        for b in TEXTS {
            assert_eq!(same_text(a, b), a == b);
            assert_eq!(text_begins(a, b), a.starts_with(b));
            assert_eq!(text_ends(a, b), a.ends_with(b));
            assert_eq!(text_holds(a, b), a.contains(b));
        }
    }
}

#[test]
fn numbers_read_like_parsed_ones() {
    let texts = [
        "", "0", "-0", "+0", "+", "-", "--1", "+-1", "007", "60", " 60", "60 ", "6a", "4294967295",
        "4294967296", "-1", "9223372036854775807", "9223372036854775808", "-9223372036854775808",
        "-9223372036854775809", "+30", "99999999999999999999999999999999999999999999", "1_0", "٣",
        "0x10", "1.5",
    ];
    for t in texts {
        assert_eq!(read_u32(t), t.parse::<u32>().ok(), "{t:?}");
        assert_eq!(read_i64(t), t.parse::<i64>().ok(), "{t:?}");
    }
}

#[test]
fn numbers_write_like_formatted_ones() {
    for n in [0u32, 1, 9, 10, 99, 100, 4095, 1_000_000_000, u32::MAX] {
        assert_eq!(write_u32(n), n.to_string());
        assert_eq!(write_padded(n, 2), format!("{n:02}"));
        assert_eq!(write_padded(n, 4), format!("{n:04}"));
        assert_eq!(write_padded(n, 0), format!("{n}"));
        assert_eq!(read_u32(&write_u32(n)), Some(n));
    }
    assert_eq!(write_u64(u64::MAX), u64::MAX.to_string());
}
