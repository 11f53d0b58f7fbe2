use selu::clock::{day_number, parses_rfc3339, stamp_after, Moment};
use selu::text::{
    char_is_alnum, char_is_digit, char_is_hex, char_is_white, contains, ends_with, find,
    find_last, head_bytes, is_before, is_blank, join, lines, number, parse_natural, replace,
    replace_text, signed_number, split, split_once, starts_with, strip_prefix, strip_suffix,
    to_lower, trim, trim_end_of, trim_start,
};
use selu::web::order::sort;

#[test]
fn characters_are_what_the_standard_library_says() {
    for c in '\0'..=char::MAX {
        assert_eq!(char_is_white(c), c.is_whitespace(), "{c:?}");
        assert_eq!(char_is_digit(c), c.is_ascii_digit(), "{c:?}");
        assert_eq!(char_is_alnum(c), c.is_ascii_alphanumeric(), "{c:?}");
        assert_eq!(char_is_hex(c), c.is_ascii_hexdigit(), "{c:?}");
    }
}

const SAMPLES: [&str; 9] = [
    "",
    " ",
    "\u{3000}a b\u{2003}",
    "a/b//",
    "x=y=z",
    "line\r\nnext\n\nlast",
    "tail\n",
    "\u{1F600}\u{e4}aa",
    "AbC-123",
];

#[test]
fn texts_are_cut_as_the_standard_library_cuts_them() {
    for s in SAMPLES {
        assert_eq!(trim(s), s.trim());
        assert_eq!(trim_start(s), s.trim_start());
        assert_eq!(trim_end_of(s, '/'), s.trim_end_matches('/'));
        assert_eq!(is_blank(s), s.trim().is_empty());
        assert_eq!(lines(s), s.lines().collect::<Vec<_>>());
        assert_eq!(split(s, '/'), s.split('/').collect::<Vec<_>>());
        assert_eq!(to_lower(s), s.to_ascii_lowercase());
        assert_eq!(join(&split(s, '='), "--"), s.split('=').collect::<Vec<_>>().join("--"));
        assert_eq!(replace(s, 'a', "_!"), s.replace('a', "_!"));
        for p in ["a", "aa", "/", "=", "\n", "b//"] {
            assert_eq!(contains(s, p), s.contains(p));
            assert_eq!(starts_with(s, p), s.starts_with(p));
            assert_eq!(ends_with(s, p), s.ends_with(p));
            assert_eq!(strip_prefix(s, p), s.strip_prefix(p));
            assert_eq!(strip_suffix(s, p), s.strip_suffix(p));
            assert_eq!(split_once(s, p), s.split_once(p));
            assert_eq!(find(s, p), s.find(p).map(|i| s[..i].chars().count()));
            assert_eq!(replace_text(s, p, "ab"), s.replace(p, "ab"));
        }
        assert_eq!(find_last(s, 'a'), s.rfind('a').map(|i| s[..i].chars().count()));
        for t in SAMPLES {
            assert_eq!(is_before(s, t), s < t);
        }
    }
    assert_eq!(head_bytes("\u{e4}bc", 3), "\u{e4}b");
}

#[test]
fn numbers_are_written_and_read() {
    for n in [0, 7, 10, 4096, u64::MAX] {
        assert_eq!(number(n), n.to_string());
    }
    for i in [0, -1, 42, i64::MIN, i64::MAX] {
        assert_eq!(signed_number(i), i.to_string());
        assert_eq!(parse_natural(&i.to_string()), if i < 0 { None } else { Some(i) });
    }
    assert_eq!(parse_natural("007"), Some(7));
    assert_eq!(parse_natural("99999999999999999999"), None);
}

#[test]
fn items_are_sorted_and_ties_keep_their_order() {
    let keys: Vec<String> = ["b", "a", "b", "", "a"].iter().map(|s| s.to_string()).collect();
    assert_eq!(sort(vec![0, 1, 2, 3, 4], &keys, false), [3, 1, 4, 0, 2]);
    assert_eq!(sort(vec![0, 1, 2, 3, 4], &keys, true), [0, 2, 1, 4, 3]);
}

#[test]
fn stamps_are_dates_that_are_read_back() {
    let now = Moment { secs: 1_767_225_600, nanos: 500_000_000 };
    let stamp = stamp_after(&now, 30);
    let expected = chrono::DateTime::from_timestamp(1_767_225_600 + 30 * 86_400, 500_000_000)
        .unwrap()
        .to_rfc3339();
    assert_eq!(stamp, expected);
    assert!(parses_rfc3339(&stamp));
    assert!(!parses_rfc3339("tomorrow"));
    assert_eq!((day_number(86_399), day_number(86_400), day_number(-1)), (0, 1, -1));
}
