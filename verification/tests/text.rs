//! Text helpers.

use ram_ui::text::{
    before, decimal_of, find_from, holds, chars_of, join2, join3, parse_u64, same, slice_of, trim,
    white,
};

#[test]
fn white_space_is_what_the_standard_says() {
    for n in 0..=0x10_FFFFu32 {
        if let Some(c) = char::from_u32(n) {
            assert_eq!(white(c), c.is_whitespace(), "{n:#x}");
        }
    }
}

#[test]
fn a_trim_is_the_standard_one() {
    for s in ["", "  ", "a", " a b ", "\u{a0}x\u{2003}", "\t\r\n x"] {
        assert_eq!(trim(s), s.trim());
    }
}

#[test]
fn numerals_read_back() {
    for n in [0, 9, 10, 99, 100, 12_345, u64::MAX] {
        assert_eq!(decimal_of(n), n.to_string());
        assert_eq!(parse_u64(&decimal_of(n)), Some(n));
    }
}

#[test]
fn a_number_is_read_as_the_standard_reads_it() {
    for s in [
        "", "+", "-", "0", "007", "+7", "-1", "12a", " 1", "18446744073709551615",
        "18446744073709551616", "99999999999999999999999",
    ] {
        assert_eq!(parse_u64(s), s.parse::<u64>().ok(), "{s:?}");
    }
}

#[test]
fn searching_finds_the_first() {
    let hay = chars_of("abcabc");
    assert_eq!(find_from(&hay, &chars_of("bc"), 0), Some(1));
    assert_eq!(find_from(&hay, &chars_of("bc"), 2), Some(4));
    assert_eq!(find_from(&hay, &chars_of("bd"), 0), None);
    assert_eq!(find_from(&hay, &chars_of(""), 6), Some(6));
    assert!(holds("abc", ""));
    assert!(holds("abc", "c"));
    assert!(!holds("abc", "cb"));
}

#[test]
fn the_order_of_texts_is_the_standard_one() {
    let words = ["", "a", "ab", "b", "B", "\u{e9}", "z"];
    for a in words {
        for b in words {
            assert_eq!(before(a, b), a < b, "{a:?} {b:?}");
            assert_eq!(same(a, b), a == b);
        }
    }
}

#[test]
fn parts_are_joined_and_cut() {
    assert_eq!(join2("a", "b"), "ab");
    assert_eq!(join3("a", "b", "c"), "abc");
    assert_eq!(slice_of(&chars_of("h\u{e9}llo"), 1, 3), "\u{e9}l");
}
