//! Cookies in pasted lists and in the middle of other text.

use ram_ui::cookies::{extract_cookie_from_text, parse_bulk_cookies};

const COOKIE: &str = "_|WARNING:-DO-NOT-SHARE-THIS!--.ABCDEF0123456789ABCDEF0123456789";

#[test]
fn a_list_is_cut_at_lines_commas_semicolons_and_tabs() {
    assert_eq!(
        parse_bulk_cookies("one\ntwo,three;four\tfive\r\nsix"),
        vec!["one", "two", "three", "four", "five", "six"]
    );
}

#[test]
fn pieces_lose_white_space_and_quotes() {
    assert_eq!(parse_bulk_cookies(" \"one\" , \" two \" ,, \"\""), vec!["one", "two"]);
    assert!(parse_bulk_cookies("").is_empty());
    assert!(parse_bulk_cookies(" , ;\n").is_empty());
}

#[test]
fn a_cookie_is_found_in_the_middle() {
    let text = format!("{{\"value\":\"{COOKIE}\",\"x\":1}}");
    assert_eq!(extract_cookie_from_text(&text).as_deref(), Some(COOKIE));
}

#[test]
fn a_cookie_at_the_end_is_found() {
    let text = format!("cookie={COOKIE}");
    assert_eq!(extract_cookie_from_text(&text).as_deref(), Some(COOKIE));
}

#[test]
fn only_the_first_marker_counts() {
    let text = format!("_|WARNING:-DO-NOT-SHARE-THIS!short {COOKIE}");
    assert_eq!(extract_cookie_from_text(&text), None);
}

#[test]
fn what_is_too_short_is_no_cookie() {
    assert_eq!(extract_cookie_from_text("_|WARNING:-DO-NOT-SHARE-THIS!--.ABC"), None);
    assert_eq!(extract_cookie_from_text("nothing here"), None);
    let exactly = format!("_|WARNING:-DO-NOT-SHARE-THIS!{}", "x".repeat(21));
    assert_eq!(exactly.len(), 50);
    assert_eq!(extract_cookie_from_text(&exactly), None);
    let longer = format!("{exactly}x");
    assert_eq!(extract_cookie_from_text(&longer).as_deref(), Some(longer.as_str()));
}

#[test]
fn a_cookie_ends_at_what_ends_it() {
    for end in [' ', '\t', '\n', '\r', '\u{c}', ';', '"', '\'', '\\', '\0'] {
        let text = format!("{COOKIE}{end}tail");
        assert_eq!(extract_cookie_from_text(&text).as_deref(), Some(COOKIE), "{end:?}");
    }
    // A vertical tab does not end a cookie.
    let text = format!("{COOKIE}\u{b}tail");
    assert_eq!(
        extract_cookie_from_text(&text),
        Some(format!("{COOKIE}\u{b}tail"))
    );
}

/// Spaces and quotes around a cookie are left out in whatever order they come.
#[test]
fn spaces_and_quotes_may_alternate() {
    assert_eq!(parse_bulk_cookies("\" \"abc\" \""), vec!["abc"]);
    assert_eq!(parse_bulk_cookies(" \" a \"b\" c \" "), vec!["a \"b\" c"]);
    assert!(parse_bulk_cookies("\" \" \"").is_empty());
}
