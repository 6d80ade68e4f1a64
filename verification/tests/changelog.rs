//! The list of changes.

use ram_ui::changelog::{blocks, changes, section, spans, Block, Span};

const TEXT: &str = "# Changelog\n\n## v1.2.0\n\n### Added\n- **Bold** start\n- plain\n\n## v1.1.0\n- old\n";

fn flat(spans: &[Span]) -> Vec<(bool, &str)> {
    spans.iter().map(|s| (s.bold, s.text.as_str())).collect()
}

#[test]
fn a_section_ends_at_the_next_version() {
    assert_eq!(
        section(TEXT, "1.2.0"),
        "## v1.2.0\n\n### Added\n- **Bold** start\n- plain\n"
    );
    assert_eq!(section(TEXT, "1.1.0"), "## v1.1.0\n- old\n");
}

#[test]
fn an_unknown_version_shows_everything() {
    assert_eq!(section(TEXT, "9.9.9"), TEXT);
}

#[test]
fn stars_make_text_bold() {
    assert_eq!(
        flat(&spans("a **b** c **d**")),
        vec![(false, "a "), (true, "b"), (false, " c "), (true, "d")]
    );
    assert_eq!(flat(&spans("plain")), vec![(false, "plain")]);
    assert!(spans("").is_empty());
}

#[test]
fn stars_that_are_never_closed_are_text() {
    assert_eq!(flat(&spans("a **b")), vec![(false, "a "), (false, "**b")]);
    assert_eq!(flat(&spans("**")), vec![(false, "**")]);
    assert_eq!(flat(&spans("****")), vec![(true, "")]);
}

#[test]
fn spans_are_the_line_again() {
    for line in ["", "a", "**a**", "x **y** z", "a ** b", "**a****b**c"] {
        let back: String = spans(line)
            .iter()
            .map(|s| if s.bold { format!("**{}**", s.text) } else { s.text.clone() })
            .collect();
        assert_eq!(back, line);
    }
}

#[test]
fn lines_become_blocks() {
    let shown = changes(TEXT, "1.2.0");
    assert_eq!(shown.len(), 5);
    assert!(matches!(&shown[0], Block::Heading(h) if h == "v1.2.0"));
    assert!(matches!(&shown[1], Block::Gap));
    assert!(matches!(&shown[2], Block::Strong(h) if h == "Added"));
    match &shown[3] {
        Block::Line(s) => assert_eq!(
            flat(s),
            vec![(false, "  \u{2022} "), (true, "Bold"), (false, " start")]
        ),
        other => panic!("{other:?}"),
    }
    match &shown[4] {
        Block::Line(s) => assert_eq!(flat(s), vec![(false, "  \u{2022} plain")]),
        other => panic!("{other:?}"),
    }
}

#[test]
fn a_break_at_the_end_starts_no_line() {
    assert_eq!(blocks("a\n").len(), 1);
    assert_eq!(blocks("a\n\n").len(), 2);
    assert_eq!(blocks("a\r\nb").len(), 2);
    assert!(blocks("").is_empty());
}
