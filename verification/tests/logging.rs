//! The log: the buffering writer, the log of an old version.

use ram_ui::logging::{
    marks_purged, next_emit_step, purge_legacy_log, EmitReply, EmitStep, Purge, ScrubbingWriter,
};

/// Takes one cookie out of a text.
fn scrub(text: &str) -> String {
    match text.find("_|WARNING:-DO-NOT-SHARE-THIS!") {
        Some(at) => {
            let rest = &text[at..];
            let end = rest.find(char::is_whitespace).unwrap_or(rest.len());
            format!("{}<redacted>{}", &text[..at], &rest[end..])
        }
        None => text.to_string(),
    }
}

/// Takes all the steps of one try. The write and the flush work or fail as
/// told. Gives the texts that were written, how often was flushed, and whether
/// the message got through.
fn emit(w: &mut ScrubbingWriter, write: bool, flush: bool) -> (Vec<String>, usize, bool) {
    let said = |worked: bool| if worked { EmitReply::Worked } else { EmitReply::Failed };
    let (mut written, mut flushed) = (Vec::new(), 0);
    let mut step = w.begin_emit();
    loop {
        let reply = match &step {
            EmitStep::Scrub(text) => EmitReply::Scrubbed(scrub(text)),
            EmitStep::Write(text) => {
                written.push(text.clone());
                said(write)
            }
            EmitStep::Flush => {
                flushed += 1;
                said(flush)
            }
            EmitStep::Done => return (written, flushed, true),
            EmitStep::Failed => return (written, flushed, false),
        };
        step = next_emit_step(step, reply);
    }
}

/// A secret split across two writes must still be caught. This is the reason
/// the writer buffers instead of scrubbing each chunk.
#[test]
fn scrubs_a_secret_that_straddles_two_writes() {
    let mut w = ScrubbingWriter::new();
    w.write(b"cookie=_|WARNING:-DO-NOT-");
    w.write(b"SHARE-THIS!--.ABCDEF0123456789\n");
    let (written, _, _) = emit(&mut w, true, true);
    let out = written.concat();
    assert!(!out.contains("ABCDEF"), "{out}");
    assert!(out.contains("<redacted>"), "{out}");
}

#[test]
fn every_way_to_cut_a_message_comes_to_the_same_line() {
    let message = b"a _|WARNING:-DO-NOT-SHARE-THIS!--.SECRET b\n";
    for at in 0..=message.len() {
        let mut w = ScrubbingWriter::new();
        assert_eq!(w.write(&message[..at]), at);
        w.write(&message[at..]);
        assert_eq!(emit(&mut w, true, true), (vec!["a <redacted> b\n".to_string()], 1, true));
    }
}

/// The text is handed on as it was decoded; nothing is taken out of it before.
#[test]
fn the_whole_text_is_handed_on_to_be_scrubbed() {
    let mut w = ScrubbingWriter::new();
    w.write(b"a _|WARNING:-DO-NOT-SHARE-THIS!--.SECRET b\n");
    assert_eq!(w.emit().as_deref(), Some("a _|WARNING:-DO-NOT-SHARE-THIS!--.SECRET b\n"));
}

#[test]
fn an_empty_writer_emits_nothing() {
    let mut w = ScrubbingWriter::new();
    assert_eq!(w.emit(), None);
    w.write(b"line\n");
    assert_eq!(w.emit().as_deref(), Some("line\n"));
    assert_eq!(w.emit(), None);
    assert_eq!(emit(&mut w, true, true), (vec![], 0, true));
}

#[test]
fn bytes_that_are_no_text_are_replaced() {
    let mut w = ScrubbingWriter::new();
    w.write(&[b'a', 0xff, b'b']);
    assert_eq!(w.emit().as_deref(), Some("a\u{fffd}b"));
}

#[test]
fn the_old_log_is_removed_once() {
    assert_eq!(purge_legacy_log(true, true), Purge::Leave);
    assert_eq!(purge_legacy_log(true, false), Purge::Leave);
    assert_eq!(purge_legacy_log(false, true), Purge::Remove);
    assert_eq!(purge_legacy_log(false, false), Purge::Mark);
    assert!(!marks_purged(Purge::Leave, true));
    assert!(marks_purged(Purge::Remove, true));
    assert!(!marks_purged(Purge::Remove, false));
    assert!(marks_purged(Purge::Mark, false));
}

#[test]
fn a_message_that_failed_is_not_sent_again() {
    for (write, flush, flushed) in [(false, true, 0), (true, false, 1)] {
        let mut w = ScrubbingWriter::new();
        w.write(b"line\n");
        assert_eq!(emit(&mut w, write, flush), (vec!["line\n".to_string()], flushed, false));
        assert_eq!(emit(&mut w, true, true), (vec![], 0, true));
    }
}

#[test]
fn a_reply_that_does_not_fit_is_a_failure() {
    let text = || "x".to_string();
    assert!(matches!(
        next_emit_step(EmitStep::Scrub(text()), EmitReply::Worked),
        EmitStep::Failed
    ));
    assert!(matches!(
        next_emit_step(EmitStep::Write(text()), EmitReply::Scrubbed(text())),
        EmitStep::Failed
    ));
    assert!(matches!(next_emit_step(EmitStep::Failed, EmitReply::Worked), EmitStep::Failed));
    assert!(matches!(next_emit_step(EmitStep::Done, EmitReply::Failed), EmitStep::Done));
}
