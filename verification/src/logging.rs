//! The log: how a message gets into it, and getting rid of the log that an old
//! version left behind.

use vstd::prelude::*;

use crate::text::{lossy, lossy_text};

verus! {

/// How many log files are kept, one for each day.
pub const LOG_FILES_KEPT: usize = 7;

/// The file whose presence says that the old log is gone.
pub const LEGACY_LOG_PURGED_MARKER: &'static str = ".rm.log.purged";

// ---------------------------------------------------------------------------
// The writer
// ---------------------------------------------------------------------------

/// A writer that holds back what it is given until a whole message is there, so
/// that a cookie that comes in pieces is still seen.
#[derive(Debug)]
pub struct ScrubbingWriter {
    pub buf: Vec<u8>,
}

impl ScrubbingWriter {
    /// A writer that was given nothing yet.
    pub fn new() -> (w: ScrubbingWriter)
        ensures
            w.buf@ == Seq::<u8>::empty(),
    {
        ScrubbingWriter { buf: Vec::new() }
    }

    /// Takes some bytes. All of them are always taken.
    pub fn write(&mut self, data: &[u8]) -> (n: usize)
        ensures
            final(self).buf@ == old(self).buf@ + data@,
            n == data@.len(),
    {
        self.buf.extend_from_slice(data);
        assert(self.buf@ =~= old(self).buf@ + data@);
        data.len()
    }

    /// The text of what was taken since the last time, from which secrets are
    /// still to be taken out. `None` where nothing was taken.
    pub fn emit(&mut self) -> (r: Option<String>)
        ensures
            final(self).buf@ == Seq::<u8>::empty(),
            match r {
                Some(s) => old(self).buf@.len() > 0 && s@ == lossy_text(old(self).buf@),
                None => old(self).buf@.len() == 0,
            },
    {
        if self.buf.len() == 0 {
            assert(self.buf@ =~= Seq::<u8>::empty());
            return None;
        }
        let mut taken: Vec<u8> = Vec::new();
        std::mem::swap(&mut taken, &mut self.buf);
        Some(lossy(&taken))
    }

    /// The first step to get what is held into the log. The writer lets go of
    /// it, whatever comes of the steps.
    pub fn begin_emit(&mut self) -> (step: EmitStep)
        ensures
            emit_begun(*old(self), *final(self), step),
    {
        match self.emit() {
            Some(text) => EmitStep::Scrub(text),
            None => EmitStep::Done,
        }
    }
}

/// What is done next to get a message into the log.
#[derive(Debug)]
pub enum EmitStep {
    /// Take the secrets out of this text.
    Scrub(String),
    /// Write this text.
    Write(String),
    /// Pass on to the file what was written.
    Flush,
    /// All is done.
    Done,
    /// The last step failed, and nothing more is done.
    Failed,
}

/// What came of a step.
#[derive(Debug)]
pub enum EmitReply {
    /// The text without its secrets.
    Scrubbed(String),
    Worked,
    Failed,
}

/// Whether `step` is the first step to get into the log what `before` holds,
/// and `after` is the writer that has let go of it.
pub open spec fn emit_begun(
    before: ScrubbingWriter,
    after: ScrubbingWriter,
    step: EmitStep,
) -> bool {
    &&& after.buf@ == Seq::<u8>::empty()
    &&& match step {
        EmitStep::Scrub(s) => before.buf@.len() > 0 && s@ == lossy_text(before.buf@),
        EmitStep::Done => before.buf@.len() == 0,
        _ => false,
    }
}

/// What is done after a step.
pub open spec fn step_after(step: EmitStep, reply: EmitReply) -> EmitStep {
    match (step, reply) {
        (EmitStep::Scrub(_), EmitReply::Scrubbed(text)) => EmitStep::Write(text),
        (EmitStep::Write(_), EmitReply::Worked) => EmitStep::Flush,
        (EmitStep::Flush, EmitReply::Worked) => EmitStep::Done,
        (EmitStep::Done, _) => EmitStep::Done,
        _ => EmitStep::Failed,
    }
}

/// What is done after a step.
pub fn next_emit_step(step: EmitStep, reply: EmitReply) -> (next: EmitStep)
    ensures
        next == step_after(step, reply),
{
    match (step, reply) {
        (EmitStep::Scrub(_), EmitReply::Scrubbed(text)) => EmitStep::Write(text),
        (EmitStep::Write(_), EmitReply::Worked) => EmitStep::Flush,
        (EmitStep::Flush, EmitReply::Worked) => EmitStep::Done,
        (EmitStep::Done, _) => EmitStep::Done,
        _ => EmitStep::Failed,
    }
}

/// Whether a reply is one that the step can have, where `scrub` is what takes
/// the secrets out of a text.
pub open spec fn answers(
    step: EmitStep,
    reply: EmitReply,
    scrub: spec_fn(Seq<char>) -> Seq<char>,
) -> bool {
    match step {
        EmitStep::Scrub(text) => reply matches EmitReply::Scrubbed(clean) && clean@ == scrub(
            text@,
        ),
        EmitStep::Write(_) => !(reply is Scrubbed),
        EmitStep::Flush => !(reply is Scrubbed),
        _ => false,
    }
}

/// Whether these are all the steps that get into the log what a writer was
/// given since the last time, piece by piece, and their replies.
pub open spec fn emission(
    pieces: Seq<Seq<u8>>,
    after: ScrubbingWriter,
    steps: Seq<EmitStep>,
    replies: Seq<EmitReply>,
    scrub: spec_fn(Seq<char>) -> Seq<char>,
) -> bool {
    &&& steps.len() == replies.len() + 1
    &&& exists|before: ScrubbingWriter|
        before.buf@ == given(Seq::empty(), pieces) && #[trigger] emit_begun(
            before,
            after,
            steps[0],
        )
    &&& forall|k: int|
        0 <= k < replies.len() ==> #[trigger] answers(steps[k], replies[k], scrub) && steps[k + 1]
            == step_after(steps[k], replies[k])
    &&& steps.last() is Done || steps.last() is Failed
}

/// What a writer was given gets into the log like this, whatever takes the
/// secrets out and however it was cut into pieces. Where it was given nothing,
/// nothing is done. Otherwise the whole text is scrubbed and written once, and
/// flushed if and only if that worked; it got through if and only if both
/// worked. The writer holds nothing afterwards in any case.
pub proof fn a_message_is_scrubbed_written_once_and_flushed(
    pieces: Seq<Seq<u8>>,
    after: ScrubbingWriter,
    steps: Seq<EmitStep>,
    replies: Seq<EmitReply>,
    scrub: spec_fn(Seq<char>) -> Seq<char>,
)
    requires
        emission(pieces, after, steps, replies, scrub),
    ensures
        after.buf@ == Seq::<u8>::empty(),
        pieces.flatten().len() == 0 ==> steps == seq![EmitStep::Done],
        pieces.flatten().len() > 0 ==> {
            &&& steps.len() >= 3
            &&& steps[0] matches EmitStep::Scrub(text) && text@ == lossy_text(pieces.flatten())
            &&& steps[1] matches EmitStep::Write(text) && text@ == scrub(
                lossy_text(pieces.flatten()),
            )
            &&& if replies[1] is Worked {
                &&& steps.len() == 4
                &&& steps[2] == EmitStep::Flush
                &&& steps[3] == if replies[2] is Worked {
                    EmitStep::Done
                } else {
                    EmitStep::Failed
                }
            } else {
                &&& steps.len() == 3
                &&& steps[2] == EmitStep::Failed
            }
        },
{
    given_is_all(pieces);
    let b = pieces.flatten();
    if b.len() == 0 {
        if replies.len() > 0 {
            assert(answers(steps[0], replies[0], scrub));
        }
        assert(steps =~= seq![EmitStep::Done]);
    } else {
        assert(answers(steps[0], replies[0], scrub));
        assert(steps[0int + 1] == step_after(steps[0], replies[0]));
        assert(answers(steps[1], replies[1], scrub));
        assert(steps[1int + 1] == step_after(steps[1], replies[1]));
        if replies.len() > 2 {
            assert(answers(steps[2], replies[2], scrub));
            assert(steps[2int + 1] == step_after(steps[2], replies[2]));
            if replies.len() > 3 {
                assert(answers(steps[3], replies[3], scrub));
            }
        }
    }
}

/// A message goes into the log at most once: after one try the writer holds
/// nothing, whether the steps of that try worked or not, so the next try has
/// nothing to do.
pub proof fn a_message_is_never_sent_twice(
    before: ScrubbingWriter,
    after: ScrubbingWriter,
    last: ScrubbingWriter,
    first: EmitStep,
    second: EmitStep,
)
    requires
        emit_begun(before, after, first),
        emit_begun(after, last, second),
    ensures
        second is Done,
        last.buf@ == Seq::<u8>::empty(),
{
}

/// What a writer holds after it was given some pieces.
pub open spec fn given(before: Seq<u8>, pieces: Seq<Seq<u8>>) -> Seq<u8>
    decreases pieces.len(),
{
    if pieces.len() == 0 {
        before
    } else {
        given(before, pieces.drop_last()) + pieces.last()
    }
}

/// How a message is cut into pieces makes no difference: two ways to cut the
/// same bytes come to the same text.
pub proof fn pieces_make_no_difference(a: Seq<Seq<u8>>, b: Seq<Seq<u8>>)
    requires
        a.flatten() == b.flatten(),
    ensures
        lossy_text(given(Seq::empty(), a)) == lossy_text(given(Seq::empty(), b)),
{
    given_is_all(a);
    given_is_all(b);
}

proof fn given_is_all(pieces: Seq<Seq<u8>>)
    ensures
        given(Seq::empty(), pieces) == pieces.flatten(),
    decreases pieces.len(),
{
    if pieces.len() == 0 {
        assert(pieces.flatten() =~= Seq::<u8>::empty());
    } else {
        given_is_all(pieces.drop_last());
        pieces.lemma_flatten_and_flatten_alt_are_equivalent();
        pieces.drop_last().lemma_flatten_and_flatten_alt_are_equivalent();
    }
}

// ---------------------------------------------------------------------------
// The log of an old version
// ---------------------------------------------------------------------------

/// What is done about the log of an old version.
#[derive(Clone, Copy, Debug, PartialEq, Eq, Structural)]
pub enum Purge {
    /// Nothing: it was done before.
    Leave,
    /// Remove the log. Mark it as done if that worked.
    Remove,
    /// There is no such log. Mark it as done.
    Mark,
}

/// What is done about the log of an old version, given whether it was done
/// before and whether the log is there.
pub fn purge_legacy_log(marked: bool, there: bool) -> (p: Purge)
    ensures
        p == if marked {
            Purge::Leave
        } else if there {
            Purge::Remove
        } else {
            Purge::Mark
        },
{
    if marked {
        Purge::Leave
    } else if there {
        Purge::Remove
    } else {
        Purge::Mark
    }
}

/// Whether the old log is marked as gone after a try to remove it. One that is
/// still there is tried again at the next start.
pub fn marks_purged(p: Purge, removed: bool) -> (b: bool)
    ensures
        b == (p == Purge::Mark || (p == Purge::Remove && removed)),
{
    match p {
        Purge::Leave => false,
        Purge::Remove => removed,
        Purge::Mark => true,
    }
}

} // verus!
