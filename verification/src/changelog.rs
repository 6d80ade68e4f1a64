//! The list of changes that is shown after an upgrade: finding the section of
//! a version, and reading its light markup.

use vstd::prelude::*;

use crate::text::{
    chars_of, find_from, first_standing, first_standing_facts, join2, matches_at, slice_of,
    stands_at, trim_range, trimmed_by, Trimmed,
};

verus! {

// ---------------------------------------------------------------------------
// The section of a version
// ---------------------------------------------------------------------------

/// The heading of a version's section.
pub open spec fn heading_of(version: Seq<char>) -> Seq<char> {
    "## v"@ + version
}

/// The section of a version: from its heading to the heading of the next
/// version. The whole text, where no heading names the version.
pub open spec fn section_of(text: Seq<char>, version: Seq<char>) -> Seq<char> {
    match first_standing(text, heading_of(version), 0) {
        None => text,
        Some(start) => match first_standing(
            text,
            "\n## v"@,
            start + heading_of(version).len(),
        ) {
            Some(end) => text.subrange(start, end),
            None => text.skip(start),
        },
    }
}

/// The section of a version.
pub fn section(text: &str, version: &str) -> (r: String)
    ensures
        r@ == section_of(text@, version@),
{
    let v: Vec<char> = chars_of(text);
    let heading: Vec<char> = chars_of(&join2("## v", version));
    let next: Vec<char> = chars_of("\n## v");
    proof {
        first_standing_facts(v@, heading@, 0);
    }
    match find_from(&v, &heading, 0) {
        None => {
            assert(v@.subrange(0, v@.len() as int) =~= v@);
            slice_of(&v, 0, v.len())
        },
        Some(start) => {
            let size: usize = v.len();
            assert(start + heading@.len() <= size);
            let after: usize = start + heading.len();
            proof {
                first_standing_facts(v@, next@, after as int);
            }
            match find_from(&v, &next, after) {
                Some(end) => slice_of(&v, start, end),
                None => {
                    assert(v@.subrange(start as int, v@.len() as int) =~= v@.skip(start as int));
                    slice_of(&v, start, v.len())
                },
            }
        },
    }
}

/// A section starts with its version's heading, and no later version's section
/// is in it.
pub proof fn a_section_is_one_versions(text: Seq<char>, version: Seq<char>)
    requires
        first_standing(text, heading_of(version), 0) is Some,
    ensures
        stands_at(section_of(text, version), heading_of(version), 0),
        forall|at: int|
            heading_of(version).len() <= at ==> !stands_at(
                section_of(text, version),
                "\n## v"@,
                at,
            ),
{
    let h = heading_of(version);
    let next = "\n## v"@;
    let start = first_standing(text, h, 0)->Some_0;
    let s = section_of(text, version);
    first_standing_facts(text, h, 0);
    first_standing_facts(text, next, start + h.len());
    assert(s.subrange(0, h.len() as int) =~= text.subrange(start, start + h.len()));
    assert forall|at: int| h.len() <= at implies !stands_at(s, next, at) by {
        if stands_at(s, next, at) {
            assert(text.subrange(start + at, start + at + next.len()) =~= s.subrange(
                at,
                at + next.len(),
            ));
            assert(stands_at(text, next, start + at));
            reveal_strlit("\n## v");
            assert(false);
        }
    }
}

// ---------------------------------------------------------------------------
// Bold spans
// ---------------------------------------------------------------------------

/// A part of a line, in one weight.
#[derive(Debug)]
pub struct Span {
    pub bold: bool,
    pub text: String,
}

/// What [`Span`] holds.
pub struct SpanView {
    pub bold: bool,
    pub text: Seq<char>,
}

impl View for Span {
    type V = SpanView;

    open spec fn view(&self) -> SpanView {
        SpanView { bold: self.bold, text: self.text@ }
    }
}

/// What stands before and after bold text.
pub open spec fn stars() -> Seq<char> {
    "**"@
}

/// A part of a line as plain text, unless it is empty.
pub open spec fn plain(line: Seq<char>, from: int, to: int) -> Seq<SpanView> {
    if from < to {
        seq![SpanView { bold: false, text: line.subrange(from, to) }]
    } else {
        Seq::empty()
    }
}

/// The spans of a line from a position on. Stars that are never closed are
/// plain text.
pub open spec fn spans_from(line: Seq<char>, from: int) -> Seq<SpanView>
    decreases line.len() - from,
    when 0 <= from <= line.len()
{
    proof {
        first_standing_facts(line, stars(), from);
        reveal_strlit("**");
    }
    match first_standing(line, stars(), from) {
        None => plain(line, from, line.len() as int),
        Some(start) => {
            proof {
                first_standing_facts(line, stars(), start + 2);
            }
            match first_standing(line, stars(), start + 2) {
                None => plain(line, from, start) + plain(line, start, line.len() as int),
                Some(end) => plain(line, from, start) + seq![
                    SpanView { bold: true, text: line.subrange(start + 2, end) },
                ] + spans_from(line, end + 2),
            }
        },
    }
}

/// The spans of a line.
pub open spec fn spans_of(line: Seq<char>) -> Seq<SpanView> {
    spans_from(line, 0)
}

/// What a list of spans holds.
pub open spec fn span_views(spans: Seq<Span>) -> Seq<SpanView> {
    spans.map_values(|s: Span| s@)
}

fn push_plain(out: &mut Vec<Span>, v: &Vec<char>, from: usize, to: usize)
    requires
        from <= to <= v@.len(),
    ensures
        span_views(final(out)@) == span_views(old(out)@) + plain(v@, from as int, to as int),
{
    if from < to {
        out.push(Span { bold: false, text: slice_of(v, from, to) });
        assert(span_views(out@) =~= span_views(old(out)@) + plain(v@, from as int, to as int));
    } else {
        assert(span_views(out@) =~= span_views(old(out)@) + plain(v@, from as int, to as int));
    }
}

/// The spans of a line: what stands between two pairs of stars is bold.
pub fn spans(line: &str) -> (r: Vec<Span>)
    ensures
        span_views(r@) == spans_of(line@),
{
    let v: Vec<char> = chars_of(line);
    let stars: Vec<char> = chars_of("**");
    let size: usize = v.len();
    let mut out: Vec<Span> = Vec::new();
    let mut from: usize = 0;
    proof {
        reveal_strlit("**");
    }
    assert(span_views(out@) + spans_of(line@) =~= spans_of(line@));
    loop
        invariant
            v@ == line@,
            size == v@.len(),
            stars@ == self::stars(),
            stars@.len() == 2,
            0 <= from <= size,
            span_views(out@) + spans_from(line@, from as int) == spans_of(line@),
        decreases size - from,
    {
        let ghost before = span_views(out@);
        proof {
            first_standing_facts(v@, stars@, from as int);
        }
        match find_from(&v, &stars, from) {
            None => {
                push_plain(&mut out, &v, from, size);
                return out;
            },
            Some(start) => {
                push_plain(&mut out, &v, from, start);
                let ghost head = span_views(out@);
                proof {
                    first_standing_facts(v@, stars@, start + 2);
                }
                match find_from(&v, &stars, start + 2) {
                    None => {
                        push_plain(&mut out, &v, start, size);
                        assert(span_views(out@) =~= before + spans_from(line@, from as int));
                        return out;
                    },
                    Some(end) => {
                        out.push(Span { bold: true, text: slice_of(&v, start + 2, end) });
                        assert(span_views(out@) =~= head + seq![
                            SpanView { bold: true, text: v@.subrange(start + 2, end as int) },
                        ]);
                        assert(span_views(out@) + spans_from(line@, end + 2) =~= before
                            + spans_from(line@, from as int));
                        from = end + 2;
                    },
                }
            },
        }
    }
}

/// The markup of a list of spans.
pub open spec fn markup(spans: Seq<SpanView>) -> Seq<char>
    decreases spans.len(),
{
    if spans.len() == 0 {
        Seq::empty()
    } else {
        markup(spans.drop_last()) + (if spans.last().bold {
            stars() + spans.last().text + stars()
        } else {
            spans.last().text
        })
    }
}

proof fn markup_of_a_join(a: Seq<SpanView>, b: Seq<SpanView>)
    ensures
        markup(a + b) == markup(a) + markup(b),
    decreases b.len(),
{
    if b.len() == 0 {
        assert(a + b =~= a);
        assert(markup(a) + markup(b) =~= markup(a));
    } else {
        markup_of_a_join(a, b.drop_last());
        assert((a + b).drop_last() =~= a + b.drop_last());
        assert(markup(a + b) =~= markup(a) + markup(b));
    }
}

proof fn markup_of_plain(line: Seq<char>, from: int, to: int)
    requires
        0 <= from <= to <= line.len(),
    ensures
        markup(plain(line, from, to)) == line.subrange(from, to),
{
    let p = plain(line, from, to);
    if from < to {
        assert(p.drop_last() =~= Seq::<SpanView>::empty());
        assert(markup(p.drop_last()) == Seq::<char>::empty());
        assert(markup(p) =~= line.subrange(from, to));
    } else {
        assert(line.subrange(from, to) =~= Seq::<char>::empty());
    }
}

proof fn markup_reads_back_from(line: Seq<char>, from: int)
    requires
        0 <= from <= line.len(),
    ensures
        markup(spans_from(line, from)) == line.skip(from),
    decreases line.len() - from,
{
    let size = line.len() as int;
    reveal_strlit("**");
    first_standing_facts(line, stars(), from);
    match first_standing(line, stars(), from) {
        None => {
            markup_of_plain(line, from, size);
            assert(line.subrange(from, size) =~= line.skip(from));
        },
        Some(start) => {
            first_standing_facts(line, stars(), start + 2);
            markup_of_plain(line, from, start);
            match first_standing(line, stars(), start + 2) {
                None => {
                    markup_of_plain(line, start, size);
                    markup_of_a_join(plain(line, from, start), plain(line, start, size));
                    assert(line.subrange(from, start) + line.subrange(start, size) =~= line.skip(
                        from,
                    ));
                },
                Some(end) => {
                    let bold = seq![SpanView { bold: true, text: line.subrange(start + 2, end) }];
                    markup_reads_back_from(line, end + 2);
                    markup_of_a_join(plain(line, from, start), bold);
                    markup_of_a_join(
                        plain(line, from, start) + bold,
                        spans_from(line, end + 2),
                    );
                    assert(bold.drop_last() =~= Seq::<SpanView>::empty());
                    assert(markup(bold.drop_last()) == Seq::<char>::empty());
                    assert(markup(bold) =~= stars() + line.subrange(start + 2, end) + stars());
                    assert(line.subrange(from, start) + (stars() + line.subrange(start + 2, end)
                        + stars()) + line.skip(end + 2) =~= line.skip(from)) by {
                        assert(line.subrange(start, start + 2) == stars());
                        assert(line.subrange(end, end + 2) == stars());
                        assert forall|k: int| 0 <= k < 2 implies line[start + k] == stars()[k]
                            && line[end + k] == stars()[k] by {
                            assert(line.subrange(start, start + 2)[k] == line[start + k]);
                            assert(line.subrange(end, end + 2)[k] == line[end + k]);
                        }
                    }
                },
            }
        },
    }
}

/// Nothing of a line is lost: its spans, with stars round the bold ones, are
/// the line again.
pub proof fn spans_keep_the_text(line: Seq<char>)
    ensures
        markup(spans_of(line)) == line,
{
    markup_reads_back_from(line, 0);
    assert(line.skip(0) =~= line);
}

// ---------------------------------------------------------------------------
// Lines
// ---------------------------------------------------------------------------

/// One line of a section, as it is shown.
#[derive(Debug)]
pub enum Block {
    /// A gap.
    Gap,
    /// The name of a part.
    Strong(String),
    /// The name of a version.
    Heading(String),
    /// Text.
    Line(Vec<Span>),
}

/// What [`Block`] holds.
pub enum BlockView {
    Gap,
    Strong(Seq<char>),
    Heading(Seq<char>),
    Line(Seq<SpanView>),
}

impl View for Block {
    type V = BlockView;

    open spec fn view(&self) -> BlockView {
        match self {
            Block::Gap => BlockView::Gap,
            Block::Strong(s) => BlockView::Strong(s@),
            Block::Heading(s) => BlockView::Heading(s@),
            Block::Line(spans) => BlockView::Line(span_views(spans@)),
        }
    }
}

/// How a line is shown.
pub open spec fn block_of(line: Seq<char>) -> BlockView {
    let t = trimmed_by(line, Trimmed::White);
    if t.len() == 0 {
        BlockView::Gap
    } else if stands_at(t, "### "@, 0) {
        BlockView::Strong(t.skip(4))
    } else if stands_at(t, "## "@, 0) {
        BlockView::Heading(t.skip(3))
    } else if stands_at(t, "- "@, 0) {
        BlockView::Line(spans_of("  \u{2022} "@ + t.skip(2)))
    } else {
        BlockView::Line(spans_of(t))
    }
}

/// How the line in `[lo, hi)` is shown.
fn block_in(v: &Vec<char>, lo: usize, hi: usize) -> (b: Block)
    requires
        lo <= hi <= v@.len(),
    ensures
        b@ == block_of(v@.subrange(lo as int, hi as int)),
{
    let (a, z) = trim_range(v, lo, hi, Trimmed::White);
    if a >= z {
        return Block::Gap;
    }
    let t: Vec<char> = chars_of(&slice_of(v, a, z));
    proof {
        reveal_strlit("### ");
        reveal_strlit("## ");
        reveal_strlit("- ");
    }
    let size: usize = t.len();
    if matches_at(&t, &chars_of("### "), 0) {
        assert(t@.subrange(4, size as int) =~= t@.skip(4));
        Block::Strong(slice_of(&t, 4, size))
    } else if matches_at(&t, &chars_of("## "), 0) {
        assert(t@.subrange(3, size as int) =~= t@.skip(3));
        Block::Heading(slice_of(&t, 3, size))
    } else if matches_at(&t, &chars_of("- "), 0) {
        assert(t@.subrange(2, size as int) =~= t@.skip(2));
        Block::Line(spans(&join2("  \u{2022} ", &slice_of(&t, 2, size))))
    } else {
        assert(t@.subrange(0, size as int) =~= t@);
        Block::Line(spans(&slice_of(&t, 0, size)))
    }
}

/// How the lines of a text are shown. `line` is what was read since the last
/// line break. A line break at the end starts no further line.
pub open spec fn blocks_from(rest: Seq<char>, line: Seq<char>) -> Seq<BlockView>
    decreases rest.len(),
{
    if rest.len() == 0 {
        if line.len() > 0 {
            seq![block_of(line)]
        } else {
            Seq::empty()
        }
    } else if rest[0] == '\n' {
        seq![block_of(line)] + blocks_from(rest.drop_first(), Seq::empty())
    } else {
        blocks_from(rest.drop_first(), line.push(rest[0]))
    }
}

/// What a list of blocks holds.
pub open spec fn block_views(blocks: Seq<Block>) -> Seq<BlockView> {
    blocks.map_values(|b: Block| b@)
}

/// How the lines of a text are shown.
pub fn blocks(text: &str) -> (r: Vec<Block>)
    ensures
        block_views(r@) == blocks_from(text@, Seq::empty()),
{
    let v: Vec<char> = chars_of(text);
    let mut out: Vec<Block> = Vec::new();
    let mut lo: usize = 0;
    let mut i: usize = 0;
    let ghost all = blocks_from(text@, Seq::empty());
    assert(v@.skip(0) =~= v@);
    assert(v@.subrange(0, 0) =~= Seq::<char>::empty());
    assert(block_views(out@) + all =~= all);
    while i < v.len()
        invariant
            0 <= lo <= i <= v@.len(),
            all == block_views(out@) + blocks_from(
                v@.skip(i as int),
                v@.subrange(lo as int, i as int),
            ),
        decreases v@.len() - i,
    {
        let ghost rest = v@.skip(i as int);
        let ghost line = v@.subrange(lo as int, i as int);
        assert(rest.drop_first() =~= v@.skip(i + 1));
        if v[i] == '\n' {
            let ghost before = block_views(out@);
            out.push(block_in(&v, lo, i));
            assert(block_views(out@) =~= before + seq![block_of(line)]);
            lo = i + 1;
            assert(v@.subrange(i + 1, i + 1) =~= Seq::<char>::empty());
            let ghost tail = blocks_from(rest.drop_first(), Seq::empty());
            assert(before + (seq![block_of(line)] + tail) =~= block_views(out@) + tail);
        } else {
            assert(v@.subrange(lo as int, i + 1) =~= line.push(v@[i as int]));
        }
        i += 1;
    }
    let ghost before = block_views(out@);
    assert(v@.skip(i as int) =~= Seq::<char>::empty());
    if lo < i {
        out.push(block_in(&v, lo, i));
        assert(block_views(out@) =~= all);
    } else {
        assert(before =~= all);
    }
    out
}

/// What is shown of a version: its section, line by line.
pub fn changes(text: &str, version: &str) -> (r: Vec<Block>)
    ensures
        block_views(r@) == blocks_from(section_of(text@, version@), Seq::empty()),
{
    blocks(&section(text, version))
}

} // verus!
