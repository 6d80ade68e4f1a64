//! Finding cookies in pasted text and in a browser's files.

use vstd::prelude::*;

use vstd::string::*;
use vstd::utf8::encode_utf8;

use crate::lists::texts_of;
use crate::text::{
    a_trim_leaves_the_longest_part, chars_of, find_from, first_standing, first_standing_facts,
    is_longest_part, is_white, slice_of, stands_at, trim_keeps_only_its_text,
    trim_leaves_clean_ends, trim_range, trimmed_back, trimmed_by, trimmed_front, Trimmed,
};

verus! {

/// The characters between two cookies of a pasted list: lists by line,
/// comma-separated and tab-separated ones all work.
pub open spec fn separates(c: char) -> bool {
    c == '\n' || c == '\r' || c == ',' || c == ';' || c == '\t'
}

fn is_separator(c: char) -> (b: bool)
    ensures
        b == separates(c),
{
    c == '\n' || c == '\r' || c == ',' || c == ';' || c == '\t'
}

/// A piece of a pasted list without the white space and the quotes around it,
/// in whatever order they stand.
pub open spec fn cleaned(piece: Seq<char>) -> Seq<char> {
    trimmed_by(piece, Trimmed::WhiteOrQuote)
}

/// The cookies of a pasted list. `piece` is what was read since the last
/// separator.
pub open spec fn cookies_from(rest: Seq<char>, piece: Seq<char>) -> Seq<Seq<char>>
    decreases rest.len(),
{
    let here = if cleaned(piece).len() > 0 {
        seq![cleaned(piece)]
    } else {
        Seq::<Seq<char>>::empty()
    };
    if rest.len() == 0 {
        here
    } else if separates(rest[0]) {
        here + cookies_from(rest.drop_first(), Seq::empty())
    } else {
        cookies_from(rest.drop_first(), piece.push(rest[0]))
    }
}

/// The cookies of a pasted list.
pub open spec fn bulk_cookies(input: Seq<char>) -> Seq<Seq<char>> {
    cookies_from(input, Seq::empty())
}

/// What is left of the piece in `[lo, hi)`, if anything.
fn clean_piece(v: &Vec<char>, lo: usize, hi: usize) -> (r: Option<String>)
    requires
        lo <= hi <= v@.len(),
    ensures
        match r {
            Some(s) => s@ == cleaned(v@.subrange(lo as int, hi as int)) && s@.len() > 0,
            None => cleaned(v@.subrange(lo as int, hi as int)).len() == 0,
        },
{
    let (a, b) = trim_range(v, lo, hi, Trimmed::WhiteOrQuote);
    if a < b {
        Some(slice_of(v, a, b))
    } else {
        None
    }
}

/// Reads a pasted list of cookies.
pub fn parse_bulk_cookies(input: &str) -> (r: Vec<String>)
    ensures
        texts_of(r@) == bulk_cookies(input@),
{
    let v: Vec<char> = chars_of(input);
    let mut out: Vec<String> = Vec::new();
    let mut lo: usize = 0;
    let mut i: usize = 0;
    assert(v@.skip(0) =~= v@);
    assert(v@.subrange(0, 0) =~= Seq::<char>::empty());
    assert(texts_of(out@) =~= Seq::<Seq<char>>::empty());
    assert(texts_of(out@) + bulk_cookies(input@) =~= bulk_cookies(input@));
    while i < v.len()
        invariant
            v@ == input@,
            0 <= lo <= i <= v@.len(),
            bulk_cookies(input@) == texts_of(out@) + cookies_from(
                v@.skip(i as int),
                v@.subrange(lo as int, i as int),
            ),
        decreases v@.len() - i,
    {
        let ghost rest = v@.skip(i as int);
        let ghost piece = v@.subrange(lo as int, i as int);
        assert(rest.drop_first() =~= v@.skip(i + 1));
        if is_separator(v[i]) {
            let ghost before = out@;
            match clean_piece(&v, lo, i) {
                Some(s) => {
                    out.push(s);
                    assert(texts_of(out@) =~= texts_of(before) + seq![cleaned(piece)]);
                },
                None => {},
            }
            lo = i + 1;
            assert(v@.subrange(i + 1, i + 1) =~= Seq::<char>::empty());
            proof {
                let tail = cookies_from(rest.drop_first(), Seq::empty());
                if cleaned(piece).len() > 0 {
                    assert(texts_of(before) + (seq![cleaned(piece)] + tail) =~= texts_of(out@) + tail);
                } else {
                    assert(Seq::<Seq<char>>::empty() + tail =~= tail);
                }
            }
        } else {
            assert(v@.subrange(lo as int, i + 1) =~= piece.push(v@[i as int]));
        }
        i += 1;
    }
    let ghost before = out@;
    let ghost piece = v@.subrange(lo as int, v@.len() as int);
    assert(v@.skip(i as int) =~= Seq::<char>::empty());
    match clean_piece(&v, lo, v.len()) {
        Some(s) => {
            out.push(s);
            assert(texts_of(out@) =~= texts_of(before) + seq![cleaned(piece)]);
        },
        None => {
            assert(texts_of(out@) =~= texts_of(before) + Seq::<Seq<char>>::empty());
        },
    }
    out
}

/// Every cookie of a pasted list is non-empty and holds no separator.
pub proof fn cookies_are_whole(rest: Seq<char>, piece: Seq<char>, i: int)
    requires
        forall|k: int| 0 <= k < piece.len() ==> !separates(#[trigger] piece[k]),
        0 <= i < cookies_from(rest, piece).len(),
    ensures
        cookies_from(rest, piece)[i].len() > 0,
        forall|k: int|
            0 <= k < cookies_from(rest, piece)[i].len() ==> !separates(
                #[trigger] cookies_from(rest, piece)[i][k],
            ),
    decreases rest.len(),
{
    let here = if cleaned(piece).len() > 0 {
        seq![cleaned(piece)]
    } else {
        Seq::<Seq<char>>::empty()
    };
    cleaning_adds_nothing(piece);
    if rest.len() == 0 {
    } else if separates(rest[0]) {
        if i >= here.len() {
            cookies_are_whole(rest.drop_first(), Seq::empty(), i - here.len());
            assert(cookies_from(rest, piece)[i] == cookies_from(
                rest.drop_first(),
                Seq::empty(),
            )[i - here.len()]);
        }
    } else {
        let grown = piece.push(rest[0]);
        assert forall|k: int| 0 <= k < grown.len() implies !separates(#[trigger] grown[k]) by {
            if k < piece.len() {
                assert(grown[k] == piece[k]);
            }
        }
        cookies_are_whole(rest.drop_first(), grown, i);
    }
}

proof fn cleaning_adds_nothing(piece: Seq<char>)
    requires
        forall|k: int| 0 <= k < piece.len() ==> !separates(#[trigger] piece[k]),
    ensures
        forall|k: int| 0 <= k < cleaned(piece).len() ==> !separates(#[trigger] cleaned(piece)[k]),
{
    trim_keeps_only_its_text(piece, Trimmed::WhiteOrQuote);
    assert forall|k: int| 0 <= k < cleaned(piece).len() implies !separates(
        #[trigger] cleaned(piece)[k],
    ) by {
        assert(piece.contains(cleaned(piece)[k]));
    }
}

/// What is left of a piece is its longest part that neither starts nor ends
/// with white space or a quote.
pub proof fn a_cookie_is_the_longest_clean_part(piece: Seq<char>)
    ensures
        exists|a: int, b: int| #[trigger]
            is_longest_part(piece, Trimmed::WhiteOrQuote, a, b) && cleaned(piece)
                == piece.subrange(a, b),
        cleaned(piece).len() > 0 ==> ({
            let (first, last) = (cleaned(piece)[0], cleaned(piece).last());
            !is_white(first) && first != '"' && !is_white(last) && last != '"'
        }),
{
    a_trim_leaves_the_longest_part(piece, Trimmed::WhiteOrQuote);
    trim_leaves_clean_ends(piece, Trimmed::WhiteOrQuote);
}

// ---------------------------------------------------------------------------
// A cookie in the middle of something else
// ---------------------------------------------------------------------------

/// The characters that end a cookie in a browser's files.
pub open spec fn ends_cookie(c: char) -> bool {
    ||| c == ' ' || c == '\t' || c == '\n' || c == '\r' || c == '\u{c}'
    ||| c == ';' || c == '"' || c == '\'' || c == '\\' || c == '\0'
}

fn is_end(c: char) -> (b: bool)
    ensures
        b == ends_cookie(c),
{
    c == ' ' || c == '\t' || c == '\n' || c == '\r' || c == '\u{c}' || c == ';' || c == '"' || c
        == '\'' || c == '\\' || c == '\0'
}

/// What every Roblox cookie starts with.
pub open spec fn marker() -> Seq<char> {
    "_|WARNING:-DO-NOT-SHARE-THIS!"@
}

/// The text up to the first character that ends a cookie.
pub open spec fn up_to_end(s: Seq<char>) -> Seq<char>
    decreases s.len(),
{
    if s.len() == 0 || ends_cookie(s[0]) {
        Seq::empty()
    } else {
        seq![s[0]] + up_to_end(s.drop_first())
    }
}

/// The shortest text that can be a cookie has one byte more than this.
pub const SHORTEST_COOKIE: usize = 50;

/// The cookie in a text, if there is one: from the first marker to the first
/// character that ends it, long enough to be one.
pub open spec fn cookie_in(text: Seq<char>) -> Option<Seq<char>> {
    match first_standing(text, marker(), 0) {
        Some(pos) => {
            let cookie = trimmed_by(up_to_end(text.skip(pos)), Trimmed::White);
            if encode_utf8(cookie).len() > SHORTEST_COOKIE {
                Some(cookie)
            } else {
                None
            }
        },
        None => None,
    }
}

/// How long the text from `pos` to the first character that ends a cookie is.
pub fn cookie_length(v: &Vec<char>, pos: usize) -> (n: usize)
    requires
        pos <= v@.len(),
    ensures
        pos + n <= v@.len(),
        v@.subrange(pos as int, pos + n) == up_to_end(v@.skip(pos as int)),
        n == up_to_end(v@.skip(pos as int)).len(),
{
    let ghost rest = v@.skip(pos as int);
    let mut end: usize = pos;
    assert(v@.subrange(pos as int, end as int) + up_to_end(v@.skip(end as int)) =~= up_to_end(
        rest,
    ));
    while end < v.len() && !is_end(v[end])
        invariant
            pos <= end <= v@.len(),
            rest == v@.skip(pos as int),
            v@.subrange(pos as int, end as int) + up_to_end(v@.skip(end as int)) == up_to_end(
                rest,
            ),
        decreases v@.len() - end,
    {
        assert(v@.skip(end as int).drop_first() =~= v@.skip(end + 1));
        assert(v@.subrange(pos as int, end + 1) + up_to_end(v@.skip(end + 1)) =~= v@.subrange(
            pos as int,
            end as int,
        ) + up_to_end(v@.skip(end as int)));
        end += 1;
    }
    assert(up_to_end(v@.skip(end as int)) =~= Seq::<char>::empty());
    assert(v@.subrange(pos as int, end as int) =~= up_to_end(rest));
    end - pos
}

/// The cookie in a text, if there is one.
pub fn extract_cookie_from_text(text: &str) -> (r: Option<String>)
    ensures
        match r {
            Some(s) => cookie_in(text@) == Some(s@),
            None => cookie_in(text@) is None,
        },
{
    let v: Vec<char> = chars_of(text);
    let m: Vec<char> = chars_of("_|WARNING:-DO-NOT-SHARE-THIS!");
    match find_from(&v, &m, 0) {
        None => None,
        Some(pos) => {
            let end: usize = pos + cookie_length(&v, pos);
            let (a, b) = trim_range(&v, pos, end, Trimmed::White);
            let cookie: String = slice_of(&v, a, b);
            if cookie.as_str().as_bytes().len() > SHORTEST_COOKIE {
                Some(cookie)
            } else {
                None
            }
        },
    }
}

/// The text up to the first character that ends a cookie is a beginning of the
/// text without such a character.
pub proof fn up_to_end_is_clean(s: Seq<char>)
    ensures
        up_to_end(s).len() <= s.len(),
        forall|i: int|
            0 <= i < up_to_end(s).len() ==> !ends_cookie(#[trigger] up_to_end(s)[i])
                && up_to_end(s)[i] == s[i],
    decreases s.len(),
{
    if s.len() > 0 && !ends_cookie(s[0]) {
        let rest = s.drop_first();
        up_to_end_is_clean(rest);
        assert forall|i: int| 0 <= i < up_to_end(s).len() implies !ends_cookie(
            #[trigger] up_to_end(s)[i],
        ) && up_to_end(s)[i] == s[i] by {
            if i > 0 {
                assert(up_to_end(s)[i] == up_to_end(rest)[i - 1]);
                assert(rest[i - 1] == s[i]);
            }
        }
    }
}

/// A cookie that is found holds nothing that would end it: no white space, no
/// quote, no backslash.
pub proof fn a_found_cookie_is_unbroken(text: Seq<char>)
    requires
        cookie_in(text) is Some,
    ensures
        forall|i: int|
            0 <= i < cookie_in(text)->Some_0.len() ==> !ends_cookie(
                #[trigger] cookie_in(text)->Some_0[i],
            ),
{
    let pos = first_standing(text, marker(), 0)->Some_0;
    let raw = up_to_end(text.skip(pos));
    up_to_end_is_clean(text.skip(pos));
    trim_keeps_only_its_text(raw, Trimmed::White);
    let cookie = cookie_in(text)->Some_0;
    assert forall|i: int| 0 <= i < cookie.len() implies !ends_cookie(#[trigger] cookie[i]) by {
        assert(raw.contains(cookie[i]));
        let k = choose|k: int| 0 <= k < raw.len() && raw[k] == cookie[i];
        assert(!ends_cookie(raw[k]));
    }
}

proof fn up_to_end_goes_on(s: Seq<char>, k: int)
    requires
        0 <= k <= s.len(),
        forall|i: int| 0 <= i < k ==> !ends_cookie(#[trigger] s[i]),
    ensures
        up_to_end(s).len() >= k,
    decreases k,
{
    if k > 0 {
        let rest = s.drop_first();
        assert forall|i: int| 0 <= i < k - 1 implies !ends_cookie(#[trigger] rest[i]) by {
            assert(rest[i] == s[i + 1]);
        }
        up_to_end_goes_on(rest, k - 1);
        assert(!ends_cookie(s[0]));
    }
}

proof fn trimming_keeps_a_start(s: Seq<char>, k: int)
    requires
        0 < k <= s.len(),
        !Trimmed::White.takes(s[k - 1]),
    ensures
        k <= trimmed_back(s, Trimmed::White).len() <= s.len(),
        trimmed_back(s, Trimmed::White) == s.take(
            trimmed_back(s, Trimmed::White).len() as int,
        ),
    decreases s.len(),
{
    if Trimmed::White.takes(s.last()) {
        let front = s.drop_last();
        trimming_keeps_a_start(front, k);
        let n = trimmed_back(front, Trimmed::White).len() as int;
        assert(front.take(n) =~= s.take(n));
    } else {
        assert(s.take(s.len() as int) =~= s);
    }
}

/// A cookie that is found starts with the marker.
pub proof fn a_found_cookie_starts_with_the_marker(text: Seq<char>)
    requires
        cookie_in(text) is Some,
    ensures
        stands_at(cookie_in(text)->Some_0, marker(), 0),
{
    let m = marker();
    let pos = first_standing(text, m, 0)->Some_0;
    first_standing_facts(text, m, 0);
    let rest = text.skip(pos);
    let raw = up_to_end(rest);
    let size = m.len() as int;
    reveal_strlit("_|WARNING:-DO-NOT-SHARE-THIS!");
    assert(rest.subrange(0, size) =~= text.subrange(pos, pos + size));
    assert forall|i: int| 0 <= i < size implies !ends_cookie(#[trigger] rest[i]) by {
        assert(rest.subrange(0, size)[i] == m[i]);
    }
    up_to_end_goes_on(rest, size);
    up_to_end_is_clean(rest);
    assert(raw[0] == m[0] && raw[size - 1] == m[size - 1]) by {
        assert(rest.subrange(0, size)[0] == m[0]);
        assert(rest.subrange(0, size)[size - 1] == m[size - 1]);
    }
    assert(trimmed_front(raw, Trimmed::White) == raw);
    trimming_keeps_a_start(raw, size);
    let cookie = cookie_in(text)->Some_0;
    assert(cookie.subrange(0, size) =~= m) by {
        assert forall|i: int| 0 <= i < size implies cookie[i] == m[i] by {
            assert(cookie == trimmed_back(raw, Trimmed::White));
            assert(cookie[i] == raw[i]);
            assert(rest.subrange(0, size)[i] == m[i]);
        }
    }
}

} // verus!
