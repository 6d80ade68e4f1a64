//! Text helpers: decimal numerals, trimming, searching, splitting, ordering.

use vstd::prelude::*;

verus! {

// ---------------------------------------------------------------------------
// Characters and strings
// ---------------------------------------------------------------------------

/// Appends one character, as `String::push` does.
#[verifier::external_body]
pub(crate) fn push_char(s: &mut String, c: char)
    ensures
        final(s)@ == old(s)@.push(c),
{
    s.push(c)
}

/// The text as a vector of its characters.
pub fn chars_of(s: &str) -> (v: Vec<char>)
    ensures
        v@ == s@,
{
    let mut v: Vec<char> = Vec::new();
    for c in it: s.chars()
        invariant
            v@ == s@.subrange(0, it.index()),
            it.seq() == s@,
    {
        v.push(c);
        assert(v@ =~= s@.subrange(0, it.index() + 1));
    }
    assert(s@.subrange(0, s@.len() as int) =~= s@);
    v
}

/// The characters in `[from, to)` as a string.
pub fn slice_of(v: &Vec<char>, from: usize, to: usize) -> (s: String)
    requires
        from <= to <= v@.len(),
    ensures
        s@ == v@.subrange(from as int, to as int),
{
    let mut s: String = String::new();
    let mut i: usize = from;
    while i < to
        invariant
            from <= i <= to <= v@.len(),
            s@ == v@.subrange(from as int, i as int),
        decreases to - i,
    {
        push_char(&mut s, v[i]);
        i += 1;
        assert(s@ =~= v@.subrange(from as int, i as int));
    }
    s
}

/// The text of an option.
pub open spec fn opt_text(o: Option<String>) -> Option<Seq<char>> {
    match o {
        Some(s) => Some(s@),
        None => None,
    }
}

/// `String::from_utf8_lossy`: the bytes as text, with the replacement character
/// for what is no text.
pub uninterp spec fn lossy_text(bytes: Seq<u8>) -> Seq<char>;

/// `String::from_utf8_lossy`. Nothing is claimed of it beyond that it depends
/// on the bytes alone.
#[verifier::external_body]
pub(crate) fn lossy(bytes: &Vec<u8>) -> (r: String)
    ensures
        r@ == lossy_text(bytes@),
{
    String::from_utf8_lossy(bytes).into_owned()
}

/// Whether two texts are the same.
pub fn same(a: &str, b: &str) -> (r: bool)
    ensures
        r == (a@ == b@),
{
    a.to_owned() == b.to_owned()
}

/// Two texts joined.
pub fn join2(a: &str, b: &str) -> (s: String)
    ensures
        s@ == a@ + b@,
{
    let mut s: String = a.to_owned();
    s.append(b);
    s
}

/// Three texts joined.
pub fn join3(a: &str, b: &str, c: &str) -> (s: String)
    ensures
        s@ == a@ + b@ + c@,
{
    let mut s: String = a.to_owned();
    s.append(b);
    s.append(c);
    s
}

// ---------------------------------------------------------------------------
// Decimal numerals
// ---------------------------------------------------------------------------

/// The digit character of `d`, for `d` below ten.
pub open spec fn digit(d: nat) -> char {
    (48 + d) as char
}

/// `n` written in base ten, without leading zeros.
pub open spec fn decimal(n: nat) -> Seq<char>
    decreases n,
{
    if n < 10 {
        seq![digit(n)]
    } else {
        decimal(n / 10).push(digit(n % 10))
    }
}

/// The value a sequence of digits stands for.
pub open spec fn numeral_value(s: Seq<char>) -> int
    decreases s.len(),
{
    if s.len() == 0 {
        0
    } else {
        numeral_value(s.drop_last()) * 10 + (s.last() as int - 48)
    }
}

/// Whether every character is an ASCII digit.
pub open spec fn all_digits(s: Seq<char>) -> bool {
    forall|i: int| 0 <= i < s.len() ==> '0' <= #[trigger] s[i] <= '9'
}

fn digit_char(d: u64) -> (c: char)
    requires
        d < 10,
    ensures
        c == digit(d as nat),
{
    (48u8 + d as u8) as char
}

/// `n` in base ten.
pub fn decimal_of(n: u64) -> (s: String)
    ensures
        s@ == decimal(n as nat),
    decreases n,
{
    if n < 10 {
        let mut s: String = String::new();
        push_char(&mut s, digit_char(n));
        assert(s@ =~= seq![digit(n as nat)]);
        s
    } else {
        let mut s: String = decimal_of(n / 10);
        push_char(&mut s, digit_char(n % 10));
        s
    }
}

/// Every decimal numeral is a non-empty run of digits that reads back as the
/// number it was written from.
pub proof fn decimal_reads_back(n: nat)
    ensures
        decimal(n).len() > 0,
        all_digits(decimal(n)),
        numeral_value(decimal(n)) == n,
    decreases n,
{
    if n < 10 {
        let s = decimal(n);
        assert(s.drop_last() =~= Seq::<char>::empty());
        assert(numeral_value(s.drop_last()) == 0);
    } else {
        decimal_reads_back(n / 10);
        let s = decimal(n);
        assert(s.drop_last() =~= decimal(n / 10));
    }
}

/// What reading a text as an unsigned 64-bit number gives: an optional `+`,
/// then one or more digits whose value fits.
pub open spec fn parsed_u64(s: Seq<char>) -> Option<u64> {
    let digits = if s.len() > 0 && s[0] == '+' { s.drop_first() } else { s };
    if digits.len() > 0 && all_digits(digits) && numeral_value(digits) <= u64::MAX {
        Some(numeral_value(digits) as u64)
    } else {
        None
    }
}

proof fn numeral_value_grows(s: Seq<char>, k: int)
    requires
        all_digits(s),
        0 <= k <= s.len(),
    ensures
        0 <= numeral_value(s.take(k)) <= numeral_value(s),
    decreases s.len(),
{
    if k == s.len() {
        assert(s.take(k) =~= s);
        if s.len() > 0 {
            assert(all_digits(s.drop_last()));
            numeral_value_grows(s.drop_last(), s.len() - 1);
            assert(s.drop_last().take(s.len() - 1) =~= s.drop_last());
        }
    } else {
        assert(all_digits(s.drop_last()));
        numeral_value_grows(s.drop_last(), k);
        assert(s.drop_last().take(k) =~= s.take(k));
    }
}

/// Reads an unsigned 64-bit number, accepting what [`parsed_u64`] accepts.
pub fn parse_u64(s: &str) -> (r: Option<u64>)
    ensures
        r == parsed_u64(s@),
{
    let v: Vec<char> = chars_of(s);
    let start: usize = if v.len() > 0 && v[0] == '+' { 1 } else { 0 };
    let ghost digits = if v@.len() > 0 && v@[0] == '+' { v@.drop_first() } else { v@ };
    assert(digits =~= v@.subrange(start as int, v@.len() as int));
    if start == v.len() {
        return None;
    }
    let mut total: u64 = 0;
    let mut i: usize = start;
    while i < v.len()
        invariant
            start <= i <= v@.len(),
            digits =~= v@.subrange(start as int, v@.len() as int),
            digits == (if v@.len() > 0 && v@[0] == '+' { v@.drop_first() } else { v@ }),
            v@ == s@,
            all_digits(digits.take(i - start)),
            total == numeral_value(digits.take(i - start)),
        decreases v@.len() - i,
    {
        let c: char = v[i];
        assert(digits[i - start] == c);
        if c < '0' || c > '9' {
            assert(!all_digits(digits));
            return None;
        }
        let d: u64 = (c as u32 - 48) as u64;
        assert(digits.take(i - start + 1).drop_last() =~= digits.take(i - start));
        assert(numeral_value(digits.take(i - start + 1)) == total * 10 + d);
        if total > u64::MAX / 10 || total * 10 > u64::MAX - d {
            proof {
                if all_digits(digits) {
                    numeral_value_grows(digits, i - start + 1);
                }
            }
            return None;
        }
        total = total * 10 + d;
        i += 1;
    }
    assert(digits.take(v@.len() - start) =~= digits);
    Some(total)
}

// ---------------------------------------------------------------------------
// Trimming
// ---------------------------------------------------------------------------

/// The characters that a trim takes off either end.
#[derive(Clone, Copy, PartialEq, Eq, Structural)]
pub enum Trimmed {
    /// Characters with the Unicode property White_Space.
    White,
    /// White space and double quotes.
    WhiteOrQuote,
}

/// The Unicode property White_Space.
pub open spec fn is_white(c: char) -> bool {
    ||| '\u{9}' <= c <= '\u{d}'
    ||| c == ' '
    ||| c == '\u{85}'
    ||| c == '\u{a0}'
    ||| c == '\u{1680}'
    ||| '\u{2000}' <= c <= '\u{200a}'
    ||| c == '\u{2028}'
    ||| c == '\u{2029}'
    ||| c == '\u{202f}'
    ||| c == '\u{205f}'
    ||| c == '\u{3000}'
}

impl Trimmed {
    /// Whether a trim of this sort takes `c` off.
    pub open spec fn takes(self, c: char) -> bool {
        match self {
            Trimmed::White => is_white(c),
            Trimmed::WhiteOrQuote => is_white(c) || c == '"',
        }
    }
}

/// Whether `c` has the Unicode property White_Space.
pub fn white(c: char) -> (b: bool)
    ensures
        b == is_white(c),
{
    ('\u{9}' <= c && c <= '\u{d}') || c == ' ' || c == '\u{85}' || c == '\u{a0}' || c == '\u{1680}'
        || ('\u{2000}' <= c && c <= '\u{200a}') || c == '\u{2028}' || c == '\u{2029}'
        || c == '\u{202f}' || c == '\u{205f}' || c == '\u{3000}'
}

fn takes(what: Trimmed, c: char) -> (b: bool)
    ensures
        b == what.takes(c),
{
    match what {
        Trimmed::White => white(c),
        Trimmed::WhiteOrQuote => white(c) || c == '"',
    }
}

/// `s` without the leading characters that `what` takes.
pub open spec fn trimmed_front(s: Seq<char>, what: Trimmed) -> Seq<char>
    decreases s.len(),
{
    if s.len() > 0 && what.takes(s[0]) {
        trimmed_front(s.drop_first(), what)
    } else {
        s
    }
}

/// `s` without the trailing characters that `what` takes.
pub open spec fn trimmed_back(s: Seq<char>, what: Trimmed) -> Seq<char>
    decreases s.len(),
{
    if s.len() > 0 && what.takes(s.last()) {
        trimmed_back(s.drop_last(), what)
    } else {
        s
    }
}

/// `s` without the characters that `what` takes, at both ends.
pub open spec fn trimmed_by(s: Seq<char>, what: Trimmed) -> Seq<char> {
    trimmed_back(trimmed_front(s, what), what)
}

/// `s` without surrounding white space.
pub open spec fn trimmed(s: Seq<char>) -> Seq<char> {
    trimmed_by(s, Trimmed::White)
}

/// The bounds that are left of `[lo, hi)` after a trim.
pub fn trim_range(v: &Vec<char>, lo: usize, hi: usize, what: Trimmed) -> (r: (usize, usize))
    requires
        lo <= hi <= v@.len(),
    ensures
        lo <= r.0 <= r.1 <= hi,
        v@.subrange(r.0 as int, r.1 as int) == trimmed_by(
            v@.subrange(lo as int, hi as int),
            what,
        ),
{
    let ghost whole = v@.subrange(lo as int, hi as int);
    let mut a: usize = lo;
    while a < hi && takes(what, v[a])
        invariant
            lo <= a <= hi <= v@.len(),
            whole == v@.subrange(lo as int, hi as int),
            trimmed_front(whole, what) == trimmed_front(v@.subrange(a as int, hi as int), what),
        decreases hi - a,
    {
        assert(v@.subrange(a as int, hi as int).drop_first() =~= v@.subrange(
            a as int + 1,
            hi as int,
        ));
        a += 1;
    }
    let ghost front = trimmed_front(whole, what);
    assert(front == v@.subrange(a as int, hi as int));
    let mut b: usize = hi;
    while a < b && takes(what, v[b - 1])
        invariant
            lo <= a <= b <= hi <= v@.len(),
            front == v@.subrange(a as int, hi as int),
            trimmed_back(front, what) == trimmed_back(v@.subrange(a as int, b as int), what),
        decreases b - a,
    {
        assert(v@.subrange(a as int, b as int).drop_last() =~= v@.subrange(a as int, b as int - 1));
        b -= 1;
    }
    (a, b)
}

/// `s` without surrounding white space.
pub fn trim(s: &str) -> (r: String)
    ensures
        r@ == trimmed(s@),
{
    let v: Vec<char> = chars_of(s);
    let (a, b) = trim_range(&v, 0, v.len(), Trimmed::White);
    assert(v@.subrange(0, v@.len() as int) =~= v@);
    slice_of(&v, a, b)
}

/// A trim never leaves a character of its sort at either end, and what it
/// leaves is a part of the text.
pub proof fn trim_leaves_clean_ends(s: Seq<char>, what: Trimmed)
    ensures
        trimmed_by(s, what).len() <= s.len(),
        trimmed_by(s, what).len() > 0 ==> !what.takes(trimmed_by(s, what)[0]) && !what.takes(
            trimmed_by(s, what).last(),
        ),
{
    trimmed_front_facts(s, what);
    trimmed_back_facts(trimmed_front(s, what), what);
}

proof fn trimmed_front_facts(s: Seq<char>, what: Trimmed)
    ensures
        trimmed_front(s, what).len() <= s.len(),
        trimmed_front(s, what).len() > 0 ==> !what.takes(trimmed_front(s, what)[0]),
        forall|i: int|
            0 <= i < trimmed_front(s, what).len() ==> s.contains(#[trigger] trimmed_front(s, what)[i]),
    decreases s.len(),
{
    if s.len() > 0 && what.takes(s[0]) {
        trimmed_front_facts(s.drop_first(), what);
        assert forall|i: int| 0 <= i < trimmed_front(s, what).len() implies s.contains(
            #[trigger] trimmed_front(s, what)[i],
        ) by {
            let c = trimmed_front(s.drop_first(), what)[i];
            let j = choose|j: int| 0 <= j < s.drop_first().len() && s.drop_first()[j] == c;
            assert(s[j + 1] == c);
        }
    } else {
        assert forall|i: int| 0 <= i < s.len() implies s.contains(#[trigger] s[i]) by {}
    }
}

proof fn trimmed_back_facts(s: Seq<char>, what: Trimmed)
    ensures
        trimmed_back(s, what).len() <= s.len(),
        trimmed_back(s, what).len() > 0 ==> trimmed_back(s, what)[0] == s[0] && !what.takes(
            trimmed_back(s, what).last(),
        ),
        forall|i: int|
            0 <= i < trimmed_back(s, what).len() ==> #[trigger] trimmed_back(s, what)[i] == s[i],
    decreases s.len(),
{
    if s.len() > 0 && what.takes(s.last()) {
        trimmed_back_facts(s.drop_last(), what);
    }
}

proof fn front_bound(s: Seq<char>, what: Trimmed) -> (a: int)
    ensures
        0 <= a <= s.len(),
        trimmed_front(s, what) == s.skip(a),
        forall|k: int| 0 <= k < a ==> what.takes(#[trigger] s[k]),
    decreases s.len(),
{
    if s.len() > 0 && what.takes(s[0]) {
        let rest = s.drop_first();
        let b = front_bound(rest, what);
        assert(rest.skip(b) =~= s.skip(b + 1));
        assert forall|k: int| 0 <= k < b + 1 implies what.takes(#[trigger] s[k]) by {
            if k > 0 {
                assert(s[k] == rest[k - 1]);
            }
        }
        b + 1
    } else {
        assert(s.skip(0) =~= s);
        0
    }
}

proof fn back_bound(s: Seq<char>, what: Trimmed) -> (b: int)
    ensures
        0 <= b <= s.len(),
        trimmed_back(s, what) == s.take(b),
        forall|k: int| b <= k < s.len() ==> what.takes(#[trigger] s[k]),
    decreases s.len(),
{
    if s.len() > 0 && what.takes(s.last()) {
        let rest = s.drop_last();
        let b = back_bound(rest, what);
        assert(rest.take(b) =~= s.take(b));
        assert forall|k: int| b <= k < s.len() implies what.takes(#[trigger] s[k]) by {
            if k < s.len() - 1 {
                assert(s[k] == rest[k]);
            }
        }
        b
    } else {
        assert(s.take(s.len() as int) =~= s);
        s.len() as int
    }
}

/// A trim leaves one part of the text, and every part whose ends it would not
/// take lies in there: no longer part has clean ends.
pub proof fn a_trim_leaves_the_longest_part(s: Seq<char>, what: Trimmed)
    ensures
        exists|a: int, b: int| #[trigger]
            is_longest_part(s, what, a, b) && trimmed_by(s, what) == s.subrange(a, b),
{
    let a = front_bound(s, what);
    let front = s.skip(a);
    let n = back_bound(front, what);
    assert(front.take(n) =~= s.subrange(a, a + n));
    trim_leaves_clean_ends(s, what);
    let left = s.subrange(a, a + n);
    assert forall|i: int, j: int|
        0 <= i < j <= s.len() && !what.takes(#[trigger] s[i]) && !what.takes(
            #[trigger] s[j - 1],
        ) implies a <= i && j <= a + n by {
        if j > a + n {
            assert(s[j - 1] == front[j - 1 - a]);
        }
    }
    if n > 0 {
        assert(left[0] == s[a] && left.last() == s[a + n - 1]);
    }
    assert(is_longest_part(s, what, a, a + n));
}

/// Whether the part in `[a, b)` has ends that a trim would not take, and holds
/// every other part that has such ends.
pub open spec fn is_longest_part(s: Seq<char>, what: Trimmed, a: int, b: int) -> bool {
    &&& 0 <= a <= b <= s.len()
    &&& a < b ==> !what.takes(s[a]) && !what.takes(s[b - 1])
    &&& forall|i: int, j: int|
        0 <= i < j <= s.len() && !what.takes(#[trigger] s[i]) && !what.takes(
            #[trigger] s[j - 1],
        ) ==> a <= i && j <= b
}

/// A trim only keeps characters that were there.
pub proof fn trim_keeps_only_its_text(s: Seq<char>, what: Trimmed)
    ensures
        forall|i: int|
            0 <= i < trimmed_by(s, what).len() ==> s.contains(#[trigger] trimmed_by(s, what)[i]),
{
    trimmed_front_facts(s, what);
    trimmed_back_facts(trimmed_front(s, what), what);
    assert forall|i: int| 0 <= i < trimmed_by(s, what).len() implies s.contains(
        #[trigger] trimmed_by(s, what)[i],
    ) by {
        assert(trimmed_by(s, what)[i] == trimmed_front(s, what)[i]);
    }
}

// ---------------------------------------------------------------------------
// Searching
// ---------------------------------------------------------------------------

/// Whether `needle` stands in `hay` at position `at`.
pub open spec fn stands_at(hay: Seq<char>, needle: Seq<char>, at: int) -> bool {
    0 <= at && at + needle.len() <= hay.len() && hay.subrange(at, at + needle.len()) == needle
}

/// Whether `needle` stands anywhere in `hay`.
pub open spec fn contains_text(hay: Seq<char>, needle: Seq<char>) -> bool {
    exists|at: int| stands_at(hay, needle, at)
}

/// Whether `needle` stands in `hay` at position `at`.
pub fn matches_at(hay: &Vec<char>, needle: &Vec<char>, at: usize) -> (b: bool)
    ensures
        b == stands_at(hay@, needle@, at as int),
{
    if at > hay.len() || needle.len() > hay.len() - at {
        return false;
    }
    let size: usize = hay.len();
    let mut i: usize = 0;
    while i < needle.len()
        invariant
            at + needle@.len() <= hay@.len(),
            size == hay@.len(),
            0 <= i <= needle@.len(),
            forall|j: int| 0 <= j < i ==> hay@[at + j] == needle@[j],
        decreases needle@.len() - i,
    {
        if hay[at + i] != needle[i] {
            assert(hay@.subrange(at as int, at + needle@.len())[i as int] != needle@[i as int]);
            return false;
        }
        i += 1;
    }
    assert(hay@.subrange(at as int, at + needle@.len()) =~= needle@);
    true
}

/// The first position from `from` on at which `needle` stands in `hay`, if
/// there is one.
pub open spec fn first_standing(hay: Seq<char>, needle: Seq<char>, from: int) -> Option<int>
    decreases hay.len() - from + 1,
{
    if from < 0 || from > hay.len() {
        None
    } else if stands_at(hay, needle, from) {
        Some(from)
    } else {
        first_standing(hay, needle, from + 1)
    }
}

/// What [`first_standing`] says, in terms of positions.
pub proof fn first_standing_facts(hay: Seq<char>, needle: Seq<char>, from: int)
    requires
        0 <= from,
    ensures
        match first_standing(hay, needle, from) {
            Some(i) => from <= i && stands_at(hay, needle, i) && forall|j: int|
                from <= j < i ==> !stands_at(hay, needle, j),
            None => forall|j: int| from <= j ==> !stands_at(hay, needle, j),
        },
    decreases hay.len() - from + 1,
{
    if from <= hay.len() && !stands_at(hay, needle, from) {
        first_standing_facts(hay, needle, from + 1);
    }
}

/// The first position from `from` on at which `needle` stands in `hay`, if
/// there is one.
pub fn find_from(hay: &Vec<char>, needle: &Vec<char>, from: usize) -> (r: Option<usize>)
    requires
        from <= hay@.len(),
    ensures
        match r {
            Some(i) => first_standing(hay@, needle@, from as int) == Some(i as int) && i
                + needle@.len() <= hay@.len(),
            None => first_standing(hay@, needle@, from as int) is None,
        },
{
    let mut i: usize = from;
    while i < hay.len()
        invariant
            from <= i <= hay@.len(),
            first_standing(hay@, needle@, from as int) == first_standing(hay@, needle@, i as int),
        decreases hay@.len() - i,
    {
        if matches_at(hay, needle, i) {
            return Some(i);
        }
        i += 1;
    }
    assert(first_standing(hay@, needle@, i + 1) is None);
    if matches_at(hay, needle, i) {
        Some(i)
    } else {
        None
    }
}

/// Whether `needle` stands anywhere in `hay`.
pub fn holds(hay: &str, needle: &str) -> (b: bool)
    ensures
        b == contains_text(hay@, needle@),
{
    let h: Vec<char> = chars_of(hay);
    let n: Vec<char> = chars_of(needle);
    proof {
        first_standing_facts(h@, n@, 0);
    }
    match find_from(&h, &n, 0) {
        Some(i) => {
            assert(stands_at(h@, n@, i as int));
            true
        },
        None => false,
    }
}

// ---------------------------------------------------------------------------
// Lower case and order
// ---------------------------------------------------------------------------

/// The lower case of a text, in the sense of `str::to_lowercase`.
pub uninterp spec fn lowercased(s: Seq<char>) -> Seq<char>;

/// `str::to_lowercase`: the lower-case equivalent of the text under the
/// Unicode derived core property Lowercase. Nothing is claimed of it beyond
/// that it depends on the text alone.
#[verifier::external_body]
pub(crate) fn lower(s: &str) -> (r: String)
    ensures
        r@ == lowercased(s@),
{
    s.to_lowercase()
}

/// Whether `a` comes before `b` in the order of their characters, a proper
/// prefix first.
pub open spec fn text_before(a: Seq<char>, b: Seq<char>) -> bool
    decreases a.len(),
{
    if b.len() == 0 {
        false
    } else if a.len() == 0 {
        true
    } else if a[0] != b[0] {
        a[0] < b[0]
    } else {
        text_before(a.drop_first(), b.drop_first())
    }
}

/// The order of texts is a strict total order.
pub proof fn text_order_is_total(a: Seq<char>, b: Seq<char>)
    ensures
        !text_before(a, a),
        text_before(a, b) ==> !text_before(b, a),
        text_before(a, b) || text_before(b, a) || a == b,
    decreases a.len(),
{
    if a.len() > 0 {
        text_order_is_total(a.drop_first(), a.drop_first());
        if b.len() > 0 {
            text_order_is_total(a.drop_first(), b.drop_first());
            if a[0] == b[0] && a.drop_first() == b.drop_first() {
                assert(a =~= seq![a[0]] + a.drop_first());
                assert(b =~= seq![b[0]] + b.drop_first());
            }
        }
    } else if b.len() == 0 {
        assert(a =~= b);
    }
}

/// The order of texts is transitive.
pub proof fn text_order_is_transitive(a: Seq<char>, b: Seq<char>, c: Seq<char>)
    requires
        text_before(a, b),
        text_before(b, c),
    ensures
        text_before(a, c),
    decreases a.len(),
{
    if a.len() > 0 && b.len() > 0 && c.len() > 0 && a[0] == b[0] && b[0] == c[0] {
        text_order_is_transitive(a.drop_first(), b.drop_first(), c.drop_first());
    }
}

/// Whether `a` comes before `b`.
pub fn before(a: &str, b: &str) -> (r: bool)
    ensures
        r == text_before(a@, b@),
{
    let x: Vec<char> = chars_of(a);
    let y: Vec<char> = chars_of(b);
    let mut i: usize = 0;
    assert(x@.skip(0) =~= x@);
    assert(y@.skip(0) =~= y@);
    loop
        invariant
            0 <= i <= x@.len(),
            i <= y@.len(),
            x@ == a@,
            y@ == b@,
            text_before(a@, b@) == text_before(x@.skip(i as int), y@.skip(i as int)),
        decreases x@.len() - i,
    {
        if i == y.len() {
            return false;
        }
        if i == x.len() {
            return true;
        }
        if x[i] != y[i] {
            return x[i] < y[i];
        }
        assert(x@.skip(i as int).drop_first() =~= x@.skip(i + 1));
        assert(y@.skip(i as int).drop_first() =~= y@.skip(i + 1));
        i += 1;
    }
}

} // verus!
