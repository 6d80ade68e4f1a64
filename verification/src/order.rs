//! Sorting: the order in which rows are shown.

use vstd::prelude::*;

use crate::text::{before, same, text_before, text_order_is_total, text_order_is_transitive};

verus! {

/// What a row is sorted by: the parts are compared one after the other, the
/// texts character by character.
#[derive(Debug)]
pub struct Key {
    pub first: i128,
    pub words: String,
    pub second: i128,
    pub tail: String,
}

/// The parts of a [`Key`].
pub struct KeyView {
    pub first: int,
    pub words: Seq<char>,
    pub second: int,
    pub tail: Seq<char>,
}

impl View for Key {
    type V = KeyView;

    open spec fn view(&self) -> KeyView {
        KeyView {
            first: self.first as int,
            words: self.words@,
            second: self.second as int,
            tail: self.tail@,
        }
    }
}

/// Whether `a` is less than `b`.
pub open spec fn less(a: KeyView, b: KeyView) -> bool {
    if a.first != b.first {
        a.first < b.first
    } else if a.words != b.words {
        text_before(a.words, b.words)
    } else if a.second != b.second {
        a.second < b.second
    } else {
        text_before(a.tail, b.tail)
    }
}

/// The order of keys is a strict total order.
pub proof fn keys_are_totally_ordered(a: KeyView, b: KeyView)
    ensures
        !less(a, a),
        less(a, b) ==> !less(b, a),
        less(a, b) || less(b, a) || a == b,
{
    text_order_is_total(a.words, b.words);
    text_order_is_total(a.tail, b.tail);
    text_order_is_total(b.words, a.words);
    text_order_is_total(b.tail, a.tail);
}

/// The order of keys is transitive.
pub proof fn keys_are_transitive(a: KeyView, b: KeyView, c: KeyView)
    requires
        less(a, b),
        less(b, c),
    ensures
        less(a, c),
{
    if a.words != b.words && b.words != c.words && a.first == b.first && b.first == c.first {
        text_order_is_transitive(a.words, b.words, c.words);
        text_order_is_total(a.words, c.words);
    }
    if a.words == b.words && b.words == c.words && a.first == b.first && b.first == c.first
        && a.second == b.second && b.second == c.second {
        text_order_is_transitive(a.tail, b.tail, c.tail);
    }
}

fn is_less(a: &Key, b: &Key) -> (r: bool)
    ensures
        r == less(a@, b@),
{
    if a.first != b.first {
        a.first < b.first
    } else if !same(&a.words, &b.words) {
        before(&a.words, &b.words)
    } else if a.second != b.second {
        a.second < b.second
    } else {
        before(&a.tail, &b.tail)
    }
}

/// The keys of a list.
pub open spec fn keys_of(keys: Seq<Key>) -> Seq<KeyView> {
    keys.map_values(|k: Key| k@)
}

/// Whether row `i` is shown before row `j`: by key, and rows of equal keys in
/// the order in which they came.
pub open spec fn goes_first(keys: Seq<KeyView>, descending: bool, i: int, j: int) -> bool {
    if keys[i] == keys[j] {
        i < j
    } else if descending {
        less(keys[j], keys[i])
    } else {
        less(keys[i], keys[j])
    }
}

/// Whether `order` lists every row once, each before those it goes before.
pub open spec fn sorts(order: Seq<usize>, keys: Seq<KeyView>, descending: bool) -> bool {
    &&& order.len() == keys.len()
    &&& forall|a: int| 0 <= a < order.len() ==> (#[trigger] order[a]) < keys.len()
    &&& forall|a: int, b: int|
        0 <= a < b < order.len() ==> goes_first(
            keys,
            descending,
            #[trigger] order[a] as int,
            #[trigger] order[b] as int,
        )
}

/// One row goes before another, or the other before it, never both; and the
/// relation is transitive.
pub proof fn showing_is_an_order(keys: Seq<KeyView>, descending: bool, i: int, j: int, k: int)
    ensures
        !goes_first(keys, descending, i, i),
        i != j ==> goes_first(keys, descending, i, j) || goes_first(keys, descending, j, i),
        goes_first(keys, descending, i, j) ==> !goes_first(keys, descending, j, i),
        goes_first(keys, descending, i, j) && goes_first(keys, descending, j, k) ==> goes_first(
            keys,
            descending,
            i,
            k,
        ),
{
    keys_are_totally_ordered(keys[i], keys[j]);
    keys_are_totally_ordered(keys[j], keys[k]);
    keys_are_totally_ordered(keys[i], keys[k]);
    if less(keys[i], keys[j]) && less(keys[j], keys[k]) {
        keys_are_transitive(keys[i], keys[j], keys[k]);
    }
    if less(keys[k], keys[j]) && less(keys[j], keys[i]) {
        keys_are_transitive(keys[k], keys[j], keys[i]);
    }
}

/// A sorted list holds no row twice.
pub proof fn sorted_rows_are_distinct(order: Seq<usize>, keys: Seq<KeyView>, descending: bool)
    requires
        sorts(order, keys, descending),
    ensures
        order.no_duplicates(),
{
    assert forall|a: int, b: int|
        0 <= a < order.len() && 0 <= b < order.len() && a != b implies order[a] != order[b] by {
        let i = order[a] as int;
        showing_is_an_order(keys, descending, i, i, i);
        if a < b {
            assert(goes_first(keys, descending, order[a] as int, order[b] as int));
        } else {
            assert(goes_first(keys, descending, order[b] as int, order[a] as int));
        }
    }
}

/// There is one way to sort a list.
pub proof fn sorting_is_unique(
    one: Seq<usize>,
    other: Seq<usize>,
    keys: Seq<KeyView>,
    descending: bool,
)
    requires
        sorts(one, keys, descending),
        sorts(other, keys, descending),
    ensures
        one == other,
{
    assert forall|n: int| 0 <= n <= one.len() implies #[trigger] one.take(n) == other.take(n) by {
        sorts_agree(one, other, keys, descending, n);
    }
    assert(one.take(one.len() as int) =~= one);
    assert(other.take(one.len() as int) =~= other);
}

/// A sorted list of `n` rows lists each of them.
pub proof fn sorts_lists_all(order: Seq<usize>, keys: Seq<KeyView>, descending: bool, row: usize)
    requires
        sorts(order, keys, descending),
        row < keys.len(),
    ensures
        order.contains(row),
{
    sorted_rows_are_distinct(order, keys, descending);
    let rows = order.to_set();
    order.unique_seq_to_set();
    let n = keys.len() as int;
    let ints = order.map_values(|x: usize| x as int);
    assert(ints.no_duplicates());
    ints.unique_seq_to_set();
    let all = vstd::set_lib::set_int_range(0, n);
    vstd::set_lib::lemma_int_range(0, n);
    assert(ints.to_set().subset_of(all)) by {
        assert forall|x: int| ints.to_set().contains(x) implies all.contains(x) by {
            let k = choose|k: int| 0 <= k < ints.len() && ints[k] == x;
            assert(order[k] < keys.len());
        }
    }
    vstd::set_lib::lemma_subset_equality(ints.to_set(), all);
    assert(ints.to_set().contains(row as int));
    let k = choose|k: int| 0 <= k < ints.len() && ints[k] == row as int;
    assert(order[k] == row);
}

proof fn sorts_agree(
    one: Seq<usize>,
    other: Seq<usize>,
    keys: Seq<KeyView>,
    descending: bool,
    n: int,
)
    requires
        sorts(one, keys, descending),
        sorts(other, keys, descending),
        0 <= n <= one.len(),
    ensures
        one.take(n) == other.take(n),
    decreases n,
{
    if n > 0 {
        sorts_agree(one, other, keys, descending, n - 1);
        let x = one[n - 1];
        let y = other[n - 1];
        if x != y {
            sorts_lists_all(one, keys, descending, y);
            sorts_lists_all(other, keys, descending, x);
            let a = choose|a: int| 0 <= a < one.len() && one[a] == y;
            let b = choose|b: int| 0 <= b < other.len() && other[b] == x;
            sorted_rows_are_distinct(one, keys, descending);
            sorted_rows_are_distinct(other, keys, descending);
            assert(a > n - 1) by {
                if a < n - 1 {
                    assert(one.take(n - 1)[a] == other.take(n - 1)[a]);
                    assert(other[a] == y);
                }
            }
            assert(b > n - 1) by {
                if b < n - 1 {
                    assert(one.take(n - 1)[b] == other.take(n - 1)[b]);
                    assert(one[b] == x);
                }
            }
            assert(goes_first(keys, descending, one[n - 1] as int, one[a] as int));
            assert(goes_first(keys, descending, other[n - 1] as int, other[b] as int));
            showing_is_an_order(keys, descending, x as int, y as int, x as int);
        }
        assert(one.take(n) =~= one.take(n - 1).push(x));
        assert(other.take(n) =~= other.take(n - 1).push(y));
    } else {
        assert(one.take(0) =~= other.take(0));
    }
}

fn row_goes_first(keys: &Vec<Key>, descending: bool, i: usize, j: usize) -> (r: bool)
    requires
        i < keys@.len(),
        j < keys@.len(),
    ensures
        r == goes_first(keys_of(keys@), descending, i as int, j as int),
{
    proof {
        keys_are_totally_ordered(keys@[i as int]@, keys@[j as int]@);
    }
    if is_less(&keys[i], &keys[j]) {
        !descending
    } else if is_less(&keys[j], &keys[i]) {
        descending
    } else {
        i < j
    }
}

/// The rows in the order in which they are shown.
pub fn sorted(keys: &Vec<Key>, descending: bool) -> (order: Vec<usize>)
    ensures
        sorts(order@, keys_of(keys@), descending),
{
    let ghost views = keys_of(keys@);
    let mut order: Vec<usize> = Vec::new();
    let mut i: usize = 0;
    while i < keys.len()
        invariant
            0 <= i <= keys@.len(),
            views == keys_of(keys@),
            order@.len() == i,
            forall|a: int| 0 <= a < order@.len() ==> (#[trigger] order@[a]) < i,
            forall|a: int, b: int|
                0 <= a < b < order@.len() ==> goes_first(
                    views,
                    descending,
                    #[trigger] order@[a] as int,
                    #[trigger] order@[b] as int,
                ),
        decreases keys@.len() - i,
    {
        let mut lo: usize = 0;
        let mut hi: usize = order.len();
        while lo < hi
            invariant
                0 <= lo <= hi <= order@.len(),
                order@.len() == i < keys@.len(),
                views == keys_of(keys@),
                forall|a: int| 0 <= a < order@.len() ==> (#[trigger] order@[a]) < i,
                forall|a: int, b: int|
                    0 <= a < b < order@.len() ==> goes_first(
                        views,
                        descending,
                        #[trigger] order@[a] as int,
                        #[trigger] order@[b] as int,
                    ),
                forall|a: int|
                    0 <= a < lo ==> goes_first(
                        views,
                        descending,
                        #[trigger] order@[a] as int,
                        i as int,
                    ),
                forall|a: int|
                    hi <= a < order@.len() ==> goes_first(
                        views,
                        descending,
                        i as int,
                        #[trigger] order@[a] as int,
                    ),
            decreases hi - lo,
        {
            let mid: usize = lo + (hi - lo) / 2;
            let row: usize = order[mid];
            proof {
                assert forall|a: int| 0 <= a < order@.len() implies {
                    &&& (a < mid && goes_first(views, descending, row as int, i as int)
                        ==> goes_first(views, descending, #[trigger] order@[a] as int, i as int))
                    &&& (a > mid && goes_first(views, descending, i as int, row as int)
                        ==> goes_first(views, descending, i as int, order@[a] as int))
                } by {
                    showing_is_an_order(
                        views,
                        descending,
                        order@[a] as int,
                        row as int,
                        i as int,
                    );
                    showing_is_an_order(
                        views,
                        descending,
                        i as int,
                        row as int,
                        order@[a] as int,
                    );
                }
                showing_is_an_order(views, descending, row as int, i as int, i as int);
            }
            if row_goes_first(keys, descending, row, i) {
                lo = mid + 1;
            } else {
                hi = mid;
            }
        }
        let ghost before = order@;
        order.insert(lo, i);
        proof {
            assert forall|a: int, b: int| 0 <= a < b < order@.len() implies goes_first(
                views,
                descending,
                #[trigger] order@[a] as int,
                #[trigger] order@[b] as int,
            ) by {
                let x = if a < lo { a } else { a - 1 };
                let y = if b < lo { b } else { b - 1 };
                if a != lo {
                    assert(order@[a] == before[x]);
                }
                if b != lo {
                    assert(order@[b] == before[y]);
                }
            }
            assert forall|a: int| 0 <= a < order@.len() implies (#[trigger] order@[a]) < i + 1 by {
                let x = if a < lo { a } else { a - 1 };
                if a != lo {
                    assert(order@[a] == before[x]);
                }
            }
        }
        i += 1;
    }
    order
}

// ---------------------------------------------------------------------------
// Lists of rows
// ---------------------------------------------------------------------------

/// Whether row `i` is shown before row `j`, for rows that are sorted by `key`.
pub open spec fn shown_first(key: spec_fn(int) -> KeyView, descending: bool, i: int, j: int) -> bool {
    if key(i) == key(j) {
        i < j
    } else if descending {
        less(key(j), key(i))
    } else {
        less(key(i), key(j))
    }
}

/// Whether `rows` lists exactly the rows below `n` that pass, each once, in
/// the order of their keys.
pub open spec fn shows(
    rows: Seq<usize>,
    n: nat,
    passes: spec_fn(int) -> bool,
    key: spec_fn(int) -> KeyView,
    descending: bool,
) -> bool {
    &&& forall|a: int| 0 <= a < rows.len() ==> (#[trigger] rows[a]) < n && passes(rows[a] as int)
    &&& forall|i: int| 0 <= i < n && #[trigger] passes(i) ==> rows.contains(i as usize)
    &&& forall|a: int, b: int|
        0 <= a < b < rows.len() ==> shown_first(
            key,
            descending,
            #[trigger] rows[a] as int,
            #[trigger] rows[b] as int,
        )
}

/// What the rows of a list are.
pub open spec fn picked<T>(items: Seq<T>, rows: Seq<usize>) -> Seq<T> {
    Seq::new(rows.len(), |k: int| items[rows[k] as int])
}

/// Whether each of the items goes before those that follow it by its key alone.
spec fn keyed_apart<T>(items: Seq<T>, key: spec_fn(T) -> KeyView, descending: bool) -> bool {
    forall|i: int, j: int|
        0 <= i < j < items.len() ==> if descending {
            less(key(#[trigger] items[j]), key(#[trigger] items[i]))
        } else {
            less(key(items[i]), key(items[j]))
        }
}

proof fn sorted_alike<T>(x: Seq<T>, y: Seq<T>, key: spec_fn(T) -> KeyView, descending: bool)
    requires
        keyed_apart(x, key, descending),
        keyed_apart(y, key, descending),
        forall|t: T| #[trigger] x.contains(t) <==> y.contains(t),
    ensures
        x == y,
    decreases x.len(),
{
    if x.len() == 0 {
        if y.len() > 0 {
            assert(y.contains(y[0]));
            assert(x.contains(y[0]));
        }
        assert(x =~= y);
    } else {
        assert(x.contains(x[0]));
        let j = choose|j: int| 0 <= j < y.len() && y[j] == x[0];
        assert(y.contains(y[0]) && x.contains(y[0]));
        let i = choose|i: int| 0 <= i < x.len() && x[i] == y[0];
        keys_are_totally_ordered(key(x[0]), key(y[0]));
        assert(x[0] == y[0]);
        let xs = x.drop_first();
        let ys = y.drop_first();
        assert forall|t: T| #[trigger] xs.contains(t) <==> ys.contains(t) by {
            keys_are_totally_ordered(key(t), key(t));
            if xs.contains(t) {
                let k = choose|k: int| 0 <= k < xs.len() && xs[k] == t;
                assert(x[k + 1] == t && x.contains(t));
                let m = choose|m: int| 0 <= m < y.len() && y[m] == t;
                assert(m > 0);
                assert(ys[m - 1] == t);
            }
            if ys.contains(t) {
                let k = choose|k: int| 0 <= k < ys.len() && ys[k] == t;
                assert(y[k + 1] == t && y.contains(t) && x.contains(t));
                let m = choose|m: int| 0 <= m < x.len() && x[m] == t;
                assert(m > 0);
                assert(xs[m - 1] == t);
            }
        }
        sorted_alike(xs, ys, key, descending);
        assert(x =~= seq![x[0]] + xs);
        assert(y =~= seq![y[0]] + ys);
    }
}

proof fn picked_facts<T>(
    items: Seq<T>,
    rows: Seq<usize>,
    passes: spec_fn(T) -> bool,
    key: spec_fn(T) -> KeyView,
    descending: bool,
)
    requires
        items.len() <= usize::MAX,
        shows(
            rows,
            items.len(),
            |i: int| passes(items[i]),
            |i: int| key(items[i]),
            descending,
        ),
        forall|i: int, j: int|
            0 <= i < j < items.len() ==> key(#[trigger] items[i]) != key(#[trigger] items[j]),
    ensures
        keyed_apart(picked(items, rows), key, descending),
        forall|t: T| #[trigger]
            picked(items, rows).contains(t) <==> items.contains(t) && passes(t),
{
    let x = picked(items, rows);
    let p = |i: int| passes(items[i]);
    let k = |i: int| key(items[i]);
    assert forall|i: int, j: int| 0 <= i < j < x.len() implies if descending {
        less(key(#[trigger] x[j]), key(#[trigger] x[i]))
    } else {
        less(key(x[i]), key(x[j]))
    } by {
        let ri = rows[i] as int;
        let rj = rows[j] as int;
        assert(shown_first(k, descending, ri, rj));
        assert(p(ri) && p(rj));
        if ri != rj {
            assert(key(items[ri]) != key(items[rj]));
        }
    }
    assert forall|t: T| #[trigger] x.contains(t) <==> items.contains(t) && passes(t) by {
        if x.contains(t) {
            let m = choose|m: int| 0 <= m < x.len() && x[m] == t;
            assert(p(rows[m] as int));
            assert(items[rows[m] as int] == t);
        }
        if items.contains(t) && passes(t) {
            let i = choose|i: int| 0 <= i < items.len() && items[i] == t;
            assert(p(i));
            let m = choose|m: int| 0 <= m < rows.len() && rows[m] == i as usize;
            assert(x[m] == t);
        }
    }
}

/// Where no two items have the same key, what a list shows does not depend on
/// the order in which the items came.
pub proof fn the_same_items_show_alike<T>(
    one: Seq<T>,
    other: Seq<T>,
    a: Seq<usize>,
    b: Seq<usize>,
    passes: spec_fn(T) -> bool,
    key: spec_fn(T) -> KeyView,
    descending: bool,
)
    requires
        one.len() <= usize::MAX,
        one.to_multiset() == other.to_multiset(),
        forall|i: int, j: int|
            0 <= i < j < one.len() ==> key(#[trigger] one[i]) != key(#[trigger] one[j]),
        shows(a, one.len(), |i: int| passes(one[i]), |i: int| key(one[i]), descending),
        shows(b, other.len(), |i: int| passes(other[i]), |i: int| key(other[i]), descending),
    ensures
        picked(one, a) == picked(other, b),
{
    one.to_multiset_ensures();
    other.to_multiset_ensures();
    assert forall|t: T| #[trigger] one.contains(t) <==> other.contains(t) by {
        assert(one.contains(t) <==> one.to_multiset().count(t) > 0);
        assert(other.contains(t) <==> other.to_multiset().count(t) > 0);
    }
    assert(one.no_duplicates());
    one.lemma_multiset_has_no_duplicates();
    assert forall|t: T| other.to_multiset().contains(t) implies other.to_multiset().count(t)
        == 1 by {
        assert(one.to_multiset().contains(t));
    }
    other.lemma_multiset_has_no_duplicates_conv();
    assert forall|i: int, j: int| 0 <= i < j < other.len() implies key(#[trigger] other[i])
        != key(#[trigger] other[j]) by {
        assert(other.contains(other[i]) && one.contains(other[i]));
        assert(other.contains(other[j]) && one.contains(other[j]));
        let m = choose|m: int| 0 <= m < one.len() && one[m] == other[i];
        let n = choose|n: int| 0 <= n < one.len() && one[n] == other[j];
        assert(m != n);
        if m < n {
            assert(key(one[m]) != key(one[n]));
        } else {
            assert(key(one[n]) != key(one[m]));
        }
    }
    picked_facts(one, a, passes, key, descending);
    picked_facts(other, b, passes, key, descending);
    assert forall|t: T| #[trigger] picked(one, a).contains(t) <==> picked(other, b).contains(
        t,
    ) by {
        assert(one.contains(t) <==> other.contains(t));
        assert(picked(other, b).contains(t) <==> other.contains(t) && passes(t));
    }
    sorted_alike(picked(one, a), picked(other, b), key, descending);
}

/// Sorts the rows that were kept.
pub(crate) fn arrange(
    kept: &Vec<usize>,
    keys: &Vec<Key>,
    descending: bool,
    Ghost(n): Ghost<nat>,
    Ghost(passes): Ghost<spec_fn(int) -> bool>,
    Ghost(key): Ghost<spec_fn(int) -> KeyView>,
) -> (rows: Vec<usize>)
    requires
        n <= usize::MAX,
        keys@.len() == kept@.len(),
        forall|a: int| 0 <= a < kept@.len() ==> (#[trigger] kept@[a]) < n && passes(kept@[a] as int),
        forall|i: int| 0 <= i < n && #[trigger] passes(i) ==> kept@.contains(i as usize),
        forall|a: int, b: int|
            0 <= a < b < kept@.len() ==> (#[trigger] kept@[a]) < (#[trigger] kept@[b]),
        forall|a: int| 0 <= a < keys@.len() ==> (#[trigger] keys@[a])@ == key(kept@[a] as int),
    ensures
        shows(rows@, n, passes, key, descending),
{
    let order: Vec<usize> = sorted(keys, descending);
    let mut rows: Vec<usize> = Vec::new();
    let mut a: usize = 0;
    while a < order.len()
        invariant
            0 <= a <= order@.len(),
            sorts(order@, keys_of(keys@), descending),
            keys@.len() == kept@.len(),
            rows@.len() == a,
            forall|b: int| 0 <= b < a ==> #[trigger] rows@[b] == kept@[order@[b] as int],
        decreases order@.len() - a,
    {
        assert(order@[a as int] < kept@.len());
        rows.push(kept[order[a]]);
        a += 1;
    }
    proof {
        let views = keys_of(keys@);
        assert forall|a: int| 0 <= a < rows@.len() implies (#[trigger] rows@[a]) < n && passes(
            rows@[a] as int,
        ) by {
            assert(order@[a] < kept@.len());
        }
        assert forall|i: int| 0 <= i < n && #[trigger] passes(i) implies rows@.contains(
            i as usize,
        ) by {
            let k = choose|k: int| 0 <= k < kept@.len() && kept@[k] == i as usize;
            sorts_lists_all(order@, views, descending, k as usize);
            let a = choose|a: int| 0 <= a < order@.len() && order@[a] == k as usize;
            assert(rows@[a] == i as usize);
        }
        assert forall|a: int, b: int| 0 <= a < b < rows@.len() implies shown_first(
            key,
            descending,
            #[trigger] rows@[a] as int,
            #[trigger] rows@[b] as int,
        ) by {
            let x = order@[a] as int;
            let y = order@[b] as int;
            assert(goes_first(views, descending, order@[a] as int, order@[b] as int));
            assert(views[x] == keys@[x]@ && views[y] == keys@[y]@);
            assert(rows@[a] == kept@[x] && rows@[b] == kept@[y]);
        }
    }
    rows
}

} // verus!
