//! Searching and filtering sequences, and small sets kept as lists.

use vstd::prelude::*;

use crate::text::same;

verus! {

/// The index of the first element with the property, if there is one.
pub open spec fn first_where<T>(s: Seq<T>, p: spec_fn(T) -> bool) -> Option<int>
    decreases s.len(),
{
    if s.len() == 0 {
        None
    } else if p(s[0]) {
        Some(0)
    } else {
        match first_where(s.drop_first(), p) {
            Some(i) => Some(i + 1),
            None => None,
        }
    }
}

/// What [`first_where`] says, in terms of indices.
pub proof fn first_where_facts<T>(s: Seq<T>, p: spec_fn(T) -> bool)
    ensures
        match first_where(s, p) {
            Some(i) => 0 <= i < s.len() && p(s[i]) && forall|j: int|
                0 <= j < i ==> !p(#[trigger] s[j]),
            None => forall|j: int| 0 <= j < s.len() ==> !p(#[trigger] s[j]),
        },
    decreases s.len(),
{
    if s.len() > 0 && !p(s[0]) {
        let rest = s.drop_first();
        first_where_facts(rest, p);
        match first_where(rest, p) {
            Some(i) => {
                assert(s[i + 1] == rest[i]);
                assert forall|j: int| 0 <= j < i + 1 implies !p(#[trigger] s[j]) by {
                    if j > 0 {
                        assert(s[j] == rest[j - 1]);
                    }
                }
            },
            None => {
                assert forall|j: int| 0 <= j < s.len() implies !p(#[trigger] s[j]) by {
                    if j > 0 {
                        assert(s[j] == rest[j - 1]);
                    }
                }
            },
        }
    }
}

/// The first index with the property is the one [`first_where`] gives.
pub proof fn first_where_is<T>(s: Seq<T>, p: spec_fn(T) -> bool, i: int)
    requires
        0 <= i < s.len(),
        p(s[i]),
        forall|j: int| 0 <= j < i ==> !p(#[trigger] s[j]),
    ensures
        first_where(s, p) == Some(i),
{
    first_where_facts(s, p);
}

/// Where no element has the property, there is no first.
pub proof fn first_where_none<T>(s: Seq<T>, p: spec_fn(T) -> bool)
    requires
        forall|j: int| 0 <= j < s.len() ==> !p(#[trigger] s[j]),
    ensures
        first_where(s, p) is None,
{
    first_where_facts(s, p);
}

/// One more element of a filtered prefix.
pub proof fn filter_grows<T>(s: Seq<T>, p: spec_fn(T) -> bool, i: int)
    requires
        0 <= i < s.len(),
    ensures
        s.take(i + 1).filter(p) == if p(s[i]) {
            s.take(i).filter(p).push(s[i])
        } else {
            s.take(i).filter(p)
        },
{
    reveal(Seq::filter);
    assert(s.take(i + 1).drop_last() =~= s.take(i));
}

/// A filtered prefix at its two ends.
pub proof fn filter_ends<T>(s: Seq<T>, p: spec_fn(T) -> bool)
    ensures
        s.take(0).filter(p) == Seq::<T>::empty(),
        s.take(s.len() as int) == s,
{
    reveal(Seq::filter);
    assert(s.take(0) =~= Seq::<T>::empty());
    assert(s.take(s.len() as int) =~= s);
}

/// What is kept of a list without repeats has none.
pub proof fn filter_keeps_distinct<T>(s: Seq<T>, p: spec_fn(T) -> bool)
    requires
        s.no_duplicates(),
    ensures
        s.filter(p).no_duplicates(),
    decreases s.len(),
{
    reveal(Seq::filter);
    if s.len() > 0 {
        let front = s.drop_last();
        assert(front.no_duplicates());
        filter_keeps_distinct(front, p);
        let kept = front.filter(p);
        if p(s.last()) {
            assert(!kept.contains(s.last())) by {
                if kept.contains(s.last()) {
                    front.lemma_filter_contains_rev(p, s.last());
                    let k = choose|k: int| 0 <= k < front.len() && front[k] == s.last();
                    assert(s[k] == s[s.len() - 1]);
                }
            }
            let all = kept.push(s.last());
            assert forall|a: int, b: int|
                0 <= a < all.len() && 0 <= b < all.len() && a != b implies all[a] != all[b] by {
                if a < kept.len() {
                    assert(kept.contains(kept[a]));
                }
                if b < kept.len() {
                    assert(kept.contains(kept[b]));
                }
            }
        }
    }
}

// ---------------------------------------------------------------------------
// Sets of identifiers
// ---------------------------------------------------------------------------

/// A set of numbers, kept as a list without repeats.
#[derive(Debug)]
pub struct IdSet {
    pub ids: Vec<u64>,
}

impl View for IdSet {
    type V = Set<u64>;

    open spec fn view(&self) -> Set<u64> {
        self.ids@.to_set()
    }
}

impl IdSet {
    /// Nothing is listed twice.
    pub open spec fn wf(self) -> bool {
        self.ids@.no_duplicates()
    }

    pub fn new() -> (s: IdSet)
        ensures
            s.wf(),
            s@ == Set::<u64>::empty(),
    {
        let s = IdSet { ids: Vec::new() };
        assert(s@ =~= Set::<u64>::empty());
        s
    }

    fn position(&self, id: u64) -> (r: Option<usize>)
        ensures
            match r {
                Some(i) => i < self.ids@.len() && self.ids@[i as int] == id && self@.contains(id),
                None => !self@.contains(id),
            },
    {
        let mut i: usize = 0;
        while i < self.ids.len()
            invariant
                0 <= i <= self.ids@.len(),
                forall|j: int| 0 <= j < i ==> self.ids@[j] != id,
            decreases self.ids@.len() - i,
        {
            if self.ids[i] == id {
                assert(self.ids@.contains(id));
                return Some(i);
            }
            i += 1;
        }
        None
    }

    pub fn contains(&self, id: u64) -> (b: bool)
        ensures
            b == self@.contains(id),
    {
        self.position(id).is_some()
    }

    pub fn insert(&mut self, id: u64)
        requires
            old(self).wf(),
        ensures
            final(self).wf(),
            final(self)@ == old(self)@.insert(id),
    {
        match self.position(id) {
            Some(_) => {
                assert(self@.insert(id) =~= self@);
            },
            None => {
                let ghost before = self.ids@;
                self.ids.push(id);
                assert(self@ =~= old(self)@.insert(id)) by {
                    assert forall|x: u64| self@.contains(x) <==> old(self)@.insert(id).contains(
                        x,
                    ) by {
                        if before.contains(x) {
                            let j = choose|j: int| 0 <= j < before.len() && before[j] == x;
                            assert(self.ids@[j] == x);
                        }
                        assert(self.ids@[before.len() as int] == id);
                    }
                }
                assert(self.ids@.no_duplicates()) by {
                    assert forall|i: int, j: int|
                        0 <= i < self.ids@.len() && 0 <= j < self.ids@.len() && i
                            != j implies self.ids@[i] != self.ids@[j] by {
                        if i < before.len() {
                            assert(before.contains(before[i]));
                        }
                        if j < before.len() {
                            assert(before.contains(before[j]));
                        }
                    }
                }
            },
        }
    }

    pub fn remove(&mut self, id: u64)
        requires
            old(self).wf(),
        ensures
            final(self).wf(),
            final(self)@ == old(self)@.remove(id),
    {
        match self.position(id) {
            Some(i) => {
                let ghost before = self.ids@;
                self.ids.remove(i);
                assert(self@ =~= old(self)@.remove(id)) by {
                    assert forall|x: u64| self@.contains(x) <==> old(self)@.remove(id).contains(
                        x,
                    ) by {
                        if self.ids@.contains(x) {
                            let j = choose|j: int| 0 <= j < self.ids@.len() && self.ids@[j] == x;
                            let k = if j < i { j } else { j + 1 };
                            assert(before[k] == x);
                        }
                        if before.contains(x) && x != id {
                            let k = choose|k: int| 0 <= k < before.len() && before[k] == x;
                            let j = if k < i { k } else { k - 1 };
                            assert(self.ids@[j] == x);
                        }
                    }
                }
                assert(self.ids@.no_duplicates()) by {
                    assert forall|a: int, b: int|
                        0 <= a < self.ids@.len() && 0 <= b < self.ids@.len() && a
                            != b implies self.ids@[a] != self.ids@[b] by {
                        let x = if a < i { a } else { a + 1 };
                        let y = if b < i { b } else { b + 1 };
                        assert(self.ids@[a] == before[x] && self.ids@[b] == before[y]);
                    }
                }
            },
            None => {
                assert(self@.remove(id) =~= self@);
            },
        }
    }

    pub fn clear(&mut self)
        ensures
            final(self).wf(),
            final(self)@ == Set::<u64>::empty(),
    {
        self.ids.clear();
        assert(self@ =~= Set::<u64>::empty());
    }

    pub fn len(&self) -> (n: usize)
        requires
            self.wf(),
        ensures
            n == self@.len(),
    {
        proof {
            self.ids@.unique_seq_to_set();
        }
        self.ids.len()
    }

    /// The only member, where there is exactly one.
    pub fn only(&self) -> (r: Option<u64>)
        requires
            self.wf(),
        ensures
            r is Some <==> self@.len() == 1,
            r matches Some(id) ==> self@ == set![id],
    {
        proof {
            self.ids@.unique_seq_to_set();
        }
        if self.ids.len() == 1 {
            let id: u64 = self.ids[0];
            assert(self@ =~= set![id]) by {
                assert forall|x: u64| self@.contains(x) <==> x == id by {
                    assert(self.ids@[0] == id);
                }
            }
            Some(id)
        } else {
            None
        }
    }
}

// ---------------------------------------------------------------------------
// Sets of texts
// ---------------------------------------------------------------------------

/// A set of texts, kept as a list without repeats.
#[derive(Debug)]
pub struct TextSet {
    pub items: Vec<String>,
}

/// The texts of a list.
pub open spec fn texts_of(items: Seq<String>) -> Seq<Seq<char>> {
    items.map_values(|s: String| s@)
}

impl View for TextSet {
    type V = Set<Seq<char>>;

    open spec fn view(&self) -> Set<Seq<char>> {
        texts_of(self.items@).to_set()
    }
}

impl TextSet {
    /// Nothing is listed twice.
    pub open spec fn wf(self) -> bool {
        texts_of(self.items@).no_duplicates()
    }

    pub fn new() -> (s: TextSet)
        ensures
            s.wf(),
            s@ == Set::<Seq<char>>::empty(),
    {
        let s = TextSet { items: Vec::new() };
        assert(s@ =~= Set::<Seq<char>>::empty());
        s
    }

    fn position(&self, text: &str) -> (r: Option<usize>)
        ensures
            match r {
                Some(i) => i < self.items@.len() && self.items@[i as int]@ == text@
                    && self@.contains(text@),
                None => !self@.contains(text@),
            },
    {
        let ghost texts = texts_of(self.items@);
        let mut i: usize = 0;
        while i < self.items.len()
            invariant
                0 <= i <= self.items@.len(),
                texts == texts_of(self.items@),
                forall|j: int| 0 <= j < i ==> texts[j] != text@,
            decreases self.items@.len() - i,
        {
            assert(texts[i as int] == self.items@[i as int]@);
            if same(&self.items[i], text) {
                assert(texts.contains(text@));
                return Some(i);
            }
            i += 1;
        }
        None
    }

    pub fn contains(&self, text: &str) -> (b: bool)
        ensures
            b == self@.contains(text@),
    {
        self.position(text).is_some()
    }

    pub fn insert(&mut self, text: String)
        requires
            old(self).wf(),
        ensures
            final(self).wf(),
            final(self)@ == old(self)@.insert(text@),
    {
        match self.position(&text) {
            Some(_) => {
                assert(self@.insert(text@) =~= self@);
            },
            None => {
                let ghost before = texts_of(self.items@);
                let ghost t = text@;
                self.items.push(text);
                let ghost after = texts_of(self.items@);
                assert(after =~= before.push(t));
                assert(self@ =~= old(self)@.insert(t)) by {
                    assert forall|x: Seq<char>| self@.contains(x) <==> old(self)@.insert(
                        t,
                    ).contains(x) by {
                        if before.contains(x) {
                            let j = choose|j: int| 0 <= j < before.len() && before[j] == x;
                            assert(after[j] == x);
                        }
                        assert(after[before.len() as int] == t);
                    }
                }
                assert(after.no_duplicates()) by {
                    assert forall|i: int, j: int|
                        0 <= i < after.len() && 0 <= j < after.len() && i != j implies after[i]
                            != after[j] by {
                        if i < before.len() {
                            assert(before.contains(before[i]));
                        }
                        if j < before.len() {
                            assert(before.contains(before[j]));
                        }
                    }
                }
            },
        }
    }

    /// Takes `text` out, and says whether it was there.
    pub fn remove(&mut self, text: &str) -> (was: bool)
        requires
            old(self).wf(),
        ensures
            final(self).wf(),
            final(self)@ == old(self)@.remove(text@),
            was == old(self)@.contains(text@),
    {
        match self.position(text) {
            Some(i) => {
                let ghost before = texts_of(self.items@);
                self.items.remove(i);
                let ghost after = texts_of(self.items@);
                assert(after =~= before.remove(i as int));
                assert(self@ =~= old(self)@.remove(text@)) by {
                    assert forall|x: Seq<char>| self@.contains(x) <==> old(self)@.remove(
                        text@,
                    ).contains(x) by {
                        if after.contains(x) {
                            let j = choose|j: int| 0 <= j < after.len() && after[j] == x;
                            let k = if j < i { j } else { j + 1 };
                            assert(before[k] == x);
                            assert(before[i as int] == text@);
                        }
                        if before.contains(x) && x != text@ {
                            let k = choose|k: int| 0 <= k < before.len() && before[k] == x;
                            assert(before[i as int] == text@);
                            let j = if k < i { k } else { k - 1 };
                            assert(after[j] == x);
                        }
                    }
                }
                assert(after.no_duplicates()) by {
                    assert forall|a: int, b: int|
                        0 <= a < after.len() && 0 <= b < after.len() && a != b implies after[a]
                            != after[b] by {
                        let x = if a < i { a } else { a + 1 };
                        let y = if b < i { b } else { b + 1 };
                        assert(after[a] == before[x] && after[b] == before[y]);
                    }
                }
                true
            },
            None => {
                assert(self@.remove(text@) =~= self@);
                false
            },
        }
    }

    pub fn clear(&mut self)
        ensures
            final(self).wf(),
            final(self)@ == Set::<Seq<char>>::empty(),
    {
        self.items.clear();
        assert(self@ =~= Set::<Seq<char>>::empty());
    }

    pub fn len(&self) -> (n: usize)
        requires
            self.wf(),
        ensures
            n == self@.len(),
    {
        proof {
            texts_of(self.items@).unique_seq_to_set();
        }
        self.items.len()
    }
}

} // verus!
