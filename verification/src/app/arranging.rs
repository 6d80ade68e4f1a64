//! The user's own order of accounts and groups.

use vstd::prelude::*;

use super::{becomes, saving, AppState, Effect};
use crate::lists::{first_where, first_where_facts, first_where_is, first_where_none, texts_of};
use crate::models::{
    ids_unique, position_facts, position_in, position_of, Account, AccountStore, AppConfig, Group,
};
use crate::order::{arrange, shows, Key, KeyView};
use crate::text::{lower, lowercased, same};

verus! {

// ---------------------------------------------------------------------------
// Moving one of a list
// ---------------------------------------------------------------------------

/// The members that equal `x`.
pub open spec fn equals<T>(x: T) -> spec_fn(T) -> bool {
    |y: T| y == x
}

/// The list without the first member that equals `x`.
pub open spec fn taken_out<T>(list: Seq<T>, x: T) -> Seq<T> {
    match first_where(list, equals(x)) {
        Some(i) => list.remove(i),
        None => list,
    }
}

/// Where to put something before or after `target`: at the end, where the list
/// has no `target`.
pub open spec fn place_by<T>(list: Seq<T>, target: T, after: bool) -> int {
    match first_where(list, equals(target)) {
        Some(i) => if after {
            i + 1
        } else {
            i
        },
        None => list.len() as int,
    }
}

/// The list with `x` moved before or after `target`.
pub open spec fn moved<T>(list: Seq<T>, x: T, target: T, after: bool) -> Seq<T> {
    let rest = taken_out(list, x);
    rest.insert(place_by(rest, target, after), x)
}

/// What was moved stands right before or right after its target, where the
/// list has the target.
pub proof fn what_is_moved_stands_by_its_target<T>(list: Seq<T>, x: T, target: T, after: bool)
    requires
        list.contains(target),
        x != target,
    ensures
        exists|i: int|
            0 <= i < moved(list, x, target, after).len() && #[trigger] moved(
                list,
                x,
                target,
                after,
            )[i] == x && if after {
                i > 0 && moved(list, x, target, after)[i - 1] == target
            } else {
                i + 1 < moved(list, x, target, after).len() && moved(list, x, target, after)[i + 1]
                    == target
            },
{
    let rest = taken_out(list, x);
    first_where_facts(list, equals(x));
    first_where_facts(rest, equals(target));
    let k = choose|k: int| 0 <= k < list.len() && list[k] == target;
    match first_where(list, equals(x)) {
        Some(i) => {
            let j = if k < i {
                k
            } else {
                k - 1
            };
            assert(rest[j] == target);
            assert(equals(target)(rest[j]));
        },
        None => {
            assert(equals(target)(rest[k]));
        },
    }
    let at = place_by(rest, target, after);
    let all = moved(list, x, target, after);
    assert(all[at] == x);
    if after {
        assert(all[at - 1] == rest[at - 1]);
    } else {
        assert(all[at + 1] == rest[at]);
    }
}

/// Moving neither loses nor doubles anything, where the list has what is
/// moved.
pub proof fn moving_keeps_the_members<T>(list: Seq<T>, x: T, target: T, after: bool)
    requires
        list.contains(x),
    ensures
        moved(list, x, target, after).to_multiset() == list.to_multiset(),
        moved(list, x, target, after).len() == list.len(),
{
    broadcast use vstd::seq_lib::group_to_multiset_ensures;

    first_where_facts(list, equals(x));
    let k = choose|k: int| 0 <= k < list.len() && list[k] == x;
    assert(equals(x)(list[k]));
    let i = first_where(list, equals(x))->Some_0;
    let rest = taken_out(list, x);
    first_where_facts(rest, equals(target));
    let at = place_by(rest, target, after);
    vstd::seq_lib::to_multiset_remove(list, i);
    vstd::seq_lib::to_multiset_insert(rest, at, x);
    assert(rest.to_multiset().insert(x) =~= list.to_multiset());
}

fn position_of_id(ids: &Vec<u64>, id: u64) -> (r: Option<usize>)
    ensures
        match r {
            Some(i) => first_where(ids@, equals(id)) == Some(i as int) && i < ids@.len(),
            None => first_where(ids@, equals(id)) is None,
        },
{
    let ghost p = equals(id);
    let mut i: usize = 0;
    while i < ids.len()
        invariant
            0 <= i <= ids@.len(),
            p == equals(id),
            forall|j: int| 0 <= j < i ==> !p(#[trigger] ids@[j]),
        decreases ids@.len() - i,
    {
        if ids[i] == id {
            proof {
                first_where_is(ids@, p, i as int);
            }
            return Some(i);
        }
        i += 1;
    }
    proof {
        first_where_none(ids@, p);
    }
    None
}

fn move_id(ids: Vec<u64>, id: u64, target: u64, after: bool) -> (r: Vec<u64>)
    ensures
        r@ == moved(ids@, id, target, after),
{
    let mut rest: Vec<u64> = ids;
    match position_of_id(&rest, id) {
        Some(i) => {
            rest.remove(i);
        },
        None => {},
    }
    let size: usize = rest.len();
    let at: usize = match position_of_id(&rest, target) {
        Some(i) => {
            assert(i < size);
            if after {
                i + 1
            } else {
                i
            }
        },
        None => size,
    };
    rest.insert(at, id);
    rest
}

fn position_of_text(names: &Vec<String>, name: &str) -> (r: Option<usize>)
    ensures
        match r {
            Some(i) => first_where(texts_of(names@), equals(name@)) == Some(i as int) && i
                < names@.len(),
            None => first_where(texts_of(names@), equals(name@)) is None,
        },
{
    let ghost p = equals(name@);
    let ghost texts = texts_of(names@);
    let mut i: usize = 0;
    while i < names.len()
        invariant
            0 <= i <= names@.len(),
            p == equals(name@),
            texts == texts_of(names@),
            forall|j: int| 0 <= j < i ==> !p(#[trigger] texts[j]),
        decreases names@.len() - i,
    {
        if same(&names[i], name) {
            proof {
                first_where_is(texts, p, i as int);
            }
            return Some(i);
        }
        i += 1;
    }
    proof {
        first_where_none(texts, p);
    }
    None
}

fn move_name(names: Vec<String>, name: String, target: &str, after: bool) -> (r: Vec<String>)
    ensures
        texts_of(r@) == moved(texts_of(names@), name@, target@, after),
{
    let ghost all = texts_of(names@);
    let mut rest: Vec<String> = names;
    match position_of_text(&rest, &name) {
        Some(i) => {
            rest.remove(i);
            assert(texts_of(rest@) =~= all.remove(i as int));
        },
        None => {},
    }
    let ghost left = texts_of(rest@);
    assert(left == taken_out(all, name@));
    let size: usize = rest.len();
    let at: usize = match position_of_text(&rest, target) {
        Some(i) => {
            assert(i < size);
            if after {
                i + 1
            } else {
                i
            }
        },
        None => size,
    };
    let ghost x = name@;
    rest.insert(at, name);
    assert(texts_of(rest@) =~= left.insert(at as int, x));
    rest
}

// ---------------------------------------------------------------------------
// Accounts
// ---------------------------------------------------------------------------

/// The accounts of a group.
pub open spec fn in_group(accounts: Seq<Account>, group: Seq<char>) -> spec_fn(int) -> bool {
    |i: int| accounts[i].group@ == group
}

/// What accounts of a group are ordered by: their place in the user's order,
/// the label without regard to case, and the identifier.
pub open spec fn peer_key(accounts: Seq<Account>) -> spec_fn(int) -> KeyView {
    |i: int|
        KeyView {
            first: accounts[i].sort_order as int,
            words: lowercased(accounts[i].shown_as()),
            second: accounts[i].user_id as int,
            tail: Seq::<char>::empty(),
        }
}

/// The identifiers of these accounts.
pub open spec fn ids_at(accounts: Seq<Account>, rows: Seq<usize>) -> Seq<u64> {
    rows.map_values(|i: usize| accounts[i as int].user_id)
}

/// The accounts with their places in the user's order numbered by the list.
pub open spec fn renumbered(accounts: Seq<Account>, ids: Seq<u64>) -> Seq<Account>
    decreases ids.len(),
{
    if ids.len() == 0 {
        accounts
    } else {
        let rest = renumbered(accounts, ids.drop_last());
        match position_in(rest, ids.last()) {
            Some(i) => rest.update(
                i,
                Account { sort_order: (ids.len() - 1) as u32, ..rest[i] },
            ),
            None => rest,
        }
    }
}

/// The group of an account, or that of none.
pub open spec fn group_of(accounts: Seq<Account>, user_id: u64) -> Seq<char> {
    match position_in(accounts, user_id) {
        Some(i) => accounts[i].group@,
        None => Seq::empty(),
    }
}

/// Whether `after` is `before` with an account moved before or after another
/// within its group. `rows` are the accounts of the group in their order.
pub open spec fn account_moved(
    before: Seq<Account>,
    after: Seq<Account>,
    rows: Seq<usize>,
    user_id: u64,
    target: u64,
    insert_after: bool,
) -> bool {
    &&& shows(
        rows,
        before.len(),
        in_group(before, group_of(before, user_id)),
        peer_key(before),
        false,
    )
    &&& after == renumbered(before, moved(ids_at(before, rows), user_id, target, insert_after))
}

/// Whether `t` is the state after an account was moved.
pub open spec fn account_reordered(
    s: AppState,
    t: AppState,
    user_id: u64,
    target: u64,
    insert_after: bool,
) -> bool {
    &&& exists|rows: Seq<usize>|
        #[trigger] account_moved(
            s.store.accounts@,
            t.store.accounts@,
            rows,
            user_id,
            target,
            insert_after,
        )
    &&& becomes(t, AppState { store: t.store, ..s }, s.out@ + saving(s), s.toasts@)
}

fn renumber(store: &mut AccountStore, ids: &Vec<u64>)
    ensures
        final(store).accounts@ == renumbered(old(store).accounts@, ids@),
{
    let mut k: usize = 0;
    assert(ids@.take(0) =~= Seq::<u64>::empty());
    while k < ids.len()
        invariant
            0 <= k <= ids@.len(),
            store.accounts@ == renumbered(old(store).accounts@, ids@.take(k as int)),
        decreases ids@.len() - k,
    {
        assert(ids@.take(k + 1).drop_last() =~= ids@.take(k as int));
        let ghost here = store.accounts@;
        match position_of(&store.accounts, ids[k]) {
            Some(i) => {
                store.accounts[i].sort_order = k as u32;
                assert(store.accounts@ =~= here.update(
                    i as int,
                    Account { sort_order: k as u32, ..here[i as int] },
                ));
            },
            None => {},
        }
        k += 1;
    }
    assert(ids@.take(k as int) =~= ids@);
}

/// The accounts of a group, in their order.
fn peers(accounts: &Vec<Account>, group: &str) -> (rows: Vec<usize>)
    ensures
        shows(
            rows@,
            accounts@.len(),
            in_group(accounts@, group@),
            peer_key(accounts@),
            false,
        ),
{
    let ghost passes = in_group(accounts@, group@);
    let ghost key = peer_key(accounts@);
    let mut kept: Vec<usize> = Vec::new();
    let mut keys: Vec<Key> = Vec::new();
    let mut i: usize = 0;
    while i < accounts.len()
        invariant
            0 <= i <= accounts@.len(),
            passes == in_group(accounts@, group@),
            key == peer_key(accounts@),
            keys@.len() == kept@.len(),
            forall|a: int|
                0 <= a < kept@.len() ==> (#[trigger] kept@[a]) < i && passes(kept@[a] as int),
            forall|j: int| 0 <= j < i && #[trigger] passes(j) ==> kept@.contains(j as usize),
            forall|a: int, b: int|
                0 <= a < b < kept@.len() ==> (#[trigger] kept@[a]) < (#[trigger] kept@[b]),
            forall|a: int| 0 <= a < keys@.len() ==> (#[trigger] keys@[a])@ == key(kept@[a] as int),
        decreases accounts@.len() - i,
    {
        let ghost before = kept@;
        if same(&accounts[i].group, group) {
            let k: Key = Key {
                first: accounts[i].sort_order as i128,
                words: lower(accounts[i].label()),
                second: accounts[i].user_id as i128,
                tail: String::new(),
            };
            assert(k@.tail =~= Seq::<char>::empty());
            assert(k@ == key(i as int));
            kept.push(i);
            keys.push(k);
            proof {
                assert(kept@[before.len() as int] == i);
                assert forall|j: int| 0 <= j < i + 1 && #[trigger] passes(j) implies kept@.contains(
                    j as usize,
                ) by {
                    if j < i {
                        let a = choose|a: int| 0 <= a < before.len() && before[a] == j as usize;
                        assert(kept@[a] == j as usize);
                    }
                }
            }
        }
        i += 1;
    }
    arrange(&kept, &keys, false, Ghost(accounts@.len()), Ghost(passes), Ghost(key))
}

impl AppState {
    /// Moves an account before or after another of its group.
    pub fn reorder_account(&mut self, user_id: u64, target_user_id: u64, insert_after: bool)
        requires
            old(self).inv(),
        ensures
            final(self).inv(),
            account_reordered(
                *old(self),
                *final(self),
                user_id,
                target_user_id,
                insert_after,
            ),
    {
        let group: String = match position_of(&self.store.accounts, user_id) {
            Some(i) => self.store.accounts[i].group.clone(),
            None => String::new(),
        };
        assert(group@ =~= group_of(self.store.accounts@, user_id));
        let rows: Vec<usize> = peers(&self.store.accounts, &group);
        let mut ids: Vec<u64> = Vec::new();
        let mut k: usize = 0;
        while k < rows.len()
            invariant
                0 <= k <= rows@.len(),
                *self == *old(self),
                forall|a: int|
                    0 <= a < rows@.len() ==> (#[trigger] rows@[a]) < self.store.accounts@.len(),
                ids@ == ids_at(self.store.accounts@, rows@.take(k as int)),
            decreases rows@.len() - k,
        {
            ids.push(self.store.accounts[rows[k]].user_id);
            k += 1;
            assert(ids@ =~= ids_at(self.store.accounts@, rows@.take(k as int)));
        }
        assert(rows@.take(k as int) =~= rows@);
        let order: Vec<u64> = move_id(ids, user_id, target_user_id, insert_after);
        renumber(&mut self.store, &order);
        assert(account_moved(
            old(self).store.accounts@,
            self.store.accounts@,
            rows@,
            user_id,
            target_user_id,
            insert_after,
        ));
        self.auto_save();
    }
}

/// Numbering changes places in the order and nothing else.
pub proof fn numbering_changes_places_only(accounts: Seq<Account>, ids: Seq<u64>)
    ensures
        renumbered(accounts, ids).len() == accounts.len(),
        forall|i: int|
            0 <= i < accounts.len() ==> (#[trigger] renumbered(accounts, ids)[i]) == (Account {
                sort_order: renumbered(accounts, ids)[i].sort_order,
                ..accounts[i]
            }),
    decreases ids.len(),
{
    if ids.len() > 0 {
        numbering_changes_places_only(accounts, ids.drop_last());
        let rest = renumbered(accounts, ids.drop_last());
        position_facts(rest, ids.last());
        let all = renumbered(accounts, ids);
        assert forall|i: int| 0 <= i < accounts.len() implies (#[trigger] all[i]) == (Account {
            sort_order: all[i].sort_order,
            ..accounts[i]
        }) by {
            assert(rest[i] == (Account { sort_order: rest[i].sort_order, ..accounts[i] }));
        }
    }
}

/// After numbering, each account of the list is at its place in it.
pub proof fn each_account_is_at_its_place(accounts: Seq<Account>, ids: Seq<u64>, k: int, i: int)
    requires
        ids_unique(accounts),
        ids.no_duplicates(),
        0 <= k < ids.len(),
        0 <= i < accounts.len(),
        accounts[i].user_id == ids[k],
    ensures
        renumbered(accounts, ids)[i].sort_order == k as u32,
    decreases ids.len(),
{
    let rest = renumbered(accounts, ids.drop_last());
    numbering_changes_places_only(accounts, ids.drop_last());
    assert(rest[i].user_id == accounts[i].user_id);
    position_facts(rest, ids.last());
    if k < ids.len() - 1 {
        assert(ids.drop_last()[k] == ids[k]);
        each_account_is_at_its_place(accounts, ids.drop_last(), k, i);
        match position_in(rest, ids.last()) {
            Some(j) => {
                assert(rest[j].user_id == accounts[j].user_id);
                assert(ids[ids.len() - 1] != ids[k]);
            },
            None => {},
        }
    } else {
        match position_in(rest, ids.last()) {
            Some(j) => {
                assert(rest[j].user_id == accounts[j].user_id);
                if j < i {
                    assert(accounts[j].user_id != accounts[i].user_id);
                } else if i < j {
                    assert(accounts[i].user_id != accounts[j].user_id);
                }
            },
            None => {},
        }
    }
}

// ---------------------------------------------------------------------------
// Groups
// ---------------------------------------------------------------------------

/// The groups of this name.
pub open spec fn named(name: Seq<char>) -> spec_fn(Group) -> bool {
    |g: Group| g.name@ == name
}

/// The index of the group of this name.
pub open spec fn group_in(groups: Seq<Group>, name: Seq<char>) -> Option<int> {
    first_where(groups, named(name))
}

/// What groups are ordered by: their place in the user's order, and the name.
pub open spec fn group_key(groups: Seq<Group>) -> spec_fn(int) -> KeyView {
    |i: int|
        KeyView {
            first: groups[i].sort_order as int,
            words: groups[i].name@,
            second: 0,
            tail: Seq::<char>::empty(),
        }
}

/// Every group.
pub open spec fn any_group() -> spec_fn(int) -> bool {
    |i: int| true
}

/// The names of these groups.
pub open spec fn names_at(groups: Seq<Group>, rows: Seq<usize>) -> Seq<Seq<char>> {
    rows.map_values(|i: usize| groups[i as int].name@)
}

/// The groups with their places in the user's order numbered by the list.
pub open spec fn groups_numbered(groups: Seq<Group>, names: Seq<Seq<char>>) -> Seq<Group>
    decreases names.len(),
{
    if names.len() == 0 {
        groups
    } else {
        let rest = groups_numbered(groups, names.drop_last());
        match group_in(rest, names.last()) {
            Some(i) => rest.update(i, Group { sort_order: (names.len() - 1) as u32, ..rest[i] }),
            None => rest,
        }
    }
}

/// Whether `after` is `before` with a group moved before or after another.
/// `rows` are the groups in their order.
pub open spec fn group_moved(
    before: Seq<Group>,
    after: Seq<Group>,
    rows: Seq<usize>,
    name: Seq<char>,
    target: Seq<char>,
    insert_after: bool,
) -> bool {
    &&& shows(rows, before.len(), any_group(), group_key(before), false)
    &&& after == groups_numbered(before, moved(names_at(before, rows), name, target, insert_after))
}

/// Whether `t` is the state after a group was moved.
pub open spec fn group_reordered(
    s: AppState,
    t: AppState,
    name: Seq<char>,
    target: Seq<char>,
    insert_after: bool,
) -> bool {
    &&& exists|rows: Seq<usize>|
        #[trigger] group_moved(
            s.config.groups@,
            t.config.groups@,
            rows,
            name,
            target,
            insert_after,
        )
    &&& becomes(
        t,
        AppState { config: AppConfig { groups: t.config.groups, ..s.config }, ..s },
        s.out@.push(Effect::SaveConfig),
        s.toasts@,
    )
}

/// Whether `t` is the state after the user's own order was forgotten.
pub open spec fn order_reset(s: AppState, t: AppState) -> bool {
    &&& t.store.accounts@.len() == s.store.accounts@.len()
    &&& forall|i: int|
        0 <= i < s.store.accounts@.len() ==> (#[trigger] t.store.accounts@[i]) == (Account {
            sort_order: u32::MAX,
            ..s.store.accounts@[i]
        })
    &&& t.config.groups@.len() == s.config.groups@.len()
    &&& forall|i: int|
        0 <= i < s.config.groups@.len() ==> (#[trigger] t.config.groups@[i]) == (Group {
            sort_order: u32::MAX,
            ..s.config.groups@[i]
        })
    &&& becomes(
        t,
        AppState {
            store: t.store,
            config: AppConfig { groups: t.config.groups, ..s.config },
            ..s
        },
        s.out@.push(Effect::SaveConfig) + saving(s),
        s.toasts@,
    )
}

/// The index of the group of this name.
pub fn group_position(groups: &Vec<Group>, name: &str) -> (r: Option<usize>)
    ensures
        match r {
            Some(i) => group_in(groups@, name@) == Some(i as int) && i < groups@.len(),
            None => group_in(groups@, name@) is None,
        },
{
    let ghost p = named(name@);
    let mut i: usize = 0;
    while i < groups.len()
        invariant
            0 <= i <= groups@.len(),
            p == named(name@),
            forall|j: int| 0 <= j < i ==> !p(#[trigger] groups@[j]),
        decreases groups@.len() - i,
    {
        if same(&groups[i].name, name) {
            proof {
                first_where_is(groups@, p, i as int);
            }
            return Some(i);
        }
        i += 1;
    }
    proof {
        first_where_none(groups@, p);
    }
    None
}

fn number_groups(groups: &mut Vec<Group>, names: &Vec<String>)
    ensures
        final(groups)@ == groups_numbered(old(groups)@, texts_of(names@)),
{
    let ghost texts = texts_of(names@);
    let mut k: usize = 0;
    assert(texts.take(0) =~= Seq::<Seq<char>>::empty());
    while k < names.len()
        invariant
            0 <= k <= names@.len(),
            texts == texts_of(names@),
            groups@ == groups_numbered(old(groups)@, texts.take(k as int)),
        decreases names@.len() - k,
    {
        assert(texts.take(k + 1).drop_last() =~= texts.take(k as int));
        assert(texts.take(k + 1).last() == names@[k as int]@);
        let ghost here = groups@;
        match group_position(groups, &names[k]) {
            Some(i) => {
                groups[i].sort_order = k as u32;
                assert(groups@ =~= here.update(
                    i as int,
                    Group { sort_order: k as u32, ..here[i as int] },
                ));
            },
            None => {},
        }
        k += 1;
    }
    assert(texts.take(k as int) =~= texts);
}

/// The groups, in their order.
fn all_groups(groups: &Vec<Group>) -> (rows: Vec<usize>)
    ensures
        shows(rows@, groups@.len(), any_group(), group_key(groups@), false),
{
    let ghost passes = any_group();
    let ghost key = group_key(groups@);
    let mut kept: Vec<usize> = Vec::new();
    let mut keys: Vec<Key> = Vec::new();
    let mut i: usize = 0;
    while i < groups.len()
        invariant
            0 <= i <= groups@.len(),
            passes == any_group(),
            key == group_key(groups@),
            keys@.len() == i,
            kept@.len() == i,
            forall|a: int| 0 <= a < kept@.len() ==> (#[trigger] kept@[a]) == a,
            forall|a: int| 0 <= a < keys@.len() ==> (#[trigger] keys@[a])@ == key(a),
        decreases groups@.len() - i,
    {
        let k: Key = Key {
            first: groups[i].sort_order as i128,
            words: groups[i].name.clone(),
            second: 0,
            tail: String::new(),
        };
        assert(k@.tail =~= Seq::<char>::empty());
        assert(k@ == key(i as int));
        kept.push(i);
        keys.push(k);
        i += 1;
    }
    proof {
        assert forall|j: int| 0 <= j < groups@.len() && #[trigger] passes(j) implies kept@.contains(
            j as usize,
        ) by {
            assert(kept@[j] == j as usize);
        }
    }
    arrange(&kept, &keys, false, Ghost(groups@.len()), Ghost(passes), Ghost(key))
}

impl AppState {
    /// Moves a group before or after another.
    pub fn reorder_group(&mut self, group_name: String, target_group: &str, insert_after: bool)
        requires
            old(self).inv(),
        ensures
            final(self).inv(),
            group_reordered(
                *old(self),
                *final(self),
                group_name@,
                target_group@,
                insert_after,
            ),
    {
        let rows: Vec<usize> = all_groups(&self.config.groups);
        let mut names: Vec<String> = Vec::new();
        let mut k: usize = 0;
        assert(texts_of(names@) =~= names_at(self.config.groups@, rows@.take(0)));
        while k < rows.len()
            invariant
                0 <= k <= rows@.len(),
                *self == *old(self),
                forall|a: int|
                    0 <= a < rows@.len() ==> (#[trigger] rows@[a]) < self.config.groups@.len(),
                texts_of(names@) == names_at(self.config.groups@, rows@.take(k as int)),
            decreases rows@.len() - k,
        {
            let ghost before = texts_of(names@);
            names.push(self.config.groups[rows[k]].name.clone());
            k += 1;
            assert(texts_of(names@) =~= before.push(
                self.config.groups@[rows@[k - 1] as int].name@,
            ));
            assert(texts_of(names@) =~= names_at(self.config.groups@, rows@.take(k as int)));
        }
        assert(rows@.take(k as int) =~= rows@);
        let order: Vec<String> = move_name(names, group_name, target_group, insert_after);
        number_groups(&mut self.config.groups, &order);
        assert(group_moved(
            old(self).config.groups@,
            self.config.groups@,
            rows@,
            group_name@,
            target_group@,
            insert_after,
        ));
        self.out.push(Effect::SaveConfig);
    }

    /// Forgets the user's own order of accounts and groups.
    pub fn reset_custom_order(&mut self)
        requires
            old(self).inv(),
        ensures
            final(self).inv(),
            order_reset(*old(self), *final(self)),
    {
        let ghost accounts = self.store.accounts@;
        let ghost groups = self.config.groups@;
        let mut i: usize = 0;
        while i < self.store.accounts.len()
            invariant
                0 <= i <= self.store.accounts@.len(),
                self.inv(),
                accounts == old(self).store.accounts@,
                self.store.accounts@.len() == accounts.len(),
                forall|j: int|
                    0 <= j < i ==> (#[trigger] self.store.accounts@[j]) == (Account {
                        sort_order: u32::MAX,
                        ..accounts[j]
                    }),
                forall|j: int|
                    i <= j < accounts.len() ==> (#[trigger] self.store.accounts@[j]) == accounts[j],
                *self == (AppState { store: self.store, ..*old(self) }),
            decreases self.store.accounts@.len() - i,
        {
            self.store.accounts[i].sort_order = u32::MAX;
            i += 1;
        }
        let mut k: usize = 0;
        while k < self.config.groups.len()
            invariant
                0 <= k <= self.config.groups@.len(),
                self.inv(),
                accounts == old(self).store.accounts@,
                groups == old(self).config.groups@,
                self.store.accounts@.len() == accounts.len(),
                forall|j: int|
                    0 <= j < accounts.len() ==> (#[trigger] self.store.accounts@[j]) == (Account {
                        sort_order: u32::MAX,
                        ..accounts[j]
                    }),
                self.config.groups@.len() == groups.len(),
                forall|j: int|
                    0 <= j < k ==> (#[trigger] self.config.groups@[j]) == (Group {
                        sort_order: u32::MAX,
                        ..groups[j]
                    }),
                forall|j: int|
                    k <= j < groups.len() ==> (#[trigger] self.config.groups@[j]) == groups[j],
                *self == (AppState {
                    store: self.store,
                    config: AppConfig { groups: self.config.groups, ..old(self).config },
                    ..*old(self)
                }),
            decreases self.config.groups@.len() - k,
        {
            self.config.groups[k].sort_order = u32::MAX;
            k += 1;
        }
        self.out.push(Effect::SaveConfig);
        self.auto_save();
    }
}

} // verus!
