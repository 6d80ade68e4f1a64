//! The rows of the asset manager: which are shown, in what order, and what
//! their cells say.

use vstd::prelude::*;

use crate::asset_manager::{
    countdown_text, elapsed_text, format_countdown, format_elapsed, seconds_between,
    AssetManagerAction, AssetManagerState, KindNames, RemoteInventory, SortKey,
};
use crate::assets::{AssetIndex, AssetKind, AssetRecord, AssetState, Creator};
use crate::bridge::CreationItem;
use crate::lists::TextSet;
use crate::models::Account;
use crate::order::{arrange, picked, shows, the_same_items_show_alike, Key, KeyView};
use crate::text::{
    contains_text, decimal, decimal_of, holds, join2, join3, lower, lowercased, trim, trimmed,
};

verus! {

// ---------------------------------------------------------------------------
// The library and the queue
// ---------------------------------------------------------------------------

/// Which rows of the index a list is about.
#[derive(Debug, Clone, Copy, PartialEq, Eq, Structural)]
pub enum Part {
    /// What cleared moderation.
    Library,
    /// Everything else.
    Queue,
}

/// Whether a row belongs to the part.
pub open spec fn belongs(part: Part, state: AssetState) -> bool {
    match part {
        Part::Library => state is Approved,
        Part::Queue => state !is Approved,
    }
}

/// Whether a name or a number holds what is searched for. Case does not
/// matter, and nothing searched for is found everywhere.
pub open spec fn found(needle: Seq<char>, name: Seq<char>, asset: Option<u64>) -> bool {
    ||| needle.len() == 0
    ||| contains_text(lowercased(name), needle)
    ||| (asset matches Some(id) && contains_text(decimal(id as nat), needle))
}

/// What is searched for.
pub open spec fn needle_of(search: Seq<char>) -> Seq<char> {
    lowercased(trimmed(search))
}

fn finds(needle: &str, name: &str, asset: Option<u64>) -> (b: bool)
    ensures
        b == found(needle@, name@, asset),
{
    if needle.is_empty() {
        return true;
    }
    if holds(&lower(name), needle) {
        return true;
    }
    match asset {
        Some(id) => holds(&decimal_of(id), needle),
        None => false,
    }
}

/// When a row last changed.
pub open spec fn changed_at(r: AssetRecord) -> i64 {
    match r.updated_at {
        Some(at) => at,
        None => r.created_at,
    }
}

/// The number of a creator.
pub open spec fn creator_id(creator: Creator) -> u64 {
    match creator {
        Creator::User(id) => id,
        Creator::Group(id) => id,
    }
}

/// What a row of the index is sorted by. Rows that are alike are kept apart by
/// their identifiers, so that they do not change places between frames.
pub open spec fn record_key(r: AssetRecord, sort: SortKey, names: KindNames) -> KeyView {
    let none = Seq::<char>::empty();
    match sort {
        SortKey::Name => KeyView {
            first: 0,
            words: lowercased(r.display_name@),
            second: 0,
            tail: r.row_id@,
        },
        SortKey::Id => KeyView {
            first: match r.state.asset() {
                Some(id) => id as int,
                None => -1,
            },
            words: none,
            second: 0,
            tail: r.row_id@,
        },
        SortKey::Kind => KeyView {
            first: 0,
            words: names.written(r.kind),
            second: 0,
            tail: r.row_id@,
        },
        SortKey::Date => KeyView {
            first: changed_at(r) as int,
            words: none,
            second: 0,
            tail: r.row_id@,
        },
        SortKey::CreatorName => KeyView {
            first: creator_id(r.creator) as int,
            words: none,
            second: 0,
            tail: r.row_id@,
        },
    }
}

fn key_of_record(r: &AssetRecord, sort: SortKey, names: &KindNames) -> (k: Key)
    ensures
        k@ == record_key(*r, sort, *names),
{
    let tail: String = r.row_id.clone();
    match sort {
        SortKey::Name => Key { first: 0, words: lower(&r.display_name), second: 0, tail },
        SortKey::Id => {
            let first: i128 = match r.state.asset_id() {
                Some(id) => id as i128,
                None => -1,
            };
            Key { first, words: String::new(), second: 0, tail }
        },
        SortKey::Kind => Key { first: 0, words: names.of(r.kind).to_owned(), second: 0, tail },
        SortKey::Date => {
            let first: i128 = match r.updated_at {
                Some(at) => at as i128,
                None => r.created_at as i128,
            };
            Key { first, words: String::new(), second: 0, tail }
        },
        SortKey::CreatorName => {
            let first: i128 = match r.creator {
                Creator::User(id) => id as i128,
                Creator::Group(id) => id as i128,
            };
            Key { first, words: String::new(), second: 0, tail }
        },
    }
}

/// Whether a row is shown: it belongs to the part, is of the chosen kind, and
/// holds what is searched for.
pub open spec fn record_passes(r: AssetRecord, part: Part, state: AssetManagerState) -> bool {
    &&& belongs(part, r.state)
    &&& (state.type_filter matches Some(kind) ==> r.kind == kind)
    &&& found(needle_of(state.search@), r.display_name@, r.state.asset())
}

/// The rows of the index that pass.
pub open spec fn records_passing(
    records: Seq<AssetRecord>,
    part: Part,
    state: AssetManagerState,
) -> spec_fn(int) -> bool {
    |i: int| record_passes(records[i], part, state)
}

/// The keys of the rows of the index.
pub open spec fn records_keyed(
    records: Seq<AssetRecord>,
    state: AssetManagerState,
    names: KindNames,
) -> spec_fn(int) -> KeyView {
    |i: int| record_key(records[i], state.sort, names)
}

/// Whether `rows` are the rows of the index that the list shows, in order.
pub open spec fn index_shows(
    rows: Seq<usize>,
    index: AssetIndex,
    part: Part,
    state: AssetManagerState,
    names: KindNames,
) -> bool {
    shows(
        rows,
        index.records@.len(),
        records_passing(index.records@, part, state),
        records_keyed(index.records@, state, names),
        !state.sort_ascending,
    )
}

/// The rows of the index that the list shows, in order.
pub fn visible_rows(
    index: &AssetIndex,
    part: Part,
    state: &AssetManagerState,
    names: &KindNames,
) -> (rows: Vec<usize>)
    ensures
        index_shows(rows@, *index, part, *state, *names),
{
    let needle: String = lower(&trim(&state.search));
    let ghost passes = records_passing(index.records@, part, *state);
    let ghost key = records_keyed(index.records@, *state, *names);
    let mut kept: Vec<usize> = Vec::new();
    let mut keys: Vec<Key> = Vec::new();
    let size: usize = index.records.len();
    let mut i: usize = 0;
    while i < size
        invariant
            0 <= i <= size,
            size == index.records@.len(),
            needle@ == needle_of(state.search@),
            passes == records_passing(index.records@, part, *state),
            key == records_keyed(index.records@, *state, *names),
            keys@.len() == kept@.len(),
            forall|a: int|
                0 <= a < kept@.len() ==> (#[trigger] kept@[a]) < i && passes(kept@[a] as int),
            forall|j: int| 0 <= j < i && #[trigger] passes(j) ==> kept@.contains(j as usize),
            forall|a: int, b: int|
                0 <= a < b < kept@.len() ==> (#[trigger] kept@[a]) < (#[trigger] kept@[b]),
            forall|a: int| 0 <= a < keys@.len() ==> (#[trigger] keys@[a])@ == key(kept@[a] as int),
        decreases size - i,
    {
        let r: &AssetRecord = &index.records[i];
        let here: bool = match (part, &r.state) {
            (Part::Library, AssetState::Approved { .. }) => true,
            (Part::Library, _) => false,
            (Part::Queue, AssetState::Approved { .. }) => false,
            (Part::Queue, _) => true,
        };
        let right_kind: bool = match state.type_filter {
            Some(kind) => r.kind == kind,
            None => true,
        };
        let ghost before = kept@;
        let ghost keyed = keys@;
        assert(passes(i as int) == record_passes(*r, part, *state));
        if here && right_kind && finds(&needle, &r.display_name, r.state.asset_id()) {
            kept.push(i);
            keys.push(key_of_record(r, state.sort, names));
            assert(kept@[before.len() as int] == i);
        }
        proof {
            assert forall|j: int| 0 <= j < i + 1 && #[trigger] passes(j) implies kept@.contains(
                j as usize,
            ) by {
                if j < i {
                    let k = choose|k: int| 0 <= k < before.len() && before[k] == j as usize;
                    assert(kept@[k] == j as usize);
                }
            }
            assert forall|a: int| 0 <= a < keys@.len() implies (#[trigger] keys@[a])@ == key(
                kept@[a] as int,
            ) by {
                if a < before.len() {
                    assert(keys@[a] == keyed[a] && kept@[a] == before[a]);
                }
            }
        }
        i += 1;
    }
    arrange(
        &kept,
        &keys,
        !state.sort_ascending,
        Ghost(index.records@.len()),
        Ghost(passes),
        Ghost(key),
    )
}

/// Every row of the index that passes the search and the filter is in the
/// library or in the queue, and in one of them only.
pub proof fn a_row_is_in_the_library_or_the_queue(r: AssetRecord, state: AssetManagerState)
    ensures
        record_passes(r, Part::Library, state) ==> !record_passes(r, Part::Queue, state),
        (state.type_filter matches Some(kind) ==> r.kind == kind) && found(
            needle_of(state.search@),
            r.display_name@,
            r.state.asset(),
        ) ==> record_passes(r, Part::Library, state) || record_passes(r, Part::Queue, state),
{
}

/// The order in which the index holds its rows makes no difference to the list:
/// two indexes with the same rows, each with an identifier of its own, show the
/// same rows in the same order.
pub proof fn the_order_of_the_index_does_not_matter(
    one: AssetIndex,
    other: AssetIndex,
    a: Seq<usize>,
    b: Seq<usize>,
    part: Part,
    state: AssetManagerState,
    names: KindNames,
)
    requires
        one.records@.to_multiset() == other.records@.to_multiset(),
        forall|i: int, j: int|
            0 <= i < j < one.records@.len() ==> (#[trigger] one.records@[i]).row_id@ != (
            #[trigger] one.records@[j]).row_id@,
        index_shows(a, one, part, state, names),
        index_shows(b, other, part, state, names),
    ensures
        picked(one.records@, a) == picked(other.records@, b),
{
    let passes = |r: AssetRecord| record_passes(r, part, state);
    let key = |r: AssetRecord| record_key(r, state.sort, names);
    let x = one.records@;
    let y = other.records@;
    assert(one.records.len() == x.len());
    assert(records_passing(x, part, state) =~= (|i: int| passes(x[i])));
    assert(records_passing(y, part, state) =~= (|i: int| passes(y[i])));
    assert(records_keyed(x, state, names) =~= (|i: int| key(x[i])));
    assert(records_keyed(y, state, names) =~= (|i: int| key(y[i])));
    assert forall|i: int, j: int| 0 <= i < j < x.len() implies key(#[trigger] x[i]) != key(
        #[trigger] x[j],
    ) by {
        assert(key(x[i]).tail == x[i].row_id@ && key(x[j]).tail == x[j].row_id@);
    }
    the_same_items_show_alike(x, y, a, b, passes, key, !state.sort_ascending);
}

// ---------------------------------------------------------------------------
// The inventory
// ---------------------------------------------------------------------------

/// What an inventory can be sorted by: all its assets have one creator, so
/// that column stands for the date.
pub open spec fn inventory_sort(sort: SortKey) -> SortKey {
    if sort == SortKey::CreatorName {
        SortKey::Date
    } else {
        sort
    }
}

/// What an inventory is sorted by, and the column that is marked for it.
pub fn inventory_sort_key(sort: SortKey) -> (key: SortKey)
    ensures
        key == inventory_sort(sort),
{
    match sort {
        SortKey::CreatorName => SortKey::Date,
        other => other,
    }
}

/// What an asset of an inventory is sorted by. One without a date counts as
/// the oldest.
pub open spec fn item_key(item: CreationItem, sort: SortKey, names: KindNames) -> KeyView {
    let none = Seq::<char>::empty();
    match inventory_sort(sort) {
        SortKey::Name => KeyView {
            first: 0,
            words: lowercased(item.name@),
            second: item.asset_id as int,
            tail: none,
        },
        SortKey::Id => KeyView {
            first: item.asset_id as int,
            words: none,
            second: item.asset_id as int,
            tail: none,
        },
        SortKey::Kind => KeyView {
            first: 0,
            words: names.written(item.kind),
            second: item.asset_id as int,
            tail: none,
        },
        _ => KeyView {
            first: match item.updated {
                Some(at) => at as int,
                None => i64::MIN as int - 1,
            },
            words: none,
            second: item.asset_id as int,
            tail: none,
        },
    }
}

fn key_of_item(item: &CreationItem, sort: SortKey, names: &KindNames) -> (k: Key)
    ensures
        k@ == item_key(*item, sort, *names),
{
    let second: i128 = item.asset_id as i128;
    match inventory_sort_key(sort) {
        SortKey::Name => Key { first: 0, words: lower(&item.name), second, tail: String::new() },
        SortKey::Id => Key { first: second, words: String::new(), second, tail: String::new() },
        SortKey::Kind => Key {
            first: 0,
            words: names.of(item.kind).to_owned(),
            second,
            tail: String::new(),
        },
        _ => {
            let first: i128 = match item.updated {
                Some(at) => at as i128,
                None => (i64::MIN as i128) - 1,
            };
            Key { first, words: String::new(), second, tail: String::new() }
        },
    }
}

/// The assets of an inventory that hold what is searched for.
pub open spec fn items_passing(items: Seq<CreationItem>, search: Seq<char>) -> spec_fn(int) -> bool {
    |i: int| found(needle_of(search), items[i].name@, Some(items[i].asset_id))
}

/// The keys of the assets of an inventory.
pub open spec fn items_keyed(
    items: Seq<CreationItem>,
    sort: SortKey,
    names: KindNames,
) -> spec_fn(int) -> KeyView {
    |i: int| item_key(items[i], sort, names)
}

/// Whether `rows` are the assets of the inventory that are shown, in order.
pub open spec fn inventory_shows(
    rows: Seq<usize>,
    items: Seq<CreationItem>,
    state: AssetManagerState,
    names: KindNames,
) -> bool {
    shows(
        rows,
        items.len(),
        items_passing(items, state.search@),
        items_keyed(items, state.sort, names),
        !state.sort_ascending,
    )
}

/// The assets of the inventory that are shown, in order.
pub fn inventory_rows(items: &Vec<CreationItem>, state: &AssetManagerState, names: &KindNames) -> (rows:
    Vec<usize>)
    ensures
        inventory_shows(rows@, items@, *state, *names),
{
    let needle: String = lower(&trim(&state.search));
    let ghost passes = items_passing(items@, state.search@);
    let ghost key = items_keyed(items@, state.sort, *names);
    let mut kept: Vec<usize> = Vec::new();
    let mut keys: Vec<Key> = Vec::new();
    let size: usize = items.len();
    let mut i: usize = 0;
    while i < size
        invariant
            0 <= i <= size,
            size == items@.len(),
            needle@ == needle_of(state.search@),
            passes == items_passing(items@, state.search@),
            key == items_keyed(items@, state.sort, *names),
            keys@.len() == kept@.len(),
            forall|a: int|
                0 <= a < kept@.len() ==> (#[trigger] kept@[a]) < i && passes(kept@[a] as int),
            forall|j: int| 0 <= j < i && #[trigger] passes(j) ==> kept@.contains(j as usize),
            forall|a: int, b: int|
                0 <= a < b < kept@.len() ==> (#[trigger] kept@[a]) < (#[trigger] kept@[b]),
            forall|a: int| 0 <= a < keys@.len() ==> (#[trigger] keys@[a])@ == key(kept@[a] as int),
        decreases size - i,
    {
        let item: &CreationItem = &items[i];
        let ghost before = kept@;
        let ghost keyed = keys@;
        assert(passes(i as int) == found(needle@, item.name@, Some(item.asset_id)));
        if finds(&needle, &item.name, Some(item.asset_id)) {
            kept.push(i);
            keys.push(key_of_item(item, state.sort, names));
            assert(kept@[before.len() as int] == i);
        }
        proof {
            assert forall|j: int| 0 <= j < i + 1 && #[trigger] passes(j) implies kept@.contains(
                j as usize,
            ) by {
                if j < i {
                    let k = choose|k: int| 0 <= k < before.len() && before[k] == j as usize;
                    assert(kept@[k] == j as usize);
                }
            }
            assert forall|a: int| 0 <= a < keys@.len() implies (#[trigger] keys@[a])@ == key(
                kept@[a] as int,
            ) by {
                if a < before.len() {
                    assert(keys@[a] == keyed[a] && kept@[a] == before[a]);
                }
            }
        }
        i += 1;
    }
    arrange(
        &kept,
        &keys,
        !state.sort_ascending,
        Ghost(items@.len()),
        Ghost(passes),
        Ghost(key),
    )
}

/// The order in which the assets of an inventory were fetched makes no
/// difference to the list, as long as none was fetched twice.
pub proof fn the_order_of_the_inventory_does_not_matter(
    one: Vec<CreationItem>,
    other: Vec<CreationItem>,
    a: Seq<usize>,
    b: Seq<usize>,
    state: AssetManagerState,
    names: KindNames,
)
    requires
        one@.to_multiset() == other@.to_multiset(),
        forall|i: int, j: int|
            0 <= i < j < one@.len() ==> (#[trigger] one@[i]).asset_id != (
            #[trigger] one@[j]).asset_id,
        inventory_shows(a, one@, state, names),
        inventory_shows(b, other@, state, names),
    ensures
        picked(one@, a) == picked(other@, b),
{
    let passes = |item: CreationItem|
        found(needle_of(state.search@), item.name@, Some(item.asset_id));
    let key = |item: CreationItem| item_key(item, state.sort, names);
    let x = one@;
    let y = other@;
    assert(one.len() == x.len());
    assert(items_passing(x, state.search@) =~= (|i: int| passes(x[i])));
    assert(items_passing(y, state.search@) =~= (|i: int| passes(y[i])));
    assert(items_keyed(x, state.sort, names) =~= (|i: int| key(x[i])));
    assert(items_keyed(y, state.sort, names) =~= (|i: int| key(y[i])));
    assert forall|i: int, j: int| 0 <= i < j < x.len() implies key(#[trigger] x[i]) != key(
        #[trigger] x[j],
    ) by {
        assert(key(x[i]).second == x[i].asset_id && key(x[j]).second == x[j].asset_id);
    }
    the_same_items_show_alike(x, y, a, b, passes, key, !state.sort_ascending);
}

/// What the inventory pane shows.
#[derive(Debug)]
pub enum InventoryPane {
    /// Waiting for Roblox. Where nothing that is loaded or asked for answers
    /// the pane, it is asked for.
    Loading { action: Option<AssetManagerAction> },
    /// Roblox's own reason why there is nothing.
    Error(String),
    /// Nothing to show, and why.
    Empty(String),
    Rows(Vec<usize>),
}

/// What an empty inventory says.
pub open spec fn empty_inventory(filter: Option<AssetKind>, names: KindNames) -> Seq<char> {
    match filter {
        Some(kind) => "This creator has no "@ + names.written(kind) + " assets."@,
        None => "This creator has no assets."@,
    }
}

/// Whether `pane` is what the inventory pane shows.
pub open spec fn pane_shows(
    pane: InventoryPane,
    remote: RemoteInventory,
    state: AssetManagerState,
    names: KindNames,
) -> bool {
    let filter = state.type_filter;
    if !remote.answers(state.node, filter) {
        pane == (InventoryPane::Loading {
            action: if remote.inflight > 0 {
                None
            } else {
                Some(AssetManagerAction::LoadInventory { node: state.node, filter })
            },
        })
    } else if remote.inflight > 0 && remote.items@.len() == 0 {
        pane == (InventoryPane::Loading { action: None })
    } else if remote.error is Some {
        pane == InventoryPane::Error(remote.error->Some_0)
    } else {
        match pane {
            InventoryPane::Rows(rows) => rows@.len() > 0 && inventory_shows(
                rows@,
                remote.items@,
                state,
                names,
            ),
            InventoryPane::Empty(body) => body@ == empty_inventory(filter, names)
                && inventory_shows(Seq::empty(), remote.items@, state, names),
            _ => false,
        }
    }
}

/// What the inventory pane shows.
pub fn inventory_view(remote: &RemoteInventory, state: &AssetManagerState, names: &KindNames) -> (pane:
    InventoryPane)
    ensures
        pane_shows(pane, *remote, *state, *names),
{
    let filter: Option<AssetKind> = state.type_filter;
    if !remote.matches(state.node, filter) {
        let action: Option<AssetManagerAction> = if remote.loading() {
            None
        } else {
            Some(AssetManagerAction::LoadInventory { node: state.node, filter })
        };
        return InventoryPane::Loading { action };
    }
    if remote.loading() && remote.items.len() == 0 {
        return InventoryPane::Loading { action: None };
    }
    match &remote.error {
        Some(error) => {
            return InventoryPane::Error(error.clone());
        },
        None => {},
    }
    let rows: Vec<usize> = inventory_rows(&remote.items, state, names);
    if rows.len() == 0 {
        assert(rows@ =~= Seq::<usize>::empty());
        let body: String = match filter {
            Some(kind) => join3("This creator has no ", names.of(kind), " assets."),
            None => "This creator has no assets.".to_owned(),
        };
        InventoryPane::Empty(body)
    } else {
        InventoryPane::Rows(rows)
    }
}

// ---------------------------------------------------------------------------
// The queue
// ---------------------------------------------------------------------------

/// Whether a row of the queue can be edited and ticked.
pub open spec fn editable(state: AssetState) -> bool {
    state is Queued || state is Failed || state is Invalid
}

/// Whether a row of the queue can be edited and ticked.
pub fn is_editable(state: &AssetState) -> (b: bool)
    ensures
        b == editable(*state),
{
    match state {
        AssetState::Queued => true,
        AssetState::Failed { .. } => true,
        AssetState::Invalid { .. } => true,
        _ => false,
    }
}

/// An edit of a row of the queue.
#[derive(Debug)]
pub enum Edit {
    Name(String, String),
    Kind(String, AssetKind),
    Creator(String, Creator),
}

/// The row that an edit is about.
pub open spec fn edited_row(edit: Edit) -> Seq<char> {
    match edit {
        Edit::Name(row_id, _) => row_id@,
        Edit::Kind(row_id, _) => row_id@,
        Edit::Creator(row_id, _) => row_id@,
    }
}

/// A row with an edit.
pub open spec fn edited(r: AssetRecord, edit: Edit) -> AssetRecord {
    match edit {
        Edit::Name(_, name) => AssetRecord { display_name: name, ..r },
        Edit::Kind(_, kind) => AssetRecord { kind, ..r },
        Edit::Creator(_, creator) => AssetRecord { creator, ..r },
    }
}

/// Applies an edit, and says whether there was a row to edit.
pub fn apply_edit(index: &mut AssetIndex, edit: Edit) -> (changed: bool)
    ensures
        match crate::assets::row_in(old(index).records@, edited_row(edit)) {
            Some(i) => changed && final(index).records@ == old(index).records@.update(
                i,
                edited(old(index).records@[i], edit),
            ),
            None => !changed && final(index).records@ == old(index).records@,
        },
{
    match edit {
        Edit::Name(row_id, name) => match index.position(&row_id) {
            Some(i) => {
                index.records[i].display_name = name;
                true
            },
            None => false,
        },
        Edit::Kind(row_id, kind) => match index.position(&row_id) {
            Some(i) => {
                index.records[i].kind = kind;
                true
            },
            None => false,
        },
        Edit::Creator(row_id, creator) => match index.position(&row_id) {
            Some(i) => {
                index.records[i].creator = creator;
                true
            },
            None => false,
        },
    }
}

/// Turns the tick of a row round.
pub fn toggle_checked(checked: &mut TextSet, row_id: String)
    requires
        old(checked).wf(),
    ensures
        final(checked).wf(),
        final(checked)@ == (if old(checked)@.contains(row_id@) {
            old(checked)@.remove(row_id@)
        } else {
            old(checked)@.insert(row_id@)
        }),
{
    if !checked.remove(&row_id) {
        assert(checked@ =~= old(checked)@);
        checked.insert(row_id);
    }
}

/// Whether a row is sent by the upload button: it is ticked, and waiting or
/// failed. Every failure is offered, whatever it was taken for.
pub open spec fn uploadable(r: AssetRecord, checked: Set<Seq<char>>) -> bool {
    checked.contains(r.row_id@) && (r.state is Queued || r.state is Failed)
}

/// The rows that the upload button sends, in the order in which they show.
pub open spec fn rows_to_upload(
    records: Seq<AssetRecord>,
    rows: Seq<usize>,
    checked: Set<Seq<char>>,
) -> Seq<String>
    decreases rows.len(),
{
    if rows.len() == 0 {
        Seq::empty()
    } else {
        let front = rows_to_upload(records, rows.drop_last(), checked);
        let r = records[rows.last() as int];
        if uploadable(r, checked) {
            front.push(r.row_id)
        } else {
            front
        }
    }
}

/// The rows that the upload button sends.
pub fn uploadable_rows(index: &AssetIndex, rows: &Vec<usize>, checked: &TextSet) -> (r: Vec<String>)
    requires
        forall|a: int| 0 <= a < rows@.len() ==> (#[trigger] rows@[a]) < index.records@.len(),
    ensures
        r@ == rows_to_upload(index.records@, rows@, checked@),
{
    let mut out: Vec<String> = Vec::new();
    let mut a: usize = 0;
    while a < rows.len()
        invariant
            0 <= a <= rows@.len(),
            forall|b: int| 0 <= b < rows@.len() ==> (#[trigger] rows@[b]) < index.records@.len(),
            out@ == rows_to_upload(index.records@, rows@.take(a as int), checked@),
        decreases rows@.len() - a,
    {
        assert(rows@.take(a + 1).drop_last() =~= rows@.take(a as int));
        let r: &AssetRecord = &index.records[rows[a]];
        let waiting: bool = match r.state {
            AssetState::Queued => true,
            AssetState::Failed { .. } => true,
            _ => false,
        };
        if waiting && checked.contains(&r.row_id) {
            out.push(r.row_id.clone());
        }
        a += 1;
    }
    assert(rows@.take(a as int) =~= rows@);
    out
}

/// Whether the upload button can be pressed.
pub fn can_upload(rows: usize, unlocked: bool, read_only: bool) -> (b: bool)
    ensures
        b == (rows > 0 && unlocked && !read_only),
{
    rows > 0 && unlocked && !read_only
}

// ---------------------------------------------------------------------------
// The status of a row
// ---------------------------------------------------------------------------

/// The color of a status.
#[derive(Debug, Clone, Copy, PartialEq, Eq, Structural)]
pub enum Tone {
    Plain,
    Weak,
    Amber,
    Red,
    Green,
    Blue,
}

/// What the status cell of a row says.
#[derive(Debug)]
pub struct Status {
    pub text: String,
    pub tone: Tone,
    pub busy: bool,
    /// What it says under the pointer, if anything.
    pub hint: Option<String>,
    /// Whether the row can be sent again by hand.
    pub retry: bool,
}

/// What a [`Status`] says.
pub struct StatusView {
    pub text: Seq<char>,
    pub tone: Tone,
    pub busy: bool,
    pub hint: Option<Seq<char>>,
    pub retry: bool,
}

impl View for Status {
    type V = StatusView;

    open spec fn view(&self) -> StatusView {
        StatusView {
            text: self.text@,
            tone: self.tone,
            busy: self.busy,
            hint: match self.hint {
                Some(h) => Some(h@),
                None => None,
            },
            retry: self.retry,
        }
    }
}

/// The status of a row. A row that waits out a failed attempt counts down; a
/// failed row can always be sent again by hand, whatever the failure was taken
/// for.
pub open spec fn status_shown(r: AssetRecord, now: i64) -> StatusView {
    let plain = StatusView {
        text: ""@,
        tone: Tone::Plain,
        busy: false,
        hint: None,
        retry: false,
    };
    match r.state {
        AssetState::Queued => match r.retry_at {
            Some(at) => StatusView {
                text: "Retrying "@ + countdown_text(seconds_between(now, at)),
                tone: Tone::Amber,
                busy: true,
                hint: Some("Attempt "@ + decimal((r.attempts + 1) as nat) + " starts shortly"@),
                ..plain
            },
            None => StatusView { text: "Ready"@, tone: Tone::Weak, ..plain },
        },
        AssetState::Invalid { reason } => StatusView {
            text: "Not supported"@,
            tone: Tone::Red,
            hint: Some(reason@),
            ..plain
        },
        AssetState::Duplicate { asset_id } => StatusView {
            text: "Already uploaded"@,
            tone: Tone::Amber,
            hint: Some("Uploaded before as "@ + decimal(asset_id as nat)),
            ..plain
        },
        AssetState::Uploading => StatusView { text: "Uploading"@, busy: true, ..plain },
        AssetState::Pending { since, .. } => StatusView {
            text: "Processing "@ + elapsed_text(seconds_between(since, now)),
            busy: true,
            hint: Some("Roblox is still ingesting the file."@),
            ..plain
        },
        AssetState::InReview { asset_id, since, .. } => StatusView {
            text: "In review "@ + elapsed_text(seconds_between(since, now)),
            tone: Tone::Blue,
            busy: true,
            hint: Some(
                "Uploaded as "@ + decimal(asset_id as nat)
                    + ". Roblox has not published a moderation verdict yet, so the asset may not be usable."@,
            ),
            ..plain
        },
        AssetState::Approved { asset_id, .. } => StatusView {
            text: decimal(asset_id as nat),
            tone: Tone::Green,
            hint: Some("Approved. Click to copy the asset ID"@),
            ..plain
        },
        AssetState::Rejected { reason } => StatusView {
            text: "Rejected"@,
            tone: Tone::Red,
            hint: Some(reason@),
            ..plain
        },
        AssetState::Failed { message, retryable } => StatusView {
            text: "Failed"@,
            tone: if retryable {
                Tone::Amber
            } else {
                Tone::Red
            },
            hint: Some(message@),
            retry: true,
            ..plain
        },
        AssetState::Expired { .. } => StatusView {
            text: "Timed out"@,
            tone: Tone::Weak,
            hint: Some(
                "Roblox stopped reporting on this upload. It may still have been published."@,
            ),
            ..plain
        },
        AssetState::Cancelled => StatusView { text: "Cancelled"@, tone: Tone::Weak, ..plain },
    }
}

fn says(text: &str, tone: Tone, busy: bool) -> (s: Status)
    ensures
        s@ == (StatusView { text: text@, tone, busy, hint: None, retry: false }),
{
    Status { text: text.to_owned(), tone, busy, hint: None, retry: false }
}

fn hints(text: &str, tone: Tone, busy: bool, hint: &str) -> (s: Status)
    ensures
        s@ == (StatusView { text: text@, tone, busy, hint: Some(hint@), retry: false }),
{
    Status { text: text.to_owned(), tone, busy, hint: Some(hint.to_owned()), retry: false }
}

/// The status of a row.
pub fn status_cell(r: &AssetRecord, now: i64) -> (s: Status)
    ensures
        s@ == status_shown(*r, now),
{
    match &r.state {
        AssetState::Queued => match r.retry_at {
            Some(at) => hints(
                &join2("Retrying ", &format_countdown(at, now)),
                Tone::Amber,
                true,
                &join3("Attempt ", &decimal_of((r.attempts as u64) + 1), " starts shortly"),
            ),
            None => says("Ready", Tone::Weak, false),
        },
        AssetState::Invalid { reason } => hints("Not supported", Tone::Red, false, reason),
        AssetState::Duplicate { asset_id } => hints(
            "Already uploaded",
            Tone::Amber,
            false,
            &join2("Uploaded before as ", &decimal_of(*asset_id)),
        ),
        AssetState::Uploading => says("Uploading", Tone::Plain, true),
        AssetState::Pending { since, .. } => hints(
            &join2("Processing ", &format_elapsed(*since, now)),
            Tone::Plain,
            true,
            "Roblox is still ingesting the file.",
        ),
        AssetState::InReview { asset_id, since, .. } => hints(
            &join2("In review ", &format_elapsed(*since, now)),
            Tone::Blue,
            true,
            &join3(
                "Uploaded as ",
                &decimal_of(*asset_id),
                ". Roblox has not published a moderation verdict yet, so the asset may not be usable.",
            ),
        ),
        AssetState::Approved { asset_id, .. } => hints(
            &decimal_of(*asset_id),
            Tone::Green,
            false,
            "Approved. Click to copy the asset ID",
        ),
        AssetState::Rejected { reason } => hints("Rejected", Tone::Red, false, reason),
        AssetState::Failed { message, retryable } => {
            let tone: Tone = if *retryable {
                Tone::Amber
            } else {
                Tone::Red
            };
            let mut s: Status = hints("Failed", tone, false, message);
            s.retry = true;
            s
        },
        AssetState::Expired { .. } => hints(
            "Timed out",
            Tone::Weak,
            false,
            "Roblox stopped reporting on this upload. It may still have been published.",
        ),
        AssetState::Cancelled => says("Cancelled", Tone::Weak, false),
    }
}

/// A row can be sent again by hand exactly when it has failed, whether or not
/// the failure was taken for a passing one.
pub proof fn every_failed_row_offers_a_retry(r: AssetRecord, now: i64)
    ensures
        status_shown(r, now).retry <==> r.state is Failed,
{
}

// ---------------------------------------------------------------------------
// The acting account
// ---------------------------------------------------------------------------

/// The accounts whose cookies still work.
pub open spec fn cookie_works() -> spec_fn(Account) -> bool {
    |a: Account| !a.cookie_expired
}

/// The account that acts where the chosen one is gone: the first whose cookie
/// still works, else the first.
pub open spec fn fallback_account(accounts: Seq<Account>) -> Option<u64> {
    match crate::lists::first_where(accounts, cookie_works()) {
        Some(i) => Some(accounts[i].user_id),
        None => if accounts.len() > 0 {
            Some(accounts[0].user_id)
        } else {
            None
        },
    }
}

/// Whether the acting account is one of the accounts.
pub open spec fn acting_is_known(acting: Option<u64>, accounts: Seq<Account>) -> bool {
    acting matches Some(id) && crate::models::position_in(accounts, id) is Some
}

/// Points the tab at an account that is there. The creator of new rows belongs
/// to the account, so it goes with it.
pub fn reconcile_acting_account(state: &mut AssetManagerState, accounts: &Vec<Account>)
    ensures
        acting_is_known(old(state).acting_user_id, accounts@) ==> *final(state) == *old(state),
        !acting_is_known(old(state).acting_user_id, accounts@) ==> *final(state) == (
        AssetManagerState {
            acting_user_id: fallback_account(accounts@),
            batch_creator: None,
            ..*old(state)
        }),
{
    let known: bool = match state.acting_user_id {
        Some(id) => crate::models::position_of(accounts, id).is_some(),
        None => false,
    };
    if known {
        return;
    }
    state.acting_user_id = first_working(accounts);
    state.batch_creator = None;
}

fn first_working(accounts: &Vec<Account>) -> (r: Option<u64>)
    ensures
        r == fallback_account(accounts@),
{
    let ghost p = cookie_works();
    let mut i: usize = 0;
    while i < accounts.len()
        invariant
            0 <= i <= accounts@.len(),
            p == cookie_works(),
            forall|j: int| 0 <= j < i ==> !p(#[trigger] accounts@[j]),
        decreases accounts@.len() - i,
    {
        if !accounts[i].cookie_expired {
            proof {
                crate::lists::first_where_is(accounts@, p, i as int);
            }
            return Some(accounts[i].user_id);
        }
        i += 1;
    }
    proof {
        crate::lists::first_where_none(accounts@, p);
    }
    if accounts.len() > 0 {
        Some(accounts[0].user_id)
    } else {
        None
    }
}

/// As long as there are accounts, the acting account is one of them.
pub proof fn the_fallback_is_an_account(accounts: Seq<Account>)
    requires
        accounts.len() > 0,
    ensures
        acting_is_known(fallback_account(accounts), accounts),
{
    let p = cookie_works();
    crate::lists::first_where_facts(accounts, p);
    let id = fallback_account(accounts)->Some_0;
    crate::models::position_facts(accounts, id);
    match crate::lists::first_where(accounts, p) {
        Some(i) => {
            assert(accounts[i].user_id == id);
        },
        None => {
            assert(accounts[0].user_id == id);
        },
    }
}

// ---------------------------------------------------------------------------
// Thumbnails
// ---------------------------------------------------------------------------

/// The numbers in ascending order, each once.
pub fn distinct_sorted(ids: &Vec<u64>) -> (r: Vec<u64>)
    ensures
        forall|a: int, b: int| 0 <= a < b < r@.len() ==> (#[trigger] r@[a]) < (#[trigger] r@[b]),
        forall|x: u64| r@.contains(x) <==> ids@.contains(x),
{
    let mut out: Vec<u64> = Vec::new();
    let mut i: usize = 0;
    while i < ids.len()
        invariant
            0 <= i <= ids@.len(),
            forall|a: int, b: int|
                0 <= a < b < out@.len() ==> (#[trigger] out@[a]) < (#[trigger] out@[b]),
            forall|x: u64| out@.contains(x) <==> ids@.take(i as int).contains(x),
        decreases ids@.len() - i,
    {
        let id: u64 = ids[i];
        let mut k: usize = 0;
        while k < out.len() && out[k] < id
            invariant
                0 <= k <= out@.len(),
                forall|a: int| 0 <= a < k ==> (#[trigger] out@[a]) < id,
            decreases out@.len() - k,
        {
            k += 1;
        }
        let ghost before = out@;
        if k == out.len() || out[k] != id {
            out.insert(k, id);
        }
        proof {
            let now = ids@.take(i + 1);
            assert(now[i as int] == id);
            assert forall|x: u64| out@.contains(x) <==> now.contains(x) by {
                if now.contains(x) && x != id {
                    let j = choose|j: int| 0 <= j < now.len() && now[j] == x;
                    assert(ids@.take(i as int)[j] == x);
                    assert(before.contains(x));
                }
                if ids@.take(i as int).contains(x) {
                    let j = choose|j: int| 0 <= j < i && ids@.take(i as int)[j] == x;
                    assert(now[j] == x);
                }
                if before.contains(x) {
                    let j = choose|j: int| 0 <= j < before.len() && before[j] == x;
                    if before.len() < out@.len() {
                        assert(out@[if j < k { j } else { j + 1 }] == x);
                    }
                }
                if out@.contains(x) && x != id {
                    let j = choose|j: int| 0 <= j < out@.len() && out@[j] == x;
                    if before.len() < out@.len() {
                        assert(before[if j < k { j } else { j - 1 }] == x);
                    }
                    assert(before.contains(x));
                }
                assert(out@[k as int] == id);
            }
            assert forall|a: int, b: int| 0 <= a < b < out@.len() implies (#[trigger] out@[a]) < (
            #[trigger] out@[b]) by {
                if before.len() < out@.len() {
                    let x = if a < k { a } else { a - 1 };
                    let y = if b < k { b } else { b - 1 };
                    if a != k {
                        assert(out@[a] == before[x]);
                    }
                    if b != k {
                        assert(out@[b] == before[y]);
                    }
                }
            }
        }
        i += 1;
    }
    assert(ids@.take(i as int) =~= ids@);
    out
}

} // verus!
