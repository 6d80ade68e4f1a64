//! What the lists of the asset manager show, in terms of the rows and of what
//! the user asked to see.

use vstd::prelude::*;

use crate::asset_manager::{
    account_named, clicked, creator_named, sort_clicked, AssetManagerAction, AssetManagerState,
    KindNames, RemoteInventory, SortKey,
};
use crate::asset_panes::{all_edited, library_shows, LibraryPane};
use crate::asset_rows::{
    edited_row, fallback_account, index_shows, inventory_shows, pane_shows,
    rows_to_upload, status_shown, Edit, InventoryPane, Part, Tone,
};
use crate::assets::{AssetIndex, AssetRecord, AssetState, Creator};
use crate::bridge::CreationItem;
use crate::lists::first_where_facts;
use crate::models::{position_facts, Account};
use crate::text::{contains_text, decimal, lowercased, text_before, text_order_is_total, trimmed};

verus! {

// ---------------------------------------------------------------------------
// Which rows, in which order
// ---------------------------------------------------------------------------

/// Whether a search finds a name or a number: it is blank, or one of them holds
/// it, whatever the case of the letters.
pub open spec fn search_finds(search: Seq<char>, name: Seq<char>, asset_id: Option<u64>) -> bool {
    ||| lowercased(trimmed(search)).len() == 0
    ||| contains_text(lowercased(name), lowercased(trimmed(search)))
    ||| (asset_id matches Some(id) && contains_text(
        decimal(id as nat),
        lowercased(trimmed(search)),
    ))
}

/// Whether a row is one that the list is about.
pub open spec fn is_wanted(r: AssetRecord, part: Part, state: AssetManagerState) -> bool {
    &&& part is Library <==> r.state is Approved
    &&& state.type_filter is None || state.type_filter == Some(r.kind)
    &&& search_finds(state.search@, r.display_name@, r.state.asset())
}

/// Whether a row may stand before another in rising order.
pub open spec fn not_after(a: AssetRecord, b: AssetRecord, sort: SortKey, names: KindNames) -> bool {
    match sort {
        SortKey::Name => !text_before(lowercased(b.display_name@), lowercased(a.display_name@)),
        SortKey::Id => match (a.state.asset(), b.state.asset()) {
            (Some(x), Some(y)) => x <= y,
            (Some(_), None) => false,
            (None, _) => true,
        },
        SortKey::Kind => !text_before(names.written(b.kind), names.written(a.kind)),
        SortKey::Date => last_touched(a) <= last_touched(b),
        SortKey::CreatorName => number_of(a.creator) <= number_of(b.creator),
    }
}

/// When a row was last changed, or else made.
pub open spec fn last_touched(r: AssetRecord) -> i64 {
    if r.updated_at is Some {
        r.updated_at->Some_0
    } else {
        r.created_at
    }
}

/// The number of a creator.
pub open spec fn number_of(creator: Creator) -> u64 {
    match creator {
        Creator::User(id) => id,
        Creator::Group(id) => id,
    }
}

/// The list shows exactly the rows that belong to it, are of the chosen kind and
/// are found by the search, each once, in the chosen order.
pub proof fn the_list_shows_the_wanted_rows_in_order(
    rows: Seq<usize>,
    index: AssetIndex,
    part: Part,
    state: AssetManagerState,
    names: KindNames,
)
    requires
        index_shows(rows, index, part, state, names),
    ensures
        forall|i: usize| #[trigger]
            rows.contains(i) <==> i < index.records@.len() && is_wanted(
                index.records@[i as int],
                part,
                state,
            ),
        forall|a: int, b: int|
            0 <= a < b < rows.len() ==> {
                let x = index.records@[#[trigger] rows[a] as int];
                let y = index.records@[#[trigger] rows[b] as int];
                &&& rows[a] != rows[b]
                &&& if state.sort_ascending {
                    not_after(x, y, state.sort, names)
                } else {
                    not_after(y, x, state.sort, names)
                }
            },
{
    let records = index.records@;
    let passes = crate::asset_rows::records_passing(records, part, state);
    let key = crate::asset_rows::records_keyed(records, state, names);
    assert forall|i: usize| #[trigger] rows.contains(i) <==> i < records.len() && is_wanted(
        records[i as int],
        part,
        state,
    ) by {
        if rows.contains(i) {
            let a = choose|a: int| 0 <= a < rows.len() && rows[a] == i;
            assert(passes(rows[a] as int));
        }
        if i < records.len() && is_wanted(records[i as int], part, state) {
            assert(passes(i as int));
        }
    }
    assert forall|a: int, b: int| 0 <= a < b < rows.len() implies {
        let x = records[#[trigger] rows[a] as int];
        let y = records[#[trigger] rows[b] as int];
        &&& rows[a] != rows[b]
        &&& if state.sort_ascending {
            not_after(x, y, state.sort, names)
        } else {
            not_after(y, x, state.sort, names)
        }
    } by {
        let i = rows[a] as int;
        let j = rows[b] as int;
        assert(crate::order::shown_first(key, !state.sort_ascending, i, j));
        crate::order::keys_are_totally_ordered(key(i), key(j));
        crate::order::keys_are_totally_ordered(key(j), key(i));
        text_order_is_total(
            lowercased(records[i].display_name@),
            lowercased(records[j].display_name@),
        );
        text_order_is_total(
            lowercased(records[j].display_name@),
            lowercased(records[i].display_name@),
        );
        text_order_is_total(names.written(records[i].kind), names.written(records[j].kind));
        text_order_is_total(names.written(records[j].kind), names.written(records[i].kind));
    }
}

/// Whether an asset may stand before another in rising order. An inventory is of
/// one creator, so that column orders by date; an asset without a date is the
/// oldest.
pub open spec fn item_not_after(
    a: CreationItem,
    b: CreationItem,
    sort: SortKey,
    names: KindNames,
) -> bool {
    match sort {
        SortKey::Name => !text_before(lowercased(b.name@), lowercased(a.name@)),
        SortKey::Id => a.asset_id <= b.asset_id,
        SortKey::Kind => !text_before(names.written(b.kind), names.written(a.kind)),
        SortKey::Date | SortKey::CreatorName => match (a.updated, b.updated) {
            (Some(x), Some(y)) => x <= y,
            (Some(_), None) => false,
            (None, _) => true,
        },
    }
}

/// The inventory shows exactly the assets that are found by the search, each
/// once, in the chosen order.
pub proof fn the_inventory_shows_the_found_assets_in_order(
    rows: Seq<usize>,
    items: Seq<CreationItem>,
    state: AssetManagerState,
    names: KindNames,
)
    requires
        inventory_shows(rows, items, state, names),
    ensures
        forall|i: usize| #[trigger]
            rows.contains(i) <==> i < items.len() && search_finds(
                state.search@,
                items[i as int].name@,
                Some(items[i as int].asset_id),
            ),
        forall|a: int, b: int|
            0 <= a < b < rows.len() ==> {
                let x = items[#[trigger] rows[a] as int];
                let y = items[#[trigger] rows[b] as int];
                &&& rows[a] != rows[b]
                &&& if state.sort_ascending {
                    item_not_after(x, y, state.sort, names)
                } else {
                    item_not_after(y, x, state.sort, names)
                }
            },
{
    let passes = crate::asset_rows::items_passing(items, state.search@);
    let key = crate::asset_rows::items_keyed(items, state.sort, names);
    assert forall|i: usize| #[trigger] rows.contains(i) <==> i < items.len() && search_finds(
        state.search@,
        items[i as int].name@,
        Some(items[i as int].asset_id),
    ) by {
        if rows.contains(i) {
            let a = choose|a: int| 0 <= a < rows.len() && rows[a] == i;
            assert(passes(rows[a] as int));
        }
        if i < items.len() && search_finds(
            state.search@,
            items[i as int].name@,
            Some(items[i as int].asset_id),
        ) {
            assert(passes(i as int));
        }
    }
    assert forall|a: int, b: int| 0 <= a < b < rows.len() implies {
        let x = items[#[trigger] rows[a] as int];
        let y = items[#[trigger] rows[b] as int];
        &&& rows[a] != rows[b]
        &&& if state.sort_ascending {
            item_not_after(x, y, state.sort, names)
        } else {
            item_not_after(y, x, state.sort, names)
        }
    } by {
        let i = rows[a] as int;
        let j = rows[b] as int;
        assert(crate::order::shown_first(key, !state.sort_ascending, i, j));
        crate::order::keys_are_totally_ordered(key(i), key(j));
        crate::order::keys_are_totally_ordered(key(j), key(i));
        text_order_is_total(lowercased(items[i].name@), lowercased(items[j].name@));
        text_order_is_total(lowercased(items[j].name@), lowercased(items[i].name@));
        text_order_is_total(names.written(items[i].kind), names.written(items[j].kind));
        text_order_is_total(names.written(items[j].kind), names.written(items[i].kind));
    }
}

/// The inventory pane shows assets only of the inventory and the kind that are
/// chosen; it asks for them where nothing is out, says what went wrong where
/// something did, and calls an inventory empty only where nothing is found.
pub proof fn the_inventory_pane_is_about_what_is_chosen(
    pane: InventoryPane,
    remote: RemoteInventory,
    state: AssetManagerState,
    names: KindNames,
)
    requires
        pane_shows(pane, remote, state, names),
    ensures
        pane is Rows || pane is Empty ==> remote.requested && remote.node == Some(state.node)
            && remote.filter == state.type_filter && remote.error is None,
        pane is Error ==> remote.error == Some(pane->Error_0) && remote.node == Some(state.node),
        remote.requested && remote.node == Some(state.node) && remote.filter == state.type_filter
            && remote.inflight == 0 && remote.error is Some ==> pane is Error,
        pane is Loading && pane->Loading_action is Some ==> remote.inflight == 0,
        !remote.requested && remote.inflight == 0 ==> pane == (InventoryPane::Loading {
            action: Some(
                AssetManagerAction::LoadInventory { node: state.node, filter: state.type_filter },
            ),
        }),
        pane is Empty ==> forall|i: int|
            0 <= i < remote.items@.len() ==> !search_finds(
                state.search@,
                (#[trigger] remote.items@[i]).name@,
                Some(remote.items@[i].asset_id),
            ),
{
    if pane is Empty {
        let none = Seq::<usize>::empty();
        the_inventory_shows_the_found_assets_in_order(none, remote.items@, state, names);
        assert(remote.items.len() == remote.items@.len());
        assert forall|i: int| 0 <= i < remote.items@.len() implies !search_finds(
            state.search@,
            (#[trigger] remote.items@[i]).name@,
            Some(remote.items@[i].asset_id),
        ) by {
            assert(!none.contains(i as usize));
        }
    }
}

/// The library is called empty only where no approved row is wanted, and its
/// tiles stand for such rows, each with its own number, name and file.
pub proof fn the_library_shows_approved_rows(
    pane: LibraryPane,
    index: AssetIndex,
    state: AssetManagerState,
    names: KindNames,
)
    requires
        library_shows(pane, index, state, names),
    ensures
        pane is Empty ==> forall|i: int|
            0 <= i < index.records@.len() ==> !is_wanted(
                #[trigger] index.records@[i],
                Part::Library,
                state,
            ),
        pane matches LibraryPane::Tiles(cells) ==> forall|k: int|
            0 <= k < cells@.len() ==> exists|i: int|
                {
                    let c = #[trigger] cells@[k];
                    let r = #[trigger] index.records@[i];
                    &&& 0 <= i < index.records@.len()
                    &&& is_wanted(r, Part::Library, state)
                    &&& c.key == r.row_id && c.asset_id == r.state.asset()
                    &&& c.name == r.display_name && c.kind == r.kind
                    &&& c.file_path == Some(r.file_path)
                },
        pane matches LibraryPane::Table(rows) ==> forall|i: usize| #[trigger]
            rows@.contains(i) <==> i < index.records@.len() && is_wanted(
                index.records@[i as int],
                Part::Library,
                state,
            ),
{
    let rows = choose|rows: Seq<usize>| #[trigger]
        index_shows(rows, index, Part::Library, state, names) && match pane {
            LibraryPane::Empty => rows.len() == 0,
            LibraryPane::Tiles(cells) => rows.len() > 0 && state.view_mode
                != crate::asset_manager::ViewMode::Details && crate::asset_panes::tiles_of_rows(
                cells@,
                index.records@,
                rows,
            ),
            LibraryPane::Table(shown) => rows.len() > 0 && state.view_mode
                == crate::asset_manager::ViewMode::Details && shown@ == rows,
        };
    the_list_shows_the_wanted_rows_in_order(rows, index, Part::Library, state, names);
    assert(index.records.len() == index.records@.len());
    if pane is Empty {
        assert forall|i: int| 0 <= i < index.records@.len() implies !is_wanted(
            #[trigger] index.records@[i],
            Part::Library,
            state,
        ) by {
            assert(!rows.contains(i as usize));
        }
    }
    match pane {
        LibraryPane::Tiles(cells) => {
            assert forall|k: int| 0 <= k < cells@.len() implies exists|i: int|
                {
                    let c = #[trigger] cells@[k];
                    let r = #[trigger] index.records@[i];
                    &&& 0 <= i < index.records@.len()
                    &&& is_wanted(r, Part::Library, state)
                    &&& c.key == r.row_id && c.asset_id == r.state.asset()
                    &&& c.name == r.display_name && c.kind == r.kind
                    &&& c.file_path == Some(r.file_path)
                } by {
                assert(rows.contains(rows[k]));
                let r = index.records@[rows[k] as int];
                assert(crate::asset_panes::tile_of_record(cells@[k], r));
            }
        },
        _ => {},
    }
}

// ---------------------------------------------------------------------------
// The queue
// ---------------------------------------------------------------------------

/// The upload button sends exactly the rows on the list that are ticked and
/// wait or have failed.
pub proof fn the_ticked_rows_are_sent(
    records: Seq<AssetRecord>,
    rows: Seq<usize>,
    checked: Set<Seq<char>>,
    row_id: String,
)
    ensures
        rows_to_upload(records, rows, checked).contains(row_id) <==> exists|k: int|
            {
                let r = records[#[trigger] rows[k] as int];
                &&& 0 <= k < rows.len()
                &&& r.row_id == row_id
                &&& checked.contains(r.row_id@)
                &&& r.state is Queued || r.state is Failed
            },
    decreases rows.len(),
{
    let all = rows_to_upload(records, rows, checked);
    if rows.len() > 0 {
        let front = rows.drop_last();
        let before = rows_to_upload(records, front, checked);
        the_ticked_rows_are_sent(records, front, checked, row_id);
        if all.contains(row_id) {
            let m = choose|m: int| 0 <= m < all.len() && all[m] == row_id;
            if m < before.len() {
                assert(before[m] == row_id);
                let k = choose|k: int|
                    {
                        let r = records[#[trigger] front[k] as int];
                        &&& 0 <= k < front.len()
                        &&& r.row_id == row_id
                        &&& checked.contains(r.row_id@)
                        &&& r.state is Queued || r.state is Failed
                    };
                assert(rows[k] == front[k]);
            } else {
                assert(records[rows[rows.len() - 1] as int].row_id == row_id);
            }
        }
        if exists|k: int|
            {
                let r = records[#[trigger] rows[k] as int];
                &&& 0 <= k < rows.len()
                &&& r.row_id == row_id
                &&& checked.contains(r.row_id@)
                &&& r.state is Queued || r.state is Failed
            } {
            let k = choose|k: int|
                {
                    let r = records[#[trigger] rows[k] as int];
                    &&& 0 <= k < rows.len()
                    &&& r.row_id == row_id
                    &&& checked.contains(r.row_id@)
                    &&& r.state is Queued || r.state is Failed
                };
            if k < front.len() {
                assert(front[k] == rows[k]);
                assert(before.contains(row_id));
                let m = choose|m: int| 0 <= m < before.len() && before[m] == row_id;
                assert(all[m] == row_id);
            } else {
                assert(all[before.len() as int] == row_id);
            }
        }
    }
}

/// An edit changes on its own row what it says and nothing else; without that
/// row nothing changes.
pub proof fn an_edit_changes_what_it_says(records: Seq<AssetRecord>, edit: Edit, i: int)
    requires
        0 <= i < records.len(),
    ensures
        ({
            let after = all_edited(records, seq![edit]).0;
            let first = records[i].row_id@ == edited_row(edit) && forall|j: int|
                0 <= j < i ==> (#[trigger] records[j]).row_id@ != edited_row(edit);
            &&& after.len() == records.len()
            &&& !first ==> after[i] == records[i]
            &&& first ==> match edit {
                Edit::Name(_, name) => after[i] == (AssetRecord {
                    display_name: name,
                    ..records[i]
                }),
                Edit::Kind(_, kind) => after[i] == (AssetRecord { kind, ..records[i] }),
                Edit::Creator(_, creator) => after[i] == (AssetRecord { creator, ..records[i] }),
            }
        }),
        match edit {
            Edit::Name(row_id, _) => edited_row(edit) == row_id@,
            Edit::Kind(row_id, _) => edited_row(edit) == row_id@,
            Edit::Creator(row_id, _) => edited_row(edit) == row_id@,
        },
{
    let p = crate::assets::identified(edited_row(edit));
    first_where_facts(records, p);
    assert(seq![edit].drop_last() =~= Seq::<Edit>::empty());
    assert(all_edited(records, Seq::<Edit>::empty()) == (records, false));
    assert forall|j: int| 0 <= j < records.len() implies p(#[trigger] records[j]) == (
    records[j].row_id@ == edited_row(edit)) by {}
}

/// A status tells what the row's state holds: an approved row its number, a row
/// that was refused or failed the reason, a duplicate what it was uploaded as. A
/// row counts as busy exactly while something is still to come by itself.
pub proof fn a_status_tells_the_state(r: AssetRecord, now: i64)
    ensures
        ({
            let shown = status_shown(r, now);
            &&& shown.busy <==> r.state is Uploading || r.state is Pending || r.state is InReview
                || (r.state is Queued && r.retry_at is Some)
            &&& match r.state {
                AssetState::Approved { asset_id, .. } => shown.text == decimal(asset_id as nat)
                    && shown.tone == Tone::Green,
                AssetState::Invalid { reason } => shown.hint == Some(reason@) && shown.tone
                    == Tone::Red,
                AssetState::Rejected { reason } => shown.hint == Some(reason@) && shown.tone
                    == Tone::Red,
                AssetState::Failed { message, retryable } => shown.hint == Some(message@) && (
                shown.tone == Tone::Amber <==> retryable),
                AssetState::Duplicate { asset_id } => shown.hint == Some(
                    "Uploaded before as "@ + decimal(asset_id as nat),
                ),
                _ => shown.tone != Tone::Green && shown.tone != Tone::Red,
            }
        }),
{
}

// ---------------------------------------------------------------------------
// Clicks
// ---------------------------------------------------------------------------

/// A plain click selects the row alone, and nothing where it was selected alone.
/// A click that adds turns the row round and leaves the others.
pub proof fn a_click_selects(selected: Set<Seq<char>>, key: Seq<char>, other: Seq<char>)
    requires
        other != key,
    ensures
        clicked(selected, key, true).contains(key) <==> !selected.contains(key),
        clicked(selected, key, true).contains(other) <==> selected.contains(other),
        !clicked(selected, key, false).contains(other),
        clicked(selected, key, false).contains(key) <==> !(selected =~= set![key]),
{
}

/// A click on the column that orders turns the order round; a click on another
/// orders by it, the newest first by date and rising by all others.
pub proof fn a_click_on_a_column_orders_by_it(sort: SortKey, ascending: bool, key: SortKey)
    ensures
        sort_clicked(sort, ascending, key).0 == key,
        sort == key ==> sort_clicked(sort, ascending, key).1 != ascending,
        sort != key ==> (sort_clicked(sort, ascending, key).1 <==> !(key is Date)),
        sort_clicked(key, sort_clicked(key, ascending, key).1, key) == (key, ascending),
{
}

/// The account that steps in has a cookie that works, where any has one.
pub proof fn who_steps_in_has_a_working_cookie(accounts: Seq<Account>)
    ensures
        accounts.len() == 0 <==> fallback_account(accounts) is None,
        (exists|i: int| 0 <= i < accounts.len() && !(#[trigger] accounts[i]).cookie_expired)
            ==> exists|i: int|
            0 <= i < accounts.len() && !(#[trigger] accounts[i]).cookie_expired && fallback_account(
                accounts,
            ) == Some(accounts[i].user_id),
{
    let p = crate::asset_rows::cookie_works();
    first_where_facts(accounts, p);
    match crate::lists::first_where(accounts, p) {
        Some(i) => {
            assert(p(accounts[i]));
        },
        None => {
            assert forall|i: int| 0 <= i < accounts.len() implies (
            #[trigger] accounts[i]).cookie_expired by {
                assert(!p(accounts[i]));
            }
        },
    }
}

/// While names are hidden, a creator is named by its number or its place alone:
/// lists of accounts that agree on their identifiers name it alike.
pub proof fn hidden_creators_show_no_names(
    creator: Creator,
    one: Seq<Account>,
    other: Seq<Account>,
)
    requires
        one.len() == other.len(),
        forall|i: int| 0 <= i < one.len() ==> (#[trigger] one[i]).user_id == other[i].user_id,
    ensures
        creator_named(creator, one, true) == creator_named(creator, other, true),
{
    match creator {
        Creator::User(id) => {
            position_facts(one, id);
            position_facts(other, id);
            match (
                crate::models::position_in(one, id),
                crate::models::position_in(other, id),
            ) {
                (Some(i), Some(j)) => {
                    assert(one[i].user_id == other[i].user_id);
                    assert(one[j].user_id == other[j].user_id);
                    assert(i == j);
                    assert(account_named(one[i], one, true) == account_named(
                        other[j],
                        other,
                        true,
                    ));
                },
                (Some(i), None) => {
                    assert(one[i].user_id == other[i].user_id);
                },
                (None, Some(j)) => {
                    assert(one[j].user_id == other[j].user_id);
                },
                (None, None) => {},
            }
        },
        Creator::Group(_) => {},
    }
}

} // verus!
