//! The panes of the asset manager: which one shows, what its tiles and menus
//! offer, and what the clicks of a frame come to.

use vstd::prelude::*;

use std::collections::HashMap;

use crate::asset_manager::{
    account_label, account_named, AssetManagerAction, AssetManagerState, KindNames,
    RemoteInventory, TreeNode, ViewMode,
};
use crate::asset_rows::{
    apply_edit, edited, edited_row, index_shows, toggle_checked, visible_rows, Edit, Part,
};
use crate::asset_view::View as Shown;
use crate::assets::{row_in, AssetIndex, AssetKind, AssetRecord, Creator};
use crate::bridge::{CreationItem, GroupTarget};
use crate::models::{position_in, position_of, Account};
use crate::text::{decimal, decimal_of, join2, join3, opt_text};

verus! {

// ---------------------------------------------------------------------------
// Which pane shows
// ---------------------------------------------------------------------------

/// A pane of the asset manager.
#[derive(Debug, Clone, Copy, PartialEq, Eq, Structural)]
pub enum Pane {
    /// There is no account to upload from.
    NoAccounts,
    Library,
    Inventory,
    /// Always a table: what is picked for each row has no place on a tile.
    Queue,
}

/// Which pane shows.
pub fn pane_of(accounts: usize, view: Shown, node: TreeNode) -> (p: Pane)
    ensures
        p == if accounts == 0 {
            Pane::NoAccounts
        } else {
            match view {
                Shown::ImportQueue => Pane::Queue,
                Shown::Library => match node {
                    TreeNode::Uploads => Pane::Library,
                    TreeNode::Inventory(_) => Pane::Inventory,
                },
            }
        },
{
    if accounts == 0 {
        return Pane::NoAccounts;
    }
    match view {
        Shown::ImportQueue => Pane::Queue,
        Shown::Library => match node {
            TreeNode::Uploads => Pane::Library,
            TreeNode::Inventory(_) => Pane::Inventory,
        },
    }
}

// ---------------------------------------------------------------------------
// The tree
// ---------------------------------------------------------------------------

/// The name of the acting account in the tree.
pub open spec fn own_node_named(user_id: u64, accounts: Seq<Account>, anonymize: bool) -> Seq<
    char,
> {
    match position_in(accounts, user_id) {
        Some(i) => account_named(accounts[i], accounts, anonymize),
        None => "User "@ + decimal(user_id as nat),
    }
}

/// Whether `nodes` are the inventories of the tree: that of the acting account,
/// then those of its groups.
pub open spec fn inventories_offered(
    nodes: Seq<(TreeNode, String)>,
    acting: Option<u64>,
    accounts: Seq<Account>,
    groups: Seq<GroupTarget>,
    anonymize: bool,
) -> bool {
    match acting {
        None => nodes.len() == 0,
        Some(user_id) => {
            &&& nodes.len() == groups.len() + 1
            &&& nodes[0].0 == TreeNode::Inventory(Creator::User(user_id))
            &&& nodes[0].1@ == own_node_named(user_id, accounts, anonymize)
            &&& forall|i: int|
                0 <= i < groups.len() ==> (#[trigger] nodes[i + 1]).0 == TreeNode::Inventory(
                    Creator::Group(groups[i].group_id),
                ) && nodes[i + 1].1 == groups[i].name
        },
    }
}

/// The inventories of the tree.
pub fn tree_nodes(
    acting: Option<u64>,
    accounts: &Vec<Account>,
    groups: &Vec<GroupTarget>,
    anonymize: bool,
) -> (nodes: Vec<(TreeNode, String)>)
    ensures
        inventories_offered(nodes@, acting, accounts@, groups@, anonymize),
{
    let mut nodes: Vec<(TreeNode, String)> = Vec::new();
    let user_id: u64 = match acting {
        None => {
            return nodes;
        },
        Some(user_id) => user_id,
    };
    let own: String = match position_of(accounts, user_id) {
        Some(i) => account_label(&accounts[i], accounts, anonymize),
        None => join2("User ", &decimal_of(user_id)),
    };
    nodes.push((TreeNode::Inventory(Creator::User(user_id)), own));
    let mut i: usize = 0;
    while i < groups.len()
        invariant
            0 <= i <= groups@.len(),
            nodes@.len() == i + 1,
            nodes@[0].0 == TreeNode::Inventory(Creator::User(user_id)),
            nodes@[0].1@ == own_node_named(user_id, accounts@, anonymize),
            forall|j: int|
                0 <= j < i ==> (#[trigger] nodes@[j + 1]).0 == TreeNode::Inventory(
                    Creator::Group(groups@[j].group_id),
                ) && nodes@[j + 1].1 == groups@[j].name,
        decreases groups@.len() - i,
    {
        let ghost before = nodes@;
        nodes.push(
            (TreeNode::Inventory(Creator::Group(groups[i].group_id)), groups[i].name.clone()),
        );
        i += 1;
        assert forall|j: int| 0 <= j < i implies (#[trigger] nodes@[j + 1]).0
            == TreeNode::Inventory(Creator::Group(groups@[j].group_id)) && nodes@[j + 1].1
            == groups@[j].name by {
            if j < i - 1 {
                assert(nodes@[j + 1] == before[j + 1]);
            }
        }
    }
    nodes
}

// ---------------------------------------------------------------------------
// Tiles
// ---------------------------------------------------------------------------

/// One tile of an icon view.
#[derive(Debug)]
pub struct IconCell {
    /// What the tile is selected by: the row, or the number of the asset.
    pub key: String,
    pub asset_id: Option<u64>,
    pub name: String,
    pub kind: AssetKind,
    /// The file that was uploaded. `None` where the asset comes from Roblox.
    pub file_path: Option<String>,
    /// Whether it can be taken off the list. What comes from Roblox cannot.
    pub removable: bool,
}

/// Whether a tile stands for a row of the index.
pub open spec fn tile_of_record(c: IconCell, r: AssetRecord) -> bool {
    &&& c.key == r.row_id
    &&& c.asset_id == r.state.asset()
    &&& c.name == r.display_name
    &&& c.kind == r.kind
    &&& c.file_path == Some(r.file_path)
    &&& c.removable
}

/// Whether a tile stands for an asset on Roblox.
pub open spec fn tile_of_item(c: IconCell, item: CreationItem) -> bool {
    &&& c.key@ == decimal(item.asset_id as nat)
    &&& c.asset_id == Some(item.asset_id)
    &&& c.name == item.name
    &&& c.kind == item.kind
    &&& c.file_path is None
    &&& !c.removable
}

/// Whether the tiles stand for rows of the index.
pub open spec fn tiles_of_rows(
    cells: Seq<IconCell>,
    records: Seq<AssetRecord>,
    rows: Seq<usize>,
) -> bool {
    &&& cells.len() == rows.len()
    &&& forall|a: int|
        0 <= a < rows.len() ==> tile_of_record(#[trigger] cells[a], records[rows[a] as int])
}

/// The tiles of rows of the index.
pub fn library_cells(index: &AssetIndex, rows: &Vec<usize>) -> (cells: Vec<IconCell>)
    requires
        forall|a: int| 0 <= a < rows@.len() ==> (#[trigger] rows@[a]) < index.records@.len(),
    ensures
        tiles_of_rows(cells@, index.records@, rows@),
{
    let mut cells: Vec<IconCell> = Vec::new();
    let mut a: usize = 0;
    while a < rows.len()
        invariant
            0 <= a <= rows@.len(),
            cells@.len() == a,
            forall|b: int| 0 <= b < rows@.len() ==> (#[trigger] rows@[b]) < index.records@.len(),
            forall|b: int|
                0 <= b < a ==> tile_of_record(
                    #[trigger] cells@[b],
                    index.records@[rows@[b] as int],
                ),
        decreases rows@.len() - a,
    {
        let r: &AssetRecord = &index.records[rows[a]];
        let cell = IconCell {
            key: r.row_id.clone(),
            asset_id: r.state.asset_id(),
            name: r.display_name.clone(),
            kind: r.kind,
            file_path: Some(r.file_path.clone()),
            removable: true,
        };
        cells.push(cell);
        a += 1;
    }
    cells
}

/// The tiles of assets on Roblox.
pub fn inventory_cells(items: &Vec<CreationItem>, rows: &Vec<usize>) -> (cells: Vec<IconCell>)
    requires
        forall|a: int| 0 <= a < rows@.len() ==> (#[trigger] rows@[a]) < items@.len(),
    ensures
        cells@.len() == rows@.len(),
        forall|a: int|
            0 <= a < rows@.len() ==> tile_of_item(#[trigger] cells@[a], items@[rows@[a] as int]),
{
    let mut cells: Vec<IconCell> = Vec::new();
    let mut a: usize = 0;
    while a < rows.len()
        invariant
            0 <= a <= rows@.len(),
            cells@.len() == a,
            forall|b: int| 0 <= b < rows@.len() ==> (#[trigger] rows@[b]) < items@.len(),
            forall|b: int|
                0 <= b < a ==> tile_of_item(#[trigger] cells@[b], items@[rows@[b] as int]),
        decreases rows@.len() - a,
    {
        let item: &CreationItem = &items[rows[a]];
        let cell = IconCell {
            key: decimal_of(item.asset_id),
            asset_id: Some(item.asset_id),
            name: item.name.clone(),
            kind: item.kind,
            file_path: None,
            removable: false,
        };
        cells.push(cell);
        a += 1;
    }
    cells
}

/// How many rows of tiles there are.
pub open spec fn tile_row_count(tiles: nat, columns: nat) -> nat {
    if tiles == 0 {
        0
    } else {
        ((tiles - 1) / columns as int + 1) as nat
    }
}

/// How many rows of tiles there are.
pub fn tile_rows(tiles: usize, columns: usize) -> (n: usize)
    requires
        columns > 0,
    ensures
        n == tile_row_count(tiles as nat, columns as nat),
{
    if tiles == 0 {
        0
    } else {
        let full: usize = (tiles - 1) / columns;
        assert(full <= tiles - 1) by (nonlinear_arith)
            requires
                full == (tiles - 1) / columns as int,
                columns > 0,
                tiles > 0,
        ;
        full + 1
    }
}

/// The tiles of one row: from the first to before the last.
pub open spec fn tile_row_of(row: nat, columns: nat, tiles: nat) -> (int, int) {
    let start = row * columns;
    (
        start as int,
        if start + columns > tiles {
            tiles as int
        } else {
            (start + columns) as int
        },
    )
}

/// The tiles of one row.
pub fn tile_row(row: usize, columns: usize, tiles: usize) -> (r: (usize, usize))
    requires
        columns > 0,
        row < tile_row_count(tiles as nat, columns as nat),
    ensures
        (r.0 as int, r.1 as int) == tile_row_of(row as nat, columns as nat, tiles as nat),
        r.0 < r.1 <= tiles,
{
    assert(row * columns <= tiles - 1) by (nonlinear_arith)
        requires
            tiles > 0,
            columns > 0,
            row <= (tiles - 1) / columns as int,
    ;
    let start: usize = row * columns;
    let end: usize = if tiles - start < columns {
        tiles
    } else {
        start + columns
    };
    (start, end)
}

/// Every tile is drawn, and in one row only.
pub proof fn every_tile_is_in_one_row(tile: nat, columns: nat, tiles: nat)
    requires
        columns > 0,
        tile < tiles,
    ensures
        tile / columns < tile_row_count(tiles, columns),
        tile_row_of(tile / columns, columns, tiles).0 <= tile < tile_row_of(
            tile / columns,
            columns,
            tiles,
        ).1,
        forall|row: nat|
            #![trigger tile_row_of(row, columns, tiles)]
            tile_row_of(row, columns, tiles).0 <= tile < tile_row_of(row, columns, tiles).1 ==> row
                == tile / columns,
{
    let own = tile / columns;
    assert(own * columns <= tile && tile < own * columns + columns) by (nonlinear_arith)
        requires
            columns > 0,
            own == tile / columns,
    ;
    assert(tile / columns <= (tiles - 1) / columns as int) by (nonlinear_arith)
        requires
            columns > 0,
            tile <= tiles - 1,
    ;
    assert forall|row: nat|
        #![trigger tile_row_of(row, columns, tiles)]
        tile_row_of(row, columns, tiles).0 <= tile < tile_row_of(row, columns, tiles).1 implies row
        == own by {
        assert(row == own) by (nonlinear_arith)
            requires
                columns > 0,
                row * columns <= tile,
                tile < row * columns + columns,
                own * columns <= tile,
                tile < own * columns + columns,
        ;
    }
}

/// Whether a picture is missing for an asset.
pub open spec fn lacks_picture(pictures: Map<u64, Vec<u8>>) -> spec_fn(IconCell) -> bool {
    |c: IconCell| c.asset_id is Some && !pictures.dom().contains(c.asset_id->Some_0)
}

/// The assets whose picture is wanted: those on screen that have none. Tiles
/// that are scrolled away ask for nothing.
pub fn pictures_wanted(
    cells: &Vec<IconCell>,
    from: usize,
    to: usize,
    pictures: &HashMap<u64, Vec<u8>>,
) -> (ids: Vec<u64>)
    requires
        from <= to <= cells@.len(),
    ensures
        forall|id: u64|
            ids@.contains(id) <==> exists|a: int|
                from <= a < to && lacks_picture(pictures@)(#[trigger] cells@[a])
                    && cells@[a].asset_id == Some(id),
{
    broadcast use vstd::std_specs::hash::group_hash_axioms;

    let mut ids: Vec<u64> = Vec::new();
    let ghost lacks = lacks_picture(pictures@);
    let mut a: usize = from;
    while a < to
        invariant
            from <= a <= to <= cells@.len(),
            lacks == lacks_picture(pictures@),
            forall|id: u64|
                ids@.contains(id) <==> exists|b: int|
                    from <= b < a && lacks(#[trigger] cells@[b]) && cells@[b].asset_id == Some(id),
        decreases to - a,
    {
        broadcast use vstd::std_specs::hash::group_hash_axioms;

        let ghost before = ids@;
        match cells[a].asset_id {
            Some(id) => {
                if !pictures.contains_key(&id) {
                    ids.push(id);
                    assert(ids@.last() == id);
                }
                assert(lacks(cells@[a as int]) == !pictures@.dom().contains(id));
            },
            None => {
                assert(!lacks(cells@[a as int]));
            },
        }
        proof {
            assert forall|id: u64| ids@.contains(id) implies exists|b: int|
                from <= b < a + 1 && lacks(#[trigger] cells@[b]) && cells@[b].asset_id == Some(
                    id,
                ) by {
                if before.contains(id) {
                    let b = choose|b: int|
                        from <= b < a && lacks(#[trigger] cells@[b]) && cells@[b].asset_id == Some(
                            id,
                        );
                    assert(lacks(cells@[b]));
                } else {
                    let k = choose|k: int| 0 <= k < ids@.len() && ids@[k] == id;
                    assert(k == before.len()) by {
                        if k < before.len() {
                            assert(before[k] == id);
                        }
                    }
                    assert(lacks(cells@[a as int]));
                }
            }
            assert forall|id: u64|
                (exists|b: int|
                    from <= b < a + 1 && lacks(#[trigger] cells@[b]) && cells@[b].asset_id == Some(
                        id,
                    )) implies ids@.contains(id) by {
                let b = choose|b: int|
                    from <= b < a + 1 && lacks(#[trigger] cells@[b]) && cells@[b].asset_id == Some(
                        id,
                    );
                if b < a {
                    assert(before.contains(id));
                    let k = choose|k: int| 0 <= k < before.len() && before[k] == id;
                    assert(ids@[k] == id);
                }
            }
        }
        a += 1;
    }
    ids
}

/// What a tile says under the pointer.
pub fn tile_hint(name: &str, kind: &str, asset_id: Option<u64>) -> (s: String)
    ensures
        s@ == match asset_id {
            Some(id) => name@ + "\n"@ + kind@ + " - "@ + decimal(id as nat),
            None => name@ + "\n"@ + kind@,
        },
{
    let head: String = join3(name, "\n", kind);
    match asset_id {
        Some(id) => join3(&head, " - ", &decimal_of(id)),
        None => head,
    }
}

// ---------------------------------------------------------------------------
// The library
// ---------------------------------------------------------------------------

/// What the library shows.
#[derive(Debug)]
pub enum LibraryPane {
    /// Nothing was uploaded yet, or nothing is found.
    Empty,
    Tiles(Vec<IconCell>),
    Table(Vec<usize>),
}

/// Whether `pane` is what the library shows.
pub open spec fn library_shows(
    pane: LibraryPane,
    index: AssetIndex,
    state: AssetManagerState,
    names: KindNames,
) -> bool {
    exists|rows: Seq<usize>| #[trigger]
        index_shows(rows, index, Part::Library, state, names) && match pane {
            LibraryPane::Empty => rows.len() == 0,
            LibraryPane::Tiles(cells) => rows.len() > 0 && state.view_mode != ViewMode::Details
                && tiles_of_rows(cells@, index.records@, rows),
            LibraryPane::Table(shown) => rows.len() > 0 && state.view_mode == ViewMode::Details
                && shown@ == rows,
        }
}

/// What the library shows.
pub fn library_view(index: &AssetIndex, state: &AssetManagerState, names: &KindNames) -> (pane:
    LibraryPane)
    ensures
        library_shows(pane, *index, *state, *names),
{
    let rows: Vec<usize> = visible_rows(index, Part::Library, state, names);
    assert(index_shows(rows@, *index, Part::Library, *state, *names));
    if rows.len() == 0 {
        LibraryPane::Empty
    } else if state.view_mode != ViewMode::Details {
        LibraryPane::Tiles(library_cells(index, &rows))
    } else {
        LibraryPane::Table(rows)
    }
}

// ---------------------------------------------------------------------------
// The queue
// ---------------------------------------------------------------------------

/// What was clicked in the queue in one frame.
#[derive(Debug)]
pub struct QueueClicks {
    pub edits: Vec<Edit>,
    pub toggled: Option<String>,
    pub removed: Option<String>,
    pub retried: Option<String>,
}

/// The rows after some edits, and whether any of the edits met a row.
pub open spec fn all_edited(records: Seq<AssetRecord>, edits: Seq<Edit>) -> (
    Seq<AssetRecord>,
    bool,
)
    decreases edits.len(),
{
    if edits.len() == 0 {
        (records, false)
    } else {
        let (rest, changed) = all_edited(records, edits.drop_last());
        match row_in(rest, edited_row(edits.last())) {
            Some(i) => (rest.update(i, edited(rest[i], edits.last())), true),
            None => (rest, changed),
        }
    }
}

/// Which rows are ticked after a click on a row's box.
pub open spec fn ticked(checked: Set<Seq<char>>, toggled: Option<Seq<char>>) -> Set<Seq<char>> {
    match toggled {
        None => checked,
        Some(row) => if checked.contains(row) {
            checked.remove(row)
        } else {
            checked.insert(row)
        },
    }
}

/// What the tab wants done after a frame of the queue.
#[derive(Debug)]
pub struct QueueResult {
    pub index_changed: bool,
    pub action: Option<AssetManagerAction>,
}

/// Applies what was clicked in the queue: edits in order, the box, and the one
/// thing to be done. Sending a row again comes before taking one off.
pub fn queue_done(
    index: &mut AssetIndex,
    state: &mut AssetManagerState,
    clicks: QueueClicks,
) -> (r: QueueResult)
    requires
        old(state).wf(),
    ensures
        final(state).wf(),
        *final(state) == (AssetManagerState { checked: final(state).checked, ..*old(state) }),
        final(state).checked@ == ticked(old(state).checked@, opt_text(clicks.toggled)),
        (final(index).records@, r.index_changed) == all_edited(
            old(index).records@,
            clicks.edits@,
        ),
        r.action == match clicks.retried {
            Some(row) => Some(AssetManagerAction::RetryRow(row)),
            None => match clicks.removed {
                Some(row) => Some(AssetManagerAction::RemoveRow(row)),
                None => None,
            },
        },
{
    let QueueClicks { edits, toggled, removed, retried } = clicks;
    let ghost all = edits@;
    let ghost before = index.records@;
    let mut index_changed: bool = false;
    for edit in it: edits.into_iter()
        invariant
            it.seq() == all,
            (index.records@, index_changed) == all_edited(before, all.take(it.index())),
    {
        let ghost done = all.take(it.index());
        assert(all.take(it.index() + 1).drop_last() =~= done);
        if apply_edit(index, edit) {
            index_changed = true;
        }
    }
    assert(all.take(all.len() as int) =~= all);
    match toggled {
        Some(row) => {
            toggle_checked(&mut state.checked, row);
        },
        None => {},
    }
    let action: Option<AssetManagerAction> = match retried {
        Some(row) => Some(AssetManagerAction::RetryRow(row)),
        None => match removed {
            Some(row) => Some(AssetManagerAction::RemoveRow(row)),
            None => None,
        },
    };
    QueueResult { index_changed, action }
}

/// The edit that picking a kind for a row makes, if it makes one.
pub fn kind_edit(r: &AssetRecord, picked: AssetKind) -> (e: Option<Edit>)
    ensures
        e == if crate::asset_rows::editable(r.state) && picked != r.kind {
            Some(Edit::Kind(r.row_id, picked))
        } else {
            None
        },
{
    if crate::asset_rows::is_editable(&r.state) && picked != r.kind {
        Some(Edit::Kind(r.row_id.clone(), picked))
    } else {
        None
    }
}

/// The edit that picking a creator for a row makes, if it makes one.
pub fn creator_edit(r: &AssetRecord, picked: Creator) -> (e: Option<Edit>)
    ensures
        e == if crate::asset_rows::editable(r.state) && picked != r.creator {
            Some(Edit::Creator(r.row_id, picked))
        } else {
            None
        },
{
    if crate::asset_rows::is_editable(&r.state) && picked != r.creator {
        Some(Edit::Creator(r.row_id.clone(), picked))
    } else {
        None
    }
}

/// Who new files are uploaded as: whoever was picked, else the first that can
/// be.
pub fn batch_creator(picked: Option<Creator>, options: &Vec<(Creator, String)>) -> (c: Option<
    Creator,
>)
    ensures
        c == match picked {
            Some(creator) => Some(creator),
            None => if options@.len() > 0 {
                Some(options@[0].0)
            } else {
                None
            },
        },
{
    match picked {
        Some(creator) => Some(creator),
        None => if options.len() > 0 {
            Some(options[0].0)
        } else {
            None
        },
    }
}

/// Edits keep the rows: there are as many as before, under the same
/// identifiers and in the same order.
pub proof fn edits_keep_the_rows(records: Seq<AssetRecord>, edits: Seq<Edit>)
    ensures
        all_edited(records, edits).0.len() == records.len(),
        forall|i: int|
            0 <= i < records.len() ==> (#[trigger] all_edited(records, edits).0[i]).row_id
                == records[i].row_id,
    decreases edits.len(),
{
    if edits.len() > 0 {
        edits_keep_the_rows(records, edits.drop_last());
        let rest = all_edited(records, edits.drop_last()).0;
        crate::lists::first_where_facts(
            rest,
            crate::assets::identified(edited_row(edits.last())),
        );
        assert forall|i: int| 0 <= i < records.len() implies (#[trigger] all_edited(
            records,
            edits,
        ).0[i]).row_id == records[i].row_id by {
            assert(rest[i].row_id == records[i].row_id);
        }
    }
}

// ---------------------------------------------------------------------------
// Menus
// ---------------------------------------------------------------------------

/// An entry of the menu of an asset.
#[derive(Debug, Clone, Copy, PartialEq, Eq, Structural)]
pub enum MenuEntry {
    CopyId(u64),
    /// The form that goes into scripts.
    CopyUri(u64),
    CopyName,
    OpenPage(u64),
    Grant,
    CopyPath,
    Reveal,
    Remove,
}

/// The entries of the menu of an asset. What needs a number, a file or a row of
/// one's own is there only where there is one.
pub open spec fn menu_offered(asset_id: Option<u64>, has_file: bool, removable: bool) -> Seq<
    MenuEntry,
> {
    (match asset_id {
        Some(id) => seq![MenuEntry::CopyId(id), MenuEntry::CopyUri(id)],
        None => Seq::empty(),
    }) + seq![MenuEntry::CopyName] + (match asset_id {
        Some(id) => seq![MenuEntry::OpenPage(id), MenuEntry::Grant],
        None => Seq::empty(),
    }) + (if has_file {
        seq![MenuEntry::CopyPath, MenuEntry::Reveal]
    } else {
        Seq::empty()
    }) + (if removable {
        seq![MenuEntry::Remove]
    } else {
        Seq::empty()
    })
}

/// The entries of the menu of an asset.
pub fn menu_entries(cell: &IconCell) -> (r: Vec<MenuEntry>)
    ensures
        r@ == menu_offered(cell.asset_id, cell.file_path is Some, cell.removable),
{
    let mut r: Vec<MenuEntry> = Vec::new();
    match cell.asset_id {
        Some(id) => {
            r.push(MenuEntry::CopyId(id));
            r.push(MenuEntry::CopyUri(id));
        },
        None => {},
    }
    r.push(MenuEntry::CopyName);
    match cell.asset_id {
        Some(id) => {
            r.push(MenuEntry::OpenPage(id));
            r.push(MenuEntry::Grant);
        },
        None => {},
    }
    match &cell.file_path {
        Some(_) => {
            r.push(MenuEntry::CopyPath);
            r.push(MenuEntry::Reveal);
        },
        None => {},
    }
    if cell.removable {
        r.push(MenuEntry::Remove);
    }
    assert(r@ =~= menu_offered(cell.asset_id, cell.file_path is Some, cell.removable));
    r
}

/// What an entry of the menu wants done, beside what it copies or opens.
pub fn menu_action(entry: MenuEntry, cell: &IconCell) -> (a: Option<AssetManagerAction>)
    ensures
        a == match entry {
            MenuEntry::Grant => Some(AssetManagerAction::OpenGrantDialog),
            MenuEntry::Reveal => match cell.file_path {
                Some(path) => Some(AssetManagerAction::RevealFile(path)),
                None => None,
            },
            MenuEntry::Remove => Some(AssetManagerAction::RemoveRow(cell.key)),
            _ => None,
        },
{
    match entry {
        MenuEntry::Grant => Some(AssetManagerAction::OpenGrantDialog),
        MenuEntry::Reveal => match &cell.file_path {
            Some(path) => Some(AssetManagerAction::RevealFile(path.clone())),
            None => None,
        },
        MenuEntry::Remove => Some(AssetManagerAction::RemoveRow(cell.key.clone())),
        _ => None,
    }
}

/// Nothing that comes from Roblox is offered to be taken off the list, and
/// nothing without a number is offered to be granted.
pub proof fn a_menu_offers_what_can_be_done(
    asset_id: Option<u64>,
    has_file: bool,
    removable: bool,
)
    ensures
        menu_offered(asset_id, has_file, removable).contains(MenuEntry::Remove) ==> removable,
        menu_offered(asset_id, has_file, removable).contains(MenuEntry::Grant) ==> asset_id is Some,
        menu_offered(asset_id, has_file, removable).contains(MenuEntry::Reveal) ==> has_file,
{
}

// ---------------------------------------------------------------------------
// Labels
// ---------------------------------------------------------------------------

/// What the picker of accounts says.
pub fn acting_label(acting: Option<u64>, accounts: &Vec<Account>, anonymize: bool) -> (s: String)
    ensures
        s@ == match acting {
            Some(id) => match position_in(accounts@, id) {
                Some(i) => account_named(accounts@[i], accounts@, anonymize),
                None => "Select an account"@,
            },
            None => "Select an account"@,
        },
{
    match acting {
        Some(id) => match position_of(accounts, id) {
            Some(i) => account_label(&accounts[i], accounts, anonymize),
            None => "Select an account".to_owned(),
        },
        None => "Select an account".to_owned(),
    }
}

/// What the picker of kinds says.
pub fn filter_label(filter: Option<AssetKind>, names: &KindNames) -> (s: String)
    ensures
        s@ == match filter {
            Some(kind) => names.written(kind),
            None => "All types"@,
        },
{
    match filter {
        Some(kind) => names.of(kind).to_owned(),
        None => "All types".to_owned(),
    }
}

/// What stands over an inventory.
pub fn showing_label(filter: Option<AssetKind>, names: &KindNames) -> (s: String)
    ensures
        s@ == match filter {
            Some(kind) => "Showing "@ + names.written(kind) + " assets."@,
            None => "Showing every asset type."@,
        },
{
    match filter {
        Some(kind) => join3("Showing ", names.of(kind), " assets."),
        None => "Showing every asset type.".to_owned(),
    }
}

/// How many assets of an inventory are shown.
pub fn shown_label(shown: usize) -> (s: String)
    ensures
        s@ == decimal(shown as nat) + " shown"@,
{
    join2(&decimal_of(shown as u64), " shown")
}

/// How many assets are selected.
pub fn selected_label(selected: usize) -> (s: String)
    ensures
        s@ == decimal(selected as nat) + " selected"@,
{
    join2(&decimal_of(selected as u64), " selected")
}

/// What stands under an inventory about the pages that are not loaded.
#[derive(Debug, Clone, Copy, PartialEq, Eq, Structural)]
pub enum More {
    Nothing,
    Loading,
    Offered,
}

/// What stands under an inventory about the pages that are not loaded.
pub fn more_of(remote: &RemoteInventory) -> (m: More)
    ensures
        m == if remote.cursors@.len() == 0 {
            More::Nothing
        } else if remote.inflight > 0 {
            More::Loading
        } else {
            More::Offered
        },
{
    if !remote.has_more() {
        More::Nothing
    } else if remote.loading() {
        More::Loading
    } else {
        More::Offered
    }
}

} // verus!
