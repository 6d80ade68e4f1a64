//! The asset manager: its rows, panes, labels and clicks.

use std::collections::HashMap;

use ram_ui::asset_manager::{
    account_label, apply_context_click, apply_icon_click, apply_sort_click, creator_label,
    creator_label_from, creator_options, format_countdown, format_elapsed, grant_label,
    kind_abbreviation, open_node, queue_label, sort_caret, universe_label, upload_label,
    AssetManagerAction, AssetManagerState, KindNames, RemoteInventory, SortKey, TreeNode,
    ViewMode,
};
use ram_ui::asset_panes::{
    acting_label, batch_creator, creator_edit, inventory_cells, kind_edit, library_view,
    menu_action, menu_entries, more_of, pane_of, pictures_wanted, queue_done, selected_label,
    shown_label, tile_hint, tile_row, tile_rows, tree_nodes, IconCell, LibraryPane, MenuEntry,
    More, Pane, QueueClicks,
};
use ram_ui::asset_rows::{
    distinct_sorted, inventory_view, reconcile_acting_account, status_cell, uploadable_rows,
    visible_rows, Edit, InventoryPane, Part, Tone,
};
use ram_ui::asset_view::View;
use ram_ui::assets::{AssetIndex, AssetKind, AssetRecord, AssetState, Creator};
use ram_ui::bridge::{CreationItem, GroupTarget, UniverseTarget};
use ram_ui::lists::TextSet;
use ram_ui::models::Account;

fn names() -> KindNames {
    KindNames {
        decal: "Decal".into(),
        audio: "Audio".into(),
        model: "Model".into(),
        animation: "Animation".into(),
        video: "Video".into(),
        other: "Other".into(),
    }
}

fn record(row_id: &str, name: &str, state: AssetState, created_at: i64) -> AssetRecord {
    AssetRecord {
        row_id: row_id.into(),
        file_path: format!("/files/{name}"),
        file_sha256: String::new(),
        file_bytes: 1,
        display_name: name.into(),
        description: String::new(),
        kind: AssetKind::Decal,
        creator: Creator::User(1),
        uploaded_by: 1,
        state,
        attempts: 0,
        retry_at: None,
        created_at,
        updated_at: None,
        granted_universes: Vec::new(),
        auto_grant_universe: None,
    }
}

fn approved(asset_id: u64) -> AssetState {
    AssetState::Approved { asset_id, revision_id: None }
}

fn index() -> AssetIndex {
    AssetIndex {
        records: vec![
            record("r1", "beta", approved(10), 300),
            record("r2", "Alpha", approved(20), 100),
            record("r3", "gamma", AssetState::Queued, 200),
            record("r4", "delta", approved(30), 200),
        ],
    }
}

fn item(asset_id: u64, name: &str, updated: Option<i64>) -> CreationItem {
    CreationItem { asset_id, name: name.into(), kind: AssetKind::Audio, updated }
}

fn account(user_id: u64, name: &str) -> Account {
    Account::new(user_id, name.into(), name.into(), "tag".into())
}

#[test]
fn the_newest_comes_first_by_default() {
    let state = AssetManagerState::default();
    assert_eq!(visible_rows(&index(), Part::Library, &state, &names()), vec![0, 3, 1]);
    assert_eq!(visible_rows(&index(), Part::Queue, &state, &names()), vec![2]);
}

#[test]
fn names_are_sorted_without_case() {
    let mut state = AssetManagerState::default();
    apply_sort_click(&mut state, SortKey::Name);
    assert!(state.sort_ascending);
    assert_eq!(visible_rows(&index(), Part::Library, &state, &names()), vec![1, 0, 3]);
    apply_sort_click(&mut state, SortKey::Name);
    assert_eq!(visible_rows(&index(), Part::Library, &state, &names()), vec![3, 0, 1]);
    assert_eq!(sort_caret(SortKey::Name, SortKey::Name, false), " \u{2b07}");
    assert_eq!(sort_caret(SortKey::Id, SortKey::Name, false), "");
}

#[test]
fn a_search_finds_names_and_numbers() {
    let mut state = AssetManagerState::default();
    state.search = " ALPHA ".into();
    assert_eq!(visible_rows(&index(), Part::Library, &state, &names()), vec![1]);
    state.search = "30".into();
    assert_eq!(visible_rows(&index(), Part::Library, &state, &names()), vec![3]);
    state.search = String::new();
    state.type_filter = Some(AssetKind::Audio);
    assert!(visible_rows(&index(), Part::Library, &state, &names()).is_empty());
}

#[test]
fn an_inventory_is_asked_for_shown_or_explained() {
    let mut state = AssetManagerState::default();
    let node = TreeNode::Inventory(Creator::User(1));
    state.node = node;
    let mut remote = RemoteInventory::new();
    assert!(matches!(
        inventory_view(&remote, &state, &names()),
        InventoryPane::Loading { action: Some(AssetManagerAction::LoadInventory { .. }) }
    ));
    remote.inflight = 1;
    assert!(matches!(
        inventory_view(&remote, &state, &names()),
        InventoryPane::Loading { action: None }
    ));
    remote.requested = true;
    remote.node = Some(node);
    assert!(matches!(
        inventory_view(&remote, &state, &names()),
        InventoryPane::Loading { action: None }
    ));
    remote.inflight = 0;
    match inventory_view(&remote, &state, &names()) {
        InventoryPane::Empty(body) => assert_eq!(body, "This creator has no assets."),
        other => panic!("{other:?}"),
    }
    remote.error = Some("no role".into());
    assert!(matches!(
        inventory_view(&remote, &state, &names()),
        InventoryPane::Error(e) if e == "no role"
    ));
    remote.error = None;
    remote.items = vec![item(5, "a", None), item(6, "b", Some(9)), item(7, "c", Some(3))];
    match inventory_view(&remote, &state, &names()) {
        InventoryPane::Rows(rows) => assert_eq!(rows, vec![1, 2, 0]),
        other => panic!("{other:?}"),
    }
    let cells = inventory_cells(&remote.items, &vec![1]);
    assert_eq!(cells[0].key, "6");
    assert!(!cells[0].removable && cells[0].file_path.is_none());
    assert_eq!(more_of(&remote), More::Nothing);
    remote.cursors = vec![(AssetKind::Audio, "next".into())];
    assert_eq!(more_of(&remote), More::Offered);
    remote.inflight = 1;
    assert_eq!(more_of(&remote), More::Loading);
}

#[test]
fn the_library_shows_tiles_or_a_table() {
    let mut state = AssetManagerState::default();
    assert!(matches!(
        library_view(&index(), &state, &names()),
        LibraryPane::Table(rows) if rows == vec![0, 3, 1]
    ));
    state.view_mode = ViewMode::LargeIcons;
    match library_view(&index(), &state, &names()) {
        LibraryPane::Tiles(cells) => {
            assert_eq!(cells.len(), 3);
            assert_eq!(cells[0].key, "r1");
            assert_eq!(cells[0].asset_id, Some(10));
            assert_eq!(cells[0].file_path.as_deref(), Some("/files/beta"));
            assert!(cells[0].removable);
        }
        other => panic!("{other:?}"),
    }
    state.search = "nothing like it".into();
    assert!(matches!(library_view(&index(), &state, &names()), LibraryPane::Empty));
}

#[test]
fn every_tile_is_in_one_row() {
    assert_eq!(tile_rows(0, 4), 0);
    assert_eq!(tile_rows(8, 4), 2);
    assert_eq!(tile_rows(9, 4), 3);
    assert_eq!(tile_row(0, 4, 9), (0, 4));
    assert_eq!(tile_row(2, 4, 9), (8, 9));
    assert_eq!(tile_row(0, usize::MAX, 9), (0, 9));
}

#[test]
fn pictures_are_wanted_for_what_is_on_screen() {
    let items = vec![item(5, "a", None), item(6, "b", None), item(7, "c", None)];
    let cells = inventory_cells(&items, &vec![0, 1, 2]);
    let mut pictures = HashMap::new();
    pictures.insert(6u64, vec![1u8]);
    assert_eq!(pictures_wanted(&cells, 0, 2, &pictures), vec![5]);
    assert_eq!(pictures_wanted(&cells, 1, 3, &pictures), vec![7]);
    assert_eq!(distinct_sorted(&vec![7, 5, 7, 6]), vec![5, 6, 7]);
}

#[test]
fn a_menu_offers_what_can_be_done() {
    let remote = IconCell {
        key: "5".into(),
        asset_id: Some(5),
        name: "a".into(),
        kind: AssetKind::Audio,
        file_path: None,
        removable: false,
    };
    assert_eq!(
        menu_entries(&remote),
        vec![
            MenuEntry::CopyId(5),
            MenuEntry::CopyUri(5),
            MenuEntry::CopyName,
            MenuEntry::OpenPage(5),
            MenuEntry::Grant,
        ]
    );
    let local = IconCell {
        key: "r".into(),
        asset_id: None,
        name: "a".into(),
        kind: AssetKind::Audio,
        file_path: Some("/f".into()),
        removable: true,
    };
    assert_eq!(
        menu_entries(&local),
        vec![MenuEntry::CopyName, MenuEntry::CopyPath, MenuEntry::Reveal, MenuEntry::Remove]
    );
    assert!(matches!(
        menu_action(MenuEntry::Remove, &local),
        Some(AssetManagerAction::RemoveRow(row)) if row == "r"
    ));
    assert!(matches!(
        menu_action(MenuEntry::Reveal, &local),
        Some(AssetManagerAction::RevealFile(path)) if path == "/f"
    ));
    assert!(menu_action(MenuEntry::CopyName, &local).is_none());
}

#[test]
fn clicks_select_as_in_a_file_manager() {
    let mut selected = TextSet::new();
    apply_icon_click(&mut selected, "a".into(), false);
    assert!(selected.contains("a") && selected.len() == 1);
    apply_icon_click(&mut selected, "b".into(), true);
    assert_eq!(selected.len(), 2);
    apply_icon_click(&mut selected, "b".into(), false);
    assert!(selected.contains("b") && selected.len() == 1);
    apply_icon_click(&mut selected, "b".into(), false);
    assert_eq!(selected.len(), 0);
    apply_context_click(&mut selected, "c".into());
    assert!(selected.contains("c"));
}

#[test]
fn the_queue_applies_what_was_clicked() {
    let mut index = index();
    let mut state = AssetManagerState::default();
    let result = queue_done(
        &mut index,
        &mut state,
        QueueClicks {
            edits: vec![
                Edit::Name("r3".into(), "renamed".into()),
                Edit::Kind("r3".into(), AssetKind::Audio),
            ],
            toggled: Some("r3".into()),
            removed: Some("r3".into()),
            retried: None,
        },
    );
    assert!(result.index_changed);
    assert!(matches!(result.action, Some(AssetManagerAction::RemoveRow(row)) if row == "r3"));
    assert_eq!(index.records[2].display_name, "renamed");
    assert_eq!(index.records[2].kind, AssetKind::Audio);
    assert!(state.checked.contains("r3"));
    let rows = uploadable_rows(&index, &vec![2], &state.checked);
    assert_eq!(rows, vec!["r3"]);
    let nothing = queue_done(
        &mut index,
        &mut state,
        QueueClicks {
            edits: vec![Edit::Name("gone".into(), "x".into())],
            toggled: Some("r3".into()),
            removed: Some("a".into()),
            retried: Some("b".into()),
        },
    );
    assert!(!nothing.index_changed);
    assert!(matches!(nothing.action, Some(AssetManagerAction::RetryRow(row)) if row == "b"));
    assert!(!state.checked.contains("r3"));
}

#[test]
fn only_rows_that_can_be_edited_are() {
    let queued = record("r", "n", AssetState::Queued, 0);
    let sent = record("r", "n", AssetState::Uploading, 0);
    assert!(matches!(kind_edit(&queued, AssetKind::Audio), Some(Edit::Kind(_, AssetKind::Audio))));
    assert!(kind_edit(&queued, AssetKind::Decal).is_none());
    assert!(kind_edit(&sent, AssetKind::Audio).is_none());
    assert!(creator_edit(&queued, Creator::Group(5)).is_some());
    assert!(creator_edit(&sent, Creator::Group(5)).is_none());
}

#[test]
fn a_status_says_where_a_row_stands() {
    let mut failed = record(
        "r",
        "n",
        AssetState::Failed { message: "no".into(), retryable: false },
        0,
    );
    let s = status_cell(&failed, 0);
    assert!(s.retry);
    assert_eq!(s.tone, Tone::Red);
    failed.state = AssetState::Uploading;
    assert!(status_cell(&failed, 0).busy);
}

#[test]
fn names_and_labels() {
    let accounts = vec![account(1, "ann"), account(2, "bea")];
    assert_eq!(account_label(&accounts[1], &accounts, true), "Account 2");
    assert_eq!(account_label(&accounts[1], &accounts, false), "bea");
    assert_eq!(creator_label(Creator::User(9), &accounts, false), "User 9");
    assert_eq!(creator_label(Creator::Group(9), &accounts, false), "Group 9");
    assert_eq!(acting_label(Some(2), &accounts, false), "bea");
    assert_eq!(acting_label(Some(3), &accounts, false), "Select an account");
    let groups = vec![GroupTarget { group_id: 5, name: "Studio".into() }];
    let options = creator_options(Some(1), &accounts, &groups, false);
    assert_eq!(options[0], (Creator::User(1), "Me (ann)".to_string()));
    assert_eq!(options[1], (Creator::Group(5), "Studio".to_string()));
    assert_eq!(creator_label_from(&options, Creator::Group(5)), "Studio");
    assert_eq!(creator_label_from(&options, Creator::Group(6)), "Group 6");
    assert_eq!(batch_creator(None, &options), Some(Creator::User(1)));
    assert_eq!(batch_creator(Some(Creator::Group(5)), &options), Some(Creator::Group(5)));
    let nodes = tree_nodes(Some(1), &accounts, &groups, false);
    assert_eq!(nodes[0], (TreeNode::Inventory(Creator::User(1)), "ann".to_string()));
    assert_eq!(nodes[1].1, "Studio");
    assert!(tree_nodes(None, &accounts, &groups, false).is_empty());
    let universes = vec![UniverseTarget { universe_id: 3, name: "Game".into() }];
    assert_eq!(universe_label(&universes, Some(3)), "Game");
    assert_eq!(universe_label(&universes, Some(4)), "Universe 4");
    assert_eq!(universe_label(&universes, None), "None");
    assert_eq!(grant_label(1), "Grant access to...");
    assert_eq!(grant_label(2), "Grant access to... (2 selected)");
    assert_eq!(queue_label(0), "Import Queue");
    assert_eq!(queue_label(3), "Import Queue (3)");
    assert_eq!(upload_label(0), "Upload");
    assert_eq!(upload_label(3), "Upload 3");
    assert_eq!(shown_label(12), "12 shown");
    assert_eq!(selected_label(1), "1 selected");
    assert_eq!(kind_abbreviation(AssetKind::Audio), "AUD");
    assert_eq!(tile_hint("n", "Audio", Some(5)), "n\nAudio - 5");
    assert_eq!(tile_hint("n", "Audio", None), "n\nAudio");
}

#[test]
fn times_are_coarse() {
    assert_eq!(format_elapsed(0, 59_999), "59s");
    assert_eq!(format_elapsed(0, 60_000), "1m");
    assert_eq!(format_elapsed(0, 7_200_000), "2h");
    assert_eq!(format_elapsed(10, 0), "0s");
    assert_eq!(format_countdown(30_000, 0), "in 30s");
    assert_eq!(format_countdown(90_000, 0), "in 1m");
    assert_eq!(format_countdown(0, 5_000), "in 0s");
}

#[test]
fn the_acting_account_is_one_that_is_there() {
    let mut state = AssetManagerState::default();
    let mut accounts = vec![account(1, "ann"), account(2, "bea")];
    accounts[0].cookie_expired = true;
    reconcile_acting_account(&mut state, &accounts);
    assert_eq!(state.acting_user_id, Some(2));
    reconcile_acting_account(&mut state, &vec![]);
    assert_eq!(state.acting_user_id, None);
}

#[test]
fn a_pane_for_every_view() {
    let node = TreeNode::Inventory(Creator::User(1));
    assert_eq!(pane_of(0, View::Library, node), Pane::NoAccounts);
    assert_eq!(pane_of(1, View::Library, node), Pane::Inventory);
    assert_eq!(pane_of(1, View::Library, TreeNode::Uploads), Pane::Library);
    assert_eq!(pane_of(1, View::ImportQueue, node), Pane::Queue);
    let mut state = AssetManagerState::default();
    state.selected.insert("a".into());
    assert!(matches!(
        open_node(&mut state, node),
        Some(AssetManagerAction::LoadInventory { .. })
    ));
    assert_eq!(state.selected.len(), 0);
    assert!(open_node(&mut state, TreeNode::Uploads).is_none());
}

#[test]
fn layouts_have_their_icons() {
    assert_eq!(ViewMode::all().len(), 5);
    assert_eq!(ViewMode::Details.icon_px(), None);
    assert!(ViewMode::SmallIcons.is_grid() && !ViewMode::List.is_grid());
    assert_eq!(ViewMode::LargeIcons.label(), "Large icons");
}

#[test]
fn the_order_of_the_index_makes_no_difference() {
    let state = AssetManagerState::default();
    let ids = |index: &AssetIndex| -> Vec<String> {
        visible_rows(index, Part::Library, &state, &names())
            .into_iter()
            .map(|i| index.records[i].row_id.clone())
            .collect()
    };
    let mut other = index();
    other.records.reverse();
    assert_eq!(ids(&index()), vec!["r1", "r4", "r2"]);
    assert_eq!(ids(&other), ids(&index()));
    let mut twins = AssetIndex {
        records: vec![record("b", "same", approved(1), 5), record("a", "same", approved(2), 5)],
    };
    let first = ids(&twins);
    twins.records.reverse();
    assert_eq!(ids(&twins), first);
}
