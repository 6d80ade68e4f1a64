//! Uploading: staging files, the queue, verdicts, grants, inventories.

use ram_ui::app::polls::MAX_POLL_BATCH;
use ram_ui::app::startup::Start;
use ram_ui::app::staging::StagedFile;
use ram_ui::app::tick::Polls;
use ram_ui::app::{AppState, Clock, Effect, Rules};
use ram_ui::asset_manager::{AssetManagerAction, KindNames, TreeNode};
use ram_ui::asset_panes::QueueClicks;
use ram_ui::asset_rows::Edit;
use ram_ui::assets::{
    AssetIndex, AssetKind, AssetRecord, AssetState, Creator, ModerationStatus, OperationOutcome,
};
use ram_ui::bridge::{BackendCommand, BackendEvent, CreationItem, CreationPage, GroupTarget};
use ram_ui::models::{Account, AppConfig, StoreSession};

fn rules() -> Rules {
    Rules {
        max_upload_attempts: 3,
        retry_backoff: vec![1_000, 5_000, 20_000],
        selectable_kinds: vec![AssetKind::Decal, AssetKind::Audio],
        kind_names: KindNames {
            decal: "Decal".into(),
            audio: "Audio".into(),
            model: "Model".into(),
            animation: "Animation".into(),
            video: "Video".into(),
            other: "Other".into(),
        },
    }
}

fn config() -> AppConfig {
    AppConfig {
        accounts_path: "/data/accounts.dat".into(),
        anonymize_names: false,
        auto_arrange_windows: false,
        developer_options: true,
        kill_background_roblox: false,
        launch_delay_secs: 0,
        multi_instance_enabled: false,
        offered_passwordless: true,
        privacy_mode: false,
        rename_roblox_windows: false,
        use_credential_manager: false,
        roblox_player_path: None,
        sort_mode: "name".into(),
        groups: Vec::new(),
        private_servers: Vec::new(),
        last_seen_version: Some("1.0.0".into()),
    }
}

fn clock(now: u64) -> Clock {
    Clock { now, utc: 1_700_000_000_000 + now as i64 }
}

fn record(row_id: &str, kind: AssetKind, state: AssetState) -> AssetRecord {
    AssetRecord {
        row_id: row_id.into(),
        file_path: format!("/files/{row_id}"),
        file_sha256: String::new(),
        file_bytes: 1_000,
        display_name: row_id.into(),
        description: String::new(),
        kind,
        creator: Creator::User(1),
        uploaded_by: 1,
        state,
        attempts: 0,
        retry_at: None,
        created_at: 0,
        updated_at: None,
        granted_universes: Vec::new(),
        auto_grant_universe: None,
    }
}

fn start(records: Vec<AssetRecord>) -> Start {
    Start {
        config: config(),
        store_mode: Ok(None),
        still_running: false,
        multi_acquired: false,
        index: AssetIndex { records },
        index_read_only: false,
        expired: Vec::new(),
        version: "1.0.0".into(),
        rules: rules(),
    }
}

/// An open window with one account and these rows.
fn app(records: Vec<AssetRecord>) -> AppState {
    let mut s = AppState::new(start(Vec::new()), clock(0));
    s.desk.index.records = records;
    s.out.clear();
    s.session = Some(StoreSession { handle: 1, needs_password: false, legacy: false });
    let mut a = Account::new(1, "ann".into(), "ann".into(), "0001".into());
    a.encrypted_cookie = Some("cookie".into());
    s.store.accounts = vec![a];
    s.desk.panel.acting_user_id = Some(1);
    s
}

fn sent(s: &AppState) -> Vec<String> {
    s.out
        .iter()
        .filter_map(|e| match e {
            Effect::Send(BackendCommand::UploadAsset(job)) => Some(job.row_id.clone()),
            _ => None,
        })
        .collect()
}

fn file(path: &str, kind: Result<AssetKind, String>) -> StagedFile {
    StagedFile { path: path.into(), bytes: 5, display_name: "name".into(), kind }
}

fn no_polls() -> Polls {
    Polls {
        operations_every: 1_000,
        expired: Vec::new(),
        operations: Vec::new(),
        verdicts_every: 1_000,
        verdicts: Vec::new(),
    }
}

#[test]
fn a_restart_leaves_nothing_on_its_way() {
    let rows = vec![
        record("a", AssetKind::Decal, AssetState::Uploading),
        record("b", AssetKind::Decal, AssetState::Queued),
        record("c", AssetKind::Decal, AssetState::Pending { operation: "op".into(), since: 0 }),
    ];
    let mut st = start(rows);
    st.expired = vec!["c".into()];
    let s = AppState::new(st, clock(0));
    assert!(!matches!(s.desk.index.records[0].state, AssetState::Uploading));
    assert!(matches!(s.desk.index.records[1].state, AssetState::Queued));
    assert!(matches!(s.desk.index.records[2].state, AssetState::Expired { .. }));
    assert!(s.out.iter().any(|e| matches!(e, Effect::SaveAssetIndex)));
}

#[test]
fn every_file_gets_a_row_of_its_own() {
    let mut s = app(Vec::new());
    s.stage_files(
        vec![
            file("/a.png", Ok(AssetKind::Decal)),
            file("/b.xyz", Err("not supported".into())),
        ],
        clock(0),
    );
    let rows = &s.desk.index.records;
    assert_eq!(rows.len(), 2);
    assert_ne!(rows[0].row_id, rows[1].row_id);
    // The shape of a random identifier, which no asset number has.
    for row in rows {
        assert_eq!(row.row_id.len(), 36);
        assert_eq!(row.row_id.chars().filter(|c| *c == '-').count(), 4);
        assert!(row.row_id.chars().all(|c| c == '-' || c.is_ascii_hexdigit()));
    }
    assert!(rows.iter().any(|r| matches!(r.state, AssetState::Queued)));
    assert!(rows.iter().any(
        |r| matches!(&r.state, AssetState::Invalid { reason } if reason == "not supported")
    ));
}

#[test]
fn at_most_the_allowed_uploads_run() {
    let mut s = app((0..5)
        .map(|i| record(&format!("r{i}"), AssetKind::Decal, AssetState::Queued))
        .collect());
    s.desk.pending_upload_rows = Vec::new();
    s.request_upload((0..5).map(|i| format!("r{i}")).collect());
    assert_eq!(s.desk.panel.confirm_upload, Some(5));
    assert_eq!(s.upload_bytes(), 5_000);
    s.confirm_upload(clock(0));
    assert_eq!(sent(&s), vec!["r0", "r1", "r2"]);
    let uploading = s
        .desk
        .index
        .records
        .iter()
        .filter(|r| matches!(r.state, AssetState::Uploading))
        .count();
    assert_eq!(uploading, 3);
}

#[test]
fn audio_goes_one_at_a_time() {
    let mut s = app(vec![
        record("a", AssetKind::Audio, AssetState::Queued),
        record("b", AssetKind::Audio, AssetState::Queued),
        record("c", AssetKind::Decal, AssetState::Queued),
    ]);
    s.dispatch_next_uploads(clock(10_000));
    assert_eq!(sent(&s), vec!["a", "c"]);
}

#[test]
fn a_failed_upload_waits_longer_each_time() {
    let mut s = app(vec![record("a", AssetKind::Decal, AssetState::Uploading)]);
    s.desk.index.records[0].attempts = 1;
    s.fail_upload("a", "busy".into(), true, clock(0));
    let row = &s.desk.index.records[0];
    assert!(matches!(row.state, AssetState::Queued));
    assert!(row.retry_at.is_some());
    let mut spent = app(vec![record("a", AssetKind::Decal, AssetState::Uploading)]);
    spent.desk.index.records[0].attempts = 3;
    spent.fail_upload("a", "busy".into(), true, clock(0));
    assert!(matches!(
        &spent.desk.index.records[0].state,
        AssetState::Failed { message, .. } if message.contains("busy")
    ));
    let mut hard = app(vec![record("a", AssetKind::Decal, AssetState::Uploading)]);
    hard.fail_upload("a", "bad file".into(), false, clock(0));
    assert!(matches!(hard.desk.index.records[0].state, AssetState::Failed { .. }));
}

#[test]
fn an_approval_waits_for_its_verdict() {
    let mut s = app(vec![record(
        "a",
        AssetKind::Decal,
        AssetState::Pending { operation: "op".into(), since: 0 },
    )]);
    s.apply_operation_outcome(
        "a",
        OperationOutcome::Approved { asset_id: 9, revision_id: None },
        clock(0),
    );
    assert!(matches!(
        s.desk.index.records[0].state,
        AssetState::InReview { asset_id: 9, .. }
    ));
    s.apply_moderation_status("a", ModerationStatus::Approved, clock(1));
    assert!(matches!(
        s.desk.index.records[0].state,
        AssetState::Approved { asset_id: 9, .. }
    ));
    // A late verdict changes nothing.
    s.apply_moderation_status("a", ModerationStatus::Rejected, clock(2));
    assert!(matches!(s.desk.index.records[0].state, AssetState::Approved { .. }));
}

#[test]
fn an_approved_asset_is_granted_once() {
    let mut s = app(vec![record(
        "a",
        AssetKind::Decal,
        AssetState::InReview { asset_id: 9, revision_id: None, since: 0 },
    )]);
    s.desk.index.records[0].auto_grant_universe = Some(77);
    s.apply_moderation_status("a", ModerationStatus::Approved, clock(0));
    assert!(s.out.iter().any(|e| matches!(
        e,
        Effect::Send(BackendCommand::GrantAssetPermissions { universe_id: 77, asset_ids, .. })
            if asset_ids == &vec![9]
    )));
    s.permissions_granted(77, vec!["a".into()], 1, 0, 0);
    assert_eq!(s.desk.index.records[0].granted_universes, vec![77]);
    assert_eq!(s.desk.index.records[0].auto_grant_universe, None);
}

#[test]
fn a_row_that_is_taken_off_is_gone() {
    let mut s = app(vec![
        record("a", AssetKind::Decal, AssetState::Queued),
        record("b", AssetKind::Decal, AssetState::Cancelled),
    ]);
    s.asset_action(AssetManagerAction::RemoveRow("a".into()), &Vec::new(), clock(0));
    assert_eq!(s.desk.index.records.len(), 1);
    s.asset_action(AssetManagerAction::ClearFinished, &vec!["b".into()], clock(0));
    assert!(s.desk.index.records.is_empty());
}

#[test]
fn an_account_asks_once_about_all_its_uploads() {
    let pending = |op: &str| AssetState::Pending { operation: op.into(), since: 0 };
    let mut s = app(vec![
        record("a", AssetKind::Decal, pending("op1")),
        record("b", AssetKind::Decal, pending("op2")),
    ]);
    assert!(s.any_pending() && !s.any_in_review());
    s.dispatch_asset_poll(
        &Vec::new(),
        &vec![("a".into(), "op1".into()), ("b".into(), "op2".into())],
        0,
    );
    match &s.out[..] {
        [Effect::Send(BackendCommand::PollAssetOperations { credentials, operations })] => {
            assert_eq!(credentials.user_id, 1);
            assert_eq!(operations.len(), 2);
        }
        other => panic!("{other:?}"),
    }
}

#[test]
fn a_tick_pumps_the_queue() {
    let mut s = app(vec![record("a", AssetKind::Decal, AssetState::Queued)]);
    s.tick(&no_polls(), clock(5_000));
    assert_eq!(sent(&s), vec!["a"]);
    assert!(s.out.iter().any(|e| matches!(e, Effect::Send(BackendCommand::SweepInstances))));
}

#[test]
fn a_locked_store_sends_nothing() {
    let mut s = app(vec![record("a", AssetKind::Decal, AssetState::Queued)]);
    s.lock.needs_unlock = true;
    s.session = None;
    s.tick(&no_polls(), clock(5_000));
    assert!(sent(&s).is_empty());
}

#[test]
fn an_inventory_is_asked_for_kind_by_kind() {
    let mut s = app(Vec::new());
    let node = TreeNode::Inventory(Creator::User(1));
    s.desk.panel.node = node;
    s.load_inventory(node, None);
    assert_eq!(s.desk.remote.inflight, 2);
    assert_eq!(s.out.len(), 2);
    let item = |asset_id: u64| CreationItem {
        asset_id,
        name: "x".into(),
        kind: AssetKind::Decal,
        updated: None,
    };
    for _ in 0..2 {
        s.process_event(
            BackendEvent::CreationsFetched {
                creator: Creator::User(1),
                kind: AssetKind::Decal,
                appended: false,
                page: CreationPage {
                    items: vec![item(5), item(6)],
                    next_cursor: Some("next".into()),
                },
                error: None,
            },
            clock(0),
        );
    }
    assert_eq!(s.desk.remote.inflight, 0);
    // The same page twice lists nothing twice, and a kind has one cursor.
    assert_eq!(s.desk.remote.items.len(), 2);
    assert_eq!(s.desk.remote.cursors.len(), 1);
    s.out.clear();
    s.load_more_inventory();
    assert!(matches!(
        &s.out[0],
        Effect::Send(BackendCommand::FetchCreations { cursor: Some(c), .. }) if c == "next"
    ));
}

#[test]
fn a_thumbnail_is_asked_for_once() {
    let mut s = app(Vec::new());
    s.request_asset_thumbnails(&vec![5, 6], 0);
    s.request_asset_thumbnails(&vec![5, 6], 0);
    let asked: Vec<_> = s
        .out
        .iter()
        .filter(|e| matches!(e, Effect::Send(BackendCommand::FetchAssetThumbnails { .. })))
        .collect();
    assert_eq!(asked.len(), 1);
    s.thumbnails_ready(vec![5, 6], vec![(5, vec![1])], 0);
    assert_eq!(s.pictures.thumbnails.get(&5), Some(&vec![1]));
    s.out.clear();
    s.request_asset_thumbnails(&vec![5, 6], 1);
    assert!(s.out.is_empty());
    s.request_asset_thumbnails(&vec![5, 6], 20_001);
    assert!(matches!(
        &s.out[0],
        Effect::Send(BackendCommand::FetchAssetThumbnails { asset_ids }) if asset_ids == &vec![6]
    ));
}

#[test]
fn groups_of_another_account_are_ignored() {
    let mut s = app(Vec::new());
    s.publish_groups_fetched(2, vec![GroupTarget { group_id: 5, name: "g".into() }]);
    assert!(s.desk.publish_groups.is_empty());
    s.publish_groups_fetched(1, vec![GroupTarget { group_id: 5, name: "g".into() }]);
    assert_eq!(s.desk.publish_groups.len(), 1);
}

#[test]
fn cookies_are_read_from_an_open_store_or_the_system() {
    let mut s = app(Vec::new());
    s.session = None;
    s.config.use_credential_manager = false;
    assert!(!s.cookies_readable());
    s.config.use_credential_manager = true;
    assert!(s.cookies_readable());
}

#[test]
fn clicks_in_the_queue_are_kept_and_handed_on() {
    let mut s = app(vec![record("a", AssetKind::Decal, AssetState::Queued)]);
    s.desk.dirty = false;
    let clicks = QueueClicks {
        edits: vec![Edit::Name("a".into(), "new".into()), Edit::Name("b".into(), "x".into())],
        toggled: Some("a".into()),
        removed: Some("a".into()),
        retried: None,
    };
    let action = s.queue_clicked(clicks);
    assert!(matches!(action, Some(AssetManagerAction::RemoveRow(row)) if row == "a"));
    assert_eq!(s.desk.index.records[0].display_name, "new");
    assert!(s.desk.panel.checked.contains("a"));
    assert!(s.desk.dirty);
    s.desk.dirty = false;
    let clicks = QueueClicks {
        edits: vec![Edit::Name("b".into(), "x".into())],
        toggled: None,
        removed: None,
        retried: None,
    };
    assert!(s.queue_clicked(clicks).is_none());
    assert!(!s.desk.dirty);
}

#[test]
fn a_backlog_is_asked_about_in_batches() {
    let rows: Vec<String> = (0..30).map(|n| format!("r{n}")).collect();
    let records = rows
        .iter()
        .map(|r| record(r, AssetKind::Decal, AssetState::Pending { operation: "o".into(), since: 0 }))
        .collect();
    let mut s = app(records);
    let waiting = rows.iter().map(|r| (r.clone(), "o".to_string())).collect();
    s.dispatch_asset_poll(&Vec::new(), &waiting, 0);
    match &s.out[..] {
        [Effect::Send(BackendCommand::PollAssetOperations { operations, .. })] => {
            assert_eq!(operations.len(), MAX_POLL_BATCH);
            assert_eq!(operations[24].0, "r24");
        }
        other => panic!("{other:?}"),
    }
    s.out.clear();
    let waiting = rows.iter().map(|r| (r.clone(), 7)).collect();
    s.dispatch_moderation_poll(&waiting);
    match &s.out[..] {
        [Effect::Send(BackendCommand::PollAssetModeration { assets, .. })] => {
            assert_eq!(assets.len(), 25);
        }
        other => panic!("{other:?}"),
    }
}
