//! The state of the window: starting, the store, accounts, launching, groups.

use ram_ui::app::accounts::{sort_order_named, SidebarAction};
use ram_ui::app::session::{RecoveryAnswer, Wiped};
use ram_ui::app::startup::Start;
use ram_ui::app::tick::interval_due;
use ram_ui::app::{AppState, Awaiting, Clock, Effect, Rules, SortOrder, Tab};
use ram_ui::asset_manager::KindNames;
use ram_ui::assets::{AssetIndex, AssetKind};
use ram_ui::bridge::{BackendCommand, BackendEvent};
use ram_ui::models::{
    Account, AccountStore, AppConfig, Attribution, Group, ModerationInfo, Presence, PrivateServer,
    StoreMode, StoreSession, TrackedInstance,
};
use ram_ui::toast::ToastLevel;

fn names() -> KindNames {
    KindNames {
        decal: "Decal".into(),
        audio: "Audio".into(),
        model: "Model".into(),
        animation: "Animation".into(),
        video: "Video".into(),
        other: "Other".into(),
    }
}

fn rules() -> Rules {
    Rules {
        max_upload_attempts: 3,
        retry_backoff: vec![1_000, 5_000, 20_000],
        selectable_kinds: vec![AssetKind::Decal, AssetKind::Audio],
        kind_names: names(),
    }
}

fn config() -> AppConfig {
    AppConfig {
        accounts_path: "/data/accounts.dat".into(),
        anonymize_names: false,
        auto_arrange_windows: false,
        developer_options: false,
        kill_background_roblox: false,
        launch_delay_secs: 0,
        multi_instance_enabled: true,
        offered_passwordless: false,
        privacy_mode: false,
        rename_roblox_windows: false,
        use_credential_manager: false,
        roblox_player_path: None,
        sort_mode: "name".into(),
        groups: Vec::new(),
        private_servers: Vec::new(),
        last_seen_version: Some("1.0.0".into()),
    }
}

fn start(config: AppConfig, store_mode: Result<Option<StoreMode>, String>) -> Start {
    Start {
        config,
        store_mode,
        still_running: false,
        multi_acquired: true,
        index: AssetIndex { records: Vec::new() },
        index_read_only: false,
        expired: Vec::new(),
        version: "1.0.0".into(),
        rules: rules(),
    }
}

fn clock(now: u64) -> Clock {
    Clock { now, utc: 1_700_000_000_000 + now as i64 }
}

fn account(user_id: u64, name: &str) -> Account {
    let mut a = Account::new(user_id, name.into(), name.into(), format!("{user_id:04}"));
    a.encrypted_cookie = Some(format!("cookie{user_id}"));
    a
}

fn device() -> StoreSession {
    StoreSession { handle: 1, needs_password: false, legacy: false }
}

/// An open window with three accounts.
fn app() -> AppState {
    let mut s = AppState::new(start(config(), Ok(None)), clock(0));
    s.out.clear();
    s.session = Some(device());
    s.store.accounts = vec![account(1, "ann"), account(2, "bea"), account(3, "cy")];
    s
}

fn last_toast(s: &AppState) -> (&str, ToastLevel) {
    let t = s.toasts.queue.last().expect("a toast");
    (t.message.as_str(), t.level)
}

// ---------------------------------------------------------------------------
// Starting
// ---------------------------------------------------------------------------

#[test]
fn a_store_of_this_device_is_opened_at_once() {
    let s = AppState::new(start(config(), Ok(Some(StoreMode::Device))), clock(5));
    assert!(s.lock.needs_unlock && s.lock.unlocking);
    assert!(matches!(
        &s.out[0],
        Effect::Send(BackendCommand::UnlockWithDevice { path }) if path == "/data/accounts.dat"
    ));
    assert!(matches!(&s.out[1], Effect::Send(BackendCommand::CheckForUpdates { .. })));
    assert!(matches!(s.out.last(), Some(Effect::SaveConfig)));
    assert_eq!(s.timers.presence_poll, Some(5));
    assert_eq!(s.ui.active_tab, Tab::Accounts);
}

#[test]
fn a_store_that_cannot_be_looked_at_asks_for_a_password() {
    let s = AppState::new(start(config(), Err("no access".into())), clock(0));
    assert!(s.lock.needs_unlock && !s.lock.unlocking);
}

#[test]
fn an_upgrade_shows_what_is_new_and_only_once() {
    let mut c = config();
    c.last_seen_version = Some("0.9.0".into());
    let s = AppState::new(start(c, Ok(None)), clock(0));
    assert!(s.ui.show_changelog);
    assert!(!s.out.iter().any(|e| matches!(e, Effect::StartTutorial)));
    assert_eq!(s.config.last_seen_version.as_deref(), Some("1.0.0"));
    let mut again = AppState::new(start(s.config, Ok(None)), clock(0));
    assert!(!again.ui.show_changelog);
    again.ui.show_changelog = true;
    again.close_changelog();
    assert!(!again.ui.show_changelog);
}

#[test]
fn the_first_start_is_a_tutorial() {
    let mut c = config();
    c.last_seen_version = None;
    let s = AppState::new(start(c, Ok(None)), clock(0));
    assert!(!s.ui.show_changelog);
    assert!(s.out.iter().any(|e| matches!(e, Effect::StartTutorial)));
}

#[test]
fn a_store_without_settings_is_no_first_start() {
    let mut c = config();
    c.last_seen_version = None;
    let s = AppState::new(start(c, Ok(Some(StoreMode::Password))), clock(0));
    assert!(!s.out.iter().any(|e| matches!(e, Effect::StartTutorial)));
}

#[test]
fn several_clients_stay_allowed_only_where_that_can_be_had() {
    for (running, acquired, kept) in
        [(false, true, true), (true, true, false), (false, false, false)]
    {
        let mut st = start(config(), Ok(None));
        st.still_running = running;
        st.multi_acquired = acquired;
        assert_eq!(AppState::new(st, clock(0)).config.multi_instance_enabled, kept);
    }
}

// ---------------------------------------------------------------------------
// The store
// ---------------------------------------------------------------------------

#[test]
fn a_locked_store_is_not_saved() {
    let mut s = app();
    s.session = None;
    s.auto_save();
    assert!(s.out.is_empty());
}

#[test]
fn a_store_of_the_old_format_is_not_saved() {
    let mut s = app();
    s.session = Some(StoreSession { legacy: true, ..device() });
    s.auto_save();
    assert!(s.out.is_empty());
    s.session = Some(device());
    s.auto_save();
    assert!(matches!(s.out[0], Effect::SaveStore));
}

#[test]
fn unlocking_opens_the_store_and_refreshes() {
    let mut s = AppState::new(start(config(), Ok(Some(StoreMode::Device))), clock(0));
    s.out.clear();
    let store = AccountStore { accounts: vec![account(9, "zed")] };
    s.store_unlocked(store, device(), false, 10);
    assert!(!s.lock.needs_unlock && !s.lock.unlocking);
    assert_eq!(s.store.accounts.len(), 1);
    assert_eq!(s.session, Some(device()));
    assert!(s.out.iter().any(|e| matches!(e, Effect::RefreshAll(c) if c.user_id == 9)));
}

#[test]
fn a_store_of_the_old_format_is_rewritten_under_its_password() {
    let mut s = AppState::new(start(config(), Ok(Some(StoreMode::Password))), clock(0));
    s.out.clear();
    s.lock.password_input = "secret".into();
    s.submit_unlock();
    assert!(matches!(
        &s.out[0],
        Effect::Send(BackendCommand::UnlockWithPassword { password, .. }) if password == "secret"
    ));
    s.out.clear();
    let session = StoreSession { handle: 2, needs_password: true, legacy: true };
    s.store_unlocked(AccountStore { accounts: vec![account(9, "zed")] }, session, true, 10);
    assert!(s.out.iter().any(|e| matches!(
        e,
        Effect::Rekey { new_password: Some(p), upgrade_legacy: true } if p == "secret"
    )));
}

#[test]
fn wiping_needs_the_word() {
    let mut s = AppState::new(start(config(), Ok(Some(StoreMode::Password))), clock(0));
    s.out.clear();
    s.lock.recovery_confirm_input = "delete".into();
    s.answer_recovery(RecoveryAnswer::Wipe);
    assert!(!s.out.iter().any(|e| matches!(e, Effect::WipeStore)));
    s.lock.recovery_confirm_input = " DELETE ".into();
    s.answer_recovery(RecoveryAnswer::Wipe);
    assert!(s.out.iter().any(|e| matches!(e, Effect::WipeStore)));
    s.wipe_account_store(Wiped { undeleted: Vec::new(), orphaned: 0 }, 0);
    assert!(!s.lock.needs_unlock);
    assert_eq!(
        last_toast(&s),
        ("Account store deleted. Add an account to start over.", ToastLevel::Success)
    );
}

#[test]
fn without_a_key_a_cookie_waits_for_one() {
    let mut s = app();
    s.session = None;
    s.send_with_session(Awaiting::Add { cookie: "c".into() });
    assert!(matches!(s.out[0], Effect::CreateDeviceSession));
    assert!(matches!(&s.dialog.awaiting, Some(Awaiting::Add { cookie }) if cookie == "c"));
    s.out.clear();
    s.device_session(Ok(device()), 0);
    assert_eq!(s.session, Some(device()));
    assert!(s.dialog.awaiting.is_none());
    assert!(s
        .out
        .iter()
        .any(|e| matches!(e, Effect::Send(BackendCommand::AddAccount { cookie, .. }) if cookie == "c")));
}

#[test]
fn a_command_carries_the_whole_store() {
    let s = app();
    let (command, rest) = s.command_for(Effect::SaveStore);
    assert!(rest.is_none());
    match command {
        Some(BackendCommand::SaveStore { store, path, session }) => {
            assert_eq!(store.accounts.len(), 3);
            assert_eq!(path, "/data/accounts.dat");
            assert_eq!(session, device());
        }
        other => panic!("{other:?}"),
    }
    let (none, other) = s.command_for(Effect::SaveConfig);
    assert!(none.is_none() && matches!(other, Some(Effect::SaveConfig)));
}

// ---------------------------------------------------------------------------
// Selecting and sorting
// ---------------------------------------------------------------------------

#[test]
fn selecting_replaces_and_toggling_adds() {
    let mut s = app();
    s.sidebar_action(SidebarAction::Select(1), 0);
    assert_eq!(s.ui.selected.only(), Some(1));
    s.sidebar_action(SidebarAction::ToggleSelect(2), 0);
    assert_eq!(s.ui.selected.len(), 2);
    s.sidebar_action(SidebarAction::ToggleSelect(1), 0);
    assert_eq!(s.ui.selected.only(), Some(2));
    s.sidebar_action(SidebarAction::RangeSelect(vec![1, 2, 3]), 0);
    assert_eq!(s.ui.selected.len(), 3);
    s.clear_selection();
    assert_eq!(s.ui.selected.len(), 0);
}

#[test]
fn sort_orders_read_back() {
    for order in [SortOrder::Custom, SortOrder::Name, SortOrder::Status] {
        let mut s = app();
        s.set_sort_order(order);
        assert_eq!(sort_order_named(&s.config.sort_mode), order);
    }
}

// ---------------------------------------------------------------------------
// Launching
// ---------------------------------------------------------------------------

#[test]
fn launches_keep_their_distance() {
    let mut s = app();
    s.config.launch_delay_secs = 10;
    assert!(s.try_consume_launch_slot(1_000));
    assert!(!s.try_consume_launch_slot(10_999));
    assert_eq!(last_toast(&s), ("Launch cooldown: wait 1s", ToastLevel::Info));
    assert!(s.try_consume_launch_slot(11_000));
}

#[test]
fn a_launch_carries_the_accounts_cookie() {
    let mut s = app();
    s.launch_account(2, 606, Some("job".into()), 0);
    match &s.out[..] {
        [Effect::Send(BackendCommand::LaunchGame { credentials, destination, options })] => {
            assert_eq!(credentials.user_id, 2);
            assert_eq!(credentials.encrypted_cookie.as_deref(), Some("cookie2"));
            assert_eq!(destination.place_id, 606);
            assert_eq!(destination.job_id.as_deref(), Some("job"));
            assert!(options.multi_instance);
        }
        other => panic!("{other:?}"),
    }
}

#[test]
fn joining_goes_where_the_other_account_is() {
    let mut s = app();
    s.store.accounts[2].last_presence =
        Presence { user_presence_type: 2, place_id: Some(606), game_id: Some("srv".into()) };
    s.join_account_server(1, 3, 0);
    assert!(s.out.iter().any(|e| matches!(
        e,
        Effect::Send(BackendCommand::LaunchGame { credentials, destination, .. })
            if credentials.user_id == 1 && destination.place_id == 606
                && destination.job_id.as_deref() == Some("srv")
    )));
    let mut idle = app();
    idle.join_account_server(1, 3, 0);
    assert!(idle.out.is_empty());
    assert!(!idle.toasts.queue.is_empty());
}

#[test]
fn a_guess_is_never_killed() {
    let mut s = app();
    s.clients.matched = vec![TrackedInstance {
        pid: 10,
        start_time: 1,
        user_id: 1,
        place_id: 606,
        launchtime: 77,
        launched_at: 0,
        attribution: Attribution::Inferred,
    }];
    s.kill_instance(10, 0);
    assert!(s.out.is_empty());
    s.clients.matched[0].attribution = Attribution::Exact;
    s.kill_instance(10, 0);
    assert!(matches!(
        s.out[0],
        Effect::KillInstance { pid: 10, user_id: 1, launchtime: 77 }
    ));
}

#[test]
fn a_bulk_launch_takes_the_selected_accounts() {
    let mut s = app();
    s.range_select(&vec![1, 3]);
    s.bulk_launch(606, None);
    let effect = s.out.pop().unwrap();
    match s.command_for(effect).0 {
        Some(BackendCommand::BulkLaunchEncrypted { accounts, destination, .. }) => {
            assert_eq!(
                accounts,
                vec![(1, Some("cookie1".to_string())), (3, Some("cookie3".to_string()))]
            );
            assert_eq!(destination.place_id, 606);
        }
        other => panic!("{other:?}"),
    }
}

#[test]
fn a_private_server_is_launched_with_its_codes() {
    let mut s = app();
    s.select(1);
    s.launch_server(606, "link".into(), String::new(), 0);
    assert!(matches!(
        &s.out[0],
        Effect::Send(BackendCommand::LaunchGame { destination, .. })
            if destination.link_code.as_deref() == Some("link") && destination.access_code.is_none()
    ));
}

// ---------------------------------------------------------------------------
// Groups and order
// ---------------------------------------------------------------------------

fn group(name: &str) -> Group {
    Group { name: name.into(), color: (1, 2, 3), description: String::new(), sort_order: u32::MAX }
}

#[test]
fn a_deleted_group_is_empty() {
    let mut s = app();
    s.config.groups = vec![group("farm"), group("main")];
    s.store.accounts[0].group = "farm".into();
    s.delete_group("farm");
    assert_eq!(s.config.groups.len(), 1);
    assert_eq!(s.store.accounts[0].group, "");
}

#[test]
fn a_renamed_group_keeps_its_members() {
    let mut s = app();
    s.config.groups = vec![group("farm")];
    s.store.accounts[1].group = "farm".into();
    s.edit_group("farm", "ranch".into(), (9, 9, 9));
    assert_eq!(s.config.groups[0].name, "ranch");
    assert_eq!(s.config.groups[0].color, (9, 9, 9));
    assert_eq!(s.store.accounts[1].group, "ranch");
}

#[test]
fn an_account_is_moved_next_to_its_target() {
    let mut s = app();
    s.reorder_account(3, 1, false);
    let place = |id: u64| s.store.accounts.iter().find(|a| a.user_id == id).unwrap().sort_order;
    assert!(place(3) < place(1) && place(1) < place(2));
}

#[test]
fn removing_asks_first() {
    let mut s = app();
    s.ask_remove(2);
    assert_eq!(s.removal_label(2), "bea");
    s.answer_remove(false);
    assert!(s.out.is_empty() && s.ui.confirm_remove.is_none());
    s.ask_remove(2);
    s.answer_remove(true);
    assert!(s
        .out
        .iter()
        .any(|e| matches!(e, Effect::Send(BackendCommand::RemoveAccount { user_id: 2 }))));
}

// ---------------------------------------------------------------------------
// Events
// ---------------------------------------------------------------------------

#[test]
fn a_removed_account_is_gone() {
    let mut s = app();
    s.process_event(BackendEvent::AccountRemoved { user_id: 2 }, clock(0));
    assert_eq!(s.store.accounts.len(), 2);
    assert!(s.out.iter().any(|e| matches!(e, Effect::SaveStore)));
}

#[test]
fn presences_are_kept() {
    let mut s = app();
    let p = Presence { user_presence_type: 1, place_id: None, game_id: None };
    s.process_event(BackendEvent::PresencesUpdated(vec![(3, p)]), clock(0));
    assert_eq!(s.store.accounts[2].last_presence.user_presence_type, 1);
    assert_eq!(s.store.accounts[0].last_presence.user_presence_type, 0);
}

#[test]
fn a_moderated_account_waits_to_be_confirmed() {
    let mut s = app();
    let mut a = account(4, "dee");
    a.moderation = Some(ModerationInfo {
        is_banned: true,
        reason: Some("spam".into()),
        expires_at: None,
        last_checked: None,
        active: true,
    });
    s.process_event(
        BackendEvent::AccountValidated { account: Box::new(a), encrypted_cookie: None },
        clock(0),
    );
    assert_eq!(s.store.accounts.len(), 3);
    assert!(s.dialog.pending_moderated.is_some());
}

#[test]
fn a_validated_account_is_added_once() {
    let mut s = app();
    for _ in 0..2 {
        s.process_event(
            BackendEvent::AccountValidated {
                account: Box::new(account(4, "dee")),
                encrypted_cookie: Some("e".into()),
            },
            clock(0),
        );
    }
    assert_eq!(s.store.accounts.iter().filter(|a| a.user_id == 4).count(), 1);
}

#[test]
fn an_error_is_a_toast() {
    let mut s = app();
    s.process_event(BackendEvent::Error("boom".into()), clock(0));
    assert_eq!(last_toast(&s).1, ToastLevel::Error);
    assert!(last_toast(&s).0.contains("boom"));
}

#[test]
fn a_newer_version_is_remembered() {
    let mut s = app();
    s.process_event(
        BackendEvent::UpdateAvailable { version: "2.0.0".into(), url: "u".into() },
        clock(0),
    );
    assert_eq!(s.ui.update_available, Some(("2.0.0".into(), "u".into())));
}

#[test]
fn a_place_that_was_looked_up_is_named() {
    let mut s = app();
    s.config.private_servers = vec![PrivateServer {
        name: "mine".into(),
        place_id: 606,
        universe_id: None,
        link_code: "l".into(),
        access_code: String::new(),
        place_name: String::new(),
    }];
    s.process_event(
        BackendEvent::PlaceResolved {
            index: 0,
            place_name: Some("Home".into()),
            place_id: 606,
            icon_bytes: Some(vec![1]),
        },
        clock(0),
    );
    assert_eq!(s.config.private_servers[0].place_name, "Home");
    assert_eq!(s.pictures.game_icons.get(&606), Some(&vec![1]));
}

// ---------------------------------------------------------------------------
// Time
// ---------------------------------------------------------------------------

#[test]
fn an_interval_is_kept() {
    let mut slot = None;
    assert!(interval_due(&mut slot, 100, 1_000));
    assert_eq!(slot, Some(1_000));
    assert!(!interval_due(&mut slot, 100, 1_099));
    assert!(interval_due(&mut slot, 100, 1_100));
    assert_eq!(slot, Some(1_100));
}

#[test]
fn dead_cookies_are_not_borrowed() {
    let mut s = app();
    s.store.accounts[0].cookie_expired = true;
    s.store.accounts[1].encrypted_cookie = None;
    assert_eq!(s.first_account_with_cookie(), Some(2));
    s.trigger_refresh();
    assert!(matches!(&s.out[0], Effect::RefreshAll(c) if c.user_id == 3));
    s.store.accounts[2].cookie_expired = true;
    assert_eq!(s.first_account_with_cookie(), None);
}

/// What is no command is handed back, also where there is no key for the store.
#[test]
fn what_is_no_command_is_handed_back() {
    let mut s = app();
    s.session = None;
    let (none, back) = s.command_for(Effect::CreateDeviceSession);
    assert!(none.is_none() && matches!(back, Some(Effect::CreateDeviceSession)));
    let (none, back) = s.command_for(Effect::SaveConfig);
    assert!(none.is_none() && matches!(back, Some(Effect::SaveConfig)));
    let (none, back) = s.command_for(Effect::PickFiles);
    assert!(none.is_none() && matches!(back, Some(Effect::PickFiles)));
    let (none, back) = s.command_for(Effect::SaveStore);
    assert!(none.is_none() && back.is_none());
}

/// What an event leaves to do is done before the next event is looked at.
#[test]
fn events_stop_at_the_first_that_leaves_something_to_do() {
    let mut s = app();
    let added = |id: u64| BackendEvent::AccountValidated {
        account: Box::new(account(id, "new")),
        encrypted_cookie: Some("e".into()),
    };
    let events =
        vec![BackendEvent::UpdateAvailable { version: "9".into(), url: "u".into() }, added(4), added(5)];
    let rest = s.process_events(events, clock(0));
    assert!(s.ui.update_available.is_some());
    assert_eq!(rest.len(), 1);
    assert!(s.out.iter().any(|e| matches!(e, Effect::SaveStore)));
    assert_eq!(s.store.accounts.len(), 4);
    s.out.clear();
    let rest = s.process_events(rest, clock(0));
    assert!(rest.is_empty());
    assert_eq!(s.store.accounts.len(), 5);
}

#[test]
fn events_wait_for_what_is_still_to_do() {
    let mut s = app();
    s.out.push(Effect::SaveConfig);
    let rest = s.process_events(vec![BackendEvent::StoreSaved], clock(0));
    assert_eq!(rest.len(), 1);
    assert_eq!(s.out.len(), 1);
}

#[test]
fn a_password_is_not_kept_longer_than_needed() {
    let locked = || {
        let mut s = AppState::new(start(config(), Ok(Some(StoreMode::Password))), clock(0));
        s.lock.password_input = "secret".into();
        s.submit_unlock();
        assert_eq!(s.lock.password_used, "secret");
        s
    };
    let store = || AccountStore { accounts: vec![account(9, "zed")] };
    let mut s = locked();
    s.store_unlocked(store(), StoreSession { handle: 2, needs_password: true, legacy: false }, false, 10);
    assert_eq!(s.lock.password_used, "");
    let mut s = locked();
    let legacy = StoreSession { handle: 2, needs_password: true, legacy: true };
    s.store_unlocked(store(), legacy, true, 10);
    assert!(s.lock.pending_legacy_upgrade);
    assert_eq!(s.lock.password_used, "secret");
    s.process_event(BackendEvent::Error("disk full".into()), clock(20));
    assert_eq!(s.lock.password_used, "");
}
