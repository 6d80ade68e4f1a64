//! The add-account dialog and the windows of clients.

use ram_ui::app::dialog::{BulkProgress, ModeratedAnswer};
use ram_ui::app::notice::notice;
use ram_ui::app::startup::Start;
use ram_ui::app::{AddAccountStep, AppState, Clock, Effect, Rules};
use ram_ui::asset_manager::KindNames;
use ram_ui::assets::AssetIndex;
use ram_ui::bridge::{BackendCommand, BackendEvent};
use ram_ui::browser_login::LoginOutcome;
use ram_ui::models::{
    Account, AppConfig, Attribution, ModerationInfo, StoreSession, TrackedInstance,
};

fn app() -> AppState {
    let config = AppConfig {
        accounts_path: "p".into(),
        anonymize_names: false,
        auto_arrange_windows: false,
        developer_options: false,
        kill_background_roblox: false,
        launch_delay_secs: 0,
        multi_instance_enabled: false,
        offered_passwordless: true,
        privacy_mode: false,
        rename_roblox_windows: false,
        use_credential_manager: false,
        roblox_player_path: None,
        sort_mode: "name".into(),
        groups: Vec::new(),
        private_servers: Vec::new(),
        last_seen_version: Some("1".into()),
    };
    let kind_names = KindNames {
        decal: "Decal".into(),
        audio: "Audio".into(),
        model: "Model".into(),
        animation: "Animation".into(),
        video: "Video".into(),
        other: "Other".into(),
    };
    let mut s = AppState::new(
        Start {
            config,
            store_mode: Ok(None),
            still_running: false,
            multi_acquired: false,
            index: AssetIndex { records: Vec::new() },
            index_read_only: false,
            expired: Vec::new(),
            version: "1".into(),
            rules: Rules {
                max_upload_attempts: 0,
                retry_backoff: Vec::new(),
                selectable_kinds: Vec::new(),
                kind_names,
            },
        },
        clock(),
    );
    s.out.clear();
    s.session = Some(StoreSession { handle: 1, needs_password: false, legacy: false });
    s.open_add_dialog();
    s.out.clear();
    s
}

fn clock() -> Clock {
    Clock { now: 0, utc: 0 }
}

fn account(user_id: u64) -> Account {
    Account::new(user_id, format!("user{user_id}"), "d".into(), "t".into())
}

fn cookies_sent(s: &AppState) -> Vec<&str> {
    s.out
        .iter()
        .filter_map(|e| match e {
            Effect::Send(BackendCommand::AddAccount { cookie, .. }) => Some(cookie.as_str()),
            _ => None,
        })
        .collect()
}

#[test]
fn a_typed_cookie_is_sent_trimmed() {
    let mut s = app();
    s.choose_manual();
    assert_eq!(s.dialog.step, AddAccountStep::Manual);
    s.dialog.cookie_input = "  ".into();
    s.submit_cookie();
    assert!(cookies_sent(&s).is_empty());
    s.dialog.cookie_input = " c ".into();
    s.submit_cookie();
    assert_eq!(cookies_sent(&s), vec!["c"]);
    assert!(s.dialog.loading);
}

#[test]
fn cookies_are_imported_one_after_the_other() {
    let mut s = app();
    s.choose_bulk();
    s.cookies_loaded("one\ntwo");
    assert!(matches!(s.bulk_progress(), BulkProgress::Pasting(2)));
    s.start_import();
    assert_eq!(cookies_sent(&s), vec!["one"]);
    assert!(s.bulk_is_busy());
    s.process_event(
        BackendEvent::AccountValidated { account: Box::new(account(1)), encrypted_cookie: None },
        clock(),
    );
    assert_eq!(cookies_sent(&s), vec!["one", "two"]);
    s.process_event(
        BackendEvent::AddAccountAuthFailed { cookie: "two".into(), moderation_message: None },
        clock(),
    );
    assert!(!s.bulk_is_busy());
    assert_eq!((s.dialog.bulk_succeeded, s.dialog.bulk_failed), (1, 1));
    assert!(matches!(s.bulk_progress(), BulkProgress::Done(_)));
    assert_eq!(s.store.accounts.len(), 1);
}

#[test]
fn a_stale_login_is_ignored() {
    let mut s = app();
    s.start_login(1);
    assert!(matches!(s.out[0], Effect::OpenLogin(1)));
    s.start_login(2);
    s.login_result(1, Some(LoginOutcome::Success("old".into())));
    assert!(cookies_sent(&s).is_empty());
    s.login_result(2, Some(LoginOutcome::Success("new".into())));
    assert_eq!(cookies_sent(&s), vec!["new"]);
}

#[test]
fn a_cancelled_login_asks_nothing() {
    let mut s = app();
    s.start_login(1);
    s.out.clear();
    s.login_result(1, Some(LoginOutcome::Cancelled));
    assert!(s.out.is_empty());
    assert!(!s.dialog.browser_login_pending);
}

#[test]
fn a_rejected_cookie_can_be_added_by_name() {
    let mut s = app();
    s.choose_manual();
    s.process_event(
        BackendEvent::AddAccountAuthFailed {
            cookie: "bad".into(),
            moderation_message: Some("banned".into()),
        },
        clock(),
    );
    assert_eq!(s.dialog.rejected_cookie.as_deref(), Some("bad"));
    assert!(s.dialog.last_error.as_deref().unwrap_or("").contains("banned"));
    s.toggle_force_form();
    s.dialog.force_add_username = " name ".into();
    s.submit_force();
    assert!(s.out.iter().any(|e| matches!(
        e,
        Effect::Send(BackendCommand::AddAccountForced { cookie, username, .. })
            if cookie == "bad" && username == "name"
    )));
}

#[test]
fn a_moderated_account_is_added_once_it_is_confirmed() {
    let mut s = app();
    let mut a = account(5);
    a.moderation = Some(ModerationInfo {
        is_banned: false,
        reason: None,
        expires_at: None,
        last_checked: None,
        active: true,
    });
    s.account_validated(a, None, 0);
    assert!(s.store.accounts.is_empty());
    s.answer_moderated(ModeratedAnswer::AddAnyway, 0);
    assert_eq!(s.store.accounts.len(), 1);
    assert!(s.dialog.pending_moderated.is_none());
}

#[test]
fn opening_forgets_what_was_typed() {
    let mut s = app();
    s.dialog.cookie_input = "secret".into();
    s.close_dialog();
    assert!(!s.dialog.open);
    s.open_add_dialog();
    assert!(s.dialog.open);
    assert_eq!(s.dialog.cookie_input, "");
}

#[test]
fn windows_get_their_titles_back() {
    let mut s = app();
    s.config.rename_roblox_windows = true;
    s.store.accounts = vec![account(1)];
    s.clients.matched = vec![TrackedInstance {
        pid: 10,
        start_time: 0,
        user_id: 1,
        place_id: 606,
        launchtime: 0,
        launched_at: 0,
        attribution: Attribution::Exact,
    }];
    s.retitle_roblox_windows();
    assert!(matches!(
        &s.out[0],
        Effect::ApplyTitles(t) if t == &vec![(10, "user1".to_string())]
    ));
    s.titles_displaced(vec![(10, "Roblox".into())]);
    s.titles_displaced(vec![(10, "user1".into())]);
    s.out.clear();
    s.restore_roblox_window_titles();
    assert!(s.clients.original_titles.is_empty());
    assert_eq!(s.out.len(), 1);
}

#[test]
fn a_moderated_account_is_described() {
    let mut s = app();
    assert!(s.moderated_notice().is_none());
    let mut a = account(5);
    a.moderation = Some(ModerationInfo {
        is_banned: false,
        reason: Some("spam".into()),
        expires_at: Some(86_400_000 + 3_660_000),
        last_checked: None,
        active: true,
    });
    s.account_validated(a, None, 0);
    let n = s.moderated_notice().unwrap();
    assert!(!n.terminated);
    assert_eq!(n.title, "\u{26a0} This account is currently moderated.");
    assert_eq!(n.who.as_deref(), Some("d (@user5)"));
    assert_eq!(n.reason.as_deref(), Some("spam"));
    assert_eq!(n.expiry.as_deref(), Some("Expires: 1970-01-02 01:01 UTC"));
    s.config.anonymize_names = true;
    assert_eq!(s.moderated_notice().unwrap().who, None);
}

#[test]
fn a_termination_without_an_end_is_permanent() {
    let info = ModerationInfo {
        is_banned: true,
        reason: None,
        expires_at: None,
        last_checked: None,
        active: true,
    };
    let n = notice(&account(5), &info, true, None);
    assert!(n.terminated);
    assert_eq!(n.title, "\u{26a0} This account is terminated.");
    assert_eq!(n.expiry.as_deref(), Some("Permanent termination."));
    let warned = ModerationInfo { is_banned: false, ..info };
    assert_eq!(notice(&account(5), &warned, true, None).expiry, None);
}

#[test]
fn a_folder_that_will_not_open_is_named() {
    let mut s = app();
    s.folder_unopened("/data", 0);
    assert_eq!(s.toasts.queue.last().unwrap().message, "Could not open /data");
}

#[test]
fn a_rejected_cookie_is_let_go() {
    let rejected = || {
        let mut s = app();
        s.open_add_dialog();
        s.choose_manual();
        s.process_event(
            BackendEvent::AddAccountAuthFailed { cookie: "bad".into(), moderation_message: None },
            clock(),
        );
        assert_eq!(s.dialog.rejected_cookie.as_deref(), Some("bad"));
        s
    };
    let mut s = rejected();
    s.close_dialog();
    assert!(s.dialog.rejected_cookie.is_none());
    let mut s = rejected();
    s.investigation_opened(Err("no browser".into()), 0);
    assert!(s.dialog.rejected_cookie.is_some());
    s.investigation_opened(Ok(()), 0);
    assert!(s.dialog.rejected_cookie.is_none());
    let mut s = rejected();
    s.start_login(3);
    assert!(s.dialog.rejected_cookie.is_none());
}
