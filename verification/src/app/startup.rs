//! The state of the window when the program starts.

use vstd::prelude::*;

use std::collections::HashMap;

use super::accounts::{mode_named, sort_order_named};
use super::panels::looking_up;
use super::staging::index_recovered;
use super::{
    becomes, AddAccountDialog, AddAccountStep, AppState, AssetDesk, Clients, Clock, Effect,
    LockState, Pictures, Rules, Tab, Timers, UiState,
};
use crate::asset_manager::{AssetManagerState, RemoteInventory};
use crate::assets::AssetIndex;
use crate::bridge::BackendCommand;
use crate::lists::{IdSet, TextSet};
use crate::models::{AccountStore, AppConfig, StoreMode};
use crate::settings::SettingsState;
use crate::text::same;
use crate::toast::Toasts;

verus! {

/// What is known when the program starts.
#[derive(Debug)]
pub struct Start {
    pub config: AppConfig,
    /// How the store on disk is locked, if there is one. An error is a store
    /// that could not be looked at.
    pub store_mode: Result<Option<StoreMode>, String>,
    /// Whether clients were still running once the tray was cleared.
    pub still_running: bool,
    /// Whether several clients could be allowed.
    pub multi_acquired: bool,
    pub index: AssetIndex,
    pub index_read_only: bool,
    /// Rows of the index that Roblox never answered about.
    pub expired: Vec<String>,
    /// The version of this program.
    pub version: String,
    pub rules: Rules,
}

/// How the store is locked. One that cannot be looked at counts as locked with
/// a password: the unlock screen can explain itself.
pub open spec fn lock_mode(start: Start) -> Option<StoreMode> {
    match start.store_mode {
        Ok(mode) => mode,
        Err(_) => Some(StoreMode::Password),
    }
}

/// Whether several clients stay allowed: they were, none is running, and the
/// permission could be had again.
pub open spec fn multi_kept(start: Start) -> bool {
    start.config.multi_instance_enabled && !start.still_running && start.multi_acquired
}

/// Whether `s` is a state in which nothing has happened yet.
pub open spec fn is_fresh(s: AppState, start: Start, now: u64) -> bool {
    &&& s.config == (AppConfig { multi_instance_enabled: multi_kept(start), ..start.config })
    &&& s.store.accounts@.len() == 0
    &&& s.session is None
    &&& s.toasts@.queue.len() == 0
    &&& s.toasts@.last_shown.len() == 0
    &&& s.out@.len() == 0
    &&& s.settings.new_password_input@.len() == 0
    &&& s.settings.confirm_password_input@.len() == 0
    &&& s.rules == start.rules
    &&& fresh_ui(s.ui, start)
    &&& fresh_dialog(s.dialog)
    &&& fresh_lock(s.lock, start)
    &&& fresh_clients(s.clients, start)
    &&& s.timers == fresh_timers(now)
    &&& fresh_pictures(s.pictures)
    &&& fresh_desk(s.desk, start)
}

/// Whether nothing is on screen but the list of accounts.
pub open spec fn fresh_ui(ui: UiState, start: Start) -> bool {
    &&& ui.active_tab == Tab::Accounts
    &&& ui.selected@ == Set::<u64>::empty()
    &&& ui.place_id_input@.len() == 0
    &&& ui.job_id_input@.len() == 0
    &&& ui.sort_order == mode_named(start.config.sort_mode@)
    &&& ui.collapsed_groups@ == Set::<Seq<char>>::empty()
    &&& ui.visible_user_ids@.len() == 0
    &&& ui.presets@.len() == 0
    &&& ui.editing_preset is None
    &&& ui.confirm_remove is None
    &&& ui.update_available is None
    &&& !ui.show_changelog
}

/// Whether the add-account dialog is closed and empty.
pub open spec fn fresh_dialog(d: AddAccountDialog) -> bool {
    &&& !d.open
    &&& d.step == AddAccountStep::Choose
    &&& d.cookie_input@.len() == 0
    &&& !d.loading
    &&& d.last_error is None
    &&& !d.browser_login_pending
    &&& d.login is None
    &&& d.pending_moderated is None
    &&& d.rejected_cookie is None
    &&& !d.force_add_form_open
    &&& d.force_add_username@.len() == 0
    &&& d.bulk_input@.len() == 0
    &&& d.bulk_queue@.len() == 0
    &&& d.bulk_total == 0
    &&& d.bulk_succeeded == 0
    &&& d.bulk_failed == 0
    &&& !d.bulk_running
    &&& d.awaiting is None
}

/// Whether the unlock screen is as the store wants it: there while there is a
/// store, waiting where this device unlocks it.
pub open spec fn fresh_lock(lock: LockState, start: Start) -> bool {
    &&& lock.needs_unlock == (lock_mode(start) is Some)
    &&& lock.unlocking == (lock_mode(start) == Some(StoreMode::Device))
    &&& lock.password_input@.len() == 0
    &&& lock.password_used@.len() == 0
    &&& !lock.show_recovery
    &&& lock.recovery_confirm_input@.len() == 0
    &&& !lock.pending_legacy_upgrade
    &&& !lock.show_passwordless_offer
    &&& !lock.device_key_missing
}

/// Whether no client is known.
pub open spec fn fresh_clients(clients: Clients, start: Start) -> bool {
    &&& !clients.running
    &&& clients.count == 0
    &&& clients.matched@.len() == 0
    &&& clients.original_titles@.len() == 0
    &&& clients.renaming_was_enabled == start.config.rename_roblox_windows
    &&& clients.last_launch_request is None
}

/// When background work last ran. What opening the store starts by itself is
/// not started again at once.
pub open spec fn fresh_timers(now: u64) -> Timers {
    Timers {
        tray_kill: None,
        presence_poll: Some(now),
        avatar_refresh: Some(now),
        revalidation: Some(now),
        instance_sweep: None,
        asset_poll: None,
        moderation_poll: None,
        upload_pump: None,
        audio_upload: None,
        index_save: None,
        launch: None,
    }
}

/// Whether no picture is there.
pub open spec fn fresh_pictures(p: Pictures) -> bool {
    &&& p.avatars@ == Map::<u64, Vec<u8>>::empty()
    &&& p.blurred@ == Map::<u64, Vec<u8>>::empty()
    &&& p.game_icons@ == Map::<u64, Vec<u8>>::empty()
    &&& p.thumbnails@ == Map::<u64, Vec<u8>>::empty()
    &&& p.inflight@ == Set::<u64>::empty()
    &&& p.retry_at@ == Map::<u64, u64>::empty()
}

/// Whether the asset tab has only the index. That is there whether or not the
/// tab is: an upload that is on its way must not be lost by hiding it.
pub open spec fn fresh_desk(desk: AssetDesk, start: Start) -> bool {
    &&& desk.index == start.index
    &&& desk.read_only == start.index_read_only
    &&& !desk.dirty
    &&& desk.pending_upload_rows@.len() == 0
    &&& desk.universe_targets@.len() == 0
    &&& desk.universe_targets_user is None
    &&& desk.publish_groups@.len() == 0
    &&& desk.remote.unasked()
    &&& desk.panel.untouched()
}

/// What starting adds to the things to do before the index is looked at.
pub open spec fn first_out(fresh: AppState, version: String) -> Seq<Effect> {
    (if fresh.lock.unlocking {
        seq![Effect::Send(BackendCommand::UnlockWithDevice { path: fresh.config.accounts_path })]
    } else {
        Seq::empty()
    }).push(Effect::Send(BackendCommand::CheckForUpdates { current_version: version })) + looking_up(
        fresh,
        fresh.config.private_servers@.len(),
    ).push(Effect::LoadPresets)
}

/// Whether the settings were last used by another version.
pub open spec fn upgraded(config: AppConfig, version: Seq<char>) -> bool {
    config.last_seen_version is Some && config.last_seen_version->Some_0@ != version
}

/// Whether this is the first start: no version was ever seen, and there is no
/// store. A store without settings is a user who lost their settings.
pub open spec fn first_start(s: AppState) -> bool {
    s.config.last_seen_version is None && !s.lock.needs_unlock
}

/// Whether `t` is what starting makes of a state in which nothing has happened
/// yet.
pub open spec fn started_from(fresh: AppState, t: AppState, start: Start, now: u64) -> bool {
    exists|asked: AppState, settled: AppState|
        {
            &&& becomes(asked, fresh, first_out(fresh, start.version), fresh.toasts@)
            &&& #[trigger] index_recovered(asked, settled, start.expired@, now)
            &&& becomes(
                t,
                AppState {
                    ui: UiState {
                        show_changelog: upgraded(fresh.config, start.version@),
                        ..settled.ui
                    },
                    config: AppConfig {
                        last_seen_version: Some(start.version),
                        ..settled.config
                    },
                    ..settled
                },
                (if first_start(fresh) {
                    settled.out@.push(Effect::StartTutorial)
                } else {
                    settled.out@
                }).push(Effect::SaveConfig),
                settled.toasts@,
            )
        }
}

/// Whether `t` is the state of the window when the program starts.
pub open spec fn started(t: AppState, start: Start, now: u64) -> bool {
    exists|fresh: AppState| #[trigger]
        is_fresh(fresh, start, now) && started_from(fresh, t, start, now)
}

fn empty_dialog() -> (d: AddAccountDialog)
    ensures
        fresh_dialog(d),
{
    AddAccountDialog {
        open: false,
        step: AddAccountStep::Choose,
        cookie_input: String::new(),
        loading: false,
        last_error: None,
        browser_login_pending: false,
        login: None,
        pending_moderated: None,
        rejected_cookie: None,
        force_add_form_open: false,
        force_add_username: String::new(),
        bulk_input: String::new(),
        bulk_queue: Vec::new(),
        bulk_total: 0,
        bulk_succeeded: 0,
        bulk_failed: 0,
        bulk_running: false,
        awaiting: None,
    }
}

fn no_pictures() -> (p: Pictures)
    ensures
        fresh_pictures(p),
        p.inflight.wf(),
{
    Pictures {
        avatars: HashMap::new(),
        blurred: HashMap::new(),
        game_icons: HashMap::new(),
        thumbnails: HashMap::new(),
        inflight: IdSet::new(),
        retry_at: HashMap::new(),
    }
}

fn empty_ui(sort_mode: &str) -> (ui: UiState)
    ensures
        ui.selected.wf(),
        ui.collapsed_groups.wf(),
        ui.active_tab == Tab::Accounts,
        ui.selected@ == Set::<u64>::empty(),
        ui.place_id_input@.len() == 0,
        ui.job_id_input@.len() == 0,
        ui.sort_order == mode_named(sort_mode@),
        ui.collapsed_groups@ == Set::<Seq<char>>::empty(),
        ui.visible_user_ids@.len() == 0,
        ui.presets@.len() == 0,
        ui.editing_preset is None,
        ui.confirm_remove is None,
        ui.update_available is None,
        !ui.show_changelog,
{
    UiState {
        active_tab: Tab::Accounts,
        selected: IdSet::new(),
        place_id_input: String::new(),
        job_id_input: String::new(),
        sort_order: sort_order_named(sort_mode),
        collapsed_groups: TextSet::new(),
        visible_user_ids: Vec::new(),
        presets: Vec::new(),
        editing_preset: None,
        confirm_remove: None,
        update_available: None,
        show_changelog: false,
    }
}

/// The state in which nothing has happened yet, with what starting still needs.
fn fresh_state(start: Start, now: u64) -> (r: (AppState, String, Vec<String>))
    requires
        start.rules.retry_backoff@.len() == start.rules.max_upload_attempts,
    ensures
        r.0.inv(),
        is_fresh(r.0, start, now),
        r.1 == start.version,
        r.2 == start.expired,
{
    let Start {
        mut config,
        store_mode,
        still_running,
        multi_acquired,
        index,
        index_read_only,
        expired,
        version,
        rules,
    } = start;
    let (needs_unlock, unlocking): (bool, bool) = match store_mode {
        Ok(None) => (false, false),
        Ok(Some(StoreMode::Device)) => (true, true),
        Ok(Some(StoreMode::Password)) => (true, false),
        Err(_) => (true, false),
    };
    config.multi_instance_enabled = config.multi_instance_enabled && !still_running
        && multi_acquired;
    let ui: UiState = empty_ui(&config.sort_mode);
    let renaming: bool = config.rename_roblox_windows;
    let state: AppState = AppState {
        config,
        store: AccountStore { accounts: Vec::new() },
        session: None,
        toasts: Toasts::default(),
        out: Vec::new(),
        ui,
        dialog: empty_dialog(),
        settings: SettingsState::default(),
        lock: LockState {
            needs_unlock,
            password_input: String::new(),
            password_used: String::new(),
            unlocking,
            show_recovery: false,
            recovery_confirm_input: String::new(),
            pending_legacy_upgrade: false,
            show_passwordless_offer: false,
            device_key_missing: false,
        },
        clients: Clients {
            running: false,
            count: 0,
            matched: Vec::new(),
            original_titles: Vec::new(),
            renaming_was_enabled: renaming,
            last_launch_request: None,
        },
        timers: Timers {
            tray_kill: None,
            presence_poll: Some(now),
            avatar_refresh: Some(now),
            revalidation: Some(now),
            instance_sweep: None,
            asset_poll: None,
            moderation_poll: None,
            upload_pump: None,
            audio_upload: None,
            index_save: None,
            launch: None,
        },
        pictures: no_pictures(),
        desk: AssetDesk {
            index,
            read_only: index_read_only,
            dirty: false,
            pending_upload_rows: Vec::new(),
            universe_targets: Vec::new(),
            universe_targets_user: None,
            publish_groups: Vec::new(),
            remote: RemoteInventory::new(),
            panel: AssetManagerState::default(),
        },
        rules,
    };
    (state, version, expired)
}

impl AppState {
    /// The state when the program starts: a store that this device unlocks is
    /// opened at once, updates are looked for, private servers and presets are
    /// read, and the index is brought back in line.
    pub fn new(start: Start, clock: Clock) -> (t: AppState)
        requires
            start.rules.retry_backoff@.len() == start.rules.max_upload_attempts,
        ensures
            t.inv(),
            started(t, start, clock.now),
    {
        let ghost whole = start;
        let (mut state, version, expired) = fresh_state(start, clock.now);
        let ghost fresh = state;
        state.ask_first(&version);
        let ghost asked = state;
        state.recover_asset_index(&expired, clock.now);
        let ghost settled = state;
        assert(index_recovered(asked, settled, expired@, clock.now));
        state.note_version(version);
        assert(started_from(fresh, state, whole, clock.now));
        state
    }

    /// What is asked for at once.
    fn ask_first(&mut self, version: &String)
        requires
            old(self).inv(),
            old(self).out@.len() == 0,
        ensures
            final(self).inv(),
            becomes(
                *final(self),
                *old(self),
                first_out(*old(self), *version),
                old(self).toasts@,
            ),
    {
        if self.lock.unlocking {
            let path: String = self.config.accounts_path.clone();
            self.out.push(Effect::Send(BackendCommand::UnlockWithDevice { path }));
        }
        self.out.push(
            Effect::Send(BackendCommand::CheckForUpdates { current_version: version.clone() }),
        );
        assert(looking_up(*self, self.config.private_servers@.len()) == looking_up(
            *old(self),
            self.config.private_servers@.len(),
        )) by {
            looked_up_alike(*self, *old(self), self.config.private_servers@.len());
        }
        self.resolve_private_server_icons();
        self.out.push(Effect::LoadPresets);
        assert(self.out@ =~= first_out(*old(self), *version));
    }

    /// Shows what is new after an upgrade, or the tutorial on the first start,
    /// and remembers the version.
    fn note_version(&mut self, version: String)
        requires
            old(self).inv(),
        ensures
            final(self).inv(),
            becomes(
                *final(self),
                AppState {
                    ui: UiState {
                        show_changelog: old(self).ui.show_changelog || upgraded(
                            old(self).config,
                            version@,
                        ),
                        ..old(self).ui
                    },
                    config: AppConfig { last_seen_version: Some(version), ..old(self).config },
                    ..*old(self)
                },
                (if first_start(*old(self)) {
                    old(self).out@.push(Effect::StartTutorial)
                } else {
                    old(self).out@
                }).push(Effect::SaveConfig),
                old(self).toasts@,
            ),
    {
        let (seen, other): (bool, bool) = match &self.config.last_seen_version {
            Some(v) => (true, !same(v, &version)),
            None => (false, false),
        };
        if other {
            self.ui.show_changelog = true;
        }
        if !seen && !self.lock.needs_unlock {
            self.out.push(Effect::StartTutorial);
        }
        self.config.last_seen_version = Some(version);
        self.out.push(Effect::SaveConfig);
    }
}

impl AppState {
    /// Closes the list of changes.
    pub fn close_changelog(&mut self)
        requires
            old(self).inv(),
        ensures
            final(self).inv(),
            becomes(
                *final(self),
                AppState { ui: UiState { show_changelog: false, ..old(self).ui }, ..*old(self) },
                old(self).out@,
                old(self).toasts@,
            ),
    {
        self.ui.show_changelog = false;
    }
}

/// Which private servers are looked up depends on the settings and the icons.
proof fn looked_up_alike(a: AppState, b: AppState, n: nat)
    requires
        a.config == b.config,
        a.pictures == b.pictures,
        n <= a.config.private_servers@.len(),
    ensures
        looking_up(a, n) == looking_up(b, n),
    decreases n,
{
    if n > 0 {
        looked_up_alike(a, b, (n - 1) as nat);
    }
}

/// The tutorial and the list of changes never open together: one is for the
/// first start, the other for a start after an upgrade.
pub proof fn a_first_start_is_no_upgrade(fresh: AppState, start: Start)
    ensures
        !(first_start(fresh) && upgraded(fresh.config, start.version@)),
{
}

/// The list of changes opens once: the next start of the same version does not
/// open it again.
pub proof fn the_changes_are_shown_once(fresh: AppState, t: AppState, start: Start, now: u64)
    requires
        started_from(fresh, t, start, now),
    ensures
        !upgraded(t.config, start.version@),
        t.config.last_seen_version is Some,
{
}

} // verus!
