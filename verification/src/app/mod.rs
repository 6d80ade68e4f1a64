//! The state of the window, and what changes it.
//!
//! Every change is a function of the state: it takes what happened, updates
//! the state, and lists in [`AppState::out`] what the program has to do for
//! it, in order. The program carries the list out after each change.

use vstd::prelude::*;

use std::collections::HashMap;

use crate::asset_manager::{AssetManagerState, KindNames, RemoteInventory};
use crate::assets::{AssetIndex, AssetKind};
use crate::bridge::{
    BackendCommand, Credentials, Destination, GroupTarget, LaunchOptions, UniverseTarget,
};
use crate::lists::{first_where, first_where_is, first_where_none, IdSet, TextSet};
use crate::models::{
    copy_of, Account, AccountStore, AppConfig, LaunchPreset, StoreSession, TrackedInstance,
};
use crate::settings::SettingsState;
use crate::toast::{ToastLevel, Toasts, ToastsView, MAX_VISIBLE};

pub mod accounts;
pub mod arranging;
pub mod asset_event_laws;
pub mod asset_events;
pub mod asset_tab;
pub mod clients;
pub mod command_laws;
pub mod desk_laws;
pub mod dialog;
pub mod event_laws;
pub mod events;
pub mod inventory;
pub mod notice;
pub mod panels;
pub mod polls;
pub mod queue_laws;
pub mod results;
pub mod round_laws;
pub mod session;
pub mod staging;
pub mod startup;
pub mod tick;
pub mod uploads;
pub mod window_laws;

verus! {

/// A reading of the two clocks: one that never goes back, for intervals, and
/// the time of day. Both in milliseconds.
#[derive(Clone, Copy, Debug, PartialEq, Eq, Structural)]
pub struct Clock {
    pub now: u64,
    pub utc: i64,
}

/// The tabs of the window.
#[derive(Clone, Copy, Debug, PartialEq, Eq, Structural)]
pub enum Tab {
    Accounts,
    PrivateServers,
    Presets,
    /// Only there while developer options are on.
    AssetManager,
    Settings,
}

/// The order of the account list.
#[derive(Clone, Copy, Debug, PartialEq, Eq, Structural)]
pub enum SortOrder {
    Custom,
    Name,
    Status,
}

/// Steps of the first-launch tutorial that something done in the window ends.
#[derive(Clone, Copy, Debug, PartialEq, Eq, Structural)]
pub enum TutorialStep {
    AddAccount,
    EnterCookie,
    SelectAccount,
}

/// Something for the program to do.
#[derive(Debug)]
pub enum Effect {
    /// Send a command to the backend.
    Send(BackendCommand),
    /// Send the account store to the backend to be saved.
    SaveStore,
    /// Send the account store to the backend to be locked anew.
    Rekey { new_password: Option<String>, upgrade_legacy: bool },
    /// Refresh avatars and presence of all accounts with these credentials.
    RefreshAll(Credentials),
    /// Refresh presence of the visible accounts with these credentials.
    RefreshPresence(Credentials),
    /// Validate every account's cookie again.
    RevalidateAll,
    /// Launch the selected accounts.
    BulkLaunch(Destination),
    /// Write the configuration.
    SaveConfig,
    /// Write the configuration because the user asked for it, and come back
    /// with how it went.
    SaveSettings,
    /// Write the asset index.
    SaveAssetIndex,
    /// Kill Roblox processes in the tray.
    KillTray,
    /// Make a key for a store that this device unlocks, and come back with it.
    CreateDeviceSession,
    /// Title these windows, and come back with what they were called.
    ApplyTitles(Vec<(u32, String)>),
    /// Give these windows their own titles back.
    RestoreTitles(Vec<(u32, String)>),
    /// Go on with the tutorial, if it is at this step.
    AdvanceTutorial(TutorialStep),
    StartTutorial,
    /// Read the presets again.
    LoadPresets,
    /// Write a preset, and come back with how it went.
    SavePreset { path: Option<String>, preset: LaunchPreset },
    /// Delete a preset's file, and come back with how it went.
    DeletePreset(String),
    /// Show the folder of the presets.
    RevealPresets,
    /// Put text on the clipboard.
    CopyText(String),
    /// Bring a client to the front, and come back with how it went.
    FocusInstance(u32),
    /// Kill an account's client, if it still carries this launch token, and
    /// come back with how it went.
    KillInstance { pid: u32, user_id: u64, launchtime: i64 },
    /// Allow several clients at once, and come back with how it went. Tray
    /// processes are killed first where clients are running.
    EnableMultiInstance { kill_tray: bool },
    /// Open a login window under this number.
    OpenLogin(u64),
    /// Open a browser with a cookie that was rejected.
    Investigate(String),
    /// Open the cookie of an account under review, and come back with it.
    ReopenCookie(Credentials),
    /// Forget an account's credential.
    DeleteCredential(u64),
    /// Wipe the account store.
    WipeStore,
    PickFiles,
    RevealFile(String),
}

/// Which page of the add-account dialog is open.
#[derive(Clone, Copy, Debug, PartialEq, Eq, Structural)]
pub enum AddAccountStep {
    Choose,
    Browser,
    Manual,
    Bulk,
}

/// An account that is added only once the user has seen that it is moderated.
#[derive(Debug)]
pub struct PendingModeratedAdd {
    pub account: Account,
    pub encrypted_cookie: Option<String>,
}

/// What waits for a key to encrypt cookies with.
#[derive(Debug)]
pub enum Awaiting {
    /// The next cookie of a batch.
    Bulk { cookie: String },
    /// A cookie that a login window came back with.
    Login { cookie: String },
    /// A cookie that was typed in.
    Add { cookie: String },
    /// A cookie that was rejected, to be added all the same.
    Force { cookie: String, username: String },
}

/// The add-account dialog.
#[derive(Debug)]
pub struct AddAccountDialog {
    pub open: bool,
    pub step: AddAccountStep,
    pub cookie_input: String,
    /// Waiting for the backend.
    pub loading: bool,
    pub last_error: Option<String>,
    pub browser_login_pending: bool,
    /// The login window whose outcome is waited for.
    pub login: Option<u64>,
    pub pending_moderated: Option<Box<PendingModeratedAdd>>,
    /// The cookie that was rejected last.
    pub rejected_cookie: Option<String>,
    pub force_add_form_open: bool,
    pub force_add_username: String,
    pub bulk_input: String,
    /// Cookies still to be sent, the next one last.
    pub bulk_queue: Vec<String>,
    pub bulk_total: usize,
    pub bulk_succeeded: usize,
    pub bulk_failed: usize,
    pub bulk_running: bool,
    /// What waits for a key.
    pub awaiting: Option<Awaiting>,
}

/// A preset and the file it is in.
#[derive(Debug)]
pub struct PresetFile {
    pub path: String,
    pub preset: LaunchPreset,
}

/// What is on screen.
#[derive(Debug)]
pub struct UiState {
    pub active_tab: Tab,
    pub selected: IdSet,
    pub place_id_input: String,
    pub job_id_input: String,
    pub sort_order: SortOrder,
    pub collapsed_groups: TextSet,
    /// The accounts that the list shows after the search.
    pub visible_user_ids: Vec<u64>,
    pub presets: Vec<PresetFile>,
    /// The preset file that the editor has open.
    pub editing_preset: Option<String>,
    /// The account whose removal is being confirmed.
    pub confirm_remove: Option<u64>,
    /// A newer version and where to get it.
    pub update_available: Option<(String, String)>,
    pub show_changelog: bool,
}

/// The unlock screen.
#[derive(Debug)]
pub struct LockState {
    pub needs_unlock: bool,
    pub password_input: String,
    /// The password that was sent last, kept until a store of an old format
    /// is encrypted anew under it.
    pub password_used: String,
    pub unlocking: bool,
    pub show_recovery: bool,
    pub recovery_confirm_input: String,
    pub pending_legacy_upgrade: bool,
    pub show_passwordless_offer: bool,
    pub device_key_missing: bool,
}

/// Running clients.
#[derive(Debug)]
pub struct Clients {
    pub running: bool,
    /// Every running client, whoever started it.
    pub count: usize,
    /// Those that were launched from here.
    pub matched: Vec<TrackedInstance>,
    /// What windows were called before they were renamed, no window twice.
    pub original_titles: Vec<(u32, String)>,
    pub renaming_was_enabled: bool,
    /// When a launch was last asked for.
    pub last_launch_request: Option<u64>,
}

/// When background work last ran, on the clock that never goes back.
#[derive(Clone, Copy, Debug, PartialEq, Eq, Structural)]
pub struct Timers {
    pub tray_kill: Option<u64>,
    pub presence_poll: Option<u64>,
    pub avatar_refresh: Option<u64>,
    pub revalidation: Option<u64>,
    pub instance_sweep: Option<u64>,
    pub asset_poll: Option<u64>,
    pub moderation_poll: Option<u64>,
    pub upload_pump: Option<u64>,
    pub audio_upload: Option<u64>,
    pub index_save: Option<u64>,
    /// The last launch that the user asked for.
    pub launch: Option<u64>,
}

/// Pictures, by what they belong to.
#[derive(Debug)]
pub struct Pictures {
    pub avatars: HashMap<u64, Vec<u8>>,
    /// Blurred avatars, for while names are hidden.
    pub blurred: HashMap<u64, Vec<u8>>,
    pub game_icons: HashMap<u64, Vec<u8>>,
    pub thumbnails: HashMap<u64, Vec<u8>>,
    /// Thumbnails that were asked for.
    pub inflight: IdSet,
    /// When to ask again for a thumbnail that was not ready.
    pub retry_at: HashMap<u64, u64>,
}

/// The asset manager and its index.
#[derive(Debug)]
pub struct AssetDesk {
    pub index: AssetIndex,
    /// The index on disk must not be written.
    pub read_only: bool,
    /// The index has changes that are not written.
    pub dirty: bool,
    /// Rows that wait for the upload confirmation.
    pub pending_upload_rows: Vec<String>,
    pub universe_targets: Vec<UniverseTarget>,
    pub universe_targets_user: Option<u64>,
    pub publish_groups: Vec<GroupTarget>,
    pub remote: RemoteInventory,
    pub panel: AssetManagerState,
}

/// What the rest of the program tells the library about Roblox's rules.
#[derive(Debug)]
pub struct Rules {
    /// How often a file is sent before it is given up.
    pub max_upload_attempts: u32,
    /// How long to wait before each further attempt, in milliseconds.
    pub retry_backoff: Vec<u64>,
    /// The kinds of assets that can be listed and chosen.
    pub selectable_kinds: Vec<AssetKind>,
    pub kind_names: KindNames,
}

/// The state of the window.
#[derive(Debug)]
pub struct AppState {
    pub config: AppConfig,
    pub store: AccountStore,
    /// The key of the open store.
    pub session: Option<StoreSession>,
    pub toasts: Toasts,
    /// What there is to do.
    pub out: Vec<Effect>,
    pub ui: UiState,
    pub dialog: AddAccountDialog,
    pub settings: SettingsState,
    pub lock: LockState,
    pub clients: Clients,
    pub timers: Timers,
    pub pictures: Pictures,
    pub desk: AssetDesk,
    pub rules: Rules,
}

impl AppState {
    /// What holds of the state between changes.
    pub open spec fn inv(self) -> bool {
        &&& self.toasts@.queue.len() <= MAX_VISIBLE
        &&& self.ui.selected.wf()
        &&& self.ui.collapsed_groups.wf()
        &&& self.pictures.inflight.wf()
        &&& self.desk.panel.wf()
        &&& self.rules.retry_backoff@.len() == self.rules.max_upload_attempts
    }

}

/// Whether `t` is `expected`, but for what is on the list of things to do and
/// what the toasts say, which are `out` and `toasts`.
pub open spec fn becomes(t: AppState, expected: AppState, out: Seq<Effect>, toasts: ToastsView) -> bool {
    &&& t.out@ == out
    &&& t.toasts@ == toasts
    &&& t == (AppState { out: t.out, toasts: t.toasts, ..expected })
}

// ---------------------------------------------------------------------------
// Saying and sending
// ---------------------------------------------------------------------------

impl AppState {
    /// Shows a toast.
    pub fn say(&mut self, message: &str, level: ToastLevel, now: u64)
        requires
            old(self).inv(),
        ensures
            final(self).inv(),
            final(self).toasts@ == old(self).toasts@.said(message@, level, now),
            *final(self) == (AppState { toasts: final(self).toasts, ..*old(self) }),
    {
        self.toasts.say(message, level, now);
    }

    /// Adds something to do.
    pub fn emit(&mut self, effect: Effect)
        requires
            old(self).inv(),
        ensures
            final(self).inv(),
            final(self).out@ == old(self).out@.push(effect),
            *final(self) == (AppState { out: final(self).out, ..*old(self) }),
    {
        self.out.push(effect);
    }
}

// ---------------------------------------------------------------------------
// The store
// ---------------------------------------------------------------------------

/// Whether the store is saved by itself: it is open, and not of the format
/// that is about to be replaced.
pub open spec fn saves(s: AppState) -> bool {
    s.session is Some && !s.session->Some_0.legacy
}

/// What saving the store adds to the things to do.
pub open spec fn saving(s: AppState) -> Seq<Effect> {
    if saves(s) {
        seq![Effect::SaveStore]
    } else {
        Seq::empty()
    }
}

/// The accounts whose cookie can be borrowed for calls that any account can
/// make.
pub open spec fn lends_cookie(use_credential_manager: bool) -> spec_fn(Account) -> bool {
    |a: Account| !a.cookie_expired && (use_credential_manager || a.encrypted_cookie is Some)
}

/// The account whose cookie the shared calls borrow.
pub open spec fn lender(s: AppState) -> Option<int> {
    first_where(s.store.accounts@, lends_cookie(s.config.use_credential_manager))
}

/// The credentials of an account.
pub open spec fn credentials_of(s: AppState, account: Account) -> Credentials {
    Credentials {
        user_id: account.user_id,
        encrypted_cookie: account.encrypted_cookie,
        session: s.session->Some_0,
        use_credential_manager: s.config.use_credential_manager,
    }
}

/// What refreshing adds to the things to do. Nothing is asked while no account
/// has a cookie that works.
pub open spec fn refreshing(s: AppState) -> Seq<Effect> {
    if s.session is Some && lender(s) is Some {
        seq![Effect::RefreshAll(credentials_of(s, s.store.accounts@[lender(s)->Some_0]))]
    } else {
        Seq::empty()
    }
}

/// What refreshing presence adds to the things to do.
pub open spec fn refreshing_presence(s: AppState) -> Seq<Effect> {
    if s.session is Some && s.ui.visible_user_ids@.len() > 0 && lender(s) is Some {
        seq![Effect::RefreshPresence(credentials_of(s, s.store.accounts@[lender(s)->Some_0]))]
    } else {
        Seq::empty()
    }
}

/// What validating again adds to the things to do.
pub open spec fn revalidating(s: AppState) -> Seq<Effect> {
    if s.session is Some && s.store.accounts@.len() > 0 {
        seq![Effect::RevalidateAll]
    } else {
        Seq::empty()
    }
}

/// The credentials of an account.
pub fn credentials_for(account: &Account, session: StoreSession, use_credential_manager: bool) -> (c:
    Credentials)
    ensures
        c == (Credentials {
            user_id: account.user_id,
            encrypted_cookie: account.encrypted_cookie,
            session,
            use_credential_manager,
        }),
{
    Credentials {
        user_id: account.user_id,
        encrypted_cookie: copy_of(&account.encrypted_cookie),
        session,
        use_credential_manager,
    }
}

/// What launches do to clients that are there, by the settings.
pub open spec fn launch_options(config: AppConfig) -> LaunchOptions {
    LaunchOptions {
        multi_instance: config.multi_instance_enabled,
        kill_background: config.kill_background_roblox,
        privacy_mode: config.privacy_mode,
    }
}

impl AppState {
    pub fn options(&self) -> (o: LaunchOptions)
        ensures
            o == launch_options(self.config),
    {
        LaunchOptions {
            multi_instance: self.config.multi_instance_enabled,
            kill_background: self.config.kill_background_roblox,
            privacy_mode: self.config.privacy_mode,
        }
    }

    /// Saves the store, unless it is locked or about to be replaced.
    pub fn auto_save(&mut self)
        requires
            old(self).inv(),
        ensures
            final(self).inv(),
            final(self).out@ == old(self).out@ + saving(*old(self)),
            *final(self) == (AppState { out: final(self).out, ..*old(self) }),
    {
        let save: bool = match self.session {
            Some(s) => !s.legacy,
            None => false,
        };
        if save {
            self.out.push(Effect::SaveStore);
        }
        assert(self.out@ =~= old(self).out@ + saving(*old(self)));
    }

    /// The account whose cookie the shared calls borrow. Accounts whose cookie
    /// is known to be dead are passed over: the calls are made on a timer and
    /// would fail every time.
    pub fn first_account_with_cookie(&self) -> (r: Option<usize>)
        ensures
            match r {
                Some(i) => lender(*self) == Some(i as int) && i < self.store.accounts@.len(),
                None => lender(*self) is None,
            },
    {
        let ghost p = lends_cookie(self.config.use_credential_manager);
        let mut i: usize = 0;
        while i < self.store.accounts.len()
            invariant
                0 <= i <= self.store.accounts@.len(),
                p == lends_cookie(self.config.use_credential_manager),
                forall|j: int| 0 <= j < i ==> !p(#[trigger] self.store.accounts@[j]),
            decreases self.store.accounts@.len() - i,
        {
            if !self.store.accounts[i].cookie_expired && (self.config.use_credential_manager
                || self.store.accounts[i].encrypted_cookie.is_some()) {
                proof {
                    first_where_is(self.store.accounts@, p, i as int);
                }
                return Some(i);
            }
            i += 1;
        }
        proof {
            first_where_none(self.store.accounts@, p);
        }
        None
    }

    /// Refreshes avatars and presence.
    pub fn trigger_refresh(&mut self)
        requires
            old(self).inv(),
        ensures
            final(self).inv(),
            final(self).out@ == old(self).out@ + refreshing(*old(self)),
            *final(self) == (AppState { out: final(self).out, ..*old(self) }),
    {
        match self.session {
            Some(session) => match self.first_account_with_cookie() {
                Some(i) => {
                    let c: Credentials = credentials_for(
                        &self.store.accounts[i],
                        session,
                        self.config.use_credential_manager,
                    );
                    self.out.push(Effect::RefreshAll(c));
                },
                None => {},
            },
            None => {},
        }
        assert(self.out@ =~= old(self).out@ + refreshing(*old(self)));
    }

    /// Refreshes presence of the visible accounts.
    pub fn trigger_presence_refresh(&mut self)
        requires
            old(self).inv(),
        ensures
            final(self).inv(),
            final(self).out@ == old(self).out@ + refreshing_presence(*old(self)),
            *final(self) == (AppState { out: final(self).out, ..*old(self) }),
    {
        if self.ui.visible_user_ids.len() > 0 {
            match self.session {
                Some(session) => match self.first_account_with_cookie() {
                    Some(i) => {
                        let c: Credentials = credentials_for(
                            &self.store.accounts[i],
                            session,
                            self.config.use_credential_manager,
                        );
                        self.out.push(Effect::RefreshPresence(c));
                    },
                    None => {},
                },
                None => {},
            }
        }
        assert(self.out@ =~= old(self).out@ + refreshing_presence(*old(self)));
    }

    /// Validates every account's cookie again.
    pub fn trigger_revalidation(&mut self)
        requires
            old(self).inv(),
        ensures
            final(self).inv(),
            final(self).out@ == old(self).out@ + revalidating(*old(self)),
            *final(self) == (AppState { out: final(self).out, ..*old(self) }),
    {
        if self.session.is_some() && self.store.accounts.len() > 0 {
            self.out.push(Effect::RevalidateAll);
        }
        assert(self.out@ =~= old(self).out@ + revalidating(*old(self)));
    }
}

// ---------------------------------------------------------------------------
// Commands that carry a copy of the state
// ---------------------------------------------------------------------------

/// The identifiers of the accounts, in order.
pub open spec fn ids_of(accounts: Seq<Account>) -> Seq<u64> {
    accounts.map_values(|a: Account| a.user_id)
}

/// The identifiers and cookies of the accounts, in order.
pub open spec fn pairs_of(accounts: Seq<Account>) -> Seq<(u64, Option<String>)> {
    accounts.map_values(|a: Account| (a.user_id, a.encrypted_cookie))
}

/// The accounts that are selected, in the order of the store.
pub open spec fn chosen(selected: Set<u64>) -> spec_fn(Account) -> bool {
    |a: Account| selected.contains(a.user_id)
}

/// Whether the backend carries an effect out. The program does the others
/// itself.
pub open spec fn for_the_backend(effect: Effect) -> bool {
    match effect {
        Effect::Send(_) => true,
        Effect::SaveStore => true,
        Effect::Rekey { .. } => true,
        Effect::RefreshAll(_) => true,
        Effect::RefreshPresence(_) => true,
        Effect::RevalidateAll => true,
        Effect::BulkLaunch(_) => true,
        _ => false,
    }
}

/// What is sent for an effect that carries a copy of the state.
pub open spec fn sends(s: AppState, effect: Effect, cmd: Option<BackendCommand>) -> bool {
    match effect {
        Effect::SaveStore => match s.session {
            Some(session) => cmd matches Some(
                BackendCommand::SaveStore { store, path, session: under },
            ) && store.accounts@ == s.store.accounts@ && path == s.config.accounts_path && under
                == session,
            None => cmd is None,
        },
        Effect::Rekey { new_password, upgrade_legacy } => match s.session {
            Some(session) => cmd matches Some(
                BackendCommand::RekeyStore {
                    store,
                    path,
                    session: under,
                    new_password: password,
                    upgrade_legacy: upgrade,
                },
            ) && store.accounts@ == s.store.accounts@ && path == s.config.accounts_path && under
                == session && password == new_password && upgrade == upgrade_legacy,
            None => cmd is None,
        },
        Effect::RefreshAll(credentials) => cmd matches Some(
            BackendCommand::RefreshAll { user_ids, credentials: with },
        ) && user_ids@ == ids_of(s.store.accounts@) && with == credentials,
        Effect::RefreshPresence(credentials) => cmd matches Some(
            BackendCommand::RefreshPresenceOnly { user_ids, credentials: with },
        ) && user_ids@ == s.ui.visible_user_ids@ && with == credentials,
        Effect::RevalidateAll => match s.session {
            Some(session) => cmd matches Some(
                BackendCommand::RevalidateAll {
                    accounts,
                    session: under,
                    use_credential_manager,
                },
            ) && accounts@ == pairs_of(s.store.accounts@) && under == session
                && use_credential_manager == s.config.use_credential_manager,
            None => cmd is None,
        },
        Effect::BulkLaunch(destination) => match s.session {
            Some(session) => cmd matches Some(
                BackendCommand::BulkLaunchEncrypted {
                    accounts,
                    session: under,
                    use_credential_manager,
                    destination: to,
                    options,
                    launch_delay_secs,
                },
            ) && accounts@ == pairs_of(s.store.accounts@.filter(chosen(s.ui.selected@))) && under
                == session && use_credential_manager == s.config.use_credential_manager && to
                == destination && options == launch_options(s.config) && launch_delay_secs
                == s.config.launch_delay_secs,
            None => cmd is None,
        },
        Effect::Send(c) => cmd == Some(c),
        _ => cmd is None,
    }
}

impl AppState {
    pub fn all_ids(&self) -> (r: Vec<u64>)
        ensures
            r@ == ids_of(self.store.accounts@),
    {
        let mut out: Vec<u64> = Vec::new();
        let mut i: usize = 0;
        while i < self.store.accounts.len()
            invariant
                0 <= i <= self.store.accounts@.len(),
                out@ == ids_of(self.store.accounts@.take(i as int)),
            decreases self.store.accounts@.len() - i,
        {
            out.push(self.store.accounts[i].user_id);
            i += 1;
            assert(out@ =~= ids_of(self.store.accounts@.take(i as int)));
        }
        assert(self.store.accounts@.take(i as int) =~= self.store.accounts@);
        out
    }

    fn all_pairs(&self) -> (r: Vec<(u64, Option<String>)>)
        ensures
            r@ == pairs_of(self.store.accounts@),
    {
        let mut out: Vec<(u64, Option<String>)> = Vec::new();
        let mut i: usize = 0;
        while i < self.store.accounts.len()
            invariant
                0 <= i <= self.store.accounts@.len(),
                out@ == pairs_of(self.store.accounts@.take(i as int)),
            decreases self.store.accounts@.len() - i,
        {
            out.push(
                (
                    self.store.accounts[i].user_id,
                    copy_of(&self.store.accounts[i].encrypted_cookie),
                ),
            );
            i += 1;
            assert(out@ =~= pairs_of(self.store.accounts@.take(i as int)));
        }
        assert(self.store.accounts@.take(i as int) =~= self.store.accounts@);
        out
    }

    fn chosen_pairs(&self) -> (r: Vec<(u64, Option<String>)>)
        ensures
            r@ == pairs_of(self.store.accounts@.filter(chosen(self.ui.selected@))),
    {
        let ghost p = chosen(self.ui.selected@);
        let ghost all = self.store.accounts@;
        let mut out: Vec<(u64, Option<String>)> = Vec::new();
        let mut i: usize = 0;
        proof {
            crate::lists::filter_ends(all, p);
            assert(out@ =~= pairs_of(all.take(0).filter(p)));
        }
        while i < self.store.accounts.len()
            invariant
                0 <= i <= self.store.accounts@.len(),
                all == self.store.accounts@,
                p == chosen(self.ui.selected@),
                out@ == pairs_of(all.take(i as int).filter(p)),
            decreases self.store.accounts@.len() - i,
        {
            proof {
                crate::lists::filter_grows(all, p, i as int);
            }
            let ghost before = out@;
            if self.ui.selected.contains(self.store.accounts[i].user_id) {
                out.push(
                    (
                        self.store.accounts[i].user_id,
                        copy_of(&self.store.accounts[i].encrypted_cookie),
                    ),
                );
                assert(out@ =~= pairs_of(all.take(i as int).filter(p).push(all[i as int])));
            }
            i += 1;
        }
        proof {
            crate::lists::filter_ends(all, p);
        }
        out
    }

    fn visible_ids(&self) -> (r: Vec<u64>)
        ensures
            r@ == self.ui.visible_user_ids@,
    {
        let mut out: Vec<u64> = Vec::new();
        let mut i: usize = 0;
        while i < self.ui.visible_user_ids.len()
            invariant
                0 <= i <= self.ui.visible_user_ids@.len(),
                out@ == self.ui.visible_user_ids@.take(i as int),
            decreases self.ui.visible_user_ids@.len() - i,
        {
            out.push(self.ui.visible_user_ids[i]);
            i += 1;
            assert(out@ =~= self.ui.visible_user_ids@.take(i as int));
        }
        assert(self.ui.visible_user_ids@.take(i as int) =~= self.ui.visible_user_ids@);
        out
    }

    /// The command that carries an effect out, where the backend is to do it:
    /// a copy of the state goes with it as it is now. An effect that the
    /// program carries out itself is handed back, whether or not a store is
    /// open.
    pub fn command_for(&self, effect: Effect) -> (r: (Option<BackendCommand>, Option<Effect>))
        ensures
            sends(*self, effect, r.0),
            r.1 == if for_the_backend(effect) {
                None
            } else {
                Some(effect)
            },
    {
        match effect {
            Effect::SaveStore => match self.session {
                Some(session) => (
                    Some(
                        BackendCommand::SaveStore {
                            store: self.store.clone(),
                            path: self.config.accounts_path.clone(),
                            session,
                        },
                    ),
                    None,
                ),
                None => (None, None),
            },
            Effect::Rekey { new_password, upgrade_legacy } => match self.session {
                Some(session) => (
                    Some(
                        BackendCommand::RekeyStore {
                            store: self.store.clone(),
                            path: self.config.accounts_path.clone(),
                            session,
                            new_password,
                            upgrade_legacy,
                        },
                    ),
                    None,
                ),
                None => (None, None),
            },
            Effect::RefreshAll(credentials) => (
                Some(BackendCommand::RefreshAll { user_ids: self.all_ids(), credentials }),
                None,
            ),
            Effect::RefreshPresence(credentials) => (
                Some(
                    BackendCommand::RefreshPresenceOnly {
                        user_ids: self.visible_ids(),
                        credentials,
                    },
                ),
                None,
            ),
            Effect::RevalidateAll => match self.session {
                Some(session) => (
                    Some(
                        BackendCommand::RevalidateAll {
                            accounts: self.all_pairs(),
                            session,
                            use_credential_manager: self.config.use_credential_manager,
                        },
                    ),
                    None,
                ),
                None => (None, None),
            },
            Effect::BulkLaunch(destination) => match self.session {
                Some(session) => (
                    Some(
                        BackendCommand::BulkLaunchEncrypted {
                            accounts: self.chosen_pairs(),
                            session,
                            use_credential_manager: self.config.use_credential_manager,
                            destination,
                            options: self.options(),
                            launch_delay_secs: self.config.launch_delay_secs,
                        },
                    ),
                    None,
                ),
                None => (None, None),
            },
            Effect::Send(c) => (Some(c), None),
            other => (None, Some(other)),
        }
    }
}

} // verus!
