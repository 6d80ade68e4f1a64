//! What the backend reports, and what it changes.

use vstd::prelude::*;

use super::asset_events::{
    drop_pictures, grants_noted, keep_pictures, rows_written, thumbnails_kept, with_hash,
    with_operation, with_pictures, without_pictures,
};
use super::clients::retitled;
use super::dialog::{account_arrived, account_forced, bulk_miss, cookie_refused};
use super::inventory::{page_kept, page_wanted, targets_kept};
use super::results::{
    after_failure, after_outcome, outcome_said, row_changed, tries_again, verdict_applied,
};
use super::session::{store_opened, store_rekeyed};
use super::{
    becomes, saving, AddAccountDialog, AppState, AssetDesk, Clients, Clock, Effect, LockState,
    Pictures, UiState,
};
use crate::assets::row_in;
use crate::bridge::{BackendCommand, BackendEvent};
use crate::models::{
    enforced, is_enforced, position_in, position_of, without, Account, AppConfig, ModerationInfo,
    Presence, PrivateServer, TrackedInstance,
};
use crate::text::{decimal, decimal_of, join2, join3, same, trim, trimmed};
use crate::toast::{ToastLevel, ToastsView};

verus! {

// ---------------------------------------------------------------------------
// Accounts
// ---------------------------------------------------------------------------

/// The accounts with one avatar in place.
pub open spec fn with_avatar(accounts: Seq<Account>, user_id: u64, url: String) -> Seq<Account> {
    match position_in(accounts, user_id) {
        Some(i) => accounts.update(i, Account { avatar_url: url, ..accounts[i] }),
        None => accounts,
    }
}

/// The accounts with these avatars in place, in order.
pub open spec fn with_avatars(accounts: Seq<Account>, avatars: Seq<(u64, String)>) -> Seq<Account>
    decreases avatars.len(),
{
    if avatars.len() == 0 {
        accounts
    } else {
        with_avatar(
            with_avatars(accounts, avatars.drop_last()),
            avatars.last().0,
            avatars.last().1,
        )
    }
}

/// The accounts with one presence in place.
pub open spec fn with_presence(accounts: Seq<Account>, user_id: u64, presence: Presence) -> Seq<
    Account,
> {
    match position_in(accounts, user_id) {
        Some(i) => accounts.update(i, Account { last_presence: presence, ..accounts[i] }),
        None => accounts,
    }
}

/// The accounts with these presences in place, in order.
pub open spec fn with_presences(accounts: Seq<Account>, presences: Seq<(u64, Presence)>) -> Seq<
    Account,
>
    decreases presences.len(),
{
    if presences.len() == 0 {
        accounts
    } else {
        with_presence(
            with_presences(accounts, presences.drop_last()),
            presences.last().0,
            presences.last().1,
        )
    }
}

/// Whether `t` is the state after an account was removed.
pub open spec fn account_gone(s: AppState, t: AppState, user_id: u64, now: u64) -> bool {
    &&& t.store.accounts@ == without(s.store.accounts@, user_id)
    &&& t.ui.selected@ == s.ui.selected@.remove(user_id)
    &&& becomes(
        t,
        AppState { store: t.store, ui: UiState { selected: t.ui.selected, ..s.ui }, ..s },
        s.out@ + saving(s),
        s.toasts@.said("Account removed"@, ToastLevel::Info, now),
    )
}

impl AppState {
    /// An account was removed.
    pub fn account_removed(&mut self, user_id: u64, now: u64)
        requires
            old(self).inv(),
        ensures
            final(self).inv(),
            account_gone(*old(self), *final(self), user_id, now),
    {
        self.store.remove_by_id(user_id);
        self.ui.selected.remove(user_id);
        self.say("Account removed", ToastLevel::Info, now);
        self.auto_save();
    }

    /// Addresses of avatars came in.
    pub fn avatars_updated(&mut self, avatars: &Vec<(u64, String)>)
        requires
            old(self).inv(),
        ensures
            final(self).inv(),
            final(self).store.accounts@ == with_avatars(old(self).store.accounts@, avatars@),
            *final(self) == (AppState { store: final(self).store, ..*old(self) }),
    {
        let mut k: usize = 0;
        assert(avatars@.take(0) =~= Seq::<(u64, String)>::empty());
        while k < avatars.len()
            invariant
                0 <= k <= avatars@.len(),
                self.inv(),
                self.store.accounts@ == with_avatars(
                    old(self).store.accounts@,
                    avatars@.take(k as int),
                ),
                *self == (AppState { store: self.store, ..*old(self) }),
            decreases avatars@.len() - k,
        {
            assert(avatars@.take(k + 1).drop_last() =~= avatars@.take(k as int));
            let ghost here = self.store.accounts@;
            match position_of(&self.store.accounts, avatars[k].0) {
                Some(i) => {
                    self.store.accounts[i].avatar_url = avatars[k].1.clone();
                },
                None => {},
            }
            assert(self.store.accounts@ =~= with_avatar(
                here,
                avatars@[k as int].0,
                avatars@[k as int].1,
            ));
            k += 1;
        }
        assert(avatars@.take(k as int) =~= avatars@);
    }

    /// Presences came in.
    pub fn presences_updated(&mut self, presences: &Vec<(u64, Presence)>)
        requires
            old(self).inv(),
        ensures
            final(self).inv(),
            final(self).store.accounts@ == with_presences(old(self).store.accounts@, presences@),
            *final(self) == (AppState { store: final(self).store, ..*old(self) }),
    {
        let mut k: usize = 0;
        assert(presences@.take(0) =~= Seq::<(u64, Presence)>::empty());
        while k < presences.len()
            invariant
                0 <= k <= presences@.len(),
                self.inv(),
                self.store.accounts@ == with_presences(
                    old(self).store.accounts@,
                    presences@.take(k as int),
                ),
                *self == (AppState { store: self.store, ..*old(self) }),
            decreases presences@.len() - k,
        {
            assert(presences@.take(k + 1).drop_last() =~= presences@.take(k as int));
            let ghost here = self.store.accounts@;
            match position_of(&self.store.accounts, presences[k].0) {
                Some(i) => {
                    self.store.accounts[i].last_presence = presences[k].1.clone();
                },
                None => {},
            }
            assert(self.store.accounts@ =~= with_presence(
                here,
                presences@[k as int].0,
                presences@[k as int].1,
            ));
            k += 1;
        }
        assert(presences@.take(k as int) =~= presences@);
    }

    /// Avatars came in. The blurred copies of those are made anew.
    pub fn avatar_images_ready(&mut self, images: Vec<(u64, Vec<u8>)>)
        requires
            old(self).inv(),
        ensures
            final(self).inv(),
            final(self).pictures.avatars@ == with_pictures(old(self).pictures.avatars@, images@),
            final(self).pictures.blurred@ == without_pictures(
                old(self).pictures.blurred@,
                images@,
            ),
            *final(self) == (AppState {
                pictures: Pictures {
                    avatars: final(self).pictures.avatars,
                    blurred: final(self).pictures.blurred,
                    ..old(self).pictures
                },
                ..*old(self)
            }),
    {
        drop_pictures(&mut self.pictures.blurred, &images);
        keep_pictures(&mut self.pictures.avatars, images);
    }
}

/// A blurred avatar is never older than the avatar: a fresh avatar has none
/// until it is blurred again.
pub proof fn a_fresh_avatar_is_not_blurred(
    blurred: Map<u64, Vec<u8>>,
    images: Seq<(u64, Vec<u8>)>,
    i: int,
)
    requires
        0 <= i < images.len(),
    ensures
        !without_pictures(blurred, images).contains_key(images[i].0),
    decreases images.len(),
{
    if i < images.len() - 1 {
        a_fresh_avatar_is_not_blurred(blurred, images.drop_last(), i);
    }
}

// ---------------------------------------------------------------------------
// Validation
// ---------------------------------------------------------------------------

/// Whether a reason says more than that there is an enforcement.
pub open spec fn is_specific(reason: Seq<char>) -> bool {
    trimmed(reason) != "Account terminated."@ && trimmed(reason) != "Account moderated."@
}

/// What is known of an enforcement after another look. What the new look could
/// not find out is kept from before, except a reason that says nothing.
pub open spec fn merged(
    before: Option<ModerationInfo>,
    found: Option<ModerationInfo>,
) -> Option<ModerationInfo> {
    match (before, found) {
        (Some(b), Some(f)) => Some(
            ModerationInfo {
                reason: match f.reason {
                    Some(r) => Some(r),
                    None => match b.reason {
                        Some(r) => if is_specific(r@) {
                            Some(r)
                        } else {
                            None
                        },
                        None => None,
                    },
                },
                expires_at: match f.expires_at {
                    Some(at) => Some(at),
                    None => b.expires_at,
                },
                ..f
            },
        ),
        (b, None) => b,
        (None, f) => f,
    }
}

/// An account after its cookie was validated again. The names are those of a
/// valid cookie.
pub open spec fn revalidated(
    a: Account,
    names: Option<(String, String)>,
    moderation: Option<ModerationInfo>,
    utc: i64,
) -> Account {
    let seen = match names {
        Some((username, display_name)) => Account {
            last_validated: Some(utc),
            username,
            display_name,
            cookie_expired: false,
            ..a
        },
        None => Account { cookie_expired: true, ..a },
    };
    Account { moderation: merged(a.moderation, moderation), ..seen }
}

/// How an account is named in a toast about it.
pub open spec fn toast_name(anonymize_names: bool, a: Account) -> Seq<char> {
    if anonymize_names {
        "An account"@
    } else {
        a.shown_as()
    }
}

/// What is said of an account after its cookie was validated again: only what
/// is new, and of a dead cookie only where no enforcement explains it.
pub open spec fn revalidation_said(
    toasts: ToastsView,
    anonymize_names: bool,
    before: Account,
    after: Account,
    found: Option<ModerationInfo>,
    now: u64,
) -> ToastsView {
    let newly_moderated = !enforced(before.moderation) && enforced(found);
    let newly_expired = after.cookie_expired && !before.cookie_expired;
    if newly_moderated {
        toasts.said(
            toast_name(anonymize_names, after)
                + " has been moderated. See the account panel for details."@,
            ToastLevel::Error,
            now,
        )
    } else if newly_expired && !enforced(after.moderation) {
        toasts.said(
            "Cookie expired for "@ + toast_name(anonymize_names, after)
                + ". Re-add with a fresh cookie."@,
            ToastLevel::Error,
            now,
        )
    } else {
        toasts
    }
}

/// Whether `t` is the state after a cookie was validated again.
pub open spec fn revalidation_noted(
    s: AppState,
    t: AppState,
    user_id: u64,
    names: Option<(String, String)>,
    moderation: Option<ModerationInfo>,
    clock: Clock,
) -> bool {
    match position_in(s.store.accounts@, user_id) {
        None => becomes(t, s, s.out@ + saving(s), s.toasts@),
        Some(i) => {
            let before = s.store.accounts@[i];
            let after = revalidated(before, names, moderation, clock.utc);
            &&& t.store.accounts@ == s.store.accounts@.update(i, after)
            &&& becomes(
                t,
                AppState { store: t.store, ..s },
                s.out@ + saving(s),
                revalidation_said(
                    s.toasts@,
                    s.config.anonymize_names,
                    before,
                    after,
                    moderation,
                    clock.now,
                ),
            )
        },
    }
}

fn specific(reason: &str) -> (b: bool)
    ensures
        b == is_specific(reason@),
{
    let text: String = trim(reason);
    !same(&text, "Account terminated.") && !same(&text, "Account moderated.")
}

/// What is known of an enforcement after another look.
pub fn merge_moderation(before: Option<ModerationInfo>, found: Option<ModerationInfo>) -> (r: Option<
    ModerationInfo,
>)
    ensures
        r == merged(before, found),
{
    match (before, found) {
        (Some(b), Some(f)) => {
            let mut m: ModerationInfo = f;
            if m.reason.is_none() {
                m.reason = match b.reason {
                    Some(r) => {
                        if specific(&r) {
                            Some(r)
                        } else {
                            None
                        }
                    },
                    None => None,
                };
            }
            if m.expires_at.is_none() {
                m.expires_at = b.expires_at;
            }
            Some(m)
        },
        (b, None) => b,
        (None, f) => f,
    }
}

impl AppState {
    /// A cookie was validated again.
    pub fn account_revalidated(
        &mut self,
        user_id: u64,
        names: Option<(String, String)>,
        moderation: Option<ModerationInfo>,
        clock: Clock,
    )
        requires
            old(self).inv(),
        ensures
            final(self).inv(),
            revalidation_noted(*old(self), *final(self), user_id, names, moderation, clock),
    {
        let i: usize = match position_of(&self.store.accounts, user_id) {
            Some(i) => i,
            None => {
                self.auto_save();
                return;
            },
        };
        let ghost before = self.store.accounts@[i as int];
        let was_expired: bool = self.store.accounts[i].cookie_expired;
        let was_enforced: bool = is_enforced(&self.store.accounts[i].moderation);
        let found: bool = is_enforced(&moderation);
        let valid: bool = names.is_some();
        match names {
            Some((username, display_name)) => {
                self.store.accounts[i].last_validated = Some(clock.utc);
                self.store.accounts[i].username = username;
                self.store.accounts[i].display_name = display_name;
                self.store.accounts[i].cookie_expired = false;
            },
            None => {
                self.store.accounts[i].cookie_expired = true;
            },
        }
        let known: Option<ModerationInfo> = match &self.store.accounts[i].moderation {
            Some(m) => Some(m.clone()),
            None => None,
        };
        self.store.accounts[i].moderation = merge_moderation(known, moderation);
        assert(self.store.accounts@ =~= old(self).store.accounts@.update(
            i as int,
            revalidated(before, names, moderation, clock.utc),
        ));
        let name: String = if self.config.anonymize_names {
            "An account".to_owned()
        } else {
            self.store.accounts[i].label().to_owned()
        };
        let still_enforced: bool = is_enforced(&self.store.accounts[i].moderation);
        self.auto_save();
        if !was_enforced && found {
            let text: String = join2(
                &name,
                " has been moderated. See the account panel for details.",
            );
            self.say(&text, ToastLevel::Error, clock.now);
        } else if !valid && !was_expired && !still_enforced {
            let text: String = join3("Cookie expired for ", &name, ". Re-add with a fresh cookie.");
            self.say(&text, ToastLevel::Error, clock.now);
        }
    }
}

/// A reason that was found once is not lost to a look that finds none.
pub proof fn a_specific_reason_is_kept(before: ModerationInfo, found: ModerationInfo)
    requires
        before.reason is Some,
        is_specific(before.reason->Some_0@),
        found.reason is None,
    ensures
        merged(Some(before), Some(found)) is Some,
        merged(Some(before), Some(found))->Some_0.reason == before.reason,
{
}

/// Validating an account again and finding what was found before says nothing.
pub proof fn a_known_state_is_not_news(
    toasts: ToastsView,
    anonymize_names: bool,
    a: Account,
    names: Option<(String, String)>,
    found: Option<ModerationInfo>,
    utc: i64,
    now: u64,
)
    requires
        enforced(found) ==> enforced(a.moderation),
        names is None ==> a.cookie_expired,
    ensures
        revalidation_said(
            toasts,
            anonymize_names,
            a,
            revalidated(a, names, found, utc),
            found,
            now,
        ) == toasts,
{
}

// ---------------------------------------------------------------------------
// Launches
// ---------------------------------------------------------------------------

/// What arranging windows adds to the things to do.
pub open spec fn arranging(s: AppState) -> Seq<Effect> {
    if s.config.auto_arrange_windows {
        seq![Effect::Send(BackendCommand::ArrangeWindows)]
    } else {
        Seq::empty()
    }
}

/// The state with a launch that was just asked for.
pub open spec fn launch_noted(s: AppState, now: u64) -> AppState {
    AppState { clients: Clients { last_launch_request: Some(now), ..s.clients }, ..s }
}

/// What is said once a batch of launches is over.
pub open spec fn batch_said(toasts: ToastsView, launched: usize, failed: usize, now: u64) -> ToastsView {
    if failed == 0 {
        toasts.said(
            "Bulk launch complete: "@ + decimal(launched as nat) + " launched"@,
            ToastLevel::Success,
            now,
        )
    } else {
        toasts.said(
            "Bulk launch done: "@ + decimal(launched as nat) + " launched, "@ + decimal(
                failed as nat,
            ) + " failed"@,
            ToastLevel::Error,
            now,
        )
    }
}

impl AppState {
    fn arrange(&mut self)
        requires
            old(self).inv(),
        ensures
            final(self).inv(),
            final(self).out@ == old(self).out@ + arranging(*old(self)),
            *final(self) == (AppState { out: final(self).out, ..*old(self) }),
    {
        if self.config.auto_arrange_windows {
            self.out.push(Effect::Send(BackendCommand::ArrangeWindows));
        }
        assert(self.out@ =~= old(self).out@ + arranging(*old(self)));
    }

    /// A game was launched. Clients are looked for more often for a while.
    pub fn game_launched(&mut self, now: u64)
        requires
            old(self).inv(),
        ensures
            final(self).inv(),
            becomes(
                *final(self),
                launch_noted(*old(self), now),
                old(self).out@ + arranging(*old(self)),
                old(self).toasts@.said("Game launched"@, ToastLevel::Success, now),
            ),
    {
        self.clients.last_launch_request = Some(now);
        self.say("Game launched", ToastLevel::Success, now);
        self.arrange();
    }

    /// A batch of launches moved on.
    pub fn bulk_launch_progress(&mut self, launched: usize, total: usize, now: u64)
        requires
            old(self).inv(),
        ensures
            final(self).inv(),
            becomes(
                *final(self),
                launch_noted(*old(self), now),
                old(self).out@,
                old(self).toasts@.said(
                    "Launching "@ + decimal(launched as nat) + "/"@ + decimal(total as nat)
                        + "..."@,
                    ToastLevel::Info,
                    now,
                ),
            ),
    {
        self.clients.last_launch_request = Some(now);
        let text: String = join3(
            &join3("Launching ", &decimal_of(launched as u64), "/"),
            &decimal_of(total as u64),
            "...",
        );
        self.say(&text, ToastLevel::Info, now);
    }

    /// A batch of launches is over.
    pub fn bulk_launch_complete(&mut self, launched: usize, failed: usize, now: u64)
        requires
            old(self).inv(),
        ensures
            final(self).inv(),
            becomes(
                *final(self),
                *old(self),
                old(self).out@ + arranging(*old(self)),
                batch_said(old(self).toasts@, launched, failed, now),
            ),
    {
        if failed == 0 {
            let text: String = join3(
                "Bulk launch complete: ",
                &decimal_of(launched as u64),
                " launched",
            );
            self.say(&text, ToastLevel::Success, now);
        } else {
            let text: String = join3(
                &join3("Bulk launch done: ", &decimal_of(launched as u64), " launched, "),
                &decimal_of(failed as u64),
                " failed",
            );
            self.say(&text, ToastLevel::Error, now);
        }
        self.arrange();
    }

    /// Clients were killed.
    pub fn clients_killed(&mut self, count: usize, now: u64)
        requires
            old(self).inv(),
        ensures
            final(self).inv(),
            becomes(
                *final(self),
                *old(self),
                old(self).out@,
                old(self).toasts@.said(
                    "Killed "@ + decimal(count as nat) + " instance(s)"@,
                    ToastLevel::Info,
                    now,
                ),
            ),
    {
        let text: String = join3("Killed ", &decimal_of(count as u64), " instance(s)");
        self.say(&text, ToastLevel::Info, now);
    }

    /// Running clients were matched to launches.
    pub fn instances_updated(&mut self, instances: Vec<TrackedInstance>, running_count: usize)
        requires
            old(self).inv(),
        ensures
            final(self).inv(),
            retitled(
                AppState {
                    clients: Clients {
                        matched: instances,
                        count: running_count,
                        running: running_count > 0,
                        ..old(self).clients
                    },
                    ..*old(self)
                },
                *final(self),
            ),
    {
        self.clients.matched = instances;
        self.clients.count = running_count;
        self.clients.running = running_count > 0;
        self.retitle_roblox_windows();
    }
}

// ---------------------------------------------------------------------------
// Errors
// ---------------------------------------------------------------------------

/// Whether `t` is the state after the backend reported an error. Whatever was
/// in flight is over, and the password that was held for it is forgotten. In
/// the middle of a batch the error is counted; the add-account dialog shows one
/// that it waited for.
pub open spec fn error_noted(s: AppState, t: AppState, message: String, now: u64) -> bool {
    let rested = AppState {
        lock: LockState {
            unlocking: false,
            pending_legacy_upgrade: false,
            password_used: if s.lock.pending_legacy_upgrade {
                t.lock.password_used
            } else {
                s.lock.password_used
            },
            ..s.lock
        },
        ..s
    };
    &&& s.lock.pending_legacy_upgrade ==> t.lock.password_used@.len() == 0
    &&& if s.dialog.bulk_running {
        bulk_miss(rested, t)
    } else {
        becomes(
            t,
            if s.dialog.loading {
                AppState {
                    dialog: AddAccountDialog {
                        loading: false,
                        last_error: Some(message),
                        ..s.dialog
                    },
                    ..rested
                }
            } else {
                rested
            },
            s.out@,
            s.toasts@.said(message@, ToastLevel::Error, now),
        )
    }
}

impl AppState {
    /// The backend reported an error.
    pub fn backend_error(&mut self, message: String, now: u64)
        requires
            old(self).inv(),
        ensures
            final(self).inv(),
            error_noted(*old(self), *final(self), message, now),
    {
        self.lock.unlocking = false;
        if self.lock.pending_legacy_upgrade {
            self.lock.password_used = String::new();
        }
        self.lock.pending_legacy_upgrade = false;
        if self.dialog.bulk_running {
            self.bulk_missed();
        } else {
            self.say(&message, ToastLevel::Error, now);
            if self.dialog.loading {
                self.dialog.loading = false;
                self.dialog.last_error = Some(message);
            }
        }
    }
}

// ---------------------------------------------------------------------------
// Private servers
// ---------------------------------------------------------------------------

/// Whether `t` is the state after a place was looked up. A name that could not
/// be found does not replace one that is known.
pub open spec fn place_noted(
    s: AppState,
    t: AppState,
    index: usize,
    place_name: Option<String>,
    place_id: u64,
    icon: Option<Vec<u8>>,
) -> bool {
    let servers = s.config.private_servers@;
    let named = index < servers.len() && place_name is Some && place_name->Some_0@.len() > 0;
    &&& t.config.private_servers@ == if named {
        servers.update(
            index as int,
            PrivateServer { place_name: place_name->Some_0, ..servers[index as int] },
        )
    } else {
        servers
    }
    &&& t.pictures.game_icons@ == match icon {
        Some(bytes) => s.pictures.game_icons@.insert(place_id, bytes),
        None => s.pictures.game_icons@,
    }
    &&& t.out@ == if named {
        s.out@.push(Effect::SaveConfig)
    } else {
        s.out@
    }
    &&& t == (AppState {
        out: t.out,
        config: AppConfig { private_servers: t.config.private_servers, ..s.config },
        pictures: Pictures { game_icons: t.pictures.game_icons, ..s.pictures },
        ..s
    })
}

/// Whether `server` is the one that a share link led to.
pub open spec fn is_shared_server(
    server: PrivateServer,
    name: String,
    place_id: u64,
    universe_id: Option<u64>,
    link_code: String,
    access_code: String,
) -> bool {
    &&& server == (PrivateServer {
        name,
        place_id,
        universe_id,
        link_code,
        access_code,
        place_name: server.place_name,
    })
    &&& server.place_name@.len() == 0
}

/// Whether `t` is the state after a private server was added. Its place is
/// looked up.
pub open spec fn server_added(s: AppState, t: AppState) -> bool {
    let n = s.config.private_servers@.len();
    let server = t.config.private_servers@.last();
    &&& t.config.private_servers@.len() == n + 1
    &&& t.config.private_servers@.drop_last() == s.config.private_servers@
    &&& t.out@ == s.out@.push(Effect::SaveConfig).push(
        Effect::Send(
            BackendCommand::ResolvePlace {
                place_id: server.place_id,
                universe_id: server.universe_id,
                index: n as usize,
            },
        ),
    )
    &&& t == (AppState {
        out: t.out,
        toasts: t.toasts,
        config: AppConfig { private_servers: t.config.private_servers, ..s.config },
        ..s
    })
}

/// Whether `t` is the state after a share link led to a private server.
pub open spec fn link_noted(
    s: AppState,
    t: AppState,
    name: String,
    place_id: u64,
    universe_id: Option<u64>,
    link_code: String,
    access_code: String,
    now: u64,
) -> bool {
    &&& server_added(s, t)
    &&& is_shared_server(
        t.config.private_servers@.last(),
        name,
        place_id,
        universe_id,
        link_code,
        access_code,
    )
    &&& t.toasts@ == s.toasts@.said(
        "Share link resolved, private server added"@,
        ToastLevel::Success,
        now,
    )
}

impl AppState {
    /// A place was looked up for an entry of the private server list.
    pub fn place_resolved(
        &mut self,
        index: usize,
        place_name: Option<String>,
        place_id: u64,
        icon: Option<Vec<u8>>,
    )
        requires
            old(self).inv(),
        ensures
            final(self).inv(),
            place_noted(*old(self), *final(self), index, place_name, place_id, icon),
    {
        broadcast use vstd::std_specs::hash::group_hash_axioms;

        match place_name {
            Some(name) => {
                if index < self.config.private_servers.len() && !name.as_str().is_empty() {
                    self.config.private_servers[index].place_name = name;
                    self.out.push(Effect::SaveConfig);
                }
            },
            None => {},
        }
        match icon {
            Some(bytes) => {
                self.pictures.game_icons.insert(place_id, bytes);
            },
            None => {},
        }
    }

    /// Adds a private server and looks its place up.
    pub fn add_server(&mut self, server: PrivateServer)
        requires
            old(self).inv(),
        ensures
            final(self).inv(),
            server_added(*old(self), *final(self)),
            final(self).config.private_servers@.last() == server,
            final(self).toasts == old(self).toasts,
    {
        let index: usize = self.config.private_servers.len();
        let place_id: u64 = server.place_id;
        let universe_id: Option<u64> = server.universe_id;
        self.config.private_servers.push(server);
        self.out.push(Effect::SaveConfig);
        self.out.push(
            Effect::Send(BackendCommand::ResolvePlace { place_id, universe_id, index }),
        );
        assert(self.config.private_servers@.drop_last() =~= old(self).config.private_servers@);
    }

    /// A share link led to a private server.
    pub fn share_link_resolved(
        &mut self,
        name: String,
        place_id: u64,
        universe_id: Option<u64>,
        link_code: String,
        access_code: String,
        now: u64,
    )
        requires
            old(self).inv(),
        ensures
            final(self).inv(),
            link_noted(
                *old(self),
                *final(self),
                name,
                place_id,
                universe_id,
                link_code,
                access_code,
                now,
            ),
    {
        let server: PrivateServer = PrivateServer {
            name,
            place_id,
            universe_id,
            link_code,
            access_code,
            place_name: String::new(),
        };
        self.add_server(server);
        self.say("Share link resolved, private server added", ToastLevel::Success, now);
    }

    /// A share link led nowhere.
    pub fn share_link_failed(&mut self, message: &str, now: u64)
        requires
            old(self).inv(),
        ensures
            final(self).inv(),
            becomes(
                *final(self),
                *old(self),
                old(self).out@,
                old(self).toasts@.said(
                    "Failed to resolve share link: "@ + message@,
                    ToastLevel::Error,
                    now,
                ),
            ),
    {
        let text: String = join2("Failed to resolve share link: ", message);
        self.say(&text, ToastLevel::Error, now);
    }
}

// ---------------------------------------------------------------------------
// Everything
// ---------------------------------------------------------------------------

/// Whether `t` is the state `s` after an event.
pub open spec fn event_applied(s: AppState, t: AppState, event: BackendEvent, clock: Clock) -> bool {
    let now = clock.now;
    match event {
        BackendEvent::AccountValidated { account, encrypted_cookie } => account_arrived(
            s,
            t,
            *account,
            encrypted_cookie,
            now,
        ),
        BackendEvent::AccountForceAdded { account, .. } => account_forced(s, t, *account, now),
        BackendEvent::AccountRemoved { user_id } => account_gone(s, t, user_id, now),
        BackendEvent::AvatarsUpdated(avatars) => {
            &&& t.store.accounts@ == with_avatars(s.store.accounts@, avatars@)
            &&& t == (AppState { store: t.store, ..s })
        },
        BackendEvent::AvatarImagesReady(images) => {
            &&& t.pictures.avatars@ == with_pictures(s.pictures.avatars@, images@)
            &&& t.pictures.blurred@ == without_pictures(s.pictures.blurred@, images@)
            &&& t == (AppState {
                pictures: Pictures {
                    avatars: t.pictures.avatars,
                    blurred: t.pictures.blurred,
                    ..s.pictures
                },
                ..s
            })
        },
        BackendEvent::PresencesUpdated(presences) => {
            &&& t.store.accounts@ == with_presences(s.store.accounts@, presences@)
            &&& t == (AppState { store: t.store, ..s })
        },
        BackendEvent::GameLaunched => becomes(
            t,
            launch_noted(s, now),
            s.out@ + arranging(s),
            s.toasts@.said("Game launched"@, ToastLevel::Success, now),
        ),
        BackendEvent::StoreSaved => t == s,
        BackendEvent::StoreUnlocked { store, session, legacy } => store_opened(
            s,
            t,
            *store,
            session,
            legacy,
            now,
        ),
        BackendEvent::DeviceKeyMissing => t == (AppState {
            lock: LockState { unlocking: false, device_key_missing: true, ..s.lock },
            ..s
        }),
        BackendEvent::StoreRekeyed { store, session } => store_rekeyed(s, t, *store, session, now),
        BackendEvent::Killed(count) => becomes(
            t,
            s,
            s.out@,
            s.toasts@.said(
                "Killed "@ + decimal(count as nat) + " instance(s)"@,
                ToastLevel::Info,
                now,
            ),
        ),
        BackendEvent::BulkLaunchProgress { launched, total } => becomes(
            t,
            launch_noted(s, now),
            s.out@,
            s.toasts@.said(
                "Launching "@ + decimal(launched as nat) + "/"@ + decimal(total as nat) + "..."@,
                ToastLevel::Info,
                now,
            ),
        ),
        BackendEvent::BulkLaunchComplete { launched, failed } => becomes(
            t,
            s,
            s.out@ + arranging(s),
            batch_said(s.toasts@, launched, failed, now),
        ),
        BackendEvent::AccountRevalidated { user_id, names, moderation } => revalidation_noted(
            s,
            t,
            user_id,
            names,
            moderation,
            clock,
        ),
        BackendEvent::Error(message) => error_noted(s, t, message, now),
        BackendEvent::InstancesUpdated { instances, running_count } => retitled(
            AppState {
                clients: Clients {
                    matched: instances,
                    count: running_count,
                    running: running_count > 0,
                    ..s.clients
                },
                ..s
            },
            t,
        ),
        BackendEvent::WindowsArranged => t == s,
        BackendEvent::UpdateAvailable { version, url } => t == (AppState {
            ui: UiState { update_available: Some((version, url)), ..s.ui },
            ..s
        }),
        BackendEvent::PlaceResolved { index, place_name, place_id, icon_bytes } => place_noted(
            s,
            t,
            index,
            place_name,
            place_id,
            icon_bytes,
        ),
        BackendEvent::ShareLinkResolved {
            server_name,
            place_id,
            universe_id,
            link_code,
            access_code,
        } => link_noted(s, t, server_name, place_id, universe_id, link_code, access_code, now),
        BackendEvent::ShareLinkFailed(message) => becomes(
            t,
            s,
            s.out@,
            s.toasts@.said(
                "Failed to resolve share link: "@ + message@,
                ToastLevel::Error,
                now,
            ),
        ),
        BackendEvent::BrowseAsLaunched => becomes(
            t,
            s,
            s.out@,
            s.toasts@.said("Opening browser..."@, ToastLevel::Success, now),
        ),
        BackendEvent::AddAccountAuthFailed { cookie, moderation_message } => cookie_refused(
            s,
            t,
            cookie,
            moderation_message,
        ),
        BackendEvent::AssetUploadStarted { row_id, file_sha256, file_bytes } => rows_written(
            s,
            t,
            with_hash(s.desk.index.records@, row_id@, file_sha256, file_bytes),
            now,
        ),
        BackendEvent::AssetOperationCreated { row_id, operation, started_at } => rows_written(
            s,
            t,
            with_operation(s.desk.index.records@, row_id@, operation, started_at),
            now,
        ),
        BackendEvent::AssetOperationResolved { row_id, outcome } => match row_in(
            s.desk.index.records@,
            row_id@,
        ) {
            Some(i) if !(outcome is StillPending) => row_changed(
                s,
                t,
                s.desk.index.records@.update(
                    i,
                    after_outcome(s.desk.index.records@[i], outcome, clock.utc),
                ),
                outcome_said(s.toasts@, s.desk.index.records@[i], outcome, now),
                clock,
            ),
            _ => t == s,
        },
        BackendEvent::AssetUploadFailed { row_id, message, retryable } => match row_in(
            s.desk.index.records@,
            row_id@,
        ) {
            Some(i) => {
                let r = s.desk.index.records@[i];
                row_changed(
                    s,
                    t,
                    s.desk.index.records@.update(
                        i,
                        after_failure(
                            r,
                            message,
                            retryable,
                            s.rules.max_upload_attempts,
                            s.rules.retry_backoff@,
                            clock.utc,
                        ),
                    ),
                    if tries_again(r, retryable, s.rules.max_upload_attempts) {
                        s.toasts@
                    } else {
                        s.toasts@.said(
                            r.display_name@ + " failed: "@ + message@,
                            ToastLevel::Error,
                            now,
                        )
                    },
                    clock,
                )
            },
            None => t == s,
        },
        BackendEvent::AssetModerationResolved { row_id, status } => verdict_applied(
            s,
            t,
            row_id@,
            status,
            clock,
        ),
        BackendEvent::AssetPollBatchDone => t == s,
        BackendEvent::AssetPermissionsGranted { universe_id, row_ids, granted, refused } =>
            grants_noted(s, t, universe_id, row_ids@, granted, refused, now),
        BackendEvent::AssetPermissionsFailed { universe_id, message } => becomes(
            t,
            s,
            s.out@,
            s.toasts@.said(
                "Could not grant access to universe "@ + decimal(universe_id as nat) + ": "@
                    + message@,
                ToastLevel::Error,
                now,
            ),
        ),
        BackendEvent::UniverseTargetsFetched { user_id, universes, resolved_place } =>
            targets_kept(s, t, user_id, universes, resolved_place, now),
        BackendEvent::PublishGroupsFetched { user_id, groups } => t
            == if s.desk.panel.acting_user_id == Some(user_id) {
            AppState { desk: AssetDesk { publish_groups: groups, ..s.desk }, ..s }
        } else {
            s
        },
        BackendEvent::CreationsFetched { creator, kind, page, error, .. } => if page_wanted(
            s.desk.remote,
            creator,
            kind,
        ) {
            &&& page_kept(s.desk.remote, t.desk.remote, kind, page, error)
            &&& t == (AppState { desk: AssetDesk { remote: t.desk.remote, ..s.desk }, ..s })
        } else {
            t == s
        },
        BackendEvent::AssetThumbnailsReady { requested, images } => thumbnails_kept(
            s,
            t,
            requested@,
            images@,
            now,
        ),
    }
}

impl AppState {
    /// Applies one event from the backend.
    pub fn process_event(&mut self, event: BackendEvent, clock: Clock)
        requires
            old(self).inv(),
        ensures
            final(self).inv(),
            event_applied(*old(self), *final(self), event, clock),
    {
        let now: u64 = clock.now;
        match event {
            BackendEvent::AccountValidated { account, encrypted_cookie } => {
                self.account_validated(*account, encrypted_cookie, now);
            },
            BackendEvent::AccountForceAdded { account, .. } => {
                self.account_force_added(*account, now);
            },
            BackendEvent::AccountRemoved { user_id } => self.account_removed(user_id, now),
            BackendEvent::AvatarsUpdated(avatars) => self.avatars_updated(&avatars),
            BackendEvent::AvatarImagesReady(images) => self.avatar_images_ready(images),
            BackendEvent::PresencesUpdated(presences) => self.presences_updated(&presences),
            BackendEvent::GameLaunched => self.game_launched(now),
            BackendEvent::StoreSaved => {},
            BackendEvent::StoreUnlocked { store, session, legacy } => {
                self.store_unlocked(*store, session, legacy, now);
            },
            BackendEvent::DeviceKeyMissing => self.device_key_lost(),
            BackendEvent::StoreRekeyed { store, session } => self.rekeyed(*store, session, now),
            BackendEvent::Killed(count) => self.clients_killed(count, now),
            BackendEvent::BulkLaunchProgress { launched, total } => {
                self.bulk_launch_progress(launched, total, now);
            },
            BackendEvent::BulkLaunchComplete { launched, failed } => {
                self.bulk_launch_complete(launched, failed, now);
            },
            BackendEvent::AccountRevalidated { user_id, names, moderation } => {
                self.account_revalidated(user_id, names, moderation, clock);
            },
            BackendEvent::Error(message) => self.backend_error(message, now),
            BackendEvent::InstancesUpdated { instances, running_count } => {
                self.instances_updated(instances, running_count);
            },
            BackendEvent::WindowsArranged => {},
            BackendEvent::UpdateAvailable { version, url } => {
                self.ui.update_available = Some((version, url));
            },
            BackendEvent::PlaceResolved { index, place_name, place_id, icon_bytes } => {
                self.place_resolved(index, place_name, place_id, icon_bytes);
            },
            BackendEvent::ShareLinkResolved {
                server_name,
                place_id,
                universe_id,
                link_code,
                access_code,
            } => {
                self.share_link_resolved(
                    server_name,
                    place_id,
                    universe_id,
                    link_code,
                    access_code,
                    now,
                );
            },
            BackendEvent::ShareLinkFailed(message) => self.share_link_failed(&message, now),
            BackendEvent::BrowseAsLaunched => {
                self.say("Opening browser...", ToastLevel::Success, now);
            },
            BackendEvent::AddAccountAuthFailed { cookie, moderation_message } => {
                self.cookie_rejected(cookie, moderation_message);
            },
            BackendEvent::AssetUploadStarted { row_id, file_sha256, file_bytes } => {
                self.upload_started(&row_id, file_sha256, file_bytes, now);
            },
            BackendEvent::AssetOperationCreated { row_id, operation, started_at } => {
                self.operation_created(&row_id, operation, started_at, now);
            },
            BackendEvent::AssetOperationResolved { row_id, outcome } => {
                self.apply_operation_outcome(&row_id, outcome, clock);
            },
            BackendEvent::AssetUploadFailed { row_id, message, retryable } => {
                self.fail_upload(&row_id, message, retryable, clock);
            },
            BackendEvent::AssetModerationResolved { row_id, status } => {
                self.apply_moderation_status(&row_id, status, clock);
            },
            BackendEvent::AssetPollBatchDone => {},
            BackendEvent::AssetPermissionsGranted { universe_id, row_ids, granted, refused } => {
                self.permissions_granted(universe_id, row_ids, granted, refused, now);
            },
            BackendEvent::AssetPermissionsFailed { universe_id, message } => {
                self.permissions_failed(universe_id, &message, now);
            },
            BackendEvent::UniverseTargetsFetched { user_id, universes, resolved_place } => {
                self.universe_targets_fetched(user_id, universes, resolved_place, now);
            },
            BackendEvent::PublishGroupsFetched { user_id, groups } => {
                self.publish_groups_fetched(user_id, groups);
            },
            BackendEvent::CreationsFetched { creator, kind, page, error, .. } => {
                self.creations_fetched(creator, kind, page, error);
            },
            BackendEvent::AssetThumbnailsReady { requested, images } => {
                self.thumbnails_ready(requested, images, now);
            },
        }
    }

    /// Applies events from the backend, in the order they came in, up to the
    /// first that leaves something to do. What comes after it is handed back,
    /// so that what is sent for an event goes with the state as that event left
    /// it.
    pub fn process_events(&mut self, events: Vec<BackendEvent>, clock: Clock) -> (rest: Vec<
        BackendEvent,
    >)
        requires
            old(self).inv(),
        ensures
            final(self).inv(),
            events_taken(*old(self), *final(self), events@, rest@, clock),
    {
        let ghost all = events@;
        let ghost mut states: Seq<AppState> = seq![*old(self)];
        let mut rest: Vec<BackendEvent> = Vec::new();
        for event in it: events.into_iter()
            invariant
                it.seq() == all,
                self.inv(),
                1 <= states.len() <= it.index() + 1,
                states[0] == *old(self),
                states.last() == *self,
                rest@ == all.subrange(states.len() - 1, it.index() as int),
                rest@.len() > 0 ==> self.out@.len() > 0,
                forall|k: int|
                    0 <= k < states.len() - 1 ==> (#[trigger] states[k]).out@.len() == 0,
                forall|k: int|
                    0 <= k < states.len() - 1 ==> event_applied(
                        states[k],
                        states[k + 1],
                        #[trigger] all[k],
                        clock,
                    ),
        {
            let ghost k = states.len() - 1;
            if self.out.len() == 0 {
                self.process_event(event, clock);
                proof {
                    let next = states.push(*self);
                    assert forall|j: int| 0 <= j < k + 1 implies event_applied(
                        next[j],
                        next[j + 1],
                        #[trigger] all[j],
                        clock,
                    ) by {
                        if j < k {
                            assert(next[j] == states[j] && next[j + 1] == states[j + 1]);
                        } else {
                            assert(next[j] == states.last());
                        }
                    }
                    states = next;
                    assert(rest@ =~= all.subrange(k + 1, it.index() as int + 1));
                }
            } else {
                rest.push(event);
                assert(rest@ =~= all.subrange(k, it.index() as int + 1));
            }
        }
        proof {
            let n = states.len() - 1;
            assert(rest@ =~= all.skip(n));
            assert forall|j: int| 0 <= j < n implies event_applied(
                states[j],
                states[j + 1],
                #[trigger] all.take(n)[j],
                clock,
            ) by {
                assert(all.take(n)[j] == all[j]);
            }
            assert(event_steps(states, all.take(n), clock));
        }
        rest
    }
}

/// Whether each of the states follows from the one before it by an event.
pub open spec fn event_steps(states: Seq<AppState>, events: Seq<BackendEvent>, clock: Clock) -> bool {
    &&& states.len() == events.len() + 1
    &&& forall|k: int|
        0 <= k < events.len() ==> event_applied(
            states[k],
            states[k + 1],
            #[trigger] events[k],
            clock,
        )
}

/// Whether `t` is the state `s` after the first of these events, and `rest` are
/// the others. An event is taken only while nothing waits to be done, and every
/// event is taken until something does.
pub open spec fn events_taken(
    s: AppState,
    t: AppState,
    events: Seq<BackendEvent>,
    rest: Seq<BackendEvent>,
    clock: Clock,
) -> bool {
    &&& rest.len() <= events.len()
    &&& rest == events.skip(events.len() - rest.len())
    &&& rest.len() > 0 ==> t.out@.len() > 0
    &&& exists|states: Seq<AppState>|
        {
            &&& #[trigger] event_steps(states, events.take(events.len() - rest.len()), clock)
            &&& states[0] == s
            &&& states.last() == t
            &&& forall|k: int|
                0 <= k < states.len() - 1 ==> (#[trigger] states[k]).out@.len() == 0
        }
}

/// What is to be done after some events was all left by the last of them, and
/// the state is still the one that this event made: a store that is saved for
/// an event is the store as the event left it.
pub proof fn what_is_to_do_is_of_the_last_event(
    s: AppState,
    t: AppState,
    events: Seq<BackendEvent>,
    rest: Seq<BackendEvent>,
    clock: Clock,
)
    requires
        events_taken(s, t, events, rest, clock),
        s.out@.len() == 0,
        t.out@.len() > 0,
    ensures
        rest.len() < events.len(),
        exists|before: AppState|
            before.out@.len() == 0 && #[trigger] event_applied(
                before,
                t,
                events[events.len() - rest.len() - 1],
                clock,
            ),
{
    let n = events.len() - rest.len();
    let states = choose|states: Seq<AppState>|
        {
            &&& #[trigger] event_steps(states, events.take(n), clock)
            &&& states[0] == s
            &&& states.last() == t
            &&& forall|k: int|
                0 <= k < states.len() - 1 ==> (#[trigger] states[k]).out@.len() == 0
        };
    assert(states.len() == n + 1);
    if n > 0 {
        let before = states[n - 1];
        assert(events.take(n)[n - 1] == events[n - 1]);
        assert(event_applied(before, states[n - 1 + 1], events.take(n)[n - 1], clock));
    }
}

/// As long as an event is left that nothing keeps from being taken, one is
/// taken: the events come to an end.
pub proof fn an_event_is_always_taken(
    s: AppState,
    t: AppState,
    events: Seq<BackendEvent>,
    rest: Seq<BackendEvent>,
    clock: Clock,
)
    requires
        events_taken(s, t, events, rest, clock),
        s.out@.len() == 0,
        events.len() > 0,
    ensures
        rest.len() < events.len(),
{
    if t.out@.len() > 0 {
        what_is_to_do_is_of_the_last_event(s, t, events, rest, clock);
    }
}

/// No event makes two accounts of one identifier, as long as the store that an
/// event brings has none.
pub proof fn events_keep_accounts_apart(s: AppState, t: AppState, event: BackendEvent, clock: Clock)
    requires
        event_applied(s, t, event, clock),
        crate::models::ids_unique(s.store.accounts@),
        match event {
            BackendEvent::StoreUnlocked { store, .. } => crate::models::ids_unique(store.accounts@),
            BackendEvent::StoreRekeyed { store, .. } => crate::models::ids_unique(store.accounts@),
            _ => true,
        },
    ensures
        crate::models::ids_unique(t.store.accounts@),
{
    let before = s.store.accounts@;
    match event {
        BackendEvent::AccountValidated { account, encrypted_cookie } => {
            super::dialog::adding_twice_keeps_one(s, t, *account, encrypted_cookie, clock.now);
        },
        BackendEvent::AccountForceAdded { account, .. } => {
            crate::models::adding_keeps_ids_unique(before, *account);
        },
        BackendEvent::AccountRemoved { user_id } => {
            crate::models::removing_keeps_ids_unique(before, user_id);
        },
        BackendEvent::AvatarsUpdated(avatars) => {
            avatars_keep_ids(before, avatars@);
        },
        BackendEvent::PresencesUpdated(presences) => {
            presences_keep_ids(before, presences@);
        },
        BackendEvent::AccountRevalidated { user_id, names, moderation } => {
            crate::models::position_facts(before, user_id);
        },
        _ => {},
    }
}

/// Whether two lists hold accounts of the same identifiers at the same places.
pub open spec fn same_ids(a: Seq<Account>, b: Seq<Account>) -> bool {
    &&& a.len() == b.len()
    &&& forall|i: int| 0 <= i < a.len() ==> (#[trigger] a[i]).user_id == b[i].user_id
}

proof fn avatars_keep_ids(accounts: Seq<Account>, avatars: Seq<(u64, String)>)
    ensures
        same_ids(with_avatars(accounts, avatars), accounts),
    decreases avatars.len(),
{
    if avatars.len() > 0 {
        avatars_keep_ids(accounts, avatars.drop_last());
        crate::models::position_facts(
            with_avatars(accounts, avatars.drop_last()),
            avatars.last().0,
        );
    }
}

proof fn presences_keep_ids(accounts: Seq<Account>, presences: Seq<(u64, Presence)>)
    ensures
        same_ids(with_presences(accounts, presences), accounts),
    decreases presences.len(),
{
    if presences.len() > 0 {
        presences_keep_ids(accounts, presences.drop_last());
        crate::models::position_facts(
            with_presences(accounts, presences.drop_last()),
            presences.last().0,
        );
    }
}

} // verus!
