//! The account store: opening it, locking it anew, starting over, and the key
//! that cookies are encrypted with.

use vstd::prelude::*;

use std::collections::HashMap;

use super::{
    becomes, refreshing, revalidating, saving, AddAccountDialog, AppState, Awaiting, Effect,
    LockState, Tab,
};
use crate::bridge::BackendCommand;
use crate::models::{AccountStore, AppConfig, StoreSession};
use crate::text::{decimal, decimal_of, join2, join3, same, trim, trimmed};
use crate::toast::ToastLevel;

verus! {

// ---------------------------------------------------------------------------
// The offer to go without a password
// ---------------------------------------------------------------------------

/// Whether the open store is locked with a password.
pub open spec fn has_password(s: AppState) -> bool {
    s.session is Some && s.session->Some_0.needs_password
}

/// The state once it was considered to offer going without a password. Where
/// there is none to drop that is noted, so that a password set later on purpose
/// is not questioned.
pub open spec fn offered(s: AppState) -> AppState {
    if s.config.offered_passwordless {
        s
    } else if has_password(s) {
        AppState { lock: LockState { show_passwordless_offer: true, ..s.lock }, ..s }
    } else {
        AppState { config: AppConfig { offered_passwordless: true, ..s.config }, ..s }
    }
}

/// What considering the offer adds to the things to do.
pub open spec fn offering(s: AppState) -> Seq<Effect> {
    if !s.config.offered_passwordless && !has_password(s) {
        seq![Effect::SaveConfig]
    } else {
        Seq::empty()
    }
}

/// What locking the store anew adds to the things to do.
pub open spec fn rekeying(s: AppState, new_password: Option<String>) -> Seq<Effect> {
    if s.session is Some {
        seq![Effect::Rekey { new_password, upgrade_legacy: false }]
    } else {
        Seq::empty()
    }
}

impl AppState {
    /// Whether the open store is locked with a password.
    pub fn password_set(&self) -> (b: bool)
        ensures
            b == has_password(*self),
    {
        match self.session {
            Some(s) => s.needs_password,
            None => false,
        }
    }

    /// Offers once to stop asking for a password, where there is one to drop.
    pub fn offer_passwordless_if_due(&mut self)
        requires
            old(self).inv(),
        ensures
            final(self).inv(),
            becomes(
                *final(self),
                offered(*old(self)),
                old(self).out@ + offering(*old(self)),
                old(self).toasts@,
            ),
    {
        if !self.config.offered_passwordless {
            if self.password_set() {
                self.lock.show_passwordless_offer = true;
            } else {
                self.config.offered_passwordless = true;
                self.out.push(Effect::SaveConfig);
            }
        }
        assert(self.out@ =~= old(self).out@ + offering(*old(self)));
    }

    /// Records the answer to the offer, so that it is made once.
    pub fn dismiss_passwordless_offer(&mut self)
        requires
            old(self).inv(),
        ensures
            final(self).inv(),
            becomes(
                *final(self),
                AppState {
                    lock: LockState { show_passwordless_offer: false, ..old(self).lock },
                    config: AppConfig { offered_passwordless: true, ..old(self).config },
                    ..*old(self)
                },
                old(self).out@.push(Effect::SaveConfig),
                old(self).toasts@,
            ),
    {
        self.lock.show_passwordless_offer = false;
        self.config.offered_passwordless = true;
        self.out.push(Effect::SaveConfig);
    }

    /// Locks the store with a password, or with this device.
    pub fn rekey_store(&mut self, new_password: Option<String>, now: u64)
        requires
            old(self).inv(),
        ensures
            final(self).inv(),
            becomes(
                *final(self),
                *old(self),
                old(self).out@ + rekeying(*old(self), new_password),
                if old(self).session is Some {
                    old(self).toasts@
                } else {
                    old(self).toasts@.said("Unlock the account store first"@, ToastLevel::Error, now)
                },
            ),
    {
        if self.session.is_some() {
            self.out.push(Effect::Rekey { new_password, upgrade_legacy: false });
        } else {
            self.say("Unlock the account store first", ToastLevel::Error, now);
        }
        assert(self.out@ =~= old(self).out@ + rekeying(*old(self), new_password));
    }

    /// The offer was answered, or closed.
    pub fn answer_passwordless_offer(&mut self, accept: bool, now: u64)
        requires
            old(self).inv(),
        ensures
            final(self).inv(),
            becomes(
                *final(self),
                AppState {
                    lock: LockState { show_passwordless_offer: false, ..old(self).lock },
                    config: AppConfig { offered_passwordless: true, ..old(self).config },
                    ..*old(self)
                },
                (if accept {
                    old(self).out@ + rekeying(*old(self), None)
                } else {
                    old(self).out@
                }).push(Effect::SaveConfig),
                if accept && old(self).session is None {
                    old(self).toasts@.said("Unlock the account store first"@, ToastLevel::Error, now)
                } else {
                    old(self).toasts@
                },
            ),
    {
        if accept {
            self.rekey_store(None, now);
        }
        self.dismiss_passwordless_offer();
    }
}

/// The offer is made once: after it was answered, considering it again changes
/// nothing.
pub proof fn the_offer_is_made_once(s: AppState)
    requires
        s.config.offered_passwordless,
    ensures
        offered(s) == s,
        offering(s) == Seq::<Effect>::empty(),
{
}

// ---------------------------------------------------------------------------
// Opening
// ---------------------------------------------------------------------------

/// What opening a store leads to.
///
/// A store of the old format is locked anew under a fresh key before anything
/// else: until then nothing is saved, and nothing is refreshed, because the
/// upgraded copy replaces the store.
pub open spec fn store_opened(
    s: AppState,
    t: AppState,
    store: AccountStore,
    session: StoreSession,
    legacy: bool,
    now: u64,
) -> bool {
    let open = AppState {
        store,
        session: Some(session),
        lock: LockState {
            needs_unlock: false,
            unlocking: false,
            device_key_missing: false,
            password_input: t.lock.password_input,
            password_used: if legacy {
                s.lock.password_used
            } else {
                t.lock.password_used
            },
            ..s.lock
        },
        ..s
    };
    &&& t.lock.password_input@.len() == 0
    &&& !legacy ==> t.lock.password_used@.len() == 0
    &&& if legacy {
        becomes(
            t,
            AppState { lock: LockState { pending_legacy_upgrade: true, ..open.lock }, ..open },
            s.out@.push(
                Effect::Rekey { new_password: Some(s.lock.password_used), upgrade_legacy: true },
            ),
            s.toasts@,
        )
    } else {
        becomes(
            t,
            offered(open),
            s.out@ + offering(open) + refreshing(open) + revalidating(open),
            if session.needs_password {
                s.toasts@.said("Account store unlocked"@, ToastLevel::Success, now)
            } else {
                s.toasts@
            },
        )
    }
}

/// What a store that was locked anew leads to. Only an upgrade rewrites the
/// accounts; after any other, what changed meanwhile is saved once more.
pub open spec fn store_rekeyed(
    s: AppState,
    t: AppState,
    store: AccountStore,
    session: StoreSession,
    now: u64,
) -> bool {
    let open = AppState {
        session: Some(session),
        lock: LockState {
            pending_legacy_upgrade: false,
            password_used: t.lock.password_used,
            ..s.lock
        },
        ..s
    };
    &&& t.lock.password_used@.len() == 0
    &&& if s.lock.pending_legacy_upgrade {
        let upgraded = AppState { store, ..open };
        becomes(
            t,
            offered(upgraded),
            s.out@ + offering(upgraded) + refreshing(upgraded) + revalidating(upgraded),
            s.toasts@,
        )
    } else {
        becomes(
            t,
            open,
            s.out@ + saving(open),
            s.toasts@.said(
                if session.needs_password {
                    "Master password set"@
                } else {
                    "This PC now unlocks your accounts automatically"@
                },
                ToastLevel::Success,
                now,
            ),
        )
    }
}

impl AppState {
    /// The password was entered on the unlock screen.
    pub fn submit_unlock(&mut self)
        requires
            old(self).inv(),
        ensures
            final(self).inv(),
            becomes(
                *final(self),
                AppState {
                    lock: LockState {
                        password_used: old(self).lock.password_input,
                        unlocking: true,
                        ..old(self).lock
                    },
                    ..*old(self)
                },
                old(self).out@.push(
                    Effect::Send(
                        BackendCommand::UnlockWithPassword {
                            path: old(self).config.accounts_path,
                            password: old(self).lock.password_input,
                        },
                    ),
                ),
                old(self).toasts@,
            ),
    {
        self.lock.password_used = self.lock.password_input.clone();
        self.lock.unlocking = true;
        self.out.push(
            Effect::Send(
                BackendCommand::UnlockWithPassword {
                    path: self.config.accounts_path.clone(),
                    password: self.lock.password_input.clone(),
                },
            ),
        );
    }

    /// A store was opened.
    pub fn store_unlocked(
        &mut self,
        store: AccountStore,
        session: StoreSession,
        legacy: bool,
        now: u64,
    )
        requires
            old(self).inv(),
        ensures
            final(self).inv(),
            store_opened(*old(self), *final(self), store, session, legacy, now),
    {
        self.store = store;
        self.session = Some(session);
        self.lock.needs_unlock = false;
        self.lock.unlocking = false;
        self.lock.device_key_missing = false;
        self.lock.password_input = String::new();
        if legacy {
            self.lock.pending_legacy_upgrade = true;
            self.out.push(
                Effect::Rekey {
                    new_password: Some(self.lock.password_used.clone()),
                    upgrade_legacy: true,
                },
            );
        } else {
            self.lock.password_used = String::new();
            if session.needs_password {
                self.say("Account store unlocked", ToastLevel::Success, now);
            }
            self.offer_passwordless_if_due();
            self.trigger_refresh();
            self.trigger_revalidation();
        }
    }

    /// A store was locked anew and is on disk.
    pub fn rekeyed(&mut self, store: AccountStore, session: StoreSession, now: u64)
        requires
            old(self).inv(),
        ensures
            final(self).inv(),
            store_rekeyed(*old(self), *final(self), store, session, now),
    {
        let upgraded: bool = self.lock.pending_legacy_upgrade;
        self.session = Some(session);
        self.lock.pending_legacy_upgrade = false;
        self.lock.password_used = String::new();
        if upgraded {
            self.store = store;
            self.offer_passwordless_if_due();
            self.trigger_refresh();
            self.trigger_revalidation();
        } else {
            if session.needs_password {
                self.say("Master password set", ToastLevel::Success, now);
            } else {
                self.say(
                    "This PC now unlocks your accounts automatically",
                    ToastLevel::Success,
                    now,
                );
            }
            self.auto_save();
        }
    }

    /// This device's key for the store is gone.
    pub fn device_key_lost(&mut self)
        requires
            old(self).inv(),
        ensures
            final(self).inv(),
            *final(self) == (AppState {
                lock: LockState { unlocking: false, device_key_missing: true, ..old(self).lock },
                ..*old(self)
            }),
    {
        self.lock.unlocking = false;
        self.lock.device_key_missing = true;
    }
}

/// A store of the old format is never saved as it is: while its session is the
/// one that is open, saving asks for nothing.
pub proof fn an_old_store_is_not_saved(s: AppState)
    requires
        s.session is Some,
        s.session->Some_0.legacy,
    ensures
        saving(s) == Seq::<Effect>::empty(),
{
}

/// A store of the old format is locked anew at once, under the password that
/// opened it, and nothing else is asked of the backend before that is done.
pub proof fn an_old_store_is_upgraded_first(
    s: AppState,
    t: AppState,
    store: AccountStore,
    session: StoreSession,
    now: u64,
)
    requires
        store_opened(s, t, store, session, true, now),
    ensures
        t.out@.len() == s.out@.len() + 1,
        t.out@.last() == (Effect::Rekey {
            new_password: Some(s.lock.password_used),
            upgrade_legacy: true,
        }),
        t.lock.pending_legacy_upgrade,
{
}

/// The password that opened a store is forgotten at once, unless the store has
/// to be locked anew under it.
pub proof fn an_open_store_needs_no_password(
    s: AppState,
    t: AppState,
    store: AccountStore,
    session: StoreSession,
    now: u64,
)
    requires
        store_opened(s, t, store, session, false, now),
    ensures
        t.lock.password_used@.len() == 0,
        t.lock.password_input@.len() == 0,
{
}

/// The password that opened a store is forgotten once the store is locked
/// anew.
pub proof fn the_password_is_forgotten(
    s: AppState,
    t: AppState,
    store: AccountStore,
    session: StoreSession,
    now: u64,
)
    requires
        store_rekeyed(s, t, store, session, now),
    ensures
        t.lock.password_used@.len() == 0,
        !t.lock.pending_legacy_upgrade,
{
}

// ---------------------------------------------------------------------------
// A key to encrypt cookies with
// ---------------------------------------------------------------------------

/// What is sent once there is a key for what waited for it.
pub open spec fn sent_with_key(
    a: Awaiting,
    session: StoreSession,
    use_credential_manager: bool,
) -> BackendCommand {
    match a {
        Awaiting::Bulk { cookie } => BackendCommand::AddAccount {
            cookie,
            session,
            use_credential_manager,
        },
        Awaiting::Login { cookie } => BackendCommand::AddAccount {
            cookie,
            session,
            use_credential_manager,
        },
        Awaiting::Add { cookie } => BackendCommand::AddAccount {
            cookie,
            session,
            use_credential_manager,
        },
        Awaiting::Force { cookie, username } => BackendCommand::AddAccountForced {
            cookie,
            username,
            session,
            use_credential_manager,
        },
    }
}

/// The dialog while what was sent is being looked at.
pub open spec fn sending_dialog(d: AddAccountDialog, a: Awaiting) -> AddAccountDialog {
    match a {
        Awaiting::Bulk { .. } => AddAccountDialog { loading: true, ..d },
        Awaiting::Login { .. } => AddAccountDialog { loading: true, ..d },
        Awaiting::Add { .. } => AddAccountDialog {
            loading: true,
            last_error: None,
            rejected_cookie: None,
            ..d
        },
        Awaiting::Force { .. } => AddAccountDialog { loading: true, last_error: None, ..d },
    }
}

/// Whether `t` is the state after something was to be sent under a key. The
/// first time, a store that this device unlocks is made for it.
pub open spec fn sent_or_waiting(s: AppState, t: AppState, a: Awaiting) -> bool {
    match s.session {
        Some(session) => becomes(
            t,
            AppState { dialog: sending_dialog(s.dialog, a), ..s },
            s.out@.push(Effect::Send(sent_with_key(a, session, s.config.use_credential_manager))),
            s.toasts@,
        ),
        None => becomes(
            t,
            AppState { dialog: AddAccountDialog { awaiting: Some(a), ..s.dialog }, ..s },
            s.out@.push(Effect::CreateDeviceSession),
            s.toasts@,
        ),
    }
}

/// Whether `t` is the state after an attempt to make a key. Without one
/// nothing is stored unencrypted: a batch stops.
pub open spec fn key_arrived(
    s: AppState,
    t: AppState,
    result: Result<StoreSession, String>,
    now: u64,
) -> bool {
    let rested = AppState { dialog: AddAccountDialog { awaiting: None, ..s.dialog }, ..s };
    match result {
        Ok(session) => match s.dialog.awaiting {
            Some(a) => sent_or_waiting(AppState { session: Some(session), ..rested }, t, a),
            None => becomes(t, AppState { session: Some(session), ..rested }, s.out@, s.toasts@),
        },
        Err(e) => {
            let toasts = s.toasts@.said(
                "Could not set up encryption: "@ + e@
                    + ". Set a master password in Settings instead."@,
                ToastLevel::Error,
                now,
            );
            if s.dialog.awaiting is Some && s.dialog.awaiting->Some_0 is Bulk {
                t.dialog.bulk_queue@.len() == 0 && becomes(
                    t,
                    AppState {
                        dialog: AddAccountDialog {
                            bulk_queue: t.dialog.bulk_queue,
                            bulk_running: false,
                            loading: false,
                            ..rested.dialog
                        },
                        ..s
                    },
                    s.out@,
                    toasts,
                )
            } else {
                becomes(t, rested, s.out@, toasts)
            }
        },
    }
}

impl AppState {
    /// Sends something that needs a key, making one first where there is none.
    pub fn send_with_session(&mut self, a: Awaiting)
        requires
            old(self).inv(),
        ensures
            final(self).inv(),
            sent_or_waiting(*old(self), *final(self), a),
    {
        match self.session {
            Some(session) => {
                let use_credential_manager: bool = self.config.use_credential_manager;
                self.dialog.loading = true;
                let cmd: BackendCommand = match a {
                    Awaiting::Bulk { cookie } => BackendCommand::AddAccount {
                        cookie,
                        session,
                        use_credential_manager,
                    },
                    Awaiting::Login { cookie } => BackendCommand::AddAccount {
                        cookie,
                        session,
                        use_credential_manager,
                    },
                    Awaiting::Add { cookie } => {
                        self.dialog.last_error = None;
                        self.dialog.rejected_cookie = None;
                        BackendCommand::AddAccount { cookie, session, use_credential_manager }
                    },
                    Awaiting::Force { cookie, username } => {
                        self.dialog.last_error = None;
                        BackendCommand::AddAccountForced {
                            cookie,
                            username,
                            session,
                            use_credential_manager,
                        }
                    },
                };
                self.out.push(Effect::Send(cmd));
            },
            None => {
                self.dialog.awaiting = Some(a);
                self.out.push(Effect::CreateDeviceSession);
            },
        }
    }

    /// A key was made, or could not be made.
    pub fn device_session(&mut self, result: Result<StoreSession, String>, now: u64)
        requires
            old(self).inv(),
        ensures
            final(self).inv(),
            key_arrived(*old(self), *final(self), result, now),
    {
        let waiting: Option<Awaiting> = self.dialog.awaiting.take();
        match result {
            Ok(session) => {
                self.session = Some(session);
                match waiting {
                    Some(a) => self.send_with_session(a),
                    None => {},
                }
            },
            Err(e) => {
                let text: String = join3(
                    "Could not set up encryption: ",
                    &e,
                    ". Set a master password in Settings instead.",
                );
                self.say(&text, ToastLevel::Error, now);
                match waiting {
                    Some(Awaiting::Bulk { .. }) => {
                        self.dialog.bulk_queue = Vec::new();
                        self.dialog.bulk_running = false;
                        self.dialog.loading = false;
                    },
                    _ => {},
                }
            },
        }
    }
}

/// Nothing is stored without a key: where none can be made, nothing is sent.
pub proof fn nothing_is_stored_without_a_key(s: AppState, t: AppState, e: String, now: u64)
    requires
        key_arrived(s, t, Err(e), now),
    ensures
        t.out@ == s.out@,
        t.session == s.session,
{
}

// ---------------------------------------------------------------------------
// Batches
// ---------------------------------------------------------------------------

/// Whether `t` is the state after the next cookie of a batch was taken up. At
/// the end of the batch the store is saved and refreshed once.
pub open spec fn bulk_advanced(s: AppState, t: AppState) -> bool {
    let n = s.dialog.bulk_queue@.len();
    if n > 0 {
        &&& t.dialog.bulk_queue@ == s.dialog.bulk_queue@.drop_last()
        &&& sent_or_waiting(
            AppState {
                dialog: AddAccountDialog { bulk_queue: t.dialog.bulk_queue, ..s.dialog },
                ..s
            },
            t,
            Awaiting::Bulk { cookie: s.dialog.bulk_queue@.last() },
        )
    } else {
        let done = AppState { dialog: AddAccountDialog { loading: false, ..s.dialog }, ..s };
        becomes(
            t,
            done,
            if s.dialog.bulk_succeeded > 0 {
                s.out@ + saving(done) + refreshing(done)
            } else {
                s.out@
            },
            s.toasts@,
        )
    }
}

impl AppState {
    /// Takes up the next cookie of a batch, one at a time.
    pub fn dispatch_next_bulk(&mut self)
        requires
            old(self).inv(),
        ensures
            final(self).inv(),
            bulk_advanced(*old(self), *final(self)),
    {
        if self.dialog.bulk_queue.len() > 0 {
            match self.dialog.bulk_queue.pop() {
                Some(cookie) => {
                    self.send_with_session(Awaiting::Bulk { cookie });
                },
                None => {},
            }
        } else {
            self.dialog.loading = false;
            if self.dialog.bulk_succeeded > 0 {
                self.auto_save();
                self.trigger_refresh();
            }
        }
    }
}

// ---------------------------------------------------------------------------
// Starting over
// ---------------------------------------------------------------------------

/// What the recovery dialog's buttons ask for.
#[derive(Clone, Copy, Debug, PartialEq, Eq, Structural)]
pub enum RecoveryAnswer {
    Wipe,
    Cancel,
}

/// Whether wiping was confirmed in writing.
pub open spec fn wipe_confirmed(s: AppState) -> bool {
    trimmed(s.lock.recovery_confirm_input@) == "DELETE"@
}

/// What is left of the files and credentials of a store that was wiped.
#[derive(Debug)]
pub struct Wiped {
    /// Names of files that could not be deleted.
    pub undeleted: Vec<String>,
    /// Credentials that could not be deleted.
    pub orphaned: usize,
}

/// The texts, with " and " between them.
pub open spec fn listed(names: Seq<String>) -> Seq<char>
    decreases names.len(),
{
    if names.len() == 0 {
        Seq::empty()
    } else if names.len() == 1 {
        names[0]@
    } else {
        listed(names.drop_last()) + " and "@ + names.last()@
    }
}

fn list_of(names: &Vec<String>) -> (s: String)
    ensures
        s@ == listed(names@),
{
    let mut out: String = String::new();
    let mut i: usize = 0;
    while i < names.len()
        invariant
            0 <= i <= names@.len(),
            out@ == listed(names@.take(i as int)),
        decreases names@.len() - i,
    {
        assert(names@.take(i + 1).drop_last() =~= names@.take(i as int));
        if i == 0 {
            out = names[0].clone();
        } else {
            out = join3(&out, " and ", &names[i]);
        }
        i += 1;
    }
    assert(names@.take(i as int) =~= names@);
    out
}

/// Whether `t` is what is left of the state after the store was wiped. Where a
/// file is still there, nothing is forgotten and the user is told which.
pub open spec fn started_over(s: AppState, t: AppState, wiped: Wiped, now: u64) -> bool {
    if wiped.undeleted@.len() > 0 {
        becomes(
            t,
            s,
            s.out@,
            s.toasts@.said(
                "Could not delete "@ + listed(wiped.undeleted@)
                    + ". Delete it by hand, then restart RM."@,
                ToastLevel::Error,
                now,
            ),
        )
    } else {
        &&& t.store.accounts@.len() == 0
        &&& t.session is None
        &&& t.lock.password_input@.len() == 0
        &&& t.lock.password_used@.len() == 0
        &&& t.ui.selected@ == Set::<u64>::empty()
        &&& t.pictures.avatars@ == Map::<u64, Vec<u8>>::empty()
        &&& t.pictures.blurred@ == Map::<u64, Vec<u8>>::empty()
        &&& becomes(
            t,
            AppState {
                store: t.store,
                session: None,
                lock: LockState {
                    needs_unlock: false,
                    unlocking: false,
                    device_key_missing: false,
                    pending_legacy_upgrade: false,
                    show_passwordless_offer: false,
                    password_input: t.lock.password_input,
                    password_used: t.lock.password_used,
                    ..s.lock
                },
                ui: super::UiState { selected: t.ui.selected, active_tab: Tab::Accounts, ..s.ui },
                pictures: super::Pictures {
                    avatars: t.pictures.avatars,
                    blurred: t.pictures.blurred,
                    ..s.pictures
                },
                config: AppConfig { offered_passwordless: true, ..s.config },
                ..s
            },
            s.out@.push(Effect::SaveConfig),
            if wiped.orphaned > 0 {
                s.toasts@.said(
                    "Account store deleted, but "@ + decimal(wiped.orphaned as nat)
                        + " saved credential(s) could not be removed"@,
                    ToastLevel::Error,
                    now,
                )
            } else {
                s.toasts@.said(
                    "Account store deleted. Add an account to start over."@,
                    ToastLevel::Success,
                    now,
                )
            },
        )
    }
}

impl AppState {
    /// A button of the recovery dialog was pressed, or the dialog closed. The
    /// store is only wiped where that was confirmed in writing.
    pub fn answer_recovery(&mut self, answer: RecoveryAnswer)
        requires
            old(self).inv(),
        ensures
            final(self).inv(),
            ({
                let wipe = answer == RecoveryAnswer::Wipe && wipe_confirmed(*old(self));
                let over = answer == RecoveryAnswer::Cancel || wipe;
                if over {
                    &&& final(self).lock.recovery_confirm_input@.len() == 0
                    &&& becomes(
                        *final(self),
                        AppState {
                            lock: LockState {
                                show_recovery: false,
                                recovery_confirm_input: final(self).lock.recovery_confirm_input,
                                ..old(self).lock
                            },
                            ..*old(self)
                        },
                        if wipe {
                            old(self).out@.push(Effect::WipeStore)
                        } else {
                            old(self).out@
                        },
                        old(self).toasts@,
                    )
                } else {
                    *final(self) == *old(self)
                }
            }),
    {
        let confirmed: bool = same(&trim(&self.lock.recovery_confirm_input), "DELETE");
        match answer {
            RecoveryAnswer::Wipe => {
                if confirmed {
                    self.lock.show_recovery = false;
                    self.lock.recovery_confirm_input = String::new();
                    self.out.push(Effect::WipeStore);
                }
            },
            RecoveryAnswer::Cancel => {
                self.lock.show_recovery = false;
                self.lock.recovery_confirm_input = String::new();
            },
        }
    }

    /// The folder of the store could not be shown.
    pub fn folder_unopened(&mut self, folder: &str, now: u64)
        requires
            old(self).inv(),
        ensures
            final(self).inv(),
            becomes(
                *final(self),
                *old(self),
                old(self).out@,
                old(self).toasts@.said("Could not open "@ + folder@, ToastLevel::Error, now),
            ),
    {
        let text: String = join2("Could not open ", folder);
        self.say(&text, ToastLevel::Error, now);
    }

    /// Forgets every account and what was known of it.
    fn forget_accounts(&mut self)
        requires
            old(self).inv(),
        ensures
            final(self).inv(),
            final(self).store.accounts@.len() == 0,
            final(self).ui.selected@ == Set::<u64>::empty(),
            final(self).pictures.avatars@ == Map::<u64, Vec<u8>>::empty(),
            final(self).pictures.blurred@ == Map::<u64, Vec<u8>>::empty(),
            *final(self) == (AppState {
                store: final(self).store,
                session: None,
                ui: super::UiState {
                    selected: final(self).ui.selected,
                    active_tab: Tab::Accounts,
                    ..old(self).ui
                },
                pictures: super::Pictures {
                    avatars: final(self).pictures.avatars,
                    blurred: final(self).pictures.blurred,
                    ..old(self).pictures
                },
                ..*old(self)
            }),
    {
        self.store = AccountStore { accounts: Vec::new() };
        self.session = None;
        self.ui.selected.clear();
        self.ui.active_tab = Tab::Accounts;
        self.pictures.avatars = HashMap::new();
        self.pictures.blurred = HashMap::new();
    }

    /// The store was wiped, as far as it could be.
    pub fn wipe_account_store(&mut self, wiped: Wiped, now: u64)
        requires
            old(self).inv(),
        ensures
            final(self).inv(),
            started_over(*old(self), *final(self), wiped, now),
    {
        if wiped.undeleted.len() > 0 {
            let text: String = join3(
                "Could not delete ",
                &list_of(&wiped.undeleted),
                ". Delete it by hand, then restart RM.",
            );
            self.say(&text, ToastLevel::Error, now);
            return;
        }
        self.lock.needs_unlock = false;
        self.lock.unlocking = false;
        self.lock.device_key_missing = false;
        self.lock.pending_legacy_upgrade = false;
        self.lock.show_passwordless_offer = false;
        self.lock.password_input = String::new();
        self.lock.password_used = String::new();
        self.forget_accounts();
        self.config.offered_passwordless = true;
        self.out.push(Effect::SaveConfig);
        if wiped.orphaned > 0 {
            let text: String = join3(
                "Account store deleted, but ",
                &decimal_of(wiped.orphaned as u64),
                " saved credential(s) could not be removed",
            );
            self.say(&text, ToastLevel::Error, now);
        } else {
            self.say(
                "Account store deleted. Add an account to start over.",
                ToastLevel::Success,
                now,
            );
        }
    }
}

} // verus!
