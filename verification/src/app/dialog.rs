//! The add-account dialog.

use vstd::prelude::*;

use super::clients::{browse_label, browses};
use super::session::{bulk_advanced, sent_or_waiting};
use super::{
    becomes, saving, AddAccountDialog, AddAccountStep, AppState, Awaiting, Effect,
    PendingModeratedAdd, TutorialStep,
};
use crate::bridge::{BackendCommand, Credentials};
use crate::browser_login::LoginOutcome;
use crate::cookies::{bulk_cookies, parse_bulk_cookies};
use crate::lists::texts_of;
use crate::models::{copy_of, with_added, Account, StoreSession};
use crate::text::{decimal, decimal_of, join2, join3, trim, trimmed};
use crate::toast::{ToastLevel, ToastsView};

verus! {

// ---------------------------------------------------------------------------
// Adding
// ---------------------------------------------------------------------------

/// How a new account is named in a toast.
pub open spec fn added_name(anonymize_names: bool, account: Account) -> Seq<char> {
    if anonymize_names {
        "Account"@
    } else {
        account.username@
    }
}

/// What is said of a new account.
pub open spec fn added_said(s: AppState, account: Account, now: u64) -> ToastsView {
    s.toasts@.said(
        "Added "@ + added_name(s.config.anonymize_names, account),
        ToastLevel::Success,
        now,
    )
}

/// What a new account adds to the things to do.
pub open spec fn added_out(s: AppState) -> Seq<Effect> {
    s.out@.push(Effect::AdvanceTutorial(TutorialStep::EnterCookie)) + saving(s)
}

/// The dialog once its account is added. The input is cleared.
pub open spec fn dialog_done(d: AddAccountDialog, input: String) -> AddAccountDialog {
    AddAccountDialog {
        open: false,
        loading: false,
        last_error: None,
        cookie_input: input,
        browser_login_pending: false,
        login: None,
        rejected_cookie: None,
        ..d
    }
}

/// Whether `t` is the state after an account was validated. In a batch it is
/// added silently; otherwise an account that is moderated waits for the user
/// to confirm.
pub open spec fn account_arrived(
    s: AppState,
    t: AppState,
    account: Account,
    encrypted_cookie: Option<String>,
    now: u64,
) -> bool {
    if s.dialog.bulk_running {
        &&& t.store.accounts@ == with_added(s.store.accounts@, account)
        &&& bulk_advanced(
            AppState {
                store: t.store,
                dialog: AddAccountDialog {
                    bulk_succeeded: one_more(s.dialog.bulk_succeeded),
                    ..s.dialog
                },
                ..s
            },
            t,
        )
    } else if crate::models::enforced(account.moderation) {
        t == (AppState {
            dialog: AddAccountDialog {
                loading: false,
                last_error: None,
                pending_moderated: Some(
                    Box::new(PendingModeratedAdd { account, encrypted_cookie }),
                ),
                ..s.dialog
            },
            ..s
        })
    } else {
        &&& t.store.accounts@ == with_added(s.store.accounts@, account)
        &&& t.dialog.cookie_input@.len() == 0
        &&& becomes(
            t,
            AppState {
                store: t.store,
                dialog: dialog_done(s.dialog, t.dialog.cookie_input),
                ..s
            },
            added_out(s),
            added_said(s, account, now),
        )
    }
}

/// One more, as far as counting goes.
pub open spec fn one_more(n: usize) -> usize {
    if n < usize::MAX {
        (n + 1) as usize
    } else {
        usize::MAX
    }
}

/// Whether `t` is the state after an account was added although its cookie was
/// rejected.
pub open spec fn account_forced(s: AppState, t: AppState, account: Account, now: u64) -> bool {
    &&& t.store.accounts@ == with_added(s.store.accounts@, account)
    &&& t.dialog.cookie_input@.len() == 0
    &&& t.dialog.force_add_username@.len() == 0
    &&& becomes(
        t,
        AppState {
            store: t.store,
            dialog: AddAccountDialog {
                force_add_form_open: false,
                force_add_username: t.dialog.force_add_username,
                ..dialog_done(s.dialog, t.dialog.cookie_input)
            },
            ..s
        },
        added_out(s),
        added_said(s, account, now),
    )
}

/// What the dialog says of a cookie that was rejected.
pub open spec fn rejection(moderation_message: Option<String>) -> Seq<char> {
    match moderation_message {
        Some(m) => "Cookie was rejected by Roblox.\n\nLikely reason: "@ + m@,
        None => "Cookie was rejected by Roblox. The account may be terminated, the cookie may be expired, or you may need to log in again."@,
    }
}

/// Whether a dialog says this and nothing else of an error.
pub open spec fn tells(error: Option<String>, text: Seq<char>) -> bool {
    error is Some && error->Some_0@ == text
}

/// Whether `t` is the state after one cookie of a batch failed.
pub open spec fn bulk_miss(s: AppState, t: AppState) -> bool {
    bulk_advanced(
        AppState {
            dialog: AddAccountDialog { bulk_failed: one_more(s.dialog.bulk_failed), ..s.dialog },
            ..s
        },
        t,
    )
}

/// Whether `t` is the state after a cookie was rejected. It is kept, so that
/// the user can look into it.
pub open spec fn cookie_refused(
    s: AppState,
    t: AppState,
    cookie: String,
    moderation_message: Option<String>,
) -> bool {
    if s.dialog.bulk_running {
        bulk_miss(s, t)
    } else {
        &&& tells(t.dialog.last_error, rejection(moderation_message))
        &&& t == (AppState {
            dialog: AddAccountDialog {
                loading: false,
                last_error: t.dialog.last_error,
                rejected_cookie: Some(cookie),
                ..s.dialog
            },
            ..s
        })
    }
}

impl AppState {
    /// Adds an account and says so.
    fn add_account(&mut self, account: Account, now: u64)
        requires
            old(self).inv(),
        ensures
            final(self).inv(),
            final(self).store.accounts@ == with_added(old(self).store.accounts@, account),
            becomes(
                *final(self),
                AppState { store: final(self).store, ..*old(self) },
                old(self).out@,
                added_said(*old(self), account, now),
            ),
    {
        let text: String = if self.config.anonymize_names {
            join2("Added ", "Account")
        } else {
            join2("Added ", &account.username)
        };
        self.store.add(account);
        self.say(&text, ToastLevel::Success, now);
    }

    /// An account was validated.
    pub fn account_validated(
        &mut self,
        account: Account,
        encrypted_cookie: Option<String>,
        now: u64,
    )
        requires
            old(self).inv(),
        ensures
            final(self).inv(),
            account_arrived(*old(self), *final(self), account, encrypted_cookie, now),
    {
        if self.dialog.bulk_running {
            self.store.add(account);
            self.dialog.bulk_succeeded = self.dialog.bulk_succeeded.saturating_add(1);
            self.dispatch_next_bulk();
        } else if crate::models::is_enforced(&account.moderation) {
            self.dialog.loading = false;
            self.dialog.last_error = None;
            self.dialog.pending_moderated = Some(
                Box::new(PendingModeratedAdd { account, encrypted_cookie }),
            );
        } else {
            self.add_account(account, now);
            self.dialog.open = false;
            self.dialog.loading = false;
            self.dialog.last_error = None;
            self.dialog.cookie_input = String::new();
            self.dialog.browser_login_pending = false;
            self.dialog.login = None;
            self.dialog.rejected_cookie = None;
            self.out.push(Effect::AdvanceTutorial(TutorialStep::EnterCookie));
            self.auto_save();
        }
    }

    /// An account was added although its cookie was rejected.
    pub fn account_force_added(&mut self, account: Account, now: u64)
        requires
            old(self).inv(),
        ensures
            final(self).inv(),
            account_forced(*old(self), *final(self), account, now),
    {
        self.add_account(account, now);
        self.dialog.open = false;
        self.dialog.loading = false;
        self.dialog.last_error = None;
        self.dialog.cookie_input = String::new();
        self.dialog.browser_login_pending = false;
        self.dialog.login = None;
        self.dialog.rejected_cookie = None;
        self.dialog.force_add_form_open = false;
        self.dialog.force_add_username = String::new();
        self.out.push(Effect::AdvanceTutorial(TutorialStep::EnterCookie));
        self.auto_save();
    }

    /// One cookie of a batch failed: it is counted, and the batch goes on.
    pub fn bulk_missed(&mut self)
        requires
            old(self).inv(),
        ensures
            final(self).inv(),
            bulk_miss(*old(self), *final(self)),
    {
        self.dialog.bulk_failed = self.dialog.bulk_failed.saturating_add(1);
        self.dispatch_next_bulk();
    }

    /// The cookie of an account to add was rejected.
    pub fn cookie_rejected(&mut self, cookie: String, moderation_message: Option<String>)
        requires
            old(self).inv(),
        ensures
            final(self).inv(),
            cookie_refused(*old(self), *final(self), cookie, moderation_message),
    {
        if self.dialog.bulk_running {
            self.bulk_missed();
        } else {
            self.dialog.loading = false;
            let text: String = match moderation_message {
                Some(m) => join2("Cookie was rejected by Roblox.\n\nLikely reason: ", &m),
                None => "Cookie was rejected by Roblox. The account may be terminated, the cookie may be expired, or you may need to log in again.".to_owned(),
            };
            self.dialog.last_error = Some(text);
            self.dialog.rejected_cookie = Some(cookie);
        }
    }
}

/// A moderated account is never added without being asked for, outside a batch.
pub proof fn a_moderated_account_waits(
    s: AppState,
    t: AppState,
    account: Account,
    encrypted_cookie: Option<String>,
    now: u64,
)
    requires
        account_arrived(s, t, account, encrypted_cookie, now),
        crate::models::enforced(account.moderation),
        !s.dialog.bulk_running,
    ensures
        t.store == s.store,
        t.out == s.out,
        t.dialog.pending_moderated is Some,
{
}

/// An account that is added a second time takes the place of the first.
pub proof fn adding_twice_keeps_one(
    s: AppState,
    t: AppState,
    account: Account,
    encrypted_cookie: Option<String>,
    now: u64,
)
    requires
        account_arrived(s, t, account, encrypted_cookie, now),
        crate::models::ids_unique(s.store.accounts@),
    ensures
        crate::models::ids_unique(t.store.accounts@),
{
    crate::models::adding_keeps_ids_unique(s.store.accounts@, account);
}

// ---------------------------------------------------------------------------
// Logging in with a browser
// ---------------------------------------------------------------------------

/// Whether `t` is the state after a cookie with this text was to be sent as
/// what a login window came back with.
pub open spec fn login_sent(s: AppState, t: AppState, text: Seq<char>) -> bool {
    exists|cookie: String|
        cookie@ == text && #[trigger] sent_or_waiting(s, t, Awaiting::Login { cookie })
}

/// The dialog once no login window is waited for.
pub open spec fn login_over(d: AddAccountDialog) -> AddAccountDialog {
    AddAccountDialog { browser_login_pending: false, login: None, ..d }
}

/// Whether `t` is the state after something came from a login window. `None`
/// is a window that went away without a word.
pub open spec fn login_heard(
    s: AppState,
    t: AppState,
    number: u64,
    outcome: Option<LoginOutcome>,
) -> bool {
    if !s.dialog.open || s.dialog.login != Some(number) {
        t == s
    } else {
        match outcome {
            Some(LoginOutcome::Status(_)) => t == s,
            Some(LoginOutcome::Success(cookie)) => login_sent(
                AppState {
                    dialog: AddAccountDialog {
                        cookie_input: cookie,
                        last_error: None,
                        ..login_over(s.dialog)
                    },
                    ..s
                },
                t,
                trimmed(cookie@),
            ),
            Some(LoginOutcome::Failed(e)) => tells(
                t.dialog.last_error,
                "Browser login failed: "@ + e@,
            ) && t == (AppState {
                dialog: AddAccountDialog {
                    last_error: t.dialog.last_error,
                    ..login_over(s.dialog)
                },
                ..s
            }),
            _ => t == (AppState { dialog: login_over(s.dialog), ..s }),
        }
    }
}

impl AppState {
    /// Opens a login window under a number of its own. One that was open
    /// before is no longer listened to.
    pub fn start_login(&mut self, number: u64)
        requires
            old(self).inv(),
        ensures
            final(self).inv(),
            becomes(
                *final(self),
                AppState {
                    dialog: AddAccountDialog {
                        login: Some(number),
                        browser_login_pending: true,
                        last_error: None,
                        rejected_cookie: None,
                        step: AddAccountStep::Browser,
                        ..old(self).dialog
                    },
                    ..*old(self)
                },
                old(self).out@.push(Effect::OpenLogin(number)),
                old(self).toasts@,
            ),
    {
        self.dialog.login = Some(number);
        self.dialog.browser_login_pending = true;
        self.dialog.last_error = None;
        self.dialog.rejected_cookie = None;
        self.dialog.step = AddAccountStep::Browser;
        self.out.push(Effect::OpenLogin(number));
    }

    /// Something came from a login window.
    pub fn login_result(&mut self, number: u64, outcome: Option<LoginOutcome>)
        requires
            old(self).inv(),
        ensures
            final(self).inv(),
            login_heard(*old(self), *final(self), number, outcome),
    {
        let awaited: bool = match self.dialog.login {
            Some(n) => n == number,
            None => false,
        };
        if !self.dialog.open || !awaited {
            return;
        }
        match outcome {
            Some(LoginOutcome::Status(_)) => {},
            Some(LoginOutcome::Success(text)) => {
                let cookie: String = trim(&text);
                self.dialog.cookie_input = text;
                self.dialog.browser_login_pending = false;
                self.dialog.login = None;
                self.dialog.last_error = None;
                let ghost mid = *self;
                self.send_with_session(Awaiting::Login { cookie });
                assert(sent_or_waiting(mid, *self, Awaiting::Login { cookie }));
            },
            Some(LoginOutcome::Failed(e)) => {
                self.dialog.browser_login_pending = false;
                self.dialog.login = None;
                self.dialog.last_error = Some(join2("Browser login failed: ", &e));
            },
            Some(LoginOutcome::Cancelled) => {
                self.dialog.browser_login_pending = false;
                self.dialog.login = None;
            },
            None => {
                self.dialog.browser_login_pending = false;
                self.dialog.login = None;
            },
        }
    }
}

/// A window that is no longer waited for changes nothing, whatever it says.
pub proof fn a_stale_login_is_ignored(
    s: AppState,
    t: AppState,
    number: u64,
    outcome: Option<LoginOutcome>,
)
    requires
        login_heard(s, t, number, outcome),
        s.dialog.login != Some(number),
    ensures
        t == s,
{
}

// ---------------------------------------------------------------------------
// Pages
// ---------------------------------------------------------------------------

/// Whether a batch still has cookies that are not answered.
pub open spec fn bulk_busy(d: AddAccountDialog) -> bool {
    d.bulk_running && d.bulk_succeeded + d.bulk_failed < d.bulk_total
}

/// Whether the user can go back to the choice of methods.
pub open spec fn can_go_back(d: AddAccountDialog) -> bool {
    match d.step {
        AddAccountStep::Choose => false,
        AddAccountStep::Browser => !d.loading,
        AddAccountStep::Manual => !d.loading,
        AddAccountStep::Bulk => !bulk_busy(d),
    }
}

/// The dialog back at the choice of methods; `input` and `bulk_input` are what
/// is left of the two inputs, `queue` of the batch.
pub open spec fn back_at_choice(
    d: AddAccountDialog,
    input: String,
    bulk_input: String,
    queue: Vec<String>,
) -> AddAccountDialog {
    match d.step {
        AddAccountStep::Choose => d,
        AddAccountStep::Browser => AddAccountDialog {
            step: AddAccountStep::Choose,
            cookie_input: input,
            login: None,
            browser_login_pending: false,
            last_error: None,
            ..d
        },
        AddAccountStep::Manual => AddAccountDialog {
            step: AddAccountStep::Choose,
            cookie_input: input,
            last_error: None,
            ..d
        },
        AddAccountStep::Bulk => AddAccountDialog {
            step: AddAccountStep::Choose,
            last_error: None,
            ..batch_dropped(d, bulk_input, queue)
        },
    }
}

/// The dialog without a batch.
pub open spec fn batch_dropped(d: AddAccountDialog, bulk_input: String, queue: Vec<String>) -> AddAccountDialog {
    AddAccountDialog {
        bulk_input,
        bulk_running: false,
        bulk_queue: queue,
        bulk_total: 0,
        bulk_succeeded: 0,
        bulk_failed: 0,
        ..d
    }
}

/// How far a batch is.
#[derive(Debug)]
pub enum BulkProgress {
    /// Nothing runs: cookies can be pasted. This many are there.
    Pasting(usize),
    Importing(String),
    Done(String),
}

impl AppState {
    /// Opens the page for pasting one cookie.
    pub fn choose_manual(&mut self)
        requires
            old(self).inv(),
        ensures
            final(self).inv(),
            *final(self) == (AppState {
                dialog: AddAccountDialog {
                    step: AddAccountStep::Manual,
                    last_error: None,
                    ..old(self).dialog
                },
                ..*old(self)
            }),
    {
        self.dialog.step = AddAccountStep::Manual;
        self.dialog.last_error = None;
    }

    /// Opens the page for pasting many cookies.
    pub fn choose_bulk(&mut self)
        requires
            old(self).inv(),
        ensures
            final(self).inv(),
            final(self).dialog.bulk_input@.len() == 0,
            *final(self) == (AppState {
                dialog: AddAccountDialog {
                    step: AddAccountStep::Bulk,
                    last_error: None,
                    bulk_input: final(self).dialog.bulk_input,
                    ..old(self).dialog
                },
                ..*old(self)
            }),
    {
        self.dialog.step = AddAccountStep::Bulk;
        self.dialog.last_error = None;
        self.dialog.bulk_input = String::new();
    }

    /// Whether a batch still has cookies that are not answered.
    pub fn bulk_is_busy(&self) -> (b: bool)
        ensures
            b == bulk_busy(self.dialog),
    {
        self.dialog.bulk_running && self.dialog.bulk_succeeded.saturating_add(
            self.dialog.bulk_failed,
        ) < self.dialog.bulk_total
    }

    fn drop_batch(&mut self)
        requires
            old(self).inv(),
        ensures
            final(self).inv(),
            final(self).dialog.bulk_input@.len() == 0,
            final(self).dialog.bulk_queue@.len() == 0,
            *final(self) == (AppState {
                dialog: batch_dropped(
                    old(self).dialog,
                    final(self).dialog.bulk_input,
                    final(self).dialog.bulk_queue,
                ),
                ..*old(self)
            }),
    {
        self.dialog.bulk_input = String::new();
        self.dialog.bulk_running = false;
        self.dialog.bulk_queue = Vec::new();
        self.dialog.bulk_total = 0;
        self.dialog.bulk_succeeded = 0;
        self.dialog.bulk_failed = 0;
    }

    /// Goes back to the choice of methods, where nothing is on its way.
    pub fn go_back(&mut self)
        requires
            old(self).inv(),
        ensures
            final(self).inv(),
            if can_go_back(old(self).dialog) {
                let input = final(self).dialog.cookie_input;
                let bulk_input = final(self).dialog.bulk_input;
                let queue = final(self).dialog.bulk_queue;
                &&& *final(self) == (AppState {
                    dialog: back_at_choice(old(self).dialog, input, bulk_input, queue),
                    ..*old(self)
                })
                &&& if old(self).dialog.step == AddAccountStep::Bulk {
                    bulk_input@.len() == 0 && queue@.len() == 0
                } else {
                    input@.len() == 0
                }
            } else {
                *final(self) == *old(self)
            },
    {
        match self.dialog.step {
            AddAccountStep::Choose => {},
            AddAccountStep::Browser => {
                if !self.dialog.loading {
                    self.dialog.step = AddAccountStep::Choose;
                    self.dialog.cookie_input = String::new();
                    self.dialog.login = None;
                    self.dialog.browser_login_pending = false;
                    self.dialog.last_error = None;
                }
            },
            AddAccountStep::Manual => {
                if !self.dialog.loading {
                    self.dialog.step = AddAccountStep::Choose;
                    self.dialog.cookie_input = String::new();
                    self.dialog.last_error = None;
                }
            },
            AddAccountStep::Bulk => {
                if !self.bulk_is_busy() {
                    self.drop_batch();
                    self.dialog.step = AddAccountStep::Choose;
                    self.dialog.last_error = None;
                }
            },
        }
    }

    /// Closes the summary of a batch.
    pub fn close_summary(&mut self)
        requires
            old(self).inv(),
        ensures
            final(self).inv(),
            final(self).dialog.bulk_input@.len() == 0,
            final(self).dialog.bulk_queue@.len() == 0,
            *final(self) == (AppState {
                dialog: AddAccountDialog {
                    open: false,
                    step: AddAccountStep::Choose,
                    rejected_cookie: None,
                    ..batch_dropped(
                        old(self).dialog,
                        final(self).dialog.bulk_input,
                        final(self).dialog.bulk_queue,
                    )
                },
                ..*old(self)
            }),
    {
        self.drop_batch();
        self.dialog.open = false;
        self.dialog.step = AddAccountStep::Choose;
        self.dialog.rejected_cookie = None;
    }

    /// How far the batch is.
    pub fn bulk_progress(&self) -> (p: BulkProgress)
        ensures
            match p {
                BulkProgress::Pasting(n) => !self.dialog.bulk_running && n == bulk_cookies(
                    self.dialog.bulk_input@,
                ).len(),
                BulkProgress::Importing(text) => bulk_busy(self.dialog) && text@ == "Importing "@
                    + decimal((self.dialog.bulk_succeeded + self.dialog.bulk_failed) as nat) + "/"@
                    + decimal(self.dialog.bulk_total as nat) + "..."@,
                BulkProgress::Done(text) => self.dialog.bulk_running && !bulk_busy(self.dialog)
                    && text@ == "Done: "@ + decimal(self.dialog.bulk_succeeded as nat) + " added, "@
                    + decimal(self.dialog.bulk_failed as nat) + " failed."@,
            },
    {
        if !self.dialog.bulk_running {
            let cookies: Vec<String> = parse_bulk_cookies(&self.dialog.bulk_input);
            assert(texts_of(cookies@).len() == cookies@.len());
            BulkProgress::Pasting(cookies.len())
        } else if self.bulk_is_busy() {
            let done: usize = self.dialog.bulk_succeeded + self.dialog.bulk_failed;
            let from: String = join3("Importing ", &decimal_of(done as u64), "/");
            BulkProgress::Importing(
                join3(&from, &decimal_of(self.dialog.bulk_total as u64), "..."),
            )
        } else {
            let added: String = join3(
                "Done: ",
                &decimal_of(self.dialog.bulk_succeeded as u64),
                " added, ",
            );
            BulkProgress::Done(
                join3(&added, &decimal_of(self.dialog.bulk_failed as u64), " failed."),
            )
        }
    }
}

// ---------------------------------------------------------------------------
// Importing
// ---------------------------------------------------------------------------

/// The input of the batch page with a file's text behind it, on a line of its
/// own.
pub open spec fn with_file(input: Seq<char>, contents: Seq<char>) -> Seq<char> {
    if input.len() == 0 || input.last() == '\n' {
        input + contents
    } else {
        input + "\n"@ + contents
    }
}

/// The last character of a text, if there is one.
fn last_char(s: &str) -> (r: Option<char>)
    ensures
        r is None <==> s@.len() == 0,
        r matches Some(c) ==> c == s@.last(),
{
    let chars: Vec<char> = crate::text::chars_of(s);
    if chars.len() == 0 {
        None
    } else {
        Some(chars[chars.len() - 1])
    }
}

impl AppState {
    /// A file was picked for the batch: its text joins what was pasted before.
    pub fn cookies_loaded(&mut self, contents: &str)
        requires
            old(self).inv(),
        ensures
            final(self).inv(),
            final(self).dialog.bulk_input@ == with_file(old(self).dialog.bulk_input@, contents@),
            *final(self) == (AppState {
                dialog: AddAccountDialog {
                    bulk_input: final(self).dialog.bulk_input,
                    ..old(self).dialog
                },
                ..*old(self)
            }),
    {
        let whole: bool = match last_char(&self.dialog.bulk_input) {
            Some(c) => c == '\n',
            None => true,
        };
        let joined: String = if whole {
            join2(&self.dialog.bulk_input, contents)
        } else {
            join3(&self.dialog.bulk_input, "\n", contents)
        };
        self.dialog.bulk_input = joined;
    }

    /// A file that was picked could not be read.
    pub fn cookies_unreadable(&mut self, path: &str, error: &str, now: u64)
        requires
            old(self).inv(),
        ensures
            final(self).inv(),
            becomes(
                *final(self),
                *old(self),
                old(self).out@,
                old(self).toasts@.said(
                    "Failed to read "@ + path@ + ": "@ + error@,
                    ToastLevel::Error,
                    now,
                ),
            ),
    {
        let text: String = join2(&join3("Failed to read ", path, ": "), error);
        self.say(&text, ToastLevel::Error, now);
    }

    /// Imports the cookies that were pasted, one after the other and in the
    /// order they were pasted in.
    pub fn start_import(&mut self)
        requires
            old(self).inv(),
        ensures
            final(self).inv(),
            if bulk_cookies(old(self).dialog.bulk_input@).len() == 0 {
                *final(self) == *old(self)
            } else {
                exists|queue: Vec<String>|
                    texts_of(queue@) == bulk_cookies(old(self).dialog.bulk_input@).reverse()
                        && #[trigger] bulk_advanced(
                        import_ready(*old(self), queue),
                        *final(self),
                    )
            },
    {
        let mut cookies: Vec<String> = parse_bulk_cookies(&self.dialog.bulk_input);
        let ghost all = cookies@;
        assert(texts_of(all).len() == all.len());
        if cookies.len() == 0 {
            return;
        }
        let total: usize = cookies.len();
        let mut queue: Vec<String> = Vec::new();
        while cookies.len() > 0
            invariant
                cookies@.len() + queue@.len() == all.len(),
                cookies@ == all.take(cookies@.len() as int),
                queue@ == all.skip(cookies@.len() as int).reverse(),
            decreases cookies@.len(),
        {
            let ghost n = cookies@.len() as int;
            match cookies.pop() {
                Some(c) => {
                    queue.push(c);
                    assert(queue@ =~= all.skip(n - 1).reverse());
                    assert(cookies@ =~= all.take(n - 1));
                },
                None => {},
            }
        }
        assert(all.skip(0) =~= all);
        assert(texts_of(queue@) =~= texts_of(all).reverse());
        self.dialog.bulk_total = total;
        self.dialog.bulk_succeeded = 0;
        self.dialog.bulk_failed = 0;
        let ghost kept = queue;
        self.dialog.bulk_queue = queue;
        self.dialog.bulk_running = true;
        self.dialog.last_error = None;
        let ghost mid = *self;
        assert(mid == import_ready(*old(self), kept));
        self.dispatch_next_bulk();
        assert(bulk_advanced(import_ready(*old(self), kept), *self));
    }
}

/// The state with a batch that is about to start.
pub open spec fn import_ready(s: AppState, queue: Vec<String>) -> AppState {
    AppState {
        dialog: AddAccountDialog {
            bulk_total: queue@.len() as usize,
            bulk_succeeded: 0,
            bulk_failed: 0,
            bulk_queue: queue,
            bulk_running: true,
            last_error: None,
            ..s.dialog
        },
        ..s
    }
}

// ---------------------------------------------------------------------------
// One cookie
// ---------------------------------------------------------------------------

/// Whether a cookie that was typed in can be sent.
pub open spec fn can_submit(d: AddAccountDialog) -> bool {
    !d.loading && trimmed(d.cookie_input@).len() > 0
}

/// Whether a rejected cookie can be added all the same.
pub open spec fn can_force(d: AddAccountDialog) -> bool {
    !d.loading && d.rejected_cookie is Some && trimmed(d.force_add_username@).len() > 0
}

impl AppState {
    /// Sends the cookie that was typed in.
    pub fn submit_cookie(&mut self)
        requires
            old(self).inv(),
        ensures
            final(self).inv(),
            if can_submit(old(self).dialog) {
                exists|cookie: String|
                    cookie@ == trimmed(old(self).dialog.cookie_input@)
                        && #[trigger] sent_or_waiting(
                        *old(self),
                        *final(self),
                        Awaiting::Add { cookie },
                    )
            } else {
                *final(self) == *old(self)
            },
    {
        let cookie: String = trim(&self.dialog.cookie_input);
        if !self.dialog.loading && !cookie.as_str().is_empty() {
            self.send_with_session(Awaiting::Add { cookie });
            assert(sent_or_waiting(*old(self), *self, Awaiting::Add { cookie }));
        }
    }

    /// Opens a browser with the cookie that was rejected.
    pub fn investigate(&mut self)
        requires
            old(self).inv(),
        ensures
            final(self).inv(),
            becomes(
                *final(self),
                *old(self),
                match old(self).dialog.rejected_cookie {
                    Some(cookie) => old(self).out@.push(Effect::Investigate(cookie)),
                    None => old(self).out@,
                },
                old(self).toasts@,
            ),
    {
        match copy_of(&self.dialog.rejected_cookie) {
            Some(cookie) => {
                self.out.push(Effect::Investigate(cookie));
            },
            None => {},
        }
    }

    /// A browser was to be opened with the rejected cookie. Once it is open, the
    /// cookie is not held any longer.
    pub fn investigation_opened(&mut self, result: Result<(), String>, now: u64)
        requires
            old(self).inv(),
        ensures
            final(self).inv(),
            becomes(
                *final(self),
                if result is Ok {
                    AppState {
                        dialog: AddAccountDialog { rejected_cookie: None, ..old(self).dialog },
                        ..*old(self)
                    }
                } else {
                    *old(self)
                },
                old(self).out@,
                match result {
                    Ok(()) => old(self).toasts@.said(
                        "Opening browser to investigate the cookie..."@,
                        ToastLevel::Info,
                        now,
                    ),
                    Err(e) => old(self).toasts@.said(
                        "Browser launch failed: "@ + e@,
                        ToastLevel::Error,
                        now,
                    ),
                },
            ),
    {
        match result {
            Ok(()) => {
                self.dialog.rejected_cookie = None;
                self.say("Opening browser to investigate the cookie...", ToastLevel::Info, now);
            },
            Err(e) => {
                let text: String = join2("Browser launch failed: ", &e);
                self.say(&text, ToastLevel::Error, now);
            },
        }
    }

    /// Opens or closes the form for adding a rejected cookie. It opens empty.
    pub fn toggle_force_form(&mut self)
        requires
            old(self).inv(),
        ensures
            final(self).inv(),
            *final(self) == (AppState {
                dialog: AddAccountDialog {
                    force_add_form_open: !old(self).dialog.force_add_form_open,
                    force_add_username: final(self).dialog.force_add_username,
                    ..old(self).dialog
                },
                ..*old(self)
            }),
            if old(self).dialog.force_add_form_open {
                final(self).dialog.force_add_username == old(self).dialog.force_add_username
            } else {
                final(self).dialog.force_add_username@.len() == 0
            },
    {
        self.dialog.force_add_form_open = !self.dialog.force_add_form_open;
        if self.dialog.force_add_form_open {
            self.dialog.force_add_username = String::new();
        }
    }

    /// Adds the rejected cookie under a username.
    pub fn submit_force(&mut self)
        requires
            old(self).inv(),
        ensures
            final(self).inv(),
            if can_force(old(self).dialog) {
                exists|username: String|
                    username@ == trimmed(old(self).dialog.force_add_username@)
                        && #[trigger] sent_or_waiting(
                        *old(self),
                        *final(self),
                        Awaiting::Force {
                            cookie: old(self).dialog.rejected_cookie->Some_0,
                            username,
                        },
                    )
            } else {
                *final(self) == *old(self)
            },
    {
        let username: String = trim(&self.dialog.force_add_username);
        if self.dialog.loading || username.as_str().is_empty() {
            return;
        }
        match copy_of(&self.dialog.rejected_cookie) {
            Some(cookie) => {
                self.send_with_session(Awaiting::Force { cookie, username });
                assert(sent_or_waiting(
                    *old(self),
                    *self,
                    Awaiting::Force {
                        cookie: old(self).dialog.rejected_cookie->Some_0,
                        username,
                    },
                ));
            },
            None => {},
        }
    }
}

// ---------------------------------------------------------------------------
// A moderated account
// ---------------------------------------------------------------------------

/// What the user answers when told that an account is moderated.
#[derive(Clone, Copy, Debug, PartialEq, Eq, Structural)]
pub enum ModeratedAnswer {
    OpenBrowser,
    Revalidate,
    AddAnyway,
    Cancel,
}

/// The credentials of an account that waits to be confirmed.
pub open spec fn pending_credentials(s: AppState, p: PendingModeratedAdd) -> Credentials {
    Credentials {
        user_id: p.account.user_id,
        encrypted_cookie: p.encrypted_cookie,
        session: s.session->Some_0,
        use_credential_manager: s.config.use_credential_manager,
    }
}

/// What is said where a cookie cannot be opened again.
pub open spec fn reopen_failed(s: AppState, now: u64) -> ToastsView {
    s.toasts@.said(
        "Couldn't re-decrypt the cookie. Cancel and re-add manually."@,
        ToastLevel::Error,
        now,
    )
}

/// The dialog once the question about a moderated account is closed.
pub open spec fn question_closed(d: AddAccountDialog, input: String) -> AddAccountDialog {
    AddAccountDialog {
        pending_moderated: None,
        open: false,
        cookie_input: input,
        browser_login_pending: false,
        login: None,
        rejected_cookie: None,
        ..d
    }
}

/// Whether `t` is the state after the question about a moderated account was
/// answered.
pub open spec fn moderated_answered(
    s: AppState,
    t: AppState,
    answer: ModeratedAnswer,
    now: u64,
) -> bool {
    match s.dialog.pending_moderated {
        None => t == s,
        Some(p) => match answer {
            ModeratedAnswer::OpenBrowser => if s.session is None {
                t == s
            } else {
                &&& t == (AppState { out: t.out, ..s })
                &&& t.out@.len() == s.out@.len() + 1
                &&& t.out@.drop_last() == s.out@
                &&& browses(
                    t.out@.last(),
                    pending_credentials(s, *p),
                    browse_label(s, p.account.user_id, p.account.username@),
                )
            },
            ModeratedAnswer::Revalidate => if s.session is None {
                becomes(t, s, s.out@, reopen_failed(s, now))
            } else {
                becomes(
                    t,
                    s,
                    s.out@.push(Effect::ReopenCookie(pending_credentials(s, *p))),
                    s.toasts@,
                )
            },
            ModeratedAnswer::AddAnyway => {
                &&& t.store.accounts@ == with_added(s.store.accounts@, p.account)
                &&& t.dialog.cookie_input@.len() == 0
                &&& becomes(
                    t,
                    AppState {
                        store: t.store,
                        dialog: question_closed(s.dialog, t.dialog.cookie_input),
                        ..s
                    },
                    added_out(s),
                    added_said(s, p.account, now),
                )
            },
            ModeratedAnswer::Cancel => {
                &&& t.dialog.cookie_input@.len() == 0
                &&& becomes(
                    t,
                    AppState { dialog: question_closed(s.dialog, t.dialog.cookie_input), ..s },
                    if s.config.use_credential_manager {
                        s.out@.push(Effect::DeleteCredential(p.account.user_id))
                    } else {
                        s.out@
                    },
                    s.toasts@,
                )
            },
        },
    }
}

/// Whether `t` is the state after the cookie of the account under question was
/// to be opened again.
pub open spec fn reopened(s: AppState, t: AppState, cookie: Option<String>, now: u64) -> bool {
    if s.dialog.pending_moderated is None {
        t == s
    } else if cookie is Some && s.session is Some {
        becomes(
            t,
            AppState {
                dialog: AddAccountDialog {
                    pending_moderated: None,
                    loading: true,
                    last_error: None,
                    ..s.dialog
                },
                ..s
            },
            s.out@.push(
                Effect::Send(
                    BackendCommand::AddAccount {
                        cookie: cookie->Some_0,
                        session: s.session->Some_0,
                        use_credential_manager: s.config.use_credential_manager,
                    },
                ),
            ),
            s.toasts@,
        )
    } else {
        becomes(t, s, s.out@, reopen_failed(s, now))
    }
}

impl AppState {
    /// The question about a moderated account was answered. A credential that
    /// was stored on the way is not left behind when the user cancels.
    pub fn answer_moderated(&mut self, answer: ModeratedAnswer, now: u64)
        requires
            old(self).inv(),
        ensures
            final(self).inv(),
            moderated_answered(*old(self), *final(self), answer, now),
    {
        match answer {
            ModeratedAnswer::OpenBrowser => self.browse_pending(),
            ModeratedAnswer::Revalidate => self.reopen_pending(now),
            ModeratedAnswer::AddAnyway => {
                match self.dialog.pending_moderated.take() {
                    Some(p) => {
                        let pending: PendingModeratedAdd = *p;
                        self.add_account(pending.account, now);
                        self.dialog.open = false;
                        self.dialog.cookie_input = String::new();
                        self.dialog.browser_login_pending = false;
                        self.dialog.login = None;
                        self.dialog.rejected_cookie = None;
                        self.out.push(Effect::AdvanceTutorial(TutorialStep::EnterCookie));
                        self.auto_save();
                    },
                    None => {},
                }
            },
            ModeratedAnswer::Cancel => {
                match self.dialog.pending_moderated.take() {
                    Some(p) => {
                        if self.config.use_credential_manager {
                            self.out.push(Effect::DeleteCredential(p.account.user_id));
                        }
                        self.dialog.open = false;
                        self.dialog.cookie_input = String::new();
                        self.dialog.browser_login_pending = false;
                        self.dialog.login = None;
                        self.dialog.rejected_cookie = None;
                    },
                    None => {},
                }
            },
        }
    }

    fn browse_pending(&mut self)
        requires
            old(self).inv(),
        ensures
            final(self).inv(),
            moderated_answered(*old(self), *final(self), ModeratedAnswer::OpenBrowser, 0),
    {
        let session: StoreSession = match self.session {
            Some(s) => s,
            None => {
                return;
            },
        };
        let cmd: BackendCommand = match &self.dialog.pending_moderated {
            Some(p) => {
                let label: String = if self.config.anonymize_names {
                    join2("#", &decimal_of(p.account.user_id))
                } else {
                    p.account.username.clone()
                };
                BackendCommand::BrowseAsAccount {
                    credentials: Credentials {
                        user_id: p.account.user_id,
                        encrypted_cookie: copy_of(&p.encrypted_cookie),
                        session,
                        use_credential_manager: self.config.use_credential_manager,
                    },
                    label,
                }
            },
            None => {
                return;
            },
        };
        self.out.push(Effect::Send(cmd));
        assert(self.out@.drop_last() =~= old(self).out@);
    }

    fn reopen_pending(&mut self, now: u64)
        requires
            old(self).inv(),
        ensures
            final(self).inv(),
            moderated_answered(*old(self), *final(self), ModeratedAnswer::Revalidate, now),
    {
        if self.dialog.pending_moderated.is_none() {
            return;
        }
        let session: StoreSession = match self.session {
            Some(s) => s,
            None => {
                self.say(
                    "Couldn't re-decrypt the cookie. Cancel and re-add manually.",
                    ToastLevel::Error,
                    now,
                );
                return;
            },
        };
        let credentials: Credentials = match &self.dialog.pending_moderated {
            Some(p) => Credentials {
                user_id: p.account.user_id,
                encrypted_cookie: copy_of(&p.encrypted_cookie),
                session,
                use_credential_manager: self.config.use_credential_manager,
            },
            None => {
                return;
            },
        };
        self.out.push(Effect::ReopenCookie(credentials));
    }

    /// The cookie of the account under question was to be opened again. It is
    /// looked at from scratch: an account that is clean by now is just added.
    pub fn cookie_reopened(&mut self, cookie: Option<String>, now: u64)
        requires
            old(self).inv(),
        ensures
            final(self).inv(),
            reopened(*old(self), *final(self), cookie, now),
    {
        if self.dialog.pending_moderated.is_none() {
            return;
        }
        match (cookie, self.session) {
            (Some(cookie), Some(session)) => {
                self.dialog.pending_moderated = None;
                self.dialog.loading = true;
                self.dialog.last_error = None;
                self.out.push(
                    Effect::Send(
                        BackendCommand::AddAccount {
                            cookie,
                            session,
                            use_credential_manager: self.config.use_credential_manager,
                        },
                    ),
                );
            },
            _ => {
                self.say(
                    "Couldn't re-decrypt the cookie. Cancel and re-add manually.",
                    ToastLevel::Error,
                    now,
                );
            },
        }
    }

    /// The window of the dialog was closed. A cookie that was rejected is not
    /// held any longer.
    pub fn close_dialog(&mut self)
        requires
            old(self).inv(),
        ensures
            final(self).inv(),
            if old(self).dialog.pending_moderated is Some {
                moderated_answered(*old(self), *final(self), ModeratedAnswer::Cancel, 0)
            } else {
                *final(self) == (AppState {
                    dialog: AddAccountDialog {
                        open: false,
                        rejected_cookie: None,
                        ..old(self).dialog
                    },
                    ..*old(self)
                })
            },
    {
        if self.dialog.pending_moderated.is_some() {
            self.answer_moderated(ModeratedAnswer::Cancel, 0);
        } else {
            self.dialog.open = false;
            self.dialog.rejected_cookie = None;
        }
    }
}

} // verus!
