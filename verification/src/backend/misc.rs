//! Opening and saving the store, refreshing, validating again, and the small
//! commands.

use vstd::prelude::*;

use super::add::{finding_out, found_out};
use super::{
    ask, asking, done, ending, failed, failing, CookieUse, ErrorKind, Next, Reply, Stage, TaskError,
    Then,
};
use crate::bridge::{BackendEvent, Credentials};
use crate::models::{AccountStore, StoreSession, TrackedInstance};

verus! {

/// Seconds to let Roblox windows appear before they are arranged.
pub const ARRANGE_DELAY_SECS: u64 = 5;

/// What an account's cookie is opened for.
#[derive(Debug)]
pub enum MiscGoal {
    RefreshAll { user_ids: Vec<u64> },
    Presence { user_ids: Vec<u64> },
    Browse { label: String },
    ShareLink { share_code: String, server_name: String },
}

impl MiscGoal {
    /// How a missing cookie is reported.
    pub open spec fn used_for(self) -> CookieUse {
        match self {
            MiscGoal::RefreshAll { .. } => CookieUse::Refresh,
            MiscGoal::Presence { .. } => CookieUse::Refresh,
            MiscGoal::Browse { .. } => CookieUse::Account,
            MiscGoal::ShareLink { .. } => CookieUse::ShareLink,
        }
    }
}

/// How far a small command has come.
#[derive(Debug)]
pub enum MiscStage {
    /// Open the cookie. Answered by `Cookie`.
    OpeningCookie { credentials: Credentials, goal: MiscGoal },
    /// Forget an account's credential. Answered by `Go`.
    Removing { user_id: u64 },
    /// Write the store. Answered by `Unit`.
    Saving { store: AccountStore, path: String, session: StoreSession },
    /// Open the store with this device. Answered by `Opened`.
    OpeningWithDevice { path: String },
    /// Open the store with a password. Answered by `Opened`.
    OpeningWithPassword { path: String, password: String },
    /// Encrypt everything under a fresh key. Answered by `Opened`.
    Upgrading { store: AccountStore, path: String, session: StoreSession, new_password: Option<String> },
    /// Lock the same key another way. Answered by `Session`.
    Rewrapping { store: AccountStore, path: String, session: StoreSession, new_password: Option<String> },
    /// Write the store under its new lock. Answered by `Unit`.
    SavingRekeyed { store: AccountStore, path: String, session: StoreSession },
    /// Kill all clients. Answered by `Killed`.
    Killing,
    /// Where are the avatars? Answered by `Avatars`.
    FindingAvatars { user_ids: Vec<u64>, cookie: String },
    /// Get the pictures. Answered by `Images`.
    FetchingAvatars { user_ids: Vec<u64>, cookie: String, avatars: Vec<(u64, String)> },
    /// Where is everyone? Answered by `Presences`.
    FetchingPresences { user_ids: Vec<u64>, cookie: String },
    /// Match running clients to launches. Answered by `Swept`.
    Sweeping,
    /// Let windows appear. Answered by `Go`.
    BeforeArranging { secs: u64 },
    /// Arrange them. Answered by `Go`.
    Arranging,
    /// Is there a newer release? Answered by `Update`.
    CheckingForUpdates { current_version: String },
    /// What is the universe called? Answered by `Text`.
    NamingPlace { place_id: u64, universe_id: u64, index: usize },
    /// Get the universe's icon. Answered by `Bytes`.
    FetchingIcon { place_id: u64, universe_id: u64, index: usize, place_name: Option<String> },
    /// Open the browser. Answered by `Unit`.
    Browsing { user_id: u64, cookie: String, label: String },
    /// What does the link stand for? Answered by `Resolved`.
    ResolvingLink { cookie: String, share_code: String, server_name: String },
}

/// The first question of a command that needs a cookie.
pub open spec fn misc_begun(credentials: Credentials, goal: MiscGoal) -> Next {
    if super::has_cookie(credentials) {
        ask(Stage::Misc(MiscStage::OpeningCookie { credentials, goal }))
    } else {
        failed(TaskError::NoCookie(goal.used_for()))
    }
}

/// The first question of a command that needs a cookie.
pub fn begin_misc(credentials: Credentials, goal: MiscGoal) -> (n: Next)
    ensures
        n == misc_begun(credentials, goal),
{
    if super::cookie_at_hand(&credentials) {
        asking(Stage::Misc(MiscStage::OpeningCookie { credentials, goal }))
    } else {
        let used_for: CookieUse = match goal {
            MiscGoal::RefreshAll { .. } => CookieUse::Refresh,
            MiscGoal::Presence { .. } => CookieUse::Refresh,
            MiscGoal::Browse { .. } => CookieUse::Account,
            MiscGoal::ShareLink { .. } => CookieUse::ShareLink,
        };
        failing(TaskError::NoCookie(used_for))
    }
}

/// The first question once the cookie is open.
pub open spec fn misc_opened(user_id: u64, cookie: String, goal: MiscGoal) -> Next {
    match goal {
        MiscGoal::RefreshAll { user_ids } => ask(
            Stage::Misc(MiscStage::FindingAvatars { user_ids, cookie }),
        ),
        MiscGoal::Presence { user_ids } => ask(
            Stage::Misc(MiscStage::FetchingPresences { user_ids, cookie }),
        ),
        MiscGoal::Browse { label } => ask(
            Stage::Misc(MiscStage::Browsing { user_id, cookie, label }),
        ),
        MiscGoal::ShareLink { share_code, server_name } => ask(
            Stage::Misc(MiscStage::ResolvingLink { cookie, share_code, server_name }),
        ),
    }
}

fn open_misc(user_id: u64, cookie: String, goal: MiscGoal) -> (n: Next)
    ensures
        n == misc_opened(user_id, cookie, goal),
{
    match goal {
        MiscGoal::RefreshAll { user_ids } => asking(
            Stage::Misc(MiscStage::FindingAvatars { user_ids, cookie }),
        ),
        MiscGoal::Presence { user_ids } => asking(
            Stage::Misc(MiscStage::FetchingPresences { user_ids, cookie }),
        ),
        MiscGoal::Browse { label } => asking(
            Stage::Misc(MiscStage::Browsing { user_id, cookie, label }),
        ),
        MiscGoal::ShareLink { share_code, server_name } => asking(
            Stage::Misc(MiscStage::ResolvingLink { cookie, share_code, server_name }),
        ),
    }
}

fn copy_pairs(pairs: &Vec<(u64, String)>) -> (r: Vec<(u64, String)>)
    ensures
        r@ == pairs@,
{
    let mut out: Vec<(u64, String)> = Vec::new();
    let mut i: usize = 0;
    while i < pairs.len()
        invariant
            0 <= i <= pairs@.len(),
            out@ == pairs@.take(i as int),
        decreases pairs@.len() - i,
    {
        out.push((pairs[i].0, pairs[i].1.clone()));
        i += 1;
        assert(out@ =~= pairs@.take(i as int));
    }
    assert(pairs@.take(i as int) =~= pairs@);
    out
}

/// What a reply to a stage of a small command leads to.
pub open spec fn misc_follows(stage: MiscStage, reply: Reply, n: Next) -> bool {
    match (stage, reply) {
        (MiscStage::OpeningCookie { credentials, goal }, Reply::Cookie(Ok(cookie))) => n
            == misc_opened(credentials.user_id, cookie, goal),
        (MiscStage::OpeningCookie { .. }, Reply::Cookie(Err(e))) => n == failed(
            TaskError::Core(e),
        ),
        (MiscStage::Removing { user_id }, Reply::Go) => n == done(
            BackendEvent::AccountRemoved { user_id },
        ),
        (MiscStage::Saving { .. }, Reply::Unit(Ok(()))) => n == done(BackendEvent::StoreSaved),
        (MiscStage::Saving { .. }, Reply::Unit(Err(e))) => n == failed(TaskError::Core(e)),
        // A device key that is gone is its own event: no retyping helps.
        (MiscStage::OpeningWithDevice { .. }, Reply::Opened(r)) => match r {
            Ok((store, session)) => n == done(
                BackendEvent::StoreUnlocked { store: Box::new(store), session, legacy: false },
            ),
            Err(e) => if e.kind == ErrorKind::DeviceKeyMissing {
                n == done(BackendEvent::DeviceKeyMissing)
            } else {
                n == failed(TaskError::Core(e))
            },
        },
        (MiscStage::OpeningWithPassword { .. }, Reply::Opened(r)) => match r {
            Ok((store, session)) => n == done(
                BackendEvent::StoreUnlocked {
                    store: Box::new(store),
                    session,
                    legacy: session.legacy,
                },
            ),
            Err(e) => n == failed(TaskError::Core(e)),
        },
        (MiscStage::Upgrading { path, .. }, Reply::Opened(r)) => match r {
            Ok((store, session)) => n == ask(
                Stage::Misc(MiscStage::SavingRekeyed { store, path, session }),
            ),
            Err(e) => n == failed(TaskError::Core(e)),
        },
        (MiscStage::Rewrapping { store, path, .. }, Reply::Session(r)) => match r {
            Ok(session) => n == ask(
                Stage::Misc(MiscStage::SavingRekeyed { store, path, session }),
            ),
            Err(e) => n == failed(TaskError::Core(e)),
        },
        (MiscStage::SavingRekeyed { store, session, .. }, Reply::Unit(r)) => match r {
            Ok(()) => n == done(BackendEvent::StoreRekeyed { store: Box::new(store), session }),
            Err(e) => n == failed(TaskError::Core(e)),
        },
        (MiscStage::Killing, Reply::Killed(r)) => match r {
            Ok(count) => n == done(BackendEvent::Killed(count)),
            Err(e) => n == failed(TaskError::Core(e)),
        },
        // The avatar leg may fail alone; presence is asked for all the same.
        (MiscStage::FindingAvatars { user_ids, cookie }, Reply::Avatars(Ok(avatars))) => {
            &&& n.tell matches Some(BackendEvent::AvatarsUpdated(told)) && told@ == avatars@
            &&& n.go == Then::Ask(
                Stage::Misc(MiscStage::FetchingAvatars { user_ids, cookie, avatars }),
            )
        },
        (MiscStage::FindingAvatars { user_ids, cookie }, Reply::Avatars(Err(_))) => n == ask(
            Stage::Misc(MiscStage::FetchingPresences { user_ids, cookie }),
        ),
        (MiscStage::FetchingAvatars { user_ids, cookie, .. }, Reply::Images(images)) => n == (
        Next {
            tell: if images@.len() > 0 {
                Some(BackendEvent::AvatarImagesReady(images))
            } else {
                None
            },
            go: Then::Ask(Stage::Misc(MiscStage::FetchingPresences { user_ids, cookie })),
        }),
        (MiscStage::FetchingPresences { .. }, Reply::Presences(r)) => match r {
            Ok(presences) => n == done(BackendEvent::PresencesUpdated(presences)),
            Err(e) => n == failed(TaskError::Core(e)),
        },
        // The badge needs a number even where no client can be attributed.
        (MiscStage::Sweeping, Reply::Swept { instances, running_count }) => {
            &&& n.tell is None
            &&& n.go matches Then::Done(
                BackendEvent::InstancesUpdated { instances: reported, running_count: count },
            ) && count == running_count && match instances {
                Some(v) => reported == v,
                None => reported@.len() == 0,
            }
        },
        (MiscStage::BeforeArranging { .. }, Reply::Go) => n == ask(
            Stage::Misc(MiscStage::Arranging),
        ),
        (MiscStage::Arranging, Reply::Go) => n == done(BackendEvent::WindowsArranged),
        // A failed check is not worth a word.
        (MiscStage::CheckingForUpdates { .. }, Reply::Update(r)) => match r {
            Ok(Some((version, url))) => n == done(BackendEvent::UpdateAvailable { version, url }),
            _ => n == done(BackendEvent::StoreSaved),
        },
        (MiscStage::NamingPlace { place_id, universe_id, index }, Reply::Text(r)) => n == ask(
            Stage::Misc(
                MiscStage::FetchingIcon {
                    place_id,
                    universe_id,
                    index,
                    place_name: match r {
                        Ok(name) => Some(name),
                        Err(_) => None,
                    },
                },
            ),
        ),
        (MiscStage::FetchingIcon { place_id, index, place_name, .. }, Reply::Bytes(icon_bytes)) => n
            == done(BackendEvent::PlaceResolved { index, place_name, place_id, icon_bytes }),
        (MiscStage::Browsing { .. }, Reply::Unit(r)) => match r {
            Ok(()) => n == done(BackendEvent::BrowseAsLaunched),
            Err(e) => n == failed(TaskError::Core(e)),
        },
        (MiscStage::ResolvingLink { server_name, .. }, Reply::Resolved(r)) => match r {
            Ok(link) => n == done(
                BackendEvent::ShareLinkResolved {
                    server_name,
                    place_id: link.place_id,
                    universe_id: link.universe_id,
                    link_code: link.link_code,
                    access_code: link.access_code,
                },
            ),
            Err(e) => n == done(BackendEvent::ShareLinkFailed(e.text)),
        },
        _ => n == failed(TaskError::OutOfStep),
    }
}

/// The next step of a small command.
pub fn resume_misc(stage: MiscStage, reply: Reply) -> (n: Next)
    ensures
        misc_follows(stage, reply, n),
        n.go matches Then::Ask(next) ==> super::stage_wf(next),
{
    match (stage, reply) {
        (MiscStage::OpeningCookie { credentials, goal }, Reply::Cookie(Ok(cookie))) => open_misc(
            credentials.user_id,
            cookie,
            goal,
        ),
        (MiscStage::OpeningCookie { .. }, Reply::Cookie(Err(e))) => failing(TaskError::Core(e)),
        (MiscStage::Removing { user_id }, Reply::Go) => ending(
            BackendEvent::AccountRemoved { user_id },
        ),
        (MiscStage::Saving { .. }, Reply::Unit(Ok(()))) => ending(BackendEvent::StoreSaved),
        (MiscStage::Saving { .. }, Reply::Unit(Err(e))) => failing(TaskError::Core(e)),
        (MiscStage::OpeningWithDevice { .. }, Reply::Opened(r)) => match r {
            Ok((store, session)) => ending(
                BackendEvent::StoreUnlocked { store: Box::new(store), session, legacy: false },
            ),
            Err(e) => {
                if e.kind == ErrorKind::DeviceKeyMissing {
                    ending(BackendEvent::DeviceKeyMissing)
                } else {
                    failing(TaskError::Core(e))
                }
            },
        },
        (MiscStage::OpeningWithPassword { .. }, Reply::Opened(r)) => match r {
            Ok((store, session)) => ending(
                BackendEvent::StoreUnlocked {
                    store: Box::new(store),
                    session,
                    legacy: session.legacy,
                },
            ),
            Err(e) => failing(TaskError::Core(e)),
        },
        (MiscStage::Upgrading { path, .. }, Reply::Opened(r)) => match r {
            Ok((store, session)) => asking(
                Stage::Misc(MiscStage::SavingRekeyed { store, path, session }),
            ),
            Err(e) => failing(TaskError::Core(e)),
        },
        (MiscStage::Rewrapping { store, path, .. }, Reply::Session(r)) => match r {
            Ok(session) => asking(Stage::Misc(MiscStage::SavingRekeyed { store, path, session })),
            Err(e) => failing(TaskError::Core(e)),
        },
        (MiscStage::SavingRekeyed { store, session, .. }, Reply::Unit(r)) => match r {
            Ok(()) => ending(BackendEvent::StoreRekeyed { store: Box::new(store), session }),
            Err(e) => failing(TaskError::Core(e)),
        },
        (MiscStage::Killing, Reply::Killed(r)) => match r {
            Ok(count) => ending(BackendEvent::Killed(count)),
            Err(e) => failing(TaskError::Core(e)),
        },
        (MiscStage::FindingAvatars { user_ids, cookie }, Reply::Avatars(Ok(avatars))) => {
            let told: Vec<(u64, String)> = copy_pairs(&avatars);
            Next {
                tell: Some(BackendEvent::AvatarsUpdated(told)),
                go: Then::Ask(
                    Stage::Misc(MiscStage::FetchingAvatars { user_ids, cookie, avatars }),
                ),
            }
        },
        (MiscStage::FindingAvatars { user_ids, cookie }, Reply::Avatars(Err(_))) => asking(
            Stage::Misc(MiscStage::FetchingPresences { user_ids, cookie }),
        ),
        (MiscStage::FetchingAvatars { user_ids, cookie, .. }, Reply::Images(images)) => {
            let tell: Option<BackendEvent> = if images.len() > 0 {
                Some(BackendEvent::AvatarImagesReady(images))
            } else {
                None
            };
            Next {
                tell,
                go: Then::Ask(Stage::Misc(MiscStage::FetchingPresences { user_ids, cookie })),
            }
        },
        (MiscStage::FetchingPresences { .. }, Reply::Presences(r)) => match r {
            Ok(presences) => ending(BackendEvent::PresencesUpdated(presences)),
            Err(e) => failing(TaskError::Core(e)),
        },
        (MiscStage::Sweeping, Reply::Swept { instances, running_count }) => {
            let reported: Vec<TrackedInstance> = match instances {
                Some(v) => v,
                None => Vec::new(),
            };
            ending(BackendEvent::InstancesUpdated { instances: reported, running_count })
        },
        (MiscStage::BeforeArranging { .. }, Reply::Go) => asking(Stage::Misc(MiscStage::Arranging)),
        (MiscStage::Arranging, Reply::Go) => ending(BackendEvent::WindowsArranged),
        (MiscStage::CheckingForUpdates { .. }, Reply::Update(r)) => match r {
            Ok(Some((version, url))) => ending(BackendEvent::UpdateAvailable { version, url }),
            _ => ending(BackendEvent::StoreSaved),
        },
        (MiscStage::NamingPlace { place_id, universe_id, index }, Reply::Text(r)) => {
            let place_name: Option<String> = match r {
                Ok(name) => Some(name),
                Err(_) => None,
            };
            asking(
                Stage::Misc(MiscStage::FetchingIcon { place_id, universe_id, index, place_name }),
            )
        },
        (MiscStage::FetchingIcon { place_id, index, place_name, .. }, Reply::Bytes(icon_bytes)) =>
            ending(BackendEvent::PlaceResolved { index, place_name, place_id, icon_bytes }),
        (MiscStage::Browsing { .. }, Reply::Unit(r)) => match r {
            Ok(()) => ending(BackendEvent::BrowseAsLaunched),
            Err(e) => failing(TaskError::Core(e)),
        },
        (MiscStage::ResolvingLink { server_name, .. }, Reply::Resolved(r)) => match r {
            Ok(link) => ending(
                BackendEvent::ShareLinkResolved {
                    server_name,
                    place_id: link.place_id,
                    universe_id: link.universe_id,
                    link_code: link.link_code,
                    access_code: link.access_code,
                },
            ),
            Err(e) => ending(BackendEvent::ShareLinkFailed(e.text)),
        },
        _ => failing(TaskError::OutOfStep),
    }
}

// ---------------------------------------------------------------------------
// Validating every cookie again
// ---------------------------------------------------------------------------

/// The accounts whose cookies are being validated again.
#[derive(Debug)]
pub struct Revalidation {
    pub accounts: Vec<(u64, Option<String>)>,
    pub session: StoreSession,
    pub use_credential_manager: bool,
    pub at: usize,
}

/// How far it has come.
#[derive(Debug)]
pub enum RevalidateStage {
    /// Open the current account's cookie. Answered by `Cookie`.
    OpeningCookie { run: Revalidation },
    /// Whose is it? Answered by `Identity`.
    Validating { run: Revalidation, cookie: String },
    /// Is the account moderated? Answered by `Moderation`.
    Moderating { run: Revalidation, cookie: String, username: String, display_name: String },
    /// Is the account banned, in public? Answered by `Banned`.
    CheckingBan { run: Revalidation, cookie: String },
    /// With what message? Answered by `Message`.
    Reasoning { run: Revalidation, cookie: String, is_banned: bool },
}

/// The first account from `at` on whose cookie can be opened.
pub open spec fn next_openable(
    accounts: Seq<(u64, Option<String>)>,
    use_credential_manager: bool,
    at: int,
) -> Option<int>
    decreases accounts.len() - at,
{
    if at < 0 || at >= accounts.len() {
        None
    } else if use_credential_manager || accounts[at].1 is Some {
        Some(at)
    } else {
        next_openable(accounts, use_credential_manager, at + 1)
    }
}

/// What [`next_openable`] says, in terms of indices: every account before it
/// has no cookie to open.
pub proof fn next_openable_facts(
    accounts: Seq<(u64, Option<String>)>,
    use_credential_manager: bool,
    at: int,
)
    requires
        0 <= at,
    ensures
        match next_openable(accounts, use_credential_manager, at) {
            Some(k) => at <= k < accounts.len() && (use_credential_manager || accounts[k].1 is Some)
                && forall|j: int| at <= j < k ==> (#[trigger] accounts[j]).1 is None,
            None => forall|j: int| at <= j < accounts.len() ==> (#[trigger] accounts[j]).1 is None,
        },
    decreases accounts.len() - at,
{
    if at < accounts.len() && !(use_credential_manager || accounts[at].1 is Some) {
        next_openable_facts(accounts, use_credential_manager, at + 1);
    }
}

/// On to the next account whose cookie can be opened, or the end.
pub open spec fn go_on(run: Revalidation, at: int) -> Then {
    match next_openable(run.accounts@, run.use_credential_manager, at) {
        Some(k) => Then::Ask(
            Stage::Revalidate(
                RevalidateStage::OpeningCookie { run: Revalidation { at: k as usize, ..run } },
            ),
        ),
        None => Then::Done(BackendEvent::StoreSaved),
    }
}

/// What can be relied on at a stage.
pub open spec fn revalidate_wf(stage: RevalidateStage) -> bool {
    run_of(stage).at < run_of(stage).accounts@.len()
}

/// The run that a stage belongs to.
pub open spec fn run_of(stage: RevalidateStage) -> Revalidation {
    match stage {
        RevalidateStage::OpeningCookie { run } => run,
        RevalidateStage::Validating { run, .. } => run,
        RevalidateStage::Moderating { run, .. } => run,
        RevalidateStage::CheckingBan { run, .. } => run,
        RevalidateStage::Reasoning { run, .. } => run,
    }
}

/// On to the next account whose cookie can be opened, or the end.
pub fn going_on(run: Revalidation, at: usize) -> (t: Then)
    requires
        at <= run.accounts@.len(),
    ensures
        t == go_on(run, at as int),
{
    let mut r: Revalidation = run;
    let mut k: usize = at;
    while k < r.accounts.len()
        invariant
            at <= k <= r.accounts@.len(),
            r == run,
            next_openable(r.accounts@, r.use_credential_manager, at as int) == next_openable(
                r.accounts@,
                r.use_credential_manager,
                k as int,
            ),
        decreases r.accounts@.len() - k,
    {
        if r.use_credential_manager || r.accounts[k].1.is_some() {
            r.at = k;
            return Then::Ask(Stage::Revalidate(RevalidateStage::OpeningCookie { run: r }));
        }
        k += 1;
    }
    Then::Done(BackendEvent::StoreSaved)
}

/// What a reply leads to. A cookie that cannot be opened is passed over; one
/// that is no longer valid is reported with what can be found out without it.
pub open spec fn revalidate_step(stage: RevalidateStage, reply: Reply, now: i64) -> Next {
    match (stage, reply) {
        (RevalidateStage::OpeningCookie { run }, Reply::Cookie(Ok(cookie))) => ask(
            Stage::Revalidate(RevalidateStage::Validating { run, cookie }),
        ),
        (RevalidateStage::OpeningCookie { run }, Reply::Cookie(Err(_))) => Next {
            tell: None,
            go: go_on(run, run.at + 1),
        },
        (RevalidateStage::Validating { run, cookie }, Reply::Identity(Ok(id))) => ask(
            Stage::Revalidate(
                RevalidateStage::Moderating {
                    run,
                    cookie,
                    username: id.username,
                    display_name: id.display_name,
                },
            ),
        ),
        (RevalidateStage::Validating { run, cookie }, Reply::Identity(Err(_))) => ask(
            Stage::Revalidate(RevalidateStage::CheckingBan { run, cookie }),
        ),
        (RevalidateStage::Moderating { run, username, display_name, .. }, Reply::Moderation(r)) => Next {
            tell: Some(
                BackendEvent::AccountRevalidated {
                    user_id: run.accounts@[run.at as int].0,
                    names: Some((username, display_name)),
                    moderation: match r {
                        Ok(info) => info,
                        Err(_) => None,
                    },
                },
            ),
            go: go_on(run, run.at + 1),
        },
        (RevalidateStage::CheckingBan { run, cookie }, Reply::Banned(r)) => ask(
            Stage::Revalidate(
                RevalidateStage::Reasoning {
                    run,
                    cookie,
                    is_banned: match r {
                        Ok(b) => b,
                        Err(_) => false,
                    },
                },
            ),
        ),
        (RevalidateStage::Reasoning { run, is_banned, .. }, Reply::Message(m)) => Next {
            tell: Some(
                BackendEvent::AccountRevalidated {
                    user_id: run.accounts@[run.at as int].0,
                    names: None,
                    moderation: found_out(is_banned, m, now),
                },
            ),
            go: go_on(run, run.at + 1),
        },
        _ => failed(TaskError::OutOfStep),
    }
}

/// The next step of validating every cookie again.
pub fn resume_revalidate(stage: RevalidateStage, reply: Reply, now: i64) -> (n: Next)
    requires
        revalidate_wf(stage),
    ensures
        n == revalidate_step(stage, reply, now),
{
    match stage {
        RevalidateStage::OpeningCookie { run } => match reply {
            Reply::Cookie(Ok(cookie)) => asking(
                Stage::Revalidate(RevalidateStage::Validating { run, cookie }),
            ),
            Reply::Cookie(Err(_)) => {
                let size: usize = run.accounts.len();
                assert(run.at < size);
                let at: usize = run.at + 1;
                Next { tell: None, go: going_on(run, at) }
            },
            _ => failing(TaskError::OutOfStep),
        },
        RevalidateStage::Validating { run, cookie } => match reply {
            Reply::Identity(Ok(id)) => asking(
                Stage::Revalidate(
                    RevalidateStage::Moderating {
                        run,
                        cookie,
                        username: id.username,
                        display_name: id.display_name,
                    },
                ),
            ),
            Reply::Identity(Err(_)) => asking(
                Stage::Revalidate(RevalidateStage::CheckingBan { run, cookie }),
            ),
            _ => failing(TaskError::OutOfStep),
        },
        RevalidateStage::Moderating { run, username, display_name, .. } => match reply {
            Reply::Moderation(r) => {
                let moderation = match r {
                    Ok(info) => info,
                    Err(_) => None,
                };
                let user_id: u64 = run.accounts[run.at].0;
                let size: usize = run.accounts.len();
                assert(run.at < size);
                let at: usize = run.at + 1;
                Next {
                    tell: Some(
                        BackendEvent::AccountRevalidated {
                            user_id,
                            names: Some((username, display_name)),
                            moderation,
                        },
                    ),
                    go: going_on(run, at),
                }
            },
            _ => failing(TaskError::OutOfStep),
        },
        RevalidateStage::CheckingBan { run, cookie } => match reply {
            Reply::Banned(r) => {
                let is_banned: bool = match r {
                    Ok(b) => b,
                    Err(_) => false,
                };
                asking(Stage::Revalidate(RevalidateStage::Reasoning { run, cookie, is_banned }))
            },
            _ => failing(TaskError::OutOfStep),
        },
        RevalidateStage::Reasoning { run, is_banned, .. } => match reply {
            Reply::Message(m) => {
                let moderation = finding_out(is_banned, m, now);
                let user_id: u64 = run.accounts[run.at].0;
                let size: usize = run.accounts.len();
                assert(run.at < size);
                let at: usize = run.at + 1;
                Next {
                    tell: Some(
                        BackendEvent::AccountRevalidated { user_id, names: None, moderation },
                    ),
                    go: going_on(run, at),
                }
            },
            _ => failing(TaskError::OutOfStep),
        },
    }
}

} // verus!
