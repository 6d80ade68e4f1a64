//! What the small commands come to, over all their steps.

use vstd::prelude::*;

use super::misc::{misc_begun, misc_opened, MiscGoal, MiscStage, ARRANGE_DELAY_SECS};
use super::runs::Run;
use super::{CookieUse, ErrorKind, Reply, Stage, TaskError, Then};
use crate::bridge::{BackendCommand, BackendEvent, Credentials};
use crate::models::{AccountStore, StoreSession};

verus! {

/// Whether step `k` asks the question of this stage and tells nothing.
pub open spec fn just_asks(run: Run, k: int, stage: MiscStage) -> bool {
    run.asks(k, Stage::Misc(stage)) && run.steps[k].tell is None
}

/// Whether step `k` ends the command with this event, and tells nothing else.
pub open spec fn ends_with(run: Run, k: int, event: BackendEvent) -> bool {
    run.steps[k].go == Then::Done(event) && run.steps[k].tell is None
}

/// Whether step `k` fails the command.
pub open spec fn fails_with(run: Run, k: int, error: TaskError) -> bool {
    run.steps[k].go == Then::Failed(error) && run.steps[k].tell is None
}

/// How a command that opens a cookie begins: it fails where there is none to
/// open, with what it was wanted for, and otherwise asks for the one of its own
/// credentials. It fails where that cannot be opened.
pub open spec fn opens_first(
    run: Run,
    credentials: Credentials,
    goal: MiscGoal,
    used_for: CookieUse,
) -> bool {
    &&& if !credentials.use_credential_manager && credentials.encrypted_cookie is None {
        fails_with(run, 0, TaskError::NoCookie(used_for))
    } else {
        just_asks(run, 0, MiscStage::OpeningCookie { credentials, goal })
    }
    &&& run.steps.len() > 1 ==> match run.reply(0) {
        Reply::Cookie(Ok(_)) => true,
        Reply::Cookie(Err(e)) => fails_with(run, 1, TaskError::Core(e)),
        _ => fails_with(run, 1, TaskError::OutOfStep),
    }
}

proof fn a_cookie_is_opened_first(
    run: Run,
    cmd: BackendCommand,
    credentials: Credentials,
    goal: MiscGoal,
)
    requires
        run.of(cmd),
        run.steps[0] == misc_begun(credentials, goal),
    ensures
        opens_first(run, credentials, goal, goal.used_for()),
        run.steps.len() > 1 ==> match run.reply(0) {
            Reply::Cookie(Ok(cookie)) => run.steps[1] == misc_opened(
                credentials.user_id,
                cookie,
                goal,
            ),
            _ => run.steps[1].go is Failed,
        },
{
    if run.steps.len() > 1 {
        assert(run.moves(0));
    }
}

// ---------------------------------------------------------------------------
// Refreshing
// ---------------------------------------------------------------------------

/// What was answered about presence ends a refresh, and a failure fails it.
pub open spec fn ends_with_presences(run: Run, k: int) -> bool {
    match run.reply(k - 1) {
        Reply::Presences(Ok(presences)) => ends_with(
            run,
            k,
            BackendEvent::PresencesUpdated(presences),
        ),
        Reply::Presences(Err(e)) => fails_with(run, k, TaskError::Core(e)),
        _ => fails_with(run, k, TaskError::OutOfStep),
    }
}

/// A refresh of presence asks about the accounts of the command with the cookie
/// that was opened, and tells what was answered.
pub proof fn presence_is_told_as_answered(
    run: Run,
    user_ids: Vec<u64>,
    credentials: Credentials,
    k: int,
)
    requires
        run.of(BackendCommand::RefreshPresenceOnly { user_ids, credentials }),
        run.has(k),
    ensures
        opens_first(run, credentials, MiscGoal::Presence { user_ids }, CookieUse::Refresh),
        k == 1 ==> (run.reply(0) matches Reply::Cookie(Ok(cookie)) ==> just_asks(
            run,
            1,
            MiscStage::FetchingPresences { user_ids, cookie },
        )),
        k == 2 ==> ends_with_presences(run, 2),
        k <= 2,
{
    let cmd = BackendCommand::RefreshPresenceOnly { user_ids, credentials };
    a_cookie_is_opened_first(run, cmd, credentials, MiscGoal::Presence { user_ids });
    if k > 1 {
        assert(run.moves(1));
    }
    if k > 2 {
        assert(run.moves(2));
    }
}

/// A refresh asks for the avatars of the accounts of the command, tells where
/// they are and what they look like, and then asks about presence. Where the
/// avatars cannot be had, presence is asked for all the same.
pub proof fn a_refresh_tells_avatars_and_presence(
    run: Run,
    user_ids: Vec<u64>,
    credentials: Credentials,
    k: int,
)
    requires
        run.of(BackendCommand::RefreshAll { user_ids, credentials }),
        run.has(k),
    ensures
        opens_first(run, credentials, MiscGoal::RefreshAll { user_ids }, CookieUse::Refresh),
        k == 1 ==> (run.reply(0) matches Reply::Cookie(Ok(cookie)) ==> just_asks(
            run,
            1,
            MiscStage::FindingAvatars { user_ids, cookie },
        )),
        k >= 2 ==> (run.reply(0) matches Reply::Cookie(Ok(cookie)) && match run.reply(1) {
            Reply::Avatars(Ok(avatars)) => {
                &&& run.steps[2].tell matches Some(BackendEvent::AvatarsUpdated(told)) && told@
                    == avatars@
                &&& run.asks(
                    2,
                    Stage::Misc(MiscStage::FetchingAvatars { user_ids, cookie, avatars }),
                )
            },
            Reply::Avatars(Err(_)) => just_asks(
                run,
                2,
                MiscStage::FetchingPresences { user_ids, cookie },
            ),
            _ => fails_with(run, 2, TaskError::OutOfStep),
        }),
        k >= 3 && (run.reply(1) matches Reply::Avatars(Err(_))) ==> k == 3 && ends_with_presences(
            run,
            3,
        ),
        k >= 3 && (run.reply(1) matches Reply::Avatars(Ok(_))) ==> match run.reply(2) {
            Reply::Images(images) => {
                &&& run.steps[3].tell == if images@.len() > 0 {
                    Some(BackendEvent::AvatarImagesReady(images))
                } else {
                    None
                }
                &&& run.reply(0) matches Reply::Cookie(Ok(cookie)) && run.asks(
                    3,
                    Stage::Misc(MiscStage::FetchingPresences { user_ids, cookie }),
                )
            },
            _ => fails_with(run, 3, TaskError::OutOfStep),
        },
        k >= 4 ==> k == 4 && ends_with_presences(run, 4),
{
    let cmd = BackendCommand::RefreshAll { user_ids, credentials };
    a_cookie_is_opened_first(run, cmd, credentials, MiscGoal::RefreshAll { user_ids });
    if k > 1 {
        assert(run.moves(1));
    }
    if k > 2 {
        assert(run.moves(2));
    }
    if k > 3 {
        assert(run.moves(3));
    }
    if k > 4 {
        assert(run.moves(4));
    }
}

// ---------------------------------------------------------------------------
// Browsing and links
// ---------------------------------------------------------------------------

/// A browser is opened as the account of the command, with its cookie and under
/// the label of the command.
pub proof fn a_browser_is_opened_as_asked(run: Run, credentials: Credentials, label: String, k: int)
    requires
        run.of(BackendCommand::BrowseAsAccount { credentials, label }),
        run.has(k),
    ensures
        opens_first(run, credentials, MiscGoal::Browse { label }, CookieUse::Account),
        k == 1 ==> (run.reply(0) matches Reply::Cookie(Ok(cookie)) ==> just_asks(
            run,
            1,
            MiscStage::Browsing { user_id: credentials.user_id, cookie, label },
        )),
        k >= 2 ==> k == 2 && match run.reply(1) {
            Reply::Unit(Ok(_)) => ends_with(run, 2, BackendEvent::BrowseAsLaunched),
            Reply::Unit(Err(e)) => fails_with(run, 2, TaskError::Core(e)),
            _ => fails_with(run, 2, TaskError::OutOfStep),
        },
{
    let cmd = BackendCommand::BrowseAsAccount { credentials, label };
    a_cookie_is_opened_first(run, cmd, credentials, MiscGoal::Browse { label });
    if k > 1 {
        assert(run.moves(1));
    }
    if k > 2 {
        assert(run.moves(2));
    }
}

/// A share link is looked up under the code of the command and told under its
/// name, with the place and the codes that were answered; where it cannot be
/// looked up, the reason is told.
pub proof fn a_share_link_is_told_as_answered(
    run: Run,
    share_code: String,
    server_name: String,
    credentials: Credentials,
    k: int,
)
    requires
        run.of(BackendCommand::ResolveShareLink { share_code, server_name, credentials }),
        run.has(k),
    ensures
        opens_first(
            run,
            credentials,
            MiscGoal::ShareLink { share_code, server_name },
            CookieUse::ShareLink,
        ),
        k == 1 ==> (run.reply(0) matches Reply::Cookie(Ok(cookie)) ==> just_asks(
            run,
            1,
            MiscStage::ResolvingLink { cookie, share_code, server_name },
        )),
        k >= 2 ==> k == 2 && match run.reply(1) {
            Reply::Resolved(Ok(link)) => ends_with(
                run,
                2,
                BackendEvent::ShareLinkResolved {
                    server_name,
                    place_id: link.place_id,
                    universe_id: link.universe_id,
                    link_code: link.link_code,
                    access_code: link.access_code,
                },
            ),
            Reply::Resolved(Err(e)) => ends_with(run, 2, BackendEvent::ShareLinkFailed(e.text)),
            _ => fails_with(run, 2, TaskError::OutOfStep),
        },
{
    let cmd = BackendCommand::ResolveShareLink { share_code, server_name, credentials };
    let goal = MiscGoal::ShareLink { share_code, server_name };
    a_cookie_is_opened_first(run, cmd, credentials, goal);
    if k > 1 {
        assert(run.moves(1));
    }
    if k > 2 {
        assert(run.moves(2));
    }
}

/// A place is told at the index of the command, by the name and with the icon
/// that were answered for its universe, and with neither where the universe is
/// not known.
pub proof fn a_place_is_told_as_answered(
    run: Run,
    place_id: u64,
    universe_id: Option<u64>,
    index: usize,
    k: int,
)
    requires
        run.of(BackendCommand::ResolvePlace { place_id, universe_id, index }),
        run.has(k),
    ensures
        match universe_id {
            None => k == 0 && ends_with(
                run,
                0,
                BackendEvent::PlaceResolved { index, place_name: None, place_id, icon_bytes: None },
            ),
            Some(universe) => {
                &&& just_asks(
                    run,
                    0,
                    MiscStage::NamingPlace { place_id, universe_id: universe, index },
                )
                &&& run.steps[k].go matches Then::Done(event) ==> (
                event matches BackendEvent::PlaceResolved {
                    index: at,
                    place_name,
                    place_id: place,
                    icon_bytes,
                } && {
                    &&& k == 2
                    &&& at == index
                    &&& place == place_id
                    &&& run.reply(1) == Reply::Bytes(icon_bytes)
                    &&& match run.reply(0) {
                        Reply::Text(Ok(name)) => place_name == Some(name),
                        _ => place_name is None,
                    }
                })
                &&& k == 1 ==> (run.reply(0) is Text <==> run.steps[1].go is Ask)
                &&& k == 1 && run.steps[1].go is Ask ==> (run.steps[1].go matches Then::Ask(
                    Stage::Misc(
                        MiscStage::FetchingIcon { place_id: p, universe_id: u, index: at, .. },
                    ),
                ) && p == place_id && u == universe && at == index)
                &&& k == 2 ==> (run.reply(1) is Bytes <==> run.steps[2].go is Done)
                &&& k <= 2
                &&& run.steps[k].tell is None
            },
        },
{
    if k > 0 {
        assert(run.moves(0));
    }
    if k > 1 {
        assert(run.moves(1));
    }
    if k > 2 {
        assert(run.moves(2));
    }
}

// ---------------------------------------------------------------------------
// The store
// ---------------------------------------------------------------------------

/// What is written is the store of the command, to its path and under its key,
/// and it counts as saved only once that worked.
pub proof fn the_store_is_saved_as_it_was_sent(
    run: Run,
    store: AccountStore,
    path: String,
    session: StoreSession,
    k: int,
)
    requires
        run.of(BackendCommand::SaveStore { store, path, session }),
        run.has(k),
    ensures
        just_asks(run, 0, MiscStage::Saving { store, path, session }),
        k > 0 ==> k == 1 && match run.reply(0) {
            Reply::Unit(Ok(_)) => ends_with(run, 1, BackendEvent::StoreSaved),
            Reply::Unit(Err(e)) => fails_with(run, 1, TaskError::Core(e)),
            _ => fails_with(run, 1, TaskError::OutOfStep),
        },
{
    if k > 0 {
        assert(run.moves(0));
    }
    if k > 1 {
        assert(run.moves(1));
    }
}

/// A store is opened from the path of the command, with this device, and what is
/// told is the store and the key that were answered. A key that this device has
/// lost is told as such.
pub proof fn the_store_is_opened_with_this_device(run: Run, path: String, k: int)
    requires
        run.of(BackendCommand::UnlockWithDevice { path }),
        run.has(k),
    ensures
        just_asks(run, 0, MiscStage::OpeningWithDevice { path }),
        k > 0 ==> k == 1 && match run.reply(0) {
            Reply::Opened(Ok((store, session))) => ends_with(
                run,
                1,
                BackendEvent::StoreUnlocked { store: Box::new(store), session, legacy: false },
            ),
            Reply::Opened(Err(e)) => if e.kind == ErrorKind::DeviceKeyMissing {
                ends_with(run, 1, BackendEvent::DeviceKeyMissing)
            } else {
                fails_with(run, 1, TaskError::Core(e))
            },
            _ => fails_with(run, 1, TaskError::OutOfStep),
        },
{
    if k > 0 {
        assert(run.moves(0));
    }
    if k > 1 {
        assert(run.moves(1));
    }
}

/// A store is opened from the path of the command, with its password, and what
/// is told is the store and the key that were answered, and whether the store is
/// of the old format.
pub proof fn the_store_is_opened_with_the_password(
    run: Run,
    path: String,
    password: String,
    k: int,
)
    requires
        run.of(BackendCommand::UnlockWithPassword { path, password }),
        run.has(k),
    ensures
        just_asks(run, 0, MiscStage::OpeningWithPassword { path, password }),
        k > 0 ==> k == 1 && match run.reply(0) {
            Reply::Opened(Ok((store, session))) => ends_with(
                run,
                1,
                BackendEvent::StoreUnlocked {
                    store: Box::new(store),
                    session,
                    legacy: session.legacy,
                },
            ),
            Reply::Opened(Err(e)) => fails_with(run, 1, TaskError::Core(e)),
            _ => fails_with(run, 1, TaskError::OutOfStep),
        },
{
    if k > 0 {
        assert(run.moves(0));
    }
    if k > 1 {
        assert(run.moves(1));
    }
}

/// A store that is locked anew is written to its own path under the new key
/// before it is told as locked anew, and what is told is exactly what was
/// written: with the key alone exchanged it is the store of the command, and a
/// store of the old format is the one that was encrypted anew. Where a step
/// fails, nothing is told as locked anew.
pub proof fn what_is_locked_anew_is_what_was_written(
    run: Run,
    store: AccountStore,
    path: String,
    session: StoreSession,
    new_password: Option<String>,
    upgrade_legacy: bool,
    k: int,
)
    requires
        run.of(
            BackendCommand::RekeyStore { store, path, session, new_password, upgrade_legacy },
        ),
        run.has(k),
    ensures
        upgrade_legacy ==> just_asks(
            run,
            0,
            MiscStage::Upgrading { store, path, session, new_password },
        ),
        !upgrade_legacy ==> just_asks(
            run,
            0,
            MiscStage::Rewrapping { store, path, session, new_password },
        ),
        k >= 1 ==> match (upgrade_legacy, run.reply(0)) {
            (true, Reply::Opened(Ok((renewed, key)))) => just_asks(
                run,
                1,
                MiscStage::SavingRekeyed { store: renewed, path, session: key },
            ),
            (false, Reply::Session(Ok(key))) => just_asks(
                run,
                1,
                MiscStage::SavingRekeyed { store, path, session: key },
            ),
            (true, Reply::Opened(Err(e))) => fails_with(run, 1, TaskError::Core(e)),
            (false, Reply::Session(Err(e))) => fails_with(run, 1, TaskError::Core(e)),
            _ => fails_with(run, 1, TaskError::OutOfStep),
        },
        k >= 2 ==> k == 2 && match run.reply(1) {
            Reply::Unit(Ok(_)) => run.steps[1].go matches Then::Ask(
                Stage::Misc(MiscStage::SavingRekeyed { store: written, session: key, .. }),
            ) && ends_with(
                run,
                2,
                BackendEvent::StoreRekeyed { store: Box::new(written), session: key },
            ),
            Reply::Unit(Err(e)) => fails_with(run, 2, TaskError::Core(e)),
            _ => fails_with(run, 2, TaskError::OutOfStep),
        },
{
    if k > 0 {
        assert(run.moves(0));
    }
    if k > 1 {
        assert(run.moves(1));
    }
    if k > 2 {
        assert(run.moves(2));
    }
}

// ---------------------------------------------------------------------------
// Clients, windows and versions
// ---------------------------------------------------------------------------

/// The account of the command is removed, and no other.
pub proof fn the_account_is_removed(run: Run, user_id: u64, k: int)
    requires
        run.of(BackendCommand::RemoveAccount { user_id }),
        run.has(k),
    ensures
        just_asks(run, 0, MiscStage::Removing { user_id }),
        k > 0 ==> k == 1 && if run.reply(0) is Go {
            ends_with(run, 1, BackendEvent::AccountRemoved { user_id })
        } else {
            fails_with(run, 1, TaskError::OutOfStep)
        },
{
    if k > 0 {
        assert(run.moves(0));
    }
    if k > 1 {
        assert(run.moves(1));
    }
}

/// How many clients were killed is told as it was answered.
pub proof fn the_killed_are_counted(run: Run, k: int)
    requires
        run.of(BackendCommand::KillAll),
        run.has(k),
    ensures
        just_asks(run, 0, MiscStage::Killing),
        k > 0 ==> k == 1 && match run.reply(0) {
            Reply::Killed(Ok(count)) => ends_with(run, 1, BackendEvent::Killed(count)),
            Reply::Killed(Err(e)) => fails_with(run, 1, TaskError::Core(e)),
            _ => fails_with(run, 1, TaskError::OutOfStep),
        },
{
    if k > 0 {
        assert(run.moves(0));
    }
    if k > 1 {
        assert(run.moves(1));
    }
}

/// Running clients are told as they were found, and their number even where
/// none could be matched.
pub proof fn clients_are_told_as_found(run: Run, k: int)
    requires
        run.of(BackendCommand::SweepInstances),
        run.has(k),
    ensures
        just_asks(run, 0, MiscStage::Sweeping),
        k > 0 ==> k == 1 && match run.reply(0) {
            Reply::Swept { instances, running_count } => run.steps[1].tell is None && (
            run.steps[1].go matches Then::Done(
                BackendEvent::InstancesUpdated { instances: told, running_count: count },
            ) && count == running_count && match instances {
                Some(found) => told@ == found@,
                None => told@.len() == 0,
            }),
            _ => fails_with(run, 1, TaskError::OutOfStep),
        },
{
    if k > 0 {
        assert(run.moves(0));
    }
    if k > 1 {
        assert(run.moves(1));
    }
}

/// Windows are given time to appear before they are arranged.
pub proof fn windows_are_arranged_after_a_wait(run: Run, k: int)
    requires
        run.of(BackendCommand::ArrangeWindows),
        run.has(k),
    ensures
        just_asks(run, 0, MiscStage::BeforeArranging { secs: ARRANGE_DELAY_SECS }),
        ARRANGE_DELAY_SECS > 0,
        k == 1 ==> if run.reply(0) is Go {
            just_asks(run, 1, MiscStage::Arranging)
        } else {
            fails_with(run, 1, TaskError::OutOfStep)
        },
        k >= 2 ==> k == 2 && if run.reply(1) is Go {
            ends_with(run, 2, BackendEvent::WindowsArranged)
        } else {
            fails_with(run, 2, TaskError::OutOfStep)
        },
{
    if k > 0 {
        assert(run.moves(0));
    }
    if k > 1 {
        assert(run.moves(1));
    }
    if k > 2 {
        assert(run.moves(2));
    }
}

/// A newer version is told as it was answered; a check that finds none or fails
/// is not worth a word.
pub proof fn a_newer_version_is_told(run: Run, current_version: String, k: int)
    requires
        run.of(BackendCommand::CheckForUpdates { current_version }),
        run.has(k),
    ensures
        just_asks(run, 0, MiscStage::CheckingForUpdates { current_version }),
        k > 0 ==> k == 1 && match run.reply(0) {
            Reply::Update(Ok(Some((version, url)))) => ends_with(
                run,
                1,
                BackendEvent::UpdateAvailable { version, url },
            ),
            Reply::Update(_) => ends_with(run, 1, BackendEvent::StoreSaved),
            _ => fails_with(run, 1, TaskError::OutOfStep),
        },
{
    if k > 0 {
        assert(run.moves(0));
    }
    if k > 1 {
        assert(run.moves(1));
    }
}

} // verus!
