//! How the backend carries out a command.
//!
//! A command alternates work on the outside (network, files, processes, the
//! operating system's key store) with decisions. The decisions stand here, as
//! a machine: [`begin`] takes a command, [`resume`] takes the stage that was
//! reached and the reply to its question. Either gives back at most one event
//! to tell the window, and either the next stage, whose question the program
//! asks of the outside, or the end of the command.

use vstd::prelude::*;

use crate::assets::{ModerationStatus, OperationOutcome};
use crate::bridge::{
    BackendCommand, BackendEvent, CreationPage, Credentials, GroupTarget, UniverseTarget,
};
use crate::models::{AccountStore, ModerationInfo, Presence, StoreSession, TrackedInstance};

pub mod add;
pub mod add_laws;
pub mod asset_laws;
pub mod assets;
pub mod launch;
pub mod launch_laws;
pub mod misc;
pub mod misc_laws;
pub mod revalidate_laws;
pub mod runs;
pub mod upload;
pub mod upload_laws;

use add::AddStage;
use assets::AssetStage;
use launch::{BulkStage, LaunchStage};
use misc::{MiscStage, RevalidateStage};
use upload::UploadStage;

verus! {

/// What sort of failure came from the outside.
#[derive(Clone, Copy, Debug, PartialEq, Eq, Structural)]
pub enum ErrorKind {
    /// Roblox answered with an error status.
    RobloxApi {
        /// Whether the status is one that passes by itself.
        retryable: bool,
    },
    RateLimited,
    Http,
    CookieRejected,
    AuthFailed,
    DeviceKeyMissing,
    Other,
}

/// A failure from the outside, with its text.
#[derive(Debug)]
pub struct CoreError {
    pub kind: ErrorKind,
    pub text: String,
}

/// What a missing cookie was wanted for.
#[derive(Clone, Copy, Debug, PartialEq, Eq, Structural)]
pub enum CookieUse {
    Account,
    Refresh,
    ShareLink,
    FirstOfBatch,
}

/// Why a command failed.
#[derive(Debug)]
pub enum TaskError {
    Core(CoreError),
    /// No cookie is stored.
    NoCookie(CookieUse),
    /// A batch launch without accounts.
    NoAccounts,
    /// No Roblox user has this name.
    NoSuchUser(String),
    /// Roblox does not take files of this sort.
    UnsupportedFile {
        /// Whether a bad request is refused with a status that passes by itself.
        retryable: bool,
    },
    /// The reply does not answer the stage's question.
    OutOfStep,
}

impl TaskError {
    /// Whether an upload that failed this way is worth another attempt.
    ///
    /// A rejected cookie and a failed authentication look final and usually
    /// are not: Roblox refuses good cookies under load. A file that cannot be
    /// read or a cookie that cannot be decrypted will not mend itself.
    pub open spec fn passes_by_itself(self) -> bool {
        match self {
            TaskError::Core(e) => match e.kind {
                ErrorKind::RobloxApi { retryable } => retryable,
                ErrorKind::RateLimited => true,
                ErrorKind::Http => true,
                ErrorKind::CookieRejected => true,
                ErrorKind::AuthFailed => true,
                ErrorKind::DeviceKeyMissing => false,
                ErrorKind::Other => false,
            },
            TaskError::UnsupportedFile { retryable } => retryable,
            _ => false,
        }
    }

    /// Whether an upload that failed this way is worth another attempt.
    pub fn retryable(&self) -> (b: bool)
        ensures
            b == self.passes_by_itself(),
    {
        match self {
            TaskError::Core(e) => match e.kind {
                ErrorKind::RobloxApi { retryable } => retryable,
                ErrorKind::RateLimited => true,
                ErrorKind::Http => true,
                ErrorKind::CookieRejected => true,
                ErrorKind::AuthFailed => true,
                ErrorKind::DeviceKeyMissing => false,
                ErrorKind::Other => false,
            },
            TaskError::UnsupportedFile { retryable } => *retryable,
            _ => false,
        }
    }

    /// The error that the failure is reported as.
    pub open spec fn reported(self) -> ReportView {
        match self {
            TaskError::Core(e) => ReportView::Told(e.text@),
            TaskError::NoCookie(wanted) => ReportView::Crypto(
                match wanted {
                    CookieUse::Account => "no encrypted cookie stored for this account"@,
                    CookieUse::Refresh => "no encrypted cookie for refresh"@,
                    CookieUse::ShareLink => "no encrypted cookie for share link resolution"@,
                    CookieUse::FirstOfBatch => "no encrypted cookie for first account"@,
                },
            ),
            TaskError::NoAccounts => ReportView::Process("no accounts to launch"@),
            TaskError::NoSuchUser(name) => ReportView::AccountNotFound(name@),
            TaskError::UnsupportedFile { .. } => ReportView::RobloxApi {
                status: 400,
                message: "This file type cannot be uploaded to Roblox"@,
            },
            TaskError::OutOfStep => ReportView::Process(
                "the reply does not answer the question"@,
            ),
        }
    }

    /// The error that the failure is reported as.
    pub fn report(&self) -> (r: Report)
        ensures
            r@ == self.reported(),
    {
        match self {
            TaskError::Core(e) => Report::Told(e.text.clone()),
            TaskError::NoCookie(wanted) => {
                let text: &str = match wanted {
                    CookieUse::Account => "no encrypted cookie stored for this account",
                    CookieUse::Refresh => "no encrypted cookie for refresh",
                    CookieUse::ShareLink => "no encrypted cookie for share link resolution",
                    CookieUse::FirstOfBatch => "no encrypted cookie for first account",
                };
                Report::Crypto(text.to_owned())
            },
            TaskError::NoAccounts => Report::Process("no accounts to launch".to_owned()),
            TaskError::NoSuchUser(name) => Report::AccountNotFound(name.clone()),
            TaskError::UnsupportedFile { .. } => Report::RobloxApi {
                status: 400,
                message: "This file type cannot be uploaded to Roblox".to_owned(),
            },
            TaskError::OutOfStep => Report::Process(
                "the reply does not answer the question".to_owned(),
            ),
        }
    }
}

/// The error that a failed command is reported as. Its text is up to the core
/// crate; this is which of the crate's errors it is, and what that holds.
#[derive(Debug, PartialEq, Eq)]
pub enum Report {
    /// An error that came from there. This is its whole text.
    Told(String),
    AccountNotFound(String),
    Crypto(String),
    Process(String),
    RobloxApi { status: u16, message: String },
}

/// What a [`Report`] holds.
pub enum ReportView {
    Told(Seq<char>),
    AccountNotFound(Seq<char>),
    Crypto(Seq<char>),
    Process(Seq<char>),
    RobloxApi { status: u16, message: Seq<char> },
}

impl View for Report {
    type V = ReportView;

    open spec fn view(&self) -> ReportView {
        match self {
            Report::Told(s) => ReportView::Told(s@),
            Report::AccountNotFound(s) => ReportView::AccountNotFound(s@),
            Report::Crypto(s) => ReportView::Crypto(s@),
            Report::Process(s) => ReportView::Process(s@),
            Report::RobloxApi { status, message } => ReportView::RobloxApi {
                status: *status,
                message: message@,
            },
        }
    }
}

/// Who a cookie belongs to.
#[derive(Debug)]
pub struct Identity {
    pub user_id: u64,
    pub username: String,
    pub display_name: String,
    /// The tag that stands for the account while names are hidden.
    pub anon_tag: String,
}

/// What Roblox answered to an upload.
#[derive(Debug)]
pub struct Created {
    pub operation: Option<String>,
    pub outcome: OperationOutcome,
}

/// Whether Roblox takes a file, by its name.
#[derive(Clone, Copy, Debug, PartialEq, Eq, Structural)]
pub enum FileSort {
    Supported,
    Unsupported {
        /// Whether a bad request is refused with a status that passes by itself.
        retryable: bool,
    },
}

/// A file that was read.
#[derive(Debug)]
pub struct FileRead {
    pub bytes: Vec<u8>,
    pub sort: FileSort,
}

/// What came of a grant.
#[derive(Debug)]
pub struct GrantOutcome {
    pub granted: Vec<u64>,
    pub refused: usize,
}

/// A resolved share link.
#[derive(Debug)]
pub struct ShareLink {
    pub place_id: u64,
    pub universe_id: Option<u64>,
    pub link_code: String,
    pub access_code: String,
}

/// What the outside answered to a stage's question.
#[derive(Debug)]
pub enum Reply {
    /// Nothing was asked, or whatever came back does not matter.
    Go,
    Unit(Result<(), CoreError>),
    Text(Result<String, CoreError>),
    Cookie(Result<String, CoreError>),
    Identity(Result<Identity, CoreError>),
    Lookup(Result<Option<Identity>, CoreError>),
    /// A moderation message and when the enforcement ends.
    Message(Option<(String, Option<i64>)>),
    Moderation(Result<Option<ModerationInfo>, CoreError>),
    Banned(Result<bool, CoreError>),
    Avatars(Result<Vec<(u64, String)>, CoreError>),
    Images(Vec<(u64, Vec<u8>)>),
    Presences(Result<Vec<(u64, Presence)>, CoreError>),
    /// The token that a launch was recorded under.
    Noted(i64),
    /// The first public server of a place, where one is open.
    Server(Result<Option<String>, CoreError>),
    Opened(Result<(AccountStore, StoreSession), CoreError>),
    Session(Result<StoreSession, CoreError>),
    Killed(Result<usize, CoreError>),
    /// Running clients. `None` where the record of launches is unusable.
    Swept { instances: Option<Vec<TrackedInstance>>, running_count: usize },
    /// A newer release and where to get it.
    Update(Result<Option<(String, String)>, CoreError>),
    Bytes(Option<Vec<u8>>),
    Resolved(Result<ShareLink, CoreError>),
    File(Result<FileRead, CoreError>),
    Uploaded(Result<Created, CoreError>),
    Outcome(Result<OperationOutcome, CoreError>),
    Statuses(Result<Vec<(u64, ModerationStatus)>, CoreError>),
    Granted(Result<GrantOutcome, CoreError>),
    Universes(Result<Vec<UniverseTarget>, CoreError>),
    Universe(Result<u64, CoreError>),
    Groups(Result<Vec<GroupTarget>, CoreError>),
    Page(Result<CreationPage, CoreError>),
}

/// How far a command has come, and with it the question that is open.
#[derive(Debug)]
pub enum Stage {
    Add(AddStage),
    Launch(LaunchStage),
    Bulk(BulkStage),
    Upload(UploadStage),
    Asset(AssetStage),
    Revalidate(RevalidateStage),
    Misc(MiscStage),
}

/// What happens after a step.
#[derive(Debug)]
pub enum Then {
    /// Put the stage's question to the outside.
    Ask(Stage),
    /// The command is done, and this event is its result.
    Done(BackendEvent),
    Failed(TaskError),
    /// The upload of this row failed before anything was created.
    UploadFailed { row_id: String, error: TaskError, retryable: bool },
}

/// One step of a command.
#[derive(Debug)]
pub struct Next {
    /// An event to tell the window at once.
    pub tell: Option<BackendEvent>,
    pub go: Then,
}

/// A step that asks.
pub open spec fn ask(stage: Stage) -> Next {
    Next { tell: None, go: Then::Ask(stage) }
}

/// A step that ends the command.
pub open spec fn done(event: BackendEvent) -> Next {
    Next { tell: None, go: Then::Done(event) }
}

/// A step that fails the command.
pub open spec fn failed(error: TaskError) -> Next {
    Next { tell: None, go: Then::Failed(error) }
}

/// A step that asks.
pub(crate) fn asking(stage: Stage) -> (n: Next)
    ensures
        n == ask(stage),
{
    Next { tell: None, go: Then::Ask(stage) }
}

/// A step that ends the command.
pub(crate) fn ending(event: BackendEvent) -> (n: Next)
    ensures
        n == done(event),
{
    Next { tell: None, go: Then::Done(event) }
}

/// A step that fails the command.
pub(crate) fn failing(error: TaskError) -> (n: Next)
    ensures
        n == failed(error),
{
    Next { tell: None, go: Then::Failed(error) }
}

/// Whether there is a cookie to open: the credential manager may hold one, or
/// an encrypted one is at hand.
pub open spec fn has_cookie(credentials: Credentials) -> bool {
    credentials.use_credential_manager || credentials.encrypted_cookie is Some
}

/// Whether there is a cookie to open.
pub fn cookie_at_hand(credentials: &Credentials) -> (b: bool)
    ensures
        b == has_cookie(*credentials),
{
    credentials.use_credential_manager || credentials.encrypted_cookie.is_some()
}

/// What can be relied on at a stage.
pub open spec fn stage_wf(stage: Stage) -> bool {
    match stage {
        Stage::Bulk(s) => launch::bulk_wf(s),
        Stage::Asset(s) => assets::asset_wf(s),
        Stage::Revalidate(s) => misc::revalidate_wf(s),
        Stage::Upload(s) => upload::upload_wf(s),
        _ => true,
    }
}

/// What a command leads to first.
pub open spec fn begun(cmd: BackendCommand, n: Next) -> bool {
    match cmd {
        BackendCommand::AddAccount { cookie, session, use_credential_manager } => n == ask(
            Stage::Add(AddStage::Validating { cookie, session, use_credential_manager }),
        ),
        BackendCommand::AddAccountForced { cookie, username, session, use_credential_manager } => n
            == ask(
            Stage::Add(AddStage::LookingUp { cookie, username, session, use_credential_manager }),
        ),
        BackendCommand::RemoveAccount { user_id } => n == ask(
            Stage::Misc(MiscStage::Removing { user_id }),
        ),
        BackendCommand::LaunchGame { credentials, destination, options } => n
            == launch::launch_begun(credentials, destination, options),
        BackendCommand::SaveStore { store, path, session } => n == ask(
            Stage::Misc(MiscStage::Saving { store, path, session }),
        ),
        BackendCommand::UnlockWithDevice { path } => n == ask(
            Stage::Misc(MiscStage::OpeningWithDevice { path }),
        ),
        BackendCommand::UnlockWithPassword { path, password } => n == ask(
            Stage::Misc(MiscStage::OpeningWithPassword { path, password }),
        ),
        BackendCommand::RekeyStore { store, path, session, new_password, upgrade_legacy } => if upgrade_legacy {
            n == ask(Stage::Misc(MiscStage::Upgrading { store, path, session, new_password }))
        } else {
            n == ask(Stage::Misc(MiscStage::Rewrapping { store, path, session, new_password }))
        },
        BackendCommand::KillAll => n == ask(Stage::Misc(MiscStage::Killing)),
        BackendCommand::RefreshAll { user_ids, credentials } => n == misc::misc_begun(
            credentials,
            misc::MiscGoal::RefreshAll { user_ids },
        ),
        BackendCommand::RefreshPresenceOnly { user_ids, credentials } => n == misc::misc_begun(
            credentials,
            misc::MiscGoal::Presence { user_ids },
        ),
        BackendCommand::BulkLaunchEncrypted {
            accounts,
            session,
            use_credential_manager,
            destination,
            options,
            launch_delay_secs,
        } => n == launch::prepare_bulk(
            launch::Bulk {
                accounts,
                session,
                use_credential_manager,
                destination,
                options,
                launch_delay_secs,
                at: 0,
                launched: 0,
                failed: 0,
            },
            Some(launch::Preparation::EnableMultiInstance),
        ),
        BackendCommand::RevalidateAll { accounts, session, use_credential_manager } => n == (Next {
            tell: None,
            go: misc::go_on(
                misc::Revalidation { accounts, session, use_credential_manager, at: 0 },
                0,
            ),
        }),
        BackendCommand::SweepInstances => n == ask(Stage::Misc(MiscStage::Sweeping)),
        BackendCommand::ArrangeWindows => n == ask(
            Stage::Misc(MiscStage::BeforeArranging { secs: misc::ARRANGE_DELAY_SECS }),
        ),
        BackendCommand::CheckForUpdates { current_version } => n == ask(
            Stage::Misc(MiscStage::CheckingForUpdates { current_version }),
        ),
        // Without a universe nothing can be found out about a place.
        BackendCommand::ResolvePlace { place_id, universe_id, index } => match universe_id {
            Some(universe_id) => n == ask(
                Stage::Misc(MiscStage::NamingPlace { place_id, universe_id, index }),
            ),
            None => n == done(
                BackendEvent::PlaceResolved {
                    index,
                    place_name: None,
                    place_id,
                    icon_bytes: None,
                },
            ),
        },
        BackendCommand::ResolveShareLink { share_code, server_name, credentials } => n
            == misc::misc_begun(
            credentials,
            misc::MiscGoal::ShareLink { share_code, server_name },
        ),
        BackendCommand::BrowseAsAccount { credentials, label } => n == misc::misc_begun(
            credentials,
            misc::MiscGoal::Browse { label },
        ),
        BackendCommand::UploadAsset(job) => n == upload::upload_begun(job),
        BackendCommand::PollAssetOperations { credentials, operations } => n
            == assets::asset_begun(credentials, assets::AssetGoal::Poll(operations)),
        BackendCommand::PollAssetModeration { credentials, assets } => n == assets::asset_begun(
            credentials,
            assets::AssetGoal::Moderation(assets),
        ),
        BackendCommand::GrantAssetPermissions {
            credentials,
            universe_id,
            asset_ids,
            row_assets,
        } => n == assets::asset_begun(
            credentials,
            assets::AssetGoal::Grant { universe_id, asset_ids, row_assets },
        ),
        BackendCommand::FetchUniverseTargets { credentials, place_id } => n == assets::asset_begun(
            credentials,
            assets::AssetGoal::Universes { place_id },
        ),
        BackendCommand::FetchPublishGroups { credentials } => n == assets::asset_begun(
            credentials,
            assets::AssetGoal::Groups,
        ),
        BackendCommand::FetchCreations { credentials, creator, kind, cursor } => n
            == assets::asset_begun(
            credentials,
            assets::AssetGoal::Creations { creator, kind, cursor },
        ),
        BackendCommand::FetchAssetThumbnails { asset_ids } => n == ask(
            Stage::Asset(AssetStage::FetchingThumbnails { asset_ids }),
        ),
    }
}

/// Starts a command.
pub fn begin(cmd: BackendCommand) -> (n: Next)
    ensures
        begun(cmd, n),
        n.go matches Then::Ask(stage) ==> stage_wf(stage),
{
    match cmd {
        BackendCommand::AddAccount { cookie, session, use_credential_manager } => asking(
            Stage::Add(AddStage::Validating { cookie, session, use_credential_manager }),
        ),
        BackendCommand::AddAccountForced { cookie, username, session, use_credential_manager } =>
            asking(
            Stage::Add(AddStage::LookingUp { cookie, username, session, use_credential_manager }),
        ),
        BackendCommand::RemoveAccount { user_id } => asking(
            Stage::Misc(MiscStage::Removing { user_id }),
        ),
        BackendCommand::LaunchGame { credentials, destination, options } => launch::begin_launch(
            credentials,
            destination,
            options,
        ),
        BackendCommand::SaveStore { store, path, session } => asking(
            Stage::Misc(MiscStage::Saving { store, path, session }),
        ),
        BackendCommand::UnlockWithDevice { path } => asking(
            Stage::Misc(MiscStage::OpeningWithDevice { path }),
        ),
        BackendCommand::UnlockWithPassword { path, password } => asking(
            Stage::Misc(MiscStage::OpeningWithPassword { path, password }),
        ),
        BackendCommand::RekeyStore { store, path, session, new_password, upgrade_legacy } => {
            if upgrade_legacy {
                asking(Stage::Misc(MiscStage::Upgrading { store, path, session, new_password }))
            } else {
                asking(Stage::Misc(MiscStage::Rewrapping { store, path, session, new_password }))
            }
        },
        BackendCommand::KillAll => asking(Stage::Misc(MiscStage::Killing)),
        BackendCommand::RefreshAll { user_ids, credentials } => misc::begin_misc(
            credentials,
            misc::MiscGoal::RefreshAll { user_ids },
        ),
        BackendCommand::RefreshPresenceOnly { user_ids, credentials } => misc::begin_misc(
            credentials,
            misc::MiscGoal::Presence { user_ids },
        ),
        BackendCommand::BulkLaunchEncrypted {
            accounts,
            session,
            use_credential_manager,
            destination,
            options,
            launch_delay_secs,
        } => launch::begin_bulk(
            launch::Bulk {
                accounts,
                session,
                use_credential_manager,
                destination,
                options,
                launch_delay_secs,
                at: 0,
                launched: 0,
                failed: 0,
            },
        ),
        BackendCommand::RevalidateAll { accounts, session, use_credential_manager } => {
            let run = misc::Revalidation { accounts, session, use_credential_manager, at: 0 };
            proof {
                misc::next_openable_facts(run.accounts@, run.use_credential_manager, 0);
            }
            Next { tell: None, go: misc::going_on(run, 0) }
        },
        BackendCommand::SweepInstances => asking(Stage::Misc(MiscStage::Sweeping)),
        BackendCommand::ArrangeWindows => asking(
            Stage::Misc(MiscStage::BeforeArranging { secs: misc::ARRANGE_DELAY_SECS }),
        ),
        BackendCommand::CheckForUpdates { current_version } => asking(
            Stage::Misc(MiscStage::CheckingForUpdates { current_version }),
        ),
        BackendCommand::ResolvePlace { place_id, universe_id, index } => match universe_id {
            Some(universe_id) => asking(
                Stage::Misc(MiscStage::NamingPlace { place_id, universe_id, index }),
            ),
            None => ending(
                BackendEvent::PlaceResolved {
                    index,
                    place_name: None,
                    place_id,
                    icon_bytes: None,
                },
            ),
        },
        BackendCommand::ResolveShareLink { share_code, server_name, credentials } =>
            misc::begin_misc(credentials, misc::MiscGoal::ShareLink { share_code, server_name }),
        BackendCommand::BrowseAsAccount { credentials, label } => misc::begin_misc(
            credentials,
            misc::MiscGoal::Browse { label },
        ),
        BackendCommand::UploadAsset(job) => upload::begin_upload(job),
        BackendCommand::PollAssetOperations { credentials, operations } => assets::begin_asset(
            credentials,
            assets::AssetGoal::Poll(operations),
        ),
        BackendCommand::PollAssetModeration { credentials, assets } => assets::begin_asset(
            credentials,
            assets::AssetGoal::Moderation(assets),
        ),
        BackendCommand::GrantAssetPermissions {
            credentials,
            universe_id,
            asset_ids,
            row_assets,
        } => assets::begin_asset(
            credentials,
            assets::AssetGoal::Grant { universe_id, asset_ids, row_assets },
        ),
        BackendCommand::FetchUniverseTargets { credentials, place_id } => assets::begin_asset(
            credentials,
            assets::AssetGoal::Universes { place_id },
        ),
        BackendCommand::FetchPublishGroups { credentials } => assets::begin_asset(
            credentials,
            assets::AssetGoal::Groups,
        ),
        BackendCommand::FetchCreations { credentials, creator, kind, cursor } =>
            assets::begin_asset(
            credentials,
            assets::AssetGoal::Creations { creator, kind, cursor },
        ),
        BackendCommand::FetchAssetThumbnails { asset_ids } => asking(
            Stage::Asset(AssetStage::FetchingThumbnails { asset_ids }),
        ),
    }
}

/// What a reply to a stage's question leads to.
pub open spec fn follows(stage: Stage, reply: Reply, now: i64, n: Next) -> bool {
    match stage {
        Stage::Add(s) => add::add_follows(s, reply, now, n),
        Stage::Launch(s) => n == launch::launch_step(s, reply),
        Stage::Bulk(s) => n == launch::bulk_step(s, reply),
        Stage::Upload(s) => n == upload::upload_step(s, reply, now),
        Stage::Asset(s) => assets::asset_follows(s, reply, n),
        Stage::Revalidate(s) => n == misc::revalidate_step(s, reply, now),
        Stage::Misc(s) => misc::misc_follows(s, reply, n),
    }
}

/// Goes on with a command, once its open question is answered.
pub fn resume(stage: Stage, reply: Reply, now: i64) -> (n: Next)
    requires
        stage_wf(stage),
    ensures
        follows(stage, reply, now, n),
        n.go matches Then::Ask(next) ==> stage_wf(next),
{
    match stage {
        Stage::Add(s) => add::resume_add(s, reply, now),
        Stage::Launch(s) => launch::resume_launch(s, reply),
        Stage::Bulk(s) => {
            proof {
                launch::a_batch_keeps_count(s, reply);
            }
            launch::resume_bulk(s, reply)
        },
        Stage::Upload(s) => upload::resume_upload(s, reply, now),
        Stage::Asset(s) => assets::resume_asset(s, reply),
        Stage::Revalidate(s) => {
            proof {
                let run = misc::run_of(s);
                misc::next_openable_facts(
                    run.accounts@,
                    run.use_credential_manager,
                    run.at + 1,
                );
            }
            misc::resume_revalidate(s, reply, now)
        },
        Stage::Misc(s) => misc::resume_misc(s, reply),
    }
}

} // verus!
