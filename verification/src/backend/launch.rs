//! Launching one account, or several one after the other.

use vstd::prelude::*;

use super::{
    ask, asking, done, ending, failed, failing, has_cookie, CookieUse, Next, Reply, Stage,
    TaskError, Then,
};
use crate::bridge::{BackendEvent, Credentials, Destination, LaunchOptions};
use crate::models::StoreSession;

verus! {

/// Seconds that the tray processes need to go away after they were killed.
pub const TRAY_WINDOW_SECS: u64 = 3;

/// What has to be done to the machine before a launch, in this order.
#[derive(Clone, Copy, Debug, PartialEq, Eq, Structural)]
pub enum Preparation {
    /// Allow several clients at once. Answered by `Unit`.
    EnableMultiInstance,
    /// Kill Roblox processes in the tray. Answered by `Go`.
    KillTray,
    /// Clear the client's own cookies. Answered by `Go`.
    ClearCookies,
}

/// Whether the tray processes are killed before a launch.
pub open spec fn kills_tray(options: LaunchOptions) -> bool {
    options.kill_background || options.multi_instance
}

/// The first preparation that the options ask for, from `from` on.
pub open spec fn preparation_from(options: LaunchOptions, from: Option<Preparation>) -> Option<
    Preparation,
> {
    if from == Some(Preparation::EnableMultiInstance) && options.multi_instance {
        Some(Preparation::EnableMultiInstance)
    } else if (from == Some(Preparation::EnableMultiInstance) || from == Some(
        Preparation::KillTray,
    )) && kills_tray(options) {
        Some(Preparation::KillTray)
    } else if from is Some && options.privacy_mode {
        Some(Preparation::ClearCookies)
    } else {
        None
    }
}

/// The preparation that follows one in the order.
pub open spec fn following(p: Preparation) -> Option<Preparation> {
    match p {
        Preparation::EnableMultiInstance => Some(Preparation::KillTray),
        Preparation::KillTray => Some(Preparation::ClearCookies),
        Preparation::ClearCookies => None,
    }
}

fn prepare_from(options: LaunchOptions, from: Option<Preparation>) -> (r: Option<Preparation>)
    ensures
        r == preparation_from(options, from),
{
    match from {
        None => None,
        Some(p) => {
            if p == Preparation::EnableMultiInstance && options.multi_instance {
                Some(Preparation::EnableMultiInstance)
            } else if p != Preparation::ClearCookies && (options.kill_background
                || options.multi_instance) {
                Some(Preparation::KillTray)
            } else if options.privacy_mode {
                Some(Preparation::ClearCookies)
            } else {
                None
            }
        },
    }
}

fn after(p: Preparation) -> (r: Option<Preparation>)
    ensures
        r == following(p),
{
    match p {
        Preparation::EnableMultiInstance => Some(Preparation::KillTray),
        Preparation::KillTray => Some(Preparation::ClearCookies),
        Preparation::ClearCookies => None,
    }
}

/// Whether the reply means that the preparation was done.
pub open spec fn prepared(p: Preparation, reply: Reply) -> bool {
    match p {
        Preparation::EnableMultiInstance => reply matches Reply::Unit(Ok(())),
        _ => reply is Go,
    }
}

// ---------------------------------------------------------------------------
// One account
// ---------------------------------------------------------------------------

/// One launch.
#[derive(Debug)]
pub struct Launch {
    pub user_id: u64,
    pub cookie: String,
    pub destination: Destination,
    pub options: LaunchOptions,
}

/// How far a launch has come.
#[derive(Debug)]
pub enum LaunchStage {
    /// Open the cookie. Answered by `Cookie`.
    OpeningCookie { credentials: Credentials, destination: Destination, options: LaunchOptions },
    Preparing { launch: Launch, what: Preparation },
    /// Get a ticket for the cookie. Answered by `Text`.
    Ticketing { launch: Launch },
    /// Record the launch, so that the client can be told apart once it is
    /// there. Answered by `Noted`.
    Noting { launch: Launch, ticket: String },
    /// Start the client. Answered by `Unit`.
    Starting { launch: Launch, ticket: String, launchtime: i64 },
}

/// The first question of a launch.
pub open spec fn launch_begun(
    credentials: Credentials,
    destination: Destination,
    options: LaunchOptions,
) -> Next {
    if has_cookie(credentials) {
        ask(Stage::Launch(LaunchStage::OpeningCookie { credentials, destination, options }))
    } else {
        failed(TaskError::NoCookie(CookieUse::Account))
    }
}

/// The first question of a launch.
pub fn begin_launch(credentials: Credentials, destination: Destination, options: LaunchOptions) -> (n:
    Next)
    ensures
        n == launch_begun(credentials, destination, options),
{
    if super::cookie_at_hand(&credentials) {
        asking(Stage::Launch(LaunchStage::OpeningCookie { credentials, destination, options }))
    } else {
        failing(TaskError::NoCookie(CookieUse::Account))
    }
}

/// The next preparation, or the ticket where all are done.
pub open spec fn prepare(launch: Launch, from: Option<Preparation>) -> Next {
    match preparation_from(launch.options, from) {
        Some(what) => ask(Stage::Launch(LaunchStage::Preparing { launch, what })),
        None => ask(Stage::Launch(LaunchStage::Ticketing { launch })),
    }
}

fn preparing(launch: Launch, from: Option<Preparation>) -> (n: Next)
    ensures
        n == prepare(launch, from),
{
    match prepare_from(launch.options, from) {
        Some(what) => asking(Stage::Launch(LaunchStage::Preparing { launch, what })),
        None => asking(Stage::Launch(LaunchStage::Ticketing { launch })),
    }
}

/// What a reply to a stage of a launch leads to.
pub open spec fn launch_step(stage: LaunchStage, reply: Reply) -> Next {
    match (stage, reply) {
        (
            LaunchStage::OpeningCookie { credentials, destination, options },
            Reply::Cookie(Ok(cookie)),
        ) => prepare(
            Launch { user_id: credentials.user_id, cookie, destination, options },
            Some(Preparation::EnableMultiInstance),
        ),
        (LaunchStage::OpeningCookie { .. }, Reply::Cookie(Err(e))) => failed(TaskError::Core(e)),
        (LaunchStage::Preparing { launch, what }, reply) => if prepared(what, reply) {
            prepare(launch, following(what))
        } else {
            match reply {
                Reply::Unit(Err(e)) => failed(TaskError::Core(e)),
                _ => failed(TaskError::OutOfStep),
            }
        },
        (LaunchStage::Ticketing { launch }, Reply::Text(Ok(ticket))) => ask(
            Stage::Launch(LaunchStage::Noting { launch, ticket }),
        ),
        (LaunchStage::Ticketing { .. }, Reply::Text(Err(e))) => failed(TaskError::Core(e)),
        (LaunchStage::Noting { launch, ticket }, Reply::Noted(launchtime)) => ask(
            Stage::Launch(LaunchStage::Starting { launch, ticket, launchtime }),
        ),
        (LaunchStage::Starting { .. }, Reply::Unit(Ok(()))) => done(BackendEvent::GameLaunched),
        (LaunchStage::Starting { .. }, Reply::Unit(Err(e))) => failed(TaskError::Core(e)),
        _ => failed(TaskError::OutOfStep),
    }
}

/// The next step of a launch.
pub fn resume_launch(stage: LaunchStage, reply: Reply) -> (n: Next)
    ensures
        n == launch_step(stage, reply),
        n.go matches Then::Ask(next) ==> super::stage_wf(next),
{
    match stage {
        LaunchStage::OpeningCookie { credentials, destination, options } => match reply {
            Reply::Cookie(Ok(cookie)) => preparing(
                Launch { user_id: credentials.user_id, cookie, destination, options },
                Some(Preparation::EnableMultiInstance),
            ),
            Reply::Cookie(Err(e)) => failing(TaskError::Core(e)),
            _ => failing(TaskError::OutOfStep),
        },
        LaunchStage::Preparing { launch, what } => match reply {
            Reply::Unit(Ok(())) => {
                if what == Preparation::EnableMultiInstance {
                    preparing(launch, after(what))
                } else {
                    failing(TaskError::OutOfStep)
                }
            },
            Reply::Unit(Err(e)) => failing(TaskError::Core(e)),
            Reply::Go => {
                if what == Preparation::EnableMultiInstance {
                    failing(TaskError::OutOfStep)
                } else {
                    preparing(launch, after(what))
                }
            },
            _ => failing(TaskError::OutOfStep),
        },
        LaunchStage::Ticketing { launch } => match reply {
            Reply::Text(Ok(ticket)) => asking(Stage::Launch(LaunchStage::Noting { launch, ticket })),
            Reply::Text(Err(e)) => failing(TaskError::Core(e)),
            _ => failing(TaskError::OutOfStep),
        },
        LaunchStage::Noting { launch, ticket } => match reply {
            Reply::Noted(launchtime) => asking(
                Stage::Launch(LaunchStage::Starting { launch, ticket, launchtime }),
            ),
            _ => failing(TaskError::OutOfStep),
        },
        LaunchStage::Starting { .. } => match reply {
            Reply::Unit(Ok(())) => ending(BackendEvent::GameLaunched),
            Reply::Unit(Err(e)) => failing(TaskError::Core(e)),
            _ => failing(TaskError::OutOfStep),
        },
    }
}

/// A client is only started once the launch is on record: the stage that
/// starts it is reached from the one that records it alone, with the token
/// that the record gave.
pub proof fn a_client_starts_only_after_its_launch_is_noted(
    stage: LaunchStage,
    reply: Reply,
    launch: Launch,
    ticket: String,
    launchtime: i64,
)
    requires
        launch_step(stage, reply) == ask(
            Stage::Launch(LaunchStage::Starting { launch, ticket, launchtime }),
        ),
    ensures
        stage == (LaunchStage::Noting { launch, ticket }),
        reply == Reply::Noted(launchtime),
{
}

// ---------------------------------------------------------------------------
// Several accounts
// ---------------------------------------------------------------------------

/// A launch of several accounts into one game.
#[derive(Debug)]
pub struct Bulk {
    pub accounts: Vec<(u64, Option<String>)>,
    pub session: StoreSession,
    pub use_credential_manager: bool,
    pub destination: Destination,
    pub options: LaunchOptions,
    pub launch_delay_secs: u32,
    /// The account that is being launched.
    pub at: usize,
    pub launched: usize,
    pub failed: usize,
}

impl Bulk {
    /// Every account before the current one was counted, once.
    pub open spec fn wf(self) -> bool {
        &&& self.at <= self.accounts@.len()
        &&& self.launched + self.failed == self.at
    }

    /// Whether there is a cookie for the account at `i`.
    pub open spec fn cookie_for(self, i: int) -> bool {
        self.use_credential_manager || self.accounts@[i].1 is Some
    }
}

/// How far a launch of several accounts has come.
#[derive(Debug)]
pub enum BulkStage {
    Preparing { bulk: Bulk, what: Preparation },
    /// Open the first account's cookie. Answered by `Cookie`.
    OpeningFirst { bulk: Bulk },
    /// Find a public server for all of them. Answered by `Server`.
    FindingServer { bulk: Bulk, cookie: String },
    /// Nothing to ask; go on with the current account. Answered by `Go`.
    Proceeding { bulk: Bulk },
    /// Open the current account's cookie. Answered by `Cookie`.
    OpeningCookie { bulk: Bulk },
    /// Get a ticket. Answered by `Text`.
    Ticketing { bulk: Bulk, cookie: String },
    /// Record the launch. Answered by `Noted`.
    Noting { bulk: Bulk, ticket: String },
    /// Start the client. Answered by `Unit`.
    Starting { bulk: Bulk, ticket: String, launchtime: i64 },
    /// Wait before the next account. Answered by `Go`.
    Waiting { bulk: Bulk, secs: u64 },
    /// Kill Roblox processes in the tray. Answered by `Go`.
    KillingTray { bulk: Bulk },
}

/// The launch that a stage belongs to.
pub open spec fn bulk_of(stage: BulkStage) -> Bulk {
    match stage {
        BulkStage::Preparing { bulk, .. } => bulk,
        BulkStage::OpeningFirst { bulk } => bulk,
        BulkStage::FindingServer { bulk, .. } => bulk,
        BulkStage::Proceeding { bulk } => bulk,
        BulkStage::OpeningCookie { bulk } => bulk,
        BulkStage::Ticketing { bulk, .. } => bulk,
        BulkStage::Noting { bulk, .. } => bulk,
        BulkStage::Starting { bulk, .. } => bulk,
        BulkStage::Waiting { bulk, .. } => bulk,
        BulkStage::KillingTray { bulk } => bulk,
    }
}

/// Whether the stage works on an account that is there.
pub open spec fn on_an_account(stage: BulkStage) -> bool {
    match stage {
        BulkStage::Preparing { .. } => true,
        BulkStage::OpeningFirst { .. } => true,
        BulkStage::FindingServer { .. } => true,
        BulkStage::Proceeding { .. } => true,
        _ => bulk_of(stage).at < bulk_of(stage).accounts@.len(),
    }
}

/// What can be relied on at a stage.
pub open spec fn bulk_wf(stage: BulkStage) -> bool {
    bulk_of(stage).wf() && on_an_account(stage)
}

/// The seconds to wait between two launches: what the user set, and never less
/// than the tray processes need.
pub open spec fn pause(bulk: Bulk) -> u64 {
    let tray: u64 = if kills_tray(bulk.options) {
        TRAY_WINDOW_SECS
    } else {
        0
    };
    if bulk.launch_delay_secs as u64 >= tray {
        bulk.launch_delay_secs as u64
    } else {
        tray
    }
}

/// The current account was dealt with: say how many were launched so far, then
/// wait for the next, or finish with the counts.
pub open spec fn counted(bulk: Bulk, success: bool) -> Next {
    let next = Bulk {
        at: (bulk.at + 1) as usize,
        launched: if success {
            (bulk.launched + 1) as usize
        } else {
            bulk.launched
        },
        failed: if success {
            bulk.failed
        } else {
            (bulk.failed + 1) as usize
        },
        ..bulk
    };
    let total = bulk.accounts.len();
    Next {
        tell: Some(BackendEvent::BulkLaunchProgress { launched: next.launched, total }),
        go: if next.at >= total {
            Then::Done(
                BackendEvent::BulkLaunchComplete { launched: next.launched, failed: next.failed },
            )
        } else if pause(bulk) > 0 {
            Then::Ask(Stage::Bulk(BulkStage::Waiting { bulk: next, secs: pause(bulk) }))
        } else {
            Then::Ask(Stage::Bulk(BulkStage::Proceeding { bulk: next }))
        },
    }
}

fn count(bulk: Bulk, success: bool) -> (n: Next)
    requires
        bulk.wf(),
        bulk.at < bulk.accounts@.len(),
    ensures
        n == counted(bulk, success),
{
    let mut next: Bulk = bulk;
    let total: usize = next.accounts.len();
    next.at = next.at + 1;
    if success {
        next.launched = next.launched + 1;
    } else {
        next.failed = next.failed + 1;
    }
    let tray: u64 = if next.options.kill_background || next.options.multi_instance {
        TRAY_WINDOW_SECS
    } else {
        0
    };
    let delay: u64 = next.launch_delay_secs as u64;
    let secs: u64 = if delay >= tray {
        delay
    } else {
        tray
    };
    let tell: Option<BackendEvent> = Some(
        BackendEvent::BulkLaunchProgress { launched: next.launched, total },
    );
    if next.at >= total {
        Next {
            tell,
            go: Then::Done(
                BackendEvent::BulkLaunchComplete { launched: next.launched, failed: next.failed },
            ),
        }
    } else if secs > 0 {
        Next { tell, go: Then::Ask(Stage::Bulk(BulkStage::Waiting { bulk: next, secs })) }
    } else {
        Next { tell, go: Then::Ask(Stage::Bulk(BulkStage::Proceeding { bulk: next })) }
    }
}

/// The question for the current account, where there is one left.
pub open spec fn proceed(bulk: Bulk) -> Next {
    if bulk.at >= bulk.accounts@.len() {
        done(BackendEvent::BulkLaunchComplete { launched: bulk.launched, failed: bulk.failed })
    } else if bulk.cookie_for(bulk.at as int) {
        ask(Stage::Bulk(BulkStage::OpeningCookie { bulk }))
    } else {
        counted(bulk, false)
    }
}

fn proceeding(bulk: Bulk) -> (n: Next)
    requires
        bulk.wf(),
    ensures
        n == proceed(bulk),
{
    if bulk.at >= bulk.accounts.len() {
        ending(BackendEvent::BulkLaunchComplete { launched: bulk.launched, failed: bulk.failed })
    } else if bulk.use_credential_manager || bulk.accounts[bulk.at].1.is_some() {
        asking(Stage::Bulk(BulkStage::OpeningCookie { bulk }))
    } else {
        count(bulk, false)
    }
}

/// Once the machine is prepared: find one server for all accounts, unless the
/// destination names a server already.
pub open spec fn choose_server(bulk: Bulk) -> Next {
    if bulk.destination.job_id is Some || bulk.destination.link_code is Some {
        proceed(bulk)
    } else if bulk.accounts@.len() == 0 {
        failed(TaskError::NoAccounts)
    } else if bulk.cookie_for(0) {
        ask(Stage::Bulk(BulkStage::OpeningFirst { bulk }))
    } else {
        failed(TaskError::NoCookie(CookieUse::FirstOfBatch))
    }
}

fn choosing_server(bulk: Bulk) -> (n: Next)
    requires
        bulk.wf(),
    ensures
        n == choose_server(bulk),
{
    if bulk.destination.job_id.is_some() || bulk.destination.link_code.is_some() {
        proceeding(bulk)
    } else if bulk.accounts.len() == 0 {
        failing(TaskError::NoAccounts)
    } else if bulk.use_credential_manager || bulk.accounts[0].1.is_some() {
        asking(Stage::Bulk(BulkStage::OpeningFirst { bulk }))
    } else {
        failing(TaskError::NoCookie(CookieUse::FirstOfBatch))
    }
}

/// The next preparation of a batch, or the choice of a server.
pub open spec fn prepare_bulk(bulk: Bulk, from: Option<Preparation>) -> Next {
    match preparation_from(bulk.options, from) {
        Some(what) => ask(Stage::Bulk(BulkStage::Preparing { bulk, what })),
        None => choose_server(bulk),
    }
}

fn preparing_bulk(bulk: Bulk, from: Option<Preparation>) -> (n: Next)
    requires
        bulk.wf(),
    ensures
        n == prepare_bulk(bulk, from),
{
    match prepare_from(bulk.options, from) {
        Some(what) => asking(Stage::Bulk(BulkStage::Preparing { bulk, what })),
        None => choosing_server(bulk),
    }
}

/// The first step of a batch.
pub fn begin_bulk(bulk: Bulk) -> (n: Next)
    requires
        bulk.wf(),
    ensures
        n == prepare_bulk(bulk, Some(Preparation::EnableMultiInstance)),
{
    preparing_bulk(bulk, Some(Preparation::EnableMultiInstance))
}

/// The batch headed for the server that was found, if any.
pub open spec fn headed(bulk: Bulk, job_id: Option<String>) -> Bulk {
    Bulk { destination: Destination { job_id, ..bulk.destination }, ..bulk }
}

/// What a reply to a stage of a batch leads to. A failure of one account
/// counts against it and the batch goes on.
pub open spec fn bulk_step(stage: BulkStage, reply: Reply) -> Next {
    match (stage, reply) {
        (BulkStage::Preparing { bulk, what }, reply) => if prepared(what, reply) {
            prepare_bulk(bulk, following(what))
        } else {
            match reply {
                Reply::Unit(Err(e)) => failed(TaskError::Core(e)),
                _ => failed(TaskError::OutOfStep),
            }
        },
        (BulkStage::OpeningFirst { bulk }, Reply::Cookie(Ok(cookie))) => ask(
            Stage::Bulk(BulkStage::FindingServer { bulk, cookie }),
        ),
        (BulkStage::OpeningFirst { .. }, Reply::Cookie(Err(e))) => failed(TaskError::Core(e)),
        (BulkStage::FindingServer { bulk, .. }, Reply::Server(Ok(server))) => proceed(
            headed(bulk, server),
        ),
        (BulkStage::FindingServer { bulk, .. }, Reply::Server(Err(_))) => proceed(
            headed(bulk, None),
        ),
        (BulkStage::Proceeding { bulk }, Reply::Go) => proceed(bulk),
        (BulkStage::OpeningCookie { bulk }, Reply::Cookie(Ok(cookie))) => ask(
            Stage::Bulk(BulkStage::Ticketing { bulk, cookie }),
        ),
        (BulkStage::OpeningCookie { bulk }, Reply::Cookie(Err(_))) => counted(bulk, false),
        (BulkStage::Ticketing { bulk, .. }, Reply::Text(Ok(ticket))) => ask(
            Stage::Bulk(BulkStage::Noting { bulk, ticket }),
        ),
        (BulkStage::Ticketing { bulk, .. }, Reply::Text(Err(_))) => counted(bulk, false),
        (BulkStage::Noting { bulk, ticket }, Reply::Noted(launchtime)) => ask(
            Stage::Bulk(BulkStage::Starting { bulk, ticket, launchtime }),
        ),
        (BulkStage::Starting { bulk, .. }, Reply::Unit(Ok(()))) => counted(bulk, true),
        (BulkStage::Starting { bulk, .. }, Reply::Unit(Err(_))) => counted(bulk, false),
        (BulkStage::Waiting { bulk, .. }, Reply::Go) => if kills_tray(bulk.options) {
            ask(Stage::Bulk(BulkStage::KillingTray { bulk }))
        } else {
            proceed(bulk)
        },
        (BulkStage::KillingTray { bulk }, Reply::Go) => proceed(bulk),
        _ => failed(TaskError::OutOfStep),
    }
}

/// The next step of a batch.
pub fn resume_bulk(stage: BulkStage, reply: Reply) -> (n: Next)
    requires
        bulk_wf(stage),
    ensures
        n == bulk_step(stage, reply),
{
    match stage {
        BulkStage::Preparing { bulk, what } => match reply {
            Reply::Unit(Ok(())) => {
                if what == Preparation::EnableMultiInstance {
                    preparing_bulk(bulk, after(what))
                } else {
                    failing(TaskError::OutOfStep)
                }
            },
            Reply::Unit(Err(e)) => failing(TaskError::Core(e)),
            Reply::Go => {
                if what == Preparation::EnableMultiInstance {
                    failing(TaskError::OutOfStep)
                } else {
                    preparing_bulk(bulk, after(what))
                }
            },
            _ => failing(TaskError::OutOfStep),
        },
        BulkStage::OpeningFirst { bulk } => match reply {
            Reply::Cookie(Ok(cookie)) => asking(
                Stage::Bulk(BulkStage::FindingServer { bulk, cookie }),
            ),
            Reply::Cookie(Err(e)) => failing(TaskError::Core(e)),
            _ => failing(TaskError::OutOfStep),
        },
        BulkStage::FindingServer { bulk, .. } => match reply {
            Reply::Server(found) => {
                let mut b: Bulk = bulk;
                b.destination.job_id = match found {
                    Ok(server) => server,
                    Err(_) => None,
                };
                proceeding(b)
            },
            _ => failing(TaskError::OutOfStep),
        },
        BulkStage::Proceeding { bulk } => match reply {
            Reply::Go => proceeding(bulk),
            _ => failing(TaskError::OutOfStep),
        },
        BulkStage::OpeningCookie { bulk } => match reply {
            Reply::Cookie(Ok(cookie)) => asking(
                Stage::Bulk(BulkStage::Ticketing { bulk, cookie }),
            ),
            Reply::Cookie(Err(_)) => count(bulk, false),
            _ => failing(TaskError::OutOfStep),
        },
        BulkStage::Ticketing { bulk, .. } => match reply {
            Reply::Text(Ok(ticket)) => asking(Stage::Bulk(BulkStage::Noting { bulk, ticket })),
            Reply::Text(Err(_)) => count(bulk, false),
            _ => failing(TaskError::OutOfStep),
        },
        BulkStage::Noting { bulk, ticket } => match reply {
            Reply::Noted(launchtime) => asking(
                Stage::Bulk(BulkStage::Starting { bulk, ticket, launchtime }),
            ),
            _ => failing(TaskError::OutOfStep),
        },
        BulkStage::Starting { bulk, .. } => match reply {
            Reply::Unit(Ok(())) => count(bulk, true),
            Reply::Unit(Err(_)) => count(bulk, false),
            _ => failing(TaskError::OutOfStep),
        },
        BulkStage::Waiting { bulk, .. } => match reply {
            Reply::Go => {
                if bulk.options.kill_background || bulk.options.multi_instance {
                    asking(Stage::Bulk(BulkStage::KillingTray { bulk }))
                } else {
                    proceeding(bulk)
                }
            },
            _ => failing(TaskError::OutOfStep),
        },
        BulkStage::KillingTray { bulk } => match reply {
            Reply::Go => proceeding(bulk),
            _ => failing(TaskError::OutOfStep),
        },
    }
}

/// A batch keeps its counts right: whatever the outside answers, the next
/// stage has counted every account before its own exactly once.
pub proof fn a_batch_keeps_count(stage: BulkStage, reply: Reply)
    requires
        bulk_wf(stage),
    ensures
        bulk_step(stage, reply).go matches Then::Ask(s) ==> s matches Stage::Bulk(next)
            && bulk_wf(next) && bulk_of(next).accounts == bulk_of(stage).accounts
            && bulk_of(next).at >= bulk_of(stage).at,
{
}

/// What is told along the way counts launched clients alone, and what is told
/// last is what the batch ends with.
pub proof fn progress_counts_launched_clients(bulk: Bulk, success: bool)
    requires
        bulk.wf(),
        bulk.at < bulk.accounts@.len(),
    ensures
        counted(bulk, success).tell matches Some(
            BackendEvent::BulkLaunchProgress { launched, total },
        ) && total == bulk.accounts@.len() && launched <= bulk.at + 1 && launched
            == bulk.launched + if success {
            1int
        } else {
            0int
        },
        counted(bulk, success).go matches Then::Done(
            BackendEvent::BulkLaunchComplete { launched: all, .. },
        ) ==> counted(bulk, success).tell matches Some(
            BackendEvent::BulkLaunchProgress { launched, .. },
        ) && launched == all,
{
}

/// A batch that completes reports every account, as launched or as failed.
pub proof fn a_complete_batch_reports_every_account(
    stage: BulkStage,
    reply: Reply,
    launched: usize,
    failed: usize,
)
    requires
        bulk_wf(stage),
        bulk_step(stage, reply).go == Then::Done(
            BackendEvent::BulkLaunchComplete { launched, failed },
        ),
    ensures
        launched + failed == bulk_of(stage).accounts@.len(),
{
}

/// An account counts as launched only when its client was started.
pub proof fn a_launch_counts_only_when_the_client_started(stage: BulkStage, reply: Reply)
    requires
        bulk_wf(stage),
    ensures
        bulk_step(stage, reply).go matches Then::Ask(s) ==> s matches Stage::Bulk(next) && (
        bulk_of(next).launched != bulk_of(stage).launched ==> stage is Starting && (
        reply matches Reply::Unit(Ok(())))),
{
}

} // verus!
