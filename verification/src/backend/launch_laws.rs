//! What launches come to, over all their steps.

use vstd::prelude::*;

use super::launch::{
    bulk_of, bulk_step, bulk_wf, Bulk, BulkStage, Launch, LaunchStage, Preparation,
    TRAY_WINDOW_SECS,
};
use super::runs::{failure_in, fits_bulk, fits_launch, Run};
use super::{CookieUse, Reply, Stage, TaskError, Then};
use crate::bridge::{BackendCommand, BackendEvent, Credentials, Destination, LaunchOptions};
use crate::models::StoreSession;

verus! {

/// Whether the options of a launch ask for a preparation.
pub open spec fn asked_for(options: LaunchOptions, what: Preparation) -> bool {
    match what {
        Preparation::EnableMultiInstance => options.multi_instance,
        Preparation::KillTray => options.kill_background || options.multi_instance,
        Preparation::ClearCookies => options.privacy_mode,
    }
}

/// Whether an answer says that a preparation was done.
pub open spec fn says_done(what: Preparation, reply: Reply) -> bool {
    match what {
        Preparation::EnableMultiInstance => reply matches Reply::Unit(Ok(_)),
        Preparation::KillTray => reply == Reply::Go,
        Preparation::ClearCookies => reply == Reply::Go,
    }
}

/// Which of the preparations comes first.
pub open spec fn turn_of(what: Preparation) -> int {
    match what {
        Preparation::EnableMultiInstance => 1,
        Preparation::KillTray => 2,
        Preparation::ClearCookies => 3,
    }
}

// ---------------------------------------------------------------------------
// One account
// ---------------------------------------------------------------------------

/// Whether step `k` of a launch asks for this preparation.
pub open spec fn launch_prepares(run: Run, k: int, what: Preparation) -> bool {
    run.steps[k].go matches Then::Ask(Stage::Launch(LaunchStage::Preparing { what: w, .. })) && w
        == what
}

/// Whether a preparation was done before step `k` of a launch.
pub open spec fn launch_prepared(run: Run, k: int, what: Preparation) -> bool {
    exists|j: int|
        0 <= j < k && #[trigger] launch_prepares(run, j, what) && says_done(what, run.reply(j))
}

/// Whether a launch is that of a command, with the cookie that was opened.
pub open spec fn launch_is(
    run: Run,
    launch: Launch,
    credentials: Credentials,
    destination: Destination,
    options: LaunchOptions,
) -> bool {
    &&& launch.user_id == credentials.user_id
    &&& launch.destination == destination
    &&& launch.options == options
    &&& run.reply(0) == Reply::Cookie(Ok(launch.cookie))
}

/// How far a stage is on the way to the client.
pub open spec fn launch_turn(stage: LaunchStage) -> int {
    match stage {
        LaunchStage::OpeningCookie { .. } => 0,
        LaunchStage::Preparing { what, .. } => turn_of(what),
        LaunchStage::Ticketing { .. } => 4,
        LaunchStage::Noting { .. } => 5,
        LaunchStage::Starting { .. } => 6,
    }
}

/// What is asked in step `k` of a launch is about the account, the destination
/// and the options of the command, and uses the cookie, the ticket and the
/// record that were answered.
pub open spec fn launch_keeps_to(
    run: Run,
    k: int,
    credentials: Credentials,
    destination: Destination,
    options: LaunchOptions,
) -> bool {
    run.steps[k].go matches Then::Ask(stage) ==> (stage matches Stage::Launch(s) && {
        &&& k <= launch_turn(s)
        &&& match s {
            LaunchStage::OpeningCookie { credentials: c, destination: d, options: o } => {
                &&& k == 0
                &&& c == credentials
                &&& d == destination
                &&& o == options
            },
            LaunchStage::Preparing { launch, what } => {
                &&& k > 0
                &&& launch_is(run, launch, credentials, destination, options)
                &&& asked_for(options, what)
            },
            LaunchStage::Ticketing { launch } => {
                &&& k > 0
                &&& launch_is(run, launch, credentials, destination, options)
            },
            LaunchStage::Noting { launch, ticket } => {
                &&& k > 1
                &&& launch_is(run, launch, credentials, destination, options)
                &&& run.asks(k - 1, Stage::Launch(LaunchStage::Ticketing { launch }))
                &&& run.reply(k - 1) == Reply::Text(Ok(ticket))
            },
            LaunchStage::Starting { launch, ticket, launchtime } => {
                &&& k > 2
                &&& launch_is(run, launch, credentials, destination, options)
                &&& run.asks(k - 2, Stage::Launch(LaunchStage::Ticketing { launch }))
                &&& run.reply(k - 2) == Reply::Text(Ok(ticket))
                &&& run.reply(k - 1) == Reply::Noted(launchtime)
            },
        }
    })
}

/// A client is started where the command says and for whom it says: every step
/// of a launch keeps to the account, the destination and the options of the
/// command and to the cookie that was opened. Nothing is told on the way, and
/// the launch ends well exactly when the client that was to be started was.
pub proof fn a_launch_keeps_to_its_command(
    run: Run,
    credentials: Credentials,
    destination: Destination,
    options: LaunchOptions,
    k: int,
)
    requires
        run.of(BackendCommand::LaunchGame { credentials, destination, options }),
        run.has(k),
    ensures
        launch_keeps_to(run, k, credentials, destination, options),
        run.steps[k].tell is None,
        run.steps[k].go matches Then::Done(event) ==> event == BackendEvent::GameLaunched && k > 3
            && (run.reply(k - 1) matches Reply::Unit(Ok(_))) && (run.steps[k - 1].go matches Then::Ask(
            Stage::Launch(LaunchStage::Starting { .. }),
        )),
        run.steps[k].go !is UploadFailed,
    decreases k,
{
    if k > 0 {
        a_launch_keeps_to_its_command(run, credentials, destination, options, k - 1);
        assert(run.moves(k - 1));
        if k > 1 {
            a_launch_keeps_to_its_command(run, credentials, destination, options, k - 2);
            assert(run.moves(k - 2));
        }
    }
}

/// A launch without a cookie to open fails at once, and no other launch does.
/// After that it goes on as long as the answers are of the sort that was asked
/// for and carry no failure: then each answer leads to the next question or, in
/// the end, to the client.
pub proof fn a_launch_goes_on_while_the_answers_are_good(
    run: Run,
    credentials: Credentials,
    destination: Destination,
    options: LaunchOptions,
    k: int,
)
    requires
        run.of(BackendCommand::LaunchGame { credentials, destination, options }),
        run.has(k),
    ensures
        k == 0 ==> (run.steps[0].go matches Then::Failed(e) && e == TaskError::NoCookie(
            CookieUse::Account,
        )) == (!credentials.use_credential_manager && credentials.encrypted_cookie is None),
        k == 0 ==> run.steps[0].go is Failed || run.steps[0].go is Ask,
        k > 0 ==> (run.steps[k].go is Failed) == (failure_in(run.reply(k - 1)) is Some
            || !fits_launch(run.steps[k - 1].go->Ask_0->Launch_0, run.reply(k - 1))),
        k > 0 && (run.steps[k - 1].go matches Then::Ask(Stage::Launch(LaunchStage::Starting { .. })))
            && (run.reply(k - 1) matches Reply::Unit(Ok(_))) ==> run.steps[k].go == Then::Done(
            BackendEvent::GameLaunched,
        ),
        k <= 7,
{
    a_launch_keeps_to_its_command(run, credentials, destination, options, k);
    if k > 0 {
        a_launch_keeps_to_its_command(run, credentials, destination, options, k - 1);
        assert(run.moves(k - 1));
    }
}

/// Whether every preparation with an earlier turn was done before step `k`,
/// where the options ask for it.
pub open spec fn launch_prepared_until(run: Run, k: int, options: LaunchOptions, turn: int) -> bool {
    forall|what: Preparation|
        asked_for(options, what) && turn_of(what) < turn ==> #[trigger] launch_prepared(
            run,
            k,
            what,
        )
}

/// Before a client is started, all that the options ask for was done, each in
/// its turn: several clients allowed, the tray emptied, the client's cookies
/// cleared.
pub proof fn a_launch_is_prepared_as_asked(
    run: Run,
    credentials: Credentials,
    destination: Destination,
    options: LaunchOptions,
    k: int,
)
    requires
        run.of(BackendCommand::LaunchGame { credentials, destination, options }),
        run.has(k),
        run.steps[k].go is Ask,
    ensures
        launch_prepared_until(
            run,
            k,
            options,
            launch_turn(run.steps[k].go->Ask_0->Launch_0),
        ),
    decreases k,
{
    a_launch_keeps_to_its_command(run, credentials, destination, options, k);
    let turn = launch_turn(run.steps[k].go->Ask_0->Launch_0);
    if k > 0 {
        assert(run.moves(k - 1));
        a_launch_keeps_to_its_command(run, credentials, destination, options, k - 1);
        a_launch_is_prepared_as_asked(run, credentials, destination, options, k - 1);
        let before = run.steps[k - 1].go->Ask_0->Launch_0;
        assert forall|what: Preparation|
            asked_for(options, what) && turn_of(what) < turn implies #[trigger] launch_prepared(
            run,
            k,
            what,
        ) by {
            if turn_of(what) < launch_turn(before) {
                assert(launch_prepared(run, k - 1, what));
                let j = choose|j: int|
                    0 <= j < k - 1 && #[trigger] launch_prepares(run, j, what) && says_done(
                        what,
                        run.reply(j),
                    );
                assert(launch_prepares(run, j, what));
            } else {
                assert(launch_prepares(run, k - 1, what));
            }
        }
    }
}

// ---------------------------------------------------------------------------
// Several accounts
// ---------------------------------------------------------------------------

/// What a launch of several accounts is asked to do.
pub struct Batch {
    pub accounts: Vec<(u64, Option<String>)>,
    pub session: StoreSession,
    pub use_credential_manager: bool,
    pub destination: Destination,
    pub options: LaunchOptions,
    pub launch_delay_secs: u32,
}

impl Batch {
    /// The command.
    pub open spec fn command(self) -> BackendCommand {
        BackendCommand::BulkLaunchEncrypted {
            accounts: self.accounts,
            session: self.session,
            use_credential_manager: self.use_credential_manager,
            destination: self.destination,
            options: self.options,
            launch_delay_secs: self.launch_delay_secs,
        }
    }

    /// Whether the destination names a server by itself.
    pub open spec fn names_server(self) -> bool {
        self.destination.job_id is Some || self.destination.link_code is Some
    }

    /// Whether there is a cookie for the account at `i`.
    pub open spec fn has_cookie(self, i: int) -> bool {
        self.use_credential_manager || self.accounts@[i].1 is Some
    }

    /// Whether the tray is emptied before each launch.
    pub open spec fn empties_tray(self) -> bool {
        self.options.kill_background || self.options.multi_instance
    }
}

/// Whether step `k` looks for a server.
pub open spec fn looks_for_server(run: Run, k: int) -> bool {
    run.steps[k].go matches Then::Ask(Stage::Bulk(BulkStage::FindingServer { .. }))
}

/// The server that an answer names.
pub open spec fn server_in(reply: Reply) -> Option<String> {
    match reply {
        Reply::Server(Ok(server)) => server,
        _ => None,
    }
}

/// Whether a stage comes before the accounts are launched one by one.
pub open spec fn before_accounts(stage: BulkStage) -> bool {
    stage is Preparing || stage is OpeningFirst || stage is FindingServer
}

/// Whether step `k` works on the batch of the command, and on nothing else:
/// the same accounts under the same key, with the same options and delay.
pub open spec fn batch_is(bulk: Bulk, b: Batch) -> bool {
    &&& bulk.accounts == b.accounts
    &&& bulk.session == b.session
    &&& bulk.use_credential_manager == b.use_credential_manager
    &&& bulk.options == b.options
    &&& bulk.launch_delay_secs == b.launch_delay_secs
}

/// Whether a batch is headed where step `k` has to go: for the destination of
/// the command, and there, where the command names no server, for the server
/// that was found.
pub open spec fn heads_for(run: Run, k: int, to: Destination, b: Batch) -> bool {
    &&& to.place_id == b.destination.place_id
    &&& to.link_code == b.destination.link_code
    &&& to.access_code == b.destination.access_code
    &&& b.names_server() ==> to.job_id == b.destination.job_id
    &&& forall|j: int|
        0 <= j < k && #[trigger] looks_for_server(run, j) ==> !b.names_server() && to.job_id
            == server_in(run.reply(j))
    &&& (forall|j: int| 0 <= j < k ==> !#[trigger] looks_for_server(run, j)) ==> to.job_id
        == b.destination.job_id
}

/// Whether a server was looked for before step `k`.
pub open spec fn looked_for_server(run: Run, k: int) -> bool {
    exists|j: int| 0 <= j < k && #[trigger] looks_for_server(run, j)
}

/// All accounts of a batch are launched into one server: every step keeps to
/// the batch of the command, and to its destination, whose server is the one
/// that the command names or else the one that was looked for and found before
/// the first account.
#[verifier::rlimit(50)]
#[verifier::spinoff_prover]
pub proof fn a_batch_goes_to_one_server(run: Run, b: Batch, k: int)
    requires
        run.of(b.command()),
        run.has(k),
    ensures
        run.steps[k].go matches Then::Ask(stage) ==> (stage matches Stage::Bulk(s) && {
            &&& bulk_wf(s)
            &&& batch_is(bulk_of(s), b)
            &&& heads_for(run, k, bulk_of(s).destination, b)
            &&& before_accounts(s) ==> !looked_for_server(run, k)
            &&& s is OpeningFirst || s is FindingServer ==> !b.names_server()
            &&& before_accounts(s) ==> bulk_of(s).at == 0 && bulk_of(s).launched == 0
            &&& !before_accounts(s) && !b.names_server() ==> looked_for_server(run, k)
        }),
        run.steps[k].go !is UploadFailed,
    decreases k,
{
    if k > 0 {
        a_batch_goes_to_one_server(run, b, k - 1);
        assert(run.moves(k - 1));
        let before = run.steps[k - 1].go->Ask_0->Bulk_0;
        super::launch::a_batch_keeps_count(before, run.reply(k - 1));
        match run.steps[k].go {
            Then::Ask(Stage::Bulk(s)) => {
                assert forall|j: int| 0 <= j < k && #[trigger] looks_for_server(run, j) implies
                    !b.names_server() && bulk_of(s).destination.job_id == server_in(
                    run.reply(j),
                ) by {
                    if j < k - 1 {
                        assert(looked_for_server(run, k - 1));
                    }
                }
                if forall|j: int| 0 <= j < k ==> !#[trigger] looks_for_server(run, j) {
                    assert(!looks_for_server(run, k - 1));
                }
                if looked_for_server(run, k) {
                    let j = choose|j: int| 0 <= j < k && #[trigger] looks_for_server(run, j);
                    if j < k - 1 {
                        assert(looked_for_server(run, k - 1));
                    }
                }
                if looks_for_server(run, k - 1) {
                    assert(looked_for_server(run, k));
                }
                if looked_for_server(run, k - 1) {
                    let j = choose|j: int| 0 <= j < k - 1 && #[trigger] looks_for_server(run, j);
                    assert(looks_for_server(run, j) && 0 <= j < k);
                }
            },
            _ => {},
        }
    }
}

/// Whether step `k` is the start of a client that worked.
pub open spec fn starts_client(run: Run, k: int) -> bool {
    &&& run.steps[k].go matches Then::Ask(Stage::Bulk(BulkStage::Starting { .. }))
    &&& run.reply(k) matches Reply::Unit(Ok(_))
}

/// How many clients were started before step `k`.
pub open spec fn clients_started(run: Run, k: int) -> int
    decreases k,
{
    if k <= 0 {
        0
    } else if starts_client(run, k - 1) {
        clients_started(run, k - 1) + 1
    } else {
        clients_started(run, k - 1)
    }
}

/// What is told of a batch is how many clients were started so far, of how many
/// accounts, and what it ends with is how many were started in all and how many
/// accounts were not.
#[verifier::rlimit(50)]
#[verifier::spinoff_prover]
pub proof fn a_batch_tells_how_many_clients_were_started(run: Run, b: Batch, k: int)
    requires
        run.of(b.command()),
        run.has(k),
    ensures
        run.steps[k].go matches Then::Ask(stage) ==> (stage matches Stage::Bulk(s)
            && bulk_of(s).launched == clients_started(run, k)),
        run.steps[k].tell matches Some(event) ==> (event matches BackendEvent::BulkLaunchProgress {
            launched,
            total,
        } && launched == clients_started(run, k) && total == b.accounts@.len()),
        run.steps[k].go matches Then::Done(event) ==> (event matches BackendEvent::BulkLaunchComplete {
            launched,
            failed,
        } && launched == clients_started(run, k) && launched + failed == b.accounts@.len()),
        k > 0 && (run.steps[k - 1].go matches Then::Ask(Stage::Bulk(BulkStage::Starting { .. })))
            && (run.reply(k - 1) is Unit) ==> run.steps[k].tell is Some,
    decreases k,
{
    a_batch_goes_to_one_server(run, b, k);
    if k > 0 {
        a_batch_goes_to_one_server(run, b, k - 1);
        a_batch_tells_how_many_clients_were_started(run, b, k - 1);
        assert(run.moves(k - 1));
        let before = run.steps[k - 1].go->Ask_0->Bulk_0;
        super::launch::a_batch_keeps_count(before, run.reply(k - 1));
    }
}

/// Whether step `k` opens the cookie of the account at `i`.
pub open spec fn opens_cookie_of(run: Run, k: int, i: int) -> bool {
    run.steps[k].go matches Then::Ask(Stage::Bulk(BulkStage::OpeningCookie { bulk })) && bulk.at
        == i
}

/// Whether the account at `i` was tried before step `k`.
pub open spec fn was_tried(run: Run, k: int, i: int) -> bool {
    exists|j: int| 0 <= j < k && #[trigger] opens_cookie_of(run, j, i)
}

/// Whether a stage comes after the cookie of its account was opened.
pub open spec fn cookie_is_open(stage: BulkStage) -> bool {
    stage is Ticketing || stage is Noting || stage is Starting
}

/// Every account of a batch that has a cookie is tried, once, in the order of
/// the list, and none that has none. When the batch is complete, all were.
#[verifier::rlimit(50)]
#[verifier::spinoff_prover]
pub proof fn a_batch_tries_every_account_once(run: Run, b: Batch, k: int)
    requires
        run.of(b.command()),
        run.has(k),
    ensures
        run.steps[k].go matches Then::Ask(stage) ==> (stage matches Stage::Bulk(s) && {
            &&& s is OpeningCookie ==> b.has_cookie(bulk_of(s).at as int)
            &&& forall|i: int|
                0 <= i < bulk_of(s).at && b.has_cookie(i) ==> #[trigger] was_tried(run, k, i)
            &&& forall|i: int| #[trigger]
                was_tried(run, k, i) ==> i < bulk_of(s).at || (i == bulk_of(s).at
                    && cookie_is_open(s))
            &&& cookie_is_open(s) ==> was_tried(run, k, bulk_of(s).at as int)
        }),
        run.steps[k].go is Done ==> forall|i: int|
            0 <= i < b.accounts@.len() && b.has_cookie(i) ==> #[trigger] was_tried(run, k, i),
    decreases k,
{
    a_batch_goes_to_one_server(run, b, k);
    if k > 0 {
        a_batch_goes_to_one_server(run, b, k - 1);
        a_batch_tries_every_account_once(run, b, k - 1);
        assert(run.moves(k - 1));
        let before = run.steps[k - 1].go->Ask_0->Bulk_0;
        super::launch::a_batch_keeps_count(before, run.reply(k - 1));
        assert forall|i: int| was_tried(run, k - 1, i) implies #[trigger] was_tried(run, k, i) by {
            let j = choose|j: int| 0 <= j < k - 1 && #[trigger] opens_cookie_of(run, j, i);
            assert(opens_cookie_of(run, j, i));
        }
        assert forall|i: int| #[trigger] was_tried(run, k, i) implies was_tried(run, k - 1, i)
            || opens_cookie_of(run, k - 1, i) by {
            let j = choose|j: int| 0 <= j < k && #[trigger] opens_cookie_of(run, j, i);
            if j < k - 1 {
                assert(was_tried(run, k - 1, i));
            }
        }
        if before is OpeningCookie {
            assert(opens_cookie_of(run, k - 1, bulk_of(before).at as int));
            assert(was_tried(run, k, bulk_of(before).at as int));
        }
    } else {
        assert forall|i: int| !#[trigger] was_tried(run, k, i) by {}
    }
}

/// Each client of a batch is started with what was answered for its own
/// account: the cookie that was opened gets the ticket, the launch is put on
/// record, and the client is started with that ticket and that record.
#[verifier::rlimit(50)]
#[verifier::spinoff_prover]
pub proof fn a_client_of_a_batch_is_its_accounts(run: Run, b: Batch, k: int)
    requires
        run.of(b.command()),
        run.has(k),
        run.steps[k].go is Ask,
    ensures
        match run.steps[k].go->Ask_0 {
            Stage::Bulk(BulkStage::FindingServer { bulk, cookie }) => {
                &&& k > 0
                &&& run.asks(k - 1, Stage::Bulk(BulkStage::OpeningFirst { bulk }))
                &&& run.reply(k - 1) == Reply::Cookie(Ok(cookie))
            },
            Stage::Bulk(BulkStage::Ticketing { bulk, cookie }) => {
                &&& k > 0
                &&& run.asks(k - 1, Stage::Bulk(BulkStage::OpeningCookie { bulk }))
                &&& run.reply(k - 1) == Reply::Cookie(Ok(cookie))
            },
            Stage::Bulk(BulkStage::Noting { bulk, ticket }) => {
                &&& k > 1
                &&& run.asks(k - 2, Stage::Bulk(BulkStage::OpeningCookie { bulk }))
                &&& run.reply(k - 1) == Reply::Text(Ok(ticket))
            },
            Stage::Bulk(BulkStage::Starting { bulk, ticket, launchtime }) => {
                &&& k > 2
                &&& run.asks(k - 3, Stage::Bulk(BulkStage::OpeningCookie { bulk }))
                &&& run.reply(k - 2) == Reply::Text(Ok(ticket))
                &&& run.reply(k - 1) == Reply::Noted(launchtime)
            },
            _ => true,
        },
{
    a_step_of_a_batch_comes_from(run, b, k);
    match run.steps[k].go->Ask_0 {
        Stage::Bulk(BulkStage::Noting { .. }) => {
            a_step_of_a_batch_comes_from(run, b, k - 1);
        },
        Stage::Bulk(BulkStage::Starting { .. }) => {
            a_step_of_a_batch_comes_from(run, b, k - 1);
            a_step_of_a_batch_comes_from(run, b, k - 2);
        },
        _ => {},
    }
}

#[verifier::rlimit(50)]
#[verifier::spinoff_prover]
proof fn a_step_of_a_batch_comes_from(run: Run, b: Batch, k: int)
    requires
        run.of(b.command()),
        run.has(k),
        run.steps[k].go is Ask,
    ensures
        match run.steps[k].go->Ask_0 {
            Stage::Bulk(BulkStage::FindingServer { bulk, cookie }) => {
                &&& k > 0
                &&& run.asks(k - 1, Stage::Bulk(BulkStage::OpeningFirst { bulk }))
                &&& run.reply(k - 1) == Reply::Cookie(Ok(cookie))
            },
            Stage::Bulk(BulkStage::Ticketing { bulk, cookie }) => {
                &&& k > 0
                &&& run.asks(k - 1, Stage::Bulk(BulkStage::OpeningCookie { bulk }))
                &&& run.reply(k - 1) == Reply::Cookie(Ok(cookie))
            },
            Stage::Bulk(BulkStage::Noting { bulk, ticket }) => {
                &&& k > 0
                &&& run.steps[k - 1].go matches Then::Ask(
                    Stage::Bulk(BulkStage::Ticketing { bulk: same, .. }),
                ) && same == bulk
                &&& run.reply(k - 1) == Reply::Text(Ok(ticket))
            },
            Stage::Bulk(BulkStage::Starting { bulk, ticket, launchtime }) => {
                &&& k > 0
                &&& run.asks(k - 1, Stage::Bulk(BulkStage::Noting { bulk, ticket }))
                &&& run.reply(k - 1) == Reply::Noted(launchtime)
            },
            _ => true,
        },
{
    a_batch_goes_to_one_server(run, b, k);
    if k > 0 {
        a_batch_goes_to_one_server(run, b, k - 1);
        assert(run.moves(k - 1));
    }
}

/// Whether step `k` of a batch asks for this preparation.
pub open spec fn batch_prepares(run: Run, k: int, what: Preparation) -> bool {
    run.steps[k].go matches Then::Ask(Stage::Bulk(BulkStage::Preparing { what: w, .. })) && w
        == what
}

/// Whether a preparation was done before step `k` of a batch.
pub open spec fn batch_prepared(run: Run, k: int, what: Preparation) -> bool {
    exists|j: int|
        0 <= j < k && #[trigger] batch_prepares(run, j, what) && says_done(what, run.reply(j))
}

/// Which turn a stage of a batch has among the preparations: a later one where
/// it is none.
pub open spec fn batch_turn(stage: BulkStage) -> int {
    match stage {
        BulkStage::Preparing { what, .. } => turn_of(what),
        _ => 4,
    }
}

/// Before the first account of a batch, all that the options ask for was done,
/// each in its turn, and nothing that they do not ask for.
#[verifier::rlimit(50)]
#[verifier::spinoff_prover]
pub proof fn a_batch_is_prepared_as_asked(run: Run, b: Batch, k: int)
    requires
        run.of(b.command()),
        run.has(k),
        run.steps[k].go is Ask,
    ensures
        run.steps[k].go->Ask_0 matches Stage::Bulk(s) && {
            &&& s matches BulkStage::Preparing { what, .. } ==> asked_for(b.options, what)
            &&& forall|what: Preparation|
                asked_for(b.options, what) && turn_of(what) < batch_turn(s)
                    ==> #[trigger] batch_prepared(run, k, what)
        },
    decreases k,
{
    a_batch_goes_to_one_server(run, b, k);
    let s = run.steps[k].go->Ask_0->Bulk_0;
    if k > 0 {
        assert(run.moves(k - 1));
        a_batch_goes_to_one_server(run, b, k - 1);
        a_batch_is_prepared_as_asked(run, b, k - 1);
        let before = run.steps[k - 1].go->Ask_0->Bulk_0;
        assert forall|what: Preparation|
            asked_for(b.options, what) && turn_of(what) < batch_turn(s) implies #[trigger] batch_prepared(
            run,
            k,
            what,
        ) by {
            if turn_of(what) < batch_turn(before) {
                assert(batch_prepared(run, k - 1, what));
                let j = choose|j: int|
                    0 <= j < k - 1 && #[trigger] batch_prepares(run, j, what) && says_done(
                        what,
                        run.reply(j),
                    );
                assert(batch_prepares(run, j, what));
            } else {
                assert(batch_prepares(run, k - 1, what));
            }
        }
    }
}

/// The account that the next step of a batch works on.
pub open spec fn account_at(run: Run, k: int) -> int {
    match run.steps[k].go {
        Then::Ask(Stage::Bulk(s)) => bulk_of(s).at as int,
        _ => -1,
    }
}

/// Between two accounts of a batch the delay of the command is kept, and where
/// the tray is emptied, the time that takes as well; then the tray is emptied.
/// Without a delay and with nothing to empty, the next account comes at once.
pub proof fn a_batch_keeps_its_delay(run: Run, b: Batch, k: int)
    requires
        run.of(b.command()),
        0 < k < run.steps.len(),
        run.steps[k].go is Ask,
    ensures
        account_at(run, k) != account_at(run, k - 1) ==> match run.steps[k].go->Ask_0->Bulk_0 {
            BulkStage::Waiting { secs, .. } => {
                &&& secs >= b.launch_delay_secs
                &&& b.empties_tray() ==> secs >= TRAY_WINDOW_SECS
                &&& secs == b.launch_delay_secs || (b.empties_tray() && secs == TRAY_WINDOW_SECS)
                &&& secs > 0
            },
            BulkStage::Proceeding { .. } => b.launch_delay_secs == 0 && !b.empties_tray(),
            _ => false,
        },
        account_at(run, k) == account_at(run, k - 1) || account_at(run, k) == account_at(run, k - 1)
            + 1,
        run.steps[k - 1].go matches Then::Ask(Stage::Bulk(BulkStage::Waiting { .. }))
            && b.empties_tray() ==> (run.steps[k].go matches Then::Ask(
            Stage::Bulk(BulkStage::KillingTray { .. }),
        )),
{
    a_batch_goes_to_one_server(run, b, k);
    a_batch_goes_to_one_server(run, b, k - 1);
    assert(run.moves(k - 1));
}

/// One account that fails does not fail the batch. A batch fails at once
/// without accounts or without a cookie for its first account, where it needs a
/// server; then only because a preparation failed, the first cookie could not
/// be opened, or an answer was not of the sort that was asked for.
pub proof fn a_batch_fails_only_as_a_whole(run: Run, b: Batch, k: int)
    requires
        run.of(b.command()),
        run.has(k),
    ensures
        run.steps[k].go matches Then::Failed(error) ==> match error {
            TaskError::NoAccounts => b.accounts@.len() == 0 && !b.names_server(),
            TaskError::NoCookie(used_for) => {
                &&& used_for == CookieUse::FirstOfBatch
                &&& !b.names_server()
                &&& b.accounts@.len() > 0
                &&& !b.has_cookie(0)
            },
            TaskError::Core(e) => {
                &&& k > 0
                &&& failure_in(run.reply(k - 1)) == Some(e)
                &&& run.steps[k - 1].go matches Then::Ask(Stage::Bulk(s)) && (s is Preparing
                    || s is OpeningFirst)
            },
            TaskError::OutOfStep => k > 0 && !fits_bulk(
                run.steps[k - 1].go->Ask_0->Bulk_0,
                run.reply(k - 1),
            ),
            _ => false,
        },
{
    a_batch_goes_to_one_server(run, b, k);
    if k > 0 {
        a_batch_goes_to_one_server(run, b, k - 1);
        assert(run.moves(k - 1));
    }
}

/// An account of a batch is given up only for a reason: it has no cookie, or an
/// answer about it was a failure. Otherwise its client was started before the
/// batch goes on to the next account or ends.
pub proof fn an_account_is_given_up_only_for_a_reason(run: Run, b: Batch, k: int)
    requires
        run.of(b.command()),
        0 < k < run.steps.len(),
        run.steps[k].go is Done || account_at(run, k) != account_at(run, k - 1),
        run.steps[k].go !is Failed,
        account_at(run, k - 1) < b.accounts@.len(),
    ensures
        starts_client(run, k - 1) || failure_in(run.reply(k - 1)) is Some || !b.has_cookie(
            account_at(run, k - 1),
        ),
{
    a_batch_goes_to_one_server(run, b, k);
    a_batch_goes_to_one_server(run, b, k - 1);
    assert(run.moves(k - 1));
}

/// How far a stage of a batch is at most from the first step.
pub open spec fn batch_distance(stage: BulkStage) -> int {
    match stage {
        BulkStage::Preparing { what, .. } => turn_of(what) - 1,
        BulkStage::OpeningFirst { .. } => 3,
        BulkStage::FindingServer { .. } => 4,
        BulkStage::Waiting { bulk, .. } => 6 * bulk.at + 5,
        BulkStage::Proceeding { bulk } => 6 * bulk.at + 5,
        BulkStage::KillingTray { bulk } => 6 * bulk.at + 6,
        BulkStage::OpeningCookie { bulk } => 6 * bulk.at + 7,
        BulkStage::Ticketing { bulk, .. } => 6 * bulk.at + 8,
        BulkStage::Noting { bulk, .. } => 6 * bulk.at + 9,
        BulkStage::Starting { bulk, .. } => 6 * bulk.at + 10,
    }
}

proof fn a_batch_moves_on(stage: BulkStage, reply: Reply)
    requires
        bulk_wf(stage),
    ensures
        bulk_step(stage, reply).go matches Then::Ask(s) ==> (s matches Stage::Bulk(next)
            && batch_distance(next) > batch_distance(stage)),
        batch_distance(stage) <= 6 * bulk_of(stage).accounts@.len() + 5,
{
    match stage {
        BulkStage::Preparing { .. } => {},
        BulkStage::OpeningFirst { .. } => {},
        BulkStage::FindingServer { .. } => {},
        BulkStage::Proceeding { .. } => {},
        BulkStage::OpeningCookie { .. } => {},
        BulkStage::Ticketing { .. } => {},
        BulkStage::Noting { .. } => {},
        BulkStage::Starting { .. } => {},
        BulkStage::Waiting { .. } => {},
        BulkStage::KillingTray { .. } => {},
    }
}

/// A batch comes to an end: it asks no more than a few questions for each of
/// its accounts.
pub proof fn a_batch_comes_to_an_end(run: Run, b: Batch, k: int)
    requires
        run.of(b.command()),
        run.has(k),
    ensures
        run.steps[k].go matches Then::Ask(stage) ==> (stage matches Stage::Bulk(s) && k
            <= batch_distance(s)),
        k <= 6 * b.accounts@.len() + 6,
    decreases k,
{
    a_batch_goes_to_one_server(run, b, k);
    if k > 0 {
        a_batch_goes_to_one_server(run, b, k - 1);
        a_batch_comes_to_an_end(run, b, k - 1);
        assert(run.moves(k - 1));
        a_batch_moves_on(run.steps[k - 1].go->Ask_0->Bulk_0, run.reply(k - 1));
    }
}

} // verus!
