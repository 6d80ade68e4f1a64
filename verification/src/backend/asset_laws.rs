//! What commands about assets come to, over all their steps.

use vstd::prelude::*;

use super::assets::{
    asset_begun, asset_opened, granted_rows, next_verdict, status_for, AssetGoal, AssetStage,
};
use super::runs::{failure_in, fits_asset, Run};
use super::{CookieUse, Reply, Stage, TaskError, Then};
use crate::assets::{AssetKind, Creator, ModerationStatus};
use crate::bridge::{BackendCommand, BackendEvent, Credentials};

verus! {

/// The stage whose question step `k` asks.
pub open spec fn asset_stage(run: Run, k: int) -> AssetStage {
    run.steps[k].go->Ask_0->Asset_0
}

/// How a command that opens a cookie begins: it fails where there is none to
/// open, and otherwise asks for the one of its own credentials.
pub open spec fn opens_first(run: Run, credentials: Credentials, goal: AssetGoal) -> bool {
    if !credentials.use_credential_manager && credentials.encrypted_cookie is None {
        run.steps[0].go == Then::Failed(TaskError::NoCookie(CookieUse::Account))
    } else {
        run.asks(0, Stage::Asset(AssetStage::OpeningCookie { credentials, goal }))
    }
}

/// Where the cookie could not be opened, the command fails with the reason.
pub open spec fn fails_without_cookie(run: Run) -> bool {
    run.steps.len() > 1 ==> match run.reply(0) {
        Reply::Cookie(Ok(_)) => run.steps[1].go !is Failed,
        Reply::Cookie(Err(e)) => run.steps[1].go == Then::Failed(TaskError::Core(e)),
        _ => run.steps[1].go == Then::Failed(TaskError::OutOfStep),
    }
}

proof fn a_cookie_is_opened_first(run: Run, cmd: BackendCommand, credentials: Credentials, goal: AssetGoal)
    requires
        run.of(cmd),
        run.steps[0] == asset_begun(credentials, goal),
    ensures
        opens_first(run, credentials, goal),
        run.steps[0].tell is None,
        run.steps[0].go is Ask || run.steps[0].go is Failed,
        run.steps.len() > 1 ==> run.steps[0].go is Ask && match run.reply(0) {
            Reply::Cookie(Ok(cookie)) => run.steps[1] == asset_opened(
                credentials.user_id,
                cookie,
                goal,
            ),
            Reply::Cookie(Err(e)) => run.steps[1] == super::failed(TaskError::Core(e)),
            _ => run.steps[1] == super::failed(TaskError::OutOfStep),
        },
{
    if run.steps.len() > 1 {
        assert(run.moves(0));
    }
}

// ---------------------------------------------------------------------------
// Operations
// ---------------------------------------------------------------------------

/// Step `k` of asking about operations keeps to those of the command, in their
/// order: the operation at `n` is asked about in step `2 * n + 1`.
pub proof fn operations_are_asked_about_in_order(
    run: Run,
    credentials: Credentials,
    operations: Vec<(String, String)>,
    k: int,
)
    requires
        run.of(BackendCommand::PollAssetOperations { credentials, operations }),
        run.has(k),
    ensures
        k == 0 ==> opens_first(run, credentials, AssetGoal::Poll(operations))
            && run.steps[0].tell is None,
        k > 0 ==> match run.steps[k].go {
            Then::Ask(Stage::Asset(AssetStage::Polling { cookie, operations: all, at })) => {
                &&& all == operations
                &&& at < operations@.len()
                &&& k == 2 * at + 1
                &&& run.reply(0) == Reply::Cookie(Ok(cookie))
            },
            Then::Ask(Stage::Asset(AssetStage::Pacing { cookie, operations: all, at })) => {
                &&& all == operations
                &&& 0 < at < operations@.len()
                &&& k == 2 * at
                &&& run.reply(0) == Reply::Cookie(Ok(cookie))
            },
            Then::Ask(_) => false,
            Then::Done(event) => event == BackendEvent::AssetPollBatchDone && (if operations@.len()
                > 0 {
                k == 2 * operations@.len()
            } else {
                k == 1
            }),
            Then::Failed(e) => match e {
                TaskError::Core(e) => k == 1 && failure_in(run.reply(0)) == Some(e),
                TaskError::OutOfStep => run.steps[k - 1].go matches Then::Ask(Stage::Asset(s))
                    && !fits_asset(s, run.reply(k - 1)),
                _ => false,
            },
            Then::UploadFailed { .. } => false,
        },
        fails_without_cookie(run),
    decreases k,
{
    assert(operations.len() == operations@.len());
    if run.steps.len() > 1 {
        assert(run.moves(0));
    }
    if k > 0 {
        operations_are_asked_about_in_order(run, credentials, operations, k - 1);
        assert(run.moves(k - 1));
    }
}

/// What was answered about an operation is told of its own row, at once, unless
/// it is still pending or could not be found out; and nothing else is told.
pub proof fn an_operation_is_told_of_its_row(
    run: Run,
    credentials: Credentials,
    operations: Vec<(String, String)>,
    k: int,
)
    requires
        run.of(BackendCommand::PollAssetOperations { credentials, operations }),
        0 < k < run.steps.len(),
    ensures
        run.steps[k].tell == (match (run.steps[k - 1].go, run.reply(k - 1)) {
            (
                Then::Ask(Stage::Asset(AssetStage::Polling { at, .. })),
                Reply::Outcome(Ok(outcome)),
            ) => if outcome is StillPending {
                None
            } else {
                Some(
                    BackendEvent::AssetOperationResolved {
                        row_id: operations@[at as int].0,
                        outcome,
                    },
                )
            },
            _ => None,
        }),
{
    operations_are_asked_about_in_order(run, credentials, operations, k - 1);
    assert(run.moves(k - 1));
}

// ---------------------------------------------------------------------------
// Verdicts
// ---------------------------------------------------------------------------

/// Whether a status is the first that is reported for an asset.
pub open spec fn is_status_of(
    statuses: Seq<(u64, ModerationStatus)>,
    asset_id: u64,
    status: ModerationStatus,
) -> bool {
    exists|p: int|
        0 <= p < statuses.len() && (#[trigger] statuses[p]).0 == asset_id && statuses[p].1 == status
            && forall|q: int| 0 <= q < p ==> (#[trigger] statuses[q]).0 != asset_id
}

/// Whether a status is reported for an asset.
pub open spec fn has_status(statuses: Seq<(u64, ModerationStatus)>, asset_id: u64) -> bool {
    exists|p: int| 0 <= p < statuses.len() && (#[trigger] statuses[p]).0 == asset_id
}

proof fn status_is_the_first(statuses: Seq<(u64, ModerationStatus)>, asset_id: u64)
    ensures
        match status_for(statuses, asset_id) {
            Some(status) => is_status_of(statuses, asset_id, status) && has_status(
                statuses,
                asset_id,
            ),
            None => !has_status(statuses, asset_id),
        },
    decreases statuses.len(),
{
    if statuses.len() > 0 {
        if statuses[0].0 == asset_id {
            assert(is_status_of(statuses, asset_id, statuses[0].1));
        } else {
            let rest = statuses.drop_first();
            status_is_the_first(rest, asset_id);
            match status_for(rest, asset_id) {
                Some(status) => {
                    let p = choose|p: int|
                        0 <= p < rest.len() && (#[trigger] rest[p]).0 == asset_id && rest[p].1
                            == status && forall|q: int|
                            0 <= q < p ==> (#[trigger] rest[q]).0 != asset_id;
                    assert(statuses[p + 1] == rest[p]);
                    assert forall|q: int| 0 <= q < p + 1 implies (#[trigger] statuses[q]).0
                        != asset_id by {
                        if q > 0 {
                            assert(rest[q - 1] == statuses[q]);
                        }
                    }
                    assert(is_status_of(statuses, asset_id, status));
                },
                None => {
                    if has_status(statuses, asset_id) {
                        let p = choose|p: int|
                            0 <= p < statuses.len() && (#[trigger] statuses[p]).0 == asset_id;
                        assert(rest[p - 1] == statuses[p]);
                    }
                },
            }
        }
    }
}

proof fn the_next_verdict_is_the_first(
    assets: Seq<(String, u64)>,
    statuses: Seq<(u64, ModerationStatus)>,
    at: int,
)
    requires
        0 <= at,
    ensures
        match next_verdict(assets, statuses, at) {
            Some(i) => {
                &&& at <= i < assets.len()
                &&& status_for(statuses, assets[i].1) is Some
                &&& forall|m: int| at <= m < i ==> !has_status(statuses, (#[trigger] assets[m]).1)
            },
            None => forall|m: int|
                at <= m < assets.len() ==> !has_status(statuses, (#[trigger] assets[m]).1),
        },
    decreases assets.len() - at,
{
    if at < assets.len() {
        status_is_the_first(statuses, assets[at].1);
        if status_for(statuses, assets[at].1) is None {
            the_next_verdict_is_the_first(assets, statuses, at + 1);
        }
    }
}

/// Which row the verdict of step `k` is from.
pub open spec fn told_from(run: Run, k: int) -> int {
    match run.steps[k].go {
        Then::Ask(Stage::Asset(AssetStage::Verdicts { at, .. })) => at as int,
        _ => -1,
    }
}

/// The statuses that were answered to a question about moderation.
pub open spec fn statuses_in(run: Run) -> Seq<(u64, ModerationStatus)> {
    match run.reply(1) {
        Reply::Statuses(Ok(statuses)) => statuses@,
        _ => Seq::empty(),
    }
}

/// Asking about moderation asks about the assets of the command, once, and tells
/// the rows one after the other: each row whose asset has a status gets that
/// status, in order, and no other row is told.
pub proof fn a_verdict_is_told_of_its_row(
    run: Run,
    credentials: Credentials,
    assets: Vec<(String, u64)>,
    k: int,
)
    requires
        run.of(BackendCommand::PollAssetModeration { credentials, assets }),
        run.has(k),
    ensures
        fails_without_cookie(run),
        k == 0 ==> opens_first(run, credentials, AssetGoal::Moderation(assets))
            && run.steps[0].tell is None,
        k == 1 && run.steps[1].go is Ask ==> run.steps[1].tell is None && (
        run.steps[1].go matches Then::Ask(
            Stage::Asset(AssetStage::AskingModeration { cookie, assets: asked }),
        ) && asked == assets && run.reply(0) == Reply::Cookie(Ok(cookie))),
        k >= 2 ==> match run.steps[k].go {
            Then::Ask(Stage::Asset(AssetStage::Verdicts { assets: rows, statuses, at })) => {
                &&& rows == assets
                &&& run.reply(1) == Reply::Statuses(Ok(statuses))
                &&& at <= assets@.len()
                &&& k == 2 ==> at == 0 && run.steps[k].tell is None
                &&& k > 2 ==> {
                    &&& told_from(run, k - 1) < at
                    &&& run.steps[k].tell matches Some(
                        BackendEvent::AssetModerationResolved { row_id, status },
                    ) && row_id == assets@[at - 1].0 && is_status_of(
                        statuses@,
                        assets@[at - 1].1,
                        status,
                    )
                    &&& forall|m: int|
                        told_from(run, k - 1) <= m < at - 1 ==> !has_status(
                            statuses@,
                            (#[trigger] assets@[m]).1,
                        )
                }
            },
            Then::Ask(_) => false,
            Then::Done(event) => {
                &&& event == BackendEvent::AssetPollBatchDone
                &&& run.steps[k].tell is None
                &&& k > 2 ==> forall|m: int|
                    told_from(run, k - 1) <= m < assets@.len() ==> !has_status(
                        statuses_in(run),
                        (#[trigger] assets@[m]).1,
                    )
                &&& k == 2 ==> (run.reply(1) matches Reply::Statuses(Err(_)))
            },
            Then::Failed(e) => k == 2 && e == TaskError::OutOfStep && !(run.reply(1) is Statuses),
            Then::UploadFailed { .. } => false,
        },
    decreases k,
{
    assert(assets.len() == assets@.len());
    if run.steps.len() > 1 {
        assert(run.moves(0));
    }
    if k > 0 {
        a_verdict_is_told_of_its_row(run, credentials, assets, k - 1);
        assert(run.moves(k - 1));
        if k > 2 {
            match run.steps[k - 1].go {
                Then::Ask(Stage::Asset(AssetStage::Verdicts { statuses, at, .. })) => {
                    the_next_verdict_is_the_first(assets@, statuses@, at as int);
                    match next_verdict(assets@, statuses@, at as int) {
                        Some(i) => {
                            status_is_the_first(statuses@, assets@[i].1);
                        },
                        None => {},
                    }
                },
                _ => {},
            }
        }
    }
}

// ---------------------------------------------------------------------------
// Grants
// ---------------------------------------------------------------------------

/// Whether a row is among those that stand for a granted asset.
pub open spec fn row_is_granted(
    row_assets: Seq<(String, u64)>,
    granted: Seq<u64>,
    row_id: String,
) -> bool {
    exists|i: int|
        0 <= i < row_assets.len() && (#[trigger] row_assets[i]).0 == row_id && granted.contains(
            row_assets[i].1,
        )
}

proof fn granted_rows_are_all(row_assets: Seq<(String, u64)>, granted: Seq<u64>, row_id: String)
    ensures
        granted_rows(row_assets, granted).contains(row_id) == row_is_granted(
            row_assets,
            granted,
            row_id,
        ),
    decreases row_assets.len(),
{
    let rows = granted_rows(row_assets, granted);
    if row_assets.len() > 0 {
        let front = row_assets.drop_last();
        let before = granted_rows(front, granted);
        granted_rows_are_all(front, granted, row_id);
        if rows.contains(row_id) {
            let m = choose|m: int| 0 <= m < rows.len() && rows[m] == row_id;
            if m < before.len() {
                assert(before[m] == row_id);
                let i = choose|i: int|
                    0 <= i < front.len() && (#[trigger] front[i]).0 == row_id && granted.contains(
                        front[i].1,
                    );
                assert(row_assets[i] == front[i]);
            } else {
                assert(row_assets[row_assets.len() - 1] == row_assets.last());
            }
        }
        if row_is_granted(row_assets, granted, row_id) {
            let i = choose|i: int|
                0 <= i < row_assets.len() && (#[trigger] row_assets[i]).0 == row_id
                    && granted.contains(row_assets[i].1);
            if i < front.len() {
                assert(front[i] == row_assets[i]);
                let m = choose|m: int| 0 <= m < before.len() && before[m] == row_id;
                assert(rows[m] == row_id);
            } else {
                assert(rows[rows.len() - 1] == row_id);
            }
        }
    }
}

/// A grant asks Roblox for the assets and the universe of the command, and tells
/// which rows were granted: exactly those that stand for an asset that Roblox
/// confirmed, with how many assets it granted and how many it refused. Where it
/// could not be asked, the universe is told with the reason.
pub proof fn a_grant_is_told_as_confirmed(
    run: Run,
    credentials: Credentials,
    universe_id: u64,
    asset_ids: Vec<u64>,
    row_assets: Vec<(String, u64)>,
    k: int,
)
    requires
        run.of(
            BackendCommand::GrantAssetPermissions {
                credentials,
                universe_id,
                asset_ids,
                row_assets,
            },
        ),
        run.has(k),
    ensures
        fails_without_cookie(run),
        run.steps[k].tell is None,
        k == 0 ==> opens_first(
            run,
            credentials,
            AssetGoal::Grant { universe_id, asset_ids, row_assets },
        ),
        k == 1 && run.steps[1].go is Ask ==> (run.reply(0) matches Reply::Cookie(Ok(cookie))
            && run.asks(
            1,
            Stage::Asset(AssetStage::Granting { cookie, universe_id, asset_ids, row_assets }),
        )),
        k == 1 ==> run.steps[1].go is Ask || run.steps[1].go is Failed,
        k >= 2 ==> k == 2 && match run.reply(1) {
            Reply::Granted(Ok(outcome)) => run.steps[2].go matches Then::Done(
                BackendEvent::AssetPermissionsGranted { universe_id: u, row_ids, granted, refused },
            ) && {
                &&& u == universe_id
                &&& granted == outcome.granted@.len()
                &&& refused == outcome.refused
                &&& forall|row_id: String| #[trigger]
                    row_ids@.contains(row_id) <==> row_is_granted(
                        row_assets@,
                        outcome.granted@,
                        row_id,
                    )
            },
            Reply::Granted(Err(e)) => run.steps[2].go == Then::Done(
                BackendEvent::AssetPermissionsFailed { universe_id, message: e.text },
            ),
            _ => run.steps[2].go == Then::Failed(TaskError::OutOfStep),
        },
    decreases k,
{
    if run.steps.len() > 1 {
        assert(run.moves(0));
    }
    if k > 0 {
        a_grant_is_told_as_confirmed(run, credentials, universe_id, asset_ids, row_assets, k - 1);
        assert(run.moves(k - 1));
        match run.steps[k].go {
            Then::Done(BackendEvent::AssetPermissionsGranted { row_ids, .. }) => {
                let granted = run.reply(1)->Granted_0->Ok_0.granted@;
                assert forall|row_id: String| #[trigger]
                    row_ids@.contains(row_id) <==> row_is_granted(row_assets@, granted, row_id) by {
                    granted_rows_are_all(row_assets@, granted, row_id);
                }
            },
            _ => {},
        }
    }
}

// ---------------------------------------------------------------------------
// Lists
// ---------------------------------------------------------------------------

/// The universes of an account are told for that account, as they were answered,
/// and none where they could not be had. A place that was asked about is told
/// together with the universe that was answered for it.
pub proof fn universes_are_told_for_their_account(
    run: Run,
    credentials: Credentials,
    place_id: Option<u64>,
    k: int,
)
    requires
        run.of(BackendCommand::FetchUniverseTargets { credentials, place_id }),
        run.has(k),
    ensures
        fails_without_cookie(run),
        run.steps[k].tell is None,
        k == 0 ==> opens_first(run, credentials, AssetGoal::Universes { place_id }),
        k == 1 && run.steps[1].go is Ask ==> (run.reply(0) matches Reply::Cookie(Ok(cookie))
            && run.asks(
            1,
            Stage::Asset(
                AssetStage::ListingUniverses { user_id: credentials.user_id, cookie, place_id },
            ),
        )),
        k == 2 && run.steps[2].go is Ask ==> (run.steps[2].go matches Then::Ask(
            Stage::Asset(AssetStage::ResolvingPlace { user_id, cookie, place_id: p, .. }),
        ) && user_id == credentials.user_id && Some(p) == place_id && run.reply(0)
            == Reply::Cookie(Ok(cookie))),
        run.steps[k].go matches Then::Done(event) ==> (
        event matches BackendEvent::UniverseTargetsFetched { user_id, universes, resolved_place } && {
            &&& user_id == credentials.user_id
            &&& (k == 2) == (place_id is None)
            &&& k == 2 || k == 3
            &&& match run.reply(1) {
                Reply::Universes(Ok(list)) => universes@ == list@,
                _ => universes@.len() == 0,
            }
            &&& match place_id {
                None => resolved_place is None,
                Some(place) => match run.reply(2) {
                    Reply::Universe(Ok(universe)) => resolved_place == Some((place, universe)),
                    _ => resolved_place is None,
                },
            }
        }),
        k > 1 ==> (run.steps[k].go is Failed <==> !fits_asset(
            asset_stage(run, k - 1),
            run.reply(k - 1),
        )),
        k <= 3,
{
    let cmd = BackendCommand::FetchUniverseTargets { credentials, place_id };
    a_cookie_is_opened_first(run, cmd, credentials, AssetGoal::Universes { place_id });
    if k > 1 {
        assert(run.moves(1));
    }
    if k > 2 {
        assert(run.moves(2));
    }
    if k > 3 {
        assert(run.moves(3));
    }
}

/// The groups that an account can publish under are told for that account, as
/// they were answered, and none where they could not be had.
pub proof fn groups_are_told_for_their_account(run: Run, credentials: Credentials, k: int)
    requires
        run.of(BackendCommand::FetchPublishGroups { credentials }),
        run.has(k),
    ensures
        fails_without_cookie(run),
        run.steps[k].tell is None,
        k == 0 ==> opens_first(run, credentials, AssetGoal::Groups),
        k == 1 && run.steps[1].go is Ask ==> (run.reply(0) matches Reply::Cookie(Ok(cookie))
            && run.asks(
            1,
            Stage::Asset(AssetStage::ListingGroups { user_id: credentials.user_id, cookie }),
        )),
        run.steps[k].go matches Then::Done(event) ==> (
        event matches BackendEvent::PublishGroupsFetched { user_id, groups } && k == 2 && user_id
            == credentials.user_id && match run.reply(1) {
            Reply::Groups(Ok(list)) => groups@ == list@,
            _ => groups@.len() == 0,
        }),
        k > 1 ==> k == 2 && (run.steps[2].go is Done <==> run.reply(1) is Groups),
{
    let cmd = BackendCommand::FetchPublishGroups { credentials };
    a_cookie_is_opened_first(run, cmd, credentials, AssetGoal::Groups);
    if k > 1 {
        assert(run.moves(1));
    }
    if k > 2 {
        assert(run.moves(2));
    }
}

/// A page of an inventory is asked for and told for the creator and the kind of
/// the command, as it was answered. A page that could not be had is empty and
/// comes with the reason.
pub proof fn a_page_is_told_for_its_creator(
    run: Run,
    credentials: Credentials,
    creator: Creator,
    kind: AssetKind,
    cursor: Option<String>,
    k: int,
)
    requires
        run.of(BackendCommand::FetchCreations { credentials, creator, kind, cursor }),
        run.has(k),
    ensures
        fails_without_cookie(run),
        run.steps[k].tell is None,
        k == 0 ==> opens_first(run, credentials, AssetGoal::Creations { creator, kind, cursor }),
        k == 1 && run.steps[1].go is Ask ==> (run.reply(0) matches Reply::Cookie(Ok(cookie))
            && run.asks(
            1,
            Stage::Asset(AssetStage::ListingCreations { cookie, creator, kind, cursor }),
        )),
        run.steps[k].go matches Then::Done(event) ==> (
        event matches BackendEvent::CreationsFetched { creator: c, kind: t, appended, page, error }
            && {
            &&& k == 2
            &&& c == creator
            &&& t == kind
            &&& appended == (cursor is Some)
            &&& match run.reply(1) {
                Reply::Page(Ok(answered)) => page == answered && error is None,
                Reply::Page(Err(e)) => page.items@.len() == 0 && page.next_cursor is None && error
                    == Some(e.text),
                _ => false,
            }
        }),
        k > 1 ==> k == 2 && (run.steps[2].go is Done <==> run.reply(1) is Page),
{
    let cmd = BackendCommand::FetchCreations { credentials, creator, kind, cursor };
    let goal = AssetGoal::Creations { creator, kind, cursor };
    a_cookie_is_opened_first(run, cmd, credentials, goal);
    if k > 1 {
        assert(run.moves(1));
    }
    if k > 2 {
        assert(run.moves(2));
    }
}

/// Thumbnails are told as they were answered, together with all that were asked
/// for, so that those that are missing are known.
pub proof fn thumbnails_are_told_with_what_was_asked(run: Run, asset_ids: Vec<u64>, k: int)
    requires
        run.of(BackendCommand::FetchAssetThumbnails { asset_ids }),
        run.has(k),
    ensures
        run.steps[k].tell is None,
        k == 0 ==> run.asks(0, Stage::Asset(AssetStage::FetchingThumbnails { asset_ids })),
        k > 0 ==> k == 1 && match run.reply(0) {
            Reply::Images(images) => run.steps[1].go == Then::Done(
                BackendEvent::AssetThumbnailsReady { requested: asset_ids, images },
            ),
            _ => run.steps[1].go == Then::Failed(TaskError::OutOfStep),
        },
{
    if k > 0 {
        assert(run.moves(0));
        if k > 1 {
            assert(run.moves(1));
        }
    }
}

} // verus!
