//! Asking about uploads, granting assets, listing inventories.

use vstd::prelude::*;

use super::{
    ask, asking, done, ending, failed, failing, CookieUse, Next, Reply, Stage, TaskError, Then,
};
use crate::assets::{AssetKind, Creator, ModerationStatus, OperationOutcome};
use crate::bridge::{BackendEvent, CreationPage, Credentials, GroupTarget, UniverseTarget};
use crate::models::lists;

verus! {

/// Milliseconds between two questions of one batch.
pub const POLL_SPACING_MS: u64 = 250;

/// What an account's cookie is opened for.
#[derive(Debug)]
pub enum AssetGoal {
    Poll(Vec<(String, String)>),
    Moderation(Vec<(String, u64)>),
    Grant { universe_id: u64, asset_ids: Vec<u64>, row_assets: Vec<(String, u64)> },
    Universes { place_id: Option<u64> },
    Groups,
    Creations { creator: Creator, kind: AssetKind, cursor: Option<String> },
}

/// How far an asset command has come.
#[allow(inconsistent_fields)]
#[derive(Debug)]
pub enum AssetStage {
    /// Open the cookie. Answered by `Cookie`.
    OpeningCookie { credentials: Credentials, goal: AssetGoal },
    /// What became of the operation at `at`? Answered by `Outcome`.
    Polling { cookie: String, operations: Vec<(String, String)>, at: usize },
    /// Wait before the operation at `at`. Answered by `Go`.
    Pacing { cookie: String, operations: Vec<(String, String)>, at: usize },
    /// Have these assets cleared moderation? Answered by `Statuses`.
    AskingModeration { cookie: String, assets: Vec<(String, u64)> },
    /// Nothing to ask; tell the verdicts from `at` on. Answered by `Go`.
    Verdicts { assets: Vec<(String, u64)>, statuses: Vec<(u64, ModerationStatus)>, at: usize },
    /// Grant the assets. Answered by `Granted`.
    Granting { cookie: String, universe_id: u64, asset_ids: Vec<u64>, row_assets: Vec<(String, u64)> },
    /// List the account's universes. Answered by `Universes`.
    ListingUniverses { user_id: u64, cookie: String, place_id: Option<u64> },
    /// Which universe has this place? Answered by `Universe`.
    ResolvingPlace { user_id: u64, cookie: String, universes: Vec<UniverseTarget>, place_id: u64 },
    /// List the account's groups. Answered by `Groups`.
    ListingGroups { user_id: u64, cookie: String },
    /// One page of an inventory. Answered by `Page`.
    ListingCreations { cookie: String, creator: Creator, kind: AssetKind, cursor: Option<String> },
    /// Thumbnails. Answered by `Images`, empty where none could be had.
    FetchingThumbnails { asset_ids: Vec<u64> },
}

/// The first question of an asset command.
pub open spec fn asset_begun(credentials: Credentials, goal: AssetGoal) -> Next {
    if super::has_cookie(credentials) {
        ask(Stage::Asset(AssetStage::OpeningCookie { credentials, goal }))
    } else {
        failed(TaskError::NoCookie(CookieUse::Account))
    }
}

/// The first question of an asset command.
pub fn begin_asset(credentials: Credentials, goal: AssetGoal) -> (n: Next)
    ensures
        n == asset_begun(credentials, goal),
{
    if super::cookie_at_hand(&credentials) {
        asking(Stage::Asset(AssetStage::OpeningCookie { credentials, goal }))
    } else {
        failing(TaskError::NoCookie(CookieUse::Account))
    }
}

/// The status that was reported for an asset, if any.
pub open spec fn status_for(statuses: Seq<(u64, ModerationStatus)>, asset_id: u64) -> Option<
    ModerationStatus,
>
    decreases statuses.len(),
{
    if statuses.len() == 0 {
        None
    } else if statuses[0].0 == asset_id {
        Some(statuses[0].1)
    } else {
        status_for(statuses.drop_first(), asset_id)
    }
}

fn find_status(statuses: &Vec<(u64, ModerationStatus)>, asset_id: u64) -> (r: Option<
    ModerationStatus,
>)
    ensures
        r == status_for(statuses@, asset_id),
{
    let mut i: usize = 0;
    assert(statuses@.skip(0) =~= statuses@);
    while i < statuses.len()
        invariant
            0 <= i <= statuses@.len(),
            status_for(statuses@, asset_id) == status_for(statuses@.skip(i as int), asset_id),
        decreases statuses@.len() - i,
    {
        if statuses[i].0 == asset_id {
            return Some(statuses[i].1);
        }
        assert(statuses@.skip(i as int).drop_first() =~= statuses@.skip(i + 1));
        i += 1;
    }
    None
}

/// The first row from `at` on that got a verdict.
pub open spec fn next_verdict(
    assets: Seq<(String, u64)>,
    statuses: Seq<(u64, ModerationStatus)>,
    at: int,
) -> Option<int>
    decreases assets.len() - at,
{
    if at < 0 || at >= assets.len() {
        None
    } else if status_for(statuses, assets[at].1) is Some {
        Some(at)
    } else {
        next_verdict(assets, statuses, at + 1)
    }
}

/// The first row from `at` on that got a verdict, and the verdict.
fn find_verdict(
    assets: &Vec<(String, u64)>,
    statuses: &Vec<(u64, ModerationStatus)>,
    at: usize,
) -> (r: Option<(usize, ModerationStatus)>)
    requires
        at <= assets@.len(),
    ensures
        match r {
            Some((k, status)) => next_verdict(assets@, statuses@, at as int) == Some(k as int) && k
                < assets@.len() && status_for(statuses@, assets@[k as int].1) == Some(status),
            None => next_verdict(assets@, statuses@, at as int) is None,
        },
{
    let mut k: usize = at;
    while k < assets.len()
        invariant
            at <= k <= assets@.len(),
            next_verdict(assets@, statuses@, at as int) == next_verdict(
                assets@,
                statuses@,
                k as int,
            ),
        decreases assets@.len() - k,
    {
        match find_status(statuses, assets[k].1) {
            Some(status) => {
                return Some((k, status));
            },
            None => {},
        }
        k += 1;
    }
    None
}

/// The rows of those pairs whose asset was granted, in order.
pub open spec fn granted_rows(row_assets: Seq<(String, u64)>, granted: Seq<u64>) -> Seq<String>
    decreases row_assets.len(),
{
    if row_assets.len() == 0 {
        Seq::empty()
    } else {
        let front = granted_rows(row_assets.drop_last(), granted);
        if granted.contains(row_assets.last().1) {
            front.push(row_assets.last().0)
        } else {
            front
        }
    }
}

fn rows_granted(row_assets: &Vec<(String, u64)>, granted: &Vec<u64>) -> (r: Vec<String>)
    ensures
        r@ == granted_rows(row_assets@, granted@),
{
    let mut rows: Vec<String> = Vec::new();
    let mut i: usize = 0;
    while i < row_assets.len()
        invariant
            0 <= i <= row_assets@.len(),
            rows@ == granted_rows(row_assets@.take(i as int), granted@),
        decreases row_assets@.len() - i,
    {
        assert(row_assets@.take(i + 1).drop_last() =~= row_assets@.take(i as int));
        if lists(granted, row_assets[i].1) {
            rows.push(row_assets[i].0.clone());
        }
        i += 1;
    }
    assert(row_assets@.take(i as int) =~= row_assets@);
    rows
}

/// Only rows that Roblox confirmed are reported as granted.
pub proof fn only_confirmed_rows_are_granted(
    row_assets: Seq<(String, u64)>,
    granted: Seq<u64>,
    k: int,
)
    requires
        0 <= k < granted_rows(row_assets, granted).len(),
    ensures
        exists|i: int|
            0 <= i < row_assets.len() && (#[trigger] row_assets[i]).0 == granted_rows(
                row_assets,
                granted,
            )[k] && granted.contains(row_assets[i].1),
    decreases row_assets.len(),
{
    let front = row_assets.drop_last();
    if k < granted_rows(front, granted).len() {
        only_confirmed_rows_are_granted(front, granted, k);
        let i = choose|i: int|
            0 <= i < front.len() && (#[trigger] front[i]).0 == granted_rows(front, granted)[k]
                && granted.contains(front[i].1);
        assert(row_assets[i] == front[i]);
    } else {
        assert(row_assets[row_assets.len() - 1] == row_assets.last());
    }
}

/// The operation at `at` is next, or the batch is done.
pub open spec fn poll_next(cookie: String, operations: Vec<(String, String)>, at: int) -> Then {
    if at < operations@.len() {
        Then::Ask(Stage::Asset(AssetStage::Pacing { cookie, operations, at: at as usize }))
    } else {
        Then::Done(BackendEvent::AssetPollBatchDone)
    }
}

/// The first question once the cookie is open.
pub open spec fn asset_opened(user_id: u64, cookie: String, goal: AssetGoal) -> Next {
    match goal {
        AssetGoal::Poll(operations) => if operations@.len() > 0 {
            ask(Stage::Asset(AssetStage::Polling { cookie, operations, at: 0 }))
        } else {
            done(BackendEvent::AssetPollBatchDone)
        },
        AssetGoal::Moderation(assets) => ask(
            Stage::Asset(AssetStage::AskingModeration { cookie, assets }),
        ),
        AssetGoal::Grant { universe_id, asset_ids, row_assets } => ask(
            Stage::Asset(AssetStage::Granting { cookie, universe_id, asset_ids, row_assets }),
        ),
        AssetGoal::Universes { place_id } => ask(
            Stage::Asset(AssetStage::ListingUniverses { user_id, cookie, place_id }),
        ),
        AssetGoal::Groups => ask(Stage::Asset(AssetStage::ListingGroups { user_id, cookie })),
        AssetGoal::Creations { creator, kind, cursor } => ask(
            Stage::Asset(AssetStage::ListingCreations { cookie, creator, kind, cursor }),
        ),
    }
}

fn open_asset(user_id: u64, cookie: String, goal: AssetGoal) -> (n: Next)
    ensures
        n == asset_opened(user_id, cookie, goal),
{
    match goal {
        AssetGoal::Poll(operations) => {
            if operations.len() > 0 {
                asking(Stage::Asset(AssetStage::Polling { cookie, operations, at: 0 }))
            } else {
                ending(BackendEvent::AssetPollBatchDone)
            }
        },
        AssetGoal::Moderation(assets) => asking(
            Stage::Asset(AssetStage::AskingModeration { cookie, assets }),
        ),
        AssetGoal::Grant { universe_id, asset_ids, row_assets } => asking(
            Stage::Asset(AssetStage::Granting { cookie, universe_id, asset_ids, row_assets }),
        ),
        AssetGoal::Universes { place_id } => asking(
            Stage::Asset(AssetStage::ListingUniverses { user_id, cookie, place_id }),
        ),
        AssetGoal::Groups => asking(Stage::Asset(AssetStage::ListingGroups { user_id, cookie })),
        AssetGoal::Creations { creator, kind, cursor } => asking(
            Stage::Asset(AssetStage::ListingCreations { cookie, creator, kind, cursor }),
        ),
    }
}

/// Whether the list is `from`, or empty where `from` is a failure.
pub open spec fn listed<T>(list: Seq<T>, from: Result<Vec<T>, super::CoreError>) -> bool {
    match from {
        Ok(v) => list == v@,
        Err(_) => list.len() == 0,
    }
}

/// What a reply to a stage of an asset command leads to.
pub open spec fn asset_follows(stage: AssetStage, reply: Reply, n: Next) -> bool {
    match stage {
        AssetStage::OpeningCookie { credentials, goal } => match reply {
            Reply::Cookie(Ok(cookie)) => n == asset_opened(credentials.user_id, cookie, goal),
            Reply::Cookie(Err(e)) => n == failed(TaskError::Core(e)),
            _ => n == failed(TaskError::OutOfStep),
        },
        AssetStage::Polling { cookie, operations, at } => match reply {
            Reply::Outcome(r) => n == (Next {
                tell: match r {
                    Ok(outcome) => if outcome is StillPending {
                        None
                    } else {
                        Some(
                            BackendEvent::AssetOperationResolved {
                                row_id: operations@[at as int].0,
                                outcome,
                            },
                        )
                    },
                    Err(_) => None,
                },
                go: poll_next(cookie, operations, at + 1),
            }),
            _ => n == failed(TaskError::OutOfStep),
        },
        AssetStage::Pacing { cookie, operations, at } => match reply {
            Reply::Go => n == ask(Stage::Asset(AssetStage::Polling { cookie, operations, at })),
            _ => n == failed(TaskError::OutOfStep),
        },
        AssetStage::AskingModeration { assets, .. } => match reply {
            Reply::Statuses(Ok(statuses)) => n == ask(
                Stage::Asset(AssetStage::Verdicts { assets, statuses, at: 0 }),
            ),
            Reply::Statuses(Err(_)) => n == done(BackendEvent::AssetPollBatchDone),
            _ => n == failed(TaskError::OutOfStep),
        },
        AssetStage::Verdicts { assets, statuses, at } => match next_verdict(
            assets@,
            statuses@,
            at as int,
        ) {
            Some(k) => n == (Next {
                tell: Some(
                    BackendEvent::AssetModerationResolved {
                        row_id: assets@[k].0,
                        status: status_for(statuses@, assets@[k].1)->Some_0,
                    },
                ),
                go: Then::Ask(
                    Stage::Asset(AssetStage::Verdicts { assets, statuses, at: (k + 1) as usize }),
                ),
            }),
            None => n == done(BackendEvent::AssetPollBatchDone),
        },
        AssetStage::Granting { universe_id, row_assets, .. } => match reply {
            Reply::Granted(Ok(outcome)) => {
                &&& n.tell is None
                &&& n.go matches Then::Done(
                    BackendEvent::AssetPermissionsGranted {
                        universe_id: u,
                        row_ids,
                        granted,
                        refused,
                    },
                ) && u == universe_id && row_ids@ == granted_rows(row_assets@, outcome.granted@)
                    && granted == outcome.granted@.len() && refused == outcome.refused
            },
            Reply::Granted(Err(e)) => n == done(
                BackendEvent::AssetPermissionsFailed { universe_id, message: e.text },
            ),
            _ => n == failed(TaskError::OutOfStep),
        },
        AssetStage::ListingUniverses { user_id, cookie, place_id } => match reply {
            Reply::Universes(r) => {
                &&& n.tell is None
                &&& match place_id {
                    Some(wanted) => n.go matches Then::Ask(
                        Stage::Asset(
                            AssetStage::ResolvingPlace {
                                user_id: u,
                                cookie: c,
                                universes,
                                place_id: p,
                            },
                        ),
                    ) && u == user_id && c == cookie && p == wanted && listed(universes@, r),
                    None => n.go matches Then::Done(
                        BackendEvent::UniverseTargetsFetched {
                            user_id: u,
                            universes,
                            resolved_place,
                        },
                    ) && u == user_id && resolved_place is None && listed(universes@, r),
                }
            },
            _ => n == failed(TaskError::OutOfStep),
        },
        AssetStage::ResolvingPlace { user_id, universes, place_id, .. } => match reply {
            Reply::Universe(r) => n == done(
                BackendEvent::UniverseTargetsFetched {
                    user_id,
                    universes,
                    resolved_place: match r {
                        Ok(universe_id) => Some((place_id, universe_id)),
                        Err(_) => None,
                    },
                },
            ),
            _ => n == failed(TaskError::OutOfStep),
        },
        AssetStage::ListingGroups { user_id, .. } => match reply {
            Reply::Groups(r) => {
                &&& n.tell is None
                &&& n.go matches Then::Done(
                    BackendEvent::PublishGroupsFetched { user_id: u, groups },
                ) && u == user_id && listed(groups@, r)
            },
            _ => n == failed(TaskError::OutOfStep),
        },
        AssetStage::ListingCreations { creator, kind, cursor, .. } => match reply {
            Reply::Page(Ok(page)) => n == done(
                BackendEvent::CreationsFetched {
                    creator,
                    kind,
                    appended: cursor is Some,
                    page,
                    error: None,
                },
            ),
            Reply::Page(Err(e)) => {
                &&& n.tell is None
                &&& n.go matches Then::Done(
                    BackendEvent::CreationsFetched { creator: c, kind: k, appended, page, error },
                ) && c == creator && k == kind && appended == (cursor is Some)
                    && page.items@.len() == 0 && page.next_cursor is None && error == Some(e.text)
            },
            _ => n == failed(TaskError::OutOfStep),
        },
        AssetStage::FetchingThumbnails { asset_ids } => match reply {
            Reply::Images(images) => n == done(
                BackendEvent::AssetThumbnailsReady { requested: asset_ids, images },
            ),
            _ => n == failed(TaskError::OutOfStep),
        },
    }
}

/// What can be relied on at a stage.
pub open spec fn asset_wf(stage: AssetStage) -> bool {
    match stage {
        AssetStage::Polling { operations, at, .. } => at < operations@.len(),
        AssetStage::Pacing { operations, at, .. } => at < operations@.len(),
        AssetStage::Verdicts { assets, at, .. } => at <= assets@.len(),
        _ => true,
    }
}

/// The next step of an asset command.
pub fn resume_asset(stage: AssetStage, reply: Reply) -> (n: Next)
    requires
        asset_wf(stage),
    ensures
        asset_follows(stage, reply, n),
        n.go matches Then::Ask(next) ==> super::stage_wf(next),
{
    match stage {
        AssetStage::OpeningCookie { credentials, goal } => match reply {
            Reply::Cookie(Ok(cookie)) => open_asset(credentials.user_id, cookie, goal),
            Reply::Cookie(Err(e)) => failing(TaskError::Core(e)),
            _ => failing(TaskError::OutOfStep),
        },
        AssetStage::Polling { cookie, operations, at } => match reply {
            Reply::Outcome(r) => {
                let tell: Option<BackendEvent> = match r {
                    Ok(OperationOutcome::StillPending) => None,
                    Ok(outcome) => Some(
                        BackendEvent::AssetOperationResolved {
                            row_id: operations[at].0.clone(),
                            outcome,
                        },
                    ),
                    Err(_) => None,
                };
                let size: usize = operations.len();
                let next: usize = at + 1;
                let go: Then = if next < size {
                    Then::Ask(Stage::Asset(AssetStage::Pacing { cookie, operations, at: next }))
                } else {
                    Then::Done(BackendEvent::AssetPollBatchDone)
                };
                Next { tell, go }
            },
            _ => failing(TaskError::OutOfStep),
        },
        AssetStage::Pacing { cookie, operations, at } => match reply {
            Reply::Go => asking(Stage::Asset(AssetStage::Polling { cookie, operations, at })),
            _ => failing(TaskError::OutOfStep),
        },
        AssetStage::AskingModeration { assets, .. } => match reply {
            Reply::Statuses(Ok(statuses)) => asking(
                Stage::Asset(AssetStage::Verdicts { assets, statuses, at: 0 }),
            ),
            Reply::Statuses(Err(_)) => ending(BackendEvent::AssetPollBatchDone),
            _ => failing(TaskError::OutOfStep),
        },
        AssetStage::Verdicts { assets, statuses, at } => {
            match find_verdict(&assets, &statuses, at) {
                Some((k, status)) => {
                    let row_id: String = assets[k].0.clone();
                    let size: usize = assets.len();
                    assert(k < size);
                    Next {
                        tell: Some(BackendEvent::AssetModerationResolved { row_id, status }),
                        go: Then::Ask(
                            Stage::Asset(AssetStage::Verdicts { assets, statuses, at: k + 1 }),
                        ),
                    }
                },
                None => ending(BackendEvent::AssetPollBatchDone),
            }
        },
        AssetStage::Granting { universe_id, row_assets, .. } => match reply {
            Reply::Granted(Ok(outcome)) => {
                let row_ids: Vec<String> = rows_granted(&row_assets, &outcome.granted);
                ending(
                    BackendEvent::AssetPermissionsGranted {
                        universe_id,
                        row_ids,
                        granted: outcome.granted.len(),
                        refused: outcome.refused,
                    },
                )
            },
            Reply::Granted(Err(e)) => ending(
                BackendEvent::AssetPermissionsFailed { universe_id, message: e.text },
            ),
            _ => failing(TaskError::OutOfStep),
        },
        AssetStage::ListingUniverses { user_id, cookie, place_id } => match reply {
            Reply::Universes(r) => {
                let universes: Vec<UniverseTarget> = match r {
                    Ok(v) => v,
                    Err(_) => Vec::new(),
                };
                match place_id {
                    Some(wanted) => asking(
                        Stage::Asset(
                            AssetStage::ResolvingPlace {
                                user_id,
                                cookie,
                                universes,
                                place_id: wanted,
                            },
                        ),
                    ),
                    None => ending(
                        BackendEvent::UniverseTargetsFetched {
                            user_id,
                            universes,
                            resolved_place: None,
                        },
                    ),
                }
            },
            _ => failing(TaskError::OutOfStep),
        },
        AssetStage::ResolvingPlace { user_id, universes, place_id, .. } => match reply {
            Reply::Universe(r) => {
                let resolved_place: Option<(u64, u64)> = match r {
                    Ok(universe_id) => Some((place_id, universe_id)),
                    Err(_) => None,
                };
                ending(BackendEvent::UniverseTargetsFetched { user_id, universes, resolved_place })
            },
            _ => failing(TaskError::OutOfStep),
        },
        AssetStage::ListingGroups { user_id, .. } => match reply {
            Reply::Groups(r) => {
                let groups: Vec<GroupTarget> = match r {
                    Ok(v) => v,
                    Err(_) => Vec::new(),
                };
                ending(BackendEvent::PublishGroupsFetched { user_id, groups })
            },
            _ => failing(TaskError::OutOfStep),
        },
        AssetStage::ListingCreations { creator, kind, cursor, .. } => match reply {
            Reply::Page(Ok(page)) => ending(
                BackendEvent::CreationsFetched {
                    creator,
                    kind,
                    appended: cursor.is_some(),
                    page,
                    error: None,
                },
            ),
            Reply::Page(Err(e)) => ending(
                BackendEvent::CreationsFetched {
                    creator,
                    kind,
                    appended: cursor.is_some(),
                    page: CreationPage { items: Vec::new(), next_cursor: None },
                    error: Some(e.text),
                },
            ),
            _ => failing(TaskError::OutOfStep),
        },
        AssetStage::FetchingThumbnails { asset_ids } => match reply {
            Reply::Images(images) => ending(
                BackendEvent::AssetThumbnailsReady { requested: asset_ids, images },
            ),
            _ => failing(TaskError::OutOfStep),
        },
    }
}

} // verus!
