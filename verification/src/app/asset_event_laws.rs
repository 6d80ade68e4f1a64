//! What the window makes of what is reported about assets.

use vstd::prelude::*;

use super::asset_events::{retries, still_out};
use super::event_laws::{has_entry, pictures_are};
use super::events::event_applied;
use super::inventory::{holds_asset, of_other_kinds, with_cursor, with_items};
use super::queue_laws::{
    an_open_store_signs_for_its_accounts, jobs_are_of_rows, rows_have_jobs, rows_went, signs_for,
    what_is_sent_is_what_the_rows_say,
};
use super::results::{granted, planned, row_changed};
use super::round_laws::is_told;
use super::uploads::{filled_with, signing};
use super::{AppState, Clock, Effect};
use crate::asset_manager::TreeNode;
use crate::assets::{
    identified, row_in, AssetKind, AssetRecord, AssetState, Creator, ModerationStatus,
    OperationOutcome,
};
use crate::bridge::{BackendCommand, BackendEvent, CreationItem, CreationPage};
use crate::lists::{first_where_facts, first_where_is};
use crate::text::{decimal, parsed_u64};
use crate::toast::ToastLevel;

verus! {

/// Whether the row at `i` is the first under an identifier.
pub open spec fn is_row(records: Seq<AssetRecord>, row_id: Seq<char>, i: int) -> bool {
    &&& 0 <= i < records.len()
    &&& records[i].row_id@ == row_id
    &&& forall|j: int| 0 <= j < i ==> (#[trigger] records[j]).row_id@ != row_id
}

/// Whether no row has an identifier.
pub open spec fn is_no_row(records: Seq<AssetRecord>, row_id: Seq<char>) -> bool {
    forall|j: int| 0 <= j < records.len() ==> (#[trigger] records[j]).row_id@ != row_id
}

pub proof fn a_row_is_found(records: Seq<AssetRecord>, row_id: Seq<char>)
    ensures
        match row_in(records, row_id) {
            Some(i) => is_row(records, row_id, i),
            None => is_no_row(records, row_id),
        },
{
    first_where_facts(records, identified(row_id));
    assert forall|j: int| 0 <= j < records.len() implies identified(row_id)(
        #[trigger] records[j],
    ) == (records[j].row_id@ == row_id) by {}
}

pub proof fn the_row_is_found(records: Seq<AssetRecord>, row_id: Seq<char>, i: int)
    requires
        is_row(records, row_id, i),
    ensures
        row_in(records, row_id) == Some(i),
{
    assert forall|j: int| 0 <= j < i implies !identified(row_id)(#[trigger] records[j]) by {}
    first_where_is(records, identified(row_id), i);
}

/// Whether all rows but the one at `i` are as they were.
pub open spec fn others_stay(before: Seq<AssetRecord>, after: Seq<AssetRecord>, i: int) -> bool {
    &&& after.len() == before.len()
    &&& forall|j: int| 0 <= j < before.len() && j != i ==> (#[trigger] after[j]) == before[j]
}

/// What writing the index adds to the things to do: nothing where it must not be
/// written.
pub open spec fn index_writes(s: AppState) -> Seq<Effect> {
    if s.desk.read_only {
        Seq::empty()
    } else {
        seq![Effect::SaveAssetIndex]
    }
}

// ---------------------------------------------------------------------------
// Uploads
// ---------------------------------------------------------------------------

/// A file that was read leaves its hash and its size on its own row, which is
/// written at once.
pub proof fn a_hash_goes_to_its_row(
    s: AppState,
    t: AppState,
    row_id: String,
    file_sha256: String,
    file_bytes: u64,
    clock: Clock,
    i: int,
)
    requires
        event_applied(
            s,
            t,
            BackendEvent::AssetUploadStarted { row_id, file_sha256, file_bytes },
            clock,
        ),
        is_row(s.desk.index.records@, row_id@, i),
    ensures
        others_stay(s.desk.index.records@, t.desk.index.records@, i),
        t.desk.index.records@[i].file_sha256 == file_sha256,
        t.desk.index.records@[i].file_bytes == file_bytes,
        t.desk.index.records@[i] == (AssetRecord {
            file_sha256: t.desk.index.records@[i].file_sha256,
            file_bytes: t.desk.index.records@[i].file_bytes,
            ..s.desk.index.records@[i]
        }),
        t.out@ == s.out@ + index_writes(s),
{
    the_row_is_found(s.desk.index.records@, row_id@, i);
}

/// An upload that Roblox has taken waits under the operation that it named.
pub proof fn an_operation_goes_to_its_row(
    s: AppState,
    t: AppState,
    row_id: String,
    operation: String,
    started_at: i64,
    clock: Clock,
    i: int,
)
    requires
        event_applied(
            s,
            t,
            BackendEvent::AssetOperationCreated { row_id, operation, started_at },
            clock,
        ),
        is_row(s.desk.index.records@, row_id@, i),
    ensures
        others_stay(s.desk.index.records@, t.desk.index.records@, i),
        t.desk.index.records@[i].state == (AssetState::Pending { operation, since: started_at }),
        t.desk.index.records@[i] == (AssetRecord {
            state: t.desk.index.records@[i].state,
            updated_at: Some(started_at),
            ..s.desk.index.records@[i]
        }),
        t.out@ == s.out@ + index_writes(s),
{
    the_row_is_found(s.desk.index.records@, row_id@, i);
}

/// Whether the index was written with these rows, and the queue was then filled
/// from them.
pub open spec fn queue_follows(
    s: AppState,
    t: AppState,
    rows: Seq<AssetRecord>,
    sent: Seq<Effect>,
    clock: Clock,
) -> bool {
    &&& t.out@ == s.out@ + index_writes(s) + sent
    &&& rows_went(rows, t.desk.index.records@, clock.utc)
    &&& jobs_are_of_rows(rows, t.desk.index.records@, sent, signing(s))
    &&& rows_have_jobs(rows, t.desk.index.records@, sent, signing(s))
    &&& s.lock.needs_unlock ==> sent.len() == 0
}

proof fn a_changed_row_is_written_and_the_queue_follows(
    s: AppState,
    t: AppState,
    rows: Seq<AssetRecord>,
    toasts: crate::toast::ToastsView,
    clock: Clock,
)
    requires
        row_changed(s, t, rows, toasts, clock),
    ensures
        queue_follows(s, t, rows, filled_with(s, rows, clock).sent, clock),
{
    what_is_sent_is_what_the_rows_say(
        rows,
        s.timers.audio_upload,
        s.lock.needs_unlock,
        clock,
        signing(s),
    );
    assert(super::uploads::saving_index(s) =~= index_writes(s));
}

/// What became of a row whose operation is over.
pub open spec fn row_is_resolved(
    old: AssetRecord,
    new: AssetRecord,
    outcome: OperationOutcome,
    utc: i64,
) -> bool {
    &&& match outcome {
        OperationOutcome::StillPending => new == old,
        OperationOutcome::Approved { asset_id, revision_id } => new.state == (
        AssetState::InReview { asset_id, revision_id, since: utc }) && new.retry_at is None,
        OperationOutcome::Rejected { reason } => new.state == (AssetState::Rejected { reason })
            && new.retry_at == old.retry_at,
        OperationOutcome::Failed { message, retryable } => new.state == (AssetState::Failed {
            message,
            retryable,
        }) && new.retry_at == old.retry_at,
    }
    &&& new == (AssetRecord {
        state: new.state,
        retry_at: new.retry_at,
        updated_at: new.updated_at,
        ..old
    })
}

/// What became of an operation is noted on its own row: an approval puts it in
/// review with its asset, a rejection or a failure ends it with the reason, and
/// no other row is touched by it. Then the queue is filled.
pub proof fn an_outcome_goes_to_its_row(
    s: AppState,
    t: AppState,
    row_id: String,
    outcome: OperationOutcome,
    clock: Clock,
    i: int,
)
    requires
        event_applied(s, t, BackendEvent::AssetOperationResolved { row_id, outcome }, clock),
        is_row(s.desk.index.records@, row_id@, i),
    ensures
        outcome is StillPending ==> t == s,
        !(outcome is StillPending) ==> exists|rows: Seq<AssetRecord>, sent: Seq<Effect>|
            others_stay(s.desk.index.records@, rows, i) && row_is_resolved(
                s.desk.index.records@[i],
                rows[i],
                outcome,
                clock.utc,
            ) && #[trigger] queue_follows(s, t, rows, sent, clock),
{
    the_row_is_found(s.desk.index.records@, row_id@, i);
    if !(outcome is StillPending) {
        let rows = s.desk.index.records@.update(
            i,
            super::results::after_outcome(s.desk.index.records@[i], outcome, clock.utc),
        );
        a_changed_row_is_written_and_the_queue_follows(s, t, rows, t.toasts@, clock);
        assert(queue_follows(s, t, rows, filled_with(s, rows, clock).sent, clock));
    }
}

/// How long a row waits after its attempts so far: the first wait after none or
/// one, the second after two, and so on.
pub open spec fn wait_after(attempts: u32, waits: Seq<u64>) -> int {
    if attempts <= 1 {
        waits[0] as int
    } else {
        waits[attempts - 1] as int
    }
}

/// What became of a row whose upload failed: it goes back to the queue to wait
/// for its next attempt, where the failure passes and attempts are left, and has
/// failed with the reason otherwise.
pub open spec fn row_has_failed(
    s: AppState,
    old: AssetRecord,
    new: AssetRecord,
    message: String,
    retryable: bool,
    utc: i64,
) -> bool {
    &&& if retryable && old.attempts < s.rules.max_upload_attempts {
        let due = utc + wait_after(old.attempts, s.rules.retry_backoff@);
        &&& new.state is Queued
        &&& new.retry_at matches Some(at) && (if due <= i64::MAX {
            at == due
        } else {
            at == i64::MAX
        })
    } else {
        &&& new.state == (AssetState::Failed { message, retryable })
        &&& new.retry_at is None
    }
    &&& new == (AssetRecord {
        state: new.state,
        retry_at: new.retry_at,
        updated_at: new.updated_at,
        ..old
    })
}

/// A failed upload is tried again later or given up, on its own row alone, and
/// then the queue is filled.
pub proof fn a_failure_goes_to_its_row(
    s: AppState,
    t: AppState,
    row_id: String,
    message: String,
    retryable: bool,
    clock: Clock,
    i: int,
)
    requires
        event_applied(
            s,
            t,
            BackendEvent::AssetUploadFailed { row_id, message, retryable },
            clock,
        ),
        is_row(s.desk.index.records@, row_id@, i),
        s.inv(),
    ensures
        exists|rows: Seq<AssetRecord>, sent: Seq<Effect>|
            others_stay(s.desk.index.records@, rows, i) && row_has_failed(
                s,
                s.desk.index.records@[i],
                rows[i],
                message,
                retryable,
                clock.utc,
            ) && #[trigger] queue_follows(s, t, rows, sent, clock),
{
    the_row_is_found(s.desk.index.records@, row_id@, i);
    let rows = s.desk.index.records@.update(
        i,
        super::results::after_failure(
            s.desk.index.records@[i],
            message,
            retryable,
            s.rules.max_upload_attempts,
            s.rules.retry_backoff@,
            clock.utc,
        ),
    );
    a_changed_row_is_written_and_the_queue_follows(s, t, rows, t.toasts@, clock);
    assert(queue_follows(s, t, rows, filled_with(s, rows, clock).sent, clock));
}

/// What is reported of a row that is no longer there changes no row.
pub proof fn a_late_report_changes_no_row(
    s: AppState,
    t: AppState,
    event: BackendEvent,
    row_id: String,
    clock: Clock,
)
    requires
        event_applied(s, t, event, clock),
        is_no_row(s.desk.index.records@, row_id@),
        (event matches BackendEvent::AssetUploadStarted { row_id: r, .. } && r == row_id) || (
        event matches BackendEvent::AssetOperationCreated { row_id: r, .. } && r == row_id) || (
        event matches BackendEvent::AssetOperationResolved { row_id: r, .. } && r == row_id) || (
        event matches BackendEvent::AssetUploadFailed { row_id: r, .. } && r == row_id) || (
        event matches BackendEvent::AssetModerationResolved { row_id: r, .. } && r == row_id),
    ensures
        t.desk.index.records@ == s.desk.index.records@,
        t.toasts == s.toasts,
{
    a_row_is_found(s.desk.index.records@, row_id@);
}

// ---------------------------------------------------------------------------
// Verdicts and grants
// ---------------------------------------------------------------------------

/// Whether something to do grants these assets to a universe, for these rows,
/// signed for by an account that is there.
pub open spec fn is_grant(
    effect: Effect,
    s: AppState,
    signer: u64,
    universe: u64,
    assets: Seq<u64>,
    rows: Seq<(String, u64)>,
) -> bool {
    effect matches Effect::Send(
        BackendCommand::GrantAssetPermissions { credentials, universe_id, asset_ids, row_assets },
    ) && signs_for(credentials, signer, signing(s)) && universe_id == universe && asset_ids@
        == assets && row_assets@ == rows
}

/// A verdict counts for a row in review alone: an approval makes its very asset
/// usable and grants it to the universe that the row is meant for, signed for by
/// the account that uploaded it; a rejection ends it. No other row changes, and
/// a row that is not in review takes no verdict.
pub proof fn a_verdict_goes_to_its_row(
    s: AppState,
    t: AppState,
    row_id: String,
    status: ModerationStatus,
    clock: Clock,
    i: int,
)
    requires
        event_applied(s, t, BackendEvent::AssetModerationResolved { row_id, status }, clock),
        is_row(s.desk.index.records@, row_id@, i),
    ensures
        others_stay(s.desk.index.records@, t.desk.index.records@, i),
        match (s.desk.index.records@[i].state, status) {
            (
                AssetState::InReview { asset_id, revision_id, .. },
                ModerationStatus::Approved,
            ) => {
                let r = s.desk.index.records@[i];
                &&& t.desk.index.records@[i].state == (AssetState::Approved {
                    asset_id,
                    revision_id,
                })
                &&& match (r.auto_grant_universe, signing(s).credentials(r.uploaded_by)) {
                    (Some(universe), Some(_)) => {
                        let n = s.out@.len() as int;
                        &&& t.out@.len() == n + 1 + index_writes(s).len()
                        &&& t.out@.take(n) == s.out@
                        &&& is_grant(
                            t.out@[n],
                            s,
                            r.uploaded_by,
                            universe,
                            seq![asset_id],
                            seq![(r.row_id, asset_id)],
                        )
                    },
                    _ => t.out@ == s.out@ + index_writes(s),
                }
            },
            (AssetState::InReview { .. }, ModerationStatus::Rejected) => {
                &&& t.desk.index.records@[i].state is Rejected
                &&& t.out@ == s.out@ + index_writes(s)
            },
            _ => t == s,
        },
        t.desk.index.records@[i] == (AssetRecord {
            state: t.desk.index.records@[i].state,
            updated_at: t.desk.index.records@[i].updated_at,
            ..s.desk.index.records@[i]
        }),
{
    the_row_is_found(s.desk.index.records@, row_id@, i);
    an_open_store_signs_for_its_accounts(signing(s), s.desk.index.records@[i].uploaded_by);
    assert(super::uploads::saving_index(s) =~= index_writes(s));
}

/// A grant that Roblox made is noted on the rows that it was made for, once, and
/// on no others.
pub proof fn a_grant_goes_to_its_rows(
    s: AppState,
    t: AppState,
    universe_id: u64,
    row_ids: Vec<String>,
    granted: usize,
    refused: usize,
    clock: Clock,
    i: int,
)
    requires
        event_applied(
            s,
            t,
            BackendEvent::AssetPermissionsGranted { universe_id, row_ids, granted, refused },
            clock,
        ),
        0 <= i < s.desk.index.records@.len(),
    ensures
        t.desk.index.records@.len() == s.desk.index.records@.len(),
        (exists|k: int|
            0 <= k < row_ids@.len() && is_row(
                s.desk.index.records@,
                (#[trigger] row_ids@[k])@,
                i,
            )) ==> {
            let old = s.desk.index.records@[i];
            let new = t.desk.index.records@[i];
            &&& new.granted_universes@.contains(universe_id)
            &&& forall|u: u64| #[trigger]
                new.granted_universes@.contains(u) ==> u == universe_id
                    || old.granted_universes@.contains(u)
            &&& forall|u: u64| #[trigger]
                old.granted_universes@.contains(u) ==> new.granted_universes@.contains(u)
            &&& new.auto_grant_universe is None
            &&& new == (AssetRecord {
                granted_universes: new.granted_universes,
                auto_grant_universe: None,
                ..old
            })
        },
        !(exists|k: int|
            0 <= k < row_ids@.len() && is_row(
                s.desk.index.records@,
                (#[trigger] row_ids@[k])@,
                i,
            )) ==> t.desk.index.records@[i] == s.desk.index.records@[i],
        t.out@ == s.out@ + index_writes(s),
{
    let records = s.desk.index.records@;
    assert(super::uploads::saving_index(s) =~= index_writes(s));
    if exists|k: int| 0 <= k < row_ids@.len() && is_row(records, (#[trigger] row_ids@[k])@, i) {
        let k = choose|k: int| 0 <= k < row_ids@.len() && is_row(records, (#[trigger] row_ids@[k])@, i);
        the_row_is_found(records, row_ids@[k]@, i);
        assert(super::asset_events::row_named(records, row_ids@, row_ids@.len() as int, i));
        let old = records[i].granted_universes@;
        let new = t.desk.index.records@[i].granted_universes@;
        assert(super::asset_events::row_granted(records[i], t.desk.index.records@[i], universe_id));
        if !old.contains(universe_id) {
            assert(new[old.len() as int] == universe_id);
            assert forall|u: u64| #[trigger] new.contains(u) implies u == universe_id
                || old.contains(u) by {
                let m = choose|m: int| 0 <= m < new.len() && new[m] == u;
                if m < old.len() {
                    assert(old[m] == u);
                }
            }
            assert forall|u: u64| #[trigger] old.contains(u) implies new.contains(u) by {
                let m = choose|m: int| 0 <= m < old.len() && old[m] == u;
                assert(new[m] == u);
            }
        }
    } else {
        if super::asset_events::row_named(records, row_ids@, row_ids@.len() as int, i) {
            let k = choose|k: int|
                0 <= k < row_ids@.len() && row_in(records, (#[trigger] row_ids@[k])@) == Some(i);
            a_row_is_found(records, row_ids@[k]@);
            assert(is_row(records, row_ids@[k]@, i));
        }
    }
}

/// The asset that a key of a selection stands for: that of its row, where it is
/// one, and the number that it is otherwise.
pub open spec fn asset_of_key(records: Seq<AssetRecord>, key: Seq<char>, asset_id: u64) -> bool {
    ||| exists|i: int|
        #[trigger] is_row(records, key, i) && records[i].state.asset() == Some(asset_id)
    ||| is_no_row(records, key) && parsed_u64(key) == Some(asset_id)
}

/// Whether a key is the first of a selection that stands for a row with an asset,
/// and an account uploaded that row.
pub open spec fn is_first_finished(
    records: Seq<AssetRecord>,
    keys: Seq<String>,
    k: int,
    user_id: u64,
) -> bool {
    &&& exists|i: int|
        #[trigger] is_row(records, keys[k]@, i) && records[i].state.asset() is Some
            && records[i].uploaded_by == user_id
    &&& forall|j: int, r: int|
        0 <= j < k && #[trigger] is_row(records, (#[trigger] keys[j])@, r)
            ==> records[r].state.asset() is None
}

/// Whether an account signs for the grant of a selection: the one that uploaded
/// the first row of it that has an asset, or the one that acts where there is no
/// such row.
pub open spec fn is_signer(s: AppState, keys: Seq<String>, user_id: u64) -> bool {
    ||| exists|k: int|
        0 <= k < keys.len() && #[trigger] is_first_finished(
            s.desk.index.records@,
            keys,
            k,
            user_id,
        )
    ||| s.desk.panel.acting_user_id == Some(user_id) && forall|k: int, i: int|
        0 <= k < keys.len() && #[trigger] is_row(
            s.desk.index.records@,
            (#[trigger] keys[k])@,
            i,
        ) ==> s.desk.index.records@[i].state.asset() is None
}

/// Whether a selection stands for an asset.
pub open spec fn has_asset(records: Seq<AssetRecord>, keys: Seq<String>) -> bool {
    exists|k: int, asset_id: u64|
        0 <= k < keys.len() && #[trigger] asset_of_key(records, (#[trigger] keys[k])@, asset_id)
}

proof fn a_plan_is_of_its_keys(records: Seq<AssetRecord>, keys: Seq<String>)
    ensures
        forall|asset_id: u64| #[trigger]
            planned(records, keys).asset_ids.contains(asset_id) <==> exists|k: int|
                0 <= k < keys.len() && asset_of_key(records, (#[trigger] keys[k])@, asset_id),
        forall|m: int|
            0 <= m < planned(records, keys).row_assets.len() ==> {
                let pair = #[trigger] planned(records, keys).row_assets[m];
                &&& keys.contains(pair.0)
                &&& exists|i: int|
                    #[trigger] is_row(records, pair.0@, i) && records[i].state.asset() == Some(
                        pair.1,
                    )
            },
        forall|k: int, i: int|
            0 <= k < keys.len() && #[trigger] is_row(records, (#[trigger] keys[k])@, i)
                && records[i].state.asset() is Some ==> planned(records, keys).row_assets.contains(
                (keys[k], records[i].state.asset()->Some_0),
            ),
        planned(records, keys).uploader matches Some(u) ==> exists|k: int|
            0 <= k < keys.len() && #[trigger] is_first_finished(records, keys, k, u),
        planned(records, keys).uploader is None ==> forall|k: int, i: int|
            0 <= k < keys.len() && #[trigger] is_row(records, (#[trigger] keys[k])@, i)
                ==> records[i].state.asset() is None,
    decreases keys.len(),
{
    let plan = planned(records, keys);
    if keys.len() > 0 {
        let front = keys.drop_last();
        let key = keys.last();
        let before = planned(records, front);
        a_plan_is_of_its_keys(records, front);
        a_row_is_found(records, key@);
        assert forall|k: int| 0 <= k < front.len() implies #[trigger] keys[k] == front[k] by {}
        assert(keys[keys.len() - 1] == key);
        assert forall|i: int| #[trigger] is_row(records, key@, i) implies row_in(records, key@)
            == Some(i) by {
            the_row_is_found(records, key@, i);
        }
        assert forall|asset_id: u64| #[trigger] plan.asset_ids.contains(asset_id) <==> exists|k: int|
            0 <= k < keys.len() && asset_of_key(records, (#[trigger] keys[k])@, asset_id) by {
            if plan.asset_ids.contains(asset_id) {
                let m = choose|m: int| 0 <= m < plan.asset_ids.len() && plan.asset_ids[m] == asset_id;
                if m < before.asset_ids.len() {
                    assert(before.asset_ids[m] == asset_id);
                    assert(before.asset_ids.contains(asset_id));
                    let k = choose|k: int|
                        0 <= k < front.len() && asset_of_key(
                            records,
                            (#[trigger] front[k])@,
                            asset_id,
                        );
                    assert(asset_of_key(records, keys[k]@, asset_id));
                } else {
                    match row_in(records, key@) {
                        Some(i) => {
                            assert(is_row(records, key@, i));
                        },
                        None => {},
                    }
                    assert(asset_of_key(records, keys[keys.len() - 1]@, asset_id));
                }
            }
            if exists|k: int|
                0 <= k < keys.len() && asset_of_key(records, (#[trigger] keys[k])@, asset_id) {
                let k = choose|k: int|
                    0 <= k < keys.len() && asset_of_key(records, (#[trigger] keys[k])@, asset_id);
                if k < front.len() {
                    assert(asset_of_key(records, front[k]@, asset_id));
                    assert(before.asset_ids.contains(asset_id));
                    let m = choose|m: int|
                        0 <= m < before.asset_ids.len() && before.asset_ids[m] == asset_id;
                    assert(plan.asset_ids[m] == asset_id);
                } else {
                    assert(plan.asset_ids[before.asset_ids.len() as int] == asset_id);
                }
            }
        }
        assert forall|m: int| 0 <= m < plan.row_assets.len() implies {
            let pair = #[trigger] plan.row_assets[m];
            &&& keys.contains(pair.0)
            &&& exists|i: int|
                #[trigger] is_row(records, pair.0@, i) && records[i].state.asset() == Some(pair.1)
        } by {
            if m < before.row_assets.len() {
                let pair = before.row_assets[m];
                assert(front.contains(pair.0));
                let k = choose|k: int| 0 <= k < front.len() && front[k] == pair.0;
                assert(keys[k] == pair.0);
            } else {
                assert(keys[keys.len() - 1] == key);
                assert(is_row(records, key@, row_in(records, key@)->Some_0));
            }
        }
        assert forall|k: int, i: int|
            0 <= k < keys.len() && #[trigger] is_row(records, (#[trigger] keys[k])@, i)
                && records[i].state.asset() is Some implies plan.row_assets.contains(
            (keys[k], records[i].state.asset()->Some_0),
        ) by {
            let pair = (keys[k], records[i].state.asset()->Some_0);
            if k < front.len() {
                assert(is_row(records, front[k]@, i));
                assert(before.row_assets.contains(pair));
                let m = choose|m: int| 0 <= m < before.row_assets.len() && before.row_assets[m] == pair;
                assert(plan.row_assets[m] == pair);
            } else {
                assert(plan.row_assets[before.row_assets.len() as int] == pair);
            }
        }
        if before.uploader is Some {
            let u = before.uploader->Some_0;
            let k = choose|k: int|
                0 <= k < front.len() && #[trigger] is_first_finished(records, front, k, u);
            assert(is_first_finished(records, keys, k, u)) by {
                let i = choose|i: int|
                    #[trigger] is_row(records, front[k]@, i) && records[i].state.asset() is Some
                        && records[i].uploaded_by == u;
                assert(is_row(records, keys[k]@, i));
                assert forall|j: int, r: int|
                    0 <= j < k && #[trigger] is_row(
                        records,
                        (#[trigger] keys[j])@,
                        r,
                    ) implies records[r].state.asset() is None by {
                    assert(is_row(records, front[j]@, r));
                }
            }
        } else {
            match row_in(records, key@) {
                Some(i) => {
                    assert(is_row(records, keys[keys.len() - 1]@, i));
                    if plan.uploader is Some {
                        assert(is_first_finished(
                            records,
                            keys,
                            keys.len() - 1,
                            plan.uploader->Some_0,
                        )) by {
                            assert forall|j: int, r: int|
                                0 <= j < keys.len() - 1 && #[trigger] is_row(
                                    records,
                                    (#[trigger] keys[j])@,
                                    r,
                                ) implies records[r].state.asset() is None by {
                                assert(is_row(records, front[j]@, r));
                            }
                        }
                    }
                },
                None => {},
            }
            if plan.uploader is None {
                assert forall|k: int, i: int|
                    0 <= k < keys.len() && #[trigger] is_row(
                        records,
                        (#[trigger] keys[k])@,
                        i,
                    ) implies records[i].state.asset() is None by {
                    if k < front.len() {
                        assert(is_row(records, front[k]@, i));
                    }
                }
            }
        }
    }
}

/// Granting a selection asks Roblox for exactly the assets that the selection
/// stands for, for the universe that was chosen, and names the rows of the
/// selection that have assets, with their own. It is signed for by the account
/// that uploaded the first of those rows, or by the acting account where there is
/// none, and it is asked whenever the store is open, there is something to grant
/// and that account is there.
pub proof fn a_grant_is_of_the_selection(
    s: AppState,
    t: AppState,
    universe_id: u64,
    keys: Seq<String>,
    now: u64,
)
    requires
        granted(s, t, universe_id, keys, now),
    ensures
        t.out@ == s.out@ || (t.out@.len() == s.out@.len() + 1 && t.out@.drop_last() == s.out@),
        t.out@ != s.out@ ==> s.session is Some && (t.out@.last() matches Effect::Send(
            BackendCommand::GrantAssetPermissions {
                credentials,
                universe_id: u,
                asset_ids,
                row_assets,
            },
        ) && {
            &&& u == universe_id
            &&& asset_ids@.len() > 0
            &&& forall|asset_id: u64| #[trigger]
                asset_ids@.contains(asset_id) <==> exists|k: int|
                    0 <= k < keys.len() && asset_of_key(
                        s.desk.index.records@,
                        (#[trigger] keys[k])@,
                        asset_id,
                    )
            &&& forall|m: int|
                0 <= m < row_assets@.len() ==> {
                    let pair = #[trigger] row_assets@[m];
                    &&& keys.contains(pair.0)
                    &&& exists|i: int|
                        #[trigger] is_row(s.desk.index.records@, pair.0@, i)
                            && s.desk.index.records@[i].state.asset() == Some(pair.1)
                }
            &&& forall|k: int, i: int|
                0 <= k < keys.len() && #[trigger] is_row(
                    s.desk.index.records@,
                    (#[trigger] keys[k])@,
                    i,
                ) && s.desk.index.records@[i].state.asset() is Some ==> row_assets@.contains(
                    (keys[k], s.desk.index.records@[i].state.asset()->Some_0),
                )
            &&& signs_for(credentials, credentials.user_id, signing(s))
            &&& is_signer(s, keys, credentials.user_id)
        }),
        t.out@ == s.out@ ==> s.session is None || !has_asset(s.desk.index.records@, keys) || !(
        exists|user_id: u64| #[trigger]
            is_signer(s, keys, user_id) && exists|a: int|
                0 <= a < s.store.accounts@.len() && (#[trigger] s.store.accounts@[a]).user_id
                    == user_id),
{
    a_plan_is_of_its_keys(s.desk.index.records@, keys);
    let records = s.desk.index.records@;
    let plan = planned(records, keys);
    let signer = match plan.uploader {
        Some(u) => Some(u),
        None => s.desk.panel.acting_user_id,
    };
    match signer {
        Some(user_id) => {
            an_open_store_signs_for_its_accounts(signing(s), user_id);
            assert(is_signer(s, keys, user_id));
        },
        None => {},
    }
    if has_asset(records, keys) {
        let (k, asset_id) = choose|k: int, asset_id: u64|
            0 <= k < keys.len() && #[trigger] asset_of_key(records, (#[trigger] keys[k])@, asset_id);
        assert(plan.asset_ids.contains(asset_id));
        assert(plan.asset_ids.len() > 0);
    }
    assert forall|user_id: u64| #[trigger] is_signer(s, keys, user_id) implies signer == Some(
        user_id,
    ) by {
        there_is_one_signer(s, keys, user_id, plan.uploader);
    }
    if t.out@ == s.out@ && s.session is Some && plan.asset_ids.len() > 0 {
        match signer {
            Some(user_id) => {
                assert(signing(s).credentials(user_id) is None) by {
                    if signing(s).credentials(user_id) is Some {
                        assert(t.out@.len() == s.out@.len() + 1);
                    }
                }
            },
            None => {},
        }
    }
}

proof fn there_is_one_signer(s: AppState, keys: Seq<String>, user_id: u64, uploader: Option<u64>)
    requires
        is_signer(s, keys, user_id),
        uploader matches Some(u) ==> exists|k: int|
            0 <= k < keys.len() && #[trigger] is_first_finished(s.desk.index.records@, keys, k, u),
        uploader is None ==> forall|k: int, i: int|
            0 <= k < keys.len() && #[trigger] is_row(
                s.desk.index.records@,
                (#[trigger] keys[k])@,
                i,
            ) ==> s.desk.index.records@[i].state.asset() is None,
    ensures
        uploader matches Some(u) ==> u == user_id,
        uploader is None ==> s.desk.panel.acting_user_id == Some(user_id),
{
    let records = s.desk.index.records@;
    match uploader {
        Some(u) => {
            let k = choose|k: int|
                0 <= k < keys.len() && #[trigger] is_first_finished(records, keys, k, u);
            let i = choose|i: int|
                #[trigger] is_row(records, keys[k]@, i) && records[i].state.asset() is Some
                    && records[i].uploaded_by == u;
            if exists|n: int|
                0 <= n < keys.len() && #[trigger] is_first_finished(records, keys, n, user_id) {
                let n = choose|n: int|
                    0 <= n < keys.len() && #[trigger] is_first_finished(records, keys, n, user_id);
                let j = choose|j: int|
                    #[trigger] is_row(records, keys[n]@, j) && records[j].state.asset() is Some
                        && records[j].uploaded_by == user_id;
                if n < k {
                    assert(is_row(records, keys[n]@, j));
                } else if k < n {
                    assert(is_row(records, keys[k]@, i));
                } else {
                    the_row_is_found(records, keys[k]@, i);
                    the_row_is_found(records, keys[k]@, j);
                }
            } else {
                assert(is_row(records, keys[k]@, i));
            }
        },
        None => {
            if exists|n: int|
                0 <= n < keys.len() && #[trigger] is_first_finished(records, keys, n, user_id) {
                let n = choose|n: int|
                    0 <= n < keys.len() && #[trigger] is_first_finished(records, keys, n, user_id);
                let j = choose|j: int|
                    #[trigger] is_row(records, keys[n]@, j) && records[j].state.asset() is Some
                        && records[j].uploaded_by == user_id;
                assert(is_row(records, keys[n]@, j));
            }
        },
    }
}

// ---------------------------------------------------------------------------
// Pictures and lists
// ---------------------------------------------------------------------------

proof fn requests_are_settled(
    retry_at: Map<u64, u64>,
    inflight: Set<u64>,
    requested: Seq<u64>,
    images: Seq<(u64, Vec<u8>)>,
    again: u64,
    id: u64,
)
    ensures
        still_out(inflight, requested).contains(id) <==> inflight.contains(id)
            && !requested.contains(id),
        requested.contains(id) ==> (retries(retry_at, requested, images, again).contains_key(id)
            <==> !has_entry(images, id)),
        requested.contains(id) && !has_entry(images, id) ==> retries(
            retry_at,
            requested,
            images,
            again,
        )[id] == again,
        !requested.contains(id) ==> (retries(retry_at, requested, images, again).contains_key(id)
            <==> retry_at.contains_key(id)),
        !requested.contains(id) && retry_at.contains_key(id) ==> retries(
            retry_at,
            requested,
            images,
            again,
        )[id] == retry_at[id],
    decreases requested.len(),
{
    if requested.len() > 0 {
        let front = requested.drop_last();
        let last = requested.last();
        requests_are_settled(retry_at, inflight, front, images, again, id);
        assert(requested.contains(id) == (front.contains(id) || id == last)) by {
            if requested.contains(id) {
                let m = choose|m: int| 0 <= m < requested.len() && requested[m] == id;
                if m < front.len() {
                    assert(front[m] == id);
                }
            }
            if front.contains(id) {
                let m = choose|m: int| 0 <= m < front.len() && front[m] == id;
                assert(requested[m] == id);
            }
            if id == last {
                assert(requested[requested.len() - 1] == id);
            }
        }
        assert(super::asset_events::brings(images, last) == has_entry(images, last));
    }
}

/// Thumbnails that come in are kept under their assets. Each that was asked for
/// is no longer out; one that did not come is asked for again later, and one
/// that did is not.
pub proof fn thumbnails_are_kept_or_asked_for_again(
    s: AppState,
    t: AppState,
    requested: Vec<u64>,
    images: Vec<(u64, Vec<u8>)>,
    clock: Clock,
    id: u64,
)
    requires
        event_applied(s, t, BackendEvent::AssetThumbnailsReady { requested, images }, clock),
    ensures
        pictures_are(s.pictures.thumbnails@, t.pictures.thumbnails@, images@),
        t.pictures.inflight@.contains(id) <==> s.pictures.inflight@.contains(id)
            && !requested@.contains(id),
        requested@.contains(id) && !has_entry(images@, id) ==> t.pictures.retry_at@.contains_key(id)
            && t.pictures.retry_at@[id] >= clock.now,
        requested@.contains(id) && has_entry(images@, id) ==> !t.pictures.retry_at@.contains_key(id),
        !requested@.contains(id) ==> t.pictures.retry_at@.contains_key(id)
            == s.pictures.retry_at@.contains_key(id),
        t.desk == s.desk && t.out == s.out && t.toasts == s.toasts,
{
    let again = super::asset_events::from_now(
        clock.now,
        super::asset_events::THUMBNAIL_RETRY,
    );
    requests_are_settled(
        s.pictures.retry_at@,
        s.pictures.inflight@,
        requested@,
        images@,
        again,
        id,
    );
    super::event_laws::pictures_are_kept(s.pictures.thumbnails@, images@);
}

proof fn every_item_of_a_page_is_listed(items: Seq<CreationItem>, page: Seq<CreationItem>)
    ensures
        forall|i: int| 0 <= i < items.len() ==> #[trigger] with_items(items, page)[i] == items[i],
        with_items(items, page).len() >= items.len(),
        forall|p: int|
            0 <= p < page.len() ==> holds_asset(
                with_items(items, page),
                (#[trigger] page[p]).asset_id,
            ),
        forall|i: int|
            items.len() <= i < with_items(items, page).len() ==> page.contains(
                #[trigger] with_items(items, page)[i],
            ),
    decreases page.len(),
{
    if page.len() > 0 {
        let front = page.drop_last();
        every_item_of_a_page_is_listed(items, front);
        let mid = with_items(items, front);
        let all = with_items(items, page);
        assert forall|p: int| 0 <= p < page.len() implies holds_asset(
            all,
            (#[trigger] page[p]).asset_id,
        ) by {
            if p < front.len() {
                assert(front[p] == page[p]);
                let i = choose|i: int|
                    0 <= i < mid.len() && (#[trigger] mid[i]).asset_id == page[p].asset_id;
                assert(all[i] == mid[i]);
            } else if holds_asset(mid, page.last().asset_id) {
            } else {
                assert(all[mid.len() as int].asset_id == page[p].asset_id);
            }
        }
        assert forall|i: int| items.len() <= i < all.len() implies page.contains(
            #[trigger] all[i],
        ) by {
            if i < mid.len() {
                assert(all[i] == mid[i]);
                let m = choose|m: int| 0 <= m < front.len() && front[m] == mid[i];
                assert(page[m] == all[i]);
            } else {
                assert(page[page.len() - 1] == all[i]);
            }
        }
    }
}

/// A page of the inventory that is shown is added to it: what was listed stays,
/// every asset of the page is listed, and nothing else. A page of another
/// inventory, or of a kind that is not shown, changes nothing.
pub proof fn a_page_is_added_to_its_inventory(
    s: AppState,
    t: AppState,
    creator: Creator,
    kind: AssetKind,
    appended: bool,
    page: CreationPage,
    error: Option<String>,
    clock: Clock,
)
    requires
        event_applied(
            s,
            t,
            BackendEvent::CreationsFetched { creator, kind, appended, page, error },
            clock,
        ),
    ensures
        ({
            let shown = s.desk.remote.node == Some(TreeNode::Inventory(creator)) && (
            s.desk.remote.filter matches Some(k) ==> k == kind);
            let before = s.desk.remote.items@;
            let after = t.desk.remote.items@;
            &&& !shown ==> t == s
            &&& shown ==> {
                &&& after.len() >= before.len()
                &&& forall|i: int| 0 <= i < before.len() ==> #[trigger] after[i] == before[i]
                &&& forall|p: int|
                    0 <= p < page.items@.len() ==> holds_asset(
                        after,
                        (#[trigger] page.items@[p]).asset_id,
                    )
                &&& forall|i: int|
                    before.len() <= i < after.len() ==> page.items@.contains(#[trigger] after[i])
                &&& t.desk.remote.inflight == (if s.desk.remote.inflight > 0 {
                    s.desk.remote.inflight - 1
                } else {
                    0
                })
                &&& t.desk.remote.node == s.desk.remote.node
                &&& t.desk.remote.filter == s.desk.remote.filter
                &&& forall|c: (AssetKind, String)| #[trigger]
                    t.desk.remote.cursors@.contains(c) <==> (c.0 != kind
                        && s.desk.remote.cursors@.contains(c)) || (c.0 == kind && page.next_cursor
                        == Some(c.1))
                &&& t.desk.remote.error == (if error is Some && after.len() == 0
                    && s.desk.remote.inflight <= 1 {
                    error
                } else {
                    s.desk.remote.error
                })
                &&& t.out == s.out && t.toasts == s.toasts
            }
        }),
{
    every_item_of_a_page_is_listed(s.desk.remote.items@, page.items@);
    cursors_are_kept(s.desk.remote.cursors@, kind, page.next_cursor);
}

proof fn cursors_are_kept(
    cursors: Seq<(AssetKind, String)>,
    kind: AssetKind,
    next: Option<String>,
)
    ensures
        forall|c: (AssetKind, String)| #[trigger]
            with_cursor(cursors, kind, next).contains(c) <==> (c.0 != kind && cursors.contains(c))
                || (c.0 == kind && next == Some(c.1)),
{
    let p = of_other_kinds(kind);
    let kept = cursors.filter(p);
    let all = with_cursor(cursors, kind, next);
    assert forall|c: (AssetKind, String)| #[trigger] all.contains(c) <==> (c.0 != kind
        && cursors.contains(c)) || (c.0 == kind && next == Some(c.1)) by {
        if all.contains(c) {
            let m = choose|m: int| 0 <= m < all.len() && all[m] == c;
            if m < kept.len() {
                assert(kept[m] == c);
                cursors.lemma_filter_pred(p, m);
                cursors.lemma_filter_contains_rev(p, c);
            }
        }
        if c.0 != kind && cursors.contains(c) {
            let m = choose|m: int| 0 <= m < cursors.len() && cursors[m] == c;
            cursors.lemma_filter_contains(p, m);
            let n = choose|n: int| 0 <= n < kept.len() && kept[n] == c;
            assert(all[n] == c);
        }
        if c.0 == kind && next == Some(c.1) {
            assert(all[kept.len() as int] == c);
        }
    }
}

/// The experiences of an account are kept as that account's, and a place that
/// was looked up chooses its experience; the groups of an account are kept only
/// while it is the one that acts.
pub proof fn targets_and_groups_are_kept_for_their_account(
    s: AppState,
    t: AppState,
    event: BackendEvent,
    clock: Clock,
)
    requires
        event_applied(s, t, event, clock),
    ensures
        event matches BackendEvent::UniverseTargetsFetched { user_id, universes, resolved_place }
            ==> {
            &&& t.desk.universe_targets == universes
            &&& t.desk.universe_targets_user == Some(user_id)
            &&& t.desk.panel.grant_universe == (match resolved_place {
                Some(found) => Some(found.1),
                None => s.desk.panel.grant_universe,
            })
        },
        event matches BackendEvent::PublishGroupsFetched { user_id, groups } ==> {
            if s.desk.panel.acting_user_id == Some(user_id) {
                t.desk.publish_groups == groups
            } else {
                t == s
            }
        },
{
}

/// The user is told what became of their assets, by name and with the reason: an
/// upload that was rejected or failed for good, a verdict, and how many assets a
/// universe was granted and refused.
pub proof fn the_user_is_told_about_assets(
    s: AppState,
    t: AppState,
    event: BackendEvent,
    clock: Clock,
    row_id: Seq<char>,
    i: int,
)
    requires
        event_applied(s, t, event, clock),
        is_row(s.desk.index.records@, row_id, i),
    ensures
        ({
            let r = s.desk.index.records@[i];
            &&& event matches BackendEvent::AssetOperationResolved { row_id: id, outcome } ==> id@
                == row_id ==> match outcome {
                OperationOutcome::Rejected { reason } => is_told(
                    s,
                    t,
                    r.display_name@ + " was rejected: "@ + reason@,
                    ToastLevel::Error,
                    clock.now,
                ),
                OperationOutcome::Failed { message, .. } => is_told(
                    s,
                    t,
                    r.display_name@ + " failed: "@ + message@,
                    ToastLevel::Error,
                    clock.now,
                ),
                _ => t.toasts@ == s.toasts@,
            }
            &&& event matches BackendEvent::AssetUploadFailed { row_id: id, message, retryable }
                ==> id@ == row_id ==> if retryable && r.attempts < s.rules.max_upload_attempts {
                t.toasts@ == s.toasts@
            } else {
                is_told(
                    s,
                    t,
                    r.display_name@ + " failed: "@ + message@,
                    ToastLevel::Error,
                    clock.now,
                )
            }
            &&& event matches BackendEvent::AssetModerationResolved { row_id: id, status } ==> id@
                == row_id ==> (r.state matches AssetState::InReview { asset_id, .. } ==> (
            status is Approved ==> is_told(
                s,
                t,
                r.display_name@ + " approved as "@ + decimal(asset_id as nat),
                ToastLevel::Success,
                clock.now,
            )) && (status is Rejected ==> is_told(
                s,
                t,
                r.display_name@ + " was rejected: Moderation blocked asset "@ + decimal(
                    asset_id as nat,
                ),
                ToastLevel::Error,
                clock.now,
            )))
        }),
{
    the_row_is_found(s.desk.index.records@, row_id, i);
    reveal_strlit(" was rejected: Moderation blocked asset ");
    reveal_strlit(" was rejected: ");
    reveal_strlit("Moderation blocked asset ");
    let r = s.desk.index.records@[i];
    match r.state {
        AssetState::InReview { asset_id, .. } => {
            assert(r.display_name@ + " was rejected: Moderation blocked asset "@ + decimal(
                asset_id as nat,
            ) =~= r.display_name@ + " was rejected: "@ + ("Moderation blocked asset "@ + decimal(
                asset_id as nat,
            )));
        },
        _ => {},
    }
}

/// The user is told how many assets a universe was granted, and how many were
/// refused.
pub proof fn the_user_is_told_about_grants(
    s: AppState,
    t: AppState,
    universe_id: u64,
    row_ids: Vec<String>,
    granted: usize,
    refused: usize,
    clock: Clock,
)
    requires
        event_applied(
            s,
            t,
            BackendEvent::AssetPermissionsGranted { universe_id, row_ids, granted, refused },
            clock,
        ),
    ensures
        ({
            let text = "Granted "@ + decimal(granted as nat) + " asset(s) to universe "@ + decimal(
                universe_id as nat,
            );
            &&& refused == 0 ==> is_told(s, t, text, ToastLevel::Success, clock.now)
            &&& refused > 0 ==> is_told(
                s,
                t,
                text + ", "@ + decimal(refused as nat) + " refused. See the log for which."@,
                ToastLevel::Warning,
                clock.now,
            )
        }),
{
}

/// Whether an event is one that changes rows of the index.
pub open spec fn is_about_rows(event: BackendEvent) -> bool {
    ||| event is AssetUploadStarted
    ||| event is AssetOperationCreated
    ||| event is AssetOperationResolved
    ||| event is AssetUploadFailed
    ||| event is AssetModerationResolved
    ||| event is AssetPermissionsGranted
}

/// Nothing but what is reported of rows changes a row.
#[verifier::rlimit(80)]
#[verifier::spinoff_prover]
pub proof fn other_reports_leave_the_rows_alone(
    s: AppState,
    t: AppState,
    event: BackendEvent,
    clock: Clock,
)
    requires
        event_applied(s, t, event, clock),
        !is_about_rows(event),
    ensures
        t.desk.index == s.desk.index,
        t.desk.read_only == s.desk.read_only,
{
}

} // verus!
