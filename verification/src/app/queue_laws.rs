//! What filling the upload queue sends, and what it leaves alone.

use vstd::prelude::*;

use super::uploads::{
    as_duplicate, as_sent, audio_may_start, counts_after_update, fill, free_slots, job_for,
    marking_duplicates_sends_nothing, next_to_send, pumped, queued_count, ready, uploading_count,
    without_duplicates, Pump, Signing, MAX_CONCURRENT_UPLOADS,
};
use super::{Clock, Effect};
use crate::assets::{landed, uploaded_as, AssetKind, AssetRecord, AssetState};
use crate::bridge::{BackendCommand, Credentials, UploadJob};
use crate::lists::{first_where, first_where_facts};
use crate::models::position_facts;

verus! {

/// Whether credentials are those of an account that is there: its own cookie,
/// under the key of the open store.
pub open spec fn signs_for(credentials: Credentials, user_id: u64, signing: Signing) -> bool {
    &&& credentials.user_id == user_id
    &&& Some(credentials.session) == signing.session
    &&& credentials.use_credential_manager == signing.use_credential_manager
    &&& exists|a: int|
        0 <= a < signing.accounts.len() && (#[trigger] signing.accounts[a]).user_id == user_id
            && credentials.encrypted_cookie == signing.accounts[a].encrypted_cookie
}

/// Whether a job is that of a row: it publishes the file of the row, under its
/// name and description, as its kind and under its creator, and the account
/// that uploads the row signs for it.
pub open spec fn is_job_of(job: UploadJob, r: AssetRecord, signing: Signing) -> bool {
    &&& job.row_id == r.row_id
    &&& job.file_path == r.file_path
    &&& job.display_name == r.display_name
    &&& job.description == r.description
    &&& job.kind == r.kind
    &&& job.creator == r.creator
    &&& signs_for(job.credentials, r.uploaded_by, signing)
}

/// Whether something to do is the upload of a row.
pub open spec fn uploads_row(effect: Effect, r: AssetRecord, signing: Signing) -> bool {
    effect matches Effect::Send(BackendCommand::UploadAsset(job)) && is_job_of(*job, r, signing)
}

/// Whether the time of a row has come.
pub open spec fn is_due(r: AssetRecord, utc: i64) -> bool {
    r.retry_at matches Some(at) ==> at <= utc
}

/// Whether one of the rows stands for an asset with these bytes under this
/// creator.
pub open spec fn is_on_roblox(records: Seq<AssetRecord>, r: AssetRecord, asset_id: u64) -> bool {
    exists|d: int|
        0 <= d < records.len() && (#[trigger] records[d]).file_sha256@ == r.file_sha256@
            && r.file_sha256@.len() > 0 && records[d].creator == r.creator
            && records[d].state.asset() == Some(asset_id)
}

/// What may have become of a row of the queue: it is as it was; or it was
/// waiting and due, and its file is being sent once more; or it was waiting, and
/// its file is on Roblox already.
pub open spec fn row_went(before: Seq<AssetRecord>, i: int, new: AssetRecord, utc: i64) -> bool {
    let old = before[i];
    ||| new == old
    ||| {
        &&& old.state is Queued && is_due(old, utc)
        &&& new.state is Uploading
        &&& new.attempts == old.attempts + 1 || (old.attempts == u32::MAX && new.attempts
            == u32::MAX)
        &&& new.retry_at is None
        &&& new == (AssetRecord {
            state: new.state,
            attempts: new.attempts,
            retry_at: new.retry_at,
            ..old
        })
    }
    ||| {
        &&& old.state is Queued && is_due(old, utc)
        &&& new.state matches AssetState::Duplicate { asset_id } && is_on_roblox(
            before,
            old,
            asset_id,
        )
        &&& new == (AssetRecord { state: new.state, ..old })
    }
}

/// Whether all rows went one of these ways.
pub open spec fn rows_went(before: Seq<AssetRecord>, after: Seq<AssetRecord>, utc: i64) -> bool {
    &&& after.len() == before.len()
    &&& forall|i: int| 0 <= i < after.len() ==> row_went(before, i, #[trigger] after[i], utc)
}

/// Whether a row was taken from the queue and is being sent.
pub open spec fn newly_sent(before: Seq<AssetRecord>, after: Seq<AssetRecord>, i: int) -> bool {
    before[i].state is Queued && after[i].state is Uploading
}

/// Whether something to do is the upload of a row that was newly sent.
pub open spec fn is_of_a_row(
    before: Seq<AssetRecord>,
    after: Seq<AssetRecord>,
    effect: Effect,
    signing: Signing,
) -> bool {
    exists|i: int|
        0 <= i < before.len() && newly_sent(before, after, i) && #[trigger] uploads_row(
            effect,
            before[i],
            signing,
        )
}

/// Whether each of the things to do is the upload of a row that was newly sent.
pub open spec fn jobs_are_of_rows(
    before: Seq<AssetRecord>,
    after: Seq<AssetRecord>,
    sent: Seq<Effect>,
    signing: Signing,
) -> bool {
    forall|m: int| 0 <= m < sent.len() ==> is_of_a_row(before, after, #[trigger] sent[m], signing)
}

/// Whether the upload of a row is among the things to do.
pub open spec fn has_job(sent: Seq<Effect>, r: AssetRecord, signing: Signing) -> bool {
    exists|m: int| 0 <= m < sent.len() && #[trigger] uploads_row(sent[m], r, signing)
}

/// Whether each row that was newly sent has its upload among the things to do.
pub open spec fn rows_have_jobs(
    before: Seq<AssetRecord>,
    after: Seq<AssetRecord>,
    sent: Seq<Effect>,
    signing: Signing,
) -> bool {
    forall|i: int|
        0 <= i < before.len() && #[trigger] newly_sent(before, after, i) ==> has_job(
            sent,
            before[i],
            signing,
        )
}

pub proof fn uploaded_means_on_roblox(records: Seq<AssetRecord>, r: AssetRecord)
    ensures
        uploaded_as(records, r.file_sha256@, r.creator) matches Some(asset_id) ==> is_on_roblox(
            records,
            r,
            asset_id,
        ),
{
    first_where_facts(records, |x: AssetRecord| landed(x, r.file_sha256@, r.creator));
}

proof fn on_roblox_stays(
    before: Seq<AssetRecord>,
    now: Seq<AssetRecord>,
    r: AssetRecord,
    asset_id: u64,
    utc: i64,
)
    requires
        rows_went(before, now, utc),
        is_on_roblox(now, r, asset_id),
    ensures
        is_on_roblox(before, r, asset_id),
{
    let d = choose|d: int|
        0 <= d < now.len() && (#[trigger] now[d]).file_sha256@ == r.file_sha256@
            && r.file_sha256@.len() > 0 && now[d].creator == r.creator && now[d].state.asset()
            == Some(asset_id);
    assert(row_went(before, d, now[d], utc));
    if now[d] == before[d] {
    } else {
        let e = choose|e: int|
            0 <= e < before.len() && (#[trigger] before[e]).file_sha256@ == before[d].file_sha256@
                && before[d].file_sha256@.len() > 0 && before[e].creator == before[d].creator
                && before[e].state.asset() == Some(asset_id);
        assert(before[e].file_sha256@ == r.file_sha256@);
    }
}

proof fn marking_keeps_the_rows(
    before: Seq<AssetRecord>,
    records: Seq<AssetRecord>,
    utc: i64,
    audio_ok: bool,
)
    requires
        rows_went(before, records, utc),
    ensures
        rows_went(before, without_duplicates(records, utc, audio_ok), utc),
        without_duplicates(records, utc, audio_ok).len() == records.len(),
        forall|i: int|
            0 <= i < records.len() ==> {
                let new = #[trigger] without_duplicates(records, utc, audio_ok)[i];
                ||| new == records[i]
                ||| records[i].state is Queued && new.state is Duplicate
            },
    decreases queued_count(records),
{
    first_where_facts(records, ready(utc, audio_ok));
    match first_where(records, ready(utc, audio_ok)) {
        Some(i) => match uploaded_as(records, records[i].file_sha256@, records[i].creator) {
            Some(asset_id) => {
                let marked = as_duplicate(records[i], asset_id);
                let next = records.update(i, marked);
                counts_after_update(records, i, marked);
                uploaded_means_on_roblox(records, records[i]);
                on_roblox_stays(before, records, records[i], asset_id, utc);
                assert(row_went(before, i, records[i], utc));
                assert(is_on_roblox(before, before[i], asset_id));
                assert forall|k: int| 0 <= k < next.len() implies row_went(
                    before,
                    k,
                    #[trigger] next[k],
                    utc,
                ) by {
                    if k != i {
                        assert(row_went(before, k, records[k], utc));
                    }
                }
                marking_keeps_the_rows(before, next, utc, audio_ok);
                let last = without_duplicates(records, utc, audio_ok);
                assert forall|k: int| 0 <= k < records.len() implies {
                    ||| (#[trigger] last[k]) == records[k]
                    ||| records[k].state is Queued && last[k].state is Duplicate
                } by {
                    assert(last[k] == next[k] || (next[k].state is Queued && last[k].state
                        is Duplicate));
                }
            },
            None => {},
        },
        None => {},
    }
}

proof fn credentials_sign(signing: Signing, user_id: u64)
    ensures
        signing.credentials(user_id) matches Some(c) ==> signs_for(c, user_id, signing),
{
    position_facts(signing.accounts, user_id);
}

proof fn marking_keeps_the_jobs(
    before: Seq<AssetRecord>,
    now: Seq<AssetRecord>,
    marked: Seq<AssetRecord>,
    sent: Seq<Effect>,
    signing: Signing,
)
    requires
        jobs_are_of_rows(before, now, sent, signing),
        rows_have_jobs(before, now, sent, signing),
        now.len() == before.len(),
        marked.len() == now.len(),
        forall|i: int|
            0 <= i < now.len() ==> {
                ||| (#[trigger] marked[i]) == now[i]
                ||| now[i].state is Queued && marked[i].state is Duplicate
            },
    ensures
        jobs_are_of_rows(before, marked, sent, signing),
        rows_have_jobs(before, marked, sent, signing),
{
    assert forall|m: int| 0 <= m < sent.len() implies is_of_a_row(
        before,
        marked,
        #[trigger] sent[m],
        signing,
    ) by {
        assert(is_of_a_row(before, now, sent[m], signing));
        let i = choose|i: int|
            0 <= i < before.len() && newly_sent(before, now, i) && #[trigger] uploads_row(
                sent[m],
                before[i],
                signing,
            );
        assert(marked[i] == now[i]);
        assert(uploads_row(sent[m], before[i], signing));
    }
    assert forall|i: int| 0 <= i < before.len() && #[trigger] newly_sent(
        before,
        marked,
        i,
    ) implies has_job(sent, before[i], signing) by {
        assert(marked[i] == now[i]);
        assert(newly_sent(before, now, i));
    }
}

proof fn sending_keeps_the_jobs(
    before: Seq<AssetRecord>,
    now: Seq<AssetRecord>,
    sent: Seq<Effect>,
    signing: Signing,
    i: int,
    new: AssetRecord,
    effect: Effect,
)
    requires
        jobs_are_of_rows(before, now, sent, signing),
        rows_have_jobs(before, now, sent, signing),
        now.len() == before.len(),
        0 <= i < before.len(),
        now[i] == before[i],
        before[i].state is Queued,
        new.state is Uploading,
        uploads_row(effect, before[i], signing),
    ensures
        jobs_are_of_rows(before, now.update(i, new), sent.push(effect), signing),
        rows_have_jobs(before, now.update(i, new), sent.push(effect), signing),
{
    let next = now.update(i, new);
    let all = sent.push(effect);
    assert forall|m: int| 0 <= m < all.len() implies is_of_a_row(
        before,
        next,
        #[trigger] all[m],
        signing,
    ) by {
        if m < sent.len() {
            assert(all[m] == sent[m]);
            assert(is_of_a_row(before, now, sent[m], signing));
            let a = choose|a: int|
                0 <= a < before.len() && newly_sent(before, now, a) && #[trigger] uploads_row(
                    sent[m],
                    before[a],
                    signing,
                );
            assert(newly_sent(before, next, a));
            assert(uploads_row(all[m], before[a], signing));
        } else {
            assert(newly_sent(before, next, i));
            assert(uploads_row(all[m], before[i], signing));
        }
    }
    assert forall|a: int| 0 <= a < before.len() && #[trigger] newly_sent(
        before,
        next,
        a,
    ) implies has_job(all, before[a], signing) by {
        if a == i {
            assert(uploads_row(all[sent.len() as int], before[i], signing));
        } else {
            assert(newly_sent(before, now, a));
            let m = choose|m: int|
                0 <= m < sent.len() && #[trigger] uploads_row(sent[m], before[a], signing);
            assert(uploads_row(all[m], before[a], signing));
        }
    }
}

proof fn pumping_keeps_to_the_rows(
    before: Seq<AssetRecord>,
    p: Pump,
    clock: Clock,
    signing: Signing,
    slots: nat,
)
    requires
        rows_went(before, p.records, clock.utc),
        jobs_are_of_rows(before, p.records, p.sent, signing),
        rows_have_jobs(before, p.records, p.sent, signing),
    ensures
        rows_went(before, pumped(p, clock, signing, slots).records, clock.utc),
        jobs_are_of_rows(
            before,
            pumped(p, clock, signing, slots).records,
            pumped(p, clock, signing, slots).sent,
            signing,
        ),
        rows_have_jobs(
            before,
            pumped(p, clock, signing, slots).records,
            pumped(p, clock, signing, slots).sent,
            signing,
        ),
    decreases slots,
{
    if slots > 0 {
        let audio_ok = audio_may_start(p.records, p.audio_at, clock.now);
        let records = without_duplicates(p.records, clock.utc, audio_ok);
        marking_keeps_the_rows(before, p.records, clock.utc, audio_ok);
        marking_keeps_the_jobs(before, p.records, records, p.sent, signing);
        first_where_facts(records, ready(clock.utc, audio_ok));
        match next_to_send(records, clock.utc, audio_ok, signing) {
            None => {},
            Some(i) => {
                let credentials = signing.credentials(records[i].uploaded_by)->Some_0;
                credentials_sign(signing, records[i].uploaded_by);
                let job = job_for(records[i], credentials);
                let effect = Effect::Send(BackendCommand::UploadAsset(Box::new(job)));
                let next = records.update(i, as_sent(records[i]));
                assert(row_went(before, i, records[i], clock.utc));
                assert(records[i] == before[i]);
                assert(uploads_row(effect, before[i], signing));
                assert forall|k: int| 0 <= k < next.len() implies row_went(
                    before,
                    k,
                    #[trigger] next[k],
                    clock.utc,
                ) by {
                    if k != i {
                        assert(row_went(before, k, records[k], clock.utc));
                    }
                }
                sending_keeps_the_jobs(
                    before,
                    records,
                    p.sent,
                    signing,
                    i,
                    as_sent(records[i]),
                    effect,
                );
                let rest = Pump {
                    records: next,
                    audio_at: if records[i].kind == AssetKind::Audio {
                        Some(clock.now)
                    } else {
                        p.audio_at
                    },
                    sent: p.sent.push(effect),
                };
                pumping_keeps_to_the_rows(before, rest, clock, signing, (slots - 1) as nat);
            },
        }
    }
}

/// What the queue sends is what its rows say. Each upload that filling the queue
/// sends is that of a row that was waiting and due: its file, its name and
/// description, its kind and its creator, signed for by the account that uploads
/// it. Each row that is newly being sent has such an upload, and all other rows
/// are as they were, but for those whose file turned out to be on Roblox
/// already under their creator.
pub proof fn what_is_sent_is_what_the_rows_say(
    records: Seq<AssetRecord>,
    audio_at: Option<u64>,
    locked: bool,
    clock: Clock,
    signing: Signing,
)
    ensures
        rows_went(records, fill(records, audio_at, locked, clock, signing).records, clock.utc),
        jobs_are_of_rows(
            records,
            fill(records, audio_at, locked, clock, signing).records,
            fill(records, audio_at, locked, clock, signing).sent,
            signing,
        ),
        rows_have_jobs(
            records,
            fill(records, audio_at, locked, clock, signing).records,
            fill(records, audio_at, locked, clock, signing).sent,
            signing,
        ),
        locked ==> fill(records, audio_at, locked, clock, signing).sent.len() == 0 && fill(
            records,
            audio_at,
            locked,
            clock,
            signing,
        ).records == records,
{
    let p = Pump { records, audio_at, sent: Seq::empty() };
    assert forall|i: int| 0 <= i < records.len() implies !#[trigger] newly_sent(
        records,
        records,
        i,
    ) by {}
    pumping_keeps_to_the_rows(records, p, clock, signing, free_slots(records));
}

/// Whether a row can be sent now: it waits, its time has come, and it is no
/// audio file while one is on its way or was sent a moment ago.
pub open spec fn can_go(
    records: Seq<AssetRecord>,
    audio_at: Option<u64>,
    clock: Clock,
    i: int,
) -> bool {
    &&& 0 <= i < records.len()
    &&& records[i].state is Queued
    &&& is_due(records[i], clock.utc)
    &&& records[i].kind == AssetKind::Audio ==> audio_may_start(records, audio_at, clock.now)
}

proof fn pumping_leaves_nothing_that_can_go(p: Pump, clock: Clock, signing: Signing, slots: nat)
    ensures
        ({
            let q = pumped(p, clock, signing, slots);
            ||| uploading_count(q.records) == uploading_count(p.records) + slots
            ||| stands_still(q, clock, signing)
        }),
    decreases slots,
{
    if slots > 0 {
        let audio_ok = audio_may_start(p.records, p.audio_at, clock.now);
        let records = without_duplicates(p.records, clock.utc, audio_ok);
        marking_duplicates_sends_nothing(p.records, clock.utc, audio_ok);
        first_where_facts(records, ready(clock.utc, audio_ok));
        match next_to_send(records, clock.utc, audio_ok, signing) {
            None => {
                let q = Pump { records, ..p };
                assert(audio_may_start(records, p.audio_at, clock.now) == audio_ok);
                assert forall|i: int| #[trigger] can_go(records, p.audio_at, clock, i) implies exists|
                    j: int,
                |
                    j <= i && #[trigger] can_go(records, p.audio_at, clock, j)
                        && signing.credentials(records[j].uploaded_by) is None by {
                    assert(ready(clock.utc, audio_ok)(records[i]));
                    let j = first_where(records, ready(clock.utc, audio_ok))->Some_0;
                    assert(can_go(records, p.audio_at, clock, j));
                }
                assert(stands_still(q, clock, signing));
            },
            Some(i) => {
                counts_after_update(records, i, as_sent(records[i]));
                let job = job_for(
                    records[i],
                    signing.credentials(records[i].uploaded_by)->Some_0,
                );
                pumping_leaves_nothing_that_can_go(
                    Pump {
                        records: records.update(i, as_sent(records[i])),
                        audio_at: if records[i].kind == AssetKind::Audio {
                            Some(clock.now)
                        } else {
                            p.audio_at
                        },
                        sent: p.sent.push(
                            Effect::Send(BackendCommand::UploadAsset(Box::new(job))),
                        ),
                    },
                    clock,
                    signing,
                    (slots - 1) as nat,
                );
            },
        }
    }
}

/// Whether the queue has nothing to send: a row that could go is there only
/// behind one, or is one, that nobody is there to sign for.
pub open spec fn stands_still(q: Pump, clock: Clock, signing: Signing) -> bool {
    forall|i: int| #[trigger]
        can_go(q.records, q.audio_at, clock, i) ==> exists|j: int|
            j <= i && #[trigger] can_go(q.records, q.audio_at, clock, j) && signing.credentials(
                q.records[j].uploaded_by,
            ) is None
}

/// The queue does not idle: after it was filled, either as many files are on
/// their way as are allowed, or nothing is left that can go, up to a row that
/// nobody is there to sign for.
pub proof fn a_free_slot_is_used(
    records: Seq<AssetRecord>,
    audio_at: Option<u64>,
    clock: Clock,
    signing: Signing,
)
    ensures
        uploading_count(fill(records, audio_at, false, clock, signing).records)
            >= MAX_CONCURRENT_UPLOADS || stands_still(
            fill(records, audio_at, false, clock, signing),
            clock,
            signing,
        ),
{
    let p = Pump { records, audio_at, sent: Seq::empty() };
    pumping_leaves_nothing_that_can_go(p, clock, signing, free_slots(records));
}

/// Credentials can be had for an account exactly where the store is open and the
/// account is in it.
pub proof fn an_open_store_signs_for_its_accounts(signing: Signing, user_id: u64)
    ensures
        (signing.credentials(user_id) is Some) == (signing.session is Some && exists|a: int|
            0 <= a < signing.accounts.len() && (#[trigger] signing.accounts[a]).user_id == user_id),
        signing.credentials(user_id) matches Some(c) ==> signs_for(c, user_id, signing),
{
    position_facts(signing.accounts, user_id);
    credentials_sign(signing, user_id);
}

} // verus!
