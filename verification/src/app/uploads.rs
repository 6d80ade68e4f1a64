//! The upload queue: what is sent next, what becomes of what was sent, and
//! what is tried again.

use vstd::prelude::*;

use super::{AppState, AssetDesk, Clock, Effect, Timers};
use crate::assets::{uploaded_as, AssetIndex, AssetKind, AssetRecord, AssetState};
use crate::bridge::{BackendCommand, Credentials, UploadJob};
use crate::lists::{first_where, first_where_facts, first_where_is, first_where_none};
use crate::models::{position_in, position_of, Account, StoreSession};

verus! {

/// The most files sent at once. Uploads share one connection with everything
/// else, so this stays below what Roblox allows.
pub const MAX_CONCURRENT_UPLOADS: usize = 3;

/// Milliseconds between the starts of two audio uploads. Audio goes one at a
/// time, and even so Roblox limits how fast.
pub const AUDIO_UPLOAD_SPACING: u64 = 3_000;

// ---------------------------------------------------------------------------
// Counting
// ---------------------------------------------------------------------------

/// How many rows are being sent.
pub open spec fn uploading_count(records: Seq<AssetRecord>) -> nat
    decreases records.len(),
{
    if records.len() == 0 {
        0
    } else {
        uploading_count(records.drop_last()) + if records.last().state is Uploading {
            1nat
        } else {
            0
        }
    }
}

/// How many rows wait to be sent.
pub open spec fn queued_count(records: Seq<AssetRecord>) -> nat
    decreases records.len(),
{
    if records.len() == 0 {
        0
    } else {
        queued_count(records.drop_last()) + if records.last().state is Queued {
            1nat
        } else {
            0
        }
    }
}

/// A change of one row changes the counts by that row alone.
pub proof fn counts_after_update(records: Seq<AssetRecord>, i: int, r: AssetRecord)
    requires
        0 <= i < records.len(),
    ensures
        uploading_count(records.update(i, r)) == uploading_count(records) + (if r.state is Uploading {
            1int
        } else {
            0
        }) - (if records[i].state is Uploading {
            1int
        } else {
            0
        }),
        queued_count(records.update(i, r)) == queued_count(records) + (if r.state is Queued {
            1int
        } else {
            0
        }) - (if records[i].state is Queued {
            1int
        } else {
            0
        }),
    decreases records.len(),
{
    let changed = records.update(i, r);
    if i == records.len() - 1 {
        assert(changed.drop_last() =~= records.drop_last());
    } else {
        counts_after_update(records.drop_last(), i, r);
        assert(changed.drop_last() =~= records.drop_last().update(i, r));
    }
}

fn count_uploading(index: &AssetIndex) -> (n: usize)
    ensures
        n == uploading_count(index.records@),
        n <= index.records@.len(),
{
    let mut n: usize = 0;
    let mut i: usize = 0;
    while i < index.records.len()
        invariant
            0 <= i <= index.records@.len(),
            n <= i,
            n == uploading_count(index.records@.take(i as int)),
        decreases index.records@.len() - i,
    {
        assert(index.records@.take(i + 1).drop_last() =~= index.records@.take(i as int));
        if index.records[i].state.is_uploading() {
            n += 1;
        }
        i += 1;
    }
    assert(index.records@.take(i as int) =~= index.records@);
    n
}

/// Whether an audio file is being sent.
pub open spec fn audio_in_flight(records: Seq<AssetRecord>) -> bool {
    exists|i: int|
        0 <= i < records.len() && (#[trigger] records[i]).state is Uploading && records[i].kind
            == AssetKind::Audio
}

/// Whether another audio file may be sent: none is on its way, and the last
/// one was long enough ago.
pub open spec fn audio_may_start(records: Seq<AssetRecord>, last: Option<u64>, now: u64) -> bool {
    !audio_in_flight(records) && match last {
        Some(t) => crate::toast::elapsed(t, now) >= AUDIO_UPLOAD_SPACING,
        None => true,
    }
}

// ---------------------------------------------------------------------------
// What is sent next
// ---------------------------------------------------------------------------

/// The rows that can be sent now: waiting, not held back by a retry, and not
/// audio while audio has to wait.
pub open spec fn ready(utc: i64, audio_ok: bool) -> spec_fn(AssetRecord) -> bool {
    |r: AssetRecord|
        r.state is Queued && (r.retry_at matches Some(at) ==> utc >= at) && (audio_ok || r.kind
            != AssetKind::Audio)
}

/// A row whose file turned out to be on Roblox already.
pub open spec fn as_duplicate(r: AssetRecord, asset_id: u64) -> AssetRecord {
    AssetRecord { state: AssetState::Duplicate { asset_id }, ..r }
}

/// A row that is being sent once more.
pub open spec fn as_sent(r: AssetRecord) -> AssetRecord {
    AssetRecord {
        state: AssetState::Uploading,
        attempts: if r.attempts < u32::MAX {
            (r.attempts + 1) as u32
        } else {
            u32::MAX
        },
        retry_at: None,
        ..r
    }
}

/// The rows once every file at the head of the queue that is on Roblox already
/// is marked so. Uploads are permanent, and audio burns a quota: nothing is
/// sent twice.
pub open spec fn without_duplicates(records: Seq<AssetRecord>, utc: i64, audio_ok: bool) -> Seq<
    AssetRecord,
>
    decreases queued_count(records),
    via without_duplicates_ends
{
    match first_where(records, ready(utc, audio_ok)) {
        Some(i) => match uploaded_as(records, records[i].file_sha256@, records[i].creator) {
            Some(asset_id) => without_duplicates(
                records.update(i, as_duplicate(records[i], asset_id)),
                utc,
                audio_ok,
            ),
            None => records,
        },
        None => records,
    }
}

#[via_fn]
proof fn without_duplicates_ends(records: Seq<AssetRecord>, utc: i64, audio_ok: bool) {
    first_where_facts(records, ready(utc, audio_ok));
    match first_where(records, ready(utc, audio_ok)) {
        Some(i) => match uploaded_as(records, records[i].file_sha256@, records[i].creator) {
            Some(asset_id) => {
                counts_after_update(records, i, as_duplicate(records[i], asset_id));
            },
            None => {},
        },
        None => {},
    }
}

/// The upload of a row.
pub open spec fn job_for(r: AssetRecord, credentials: Credentials) -> UploadJob {
    UploadJob {
        row_id: r.row_id,
        credentials,
        creator: r.creator,
        kind: r.kind,
        display_name: r.display_name,
        description: r.description,
        file_path: r.file_path,
    }
}

/// What the queue reads besides its rows.
pub struct Signing {
    pub session: Option<StoreSession>,
    pub accounts: Seq<Account>,
    pub use_credential_manager: bool,
}

impl Signing {
    /// The credentials that sign for an account, if it is there and the store
    /// is open.
    pub open spec fn credentials(self, user_id: u64) -> Option<Credentials> {
        match (self.session, position_in(self.accounts, user_id)) {
            (Some(session), Some(i)) => Some(
                Credentials {
                    user_id,
                    encrypted_cookie: self.accounts[i].encrypted_cookie,
                    session,
                    use_credential_manager: self.use_credential_manager,
                },
            ),
            _ => None,
        }
    }
}

/// What signs in a state.
pub open spec fn signing(s: AppState) -> Signing {
    Signing {
        session: s.session,
        accounts: s.store.accounts@,
        use_credential_manager: s.config.use_credential_manager,
    }
}

/// The queue, and what it has sent.
pub struct Pump {
    pub records: Seq<AssetRecord>,
    pub audio_at: Option<u64>,
    pub sent: Seq<Effect>,
}

/// The next row to send, once duplicates are marked: the first that is ready,
/// where its account is there to sign for it.
pub open spec fn next_to_send(
    records: Seq<AssetRecord>,
    utc: i64,
    audio_ok: bool,
    signing: Signing,
) -> Option<int> {
    match first_where(records, ready(utc, audio_ok)) {
        Some(i) => if signing.credentials(records[i].uploaded_by) is Some {
            Some(i)
        } else {
            None
        },
        None => None,
    }
}

/// The queue after sending what is ready into `slots` free slots.
pub open spec fn pumped(p: Pump, clock: Clock, signing: Signing, slots: nat) -> Pump
    decreases slots,
{
    if slots == 0 {
        p
    } else {
        let audio_ok = audio_may_start(p.records, p.audio_at, clock.now);
        let records = without_duplicates(p.records, clock.utc, audio_ok);
        match next_to_send(records, clock.utc, audio_ok, signing) {
            None => Pump { records, ..p },
            Some(i) => {
                let job = job_for(
                    records[i],
                    signing.credentials(records[i].uploaded_by)->Some_0,
                );
                pumped(
                    Pump {
                        records: records.update(i, as_sent(records[i])),
                        audio_at: if records[i].kind == AssetKind::Audio {
                            Some(clock.now)
                        } else {
                            p.audio_at
                        },
                        sent: p.sent.push(
                            Effect::Send(BackendCommand::UploadAsset(Box::new(job))),
                        ),
                    },
                    clock,
                    signing,
                    (slots - 1) as nat,
                )
            },
        }
    }
}

/// The free slots of the queue.
pub open spec fn free_slots(records: Seq<AssetRecord>) -> nat {
    if uploading_count(records) < MAX_CONCURRENT_UPLOADS {
        (MAX_CONCURRENT_UPLOADS - uploading_count(records)) as nat
    } else {
        0
    }
}

/// The queue after its free slots were filled. Nothing is sent while the store
/// is locked.
pub open spec fn fill(
    records: Seq<AssetRecord>,
    audio_at: Option<u64>,
    locked: bool,
    clock: Clock,
    signing: Signing,
) -> Pump {
    let p = Pump { records, audio_at, sent: Seq::empty() };
    if locked {
        p
    } else {
        pumped(p, clock, signing, free_slots(records))
    }
}

/// The queue of a state, once its rows are `records` and its free slots were
/// filled.
pub open spec fn filled_with(s: AppState, records: Seq<AssetRecord>, clock: Clock) -> Pump {
    fill(records, s.timers.audio_upload, s.lock.needs_unlock, clock, signing(s))
}

/// The queue of a state after it was filled.
pub open spec fn filled(s: AppState, clock: Clock) -> Pump {
    filled_with(s, s.desk.index.records@, clock)
}

impl AppState {
    /// Whether another audio file may be sent.
    fn audio_slot_free(&self, now: u64) -> (b: bool)
        ensures
            b == audio_may_start(self.desk.index.records@, self.timers.audio_upload, now),
    {
        let mut i: usize = 0;
        while i < self.desk.index.records.len()
            invariant
                0 <= i <= self.desk.index.records@.len(),
                forall|j: int|
                    0 <= j < i ==> !((#[trigger] self.desk.index.records@[j]).state is Uploading
                        && self.desk.index.records@[j].kind == AssetKind::Audio),
            decreases self.desk.index.records@.len() - i,
        {
            if self.desk.index.records[i].state.is_uploading() && self.desk.index.records[i].kind
                == AssetKind::Audio {
                return false;
            }
            i += 1;
        }
        match self.timers.audio_upload {
            Some(t) => now.saturating_sub(t) >= AUDIO_UPLOAD_SPACING,
            None => true,
        }
    }

    /// The first row that can be sent.
    fn first_ready(&self, utc: i64, audio_ok: bool) -> (r: Option<usize>)
        ensures
            match r {
                Some(i) => first_where(self.desk.index.records@, ready(utc, audio_ok)) == Some(
                    i as int,
                ) && i < self.desk.index.records@.len(),
                None => first_where(self.desk.index.records@, ready(utc, audio_ok)) is None,
            },
    {
        let ghost p = ready(utc, audio_ok);
        let mut i: usize = 0;
        while i < self.desk.index.records.len()
            invariant
                0 <= i <= self.desk.index.records@.len(),
                p == ready(utc, audio_ok),
                forall|j: int| 0 <= j < i ==> !p(#[trigger] self.desk.index.records@[j]),
            decreases self.desk.index.records@.len() - i,
        {
            let r: &AssetRecord = &self.desk.index.records[i];
            let due: bool = match r.retry_at {
                Some(at) => utc >= at,
                None => true,
            };
            if r.state.is_queued() && due && (audio_ok || r.kind != AssetKind::Audio) {
                proof {
                    first_where_is(self.desk.index.records@, p, i as int);
                }
                return Some(i);
            }
            i += 1;
        }
        proof {
            first_where_none(self.desk.index.records@, p);
        }
        None
    }

    /// Claims the next row that can be sent and makes its job. Duplicates at
    /// the head of the queue are marked on the way, so that they do not hold
    /// up the work behind them.
    fn take_next_upload(&mut self, clock: Clock) -> (job: Option<UploadJob>)
        requires
            old(self).inv(),
        ensures
            final(self).inv(),
            ({
                let audio_ok = audio_may_start(
                    old(self).desk.index.records@,
                    old(self).timers.audio_upload,
                    clock.now,
                );
                let records = without_duplicates(
                    old(self).desk.index.records@,
                    clock.utc,
                    audio_ok,
                );
                let next = next_to_send(records, clock.utc, audio_ok, signing(*old(self)));
                match next {
                    Some(i) => {
                        &&& job == Some(
                            job_for(
                                records[i],
                                signing(*old(self)).credentials(records[i].uploaded_by)->Some_0,
                            ),
                        )
                        &&& final(self).desk.index.records@ == records.update(
                            i,
                            as_sent(records[i]),
                        )
                    },
                    None => job is None && final(self).desk.index.records@ == records,
                }
            }),
            *final(self) == (AppState {
                desk: AssetDesk {
                    index: final(self).desk.index,
                    dirty: final(self).desk.dirty,
                    ..old(self).desk
                },
                ..*old(self)
            }),
            final(self).desk.dirty == (old(self).desk.dirty || final(self).desk.index.records@
                != old(self).desk.index.records@),
            queued_count(final(self).desk.index.records@) <= queued_count(
                old(self).desk.index.records@,
            ),
            job is Some ==> queued_count(final(self).desk.index.records@) < queued_count(
                old(self).desk.index.records@,
            ),
    {
        let audio_ok: bool = self.audio_slot_free(clock.now);
        let ghost start = self.desk.index.records@;
        loop
            invariant
                self.inv(),
                audio_ok == audio_may_start(start, old(self).timers.audio_upload, clock.now),
                start == old(self).desk.index.records@,
                without_duplicates(start, clock.utc, audio_ok) == without_duplicates(
                    self.desk.index.records@,
                    clock.utc,
                    audio_ok,
                ),
                *self == (AppState {
                    desk: AssetDesk {
                        index: self.desk.index,
                        dirty: self.desk.dirty,
                        ..old(self).desk
                    },
                    ..*old(self)
                }),
                queued_count(self.desk.index.records@) <= queued_count(start),
                queued_count(self.desk.index.records@) == queued_count(start)
                    ==> self.desk.index.records@ == start,
                self.desk.dirty == (old(self).desk.dirty || self.desk.index.records@ != start),
            decreases queued_count(self.desk.index.records@),
        {
            let ghost records = self.desk.index.records@;
            let i: usize = match self.first_ready(clock.utc, audio_ok) {
                Some(i) => i,
                None => {
                    return None;
                },
            };
            proof {
                first_where_facts(records, ready(clock.utc, audio_ok));
            }
            let existing: Option<u64> = self.desk.index.find_uploaded(
                &self.desk.index.records[i].file_sha256,
                self.desk.index.records[i].creator,
            );
            match existing {
                Some(asset_id) => {
                    self.desk.index.records[i].state = AssetState::Duplicate { asset_id };
                    self.desk.dirty = true;
                    proof {
                        counts_after_update(
                            records,
                            i as int,
                            as_duplicate(records[i as int], asset_id),
                        );
                        assert(self.desk.index.records@ =~= records.update(
                            i as int,
                            as_duplicate(records[i as int], asset_id),
                        ));
                    }
                },
                None => {
                    proof {
                        counts_after_update(records, i as int, as_sent(records[i as int]));
                    }
                    return self.build_upload_job(i);
                },
            }
        }
    }

    /// Makes the job of a row and marks the row as being sent, where the store
    /// is open and the row's account is there.
    fn build_upload_job(&mut self, i: usize) -> (job: Option<UploadJob>)
        requires
            old(self).inv(),
            i < old(self).desk.index.records@.len(),
        ensures
            final(self).inv(),
            match signing(*old(self)).credentials(
                old(self).desk.index.records@[i as int].uploaded_by,
            ) {
                Some(credentials) => {
                    &&& job == Some(
                        job_for(old(self).desk.index.records@[i as int], credentials),
                    )
                    &&& final(self).desk.index.records@ == old(self).desk.index.records@.update(
                        i as int,
                        as_sent(old(self).desk.index.records@[i as int]),
                    )
                    &&& *final(self) == (AppState {
                        desk: AssetDesk {
                            index: final(self).desk.index,
                            dirty: true,
                            ..old(self).desk
                        },
                        ..*old(self)
                    })
                },
                None => job is None && *final(self) == *old(self),
            },
    {
        let session: StoreSession = match self.session {
            Some(s) => s,
            None => {
                return None;
            },
        };
        let uploader: u64 = self.desk.index.records[i].uploaded_by;
        let at: usize = match position_of(&self.store.accounts, uploader) {
            Some(at) => at,
            None => {
                return None;
            },
        };
        let credentials: Credentials = super::credentials_for(
            &self.store.accounts[at],
            session,
            self.config.use_credential_manager,
        );
        let job: UploadJob = UploadJob {
            row_id: self.desk.index.records[i].row_id.clone(),
            credentials,
            creator: self.desk.index.records[i].creator,
            kind: self.desk.index.records[i].kind,
            display_name: self.desk.index.records[i].display_name.clone(),
            description: self.desk.index.records[i].description.clone(),
            file_path: self.desk.index.records[i].file_path.clone(),
        };
        let attempts: u32 = self.desk.index.records[i].attempts.saturating_add(1);
        self.desk.index.records[i].state = AssetState::Uploading;
        self.desk.index.records[i].attempts = attempts;
        self.desk.index.records[i].retry_at = None;
        self.desk.dirty = true;
        assert(self.desk.index.records@ =~= old(self).desk.index.records@.update(
            i as int,
            as_sent(old(self).desk.index.records@[i as int]),
        ));
        Some(job)
    }

    /// Fills free upload slots from the queue, oldest first. A row whose time
    /// has not come is passed over and picked up by a later call.
    pub fn dispatch_next_uploads(&mut self, clock: Clock)
        requires
            old(self).inv(),
        ensures
            final(self).inv(),
            final(self).desk.index.records@ == filled(*old(self), clock).records,
            final(self).out@ == old(self).out@ + filled(*old(self), clock).sent,
            *final(self) == (AppState {
                out: final(self).out,
                desk: AssetDesk {
                    index: final(self).desk.index,
                    dirty: final(self).desk.dirty,
                    ..old(self).desk
                },
                timers: Timers {
                    audio_upload: filled(*old(self), clock).audio_at,
                    ..old(self).timers
                },
                ..*old(self)
            }),
            final(self).desk.dirty == (old(self).desk.dirty || final(self).desk.index.records@
                != old(self).desk.index.records@),
    {
        if self.lock.needs_unlock {
            assert(self.out@ =~= old(self).out@ + filled(*old(self), clock).sent);
            return;
        }
        let in_flight: usize = count_uploading(&self.desk.index);
        let mut slots: usize = if in_flight < MAX_CONCURRENT_UPLOADS {
            MAX_CONCURRENT_UPLOADS - in_flight
        } else {
            0
        };
        let ghost mut sent = Seq::<Effect>::empty();
        let ghost goal = filled(*old(self), clock);
        assert(self.out@ =~= old(self).out@ + sent);
        while slots > 0
            invariant
                self.inv(),
                0 <= slots <= MAX_CONCURRENT_UPLOADS,
                self.out@ == old(self).out@ + sent,
                goal == pumped(
                    Pump {
                        records: self.desk.index.records@,
                        audio_at: self.timers.audio_upload,
                        sent,
                    },
                    clock,
                    signing(*old(self)),
                    slots as nat,
                ),
                goal == filled(*old(self), clock),
                signing(*self) == signing(*old(self)),
                *self == (AppState {
                    out: self.out,
                    desk: AssetDesk {
                        index: self.desk.index,
                        dirty: self.desk.dirty,
                        ..old(self).desk
                    },
                    timers: Timers {
                        audio_upload: self.timers.audio_upload,
                        ..old(self).timers
                    },
                    ..*old(self)
                }),
                queued_count(self.desk.index.records@) <= queued_count(
                    old(self).desk.index.records@,
                ),
                queued_count(self.desk.index.records@) == queued_count(
                    old(self).desk.index.records@,
                ) ==> self.desk.index.records@ == old(self).desk.index.records@,
                self.desk.dirty == (old(self).desk.dirty || self.desk.index.records@
                    != old(self).desk.index.records@),
            decreases slots,
        {
            match self.take_next_upload(clock) {
                Some(job) => {
                    if job.kind == AssetKind::Audio {
                        self.timers.audio_upload = Some(clock.now);
                    }
                    let ghost effect = Effect::Send(BackendCommand::UploadAsset(Box::new(job)));
                    self.out.push(Effect::Send(BackendCommand::UploadAsset(Box::new(job))));
                    proof {
                        assert(self.out@ =~= old(self).out@ + sent.push(effect));
                        sent = sent.push(effect);
                    }
                },
                None => {
                    return;
                },
            }
            slots -= 1;
        }
    }

    /// Writes the index, unless the file on disk must not be touched.
    pub fn save_asset_index(&mut self, now: u64)
        requires
            old(self).inv(),
        ensures
            final(self).inv(),
            final(self).out@ == old(self).out@ + saving_index(*old(self)),
            *final(self) == (AppState { out: final(self).out, ..index_saved(*old(self), now) }),
    {
        self.desk.dirty = false;
        self.timers.index_save = Some(now);
        if !self.desk.read_only {
            self.out.push(Effect::SaveAssetIndex);
        }
        assert(self.out@ =~= old(self).out@ + saving_index(*old(self)));
    }
}

/// The state once its index counts as written.
pub open spec fn index_saved(s: AppState, now: u64) -> AppState {
    AppState {
        desk: AssetDesk { dirty: false, ..s.desk },
        timers: Timers { index_save: Some(now), ..s.timers },
        ..s
    }
}

/// What writing the index adds to the things to do.
pub open spec fn saving_index(s: AppState) -> Seq<Effect> {
    if s.desk.read_only {
        Seq::empty()
    } else {
        seq![Effect::SaveAssetIndex]
    }
}

impl AppState {
    /// Writes the index and fills the queue, after a row has changed.
    pub fn settle(&mut self, clock: Clock)
        requires
            old(self).inv(),
        ensures
            final(self).inv(),
            final(self).desk.index.records@ == filled(*old(self), clock).records,
            final(self).out@ == old(self).out@ + saving_index(*old(self)) + filled(
                *old(self),
                clock,
            ).sent,
            *final(self) == (AppState {
                out: final(self).out,
                desk: AssetDesk {
                    index: final(self).desk.index,
                    dirty: final(self).desk.index.records@ != old(self).desk.index.records@,
                    ..old(self).desk
                },
                timers: Timers {
                    index_save: Some(clock.now),
                    audio_upload: filled(*old(self), clock).audio_at,
                    ..old(self).timers
                },
                ..*old(self)
            }),
    {
        self.save_asset_index(clock.now);
        assert(signing(*self) == signing(*old(self)));
        self.dispatch_next_uploads(clock);
    }
}

// ---------------------------------------------------------------------------
// What the queue promises
// ---------------------------------------------------------------------------

/// Marking duplicates sends nothing.
pub proof fn marking_duplicates_sends_nothing(records: Seq<AssetRecord>, utc: i64, audio_ok: bool)
    ensures
        uploading_count(without_duplicates(records, utc, audio_ok)) == uploading_count(records),
        audio_in_flight(without_duplicates(records, utc, audio_ok)) == audio_in_flight(records),
        without_duplicates(records, utc, audio_ok).len() == records.len(),
        match first_where(without_duplicates(records, utc, audio_ok), ready(utc, audio_ok)) {
            Some(i) => uploaded_as(
                without_duplicates(records, utc, audio_ok),
                without_duplicates(records, utc, audio_ok)[i].file_sha256@,
                without_duplicates(records, utc, audio_ok)[i].creator,
            ) is None,
            None => true,
        },
    decreases queued_count(records),
{
    first_where_facts(records, ready(utc, audio_ok));
    match first_where(records, ready(utc, audio_ok)) {
        Some(i) => match uploaded_as(records, records[i].file_sha256@, records[i].creator) {
            Some(asset_id) => {
                let marked = as_duplicate(records[i], asset_id);
                let next = records.update(i, marked);
                counts_after_update(records, i, marked);
                marking_duplicates_sends_nothing(next, utc, audio_ok);
                if audio_in_flight(records) {
                    let k = choose|k: int|
                        0 <= k < records.len() && (#[trigger] records[k]).state is Uploading
                            && records[k].kind == AssetKind::Audio;
                    assert(next[k] == records[k]);
                }
                if audio_in_flight(next) {
                    let k = choose|k: int|
                        0 <= k < next.len() && (#[trigger] next[k]).state is Uploading
                            && next[k].kind == AssetKind::Audio;
                    assert(records[k] == next[k]);
                }
            },
            None => {},
        },
        None => {},
    }
}

/// Filling the queue never has more than the allowed number of files on their
/// way, beyond those that were.
pub proof fn uploads_stay_within_their_slots(p: Pump, clock: Clock, signing: Signing, slots: nat)
    ensures
        uploading_count(pumped(p, clock, signing, slots).records) <= uploading_count(p.records)
            + slots,
        pumped(p, clock, signing, slots).sent.len() <= p.sent.len() + slots,
        uploading_count(pumped(p, clock, signing, slots).records) - uploading_count(p.records)
            == pumped(p, clock, signing, slots).sent.len() - p.sent.len(),
    decreases slots,
{
    if slots > 0 {
        let audio_ok = audio_may_start(p.records, p.audio_at, clock.now);
        let records = without_duplicates(p.records, clock.utc, audio_ok);
        marking_duplicates_sends_nothing(p.records, clock.utc, audio_ok);
        first_where_facts(records, ready(clock.utc, audio_ok));
        match next_to_send(records, clock.utc, audio_ok, signing) {
            Some(i) => {
                counts_after_update(records, i, as_sent(records[i]));
                let job = job_for(
                    records[i],
                    signing.credentials(records[i].uploaded_by)->Some_0,
                );
                uploads_stay_within_their_slots(
                    Pump {
                        records: records.update(i, as_sent(records[i])),
                        audio_at: if records[i].kind == AssetKind::Audio {
                            Some(clock.now)
                        } else {
                            p.audio_at
                        },
                        sent: p.sent.push(
                            Effect::Send(BackendCommand::UploadAsset(Box::new(job))),
                        ),
                    },
                    clock,
                    signing,
                    (slots - 1) as nat,
                );
            },
            None => {},
        }
    }
}

/// No more than [`MAX_CONCURRENT_UPLOADS`] files are ever on their way, as long
/// as no more were before, and every file that is newly on its way was sent as
/// a job.
pub proof fn at_most_the_allowed_uploads_run(
    records: Seq<AssetRecord>,
    audio_at: Option<u64>,
    locked: bool,
    clock: Clock,
    signing: Signing,
)
    requires
        uploading_count(records) <= MAX_CONCURRENT_UPLOADS,
    ensures
        uploading_count(fill(records, audio_at, locked, clock, signing).records)
            <= MAX_CONCURRENT_UPLOADS,
        uploading_count(fill(records, audio_at, locked, clock, signing).records) == uploading_count(
            records,
        ) + fill(records, audio_at, locked, clock, signing).sent.len(),
{
    let p = Pump { records, audio_at, sent: Seq::empty() };
    uploads_stay_within_their_slots(p, clock, signing, free_slots(records));
}

/// How many audio files are being sent.
pub open spec fn audio_count(records: Seq<AssetRecord>) -> nat
    decreases records.len(),
{
    if records.len() == 0 {
        0
    } else {
        audio_count(records.drop_last()) + if records.last().state is Uploading
            && records.last().kind == AssetKind::Audio {
            1nat
        } else {
            0
        }
    }
}

proof fn audio_count_after_update(records: Seq<AssetRecord>, i: int, r: AssetRecord)
    requires
        0 <= i < records.len(),
    ensures
        audio_count(records.update(i, r)) == audio_count(records) + (if r.state is Uploading
            && r.kind == AssetKind::Audio {
            1int
        } else {
            0
        }) - (if records[i].state is Uploading && records[i].kind == AssetKind::Audio {
            1int
        } else {
            0
        }),
    decreases records.len(),
{
    let changed = records.update(i, r);
    if i == records.len() - 1 {
        assert(changed.drop_last() =~= records.drop_last());
    } else {
        audio_count_after_update(records.drop_last(), i, r);
        assert(changed.drop_last() =~= records.drop_last().update(i, r));
    }
}

proof fn audio_count_is_zero(records: Seq<AssetRecord>)
    ensures
        audio_count(records) == 0 <==> !audio_in_flight(records),
    decreases records.len(),
{
    if records.len() > 0 {
        let front = records.drop_last();
        audio_count_is_zero(front);
        if audio_in_flight(front) {
            let k = choose|k: int|
                0 <= k < front.len() && (#[trigger] front[k]).state is Uploading && front[k].kind
                    == AssetKind::Audio;
            assert(records[k] == front[k]);
        }
        if audio_in_flight(records) {
            let k = choose|k: int|
                0 <= k < records.len() && (#[trigger] records[k]).state is Uploading
                    && records[k].kind == AssetKind::Audio;
            if k < front.len() {
                assert(front[k] == records[k]);
            }
        }
        if records.last().state is Uploading && records.last().kind == AssetKind::Audio {
            assert(records[records.len() - 1] == records.last());
        }
    }
}

proof fn duplicates_are_no_audio(records: Seq<AssetRecord>, utc: i64, audio_ok: bool)
    ensures
        audio_count(without_duplicates(records, utc, audio_ok)) == audio_count(records),
    decreases queued_count(records),
{
    first_where_facts(records, ready(utc, audio_ok));
    match first_where(records, ready(utc, audio_ok)) {
        Some(i) => match uploaded_as(records, records[i].file_sha256@, records[i].creator) {
            Some(asset_id) => {
                let marked = as_duplicate(records[i], asset_id);
                counts_after_update(records, i, marked);
                audio_count_after_update(records, i, marked);
                duplicates_are_no_audio(records.update(i, marked), utc, audio_ok);
            },
            None => {},
        },
        None => {},
    }
}

/// Audio goes one file at a time: filling the queue never has a second audio
/// file on its way.
pub proof fn audio_goes_one_at_a_time(p: Pump, clock: Clock, signing: Signing, slots: nat)
    requires
        audio_count(p.records) <= 1,
    ensures
        audio_count(pumped(p, clock, signing, slots).records) <= 1,
    decreases slots,
{
    if slots > 0 {
        let audio_ok = audio_may_start(p.records, p.audio_at, clock.now);
        let records = without_duplicates(p.records, clock.utc, audio_ok);
        duplicates_are_no_audio(p.records, clock.utc, audio_ok);
        audio_count_is_zero(p.records);
        first_where_facts(records, ready(clock.utc, audio_ok));
        match next_to_send(records, clock.utc, audio_ok, signing) {
            Some(i) => {
                audio_count_after_update(records, i, as_sent(records[i]));
                let job = job_for(
                    records[i],
                    signing.credentials(records[i].uploaded_by)->Some_0,
                );
                audio_goes_one_at_a_time(
                    Pump {
                        records: records.update(i, as_sent(records[i])),
                        audio_at: if records[i].kind == AssetKind::Audio {
                            Some(clock.now)
                        } else {
                            p.audio_at
                        },
                        sent: p.sent.push(
                            Effect::Send(BackendCommand::UploadAsset(Box::new(job))),
                        ),
                    },
                    clock,
                    signing,
                    (slots - 1) as nat,
                );
            },
            None => {},
        }
    }
}

/// The row that is sent next is waiting, its time has come, its file is not on
/// Roblox yet under its creator, and its account is there to sign for it.
pub proof fn only_ready_new_files_are_sent(
    records: Seq<AssetRecord>,
    utc: i64,
    audio_ok: bool,
    signing: Signing,
    i: int,
)
    requires
        next_to_send(without_duplicates(records, utc, audio_ok), utc, audio_ok, signing) == Some(i),
    ensures
        ({
            let r = without_duplicates(records, utc, audio_ok)[i];
            &&& r.state is Queued
            &&& (r.retry_at matches Some(at) ==> utc >= at)
            &&& uploaded_as(
                without_duplicates(records, utc, audio_ok),
                r.file_sha256@,
                r.creator,
            ) is None
            &&& signing.credentials(r.uploaded_by) is Some
        }),
{
    marking_duplicates_sends_nothing(records, utc, audio_ok);
    first_where_facts(without_duplicates(records, utc, audio_ok), ready(utc, audio_ok));
}

} // verus!
