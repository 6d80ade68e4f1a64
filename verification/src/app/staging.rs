//! Files on their way into the upload queue, and rows on their way out of it.

use vstd::prelude::*;

use super::results::{granted, row_changed};
use super::uploads::{queued_count, saving_index, signing};
use super::{becomes, AppState, AssetDesk, Clock, Effect, Timers};
use crate::asset_manager::AssetManagerState;
use crate::asset_view::View as Shown;
use crate::assets::{
    row_in, uploaded_as, AssetIndex, AssetKind, AssetRecord, AssetState, Creator,
};
use crate::lists::{filter_ends, filter_grows, first_where, first_where_is, first_where_none};
use crate::models::{position_in, position_of};
use crate::text::{all_digits, decimal, decimal_of, join2, join3, parsed_u64, same};
use crate::toast::{ToastLevel, ToastsView};

verus! {

// ---------------------------------------------------------------------------
// Row identifiers
// ---------------------------------------------------------------------------

/// Whether a character is a lower-case hexadecimal digit.
pub open spec fn is_hex(c: char) -> bool {
    '0' <= c <= '9' || 'a' <= c <= 'f'
}

/// Whether a text has the shape of a row identifier: groups of 8, 4, 4, 4 and
/// 12 lower-case hexadecimal digits with hyphens between them, the third group
/// starting with a 4.
pub open spec fn is_row_id(s: Seq<char>) -> bool {
    &&& s.len() == 36
    &&& s[8] == '-' && s[13] == '-' && s[18] == '-' && s[23] == '-'
    &&& s[14] == '4'
    &&& forall|i: int|
        0 <= i < 36 && i != 8 && i != 13 && i != 18 && i != 23 ==> is_hex(#[trigger] s[i])
}

/// A fresh row identifier: `uuid::Uuid::new_v4`, written by its `to_string`.
///
/// The random bits are the crate's; of every outcome it holds that it is the
/// hyphenated lower-case form of a version 4 identifier. That no two are ever
/// alike is a matter of chance and is not claimed.
#[verifier::external_body]
fn fresh_row_id() -> (s: String)
    ensures
        is_row_id(s@),
{
    uuid::Uuid::new_v4().to_string()
}

/// A row identifier is never the number of an asset: the two kinds of keys of
/// a selection cannot be taken for each other.
pub proof fn a_row_id_is_no_asset_number(s: Seq<char>)
    requires
        is_row_id(s),
    ensures
        parsed_u64(s) is None,
{
    let digits = if s.len() > 0 && s[0] == '+' {
        s.drop_first()
    } else {
        s
    };
    assert(is_hex(s[0]));
    assert(digits[8] == '-');
    assert(!all_digits(digits));
}

// ---------------------------------------------------------------------------
// Staging
// ---------------------------------------------------------------------------

/// A file to stage: where it is, how large, how it is to be called, and the
/// kind of asset it can become, or why it can become none.
#[derive(Debug)]
pub struct StagedFile {
    pub path: String,
    pub bytes: u64,
    pub display_name: String,
    pub kind: Result<AssetKind, String>,
}

/// Who a batch is staged for.
#[derive(Clone, Copy, Debug, PartialEq, Eq, Structural)]
pub struct Batch {
    pub user_id: u64,
    pub creator: Creator,
    pub utc: i64,
}

/// The rows of this file under this creator.
pub open spec fn same_file(path: Seq<char>, creator: Creator) -> spec_fn(AssetRecord) -> bool {
    |r: AssetRecord| r.file_path@ == path && r.creator == creator
}

/// The asset that a file was uploaded as, going by the first row of the file.
pub open spec fn uploaded_from(
    records: Seq<AssetRecord>,
    path: Seq<char>,
    creator: Creator,
) -> Option<u64> {
    match first_where(records, same_file(path, creator)) {
        Some(i) => records[i].state.asset(),
        None => None,
    }
}

/// Where a staged file stands: it cannot be sent, was sent before, or waits.
pub open spec fn staged_state(
    records: Seq<AssetRecord>,
    file: StagedFile,
    creator: Creator,
) -> AssetState {
    match file.kind {
        Err(reason) => AssetState::Invalid { reason },
        Ok(_) => match uploaded_from(records, file.path@, creator) {
            Some(asset_id) => AssetState::Duplicate { asset_id },
            None => AssetState::Queued,
        },
    }
}

/// The kind of a staged file.
pub open spec fn staged_kind(file: StagedFile) -> AssetKind {
    match file.kind {
        Ok(kind) => kind,
        Err(_) => AssetKind::Other,
    }
}

/// Whether `r` is the row of a file that was staged behind `records`. The file
/// is hashed only when it is sent.
pub open spec fn is_staged(
    r: AssetRecord,
    records: Seq<AssetRecord>,
    file: StagedFile,
    batch: Batch,
) -> bool {
    &&& r.file_path == file.path
    &&& r.file_sha256@.len() == 0
    &&& r.file_bytes == file.bytes
    &&& r.display_name == file.display_name
    &&& r.description@.len() == 0
    &&& r.kind == staged_kind(file)
    &&& r.creator == batch.creator
    &&& r.uploaded_by == batch.user_id
    &&& r.state == staged_state(records, file, batch.creator)
    &&& r.attempts == 0
    &&& r.retry_at is None
    &&& r.created_at == batch.utc
    &&& r.updated_at is None
    &&& r.granted_universes@.len() == 0
    &&& r.auto_grant_universe is None
}

/// How many rows are duplicates.
pub open spec fn duplicate_count(records: Seq<AssetRecord>) -> nat
    decreases records.len(),
{
    if records.len() == 0 {
        0
    } else {
        duplicate_count(records.drop_last()) + if records.last().state is Duplicate {
            1nat
        } else {
            0
        }
    }
}

/// The ticked rows, with the new ones that wait.
pub open spec fn with_ticks(checked: Set<Seq<char>>, rows: Seq<AssetRecord>) -> Set<Seq<char>>
    decreases rows.len(),
{
    if rows.len() == 0 {
        checked
    } else {
        let rest = with_ticks(checked, rows.drop_last());
        if rows.last().state is Queued {
            rest.insert(rows.last().row_id@)
        } else {
            rest
        }
    }
}

/// What is said of a batch.
pub open spec fn staged_said(toasts: ToastsView, added: nat, duplicates: nat, now: u64) -> ToastsView {
    if duplicates > 0 {
        toasts.said(
            decimal(added) + " file(s) queued, "@ + decimal(duplicates) + " already uploaded"@,
            ToastLevel::Info,
            now,
        )
    } else if added > 0 {
        toasts.said(decimal(added) + " file(s) queued"@, ToastLevel::Info, now)
    } else {
        toasts
    }
}

/// Whether `after` is `before` with a row for each of the files behind it.
pub open spec fn rows_staged(
    before: Seq<AssetRecord>,
    after: Seq<AssetRecord>,
    files: Seq<StagedFile>,
    batch: Batch,
) -> bool {
    &&& after.len() == before.len() + files.len()
    &&& after.take(before.len() as int) == before
    &&& forall|k: int|
        0 <= k < files.len() ==> is_staged(
            #[trigger] after[before.len() + k],
            after.take(before.len() + k),
            files[k],
            batch,
        ) && is_row_id(after[before.len() + k].row_id@)
}

/// Whether `t` is the state after files were staged.
pub open spec fn files_staged(s: AppState, t: AppState, files: Seq<StagedFile>, clock: Clock) -> bool {
    match s.desk.panel.acting_user_id {
        None => becomes(
            t,
            s,
            s.out@,
            s.toasts@.said("Select an account to upload from first"@, ToastLevel::Error, clock.now),
        ),
        Some(user_id) => {
            let creator = match s.desk.panel.batch_creator {
                Some(c) => c,
                None => Creator::User(user_id),
            };
            let before = s.desk.index.records@;
            let new = t.desk.index.records@.skip(before.len() as int);
            &&& rows_staged(
                before,
                t.desk.index.records@,
                files,
                Batch { user_id, creator, utc: clock.utc },
            )
            &&& t.desk.panel.checked@ == with_ticks(s.desk.panel.checked@, new)
            &&& becomes(
                t,
                AppState {
                    desk: AssetDesk {
                        index: t.desk.index,
                        panel: AssetManagerState {
                            checked: t.desk.panel.checked,
                            ..s.desk.panel
                        },
                        dirty: false,
                        ..s.desk
                    },
                    timers: Timers { index_save: Some(clock.now), ..s.timers },
                    ..s
                },
                s.out@ + saving_index(s),
                staged_said(s.toasts@, queued_count(new), duplicate_count(new), clock.now),
            )
        },
    }
}

impl AssetIndex {
    /// The asset that a file was uploaded as, going by the first row of the
    /// file.
    fn uploaded_file(&self, path: &str, creator: Creator) -> (r: Option<u64>)
        ensures
            r == uploaded_from(self.records@, path@, creator),
    {
        let ghost p = same_file(path@, creator);
        let mut i: usize = 0;
        while i < self.records.len()
            invariant
                0 <= i <= self.records@.len(),
                p == same_file(path@, creator),
                forall|j: int| 0 <= j < i ==> !p(#[trigger] self.records@[j]),
            decreases self.records@.len() - i,
        {
            if same(&self.records[i].file_path, path) && self.records[i].creator == creator {
                proof {
                    first_where_is(self.records@, p, i as int);
                }
                return self.records[i].state.asset_id();
            }
            i += 1;
        }
        proof {
            first_where_none(self.records@, p);
        }
        None
    }
}

impl AppState {
    /// Gives one file a row under this identifier. Whatever is wrong with the
    /// file, the row is there to say so.
    pub fn stage_file(&mut self, file: StagedFile, row_id: String, batch: Batch)
        requires
            old(self).inv(),
        ensures
            final(self).inv(),
            final(self).desk.index.records@.len() == old(self).desk.index.records@.len() + 1,
            final(self).desk.index.records@.drop_last() == old(self).desk.index.records@,
            final(self).desk.index.records@.last().row_id == row_id,
            is_staged(
                final(self).desk.index.records@.last(),
                old(self).desk.index.records@,
                file,
                batch,
            ),
            final(self).desk.panel.checked@ == if final(self).desk.index.records@.last().state is Queued {
                old(self).desk.panel.checked@.insert(row_id@)
            } else {
                old(self).desk.panel.checked@
            },
            *final(self) == (AppState {
                desk: AssetDesk {
                    index: final(self).desk.index,
                    panel: AssetManagerState {
                        checked: final(self).desk.panel.checked,
                        ..old(self).desk.panel
                    },
                    ..old(self).desk
                },
                ..*old(self)
            }),
    {
        let existing: Option<u64> = self.desk.index.uploaded_file(&file.path, batch.creator);
        let StagedFile { path, bytes, display_name, kind } = file;
        let (kind, state): (AssetKind, AssetState) = match kind {
            Ok(kind) => match existing {
                Some(asset_id) => (kind, AssetState::Duplicate { asset_id }),
                None => (kind, AssetState::Queued),
            },
            Err(reason) => (AssetKind::Other, AssetState::Invalid { reason }),
        };
        if state.is_queued() {
            self.desk.panel.checked.insert(row_id.clone());
        }
        let record: AssetRecord = AssetRecord {
            row_id,
            file_path: path,
            file_sha256: String::new(),
            file_bytes: bytes,
            display_name,
            description: String::new(),
            kind,
            creator: batch.creator,
            uploaded_by: batch.user_id,
            state,
            attempts: 0,
            retry_at: None,
            created_at: batch.utc,
            updated_at: None,
            granted_universes: Vec::new(),
            auto_grant_universe: None,
        };
        self.desk.index.records.push(record);
        assert(self.desk.index.records@.drop_last() =~= old(self).desk.index.records@);
    }

    /// Stages files for upload. One that cannot be sent still gets a row, with
    /// the reason.
    pub fn stage_files(&mut self, files: Vec<StagedFile>, clock: Clock)
        requires
            old(self).inv(),
        ensures
            final(self).inv(),
            files_staged(*old(self), *final(self), files@, clock),
    {
        let user_id: u64 = match self.desk.panel.acting_user_id {
            Some(id) => id,
            None => {
                self.say("Select an account to upload from first", ToastLevel::Error, clock.now);
                return;
            },
        };
        let creator: Creator = match self.desk.panel.batch_creator {
            Some(c) => c,
            None => Creator::User(user_id),
        };
        let batch: Batch = Batch { user_id, creator, utc: clock.utc };
        let ghost before = self.desk.index.records@;
        let ghost n = before.len() as int;
        let ghost all = files@;
        let mut added: usize = 0;
        let mut duplicates: usize = 0;
        proof {
            assert(before.take(n) =~= before);
            assert(before.skip(n) =~= Seq::<AssetRecord>::empty());
        }
        for file in it: files.into_iter()
            invariant
                it.seq() == all,
                self.inv(),
                n == before.len(),
                added <= it.index(),
                duplicates <= it.index(),
                rows_staged(before, self.desk.index.records@, all.take(it.index() as int), batch),
                added == queued_count(self.desk.index.records@.skip(n)),
                duplicates == duplicate_count(self.desk.index.records@.skip(n)),
                self.desk.panel.checked@ == with_ticks(
                    old(self).desk.panel.checked@,
                    self.desk.index.records@.skip(n),
                ),
                *self == (AppState {
                    desk: AssetDesk {
                        index: self.desk.index,
                        panel: AssetManagerState {
                            checked: self.desk.panel.checked,
                            ..old(self).desk.panel
                        },
                        ..old(self).desk
                    },
                    ..*old(self)
                }),
        {
            let ghost k = it.index() as int;
            let ghost here = self.desk.index.records@;
            let row_id: String = fresh_row_id();
            self.stage_file(file, row_id, batch);
            let last: usize = self.desk.index.records.len() - 1;
            let (queued, duplicate): (bool, bool) = match &self.desk.index.records[last].state {
                AssetState::Queued => (true, false),
                AssetState::Duplicate { .. } => (false, true),
                _ => (false, false),
            };
            if queued {
                added += 1;
            }
            if duplicate {
                duplicates += 1;
            }
            proof {
                let there = self.desk.index.records@;
                assert(there.skip(n).drop_last() =~= here.skip(n));
                assert(there.skip(n).last() == there.last());
                assert(there.take(n) =~= here.take(n));
                let taken = all.take(k + 1);
                assert forall|j: int| 0 <= j < taken.len() implies is_staged(
                    #[trigger] there[n + j],
                    there.take(n + j),
                    taken[j],
                    batch,
                ) && is_row_id(there[n + j].row_id@) by {
                    if j < k {
                        assert(there[n + j] == here[n + j]);
                        assert(there.take(n + j) =~= here.take(n + j));
                        assert(taken[j] == all.take(k)[j]);
                    } else {
                        assert(there.take(n + j) =~= here);
                    }
                }
            }
        }
        assert(all.take(all.len() as int) =~= all);
        self.save_asset_index(clock.now);
        if duplicates > 0 {
            let text: String = join3(
                &join2(&decimal_of(added as u64), " file(s) queued, "),
                &decimal_of(duplicates as u64),
                " already uploaded",
            );
            self.say(&text, ToastLevel::Info, clock.now);
        } else if added > 0 {
            let text: String = join2(&decimal_of(added as u64), " file(s) queued");
            self.say(&text, ToastLevel::Info, clock.now);
        }
    }

    /// Files were dropped on the tab: they are staged, and the queue is shown.
    pub fn files_dropped(&mut self, files: Vec<StagedFile>, clock: Clock)
        requires
            old(self).inv(),
        ensures
            final(self).inv(),
            if files@.len() == 0 {
                *final(self) == *old(self)
            } else {
                files_staged(
                    AppState {
                        desk: AssetDesk {
                            panel: AssetManagerState {
                                view: Shown::ImportQueue,
                                ..old(self).desk.panel
                            },
                            ..old(self).desk
                        },
                        ..*old(self)
                    },
                    *final(self),
                    files@,
                    clock,
                )
            },
    {
        if files.len() > 0 {
            self.desk.panel.view = Shown::ImportQueue;
            self.stage_files(files, clock);
        }
    }
}

/// Every file that was staged has a row, in the order the files were given in,
/// and no row that was there before is touched.
pub proof fn every_file_gets_a_row(
    s: AppState,
    t: AppState,
    files: Seq<StagedFile>,
    clock: Clock,
    k: int,
)
    requires
        files_staged(s, t, files, clock),
        s.desk.panel.acting_user_id is Some,
        0 <= k < files.len(),
    ensures
        t.desk.index.records@.len() == s.desk.index.records@.len() + files.len(),
        t.desk.index.records@[s.desk.index.records@.len() + k].file_path == files[k].path,
        t.desk.index.records@.take(s.desk.index.records@.len() as int) == s.desk.index.records@,
{
}

// ---------------------------------------------------------------------------
// After a restart
// ---------------------------------------------------------------------------

/// A row whose upload was cut off: on Roblox already, or waiting again.
pub open spec fn resumed(records: Seq<AssetRecord>, r: AssetRecord) -> AssetRecord {
    AssetRecord {
        state: match uploaded_as(records, r.file_sha256@, r.creator) {
            Some(asset_id) => AssetState::Duplicate { asset_id },
            None => AssetState::Queued,
        },
        ..r
    }
}

/// The rows once the first `n` were looked at after a restart.
pub open spec fn recovered(records: Seq<AssetRecord>, n: nat) -> Seq<AssetRecord>
    decreases n,
{
    if n == 0 {
        records
    } else {
        let rest = recovered(records, (n - 1) as nat);
        let r = rest[n - 1];
        if r.state is Uploading {
            rest.update(n - 1, resumed(rest, r))
        } else {
            rest
        }
    }
}

/// The rows once one was given up because Roblox never answered.
pub open spec fn given_up(records: Seq<AssetRecord>, row_id: Seq<char>) -> Seq<AssetRecord> {
    match row_in(records, row_id) {
        Some(i) => match records[i].state {
            AssetState::Pending { operation, .. } => records.update(
                i,
                AssetRecord { state: AssetState::Expired { operation }, ..records[i] },
            ),
            _ => records,
        },
        None => records,
    }
}

/// The rows once these were given up.
pub open spec fn all_given_up(records: Seq<AssetRecord>, row_ids: Seq<String>) -> Seq<AssetRecord>
    decreases row_ids.len(),
{
    if row_ids.len() == 0 {
        records
    } else {
        given_up(all_given_up(records, row_ids.drop_last()), row_ids.last()@)
    }
}

/// Whether an upload was cut off.
pub open spec fn interrupted(records: Seq<AssetRecord>) -> bool {
    exists|i: int| 0 <= i < records.len() && (#[trigger] records[i]).state is Uploading
}

/// Whether `t` is the state after the index was brought back in line.
pub open spec fn index_recovered(s: AppState, t: AppState, expired: Seq<String>, now: u64) -> bool {
    let before = s.desk.index.records@;
    let after = all_given_up(recovered(before, before.len()), expired);
    if interrupted(before) || expired.len() > 0 {
        super::asset_events::rows_written(s, t, after, now)
    } else {
        t == s && after == before
    }
}

impl AppState {
    /// Gives up rows that Roblox never answered about.
    pub fn expire_rows(&mut self, row_ids: &Vec<String>)
        requires
            old(self).inv(),
        ensures
            final(self).inv(),
            final(self).desk.index.records@ == all_given_up(
                old(self).desk.index.records@,
                row_ids@,
            ),
            *final(self) == (AppState {
                desk: AssetDesk { index: final(self).desk.index, ..old(self).desk },
                ..*old(self)
            }),
    {
        let mut k: usize = 0;
        assert(row_ids@.take(0) =~= Seq::<String>::empty());
        while k < row_ids.len()
            invariant
                0 <= k <= row_ids@.len(),
                self.inv(),
                self.desk.index.records@ == all_given_up(
                    old(self).desk.index.records@,
                    row_ids@.take(k as int),
                ),
                *self == (AppState {
                    desk: AssetDesk { index: self.desk.index, ..old(self).desk },
                    ..*old(self)
                }),
            decreases row_ids@.len() - k,
        {
            assert(row_ids@.take(k + 1).drop_last() =~= row_ids@.take(k as int));
            let ghost here = self.desk.index.records@;
            match self.desk.index.position(&row_ids[k]) {
                Some(i) => {
                    let operation: Option<String> = match &self.desk.index.records[i].state {
                        AssetState::Pending { operation, .. } => Some(operation.clone()),
                        _ => None,
                    };
                    match operation {
                        Some(operation) => {
                            self.desk.index.records[i].state = AssetState::Expired { operation };
                        },
                        None => {},
                    }
                },
                None => {},
            }
            assert(self.desk.index.records@ =~= given_up(here, row_ids@[k as int]@));
            k += 1;
        }
        assert(row_ids@.take(k as int) =~= row_ids@);
    }

    /// Brings the index back in line after a restart. A row that was being
    /// sent goes back into the queue, unless its file reached Roblox; rows that
    /// Roblox never answered about are given up.
    pub fn recover_asset_index(&mut self, expired: &Vec<String>, now: u64)
        requires
            old(self).inv(),
        ensures
            final(self).inv(),
            index_recovered(*old(self), *final(self), expired@, now),
    {
        let ghost before = self.desk.index.records@;
        let mut changed: bool = false;
        let mut i: usize = 0;
        while i < self.desk.index.records.len()
            invariant
                0 <= i <= self.desk.index.records@.len(),
                self.inv(),
                before == old(self).desk.index.records@,
                self.desk.index.records@.len() == before.len(),
                self.desk.index.records@ == recovered(before, i as nat),
                forall|j: int|
                    i <= j < before.len() ==> (#[trigger] self.desk.index.records@[j]) == before[j],
                changed == (exists|j: int| 0 <= j < i && (#[trigger] before[j]).state is Uploading),
                !changed ==> *self == *old(self),
                *self == (AppState {
                    desk: AssetDesk { index: self.desk.index, ..old(self).desk },
                    ..*old(self)
                }),
            decreases self.desk.index.records@.len() - i,
        {
            let ghost here = self.desk.index.records@;
            assert(here[i as int] == before[i as int]);
            if self.desk.index.records[i].state.is_uploading() {
                let existing: Option<u64> = self.desk.index.find_uploaded(
                    &self.desk.index.records[i].file_sha256,
                    self.desk.index.records[i].creator,
                );
                self.desk.index.records[i].state = match existing {
                    Some(asset_id) => AssetState::Duplicate { asset_id },
                    None => AssetState::Queued,
                };
                changed = true;
                assert(self.desk.index.records@ =~= here.update(
                    i as int,
                    resumed(here, here[i as int]),
                ));
                assert(before[i as int].state is Uploading);
            }
            i += 1;
        }
        if expired.len() > 0 {
            self.expire_rows(expired);
        }
        if changed || expired.len() > 0 {
            self.save_asset_index(now);
        }
    }
}

/// After a restart nothing is taken to be on its way.
pub proof fn nothing_is_on_its_way_after_a_restart(records: Seq<AssetRecord>, n: nat, i: int)
    requires
        n <= records.len(),
        0 <= i < n,
    ensures
        recovered(records, n).len() == records.len(),
        !(recovered(records, n)[i].state is Uploading),
    decreases n,
{
    if i < n - 1 {
        nothing_is_on_its_way_after_a_restart(records, (n - 1) as nat, i);
    } else {
        recovering_keeps_the_rest(records, (n - 1) as nat);
    }
}

/// Looking at the first rows leaves the others as they are.
pub proof fn recovering_keeps_the_rest(records: Seq<AssetRecord>, n: nat)
    requires
        n <= records.len(),
    ensures
        recovered(records, n).len() == records.len(),
        forall|j: int| n <= j < records.len() ==> recovered(records, n)[j] == #[trigger] records[j],
    decreases n,
{
    if n > 0 {
        recovering_keeps_the_rest(records, (n - 1) as nat);
    }
}

// ---------------------------------------------------------------------------
// Rows of the queue
// ---------------------------------------------------------------------------

/// The rows that are not among these.
pub open spec fn not_among(row_ids: Seq<String>) -> spec_fn(AssetRecord) -> bool {
    |r: AssetRecord|
        !exists|k: int| 0 <= k < row_ids.len() && (#[trigger] row_ids[k])@ == r.row_id@
}

/// The rows once one was put back in the queue by hand. A retry that the user
/// asks for starts anew.
pub open spec fn retried(records: Seq<AssetRecord>, row_id: Seq<char>) -> Seq<AssetRecord> {
    match row_in(records, row_id) {
        Some(i) => records.update(
            i,
            AssetRecord { state: AssetState::Queued, attempts: 0, retry_at: None, ..records[i] },
        ),
        None => records,
    }
}

/// The rows once one was confirmed for upload.
pub open spec fn confirmed(
    records: Seq<AssetRecord>,
    row_id: Seq<char>,
    auto_grant: Option<u64>,
) -> Seq<AssetRecord> {
    match row_in(records, row_id) {
        Some(i) => records.update(
            i,
            AssetRecord {
                state: AssetState::Queued,
                auto_grant_universe: auto_grant,
                ..records[i]
            },
        ),
        None => records,
    }
}

/// The rows once these were confirmed for upload.
pub open spec fn all_confirmed(
    records: Seq<AssetRecord>,
    row_ids: Seq<String>,
    auto_grant: Option<u64>,
) -> Seq<AssetRecord>
    decreases row_ids.len(),
{
    if row_ids.len() == 0 {
        records
    } else {
        confirmed(all_confirmed(records, row_ids.drop_last(), auto_grant), row_ids.last()@, auto_grant)
    }
}

/// Whether `t` is the state after a row was dropped.
pub open spec fn row_removed(s: AppState, t: AppState, row_id: Seq<char>, now: u64) -> bool {
    &&& t.desk.panel.checked@ == s.desk.panel.checked@.remove(row_id)
    &&& t.desk.index.records@ == match row_in(s.desk.index.records@, row_id) {
        Some(i) => s.desk.index.records@.remove(i),
        None => s.desk.index.records@,
    }
    &&& t.out@ == s.out@ + saving_index(s)
    &&& t == (AppState {
        out: t.out,
        desk: AssetDesk {
            index: t.desk.index,
            panel: AssetManagerState { checked: t.desk.panel.checked, ..s.desk.panel },
            dirty: false,
            ..s.desk
        },
        timers: Timers { index_save: Some(now), ..s.timers },
        ..s
    })
}

/// The state while an upload of these rows waits to be confirmed.
pub open spec fn upload_asked(s: AppState, rows: Vec<String>) -> AppState {
    AppState {
        desk: AssetDesk {
            panel: AssetManagerState {
                confirm_upload: Some(rows@.len() as usize),
                ..s.desk.panel
            },
            pending_upload_rows: rows,
            ..s.desk
        },
        ..s
    }
}

fn is_among(row_ids: &Vec<String>, row_id: &str) -> (b: bool)
    ensures
        b == (exists|k: int| 0 <= k < row_ids@.len() && (#[trigger] row_ids@[k])@ == row_id@),
{
    let mut k: usize = 0;
    while k < row_ids.len()
        invariant
            0 <= k <= row_ids@.len(),
            forall|j: int| 0 <= j < k ==> (#[trigger] row_ids@[j])@ != row_id@,
        decreases row_ids@.len() - k,
    {
        if same(&row_ids[k], row_id) {
            return true;
        }
        k += 1;
    }
    false
}

impl AppState {
    /// Drops a row.
    pub fn remove_row(&mut self, row_id: &str, now: u64)
        requires
            old(self).inv(),
        ensures
            final(self).inv(),
            row_removed(*old(self), *final(self), row_id@, now),
    {
        match self.desk.index.position(row_id) {
            Some(i) => {
                self.desk.index.records.remove(i);
            },
            None => {},
        }
        self.desk.panel.checked.remove(row_id);
        self.save_asset_index(now);
    }

    /// Drops the rows that have finished.
    pub fn clear_finished(&mut self, finished: &Vec<String>, now: u64)
        requires
            old(self).inv(),
        ensures
            final(self).inv(),
            super::asset_events::rows_written(
                *old(self),
                *final(self),
                old(self).desk.index.records@.filter(not_among(finished@)),
                now,
            ),
    {
        let ghost all = self.desk.index.records@;
        let ghost p = not_among(finished@);
        let mut rest: Vec<AssetRecord> = Vec::new();
        std::mem::swap(&mut rest, &mut self.desk.index.records);
        proof {
            filter_ends(all, p);
            assert(self.desk.index.records@ =~= all.take(0).filter(p));
        }
        for r in it: rest.into_iter()
            invariant
                it.seq() == all,
                self.inv(),
                p == not_among(finished@),
                self.desk.index.records@ == all.take(it.index() as int).filter(p),
                *self == (AppState {
                    desk: AssetDesk { index: self.desk.index, ..old(self).desk },
                    ..*old(self)
                }),
        {
            proof {
                filter_grows(all, p, it.index() as int);
            }
            if !is_among(finished, &r.row_id) {
                self.desk.index.records.push(r);
            }
        }
        proof {
            filter_ends(all, p);
        }
        self.save_asset_index(now);
    }

    /// Puts a row back in the queue by hand.
    pub fn retry_row(&mut self, row_id: &str, clock: Clock)
        requires
            old(self).inv(),
        ensures
            final(self).inv(),
            row_changed(
                *old(self),
                *final(self),
                retried(old(self).desk.index.records@, row_id@),
                old(self).toasts@,
                clock,
            ),
    {
        match self.desk.index.position(row_id) {
            Some(i) => {
                self.desk.index.records[i].state = AssetState::Queued;
                self.desk.index.records[i].attempts = 0;
                self.desk.index.records[i].retry_at = None;
            },
            None => {},
        }
        assert(self.desk.index.records@ =~= retried(old(self).desk.index.records@, row_id@));
        assert(signing(*self) == signing(*old(self)));
        self.settle(clock);
    }

    /// Asks for confirmation before rows are uploaded.
    pub fn request_upload(&mut self, rows: Vec<String>)
        requires
            old(self).inv(),
        ensures
            final(self).inv(),
            *final(self) == upload_asked(*old(self), rows),
    {
        self.desk.panel.confirm_upload = Some(rows.len());
        self.desk.pending_upload_rows = rows;
    }

    /// The upload was confirmed. The universe to grant is noted on each row
    /// now, so that another choice made later does not change it.
    pub fn confirm_upload(&mut self, clock: Clock)
        requires
            old(self).inv(),
        ensures
            final(self).inv(),
            final(self).desk.pending_upload_rows@.len() == 0,
            row_changed(
                AppState {
                    desk: AssetDesk {
                        pending_upload_rows: final(self).desk.pending_upload_rows,
                        panel: AssetManagerState {
                            confirm_upload: None,
                            ..old(self).desk.panel
                        },
                        ..old(self).desk
                    },
                    ..*old(self)
                },
                *final(self),
                all_confirmed(
                    old(self).desk.index.records@,
                    old(self).desk.pending_upload_rows@,
                    old(self).desk.panel.auto_grant_universe,
                ),
                old(self).toasts@,
                clock,
            ),
    {
        let mut rows: Vec<String> = Vec::new();
        std::mem::swap(&mut rows, &mut self.desk.pending_upload_rows);
        let auto_grant: Option<u64> = self.desk.panel.auto_grant_universe;
        self.desk.panel.confirm_upload = None;
        let ghost mid = *self;
        let mut k: usize = 0;
        assert(rows@.take(0) =~= Seq::<String>::empty());
        while k < rows.len()
            invariant
                0 <= k <= rows@.len(),
                self.inv(),
                mid.desk.index.records@ == old(self).desk.index.records@,
                self.desk.index.records@ == all_confirmed(
                    old(self).desk.index.records@,
                    rows@.take(k as int),
                    auto_grant,
                ),
                *self == (AppState {
                    desk: AssetDesk { index: self.desk.index, ..mid.desk },
                    ..mid
                }),
            decreases rows@.len() - k,
        {
            assert(rows@.take(k + 1).drop_last() =~= rows@.take(k as int));
            let ghost here = self.desk.index.records@;
            match self.desk.index.position(&rows[k]) {
                Some(i) => {
                    self.desk.index.records[i].state = AssetState::Queued;
                    self.desk.index.records[i].auto_grant_universe = auto_grant;
                },
                None => {},
            }
            assert(self.desk.index.records@ =~= confirmed(here, rows@[k as int]@, auto_grant));
            k += 1;
        }
        assert(rows@.take(k as int) =~= rows@);
        assert(signing(*self) == signing(mid));
        self.settle(clock);
    }

    /// The upload was called off.
    pub fn cancel_upload(&mut self)
        requires
            old(self).inv(),
        ensures
            final(self).inv(),
            final(self).desk.pending_upload_rows@.len() == 0,
            *final(self) == (AppState {
                desk: AssetDesk {
                    panel: AssetManagerState { confirm_upload: None, ..old(self).desk.panel },
                    pending_upload_rows: final(self).desk.pending_upload_rows,
                    ..old(self).desk
                },
                ..*old(self)
            }),
    {
        self.desk.panel.confirm_upload = None;
        self.desk.pending_upload_rows = Vec::new();
    }
}

// ---------------------------------------------------------------------------
// The confirmation
// ---------------------------------------------------------------------------

/// The bytes of the rows that a list of identifiers names.
pub open spec fn bytes_of(records: Seq<AssetRecord>, row_ids: Seq<String>) -> nat
    decreases row_ids.len(),
{
    if row_ids.len() == 0 {
        0
    } else {
        bytes_of(records, row_ids.drop_last()) + match row_in(records, row_ids.last()@) {
            Some(i) => records[i].file_bytes as nat,
            None => 0,
        }
    }
}

/// Who the confirmation says the rows are uploaded as.
pub open spec fn uploads_as(s: AppState) -> Seq<char> {
    let rows = s.desk.pending_upload_rows@;
    let records = s.desk.index.records@;
    if rows.len() == 0 || row_in(records, rows[0]@) is None {
        "the selected account"@
    } else {
        match records[row_in(records, rows[0]@)->Some_0].creator {
            Creator::User(id) => match position_in(s.store.accounts@, id) {
                Some(i) => s.store.accounts@[i].shown_as(),
                None => "user "@ + decimal(id as nat),
            },
            Creator::Group(id) => "group "@ + decimal(id as nat),
        }
    }
}

impl AppState {
    /// How many bytes the confirmation is about, as far as counting goes.
    pub fn upload_bytes(&self) -> (n: u64)
        ensures
            n == if bytes_of(
                self.desk.index.records@,
                self.desk.pending_upload_rows@,
            ) <= u64::MAX {
                bytes_of(self.desk.index.records@, self.desk.pending_upload_rows@)
            } else {
                u64::MAX as nat
            },
    {
        let ghost rows = self.desk.pending_upload_rows@;
        let ghost records = self.desk.index.records@;
        let mut total: u64 = 0;
        let mut k: usize = 0;
        assert(rows.take(0) =~= Seq::<String>::empty());
        while k < self.desk.pending_upload_rows.len()
            invariant
                0 <= k <= rows.len(),
                rows == self.desk.pending_upload_rows@,
                records == self.desk.index.records@,
                total == if bytes_of(records, rows.take(k as int)) <= u64::MAX {
                    bytes_of(records, rows.take(k as int))
                } else {
                    u64::MAX as nat
                },
            decreases rows.len() - k,
        {
            assert(rows.take(k + 1).drop_last() =~= rows.take(k as int));
            match self.desk.index.position(&self.desk.pending_upload_rows[k]) {
                Some(i) => {
                    total = total.saturating_add(self.desk.index.records[i].file_bytes);
                },
                None => {},
            }
            k += 1;
        }
        assert(rows.take(k as int) =~= rows);
        total
    }

    /// Who the confirmation says the rows are uploaded as.
    pub fn upload_creator(&self) -> (s: String)
        ensures
            s@ == uploads_as(*self),
    {
        if self.desk.pending_upload_rows.len() == 0 {
            return "the selected account".to_owned();
        }
        match self.desk.index.position(&self.desk.pending_upload_rows[0]) {
            Some(i) => match self.desk.index.records[i].creator {
                Creator::User(id) => match position_of(&self.store.accounts, id) {
                    Some(a) => self.store.accounts[a].label().to_owned(),
                    None => join2("user ", &decimal_of(id)),
                },
                Creator::Group(id) => join2("group ", &decimal_of(id)),
            },
            None => "the selected account".to_owned(),
        }
    }
}

// ---------------------------------------------------------------------------
// The grant dialog
// ---------------------------------------------------------------------------

/// What opening the grant dialog adds to the things to do.
pub open spec fn grant_fetching(s: AppState) -> Seq<Effect> {
    if s.desk.universe_targets_user != s.desk.panel.acting_user_id {
        super::inventory::fetching_targets(s, None)
    } else {
        Seq::empty()
    }
}

/// Whether `t` is the state after the grant dialog was opened.
pub open spec fn grant_opened(s: AppState, t: AppState) -> bool {
    &&& t.out@ == s.out@ + grant_fetching(s)
    &&& t == (AppState {
        out: t.out,
        desk: AssetDesk {
            panel: AssetManagerState { grant_open: true, ..s.desk.panel },
            ..s.desk
        },
        ..s
    })
}

impl AppState {
    /// Opens the grant dialog. The experiences are asked for again where the
    /// account is another than the one they were asked for.
    pub fn open_grant_dialog(&mut self)
        requires
            old(self).inv(),
        ensures
            final(self).inv(),
            grant_opened(*old(self), *final(self)),
    {
        self.desk.panel.grant_open = true;
        let same_user: bool = match (
            self.desk.universe_targets_user,
            self.desk.panel.acting_user_id,
        ) {
            (Some(a), Some(b)) => a == b,
            (None, None) => true,
            _ => false,
        };
        if !same_user {
            assert(signing(*self) == signing(*old(self)));
            self.fetch_universe_targets(None);
        }
        assert(self.out@ =~= old(self).out@ + grant_fetching(*old(self)));
    }

    /// Grants the chosen universe what is selected, and closes the dialog.
    pub fn submit_grant(&mut self, now: u64)
        requires
            old(self).inv(),
        ensures
            final(self).inv(),
            match old(self).desk.panel.grant_universe {
                None => *final(self) == *old(self),
                Some(universe_id) => granted(
                    AppState {
                        desk: AssetDesk {
                            panel: AssetManagerState {
                                grant_open: false,
                                ..old(self).desk.panel
                            },
                            ..old(self).desk
                        },
                        ..*old(self)
                    },
                    *final(self),
                    universe_id,
                    old(self).desk.panel.selected.items@,
                    now,
                ),
            },
    {
        match self.desk.panel.grant_universe {
            Some(universe_id) => {
                let mut keys: Vec<String> = Vec::new();
                let mut k: usize = 0;
                while k < self.desk.panel.selected.items.len()
                    invariant
                        0 <= k <= self.desk.panel.selected.items@.len(),
                        *self == *old(self),
                        keys@ == self.desk.panel.selected.items@.take(k as int),
                    decreases self.desk.panel.selected.items@.len() - k,
                {
                    keys.push(self.desk.panel.selected.items[k].clone());
                    k += 1;
                    assert(keys@ =~= self.desk.panel.selected.items@.take(k as int));
                }
                assert(keys@ =~= self.desk.panel.selected.items@);
                self.desk.panel.grant_open = false;
                self.grant_universe_access(universe_id, keys, now);
            },
            None => {},
        }
    }

    /// Closes the grant dialog.
    pub fn close_grant_dialog(&mut self)
        requires
            old(self).inv(),
        ensures
            final(self).inv(),
            *final(self) == (AppState {
                desk: AssetDesk {
                    panel: AssetManagerState { grant_open: false, ..old(self).desk.panel },
                    ..old(self).desk
                },
                ..*old(self)
            }),
    {
        self.desk.panel.grant_open = false;
    }
}

} // verus!
