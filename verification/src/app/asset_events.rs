//! What the backend reports of assets.

use vstd::prelude::*;

use std::collections::HashMap;

use super::uploads::saving_index;
use super::{becomes, AppState, AssetDesk, Pictures, Timers};
use crate::assets::{identified, row_in, AssetRecord, AssetState};
use crate::lists::{first_where_facts, first_where_is, first_where_none};
use crate::models::lists;
use crate::text::{decimal, decimal_of, join2, join3};
use crate::toast::{ToastLevel, ToastsView};

verus! {

/// How long to wait before asking again for a thumbnail that was not ready, in
/// milliseconds.
pub const THUMBNAIL_RETRY: u64 = 20_000;

// ---------------------------------------------------------------------------
// Pictures
// ---------------------------------------------------------------------------

/// The pictures with each of `images` in place, in order.
pub open spec fn with_pictures(
    pictures: Map<u64, Vec<u8>>,
    images: Seq<(u64, Vec<u8>)>,
) -> Map<u64, Vec<u8>>
    decreases images.len(),
{
    if images.len() == 0 {
        pictures
    } else {
        with_pictures(pictures, images.drop_last()).insert(images.last().0, images.last().1)
    }
}

/// The pictures without those that `images` brings anew.
pub open spec fn without_pictures(
    pictures: Map<u64, Vec<u8>>,
    images: Seq<(u64, Vec<u8>)>,
) -> Map<u64, Vec<u8>>
    decreases images.len(),
{
    if images.len() == 0 {
        pictures
    } else {
        without_pictures(pictures, images.drop_last()).remove(images.last().0)
    }
}

/// Whether one of the images belongs to `id`.
pub open spec fn brings(images: Seq<(u64, Vec<u8>)>, id: u64) -> bool {
    exists|i: int| 0 <= i < images.len() && (#[trigger] images[i]).0 == id
}

/// When to ask again for thumbnails, after an answer to a request for some.
pub open spec fn retries(
    retry_at: Map<u64, u64>,
    requested: Seq<u64>,
    images: Seq<(u64, Vec<u8>)>,
    again: u64,
) -> Map<u64, u64>
    decreases requested.len(),
{
    if requested.len() == 0 {
        retry_at
    } else {
        let rest = retries(retry_at, requested.drop_last(), images, again);
        let id = requested.last();
        if brings(images, id) {
            rest.remove(id)
        } else {
            rest.insert(id, again)
        }
    }
}

/// The requests that are still out after an answer to some.
pub open spec fn still_out(inflight: Set<u64>, requested: Seq<u64>) -> Set<u64>
    decreases requested.len(),
{
    if requested.len() == 0 {
        inflight
    } else {
        still_out(inflight, requested.drop_last()).remove(requested.last())
    }
}

/// A wait from now on.
pub open spec fn from_now(now: u64, wait: u64) -> u64 {
    if now + wait > u64::MAX {
        u64::MAX
    } else {
        (now + wait) as u64
    }
}

fn brings_one(images: &Vec<(u64, Vec<u8>)>, id: u64) -> (b: bool)
    ensures
        b == brings(images@, id),
{
    let mut i: usize = 0;
    while i < images.len()
        invariant
            0 <= i <= images@.len(),
            forall|j: int| 0 <= j < i ==> (#[trigger] images@[j]).0 != id,
        decreases images@.len() - i,
    {
        if images[i].0 == id {
            return true;
        }
        i += 1;
    }
    false
}

/// Puts each of the images in place.
pub fn keep_pictures(pictures: &mut HashMap<u64, Vec<u8>>, images: Vec<(u64, Vec<u8>)>)
    ensures
        final(pictures)@ == with_pictures(old(pictures)@, images@),
{
    broadcast use vstd::std_specs::hash::group_hash_axioms;

    let ghost all = images@;
    assert(all.take(0) =~= Seq::<(u64, Vec<u8>)>::empty());
    for image in it: images.into_iter()
        invariant
            it.seq() == all,
            pictures@ == with_pictures(old(pictures)@, all.take(it.index() as int)),
    {
        broadcast use vstd::std_specs::hash::group_hash_axioms;

        let ghost k = it.index() as int;
        assert(all.take(k + 1).drop_last() =~= all.take(k));
        assert(all.take(k + 1).last() == image);
        pictures.insert(image.0, image.1);
    }
    assert(all.take(all.len() as int) =~= all);
}

/// Takes out the pictures that `images` brings anew.
pub fn drop_pictures(pictures: &mut HashMap<u64, Vec<u8>>, images: &Vec<(u64, Vec<u8>)>)
    ensures
        final(pictures)@ == without_pictures(old(pictures)@, images@),
{
    broadcast use vstd::std_specs::hash::group_hash_axioms;

    let mut k: usize = 0;
    assert(images@.take(0) =~= Seq::<(u64, Vec<u8>)>::empty());
    while k < images.len()
        invariant
            0 <= k <= images@.len(),
            pictures@ == without_pictures(old(pictures)@, images@.take(k as int)),
        decreases images@.len() - k,
    {
        broadcast use vstd::std_specs::hash::group_hash_axioms;

        assert(images@.take(k + 1).drop_last() =~= images@.take(k as int));
        pictures.remove(&images[k].0);
        k += 1;
    }
    assert(images@.take(k as int) =~= images@);
}

/// Whether `t` is the state after thumbnails came in. One that Roblox had not
/// rendered yet is asked for again after a while.
pub open spec fn thumbnails_kept(
    s: AppState,
    t: AppState,
    requested: Seq<u64>,
    images: Seq<(u64, Vec<u8>)>,
    now: u64,
) -> bool {
    &&& t.pictures.thumbnails@ == with_pictures(s.pictures.thumbnails@, images)
    &&& t.pictures.inflight@ == still_out(s.pictures.inflight@, requested)
    &&& t.pictures.retry_at@ == retries(
        s.pictures.retry_at@,
        requested,
        images,
        from_now(now, THUMBNAIL_RETRY),
    )
    &&& t == (AppState {
        pictures: Pictures {
            thumbnails: t.pictures.thumbnails,
            inflight: t.pictures.inflight,
            retry_at: t.pictures.retry_at,
            ..s.pictures
        },
        ..s
    })
}

impl AppState {
    /// Thumbnails came in.
    pub fn thumbnails_ready(
        &mut self,
        requested: Vec<u64>,
        images: Vec<(u64, Vec<u8>)>,
        now: u64,
    )
        requires
            old(self).inv(),
        ensures
            final(self).inv(),
            thumbnails_kept(*old(self), *final(self), requested@, images@, now),
    {
        broadcast use vstd::std_specs::hash::group_hash_axioms;

        let again: u64 = now.saturating_add(THUMBNAIL_RETRY);
        let mut k: usize = 0;
        assert(requested@.take(0) =~= Seq::<u64>::empty());
        while k < requested.len()
            invariant
                0 <= k <= requested@.len(),
                self.inv(),
                again == from_now(now, THUMBNAIL_RETRY),
                self.pictures.inflight@ == still_out(
                    old(self).pictures.inflight@,
                    requested@.take(k as int),
                ),
                self.pictures.retry_at@ == retries(
                    old(self).pictures.retry_at@,
                    requested@.take(k as int),
                    images@,
                    again,
                ),
                *self == (AppState {
                    pictures: Pictures {
                        inflight: self.pictures.inflight,
                        retry_at: self.pictures.retry_at,
                        ..old(self).pictures
                    },
                    ..*old(self)
                }),
            decreases requested@.len() - k,
        {
            broadcast use vstd::std_specs::hash::group_hash_axioms;

            let id: u64 = requested[k];
            assert(requested@.take(k + 1).drop_last() =~= requested@.take(k as int));
            assert(requested@.take(k + 1).last() == id);
            self.pictures.inflight.remove(id);
            if brings_one(&images, id) {
                self.pictures.retry_at.remove(&id);
            } else {
                self.pictures.retry_at.insert(id, again);
            }
            k += 1;
        }
        assert(requested@.take(k as int) =~= requested@);
        keep_pictures(&mut self.pictures.thumbnails, images);
    }
}

/// A thumbnail that was asked for is either there, or will be asked for again.
pub proof fn a_missing_thumbnail_is_asked_for_again(
    retry_at: Map<u64, u64>,
    requested: Seq<u64>,
    images: Seq<(u64, Vec<u8>)>,
    again: u64,
    id: u64,
)
    requires
        requested.contains(id),
    ensures
        brings(images, id) ==> !retries(retry_at, requested, images, again).contains_key(id),
        !brings(images, id) ==> retries(retry_at, requested, images, again).contains_key(id)
            && retries(retry_at, requested, images, again)[id] == again,
    decreases requested.len(),
{
    if requested.last() != id {
        let front = requested.drop_last();
        let i = choose|i: int| 0 <= i < requested.len() && requested[i] == id;
        assert(front[i] == id);
        a_missing_thumbnail_is_asked_for_again(retry_at, front, images, again, id);
    }
}

/// Nothing that was answered is still out.
pub proof fn an_answered_request_is_no_longer_out(inflight: Set<u64>, requested: Seq<u64>, id: u64)
    ensures
        still_out(inflight, requested).contains(id) <==> inflight.contains(id)
            && !requested.contains(id),
    decreases requested.len(),
{
    if requested.len() > 0 {
        let front = requested.drop_last();
        an_answered_request_is_no_longer_out(inflight, front, id);
        if requested.contains(id) && requested.last() != id {
            let i = choose|i: int| 0 <= i < requested.len() && requested[i] == id;
            assert(front[i] == id);
        }
        if front.contains(id) {
            let i = choose|i: int| 0 <= i < front.len() && front[i] == id;
            assert(requested[i] == id);
        }
        if requested.last() == id {
            assert(requested[requested.len() - 1] == id);
        }
    }
}

// ---------------------------------------------------------------------------
// Uploads
// ---------------------------------------------------------------------------

/// Whether `t` is `s` with these rows, once the index was written.
pub open spec fn rows_written(s: AppState, t: AppState, records: Seq<AssetRecord>, now: u64) -> bool {
    &&& t.desk.index.records@ == records
    &&& t.out@ == s.out@ + saving_index(s)
    &&& t == (AppState {
        out: t.out,
        desk: AssetDesk { index: t.desk.index, dirty: false, ..s.desk },
        timers: Timers { index_save: Some(now), ..s.timers },
        ..s
    })
}

/// The rows after one was found to hold these bytes.
pub open spec fn with_hash(
    records: Seq<AssetRecord>,
    row_id: Seq<char>,
    file_sha256: String,
    file_bytes: u64,
) -> Seq<AssetRecord> {
    match row_in(records, row_id) {
        Some(i) => records.update(i, AssetRecord { file_sha256, file_bytes, ..records[i] }),
        None => records,
    }
}

/// The rows after Roblox took one in for processing.
pub open spec fn with_operation(
    records: Seq<AssetRecord>,
    row_id: Seq<char>,
    operation: String,
    started_at: i64,
) -> Seq<AssetRecord> {
    match row_in(records, row_id) {
        Some(i) => records.update(
            i,
            AssetRecord {
                state: AssetState::Pending { operation, since: started_at },
                updated_at: Some(started_at),
                ..records[i]
            },
        ),
        None => records,
    }
}

impl AppState {
    /// A file was read and is going out. Its hash is written at once: it is
    /// what tells an interrupted upload from one that never started.
    pub fn upload_started(
        &mut self,
        row_id: &str,
        file_sha256: String,
        file_bytes: u64,
        now: u64,
    )
        requires
            old(self).inv(),
        ensures
            final(self).inv(),
            rows_written(
                *old(self),
                *final(self),
                with_hash(old(self).desk.index.records@, row_id@, file_sha256, file_bytes),
                now,
            ),
    {
        match self.desk.index.position(row_id) {
            Some(i) => {
                self.desk.index.records[i].file_sha256 = file_sha256;
                self.desk.index.records[i].file_bytes = file_bytes;
            },
            None => {},
        }
        assert(self.desk.index.records@ =~= with_hash(
            old(self).desk.index.records@,
            row_id@,
            file_sha256,
            file_bytes,
        ));
        self.save_asset_index(now);
    }

    /// Roblox took the bytes. The operation is written at once: without it
    /// there would be nothing to ask about after a crash.
    pub fn operation_created(
        &mut self,
        row_id: &str,
        operation: String,
        started_at: i64,
        now: u64,
    )
        requires
            old(self).inv(),
        ensures
            final(self).inv(),
            rows_written(
                *old(self),
                *final(self),
                with_operation(old(self).desk.index.records@, row_id@, operation, started_at),
                now,
            ),
    {
        match self.desk.index.position(row_id) {
            Some(i) => {
                self.desk.index.records[i].state = AssetState::Pending {
                    operation,
                    since: started_at,
                };
                self.desk.index.records[i].updated_at = Some(started_at);
            },
            None => {},
        }
        assert(self.desk.index.records@ =~= with_operation(
            old(self).desk.index.records@,
            row_id@,
            operation,
            started_at,
        ));
        self.save_asset_index(now);
    }
}

// ---------------------------------------------------------------------------
// Grants
// ---------------------------------------------------------------------------

/// Whether `new` is the row `old` after a universe was granted its asset. A
/// grant that was to follow approval has been made: it is not made again.
pub open spec fn row_granted(old: AssetRecord, new: AssetRecord, universe_id: u64) -> bool {
    &&& new == (AssetRecord {
        granted_universes: new.granted_universes,
        auto_grant_universe: None,
        ..old
    })
    &&& new.granted_universes@ == if old.granted_universes@.contains(universe_id) {
        old.granted_universes@
    } else {
        old.granted_universes@.push(universe_id)
    }
}

/// Whether one of the first `n` identifiers finds row `i`.
pub open spec fn row_named(records: Seq<AssetRecord>, row_ids: Seq<String>, n: int, i: int) -> bool {
    exists|k: int| 0 <= k < n && row_in(records, (#[trigger] row_ids[k])@) == Some(i)
}

/// Whether `after` is `before` with the universe granted to the rows that the
/// first `n` identifiers name.
pub open spec fn rows_granted(
    before: Seq<AssetRecord>,
    after: Seq<AssetRecord>,
    row_ids: Seq<String>,
    n: int,
    universe_id: u64,
) -> bool {
    &&& after.len() == before.len()
    &&& forall|i: int|
        0 <= i < before.len() ==> if row_named(before, row_ids, n, i) {
            row_granted(before[i], #[trigger] after[i], universe_id)
        } else {
            after[i] == before[i]
        }
}

/// Rows under the same identifiers are found at the same places.
pub proof fn rows_are_found_alike(a: Seq<AssetRecord>, b: Seq<AssetRecord>, row_id: Seq<char>)
    requires
        a.len() == b.len(),
        forall|i: int| 0 <= i < a.len() ==> (#[trigger] a[i]).row_id == b[i].row_id,
    ensures
        row_in(a, row_id) == row_in(b, row_id),
{
    let p = identified(row_id);
    first_where_facts(a, p);
    match row_in(a, row_id) {
        Some(i) => {
            assert forall|j: int| 0 <= j < i implies !p(#[trigger] b[j]) by {
                assert(!p(a[j]));
            }
            assert(p(b[i]));
            first_where_is(b, p, i);
        },
        None => {
            assert forall|j: int| 0 <= j < b.len() implies !p(#[trigger] b[j]) by {
                assert(!p(a[j]));
            }
            first_where_none(b, p);
        },
    }
}

/// What is said of a grant. Roblox may refuse some assets of a batch that it
/// accepts.
pub open spec fn grant_said(
    toasts: ToastsView,
    universe_id: u64,
    granted: usize,
    refused: usize,
    now: u64,
) -> ToastsView {
    let text = "Granted "@ + decimal(granted as nat) + " asset(s) to universe "@ + decimal(
        universe_id as nat,
    );
    if refused > 0 {
        toasts.said(
            text + ", "@ + decimal(refused as nat) + " refused. See the log for which."@,
            ToastLevel::Warning,
            now,
        )
    } else {
        toasts.said(text, ToastLevel::Success, now)
    }
}

/// Whether `t` is the state after a universe was granted assets.
pub open spec fn grants_noted(
    s: AppState,
    t: AppState,
    universe_id: u64,
    row_ids: Seq<String>,
    granted: usize,
    refused: usize,
    now: u64,
) -> bool {
    &&& rows_granted(
        s.desk.index.records@,
        t.desk.index.records@,
        row_ids,
        row_ids.len() as int,
        universe_id,
    )
    &&& becomes(
        t,
        AppState {
            desk: AssetDesk { index: t.desk.index, dirty: false, ..s.desk },
            timers: Timers { index_save: Some(now), ..s.timers },
            ..s
        },
        s.out@ + saving_index(s),
        grant_said(s.toasts@, universe_id, granted, refused, now),
    )
}

impl AppState {
    /// Notes on one row that a universe was granted its asset.
    fn note_grant(&mut self, i: usize, universe_id: u64)
        requires
            old(self).inv(),
            i < old(self).desk.index.records@.len(),
        ensures
            final(self).inv(),
            final(self).desk.index.records@.len() == old(self).desk.index.records@.len(),
            row_granted(
                old(self).desk.index.records@[i as int],
                final(self).desk.index.records@[i as int],
                universe_id,
            ),
            forall|j: int|
                0 <= j < old(self).desk.index.records@.len() && j != i ==> (
                #[trigger] final(self).desk.index.records@[j])
                    == old(self).desk.index.records@[j],
            old(self).desk.index.records@[i as int].granted_universes@.contains(universe_id)
                && old(self).desk.index.records@[i as int].auto_grant_universe is None
                ==> final(self).desk.index.records@[i as int]
                == old(self).desk.index.records@[i as int],
            *final(self) == (AppState {
                desk: AssetDesk { index: final(self).desk.index, ..old(self).desk },
                ..*old(self)
            }),
    {
        let known: bool = lists(&self.desk.index.records[i].granted_universes, universe_id);
        if !known {
            self.desk.index.records[i].granted_universes.push(universe_id);
        }
        self.desk.index.records[i].auto_grant_universe = None;
    }

    /// A universe was granted assets.
    pub fn permissions_granted(
        &mut self,
        universe_id: u64,
        row_ids: Vec<String>,
        granted: usize,
        refused: usize,
        now: u64,
    )
        requires
            old(self).inv(),
        ensures
            final(self).inv(),
            grants_noted(
                *old(self),
                *final(self),
                universe_id,
                row_ids@,
                granted,
                refused,
                now,
            ),
    {
        let ghost before = self.desk.index.records@;
        let mut k: usize = 0;
        while k < row_ids.len()
            invariant
                0 <= k <= row_ids@.len(),
                self.inv(),
                before == old(self).desk.index.records@,
                rows_granted(before, self.desk.index.records@, row_ids@, k as int, universe_id),
                *self == (AppState {
                    desk: AssetDesk { index: self.desk.index, ..old(self).desk },
                    ..*old(self)
                }),
            decreases row_ids@.len() - k,
        {
            let ghost here = self.desk.index.records@;
            proof {
                assert forall|i: int| 0 <= i < here.len() implies (#[trigger] here[i]).row_id
                    == before[i].row_id by {
                    let named = row_named(before, row_ids@, k as int, i);
                    assert(named || !named);
                }
                rows_are_found_alike(here, before, row_ids@[k as int]@);
            }
            match self.desk.index.position(&row_ids[k]) {
                Some(at) => {
                    self.note_grant(at, universe_id);
                    proof {
                        let after = self.desk.index.records@;
                        assert(row_in(before, row_ids@[k as int]@) == Some(at as int));
                        assert forall|i: int| 0 <= i < before.len() implies if row_named(
                            before,
                            row_ids@,
                            k + 1,
                            i,
                        ) {
                            row_granted(before[i], #[trigger] after[i], universe_id)
                        } else {
                            after[i] == before[i]
                        } by {
                            assert(here[i] == here[i]);
                            if row_named(before, row_ids@, k as int, i) {
                                let j = choose|j: int|
                                    0 <= j < k && row_in(before, (#[trigger] row_ids@[j])@)
                                        == Some(i);
                                assert(row_in(before, row_ids@[j]@) == Some(i));
                                assert(row_named(before, row_ids@, k + 1, i));
                                if i == at {
                                    let g = here[i].granted_universes@;
                                    if !before[i].granted_universes@.contains(universe_id) {
                                        assert(g[g.len() - 1] == universe_id);
                                    }
                                    assert(g.contains(universe_id));
                                }
                            } else if i == at {
                                assert(row_named(before, row_ids@, k + 1, i));
                            } else if row_named(before, row_ids@, k + 1, i) {
                                let j = choose|j: int|
                                    0 <= j < k + 1 && row_in(before, (#[trigger] row_ids@[j])@)
                                        == Some(i);
                                assert(j < k);
                                assert(row_named(before, row_ids@, k as int, i));
                            }
                        }
                    }
                },
                None => {
                    proof {
                        assert forall|i: int| 0 <= i < before.len() implies row_named(
                            before,
                            row_ids@,
                            k + 1,
                            i,
                        ) == row_named(before, row_ids@, k as int, i) by {
                            if row_named(before, row_ids@, k + 1, i) {
                                let j = choose|j: int|
                                    0 <= j < k + 1 && row_in(before, (#[trigger] row_ids@[j])@)
                                        == Some(i);
                                assert(j < k);
                            }
                            if row_named(before, row_ids@, k as int, i) {
                                let j = choose|j: int|
                                    0 <= j < k && row_in(before, (#[trigger] row_ids@[j])@)
                                        == Some(i);
                                assert(row_in(before, row_ids@[j]@) == Some(i));
                            }
                        }
                    }
                },
            }
            k += 1;
        }
        self.save_asset_index(now);
        let text: String = join2(
            &join3("Granted ", &decimal_of(granted as u64), " asset(s) to universe "),
            &decimal_of(universe_id),
        );
        if refused > 0 {
            let more: String = join2(
                &join3(&text, ", ", &decimal_of(refused as u64)),
                " refused. See the log for which.",
            );
            self.say(&more, ToastLevel::Warning, now);
        } else {
            self.say(&text, ToastLevel::Success, now);
        }
    }

    /// A universe could not be granted anything.
    pub fn permissions_failed(&mut self, universe_id: u64, message: &str, now: u64)
        requires
            old(self).inv(),
        ensures
            final(self).inv(),
            becomes(
                *final(self),
                *old(self),
                old(self).out@,
                old(self).toasts@.said(
                    "Could not grant access to universe "@ + decimal(universe_id as nat) + ": "@
                        + message@,
                    ToastLevel::Error,
                    now,
                ),
            ),
    {
        let text: String = join2(
            &join3("Could not grant access to universe ", &decimal_of(universe_id), ": "),
            message,
        );
        self.say(&text, ToastLevel::Error, now);
    }
}

/// A grant that was made for a row on approval is not made a second time.
pub proof fn an_auto_grant_is_made_once(
    before: Seq<AssetRecord>,
    after: Seq<AssetRecord>,
    row_ids: Seq<String>,
    universe_id: u64,
    i: int,
)
    requires
        rows_granted(before, after, row_ids, row_ids.len() as int, universe_id),
        0 <= i < before.len(),
        row_named(before, row_ids, row_ids.len() as int, i),
    ensures
        after[i].auto_grant_universe is None,
        after[i].granted_universes@.contains(universe_id),
{
    let g = after[i].granted_universes@;
    if !before[i].granted_universes@.contains(universe_id) {
        assert(g[g.len() - 1] == universe_id);
    }
}

} // verus!
