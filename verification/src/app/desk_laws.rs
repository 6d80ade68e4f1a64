//! What the asset tab asks about, stages and queues, and what groups of accounts
//! hold.

use vstd::prelude::*;

use super::accounts::{group_assigned, group_created, group_edited, grouped};
use super::asset_tab::asset_action_done;
use super::asset_event_laws::{a_row_is_found, is_row, the_row_is_found};
use super::inventory::{fetching_groups, fetching_kinds, fetching_pages, fetching_targets};
use super::polls::{
    an_account_asks_once, askers, entries_of, every_row_is_asked_about, operations_asked,
    owners_of, signs, verdicts_asked,
};
use super::queue_laws::{an_open_store_signs_for_its_accounts, signs_for};
use super::staging::{
    all_confirmed, all_given_up, files_staged, retried, row_removed, same_file, StagedFile,
};
use super::uploads::{signing, Signing};
use super::{AppState, Clock, Effect};
use crate::asset_manager::{AssetManagerAction, TreeNode};
use crate::assets::{row_in, AssetKind, AssetRecord, AssetState, Creator};
use crate::bridge::{BackendCommand, Credentials};
use crate::lists::first_where_facts;
use crate::models::{position_facts, Account, Group};

verus! {

// ---------------------------------------------------------------------------
// Polls
// ---------------------------------------------------------------------------

/// Whether a row of the index is under an identifier and was uploaded by an
/// account.
pub open spec fn is_uploaded_by(
    records: Seq<AssetRecord>,
    row_id: Seq<char>,
    user_id: u64,
) -> bool {
    exists|i: int| #[trigger] is_row(records, row_id, i) && records[i].uploaded_by == user_id
}

/// Whether all entries are of the batch, and of rows that an account uploaded.
pub open spec fn are_the_accounts_own<T>(
    entries: Seq<(String, T)>,
    batch: Seq<(String, T)>,
    records: Seq<AssetRecord>,
    user_id: u64,
) -> bool {
    forall|e: (String, T)| #[trigger]
        entries.contains(e) ==> batch.contains(e) && is_uploaded_by(records, e.0@, user_id)
}

proof fn entries_are_the_accounts_own<T>(
    batch: Seq<(String, T)>,
    records: Seq<AssetRecord>,
    user_id: u64,
)
    ensures
        are_the_accounts_own(
            entries_of(batch, owners_of(records, batch), user_id),
            batch,
            records,
            user_id,
        ),
    decreases batch.len(),
{
    let owners = owners_of(records, batch);
    let all = entries_of(batch, owners, user_id);
    if batch.len() > 0 {
        let front = batch.drop_last();
        assert(owners.drop_last() =~= owners_of(records, front));
        entries_are_the_accounts_own(front, records, user_id);
        let before = entries_of(front, owners_of(records, front), user_id);
        assert forall|e: (String, T)| #[trigger] all.contains(e) implies batch.contains(e)
            && is_uploaded_by(records, e.0@, user_id) by {
            let m = choose|m: int| 0 <= m < all.len() && all[m] == e;
            if m < before.len() {
                assert(before[m] == e);
                assert(before.contains(e));
                let k = choose|k: int| 0 <= k < front.len() && front[k] == e;
                assert(batch[k] == e);
            } else {
                assert(e == batch.last());
                assert(batch[batch.len() - 1] == e);
                assert(owners.last() == super::polls::owner_of(records, e.0@));
                a_row_is_found(records, e.0@);
                assert(is_row(records, e.0@, row_in(records, e.0@)->Some_0));
            }
        }
    }
}

proof fn those_who_ask_sign(signer: Signing, owners: Seq<Option<u64>>)
    ensures
        forall|u: u64| #[trigger]
            askers(signer, owners).contains(u) <==> owners.contains(Some(u)) && signer.credentials(
                u,
            ) is Some,
{
    an_account_asks_once(owners);
    let all = super::polls::firsts(owners);
    let p = signs(signer);
    let kept = all.filter(p);
    assert forall|u: u64| #[trigger] kept.contains(u) <==> owners.contains(Some(u))
        && signer.credentials(u) is Some by {
        if kept.contains(u) {
            let m = choose|m: int| 0 <= m < kept.len() && kept[m] == u;
            all.lemma_filter_pred(p, m);
            all.lemma_filter_contains_rev(p, u);
            assert(all.contains(u));
        }
        if owners.contains(Some(u)) && signer.credentials(u) is Some {
            assert(all.contains(u));
            let i = choose|i: int| 0 <= i < all.len() && all[i] == u;
            all.lemma_filter_contains(p, i);
        }
    }
}

/// Whether something asks about operations of rows of the batch, signed for by
/// the account that uploaded them.
pub open spec fn asks_about_own_operations(
    effect: Effect,
    signer: Signing,
    records: Seq<AssetRecord>,
    batch: Seq<(String, String)>,
) -> bool {
    effect matches Effect::Send(BackendCommand::PollAssetOperations { credentials, operations })
        && signs_for(credentials, credentials.user_id, signer) && are_the_accounts_own(
        operations@,
        batch,
        records,
        credentials.user_id,
    )
}

/// Whether something asks about this operation, signed for by an account.
pub open spec fn asks_about_operation(
    effect: Effect,
    entry: (String, String),
    user_id: u64,
) -> bool {
    effect matches Effect::Send(BackendCommand::PollAssetOperations { credentials, operations })
        && credentials.user_id == user_id && operations@.contains(entry)
}

/// Whether this operation is asked about.
pub open spec fn is_asked_about(asked: Seq<Effect>, entry: (String, String), user_id: u64) -> bool {
    exists|m: int| 0 <= m < asked.len() && asks_about_operation(#[trigger] asked[m], entry, user_id)
}

/// Operations are asked about by the accounts that uploaded their rows and no
/// others, and every operation of the batch whose uploader can sign is asked
/// about.
pub proof fn operations_are_asked_about_by_their_uploaders(
    asked: Seq<Effect>,
    signer: Signing,
    records: Seq<AssetRecord>,
    batch: Seq<(String, String)>,
)
    requires
        operations_asked(asked, signer, records, batch),
    ensures
        forall|m: int|
            0 <= m < asked.len() ==> asks_about_own_operations(
                #[trigger] asked[m],
                signer,
                records,
                batch,
            ),
        forall|k: int, i: int|
            0 <= k < batch.len() && #[trigger] is_row(records, (#[trigger] batch[k]).0@, i)
                && signer.credentials(records[i].uploaded_by) is Some ==> is_asked_about(
                asked,
                batch[k],
                records[i].uploaded_by,
            ),
{
    let owners = owners_of(records, batch);
    let users = askers(signer, owners);
    those_who_ask_sign(signer, owners);
    assert forall|m: int| 0 <= m < asked.len() implies asks_about_own_operations(
        #[trigger] asked[m],
        signer,
        records,
        batch,
    ) by {
        assert(users.contains(users[m]));
        entries_are_the_accounts_own(batch, records, users[m]);
        an_open_store_signs_for_its_accounts(signer, users[m]);
    }
    assert forall|k: int, i: int|
        0 <= k < batch.len() && #[trigger] is_row(records, (#[trigger] batch[k]).0@, i)
            && signer.credentials(records[i].uploaded_by) is Some implies is_asked_about(
        asked,
        batch[k],
        records[i].uploaded_by,
    ) by {
        let user_id = records[i].uploaded_by;
        the_row_is_found(records, batch[k].0@, i);
        assert(owners[k] == Some(user_id));
        assert(owners.contains(Some(user_id)));
        assert(users.contains(user_id));
        let m = choose|m: int| 0 <= m < users.len() && users[m] == user_id;
        every_row_is_asked_about(batch, owners, user_id, k);
        an_open_store_signs_for_its_accounts(signer, user_id);
        assert(asks_about_operation(asked[m], batch[k], user_id));
    }
}

/// Whether something asks for verdicts on rows of the batch, signed for by the
/// account that uploaded them.
pub open spec fn asks_for_own_verdicts(
    effect: Effect,
    signer: Signing,
    records: Seq<AssetRecord>,
    batch: Seq<(String, u64)>,
) -> bool {
    effect matches Effect::Send(BackendCommand::PollAssetModeration { credentials, assets })
        && signs_for(credentials, credentials.user_id, signer) && are_the_accounts_own(
        assets@,
        batch,
        records,
        credentials.user_id,
    )
}

/// Whether something asks for this verdict, signed for by an account.
pub open spec fn asks_for_verdict(effect: Effect, entry: (String, u64), user_id: u64) -> bool {
    effect matches Effect::Send(BackendCommand::PollAssetModeration { credentials, assets })
        && credentials.user_id == user_id && assets@.contains(entry)
}

/// Whether this verdict is asked for.
pub open spec fn is_asked_for(asked: Seq<Effect>, entry: (String, u64), user_id: u64) -> bool {
    exists|m: int| 0 <= m < asked.len() && asks_for_verdict(#[trigger] asked[m], entry, user_id)
}

/// Verdicts are asked for by the accounts that uploaded the rows and no others,
/// and every verdict of the batch whose uploader can sign is asked for.
pub proof fn verdicts_are_asked_for_by_the_uploaders(
    asked: Seq<Effect>,
    signer: Signing,
    records: Seq<AssetRecord>,
    batch: Seq<(String, u64)>,
)
    requires
        verdicts_asked(asked, signer, records, batch),
    ensures
        forall|m: int|
            0 <= m < asked.len() ==> asks_for_own_verdicts(
                #[trigger] asked[m],
                signer,
                records,
                batch,
            ),
        forall|k: int, i: int|
            0 <= k < batch.len() && #[trigger] is_row(records, (#[trigger] batch[k]).0@, i)
                && signer.credentials(records[i].uploaded_by) is Some ==> is_asked_for(
                asked,
                batch[k],
                records[i].uploaded_by,
            ),
{
    let owners = owners_of(records, batch);
    let users = askers(signer, owners);
    those_who_ask_sign(signer, owners);
    assert forall|m: int| 0 <= m < asked.len() implies asks_for_own_verdicts(
        #[trigger] asked[m],
        signer,
        records,
        batch,
    ) by {
        assert(users.contains(users[m]));
        entries_are_the_accounts_own(batch, records, users[m]);
        an_open_store_signs_for_its_accounts(signer, users[m]);
    }
    assert forall|k: int, i: int|
        0 <= k < batch.len() && #[trigger] is_row(records, (#[trigger] batch[k]).0@, i)
            && signer.credentials(records[i].uploaded_by) is Some implies is_asked_for(
        asked,
        batch[k],
        records[i].uploaded_by,
    ) by {
        let user_id = records[i].uploaded_by;
        the_row_is_found(records, batch[k].0@, i);
        assert(owners[k] == Some(user_id));
        assert(owners.contains(Some(user_id)));
        assert(users.contains(user_id));
        let m = choose|m: int| 0 <= m < users.len() && users[m] == user_id;
        every_row_is_asked_about(batch, owners, user_id, k);
        an_open_store_signs_for_its_accounts(signer, user_id);
        assert(asks_for_verdict(asked[m], batch[k], user_id));
    }
}

// ---------------------------------------------------------------------------
// The inventory
// ---------------------------------------------------------------------------

/// Whether the tab acts as an account that can sign.
pub open spec fn can_act(s: AppState) -> bool {
    s.session is Some && s.desk.panel.acting_user_id is Some && exists|a: int|
        0 <= a < s.store.accounts@.len() && (#[trigger] s.store.accounts@[a]).user_id
            == s.desk.panel.acting_user_id->Some_0
}

/// Whether credentials are those of the account that the tab acts as.
pub open spec fn act(c: Credentials, s: AppState) -> bool {
    s.desk.panel.acting_user_id matches Some(user_id) && signs_for(c, user_id, signing(s))
}

proof fn who_acts_signs(s: AppState)
    ensures
        super::inventory::acting(s) is Some <==> can_act(s),
        super::inventory::acting(s) matches Some(c) ==> act(c, s),
{
    match s.desk.panel.acting_user_id {
        Some(user_id) => {
            an_open_store_signs_for_its_accounts(signing(s), user_id);
        },
        None => {},
    }
}

/// Whether something asks for a page of a kind of a creator's inventory, as the
/// account that the tab acts as.
pub open spec fn asks_for_page(
    effect: Effect,
    s: AppState,
    creator: Creator,
    kind: AssetKind,
    cursor: Option<String>,
) -> bool {
    effect matches Effect::Send(
        BackendCommand::FetchCreations { credentials, creator: of, kind: k, cursor: from },
    ) && act(credentials, s) && of == creator && k == kind && from == cursor
}

/// The first page of each kind is asked for, in order, of the very creator whose
/// inventory it is; nothing is asked while no account can sign.
pub proof fn first_pages_are_asked_for(s: AppState, creator: Creator, kinds: Seq<AssetKind>)
    ensures
        can_act(s) ==> fetching_kinds(s, TreeNode::Inventory(creator), kinds).len() == kinds.len(),
        can_act(s) ==> forall|k: int|
            0 <= k < kinds.len() ==> asks_for_page(
                #[trigger] fetching_kinds(s, TreeNode::Inventory(creator), kinds)[k],
                s,
                creator,
                kinds[k],
                None,
            ),
        !can_act(s) ==> fetching_kinds(s, TreeNode::Inventory(creator), kinds).len() == 0,
    decreases kinds.len(),
{
    who_acts_signs(s);
    if kinds.len() > 0 {
        first_pages_are_asked_for(s, creator, kinds.drop_last());
        let rest = fetching_kinds(s, TreeNode::Inventory(creator), kinds.drop_last());
        let all = fetching_kinds(s, TreeNode::Inventory(creator), kinds);
        if can_act(s) {
            assert forall|k: int| 0 <= k < kinds.len() implies asks_for_page(
                #[trigger] all[k],
                s,
                creator,
                kinds[k],
                None,
            ) by {
                if k < rest.len() {
                    assert(all[k] == rest[k]);
                    assert(kinds.drop_last()[k] == kinds[k]);
                }
            }
        }
    }
}

/// The next page of each kind is asked for from where the last one ended.
pub proof fn next_pages_go_on_from_their_cursors(
    s: AppState,
    creator: Creator,
    cursors: Seq<(AssetKind, String)>,
)
    ensures
        can_act(s) ==> fetching_pages(s, TreeNode::Inventory(creator), cursors).len()
            == cursors.len(),
        can_act(s) ==> forall|k: int|
            0 <= k < cursors.len() ==> asks_for_page(
                #[trigger] fetching_pages(s, TreeNode::Inventory(creator), cursors)[k],
                s,
                creator,
                cursors[k].0,
                Some(cursors[k].1),
            ),
        !can_act(s) ==> fetching_pages(s, TreeNode::Inventory(creator), cursors).len() == 0,
    decreases cursors.len(),
{
    who_acts_signs(s);
    if cursors.len() > 0 {
        next_pages_go_on_from_their_cursors(s, creator, cursors.drop_last());
        let rest = fetching_pages(s, TreeNode::Inventory(creator), cursors.drop_last());
        let all = fetching_pages(s, TreeNode::Inventory(creator), cursors);
        if can_act(s) {
            assert forall|k: int| 0 <= k < cursors.len() implies asks_for_page(
                #[trigger] all[k],
                s,
                creator,
                cursors[k].0,
                Some(cursors[k].1),
            ) by {
                if k < rest.len() {
                    assert(all[k] == rest[k]);
                    assert(cursors.drop_last()[k] == cursors[k]);
                }
            }
        }
    }
}

/// Experiences and groups are asked for as the account that the tab acts as, and
/// a place is looked up as it was given.
pub proof fn targets_and_groups_are_asked_for_by_who_acts(s: AppState, place_id: Option<u64>)
    ensures
        !can_act(s) ==> fetching_targets(s, place_id).len() == 0 && fetching_groups(s).len() == 0,
        can_act(s) ==> {
            &&& fetching_targets(s, place_id).len() == 1
            &&& fetching_targets(s, place_id)[0] matches Effect::Send(
                BackendCommand::FetchUniverseTargets { credentials, place_id: place },
            ) && act(credentials, s) && place == place_id
        },
        can_act(s) ==> {
            &&& fetching_groups(s).len() == 1
            &&& fetching_groups(s)[0] matches Effect::Send(
                BackendCommand::FetchPublishGroups { credentials },
            ) && act(credentials, s)
        },
{
    who_acts_signs(s);
}

// ---------------------------------------------------------------------------
// Staging and queueing
// ---------------------------------------------------------------------------

/// Whether the row at `i` is the first, of those before `end`, of a file under a
/// creator.
pub open spec fn is_first_of_file(
    records: Seq<AssetRecord>,
    i: int,
    end: int,
    path: Seq<char>,
    creator: Creator,
) -> bool {
    &&& 0 <= i < end
    &&& records[i].file_path@ == path && records[i].creator == creator
    &&& forall|j: int|
        0 <= j < i ==> (#[trigger] records[j]).file_path@ != path || records[j].creator != creator
}

/// A file that was staged has a row of its own behind the others, with its path,
/// its name and its size, for the account that acts and under the creator that
/// was chosen. It waits, unless it cannot be sent, which the row says, or was
/// sent before from the same path under the same creator.
pub proof fn a_staged_file_gets_its_own_row(
    s: AppState,
    t: AppState,
    files: Seq<StagedFile>,
    clock: Clock,
    user_id: u64,
    k: int,
)
    requires
        files_staged(s, t, files, clock),
        s.desk.panel.acting_user_id == Some(user_id),
        0 <= k < files.len(),
    ensures
        ({
            let n = s.desk.index.records@.len() as int;
            let after = t.desk.index.records@;
            let r = after[n + k];
            &&& after.len() == n + files.len()
            &&& after.take(n) == s.desk.index.records@
            &&& r.file_path == files[k].path
            &&& r.display_name == files[k].display_name
            &&& r.file_bytes == files[k].bytes
            &&& r.uploaded_by == user_id
            &&& s.desk.panel.batch_creator matches Some(c) ==> r.creator == c
            &&& s.desk.panel.batch_creator is None ==> r.creator == Creator::User(user_id)
            &&& r.attempts == 0 && r.retry_at is None
            &&& match files[k].kind {
                Err(reason) => r.state == (AssetState::Invalid { reason }),
                Ok(kind) => r.kind == kind && (r.state is Queued || (
                r.state matches AssetState::Duplicate { asset_id } && exists|i: int|
                    #[trigger] is_first_of_file(after, i, n + k, files[k].path@, r.creator)
                        && after[i].state.asset() == Some(asset_id))),
            }
            &&& r.state is Queued ==> forall|i: int| #[trigger]
                is_first_of_file(after, i, n + k, files[k].path@, r.creator)
                    ==> after[i].state.asset() is None
        }),
{
    let n = s.desk.index.records@.len() as int;
    let after = t.desk.index.records@;
    let r = after[n + k];
    let before = after.take(n + k);
    let p = same_file(files[k].path@, r.creator);
    first_where_facts(before, p);
    assert forall|i: int| 0 <= i < n + k implies p(#[trigger] after[i]) == (after[i].file_path@
        == files[k].path@ && after[i].creator == r.creator) && before[i] == after[i] by {}
    match crate::lists::first_where(before, p) {
        Some(i) => {
            assert(p(before[i]));
            assert forall|j: int| 0 <= j < i implies !p(#[trigger] after[j]) by {
                assert(!p(before[j]));
            }
            assert(p(after[i]));
            assert(is_first_of_file(after, i, n + k, files[k].path@, r.creator));
            assert forall|j: int| #[trigger]
                is_first_of_file(after, j, n + k, files[k].path@, r.creator) implies j == i by {
                assert(p(after[j]));
                if j < i {
                    assert(!p(after[j]));
                }
            }
        },
        None => {
            assert forall|j: int| #[trigger]
                is_first_of_file(after, j, n + k, files[k].path@, r.creator) implies false by {
                assert(p(after[j]));
                assert(!p(before[j]));
            }
        },
    }
}

/// A row that is tried again by hand waits with all its attempts, and no other
/// row changes.
pub proof fn a_retried_row_waits_anew(records: Seq<AssetRecord>, row_id: Seq<char>, i: int)
    requires
        is_row(records, row_id, i),
    ensures
        ({
            let after = retried(records, row_id);
            &&& after.len() == records.len()
            &&& after[i].state is Queued && after[i].attempts == 0 && after[i].retry_at is None
            &&& after[i] == (AssetRecord {
                state: after[i].state,
                attempts: 0,
                retry_at: None,
                ..records[i]
            })
            &&& forall|j: int|
                0 <= j < records.len() && j != i ==> #[trigger] after[j] == records[j]
        }),
{
    the_row_is_found(records, row_id, i);
}

/// Whether a row is the first under one of these identifiers.
pub open spec fn is_among(records: Seq<AssetRecord>, row_ids: Seq<String>, i: int) -> bool {
    exists|k: int| 0 <= k < row_ids.len() && is_row(records, (#[trigger] row_ids[k])@, i)
}

proof fn same_rows(a: Seq<AssetRecord>, b: Seq<AssetRecord>, row_id: Seq<char>, i: int)
    requires
        a.len() == b.len(),
        forall|j: int| 0 <= j < a.len() ==> (#[trigger] a[j]).row_id == b[j].row_id,
    ensures
        is_row(a, row_id, i) == is_row(b, row_id, i),
{
    assert forall|j: int| 0 <= j < a.len() implies a[j].row_id@ == (#[trigger] b[j]).row_id@ by {
        assert(a[j].row_id == b[j].row_id);
    }
    if is_row(a, row_id, i) {
        assert(is_row(b, row_id, i));
    }
    if is_row(b, row_id, i) {
        assert forall|j: int| 0 <= j < i implies (#[trigger] a[j]).row_id@ != row_id by {
            assert(b[j].row_id@ != row_id);
        }
    }
}

proof fn one_more_is_among(records: Seq<AssetRecord>, row_ids: Seq<String>, i: int)
    requires
        row_ids.len() > 0,
    ensures
        is_among(records, row_ids, i) == (is_among(records, row_ids.drop_last(), i) || is_row(
            records,
            row_ids.last()@,
            i,
        )),
{
    let front = row_ids.drop_last();
    if is_among(records, row_ids, i) {
        let k = choose|k: int| 0 <= k < row_ids.len() && is_row(records, (#[trigger] row_ids[k])@, i);
        if k < front.len() {
            assert(is_row(records, front[k]@, i));
        }
    }
    if is_among(records, front, i) {
        let k = choose|k: int| 0 <= k < front.len() && is_row(records, (#[trigger] front[k])@, i);
        assert(is_row(records, row_ids[k]@, i));
    }
    if is_row(records, row_ids.last()@, i) {
        assert(is_row(records, row_ids[row_ids.len() - 1]@, i));
    }
}

/// Confirming an upload queues exactly the rows that were asked about, and notes
/// on each the universe to grant.
pub proof fn confirmed_rows_wait(
    records: Seq<AssetRecord>,
    row_ids: Seq<String>,
    auto_grant: Option<u64>,
)
    ensures
        all_confirmed(records, row_ids, auto_grant).len() == records.len(),
        forall|i: int|
            0 <= i < records.len() ==> {
                let new = #[trigger] all_confirmed(records, row_ids, auto_grant)[i];
                if is_among(records, row_ids, i) {
                    &&& new.state is Queued
                    &&& new.auto_grant_universe == auto_grant
                    &&& new == (AssetRecord {
                        state: new.state,
                        auto_grant_universe: auto_grant,
                        ..records[i]
                    })
                } else {
                    new == records[i]
                }
            },
    decreases row_ids.len(),
{
    if row_ids.len() > 0 {
        let front = row_ids.drop_last();
        confirmed_rows_wait(records, front, auto_grant);
        let mid = all_confirmed(records, front, auto_grant);
        let after = all_confirmed(records, row_ids, auto_grant);
        a_row_is_found(mid, row_ids.last()@);
        assert forall|j: int| 0 <= j < mid.len() implies (#[trigger] mid[j]).row_id
            == records[j].row_id by {}
        assert forall|i: int| 0 <= i < records.len() implies {
            let new = #[trigger] after[i];
            if is_among(records, row_ids, i) {
                &&& new.state is Queued
                &&& new.auto_grant_universe == auto_grant
                &&& new == (AssetRecord {
                    state: new.state,
                    auto_grant_universe: auto_grant,
                    ..records[i]
                })
            } else {
                new == records[i]
            }
        } by {
            one_more_is_among(records, row_ids, i);
            same_rows(mid, records, row_ids.last()@, i);
            if is_row(mid, row_ids.last()@, i) {
                the_row_is_found(mid, row_ids.last()@, i);
            }
            assert(mid[i].row_id == records[i].row_id);
        }
    }
}

/// Giving rows up touches exactly those that are named and still wait for Roblox,
/// and keeps the operation that each waited for.
pub proof fn only_pending_rows_are_given_up(records: Seq<AssetRecord>, row_ids: Seq<String>)
    ensures
        all_given_up(records, row_ids).len() == records.len(),
        forall|i: int|
            0 <= i < records.len() ==> {
                let new = #[trigger] all_given_up(records, row_ids)[i];
                match records[i].state {
                    AssetState::Pending { operation, .. } => if is_among(records, row_ids, i) {
                        new == (AssetRecord {
                            state: AssetState::Expired { operation },
                            ..records[i]
                        })
                    } else {
                        new == records[i]
                    },
                    _ => new == records[i],
                }
            },
    decreases row_ids.len(),
{
    if row_ids.len() > 0 {
        let front = row_ids.drop_last();
        only_pending_rows_are_given_up(records, front);
        let mid = all_given_up(records, front);
        let after = all_given_up(records, row_ids);
        a_row_is_found(mid, row_ids.last()@);
        assert forall|j: int| 0 <= j < mid.len() implies (#[trigger] mid[j]).row_id
            == records[j].row_id by {}
        assert forall|i: int| 0 <= i < records.len() implies {
            let new = #[trigger] after[i];
            match records[i].state {
                AssetState::Pending { operation, .. } => if is_among(records, row_ids, i) {
                    new == (AssetRecord { state: AssetState::Expired { operation }, ..records[i] })
                } else {
                    new == records[i]
                },
                _ => new == records[i],
            }
        } by {
            one_more_is_among(records, row_ids, i);
            same_rows(mid, records, row_ids.last()@, i);
            if is_row(mid, row_ids.last()@, i) {
                the_row_is_found(mid, row_ids.last()@, i);
            }
            assert(mid[i].row_id == records[i].row_id);
        }
    }
}

/// A row that was dropped is gone from the index and no longer ticked; all other
/// rows stay, in their order, and the index is written unless it must not be.
pub proof fn a_dropped_row_is_gone(s: AppState, t: AppState, row_id: Seq<char>, now: u64, i: int)
    requires
        row_removed(s, t, row_id, now),
        is_row(s.desk.index.records@, row_id, i),
    ensures
        t.desk.index.records@.len() == s.desk.index.records@.len() - 1,
        forall|j: int| 0 <= j < i ==> #[trigger] t.desk.index.records@[j]
            == s.desk.index.records@[j],
        forall|j: int|
            i <= j < t.desk.index.records@.len() ==> #[trigger] t.desk.index.records@[j]
                == s.desk.index.records@[j + 1],
        !t.desk.panel.checked@.contains(row_id),
        forall|other: Seq<char>|
            other != row_id ==> (#[trigger] t.desk.panel.checked@.contains(other)
                <==> s.desk.panel.checked@.contains(other)),
        t.out@ == s.out@ + super::asset_event_laws::index_writes(s),
        t.store == s.store && t.toasts == s.toasts,
{
    the_row_is_found(s.desk.index.records@, row_id, i);
    assert(super::uploads::saving_index(s) =~= super::asset_event_laws::index_writes(s));
}

/// Clearing the finished rows takes exactly those off the index.
pub proof fn only_finished_rows_are_cleared(
    s: AppState,
    t: AppState,
    finished: Vec<String>,
    clock: Clock,
    r: AssetRecord,
)
    requires
        asset_action_done(s, t, AssetManagerAction::ClearFinished, finished@, clock),
    ensures
        t.desk.index.records@.contains(r) <==> s.desk.index.records@.contains(r) && !(exists|k: int|
            0 <= k < finished@.len() && (#[trigger] finished@[k])@ == r.row_id@),
        t.out@ == s.out@ + super::asset_event_laws::index_writes(s),
{
    let all = s.desk.index.records@;
    let p = super::staging::not_among(finished@);
    let kept = all.filter(p);
    assert(super::uploads::saving_index(s) =~= super::asset_event_laws::index_writes(s));
    if kept.contains(r) {
        let m = choose|m: int| 0 <= m < kept.len() && kept[m] == r;
        all.lemma_filter_pred(p, m);
        all.lemma_filter_contains_rev(p, r);
    }
    if all.contains(r) && p(r) {
        let m = choose|m: int| 0 <= m < all.len() && all[m] == r;
        all.lemma_filter_contains(p, m);
    }
}

// ---------------------------------------------------------------------------
// Groups
// ---------------------------------------------------------------------------

/// Whether an account is the first under one of these identifiers.
pub open spec fn is_meant(accounts: Seq<Account>, ids: Seq<u64>, i: int) -> bool {
    ids.contains(accounts[i].user_id) && forall|j: int|
        0 <= j < i ==> (#[trigger] accounts[j]).user_id != accounts[i].user_id
}

/// Putting accounts in a group moves exactly the accounts that are meant, and
/// changes nothing else about them.
pub proof fn exactly_the_meant_accounts_are_grouped(
    accounts: Seq<Account>,
    ids: Seq<u64>,
    group: String,
)
    ensures
        grouped(accounts, ids, group).len() == accounts.len(),
        forall|i: int|
            0 <= i < accounts.len() ==> {
                let new = #[trigger] grouped(accounts, ids, group)[i];
                if is_meant(accounts, ids, i) {
                    new == (Account { group, ..accounts[i] })
                } else {
                    new == accounts[i]
                }
            },
    decreases ids.len(),
{
    if ids.len() > 0 {
        let front = ids.drop_last();
        let last = ids.last();
        exactly_the_meant_accounts_are_grouped(accounts, front, group);
        let mid = grouped(accounts, front, group);
        let after = grouped(accounts, ids, group);
        position_facts(mid, last);
        assert forall|j: int| 0 <= j < mid.len() implies (#[trigger] mid[j]).user_id
            == accounts[j].user_id by {}
        assert forall|i: int| 0 <= i < accounts.len() implies {
            let new = #[trigger] after[i];
            if is_meant(accounts, ids, i) {
                new == (Account { group, ..accounts[i] })
            } else {
                new == accounts[i]
            }
        } by {
            let id = accounts[i].user_id;
            assert(mid[i].user_id == id);
            assert(ids.contains(id) == (front.contains(id) || id == last)) by {
                if ids.contains(id) {
                    let m = choose|m: int| 0 <= m < ids.len() && ids[m] == id;
                    if m < front.len() {
                        assert(front[m] == id);
                    }
                }
                if front.contains(id) {
                    let m = choose|m: int| 0 <= m < front.len() && front[m] == id;
                    assert(ids[m] == id);
                }
                if id == last {
                    assert(ids[ids.len() - 1] == id);
                }
            }
            match crate::models::position_in(mid, last) {
                Some(p) => {
                    assert(mid[p].user_id == accounts[p].user_id);
                    if p == i {
                        assert forall|j: int| 0 <= j < i implies (#[trigger] accounts[j]).user_id
                            != id by {
                            assert(mid[j].user_id == accounts[j].user_id);
                        }
                    } else if id == last {
                        assert(p < i) by {
                            if i < p {
                                assert(mid[i].user_id != last);
                            }
                        }
                        assert(accounts[p].user_id == id);
                    }
                },
                None => {
                    assert(mid[i].user_id != last);
                },
            }
        }
    }
}

/// Whether a group under this name and colour is among the groups.
pub open spec fn is_listed(groups: Seq<Group>, name: Seq<char>, color: (u8, u8, u8)) -> bool {
    exists|k: int|
        0 <= k < groups.len() && (#[trigger] groups[k]).name@ == name && groups[k].color == color
}

/// A group that was made is listed under its name and colour and holds the
/// accounts that it was made for. A group that was edited is listed under its new
/// name and colour, and the accounts of the old name are in it.
pub proof fn groups_hold_their_accounts(
    s: AppState,
    t: AppState,
    old_name: Seq<char>,
    name: String,
    color: (u8, u8, u8),
    ids: Seq<u64>,
    i: int,
)
    requires
        0 <= i < s.store.accounts@.len(),
    ensures
        group_assigned(s, t, ids, name) && is_meant(s.store.accounts@, ids, i)
            ==> t.store.accounts@[i] == (Account { group: name, ..s.store.accounts@[i] }),
        group_created(s, t, name, color, ids) ==> is_listed(t.config.groups@, name@, color),
        group_created(s, t, name, color, ids) && is_meant(s.store.accounts@, ids, i)
            ==> t.store.accounts@[i] == (Account { group: name, ..s.store.accounts@[i] }),
        group_created(s, t, name, color, ids) && !is_meant(s.store.accounts@, ids, i)
            ==> t.store.accounts@[i] == s.store.accounts@[i],
        group_edited(s, t, old_name, name, color) ==> is_listed(t.config.groups@, name@, color),
        group_edited(s, t, old_name, name, color) && s.store.accounts@[i].group@ == old_name ==> {
            &&& t.store.accounts@[i].group@ == name@
            &&& t.store.accounts@[i] == (Account {
                group: t.store.accounts@[i].group,
                ..s.store.accounts@[i]
            })
        },
        group_edited(s, t, old_name, name, color) && s.store.accounts@[i].group@ != old_name
            ==> t.store.accounts@[i] == s.store.accounts@[i],
{
    exactly_the_meant_accounts_are_grouped(s.store.accounts@, ids, name);
    if group_created(s, t, name, color, ids) || group_edited(s, t, old_name, name, color) {
        let k = t.config.groups@.len() - 1;
        assert(t.config.groups@[k].name@ == name@ && t.config.groups@[k].color == color);
    }
}

} // verus!
