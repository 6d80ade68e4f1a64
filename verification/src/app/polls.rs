//! Asking Roblox about uploads that are not settled yet.

use vstd::prelude::*;

use super::asset_events::rows_written;
use super::staging::all_given_up;
use super::uploads::{signing, Signing};
use super::{AppState, Effect};
use crate::assets::{row_in, AssetIndex, AssetRecord, AssetState};
use crate::bridge::{BackendCommand, Credentials};
use crate::lists::{filter_ends, filter_grows};
use crate::models::position_of;

verus! {

// ---------------------------------------------------------------------------
// How old the oldest is
// ---------------------------------------------------------------------------

/// Since when a row waits for Roblox to take its file in.
pub open spec fn pending_since(state: AssetState) -> Option<i64> {
    match state {
        AssetState::Pending { since, .. } => Some(since),
        _ => None,
    }
}

/// Since when a row waits for a verdict.
pub open spec fn review_since(state: AssetState) -> Option<i64> {
    match state {
        AssetState::InReview { since, .. } => Some(since),
        _ => None,
    }
}

/// The earlier of two instants, where there are any.
pub open spec fn earlier(a: Option<i64>, b: Option<i64>) -> Option<i64> {
    match (a, b) {
        (Some(x), Some(y)) => Some(
            if x <= y {
                x
            } else {
                y
            },
        ),
        (Some(x), None) => Some(x),
        (None, y) => y,
    }
}

/// The earliest instant that `since` gives for any of the rows.
pub open spec fn earliest(records: Seq<AssetRecord>, since: spec_fn(AssetState) -> Option<i64>) -> Option<
    i64,
>
    decreases records.len(),
{
    if records.len() == 0 {
        None
    } else {
        earlier(earliest(records.drop_last(), since), since(records.last().state))
    }
}

/// How long ago an instant was, in milliseconds. An instant to come, or none
/// at all, is no time ago.
pub open spec fn age_of(since: Option<i64>, now: i64) -> nat {
    match since {
        Some(t) => if t <= now {
            (now - t) as nat
        } else {
            0
        },
        None => 0,
    }
}

/// Since when the rows that wait for their file to be taken in do so.
pub open spec fn pendings() -> spec_fn(AssetState) -> Option<i64> {
    |state: AssetState| pending_since(state)
}

/// Since when the rows that wait for a verdict do so.
pub open spec fn reviews() -> spec_fn(AssetState) -> Option<i64> {
    |state: AssetState| review_since(state)
}

fn earlier_of(a: Option<i64>, b: Option<i64>) -> (r: Option<i64>)
    ensures
        r == earlier(a, b),
{
    match (a, b) {
        (Some(x), Some(y)) => {
            if x <= y {
                Some(x)
            } else {
                Some(y)
            }
        },
        (Some(x), None) => Some(x),
        (None, y) => y,
    }
}

fn age(since: Option<i64>, now: i64) -> (r: u64)
    ensures
        r == age_of(since, now),
{
    match since {
        Some(t) => {
            if t <= now {
                (now as i128 - t as i128) as u64
            } else {
                0
            }
        },
        None => 0,
    }
}

impl AppState {
    fn earliest_pending(&self) -> (r: Option<i64>)
        ensures
            r == earliest(self.desk.index.records@, pendings()),
    {
        let ghost all = self.desk.index.records@;
        let mut best: Option<i64> = None;
        let mut i: usize = 0;
        while i < self.desk.index.records.len()
            invariant
                0 <= i <= all.len(),
                all == self.desk.index.records@,
                best == earliest(all.take(i as int), pendings()),
            decreases all.len() - i,
        {
            assert(all.take(i + 1).drop_last() =~= all.take(i as int));
            let since: Option<i64> = match &self.desk.index.records[i].state {
                AssetState::Pending { since, .. } => Some(*since),
                _ => None,
            };
            best = earlier_of(best, since);
            i += 1;
        }
        assert(all.take(i as int) =~= all);
        best
    }

    fn earliest_review(&self) -> (r: Option<i64>)
        ensures
            r == earliest(self.desk.index.records@, reviews()),
    {
        let ghost all = self.desk.index.records@;
        let mut best: Option<i64> = None;
        let mut i: usize = 0;
        while i < self.desk.index.records.len()
            invariant
                0 <= i <= all.len(),
                all == self.desk.index.records@,
                best == earliest(all.take(i as int), reviews()),
            decreases all.len() - i,
        {
            assert(all.take(i + 1).drop_last() =~= all.take(i as int));
            let since: Option<i64> = match &self.desk.index.records[i].state {
                AssetState::InReview { since, .. } => Some(*since),
                _ => None,
            };
            best = earlier_of(best, since);
            i += 1;
        }
        assert(all.take(i as int) =~= all);
        best
    }

    /// Whether a row waits for Roblox to take its file in.
    pub fn any_pending(&self) -> (b: bool)
        ensures
            b == (earliest(self.desk.index.records@, pendings()) is Some),
    {
        self.earliest_pending().is_some()
    }

    /// Whether a row waits for a verdict.
    pub fn any_in_review(&self) -> (b: bool)
        ensures
            b == (earliest(self.desk.index.records@, reviews()) is Some),
    {
        self.earliest_review().is_some()
    }

    /// For how long the oldest row has waited to be taken in, in milliseconds.
    /// The older it is, the less often Roblox is asked.
    pub fn asset_poll_age(&self, utc: i64) -> (r: u64)
        ensures
            r == age_of(earliest(self.desk.index.records@, pendings()), utc),
    {
        age(self.earliest_pending(), utc)
    }

    /// For how long the oldest row has waited for a verdict, in milliseconds.
    pub fn moderation_poll_age(&self, utc: i64) -> (r: u64)
        ensures
            r == age_of(earliest(self.desk.index.records@, reviews()), utc),
    {
        age(self.earliest_review(), utc)
    }
}

/// The earliest instant is that of one of the rows, and none is earlier.
pub proof fn the_earliest_is_the_earliest(
    records: Seq<AssetRecord>,
    since: spec_fn(AssetState) -> Option<i64>,
    i: int,
)
    requires
        0 <= i < records.len(),
        since(records[i].state) is Some,
    ensures
        earliest(records, since) is Some,
        earliest(records, since)->Some_0 <= since(records[i].state)->Some_0,
    decreases records.len(),
{
    if i < records.len() - 1 {
        the_earliest_is_the_earliest(records.drop_last(), since, i);
    }
}

// ---------------------------------------------------------------------------
// Who asks
// ---------------------------------------------------------------------------

/// The most rows that are asked about at once, so that a big backlog becomes a
/// steady trickle.
pub const MAX_POLL_BATCH: usize = 25;

/// The part of a list that is asked about at once.
pub open spec fn capped<T>(batch: Seq<T>) -> Seq<T> {
    if batch.len() <= MAX_POLL_BATCH {
        batch
    } else {
        batch.take(MAX_POLL_BATCH as int)
    }
}

fn first_operations(batch: &Vec<(String, String)>) -> (r: Vec<(String, String)>)
    ensures
        r@ == capped(batch@),
{
    let mut out: Vec<(String, String)> = Vec::new();
    let mut k: usize = 0;
    while k < batch.len() && k < MAX_POLL_BATCH
        invariant
            0 <= k <= batch@.len(),
            k <= MAX_POLL_BATCH,
            out@ == batch@.take(k as int),
        decreases batch@.len() - k,
    {
        out.push((batch[k].0.clone(), batch[k].1.clone()));
        k += 1;
        assert(out@ =~= batch@.take(k as int));
    }
    assert(out@ =~= capped(batch@));
    out
}

fn first_assets(batch: &Vec<(String, u64)>) -> (r: Vec<(String, u64)>)
    ensures
        r@ == capped(batch@),
{
    let mut out: Vec<(String, u64)> = Vec::new();
    let mut k: usize = 0;
    while k < batch.len() && k < MAX_POLL_BATCH
        invariant
            0 <= k <= batch@.len(),
            k <= MAX_POLL_BATCH,
            out@ == batch@.take(k as int),
        decreases batch@.len() - k,
    {
        out.push((batch[k].0.clone(), batch[k].1));
        k += 1;
        assert(out@ =~= batch@.take(k as int));
    }
    assert(out@ =~= capped(batch@));
    out
}

/// The account that uploaded a row, if the row is there.
pub open spec fn owner_of(records: Seq<AssetRecord>, row_id: Seq<char>) -> Option<u64> {
    match row_in(records, row_id) {
        Some(i) => Some(records[i].uploaded_by),
        None => None,
    }
}

/// The accounts that uploaded the rows of a batch, in order.
pub open spec fn owners_of<T>(records: Seq<AssetRecord>, batch: Seq<(String, T)>) -> Seq<Option<u64>> {
    batch.map_values(|e: (String, T)| owner_of(records, e.0@))
}

/// The accounts of a list, each where it first occurs.
pub open spec fn firsts(owners: Seq<Option<u64>>) -> Seq<u64>
    decreases owners.len(),
{
    if owners.len() == 0 {
        Seq::empty()
    } else {
        let front = firsts(owners.drop_last());
        match owners.last() {
            Some(u) => if front.contains(u) {
                front
            } else {
                front.push(u)
            },
            None => front,
        }
    }
}

/// The entries of a batch that belong to an account, in order.
pub open spec fn entries_of<T>(batch: Seq<(String, T)>, owners: Seq<Option<u64>>, user_id: u64) -> Seq<
    (String, T),
>
    decreases batch.len(),
{
    if batch.len() == 0 {
        Seq::empty()
    } else {
        let front = entries_of(batch.drop_last(), owners.drop_last(), user_id);
        if owners.last() == Some(user_id) {
            front.push(batch.last())
        } else {
            front
        }
    }
}

/// The accounts that can sign.
pub open spec fn signs(signing: Signing) -> spec_fn(u64) -> bool {
    |user_id: u64| signing.credentials(user_id) is Some
}

/// The accounts that ask about a batch, each once.
pub open spec fn askers(signing: Signing, owners: Seq<Option<u64>>) -> Seq<u64> {
    firsts(owners).filter(signs(signing))
}

/// Whether an effect asks about these operations.
pub open spec fn asks_operations(
    effect: Effect,
    credentials: Credentials,
    entries: Seq<(String, String)>,
) -> bool {
    effect matches Effect::Send(
        BackendCommand::PollAssetOperations { credentials: with, operations },
    ) && with == credentials && operations@ == entries
}

/// Whether an effect asks for verdicts on these assets.
pub open spec fn asks_verdicts(
    effect: Effect,
    credentials: Credentials,
    entries: Seq<(String, u64)>,
) -> bool {
    effect matches Effect::Send(
        BackendCommand::PollAssetModeration { credentials: with, assets },
    ) && with == credentials && assets@ == entries
}

/// Whether `asked` asks about a batch: once for each account, about the rows
/// that it uploaded.
pub open spec fn operations_asked(
    asked: Seq<Effect>,
    signing: Signing,
    records: Seq<AssetRecord>,
    batch: Seq<(String, String)>,
) -> bool {
    let owners = owners_of(records, batch);
    let users = askers(signing, owners);
    &&& asked.len() == users.len()
    &&& forall|k: int|
        0 <= k < users.len() ==> asks_operations(
            #[trigger] asked[k],
            signing.credentials(users[k])->Some_0,
            entries_of(batch, owners, users[k]),
        )
}

/// Whether `asked` asks for verdicts on a batch: once for each account, on the
/// rows that it uploaded.
pub open spec fn verdicts_asked(
    asked: Seq<Effect>,
    signing: Signing,
    records: Seq<AssetRecord>,
    batch: Seq<(String, u64)>,
) -> bool {
    let owners = owners_of(records, batch);
    let users = askers(signing, owners);
    &&& asked.len() == users.len()
    &&& forall|k: int|
        0 <= k < users.len() ==> asks_verdicts(
            #[trigger] asked[k],
            signing.credentials(users[k])->Some_0,
            entries_of(batch, owners, users[k]),
        )
}

fn list_owners<T>(index: &AssetIndex, batch: &Vec<(String, T)>) -> (r: Vec<Option<u64>>)
    ensures
        r@ == owners_of(index.records@, batch@),
{
    let mut out: Vec<Option<u64>> = Vec::new();
    let mut k: usize = 0;
    while k < batch.len()
        invariant
            0 <= k <= batch@.len(),
            out@ == owners_of(index.records@, batch@.take(k as int)),
        decreases batch@.len() - k,
    {
        let owner: Option<u64> = match index.position(&batch[k].0) {
            Some(i) => Some(index.records[i].uploaded_by),
            None => None,
        };
        out.push(owner);
        k += 1;
        assert(out@ =~= owners_of(index.records@, batch@.take(k as int)));
    }
    assert(batch@.take(k as int) =~= batch@);
    out
}

fn list_firsts(owners: &Vec<Option<u64>>) -> (r: Vec<u64>)
    ensures
        r@ == firsts(owners@),
{
    let mut out: Vec<u64> = Vec::new();
    let mut k: usize = 0;
    while k < owners.len()
        invariant
            0 <= k <= owners@.len(),
            out@ == firsts(owners@.take(k as int)),
        decreases owners@.len() - k,
    {
        assert(owners@.take(k + 1).drop_last() =~= owners@.take(k as int));
        match owners[k] {
            Some(u) => {
                if !crate::models::lists(&out, u) {
                    out.push(u);
                }
            },
            None => {},
        }
        k += 1;
    }
    assert(owners@.take(k as int) =~= owners@);
    out
}

fn is_owner(owner: Option<u64>, user_id: u64) -> (b: bool)
    ensures
        b == (owner == Some(user_id)),
{
    match owner {
        Some(u) => u == user_id,
        None => false,
    }
}

fn operations_of(batch: &Vec<(String, String)>, owners: &Vec<Option<u64>>, user_id: u64) -> (r: Vec<
    (String, String),
>)
    requires
        owners@.len() == batch@.len(),
    ensures
        r@ == entries_of(batch@, owners@, user_id),
{
    let mut out: Vec<(String, String)> = Vec::new();
    let mut k: usize = 0;
    while k < batch.len()
        invariant
            0 <= k <= batch@.len(),
            owners@.len() == batch@.len(),
            out@ == entries_of(batch@.take(k as int), owners@.take(k as int), user_id),
        decreases batch@.len() - k,
    {
        assert(batch@.take(k + 1).drop_last() =~= batch@.take(k as int));
        assert(owners@.take(k + 1).drop_last() =~= owners@.take(k as int));
        if is_owner(owners[k], user_id) {
            let entry: (String, String) = (batch[k].0.clone(), batch[k].1.clone());
            out.push(entry);
        }
        k += 1;
    }
    assert(batch@.take(k as int) =~= batch@);
    assert(owners@.take(k as int) =~= owners@);
    out
}

fn assets_of(batch: &Vec<(String, u64)>, owners: &Vec<Option<u64>>, user_id: u64) -> (r: Vec<
    (String, u64),
>)
    requires
        owners@.len() == batch@.len(),
    ensures
        r@ == entries_of(batch@, owners@, user_id),
{
    let mut out: Vec<(String, u64)> = Vec::new();
    let mut k: usize = 0;
    while k < batch.len()
        invariant
            0 <= k <= batch@.len(),
            owners@.len() == batch@.len(),
            out@ == entries_of(batch@.take(k as int), owners@.take(k as int), user_id),
        decreases batch@.len() - k,
    {
        assert(batch@.take(k + 1).drop_last() =~= batch@.take(k as int));
        assert(owners@.take(k + 1).drop_last() =~= owners@.take(k as int));
        if is_owner(owners[k], user_id) {
            let entry: (String, u64) = (batch[k].0.clone(), batch[k].1);
            out.push(entry);
        }
        k += 1;
    }
    assert(batch@.take(k as int) =~= batch@);
    assert(owners@.take(k as int) =~= owners@);
    out
}

/// Whether `t` is the state after operations were asked about. Rows that
/// Roblox never answered about are given up first. Nothing happens while the
/// store is locked.
pub open spec fn operations_polled(
    s: AppState,
    t: AppState,
    expired: Seq<String>,
    batch: Seq<(String, String)>,
    now: u64,
) -> bool {
    if s.session is None {
        t == s
    } else {
        let records = all_given_up(s.desk.index.records@, expired);
        exists|mid: AppState|
            {
                &&& if expired.len() > 0 {
                    rows_written(s, mid, records, now)
                } else {
                    mid == s
                }
                &&& #[trigger] operations_sent(mid, t, capped(batch))
            }
    }
}

/// Whether `t` is the state after a batch of operations was asked about.
pub open spec fn operations_sent(s: AppState, t: AppState, batch: Seq<(String, String)>) -> bool {
    &&& t == (AppState { out: t.out, ..s })
    &&& t.out@.len() >= s.out@.len()
    &&& t.out@.take(s.out@.len() as int) == s.out@
    &&& operations_asked(
        t.out@.skip(s.out@.len() as int),
        signing(s),
        s.desk.index.records@,
        batch,
    )
}

/// Whether `t` is the state after verdicts were asked for. Nothing happens
/// while the store is locked.
pub open spec fn verdicts_sent(s: AppState, t: AppState, batch: Seq<(String, u64)>) -> bool {
    &&& t == (AppState { out: t.out, ..s })
    &&& t.out@.len() >= s.out@.len()
    &&& t.out@.take(s.out@.len() as int) == s.out@
    &&& verdicts_asked(
        t.out@.skip(s.out@.len() as int),
        signing(s),
        s.desk.index.records@,
        batch,
    )
}

impl AppState {
    fn signer(&self, user_id: u64) -> (r: Option<Credentials>)
        ensures
            r == signing(*self).credentials(user_id),
    {
        match (self.session, position_of(&self.store.accounts, user_id)) {
            (Some(session), Some(i)) => Some(
                super::credentials_for(
                    &self.store.accounts[i],
                    session,
                    self.config.use_credential_manager,
                ),
            ),
            _ => None,
        }
    }

    fn ask_operations(&mut self, batch: &Vec<(String, String)>)
        requires
            old(self).inv(),
        ensures
            final(self).inv(),
            operations_sent(*old(self), *final(self), batch@),
    {
        let owners: Vec<Option<u64>> = list_owners(&self.desk.index, batch);
        let users: Vec<u64> = list_firsts(&owners);
        let ghost p = signs(signing(*self));
        let ghost n = self.out@.len() as int;
        let ghost mut asked = Seq::<Effect>::empty();
        let mut k: usize = 0;
        proof {
            filter_ends(users@, p);
            assert(self.out@ =~= old(self).out@ + asked);
        }
        while k < users.len()
            invariant
                0 <= k <= users@.len(),
                self.inv(),
                owners@ == owners_of(old(self).desk.index.records@, batch@),
                owners@.len() == batch@.len(),
                p == signs(signing(*old(self))),
                *self == (AppState { out: self.out, ..*old(self) }),
                self.out@ == old(self).out@ + asked,
                ({
                    let done = users@.take(k as int).filter(p);
                    &&& asked.len() == done.len()
                    &&& forall|j: int|
                        0 <= j < done.len() ==> asks_operations(
                            #[trigger] asked[j],
                            signing(*old(self)).credentials(done[j])->Some_0,
                            entries_of(batch@, owners@, done[j]),
                        )
                }),
            decreases users@.len() - k,
        {
            proof {
                filter_grows(users@, p, k as int);
                assert(signing(*self) == signing(*old(self)));
            }
            match self.signer(users[k]) {
                Some(credentials) => {
                    let operations: Vec<(String, String)> = operations_of(
                        batch,
                        &owners,
                        users[k],
                    );
                    let ghost effect = Effect::Send(
                        BackendCommand::PollAssetOperations { credentials, operations },
                    );
                    self.out.push(
                        Effect::Send(
                            BackendCommand::PollAssetOperations { credentials, operations },
                        ),
                    );
                    proof {
                        asked = asked.push(effect);
                        assert(self.out@ =~= old(self).out@ + asked);
                    }
                },
                None => {},
            }
            k += 1;
        }
        proof {
            filter_ends(users@, p);
            assert(self.out@.take(n) =~= old(self).out@);
            assert(self.out@.skip(n) =~= asked);
        }
    }

    /// Asks about uploads that Roblox is taking in, one request per account and
    /// about no more than a batch of them.
    pub fn dispatch_asset_poll(
        &mut self,
        expired: &Vec<String>,
        batch: &Vec<(String, String)>,
        now: u64,
    )
        requires
            old(self).inv(),
        ensures
            final(self).inv(),
            operations_polled(*old(self), *final(self), expired@, batch@, now),
    {
        if self.session.is_none() {
            return;
        }
        if expired.len() > 0 {
            self.expire_rows(expired);
            self.save_asset_index(now);
        }
        let ghost mid = *self;
        let first: Vec<(String, String)> = first_operations(batch);
        self.ask_operations(&first);
        assert(operations_sent(mid, *self, capped(batch@)));
    }

    /// Asks for verdicts on assets that are in review, one request per account
    /// and no more than a batch of them.
    pub fn dispatch_moderation_poll(&mut self, batch: &Vec<(String, u64)>)
        requires
            old(self).inv(),
        ensures
            final(self).inv(),
            verdicts_sent(*old(self), *final(self), capped(batch@)),
    {
        let first: Vec<(String, u64)> = first_assets(batch);
        self.ask_verdicts(&first);
    }

    fn ask_verdicts(&mut self, batch: &Vec<(String, u64)>)
        requires
            old(self).inv(),
        ensures
            final(self).inv(),
            verdicts_sent(*old(self), *final(self), batch@),
    {
        let owners: Vec<Option<u64>> = list_owners(&self.desk.index, batch);
        let users: Vec<u64> = list_firsts(&owners);
        let ghost p = signs(signing(*self));
        let ghost n = self.out@.len() as int;
        let ghost mut asked = Seq::<Effect>::empty();
        let mut k: usize = 0;
        proof {
            filter_ends(users@, p);
            assert(self.out@ =~= old(self).out@ + asked);
        }
        while k < users.len()
            invariant
                0 <= k <= users@.len(),
                self.inv(),
                owners@ == owners_of(old(self).desk.index.records@, batch@),
                owners@.len() == batch@.len(),
                p == signs(signing(*old(self))),
                *self == (AppState { out: self.out, ..*old(self) }),
                self.out@ == old(self).out@ + asked,
                ({
                    let done = users@.take(k as int).filter(p);
                    &&& asked.len() == done.len()
                    &&& forall|j: int|
                        0 <= j < done.len() ==> asks_verdicts(
                            #[trigger] asked[j],
                            signing(*old(self)).credentials(done[j])->Some_0,
                            entries_of(batch@, owners@, done[j]),
                        )
                }),
            decreases users@.len() - k,
        {
            proof {
                filter_grows(users@, p, k as int);
                assert(signing(*self) == signing(*old(self)));
            }
            match self.signer(users[k]) {
                Some(credentials) => {
                    let assets: Vec<(String, u64)> = assets_of(batch, &owners, users[k]);
                    let ghost effect = Effect::Send(
                        BackendCommand::PollAssetModeration { credentials, assets },
                    );
                    self.out.push(
                        Effect::Send(BackendCommand::PollAssetModeration { credentials, assets }),
                    );
                    proof {
                        asked = asked.push(effect);
                        assert(self.out@ =~= old(self).out@ + asked);
                    }
                },
                None => {},
            }
            k += 1;
        }
        proof {
            filter_ends(users@, p);
            assert(self.out@.take(n) =~= old(self).out@);
            assert(self.out@.skip(n) =~= asked);
        }
    }
}

/// Every account of a batch occurs once among those that ask.
pub proof fn an_account_asks_once(owners: Seq<Option<u64>>)
    ensures
        firsts(owners).no_duplicates(),
        forall|u: u64| #[trigger] firsts(owners).contains(u) <==> owners.contains(Some(u)),
    decreases owners.len(),
{
    if owners.len() > 0 {
        let front = owners.drop_last();
        an_account_asks_once(front);
        let before = firsts(front);
        let after = firsts(owners);
        assert forall|u: u64| #[trigger] after.contains(u) <==> owners.contains(Some(u)) by {
            if owners.contains(Some(u)) {
                let i = choose|i: int| 0 <= i < owners.len() && owners[i] == Some(u);
                if i < front.len() {
                    assert(front[i] == Some(u));
                    assert(before.contains(u));
                    let j = choose|j: int| 0 <= j < before.len() && before[j] == u;
                    assert(after[j] == u);
                } else if !before.contains(u) {
                    assert(after[before.len() as int] == u);
                }
            }
            if after.contains(u) {
                let j = choose|j: int| 0 <= j < after.len() && after[j] == u;
                if j < before.len() {
                    assert(before[j] == u);
                    assert(firsts(front).contains(u));
                    assert(front.contains(Some(u)));
                    let i = choose|i: int| 0 <= i < front.len() && front[i] == Some(u);
                    assert(owners[i] == Some(u));
                } else {
                    assert(owners[owners.len() - 1] == Some(u));
                }
            }
        }
    }
}

/// No account asks about more rows than a batch holds, however many wait.
pub proof fn a_poll_is_bounded<T>(
    batch: Seq<(String, T)>,
    records: Seq<AssetRecord>,
    user_id: u64,
)
    ensures
        entries_of(capped(batch), owners_of(records, capped(batch)), user_id).len()
            <= MAX_POLL_BATCH,
{
    entries_are_of_the_batch(capped(batch), owners_of(records, capped(batch)), user_id);
}

proof fn entries_are_of_the_batch<T>(
    batch: Seq<(String, T)>,
    owners: Seq<Option<u64>>,
    user_id: u64,
)
    ensures
        entries_of(batch, owners, user_id).len() <= batch.len(),
    decreases batch.len(),
{
    if batch.len() > 0 {
        entries_are_of_the_batch(batch.drop_last(), owners.drop_last(), user_id);
    }
}

/// Every row of a batch whose account can sign is asked about, by that account.
pub proof fn every_row_is_asked_about<T>(
    batch: Seq<(String, T)>,
    owners: Seq<Option<u64>>,
    user_id: u64,
    i: int,
)
    requires
        owners.len() == batch.len(),
        0 <= i < batch.len(),
        owners[i] == Some(user_id),
    ensures
        entries_of(batch, owners, user_id).contains(batch[i]),
    decreases batch.len(),
{
    let front = entries_of(batch.drop_last(), owners.drop_last(), user_id);
    let all = entries_of(batch, owners, user_id);
    if i < batch.len() - 1 {
        every_row_is_asked_about(batch.drop_last(), owners.drop_last(), user_id, i);
        let j = choose|j: int| 0 <= j < front.len() && front[j] == batch.drop_last()[i];
        assert(all[j] == batch[i]);
    } else {
        assert(all[front.len() as int] == batch[i]);
    }
}

} // verus!
