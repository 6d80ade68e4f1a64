//! What became of uploads, and what the asset tab asks of Roblox.

use vstd::prelude::*;

use super::uploads::{filled_with, saving_index, signing};
use super::{AppState, AssetDesk, Clock, Effect, Timers};
use crate::assets::{
    identified, row_in, AssetRecord, AssetState, ModerationStatus, OperationOutcome,
};
use crate::bridge::{BackendCommand, Credentials};
use crate::models::{position_of, StoreSession};
use crate::text::{decimal, decimal_of, join2, join3, parse_u64, parsed_u64};
use crate::toast::{ToastLevel, ToastsView};

verus! {

/// An instant and a wait after it, no later than instants go.
pub open spec fn later(at: i64, wait: u64) -> i64 {
    if at + wait > i64::MAX {
        i64::MAX
    } else {
        (at + wait) as i64
    }
}

fn after_wait(at: i64, wait: u64) -> (r: i64)
    ensures
        r == later(at, wait),
{
    let sum: i128 = (at as i128) + (wait as i128);
    if sum > i64::MAX as i128 {
        i64::MAX
    } else {
        sum as i64
    }
}

// ---------------------------------------------------------------------------
// Failures
// ---------------------------------------------------------------------------

/// Whether a failed upload goes back into the queue: the failure may pass, and
/// the file was not sent too often.
pub open spec fn tries_again(r: AssetRecord, retryable: bool, max_attempts: u32) -> bool {
    retryable && r.attempts < max_attempts
}

/// How long a row waits before it is sent again.
pub open spec fn backoff_of(r: AssetRecord, backoff: Seq<u64>) -> u64 {
    backoff[if r.attempts == 0 {
        0
    } else {
        r.attempts - 1
    }]
}

/// A row after its upload failed before anything was created on Roblox.
pub open spec fn after_failure(
    r: AssetRecord,
    message: String,
    retryable: bool,
    max_attempts: u32,
    backoff: Seq<u64>,
    utc: i64,
) -> AssetRecord {
    if tries_again(r, retryable, max_attempts) {
        AssetRecord {
            state: AssetState::Queued,
            retry_at: Some(later(utc, backoff_of(r, backoff))),
            updated_at: Some(utc),
            ..r
        }
    } else {
        AssetRecord {
            state: AssetState::Failed { message, retryable },
            retry_at: None,
            updated_at: Some(utc),
            ..r
        }
    }
}

/// The state after a row was changed, the index written and the queue filled.
pub open spec fn row_changed(
    s: AppState,
    t: AppState,
    records: Seq<AssetRecord>,
    toasts: ToastsView,
    clock: Clock,
) -> bool {
    let p = filled_with(s, records, clock);
    &&& t.desk.index.records@ == p.records
    &&& t.toasts@ == toasts
    &&& t.out@ == s.out@ + saving_index(s) + p.sent
    &&& t == (AppState {
        out: t.out,
        toasts: t.toasts,
        desk: AssetDesk { index: t.desk.index, dirty: p.records != records, ..s.desk },
        timers: Timers { index_save: Some(clock.now), audio_upload: p.audio_at, ..s.timers },
        ..s
    })
}

impl AppState {
    /// Records a failed upload, and puts the row back in the queue where
    /// another attempt is worth it. Attempts are counted on the row: once they
    /// are spent it stays failed and waits for the user.
    pub fn fail_upload(&mut self, row_id: &str, message: String, retryable: bool, clock: Clock)
        requires
            old(self).inv(),
        ensures
            final(self).inv(),
            match row_in(old(self).desk.index.records@, row_id@) {
                None => *final(self) == *old(self),
                Some(i) => ({
                    let r = old(self).desk.index.records@[i];
                    row_changed(
                        *old(self),
                        *final(self),
                        old(self).desk.index.records@.update(
                            i,
                            after_failure(
                                r,
                                message,
                                retryable,
                                old(self).rules.max_upload_attempts,
                                old(self).rules.retry_backoff@,
                                clock.utc,
                            ),
                        ),
                        if tries_again(r, retryable, old(self).rules.max_upload_attempts) {
                            old(self).toasts@
                        } else {
                            old(self).toasts@.said(
                                r.display_name@ + " failed: "@ + message@,
                                ToastLevel::Error,
                                clock.now,
                            )
                        },
                        clock,
                    )
                }),
            },
    {
        let i: usize = match self.desk.index.position(row_id) {
            Some(i) => i,
            None => {
                return;
            },
        };
        let attempts: u32 = self.desk.index.records[i].attempts;
        if retryable && attempts < self.rules.max_upload_attempts {
            let k: usize = if attempts == 0 {
                0
            } else {
                (attempts - 1) as usize
            };
            let wait: u64 = self.rules.retry_backoff[k];
            self.desk.index.records[i].state = AssetState::Queued;
            self.desk.index.records[i].retry_at = Some(after_wait(clock.utc, wait));
            self.desk.index.records[i].updated_at = Some(clock.utc);
        } else {
            let text: String = join3(
                &self.desk.index.records[i].display_name,
                " failed: ",
                &message,
            );
            self.desk.index.records[i].state = AssetState::Failed { message, retryable };
            self.desk.index.records[i].retry_at = None;
            self.desk.index.records[i].updated_at = Some(clock.utc);
            self.say(&text, ToastLevel::Error, clock.now);
        }
        assert(signing(*self) == signing(*old(self)));
        assert(self.desk.index.records@ =~= old(self).desk.index.records@.update(
            i as int,
            after_failure(
                old(self).desk.index.records@[i as int],
                message,
                retryable,
                old(self).rules.max_upload_attempts,
                old(self).rules.retry_backoff@,
                clock.utc,
            ),
        ));
        self.settle(clock);
    }

    /// Applies the result of an upload operation.
    ///
    /// An approval means that Roblox has taken the file in, not that the asset
    /// may be used: the row waits for a verdict. A failure is not sent again
    /// by itself, because Roblox may already hold the asset.
    pub fn apply_operation_outcome(&mut self, row_id: &str, outcome: OperationOutcome, clock: Clock)
        requires
            old(self).inv(),
        ensures
            final(self).inv(),
            match row_in(old(self).desk.index.records@, row_id@) {
                None => *final(self) == *old(self),
                Some(i) => if outcome is StillPending {
                    *final(self) == *old(self)
                } else {
                    row_changed(
                        *old(self),
                        *final(self),
                        old(self).desk.index.records@.update(
                            i,
                            after_outcome(
                                old(self).desk.index.records@[i],
                                outcome,
                                clock.utc,
                            ),
                        ),
                        outcome_said(
                            old(self).toasts@,
                            old(self).desk.index.records@[i],
                            outcome,
                            clock.now,
                        ),
                        clock,
                    )
                },
            },
    {
        let i: usize = match self.desk.index.position(row_id) {
            Some(i) => i,
            None => {
                return;
            },
        };
        let ghost before = self.desk.index.records@;
        match outcome {
            OperationOutcome::StillPending => {
                return;
            },
            OperationOutcome::Approved { asset_id, revision_id } => {
                self.desk.index.records[i].state = AssetState::InReview {
                    asset_id,
                    revision_id,
                    since: clock.utc,
                };
                self.desk.index.records[i].updated_at = Some(clock.utc);
                self.desk.index.records[i].retry_at = None;
            },
            OperationOutcome::Rejected { reason } => {
                let text: String = join3(
                    &self.desk.index.records[i].display_name,
                    " was rejected: ",
                    &reason,
                );
                self.desk.index.records[i].state = AssetState::Rejected { reason };
                self.desk.index.records[i].updated_at = Some(clock.utc);
                self.say(&text, ToastLevel::Error, clock.now);
            },
            OperationOutcome::Failed { message, retryable } => {
                let text: String = join3(
                    &self.desk.index.records[i].display_name,
                    " failed: ",
                    &message,
                );
                self.desk.index.records[i].state = AssetState::Failed { message, retryable };
                self.desk.index.records[i].updated_at = Some(clock.utc);
                self.say(&text, ToastLevel::Error, clock.now);
            },
        }
        assert(signing(*self) == signing(*old(self)));
        assert(self.desk.index.records@ =~= before.update(
            i as int,
            after_outcome(before[i as int], outcome, clock.utc),
        ));
        self.settle(clock);
    }
}

/// A row after its operation is over.
pub open spec fn after_outcome(r: AssetRecord, outcome: OperationOutcome, utc: i64) -> AssetRecord {
    match outcome {
        OperationOutcome::StillPending => r,
        OperationOutcome::Approved { asset_id, revision_id } => AssetRecord {
            state: AssetState::InReview { asset_id, revision_id, since: utc },
            updated_at: Some(utc),
            retry_at: None,
            ..r
        },
        OperationOutcome::Rejected { reason } => AssetRecord {
            state: AssetState::Rejected { reason },
            updated_at: Some(utc),
            ..r
        },
        OperationOutcome::Failed { message, retryable } => AssetRecord {
            state: AssetState::Failed { message, retryable },
            updated_at: Some(utc),
            ..r
        },
    }
}

/// What is said of an operation that is over. An approval is not news: the
/// verdict is.
pub open spec fn outcome_said(
    toasts: ToastsView,
    r: AssetRecord,
    outcome: OperationOutcome,
    now: u64,
) -> ToastsView {
    match outcome {
        OperationOutcome::Rejected { reason } => toasts.said(
            r.display_name@ + " was rejected: "@ + reason@,
            ToastLevel::Error,
            now,
        ),
        OperationOutcome::Failed { message, .. } => toasts.said(
            r.display_name@ + " failed: "@ + message@,
            ToastLevel::Error,
            now,
        ),
        _ => toasts,
    }
}

/// An approved operation never approves the row: only a verdict does.
pub proof fn an_approval_waits_for_its_verdict(r: AssetRecord, outcome: OperationOutcome, utc: i64)
    requires
        r.state !is Approved,
    ensures
        after_outcome(r, outcome, utc).state !is Approved,
        outcome is Approved ==> after_outcome(r, outcome, utc).state is InReview,
{
}

/// A failure after the file was taken in does not put the row back in the
/// queue.
pub proof fn a_failed_operation_is_not_sent_again(r: AssetRecord, outcome: OperationOutcome, utc: i64)
    requires
        outcome is Failed,
    ensures
        after_outcome(r, outcome, utc).state is Failed,
{
}

/// A row whose attempts are spent stays failed.
pub proof fn spent_attempts_end_in_failure(
    r: AssetRecord,
    message: String,
    retryable: bool,
    max_attempts: u32,
    backoff: Seq<u64>,
    utc: i64,
)
    requires
        r.attempts >= max_attempts,
    ensures
        after_failure(r, message, retryable, max_attempts, backoff, utc).state is Failed,
{
}

// ---------------------------------------------------------------------------
// Granting
// ---------------------------------------------------------------------------

/// What a selection amounts to.
pub struct GrantPlan {
    pub asset_ids: Seq<u64>,
    /// The rows among them, with their assets.
    pub row_assets: Seq<(String, u64)>,
    /// The account that uploaded the first of the rows.
    pub uploader: Option<u64>,
    /// Rows that have no asset yet.
    pub unfinished: nat,
}

/// What a selection amounts to: a key is a row of the index, or the number of
/// an asset of the inventory.
pub open spec fn planned(records: Seq<AssetRecord>, keys: Seq<String>) -> GrantPlan
    decreases keys.len(),
{
    if keys.len() == 0 {
        GrantPlan {
            asset_ids: Seq::empty(),
            row_assets: Seq::empty(),
            uploader: None,
            unfinished: 0,
        }
    } else {
        let plan = planned(records, keys.drop_last());
        let key = keys.last();
        match row_in(records, key@) {
            Some(i) => match records[i].state.asset() {
                Some(asset_id) => GrantPlan {
                    asset_ids: plan.asset_ids.push(asset_id),
                    row_assets: plan.row_assets.push((key, asset_id)),
                    uploader: match plan.uploader {
                        Some(u) => Some(u),
                        None => Some(records[i].uploaded_by),
                    },
                    ..plan
                },
                None => GrantPlan { unfinished: plan.unfinished + 1, ..plan },
            },
            None => match parsed_u64(key@) {
                Some(asset_id) => GrantPlan { asset_ids: plan.asset_ids.push(asset_id), ..plan },
                None => plan,
            },
        }
    }
}

/// Whether `effect` grants these assets.
pub open spec fn grants(
    effect: Effect,
    credentials: Credentials,
    universe_id: u64,
    plan: GrantPlan,
) -> bool {
    effect matches Effect::Send(
        BackendCommand::GrantAssetPermissions {
            credentials: with,
            universe_id: to,
            asset_ids,
            row_assets,
        },
    ) && with == credentials && to == universe_id && asset_ids@ == plan.asset_ids && row_assets@
        == plan.row_assets
}

/// What granting a selection leads to.
pub open spec fn granted(s: AppState, t: AppState, universe_id: u64, keys: Seq<String>, now: u64) -> bool {
    let plan = planned(s.desk.index.records@, keys);
    let signer = match plan.uploader {
        Some(u) => Some(u),
        None => s.desk.panel.acting_user_id,
    };
    &&& t == (AppState { out: t.out, toasts: t.toasts, ..s })
    &&& if s.session is None {
        t.out@ == s.out@ && t.toasts@ == s.toasts@
    } else if plan.asset_ids.len() == 0 {
        t.out@ == s.out@ && t.toasts@ == s.toasts@.said(
            if plan.unfinished > 0 {
                "Nothing to grant. Those assets have not finished uploading."@
            } else {
                "Nothing to grant. Select some assets first."@
            },
            ToastLevel::Info,
            now,
        )
    } else {
        match signer {
            None => t.out@ == s.out@ && t.toasts@ == s.toasts@.said(
                "No account selected to sign the grant."@,
                ToastLevel::Error,
                now,
            ),
            Some(user_id) => t.toasts@ == s.toasts@ && match signing(s).credentials(user_id) {
                None => t.out@ == s.out@,
                Some(credentials) => t.out@.len() == s.out@.len() + 1 && t.out@.drop_last()
                    == s.out@ && grants(t.out@.last(), credentials, universe_id, plan),
            },
        }
    }
}

impl AppState {
    /// Grants a universe the use of what is selected. Rows that have not
    /// finished are passed over: there is nothing on Roblox to grant.
    pub fn grant_universe_access(&mut self, universe_id: u64, keys: Vec<String>, now: u64)
        requires
            old(self).inv(),
        ensures
            final(self).inv(),
            granted(*old(self), *final(self), universe_id, keys@, now),
    {
        let session: StoreSession = match self.session {
            Some(s) => s,
            None => {
                return;
            },
        };
        let mut asset_ids: Vec<u64> = Vec::new();
        let mut row_assets: Vec<(String, u64)> = Vec::new();
        let mut uploader: Option<u64> = None;
        let mut unfinished: usize = 0;
        let mut k: usize = 0;
        while k < keys.len()
            invariant
                0 <= k <= keys@.len(),
                unfinished <= k,
                *self == *old(self),
                ({
                    let plan = planned(self.desk.index.records@, keys@.take(k as int));
                    &&& asset_ids@ == plan.asset_ids
                    &&& row_assets@ == plan.row_assets
                    &&& uploader == plan.uploader
                    &&& unfinished == plan.unfinished
                }),
            decreases keys@.len() - k,
        {
            assert(keys@.take(k + 1).drop_last() =~= keys@.take(k as int));
            match self.desk.index.position(&keys[k]) {
                Some(i) => match self.desk.index.records[i].state.asset_id() {
                    Some(asset_id) => {
                        if uploader.is_none() {
                            uploader = Some(self.desk.index.records[i].uploaded_by);
                        }
                        asset_ids.push(asset_id);
                        row_assets.push((keys[k].clone(), asset_id));
                    },
                    None => {
                        unfinished += 1;
                    },
                },
                None => match parse_u64(&keys[k]) {
                    Some(asset_id) => {
                        asset_ids.push(asset_id);
                    },
                    None => {},
                },
            }
            k += 1;
        }
        assert(keys@.take(k as int) =~= keys@);
        if asset_ids.len() == 0 {
            if unfinished > 0 {
                self.say(
                    "Nothing to grant. Those assets have not finished uploading.",
                    ToastLevel::Info,
                    now,
                );
            } else {
                self.say("Nothing to grant. Select some assets first.", ToastLevel::Info, now);
            }
            return;
        }
        let signer: Option<u64> = match uploader {
            Some(u) => Some(u),
            None => self.desk.panel.acting_user_id,
        };
        match signer {
            None => {
                self.say("No account selected to sign the grant.", ToastLevel::Error, now);
            },
            Some(user_id) => match position_of(&self.store.accounts, user_id) {
                None => {},
                Some(at) => {
                    let credentials: Credentials = super::credentials_for(
                        &self.store.accounts[at],
                        session,
                        self.config.use_credential_manager,
                    );
                    self.out.push(
                        Effect::Send(
                            BackendCommand::GrantAssetPermissions {
                                credentials,
                                universe_id,
                                asset_ids,
                                row_assets,
                            },
                        ),
                    );
                    assert(self.out@.drop_last() =~= old(self).out@);
                },
            },
        }
    }
}

// ---------------------------------------------------------------------------
// Verdicts
// ---------------------------------------------------------------------------

/// What a blocked asset's row says.
pub open spec fn blocked_reason(asset_id: u64) -> Seq<char> {
    "Moderation blocked asset "@ + decimal(asset_id as nat)
}

/// Whether `t` is what a verdict leaves of the state. Only a row in review
/// takes a verdict; an approved one is granted to the universe that its batch
/// was meant for.
pub open spec fn verdict_applied(
    s: AppState,
    t: AppState,
    row_id: Seq<char>,
    status: ModerationStatus,
    clock: Clock,
) -> bool {
    match row_in(s.desk.index.records@, row_id) {
        None => t == s,
        Some(i) => {
            let r = s.desk.index.records@[i];
            match (r.state, status) {
                (
                    AssetState::InReview { asset_id, revision_id, .. },
                    ModerationStatus::Approved,
                ) => {
                    let records = s.desk.index.records@.update(
                        i,
                        AssetRecord {
                            state: AssetState::Approved { asset_id, revision_id },
                            updated_at: Some(clock.utc),
                            ..r
                        },
                    );
                    let toasts = s.toasts@.said(
                        r.display_name@ + " approved as "@ + decimal(asset_id as nat),
                        ToastLevel::Success,
                        clock.now,
                    );
                    &&& t.desk.index.records@ == records
                    &&& t.toasts@ == toasts
                    &&& t == (AppState {
                        out: t.out,
                        toasts: t.toasts,
                        desk: AssetDesk { index: t.desk.index, dirty: false, ..s.desk },
                        timers: Timers { index_save: Some(clock.now), ..s.timers },
                        ..s
                    })
                    &&& match r.auto_grant_universe {
                        Some(universe_id) => match signing(s).credentials(r.uploaded_by) {
                            Some(credentials) => {
                                &&& t.out@.len() == s.out@.len() + 1 + saving_index(s).len()
                                &&& t.out@.take(s.out@.len() as int) == s.out@
                                &&& t.out@.skip(s.out@.len() as int + 1) == saving_index(s)
                                &&& grants(
                                    t.out@[s.out@.len() as int],
                                    credentials,
                                    universe_id,
                                    GrantPlan {
                                        asset_ids: seq![asset_id],
                                        row_assets: seq![(r.row_id, asset_id)],
                                        uploader: Some(r.uploaded_by),
                                        unfinished: 0,
                                    },
                                )
                            },
                            None => t.out@ == s.out@ + saving_index(s),
                        },
                        None => t.out@ == s.out@ + saving_index(s),
                    }
                },
                (AssetState::InReview { asset_id, .. }, ModerationStatus::Rejected) => {
                    &&& t.desk.index.records@.len() == s.desk.index.records@.len()
                    &&& t.desk.index.records@[i].state matches AssetState::Rejected { reason }
                        && reason@ == blocked_reason(asset_id)
                    &&& t.desk.index.records@ == s.desk.index.records@.update(
                        i,
                        AssetRecord {
                            state: t.desk.index.records@[i].state,
                            updated_at: Some(clock.utc),
                            ..r
                        },
                    )
                    &&& t.toasts@ == s.toasts@.said(
                        r.display_name@ + " was rejected: "@ + blocked_reason(asset_id),
                        ToastLevel::Error,
                        clock.now,
                    )
                    &&& t.out@ == s.out@ + saving_index(s)
                    &&& t == (AppState {
                        out: t.out,
                        toasts: t.toasts,
                        desk: AssetDesk { index: t.desk.index, dirty: false, ..s.desk },
                        timers: Timers { index_save: Some(clock.now), ..s.timers },
                        ..s
                    })
                },
                _ => t == s,
            }
        },
    }
}

impl AppState {
    /// Applies a moderation verdict to a row that waits for one. Any other row
    /// was retried or removed since, and the verdict is late.
    pub fn apply_moderation_status(&mut self, row_id: &str, status: ModerationStatus, clock: Clock)
        requires
            old(self).inv(),
        ensures
            final(self).inv(),
            verdict_applied(*old(self), *final(self), row_id@, status, clock),
    {
        let i: usize = match self.desk.index.position(row_id) {
            Some(i) => i,
            None => {
                return;
            },
        };
        let ghost before = self.desk.index.records@;
        let (asset_id, revision_id): (u64, Option<u64>) = match &self.desk.index.records[i].state {
            AssetState::InReview { asset_id, revision_id, .. } => (*asset_id, *revision_id),
            _ => {
                return;
            },
        };
        match status {
            ModerationStatus::InReview => {},
            ModerationStatus::Approved => {
                self.desk.index.records[i].state = AssetState::Approved { asset_id, revision_id };
                self.desk.index.records[i].updated_at = Some(clock.utc);
                let text: String = join3(
                    &self.desk.index.records[i].display_name,
                    " approved as ",
                    &decimal_of(asset_id),
                );
                let auto_grant: Option<u64> = self.desk.index.records[i].auto_grant_universe;
                self.say(&text, ToastLevel::Success, clock.now);
                let ghost approved = AssetRecord {
                    state: AssetState::Approved { asset_id, revision_id },
                    updated_at: Some(clock.utc),
                    ..before[i as int]
                };
                assert(self.desk.index.records@ =~= before.update(i as int, approved));
                match auto_grant {
                    Some(universe_id) => {
                        let mut keys: Vec<String> = Vec::new();
                        keys.push(self.desk.index.records[i].row_id.clone());
                        let ghost mid = *self;
                        proof {
                            row_is_found_after_update(before, i as int, approved);
                            let records = self.desk.index.records@;
                            let ks = keys@;
                            assert(ks.drop_last() =~= Seq::<String>::empty());
                            assert(planned(records, ks.drop_last()).asset_ids =~= Seq::<u64>::empty());
                            let plan = planned(records, ks);
                            assert(plan.asset_ids =~= seq![asset_id]);
                            assert(plan.row_assets =~= seq![(before[i as int].row_id, asset_id)]);
                            assert(signing(mid) == signing(*old(self)));
                        }
                        self.grant_universe_access(universe_id, keys, clock.now);
                        let ghost after = *self;
                        self.save_asset_index(clock.now);
                        proof {
                            let n = old(self).out@.len() as int;
                            match signing(*old(self)).credentials(before[i as int].uploaded_by) {
                                Some(credentials) => {
                                    assert(self.out@.take(n) =~= old(self).out@);
                                    assert(self.out@.skip(n + 1) =~= saving_index(*old(self)));
                                    assert(self.out@[n] == after.out@.last());
                                },
                                None => {},
                            }
                        }
                    },
                    None => {
                        self.save_asset_index(clock.now);
                    },
                }
            },
            ModerationStatus::Rejected => {
                let reason: String = join2("Moderation blocked asset ", &decimal_of(asset_id));
                let text: String = join3(
                    &self.desk.index.records[i].display_name,
                    " was rejected: ",
                    &reason,
                );
                self.desk.index.records[i].state = AssetState::Rejected { reason };
                self.desk.index.records[i].updated_at = Some(clock.utc);
                self.say(&text, ToastLevel::Error, clock.now);
                self.save_asset_index(clock.now);
                assert(self.desk.index.records@ =~= before.update(
                    i as int,
                    AssetRecord {
                        state: self.desk.index.records@[i as int].state,
                        updated_at: Some(clock.utc),
                        ..before[i as int]
                    },
                ));
            },
        }
    }
}

/// A row that was changed is still found under its identifier.
pub proof fn row_is_found_after_update(records: Seq<AssetRecord>, i: int, r: AssetRecord)
    requires
        0 <= i < records.len(),
        r.row_id == records[i].row_id,
        row_in(records, records[i].row_id@) == Some(i),
    ensures
        row_in(records.update(i, r), r.row_id@) == Some(i),
{
    let id = r.row_id@;
    let p = identified(id);
    crate::lists::first_where_facts(records, p);
    let changed = records.update(i, r);
    assert forall|j: int| 0 <= j < i implies !p(#[trigger] changed[j]) by {
        assert(changed[j] == records[j]);
    }
    crate::lists::first_where_is(changed, p, i);
}

/// A verdict touches nothing but a row in review: any other row is left as it
/// is.
pub proof fn a_late_verdict_changes_nothing(
    s: AppState,
    t: AppState,
    row_id: Seq<char>,
    status: ModerationStatus,
    clock: Clock,
)
    requires
        verdict_applied(s, t, row_id, status, clock),
        match row_in(s.desk.index.records@, row_id) {
            Some(i) => s.desk.index.records@[i].state !is InReview,
            None => true,
        },
    ensures
        t == s,
{
}

} // verus!
