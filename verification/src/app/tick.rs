//! What happens by itself, over time.

use vstd::prelude::*;

use vstd::std_specs::iter::IteratorSpec;

use super::clients::restoring;
use super::polls::{capped, earliest, operations_polled, pendings, reviews, verdicts_sent};
use super::uploads::{filled, index_saved, saving_index};
use super::{
    becomes, refreshing, refreshing_presence, revalidating, AppState, AssetDesk, Clients, Clock,
    Effect, Pictures, Tab, Timers, UiState,
};
use crate::bridge::BackendCommand;
use crate::lists::{filter_ends, filter_grows, filter_keeps_distinct};
use crate::toast::{elapsed, ToastLevel};

verus! {

/// Milliseconds between two sweeps for clients.
pub const SWEEP_EVERY: u64 = 2_000;

/// Milliseconds between two sweeps for clients shortly after a launch, when
/// the user is waiting for one to be named.
pub const SWEEP_EVERY_AFTER_LAUNCH: u64 = 400;

/// For how long after a launch sweeps come faster, in milliseconds.
pub const LAUNCH_WINDOW: u64 = 30_000;

pub const TRAY_KILL_EVERY: u64 = 10_000;

pub const PRESENCE_EVERY: u64 = 10_000;

pub const AVATARS_EVERY: u64 = 60_000;

pub const REVALIDATION_EVERY: u64 = 300_000;

pub const PUMP_EVERY: u64 = 1_000;

pub const INDEX_SAVE_EVERY: u64 = 500;

// ---------------------------------------------------------------------------
// Intervals
// ---------------------------------------------------------------------------

/// Whether an interval has passed since the last time, or there was no last
/// time.
pub open spec fn due(last: Option<u64>, every: u64, now: u64) -> bool {
    match last {
        Some(t) => elapsed(t, now) >= every,
        None => true,
    }
}

/// Whether an interval has passed since the last time. Where it has, this is
/// the last time from now on, so anything else that must hold has to be asked
/// before.
pub fn interval_due(slot: &mut Option<u64>, every: u64, now: u64) -> (b: bool)
    ensures
        b == due(*old(slot), every, now),
        *final(slot) == if b {
            Some(now)
        } else {
            *old(slot)
        },
{
    let passed: bool = match *slot {
        Some(t) => now.saturating_sub(t) >= every,
        None => true,
    };
    if passed {
        *slot = Some(now);
    }
    passed
}

/// What happened just now is not due again before its interval has passed, and
/// is due then.
pub proof fn an_interval_is_kept(every: u64, now: u64, later: u64)
    requires
        now <= later,
    ensures
        due(Some(now), every, later) <==> later - now >= every,
{
}

// ---------------------------------------------------------------------------
// The steps
// ---------------------------------------------------------------------------

/// How often clients are looked for.
pub open spec fn sweep_every(s: AppState, now: u64) -> u64 {
    match s.clients.last_launch_request {
        Some(t) => if elapsed(t, now) < LAUNCH_WINDOW {
            SWEEP_EVERY_AFTER_LAUNCH
        } else {
            SWEEP_EVERY
        },
        None => SWEEP_EVERY,
    }
}

/// Windows get their own titles back once the user does not want them renamed.
pub open spec fn titles_step(s: AppState, t: AppState) -> bool {
    let noted = AppState {
        clients: Clients {
            original_titles: t.clients.original_titles,
            renaming_was_enabled: s.config.rename_roblox_windows,
            ..s.clients
        },
        ..s
    };
    if s.clients.renaming_was_enabled && !s.config.rename_roblox_windows {
        t.clients.original_titles@.len() == 0 && becomes(
            t,
            noted,
            s.out@ + restoring(s),
            s.toasts@,
        )
    } else {
        t.clients.original_titles == s.clients.original_titles && t == noted
    }
}

/// Clients are looked for.
pub open spec fn sweep_step(s: AppState, t: AppState, now: u64) -> bool {
    if due(s.timers.instance_sweep, sweep_every(s, now), now) {
        becomes(
            t,
            AppState { timers: Timers { instance_sweep: Some(now), ..s.timers }, ..s },
            s.out@.push(Effect::Send(BackendCommand::SweepInstances)),
            s.toasts@,
        )
    } else {
        t == s
    }
}

/// Tray processes are killed, where that is wanted.
pub open spec fn tray_step(s: AppState, t: AppState, now: u64) -> bool {
    if (s.config.kill_background_roblox || s.config.multi_instance_enabled) && due(
        s.timers.tray_kill,
        TRAY_KILL_EVERY,
        now,
    ) {
        becomes(
            t,
            AppState { timers: Timers { tray_kill: Some(now), ..s.timers }, ..s },
            s.out@.push(Effect::KillTray),
            s.toasts@,
        )
    } else {
        t == s
    }
}

/// Presence of the accounts in view is refreshed.
pub open spec fn presence_step(s: AppState, t: AppState, now: u64) -> bool {
    if s.ui.visible_user_ids@.len() > 0 && due(s.timers.presence_poll, PRESENCE_EVERY, now) {
        becomes(
            t,
            AppState { timers: Timers { presence_poll: Some(now), ..s.timers }, ..s },
            s.out@ + refreshing_presence(s),
            s.toasts@,
        )
    } else {
        t == s
    }
}

/// Avatars are refreshed.
pub open spec fn avatars_step(s: AppState, t: AppState, now: u64) -> bool {
    if s.store.accounts@.len() > 0 && due(s.timers.avatar_refresh, AVATARS_EVERY, now) {
        becomes(
            t,
            AppState { timers: Timers { avatar_refresh: Some(now), ..s.timers }, ..s },
            s.out@ + refreshing(s),
            s.toasts@,
        )
    } else {
        t == s
    }
}

/// Cookies are validated again.
pub open spec fn revalidation_step(s: AppState, t: AppState, now: u64) -> bool {
    if s.store.accounts@.len() > 0 && due(s.timers.revalidation, REVALIDATION_EVERY, now) {
        becomes(
            t,
            AppState { timers: Timers { revalidation: Some(now), ..s.timers }, ..s },
            s.out@ + revalidating(s),
            s.toasts@,
        )
    } else {
        t == s
    }
}

/// What the polls of this moment are about: how long to wait between two, which
/// rows are to be given up, and which to ask about.
#[derive(Debug)]
pub struct Polls {
    pub operations_every: u64,
    pub expired: Vec<String>,
    pub operations: Vec<(String, String)>,
    pub verdicts_every: u64,
    pub verdicts: Vec<(String, u64)>,
}

/// Roblox is asked about uploads that it is taking in.
#[verifier::opaque]
pub open spec fn operations_step(s: AppState, t: AppState, polls: Polls, now: u64) -> bool {
    if !s.lock.needs_unlock && earliest(s.desk.index.records@, pendings()) is Some && due(
        s.timers.asset_poll,
        polls.operations_every,
        now,
    ) {
        operations_polled(
            AppState { timers: Timers { asset_poll: Some(now), ..s.timers }, ..s },
            t,
            polls.expired@,
            polls.operations@,
            now,
        )
    } else {
        t == s
    }
}

/// Roblox is asked for verdicts.
#[verifier::opaque]
pub open spec fn verdicts_step(s: AppState, t: AppState, polls: Polls, now: u64) -> bool {
    if !s.lock.needs_unlock && earliest(s.desk.index.records@, reviews()) is Some && due(
        s.timers.moderation_poll,
        polls.verdicts_every,
        now,
    ) {
        verdicts_sent(
            AppState { timers: Timers { moderation_poll: Some(now), ..s.timers }, ..s },
            t,
            capped(polls.verdicts@),
        )
    } else {
        t == s
    }
}

/// Whether a row waits to be sent.
pub open spec fn any_queued(s: AppState) -> bool {
    exists|i: int|
        0 <= i < s.desk.index.records@.len() && (#[trigger] s.desk.index.records@[i]).state is Queued
}

/// The queue is looked at: a row may have become ready by waiting.
#[verifier::opaque]
pub open spec fn pump_step(s: AppState, t: AppState, clock: Clock) -> bool {
    if !s.lock.needs_unlock && any_queued(s) && due(s.timers.upload_pump, PUMP_EVERY, clock.now) {
        let stamped = AppState {
            timers: Timers { upload_pump: Some(clock.now), ..s.timers },
            ..s
        };
        let p = filled(stamped, clock);
        &&& t.desk.index.records@ == p.records
        &&& becomes(
            t,
            AppState {
                desk: AssetDesk {
                    index: t.desk.index,
                    dirty: s.desk.dirty || p.records != s.desk.index.records@,
                    ..s.desk
                },
                timers: Timers { audio_upload: p.audio_at, ..stamped.timers },
                ..s
            },
            s.out@ + p.sent,
            s.toasts@,
        )
    } else {
        t == s
    }
}

/// Changes of the index are written, not more often than it takes.
pub open spec fn flush_step(s: AppState, t: AppState, now: u64) -> bool {
    if s.desk.dirty && due(s.timers.index_save, INDEX_SAVE_EVERY, now) {
        becomes(t, index_saved(s, now), s.out@ + saving_index(s), s.toasts@)
    } else {
        t == s
    }
}

/// The user is not left on a tab that is no longer there.
pub open spec fn tab_step(s: AppState, t: AppState) -> bool {
    t == if !s.lock.needs_unlock && !s.config.developer_options && s.ui.active_tab
        == Tab::AssetManager {
        AppState { ui: UiState { active_tab: Tab::Accounts, ..s.ui }, ..s }
    } else {
        s
    }
}

/// Whether the states are those that the steps go through.
pub open spec fn tick_steps(states: Seq<AppState>, polls: Polls, clock: Clock) -> bool {
    &&& states.len() == 12
    &&& titles_step(states[0], states[1])
    &&& sweep_step(states[1], states[2], clock.now)
    &&& tray_step(states[2], states[3], clock.now)
    &&& presence_step(states[3], states[4], clock.now)
    &&& avatars_step(states[4], states[5], clock.now)
    &&& revalidation_step(states[5], states[6], clock.now)
    &&& operations_step(states[6], states[7], polls, clock.now)
    &&& verdicts_step(states[7], states[8], polls, clock.now)
    &&& pump_step(states[8], states[9], clock)
    &&& flush_step(states[9], states[10], clock.now)
    &&& tab_step(states[10], states[11])
}

/// Whether `t` is the state `s` after one round of what happens by itself.
pub open spec fn ticked(s: AppState, t: AppState, polls: Polls, clock: Clock) -> bool {
    exists|states: Seq<AppState>|
        #[trigger] tick_steps(states, polls, clock) && states[0] == s && states[11] == t
}

impl AppState {
    fn tick_titles(&mut self)
        requires
            old(self).inv(),
        ensures
            final(self).inv(),
            titles_step(*old(self), *final(self)),
    {
        if self.clients.renaming_was_enabled && !self.config.rename_roblox_windows {
            self.restore_roblox_window_titles();
        }
        self.clients.renaming_was_enabled = self.config.rename_roblox_windows;
    }

    fn tick_sweep(&mut self, now: u64)
        requires
            old(self).inv(),
        ensures
            final(self).inv(),
            sweep_step(*old(self), *final(self), now),
    {
        let every: u64 = match self.clients.last_launch_request {
            Some(t) => {
                if now.saturating_sub(t) < LAUNCH_WINDOW {
                    SWEEP_EVERY_AFTER_LAUNCH
                } else {
                    SWEEP_EVERY
                }
            },
            None => SWEEP_EVERY,
        };
        if interval_due(&mut self.timers.instance_sweep, every, now) {
            self.out.push(Effect::Send(BackendCommand::SweepInstances));
        }
    }

    fn tick_tray(&mut self, now: u64)
        requires
            old(self).inv(),
        ensures
            final(self).inv(),
            tray_step(*old(self), *final(self), now),
    {
        if (self.config.kill_background_roblox || self.config.multi_instance_enabled)
            && interval_due(&mut self.timers.tray_kill, TRAY_KILL_EVERY, now) {
            self.out.push(Effect::KillTray);
        }
    }

    fn tick_presence(&mut self, now: u64)
        requires
            old(self).inv(),
        ensures
            final(self).inv(),
            presence_step(*old(self), *final(self), now),
    {
        if self.ui.visible_user_ids.len() > 0 && interval_due(
            &mut self.timers.presence_poll,
            PRESENCE_EVERY,
            now,
        ) {
            self.trigger_presence_refresh();
        }
    }

    fn tick_avatars(&mut self, now: u64)
        requires
            old(self).inv(),
        ensures
            final(self).inv(),
            avatars_step(*old(self), *final(self), now),
    {
        if self.store.accounts.len() > 0 && interval_due(
            &mut self.timers.avatar_refresh,
            AVATARS_EVERY,
            now,
        ) {
            self.trigger_refresh();
        }
    }

    fn tick_revalidation(&mut self, now: u64)
        requires
            old(self).inv(),
        ensures
            final(self).inv(),
            revalidation_step(*old(self), *final(self), now),
    {
        if self.store.accounts.len() > 0 && interval_due(
            &mut self.timers.revalidation,
            REVALIDATION_EVERY,
            now,
        ) {
            self.trigger_revalidation();
        }
    }

    fn tick_operations(&mut self, polls: &Polls, now: u64)
        requires
            old(self).inv(),
        ensures
            final(self).inv(),
            operations_step(*old(self), *final(self), *polls, now),
    {
        reveal(operations_step);
        if !self.lock.needs_unlock && self.any_pending() && interval_due(
            &mut self.timers.asset_poll,
            polls.operations_every,
            now,
        ) {
            self.dispatch_asset_poll(&polls.expired, &polls.operations, now);
        }
    }

    fn tick_verdicts(&mut self, polls: &Polls, now: u64)
        requires
            old(self).inv(),
        ensures
            final(self).inv(),
            verdicts_step(*old(self), *final(self), *polls, now),
    {
        reveal(verdicts_step);
        if !self.lock.needs_unlock && self.any_in_review() && interval_due(
            &mut self.timers.moderation_poll,
            polls.verdicts_every,
            now,
        ) {
            self.dispatch_moderation_poll(&polls.verdicts);
        }
    }

    fn has_queued(&self) -> (b: bool)
        ensures
            b == any_queued(*self),
    {
        let mut i: usize = 0;
        while i < self.desk.index.records.len()
            invariant
                0 <= i <= self.desk.index.records@.len(),
                forall|j: int|
                    0 <= j < i ==> !((#[trigger] self.desk.index.records@[j]).state is Queued),
            decreases self.desk.index.records@.len() - i,
        {
            if self.desk.index.records[i].state.is_queued() {
                return true;
            }
            i += 1;
        }
        false
    }

    fn tick_pump(&mut self, clock: Clock)
        requires
            old(self).inv(),
        ensures
            final(self).inv(),
            pump_step(*old(self), *final(self), clock),
    {
        reveal(pump_step);
        if !self.lock.needs_unlock && self.has_queued() && interval_due(
            &mut self.timers.upload_pump,
            PUMP_EVERY,
            clock.now,
        ) {
            self.dispatch_next_uploads(clock);
        }
    }

    fn tick_flush(&mut self, now: u64)
        requires
            old(self).inv(),
        ensures
            final(self).inv(),
            flush_step(*old(self), *final(self), now),
    {
        if self.desk.dirty && interval_due(&mut self.timers.index_save, INDEX_SAVE_EVERY, now) {
            self.save_asset_index(now);
        }
    }

    fn tick_tab(&mut self)
        requires
            old(self).inv(),
        ensures
            final(self).inv(),
            tab_step(*old(self), *final(self)),
    {
        if !self.lock.needs_unlock && !self.config.developer_options && self.ui.active_tab
            == Tab::AssetManager {
            self.ui.active_tab = Tab::Accounts;
        }
    }

    /// One round of what happens by itself, before the window is drawn.
    pub fn tick(&mut self, polls: &Polls, clock: Clock)
        requires
            old(self).inv(),
        ensures
            final(self).inv(),
            ticked(*old(self), *final(self), *polls, clock),
    {
        let ghost s0 = *self;
        self.tick_titles();
        let ghost s1 = *self;
        self.tick_sweep(clock.now);
        let ghost s2 = *self;
        self.tick_tray(clock.now);
        let ghost s3 = *self;
        self.tick_presence(clock.now);
        let ghost s4 = *self;
        self.tick_avatars(clock.now);
        let ghost s5 = *self;
        self.tick_revalidation(clock.now);
        let ghost s6 = *self;
        self.tick_operations(polls, clock.now);
        let ghost s7 = *self;
        self.tick_verdicts(polls, clock.now);
        let ghost s8 = *self;
        self.tick_pump(clock);
        let ghost s9 = *self;
        self.tick_flush(clock.now);
        let ghost s10 = *self;
        self.tick_tab();
        let ghost s11 = *self;
        assert(tick_steps(
            seq![s0, s1, s2, s3, s4, s5, s6, s7, s8, s9, s10, s11],
            *polls,
            clock,
        ));
    }

    /// The program is about to end: windows get their own titles back, and
    /// what was not written yet is written.
    pub fn on_exit(&mut self, now: u64)
        requires
            old(self).inv(),
        ensures
            final(self).inv(),
            final(self).clients.original_titles@.len() == 0,
            ({
                let rested = AppState {
                    clients: Clients {
                        original_titles: final(self).clients.original_titles,
                        ..old(self).clients
                    },
                    ..*old(self)
                };
                if old(self).desk.dirty {
                    becomes(
                        *final(self),
                        index_saved(rested, now),
                        old(self).out@ + restoring(*old(self)) + saving_index(*old(self)),
                        old(self).toasts@,
                    )
                } else {
                    becomes(
                        *final(self),
                        rested,
                        old(self).out@ + restoring(*old(self)),
                        old(self).toasts@,
                    )
                }
            }),
    {
        self.restore_roblox_window_titles();
        if self.desk.dirty {
            self.save_asset_index(now);
        }
    }

    /// The user asked for everything to be refreshed.
    pub fn refresh_clicked(&mut self, now: u64)
        requires
            old(self).inv(),
        ensures
            final(self).inv(),
            if old(self).store.accounts@.len() > 0 {
                becomes(
                    *final(self),
                    *old(self),
                    old(self).out@ + revalidating(*old(self)) + refreshing(*old(self)),
                    old(self).toasts@.said("Refreshing all accounts..."@, ToastLevel::Info, now),
                )
            } else {
                *final(self) == *old(self)
            },
    {
        if self.store.accounts.len() > 0 {
            self.say("Refreshing all accounts...", ToastLevel::Info, now);
            self.trigger_revalidation();
            self.trigger_refresh();
        }
    }
}

/// While nothing is pending, in review or queued, and nothing was changed, a
/// round asks nothing of Roblox about assets and writes nothing.
pub proof fn an_idle_queue_asks_nothing(
    states: Seq<AppState>,
    polls: Polls,
    clock: Clock,
)
    requires
        tick_steps(states, polls, clock),
        earliest(states[0].desk.index.records@, pendings()) is None,
        earliest(states[0].desk.index.records@, reviews()) is None,
        !any_queued(states[0]),
        !states[0].desk.dirty,
    ensures
        states[10] == states[6],
        states[11].desk == states[0].desk,
{
    reveal(operations_step);
    reveal(verdicts_step);
    reveal(pump_step);
    assert(states[6].desk == states[0].desk);
}

/// A locked store sends no file and asks about none.
pub proof fn a_locked_store_asks_nothing_about_assets(
    states: Seq<AppState>,
    polls: Polls,
    clock: Clock,
)
    requires
        tick_steps(states, polls, clock),
        states[0].lock.needs_unlock,
    ensures
        states[9] == states[6],
{
    reveal(operations_step);
    reveal(verdicts_step);
    reveal(pump_step);
    assert(states[6].lock == states[0].lock);
}

// ---------------------------------------------------------------------------
// Blurred avatars
// ---------------------------------------------------------------------------

/// Whether an avatar is there that is not blurred yet.
pub open spec fn to_blur(pictures: Pictures, id: u64) -> bool {
    pictures.avatars@.contains_key(id) && !pictures.blurred@.contains_key(id)
}

/// The avatars that are not blurred.
pub open spec fn not_blurred(pictures: Pictures) -> spec_fn(u64) -> bool {
    |id: u64| !pictures.blurred@.contains_key(id)
}

impl AppState {
    /// The avatars that have to be blurred: those that are not yet, while
    /// names are hidden.
    pub fn avatars_to_blur(&self) -> (ids: Vec<u64>)
        ensures
            forall|id: u64| #[trigger]
                ids@.contains(id) <==> self.config.anonymize_names && to_blur(self.pictures, id),
            ids@.no_duplicates(),
    {
        broadcast use vstd::std_specs::hash::group_hash_axioms;

        let mut ids: Vec<u64> = Vec::new();
        if !self.config.anonymize_names {
            return ids;
        }
        let mut keys: Vec<u64> = Vec::new();
        let ghost walked = self.pictures.avatars.keys().remaining();
        let ghost all = walked.unref();
        for key in it: self.pictures.avatars.keys()
            invariant
                it.seq() == walked,
                all == walked.unref(),
                keys@ == all.take(it.index() as int),
        {
            keys.push(*key);
            assert(keys@ =~= all.take(it.index() as int + 1));
        }
        proof {
            assert(keys@ =~= all);
            assert(all.no_duplicates()) by {
                assert forall|a: int, b: int|
                    0 <= a < all.len() && 0 <= b < all.len() && a != b implies all[a] != all[b] by {
                    assert(walked[a] != walked[b]);
                }
            }
        }
        let ghost p = not_blurred(self.pictures);
        let mut i: usize = 0;
        proof {
            filter_ends(keys@, p);
            assert(ids@ =~= keys@.take(0).filter(p));
        }
        while i < keys.len()
            invariant
                0 <= i <= keys@.len(),
                p == not_blurred(self.pictures),
                ids@ == keys@.take(i as int).filter(p),
            decreases keys@.len() - i,
        {
            broadcast use vstd::std_specs::hash::group_hash_axioms;

            proof {
                filter_grows(keys@, p, i as int);
            }
            if !self.pictures.blurred.contains_key(&keys[i]) {
                ids.push(keys[i]);
            }
            i += 1;
        }
        proof {
            filter_ends(all, p);
            filter_keeps_distinct(all, p);
            assert forall|id: u64| #[trigger]
                ids@.contains(id) <==> self.config.anonymize_names && to_blur(
                self.pictures,
                id,
            ) by {
                if ids@.contains(id) {
                    all.lemma_filter_contains_rev(p, id);
                    let k = choose|k: int| 0 <= k < ids@.len() && ids@[k] == id;
                    all.lemma_filter_pred(p, k);
                    assert(all.to_set().contains(id));
                }
                if to_blur(self.pictures, id) {
                    assert(all.to_set().contains(id));
                    let k = choose|k: int| 0 <= k < all.len() && all[k] == id;
                    all.lemma_filter_contains(p, k);
                }
            }
        }
        ids
    }

    /// An avatar was blurred.
    pub fn avatar_blurred(&mut self, id: u64, bytes: Vec<u8>)
        requires
            old(self).inv(),
        ensures
            final(self).inv(),
            final(self).pictures.blurred@ == old(self).pictures.blurred@.insert(id, bytes),
            *final(self) == (AppState {
                pictures: Pictures {
                    blurred: final(self).pictures.blurred,
                    ..old(self).pictures
                },
                ..*old(self)
            }),
    {
        broadcast use vstd::std_specs::hash::group_hash_axioms;

        self.pictures.blurred.insert(id, bytes);
    }
}

} // verus!
