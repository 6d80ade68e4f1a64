//! What happens by itself, when the program starts, and when the user changes
//! the settings or is told something.

use vstd::prelude::*;

use super::clients::retitled;
use super::events::event_applied;
use super::panels::{control_moved, setting_applied, setting_done};
use super::session::{started_over, Wiped};
use super::startup::{is_fresh, started, started_from, Start};
use super::tick::{
    avatars_step, flush_step, operations_step, presence_step, pump_step, revalidation_step,
    sweep_step, tab_step, ticked, tick_steps, titles_step, tray_step, verdicts_step, Polls,
    AVATARS_EVERY, LAUNCH_WINDOW, PRESENCE_EVERY, REVALIDATION_EVERY, SWEEP_EVERY,
    SWEEP_EVERY_AFTER_LAUNCH, TRAY_KILL_EVERY,
};
use super::{AppState, Clock, Effect};
use crate::bridge::{BackendCommand, BackendEvent};
use crate::labels::display_name;
use crate::models::{AppConfig, StoreMode};
use crate::settings::{with_setting, SettingsEvent};
use crate::text::{decimal, trimmed};
use crate::toast::ToastLevel;

verus! {

// ---------------------------------------------------------------------------
// Rounds
// ---------------------------------------------------------------------------

/// Whether the things to do are those before and perhaps more behind them.
pub open spec fn goes_on(before: Seq<Effect>, after: Seq<Effect>) -> bool {
    after.len() >= before.len() && forall|k: int|
        0 <= k < before.len() ==> #[trigger] after[k] == before[k]
}

/// Whether something is newly to be done.
pub open spec fn newly(s: AppState, t: AppState, effect: Effect) -> bool {
    exists|k: int| s.out@.len() <= k < t.out@.len() && #[trigger] t.out@[k] == effect
}

/// Whether a step left alone what no step of a round may touch.
pub open spec fn only_works(s: AppState, t: AppState) -> bool {
    &&& t.store == s.store && t.session == s.session && t.config == s.config
    &&& t.dialog == s.dialog && t.lock == s.lock && t.settings == s.settings
    &&& t.pictures == s.pictures && t.toasts@ == s.toasts@
    &&& t.ui.selected == s.ui.selected && t.ui.visible_user_ids == s.ui.visible_user_ids
    &&& t.clients.last_launch_request == s.clients.last_launch_request
    &&& goes_on(s.out@, t.out@)
}

/// Whether a timer has run out: it never ran, or long enough ago.
pub open spec fn has_run_out(last: Option<u64>, every: u64, now: u64) -> bool {
    last is None || every == 0 || last->Some_0 + every <= now
}

/// What a timer is after a round: set anew where it had run out and the work was
/// wanted.
pub open spec fn timer_after(last: Option<u64>, every: u64, wanted: bool, now: u64) -> Option<u64> {
    if wanted && has_run_out(last, every, now) {
        Some(now)
    } else {
        last
    }
}

/// What a step of a round does to the timers outside the asset tab.
spec fn sets(t: AppState, timers: super::Timers) -> bool {
    &&& t.timers.instance_sweep == timers.instance_sweep
    &&& t.timers.tray_kill == timers.tray_kill
    &&& t.timers.presence_poll == timers.presence_poll
    &&& t.timers.avatar_refresh == timers.avatar_refresh
    &&& t.timers.revalidation == timers.revalidation
    &&& t.timers.launch == timers.launch
}

proof fn titles_work(a: AppState, b: AppState)
    requires
        titles_step(a, b),
    ensures
        only_works(a, b),
        same_timers(a, b),
{
}

proof fn the_sweep_works(b: AppState, c: AppState, now: u64)
    requires
        sweep_step(b, c, now),
    ensures
        only_works(b, c),
        sets(
            c,
            super::Timers {
                instance_sweep: timer_after(b.timers.instance_sweep, pace(b, now), true, now),
                ..b.timers
            },
        ),
        has_run_out(b.timers.instance_sweep, pace(b, now), now) ==> newly(
            b,
            c,
            Effect::Send(BackendCommand::SweepInstances),
        ),
{
    if has_run_out(b.timers.instance_sweep, pace(b, now), now) {
        assert(c.out@[b.out@.len() as int] == Effect::Send(BackendCommand::SweepInstances));
    }
}

proof fn the_tray_works(c: AppState, d: AppState, now: u64)
    requires
        tray_step(c, d, now),
    ensures
        only_works(c, d),
        sets(
            d,
            super::Timers {
                tray_kill: timer_after(c.timers.tray_kill, TRAY_KILL_EVERY, kills_tray(c), now),
                ..c.timers
            },
        ),
        has_run_out(c.timers.tray_kill, TRAY_KILL_EVERY, now) && kills_tray(c) ==> newly(
            c,
            d,
            Effect::KillTray,
        ),
{
    if has_run_out(c.timers.tray_kill, TRAY_KILL_EVERY, now) && kills_tray(c) {
        assert(d.out@[c.out@.len() as int] == Effect::KillTray);
    }
}

proof fn presence_works(d: AppState, e: AppState, now: u64)
    requires
        presence_step(d, e, now),
    ensures
        only_works(d, e),
        sets(
            e,
            super::Timers {
                presence_poll: timer_after(
                    d.timers.presence_poll,
                    PRESENCE_EVERY,
                    d.ui.visible_user_ids@.len() > 0,
                    now,
                ),
                ..d.timers
            },
        ),
{
}

proof fn avatars_work(e: AppState, f: AppState, now: u64)
    requires
        avatars_step(e, f, now),
    ensures
        only_works(e, f),
        sets(
            f,
            super::Timers {
                avatar_refresh: timer_after(
                    e.timers.avatar_refresh,
                    AVATARS_EVERY,
                    e.store.accounts@.len() > 0,
                    now,
                ),
                ..e.timers
            },
        ),
{
}

proof fn revalidation_works(f: AppState, g: AppState, now: u64)
    requires
        revalidation_step(f, g, now),
    ensures
        only_works(f, g),
        sets(
            g,
            super::Timers {
                revalidation: timer_after(
                    f.timers.revalidation,
                    REVALIDATION_EVERY,
                    f.store.accounts@.len() > 0,
                    now,
                ),
                ..f.timers
            },
        ),
        has_run_out(f.timers.revalidation, REVALIDATION_EVERY, now) && f.store.accounts@.len() > 0
            && f.session is Some ==> newly(f, g, Effect::RevalidateAll),
{
    if has_run_out(f.timers.revalidation, REVALIDATION_EVERY, now) && f.store.accounts@.len() > 0
        && f.session is Some {
        assert(g.out@[f.out@.len() as int] == Effect::RevalidateAll);
    }
}

proof fn verdicts_work(h: AppState, i: AppState, polls: Polls, now: u64)
    requires
        verdicts_step(h, i, polls, now),
    ensures
        only_works(h, i),
        same_timers(h, i),
{
    reveal(verdicts_step);
    assert forall|n: int| 0 <= n < h.out@.len() implies #[trigger] i.out@[n] == h.out@[n] by {
        if i != h {
            assert(i.out@.take(h.out@.len() as int)[n] == i.out@[n]);
        }
    }
}

proof fn the_pump_works(i: AppState, j: AppState, clock: Clock)
    requires
        pump_step(i, j, clock),
    ensures
        only_works(i, j),
        same_timers(i, j),
{
    reveal(pump_step);
}

proof fn the_flush_and_the_tab_work(j: AppState, k: AppState, l: AppState, now: u64)
    requires
        flush_step(j, k, now),
        tab_step(k, l),
    ensures
        only_works(j, k),
        same_timers(j, k),
        only_works(k, l),
        same_timers(k, l),
{
}

proof fn the_operations_step_works(g: AppState, h: AppState, polls: Polls, now: u64)
    requires
        operations_step(g, h, polls, now),
    ensures
        only_works(g, h) && same_timers(g, h),
{
    reveal(operations_step);
    let s = AppState { timers: super::Timers { asset_poll: Some(now), ..g.timers }, ..g };
    if h != g && s.session is Some {
        let records = super::staging::all_given_up(s.desk.index.records@, polls.expired@);
        let mid = choose|mid: AppState|
            {
                &&& if polls.expired@.len() > 0 {
                    super::asset_events::rows_written(s, mid, records, now)
                } else {
                    mid == s
                }
                &&& #[trigger] super::polls::operations_sent(
                    mid,
                    h,
                    super::polls::capped(polls.operations@),
                )
            };
        assert(goes_on(s.out@, mid.out@));
        assert forall|n: int| 0 <= n < mid.out@.len() implies #[trigger] h.out@[n] == mid.out@[n] by {
            assert(h.out@.take(mid.out@.len() as int)[n] == h.out@[n]);
        }
    }
}

/// Whether the timers of the background work outside the asset tab are the same.
pub open spec fn same_timers(s: AppState, t: AppState) -> bool {
    &&& t.timers.instance_sweep == s.timers.instance_sweep
    &&& t.timers.tray_kill == s.timers.tray_kill
    &&& t.timers.presence_poll == s.timers.presence_poll
    &&& t.timers.avatar_refresh == s.timers.avatar_refresh
    &&& t.timers.revalidation == s.timers.revalidation
    &&& t.timers.launch == s.timers.launch
}

proof fn what_is_new_stays_new(s: AppState, m: AppState, n: AppState, t: AppState, effect: Effect)
    requires
        goes_on(s.out@, m.out@),
        newly(m, n, effect),
        goes_on(n.out@, t.out@),
    ensures
        newly(s, t, effect),
{
    let k = choose|k: int| m.out@.len() <= k < n.out@.len() && #[trigger] n.out@[k] == effect;
    assert(t.out@[k] == effect);
}

proof fn steps_add_up(a: AppState, b: AppState, c: AppState)
    requires
        only_works(a, b),
        only_works(b, c),
    ensures
        only_works(a, c),
{
    assert forall|k: int| 0 <= k < a.out@.len() implies #[trigger] c.out@[k] == a.out@[k] by {
        assert(b.out@[k] == a.out@[k]);
    }
}

/// How often clients are looked for: faster for a while after a launch.
pub open spec fn pace(s: AppState, now: u64) -> u64 {
    match s.clients.last_launch_request {
        Some(at) => if now < at + LAUNCH_WINDOW {
            SWEEP_EVERY_AFTER_LAUNCH
        } else {
            SWEEP_EVERY
        },
        None => SWEEP_EVERY,
    }
}

/// Whether the settings want tray processes killed.
pub open spec fn kills_tray(s: AppState) -> bool {
    s.config.kill_background_roblox || s.config.multi_instance_enabled
}

/// What the steps of a round come to, one by one.
#[verifier::opaque]
spec fn worked(z: Seq<AppState>, now: u64) -> bool {
    &&& z.len() == 12
    &&& forall|k: int| 0 <= k < 11 ==> only_works(#[trigger] z[k], z[k + 1])
    &&& forall|k: int|
        (k == 0 || 6 <= k < 11) ==> same_timers(#[trigger] z[k], z[k + 1])
    &&& sets(
        z[2],
        super::Timers {
            instance_sweep: timer_after(z[1].timers.instance_sweep, pace(z[1], now), true, now),
            ..z[1].timers
        },
    )
    &&& sets(
        z[3],
        super::Timers {
            tray_kill: timer_after(z[2].timers.tray_kill, TRAY_KILL_EVERY, kills_tray(z[2]), now),
            ..z[2].timers
        },
    )
    &&& sets(
        z[4],
        super::Timers {
            presence_poll: timer_after(
                z[3].timers.presence_poll,
                PRESENCE_EVERY,
                z[3].ui.visible_user_ids@.len() > 0,
                now,
            ),
            ..z[3].timers
        },
    )
    &&& sets(
        z[5],
        super::Timers {
            avatar_refresh: timer_after(
                z[4].timers.avatar_refresh,
                AVATARS_EVERY,
                z[4].store.accounts@.len() > 0,
                now,
            ),
            ..z[4].timers
        },
    )
    &&& sets(
        z[6],
        super::Timers {
            revalidation: timer_after(
                z[5].timers.revalidation,
                REVALIDATION_EVERY,
                z[5].store.accounts@.len() > 0,
                now,
            ),
            ..z[5].timers
        },
    )
    &&& has_run_out(z[1].timers.instance_sweep, pace(z[1], now), now) ==> newly(
        z[1],
        z[2],
        Effect::Send(BackendCommand::SweepInstances),
    )
    &&& has_run_out(z[2].timers.tray_kill, TRAY_KILL_EVERY, now) && kills_tray(z[2]) ==> newly(
        z[2],
        z[3],
        Effect::KillTray,
    )
    &&& has_run_out(z[5].timers.revalidation, REVALIDATION_EVERY, now) && z[5].store.accounts@.len()
        > 0 && z[5].session is Some ==> newly(z[5], z[6], Effect::RevalidateAll)
}

#[verifier::rlimit(60)]
#[verifier::spinoff_prover]
proof fn the_steps_work(z: Seq<AppState>, polls: Polls, clock: Clock)
    requires
        tick_steps(z, polls, clock),
    ensures
        worked(z, clock.now),
{
    titles_work(z[0], z[1]);
    the_sweep_works(z[1], z[2], clock.now);
    the_tray_works(z[2], z[3], clock.now);
    presence_works(z[3], z[4], clock.now);
    avatars_work(z[4], z[5], clock.now);
    revalidation_works(z[5], z[6], clock.now);
    the_operations_step_works(z[6], z[7], polls, clock.now);
    verdicts_work(z[7], z[8], polls, clock.now);
    the_pump_works(z[8], z[9], clock);
    the_flush_and_the_tab_work(z[9], z[10], z[11], clock.now);
    reveal(worked);
    assert forall|k: int| 0 <= k < 11 implies only_works(#[trigger] z[k], z[k + 1]) by {
        assert(k == 0 || k == 1 || k == 2 || k == 3 || k == 4 || k == 5 || k == 6 || k == 7 || k
            == 8 || k == 9 || k == 10);
    }
    assert forall|k: int| (k == 0 || 6 <= k < 11) implies same_timers(#[trigger] z[k], z[k + 1]) by {
        assert(k == 0 || k == 6 || k == 7 || k == 8 || k == 9 || k == 10);
    }
}

proof fn many_steps_add_up(z: Seq<AppState>, now: u64, i: int, j: int)
    requires
        worked(z, now),
        0 <= i <= j < 12,
    ensures
        only_works(z[i], z[j]),
    decreases j - i,
{
    if i < j {
        many_steps_add_up(z, now, i, j - 1);
        assert(only_works(z[j - 1], z[j])) by {
            reveal(worked);
            assert(only_works(z[j - 1], z[j - 1 + 1]));
        }
        steps_add_up(z[i], z[j - 1], z[j]);
    }
}

proof fn the_timers_go_on(z: Seq<AppState>, now: u64)
    requires
        worked(z, now),
    ensures
        same_timers(z[0], z[1]),
        same_timers(z[6], z[11]),
{
    reveal(worked);
    assert(same_timers(z[0], z[0int + 1]));
    assert(same_timers(z[6], z[6int + 1]));
    assert(same_timers(z[7], z[7int + 1]));
    assert(same_timers(z[8], z[8int + 1]));
    assert(same_timers(z[9], z[9int + 1]));
    assert(same_timers(z[10], z[10int + 1]));
}

/// A round does what is due and no more: clients are looked for, tray processes
/// are killed where the settings want it, presence is asked for while accounts
/// are in sight, and avatars and cookies are looked after while there are
/// accounts, each when its time has come, which is then counted from now. It
/// leaves the accounts, the key, the settings and the dialogs alone, and says
/// nothing.
pub proof fn a_round_does_what_is_due(s: AppState, t: AppState, polls: Polls, clock: Clock)
    requires
        ticked(s, t, polls, clock),
    ensures
        only_works(s, t),
        t.timers.instance_sweep == timer_after(
            s.timers.instance_sweep,
            pace(s, clock.now),
            true,
            clock.now,
        ),
        t.timers.tray_kill == timer_after(
            s.timers.tray_kill,
            TRAY_KILL_EVERY,
            kills_tray(s),
            clock.now,
        ),
        t.timers.presence_poll == timer_after(
            s.timers.presence_poll,
            PRESENCE_EVERY,
            s.ui.visible_user_ids@.len() > 0,
            clock.now,
        ),
        t.timers.avatar_refresh == timer_after(
            s.timers.avatar_refresh,
            AVATARS_EVERY,
            s.store.accounts@.len() > 0,
            clock.now,
        ),
        t.timers.revalidation == timer_after(
            s.timers.revalidation,
            REVALIDATION_EVERY,
            s.store.accounts@.len() > 0,
            clock.now,
        ),
        t.timers.launch == s.timers.launch,
        has_run_out(s.timers.instance_sweep, pace(s, clock.now), clock.now) ==> newly(
            s,
            t,
            Effect::Send(BackendCommand::SweepInstances),
        ),
        has_run_out(s.timers.tray_kill, TRAY_KILL_EVERY, clock.now) && kills_tray(s) ==> newly(
            s,
            t,
            Effect::KillTray,
        ),
        has_run_out(s.timers.revalidation, REVALIDATION_EVERY, clock.now)
            && s.store.accounts@.len() > 0 && s.session is Some ==> newly(
            s,
            t,
            Effect::RevalidateAll,
        ),
{
    let z = choose|z: Seq<AppState>|
        #[trigger] tick_steps(z, polls, clock) && z[0] == s && z[11] == t;
    the_steps_work(z, polls, clock);
    what_worked_is_due(z, clock.now);
}

proof fn what_worked_is_due(z: Seq<AppState>, now: u64)
    requires
        worked(z, now),
    ensures
        ({
            let s = z[0];
            let t = z[11];
            &&& only_works(s, t)
            &&& t.timers.instance_sweep == timer_after(
                s.timers.instance_sweep,
                pace(s, now),
                true,
                now,
            )
            &&& t.timers.tray_kill == timer_after(
                s.timers.tray_kill,
                TRAY_KILL_EVERY,
                kills_tray(s),
                now,
            )
            &&& t.timers.presence_poll == timer_after(
                s.timers.presence_poll,
                PRESENCE_EVERY,
                s.ui.visible_user_ids@.len() > 0,
                now,
            )
            &&& t.timers.avatar_refresh == timer_after(
                s.timers.avatar_refresh,
                AVATARS_EVERY,
                s.store.accounts@.len() > 0,
                now,
            )
            &&& t.timers.revalidation == timer_after(
                s.timers.revalidation,
                REVALIDATION_EVERY,
                s.store.accounts@.len() > 0,
                now,
            )
            &&& t.timers.launch == s.timers.launch
            &&& has_run_out(s.timers.instance_sweep, pace(s, now), now) ==> newly(
                s,
                t,
                Effect::Send(BackendCommand::SweepInstances),
            )
            &&& has_run_out(s.timers.tray_kill, TRAY_KILL_EVERY, now) && kills_tray(s) ==> newly(
                s,
                t,
                Effect::KillTray,
            )
            &&& has_run_out(s.timers.revalidation, REVALIDATION_EVERY, now)
                && s.store.accounts@.len() > 0 && s.session is Some ==> newly(
                s,
                t,
                Effect::RevalidateAll,
            )
        }),
{
    the_timers_go_on(z, now);
    many_steps_add_up(z, now, 0, 1);
    many_steps_add_up(z, now, 0, 2);
    many_steps_add_up(z, now, 0, 3);
    many_steps_add_up(z, now, 0, 4);
    many_steps_add_up(z, now, 0, 5);
    many_steps_add_up(z, now, 0, 11);
    many_steps_add_up(z, now, 2, 11);
    many_steps_add_up(z, now, 3, 11);
    many_steps_add_up(z, now, 6, 11);
    reveal(worked);
    if has_run_out(z[0].timers.instance_sweep, pace(z[0], now), now) {
        what_is_new_stays_new(
            z[0],
            z[1],
            z[2],
            z[11],
            Effect::Send(BackendCommand::SweepInstances),
        );
    }
    if has_run_out(z[0].timers.tray_kill, TRAY_KILL_EVERY, now) && kills_tray(z[0]) {
        what_is_new_stays_new(z[0], z[2], z[3], z[11], Effect::KillTray);
    }
    if has_run_out(z[0].timers.revalidation, REVALIDATION_EVERY, now) && z[0].store.accounts@.len()
        > 0 && z[0].session is Some {
        what_is_new_stays_new(z[0], z[5], z[6], z[11], Effect::RevalidateAll);
    }
}

// ---------------------------------------------------------------------------
// The start
// ---------------------------------------------------------------------------

/// Whether something is among the things to do.
pub open spec fn is_to_do(t: AppState, effect: Effect) -> bool {
    exists|k: int| 0 <= k < t.out@.len() && #[trigger] t.out@[k] == effect
}

/// A program that starts shows no account and holds no key. A store that is
/// there is locked, and opened at once where this device unlocks it; a newer
/// version is looked for, the presets are read, and the version is remembered.
pub proof fn a_start_unlocks_nothing_by_itself(t: AppState, start: Start, now: u64)
    requires
        started(t, start, now),
    ensures
        t.store.accounts@.len() == 0 && t.session is None,
        t.lock.needs_unlock <==> start.store_mode is Err || start.store_mode->Ok_0 is Some,
        is_to_do(
            t,
            Effect::Send(BackendCommand::UnlockWithDevice { path: start.config.accounts_path }),
        ) || !(start.store_mode is Ok && start.store_mode->Ok_0 == Some(StoreMode::Device)),
        is_to_do(
            t,
            Effect::Send(BackendCommand::CheckForUpdates { current_version: start.version }),
        ),
        is_to_do(t, Effect::LoadPresets),
        t.out@.last() == Effect::SaveConfig,
        t.config == (AppConfig {
            multi_instance_enabled: t.config.multi_instance_enabled,
            last_seen_version: Some(start.version),
            ..start.config
        }),
        t.config.multi_instance_enabled ==> start.config.multi_instance_enabled
            && start.multi_acquired && !start.still_running,
{
    let fresh = choose|fresh: AppState| #[trigger]
        is_fresh(fresh, start, now) && started_from(fresh, t, start, now);
    let (asked, settled) = choose|asked: AppState, settled: AppState|
        {
            &&& super::becomes(
                asked,
                fresh,
                super::startup::first_out(fresh, start.version),
                fresh.toasts@,
            )
            &&& #[trigger] super::staging::index_recovered(asked, settled, start.expired@, now)
            &&& super::becomes(
                t,
                AppState {
                    ui: super::UiState {
                        show_changelog: super::startup::upgraded(fresh.config, start.version@),
                        ..settled.ui
                    },
                    config: AppConfig {
                        last_seen_version: Some(start.version),
                        ..settled.config
                    },
                    ..settled
                },
                (if super::startup::first_start(fresh) {
                    settled.out@.push(Effect::StartTutorial)
                } else {
                    settled.out@
                }).push(Effect::SaveConfig),
                settled.toasts@,
            )
        };
    let first = super::startup::first_out(fresh, start.version);
    let ups = super::panels::looking_up(fresh, fresh.config.private_servers@.len());
    let n = if fresh.lock.unlocking {
        1int
    } else {
        0int
    };
    assert(first[n] == Effect::Send(
        BackendCommand::CheckForUpdates { current_version: start.version },
    ));
    assert(first[first.len() - 1] == Effect::LoadPresets);
    assert(goes_on(first, settled.out@));
    assert(goes_on(settled.out@, t.out@));
    assert(t.out@[n] == first[n]);
    assert(t.out@[first.len() - 1] == first[first.len() - 1]);
    if fresh.lock.unlocking {
        assert(t.out@[0] == first[0]);
    }
}

// ---------------------------------------------------------------------------
// Starting over
// ---------------------------------------------------------------------------

/// Nothing is forgotten of a store while a file of it is still there; once it is
/// gone, no account, key, password or picture of it is left.
pub proof fn a_wiped_store_leaves_nothing(s: AppState, t: AppState, wiped: Wiped, now: u64)
    requires
        started_over(s, t, wiped, now),
    ensures
        wiped.undeleted@.len() > 0 ==> t.store == s.store && t.session == s.session && t.lock
            == s.lock && t.pictures == s.pictures,
        wiped.undeleted@.len() == 0 ==> {
            &&& t.store.accounts@.len() == 0
            &&& t.session is None && !t.lock.needs_unlock
            &&& t.lock.password_input@.len() == 0 && t.lock.password_used@.len() == 0
            &&& forall|id: u64| !(#[trigger] t.ui.selected@.contains(id))
            &&& forall|id: u64|
                !(#[trigger] t.pictures.avatars@.contains_key(id))
                    && !t.pictures.blurred@.contains_key(id)
        },
{
}

// ---------------------------------------------------------------------------
// Settings
// ---------------------------------------------------------------------------

/// A control sets what it is about to what it was set to, and no other setting.
/// A delay stays within its bounds, and a blank path counts as none. Allowing
/// several clients is asked for and not set.
pub proof fn a_control_sets_its_own_setting(config: AppConfig, event: SettingsEvent)
    ensures
        ({
            let new = with_setting(config, event);
            match event {
                SettingsEvent::CredentialManager(b) => new == (AppConfig {
                    use_credential_manager: b,
                    ..config
                }),
                SettingsEvent::KillBackground(b) => new == (AppConfig {
                    kill_background_roblox: b,
                    ..config
                }),
                SettingsEvent::AutoArrange(b) => new == (AppConfig {
                    auto_arrange_windows: b,
                    ..config
                }),
                SettingsEvent::RenameWindows(b) => new == (AppConfig {
                    rename_roblox_windows: b,
                    ..config
                }),
                SettingsEvent::PrivacyMode(b) => new == (AppConfig { privacy_mode: b, ..config }),
                SettingsEvent::AnonymizeNames(b) => new == (AppConfig {
                    anonymize_names: b,
                    ..config
                }),
                SettingsEvent::DeveloperOptions(b) => new == (AppConfig {
                    developer_options: b,
                    ..config
                }),
                SettingsEvent::LaunchDelay(secs) => {
                    &&& new == (AppConfig { launch_delay_secs: new.launch_delay_secs, ..config })
                    &&& 0 <= secs <= crate::settings::MAX_LAUNCH_DELAY ==> new.launch_delay_secs
                        == secs
                    &&& secs < 0 ==> new.launch_delay_secs == 0
                    &&& new.launch_delay_secs <= crate::settings::MAX_LAUNCH_DELAY
                },
                SettingsEvent::PlayerPath(path) => {
                    &&& new == (AppConfig { roblox_player_path: new.roblox_player_path, ..config })
                    &&& trimmed(path@).len() > 0 ==> new.roblox_player_path == Some(path)
                    &&& trimmed(path@).len() == 0 ==> new.roblox_player_path is None
                },
                _ => new == config,
            }
        }),
{
}

/// A new password is asked for exactly where it was typed twice and the store is
/// open, and it is the one that was typed; the password is dropped only where
/// there is one. What was typed is forgotten.
pub proof fn a_password_is_set_as_typed(s: AppState, t: AppState, event: SettingsEvent, now: u64)
    requires
        setting_applied(s, t, event, now),
    ensures
        event is SubmitPassword && s.settings.new_password_input@.len() > 0
            && s.settings.new_password_input@ == s.settings.confirm_password_input@ ==> {
            &&& t.settings.new_password_input@.len() == 0
            &&& t.settings.confirm_password_input@.len() == 0
            &&& s.session is Some ==> t.out@ == s.out@.push(
                Effect::Rekey {
                    new_password: Some(s.settings.new_password_input),
                    upgrade_legacy: false,
                },
            )
            &&& s.session is None ==> t.out@ == s.out@
        },
        event is SubmitPassword && s.settings.new_password_input@
            != s.settings.confirm_password_input@ ==> t.out@ == s.out@ && t.settings == s.settings,
        event is ClearPassword && (s.session matches Some(key) && key.needs_password) ==> t.out@
            == s.out@.push(Effect::Rekey { new_password: None, upgrade_legacy: false }),
        event is ClearPassword && !(s.session matches Some(key) && key.needs_password) ==> t.out@
            == s.out@,
        event is Save ==> t.out@ == s.out@.push(Effect::SaveSettings),
        t.store == s.store && t.session == s.session,
{
    let mid = choose|mid: AppState|
        #[trigger] control_moved(s, mid, event) && match crate::settings::asked(
            s.config,
            super::session::has_password(s),
            s.settings,
            event,
        ) {
            Some(action) => setting_done(mid, t, action, now),
            None => t == mid,
        };
    assert(mid.out == s.out);
}

// ---------------------------------------------------------------------------
// What is said and shown
// ---------------------------------------------------------------------------

/// Whether a message was shown.
pub open spec fn is_told(
    s: AppState,
    t: AppState,
    message: Seq<char>,
    level: ToastLevel,
    now: u64,
) -> bool {
    t.toasts@ == s.toasts@.said(message, level, now)
}

/// The user is told what came of what they asked for: an error as it was
/// reported, unless a batch counts it, and also in the dialog that waited for
/// it; how many clients were started, failed to start and were killed, by their
/// numbers.
pub proof fn the_user_is_told(s: AppState, t: AppState, event: BackendEvent, clock: Clock)
    requires
        event_applied(s, t, event, clock),
    ensures
        event matches BackendEvent::Error(message) ==> !s.dialog.bulk_running ==> {
            &&& is_told(s, t, message@, ToastLevel::Error, clock.now)
            &&& s.dialog.loading ==> t.dialog.last_error == Some(message) && !t.dialog.loading
            &&& !t.lock.unlocking
            &&& t.out@ == s.out@
        },
        event is Error && s.dialog.bulk_running && s.dialog.bulk_failed < usize::MAX ==> t.dialog.bulk_failed == s.dialog.bulk_failed
            + 1 && t.dialog.bulk_succeeded == s.dialog.bulk_succeeded,
        event is GameLaunched ==> is_told(
            s,
            t,
            "Game launched"@,
            ToastLevel::Success,
            clock.now,
        ) && t.clients.last_launch_request == Some(clock.now),
        event matches BackendEvent::Killed(count) ==> is_told(
            s,
            t,
            "Killed "@ + decimal(count as nat) + " instance(s)"@,
            ToastLevel::Info,
            clock.now,
        ),
        event matches BackendEvent::BulkLaunchProgress { launched, total } ==> is_told(
            s,
            t,
            "Launching "@ + decimal(launched as nat) + "/"@ + decimal(total as nat) + "..."@,
            ToastLevel::Info,
            clock.now,
        ) && t.clients.last_launch_request == Some(clock.now),
        event matches BackendEvent::BulkLaunchComplete { launched, failed } ==> failed == 0
            ==> is_told(
            s,
            t,
            "Bulk launch complete: "@ + decimal(launched as nat) + " launched"@,
            ToastLevel::Success,
            clock.now,
        ),
        event matches BackendEvent::BulkLaunchComplete { launched, failed } ==> failed > 0
            ==> is_told(
            s,
            t,
            "Bulk launch done: "@ + decimal(launched as nat) + " launched, "@ + decimal(
                failed as nat,
            ) + " failed"@,
            ToastLevel::Error,
            clock.now,
        ),
        (event is GameLaunched || event is BulkLaunchComplete) && s.config.auto_arrange_windows
            ==> t.out@ == s.out@.push(Effect::Send(BackendCommand::ArrangeWindows)),
        (event is GameLaunched || event is BulkLaunchComplete) && !s.config.auto_arrange_windows
            ==> t.out@ == s.out@,
        event matches BackendEvent::ShareLinkFailed(message) ==> is_told(
            s,
            t,
            "Failed to resolve share link: "@ + message@,
            ToastLevel::Error,
            clock.now,
        ),
        event matches BackendEvent::AssetPermissionsFailed { universe_id, message } ==> is_told(
            s,
            t,
            "Could not grant access to universe "@ + decimal(universe_id as nat) + ": "@
                + message@,
            ToastLevel::Error,
            clock.now,
        ),
        event is DeviceKeyMissing ==> t.lock.device_key_missing && !t.lock.unlocking
            && t.lock.needs_unlock == s.lock.needs_unlock,
{
}

/// A rejected cookie is kept in the dialog with what is known of why, and no
/// account is added; in a batch it counts as failed.
pub proof fn a_rejected_cookie_is_kept(
    s: AppState,
    t: AppState,
    cookie: String,
    moderation_message: Option<String>,
    clock: Clock,
)
    requires
        event_applied(
            s,
            t,
            BackendEvent::AddAccountAuthFailed { cookie, moderation_message },
            clock,
        ),
    ensures
        t.store == s.store,
        !s.dialog.bulk_running ==> {
            &&& t.dialog.rejected_cookie == Some(cookie)
            &&& !t.dialog.loading
            &&& t.dialog.last_error is Some
            &&& moderation_message matches Some(why) ==> t.dialog.last_error->Some_0@
                == "Cookie was rejected by Roblox.\n\nLikely reason: "@ + why@
            &&& t.out == s.out
        },
        s.dialog.bulk_running && s.dialog.bulk_failed < usize::MAX ==> t.dialog.bulk_failed
            == s.dialog.bulk_failed + 1 && t.dialog.bulk_succeeded == s.dialog.bulk_succeeded,
{
}

/// Each client's window is titled after the account that the client belongs to,
/// where the settings want it; titles of windows that are gone are forgotten, and
/// those of the others kept.
pub proof fn windows_are_titled_after_their_accounts(s: AppState, t: AppState)
    requires
        retitled(s, t),
    ensures
        !s.config.rename_roblox_windows ==> t == s,
        s.config.rename_roblox_windows && s.clients.matched@.len() > 0 ==> {
            &&& t.out@.len() == s.out@.len() + 1
            &&& t.out@.drop_last() == s.out@
            &&& t.out@.last() matches Effect::ApplyTitles(titles) && titles@.len()
                == s.clients.matched@.len() && forall|i: int|
                0 <= i < titles@.len() ==> (#[trigger] titles@[i]).0 == s.clients.matched@[i].pid
                    && titles@[i].1@ == display_name(
                    s.store.accounts@,
                    s.clients.matched@[i].user_id,
                    s.config.anonymize_names,
                )
        },
        s.config.rename_roblox_windows ==> forall|title: (u32, String)| #[trigger]
            t.clients.original_titles@.contains(title) <==> s.clients.original_titles@.contains(
                title,
            ) && (exists|i: int|
                0 <= i < s.clients.matched@.len() && (#[trigger] s.clients.matched@[i]).pid
                    == title.0),
        t.store == s.store && t.toasts == s.toasts && t.clients.matched == s.clients.matched,
{
    if s.config.rename_roblox_windows {
        let all = s.clients.original_titles@;
        let p = super::clients::of_live_client(s.clients.matched@);
        let kept = all.filter(p);
        assert forall|title: (u32, String)| #[trigger] kept.contains(title) <==> all.contains(title)
            && (exists|i: int|
            0 <= i < s.clients.matched@.len() && (#[trigger] s.clients.matched@[i]).pid
                == title.0) by {
            if kept.contains(title) {
                let m = choose|m: int| 0 <= m < kept.len() && kept[m] == title;
                all.lemma_filter_pred(p, m);
                all.lemma_filter_contains_rev(p, title);
            }
            if all.contains(title) && p(title) {
                let m = choose|m: int| 0 <= m < all.len() && all[m] == title;
                all.lemma_filter_contains(p, m);
            }
        }
    }
}

} // verus!
