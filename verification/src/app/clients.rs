//! Running clients: naming their windows, bringing them forward, closing them,
//! and launching more.

use vstd::prelude::*;

use super::{becomes, launch_options, AppState, Clients, Effect, Timers};
use crate::bridge::{BackendCommand, Credentials, Destination};
use crate::labels::{account_display_label, display_name, instance_window_titles, titles_name};
use crate::lists::{
    filter_ends, filter_grows, first_where, first_where_facts, first_where_is, first_where_none,
};
use crate::models::{
    copy_of, position_of, position_in, Account, Attribution, StoreSession, TrackedInstance, IN_GAME,
};
use crate::text::{decimal, decimal_of, join2, join3};
use crate::toast::{elapsed, ToastLevel};

verus! {

// ---------------------------------------------------------------------------
// Window titles
// ---------------------------------------------------------------------------

/// The titles of windows that belong to one of these clients.
pub open spec fn of_live_client(clients: Seq<TrackedInstance>) -> spec_fn((u32, String)) -> bool {
    |title: (u32, String)|
        exists|i: int| 0 <= i < clients.len() && (#[trigger] clients[i]).pid == title.0
}

/// The titles of this window.
pub open spec fn of_window(pid: u32) -> spec_fn((u32, String)) -> bool {
    |title: (u32, String)| title.0 == pid
}

/// The titles with the one of a window replaced, or added at the end.
pub open spec fn with_title(titles: Seq<(u32, String)>, title: (u32, String)) -> Seq<(u32, String)> {
    match first_where(titles, of_window(title.0)) {
        Some(i) => titles.update(i, title),
        None => titles.push(title),
    }
}

/// The titles with each of `more` replaced or added, in order.
pub open spec fn with_titles(
    titles: Seq<(u32, String)>,
    more: Seq<(u32, String)>,
) -> Seq<(u32, String)>
    decreases more.len(),
{
    if more.len() == 0 {
        titles
    } else {
        with_title(with_titles(titles, more.drop_last()), more.last())
    }
}

/// Whether no window occurs twice.
pub open spec fn windows_unique(titles: Seq<(u32, String)>) -> bool {
    forall|i: int, j: int|
        0 <= i < j < titles.len() ==> (#[trigger] titles[i]).0 != (#[trigger] titles[j]).0
}

/// Whether an effect titles each of these clients after its account.
pub open spec fn titles_clients(effect: Effect, s: AppState) -> bool {
    effect matches Effect::ApplyTitles(titles) && titles_name(
        titles@,
        s.clients.matched@,
        s.store.accounts@,
        s.config.anonymize_names,
    )
}

/// Whether `t` is the state after windows were to be titled. Titles of windows
/// that are gone are forgotten, so that none is given back to a number that
/// means another client by then.
pub open spec fn retitled(s: AppState, t: AppState) -> bool {
    if !s.config.rename_roblox_windows {
        t == s
    } else {
        &&& t.clients.original_titles@ == s.clients.original_titles@.filter(
            of_live_client(s.clients.matched@),
        )
        &&& t == (AppState {
            out: t.out,
            clients: Clients { original_titles: t.clients.original_titles, ..s.clients },
            ..s
        })
        &&& if s.clients.matched@.len() == 0 {
            t.out@ == s.out@
        } else {
            t.out@.len() == s.out@.len() + 1 && t.out@.drop_last() == s.out@ && titles_clients(
                t.out@.last(),
                s,
            )
        }
    }
}

impl AppState {
    /// Whether one of the clients owns this window.
    fn is_live(&self, pid: u32) -> (b: bool)
        ensures
            b == (exists|i: int|
                0 <= i < self.clients.matched@.len() && (#[trigger] self.clients.matched@[i]).pid
                    == pid),
    {
        let mut i: usize = 0;
        while i < self.clients.matched.len()
            invariant
                0 <= i <= self.clients.matched@.len(),
                forall|j: int| 0 <= j < i ==> (#[trigger] self.clients.matched@[j]).pid != pid,
            decreases self.clients.matched@.len() - i,
        {
            if self.clients.matched[i].pid == pid {
                return true;
            }
            i += 1;
        }
        false
    }

    /// Names each client's window after its account, where that is wanted.
    /// Called after every sweep, because Roblox titles its windows itself as
    /// it loads.
    pub fn retitle_roblox_windows(&mut self)
        requires
            old(self).inv(),
        ensures
            final(self).inv(),
            retitled(*old(self), *final(self)),
    {
        if !self.config.rename_roblox_windows {
            return;
        }
        let ghost all = self.clients.original_titles@;
        let ghost p = of_live_client(self.clients.matched@);
        let mut kept: Vec<(u32, String)> = Vec::new();
        let mut i: usize = 0;
        proof {
            filter_ends(all, p);
            assert(kept@ =~= all.take(0).filter(p));
        }
        while i < self.clients.original_titles.len()
            invariant
                0 <= i <= self.clients.original_titles@.len(),
                *self == *old(self),
                all == self.clients.original_titles@,
                p == of_live_client(self.clients.matched@),
                kept@ == all.take(i as int).filter(p),
            decreases self.clients.original_titles@.len() - i,
        {
            proof {
                filter_grows(all, p, i as int);
            }
            if self.is_live(self.clients.original_titles[i].0) {
                let title: (u32, String) = (
                    self.clients.original_titles[i].0,
                    self.clients.original_titles[i].1.clone(),
                );
                kept.push(title);
            }
            i += 1;
        }
        proof {
            filter_ends(all, p);
        }
        self.clients.original_titles = kept;
        if self.clients.matched.len() > 0 {
            let titles: Vec<(u32, String)> = instance_window_titles(
                &self.clients.matched,
                &self.store.accounts,
                self.config.anonymize_names,
            );
            self.out.push(Effect::ApplyTitles(titles));
            assert(self.out@.drop_last() =~= old(self).out@);
        }
    }

    /// Windows were titled. What they were called is what Roblox last wanted,
    /// and is kept for when they are given back.
    pub fn titles_displaced(&mut self, displaced: Vec<(u32, String)>)
        requires
            old(self).inv(),
        ensures
            final(self).inv(),
            final(self).clients.original_titles@ == with_titles(
                old(self).clients.original_titles@,
                displaced@,
            ),
            *final(self) == (AppState {
                clients: Clients {
                    original_titles: final(self).clients.original_titles,
                    ..old(self).clients
                },
                ..*old(self)
            }),
    {
        let mut k: usize = 0;
        assert(displaced@.take(0) =~= Seq::<(u32, String)>::empty());
        while k < displaced.len()
            invariant
                0 <= k <= displaced@.len(),
                self.inv(),
                self.clients.original_titles@ == with_titles(
                    old(self).clients.original_titles@,
                    displaced@.take(k as int),
                ),
                *self == (AppState {
                    clients: Clients {
                        original_titles: self.clients.original_titles,
                        ..old(self).clients
                    },
                    ..*old(self)
                }),
            decreases displaced@.len() - k,
        {
            let title: (u32, String) = (displaced[k].0, displaced[k].1.clone());
            assert(displaced@.take(k + 1).drop_last() =~= displaced@.take(k as int));
            assert(displaced@.take(k + 1).last() == title);
            put_title(&mut self.clients.original_titles, title);
            k += 1;
        }
        assert(displaced@.take(k as int) =~= displaced@);
    }

    /// Gives every renamed window the title back that Roblox had set.
    pub fn restore_roblox_window_titles(&mut self)
        requires
            old(self).inv(),
        ensures
            final(self).inv(),
            final(self).clients.original_titles@.len() == 0,
            final(self).out@ == old(self).out@ + restoring(*old(self)),
            *final(self) == (AppState {
                out: final(self).out,
                clients: Clients {
                    original_titles: final(self).clients.original_titles,
                    ..old(self).clients
                },
                ..*old(self)
            }),
    {
        if self.clients.original_titles.len() > 0 {
            let mut titles: Vec<(u32, String)> = Vec::new();
            std::mem::swap(&mut titles, &mut self.clients.original_titles);
            self.out.push(Effect::RestoreTitles(titles));
        }
        assert(self.out@ =~= old(self).out@ + restoring(*old(self)));
    }
}

/// What giving titles back adds to the things to do.
pub open spec fn restoring(s: AppState) -> Seq<Effect> {
    if s.clients.original_titles@.len() > 0 {
        seq![Effect::RestoreTitles(s.clients.original_titles)]
    } else {
        Seq::empty()
    }
}

/// Replaces the title of a window, or adds it.
fn put_title(titles: &mut Vec<(u32, String)>, title: (u32, String))
    ensures
        final(titles)@ == with_title(old(titles)@, title),
{
    let ghost p = of_window(title.0);
    let mut i: usize = 0;
    while i < titles.len()
        invariant
            0 <= i <= titles@.len(),
            titles@ == old(titles)@,
            p == of_window(title.0),
            forall|j: int| 0 <= j < i ==> !p(#[trigger] titles@[j]),
        decreases titles@.len() - i,
    {
        if titles[i].0 == title.0 {
            proof {
                first_where_is(titles@, p, i as int);
            }
            titles[i] = title;
            return;
        }
        i += 1;
    }
    proof {
        first_where_none(titles@, p);
    }
    titles.push(title);
}

/// No window is remembered under two titles.
pub proof fn a_window_has_one_title(titles: Seq<(u32, String)>, more: Seq<(u32, String)>)
    requires
        windows_unique(titles),
    ensures
        windows_unique(with_titles(titles, more)),
    decreases more.len(),
{
    if more.len() > 0 {
        a_window_has_one_title(titles, more.drop_last());
        let before = with_titles(titles, more.drop_last());
        first_where_facts(before, of_window(more.last().0));
        let after = with_title(before, more.last());
        assert forall|i: int, j: int| 0 <= i < j < after.len() implies (#[trigger] after[i]).0 != (
        #[trigger] after[j]).0 by {
            if i < before.len() && j < before.len() {
                assert(before[i].0 != before[j].0);
                assert(after[i].0 == before[i].0 && after[j].0 == before[j].0);
            } else {
                assert(after[i] == before[i]);
            }
        }
    }
}

/// The title that was displaced last is the one that is given back.
pub proof fn the_last_title_is_kept(titles: Seq<(u32, String)>, title: (u32, String))
    ensures
        exists|i: int|
            0 <= i < with_title(titles, title).len() && #[trigger] with_title(titles, title)[i]
                == title,
{
    first_where_facts(titles, of_window(title.0));
    match first_where(titles, of_window(title.0)) {
        Some(i) => {
            assert(with_title(titles, title)[i] == title);
        },
        None => {
            assert(with_title(titles, title)[titles.len() as int] == title);
        },
    }
}

// ---------------------------------------------------------------------------
// One client
// ---------------------------------------------------------------------------

/// The client with this process number.
pub open spec fn with_pid(pid: u32) -> spec_fn(TrackedInstance) -> bool {
    |i: TrackedInstance| i.pid == pid
}

/// The clients with another process number.
pub open spec fn but_pid(pid: u32) -> spec_fn(TrackedInstance) -> bool {
    |i: TrackedInstance| i.pid != pid
}

/// What asking to close a client leads to. A client whose command line could
/// not be read is never closed: it could be another account's.
pub open spec fn kill_asked(s: AppState, t: AppState, pid: u32, now: u64) -> bool {
    match first_where(s.clients.matched@, with_pid(pid)) {
        None => becomes(
            t,
            s,
            s.out@,
            s.toasts@.said(
                "That client is no longer being tracked. Nothing was killed."@,
                ToastLevel::Error,
                now,
            ),
        ),
        Some(i) => {
            let client = s.clients.matched@[i];
            if client.attribution == Attribution::Exact {
                becomes(
                    t,
                    s,
                    s.out@.push(
                        Effect::KillInstance {
                            pid,
                            user_id: client.user_id,
                            launchtime: client.launchtime,
                        },
                    ),
                    s.toasts@,
                )
            } else {
                becomes(
                    t,
                    s,
                    s.out@,
                    s.toasts@.said(
                        "RM could not read that client's command line, so it cannot confirm which account it belongs to. Use Kill All instead."@,
                        ToastLevel::Error,
                        now,
                    ),
                )
            }
        },
    }
}

/// What closing a client came to.
pub open spec fn kill_done(
    s: AppState,
    t: AppState,
    pid: u32,
    user_id: u64,
    result: Result<(), String>,
    now: u64,
) -> bool {
    match result {
        Ok(()) => t.clients.matched@ == s.clients.matched@.filter(but_pid(pid)) && becomes(
            t,
            AppState { clients: Clients { matched: t.clients.matched, ..s.clients }, ..s },
            s.out@,
            s.toasts@.said(
                "Closed "@ + display_name(s.store.accounts@, user_id, s.config.anonymize_names)
                    + "'s client"@,
                ToastLevel::Info,
                now,
            ),
        ),
        Err(e) => becomes(t, s, s.out@, s.toasts@.said(e@, ToastLevel::Error, now)),
    }
}

impl AppState {
    /// A client was to be brought to the front.
    pub fn instance_focused(&mut self, pid: u32, focused: bool, now: u64)
        requires
            old(self).inv(),
        ensures
            final(self).inv(),
            becomes(
                *final(self),
                *old(self),
                old(self).out@,
                if focused {
                    old(self).toasts@
                } else {
                    old(self).toasts@.said(
                        "Could not bring PID "@ + decimal(pid as nat)
                            + " to the front. Windows refused, or the client has no window yet."@,
                        ToastLevel::Error,
                        now,
                    )
                },
            ),
    {
        if !focused {
            let text: String = join3(
                "Could not bring PID ",
                &decimal_of(pid as u64),
                " to the front. Windows refused, or the client has no window yet.",
            );
            self.say(&text, ToastLevel::Error, now);
        }
    }

    /// Asks to close one client.
    pub fn kill_instance(&mut self, pid: u32, now: u64)
        requires
            old(self).inv(),
        ensures
            final(self).inv(),
            kill_asked(*old(self), *final(self), pid, now),
    {
        let ghost p = with_pid(pid);
        let mut i: usize = 0;
        while i < self.clients.matched.len()
            invariant
                0 <= i <= self.clients.matched@.len(),
                *self == *old(self),
                self.inv(),
                p == with_pid(pid),
                forall|j: int| 0 <= j < i ==> !p(#[trigger] self.clients.matched@[j]),
            decreases self.clients.matched@.len() - i,
        {
            let client: TrackedInstance = self.clients.matched[i];
            if client.pid == pid {
                proof {
                    first_where_is(self.clients.matched@, p, i as int);
                }
                match client.attribution {
                    Attribution::Exact => {
                        self.out.push(
                            Effect::KillInstance {
                                pid,
                                user_id: client.user_id,
                                launchtime: client.launchtime,
                            },
                        );
                    },
                    Attribution::Inferred => {
                        self.say(
                            "RM could not read that client's command line, so it cannot confirm which account it belongs to. Use Kill All instead.",
                            ToastLevel::Error,
                            now,
                        );
                    },
                }
                return;
            }
            i += 1;
        }
        proof {
            first_where_none(self.clients.matched@, p);
        }
        self.say(
            "That client is no longer being tracked. Nothing was killed.",
            ToastLevel::Error,
            now,
        );
    }

    /// A client was to be closed. It leaves the list at once, so that it is
    /// not offered again before the next sweep.
    pub fn instance_killed(&mut self, pid: u32, user_id: u64, result: Result<(), String>, now: u64)
        requires
            old(self).inv(),
        ensures
            final(self).inv(),
            kill_done(*old(self), *final(self), pid, user_id, result, now),
    {
        match result {
            Ok(()) => {
                let who: String = account_display_label(
                    &self.store.accounts,
                    user_id,
                    self.config.anonymize_names,
                );
                let text: String = join3("Closed ", &who, "'s client");
                let ghost all = self.clients.matched@;
                let ghost p = but_pid(pid);
                let mut kept: Vec<TrackedInstance> = Vec::new();
                let mut i: usize = 0;
                proof {
                    filter_ends(all, p);
                    assert(kept@ =~= all.take(0).filter(p));
                }
                while i < self.clients.matched.len()
                    invariant
                        0 <= i <= self.clients.matched@.len(),
                        all == self.clients.matched@,
                        p == but_pid(pid),
                        kept@ == all.take(i as int).filter(p),
                    decreases self.clients.matched@.len() - i,
                {
                    proof {
                        filter_grows(all, p, i as int);
                    }
                    if self.clients.matched[i].pid != pid {
                        kept.push(self.clients.matched[i]);
                    }
                    i += 1;
                }
                proof {
                    filter_ends(all, p);
                }
                self.clients.matched = kept;
                self.say(&text, ToastLevel::Info, now);
            },
            Err(e) => {
                self.say(&e, ToastLevel::Error, now);
            },
        }
    }
}

/// A client that was only guessed to be an account's is never closed.
pub proof fn a_guess_is_never_killed(s: AppState, t: AppState, pid: u32, now: u64)
    requires
        kill_asked(s, t, pid, now),
        t.out@ != s.out@,
    ensures
        exists|i: int|
            0 <= i < s.clients.matched@.len() && (#[trigger] s.clients.matched@[i]).pid == pid
                && s.clients.matched@[i].attribution == Attribution::Exact,
{
    first_where_facts(s.clients.matched@, with_pid(pid));
    let i = first_where(s.clients.matched@, with_pid(pid))->Some_0;
    assert(s.clients.matched@[i].pid == pid);
}

// ---------------------------------------------------------------------------
// Launching
// ---------------------------------------------------------------------------

/// Whether a launch may go ahead: the one before is at least the set delay ago.
pub open spec fn slot_free(s: AppState, now: u64) -> bool {
    s.config.launch_delay_secs == 0 || match s.timers.launch {
        Some(last) => elapsed(last, now) >= s.config.launch_delay_secs * 1000,
        None => true,
    }
}

/// How many seconds are left to wait, and one more.
pub open spec fn wait_left(s: AppState, now: u64) -> nat {
    ((s.config.launch_delay_secs * 1000 - elapsed(s.timers.launch->Some_0, now)) / 1000 + 1) as nat
}

/// The state after a launch was let through.
pub open spec fn slot_taken(s: AppState, now: u64) -> AppState {
    AppState { timers: Timers { launch: Some(now), ..s.timers }, ..s }
}

/// What is said where a launch has to wait.
pub open spec fn wait_said(s: AppState, now: u64) -> crate::toast::ToastsView {
    s.toasts@.said(
        "Launch cooldown: wait "@ + decimal(wait_left(s, now)) + "s"@,
        ToastLevel::Info,
        now,
    )
}

impl AppState {
    /// Lets a launch through where the one before is long enough ago, and says
    /// how long to wait where it is not.
    pub fn try_consume_launch_slot(&mut self, now: u64) -> (free: bool)
        requires
            old(self).inv(),
        ensures
            final(self).inv(),
            free == slot_free(*old(self), now),
            free ==> *final(self) == slot_taken(*old(self), now),
            !free ==> becomes(
                *final(self),
                *old(self),
                old(self).out@,
                wait_said(*old(self), now),
            ),
    {
        let delay: u64 = self.config.launch_delay_secs as u64;
        if delay != 0 {
            match self.timers.launch {
                Some(last) => {
                    let gone: u64 = now.saturating_sub(last);
                    let needed: u64 = delay * 1000;
                    if gone < needed {
                        let left: u64 = (needed - gone) / 1000 + 1;
                        let text: String = join3(
                            "Launch cooldown: wait ",
                            &decimal_of(left),
                            "s",
                        );
                        self.say(&text, ToastLevel::Info, now);
                        return false;
                    }
                },
                None => {},
            }
        }
        self.timers.launch = Some(now);
        true
    }
}

/// Two launches in a row keep the set delay between them.
pub proof fn launches_keep_their_distance(s: AppState, first: u64, second: u64)
    requires
        first <= second,
        slot_free(slot_taken(s, first), second),
    ensures
        second - first >= s.config.launch_delay_secs * 1000,
{
}

/// A waiting time that is told is at least one second, and waiting that long is
/// enough.
pub proof fn the_told_wait_is_enough(s: AppState, now: u64, later: u64)
    requires
        !slot_free(s, now),
        s.timers.launch->Some_0 <= now,
        later >= now + wait_left(s, now) * 1000,
    ensures
        wait_left(s, now) >= 1,
        slot_free(s, later),
{
}

/// The launch of an account.
pub open spec fn launch_of(
    s: AppState,
    account: Account,
    destination: Destination,
) -> BackendCommand {
    BackendCommand::LaunchGame {
        credentials: super::credentials_of(s, account),
        destination,
        options: launch_options(s.config),
    }
}

/// What asking to join another account's server leads to.
pub open spec fn join_asked(s: AppState, t: AppState, user_id: u64, target_id: u64, now: u64) -> bool {
    let gone = "That account is no longer in the list."@;
    match position_in(s.store.accounts@, target_id) {
        None => becomes(t, s, s.out@, s.toasts@.said(gone, ToastLevel::Error, now)),
        Some(i) => {
            let presence = s.store.accounts@[i].last_presence;
            let name = display_name(s.store.accounts@, target_id, s.config.anonymize_names);
            if presence.user_presence_type != IN_GAME {
                becomes(
                    t,
                    s,
                    s.out@,
                    s.toasts@.said(
                        name + " is not in a game right now."@,
                        ToastLevel::Error,
                        now,
                    ),
                )
            } else if presence.place_id is None || presence.game_id is None {
                becomes(
                    t,
                    s,
                    s.out@,
                    s.toasts@.said(
                        "Roblox is not reporting which server "@ + name
                            + " is in, so RM cannot follow. Their join privacy setting may be hiding it."@,
                        ToastLevel::Error,
                        now,
                    ),
                )
            } else {
                match position_in(s.store.accounts@, user_id) {
                    None => becomes(t, s, s.out@, s.toasts@.said(gone, ToastLevel::Error, now)),
                    Some(k) => if s.session is None {
                        becomes(
                            t,
                            s,
                            s.out@,
                            s.toasts@.said(
                                "Unlock the store before launching."@,
                                ToastLevel::Error,
                                now,
                            ),
                        )
                    } else if !slot_free(s, now) {
                        becomes(t, s, s.out@, wait_said(s, now))
                    } else {
                        becomes(
                            t,
                            slot_taken(s, now),
                            s.out@.push(
                                Effect::Send(
                                    launch_of(
                                        s,
                                        s.store.accounts@[k],
                                        Destination {
                                            place_id: presence.place_id->Some_0,
                                            job_id: presence.game_id,
                                            link_code: None,
                                            access_code: None,
                                        },
                                    ),
                                ),
                            ),
                            s.toasts@.said(
                                "Joining "@ + name + "'s server"@,
                                ToastLevel::Info,
                                now,
                            ),
                        )
                    },
                }
            }
        },
    }
}

impl AppState {
    /// Launches an account into the server that another one is in. A store
    /// that is locked does not use up the launch slot.
    pub fn join_account_server(&mut self, user_id: u64, target_user_id: u64, now: u64)
        requires
            old(self).inv(),
        ensures
            final(self).inv(),
            join_asked(*old(self), *final(self), user_id, target_user_id, now),
    {
        let i: usize = match position_of(&self.store.accounts, target_user_id) {
            Some(i) => i,
            None => {
                self.say("That account is no longer in the list.", ToastLevel::Error, now);
                return;
            },
        };
        let name: String = account_display_label(
            &self.store.accounts,
            target_user_id,
            self.config.anonymize_names,
        );
        if self.store.accounts[i].last_presence.user_presence_type != IN_GAME {
            let text: String = join2(&name, " is not in a game right now.");
            self.say(&text, ToastLevel::Error, now);
            return;
        }
        let place: Option<u64> = self.store.accounts[i].last_presence.place_id;
        let job_id: Option<String> = copy_of(&self.store.accounts[i].last_presence.game_id);
        let place_id: u64 = match (place, &job_id) {
            (Some(p), Some(_)) => p,
            _ => {
                let text: String = join3(
                    "Roblox is not reporting which server ",
                    &name,
                    " is in, so RM cannot follow. Their join privacy setting may be hiding it.",
                );
                self.say(&text, ToastLevel::Error, now);
                return;
            },
        };
        let k: usize = match position_of(&self.store.accounts, user_id) {
            Some(k) => k,
            None => {
                self.say("That account is no longer in the list.", ToastLevel::Error, now);
                return;
            },
        };
        let session: StoreSession = match self.session {
            Some(s) => s,
            None => {
                self.say("Unlock the store before launching.", ToastLevel::Error, now);
                return;
            },
        };
        if !self.try_consume_launch_slot(now) {
            return;
        }
        let credentials: Credentials = super::credentials_for(
            &self.store.accounts[k],
            session,
            self.config.use_credential_manager,
        );
        self.out.push(
            Effect::Send(
                BackendCommand::LaunchGame {
                    credentials,
                    destination: Destination { place_id, job_id, link_code: None, access_code: None },
                    options: self.options(),
                },
            ),
        );
        let text: String = join3("Joining ", &name, "'s server");
        self.say(&text, ToastLevel::Info, now);
    }
}

// ---------------------------------------------------------------------------
// Browsing as an account
// ---------------------------------------------------------------------------

/// How a browser window of an account is labelled.
pub open spec fn browse_label(s: AppState, user_id: u64, username: Seq<char>) -> Seq<char> {
    if s.config.anonymize_names {
        "#"@ + decimal(user_id as nat)
    } else {
        username
    }
}

/// Whether an effect opens a browser under these credentials and label.
pub open spec fn browses(effect: Effect, credentials: Credentials, label: Seq<char>) -> bool {
    effect matches Effect::Send(BackendCommand::BrowseAsAccount { credentials: c, label: l }) && c
        == credentials && l@ == label
}

/// What asking to browse as an account leads to.
pub open spec fn browse_asked(s: AppState, t: AppState, user_id: u64, now: u64) -> bool {
    match position_in(s.store.accounts@, user_id) {
        None => t == s,
        Some(i) => {
            let account = s.store.accounts@[i];
            if s.session is None {
                t == s
            } else if !s.config.use_credential_manager && account.encrypted_cookie is None {
                becomes(
                    t,
                    s,
                    s.out@,
                    s.toasts@.said(
                        "No stored cookie for this account"@,
                        ToastLevel::Error,
                        now,
                    ),
                )
            } else {
                &&& t == (AppState { out: t.out, ..s })
                &&& t.out@.len() == s.out@.len() + 1
                &&& t.out@.drop_last() == s.out@
                &&& browses(
                    t.out@.last(),
                    super::credentials_of(s, account),
                    browse_label(s, user_id, account.username@),
                )
            }
        },
    }
}

impl AppState {
    /// Opens a browser that is logged in as the account.
    pub fn open_browser_as(&mut self, user_id: u64, now: u64)
        requires
            old(self).inv(),
        ensures
            final(self).inv(),
            browse_asked(*old(self), *final(self), user_id, now),
    {
        let session: StoreSession = match self.session {
            Some(s) => s,
            None => {
                return;
            },
        };
        let i: usize = match position_of(&self.store.accounts, user_id) {
            Some(i) => i,
            None => {
                return;
            },
        };
        if !self.config.use_credential_manager && self.store.accounts[i].encrypted_cookie.is_none() {
            self.say("No stored cookie for this account", ToastLevel::Error, now);
            return;
        }
        let label: String = if self.config.anonymize_names {
            join2("#", &decimal_of(user_id))
        } else {
            self.store.accounts[i].username.clone()
        };
        let credentials: Credentials = super::credentials_for(
            &self.store.accounts[i],
            session,
            self.config.use_credential_manager,
        );
        self.out.push(Effect::Send(BackendCommand::BrowseAsAccount { credentials, label }));
        assert(self.out@.drop_last() =~= old(self).out@);
    }
}

} // verus!
