//! What the window asks the backend for, in terms of what the user sees and
//! asked for.

use vstd::prelude::*;

use super::accounts::{launch_asked, quick_launched};
use super::clients::{browse_asked, join_asked, kill_asked, with_pid};
use super::dialog::{moderated_answered, reopened, ModeratedAnswer};
use super::panels::{link_followed, looking_up, server_launched, sole};
use super::session::{bulk_advanced, key_arrived, sent_or_waiting};
use super::{
    chosen, lends_cookie, refreshing, refreshing_presence, sends, AppState, Awaiting, Effect,
};
use crate::bridge::{BackendCommand, Credentials, Destination, LaunchOptions};
use crate::lists::first_where_facts;
use crate::models::{
    position_facts, Account, AppConfig, Attribution, StoreSession, IN_GAME,
};
use crate::text::{opt_text, parsed_u64, trimmed};

verus! {

// ---------------------------------------------------------------------------
// What is sent
// ---------------------------------------------------------------------------

/// Whether a launch follows the settings.
pub open spec fn follows_settings(options: LaunchOptions, config: AppConfig) -> bool {
    &&& options.multi_instance == config.multi_instance_enabled
    &&& options.kill_background == config.kill_background_roblox
    &&& options.privacy_mode == config.privacy_mode
}

/// Whether credentials are those of an account, under the open store.
pub open spec fn are_credentials_of(c: Credentials, account: Account, s: AppState) -> bool {
    &&& c.user_id == account.user_id
    &&& c.encrypted_cookie == account.encrypted_cookie
    &&& s.session == Some(c.session)
    &&& c.use_credential_manager == s.config.use_credential_manager
}

/// Whether a list names each account with its cookie, in the order of the store.
pub open spec fn names_each(pairs: Seq<(u64, Option<String>)>, accounts: Seq<Account>) -> bool {
    &&& pairs.len() == accounts.len()
    &&& forall|i: int|
        0 <= i < accounts.len() ==> #[trigger] pairs[i] == (
            accounts[i].user_id,
            accounts[i].encrypted_cookie,
        )
}

/// Whether an account that is selected has this identifier and this cookie.
pub open spec fn is_selected(s: AppState, pair: (u64, Option<String>)) -> bool {
    &&& s.ui.selected@.contains(pair.0)
    &&& exists|i: int|
        0 <= i < s.store.accounts@.len() && (#[trigger] s.store.accounts@[i]).user_id == pair.0
            && s.store.accounts@[i].encrypted_cookie == pair.1
}

proof fn the_selected_are_sent(s: AppState, accounts: Seq<(u64, Option<String>)>)
    requires
        accounts == super::pairs_of(s.store.accounts@.filter(chosen(s.ui.selected@))),
    ensures
        forall|pair: (u64, Option<String>)| #[trigger]
            accounts.contains(pair) <==> is_selected(s, pair),
{
    let all = s.store.accounts@;
    let p = chosen(s.ui.selected@);
    let kept = all.filter(p);
    assert forall|pair: (u64, Option<String>)| #[trigger] accounts.contains(pair) <==> is_selected(
        s,
        pair,
    ) by {
        if accounts.contains(pair) {
            let m = choose|m: int| 0 <= m < accounts.len() && accounts[m] == pair;
            all.lemma_filter_pred(p, m);
            all.lemma_filter_contains_rev(p, kept[m]);
            let i = choose|i: int| 0 <= i < all.len() && all[i] == kept[m];
            assert(all[i].user_id == pair.0);
        }
        if is_selected(s, pair) {
            let i = choose|i: int|
                0 <= i < all.len() && (#[trigger] all[i]).user_id == pair.0
                    && all[i].encrypted_cookie == pair.1;
            all.lemma_filter_contains(p, i);
            let m = choose|m: int| 0 <= m < kept.len() && kept[m] == all[i];
            assert(accounts[m] == pair);
        }
    }
}

/// What is sent for a thing to do holds what the window holds at that moment:
/// a store is saved with all its accounts and under its own key, a refresh is
/// for all accounts or for those in sight, every account is validated again with
/// its own cookie, and exactly the selected accounts are launched, each with its
/// own cookie and by the settings. Nothing is sent for the store while it is
/// locked.
pub proof fn a_command_holds_what_the_window_holds(
    s: AppState,
    effect: Effect,
    cmd: Option<BackendCommand>,
)
    requires
        sends(s, effect, cmd),
    ensures
        match effect {
            Effect::SaveStore => match s.session {
                Some(key) => cmd matches Some(BackendCommand::SaveStore { store, path, session })
                    && store.accounts@ == s.store.accounts@ && path == s.config.accounts_path
                    && session == key,
                None => cmd is None,
            },
            Effect::Rekey { new_password: wanted, upgrade_legacy: upgrade } => match s.session {
                Some(key) => cmd matches Some(
                    BackendCommand::RekeyStore {
                        store,
                        path,
                        session,
                        new_password,
                        upgrade_legacy,
                    },
                ) && store.accounts@ == s.store.accounts@ && path == s.config.accounts_path
                    && session == key && new_password == wanted && upgrade_legacy == upgrade,
                None => cmd is None,
            },
            Effect::RefreshAll(signer) => cmd matches Some(
                BackendCommand::RefreshAll { user_ids, credentials },
            ) && credentials == signer && user_ids@.len() == s.store.accounts@.len() && (
            forall|i: int|
                0 <= i < user_ids@.len() ==> #[trigger] user_ids@[i]
                    == s.store.accounts@[i].user_id),
            Effect::RefreshPresence(signer) => cmd matches Some(
                BackendCommand::RefreshPresenceOnly { user_ids, credentials },
            ) && credentials == signer && user_ids@ == s.ui.visible_user_ids@,
            Effect::RevalidateAll => match s.session {
                Some(key) => cmd matches Some(
                    BackendCommand::RevalidateAll { accounts, session, use_credential_manager },
                ) && names_each(accounts@, s.store.accounts@) && session == key
                    && use_credential_manager == s.config.use_credential_manager,
                None => cmd is None,
            },
            Effect::BulkLaunch(wanted) => match s.session {
                Some(key) => cmd matches Some(
                    BackendCommand::BulkLaunchEncrypted {
                        accounts,
                        session,
                        use_credential_manager,
                        destination,
                        options,
                        launch_delay_secs,
                    },
                ) && (forall|pair: (u64, Option<String>)| #[trigger]
                    accounts@.contains(pair) <==> is_selected(s, pair)) && session == key
                    && use_credential_manager == s.config.use_credential_manager && destination
                    == wanted && follows_settings(options, s.config) && launch_delay_secs
                    == s.config.launch_delay_secs,
                None => cmd is None,
            },
            Effect::Send(c) => cmd == Some(c),
            _ => cmd is None,
        },
{
    match (effect, cmd) {
        (Effect::BulkLaunch(_), Some(BackendCommand::BulkLaunchEncrypted { accounts, .. })) => {
            the_selected_are_sent(s, accounts@);
        },
        _ => {},
    }
}

/// A call that any account can make borrows the cookie of one whose cookie is
/// not known to be dead, and which has one. It is made whenever the store is
/// open and there is such an account, and it asks for presence only while
/// accounts are in sight.
pub proof fn shared_calls_borrow_a_living_cookie(s: AppState)
    ensures
        refreshing(s).len() <= 1,
        refreshing_presence(s).len() <= 1,
        refreshing(s).len() == 1 <==> s.session is Some && can_borrow(s),
        refreshing_presence(s).len() == 1 <==> s.session is Some && can_borrow(s)
            && s.ui.visible_user_ids@.len() > 0,
        refreshing(s).len() == 1 ==> (refreshing(s)[0] matches Effect::RefreshAll(c) && is_borrowed(
            s,
            c,
        )),
        refreshing_presence(s).len() == 1 ==> (
        refreshing_presence(s)[0] matches Effect::RefreshPresence(c) && is_borrowed(s, c)),
{
    let p = lends_cookie(s.config.use_credential_manager);
    first_where_facts(s.store.accounts@, p);
    match super::lender(s) {
        Some(i) => {
            assert(p(s.store.accounts@[i]));
        },
        None => {
            assert forall|i: int| 0 <= i < s.store.accounts@.len() implies !lends(
                s,
                #[trigger] s.store.accounts@[i],
            ) by {
                assert(!p(s.store.accounts@[i]));
            }
        },
    }
}

/// Whether an account has a cookie that is not known to be dead.
pub open spec fn lends(s: AppState, a: Account) -> bool {
    &&& !a.cookie_expired
    &&& a.encrypted_cookie is Some || s.config.use_credential_manager
}

/// Whether some account has a cookie that is not known to be dead.
pub open spec fn can_borrow(s: AppState) -> bool {
    exists|i: int| 0 <= i < s.store.accounts@.len() && lends(s, #[trigger] s.store.accounts@[i])
}

/// Whether credentials are those of an account whose cookie is not known to be
/// dead.
pub open spec fn is_borrowed(s: AppState, c: Credentials) -> bool {
    exists|i: int|
        0 <= i < s.store.accounts@.len() && lends(s, #[trigger] s.store.accounts@[i])
            && are_credentials_of(c, s.store.accounts@[i], s)
}

// ---------------------------------------------------------------------------
// Launches
// ---------------------------------------------------------------------------

/// Whether nothing but this was added to the things to do.
pub open spec fn adds_only(s: AppState, t: AppState, effect: Effect) -> bool {
    t.out@ == s.out@.push(effect)
}

/// Whether a thing to do launches an account of the store, by the settings, into
/// a destination.
pub open spec fn is_launch(
    effect: Effect,
    s: AppState,
    user_id: u64,
    place_id: u64,
    job_id: Option<Seq<char>>,
    link_code: Option<Seq<char>>,
    access_code: Option<Seq<char>>,
) -> bool {
    effect matches Effect::Send(BackendCommand::LaunchGame { credentials, destination, options })
        && (exists|i: int|
        0 <= i < s.store.accounts@.len() && (#[trigger] s.store.accounts@[i]).user_id == user_id
            && are_credentials_of(credentials, s.store.accounts@[i], s)) && destination.place_id
        == place_id && opt_text(destination.job_id) == job_id && opt_text(destination.link_code)
        == link_code && opt_text(destination.access_code) == access_code && follows_settings(
        options,
        s.config,
    )
}

/// Whether the last launch is at least the set delay ago.
pub open spec fn long_enough_ago(s: AppState, now: u64) -> bool {
    match s.timers.launch {
        Some(last) => s.config.launch_delay_secs == 0 || last + s.config.launch_delay_secs * 1000
            <= now,
        None => true,
    }
}

/// Whether an account of the store has an identifier.
pub open spec fn is_there(s: AppState, user_id: u64) -> bool {
    exists|i: int| 0 <= i < s.store.accounts@.len() && (#[trigger] s.store.accounts@[i]).user_id
        == user_id
}

/// An account is launched where it was asked to go, under its own credentials
/// and by the settings. It is launched whenever it is there, the store is open
/// and the last launch is long enough ago, and not otherwise; and only a launch
/// counts as the last one.
pub proof fn a_launch_is_the_accounts_own(
    s: AppState,
    t: AppState,
    user_id: u64,
    place_id: u64,
    job_id: Option<Seq<char>>,
    now: u64,
)
    requires
        launch_asked(s, t, user_id, place_id, job_id, now),
    ensures
        if is_there(s, user_id) && s.session is Some && long_enough_ago(s, now) {
            &&& t.out@.len() == s.out@.len() + 1
            &&& t.out@.drop_last() == s.out@
            &&& is_launch(t.out@.last(), s, user_id, place_id, job_id, None, None)
            &&& t.timers.launch == Some(now)
        } else {
            &&& t.out@ == s.out@
            &&& t.timers == s.timers
        },
        t.store == s.store && t.session == s.session && t.config == s.config && t.ui == s.ui,
{
    position_facts(s.store.accounts@, user_id);
}

/// A quick launch goes where the first preset says; where there is none, it goes
/// where the inputs say, and nowhere where they hold no place.
pub proof fn a_quick_launch_goes_where_the_window_says(
    s: AppState,
    t: AppState,
    user_id: u64,
    now: u64,
)
    requires
        quick_launched(s, t, user_id, now),
        is_there(s, user_id) && s.session is Some && long_enough_ago(s, now),
    ensures
        if s.ui.presets@.len() > 0 {
            let preset = s.ui.presets@[0].preset;
            &&& t.out@.drop_last() == s.out@ && t.out@.len() == s.out@.len() + 1
            &&& is_launch(
                t.out@.last(),
                s,
                user_id,
                preset.place_id,
                opt_text(preset.job_id),
                None,
                None,
            )
        } else {
            match parsed_u64(s.ui.place_id_input@) {
                Some(place_id) => {
                    let job = trimmed(s.ui.job_id_input@);
                    &&& t.out@.drop_last() == s.out@ && t.out@.len() == s.out@.len() + 1
                    &&& is_launch(
                        t.out@.last(),
                        s,
                        user_id,
                        place_id,
                        if job.len() > 0 {
                            Some(job)
                        } else {
                            None
                        },
                        None,
                        None,
                    )
                },
                None => t.out@ == s.out@ && t.timers == s.timers,
            }
        },
{
    position_facts(s.store.accounts@, user_id);
}

/// Joining goes to the very server that the other account is reported to be in,
/// as the account that joins, and only while the other is reported in a game
/// with a place and a server.
pub proof fn joining_follows_the_other_account(
    s: AppState,
    t: AppState,
    user_id: u64,
    target_id: u64,
    now: u64,
    i: int,
)
    requires
        join_asked(s, t, user_id, target_id, now),
        0 <= i < s.store.accounts@.len(),
        s.store.accounts@[i].user_id == target_id,
        forall|j: int| 0 <= j < i ==> (#[trigger] s.store.accounts@[j]).user_id != target_id,
    ensures
        ({
            let presence = s.store.accounts@[i].last_presence;
            if presence.user_presence_type == IN_GAME && presence.place_id is Some
                && presence.game_id is Some && is_there(s, user_id) && s.session is Some
                && long_enough_ago(s, now) {
                &&& t.out@.len() == s.out@.len() + 1
                &&& t.out@.drop_last() == s.out@
                &&& is_launch(
                    t.out@.last(),
                    s,
                    user_id,
                    presence.place_id->Some_0,
                    Some(presence.game_id->Some_0@),
                    None,
                    None,
                )
                &&& t.timers.launch == Some(now)
            } else {
                t.out@ == s.out@ && t.timers == s.timers
            }
        }),
        t.store == s.store && t.session == s.session && t.config == s.config && t.ui == s.ui,
{
    position_facts(s.store.accounts@, target_id);
    position_facts(s.store.accounts@, user_id);
}

/// A private server is entered with its own codes: by the one account that is
/// selected, under its own credentials, or by all that are selected.
pub proof fn a_private_server_is_entered_by_the_selected(
    s: AppState,
    t: AppState,
    destination: Destination,
    now: u64,
    user_id: u64,
)
    requires
        server_launched(s, t, destination, now),
        s.session is Some,
    ensures
        s.ui.selected@.len() > 1 ==> adds_only(s, t, Effect::BulkLaunch(destination)),
        s.ui.selected@.len() == 0 ==> t == s,
        s.ui.selected@ == set![user_id] && is_there(s, user_id) && long_enough_ago(s, now) ==> {
            &&& t.out@.len() == s.out@.len() + 1
            &&& t.out@.drop_last() == s.out@
            &&& is_launch(
                t.out@.last(),
                s,
                user_id,
                destination.place_id,
                opt_text(destination.job_id),
                opt_text(destination.link_code),
                opt_text(destination.access_code),
            )
            &&& t.timers.launch == Some(now)
        },
        s.ui.selected@ == set![user_id] && !long_enough_ago(s, now) ==> t.out@ == s.out@
            && t.timers == s.timers,
{
    if s.ui.selected@ == set![user_id] {
        assert(s.ui.selected@.contains(user_id));
        assert(sole(s.ui.selected@) == user_id);
        assert(set![user_id].len() == 1);
        position_facts(s.store.accounts@, user_id);
    }
}

/// A share link is looked up as it was given, with the credentials of an account
/// of the store.
pub proof fn a_share_link_is_looked_up_as_given(
    s: AppState,
    t: AppState,
    share_code: String,
    server_name: String,
    now: u64,
)
    requires
        link_followed(s, t, share_code, server_name, now),
    ensures
        if s.session is Some && s.store.accounts@.len() > 0 {
            &&& t.out@.len() == s.out@.len() + 1
            &&& t.out@.drop_last() == s.out@
            &&& t.out@.last() matches Effect::Send(
                BackendCommand::ResolveShareLink {
                    share_code: code,
                    server_name: name,
                    credentials,
                },
            ) && code == share_code && name == server_name && exists|i: int|
                0 <= i < s.store.accounts@.len() && are_credentials_of(
                    credentials,
                    #[trigger] s.store.accounts@[i],
                    s,
                )
        } else {
            t.out@ == s.out@
        },
{
    if s.session is Some && s.store.accounts@.len() > 0 {
        assert(are_credentials_of(
            super::credentials_of(s, s.store.accounts@[0]),
            s.store.accounts@[0],
            s,
        ));
    }
}

/// Whether a thing to do looks up a private server of the list, by its own place
/// and under its own index.
pub open spec fn looks_up(effect: Effect, s: AppState, i: int) -> bool {
    effect matches Effect::Send(BackendCommand::ResolvePlace { place_id, universe_id, index })
        && index == i && place_id == s.config.private_servers@[i].place_id && universe_id
        == s.config.private_servers@[i].universe_id
}

/// Whether a private server lacks its name or its picture.
pub open spec fn is_bare(s: AppState, i: int) -> bool {
    ||| s.config.private_servers@[i].place_name@.len() == 0
    ||| !s.pictures.game_icons@.contains_key(s.config.private_servers@[i].place_id)
}

/// Whether something in the list looks up a private server.
pub open spec fn has_lookup(effects: Seq<Effect>, s: AppState, i: int) -> bool {
    exists|m: int| 0 <= m < effects.len() && looks_up(#[trigger] effects[m], s, i)
}

/// Whether something looks up a private server that lacks its name or its
/// picture.
pub open spec fn looks_up_a_bare_one(effect: Effect, s: AppState, n: nat) -> bool {
    exists|i: int| 0 <= i < n && #[trigger] is_bare(s, i) && looks_up(effect, s, i)
}

/// Exactly the private servers that lack their name or their picture are looked
/// up, each by its own place.
pub proof fn bare_servers_are_looked_up(s: AppState, n: nat)
    requires
        n <= s.config.private_servers@.len(),
    ensures
        forall|i: int| 0 <= i < n && #[trigger] is_bare(s, i) ==> has_lookup(
            looking_up(s, n),
            s,
            i,
        ),
        forall|m: int|
            0 <= m < looking_up(s, n).len() ==> looks_up_a_bare_one(
                #[trigger] looking_up(s, n)[m],
                s,
                n,
            ),
    decreases n,
{
    if n > 0 {
        let k = (n - 1) as nat;
        bare_servers_are_looked_up(s, k);
        let rest = looking_up(s, k);
        let all = looking_up(s, n);
        assert(s.config.private_servers.len() == s.config.private_servers@.len());
        assert(k as usize == k);
        assert forall|i: int| 0 <= i < n && #[trigger] is_bare(s, i) implies has_lookup(
            all,
            s,
            i,
        ) by {
            if i < k {
                assert(has_lookup(rest, s, i));
                let m = choose|m: int| 0 <= m < rest.len() && looks_up(#[trigger] rest[m], s, i);
                assert(looks_up(all[m], s, i));
            } else {
                assert(looks_up(all[rest.len() as int], s, i));
            }
        }
        assert forall|m: int| 0 <= m < all.len() implies looks_up_a_bare_one(
            #[trigger] all[m],
            s,
            n,
        ) by {
            if m < rest.len() {
                assert(looks_up_a_bare_one(rest[m], s, k));
                let i = choose|i: int|
                    0 <= i < k && #[trigger] is_bare(s, i) && looks_up(rest[m], s, i);
                assert(is_bare(s, i));
            } else {
                assert(is_bare(s, k as int));
            }
        }
    }
}

// ---------------------------------------------------------------------------
// Browsing and clients
// ---------------------------------------------------------------------------

/// A browser is opened as the account that was asked for, under its own
/// credentials, whenever the store is open and the account has a cookie to
/// browse with.
pub proof fn browsing_is_as_the_account(s: AppState, t: AppState, user_id: u64, now: u64, i: int)
    requires
        browse_asked(s, t, user_id, now),
        0 <= i < s.store.accounts@.len(),
        s.store.accounts@[i].user_id == user_id,
        forall|j: int| 0 <= j < i ==> (#[trigger] s.store.accounts@[j]).user_id != user_id,
    ensures
        if s.session is Some && (s.config.use_credential_manager
            || s.store.accounts@[i].encrypted_cookie is Some) {
            &&& t.out@.len() == s.out@.len() + 1
            &&& t.out@.drop_last() == s.out@
            &&& t.out@.last() matches Effect::Send(
                BackendCommand::BrowseAsAccount { credentials, label },
            ) && are_credentials_of(credentials, s.store.accounts@[i], s) && (
            !s.config.anonymize_names ==> label@ == s.store.accounts@[i].username@)
        } else {
            t.out@ == s.out@
        },
        t.store == s.store && t.session == s.session && t.config == s.config,
{
    position_facts(s.store.accounts@, user_id);
}

/// A client is killed only where it is tracked under this process and its
/// account is known for certain; what is killed carries that account and the
/// token of its launch.
pub proof fn only_a_known_client_is_killed(s: AppState, t: AppState, pid: u32, now: u64)
    requires
        kill_asked(s, t, pid, now),
    ensures
        t.out@ == s.out@ || exists|i: int|
            {
                let c = #[trigger] s.clients.matched@[i];
                &&& 0 <= i < s.clients.matched@.len()
                &&& c.pid == pid
                &&& c.attribution == Attribution::Exact
                &&& adds_only(
                    s,
                    t,
                    Effect::KillInstance { pid, user_id: c.user_id, launchtime: c.launchtime },
                )
            },
        t.out@ == s.out@ ==> forall|i: int|
            0 <= i < s.clients.matched@.len() && (#[trigger] s.clients.matched@[i]).pid == pid && (
            forall|j: int| 0 <= j < i ==> (#[trigger] s.clients.matched@[j]).pid != pid)
                ==> s.clients.matched@[i].attribution != Attribution::Exact,
        t.clients == s.clients && t.store == s.store,
{
    let p = with_pid(pid);
    first_where_facts(s.clients.matched@, p);
    match crate::lists::first_where(s.clients.matched@, p) {
        Some(i) => {
            assert(p(s.clients.matched@[i]));
            assert(t.out@ == s.out@ ==> s.clients.matched@[i].attribution != Attribution::Exact)
                by {
                if s.clients.matched@[i].attribution == Attribution::Exact {
                    assert(t.out@.len() == s.out@.len() + 1);
                }
            }
            assert forall|k: int|
                0 <= k < s.clients.matched@.len() && (#[trigger] s.clients.matched@[k]).pid == pid
                    && (forall|j: int|
                    0 <= j < k ==> (#[trigger] s.clients.matched@[j]).pid != pid) implies k
                == i by {
                if k < i {
                    assert(!p(s.clients.matched@[k]));
                }
            }
        },
        None => {
            assert forall|k: int| 0 <= k < s.clients.matched@.len() implies (
            #[trigger] s.clients.matched@[k]).pid != pid by {
                assert(!p(s.clients.matched@[k]));
            }
        },
    }
}

// ---------------------------------------------------------------------------
// The dialog
// ---------------------------------------------------------------------------

/// The cookie that waits to be sent.
pub open spec fn cookie_of(a: Awaiting) -> String {
    match a {
        Awaiting::Bulk { cookie } => cookie,
        Awaiting::Login { cookie } => cookie,
        Awaiting::Add { cookie } => cookie,
        Awaiting::Force { cookie, .. } => cookie,
    }
}

/// Whether a thing to do adds what waits, under a key.
pub open spec fn adds_what_waits(
    effect: Effect,
    a: Awaiting,
    key: StoreSession,
    s: AppState,
) -> bool {
    match a {
        Awaiting::Force { cookie: wanted, username: name } => effect matches Effect::Send(
            BackendCommand::AddAccountForced { cookie, username, session, use_credential_manager },
        ) && cookie == wanted && username == name && session == key && use_credential_manager
            == s.config.use_credential_manager,
        _ => effect matches Effect::Send(
            BackendCommand::AddAccount { cookie, session, use_credential_manager },
        ) && cookie == cookie_of(a) && session == key && use_credential_manager
            == s.config.use_credential_manager,
    }
}

/// A cookie is sent under the key of the open store; without one a key is made
/// first, and the cookie waits for it.
pub proof fn a_cookie_is_sent_under_a_key(s: AppState, t: AppState, a: Awaiting)
    requires
        sent_or_waiting(s, t, a),
    ensures
        t.out@.len() == s.out@.len() + 1,
        t.out@.drop_last() == s.out@,
        match s.session {
            Some(key) => adds_what_waits(t.out@.last(), a, key, s) && t.dialog.loading
                && t.dialog.awaiting == s.dialog.awaiting,
            None => t.out@.last() is CreateDeviceSession && t.dialog.awaiting == Some(a),
        },
        t.session == s.session && t.store == s.store && t.config == s.config,
        t.dialog.bulk_queue == s.dialog.bulk_queue,
{
}

/// What waited for a key is sent as soon as there is one, under that key, and
/// waits no longer; where no key could be made nothing is sent.
pub proof fn what_waits_is_sent_under_the_new_key(
    s: AppState,
    t: AppState,
    result: Result<StoreSession, String>,
    now: u64,
)
    requires
        key_arrived(s, t, result, now),
    ensures
        t.dialog.awaiting is None,
        match result {
            Ok(key) => {
                &&& t.session == Some(key)
                &&& match s.dialog.awaiting {
                    Some(a) => {
                        &&& t.out@.len() == s.out@.len() + 1
                        &&& t.out@.drop_last() == s.out@
                        &&& adds_what_waits(t.out@.last(), a, key, s)
                    },
                    None => t.out@ == s.out@,
                }
            },
            Err(_) => t.out@ == s.out@ && t.session == s.session,
        },
        t.store == s.store,
{
}

/// A batch takes up the cookie that is next and leaves the others; once none is
/// left, what was added is saved.
pub proof fn a_batch_takes_up_the_next_cookie(s: AppState, t: AppState)
    requires
        bulk_advanced(s, t),
    ensures
        s.dialog.bulk_queue@.len() > 0 ==> {
            &&& t.dialog.bulk_queue@ == s.dialog.bulk_queue@.drop_last()
            &&& t.out@.len() == s.out@.len() + 1
            &&& t.out@.drop_last() == s.out@
            &&& match s.session {
                Some(key) => t.out@.last() matches Effect::Send(
                    BackendCommand::AddAccount { cookie, session, use_credential_manager },
                ) && cookie == s.dialog.bulk_queue@.last() && session == key
                    && use_credential_manager == s.config.use_credential_manager,
                None => t.dialog.awaiting matches Some(a) && cookie_of(a)
                    == s.dialog.bulk_queue@.last(),
            }
        },
        s.dialog.bulk_queue@.len() == 0 ==> !t.dialog.loading,
        s.dialog.bulk_queue@.len() == 0 && s.dialog.bulk_succeeded > 0 && (
        s.session matches Some(key) && !key.legacy) ==> exists|k: int|
            s.out@.len() <= k < t.out@.len() && #[trigger] t.out@[k] == Effect::SaveStore,
        t.store == s.store && t.dialog.bulk_succeeded == s.dialog.bulk_succeeded
            && t.dialog.bulk_failed == s.dialog.bulk_failed && t.dialog.bulk_total
            == s.dialog.bulk_total,
{
    if s.dialog.bulk_queue@.len() == 0 && s.dialog.bulk_succeeded > 0 && (
    s.session matches Some(key) && !key.legacy) {
        assert(t.out@[s.out@.len() as int] == Effect::SaveStore);
    }
}

/// An account under question is added as it is where the user says so, and not
/// otherwise; the browser is opened under its own credentials; and what was
/// stored on the way is forgotten where the user calls it off.
pub proof fn the_answer_about_a_moderated_account_counts(
    s: AppState,
    t: AppState,
    answer: ModeratedAnswer,
    now: u64,
)
    requires
        moderated_answered(s, t, answer, now),
        s.dialog.pending_moderated is Some,
    ensures
        ({
            let p = *s.dialog.pending_moderated->Some_0;
            match answer {
                ModeratedAnswer::AddAnyway => {
                    &&& t.store.accounts@.contains(p.account)
                    &&& t.dialog.pending_moderated is None && !t.dialog.open
                },
                ModeratedAnswer::Cancel => {
                    &&& t.store == s.store
                    &&& t.dialog.pending_moderated is None && !t.dialog.open
                    &&& s.config.use_credential_manager ==> adds_only(
                        s,
                        t,
                        Effect::DeleteCredential(p.account.user_id),
                    )
                    &&& !s.config.use_credential_manager ==> t.out@ == s.out@
                },
                ModeratedAnswer::OpenBrowser => {
                    &&& t.store == s.store && t.dialog == s.dialog
                    &&& s.session is Some ==> t.out@.len() == s.out@.len() + 1 && (
                    t.out@.last() matches Effect::Send(
                        BackendCommand::BrowseAsAccount { credentials, label },
                    ) && is_pending(credentials, s, p.account.user_id, p.encrypted_cookie))
                },
                ModeratedAnswer::Revalidate => {
                    &&& t.store == s.store && t.dialog == s.dialog
                    &&& s.session is Some ==> t.out@.len() == s.out@.len() + 1 && (
                    t.out@.last() matches Effect::ReopenCookie(credentials) && is_pending(
                        credentials,
                        s,
                        p.account.user_id,
                        p.encrypted_cookie,
                    ))
                },
            }
        }),
{
    let p = *s.dialog.pending_moderated->Some_0;
    if answer == ModeratedAnswer::AddAnyway {
        super::event_laws::with_added_holds_it_and_the_others(
            s.store.accounts@,
            p.account,
            p.account,
        );
    }
}

/// Whether credentials are those of an account under question.
pub open spec fn is_pending(
    c: Credentials,
    s: AppState,
    user_id: u64,
    encrypted_cookie: Option<String>,
) -> bool {
    &&& c.user_id == user_id
    &&& c.encrypted_cookie == encrypted_cookie
    &&& s.session == Some(c.session)
    &&& c.use_credential_manager == s.config.use_credential_manager
}

/// A cookie that could be opened again is validated anew under the key of the
/// open store, and the question is closed; otherwise nothing changes but what is
/// said.
pub proof fn a_reopened_cookie_is_validated_anew(
    s: AppState,
    t: AppState,
    cookie: Option<String>,
    now: u64,
)
    requires
        reopened(s, t, cookie, now),
    ensures
        match (s.dialog.pending_moderated, cookie, s.session) {
            (Some(_), Some(opened), Some(key)) => {
                &&& t.dialog.pending_moderated is None && t.dialog.loading
                &&& t.out@.len() == s.out@.len() + 1
                &&& t.out@.drop_last() == s.out@
                &&& adds_what_waits(t.out@.last(), Awaiting::Add { cookie: opened }, key, s)
            },
            _ => t.out@ == s.out@ && t.dialog == s.dialog,
        },
        t.store == s.store,
{
}

} // verus!
