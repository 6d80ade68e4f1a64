//! The data the program keeps: accounts, their presence and moderation, the
//! configuration, launched clients.
//!
//! Instants are milliseconds since the Unix epoch.

use vstd::prelude::*;

use crate::lists::{first_where, first_where_facts};

verus! {

/// A copy of an optional text.
pub fn copy_of(o: &Option<String>) -> (r: Option<String>)
    ensures
        r == *o,
{
    match o {
        Some(s) => Some(s.clone()),
        None => None,
    }
}

// ---------------------------------------------------------------------------
// Accounts
// ---------------------------------------------------------------------------

/// Where Roblox last saw a user.
#[derive(Debug)]
pub struct Presence {
    /// Roblox's number: 0 offline, 1 online, 2 in a game, 3 in Studio.
    pub user_presence_type: u8,
    /// The place, where Roblox tells it.
    pub place_id: Option<u64>,
    /// The server within the place, where Roblox tells it.
    pub game_id: Option<String>,
}

/// The presence type of a user who is in a game.
pub const IN_GAME: u8 = 2;

impl Clone for Presence {
    fn clone(&self) -> (r: Self)
        ensures
            r == *self,
    {
        Presence {
            user_presence_type: self.user_presence_type,
            place_id: self.place_id,
            game_id: copy_of(&self.game_id),
        }
    }
}

/// An enforcement that Roblox took against an account.
#[derive(Debug)]
pub struct ModerationInfo {
    pub is_banned: bool,
    pub reason: Option<String>,
    pub expires_at: Option<i64>,
    pub last_checked: Option<i64>,
    /// Whether the enforcement was in force when this record was taken.
    pub active: bool,
}

impl Clone for ModerationInfo {
    fn clone(&self) -> (r: Self)
        ensures
            r == *self,
    {
        ModerationInfo {
            is_banned: self.is_banned,
            reason: copy_of(&self.reason),
            expires_at: self.expires_at,
            last_checked: self.last_checked,
            active: self.active,
        }
    }
}

/// Whether there is an enforcement in force.
pub open spec fn enforced(m: Option<ModerationInfo>) -> bool {
    m is Some && m->Some_0.active
}

/// Whether there is an enforcement in force.
pub fn is_enforced(m: &Option<ModerationInfo>) -> (b: bool)
    ensures
        b == enforced(*m),
{
    match m {
        Some(info) => info.active,
        None => false,
    }
}

/// One Roblox account.
#[derive(Debug)]
pub struct Account {
    pub user_id: u64,
    pub username: String,
    pub display_name: String,
    /// A name of the user's own for the account, empty for none.
    pub alias: String,
    /// The stable tag that stands for the account while names are hidden.
    pub anon_tag: String,
    /// The group the account is in, empty for none.
    pub group: String,
    /// The cookie under the store's data key. `None` where the operating
    /// system's credential manager holds it.
    pub encrypted_cookie: Option<String>,
    pub cookie_expired: bool,
    pub last_validated: Option<i64>,
    pub avatar_url: String,
    pub last_presence: Presence,
    pub moderation: Option<ModerationInfo>,
    /// Position in the user's own order, `u32::MAX` for none.
    pub sort_order: u32,
}

impl Clone for Account {
    fn clone(&self) -> (r: Self)
        ensures
            r == *self,
    {
        Account {
            user_id: self.user_id,
            username: self.username.clone(),
            display_name: self.display_name.clone(),
            alias: self.alias.clone(),
            anon_tag: self.anon_tag.clone(),
            group: self.group.clone(),
            encrypted_cookie: copy_of(&self.encrypted_cookie),
            cookie_expired: self.cookie_expired,
            last_validated: self.last_validated,
            avatar_url: self.avatar_url.clone(),
            last_presence: self.last_presence.clone(),
            moderation: match &self.moderation {
                Some(m) => Some(m.clone()),
                None => None,
            },
            sort_order: self.sort_order,
        }
    }
}

impl Account {
    /// A fresh account: no alias, no group, no cookie, never validated,
    /// offline, unmoderated, and at no place in the user's order.
    pub fn new(user_id: u64, username: String, display_name: String, anon_tag: String) -> (a: Account)
        ensures
            a.user_id == user_id,
            a.username == username,
            a.display_name == display_name,
            a.anon_tag == anon_tag,
            a.alias@.len() == 0,
            a.group@.len() == 0,
            a.avatar_url@.len() == 0,
            a.encrypted_cookie is None,
            !a.cookie_expired,
            a.last_validated is None,
            a.last_presence == (Presence { user_presence_type: 0, place_id: None, game_id: None }),
            a.moderation is None,
            a.sort_order == u32::MAX,
    {
        Account {
            user_id,
            username,
            display_name,
            alias: String::new(),
            anon_tag,
            group: String::new(),
            encrypted_cookie: None,
            cookie_expired: false,
            last_validated: None,
            avatar_url: String::new(),
            last_presence: Presence { user_presence_type: 0, place_id: None, game_id: None },
            moderation: None,
            sort_order: u32::MAX,
        }
    }

    /// The alias where there is one, else the username.
    pub open spec fn shown_as(self) -> Seq<char> {
        if self.alias@.len() == 0 {
            self.username@
        } else {
            self.alias@
        }
    }

    /// The alias where there is one, else the username.
    pub fn label(&self) -> (s: &str)
        ensures
            s@ == self.shown_as(),
    {
        if self.alias.as_str().is_empty() {
            &self.username
        } else {
            &self.alias
        }
    }
}

/// The accounts of one store, in the order they were added.
#[derive(Debug)]
pub struct AccountStore {
    pub accounts: Vec<Account>,
}

/// The index of the first account with this identifier, if there is one.
pub open spec fn position_in(accounts: Seq<Account>, user_id: u64) -> Option<int> {
    first_where(accounts, |a: Account| a.user_id == user_id)
}

/// Whether no two accounts share an identifier.
pub open spec fn ids_unique(accounts: Seq<Account>) -> bool {
    forall|i: int, j: int|
        0 <= i < j < accounts.len() ==> (#[trigger] accounts[i]).user_id != (
        #[trigger] accounts[j]).user_id
}

/// The accounts without those that have this identifier.
pub open spec fn without(accounts: Seq<Account>, user_id: u64) -> Seq<Account> {
    accounts.filter(|a: Account| a.user_id != user_id)
}

/// The accounts with `account` at the end in place of any with its identifier.
pub open spec fn with_added(accounts: Seq<Account>, account: Account) -> Seq<Account> {
    without(accounts, account.user_id).push(account)
}

/// What [`position_in`] says, in terms of indices.
pub proof fn position_facts(accounts: Seq<Account>, user_id: u64)
    ensures
        match position_in(accounts, user_id) {
            Some(i) => 0 <= i < accounts.len() && accounts[i].user_id == user_id && forall|j: int|
                0 <= j < i ==> (#[trigger] accounts[j]).user_id != user_id,
            None => forall|j: int|
                0 <= j < accounts.len() ==> (#[trigger] accounts[j]).user_id != user_id,
        },
{
    first_where_facts(accounts, |a: Account| a.user_id == user_id);
}

/// The first index with the identifier is the one [`position_in`] gives.
pub proof fn position_is_first(accounts: Seq<Account>, user_id: u64, i: int)
    requires
        0 <= i < accounts.len(),
        accounts[i].user_id == user_id,
        forall|j: int| 0 <= j < i ==> (#[trigger] accounts[j]).user_id != user_id,
    ensures
        position_in(accounts, user_id) == Some(i),
{
    position_facts(accounts, user_id);
}

/// An identifier that no account has is at no position.
pub proof fn position_is_none(accounts: Seq<Account>, user_id: u64)
    requires
        forall|j: int| 0 <= j < accounts.len() ==> (#[trigger] accounts[j]).user_id != user_id,
    ensures
        position_in(accounts, user_id) is None,
{
    position_facts(accounts, user_id);
}

/// Adding an account keeps identifiers unique: it replaces any account that
/// had its identifier, and the new account is found under it.
pub proof fn adding_keeps_ids_unique(accounts: Seq<Account>, account: Account)
    requires
        ids_unique(accounts),
    ensures
        ids_unique(with_added(accounts, account)),
        position_in(with_added(accounts, account), account.user_id) == Some(
            with_added(accounts, account).len() - 1,
        ),
{
    let p = |a: Account| a.user_id != account.user_id;
    let kept = accounts.filter(p);
    filter_keeps_ids_unique(accounts, p);
    let all = kept.push(account);
    assert forall|i: int| 0 <= i < kept.len() implies (#[trigger] kept[i]).user_id
        != account.user_id by {
        accounts.lemma_filter_pred(p, i);
    }
    assert forall|j: int| 0 <= j < all.len() - 1 implies (#[trigger] all[j]).user_id
        != account.user_id by {
        assert(all[j] == kept[j]);
    }
    position_is_first(all, account.user_id, all.len() - 1);
}

/// Removing accounts keeps identifiers unique, and the identifier is gone.
pub proof fn removing_keeps_ids_unique(accounts: Seq<Account>, user_id: u64)
    requires
        ids_unique(accounts),
    ensures
        ids_unique(without(accounts, user_id)),
        position_in(without(accounts, user_id), user_id) is None,
{
    let p = |a: Account| a.user_id != user_id;
    filter_keeps_ids_unique(accounts, p);
    let kept = accounts.filter(p);
    assert forall|j: int| 0 <= j < kept.len() implies (#[trigger] kept[j]).user_id != user_id by {
        accounts.lemma_filter_pred(p, j);
    }
    position_is_none(kept, user_id);
}

proof fn filter_keeps_ids_unique(accounts: Seq<Account>, p: spec_fn(Account) -> bool)
    requires
        ids_unique(accounts),
    ensures
        ids_unique(accounts.filter(p)),
    decreases accounts.len(),
{
    reveal(Seq::filter);
    if accounts.len() > 0 {
        let front = accounts.drop_last();
        assert(ids_unique(front)) by {
            assert forall|i: int, j: int| 0 <= i < j < front.len() implies (
            #[trigger] front[i]).user_id != (#[trigger] front[j]).user_id by {
                assert(front[i] == accounts[i] && front[j] == accounts[j]);
            }
        }
        filter_keeps_ids_unique(front, p);
        let kept = accounts.filter(p);
        assert forall|i: int, j: int| 0 <= i < j < kept.len() implies (#[trigger] kept[i]).user_id
            != (#[trigger] kept[j]).user_id by {
            if j == front.filter(p).len() {
                let a = front.filter(p)[i];
                assert(front.filter(p).contains(a));
                front.lemma_filter_contains_rev(p, a);
                let k = choose|k: int| 0 <= k < front.len() && front[k] == a;
                assert(accounts[k] == a);
            }
        }
    }
}

impl Clone for AccountStore {
    fn clone(&self) -> (r: Self)
        ensures
            r.accounts@ == self.accounts@,
    {
        let mut accounts: Vec<Account> = Vec::new();
        let mut i: usize = 0;
        while i < self.accounts.len()
            invariant
                0 <= i <= self.accounts@.len(),
                accounts@ == self.accounts@.take(i as int),
            decreases self.accounts@.len() - i,
        {
            accounts.push(self.accounts[i].clone());
            i += 1;
            assert(accounts@ =~= self.accounts@.take(i as int));
        }
        assert(self.accounts@.take(i as int) =~= self.accounts@);
        AccountStore { accounts }
    }
}

impl Default for AccountStore {
    fn default() -> (s: Self)
        ensures
            s.accounts@ == Seq::<Account>::empty(),
    {
        AccountStore { accounts: Vec::new() }
    }
}

/// The index of the first account with this identifier, if there is one.
pub fn position_of(accounts: &Vec<Account>, user_id: u64) -> (r: Option<usize>)
    ensures
        match r {
            Some(i) => position_in(accounts@, user_id) == Some(i as int) && i < accounts@.len()
                && accounts@[i as int].user_id == user_id,
            None => position_in(accounts@, user_id) is None,
        },
{
    let mut i: usize = 0;
    while i < accounts.len()
        invariant
            0 <= i <= accounts@.len(),
            forall|j: int| 0 <= j < i ==> (#[trigger] accounts@[j]).user_id != user_id,
        decreases accounts@.len() - i,
    {
        if accounts[i].user_id == user_id {
            proof {
                position_is_first(accounts@, user_id, i as int);
            }
            return Some(i);
        }
        i += 1;
    }
    proof {
        position_is_none(accounts@, user_id);
    }
    None
}

impl AccountStore {
    /// Drops every account with this identifier.
    pub fn remove_by_id(&mut self, user_id: u64)
        ensures
            final(self).accounts@ == without(old(self).accounts@, user_id),
    {
        let mut kept: Vec<Account> = Vec::new();
        let ghost p = |a: Account| a.user_id != user_id;
        let ghost all = self.accounts@;
        let mut i: usize = 0;
        proof {
            reveal(Seq::filter);
            assert(kept@ =~= all.take(0).filter(p));
        }
        while i < self.accounts.len()
            invariant
                0 <= i <= self.accounts@.len(),
                self.accounts@ == all,
                p == (|a: Account| a.user_id != user_id),
                kept@ == all.take(i as int).filter(p),
            decreases self.accounts@.len() - i,
        {
            proof {
                reveal(Seq::filter);
                assert(all.take(i + 1).drop_last() =~= all.take(i as int));
            }
            if self.accounts[i].user_id != user_id {
                kept.push(self.accounts[i].clone());
            }
            i += 1;
        }
        assert(all.take(all.len() as int) =~= all);
        self.accounts = kept;
    }

    /// Adds an account in place of any that has its identifier.
    pub fn add(&mut self, account: Account)
        ensures
            final(self).accounts@ == with_added(old(self).accounts@, account),
    {
        self.remove_by_id(account.user_id);
        self.accounts.push(account);
    }
}

// ---------------------------------------------------------------------------
// The open store
// ---------------------------------------------------------------------------

/// The key of an open store, by a number that the program around the library
/// keeps it under.
#[derive(Clone, Copy, Debug, PartialEq, Eq, Structural)]
pub struct StoreSession {
    pub handle: u64,
    /// Whether the store opens with a password rather than with this device.
    pub needs_password: bool,
    /// Whether the file is older than the envelope format.
    pub legacy: bool,
}

/// How a store on disk is locked.
#[derive(Clone, Copy, Debug, PartialEq, Eq, Structural)]
pub enum StoreMode {
    Device,
    Password,
}

// ---------------------------------------------------------------------------
// Configuration
// ---------------------------------------------------------------------------

/// A saved private server.
#[derive(Debug)]
pub struct PrivateServer {
    pub name: String,
    pub place_id: u64,
    pub universe_id: Option<u64>,
    pub link_code: String,
    pub access_code: String,
    /// The name of the place, empty until it is known.
    pub place_name: String,
}

/// A saved launch target.
#[derive(Debug)]
pub struct LaunchPreset {
    pub name: String,
    pub place_id: u64,
    pub job_id: Option<String>,
}

/// A group of accounts.
#[derive(Debug)]
pub struct Group {
    pub name: String,
    pub color: (u8, u8, u8),
    pub description: String,
    /// Position in the user's own order, `u32::MAX` for none.
    pub sort_order: u32,
}

impl Clone for Group {
    fn clone(&self) -> (r: Self)
        ensures
            r == *self,
    {
        Group {
            name: self.name.clone(),
            color: self.color,
            description: self.description.clone(),
            sort_order: self.sort_order,
        }
    }
}

/// The user's settings.
#[derive(Debug)]
pub struct AppConfig {
    pub accounts_path: String,
    pub anonymize_names: bool,
    pub auto_arrange_windows: bool,
    pub developer_options: bool,
    pub kill_background_roblox: bool,
    pub launch_delay_secs: u32,
    pub multi_instance_enabled: bool,
    pub offered_passwordless: bool,
    pub privacy_mode: bool,
    pub rename_roblox_windows: bool,
    pub use_credential_manager: bool,
    /// Where the Roblox player lies. `None` looks for it.
    pub roblox_player_path: Option<String>,
    pub sort_mode: String,
    /// The groups, no two of one name.
    pub groups: Vec<Group>,
    pub private_servers: Vec<PrivateServer>,
    pub last_seen_version: Option<String>,
}

// ---------------------------------------------------------------------------
// Launched clients
// ---------------------------------------------------------------------------

/// How a running client was matched to an account.
#[derive(Clone, Copy, Debug, PartialEq, Eq, Structural)]
pub enum Attribution {
    /// Read off the client's own command line.
    Exact,
    /// Guessed from the order in which clients appeared.
    Inferred,
}

/// A running client and the account it was launched for.
#[derive(Clone, Copy, Debug, PartialEq, Eq, Structural)]
pub struct TrackedInstance {
    pub pid: u32,
    pub start_time: u64,
    pub user_id: u64,
    pub place_id: u64,
    pub launchtime: i64,
    pub launched_at: i64,
    pub attribution: Attribution,
}

// ---------------------------------------------------------------------------
// Lists of identifiers
// ---------------------------------------------------------------------------

/// Whether the list holds `id`.
pub fn lists(ids: &Vec<u64>, id: u64) -> (b: bool)
    ensures
        b == ids@.contains(id),
{
    let mut i: usize = 0;
    while i < ids.len()
        invariant
            0 <= i <= ids@.len(),
            forall|j: int| 0 <= j < i ==> ids@[j] != id,
        decreases ids@.len() - i,
    {
        if ids[i] == id {
            return true;
        }
        i += 1;
    }
    false
}

} // verus!
