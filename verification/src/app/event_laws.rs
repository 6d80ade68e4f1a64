//! What the window makes of what the backend reports.

use vstd::prelude::*;

use super::asset_events::{with_pictures, without_pictures};
use super::events::{event_applied, with_avatar, with_avatars, with_presence, with_presences};
use super::{AppState, Clock, Effect};
use crate::bridge::{BackendCommand, BackendEvent};
use crate::models::{
    enforced, ids_unique, position_facts, with_added, without, Account, AccountStore, ModerationInfo,
    Presence, StoreSession,
};
use crate::toast::ToastLevel;

verus! {

/// Whether saving the store is among what is newly to be done.
pub open spec fn store_is_saved(s: AppState, t: AppState) -> bool {
    exists|k: int| s.out@.len() <= k < t.out@.len() && #[trigger] t.out@[k] == Effect::SaveStore
}

/// Whether a store that is open and not about to be replaced is saved.
pub open spec fn saves_if_open(s: AppState, t: AppState) -> bool {
    s.session matches Some(session) && !session.legacy ==> store_is_saved(s, t)
}

/// How an account is called when something is said of it.
pub open spec fn called(s: AppState, a: Account) -> Seq<char> {
    if s.config.anonymize_names {
        "An account"@
    } else if a.alias@.len() > 0 {
        a.alias@
    } else {
        a.username@
    }
}

/// The user is told of an account that is newly moderated, and of a cookie that
/// newly expired where no moderation explains it; what was known before is not
/// said again.
pub proof fn only_news_about_an_account_is_told(
    s: AppState,
    t: AppState,
    user_id: u64,
    names: Option<(String, String)>,
    moderation: Option<ModerationInfo>,
    clock: Clock,
    i: int,
)
    requires
        event_applied(
            s,
            t,
            BackendEvent::AccountRevalidated { user_id, names, moderation },
            clock,
        ),
        0 <= i < s.store.accounts@.len(),
        s.store.accounts@[i].user_id == user_id,
        ids_unique(s.store.accounts@),
    ensures
        ({
            let before = s.store.accounts@[i];
            let after = t.store.accounts@[i];
            if enforced(moderation) && !enforced(before.moderation) {
                t.toasts@ == s.toasts@.said(
                    called(s, after) + " has been moderated. See the account panel for details."@,
                    ToastLevel::Error,
                    clock.now,
                )
            } else if names is None && !before.cookie_expired && !enforced(after.moderation) {
                t.toasts@ == s.toasts@.said(
                    "Cookie expired for "@ + called(s, after) + ". Re-add with a fresh cookie."@,
                    ToastLevel::Error,
                    clock.now,
                )
            } else {
                t.toasts@ == s.toasts@
            }
        }),
{
    position_facts(s.store.accounts@, user_id);
}

// ---------------------------------------------------------------------------
// Accounts come and go
// ---------------------------------------------------------------------------

proof fn without_holds_the_others(accounts: Seq<Account>, user_id: u64, a: Account)
    ensures
        without(accounts, user_id).contains(a) <==> accounts.contains(a) && a.user_id != user_id,
{
    let p = |x: Account| x.user_id != user_id;
    let kept = accounts.filter(p);
    if kept.contains(a) {
        let i = choose|i: int| 0 <= i < kept.len() && kept[i] == a;
        accounts.lemma_filter_pred(p, i);
        accounts.lemma_filter_contains_rev(p, a);
    }
    if accounts.contains(a) && a.user_id != user_id {
        let i = choose|i: int| 0 <= i < accounts.len() && accounts[i] == a;
        accounts.lemma_filter_contains(p, i);
    }
}

pub proof fn with_added_holds_it_and_the_others(accounts: Seq<Account>, account: Account, a: Account)
    ensures
        with_added(accounts, account).contains(a) <==> a == account || (accounts.contains(a)
            && a.user_id != account.user_id),
{
    without_holds_the_others(accounts, account.user_id, a);
    let kept = without(accounts, account.user_id);
    let all = kept.push(account);
    if all.contains(a) {
        let i = choose|i: int| 0 <= i < all.len() && all[i] == a;
        if i < kept.len() {
            assert(kept[i] == a);
        }
    }
    if a == account {
        assert(all[kept.len() as int] == a);
    } else if kept.contains(a) {
        let i = choose|i: int| 0 <= i < kept.len() && kept[i] == a;
        assert(all[i] == a);
    }
}

/// Whether a store holds what it held before, with this account in place of any
/// that had its identifier.
pub open spec fn account_is_added(before: Seq<Account>, after: Seq<Account>, account: Account) -> bool {
    forall|a: Account| #[trigger]
        after.contains(a) <==> a == account || (before.contains(a) && a.user_id != account.user_id)
}

/// A validated account is added as it came, in place of any that had its
/// identifier, and the store is saved; while a batch runs it is added just the
/// same. An account that is moderated is not added outside a batch: it waits for
/// the user with its cookie, and nothing else changes in the store.
pub proof fn a_validated_account_is_added_or_waits(
    s: AppState,
    t: AppState,
    account: Box<Account>,
    encrypted_cookie: Option<String>,
    clock: Clock,
)
    requires
        event_applied(
            s,
            t,
            BackendEvent::AccountValidated { account, encrypted_cookie },
            clock,
        ),
    ensures
        ({
            let moderated = account.moderation matches Some(m) && m.active;
            if moderated && !s.dialog.bulk_running {
                &&& t.store == s.store
                &&& t.dialog.pending_moderated matches Some(p) && p.account == *account
                    && p.encrypted_cookie == encrypted_cookie
                &&& !t.dialog.loading
            } else {
                &&& account_is_added(s.store.accounts@, t.store.accounts@, *account)
                &&& !s.dialog.bulk_running ==> saves_if_open(s, t) && !t.dialog.open
                    && !t.dialog.loading
            }
        }),
{
    let moderated = account.moderation matches Some(m) && m.active;
    if !(moderated && !s.dialog.bulk_running) {
        assert forall|a: Account| #[trigger] t.store.accounts@.contains(a) <==> a == *account || (
        s.store.accounts@.contains(a) && a.user_id != account.user_id) by {
            with_added_holds_it_and_the_others(s.store.accounts@, *account, a);
        }
        if !s.dialog.bulk_running && (s.session matches Some(session) && !session.legacy) {
            assert(t.out@[t.out@.len() - 1] == Effect::SaveStore);
        }
    }
}

/// An account that is added in spite of its cookie is added as it came, in place
/// of any that had its identifier, and the store is saved.
pub proof fn a_forced_account_is_added(
    s: AppState,
    t: AppState,
    account: Box<Account>,
    encrypted_cookie: Option<String>,
    clock: Clock,
)
    requires
        event_applied(
            s,
            t,
            BackendEvent::AccountForceAdded { account, encrypted_cookie },
            clock,
        ),
    ensures
        account_is_added(s.store.accounts@, t.store.accounts@, *account),
        saves_if_open(s, t),
        !t.dialog.open,
{
    assert forall|a: Account| #[trigger] t.store.accounts@.contains(a) <==> a == *account || (
    s.store.accounts@.contains(a) && a.user_id != account.user_id) by {
        with_added_holds_it_and_the_others(s.store.accounts@, *account, a);
    }
    if s.session matches Some(session) && !session.legacy {
        assert(t.out@[t.out@.len() - 1] == Effect::SaveStore);
    }
}

/// A removed account is gone from the store and from the selection; all others
/// stay, and the store is saved.
pub proof fn a_removed_account_is_gone(s: AppState, t: AppState, user_id: u64, clock: Clock)
    requires
        event_applied(s, t, BackendEvent::AccountRemoved { user_id }, clock),
    ensures
        forall|a: Account| #[trigger]
            t.store.accounts@.contains(a) <==> s.store.accounts@.contains(a) && a.user_id
                != user_id,
        forall|id: u64| #[trigger]
            t.ui.selected@.contains(id) <==> s.ui.selected@.contains(id) && id != user_id,
        saves_if_open(s, t),
{
    assert forall|a: Account| #[trigger]
        t.store.accounts@.contains(a) <==> s.store.accounts@.contains(a) && a.user_id
        != user_id by {
        without_holds_the_others(s.store.accounts@, user_id, a);
    }
    if s.session matches Some(session) && !session.legacy {
        assert(t.out@[t.out@.len() - 1] == Effect::SaveStore);
    }
}

// ---------------------------------------------------------------------------
// What is known of accounts
// ---------------------------------------------------------------------------

/// Whether the entry at `m` is the last of a list under its identifier.
pub open spec fn is_last_of<T>(list: Seq<(u64, T)>, m: int) -> bool {
    &&& 0 <= m < list.len()
    &&& forall|n: int| m < n < list.len() ==> (#[trigger] list[n]).0 != list[m].0
}

/// Whether a list has an entry under an identifier.
pub open spec fn has_entry<T>(list: Seq<(u64, T)>, id: u64) -> bool {
    exists|m: int| 0 <= m < list.len() && (#[trigger] list[m]).0 == id
}

/// Whether the accounts are as they were, but for their presence, which is the
/// last that was reported of each.
pub open spec fn presences_are(
    before: Seq<Account>,
    after: Seq<Account>,
    list: Seq<(u64, Presence)>,
) -> bool {
    &&& after.len() == before.len()
    &&& forall|i: int|
        0 <= i < before.len() ==> (#[trigger] after[i]) == (Account {
            last_presence: after[i].last_presence,
            ..before[i]
        })
    &&& forall|i: int, m: int|
        0 <= i < before.len() && #[trigger] is_last_of(list, m) && list[m].0
            == before[i].user_id ==> (#[trigger] after[i]).last_presence == list[m].1
    &&& forall|i: int|
        0 <= i < before.len() && !has_entry(list, before[i].user_id) ==> (
        #[trigger] after[i]).last_presence == before[i].last_presence
}

proof fn presences_are_put_in_place(before: Seq<Account>, list: Seq<(u64, Presence)>)
    requires
        ids_unique(before),
    ensures
        presences_are(before, with_presences(before, list), list),
    decreases list.len(),
{
    if list.len() > 0 {
        let front = list.drop_last();
        let id = list.last().0;
        presences_are_put_in_place(before, front);
        let mid = with_presences(before, front);
        let after = with_presence(mid, id, list.last().1);
        position_facts(mid, id);
        assert forall|i: int| 0 <= i < before.len() implies (#[trigger] after[i]) == (Account {
            last_presence: after[i].last_presence,
            ..before[i]
        }) by {
            assert(mid[i] == (Account { last_presence: mid[i].last_presence, ..before[i] }));
        }
        assert forall|i: int, m: int|
            0 <= i < before.len() && #[trigger] is_last_of(list, m) && list[m].0
                == before[i].user_id implies (#[trigger] after[i]).last_presence == list[m].1 by {
            assert(mid[i].user_id == before[i].user_id);
            if m < front.len() {
                assert(list[list.len() - 1].0 != list[m].0);
                assert forall|n: int| m < n < front.len() implies (#[trigger] front[n]).0
                    != front[m].0 by {
                    assert(list[n].0 != list[m].0);
                }
                assert(is_last_of(front, m));
                assert(after[i] == mid[i]);
            } else {
                let k = crate::models::position_in(mid, id)->Some_0;
                if k != i {
                    assert(mid[k].user_id == before[k].user_id);
                    if k < i {
                        assert(before[k].user_id != before[i].user_id);
                    } else {
                        assert(mid[i].user_id != id);
                    }
                }
            }
        }
        assert forall|i: int| 0 <= i < before.len() && !has_entry(list, before[i].user_id) implies (
        #[trigger] after[i]).last_presence == before[i].last_presence by {
            assert(mid[i].user_id == before[i].user_id);
            assert(list[list.len() - 1].0 != before[i].user_id);
            if has_entry(front, before[i].user_id) {
                let m = choose|m: int|
                    0 <= m < front.len() && (#[trigger] front[m]).0 == before[i].user_id;
                assert(list[m].0 == before[i].user_id);
            }
        }
    }
}

/// Presences that come in are kept by the accounts they belong to, the last of
/// each; nothing else about any account changes, and nothing else in the window.
pub proof fn presences_go_to_their_accounts(
    s: AppState,
    t: AppState,
    presences: Vec<(u64, Presence)>,
    clock: Clock,
)
    requires
        event_applied(s, t, BackendEvent::PresencesUpdated(presences), clock),
        ids_unique(s.store.accounts@),
    ensures
        presences_are(s.store.accounts@, t.store.accounts@, presences@),
        t == (AppState { store: t.store, ..s }),
{
    presences_are_put_in_place(s.store.accounts@, presences@);
}

/// Whether the accounts are as they were, but for the address of their avatar,
/// which is the last that was reported of each.
pub open spec fn avatars_are(
    before: Seq<Account>,
    after: Seq<Account>,
    list: Seq<(u64, String)>,
) -> bool {
    &&& after.len() == before.len()
    &&& forall|i: int|
        0 <= i < before.len() ==> (#[trigger] after[i]) == (Account {
            avatar_url: after[i].avatar_url,
            ..before[i]
        })
    &&& forall|i: int, m: int|
        0 <= i < before.len() && #[trigger] is_last_of(list, m) && list[m].0
            == before[i].user_id ==> (#[trigger] after[i]).avatar_url == list[m].1
    &&& forall|i: int|
        0 <= i < before.len() && !has_entry(list, before[i].user_id) ==> (
        #[trigger] after[i]).avatar_url == before[i].avatar_url
}

proof fn avatars_are_put_in_place(before: Seq<Account>, list: Seq<(u64, String)>)
    requires
        ids_unique(before),
    ensures
        avatars_are(before, with_avatars(before, list), list),
    decreases list.len(),
{
    if list.len() > 0 {
        let front = list.drop_last();
        let id = list.last().0;
        avatars_are_put_in_place(before, front);
        let mid = with_avatars(before, front);
        let after = with_avatar(mid, id, list.last().1);
        position_facts(mid, id);
        assert forall|i: int| 0 <= i < before.len() implies (#[trigger] after[i]) == (Account {
            avatar_url: after[i].avatar_url,
            ..before[i]
        }) by {
            assert(mid[i] == (Account { avatar_url: mid[i].avatar_url, ..before[i] }));
        }
        assert forall|i: int, m: int|
            0 <= i < before.len() && #[trigger] is_last_of(list, m) && list[m].0
                == before[i].user_id implies (#[trigger] after[i]).avatar_url == list[m].1 by {
            assert(mid[i].user_id == before[i].user_id);
            if m < front.len() {
                assert(list[list.len() - 1].0 != list[m].0);
                assert forall|n: int| m < n < front.len() implies (#[trigger] front[n]).0
                    != front[m].0 by {
                    assert(list[n].0 != list[m].0);
                }
                assert(is_last_of(front, m));
                assert(after[i] == mid[i]);
            } else {
                let k = crate::models::position_in(mid, id)->Some_0;
                if k != i {
                    assert(mid[k].user_id == before[k].user_id);
                    if k < i {
                        assert(before[k].user_id != before[i].user_id);
                    } else {
                        assert(mid[i].user_id != id);
                    }
                }
            }
        }
        assert forall|i: int| 0 <= i < before.len() && !has_entry(list, before[i].user_id) implies (
        #[trigger] after[i]).avatar_url == before[i].avatar_url by {
            assert(mid[i].user_id == before[i].user_id);
            assert(list[list.len() - 1].0 != before[i].user_id);
            if has_entry(front, before[i].user_id) {
                let m = choose|m: int|
                    0 <= m < front.len() && (#[trigger] front[m]).0 == before[i].user_id;
                assert(list[m].0 == before[i].user_id);
            }
        }
    }
}

/// Avatar addresses that come in are kept by the accounts they belong to, the
/// last of each; nothing else about any account changes, and nothing else in
/// the window.
pub proof fn avatars_go_to_their_accounts(
    s: AppState,
    t: AppState,
    avatars: Vec<(u64, String)>,
    clock: Clock,
)
    requires
        event_applied(s, t, BackendEvent::AvatarsUpdated(avatars), clock),
        ids_unique(s.store.accounts@),
    ensures
        avatars_are(s.store.accounts@, t.store.accounts@, avatars@),
        t == (AppState { store: t.store, ..s }),
{
    avatars_are_put_in_place(s.store.accounts@, avatars@);
}

/// Whether pictures are as they were, with the last of those that came in for
/// each identifier.
pub open spec fn pictures_are(
    before: Map<u64, Vec<u8>>,
    after: Map<u64, Vec<u8>>,
    images: Seq<(u64, Vec<u8>)>,
) -> bool {
    &&& forall|m: int| #[trigger]
        is_last_of(images, m) ==> after.contains_key(images[m].0) && after[images[m].0]
            == images[m].1
    &&& forall|id: u64|
        !has_entry(images, id) ==> #[trigger] after.contains_key(id) == before.contains_key(id) && (
        before.contains_key(id) ==> after[id] == before[id])
}

pub proof fn pictures_are_kept(before: Map<u64, Vec<u8>>, images: Seq<(u64, Vec<u8>)>)
    ensures
        pictures_are(before, with_pictures(before, images), images),
        forall|id: u64| #[trigger]
            without_pictures(before, images).contains_key(id) == (before.contains_key(id)
                && !has_entry(images, id)),
        forall|id: u64| #[trigger]
            without_pictures(before, images).contains_key(id) ==> without_pictures(
                before,
                images,
            )[id] == before[id],
    decreases images.len(),
{
    if images.len() > 0 {
        let front = images.drop_last();
        pictures_are_kept(before, front);
        let after = with_pictures(before, images);
        assert forall|m: int| #[trigger] is_last_of(images, m) implies after.contains_key(
            images[m].0,
        ) && after[images[m].0] == images[m].1 by {
            if m < front.len() {
                assert(images[images.len() - 1].0 != images[m].0);
                assert forall|n: int| m < n < front.len() implies (#[trigger] front[n]).0
                    != front[m].0 by {
                    assert(images[n].0 != images[m].0);
                }
                assert(is_last_of(front, m));
            }
        }
        assert forall|id: u64| has_entry(images, id) == (has_entry(front, id) || id
            == images.last().0) by {
            if has_entry(images, id) {
                let m = choose|m: int| 0 <= m < images.len() && (#[trigger] images[m]).0 == id;
                if m < front.len() {
                    assert(front[m].0 == id);
                }
            }
            if has_entry(front, id) {
                let m = choose|m: int| 0 <= m < front.len() && (#[trigger] front[m]).0 == id;
                assert(images[m].0 == id);
            }
            if id == images.last().0 {
                assert(images[images.len() - 1].0 == id);
            }
        }
        let kept = without_pictures(before, images);
        let mid = without_pictures(before, front);
        assert forall|id: u64| #[trigger] kept.contains_key(id) == (before.contains_key(id)
            && !has_entry(images, id)) by {
            assert(has_entry(images, id) == (has_entry(front, id) || id == images.last().0));
            assert(mid.contains_key(id) == (before.contains_key(id) && !has_entry(front, id)));
        }
        assert forall|id: u64| #[trigger] kept.contains_key(id) implies kept[id] == before[id] by {
            assert(mid.contains_key(id));
        }
        assert forall|id: u64| !has_entry(images, id) implies #[trigger] after.contains_key(id)
            == before.contains_key(id) && (before.contains_key(id) ==> after[id] == before[id]) by {
            assert(has_entry(images, id) == (has_entry(front, id) || id == images.last().0));
            assert(with_pictures(before, front).contains_key(id) == before.contains_key(id));
        }
    } else {
        assert forall|id: u64| !has_entry(images, id) by {}
    }
}

/// Pictures that come in are kept under their accounts, and the blurred copies
/// of just those are dropped.
pub proof fn fresh_pictures_replace_old_ones(
    s: AppState,
    t: AppState,
    images: Vec<(u64, Vec<u8>)>,
    clock: Clock,
)
    requires
        event_applied(s, t, BackendEvent::AvatarImagesReady(images), clock),
    ensures
        pictures_are(s.pictures.avatars@, t.pictures.avatars@, images@),
        forall|id: u64| #[trigger]
            t.pictures.blurred@.contains_key(id) == (s.pictures.blurred@.contains_key(id)
                && !has_entry(images@, id)),
        t.store == s.store && t.out == s.out && t.toasts == s.toasts,
{
    pictures_are_kept(s.pictures.avatars@, images@);
    pictures_are_kept(s.pictures.blurred@, images@);
}

/// What is found out about an enforcement is kept: what the new look says
/// counts, and where it is silent on the reason or the end, what was known
/// before stands, but not a reason that says nothing. A look that finds nothing
/// takes nothing away.
pub open spec fn moderation_is(
    before: Option<ModerationInfo>,
    found: Option<ModerationInfo>,
    after: Option<ModerationInfo>,
) -> bool {
    match found {
        None => after == before,
        Some(f) => after matches Some(a) && {
            &&& a.is_banned == f.is_banned
            &&& a.active == f.active
            &&& a.last_checked == f.last_checked
            &&& f.reason is Some ==> a.reason == f.reason
            &&& f.expires_at is Some ==> a.expires_at == f.expires_at
            &&& f.expires_at is None ==> a.expires_at == (match before {
                Some(b) => b.expires_at,
                None => None,
            })
            &&& f.reason is None && a.reason is Some ==> (before matches Some(b) && b.reason
                == a.reason)
        },
    }
}

/// An account whose cookie was validated again: with names, the cookie is good,
/// the account goes by them and is stamped; without, the cookie is marked as
/// expired. What moderation says is kept. No other account changes, nothing else
/// about this one does, and the store is saved.
pub proof fn a_cookie_that_was_validated_again_is_marked(
    s: AppState,
    t: AppState,
    user_id: u64,
    names: Option<(String, String)>,
    moderation: Option<ModerationInfo>,
    clock: Clock,
    i: int,
)
    requires
        event_applied(
            s,
            t,
            BackendEvent::AccountRevalidated { user_id, names, moderation },
            clock,
        ),
        ids_unique(s.store.accounts@),
        0 <= i < s.store.accounts@.len(),
    ensures
        t.store.accounts@.len() == s.store.accounts@.len(),
        s.store.accounts@[i].user_id != user_id ==> t.store.accounts@[i] == s.store.accounts@[i],
        s.store.accounts@[i].user_id == user_id ==> {
            let before = s.store.accounts@[i];
            let after = t.store.accounts@[i];
            &&& after.cookie_expired == (names is None)
            &&& names matches Some(n) ==> after.username == n.0 && after.display_name == n.1
                && after.last_validated == Some(clock.utc)
            &&& names is None ==> after.username == before.username && after.display_name
                == before.display_name && after.last_validated == before.last_validated
            &&& moderation_is(before.moderation, moderation, after.moderation)
            &&& after == (Account {
                username: after.username,
                display_name: after.display_name,
                cookie_expired: after.cookie_expired,
                last_validated: after.last_validated,
                moderation: after.moderation,
                ..before
            })
        },
        saves_if_open(s, t),
{
    position_facts(s.store.accounts@, user_id);
    if s.store.accounts@[i].user_id == user_id {
        let k = crate::models::position_in(s.store.accounts@, user_id)->Some_0;
        if k < i {
            assert(s.store.accounts@[k].user_id != s.store.accounts@[i].user_id);
        }
    }
    if s.session matches Some(session) && !session.legacy {
        assert(t.out@[t.out@.len() - 1] == Effect::SaveStore);
    }
}

// ---------------------------------------------------------------------------
// The store
// ---------------------------------------------------------------------------

/// A store that was opened is the one that is shown, under the key that opened
/// it, and the window is no longer locked.
pub proof fn an_opened_store_is_shown(
    s: AppState,
    t: AppState,
    store: Box<AccountStore>,
    session: StoreSession,
    legacy: bool,
    clock: Clock,
)
    requires
        event_applied(s, t, BackendEvent::StoreUnlocked { store, session, legacy }, clock),
    ensures
        t.store == *store,
        t.session == Some(session),
        !t.lock.needs_unlock,
        !t.lock.unlocking,
        !t.lock.device_key_missing,
        t.lock.pending_legacy_upgrade == (legacy || s.lock.pending_legacy_upgrade),
{
}

/// A store that was locked anew is under its new key. The accounts are those
/// that are shown, with all that changed meanwhile, and they are saved once more;
/// only an upgrade of the old format brings its own.
pub proof fn a_store_that_was_locked_anew_keeps_its_accounts(
    s: AppState,
    t: AppState,
    store: Box<AccountStore>,
    session: StoreSession,
    clock: Clock,
)
    requires
        event_applied(s, t, BackendEvent::StoreRekeyed { store, session }, clock),
    ensures
        t.session == Some(session),
        !t.lock.pending_legacy_upgrade,
        s.lock.pending_legacy_upgrade ==> t.store == *store,
        !s.lock.pending_legacy_upgrade ==> t.store == s.store && (!session.legacy
            ==> store_is_saved(s, t)),
{
    if !s.lock.pending_legacy_upgrade && !session.legacy {
        assert(t.out@[t.out@.len() - 1] == Effect::SaveStore);
    }
}

/// Whether an event is one that changes accounts.
pub open spec fn is_about_accounts(event: BackendEvent) -> bool {
    ||| event is AccountValidated
    ||| event is AccountForceAdded
    ||| event is AccountRemoved
    ||| event is AvatarsUpdated
    ||| event is PresencesUpdated
    ||| event is AccountRevalidated
    ||| event is StoreUnlocked
    ||| event is StoreRekeyed
}

/// Nothing but what is reported of accounts and of the store changes an account,
/// and nothing but an opened store and one that was locked anew changes the key.
#[verifier::rlimit(80)]
#[verifier::spinoff_prover]
pub proof fn other_reports_leave_the_accounts_alone(
    s: AppState,
    t: AppState,
    event: BackendEvent,
    clock: Clock,
)
    requires
        event_applied(s, t, event, clock),
    ensures
        !is_about_accounts(event) ==> t.store == s.store,
        !(event is StoreUnlocked) && !(event is StoreRekeyed) ==> t.session == s.session,
        t.rules == s.rules,
        t.settings == s.settings,
{
}

// ---------------------------------------------------------------------------
// Private servers and versions
// ---------------------------------------------------------------------------

/// A share link that was looked up becomes a private server at the end of the
/// list, with the place and the codes that were found, and its place is looked
/// up; the settings are saved.
pub proof fn a_share_link_becomes_a_server(
    s: AppState,
    t: AppState,
    server_name: String,
    place_id: u64,
    universe_id: Option<u64>,
    link_code: String,
    access_code: String,
    clock: Clock,
)
    requires
        event_applied(
            s,
            t,
            BackendEvent::ShareLinkResolved {
                server_name,
                place_id,
                universe_id,
                link_code,
                access_code,
            },
            clock,
        ),
    ensures
        t.config.private_servers@.len() == s.config.private_servers@.len() + 1,
        t.config.private_servers@.drop_last() == s.config.private_servers@,
        ({
            let server = t.config.private_servers@.last();
            &&& server.name == server_name
            &&& server.place_id == place_id
            &&& server.universe_id == universe_id
            &&& server.link_code == link_code
            &&& server.access_code == access_code
        }),
        t.out@.contains(Effect::SaveConfig),
        exists|k: int|
            s.out@.len() <= k < t.out@.len() && #[trigger] t.out@[k] == Effect::Send(
                BackendCommand::ResolvePlace {
                    place_id,
                    universe_id,
                    index: s.config.private_servers@.len() as usize,
                },
            ),
{
    let n = s.out@.len() as int;
    assert(t.out@[n] == Effect::SaveConfig);
    assert(t.out@[n + 1] == t.out@.last());
}

/// A place that was looked up gives its name to the server at its index, and its
/// icon to the place. A name that was not found takes none away, and no other
/// server changes.
pub proof fn a_place_names_its_server(
    s: AppState,
    t: AppState,
    index: usize,
    place_name: Option<String>,
    place_id: u64,
    icon_bytes: Option<Vec<u8>>,
    clock: Clock,
    i: int,
)
    requires
        event_applied(
            s,
            t,
            BackendEvent::PlaceResolved { index, place_name, place_id, icon_bytes },
            clock,
        ),
        0 <= i < s.config.private_servers@.len(),
    ensures
        t.config.private_servers@.len() == s.config.private_servers@.len(),
        ({
            let before = s.config.private_servers@[i];
            let after = t.config.private_servers@[i];
            &&& after == (crate::models::PrivateServer { place_name: after.place_name, ..before })
            &&& if i == index && place_name is Some && place_name->Some_0@.len() > 0 {
                after.place_name == place_name->Some_0
            } else {
                after.place_name == before.place_name
            }
        }),
        icon_bytes matches Some(bytes) ==> t.pictures.game_icons@.contains_key(place_id)
            && t.pictures.game_icons@[place_id] == bytes,
        forall|id: u64| #[trigger]
            t.pictures.game_icons@.contains_key(id) <==> s.pictures.game_icons@.contains_key(id) || (
            icon_bytes is Some && id == place_id),
{
}

/// A newer version is remembered as it was reported, and running clients are
/// those that were found.
#[verifier::rlimit(80)]
#[verifier::spinoff_prover]
pub proof fn what_was_found_is_remembered(s: AppState, t: AppState, event: BackendEvent, clock: Clock)
    requires
        event_applied(s, t, event, clock),
    ensures
        event matches BackendEvent::UpdateAvailable { version, url } ==> t.ui.update_available
            == Some((version, url)),
        !(event is UpdateAvailable) ==> t.ui.update_available == s.ui.update_available,
        event matches BackendEvent::InstancesUpdated { instances, running_count } ==> {
            &&& t.clients.matched == instances
            &&& t.clients.count == running_count
            &&& t.clients.running == (running_count > 0)
        },
        !(event is InstancesUpdated) ==> t.clients.matched == s.clients.matched && t.clients.count
            == s.clients.count,
        event is GameLaunched || event is BulkLaunchProgress ==> t.clients.last_launch_request
            == Some(clock.now),
        event is DeviceKeyMissing ==> t.lock.device_key_missing && !t.lock.unlocking,
{
}

} // verus!
