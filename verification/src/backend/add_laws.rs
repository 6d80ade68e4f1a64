//! What adding an account comes to, over all its steps.

use vstd::prelude::*;

use super::add::AddStage;
use super::runs::{failure_in, fits_add, Run};
use super::{Identity, Reply, Stage, TaskError, Then};
use crate::bridge::{BackendCommand, BackendEvent};
use crate::models::{Account, ModerationInfo, StoreSession};

verus! {

/// Whether an account is new and belongs to who was found.
pub open spec fn belongs_to(account: Account, who: Identity) -> bool {
    &&& account.user_id == who.user_id
    &&& account.username == who.username
    &&& account.display_name == who.display_name
    &&& account.anon_tag == who.anon_tag
    &&& account.alias@.len() == 0
    &&& account.group@.len() == 0
    &&& account.sort_order == u32::MAX
    &&& account.last_presence.user_presence_type == 0
    &&& account.last_presence.place_id is None
    &&& account.last_presence.game_id is None
}

/// Whether an account holds its cookie the way it was to be kept: with the
/// credential manager, or encrypted as the answer gave it.
pub open spec fn holds_cookie(account: Account, use_credential_manager: bool, reply: Reply) -> bool {
    if use_credential_manager {
        account.encrypted_cookie is None && (reply matches Reply::Unit(Ok(_)))
    } else {
        reply matches Reply::Text(Ok(encrypted)) && account.encrypted_cookie == Some(encrypted)
    }
}

/// Whether an account has the avatar that an answer gave first, or none where
/// it gave none.
pub open spec fn has_avatar(account: Account, reply: Reply) -> bool {
    match reply {
        Reply::Avatars(Ok(avatars)) => if avatars@.len() > 0 {
            account.avatar_url == avatars@[0].1
        } else {
            account.avatar_url@.len() == 0
        },
        _ => account.avatar_url@.len() == 0,
    }
}

/// The pictures that are told together with an account, where there are any.
pub open spec fn tells_pictures(run: Run, k: int) -> bool {
    match run.reply(k - 1) {
        Reply::Images(images) => if images@.len() > 0 {
            run.steps[k].tell == Some(BackendEvent::AvatarImagesReady(images))
        } else {
            run.steps[k].tell is None
        },
        _ => run.steps[k].tell is None,
    }
}

// ---------------------------------------------------------------------------
// A cookie that validates
// ---------------------------------------------------------------------------

/// What an account that is added carries, by the answers: who its cookie belongs
/// to, the cookie as it was kept, when, and what moderation said of it.
pub open spec fn validated_by(run: Run, account: Account, use_credential_manager: bool) -> bool {
    &&& run.reply(0) matches Reply::Identity(Ok(who)) && belongs_to(account, who)
    &&& holds_cookie(account, use_credential_manager, run.reply(1))
    &&& account.last_validated == Some(run.time(1))
    &&& !account.cookie_expired
}

/// What an answer about moderation puts on record.
pub open spec fn moderated_by(account: Account, reply: Reply) -> bool {
    match reply {
        Reply::Moderation(Ok(info)) => account.moderation == info,
        _ => account.moderation is None,
    }
}

/// What step `k` of adding an account asks: always about the cookie of the
/// command, under its key, for the account that the answers have made so far.
pub open spec fn adding_asks(
    run: Run,
    k: int,
    cookie: String,
    session: StoreSession,
    use_credential_manager: bool,
) -> bool {
    run.steps[k].go matches Then::Ask(stage) ==> (stage matches Stage::Add(s) && match s {
        AddStage::Validating { cookie: c, session: key, use_credential_manager: manager } => {
            &&& k == 0
            &&& c == cookie
            &&& key == session
            &&& manager == use_credential_manager
        },
        AddStage::Probing { cookie: c } => {
            &&& k == 1
            &&& c == cookie
            &&& run.reply(0) matches Reply::Identity(Err(_))
        },
        AddStage::StoringCredential { account, cookie: c, forced } => {
            &&& k == 1
            &&& c == cookie
            &&& use_credential_manager
            &&& !forced
            &&& run.reply(0) matches Reply::Identity(Ok(who)) && belongs_to(*account, who)
            &&& !account.cookie_expired && account.moderation is None
            &&& account.avatar_url@.len() == 0
        },
        AddStage::Encrypting { account, cookie: c, session: key, forced } => {
            &&& k == 1
            &&& c == cookie
            &&& key == session
            &&& !use_credential_manager
            &&& !forced
            &&& run.reply(0) matches Reply::Identity(Ok(who)) && belongs_to(*account, who)
            &&& !account.cookie_expired && account.moderation is None
            &&& account.avatar_url@.len() == 0
        },
        AddStage::Moderating { account, cookie: c } => {
            &&& k == 2
            &&& c == cookie
            &&& validated_by(run, *account, use_credential_manager)
            &&& account.moderation is None
            &&& account.avatar_url@.len() == 0
        },
        AddStage::FindingAvatar { account, forced } => {
            &&& k == 3
            &&& !forced
            &&& validated_by(run, *account, use_credential_manager)
            &&& run.reply(2) is Moderation
            &&& moderated_by(*account, run.reply(2))
            &&& account.avatar_url@.len() == 0
        },
        AddStage::FetchingAvatar { account, forced, avatars } => {
            &&& k == 4
            &&& !forced
            &&& validated_by(run, *account, use_credential_manager)
            &&& run.reply(2) is Moderation
            &&& moderated_by(*account, run.reply(2))
            &&& run.reply(3) == Reply::Avatars(Ok(avatars))
            &&& has_avatar(*account, run.reply(3))
        },
        _ => false,
    })
}

/// Adding an account keeps to the cookie and the key of the command. The account
/// that comes out is the one that the cookie belongs to, with the cookie kept as
/// the command says, with what the moderation check answered, whatever the
/// avatar steps answered, and with the avatar that was found. A cookie that is
/// rejected comes back with the reason that was found for it.
pub proof fn an_added_account_is_what_was_answered(
    run: Run,
    cookie: String,
    session: StoreSession,
    use_credential_manager: bool,
    k: int,
)
    requires
        run.of(BackendCommand::AddAccount { cookie, session, use_credential_manager }),
        run.has(k),
    ensures
        adding_asks(run, k, cookie, session, use_credential_manager),
        run.steps[k].go matches Then::Done(event) ==> match event {
            BackendEvent::AccountValidated { account, encrypted_cookie } => {
                &&& k == 4 || k == 5
                &&& validated_by(run, *account, use_credential_manager)
                &&& run.reply(2) is Moderation
                &&& moderated_by(*account, run.reply(2))
                &&& run.reply(3) is Avatars
                &&& has_avatar(*account, run.reply(3))
                &&& (k == 4) == (run.reply(3) matches Reply::Avatars(Err(_)))
                &&& encrypted_cookie == account.encrypted_cookie
                &&& tells_pictures(run, k)
            },
            BackendEvent::AddAccountAuthFailed { cookie: rejected, moderation_message } => {
                &&& k == 2
                &&& rejected == cookie
                &&& run.reply(0) matches Reply::Identity(Err(_))
                &&& run.reply(1) matches Reply::Message(found) && match found {
                    Some(message) => moderation_message == Some(message.0),
                    None => moderation_message is None,
                }
            },
            _ => false,
        },
        !(run.steps[k].go is Done) ==> run.steps[k].tell is None,
        run.steps[k].go !is UploadFailed,
    decreases k,
{
    if k > 0 {
        an_added_account_is_what_was_answered(run, cookie, session, use_credential_manager, k - 1);
        assert(run.moves(k - 1));
    }
}

/// Adding an account fails only where the cookie could not be kept, or where an
/// answer is not of the sort that was asked for: whatever is answered about
/// moderation and pictures, the account is added.
pub proof fn adding_fails_only_where_the_cookie_is_not_kept(
    run: Run,
    cookie: String,
    session: StoreSession,
    use_credential_manager: bool,
    k: int,
)
    requires
        run.of(BackendCommand::AddAccount { cookie, session, use_credential_manager }),
        run.has(k),
    ensures
        run.steps[k].go is Failed ==> k > 0,
        k > 0 ==> (run.steps[k].go is Failed) == (!fits_add(
            run.steps[k - 1].go->Ask_0->Add_0,
            run.reply(k - 1),
        ) || (k == 2 && (failure_in(run.reply(1)) is Some))),
        k <= 5,
{
    an_added_account_is_what_was_answered(run, cookie, session, use_credential_manager, k);
    if k > 0 {
        an_added_account_is_what_was_answered(run, cookie, session, use_credential_manager, k - 1);
        assert(run.moves(k - 1));
    }
}

// ---------------------------------------------------------------------------
// A cookie that does not
// ---------------------------------------------------------------------------

/// What an account carries that is added in spite of its cookie: who has the
/// name, the cookie as it was kept, marked as expired.
pub open spec fn forced_by(run: Run, account: Account, use_credential_manager: bool) -> bool {
    &&& run.reply(0) matches Reply::Lookup(Ok(Some(who))) && belongs_to(account, who)
    &&& holds_cookie(account, use_credential_manager, run.reply(1))
    &&& account.cookie_expired
    &&& account.last_validated is None
}

/// Whether what is on record of an account is what could be found out about it
/// without its cookie: nothing, unless it is banned or a message was found.
pub open spec fn found_without_cookie(
    record: Option<ModerationInfo>,
    banned: Reply,
    message: Reply,
    now: i64,
) -> bool {
    let is_banned = banned matches Reply::Banned(Ok(b)) && b;
    match message {
        Reply::Message(Some(found)) => {
            &&& record matches Some(info) && info.is_banned == is_banned && info.reason == Some(
                found.0,
            ) && info.expires_at == found.1 && info.last_checked == Some(now) && info.active
        },
        _ => if is_banned {
            record matches Some(info) && info.is_banned && info.reason is None && info.expires_at
                is None && info.last_checked == Some(now) && info.active
        } else {
            record is None
        },
    }
}

/// What step `k` of adding an account in spite of its cookie asks.
pub open spec fn forcing_asks(
    run: Run,
    k: int,
    cookie: String,
    username: String,
    session: StoreSession,
    use_credential_manager: bool,
) -> bool {
    run.steps[k].go matches Then::Ask(stage) ==> (stage matches Stage::Add(s) && match s {
        AddStage::LookingUp {
            cookie: c,
            username: name,
            session: key,
            use_credential_manager: manager,
        } => {
            &&& k == 0
            &&& c == cookie
            &&& name == username
            &&& key == session
            &&& manager == use_credential_manager
        },
        AddStage::StoringCredential { account, cookie: c, forced } => {
            &&& k == 1
            &&& c == cookie
            &&& use_credential_manager
            &&& forced
            &&& run.reply(0) matches Reply::Lookup(Ok(Some(who))) && belongs_to(*account, who)
            &&& account.last_validated is None && account.moderation is None
            &&& account.avatar_url@.len() == 0
        },
        AddStage::Encrypting { account, cookie: c, session: key, forced } => {
            &&& k == 1
            &&& c == cookie
            &&& key == session
            &&& !use_credential_manager
            &&& forced
            &&& run.reply(0) matches Reply::Lookup(Ok(Some(who))) && belongs_to(*account, who)
            &&& account.last_validated is None && account.moderation is None
            &&& account.avatar_url@.len() == 0
        },
        AddStage::CheckingBan { account, cookie: c } => {
            &&& k == 2
            &&& c == cookie
            &&& forced_by(run, *account, use_credential_manager)
            &&& account.moderation is None
            &&& account.avatar_url@.len() == 0
        },
        AddStage::Reasoning { account, cookie: c, is_banned } => {
            &&& k == 3
            &&& c == cookie
            &&& forced_by(run, *account, use_credential_manager)
            &&& is_banned == (run.reply(2) matches Reply::Banned(Ok(b)) && b)
            &&& run.reply(2) is Banned
            &&& account.moderation is None
            &&& account.avatar_url@.len() == 0
        },
        AddStage::FindingAvatar { account, forced } => {
            &&& k == 4
            &&& forced
            &&& forced_by(run, *account, use_credential_manager)
            &&& run.reply(3) is Message
            &&& found_without_cookie(
                account.moderation,
                run.reply(2),
                run.reply(3),
                run.time(3),
            )
            &&& account.avatar_url@.len() == 0
        },
        AddStage::FetchingAvatar { account, forced, avatars } => {
            &&& k == 5
            &&& forced
            &&& forced_by(run, *account, use_credential_manager)
            &&& run.reply(3) is Message
            &&& found_without_cookie(
                account.moderation,
                run.reply(2),
                run.reply(3),
                run.time(3),
            )
            &&& run.reply(4) == Reply::Avatars(Ok(avatars))
            &&& has_avatar(*account, run.reply(4))
        },
        _ => false,
    })
}

/// An account that is added in spite of its cookie is the one that has the name
/// of the command, with the cookie of the command kept as it says and marked as
/// expired, and with what could be found out about a ban.
pub proof fn a_forced_account_is_what_was_answered(
    run: Run,
    cookie: String,
    username: String,
    session: StoreSession,
    use_credential_manager: bool,
    k: int,
)
    requires
        run.of(
            BackendCommand::AddAccountForced { cookie, username, session, use_credential_manager },
        ),
        run.has(k),
    ensures
        forcing_asks(run, k, cookie, username, session, use_credential_manager),
        run.steps[k].go matches Then::Done(event) ==> match event {
            BackendEvent::AccountForceAdded { account, encrypted_cookie } => {
                &&& k == 5 || k == 6
                &&& forced_by(run, *account, use_credential_manager)
                &&& found_without_cookie(
                    account.moderation,
                    run.reply(2),
                    run.reply(3),
                    run.time(3),
                )
                &&& run.reply(4) is Avatars
                &&& has_avatar(*account, run.reply(4))
                &&& (k == 5) == (run.reply(4) matches Reply::Avatars(Err(_)))
                &&& encrypted_cookie == account.encrypted_cookie
                &&& tells_pictures(run, k)
            },
            _ => false,
        },
        run.steps[k].go matches Then::Failed(TaskError::NoSuchUser(name)) ==> name == username
            && k == 1 && (run.reply(0) matches Reply::Lookup(Ok(None))),
        !(run.steps[k].go is Done) ==> run.steps[k].tell is None,
        run.steps[k].go !is UploadFailed,
    decreases k,
{
    if k > 0 {
        a_forced_account_is_what_was_answered(
            run,
            cookie,
            username,
            session,
            use_credential_manager,
            k - 1,
        );
        assert(run.moves(k - 1));
    }
}

/// Adding an account in spite of its cookie fails only where nobody has the
/// name, the name could not be looked up, the cookie could not be kept, or an
/// answer is not of the sort that was asked for.
pub proof fn forcing_fails_only_without_a_user_or_a_kept_cookie(
    run: Run,
    cookie: String,
    username: String,
    session: StoreSession,
    use_credential_manager: bool,
    k: int,
)
    requires
        run.of(
            BackendCommand::AddAccountForced { cookie, username, session, use_credential_manager },
        ),
        run.has(k),
    ensures
        run.steps[k].go is Failed ==> k > 0,
        k > 0 ==> (run.steps[k].go is Failed) == (!fits_add(
            run.steps[k - 1].go->Ask_0->Add_0,
            run.reply(k - 1),
        ) || (k <= 2 && failure_in(run.reply(k - 1)) is Some) || (k == 1 && (
        run.reply(0) matches Reply::Lookup(Ok(None))))),
        k <= 6,
{
    a_forced_account_is_what_was_answered(
        run,
        cookie,
        username,
        session,
        use_credential_manager,
        k,
    );
    if k > 0 {
        a_forced_account_is_what_was_answered(
            run,
            cookie,
            username,
            session,
            use_credential_manager,
            k - 1,
        );
        assert(run.moves(k - 1));
    }
}

} // verus!
