//! Adding an account, with a cookie that validates or in spite of one that
//! does not.

use vstd::prelude::*;

use super::{ask, asking, done, ending, failed, failing, Next, Reply, Stage, TaskError, Then};
use crate::bridge::BackendEvent;
use crate::models::{copy_of, Account, ModerationInfo, Presence, StoreSession};

verus! {

/// How far adding an account has come.
#[derive(Debug)]
pub enum AddStage {
    /// Whose cookie is this? Answered by `Identity`.
    Validating { cookie: String, session: StoreSession, use_credential_manager: bool },
    /// Why was it rejected? Answered by `Message`.
    Probing { cookie: String },
    /// Who has this name? Answered by `Lookup`.
    LookingUp {
        cookie: String,
        username: String,
        session: StoreSession,
        use_credential_manager: bool,
    },
    /// Put the cookie into the credential manager. Answered by `Unit`.
    StoringCredential { account: Box<Account>, cookie: String, forced: bool },
    /// Encrypt the cookie for the store. Answered by `Text`.
    Encrypting { account: Box<Account>, cookie: String, session: StoreSession, forced: bool },
    /// Is the account moderated? Answered by `Moderation`.
    Moderating { account: Box<Account>, cookie: String },
    /// Is the account banned, in public? Answered by `Banned`.
    CheckingBan { account: Box<Account>, cookie: String },
    /// With what message? Answered by `Message`.
    Reasoning { account: Box<Account>, cookie: String, is_banned: bool },
    /// Where is its avatar? Answered by `Avatars`.
    FindingAvatar { account: Box<Account>, forced: bool },
    /// Get the picture. Answered by `Images`.
    FetchingAvatar { account: Box<Account>, forced: bool, avatars: Vec<(u64, String)> },
}

/// The next question once it is known whose the cookie is: where to keep it.
pub open spec fn keep(
    account: Box<Account>,
    cookie: String,
    session: StoreSession,
    use_credential_manager: bool,
    forced: bool,
) -> Next {
    if use_credential_manager {
        ask(Stage::Add(AddStage::StoringCredential { account, cookie, forced }))
    } else {
        ask(Stage::Add(AddStage::Encrypting { account, cookie, session, forced }))
    }
}

fn keeping(
    account: Box<Account>,
    cookie: String,
    session: StoreSession,
    use_credential_manager: bool,
    forced: bool,
) -> (n: Next)
    ensures
        n == keep(account, cookie, session, use_credential_manager, forced),
{
    if use_credential_manager {
        asking(Stage::Add(AddStage::StoringCredential { account, cookie, forced }))
    } else {
        asking(Stage::Add(AddStage::Encrypting { account, cookie, session, forced }))
    }
}

/// Whether `account` is a fresh one for this identity.
pub open spec fn fresh(
    account: Account,
    user_id: u64,
    username: String,
    display_name: String,
    anon_tag: String,
) -> bool {
    &&& account.user_id == user_id
    &&& account.username == username
    &&& account.display_name == display_name
    &&& account.anon_tag == anon_tag
    &&& account.alias@.len() == 0
    &&& account.group@.len() == 0
    &&& account.avatar_url@.len() == 0
    &&& account.encrypted_cookie is None
    &&& !account.cookie_expired
    &&& account.last_validated is None
    &&& account.last_presence == (Presence { user_presence_type: 0, place_id: None, game_id: None })
    &&& account.moderation is None
    &&& account.sort_order == u32::MAX
}

/// The account with its cookie kept: encrypted, or with the credential
/// manager. A cookie that validated is stamped; one that did not is marked
/// expired until a later validation clears it.
pub open spec fn kept(account: Account, encrypted: Option<String>, forced: bool, now: i64) -> Account {
    if forced {
        Account { encrypted_cookie: encrypted, cookie_expired: true, ..account }
    } else {
        Account { encrypted_cookie: encrypted, last_validated: Some(now), ..account }
    }
}

/// The next question once the cookie is kept.
pub open spec fn after_keeping(
    account: Account,
    encrypted: Option<String>,
    cookie: String,
    forced: bool,
    now: i64,
) -> Next {
    let account = Box::new(kept(account, encrypted, forced, now));
    if forced {
        ask(Stage::Add(AddStage::CheckingBan { account, cookie }))
    } else {
        ask(Stage::Add(AddStage::Moderating { account, cookie }))
    }
}

fn afterwards(
    account: Box<Account>,
    encrypted: Option<String>,
    cookie: String,
    forced: bool,
    now: i64,
) -> (n: Next)
    ensures
        n == after_keeping(*account, encrypted, cookie, forced, now),
{
    let mut a: Account = *account;
    a.encrypted_cookie = encrypted;
    if forced {
        a.cookie_expired = true;
        asking(Stage::Add(AddStage::CheckingBan { account: Box::new(a), cookie }))
    } else {
        a.last_validated = Some(now);
        asking(Stage::Add(AddStage::Moderating { account: Box::new(a), cookie }))
    }
}

/// What is on record of an account that could not be asked about with its own
/// cookie: nothing, unless it is banned in public or a message was found.
pub open spec fn found_out(
    is_banned: bool,
    message: Option<(String, Option<i64>)>,
    now: i64,
) -> Option<ModerationInfo> {
    match message {
        Some((reason, expires_at)) => Some(
            ModerationInfo {
                is_banned,
                reason: Some(reason),
                expires_at,
                last_checked: Some(now),
                active: true,
            },
        ),
        None => if is_banned {
            Some(
                ModerationInfo {
                    is_banned,
                    reason: None,
                    expires_at: None,
                    last_checked: Some(now),
                    active: true,
                },
            )
        } else {
            None
        },
    }
}

/// What is on record of an account that could not be asked about with its own
/// cookie.
pub fn finding_out(
    is_banned: bool,
    message: Option<(String, Option<i64>)>,
    now: i64,
) -> (r: Option<ModerationInfo>)
    ensures
        r == found_out(is_banned, message, now),
{
    match message {
        Some((reason, expires_at)) => Some(
            ModerationInfo {
                is_banned,
                reason: Some(reason),
                expires_at,
                last_checked: Some(now),
                active: true,
            },
        ),
        None => if is_banned {
            Some(
                ModerationInfo {
                    is_banned,
                    reason: None,
                    expires_at: None,
                    last_checked: Some(now),
                    active: true,
                },
            )
        } else {
            None
        },
    }
}

/// The account is ready: validated, or added all the same.
pub open spec fn ready(account: Box<Account>, forced: bool) -> BackendEvent {
    if forced {
        BackendEvent::AccountForceAdded { account, encrypted_cookie: account.encrypted_cookie }
    } else {
        BackendEvent::AccountValidated { account, encrypted_cookie: account.encrypted_cookie }
    }
}

fn readying(account: Box<Account>, forced: bool) -> (e: BackendEvent)
    ensures
        e == ready(account, forced),
{
    let encrypted_cookie: Option<String> = copy_of(&account.encrypted_cookie);
    if forced {
        BackendEvent::AccountForceAdded { account, encrypted_cookie }
    } else {
        BackendEvent::AccountValidated { account, encrypted_cookie }
    }
}

/// The reason alone of a moderation message.
pub open spec fn reason_of(message: Option<(String, Option<i64>)>) -> Option<String> {
    match message {
        Some(m) => Some(m.0),
        None => None,
    }
}

/// What a reply to a stage of adding an account leads to.
pub open spec fn add_follows(stage: AddStage, reply: Reply, now: i64, n: Next) -> bool {
    match (stage, reply) {
        (AddStage::Validating { cookie, session, use_credential_manager }, Reply::Identity(Ok(id))) =>
            match n.go {
                Then::Ask(Stage::Add(AddStage::StoringCredential { account, .. })) => fresh(
                    *account,
                    id.user_id,
                    id.username,
                    id.display_name,
                    id.anon_tag,
                ) && use_credential_manager && n == keep(account, cookie, session, true, false),
                Then::Ask(Stage::Add(AddStage::Encrypting { account, .. })) => fresh(
                    *account,
                    id.user_id,
                    id.username,
                    id.display_name,
                    id.anon_tag,
                ) && !use_credential_manager && n == keep(account, cookie, session, false, false),
                _ => false,
            },
        (AddStage::Validating { cookie, .. }, Reply::Identity(Err(_))) => n == ask(
            Stage::Add(AddStage::Probing { cookie }),
        ),
        (AddStage::Probing { cookie }, Reply::Message(m)) => n == done(
            BackendEvent::AddAccountAuthFailed { cookie, moderation_message: reason_of(m) },
        ),
        (
            AddStage::LookingUp { cookie, username, session, use_credential_manager },
            Reply::Lookup(Ok(found)),
        ) => match found {
            None => n == failed(TaskError::NoSuchUser(username)),
            Some(id) => match n.go {
                Then::Ask(Stage::Add(AddStage::StoringCredential { account, .. })) => fresh(
                    *account,
                    id.user_id,
                    id.username,
                    id.display_name,
                    id.anon_tag,
                ) && use_credential_manager && n == keep(account, cookie, session, true, true),
                Then::Ask(Stage::Add(AddStage::Encrypting { account, .. })) => fresh(
                    *account,
                    id.user_id,
                    id.username,
                    id.display_name,
                    id.anon_tag,
                ) && !use_credential_manager && n == keep(account, cookie, session, false, true),
                _ => false,
            },
        },
        (AddStage::LookingUp { .. }, Reply::Lookup(Err(e))) => n == failed(TaskError::Core(e)),
        (AddStage::StoringCredential { account, cookie, forced }, Reply::Unit(Ok(()))) => n
            == after_keeping(*account, None, cookie, forced, now),
        (AddStage::StoringCredential { .. }, Reply::Unit(Err(e))) => n == failed(
            TaskError::Core(e),
        ),
        (AddStage::Encrypting { account, cookie, forced, .. }, Reply::Text(Ok(encrypted))) => n
            == after_keeping(*account, Some(encrypted), cookie, forced, now),
        (AddStage::Encrypting { .. }, Reply::Text(Err(e))) => n == failed(TaskError::Core(e)),
        (AddStage::Moderating { account, .. }, Reply::Moderation(r)) => n == ask(
            Stage::Add(
                AddStage::FindingAvatar {
                    account: match r {
                        Ok(info) => Box::new(Account { moderation: info, ..*account }),
                        Err(_) => account,
                    },
                    forced: false,
                },
            ),
        ),
        (AddStage::CheckingBan { account, cookie }, Reply::Banned(r)) => n == ask(
            Stage::Add(
                AddStage::Reasoning {
                    account,
                    cookie,
                    is_banned: match r {
                        Ok(b) => b,
                        Err(_) => false,
                    },
                },
            ),
        ),
        (AddStage::Reasoning { account, is_banned, .. }, Reply::Message(m)) => n == ask(
            Stage::Add(
                AddStage::FindingAvatar {
                    account: match found_out(is_banned, m, now) {
                        Some(info) => Box::new(Account { moderation: Some(info), ..*account }),
                        None => account,
                    },
                    forced: true,
                },
            ),
        ),
        (AddStage::FindingAvatar { account, forced }, Reply::Avatars(Ok(avatars))) => n == ask(
            Stage::Add(
                AddStage::FetchingAvatar {
                    account: if avatars@.len() > 0 {
                        Box::new(Account { avatar_url: avatars@[0].1, ..*account })
                    } else {
                        account
                    },
                    forced,
                    avatars,
                },
            ),
        ),
        (AddStage::FindingAvatar { account, forced }, Reply::Avatars(Err(_))) => n == done(
            ready(account, forced),
        ),
        (AddStage::FetchingAvatar { account, forced, .. }, Reply::Images(images)) => n == (Next {
            tell: if images@.len() > 0 {
                Some(BackendEvent::AvatarImagesReady(images))
            } else {
                None
            },
            go: Then::Done(ready(account, forced)),
        }),
        _ => n == failed(TaskError::OutOfStep),
    }
}

/// The next step of adding an account.
pub fn resume_add(stage: AddStage, reply: Reply, now: i64) -> (n: Next)
    ensures
        add_follows(stage, reply, now, n),
        n.go matches Then::Ask(next) ==> super::stage_wf(next),
{
    match (stage, reply) {
        (AddStage::Validating { cookie, session, use_credential_manager }, Reply::Identity(Ok(id))) => {
            let account: Account = Account::new(
                id.user_id,
                id.username,
                id.display_name,
                id.anon_tag,
            );
            keeping(Box::new(account), cookie, session, use_credential_manager, false)
        },
        (AddStage::Validating { cookie, .. }, Reply::Identity(Err(_))) => asking(
            Stage::Add(AddStage::Probing { cookie }),
        ),
        (AddStage::Probing { cookie }, Reply::Message(m)) => {
            let moderation_message: Option<String> = match m {
                Some((reason, _)) => Some(reason),
                None => None,
            };
            ending(BackendEvent::AddAccountAuthFailed { cookie, moderation_message })
        },
        (
            AddStage::LookingUp { cookie, username, session, use_credential_manager },
            Reply::Lookup(Ok(found)),
        ) => match found {
            None => failing(TaskError::NoSuchUser(username)),
            Some(id) => {
                let account: Account = Account::new(
                    id.user_id,
                    id.username,
                    id.display_name,
                    id.anon_tag,
                );
                keeping(Box::new(account), cookie, session, use_credential_manager, true)
            },
        },
        (AddStage::LookingUp { .. }, Reply::Lookup(Err(e))) => failing(TaskError::Core(e)),
        (AddStage::StoringCredential { account, cookie, forced }, Reply::Unit(Ok(()))) => {
            afterwards(account, None, cookie, forced, now)
        },
        (AddStage::StoringCredential { .. }, Reply::Unit(Err(e))) => failing(TaskError::Core(e)),
        (AddStage::Encrypting { account, cookie, forced, .. }, Reply::Text(Ok(encrypted))) => {
            afterwards(account, Some(encrypted), cookie, forced, now)
        },
        (AddStage::Encrypting { .. }, Reply::Text(Err(e))) => failing(TaskError::Core(e)),
        (AddStage::Moderating { account, .. }, Reply::Moderation(r)) => {
            let mut a: Account = *account;
            match r {
                Ok(info) => {
                    a.moderation = info;
                },
                Err(_) => {},
            }
            asking(Stage::Add(AddStage::FindingAvatar { account: Box::new(a), forced: false }))
        },
        (AddStage::CheckingBan { account, cookie }, Reply::Banned(r)) => {
            let is_banned: bool = match r {
                Ok(b) => b,
                Err(_) => false,
            };
            asking(Stage::Add(AddStage::Reasoning { account, cookie, is_banned }))
        },
        (AddStage::Reasoning { account, is_banned, .. }, Reply::Message(m)) => {
            let mut a: Account = *account;
            match finding_out(is_banned, m, now) {
                Some(info) => {
                    a.moderation = Some(info);
                },
                None => {},
            }
            asking(Stage::Add(AddStage::FindingAvatar { account: Box::new(a), forced: true }))
        },
        (AddStage::FindingAvatar { account, forced }, Reply::Avatars(Ok(avatars))) => {
            let mut a: Account = *account;
            if avatars.len() > 0 {
                a.avatar_url = avatars[0].1.clone();
            }
            asking(
                Stage::Add(AddStage::FetchingAvatar { account: Box::new(a), forced, avatars }),
            )
        },
        (AddStage::FindingAvatar { account, forced }, Reply::Avatars(Err(_))) => ending(
            readying(account, forced),
        ),
        (AddStage::FetchingAvatar { account, forced, .. }, Reply::Images(images)) => {
            let tell: Option<BackendEvent> = if images.len() > 0 {
                Some(BackendEvent::AvatarImagesReady(images))
            } else {
                None
            };
            Next { tell, go: Then::Done(readying(account, forced)) }
        },
        _ => failing(TaskError::OutOfStep),
    }
}

} // verus!
