//! What the add-account dialog says of an account under moderation.

use vstd::prelude::*;

use super::AppState;
use crate::models::{copy_of, Account, ModerationInfo};
use crate::text::{join2, join3, opt_text};

verus! {

/// How the end of a moderation is written, as a pattern of `chrono`.
pub const EXPIRY_PATTERN: &'static str = "%Y-%m-%d %H:%M UTC";

/// An instant, in milliseconds of Unix time, as `chrono` writes it under a
/// pattern in universal time. `None` where its calendar does not reach.
pub uninterp spec fn utc_written(at: i64, pattern: Seq<char>) -> Option<Seq<char>>;

/// `chrono::DateTime::from_timestamp_millis`, and `format` on what it gives.
/// Nothing is claimed of the text beyond that it depends on the instant and the
/// pattern alone. A pattern that `chrono` cannot read would make it panic, so
/// only the one pattern is admitted.
#[verifier::external_body]
fn write_utc(at: i64, pattern: &str) -> (r: Option<String>)
    requires
        pattern@ == EXPIRY_PATTERN@,
    ensures
        opt_text(r) == utc_written(at, pattern@),
{
    chrono::DateTime::from_timestamp_millis(at).map(|when| when.format(pattern).to_string())
}

/// What is said of an account under moderation.
#[derive(Debug)]
pub struct ModeratedNotice {
    pub terminated: bool,
    pub title: &'static str,
    /// The account, unless names are hidden.
    pub who: Option<String>,
    pub reason: Option<String>,
    /// When it ends.
    pub expiry: Option<String>,
}

/// What is said of when a moderation ends. `shown` is how its end is written.
pub open spec fn expiry_of(info: ModerationInfo, shown: Option<Seq<char>>) -> Option<Seq<char>> {
    match (info.expires_at, shown) {
        (Some(_), Some(text)) => Some("Expires: "@ + text),
        (Some(_), None) => None,
        (None, _) => if info.is_banned {
            Some("Permanent termination."@)
        } else {
            None
        },
    }
}

/// Whether `n` is what is said of an account.
pub open spec fn notice_of(
    n: ModeratedNotice,
    account: Account,
    info: ModerationInfo,
    anonymize: bool,
    shown: Option<Seq<char>>,
) -> bool {
    &&& n.terminated == info.is_banned
    &&& n.title@ == if info.is_banned {
        "⚠ This account is terminated."@
    } else {
        "⚠ This account is currently moderated."@
    }
    &&& opt_text(n.who) == if anonymize {
        None
    } else {
        Some(account.display_name@ + " (@"@ + account.username@ + ")"@)
    }
    &&& n.reason == info.reason
    &&& opt_text(n.expiry) == expiry_of(info, shown)
}

/// What is said of an account under moderation. `shown` is how the end of the
/// moderation is written, where it has one.
pub fn notice(account: &Account, info: &ModerationInfo, anonymize: bool, shown: Option<String>) -> (n:
    ModeratedNotice)
    ensures
        notice_of(n, *account, *info, anonymize, opt_text(shown)),
{
    let title: &'static str = if info.is_banned {
        "⚠ This account is terminated."
    } else {
        "⚠ This account is currently moderated."
    };
    let who: Option<String> = if anonymize {
        None
    } else {
        let name: String = join3(&account.display_name, " (@", &account.username);
        Some(join2(&name, ")"))
    };
    let expiry: Option<String> = match (info.expires_at, shown) {
        (Some(_), Some(text)) => Some(join2("Expires: ", &text)),
        (Some(_), None) => None,
        (None, _) => if info.is_banned {
            Some("Permanent termination.".to_owned())
        } else {
            None
        },
    };
    ModeratedNotice {
        terminated: info.is_banned,
        title,
        who,
        reason: copy_of(&info.reason),
        expiry,
    }
}

/// How the end of a moderation is written, where it has one.
pub open spec fn end_written(info: ModerationInfo) -> Option<Seq<char>> {
    match info.expires_at {
        Some(at) => utc_written(at, EXPIRY_PATTERN@),
        None => None,
    }
}

impl AppState {
    /// What the dialog says of the account that waits for an answer. `None`
    /// where none does, or where nothing is held against it.
    pub fn moderated_notice(&self) -> (r: Option<ModeratedNotice>)
        ensures
            match self.dialog.pending_moderated {
                Some(p) => match p.account.moderation {
                    Some(info) => r is Some && notice_of(
                        r->0,
                        p.account,
                        info,
                        self.config.anonymize_names,
                        end_written(info),
                    ),
                    None => r is None,
                },
                None => r is None,
            },
    {
        match &self.dialog.pending_moderated {
            Some(p) => match &p.account.moderation {
                Some(info) => {
                    let shown: Option<String> = match info.expires_at {
                        Some(at) => write_utc(at, EXPIRY_PATTERN),
                        None => None,
                    };
                    Some(notice(&p.account, info, self.config.anonymize_names, shown))
                },
                None => None,
            },
            None => None,
        }
    }
}

} // verus!
