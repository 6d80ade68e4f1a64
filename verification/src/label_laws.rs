//! How accounts and clients are called on screen.

use vstd::prelude::*;

use crate::app::notice::{expiry_of, notice_of, ModeratedNotice};
use crate::labels::{display_name, summary, summary_line, summary_lines};
use crate::models::{position_facts, Account, Attribution, ModerationInfo, TrackedInstance};
use crate::text::{contains_text, decimal, opt_text, stands_at};

verus! {

/// An account that is there goes by its alias, or by its username where it has
/// none; while names are hidden it goes by its tag. One that is gone goes by its
/// number.
pub proof fn an_account_goes_by_its_alias(accounts: Seq<Account>, user_id: u64, i: int)
    requires
        0 <= i < accounts.len(),
        accounts[i].user_id == user_id,
        forall|j: int| 0 <= j < i ==> (#[trigger] accounts[j]).user_id != user_id,
    ensures
        accounts[i].alias@.len() > 0 ==> display_name(accounts, user_id, false)
            == accounts[i].alias@,
        accounts[i].alias@.len() == 0 ==> display_name(accounts, user_id, false)
            == accounts[i].username@,
        display_name(accounts, user_id, true) == "Account #"@ + accounts[i].anon_tag@,
        display_name(Seq::empty(), user_id, false) == "user "@ + decimal(user_id as nat),
{
    position_facts(accounts, user_id);
    position_facts(Seq::<Account>::empty(), user_id);
}

/// A line of the summary tells the process and the account of a client, and is
/// marked exactly where the account is a guess.
pub proof fn only_guesses_are_marked(c: TrackedInstance, accounts: Seq<Account>, hidden: bool)
    ensures
        c.attribution == Attribution::Exact ==> summary_line(c, accounts, hidden) == "  PID "@
            + decimal(c.pid as nat) + " - "@ + display_name(accounts, c.user_id, hidden),
        c.attribution == Attribution::Inferred ==> summary_line(c, accounts, hidden) == "  PID "@
            + decimal(c.pid as nat) + " - "@ + display_name(accounts, c.user_id, hidden)
            + "  (best guess)"@,
{
    reveal_strlit("");
    if c.attribution == Attribution::Exact {
        assert(summary_line(c, accounts, hidden) =~= "  PID "@ + decimal(c.pid as nat) + " - "@
            + display_name(accounts, c.user_id, hidden));
    }
}

/// The summary holds a line for each client, and tells how many more are running
/// than were matched.
pub proof fn the_summary_tells_of_every_client(
    clients: Seq<TrackedInstance>,
    accounts: Seq<Account>,
    hidden: bool,
    running: nat,
    i: int,
)
    requires
        0 <= i < clients.len(),
    ensures
        contains_text(
            summary(clients, accounts, hidden, running),
            summary_line(clients[i], accounts, hidden),
        ),
        running > clients.len() ==> contains_text(
            summary(clients, accounts, hidden, running),
            decimal((running - clients.len()) as nat),
        ),
{
    lines_hold_every_client(clients, accounts, hidden, i);
    let lines = summary_lines(clients, accounts, hidden);
    let all = summary(clients, accounts, hidden, running);
    let line = summary_line(clients[i], accounts, hidden);
    let at = choose|at: int| stands_at(lines, line, at);
    assert(all.subrange(at, at + line.len()) =~= lines.subrange(at, at + line.len()));
    assert(stands_at(all, line, at));
    if running > clients.len() {
        let more = decimal((running - clients.len()) as nat);
        let from = (lines + "\n"@).len() as int;
        assert(all.subrange(from, from + more.len()) =~= more);
        assert(stands_at(all, more, from));
    }
}

proof fn lines_hold_every_client(
    clients: Seq<TrackedInstance>,
    accounts: Seq<Account>,
    hidden: bool,
    i: int,
)
    requires
        0 <= i < clients.len(),
    ensures
        contains_text(
            summary_lines(clients, accounts, hidden),
            summary_line(clients[i], accounts, hidden),
        ),
    decreases clients.len(),
{
    let front = clients.drop_last();
    let rest = summary_lines(front, accounts, hidden);
    let all = summary_lines(clients, accounts, hidden);
    let line = summary_line(clients[i], accounts, hidden);
    if i < front.len() {
        lines_hold_every_client(front, accounts, hidden, i);
        assert(front[i] == clients[i]);
        let at = choose|at: int| stands_at(rest, line, at);
        assert(all.subrange(at, at + line.len()) =~= rest.subrange(at, at + line.len()));
        assert(stands_at(all, line, at));
    } else {
        let from = (rest + "\n"@).len() as int;
        assert(all.subrange(from, from + line.len()) =~= line);
        assert(stands_at(all, line, from));
    }
}

/// A notice tells whether the account is terminated, why, and until when; it
/// names the account unless names are hidden.
pub proof fn a_notice_tells_why_and_until_when(
    n: ModeratedNotice,
    account: Account,
    info: ModerationInfo,
    hidden: bool,
    shown: Option<Seq<char>>,
)
    requires
        notice_of(n, account, info, hidden, shown),
    ensures
        n.terminated <==> info.is_banned,
        n.reason == info.reason,
        n.who is None <==> hidden,
        !hidden ==> opt_text(n.who) == Some(
            account.display_name@ + " (@"@ + account.username@ + ")"@,
        ),
        info.expires_at is Some ==> (shown matches Some(text) ==> opt_text(n.expiry) == Some(
            "Expires: "@ + text,
        )),
        info.expires_at is None && info.is_banned ==> opt_text(n.expiry) == Some(
            "Permanent termination."@,
        ),
        info.expires_at is None && !info.is_banned ==> n.expiry is None,
        opt_text(n.expiry) == expiry_of(info, shown),
{
}

} // verus!
