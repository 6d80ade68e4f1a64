//! What validating every cookie again comes to, over all its steps.

use vstd::prelude::*;

use super::add_laws::found_without_cookie;
use super::misc::{
    go_on, next_openable_facts, revalidate_step, revalidate_wf, run_of, RevalidateStage,
    Revalidation,
};
use super::runs::{fits_revalidate, Run};
use super::{Reply, Stage, TaskError, Then};
use crate::bridge::{BackendCommand, BackendEvent};
use crate::models::StoreSession;

verus! {

/// The accounts whose cookies are to be validated again.
pub struct Roll {
    pub accounts: Vec<(u64, Option<String>)>,
    pub session: StoreSession,
    pub use_credential_manager: bool,
}

impl Roll {
    /// The command.
    pub open spec fn command(self) -> BackendCommand {
        BackendCommand::RevalidateAll {
            accounts: self.accounts,
            session: self.session,
            use_credential_manager: self.use_credential_manager,
        }
    }

    /// Whether there is a cookie for the account at `i`.
    pub open spec fn has_cookie(self, i: int) -> bool {
        self.use_credential_manager || self.accounts@[i].1 is Some
    }
}

/// The stage whose question step `k` asks.
pub open spec fn stage_at(run: Run, k: int) -> RevalidateStage {
    run.steps[k].go->Ask_0->Revalidate_0
}

/// The account that step `k` is about.
pub open spec fn turn_at(run: Run, k: int) -> int {
    run_of(stage_at(run, k)).at as int
}

proof fn going_on_finds_the_next(r: Revalidation, at: int)
    requires
        0 <= at,
    ensures
        match go_on(r, at) {
            Then::Ask(Stage::Revalidate(RevalidateStage::OpeningCookie { run: next })) => {
                &&& next.accounts == r.accounts
                &&& next.session == r.session
                &&& next.use_credential_manager == r.use_credential_manager
                &&& at <= next.at < r.accounts@.len()
                &&& r.use_credential_manager || r.accounts@[next.at as int].1 is Some
                &&& forall|j: int|
                    at <= j < next.at ==> !r.use_credential_manager && (
                    #[trigger] r.accounts@[j]).1 is None
            },
            Then::Done(event) => {
                &&& event == BackendEvent::StoreSaved
                &&& forall|j: int|
                    at <= j < r.accounts@.len() ==> !r.use_credential_manager && (
                    #[trigger] r.accounts@[j]).1 is None
            },
            _ => false,
        },
{
    assert(r.accounts.len() == r.accounts@.len());
    next_openable_facts(r.accounts@, r.use_credential_manager, at);
}

/// Every step keeps to the accounts and the key of the command, and is about an
/// account of the list that has a cookie. The run ends without a word of its
/// own, and fails only by an answer that is not of the sort that was asked for.
pub proof fn validating_again_keeps_to_its_accounts(run: Run, roll: Roll, k: int)
    requires
        run.of(roll.command()),
        run.has(k),
    ensures
        run.steps[k].go matches Then::Ask(stage) ==> (stage matches Stage::Revalidate(s) && {
            &&& run_of(s).accounts == roll.accounts
            &&& run_of(s).session == roll.session
            &&& run_of(s).use_credential_manager == roll.use_credential_manager
            &&& run_of(s).at < roll.accounts@.len()
            &&& roll.has_cookie(run_of(s).at as int)
        }),
        run.steps[k].go matches Then::Done(event) ==> event == BackendEvent::StoreSaved,
        run.steps[k].go matches Then::Failed(e) ==> e == TaskError::OutOfStep && k > 0
            && !fits_revalidate(stage_at(run, k - 1), run.reply(k - 1)),
        run.steps[k].go !is UploadFailed,
        k == 0 ==> run.steps[0].tell is None,
        k == 0 && run.steps[0].go is Ask ==> stage_at(run, 0) is OpeningCookie,
    decreases k,
{
    if k > 0 {
        validating_again_keeps_to_its_accounts(run, roll, k - 1);
        assert(run.moves(k - 1));
        going_on_finds_the_next(run_of(stage_at(run, k - 1)), turn_at(run, k - 1) + 1);
    } else {
        going_on_finds_the_next(
            Revalidation {
                accounts: roll.accounts,
                session: roll.session,
                use_credential_manager: roll.use_credential_manager,
                at: 0,
            },
            0,
        );
    }
}

/// Whether step `k` opens the cookie of the account at `i`.
pub open spec fn opens(run: Run, k: int, i: int) -> bool {
    run.steps[k].go matches Then::Ask(Stage::Revalidate(RevalidateStage::OpeningCookie { run: r }))
        && r.at == i
}

/// Whether the cookie of the account at `i` was to be opened before step `k`.
pub open spec fn was_opened(run: Run, k: int, i: int) -> bool {
    exists|j: int| 0 <= j < k && #[trigger] opens(run, j, i)
}

/// Every account that has a cookie gets its turn, once, in the order of the
/// list; when the run is done, all have had it.
pub proof fn every_account_gets_its_turn(run: Run, roll: Roll, k: int)
    requires
        run.of(roll.command()),
        run.has(k),
    ensures
        run.steps[k].go is Ask ==> {
            &&& forall|i: int|
                0 <= i < turn_at(run, k) && roll.has_cookie(i) ==> #[trigger] was_opened(run, k, i)
            &&& forall|i: int| #[trigger]
                was_opened(run, k, i) ==> i < turn_at(run, k) || (i == turn_at(run, k)
                    && stage_at(run, k) !is OpeningCookie)
            &&& stage_at(run, k) !is OpeningCookie ==> was_opened(run, k, turn_at(run, k))
        },
        run.steps[k].go is Done ==> forall|i: int|
            0 <= i < roll.accounts@.len() && roll.has_cookie(i) ==> #[trigger] was_opened(
                run,
                k,
                i,
            ),
    decreases k,
{
    validating_again_keeps_to_its_accounts(run, roll, k);
    if k > 0 {
        validating_again_keeps_to_its_accounts(run, roll, k - 1);
        every_account_gets_its_turn(run, roll, k - 1);
        assert(run.moves(k - 1));
        let at = turn_at(run, k - 1);
        going_on_finds_the_next(run_of(stage_at(run, k - 1)), at + 1);
        assert forall|i: int| was_opened(run, k - 1, i) implies #[trigger] was_opened(run, k, i) by {
            let j = choose|j: int| 0 <= j < k - 1 && #[trigger] opens(run, j, i);
            assert(opens(run, j, i));
        }
        assert forall|i: int| #[trigger] was_opened(run, k, i) implies was_opened(run, k - 1, i)
            || opens(run, k - 1, i) by {
            let j = choose|j: int| 0 <= j < k && #[trigger] opens(run, j, i);
            if j < k - 1 {
                assert(was_opened(run, k - 1, i));
            }
        }
        if stage_at(run, k - 1) is OpeningCookie {
            assert(opens(run, k - 1, at));
        }
        assert(was_opened(run, k, at));
    } else {
        going_on_finds_the_next(
            Revalidation {
                accounts: roll.accounts,
                session: roll.session,
                use_credential_manager: roll.use_credential_manager,
                at: 0,
            },
            0,
        );
        assert forall|i: int| !#[trigger] was_opened(run, k, i) by {}
    }
}

/// Whether step `k` goes on to an account after the one at `i`, or ends the run.
pub open spec fn goes_past(run: Run, k: int, i: int) -> bool {
    run.steps[k].go is Done || (run.steps[k].go is Ask && stage_at(run, k) is OpeningCookie
        && turn_at(run, k) > i)
}

/// Whether step `k` is still about the account at `i`, beyond its cookie, and
/// tells nothing.
pub open spec fn stays_with(run: Run, k: int, i: int) -> bool {
    &&& run.steps[k].go is Ask
    &&& stage_at(run, k) !is OpeningCookie
    &&& turn_at(run, k) == i
    &&& run.steps[k].tell is None
}

/// The moderation record that an answer gives.
pub open spec fn record_in(reply: Reply) -> Option<crate::models::ModerationInfo> {
    match reply {
        Reply::Moderation(Ok(info)) => info,
        _ => None,
    }
}

/// A cookie that is still good: once it was opened and its owner answered, the
/// account is told, once, by its names and with what moderation says of it, and
/// then the run goes on to the next.
pub proof fn a_good_cookie_is_told_with_its_names(run: Run, roll: Roll, j: int, i: int)
    requires
        run.of(roll.command()),
        0 <= j,
        j + 3 < run.steps.len(),
        opens(run, j, i),
        run.reply(j) matches Reply::Cookie(Ok(_)),
        run.reply(j + 1) matches Reply::Identity(Ok(_)),
        run.reply(j + 2) is Moderation,
    ensures
        stays_with(run, j + 1, i),
        stays_with(run, j + 2, i),
        run.steps[j + 3].tell matches Some(
            BackendEvent::AccountRevalidated { user_id, names, moderation },
        ) && user_id == roll.accounts@[i].0 && names == Some(
            (
                run.reply(j + 1)->Identity_0->Ok_0.username,
                run.reply(j + 1)->Identity_0->Ok_0.display_name,
            ),
        ) && moderation == record_in(run.reply(j + 2)),
        goes_past(run, j + 3, i),
{
    validating_again_keeps_to_its_accounts(run, roll, j);
    let r = run_of(stage_at(run, j));
    let cookie = run.reply(j)->Cookie_0->Ok_0;
    let who = run.reply(j + 1)->Identity_0->Ok_0;
    assert(run.steps[j + 1] == super::ask(
        Stage::Revalidate(RevalidateStage::Validating { run: r, cookie }),
    )) by {
        assert(run.moves(j));
    }
    assert(run.steps[j + 2] == super::ask(
        Stage::Revalidate(
            RevalidateStage::Moderating {
                run: r,
                cookie,
                username: who.username,
                display_name: who.display_name,
            },
        ),
    )) by {
        assert(run.moves(j + 1));
    }
    assert(run.moves(j + 2));
    going_on_finds_the_next(r, i + 1);
}

/// A cookie that has gone bad: once it was opened and refused, the account is
/// told, once, without names and with what can be found out without its cookie,
/// and then the run goes on to the next.
pub proof fn a_bad_cookie_is_told_without_names(run: Run, roll: Roll, j: int, i: int)
    requires
        run.of(roll.command()),
        0 <= j,
        j + 4 < run.steps.len(),
        opens(run, j, i),
        run.reply(j) matches Reply::Cookie(Ok(_)),
        run.reply(j + 1) matches Reply::Identity(Err(_)),
        run.reply(j + 2) is Banned,
        run.reply(j + 3) is Message,
    ensures
        stays_with(run, j + 1, i),
        stays_with(run, j + 2, i),
        stays_with(run, j + 3, i),
        run.steps[j + 4].tell matches Some(
            BackendEvent::AccountRevalidated { user_id, names, moderation },
        ) && user_id == roll.accounts@[i].0 && names is None && found_without_cookie(
            moderation,
            run.reply(j + 2),
            run.reply(j + 3),
            run.time(j + 3),
        ),
        goes_past(run, j + 4, i),
{
    validating_again_keeps_to_its_accounts(run, roll, j);
    let r = run_of(stage_at(run, j));
    let cookie = run.reply(j)->Cookie_0->Ok_0;
    assert(run.steps[j + 1] == super::ask(
        Stage::Revalidate(RevalidateStage::Validating { run: r, cookie }),
    )) by {
        assert(run.moves(j));
    }
    assert(run.steps[j + 2] == super::ask(
        Stage::Revalidate(RevalidateStage::CheckingBan { run: r, cookie }),
    )) by {
        assert(run.moves(j + 1));
    }
    let is_banned = run.reply(j + 2) matches Reply::Banned(Ok(b)) && b;
    assert(run.steps[j + 3] == super::ask(
        Stage::Revalidate(RevalidateStage::Reasoning { run: r, cookie, is_banned }),
    )) by {
        assert(run.moves(j + 2));
    }
    assert(run.moves(j + 3));
    going_on_finds_the_next(r, i + 1);
}

/// A cookie that cannot be opened is passed over: nothing is told of its
/// account, and the run goes on to the next.
pub proof fn a_closed_cookie_is_passed_over(run: Run, roll: Roll, j: int, i: int)
    requires
        run.of(roll.command()),
        0 <= j,
        j + 1 < run.steps.len(),
        opens(run, j, i),
        run.reply(j) matches Reply::Cookie(Err(_)),
    ensures
        run.steps[j + 1].tell is None,
        goes_past(run, j + 1, i),
{
    validating_again_keeps_to_its_accounts(run, roll, j);
    assert(run.moves(j));
    going_on_finds_the_next(run_of(stage_at(run, j)), i + 1);
}

/// What each question follows on: a cookie that was opened, an owner that
/// answered, a refusal, a ban that was asked about.
pub open spec fn question_follows(run: Run, k: int) -> bool {
    match stage_at(run, k) {
        RevalidateStage::OpeningCookie { .. } => true,
        RevalidateStage::Validating { cookie, .. } => {
            &&& k > 0
            &&& opens(run, k - 1, turn_at(run, k))
            &&& run.reply(k - 1) == Reply::Cookie(Ok(cookie))
        },
        RevalidateStage::Moderating { cookie, username, display_name, .. } => {
            &&& k > 1
            &&& opens(run, k - 2, turn_at(run, k))
            &&& run.reply(k - 2) == Reply::Cookie(Ok(cookie))
            &&& run.reply(k - 1) matches Reply::Identity(Ok(who)) && who.username == username
                && who.display_name == display_name
        },
        RevalidateStage::CheckingBan { cookie, .. } => {
            &&& k > 1
            &&& opens(run, k - 2, turn_at(run, k))
            &&& run.reply(k - 2) == Reply::Cookie(Ok(cookie))
            &&& run.reply(k - 1) matches Reply::Identity(Err(_))
        },
        RevalidateStage::Reasoning { cookie, .. } => {
            &&& k > 2
            &&& opens(run, k - 3, turn_at(run, k))
            &&& run.reply(k - 3) == Reply::Cookie(Ok(cookie))
            &&& run.reply(k - 2) matches Reply::Identity(Err(_))
            &&& run.reply(k - 1) is Banned
        },
    }
}

proof fn questions_follow(run: Run, roll: Roll, k: int)
    requires
        run.of(roll.command()),
        run.has(k),
        run.steps[k].go is Ask,
    ensures
        question_follows(run, k),
    decreases k,
{
    validating_again_keeps_to_its_accounts(run, roll, k);
    if k > 0 {
        assert(run.moves(k - 1));
        validating_again_keeps_to_its_accounts(run, roll, k - 1);
        questions_follow(run, roll, k - 1);
        going_on_finds_the_next(run_of(stage_at(run, k - 1)), turn_at(run, k - 1) + 1);
    }
}

/// Each question uses the cookie that was opened for its own account, and
/// nothing is told but of an account whose cookie was opened: by its names where
/// its owner answered, and without where the cookie was refused.
pub proof fn only_opened_accounts_are_told(run: Run, roll: Roll, k: int)
    requires
        run.of(roll.command()),
        run.has(k),
    ensures
        run.steps[k].go is Ask ==> question_follows(run, k),
        run.steps[k].tell matches Some(event) ==> (
        event matches BackendEvent::AccountRevalidated { user_id, names, .. } && {
            ||| {
                &&& names is Some
                &&& k > 2
                &&& opens(run, k - 3, turn_at(run, k - 3))
                &&& user_id == roll.accounts@[turn_at(run, k - 3)].0
                &&& run.reply(k - 3) matches Reply::Cookie(Ok(_))
                &&& run.reply(k - 2) matches Reply::Identity(Ok(_))
            }
            ||| {
                &&& names is None
                &&& k > 3
                &&& opens(run, k - 4, turn_at(run, k - 4))
                &&& user_id == roll.accounts@[turn_at(run, k - 4)].0
                &&& run.reply(k - 4) matches Reply::Cookie(Ok(_))
                &&& run.reply(k - 3) matches Reply::Identity(Err(_))
            }
        }),
{
    validating_again_keeps_to_its_accounts(run, roll, k);
    if run.steps[k].go is Ask {
        questions_follow(run, roll, k);
    }
    if k > 0 {
        assert(run.moves(k - 1));
        validating_again_keeps_to_its_accounts(run, roll, k - 1);
        questions_follow(run, roll, k - 1);
    }
}

proof fn validating_moves_on(stage: RevalidateStage, reply: Reply, now: i64)
    requires
        revalidate_wf(stage),
    ensures
        revalidate_step(stage, reply, now).go matches Then::Ask(s) ==> (
        s matches Stage::Revalidate(next) && (4 * run_of(next).at + asked_so_far(next)) > (4
            * run_of(stage).at + asked_so_far(stage))),
{
    let r = run_of(stage);
    going_on_finds_the_next(r, r.at + 1);
}

/// How many questions about its account come before that of a stage, at most.
pub open spec fn asked_so_far(stage: RevalidateStage) -> int {
    match stage {
        RevalidateStage::OpeningCookie { .. } => 0,
        RevalidateStage::Validating { .. } => 1,
        RevalidateStage::Moderating { .. } => 2,
        RevalidateStage::CheckingBan { .. } => 2,
        RevalidateStage::Reasoning { .. } => 3,
    }
}

/// The run comes to an end: it asks no more than four questions about each
/// account.
pub proof fn validating_again_comes_to_an_end(run: Run, roll: Roll, k: int)
    requires
        run.of(roll.command()),
        run.has(k),
    ensures
        run.steps[k].go is Ask ==> k <= 4 * turn_at(run, k) + asked_so_far(stage_at(run, k)),
        k <= 4 * roll.accounts@.len(),
    decreases k,
{
    validating_again_keeps_to_its_accounts(run, roll, k);
    if k > 0 {
        assert(run.moves(k - 1));
        validating_again_keeps_to_its_accounts(run, roll, k - 1);
        validating_again_comes_to_an_end(run, roll, k - 1);
        validating_moves_on(stage_at(run, k - 1), run.reply(k - 1), run.time(k - 1));
    }
}

} // verus!
