//! How accounts and their clients are named on screen.
//!
//! A window title can be read by every process on the machine and shows up in
//! screenshots and streams. While names are hidden, neither a title nor a hint
//! may hold a username or an alias.

use vstd::prelude::*;

use crate::models::{position_in, position_of, Account, Attribution, TrackedInstance};
use crate::text::{decimal, decimal_of, join2, join3};

verus! {

/// How an account is named in anything that is shown or set on screen.
pub open spec fn display_name(accounts: Seq<Account>, user_id: u64, anonymize_names: bool) -> Seq<
    char,
> {
    match position_in(accounts, user_id) {
        Some(i) => if anonymize_names {
            "Account #"@ + accounts[i].anon_tag@
        } else {
            accounts[i].shown_as()
        },
        None => "user "@ + decimal(user_id as nat),
    }
}

/// How an account is named in anything that is shown or set on screen: by its
/// label, by its tag while names are hidden, by its number once it is gone.
pub fn account_display_label(accounts: &Vec<Account>, user_id: u64, anonymize_names: bool) -> (s:
    String)
    ensures
        s@ == display_name(accounts@, user_id, anonymize_names),
{
    match position_of(accounts, user_id) {
        Some(i) => {
            if anonymize_names {
                join2("Account #", &accounts[i].anon_tag)
            } else {
                accounts[i].label().to_owned()
            }
        },
        None => join2("user ", &decimal_of(user_id)),
    }
}

/// Whether `titles` names every client after its account, in order.
pub open spec fn titles_name(
    titles: Seq<(u32, String)>,
    clients: Seq<TrackedInstance>,
    accounts: Seq<Account>,
    anonymize_names: bool,
) -> bool {
    &&& titles.len() == clients.len()
    &&& forall|i: int|
        0 <= i < clients.len() ==> (#[trigger] titles[i]).0 == clients[i].pid && titles[i].1@
            == display_name(accounts, clients[i].user_id, anonymize_names)
}

/// What each client's window should be called. Guessed clients are titled too:
/// a wrong name on a title bar is harmless.
pub fn instance_window_titles(
    clients: &Vec<TrackedInstance>,
    accounts: &Vec<Account>,
    anonymize_names: bool,
) -> (titles: Vec<(u32, String)>)
    ensures
        titles_name(titles@, clients@, accounts@, anonymize_names),
{
    let mut titles: Vec<(u32, String)> = Vec::new();
    let mut i: usize = 0;
    while i < clients.len()
        invariant
            0 <= i <= clients@.len(),
            titles@.len() == i,
            forall|j: int|
                0 <= j < i ==> (#[trigger] titles@[j]).0 == clients@[j].pid && titles@[j].1@
                    == display_name(accounts@, clients@[j].user_id, anonymize_names),
        decreases clients@.len() - i,
    {
        titles.push(
            (
                clients[i].pid,
                account_display_label(accounts, clients[i].user_id, anonymize_names),
            ),
        );
        i += 1;
    }
    titles
}

/// One line of the summary. Only guesses are marked: a line without a mark was
/// read off the client's own command line.
pub open spec fn summary_line(
    instance: TrackedInstance,
    accounts: Seq<Account>,
    anonymize_names: bool,
) -> Seq<char> {
    "  PID "@ + decimal(instance.pid as nat) + " - "@ + display_name(
        accounts,
        instance.user_id,
        anonymize_names,
    ) + (match instance.attribution {
        Attribution::Exact => ""@,
        Attribution::Inferred => "  (best guess)"@,
    })
}

/// The heading and a line for each client.
pub open spec fn summary_lines(
    clients: Seq<TrackedInstance>,
    accounts: Seq<Account>,
    anonymize_names: bool,
) -> Seq<char>
    decreases clients.len(),
{
    if clients.len() == 0 {
        "Launched by RM:"@
    } else {
        summary_lines(clients.drop_last(), accounts, anonymize_names) + "\n"@ + summary_line(
            clients.last(),
            accounts,
            anonymize_names,
        )
    }
}

/// The summary of which client belongs to which account.
pub open spec fn summary(
    clients: Seq<TrackedInstance>,
    accounts: Seq<Account>,
    anonymize_names: bool,
    running: nat,
) -> Seq<char> {
    if clients.len() == 0 {
        "None of these were launched by RM, or they have not been matched to an account yet."@
    } else if running > clients.len() {
        summary_lines(clients, accounts, anonymize_names) + "\n"@ + decimal(
            (running - clients.len()) as nat,
        ) + " other instance(s) not matched to an account."@
    } else {
        summary_lines(clients, accounts, anonymize_names)
    }
}

/// The summary of which client belongs to which account. The running count
/// comes from another sample than the list, and may be behind it.
pub fn attribution_summary(
    clients: &Vec<TrackedInstance>,
    accounts: &Vec<Account>,
    anonymize_names: bool,
    roblox_instance_count: usize,
) -> (s: String)
    ensures
        s@ == summary(clients@, accounts@, anonymize_names, roblox_instance_count as nat),
{
    if clients.len() == 0 {
        return "None of these were launched by RM, or they have not been matched to an account yet.".to_owned();
    }
    let mut s: String = "Launched by RM:".to_owned();
    let mut i: usize = 0;
    assert(clients@.take(0) =~= Seq::<TrackedInstance>::empty());
    while i < clients.len()
        invariant
            0 <= i <= clients@.len(),
            s@ == summary_lines(clients@.take(i as int), accounts@, anonymize_names),
        decreases clients@.len() - i,
    {
        let instance: TrackedInstance = clients[i];
        let ghost start = s@;
        s.append("\n");
        s.append("  PID ");
        s.append(&decimal_of(instance.pid as u64));
        s.append(" - ");
        s.append(&account_display_label(accounts, instance.user_id, anonymize_names));
        match instance.attribution {
            Attribution::Exact => s.append(""),
            Attribution::Inferred => s.append("  (best guess)"),
        }
        proof {
            assert(clients@.take(i + 1).drop_last() =~= clients@.take(i as int));
            assert(s@ =~= start + "\n"@ + summary_line(instance, accounts@, anonymize_names));
        }
        i += 1;
    }
    assert(clients@.take(i as int) =~= clients@);
    if roblox_instance_count > clients.len() {
        let others: usize = roblox_instance_count - clients.len();
        s.append("\n");
        s.append(&decimal_of(others as u64));
        s.append(" other instance(s) not matched to an account.");
    }
    s
}

/// Whether two lists hold the same accounts under the same tags, whatever the
/// accounts are called.
pub open spec fn same_but_for_names(one: Seq<Account>, other: Seq<Account>) -> bool {
    &&& one.len() == other.len()
    &&& forall|i: int|
        0 <= i < one.len() ==> (#[trigger] one[i]).user_id == (#[trigger] other[i]).user_id
            && one[i].anon_tag@ == other[i].anon_tag@
}

proof fn same_positions(one: Seq<Account>, other: Seq<Account>, user_id: u64)
    requires
        same_but_for_names(one, other),
    ensures
        position_in(one, user_id) == position_in(other, user_id),
{
    crate::models::position_facts(one, user_id);
    crate::models::position_facts(other, user_id);
    match position_in(one, user_id) {
        Some(i) => {
            assert(one[i].user_id == other[i].user_id);
            assert forall|j: int| 0 <= j < i implies (#[trigger] other[j]).user_id != user_id by {
                assert(one[j].user_id == other[j].user_id);
            }
            crate::models::position_is_first(other, user_id, i);
        },
        None => {
            assert forall|j: int| 0 <= j < other.len() implies (#[trigger] other[j]).user_id
                != user_id by {
                assert(one[j].user_id == other[j].user_id);
            }
            crate::models::position_is_none(other, user_id);
        },
    }
}

/// The tag of an account in a list, if it is there.
pub open spec fn tag_in(accounts: Seq<Account>, user_id: u64) -> Option<Seq<char>> {
    match position_in(accounts, user_id) {
        Some(i) => Some(accounts[i].anon_tag@),
        None => None,
    }
}

/// While names are hidden, how an account is shown does not depend on any
/// username, display name or alias.
pub proof fn hidden_names_do_not_show(one: Seq<Account>, other: Seq<Account>, user_id: u64)
    requires
        same_but_for_names(one, other),
    ensures
        tag_in(one, user_id) == tag_in(other, user_id),
        display_name(one, user_id, true) == display_name(other, user_id, true),
{
    same_positions(one, other, user_id);
    crate::models::position_facts(one, user_id);
    match position_in(one, user_id) {
        Some(i) => {
            assert(one[i].anon_tag@ == other[i].anon_tag@);
        },
        None => {},
    }
}

/// While names are hidden, how an account is shown is the same in any two lists
/// that hold it under one tag, or that both lack it, whatever else they hold.
/// An account that is not there is shown by its number either way.
pub proof fn a_hidden_label_needs_no_more_than_the_tag(
    one: Seq<Account>,
    other: Seq<Account>,
    user_id: u64,
)
    requires
        tag_in(one, user_id) == tag_in(other, user_id),
    ensures
        display_name(one, user_id, true) == display_name(other, user_id, true),
        display_name(one, user_id, true) == match tag_in(one, user_id) {
            Some(tag) => "Account #"@ + tag,
            None => "user "@ + decimal(user_id as nat),
        },
        tag_in(one, user_id) is None ==> display_name(one, user_id, false) == display_name(
            other,
            user_id,
            true,
        ),
{
}

/// Whether every account of a list carries the tag that its identifier has.
pub open spec fn tagged_by(accounts: Seq<Account>, tag: spec_fn(u64) -> Seq<char>) -> bool {
    forall|i: int|
        0 <= i < accounts.len() ==> (#[trigger] accounts[i]).anon_tag@ == tag(accounts[i].user_id)
}

/// Whether an account is in a list.
pub open spec fn is_listed(accounts: Seq<Account>, user_id: u64) -> bool {
    exists|i: int| 0 <= i < accounts.len() && (#[trigger] accounts[i]).user_id == user_id
}

/// Where a tag is a function of the identifier, a hidden label depends on the
/// identifier alone, and on whether the account is there: in any two lists that
/// both hold an account, or both lack it, it is shown alike, whatever their
/// accounts are called. An account that is not there is shown by its number,
/// also where names are not hidden.
pub proof fn a_hidden_label_depends_on_the_identifier_alone(
    one: Seq<Account>,
    other: Seq<Account>,
    user_id: u64,
    tag: spec_fn(u64) -> Seq<char>,
)
    requires
        tagged_by(one, tag),
        tagged_by(other, tag),
        is_listed(one, user_id) == is_listed(other, user_id),
    ensures
        display_name(one, user_id, true) == display_name(other, user_id, true),
        display_name(one, user_id, true) == if is_listed(one, user_id) {
            "Account #"@ + tag(user_id)
        } else {
            "user "@ + decimal(user_id as nat)
        },
        !is_listed(one, user_id) ==> display_name(one, user_id, false) == "user "@ + decimal(user_id as nat)
            && display_name(other, user_id, false) == "user "@ + decimal(user_id as nat),
{
    crate::models::position_facts(one, user_id);
    crate::models::position_facts(other, user_id);
}

/// While names are hidden, the summary is the same for any two lists that have
/// the same tags for the accounts of the clients. It does not depend on any
/// username, display name or alias.
pub proof fn hidden_names_stay_out_of_the_summary(
    clients: Seq<TrackedInstance>,
    one: Seq<Account>,
    other: Seq<Account>,
    running: nat,
)
    requires
        forall|i: int|
            0 <= i < clients.len() ==> tag_in(one, (#[trigger] clients[i]).user_id) == tag_in(
                other,
                clients[i].user_id,
            ),
    ensures
        summary(clients, one, true, running) == summary(clients, other, true, running),
{
    hidden_names_stay_out_of_lines(clients, one, other);
}

proof fn hidden_names_stay_out_of_lines(
    clients: Seq<TrackedInstance>,
    one: Seq<Account>,
    other: Seq<Account>,
)
    requires
        forall|i: int|
            0 <= i < clients.len() ==> tag_in(one, (#[trigger] clients[i]).user_id) == tag_in(
                other,
                clients[i].user_id,
            ),
    ensures
        summary_lines(clients, one, true) == summary_lines(clients, other, true),
    decreases clients.len(),
{
    if clients.len() > 0 {
        let rest = clients.drop_last();
        assert forall|i: int| 0 <= i < rest.len() implies tag_in(
            one,
            (#[trigger] rest[i]).user_id,
        ) == tag_in(other, rest[i].user_id) by {
            assert(rest[i] == clients[i]);
        }
        hidden_names_stay_out_of_lines(rest, one, other);
        assert(clients.last() == clients[clients.len() - 1]);
        a_hidden_label_needs_no_more_than_the_tag(one, other, clients.last().user_id);
    }
}

/// The badge of running clients.
pub fn instances_badge(count: usize) -> (s: String)
    ensures
        s@ == "\u{25cf} "@ + decimal(count as nat) + (if count == 1 {
            " Roblox instance"@
        } else {
            " Roblox instances"@
        }),
{
    join3(
        "\u{25cf} ",
        &decimal_of(count as u64),
        if count == 1 {
            " Roblox instance"
        } else {
            " Roblox instances"
        },
    )
}

} // verus!
