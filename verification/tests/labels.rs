//! What running clients are called: the summary of the badge and the titles of
//! windows.

use ram_ui::labels::{
    account_display_label, attribution_summary, instance_window_titles, instances_badge,
};
use ram_ui::models::{Account, Attribution, TrackedInstance};

/// A client whose token was read off its command line, which is the normal
/// case.
fn instance(pid: u32, user_id: u64) -> TrackedInstance {
    TrackedInstance {
        pid,
        start_time: 1_000,
        user_id,
        place_id: 606,
        launchtime: 1_700_000_000_000 + pid as i64,
        launched_at: 1_700_000_000_000,
        attribution: Attribution::Exact,
    }
}

/// A client whose command line could not be read, paired by appearance order.
fn guessed(pid: u32, user_id: u64) -> TrackedInstance {
    TrackedInstance { attribution: Attribution::Inferred, ..instance(pid, user_id) }
}

fn tag(user_id: u64) -> String {
    format!("{:04}", user_id * 37)
}

fn account(user_id: u64, username: &str) -> Account {
    Account::new(user_id, username.to_string(), username.to_string(), tag(user_id))
}

#[test]
fn nothing_tracked_says_so_without_claiming_there_is_nothing_running() {
    let summary = attribution_summary(&vec![], &vec![account(7, "alice")], false, 3);
    assert_eq!(
        summary,
        "None of these were launched by RM, or they have not been \
         matched to an account yet."
    );
    // The count is not mentioned at all: with no mappings there is nothing to
    // say about which of the three is whose.
    assert!(!summary.contains('3'), "{summary}");
}

#[test]
fn each_tracked_pid_is_listed_against_its_account_label() {
    let accounts = vec![account(7, "alice"), account(8, "bob")];
    let clients = vec![instance(1234, 7), instance(5678, 8)];

    let summary = attribution_summary(&clients, &accounts, false, 2);

    assert_eq!(summary, "Launched by RM:\n  PID 1234 - alice\n  PID 5678 - bob");
}

/// A confirmed line and a guessed line must not read the same.
#[test]
fn only_the_guessed_lines_are_marked_as_guesses() {
    let accounts = vec![account(7, "alice"), account(8, "bob")];
    let clients = vec![instance(1234, 7), guessed(5678, 8)];

    let summary = attribution_summary(&clients, &accounts, false, 2);

    assert_eq!(
        summary,
        "Launched by RM:\n  PID 1234 - alice\n  PID 5678 - bob  (best guess)"
    );
}

#[test]
fn each_attributed_client_is_titled_with_its_account_label() {
    let mut bob = account(8, "bob");
    bob.alias = "farmer".to_string();
    let accounts = vec![account(7, "alice"), bob];
    let clients = vec![instance(1234, 7), instance(5678, 8)];

    assert_eq!(
        instance_window_titles(&clients, &accounts, false),
        vec![(1234, "alice".to_string()), (5678, "farmer".to_string())]
    );
}

/// A window title is readable by every process on the machine and appears in
/// screenshots, so hidden names must not be written into one.
#[test]
fn anonymize_keeps_names_out_of_window_titles() {
    let mut bob = account(8, "bob");
    bob.alias = "farmer".to_string();
    let accounts = vec![account(7, "alice"), bob];
    let clients = vec![instance(1234, 7), instance(5678, 8)];

    let titles = instance_window_titles(&clients, &accounts, true);

    for (_, title) in &titles {
        assert!(!title.contains("alice"), "{title}");
        assert!(!title.contains("bob"), "{title}");
        assert!(!title.contains("farmer"), "alias leaked: {title}");
    }
    assert_eq!(
        titles,
        vec![
            (1234, format!("Account #{}", tag(7))),
            (5678, format!("Account #{}", tag(8))),
        ]
    );
}

/// An inferred mapping still gets a title: being wrong about one is cosmetic.
#[test]
fn an_inferred_client_is_titled_too() {
    let accounts = vec![account(7, "alice")];
    assert_eq!(
        instance_window_titles(&vec![guessed(1234, 7)], &accounts, false),
        vec![(1234, "alice".to_string())]
    );
}

#[test]
fn a_client_whose_account_is_gone_is_titled_with_its_raw_id() {
    assert_eq!(
        instance_window_titles(&vec![instance(1234, 99)], &vec![], false),
        vec![(1234, "user 99".to_string())]
    );
}

#[test]
fn an_alias_wins_over_the_username() {
    let mut a = account(7, "alice");
    a.alias = "main".to_string();
    let summary = attribution_summary(&vec![instance(1234, 7)], &vec![a], false, 1);
    assert!(summary.contains("PID 1234 - main"), "{summary}");
    assert!(!summary.contains("alice"), "{summary}");
}

#[test]
fn an_instance_whose_account_is_gone_falls_back_to_the_raw_id() {
    let summary = attribution_summary(&vec![instance(1234, 99)], &vec![], false, 1);
    assert!(summary.contains("PID 1234 - user 99"), "{summary}");
}

#[test]
fn anonymize_replaces_every_name_with_its_stable_tag() {
    let accounts = vec![account(7, "alice"), account(8, "bob")];
    let clients = vec![instance(1234, 7), instance(5678, 8)];

    let summary = attribution_summary(&clients, &accounts, true, 2);

    assert!(!summary.contains("alice"), "{summary}");
    assert!(!summary.contains("bob"), "{summary}");
    assert!(
        summary.contains(&format!("PID 1234 - Account #{}", tag(7))),
        "{summary}"
    );
    assert!(
        summary.contains(&format!("PID 5678 - Account #{}", tag(8))),
        "{summary}"
    );
}

/// There is no name to hide, so the raw number still shows.
#[test]
fn anonymize_does_not_cover_an_account_missing_from_the_store() {
    let summary = attribution_summary(&vec![instance(1234, 99)], &vec![], true, 1);
    assert!(summary.contains("PID 1234 - user 99"), "{summary}");
}

#[test]
fn clients_rm_did_not_launch_are_counted_on_a_trailing_line() {
    let accounts = vec![account(7, "alice")];
    let summary = attribution_summary(&vec![instance(1234, 7)], &accounts, false, 4);
    assert!(
        summary.ends_with("3 other instance(s) not matched to an account."),
        "{summary}"
    );
}

#[test]
fn the_trailing_line_is_omitted_when_rm_launched_everything() {
    let accounts = vec![account(7, "alice")];
    let summary = attribution_summary(&vec![instance(1234, 7)], &accounts, false, 1);
    assert!(!summary.contains("other instance"), "{summary}");
}

/// The running count comes from another sample of the process table than the
/// map, so it can lag behind and be smaller.
#[test]
fn a_running_count_behind_the_map_does_not_underflow() {
    let accounts = vec![account(7, "alice"), account(8, "bob")];
    let clients = vec![instance(1234, 7), instance(5678, 8)];
    let summary = attribution_summary(&clients, &accounts, false, 0);
    assert!(!summary.contains("other instance"), "{summary}");
}

#[test]
fn a_label_is_the_alias_the_tag_or_the_number() {
    let mut a = account(7, "alice");
    a.alias = "main".to_string();
    let accounts = vec![a];
    assert_eq!(account_display_label(&accounts, 7, false), "main");
    assert_eq!(account_display_label(&accounts, 7, true), "Account #0259");
    assert_eq!(account_display_label(&accounts, 8, true), "user 8");
}

#[test]
fn the_badge_counts_clients() {
    assert_eq!(instances_badge(1), "\u{25cf} 1 Roblox instance");
    assert_eq!(instances_badge(3), "\u{25cf} 3 Roblox instances");
}

/// While names are hidden, the tag is all that counts, and an account that is
/// gone is shown by its number either way.
#[test]
fn a_hidden_label_is_the_same_in_any_list() {
    let one = vec![account(7, "alice"), account(8, "bob")];
    let other = vec![account(9, "carol"), account(8, "robert"), account(7, "al")];
    assert_eq!(account_display_label(&one, 7, true), format!("Account #{}", tag(7)));
    assert_eq!(account_display_label(&other, 7, true), account_display_label(&one, 7, true));
    assert_eq!(account_display_label(&one, 5, true), "user 5");
    assert_eq!(account_display_label(&other, 5, false), "user 5");
}
