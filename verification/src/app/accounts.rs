//! The accounts tab: selecting, launching, grouping and removing accounts.

use vstd::prelude::*;

use super::arranging::{
    account_reordered, group_in, group_position, group_reordered, order_reset,
};
use super::clients::{slot_free, slot_taken, wait_said};
use super::{
    becomes, launch_options, saving, AddAccountDialog, AddAccountStep, AppState, Effect, SortOrder,
    TutorialStep, UiState,
};
use crate::bridge::{BackendCommand, Credentials, Destination};
use crate::lists::{filter_ends, filter_grows};
use crate::models::{
    copy_of, position_in, position_of, Account, AccountStore, AppConfig, Group, StoreSession,
};
use crate::text::{decimal, decimal_of, opt_text, parse_u64, parsed_u64, same, trim, trimmed};
use crate::toast::ToastLevel;

verus! {

// ---------------------------------------------------------------------------
// Selecting
// ---------------------------------------------------------------------------

/// The members of `base` and those of the list.
pub open spec fn with_all(base: Set<u64>, ids: Seq<u64>) -> Set<u64>
    decreases ids.len(),
{
    if ids.len() == 0 {
        base
    } else {
        with_all(base, ids.drop_last()).insert(ids.last())
    }
}

/// Whether `t` is `s` with this selection.
pub open spec fn selecting(s: AppState, t: AppState, selected: Set<u64>) -> bool {
    &&& t.ui.selected@ == selected
    &&& t == (AppState { ui: UiState { selected: t.ui.selected, ..s.ui }, ..s })
}

impl AppState {
    /// Selects one account and no other.
    pub fn select(&mut self, user_id: u64)
        requires
            old(self).inv(),
        ensures
            final(self).inv(),
            selecting(*old(self), *final(self), set![user_id]),
    {
        self.ui.selected.clear();
        self.ui.selected.insert(user_id);
        assert(self.ui.selected@ =~= set![user_id]);
    }

    /// Selects an account, or takes it out of the selection.
    pub fn toggle_select(&mut self, user_id: u64)
        requires
            old(self).inv(),
        ensures
            final(self).inv(),
            selecting(
                *old(self),
                *final(self),
                if old(self).ui.selected@.contains(user_id) {
                    old(self).ui.selected@.remove(user_id)
                } else {
                    old(self).ui.selected@.insert(user_id)
                },
            ),
    {
        if self.ui.selected.contains(user_id) {
            self.ui.selected.remove(user_id);
        } else {
            self.ui.selected.insert(user_id);
        }
    }

    /// Selects these accounts as well.
    pub fn range_select(&mut self, user_ids: &Vec<u64>)
        requires
            old(self).inv(),
        ensures
            final(self).inv(),
            selecting(*old(self), *final(self), with_all(old(self).ui.selected@, user_ids@)),
    {
        let mut k: usize = 0;
        assert(user_ids@.take(0) =~= Seq::<u64>::empty());
        while k < user_ids.len()
            invariant
                0 <= k <= user_ids@.len(),
                self.inv(),
                selecting(
                    *old(self),
                    *self,
                    with_all(old(self).ui.selected@, user_ids@.take(k as int)),
                ),
            decreases user_ids@.len() - k,
        {
            assert(user_ids@.take(k + 1).drop_last() =~= user_ids@.take(k as int));
            self.ui.selected.insert(user_ids[k]);
            k += 1;
        }
        assert(user_ids@.take(k as int) =~= user_ids@);
    }

    /// Selects every account.
    pub fn select_all(&mut self)
        requires
            old(self).inv(),
        ensures
            final(self).inv(),
            selecting(
                *old(self),
                *final(self),
                with_all(old(self).ui.selected@, super::ids_of(old(self).store.accounts@)),
            ),
    {
        let ids: Vec<u64> = self.all_ids();
        self.range_select(&ids);
    }

    /// Selects nothing.
    pub fn clear_selection(&mut self)
        requires
            old(self).inv(),
        ensures
            final(self).inv(),
            selecting(*old(self), *final(self), Set::empty()),
    {
        self.ui.selected.clear();
    }

    /// The list was drawn, with these accounts in view.
    pub fn accounts_shown(&mut self, visible: Vec<u64>)
        requires
            old(self).inv(),
        ensures
            final(self).inv(),
            becomes(
                *final(self),
                AppState {
                    ui: UiState { visible_user_ids: visible, ..old(self).ui },
                    ..*old(self)
                },
                if old(self).ui.selected@.len() > 0 {
                    old(self).out@.push(Effect::AdvanceTutorial(TutorialStep::SelectAccount))
                } else {
                    old(self).out@
                },
                old(self).toasts@,
            ),
    {
        self.ui.visible_user_ids = visible;
        if self.ui.selected.len() > 0 {
            self.out.push(Effect::AdvanceTutorial(TutorialStep::SelectAccount));
        }
    }
}

/// Selecting an account twice by toggling leaves the selection as it was.
pub proof fn toggling_twice_changes_nothing(selected: Set<u64>, id: u64)
    ensures
        ({
            let once = if selected.contains(id) {
                selected.remove(id)
            } else {
                selected.insert(id)
            };
            let twice = if once.contains(id) {
                once.remove(id)
            } else {
                once.insert(id)
            };
            twice == selected
        }),
{
    let once = if selected.contains(id) {
        selected.remove(id)
    } else {
        selected.insert(id)
    };
    let twice = if once.contains(id) {
        once.remove(id)
    } else {
        once.insert(id)
    };
    assert(twice =~= selected);
}

// ---------------------------------------------------------------------------
// The order of the list
// ---------------------------------------------------------------------------

/// How an order is written in the settings.
pub open spec fn mode_name(order: SortOrder) -> Seq<char> {
    match order {
        SortOrder::Custom => "Custom"@,
        SortOrder::Name => "Name"@,
        SortOrder::Status => "Status"@,
    }
}

/// The order that the settings name. Anything else is the user's own.
pub open spec fn mode_named(text: Seq<char>) -> SortOrder {
    if text == "Name"@ {
        SortOrder::Name
    } else if text == "Status"@ {
        SortOrder::Status
    } else {
        SortOrder::Custom
    }
}

/// The order that the settings name.
pub fn sort_order_named(text: &str) -> (order: SortOrder)
    ensures
        order == mode_named(text@),
{
    if same(text, "Name") {
        SortOrder::Name
    } else if same(text, "Status") {
        SortOrder::Status
    } else {
        SortOrder::Custom
    }
}

/// An order that was written to the settings is read back.
pub proof fn a_sort_order_reads_back(order: SortOrder)
    ensures
        mode_named(mode_name(order)) == order,
{
    reveal_strlit("Custom");
    reveal_strlit("Name");
    reveal_strlit("Status");
    assert("Custom"@.len() != "Name"@.len());
    assert("Status"@.len() != "Name"@.len());
    assert("Custom"@[0] != "Status"@[0]);
}

impl AppState {
    /// The list is sorted in another order. The settings remember it.
    pub fn set_sort_order(&mut self, order: SortOrder)
        requires
            old(self).inv(),
        ensures
            final(self).inv(),
            if old(self).config.sort_mode@ == mode_name(order) {
                *final(self) == (AppState {
                    ui: UiState { sort_order: order, ..old(self).ui },
                    ..*old(self)
                })
            } else {
                &&& final(self).config.sort_mode@ == mode_name(order)
                &&& becomes(
                    *final(self),
                    AppState {
                        ui: UiState { sort_order: order, ..old(self).ui },
                        config: AppConfig {
                            sort_mode: final(self).config.sort_mode,
                            ..old(self).config
                        },
                        ..*old(self)
                    },
                    old(self).out@.push(Effect::SaveConfig),
                    old(self).toasts@,
                )
            },
    {
        self.ui.sort_order = order;
        let name: &str = match order {
            SortOrder::Custom => "Custom",
            SortOrder::Name => "Name",
            SortOrder::Status => "Status",
        };
        if !same(&self.config.sort_mode, name) {
            self.config.sort_mode = name.to_owned();
            self.out.push(Effect::SaveConfig);
        }
    }
}

// ---------------------------------------------------------------------------
// Launching
// ---------------------------------------------------------------------------

/// Where a quick launch goes: to the first preset, else where the launch
/// inputs say.
pub open spec fn quick_target(s: AppState) -> (Option<u64>, Option<Seq<char>>) {
    if s.ui.presets@.len() > 0 {
        let preset = s.ui.presets@[0].preset;
        (Some(preset.place_id), opt_text(preset.job_id))
    } else {
        (
            parsed_u64(s.ui.place_id_input@),
            if trimmed(s.ui.job_id_input@).len() == 0 {
                None
            } else {
                Some(trimmed(s.ui.job_id_input@))
            },
        )
    }
}

/// Whether an effect launches an account into a place.
pub open spec fn launches(
    effect: Effect,
    s: AppState,
    account: Account,
    place_id: u64,
    job_id: Option<Seq<char>>,
) -> bool {
    effect matches Effect::Send(
        BackendCommand::LaunchGame { credentials, destination, options },
    ) && credentials == super::credentials_of(s, account) && options == launch_options(s.config)
        && destination.place_id == place_id && opt_text(destination.job_id) == job_id
        && destination.link_code is None && destination.access_code is None
}

/// Whether `t` is the state after a launch was asked for. A store that is
/// locked, or an account that is gone, does not use up the launch slot.
pub open spec fn launch_asked(
    s: AppState,
    t: AppState,
    user_id: u64,
    place_id: u64,
    job_id: Option<Seq<char>>,
    now: u64,
) -> bool {
    match position_in(s.store.accounts@, user_id) {
        None => t == s,
        Some(i) => if s.session is None {
            t == s
        } else if !slot_free(s, now) {
            becomes(t, s, s.out@, wait_said(s, now))
        } else {
            &&& t == (AppState { out: t.out, ..slot_taken(s, now) })
            &&& t.out@.len() == s.out@.len() + 1
            &&& t.out@.drop_last() == s.out@
            &&& launches(t.out@.last(), s, s.store.accounts@[i], place_id, job_id)
        },
    }
}

/// Whether `t` is the state after a text was put on the clipboard.
pub open spec fn text_copied(s: AppState, t: AppState, text: String, now: u64) -> bool {
    becomes(
        t,
        s,
        s.out@.push(Effect::CopyText(text)),
        s.toasts@.said("Copied to clipboard"@, ToastLevel::Info, now),
    )
}

/// Whether `t` is the state after a quick launch was asked for.
pub open spec fn quick_launched(s: AppState, t: AppState, user_id: u64, now: u64) -> bool {
    match quick_target(s) {
        (Some(place_id), job_id) => launch_asked(s, t, user_id, place_id, job_id, now),
        (None, _) => becomes(
            t,
            s,
            s.out@,
            s.toasts@.said(
                "No preset or Place ID set. Enter one first."@,
                ToastLevel::Error,
                now,
            ),
        ),
    }
}

impl AppState {
    /// Launches an account into a place.
    pub fn launch_account(
        &mut self,
        user_id: u64,
        place_id: u64,
        job_id: Option<String>,
        now: u64,
    )
        requires
            old(self).inv(),
        ensures
            final(self).inv(),
            launch_asked(*old(self), *final(self), user_id, place_id, opt_text(job_id), now),
    {
        let i: usize = match position_of(&self.store.accounts, user_id) {
            Some(i) => i,
            None => {
                return;
            },
        };
        let session: StoreSession = match self.session {
            Some(s) => s,
            None => {
                return;
            },
        };
        if !self.try_consume_launch_slot(now) {
            return;
        }
        let credentials: Credentials = super::credentials_for(
            &self.store.accounts[i],
            session,
            self.config.use_credential_manager,
        );
        self.out.push(
            Effect::Send(
                BackendCommand::LaunchGame {
                    credentials,
                    destination: Destination {
                        place_id,
                        job_id,
                        link_code: None,
                        access_code: None,
                    },
                    options: self.options(),
                },
            ),
        );
        assert(self.out@.drop_last() =~= old(self).out@);
    }

    /// Launches an account into the first preset, or where the launch inputs
    /// say.
    pub fn quick_launch(&mut self, user_id: u64, now: u64)
        requires
            old(self).inv(),
        ensures
            final(self).inv(),
            quick_launched(*old(self), *final(self), user_id, now),
    {
        if self.ui.presets.len() > 0 {
            let place_id: u64 = self.ui.presets[0].preset.place_id;
            let job_id: Option<String> = copy_of(&self.ui.presets[0].preset.job_id);
            self.launch_account(user_id, place_id, job_id, now);
            return;
        }
        match parse_u64(&self.ui.place_id_input) {
            Some(place_id) => {
                let text: String = trim(&self.ui.job_id_input);
                let job_id: Option<String> = if text.as_str().is_empty() {
                    None
                } else {
                    Some(text)
                };
                self.launch_account(user_id, place_id, job_id, now);
            },
            None => {
                self.say("No preset or Place ID set. Enter one first.", ToastLevel::Error, now);
            },
        }
    }

    /// Launches the selected accounts.
    pub fn bulk_launch(&mut self, place_id: u64, job_id: Option<String>)
        requires
            old(self).inv(),
        ensures
            final(self).inv(),
            becomes(
                *final(self),
                *old(self),
                if old(self).session is Some {
                    old(self).out@.push(
                        Effect::BulkLaunch(
                            Destination { place_id, job_id, link_code: None, access_code: None },
                        ),
                    )
                } else {
                    old(self).out@
                },
                old(self).toasts@,
            ),
    {
        if self.session.is_some() {
            self.out.push(
                Effect::BulkLaunch(
                    Destination { place_id, job_id, link_code: None, access_code: None },
                ),
            );
        }
    }

    /// Kills every client.
    pub fn kill_all(&mut self)
        requires
            old(self).inv(),
        ensures
            final(self).inv(),
            becomes(
                *final(self),
                *old(self),
                old(self).out@.push(Effect::Send(BackendCommand::KillAll)),
                old(self).toasts@,
            ),
    {
        self.out.push(Effect::Send(BackendCommand::KillAll));
    }

    /// Puts a server's identifier on the clipboard.
    pub fn copy_job_id(&mut self, job_id: String, now: u64)
        requires
            old(self).inv(),
        ensures
            final(self).inv(),
            text_copied(*old(self), *final(self), job_id, now),
    {
        self.out.push(Effect::CopyText(job_id));
        self.say("Copied to clipboard", ToastLevel::Info, now);
    }
}

// ---------------------------------------------------------------------------
// Adding and removing
// ---------------------------------------------------------------------------

/// How an account is named when its removal is confirmed.
pub open spec fn removal_name(s: AppState, user_id: u64) -> Seq<char> {
    if s.config.anonymize_names {
        "this account"@
    } else {
        match position_in(s.store.accounts@, user_id) {
            Some(i) => s.store.accounts@[i].shown_as(),
            None => decimal(user_id as nat),
        }
    }
}

/// Whether `t` is the state after the add-account dialog was opened anew.
pub open spec fn dialog_opened(s: AppState, t: AppState) -> bool {
    &&& t.dialog.cookie_input@.len() == 0
    &&& becomes(
        t,
        AppState {
            dialog: AddAccountDialog {
                open: true,
                step: AddAccountStep::Choose,
                cookie_input: t.dialog.cookie_input,
                last_error: None,
                loading: false,
                browser_login_pending: false,
                login: None,
                rejected_cookie: None,
                pending_moderated: None,
                ..s.dialog
            },
            ..s
        },
        s.out@.push(Effect::AdvanceTutorial(TutorialStep::AddAccount)),
        s.toasts@,
    )
}

impl AppState {
    /// Opens the add-account dialog, as if for the first time.
    pub fn open_add_dialog(&mut self)
        requires
            old(self).inv(),
        ensures
            final(self).inv(),
            dialog_opened(*old(self), *final(self)),
    {
        self.dialog.open = true;
        self.dialog.step = AddAccountStep::Choose;
        self.dialog.cookie_input = String::new();
        self.dialog.last_error = None;
        self.dialog.loading = false;
        self.dialog.browser_login_pending = false;
        self.dialog.login = None;
        self.dialog.rejected_cookie = None;
        self.dialog.pending_moderated = None;
        self.out.push(Effect::AdvanceTutorial(TutorialStep::AddAccount));
    }

    /// Asks whether an account is to be removed.
    pub fn ask_remove(&mut self, user_id: u64)
        requires
            old(self).inv(),
        ensures
            final(self).inv(),
            *final(self) == (AppState {
                ui: UiState { confirm_remove: Some(user_id), ..old(self).ui },
                ..*old(self)
            }),
    {
        self.ui.confirm_remove = Some(user_id);
    }

    /// Asks whether the selected account is to be removed, where exactly one
    /// is selected.
    pub fn ask_remove_selected(&mut self)
        requires
            old(self).inv(),
        ensures
            final(self).inv(),
            if old(self).ui.selected@.len() == 1 {
                &&& final(self).ui.confirm_remove is Some
                &&& old(self).ui.selected@ == set![final(self).ui.confirm_remove->Some_0]
                &&& *final(self) == (AppState {
                    ui: UiState { confirm_remove: final(self).ui.confirm_remove, ..old(self).ui },
                    ..*old(self)
                })
            } else {
                *final(self) == *old(self)
            },
    {
        match self.ui.selected.only() {
            Some(user_id) => {
                self.ui.confirm_remove = Some(user_id);
            },
            None => {},
        }
    }

    /// How the account is named whose removal is being confirmed.
    pub fn removal_label(&self, user_id: u64) -> (s: String)
        ensures
            s@ == removal_name(*self, user_id),
    {
        if self.config.anonymize_names {
            "this account".to_owned()
        } else {
            match position_of(&self.store.accounts, user_id) {
                Some(i) => self.store.accounts[i].label().to_owned(),
                None => decimal_of(user_id),
            }
        }
    }

    /// The removal was confirmed, or called off.
    pub fn answer_remove(&mut self, remove: bool)
        requires
            old(self).inv(),
        ensures
            final(self).inv(),
            becomes(
                *final(self),
                AppState { ui: UiState { confirm_remove: None, ..old(self).ui }, ..*old(self) },
                match old(self).ui.confirm_remove {
                    Some(user_id) => if remove {
                        old(self).out@.push(Effect::Send(BackendCommand::RemoveAccount { user_id }))
                    } else {
                        old(self).out@
                    },
                    None => old(self).out@,
                },
                old(self).toasts@,
            ),
    {
        match self.ui.confirm_remove {
            Some(user_id) => {
                if remove {
                    self.out.push(Effect::Send(BackendCommand::RemoveAccount { user_id }));
                }
            },
            None => {},
        }
        self.ui.confirm_remove = None;
    }

    /// Gives an account a name of the user's own.
    pub fn update_alias(&mut self, user_id: u64, alias: String)
        requires
            old(self).inv(),
        ensures
            final(self).inv(),
            final(self).store.accounts@ == match position_in(
                old(self).store.accounts@,
                user_id,
            ) {
                Some(i) => old(self).store.accounts@.update(
                    i,
                    Account { alias, ..old(self).store.accounts@[i] },
                ),
                None => old(self).store.accounts@,
            },
            becomes(
                *final(self),
                AppState { store: final(self).store, ..*old(self) },
                old(self).out@ + saving(*old(self)),
                old(self).toasts@,
            ),
    {
        match position_of(&self.store.accounts, user_id) {
            Some(i) => {
                self.store.accounts[i].alias = alias;
            },
            None => {},
        }
        self.auto_save();
    }
}

// ---------------------------------------------------------------------------
// Groups
// ---------------------------------------------------------------------------

/// The groups of other names.
pub open spec fn other_names(name: Seq<char>) -> spec_fn(Group) -> bool {
    |g: Group| g.name@ != name
}

/// The accounts with these in a group.
pub open spec fn grouped(accounts: Seq<Account>, ids: Seq<u64>, group: String) -> Seq<Account>
    decreases ids.len(),
{
    if ids.len() == 0 {
        accounts
    } else {
        let rest = grouped(accounts, ids.drop_last(), group);
        match position_in(rest, ids.last()) {
            Some(i) => rest.update(i, Account { group, ..rest[i] }),
            None => rest,
        }
    }
}

/// The accounts with those of one group in another.
pub open spec fn regrouped(accounts: Seq<Account>, from: Seq<char>, to: String) -> Seq<Account> {
    accounts.map_values(
        |a: Account|
            if a.group@ == from {
                Account { group: to, ..a }
            } else {
                a
            },
    )
}

/// Whether `t` is the state after accounts were put in a group.
pub open spec fn group_assigned(s: AppState, t: AppState, user_ids: Seq<u64>, group: String) -> bool {
    &&& t.store.accounts@ == grouped(s.store.accounts@, user_ids, group)
    &&& becomes(t, AppState { store: t.store, ..s }, s.out@ + saving(s), s.toasts@)
}

/// Whether `t` is the state after a group was made.
pub open spec fn group_created(
    s: AppState,
    t: AppState,
    name: String,
    color: (u8, u8, u8),
    user_ids: Seq<u64>,
) -> bool {
    let g = t.config.groups@.last();
    &&& t.config.groups@ == s.config.groups@.filter(other_names(name@)).push(g)
    &&& g == (Group { name, color, description: g.description, sort_order: u32::MAX })
    &&& g.description@.len() == 0
    &&& t.store.accounts@ == grouped(s.store.accounts@, user_ids, name)
    &&& becomes(
        t,
        AppState {
            store: t.store,
            config: AppConfig { groups: t.config.groups, ..s.config },
            ..s
        },
        s.out@.push(Effect::SaveConfig) + saving(s),
        s.toasts@,
    )
}

/// Whether `t` is the state after a group was deleted. Its accounts are in no
/// group.
pub open spec fn group_deleted(s: AppState, t: AppState, name: Seq<char>) -> bool {
    &&& t.config.groups@ == s.config.groups@.filter(other_names(name))
    &&& exists|none: String|
        none@.len() == 0 && t.store.accounts@ == #[trigger] regrouped(
            s.store.accounts@,
            name,
            none,
        )
    &&& t.ui.collapsed_groups@ == s.ui.collapsed_groups@.remove(name)
    &&& becomes(
        t,
        AppState {
            store: t.store,
            config: AppConfig { groups: t.config.groups, ..s.config },
            ui: UiState { collapsed_groups: t.ui.collapsed_groups, ..s.ui },
            ..s
        },
        s.out@.push(Effect::SaveConfig) + saving(s),
        s.toasts@,
    )
}

/// Whether `t` is the state after a group was renamed or recoloured. It keeps
/// its description and its place, its accounts follow it, and so does whether
/// it is collapsed.
pub open spec fn group_edited(
    s: AppState,
    t: AppState,
    old_name: Seq<char>,
    new_name: String,
    color: (u8, u8, u8),
) -> bool {
    let g = t.config.groups@.last();
    let renamed = old_name != new_name@;
    &&& t.config.groups@ == s.config.groups@.filter(other_names(old_name)).filter(
        other_names(new_name@),
    ).push(g)
    &&& match group_in(s.config.groups@, old_name) {
        Some(i) => g == (Group { name: new_name, color, ..s.config.groups@[i] }),
        None => g == (Group {
            name: new_name,
            color,
            description: g.description,
            sort_order: u32::MAX,
        }) && g.description@.len() == 0,
    }
    &&& t.store.accounts@ == if renamed {
        regrouped(s.store.accounts@, old_name, new_name)
    } else {
        s.store.accounts@
    }
    &&& t.ui.collapsed_groups@ == if renamed && s.ui.collapsed_groups@.contains(old_name) {
        s.ui.collapsed_groups@.remove(old_name).insert(new_name@)
    } else {
        s.ui.collapsed_groups@
    }
    &&& becomes(
        t,
        AppState {
            store: t.store,
            config: AppConfig { groups: t.config.groups, ..s.config },
            ui: UiState { collapsed_groups: t.ui.collapsed_groups, ..s.ui },
            ..s
        },
        s.out@.push(Effect::SaveConfig) + saving(s),
        s.toasts@,
    )
}

fn drop_group(groups: &mut Vec<Group>, name: &str)
    ensures
        final(groups)@ == old(groups)@.filter(other_names(name@)),
{
    let ghost all = groups@;
    let ghost p = other_names(name@);
    let mut kept: Vec<Group> = Vec::new();
    let mut i: usize = 0;
    proof {
        filter_ends(all, p);
        assert(kept@ =~= all.take(0).filter(p));
    }
    while i < groups.len()
        invariant
            0 <= i <= groups@.len(),
            groups@ == all,
            p == other_names(name@),
            kept@ == all.take(i as int).filter(p),
        decreases groups@.len() - i,
    {
        proof {
            filter_grows(all, p, i as int);
        }
        if !same(&groups[i].name, name) {
            kept.push(groups[i].clone());
        }
        i += 1;
    }
    proof {
        filter_ends(all, p);
    }
    *groups = kept;
}

fn put_in_group(store: &mut AccountStore, user_ids: &Vec<u64>, group: &String)
    ensures
        final(store).accounts@ == grouped(old(store).accounts@, user_ids@, *group),
{
    let mut k: usize = 0;
    assert(user_ids@.take(0) =~= Seq::<u64>::empty());
    while k < user_ids.len()
        invariant
            0 <= k <= user_ids@.len(),
            store.accounts@ == grouped(old(store).accounts@, user_ids@.take(k as int), *group),
        decreases user_ids@.len() - k,
    {
        assert(user_ids@.take(k + 1).drop_last() =~= user_ids@.take(k as int));
        let ghost here = store.accounts@;
        match position_of(&store.accounts, user_ids[k]) {
            Some(i) => {
                store.accounts[i].group = group.clone();
                assert(store.accounts@ =~= here.update(
                    i as int,
                    Account { group: *group, ..here[i as int] },
                ));
            },
            None => {},
        }
        k += 1;
    }
    assert(user_ids@.take(k as int) =~= user_ids@);
}

fn regroup(store: &mut AccountStore, from: &str, to: &String)
    ensures
        final(store).accounts@ == regrouped(old(store).accounts@, from@, *to),
{
    let ghost goal = regrouped(store.accounts@, from@, *to);
    let mut i: usize = 0;
    while i < store.accounts.len()
        invariant
            0 <= i <= store.accounts@.len(),
            goal == regrouped(old(store).accounts@, from@, *to),
            store.accounts@.len() == old(store).accounts@.len(),
            forall|j: int| 0 <= j < i ==> (#[trigger] store.accounts@[j]) == goal[j],
            forall|j: int|
                i <= j < store.accounts@.len() ==> (#[trigger] store.accounts@[j])
                    == old(store).accounts@[j],
        decreases store.accounts@.len() - i,
    {
        if same(&store.accounts[i].group, from) {
            store.accounts[i].group = to.clone();
        }
        i += 1;
    }
    assert(store.accounts@ =~= goal);
}

impl AppState {
    /// Puts accounts in a group.
    pub fn assign_group(&mut self, user_ids: &Vec<u64>, group: String)
        requires
            old(self).inv(),
        ensures
            final(self).inv(),
            group_assigned(*old(self), *final(self), user_ids@, group),
    {
        put_in_group(&mut self.store, user_ids, &group);
        self.auto_save();
    }

    /// Makes a group and puts accounts in it.
    pub fn create_group(&mut self, name: String, color: (u8, u8, u8), user_ids: &Vec<u64>)
        requires
            old(self).inv(),
        ensures
            final(self).inv(),
            group_created(*old(self), *final(self), name, color, user_ids@),
    {
        drop_group(&mut self.config.groups, &name);
        put_in_group(&mut self.store, user_ids, &name);
        let group: Group = Group {
            name,
            color,
            description: String::new(),
            sort_order: u32::MAX,
        };
        self.config.groups.push(group);
        self.out.push(Effect::SaveConfig);
        self.auto_save();
    }

    /// Deletes a group.
    pub fn delete_group(&mut self, name: &str)
        requires
            old(self).inv(),
        ensures
            final(self).inv(),
            group_deleted(*old(self), *final(self), name@),
    {
        drop_group(&mut self.config.groups, name);
        let none: String = String::new();
        regroup(&mut self.store, name, &none);
        assert(self.store.accounts@ == regrouped(old(self).store.accounts@, name@, none));
        self.ui.collapsed_groups.remove(name);
        self.out.push(Effect::SaveConfig);
        self.auto_save();
    }

    /// Lets accounts, and whether a group is collapsed, follow a new name.
    fn follow_group(&mut self, old_name: &str, new_name: &String)
        requires
            old(self).inv(),
        ensures
            final(self).inv(),
            final(self).store.accounts@ == if old_name@ != new_name@ {
                regrouped(old(self).store.accounts@, old_name@, *new_name)
            } else {
                old(self).store.accounts@
            },
            final(self).ui.collapsed_groups@ == if old_name@ != new_name@
                && old(self).ui.collapsed_groups@.contains(old_name@) {
                old(self).ui.collapsed_groups@.remove(old_name@).insert(new_name@)
            } else {
                old(self).ui.collapsed_groups@
            },
            *final(self) == (AppState {
                store: final(self).store,
                ui: UiState { collapsed_groups: final(self).ui.collapsed_groups, ..old(self).ui },
                ..*old(self)
            }),
    {
        if same(old_name, new_name) {
            return;
        }
        regroup(&mut self.store, old_name, new_name);
        if self.ui.collapsed_groups.remove(old_name) {
            self.ui.collapsed_groups.insert(new_name.clone());
        } else {
            assert(self.ui.collapsed_groups@ =~= old(self).ui.collapsed_groups@);
        }
    }

    /// Renames or recolours a group.
    pub fn edit_group(&mut self, old_name: &str, new_name: String, color: (u8, u8, u8))
        requires
            old(self).inv(),
        ensures
            final(self).inv(),
            group_edited(*old(self), *final(self), old_name@, new_name, color),
    {
        let (description, sort_order): (String, u32) = match group_position(
            &self.config.groups,
            old_name,
        ) {
            Some(i) => (self.config.groups[i].description.clone(), self.config.groups[i].sort_order),
            None => (String::new(), u32::MAX),
        };
        drop_group(&mut self.config.groups, old_name);
        drop_group(&mut self.config.groups, &new_name);
        self.follow_group(old_name, &new_name);
        self.config.groups.push(Group { name: new_name, color, description, sort_order });
        self.out.push(Effect::SaveConfig);
        self.auto_save();
    }
}

/// Whether no two groups share a name.
pub open spec fn names_unique(groups: Seq<Group>) -> bool {
    forall|i: int, j: int|
        0 <= i < j < groups.len() ==> (#[trigger] groups[i]).name@ != (#[trigger] groups[j]).name@
}

/// Dropping groups keeps names apart.
proof fn dropping_keeps_names_apart(groups: Seq<Group>, p: spec_fn(Group) -> bool)
    requires
        names_unique(groups),
    ensures
        names_unique(groups.filter(p)),
    decreases groups.len(),
{
    reveal(Seq::filter);
    if groups.len() > 0 {
        let front = groups.drop_last();
        assert(names_unique(front)) by {
            assert forall|i: int, j: int| 0 <= i < j < front.len() implies (#[trigger] front[i]).name@
                != (#[trigger] front[j]).name@ by {
                assert(front[i] == groups[i] && front[j] == groups[j]);
            }
        }
        dropping_keeps_names_apart(front, p);
        let kept = groups.filter(p);
        assert forall|i: int, j: int| 0 <= i < j < kept.len() implies (#[trigger] kept[i]).name@ != (
        #[trigger] kept[j]).name@ by {
            if j == front.filter(p).len() {
                let g = front.filter(p)[i];
                assert(front.filter(p).contains(g));
                front.lemma_filter_contains_rev(p, g);
                let k = choose|k: int| 0 <= k < front.len() && front[k] == g;
                assert(groups[k] == g);
            }
        }
    }
}

/// Making, deleting and editing groups keeps their names apart.
pub proof fn group_names_stay_apart(
    groups: Seq<Group>,
    gone: Seq<char>,
    g: Group,
)
    requires
        names_unique(groups),
    ensures
        names_unique(groups.filter(other_names(gone))),
        names_unique(groups.filter(other_names(gone)).filter(other_names(g.name@)).push(g)),
        names_unique(groups.filter(other_names(g.name@)).push(g)),
{
    let name = g.name@;
    dropping_keeps_names_apart(groups, other_names(gone));
    let rest = groups.filter(other_names(gone));
    dropping_keeps_names_apart(rest, other_names(name));
    dropping_keeps_names_apart(groups, other_names(name));
    let a = rest.filter(other_names(name));
    let b = groups.filter(other_names(name));
    assert forall|i: int| 0 <= i < a.len() implies (#[trigger] a[i]).name@ != name by {
        rest.lemma_filter_pred(other_names(name), i);
    }
    assert forall|i: int| 0 <= i < b.len() implies (#[trigger] b[i]).name@ != name by {
        groups.lemma_filter_pred(other_names(name), i);
    }
}

/// After a group was deleted, no account is in it.
pub proof fn a_deleted_group_is_empty(s: AppState, t: AppState, name: Seq<char>, i: int)
    requires
        group_deleted(s, t, name),
        name.len() > 0,
        0 <= i < t.store.accounts@.len(),
    ensures
        t.store.accounts@[i].group@ != name,
{
    let none = choose|none: String|
        none@.len() == 0 && t.store.accounts@ == #[trigger] regrouped(
            s.store.accounts@,
            name,
            none,
        );
    assert(t.store.accounts@ == regrouped(s.store.accounts@, name, none));
}

// ---------------------------------------------------------------------------
// Everything the list asks for
// ---------------------------------------------------------------------------

/// Something the account list asks for.
#[derive(Debug)]
pub enum SidebarAction {
    Select(u64),
    ToggleSelect(u64),
    RangeSelect(Vec<u64>),
    AddAccountDialog,
    CopyJobId(String),
    OpenBrowserAs(u64),
    FocusInstance(u32),
    KillInstance(u32),
    JoinAccountServer { user_id: u64, target_user_id: u64 },
    QuickLaunch(u64),
    AssignGroup { user_ids: Vec<u64>, group: String },
    CreateGroup { name: String, color: (u8, u8, u8), assign_user_ids: Vec<u64> },
    DeleteGroup(String),
    EditGroup { old_name: String, new_name: String, color: (u8, u8, u8) },
    ReorderAccount { user_id: u64, target_user_id: u64, insert_after: bool },
    ReorderGroup { group_name: String, target_group: String, insert_after: bool },
    ResetCustomOrder,
}

impl AppState {
    /// Does what the account list asks for.
    pub fn sidebar_action(&mut self, action: SidebarAction, now: u64)
        requires
            old(self).inv(),
        ensures
            final(self).inv(),
            match action {
                SidebarAction::Select(id) => selecting(*old(self), *final(self), set![id]),
                SidebarAction::ToggleSelect(id) => selecting(
                    *old(self),
                    *final(self),
                    if old(self).ui.selected@.contains(id) {
                        old(self).ui.selected@.remove(id)
                    } else {
                        old(self).ui.selected@.insert(id)
                    },
                ),
                SidebarAction::RangeSelect(ids) => selecting(
                    *old(self),
                    *final(self),
                    with_all(old(self).ui.selected@, ids@),
                ),
                SidebarAction::AddAccountDialog => dialog_opened(*old(self), *final(self)),
                SidebarAction::CopyJobId(job_id) => text_copied(
                    *old(self),
                    *final(self),
                    job_id,
                    now,
                ),
                SidebarAction::OpenBrowserAs(id) => super::clients::browse_asked(
                    *old(self),
                    *final(self),
                    id,
                    now,
                ),
                SidebarAction::FocusInstance(pid) => becomes(
                    *final(self),
                    *old(self),
                    old(self).out@.push(Effect::FocusInstance(pid)),
                    old(self).toasts@,
                ),
                SidebarAction::KillInstance(pid) => super::clients::kill_asked(
                    *old(self),
                    *final(self),
                    pid,
                    now,
                ),
                SidebarAction::JoinAccountServer { user_id, target_user_id } =>
                    super::clients::join_asked(
                    *old(self),
                    *final(self),
                    user_id,
                    target_user_id,
                    now,
                ),
                SidebarAction::QuickLaunch(id) => quick_launched(
                    *old(self),
                    *final(self),
                    id,
                    now,
                ),
                SidebarAction::AssignGroup { user_ids, group } => group_assigned(
                    *old(self),
                    *final(self),
                    user_ids@,
                    group,
                ),
                SidebarAction::CreateGroup { name, color, assign_user_ids } => group_created(
                    *old(self),
                    *final(self),
                    name,
                    color,
                    assign_user_ids@,
                ),
                SidebarAction::DeleteGroup(name) => group_deleted(
                    *old(self),
                    *final(self),
                    name@,
                ),
                SidebarAction::EditGroup { old_name, new_name, color } => group_edited(
                    *old(self),
                    *final(self),
                    old_name@,
                    new_name,
                    color,
                ),
                SidebarAction::ReorderAccount { user_id, target_user_id, insert_after } =>
                    account_reordered(
                    *old(self),
                    *final(self),
                    user_id,
                    target_user_id,
                    insert_after,
                ),
                SidebarAction::ReorderGroup { group_name, target_group, insert_after } =>
                    group_reordered(
                    *old(self),
                    *final(self),
                    group_name@,
                    target_group@,
                    insert_after,
                ),
                SidebarAction::ResetCustomOrder => order_reset(*old(self), *final(self)),
            },
    {
        match action {
            SidebarAction::Select(id) => self.select(id),
            SidebarAction::ToggleSelect(id) => self.toggle_select(id),
            SidebarAction::RangeSelect(ids) => self.range_select(&ids),
            SidebarAction::AddAccountDialog => self.open_add_dialog(),
            SidebarAction::CopyJobId(job_id) => self.copy_job_id(job_id, now),
            SidebarAction::OpenBrowserAs(id) => self.open_browser_as(id, now),
            SidebarAction::FocusInstance(pid) => self.emit(Effect::FocusInstance(pid)),
            SidebarAction::KillInstance(pid) => self.kill_instance(pid, now),
            SidebarAction::JoinAccountServer { user_id, target_user_id } => {
                self.join_account_server(user_id, target_user_id, now);
            },
            SidebarAction::QuickLaunch(id) => self.quick_launch(id, now),
            SidebarAction::AssignGroup { user_ids, group } => self.assign_group(&user_ids, group),
            SidebarAction::CreateGroup { name, color, assign_user_ids } => {
                self.create_group(name, color, &assign_user_ids);
            },
            SidebarAction::DeleteGroup(name) => self.delete_group(&name),
            SidebarAction::EditGroup { old_name, new_name, color } => {
                self.edit_group(&old_name, new_name, color);
            },
            SidebarAction::ReorderAccount { user_id, target_user_id, insert_after } => {
                self.reorder_account(user_id, target_user_id, insert_after);
            },
            SidebarAction::ReorderGroup { group_name, target_group, insert_after } => {
                self.reorder_group(group_name, &target_group, insert_after);
            },
            SidebarAction::ResetCustomOrder => self.reset_custom_order(),
        }
    }
}

} // verus!
