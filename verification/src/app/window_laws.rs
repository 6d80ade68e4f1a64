//! What the dialogs, the panels and the background work leave behind.

use vstd::prelude::*;

use super::accounts::{group_deleted, group_edited};
use super::asset_event_laws::index_writes;
use super::clients::{kill_done, restoring};
use super::dialog::{
    back_at_choice, batch_dropped, bulk_busy, can_go_back, can_force, can_submit, import_ready,
    login_heard, with_file,
};
use super::inventory::{inventory_asked, pages_asked};
use super::panels::{into_server, preset_gone, presets_read, setting_done, Presets};
use super::queue_laws::is_on_roblox;
use super::session::{offered, offering};
use super::staging::{grant_opened, recovered, recovering_keeps_the_rest, upload_asked};
use super::startup::{is_fresh, Start};
use super::tick::{flush_step, tab_step, titles_step, INDEX_SAVE_EVERY};
use super::uploads::audio_may_start;
use super::{AddAccountDialog, AddAccountStep, AppState, Awaiting, Effect, Tab};
use crate::asset_manager::TreeNode;
use crate::assets::{uploaded_as, AssetKind, AssetRecord, AssetState};
use crate::bridge::BackendCommand;
use crate::browser_login::LoginOutcome;
use crate::lists::first_where_facts;
use crate::models::Group;
use crate::settings::SettingsAction;
use crate::text::trimmed;
use crate::toast::ToastLevel;

verus! {

// ---------------------------------------------------------------------------
// The store
// ---------------------------------------------------------------------------

/// Going without a password is offered once, and only where there is one to
/// drop; where there is none that is noted and written, so that it is never
/// asked.
pub proof fn the_offer_is_for_those_with_a_password(s: AppState)
    ensures
        !s.config.offered_passwordless && (s.session matches Some(key) && key.needs_password) ==> {
            &&& offered(s).lock.show_passwordless_offer
            &&& offered(s).config == s.config
            &&& offering(s).len() == 0
        },
        !s.config.offered_passwordless && !(s.session matches Some(key) && key.needs_password) ==> {
            &&& offered(s).lock == s.lock
            &&& offered(s).config.offered_passwordless
            &&& offering(s) == seq![Effect::SaveConfig]
        },
        offered(s).store == s.store && offered(s).session == s.session,
{
}

// ---------------------------------------------------------------------------
// The add-account dialog
// ---------------------------------------------------------------------------

/// A login counts only while its own window is waited for: what it came back with
/// is sent as it is but for the white space around it, a failure is shown with
/// its reason, and a window that went away leaves the dialog to the user.
pub proof fn a_login_counts_while_it_is_waited_for(
    s: AppState,
    t: AppState,
    number: u64,
    outcome: Option<LoginOutcome>,
)
    requires
        login_heard(s, t, number, outcome),
    ensures
        !s.dialog.open || s.dialog.login != Some(number) ==> t == s,
        s.dialog.open && s.dialog.login == Some(number) ==> match outcome {
            Some(LoginOutcome::Success(found)) => {
                &&& t.dialog.login is None && !t.dialog.browser_login_pending
                &&& t.out@.len() == s.out@.len() + 1
                &&& t.out@.drop_last() == s.out@
                &&& match s.session {
                    Some(key) => t.out@.last() matches Effect::Send(
                        BackendCommand::AddAccount { cookie, session, use_credential_manager },
                    ) && cookie@ == trimmed(found@) && session == key && use_credential_manager
                        == s.config.use_credential_manager && t.dialog.loading,
                    None => t.dialog.awaiting matches Some(Awaiting::Login { cookie })
                        && cookie@ == trimmed(found@),
                }
            },
            Some(LoginOutcome::Failed(why)) => {
                &&& t.dialog.login is None && !t.dialog.browser_login_pending
                &&& t.dialog.last_error matches Some(text) && text@ == "Browser login failed: "@
                    + why@
                &&& t.out == s.out
            },
            Some(LoginOutcome::Status(_)) => t == s,
            _ => t.dialog.login is None && !t.dialog.browser_login_pending && t.out == s.out
                && t.dialog.last_error == s.dialog.last_error,
        },
        t.store == s.store && t.session == s.session,
{
}

/// A batch that starts has all its cookies before it and none behind it, and
/// shows no old error.
pub proof fn a_batch_starts_afresh(s: AppState, queue: Vec<String>)
    ensures
        ({
            let t = import_ready(s, queue);
            &&& t.dialog.bulk_queue == queue && t.dialog.bulk_total == queue@.len()
            &&& t.dialog.bulk_succeeded == 0 && t.dialog.bulk_failed == 0
            &&& t.dialog.bulk_running && t.dialog.last_error is None
            &&& queue@.len() > 0 ==> bulk_busy(t.dialog)
            &&& t.dialog.bulk_input == s.dialog.bulk_input
            &&& t.store == s.store && t.session == s.session && t.out == s.out
        }),
{
    assert(queue.len() == queue@.len());
}

/// A batch is busy until as many cookies were answered as it has.
pub proof fn a_batch_is_busy_until_all_are_answered(d: AddAccountDialog)
    ensures
        bulk_busy(d) ==> d.bulk_running,
        d.bulk_running && d.bulk_succeeded + d.bulk_failed >= d.bulk_total ==> !bulk_busy(d),
        d.bulk_running && d.bulk_succeeded + d.bulk_failed < d.bulk_total ==> bulk_busy(d),
        bulk_busy(d) && d.step == AddAccountStep::Bulk ==> !can_go_back(d),
        d.loading && (d.step == AddAccountStep::Manual || d.step == AddAccountStep::Browser)
            ==> !can_go_back(d),
        !d.loading && !bulk_busy(d) && d.step != AddAccountStep::Choose ==> can_go_back(d),
{
}

/// Going back leads to the choice of methods without an error, and keeps nothing
/// of a batch.
pub proof fn going_back_leads_to_the_choice(
    d: AddAccountDialog,
    input: String,
    bulk_input: String,
    queue: Vec<String>,
)
    ensures
        ({
            let b = back_at_choice(d, input, bulk_input, queue);
            &&& b.step == AddAccountStep::Choose
            &&& d.step != AddAccountStep::Choose ==> b.last_error is None
            &&& d.step == AddAccountStep::Choose ==> b == d
            &&& d.step == AddAccountStep::Browser ==> b.login is None
                && !b.browser_login_pending && b.cookie_input == input
            &&& d.step == AddAccountStep::Manual ==> b.cookie_input == input
            &&& d.step == AddAccountStep::Bulk ==> !b.bulk_running && b.bulk_queue == queue
                && b.bulk_total == 0 && b.bulk_succeeded == 0 && b.bulk_failed == 0
                && b.bulk_input == bulk_input
            &&& b.open == d.open && b.pending_moderated == d.pending_moderated
                && b.rejected_cookie == d.rejected_cookie
        }),
        !batch_dropped(d, bulk_input, queue).bulk_running,
{
}

/// A cookie can be sent where something other than white space was typed in and
/// nothing is waited for; a rejected one also needs a name.
pub proof fn only_what_was_typed_in_is_sent(d: AddAccountDialog)
    ensures
        d.loading ==> !can_submit(d) && !can_force(d),
        !d.loading ==> (can_submit(d) <==> trimmed(d.cookie_input@).len() > 0),
        d.rejected_cookie is None || trimmed(d.force_add_username@).len() == 0 ==> !can_force(d),
        !d.loading && d.rejected_cookie is Some && trimmed(d.force_add_username@).len() > 0
            ==> can_force(d),
{
}

/// A file that is loaded stands behind what was pasted, on a line of its own, and
/// nothing of either is lost.
pub proof fn a_loaded_file_stands_behind_what_was_pasted(input: Seq<char>, contents: Seq<char>)
    ensures
        ({
            let joined = with_file(input, contents);
            &&& joined.take(input.len() as int) == input
            &&& joined.len() >= input.len() + contents.len()
            &&& joined.skip(joined.len() - contents.len()) == contents
            &&& joined.len() - contents.len() > 0 ==> joined[joined.len() - contents.len() - 1]
                == '\n'
            &&& joined.len() <= input.len() + contents.len() + 1
        }),
{
    reveal_strlit("\n");
    let joined = with_file(input, contents);
    assert(joined.take(input.len() as int) =~= input);
    assert(joined.skip(joined.len() - contents.len()) =~= contents);
}

// ---------------------------------------------------------------------------
// Servers, presets and settings
// ---------------------------------------------------------------------------

/// A private server is entered by its place and its codes; an empty access code
/// counts as none.
pub proof fn a_private_server_is_entered_with_its_codes(
    place_id: u64,
    link_code: String,
    access_code: String,
)
    ensures
        ({
            let d = into_server(place_id, link_code, access_code);
            &&& d.place_id == place_id && d.job_id is None && d.link_code == Some(link_code)
            &&& access_code@.len() > 0 ==> d.access_code == Some(access_code)
            &&& access_code@.len() == 0 ==> d.access_code is None
        }),
{
}

/// Presets that were read are those that are shown; where they could not be read,
/// those before stay. A deleted preset is no longer edited, any other is, and the
/// presets are read again.
pub proof fn presets_are_what_was_read(
    s: AppState,
    t: AppState,
    read: Result<Presets, String>,
    path: Seq<char>,
    deleted: Result<(), String>,
    now: u64,
)
    ensures
        presets_read(s, t, read, now) ==> match read {
            Ok(presets) => t.ui.presets == presets.list && (presets.skipped == 0 ==> t.toasts@
                == s.toasts@),
            Err(why) => t.ui == s.ui && t.toasts@ == s.toasts@.said(
                "Failed to load presets: "@ + why@,
                ToastLevel::Error,
                now,
            ),
        },
        preset_gone(s, t, path, deleted, now) && deleted is Ok ==> {
            &&& t.out@ == s.out@.push(Effect::LoadPresets)
            &&& (s.ui.editing_preset matches Some(open) && open@ == path)
                ==> t.ui.editing_preset is None
            &&& !(s.ui.editing_preset matches Some(open) && open@ == path)
                ==> t.ui.editing_preset == s.ui.editing_preset
        },
        preset_gone(s, t, path, deleted, now) && deleted is Err ==> t.ui == s.ui && t.out@
            == s.out@,
{
}

/// Several clients are allowed only by asking for it, with tray processes killed
/// first where clients are running, and are no longer allowed at once.
pub proof fn several_clients_are_asked_for(
    s: AppState,
    t: AppState,
    action: SettingsAction,
    now: u64,
)
    requires
        setting_done(s, t, action, now),
    ensures
        action is EnableMultiInstance ==> t.config == s.config && t.out@ == s.out@.push(
            Effect::EnableMultiInstance { kill_tray: s.clients.running },
        ),
        action is DisableMultiInstance ==> !t.config.multi_instance_enabled && t.out@ == s.out@,
        action is SaveConfig ==> t.config == s.config && t.out@ == s.out@.push(
            Effect::SaveSettings,
        ),
        t.store == s.store && t.session == s.session,
{
}

// ---------------------------------------------------------------------------
// Clients
// ---------------------------------------------------------------------------

/// A client that was closed is no longer tracked, and all others are; one that
/// could not be closed stays, and the user is told why.
pub proof fn a_closed_client_is_forgotten(
    s: AppState,
    t: AppState,
    pid: u32,
    user_id: u64,
    result: Result<(), String>,
    now: u64,
    i: int,
)
    requires
        kill_done(s, t, pid, user_id, result, now),
        0 <= i < s.clients.matched@.len(),
    ensures
        result is Ok ==> (t.clients.matched@.contains(s.clients.matched@[i])
            <==> s.clients.matched@[i].pid != pid),
        result matches Err(why) ==> t.clients == s.clients && t.toasts@ == s.toasts@.said(
            why@,
            ToastLevel::Error,
            now,
        ),
        t.out@ == s.out@ && t.store == s.store,
{
    let all = s.clients.matched@;
    let p = super::clients::but_pid(pid);
    let kept = all.filter(p);
    if kept.contains(all[i]) {
        let m = choose|m: int| 0 <= m < kept.len() && kept[m] == all[i];
        all.lemma_filter_pred(p, m);
    }
    if all[i].pid != pid {
        all.lemma_filter_contains(p, i);
    }
}

/// Windows get their own titles back as soon as the user does not want them
/// renamed any more, and only then.
pub proof fn titles_are_given_back_once(s: AppState, t: AppState)
    requires
        titles_step(s, t),
    ensures
        s.clients.renaming_was_enabled && !s.config.rename_roblox_windows
            && s.clients.original_titles@.len() > 0 ==> t.out@ == s.out@.push(
            Effect::RestoreTitles(s.clients.original_titles),
        ) && t.clients.original_titles@.len() == 0,
        !s.clients.renaming_was_enabled || s.config.rename_roblox_windows ==> t.out@ == s.out@
            && t.clients.original_titles == s.clients.original_titles,
        t.clients.renaming_was_enabled == s.config.rename_roblox_windows,
        restoring(s).len() <= 1,
{
}

// ---------------------------------------------------------------------------
// Groups
// ---------------------------------------------------------------------------

/// A group that was renamed keeps its description and its place, and stays
/// collapsed where it was.
pub proof fn a_renamed_group_keeps_its_place(
    s: AppState,
    t: AppState,
    old_name: Seq<char>,
    new_name: String,
    color: (u8, u8, u8),
    i: int,
)
    requires
        group_edited(s, t, old_name, new_name, color),
        0 <= i < s.config.groups@.len(),
        s.config.groups@[i].name@ == old_name,
        forall|j: int| 0 <= j < i ==> (#[trigger] s.config.groups@[j]).name@ != old_name,
    ensures
        t.config.groups@.len() > 0,
        t.config.groups@.last() == (Group {
            name: new_name,
            color,
            description: s.config.groups@[i].description,
            sort_order: s.config.groups@[i].sort_order,
        }),
        s.ui.collapsed_groups@.contains(old_name) ==> t.ui.collapsed_groups@.contains(new_name@),
        old_name != new_name@ && s.ui.collapsed_groups@.contains(old_name)
            ==> !t.ui.collapsed_groups@.contains(old_name),
        forall|g: Group|
            s.config.groups@.contains(g) && g.name@ != old_name && g.name@ != new_name@
                ==> #[trigger] t.config.groups@.contains(g),
{
    let groups = s.config.groups@;
    let p = super::arranging::named(old_name);
    first_where_facts(groups, p);
    match super::arranging::group_in(groups, old_name) {
        Some(k) => {
            assert(p(groups[k]));
            assert(k == i) by {
                if i < k {
                    assert(!p(groups[i]));
                }
            }
        },
        None => {
            assert(!p(groups[i]));
        },
    }
    let a = super::accounts::other_names(old_name);
    let b = super::accounts::other_names(new_name@);
    let once = groups.filter(a);
    let twice = once.filter(b);
    assert forall|g: Group|
        groups.contains(g) && g.name@ != old_name && g.name@ != new_name@ implies #[trigger]
        t.config.groups@.contains(g) by {
        let m = choose|m: int| 0 <= m < groups.len() && groups[m] == g;
        groups.lemma_filter_contains(a, m);
        let n = choose|n: int| 0 <= n < once.len() && once[n] == g;
        once.lemma_filter_contains(b, n);
        let o = choose|o: int| 0 <= o < twice.len() && twice[o] == g;
        assert(t.config.groups@[o] == g);
    }
}

/// A deleted group is gone; all others stay.
pub proof fn a_deleted_group_is_gone(s: AppState, t: AppState, name: Seq<char>, g: Group)
    requires
        group_deleted(s, t, name),
    ensures
        t.config.groups@.contains(g) <==> s.config.groups@.contains(g) && g.name@ != name,
        !t.ui.collapsed_groups@.contains(name),
{
    let groups = s.config.groups@;
    let p = super::accounts::other_names(name);
    let kept = groups.filter(p);
    if kept.contains(g) {
        let m = choose|m: int| 0 <= m < kept.len() && kept[m] == g;
        groups.lemma_filter_pred(p, m);
        groups.lemma_filter_contains_rev(p, g);
    }
    if groups.contains(g) && g.name@ != name {
        let m = choose|m: int| 0 <= m < groups.len() && groups[m] == g;
        groups.lemma_filter_contains(p, m);
    }
}

// ---------------------------------------------------------------------------
// The asset tab
// ---------------------------------------------------------------------------

/// Changes of the index are written, unless it must not be, as soon as the last
/// time is long enough ago, and then count as written; what is not changed is
/// not written.
pub proof fn changes_of_the_index_are_written(s: AppState, t: AppState, now: u64)
    requires
        flush_step(s, t, now),
    ensures
        s.desk.dirty && (s.timers.index_save matches Some(last) ==> last + INDEX_SAVE_EVERY <= now)
            ==> t.out@ == s.out@ + index_writes(s) && !t.desk.dirty && t.timers.index_save == Some(
            now,
        ),
        !s.desk.dirty || (s.timers.index_save matches Some(last) && last + INDEX_SAVE_EVERY > now)
            ==> t == s,
        t.desk.index == s.desk.index,
{
    assert(super::uploads::saving_index(s) =~= index_writes(s));
}

/// The user is taken off the asset tab where it is no longer there, and left where
/// they are otherwise.
pub proof fn a_hidden_tab_is_left(s: AppState, t: AppState)
    requires
        tab_step(s, t),
    ensures
        !s.lock.needs_unlock && !s.config.developer_options ==> t.ui.active_tab
            != Tab::AssetManager,
        s.config.developer_options || s.ui.active_tab != Tab::AssetManager ==> t == s,
        t.out == s.out && t.desk == s.desk,
{
}

/// After a restart, a row whose upload was cut off counts as uploaded only where
/// its bytes are on Roblox under its creator, and waits again otherwise; all
/// other rows are as they were.
pub proof fn a_cut_off_upload_waits_again(records: Seq<AssetRecord>, n: nat, i: int)
    requires
        n <= records.len(),
        0 <= i < n,
    ensures
        ({
            let after = recovered(records, n);
            let old = records[i];
            &&& after.len() == records.len()
            &&& !(old.state is Uploading) ==> after[i] == old
            &&& old.state is Uploading ==> after[i] == (AssetRecord {
                state: after[i].state,
                ..old
            }) && (after[i].state is Queued || (
            after[i].state matches AssetState::Duplicate { asset_id } && is_on_roblox(
                recovered(records, i as nat),
                old,
                asset_id,
            )))
            &&& old.state is Uploading && after[i].state is Queued ==> uploaded_as(
                recovered(records, i as nat),
                old.file_sha256@,
                old.creator,
            ) is None
        }),
    decreases n,
{
    let k = (n - 1) as nat;
    recovering_keeps_the_rest(records, k);
    recovering_keeps_the_rest(records, n);
    if i < k {
        a_cut_off_upload_waits_again(records, k, i);
        assert(recovered(records, n)[i] == recovered(records, k)[i]);
    } else {
        let rest = recovered(records, k);
        let r = records[i];
        assert(rest[i] == r);
        assert(k == i as nat);
        super::queue_laws::uploaded_means_on_roblox(rest, r);
    }
}

/// Audio is held back while a file of it is on its way, and for a while after the
/// last one.
pub proof fn audio_is_held_back(records: Seq<AssetRecord>, last: Option<u64>, now: u64, i: int)
    ensures
        0 <= i < records.len() && records[i].state is Uploading && records[i].kind
            == AssetKind::Audio ==> !audio_may_start(records, last, now),
        (last matches Some(at) && now < at + super::uploads::AUDIO_UPLOAD_SPACING)
            ==> !audio_may_start(records, last, now),
        (forall|k: int|
            0 <= k < records.len() ==> !((#[trigger] records[k]).state is Uploading
                && records[k].kind == AssetKind::Audio)) && (last is None || last->Some_0
            + super::uploads::AUDIO_UPLOAD_SPACING <= now) ==> audio_may_start(records, last, now),
{
}

/// An inventory that is asked for is the one that is shown from then on, with
/// nothing of another; asking for more keeps what is listed.
pub proof fn an_inventory_is_shown_as_asked(
    s: AppState,
    t: AppState,
    node: TreeNode,
    filter: Option<AssetKind>,
)
    ensures
        inventory_asked(s, t, node, filter) ==> {
            &&& t.desk.remote.node == Some(node) && t.desk.remote.filter == filter
            &&& t.desk.remote.requested && t.desk.remote.items@.len() == 0
            &&& t.desk.remote.cursors@.len() == 0 && t.desk.remote.error is None
            &&& t.desk.index == s.desk.index && t.desk.panel == s.desk.panel
        },
        pages_asked(s, t) ==> {
            &&& t.desk.remote.items == s.desk.remote.items
            &&& t.desk.remote.node == s.desk.remote.node
            &&& t.desk.remote.filter == s.desk.remote.filter
            &&& s.desk.remote.node is Some ==> t.desk.remote.cursors@.len() == 0
            &&& s.desk.remote.node is Some && s.desk.remote.inflight
                + s.desk.remote.cursors@.len() <= usize::MAX ==> t.desk.remote.inflight
                == s.desk.remote.inflight + s.desk.remote.cursors@.len()
            &&& t.desk.index == s.desk.index && t.desk.panel == s.desk.panel
        },
{
}

/// Asking to upload changes no row and sends nothing before it is confirmed, and
/// remembers which rows it is about.
pub proof fn an_upload_waits_for_its_confirmation(s: AppState, t: AppState, rows: Vec<String>)
    ensures
        ({
            let u = upload_asked(s, rows);
            &&& u.desk.pending_upload_rows == rows
            &&& u.desk.panel.confirm_upload == Some(rows.len())
            &&& u.desk.index == s.desk.index && u.out == s.out
        }),
        grant_opened(s, t) ==> t.desk.panel.grant_open && t.desk.index == s.desk.index,
        grant_opened(s, t) && s.desk.universe_targets_user == s.desk.panel.acting_user_id
            ==> t.out@ == s.out@,
{
    assert(rows.len() == rows@.len());
}

// ---------------------------------------------------------------------------
// The start
// ---------------------------------------------------------------------------

/// A program that starts has launched nothing and so waits for nothing to launch;
/// what opening the store refreshes by itself is not refreshed again at once.
pub proof fn a_start_waits_for_nothing(s: AppState, start: Start, now: u64)
    requires
        is_fresh(s, start, now),
    ensures
        s.timers.launch is None,
        s.timers.instance_sweep is None && s.timers.tray_kill is None,
        s.timers.presence_poll == Some(now) && s.timers.avatar_refresh == Some(now)
            && s.timers.revalidation == Some(now),
        s.timers.asset_poll is None && s.timers.moderation_poll is None
            && s.timers.upload_pump is None && s.timers.audio_upload is None,
        s.clients.last_launch_request is None,
        s.desk.index == start.index && s.desk.read_only == start.index_read_only && !s.desk.dirty,
{
}

} // verus!
