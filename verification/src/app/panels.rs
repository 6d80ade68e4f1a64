//! Private servers, presets and settings.

use vstd::prelude::*;

use super::clients::{launch_of, slot_free, slot_taken, wait_said};
use super::events::server_added;
use super::session::{has_password, rekeying};
use super::{becomes, AppState, Effect, PresetFile, UiState};
use crate::bridge::{BackendCommand, Credentials, Destination};
use crate::models::{position_in, position_of, AppConfig, PrivateServer, StoreSession};
use crate::settings::{apply_setting, asked, with_setting, SettingsAction, SettingsEvent};
use crate::text::{decimal, decimal_of, join2, join3, same};
use crate::toast::ToastLevel;

verus! {

// ---------------------------------------------------------------------------
// Private servers
// ---------------------------------------------------------------------------

/// The access code that a launch carries: none where it is empty.
pub open spec fn access_given(access_code: String) -> Option<String> {
    if access_code@.len() == 0 {
        None
    } else {
        Some(access_code)
    }
}

/// Where a launch into a private server goes.
pub open spec fn into_server(place_id: u64, link_code: String, access_code: String) -> Destination {
    Destination {
        place_id,
        job_id: None,
        link_code: Some(link_code),
        access_code: access_given(access_code),
    }
}

/// The member of a set of one.
pub open spec fn sole(selected: Set<u64>) -> u64 {
    choose|id: u64| selected.contains(id)
}

/// Whether `t` is the state after the selected accounts were to be launched
/// into a private server.
pub open spec fn server_launched(
    s: AppState,
    t: AppState,
    destination: Destination,
    now: u64,
) -> bool {
    let selected = s.ui.selected@;
    if s.session is None || selected.len() == 0 {
        t == s
    } else if selected.len() > 1 {
        becomes(t, s, s.out@.push(Effect::BulkLaunch(destination)), s.toasts@)
    } else if !slot_free(s, now) {
        becomes(t, s, s.out@, wait_said(s, now))
    } else {
        match position_in(s.store.accounts@, sole(selected)) {
            Some(i) => becomes(
                t,
                slot_taken(s, now),
                s.out@.push(Effect::Send(launch_of(s, s.store.accounts@[i], destination))),
                s.toasts@,
            ),
            None => t == slot_taken(s, now),
        }
    }
}

/// Whether `t` is the state after a share link was to be followed. That takes
/// an account to ask with: the first.
pub open spec fn link_followed(
    s: AppState,
    t: AppState,
    share_code: String,
    server_name: String,
    now: u64,
) -> bool {
    if s.session is Some && s.store.accounts@.len() > 0 {
        becomes(
            t,
            s,
            s.out@.push(
                Effect::Send(
                    BackendCommand::ResolveShareLink {
                        share_code,
                        server_name,
                        credentials: super::credentials_of(s, s.store.accounts@[0]),
                    },
                ),
            ),
            s.toasts@.said("Resolving share link..."@, ToastLevel::Info, now),
        )
    } else {
        becomes(
            t,
            s,
            s.out@,
            s.toasts@.said(
                "Add at least one account before using share links"@,
                ToastLevel::Error,
                now,
            ),
        )
    }
}

/// Whether a private server still has to be looked up.
pub open spec fn server_unknown(s: AppState, server: PrivateServer) -> bool {
    server.place_name@.len() == 0 || !s.pictures.game_icons@.contains_key(server.place_id)
}

/// What looking up the first `n` private servers adds to the things to do.
pub open spec fn looking_up(s: AppState, n: nat) -> Seq<Effect>
    decreases n,
{
    if n == 0 {
        Seq::empty()
    } else {
        let rest = looking_up(s, (n - 1) as nat);
        let server = s.config.private_servers@[n - 1];
        if server_unknown(s, server) {
            rest.push(
                Effect::Send(
                    BackendCommand::ResolvePlace {
                        place_id: server.place_id,
                        universe_id: server.universe_id,
                        index: (n - 1) as usize,
                    },
                ),
            )
        } else {
            rest
        }
    }
}

impl AppState {
    /// Adds a private server that was entered by hand.
    pub fn server_entered(&mut self, server: PrivateServer, now: u64)
        requires
            old(self).inv(),
        ensures
            final(self).inv(),
            server_added(*old(self), *final(self)),
            final(self).config.private_servers@.last() == server,
            final(self).toasts@ == old(self).toasts@.said(
                "Private server added"@,
                ToastLevel::Success,
                now,
            ),
    {
        self.add_server(server);
        self.say("Private server added", ToastLevel::Success, now);
    }

    /// Removes a private server.
    pub fn remove_server(&mut self, index: usize, now: u64)
        requires
            old(self).inv(),
        ensures
            final(self).inv(),
            if index < old(self).config.private_servers@.len() {
                &&& final(self).config.private_servers@ == old(self).config.private_servers@.remove(
                    index as int,
                )
                &&& becomes(
                    *final(self),
                    AppState {
                        config: AppConfig {
                            private_servers: final(self).config.private_servers,
                            ..old(self).config
                        },
                        ..*old(self)
                    },
                    old(self).out@.push(Effect::SaveConfig),
                    old(self).toasts@.said("Private server removed"@, ToastLevel::Info, now),
                )
            } else {
                *final(self) == *old(self)
            },
    {
        if index < self.config.private_servers.len() {
            self.config.private_servers.remove(index);
            self.out.push(Effect::SaveConfig);
            self.say("Private server removed", ToastLevel::Info, now);
        }
    }

    /// Launches the selected accounts into a private server.
    pub fn launch_server(
        &mut self,
        place_id: u64,
        link_code: String,
        access_code: String,
        now: u64,
    )
        requires
            old(self).inv(),
        ensures
            final(self).inv(),
            server_launched(
                *old(self),
                *final(self),
                into_server(place_id, link_code, access_code),
                now,
            ),
    {
        let session: StoreSession = match self.session {
            Some(s) => s,
            None => {
                return;
            },
        };
        let access: Option<String> = if access_code.as_str().is_empty() {
            None
        } else {
            Some(access_code)
        };
        let destination: Destination = Destination {
            place_id,
            job_id: None,
            link_code: Some(link_code),
            access_code: access,
        };
        if self.ui.selected.len() > 1 {
            self.out.push(Effect::BulkLaunch(destination));
            return;
        }
        match self.ui.selected.only() {
            Some(user_id) => {
                proof {
                    let chosen = sole(self.ui.selected@);
                    assert(self.ui.selected@.contains(user_id));
                    assert(chosen == user_id);
                }
                if !self.try_consume_launch_slot(now) {
                    return;
                }
                match position_of(&self.store.accounts, user_id) {
                    Some(i) => {
                        let credentials: Credentials = super::credentials_for(
                            &self.store.accounts[i],
                            session,
                            self.config.use_credential_manager,
                        );
                        self.out.push(
                            Effect::Send(
                                BackendCommand::LaunchGame {
                                    credentials,
                                    destination,
                                    options: self.options(),
                                },
                            ),
                        );
                    },
                    None => {},
                }
            },
            None => {},
        }
    }

    /// Looks a private server's place up again.
    pub fn resolve_server(&mut self, index: usize)
        requires
            old(self).inv(),
        ensures
            final(self).inv(),
            becomes(
                *final(self),
                *old(self),
                if index < old(self).config.private_servers@.len() {
                    old(self).out@.push(
                        Effect::Send(
                            BackendCommand::ResolvePlace {
                                place_id: old(self).config.private_servers@[index as int].place_id,
                                universe_id: old(self).config.private_servers@[index as int].universe_id,
                                index,
                            },
                        ),
                    )
                } else {
                    old(self).out@
                },
                old(self).toasts@,
            ),
    {
        if index < self.config.private_servers.len() {
            let place_id: u64 = self.config.private_servers[index].place_id;
            let universe_id: Option<u64> = self.config.private_servers[index].universe_id;
            self.out.push(
                Effect::Send(BackendCommand::ResolvePlace { place_id, universe_id, index }),
            );
        }
    }

    /// Follows a share link.
    pub fn follow_share_link(&mut self, share_code: String, server_name: String, now: u64)
        requires
            old(self).inv(),
        ensures
            final(self).inv(),
            link_followed(*old(self), *final(self), share_code, server_name, now),
    {
        if self.store.accounts.len() > 0 {
            match self.session {
                Some(session) => {
                    let credentials: Credentials = super::credentials_for(
                        &self.store.accounts[0],
                        session,
                        self.config.use_credential_manager,
                    );
                    self.out.push(
                        Effect::Send(
                            BackendCommand::ResolveShareLink {
                                share_code,
                                server_name,
                                credentials,
                            },
                        ),
                    );
                    self.say("Resolving share link...", ToastLevel::Info, now);
                    return;
                },
                None => {},
            }
        }
        self.say("Add at least one account before using share links", ToastLevel::Error, now);
    }

    /// Looks up every private server whose place's name or icon is missing.
    pub fn resolve_private_server_icons(&mut self)
        requires
            old(self).inv(),
        ensures
            final(self).inv(),
            becomes(
                *final(self),
                *old(self),
                old(self).out@ + looking_up(
                    *old(self),
                    old(self).config.private_servers@.len(),
                ),
                old(self).toasts@,
            ),
    {
        broadcast use vstd::std_specs::hash::group_hash_axioms;

        let mut i: usize = 0;
        assert(self.out@ =~= old(self).out@ + looking_up(*old(self), 0));
        while i < self.config.private_servers.len()
            invariant
                0 <= i <= self.config.private_servers@.len(),
                self.inv(),
                self.out@ == old(self).out@ + looking_up(*old(self), i as nat),
                *self == (AppState { out: self.out, ..*old(self) }),
            decreases self.config.private_servers@.len() - i,
        {
            broadcast use vstd::std_specs::hash::group_hash_axioms;

            let place_id: u64 = self.config.private_servers[i].place_id;
            let universe_id: Option<u64> = self.config.private_servers[i].universe_id;
            if self.config.private_servers[i].place_name.as_str().is_empty()
                || !self.pictures.game_icons.contains_key(&place_id) {
                self.out.push(
                    Effect::Send(
                        BackendCommand::ResolvePlace { place_id, universe_id, index: i },
                    ),
                );
            }
            i += 1;
            assert(self.out@ =~= old(self).out@ + looking_up(*old(self), i as nat));
        }
    }
}

// ---------------------------------------------------------------------------
// Presets
// ---------------------------------------------------------------------------

/// What reading the presets came to: those that could be read, and how many
/// files could not.
#[derive(Debug)]
pub struct Presets {
    pub list: Vec<PresetFile>,
    pub skipped: usize,
}

/// Whether `t` is the state after the presets were read.
pub open spec fn presets_read(
    s: AppState,
    t: AppState,
    result: Result<Presets, String>,
    now: u64,
) -> bool {
    match result {
        Ok(presets) => becomes(
            t,
            AppState { ui: UiState { presets: presets.list, ..s.ui }, ..s },
            s.out@,
            if presets.skipped > 0 {
                s.toasts@.said(
                    "Skipped "@ + decimal(presets.skipped as nat) + " unreadable preset file(s)"@,
                    ToastLevel::Error,
                    now,
                )
            } else {
                s.toasts@
            },
        ),
        Err(e) => becomes(
            t,
            s,
            s.out@,
            s.toasts@.said("Failed to load presets: "@ + e@, ToastLevel::Error, now),
        ),
    }
}

/// Whether `t` is the state after a preset's file was deleted. An editor that
/// had it open is cleared.
pub open spec fn preset_gone(
    s: AppState,
    t: AppState,
    path: Seq<char>,
    result: Result<(), String>,
    now: u64,
) -> bool {
    match result {
        Ok(()) => becomes(
            t,
            AppState {
                ui: UiState {
                    editing_preset: match s.ui.editing_preset {
                        Some(open) => if open@ == path {
                            None
                        } else {
                            Some(open)
                        },
                        None => None,
                    },
                    ..s.ui
                },
                ..s
            },
            s.out@.push(Effect::LoadPresets),
            s.toasts@.said("Preset deleted"@, ToastLevel::Info, now),
        ),
        Err(e) => becomes(
            t,
            s,
            s.out@,
            s.toasts@.said("Delete failed: "@ + e@, ToastLevel::Error, now),
        ),
    }
}

impl AppState {
    /// The presets were read.
    pub fn presets_loaded(&mut self, result: Result<Presets, String>, now: u64)
        requires
            old(self).inv(),
        ensures
            final(self).inv(),
            presets_read(*old(self), *final(self), result, now),
    {
        match result {
            Ok(presets) => {
                if presets.skipped > 0 {
                    let text: String = join3(
                        "Skipped ",
                        &decimal_of(presets.skipped as u64),
                        " unreadable preset file(s)",
                    );
                    self.say(&text, ToastLevel::Error, now);
                }
                self.ui.presets = presets.list;
            },
            Err(e) => {
                let text: String = join2("Failed to load presets: ", &e);
                self.say(&text, ToastLevel::Error, now);
            },
        }
    }

    /// A preset was written, or could not be.
    pub fn preset_saved(&mut self, result: Result<(), String>, now: u64)
        requires
            old(self).inv(),
        ensures
            final(self).inv(),
            match result {
                Ok(()) => becomes(
                    *final(self),
                    *old(self),
                    old(self).out@.push(Effect::LoadPresets),
                    old(self).toasts@.said("Preset saved"@, ToastLevel::Success, now),
                ),
                Err(e) => becomes(
                    *final(self),
                    *old(self),
                    old(self).out@,
                    old(self).toasts@.said("Save failed: "@ + e@, ToastLevel::Error, now),
                ),
            },
    {
        match result {
            Ok(()) => {
                self.say("Preset saved", ToastLevel::Success, now);
                self.out.push(Effect::LoadPresets);
            },
            Err(e) => {
                let text: String = join2("Save failed: ", &e);
                self.say(&text, ToastLevel::Error, now);
            },
        }
    }

    /// A preset's file was deleted, or could not be.
    pub fn preset_deleted(&mut self, path: &str, result: Result<(), String>, now: u64)
        requires
            old(self).inv(),
        ensures
            final(self).inv(),
            preset_gone(*old(self), *final(self), path@, result, now),
    {
        match result {
            Ok(()) => {
                self.say("Preset deleted", ToastLevel::Info, now);
                let open: bool = match &self.ui.editing_preset {
                    Some(p) => same(p, path),
                    None => false,
                };
                if open {
                    self.ui.editing_preset = None;
                }
                self.out.push(Effect::LoadPresets);
            },
            Err(e) => {
                let text: String = join2("Delete failed: ", &e);
                self.say(&text, ToastLevel::Error, now);
            },
        }
    }

    /// The folder of the presets could not be made.
    pub fn preset_folder_failed(&mut self, error: &str, now: u64)
        requires
            old(self).inv(),
        ensures
            final(self).inv(),
            becomes(
                *final(self),
                *old(self),
                old(self).out@,
                old(self).toasts@.said(
                    "Could not create folder: "@ + error@,
                    ToastLevel::Error,
                    now,
                ),
            ),
    {
        let text: String = join2("Could not create folder: ", error);
        self.say(&text, ToastLevel::Error, now);
    }
}

// ---------------------------------------------------------------------------
// Settings
// ---------------------------------------------------------------------------

/// How allowing several clients went.
#[derive(Debug)]
pub enum MultiInstance {
    /// Clients are still running.
    StillRunning,
    Enabled,
    Failed(String),
}

/// Whether `t` is the state after the settings panel asked for something.
pub open spec fn setting_done(s: AppState, t: AppState, action: SettingsAction, now: u64) -> bool {
    match action {
        SettingsAction::SaveConfig => becomes(t, s, s.out@.push(Effect::SaveSettings), s.toasts@),
        SettingsAction::EnableMultiInstance => becomes(
            t,
            s,
            s.out@.push(Effect::EnableMultiInstance { kill_tray: s.clients.running }),
            s.toasts@,
        ),
        SettingsAction::DisableMultiInstance => becomes(
            t,
            AppState { config: AppConfig { multi_instance_enabled: false, ..s.config }, ..s },
            s.out@,
            s.toasts@.said(
                "Multi-instance disabled (takes effect after restart)"@,
                ToastLevel::Info,
                now,
            ),
        ),
        SettingsAction::ChangePassword { new_password } => becomes(
            t,
            s,
            s.out@ + rekeying(s, Some(new_password)),
            if s.session is Some {
                s.toasts@
            } else {
                s.toasts@.said("Unlock the account store first"@, ToastLevel::Error, now)
            },
        ),
        SettingsAction::ClearPassword => becomes(
            t,
            s,
            s.out@ + rekeying(s, None),
            if s.session is Some {
                s.toasts@
            } else {
                s.toasts@.said("Unlock the account store first"@, ToastLevel::Error, now)
            },
        ),
    }
}

/// Whether `mid` is the state after a control of the panel was moved, before
/// what it asks for is done.
pub open spec fn control_moved(s: AppState, mid: AppState, event: SettingsEvent) -> bool {
    let action = asked(s.config, has_password(s), s.settings, event);
    &&& mid == (AppState { config: with_setting(s.config, event), settings: mid.settings, ..s })
    &&& if action is Some && (event is SubmitPassword || event is ClearPassword) {
        mid.settings.new_password_input@.len() == 0 && mid.settings.confirm_password_input@.len()
            == 0
    } else {
        mid.settings == s.settings
    }
}

/// Whether `t` is the state after a control of the panel was used.
pub open spec fn setting_applied(s: AppState, t: AppState, event: SettingsEvent, now: u64) -> bool {
    exists|mid: AppState|
        #[trigger] control_moved(s, mid, event) && match asked(
            s.config,
            has_password(s),
            s.settings,
            event,
        ) {
            Some(action) => setting_done(mid, t, action, now),
            None => t == mid,
        }
}

impl AppState {
    /// Does what the settings panel asks for.
    pub fn settings_action(&mut self, action: SettingsAction, now: u64)
        requires
            old(self).inv(),
        ensures
            final(self).inv(),
            setting_done(*old(self), *final(self), action, now),
    {
        match action {
            SettingsAction::SaveConfig => {
                self.out.push(Effect::SaveSettings);
            },
            SettingsAction::EnableMultiInstance => {
                let kill_tray: bool = self.clients.running;
                self.out.push(Effect::EnableMultiInstance { kill_tray });
            },
            SettingsAction::DisableMultiInstance => {
                self.config.multi_instance_enabled = false;
                self.say(
                    "Multi-instance disabled (takes effect after restart)",
                    ToastLevel::Info,
                    now,
                );
            },
            SettingsAction::ChangePassword { new_password } => {
                self.rekey_store(Some(new_password), now);
            },
            SettingsAction::ClearPassword => {
                self.rekey_store(None, now);
            },
        }
    }

    /// A control of the settings panel was used.
    pub fn setting_used(&mut self, event: SettingsEvent, now: u64)
        requires
            old(self).inv(),
        ensures
            final(self).inv(),
            setting_applied(*old(self), *final(self), event, now),
    {
        let has_password: bool = self.password_set();
        let action: Option<SettingsAction> = apply_setting(
            &mut self.config,
            has_password,
            &mut self.settings,
            event,
        );
        let ghost mid = *self;
        match action {
            Some(action) => {
                self.settings_action(action, now);
                assert(setting_done(mid, *self, action, now));
            },
            None => {},
        }
        assert(control_moved(*old(self), mid, event));
    }

    /// The settings were written, or could not be.
    pub fn settings_saved(&mut self, result: Result<(), String>, now: u64)
        requires
            old(self).inv(),
        ensures
            final(self).inv(),
            becomes(
                *final(self),
                *old(self),
                old(self).out@,
                match result {
                    Ok(()) => old(self).toasts@.said("Settings saved"@, ToastLevel::Success, now),
                    Err(e) => old(self).toasts@.said(
                        "Save failed: "@ + e@,
                        ToastLevel::Error,
                        now,
                    ),
                },
            ),
    {
        match result {
            Ok(()) => {
                self.say("Settings saved", ToastLevel::Success, now);
            },
            Err(e) => {
                let text: String = join2("Save failed: ", &e);
                self.say(&text, ToastLevel::Error, now);
            },
        }
    }

    /// Several clients were to be allowed.
    pub fn multi_instance_answered(&mut self, answer: MultiInstance, now: u64)
        requires
            old(self).inv(),
        ensures
            final(self).inv(),
            match answer {
                MultiInstance::StillRunning => becomes(
                    *final(self),
                    *old(self),
                    old(self).out@,
                    old(self).toasts@.said(
                        "Close all Roblox instances (including tray) before enabling multi-instance."@,
                        ToastLevel::Error,
                        now,
                    ),
                ),
                MultiInstance::Enabled => becomes(
                    *final(self),
                    AppState {
                        config: AppConfig { multi_instance_enabled: true, ..old(self).config },
                        ..*old(self)
                    },
                    old(self).out@,
                    old(self).toasts@.said("Multi-instance enabled"@, ToastLevel::Success, now),
                ),
                MultiInstance::Failed(e) => becomes(
                    *final(self),
                    *old(self),
                    old(self).out@,
                    old(self).toasts@.said("Failed: "@ + e@, ToastLevel::Error, now),
                ),
            },
    {
        match answer {
            MultiInstance::StillRunning => {
                self.say(
                    "Close all Roblox instances (including tray) before enabling multi-instance.",
                    ToastLevel::Error,
                    now,
                );
            },
            MultiInstance::Enabled => {
                self.config.multi_instance_enabled = true;
                self.say("Multi-instance enabled", ToastLevel::Success, now);
            },
            MultiInstance::Failed(e) => {
                let text: String = join2("Failed: ", &e);
                self.say(&text, ToastLevel::Error, now);
            },
        }
    }
}

} // verus!
