//! The settings panel: what its controls change, what it warns of, and what it
//! asks for.

use vstd::prelude::*;

use crate::models::AppConfig;
use crate::text::{same, trim, trimmed};

verus! {

/// The longest launch delay that can be set, in seconds.
pub const MAX_LAUNCH_DELAY: u32 = 300;

/// Something the panel asks for.
#[derive(Debug)]
pub enum SettingsAction {
    SaveConfig,
    ChangePassword { new_password: String },
    ClearPassword,
    EnableMultiInstance,
    DisableMultiInstance,
}

/// What the panel remembers.
#[derive(Debug)]
pub struct SettingsState {
    pub new_password_input: String,
    pub confirm_password_input: String,
}

impl Default for SettingsState {
    fn default() -> (s: Self)
        ensures
            s.new_password_input@.len() == 0,
            s.confirm_password_input@.len() == 0,
    {
        SettingsState { new_password_input: String::new(), confirm_password_input: String::new() }
    }
}

/// A control of the panel was used.
#[derive(Debug)]
pub enum SettingsEvent {
    CredentialManager(bool),
    MultiInstance(bool),
    KillBackground(bool),
    AutoArrange(bool),
    RenameWindows(bool),
    LaunchDelay(i32),
    PrivacyMode(bool),
    AnonymizeNames(bool),
    DeveloperOptions(bool),
    PlayerPath(String),
    Save,
    SubmitPassword,
    ClearPassword,
}

/// Whether a new password was typed twice.
pub open spec fn passwords_match(s: SettingsState) -> bool {
    s.new_password_input@.len() > 0 && s.new_password_input@ == s.confirm_password_input@
}

/// Whether a new password was typed twice.
pub fn password_ready(s: &SettingsState) -> (b: bool)
    ensures
        b == passwords_match(*s),
{
    !s.new_password_input.as_str().is_empty() && same(
        &s.new_password_input,
        &s.confirm_password_input,
    )
}

/// The launch delay that a value of the control stands for.
pub open spec fn delay_of(secs: i32) -> u32 {
    if secs < 0 {
        0
    } else if secs > MAX_LAUNCH_DELAY {
        MAX_LAUNCH_DELAY
    } else {
        secs as u32
    }
}

/// The settings after a control was used. Allowing several clients is not a
/// change of the settings but a request: it can fail.
pub open spec fn with_setting(config: AppConfig, event: SettingsEvent) -> AppConfig {
    match event {
        SettingsEvent::CredentialManager(b) => AppConfig { use_credential_manager: b, ..config },
        SettingsEvent::KillBackground(b) => AppConfig { kill_background_roblox: b, ..config },
        SettingsEvent::AutoArrange(b) => AppConfig { auto_arrange_windows: b, ..config },
        SettingsEvent::RenameWindows(b) => AppConfig { rename_roblox_windows: b, ..config },
        SettingsEvent::LaunchDelay(secs) => AppConfig {
            launch_delay_secs: delay_of(secs),
            ..config
        },
        SettingsEvent::PrivacyMode(b) => AppConfig { privacy_mode: b, ..config },
        SettingsEvent::AnonymizeNames(b) => AppConfig { anonymize_names: b, ..config },
        SettingsEvent::DeveloperOptions(b) => AppConfig { developer_options: b, ..config },
        SettingsEvent::PlayerPath(path) => AppConfig {
            roblox_player_path: if trimmed(path@).len() == 0 {
                None
            } else {
                Some(path)
            },
            ..config
        },
        _ => config,
    }
}

/// What the panel asks for once a control was used. A password is only set
/// where it was typed twice, and only dropped where there is one.
pub open spec fn asked(
    config: AppConfig,
    has_password: bool,
    state: SettingsState,
    event: SettingsEvent,
) -> Option<SettingsAction> {
    match event {
        SettingsEvent::MultiInstance(true) => Some(SettingsAction::EnableMultiInstance),
        SettingsEvent::MultiInstance(false) => Some(SettingsAction::DisableMultiInstance),
        SettingsEvent::Save => Some(SettingsAction::SaveConfig),
        SettingsEvent::SubmitPassword => if passwords_match(state) {
            Some(SettingsAction::ChangePassword { new_password: state.new_password_input })
        } else {
            None
        },
        SettingsEvent::ClearPassword => if has_password {
            Some(SettingsAction::ClearPassword)
        } else {
            None
        },
        _ => None,
    }
}

/// A control of the panel was used. The typed passwords do not outlive a
/// request about the password.
pub fn apply_setting(
    config: &mut AppConfig,
    has_password: bool,
    state: &mut SettingsState,
    event: SettingsEvent,
) -> (action: Option<SettingsAction>)
    ensures
        *final(config) == with_setting(*old(config), event),
        action == asked(*old(config), has_password, *old(state), event),
        action is Some && (event is SubmitPassword || event is ClearPassword) ==> {
            &&& final(state).new_password_input@.len() == 0
            &&& final(state).confirm_password_input@.len() == 0
        },
        !(action is Some && (event is SubmitPassword || event is ClearPassword)) ==> *final(state)
            == *old(state),
{
    match event {
        SettingsEvent::CredentialManager(b) => {
            config.use_credential_manager = b;
            None
        },
        SettingsEvent::MultiInstance(b) => {
            if b {
                Some(SettingsAction::EnableMultiInstance)
            } else {
                Some(SettingsAction::DisableMultiInstance)
            }
        },
        SettingsEvent::KillBackground(b) => {
            config.kill_background_roblox = b;
            None
        },
        SettingsEvent::AutoArrange(b) => {
            config.auto_arrange_windows = b;
            None
        },
        SettingsEvent::RenameWindows(b) => {
            config.rename_roblox_windows = b;
            None
        },
        SettingsEvent::LaunchDelay(secs) => {
            config.launch_delay_secs = if secs < 0 {
                0
            } else if secs as u32 > MAX_LAUNCH_DELAY {
                MAX_LAUNCH_DELAY
            } else {
                secs as u32
            };
            None
        },
        SettingsEvent::PrivacyMode(b) => {
            config.privacy_mode = b;
            None
        },
        SettingsEvent::AnonymizeNames(b) => {
            config.anonymize_names = b;
            None
        },
        SettingsEvent::DeveloperOptions(b) => {
            config.developer_options = b;
            None
        },
        SettingsEvent::PlayerPath(path) => {
            config.roblox_player_path = if trim(&path).as_str().is_empty() {
                None
            } else {
                Some(path)
            };
            None
        },
        SettingsEvent::Save => Some(SettingsAction::SaveConfig),
        SettingsEvent::SubmitPassword => {
            if password_ready(state) {
                let new_password: String = state.new_password_input.clone();
                state.new_password_input = String::new();
                state.confirm_password_input = String::new();
                Some(SettingsAction::ChangePassword { new_password })
            } else {
                None
            }
        },
        SettingsEvent::ClearPassword => {
            if has_password {
                state.new_password_input = String::new();
                state.confirm_password_input = String::new();
                Some(SettingsAction::ClearPassword)
            } else {
                None
            }
        },
    }
}

/// What the panel warns of and offers.
#[derive(Clone, Copy, Debug, PartialEq, Eq, Structural)]
pub struct Notices {
    /// Several clients at once may carry a risk.
    pub ban_risk: bool,
    /// Roblox has to be closed before several clients can be allowed.
    pub close_roblox: bool,
    /// Killing tray processes is recommended.
    pub tray_recommended: bool,
    /// Window titles can be read by others.
    pub titles_readable: bool,
    /// Uploads are permanent.
    pub uploads_permanent: bool,
    /// The two passwords differ.
    pub passwords_differ: bool,
    /// The password can be set.
    pub can_set_password: bool,
    /// The password can be dropped.
    pub can_drop_password: bool,
}

/// What the panel warns of and offers.
pub open spec fn noticed(
    config: AppConfig,
    has_password: bool,
    state: SettingsState,
    roblox_running: bool,
) -> Notices {
    Notices {
        ban_risk: config.multi_instance_enabled,
        close_roblox: !config.multi_instance_enabled && roblox_running,
        tray_recommended: config.multi_instance_enabled && !config.kill_background_roblox,
        titles_readable: config.rename_roblox_windows && !config.anonymize_names,
        uploads_permanent: config.developer_options,
        passwords_differ: state.new_password_input@.len() > 0
            && state.confirm_password_input@.len() > 0 && !passwords_match(state),
        can_set_password: passwords_match(state),
        can_drop_password: has_password,
    }
}

/// What the panel warns of and offers.
pub fn notices(
    config: &AppConfig,
    has_password: bool,
    state: &SettingsState,
    roblox_running: bool,
) -> (n: Notices)
    ensures
        n == noticed(*config, has_password, *state, roblox_running),
{
    let ready: bool = password_ready(state);
    Notices {
        ban_risk: config.multi_instance_enabled,
        close_roblox: !config.multi_instance_enabled && roblox_running,
        tray_recommended: config.multi_instance_enabled && !config.kill_background_roblox,
        titles_readable: config.rename_roblox_windows && !config.anonymize_names,
        uploads_permanent: config.developer_options,
        passwords_differ: !state.new_password_input.as_str().is_empty()
            && !state.confirm_password_input.as_str().is_empty() && !ready,
        can_set_password: ready,
        can_drop_password: has_password,
    }
}

/// A password is only ever set to what was typed twice.
pub proof fn a_password_is_typed_twice(
    config: AppConfig,
    has_password: bool,
    state: SettingsState,
    event: SettingsEvent,
    new_password: String,
)
    requires
        asked(config, has_password, state, event) == Some(
            SettingsAction::ChangePassword { new_password },
        ),
    ensures
        new_password@.len() > 0,
        new_password@ == state.new_password_input@,
        new_password@ == state.confirm_password_input@,
{
}

/// No control changes whether several clients are allowed: that is only asked
/// for.
pub proof fn multi_instance_is_never_set_directly(config: AppConfig, event: SettingsEvent)
    ensures
        with_setting(config, event).multi_instance_enabled == config.multi_instance_enabled,
{
}

} // verus!
