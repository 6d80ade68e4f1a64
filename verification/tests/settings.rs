//! The settings panel.

use ram_ui::models::AppConfig;
use ram_ui::settings::{
    apply_setting, notices, password_ready, SettingsAction, SettingsEvent, SettingsState,
    MAX_LAUNCH_DELAY,
};

fn config() -> AppConfig {
    AppConfig {
        accounts_path: "a".into(),
        anonymize_names: false,
        auto_arrange_windows: false,
        developer_options: false,
        kill_background_roblox: false,
        launch_delay_secs: 0,
        multi_instance_enabled: false,
        offered_passwordless: false,
        privacy_mode: false,
        rename_roblox_windows: false,
        use_credential_manager: false,
        roblox_player_path: None,
        sort_mode: "name".into(),
        groups: Vec::new(),
        private_servers: Vec::new(),
        last_seen_version: None,
    }
}

fn typed(a: &str, b: &str) -> SettingsState {
    SettingsState { new_password_input: a.into(), confirm_password_input: b.into() }
}

#[test]
fn a_password_is_set_once_it_is_typed_twice() {
    let mut c = config();
    let mut state = typed("one", "two");
    assert!(!password_ready(&state));
    assert!(apply_setting(&mut c, false, &mut state, SettingsEvent::SubmitPassword).is_none());
    assert_eq!(state.new_password_input, "one");
    let mut state = typed("one", "one");
    assert!(matches!(
        apply_setting(&mut c, false, &mut state, SettingsEvent::SubmitPassword),
        Some(SettingsAction::ChangePassword { new_password }) if new_password == "one"
    ));
    assert_eq!(state.new_password_input, "");
    assert_eq!(state.confirm_password_input, "");
    assert!(!password_ready(&typed("", "")));
}

#[test]
fn a_password_is_dropped_only_where_there_is_one() {
    let mut c = config();
    let mut state = SettingsState::default();
    assert!(apply_setting(&mut c, false, &mut state, SettingsEvent::ClearPassword).is_none());
    assert!(matches!(
        apply_setting(&mut c, true, &mut state, SettingsEvent::ClearPassword),
        Some(SettingsAction::ClearPassword)
    ));
}

#[test]
fn the_launch_delay_stays_in_its_bounds() {
    let mut c = config();
    let mut state = SettingsState::default();
    for (set, kept) in [(-5, 0), (0, 0), (7, 7), (i32::MAX, MAX_LAUNCH_DELAY)] {
        apply_setting(&mut c, false, &mut state, SettingsEvent::LaunchDelay(set));
        assert_eq!(c.launch_delay_secs, kept);
    }
}

#[test]
fn an_empty_path_is_no_path() {
    let mut c = config();
    let mut state = SettingsState::default();
    apply_setting(&mut c, false, &mut state, SettingsEvent::PlayerPath("/x".into()));
    assert_eq!(c.roblox_player_path.as_deref(), Some("/x"));
    apply_setting(&mut c, false, &mut state, SettingsEvent::PlayerPath("  ".into()));
    assert_eq!(c.roblox_player_path, None);
}

#[test]
fn several_clients_are_only_asked_for() {
    let mut c = config();
    let mut state = SettingsState::default();
    assert!(matches!(
        apply_setting(&mut c, false, &mut state, SettingsEvent::MultiInstance(true)),
        Some(SettingsAction::EnableMultiInstance)
    ));
    assert!(!c.multi_instance_enabled);
}

#[test]
fn the_panel_warns() {
    let mut c = config();
    c.rename_roblox_windows = true;
    let n = notices(&c, true, &typed("a", "b"), true);
    assert!(n.close_roblox && n.titles_readable && n.passwords_differ && n.can_drop_password);
    assert!(!n.ban_risk && !n.tray_recommended && !n.can_set_password);
    c.multi_instance_enabled = true;
    c.anonymize_names = true;
    let n = notices(&c, false, &typed("", ""), true);
    assert!(n.ban_risk && n.tray_recommended && !n.close_roblox && !n.titles_readable);
}
