//! Which commands are handled in the order they were sent.

use ram_ui::bridge::{
    BackendCommand, Credentials, Destination, LaunchOptions,
};
use ram_ui::models::{AccountStore, StoreSession};

/// What the classification is required to answer, written out variant by
/// variant and without a catch-all: does handling this command write the
/// account store to disk?
fn writes_the_store(cmd: &BackendCommand) -> bool {
    match cmd {
        BackendCommand::SaveStore { .. } => true,
        BackendCommand::RekeyStore { .. } => true,
        BackendCommand::AddAccount { .. }
        | BackendCommand::AddAccountForced { .. }
        | BackendCommand::RemoveAccount { .. }
        | BackendCommand::LaunchGame { .. }
        | BackendCommand::UnlockWithDevice { .. }
        | BackendCommand::UnlockWithPassword { .. }
        | BackendCommand::KillAll
        | BackendCommand::RefreshAll { .. }
        | BackendCommand::RefreshPresenceOnly { .. }
        | BackendCommand::BulkLaunchEncrypted { .. }
        | BackendCommand::RevalidateAll { .. }
        | BackendCommand::SweepInstances
        | BackendCommand::ArrangeWindows
        | BackendCommand::CheckForUpdates { .. }
        | BackendCommand::ResolvePlace { .. }
        | BackendCommand::ResolveShareLink { .. }
        | BackendCommand::BrowseAsAccount { .. }
        | BackendCommand::UploadAsset(_)
        | BackendCommand::PollAssetOperations { .. }
        | BackendCommand::PollAssetModeration { .. }
        | BackendCommand::GrantAssetPermissions { .. }
        | BackendCommand::FetchUniverseTargets { .. }
        | BackendCommand::FetchPublishGroups { .. }
        | BackendCommand::FetchCreations { .. }
        | BackendCommand::FetchAssetThumbnails { .. } => false,
    }
}

fn session() -> StoreSession {
    StoreSession { handle: 1, needs_password: true, legacy: false }
}

fn path() -> String {
    "accounts.rmenc".to_string()
}

fn store() -> AccountStore {
    AccountStore { accounts: Vec::new() }
}

/// One command of every shape that matters to the classification, plus the two
/// that must be serial.
fn sample_commands() -> Vec<BackendCommand> {
    vec![
        BackendCommand::SaveStore { store: store(), path: path(), session: session() },
        BackendCommand::RekeyStore {
            store: store(),
            path: path(),
            session: session(),
            new_password: None,
            upgrade_legacy: false,
        },
        BackendCommand::RekeyStore {
            store: store(),
            path: path(),
            session: session(),
            new_password: Some("hunter2".to_string()),
            upgrade_legacy: true,
        },
        BackendCommand::SweepInstances,
        BackendCommand::KillAll,
        BackendCommand::ArrangeWindows,
        BackendCommand::RemoveAccount { user_id: 7 },
        BackendCommand::UnlockWithDevice { path: path() },
        BackendCommand::UnlockWithPassword { path: path(), password: "hunter2".to_string() },
        BackendCommand::AddAccount {
            cookie: "COOKIE".to_string(),
            session: session(),
            use_credential_manager: false,
        },
        BackendCommand::LaunchGame {
            credentials: Credentials {
                user_id: 7,
                encrypted_cookie: None,
                session: session(),
                use_credential_manager: false,
            },
            destination: Destination {
                place_id: 606,
                job_id: None,
                link_code: None,
                access_code: None,
            },
            options: LaunchOptions {
                multi_instance: false,
                kill_background: false,
                privacy_mode: false,
            },
        },
        BackendCommand::CheckForUpdates { current_version: "1.8.1".to_string() },
        BackendCommand::FetchAssetThumbnails { asset_ids: Vec::new() },
    ]
}

#[test]
fn only_store_writes_are_classified_as_serial() {
    for cmd in sample_commands() {
        assert_eq!(
            cmd.is_serial_persistence(),
            writes_the_store(&cmd),
            "a command was classified against what it does to the store file"
        );
    }
}

#[test]
fn save_and_rekey_are_serial() {
    let s = session();
    assert!(BackendCommand::SaveStore { store: store(), path: path(), session: s }
        .is_serial_persistence());
    assert!(BackendCommand::RekeyStore {
        store: store(),
        path: path(),
        session: s,
        new_password: None,
        upgrade_legacy: false,
    }
    .is_serial_persistence());
}

/// The sweep runs on a timer and would otherwise stall the whole command loop
/// behind a walk of the process table every few seconds.
#[test]
fn the_instance_sweep_is_not_serial() {
    assert!(!BackendCommand::SweepInstances.is_serial_persistence());
}
