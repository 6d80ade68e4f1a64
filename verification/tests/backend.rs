//! Commands, step by step.

use ram_ui::assets::{AssetKind, Creator, ModerationStatus, OperationOutcome};
use ram_ui::backend::add::AddStage;
use ram_ui::backend::launch::LaunchStage;
use ram_ui::backend::misc::MiscStage;
use ram_ui::backend::upload::{burst_wait, UploadStage};
use ram_ui::backend::{
    begin, resume, CookieUse, CoreError, Created, ErrorKind, FileRead, FileSort, Identity, Next,
    Reply, Report, Stage, TaskError, Then,
};
use ram_ui::bridge::{
    BackendCommand, BackendEvent, Credentials, Destination, LaunchOptions, UploadJob,
};
use ram_ui::models::{AccountStore, StoreSession};

fn session() -> StoreSession {
    StoreSession { handle: 1, needs_password: false, legacy: false }
}

fn credentials(cookie: Option<&str>) -> Credentials {
    Credentials {
        user_id: 7,
        encrypted_cookie: cookie.map(|c| c.to_string()),
        session: session(),
        use_credential_manager: false,
    }
}

fn error(kind: ErrorKind) -> CoreError {
    CoreError { kind, text: "went wrong".into() }
}

fn stage(next: Next) -> Stage {
    match next.go {
        Then::Ask(stage) => stage,
        other => panic!("{other:?}"),
    }
}

fn job() -> Box<UploadJob> {
    Box::new(UploadJob {
        row_id: "row".into(),
        credentials: credentials(Some("e")),
        creator: Creator::User(7),
        kind: AssetKind::Decal,
        display_name: "Picture".into(),
        description: String::new(),
        file_path: "/p.png".into(),
    })
}

#[test]
fn a_command_without_a_cookie_fails() {
    let next = begin(BackendCommand::RefreshAll {
        user_ids: vec![7],
        credentials: credentials(None),
    });
    match next.go {
        Then::Failed(e) => {
            assert_eq!(e.report(), Report::Crypto("no encrypted cookie for refresh".into()))
        }
        other => panic!("{other:?}"),
    }
}

#[test]
fn a_batch_without_accounts_fails() {
    let next = begin(BackendCommand::BulkLaunchEncrypted {
        accounts: Vec::new(),
        session: session(),
        use_credential_manager: false,
        destination: Destination { place_id: 606, job_id: None, link_code: None, access_code: None },
        options: LaunchOptions {
            multi_instance: false,
            kill_background: false,
            privacy_mode: false,
        },
        launch_delay_secs: 0,
    });
    assert!(matches!(next.go, Then::Failed(TaskError::NoAccounts)));
}

#[test]
fn an_account_is_validated_kept_and_shown() {
    let next = begin(BackendCommand::AddAccount {
        cookie: "c".into(),
        session: session(),
        use_credential_manager: false,
    });
    let who = Identity {
        user_id: 9,
        username: "zed".into(),
        display_name: "Zed".into(),
        anon_tag: "0009".into(),
    };
    let next = resume(stage(next), Reply::Identity(Ok(who)), 100);
    assert!(matches!(&next.go, Then::Ask(Stage::Add(AddStage::Encrypting { .. }))));
    let next = resume(stage(next), Reply::Text(Ok("enc".into())), 100);
    let next = resume(stage(next), Reply::Moderation(Ok(None)), 100);
    let next = resume(stage(next), Reply::Avatars(Ok(vec![(9, "url".into())])), 100);
    let next = resume(stage(next), Reply::Images(vec![(9, vec![1])]), 100);
    assert!(matches!(&next.tell, Some(BackendEvent::AvatarImagesReady(i)) if i.len() == 1));
    match next.go {
        Then::Done(BackendEvent::AccountValidated { account, encrypted_cookie }) => {
            assert_eq!(account.user_id, 9);
            assert_eq!(account.last_validated, Some(100));
            assert_eq!(encrypted_cookie.as_deref(), Some("enc"));
            assert_eq!(account.avatar_url, "url");
        }
        other => panic!("{other:?}"),
    }
}

#[test]
fn a_rejected_cookie_is_asked_about() {
    let next = begin(BackendCommand::AddAccount {
        cookie: "c".into(),
        session: session(),
        use_credential_manager: false,
    });
    let next = resume(stage(next), Reply::Identity(Err(error(ErrorKind::CookieRejected))), 0);
    let next = resume(stage(next), Reply::Message(Some(("banned".into(), None))), 0);
    assert!(matches!(
        next.go,
        Then::Done(BackendEvent::AddAccountAuthFailed { cookie, moderation_message: Some(m) })
            if cookie == "c" && m == "banned"
    ));
}

#[test]
fn a_name_that_nobody_has_fails() {
    let next = begin(BackendCommand::AddAccountForced {
        cookie: "c".into(),
        username: "nobody".into(),
        session: session(),
        use_credential_manager: true,
    });
    let next = resume(stage(next), Reply::Lookup(Ok(None)), 0);
    match next.go {
        Then::Failed(e) => assert_eq!(e.report(), Report::AccountNotFound("nobody".into())),
        other => panic!("{other:?}"),
    }
}

#[test]
fn a_launch_is_recorded_before_it_starts() {
    let next = begin(BackendCommand::LaunchGame {
        credentials: credentials(Some("e")),
        destination: Destination { place_id: 606, job_id: None, link_code: None, access_code: None },
        options: LaunchOptions {
            multi_instance: false,
            kill_background: false,
            privacy_mode: false,
        },
    });
    let next = resume(stage(next), Reply::Cookie(Ok("c".into())), 0);
    assert!(matches!(&next.go, Then::Ask(Stage::Launch(LaunchStage::Ticketing { .. }))));
    let next = resume(stage(next), Reply::Text(Ok("ticket".into())), 0);
    assert!(matches!(&next.go, Then::Ask(Stage::Launch(LaunchStage::Noting { .. }))));
    let next = resume(stage(next), Reply::Noted(42), 0);
    assert!(matches!(
        &next.go,
        Then::Ask(Stage::Launch(LaunchStage::Starting { launchtime: 42, ticket, .. }))
            if ticket == "ticket"
    ));
    let next = resume(stage(next), Reply::Unit(Ok(())), 0);
    assert!(matches!(next.go, Then::Done(BackendEvent::GameLaunched)));
}

#[test]
fn an_upload_that_is_approved_asks_for_its_verdict() {
    let next = begin(BackendCommand::UploadAsset(job()));
    let next = resume(stage(next), Reply::Cookie(Ok("c".into())), 0);
    let next = resume(
        stage(next),
        Reply::File(Ok(FileRead { bytes: vec![7; 10], sort: FileSort::Supported })),
        0,
    );
    assert!(matches!(
        &next.go,
        Then::Ask(Stage::Upload(UploadStage::Hashing { bytes, .. })) if *bytes == vec![7; 10]
    ));
    let next = resume(stage(next), Reply::Text(Ok("sha".into())), 0);
    assert!(matches!(
        &next.tell,
        Some(BackendEvent::AssetUploadStarted { file_sha256, file_bytes: 10, .. })
            if file_sha256 == "sha"
    ));
    assert!(matches!(
        &next.go,
        Then::Ask(Stage::Upload(UploadStage::Sending { bytes, .. })) if *bytes == vec![7; 10]
    ));
    let created = Created { operation: Some("op".into()), outcome: OperationOutcome::StillPending };
    let next = resume(stage(next), Reply::Uploaded(Ok(created)), 55);
    assert!(matches!(
        &next.tell,
        Some(BackendEvent::AssetOperationCreated { operation, started_at: 55, .. })
            if operation == "op"
    ));
    let next = resume(stage(next), Reply::Go, 0);
    assert!(matches!(
        &next.go,
        Then::Ask(Stage::Upload(UploadStage::Waiting { turn: 0, secs: 1, .. }))
    ));
    let next = resume(stage(next), Reply::Go, 0);
    let outcome = OperationOutcome::Approved { asset_id: 99, revision_id: None };
    let next = resume(stage(next), Reply::Outcome(Ok(outcome)), 0);
    assert!(matches!(&next.tell, Some(BackendEvent::AssetOperationResolved { .. })));
    let next = resume(
        stage(next),
        Reply::Statuses(Ok(vec![(99, ModerationStatus::Approved)])),
        0,
    );
    assert!(matches!(
        next.go,
        Then::Done(BackendEvent::AssetModerationResolved { status: ModerationStatus::Approved, .. })
    ));
}

#[test]
fn an_upload_is_left_to_the_timer_after_its_burst() {
    assert_eq!(burst_wait(AssetKind::Decal, 2), Some(4));
    assert_eq!(burst_wait(AssetKind::Decal, 3), None);
    assert_eq!(burst_wait(AssetKind::Audio, 4), Some(12));
    assert_eq!(burst_wait(AssetKind::Audio, 5), None);
    let last = Stage::Upload(UploadStage::Polling {
        row_id: "row".into(),
        cookie: "c".into(),
        kind: AssetKind::Decal,
        operation: "op".into(),
        turn: 2,
    });
    let next = resume(last, Reply::Outcome(Ok(OperationOutcome::StillPending)), 0);
    assert!(matches!(
        next.go,
        Then::Done(BackendEvent::AssetOperationResolved {
            outcome: OperationOutcome::StillPending,
            ..
        })
    ));
}

#[test]
fn a_file_that_roblox_does_not_take_fails_for_good() {
    let next = begin(BackendCommand::UploadAsset(job()));
    let next = resume(stage(next), Reply::Cookie(Ok("c".into())), 0);
    let next = resume(
        stage(next),
        Reply::File(Ok(FileRead {
            bytes: vec![7; 10],
            sort: FileSort::Unsupported { retryable: false },
        })),
        0,
    );
    match next.go {
        Then::UploadFailed { row_id, error, retryable } => {
            assert_eq!(row_id, "row");
            assert!(!retryable);
            assert_eq!(
                error.report(),
                Report::RobloxApi {
                    status: 400,
                    message: "This file type cannot be uploaded to Roblox".into(),
                }
            );
        }
        other => panic!("{other:?}"),
    }
}

#[test]
fn what_passes_by_itself_is_tried_again() {
    for (kind, again) in [
        (ErrorKind::RateLimited, true),
        (ErrorKind::Http, true),
        (ErrorKind::CookieRejected, true),
        (ErrorKind::AuthFailed, true),
        (ErrorKind::RobloxApi { retryable: true }, true),
        (ErrorKind::RobloxApi { retryable: false }, false),
        (ErrorKind::DeviceKeyMissing, false),
        (ErrorKind::Other, false),
    ] {
        assert_eq!(TaskError::Core(error(kind)).retryable(), again, "{kind:?}");
    }
    assert!(!TaskError::NoCookie(CookieUse::Account).retryable());
    assert!(!TaskError::OutOfStep.retryable());
    assert!(TaskError::UnsupportedFile { retryable: true }.retryable());
    assert!(!TaskError::UnsupportedFile { retryable: false }.retryable());
}

#[test]
fn every_failure_is_reported_as_an_error_of_its_own() {
    let crypto = |text: &str| Report::Crypto(text.to_string());
    for (e, report) in [
        (TaskError::Core(error(ErrorKind::Http)), Report::Told("went wrong".into())),
        (
            TaskError::NoCookie(CookieUse::Account),
            crypto("no encrypted cookie stored for this account"),
        ),
        (
            TaskError::NoCookie(CookieUse::ShareLink),
            crypto("no encrypted cookie for share link resolution"),
        ),
        (
            TaskError::NoCookie(CookieUse::FirstOfBatch),
            crypto("no encrypted cookie for first account"),
        ),
        (TaskError::NoSuchUser("zed".into()), Report::AccountNotFound("zed".into())),
        (TaskError::NoAccounts, Report::Process("no accounts to launch".into())),
        (TaskError::OutOfStep, Report::Process("the reply does not answer the question".into())),
    ] {
        assert_eq!(e.report(), report);
    }
}

#[test]
fn a_missing_device_key_is_told_apart() {
    let next = begin(BackendCommand::UnlockWithDevice { path: "p".into() });
    let next = resume(stage(next), Reply::Opened(Err(error(ErrorKind::DeviceKeyMissing))), 0);
    assert!(matches!(next.go, Then::Done(BackendEvent::DeviceKeyMissing)));
}

#[test]
fn sweeping_a_poisoned_registry_still_reports_a_count() {
    let next = begin(BackendCommand::SweepInstances);
    assert!(matches!(&next.go, Then::Ask(Stage::Misc(MiscStage::Sweeping))));
    let next = resume(stage(next), Reply::Swept { instances: None, running_count: 4 }, 0);
    assert!(matches!(
        next.go,
        Then::Done(BackendEvent::InstancesUpdated { instances, running_count: 4 })
            if instances.is_empty()
    ));
}

#[test]
fn sweeping_a_registry_that_launched_nothing_attributes_nothing() {
    let next = begin(BackendCommand::SweepInstances);
    let swept = Reply::Swept { instances: Some(Vec::new()), running_count: 2 };
    match resume(stage(next), swept, 0).go {
        Then::Done(BackendEvent::InstancesUpdated { instances, running_count: _ }) => {
            assert!(instances.is_empty(), "{instances:?}");
        }
        _ => panic!("the sweep must report InstancesUpdated"),
    }
}

#[test]
fn a_rekeyed_store_is_written_before_it_is_told() {
    let next = begin(BackendCommand::RekeyStore {
        store: AccountStore { accounts: Vec::new() },
        path: "p".into(),
        session: session(),
        new_password: Some("x".into()),
        upgrade_legacy: false,
    });
    let locked = StoreSession { handle: 2, needs_password: true, legacy: false };
    let next = resume(stage(next), Reply::Session(Ok(locked)), 0);
    assert!(matches!(&next.go, Then::Ask(Stage::Misc(MiscStage::SavingRekeyed { .. }))));
    let next = resume(stage(next), Reply::Unit(Ok(())), 0);
    assert!(matches!(
        next.go,
        Then::Done(BackendEvent::StoreRekeyed { session, .. }) if session == locked
    ));
}

#[test]
fn a_place_without_a_universe_has_no_name() {
    let next = begin(BackendCommand::ResolvePlace { place_id: 606, universe_id: None, index: 3 });
    assert!(matches!(
        next.go,
        Then::Done(BackendEvent::PlaceResolved { index: 3, place_name: None, place_id: 606, .. })
    ));
}

/// The count of a batch is that of the clients that were launched: an account
/// that could not be launched does not move it.
#[test]
fn a_batch_counts_launched_clients() {
    let next = begin(BackendCommand::BulkLaunchEncrypted {
        accounts: vec![(7, None)],
        session: session(),
        use_credential_manager: false,
        destination: Destination {
            place_id: 606,
            job_id: Some("job".into()),
            link_code: None,
            access_code: None,
        },
        options: LaunchOptions {
            multi_instance: false,
            kill_background: false,
            privacy_mode: false,
        },
        launch_delay_secs: 0,
    });
    assert!(matches!(
        next.tell,
        Some(BackendEvent::BulkLaunchProgress { launched: 0, total: 1 })
    ));
    assert!(matches!(
        next.go,
        Then::Done(BackendEvent::BulkLaunchComplete { launched: 0, failed: 1 })
    ));
}
