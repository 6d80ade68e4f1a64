//! What the window asks of the backend, and what the backend answers.
//!
//! Cookies cross this boundary encrypted: a command names an account and hands
//! over the encrypted cookie with the session that opens it, and the backend
//! decrypts it on its own side.

use vstd::prelude::*;

use crate::assets::{AssetKind, Creator, ModerationStatus, OperationOutcome};
use crate::models::{Account, AccountStore, ModerationInfo, Presence, StoreSession, TrackedInstance};

verus! {

/// An experience that an account manages.
#[derive(Debug)]
pub struct UniverseTarget {
    pub universe_id: u64,
    pub name: String,
}

/// A group that an account can publish under.
#[derive(Debug)]
pub struct GroupTarget {
    pub group_id: u64,
    pub name: String,
}

/// One asset of a creator's inventory.
#[derive(Debug)]
pub struct CreationItem {
    pub asset_id: u64,
    pub name: String,
    pub kind: AssetKind,
    pub updated: Option<i64>,
}

impl Clone for CreationItem {
    fn clone(&self) -> (r: Self)
        ensures
            r == *self,
    {
        CreationItem {
            asset_id: self.asset_id,
            name: self.name.clone(),
            kind: self.kind,
            updated: self.updated,
        }
    }
}

/// One page of a creator's inventory.
#[derive(Debug)]
pub struct CreationPage {
    pub items: Vec<CreationItem>,
    pub next_cursor: Option<String>,
}

/// Whose cookie a command uses.
#[derive(Debug)]
pub struct Credentials {
    pub user_id: u64,
    pub encrypted_cookie: Option<String>,
    pub session: StoreSession,
    pub use_credential_manager: bool,
}

/// Where a launch lands.
#[derive(Debug)]
pub struct Destination {
    pub place_id: u64,
    pub job_id: Option<String>,
    pub link_code: Option<String>,
    pub access_code: Option<String>,
}

/// What a launch does to clients that are already there.
#[derive(Clone, Copy, Debug, PartialEq, Eq, Structural)]
pub struct LaunchOptions {
    pub multi_instance: bool,
    pub kill_background: bool,
    pub privacy_mode: bool,
}

/// Everything one upload needs.
#[derive(Debug)]
pub struct UploadJob {
    pub row_id: String,
    pub credentials: Credentials,
    pub creator: Creator,
    pub kind: AssetKind,
    pub display_name: String,
    pub description: String,
    pub file_path: String,
}

/// From the window to the backend.
#[allow(inconsistent_fields)]
#[derive(Debug)]
pub enum BackendCommand {
    /// Validate a cookie and add the account.
    AddAccount { cookie: String, session: StoreSession, use_credential_manager: bool },
    /// Add an account whose cookie was rejected, by its username.
    AddAccountForced {
        cookie: String,
        username: String,
        session: StoreSession,
        use_credential_manager: bool,
    },
    RemoveAccount { user_id: u64 },
    LaunchGame { credentials: Credentials, destination: Destination, options: LaunchOptions },
    /// Write the account store to disk.
    SaveStore { store: AccountStore, path: String, session: StoreSession },
    /// Open a store that this device unlocks.
    UnlockWithDevice { path: String },
    /// Open a store with a typed password.
    UnlockWithPassword { path: String, password: String },
    /// Rewrite an open store under new key material. A password locks it with
    /// that password, none with this device.
    RekeyStore {
        store: AccountStore,
        path: String,
        session: StoreSession,
        new_password: Option<String>,
        /// Set where the file is older than the envelope format: the data key
        /// is then rotated and every cookie encrypted anew.
        upgrade_legacy: bool,
    },
    /// Kill all Roblox clients.
    KillAll,
    /// Refresh avatars and presence with one account's cookie.
    RefreshAll { user_ids: Vec<u64>, credentials: Credentials },
    /// Refresh presence alone.
    RefreshPresenceOnly { user_ids: Vec<u64>, credentials: Credentials },
    /// Launch several accounts into one game, one after the other.
    BulkLaunchEncrypted {
        accounts: Vec<(u64, Option<String>)>,
        session: StoreSession,
        use_credential_manager: bool,
        destination: Destination,
        options: LaunchOptions,
        launch_delay_secs: u32,
    },
    /// Validate every account's cookie again.
    RevalidateAll {
        accounts: Vec<(u64, Option<String>)>,
        session: StoreSession,
        use_credential_manager: bool,
    },
    /// Match running clients to launches.
    SweepInstances,
    /// Tile all Roblox windows.
    ArrangeWindows,
    CheckForUpdates { current_version: String },
    /// Find a place's name and icon for an entry of the private server list.
    ResolvePlace { place_id: u64, universe_id: Option<u64>, index: usize },
    ResolveShareLink { share_code: String, server_name: String, credentials: Credentials },
    /// Open a browser window that is logged in as the account.
    BrowseAsAccount { credentials: Credentials, label: String },
    UploadAsset(Box<UploadJob>),
    /// Ask about running uploads of one account: pairs of row and operation.
    PollAssetOperations { credentials: Credentials, operations: Vec<(String, String)> },
    /// Ask about moderation of finished uploads: pairs of row and asset.
    PollAssetModeration { credentials: Credentials, assets: Vec<(String, u64)> },
    /// Grant one universe the use of some assets. The pairs name the rows that
    /// some of the assets belong to.
    GrantAssetPermissions {
        credentials: Credentials,
        universe_id: u64,
        asset_ids: Vec<u64>,
        row_assets: Vec<(String, u64)>,
    },
    /// List an account's universes, and find the universe of a place.
    FetchUniverseTargets { credentials: Credentials, place_id: Option<u64> },
    FetchPublishGroups { credentials: Credentials },
    /// One page of a creator's inventory.
    FetchCreations {
        credentials: Credentials,
        creator: Creator,
        kind: AssetKind,
        cursor: Option<String>,
    },
    FetchAssetThumbnails { asset_ids: Vec<u64> },
}

/// Whether handling the command writes the account store to disk.
pub open spec fn writes_store(cmd: BackendCommand) -> bool {
    cmd is SaveStore || cmd is RekeyStore
}

impl BackendCommand {
    /// Whether the command must be handled in the order it was sent, before
    /// the next is looked at. Two writes of one file at a time would tear it,
    /// and out of order an older store would replace a newer one.
    pub fn is_serial_persistence(&self) -> (b: bool)
        ensures
            b == writes_store(*self),
    {
        match self {
            BackendCommand::SaveStore { .. } => true,
            BackendCommand::RekeyStore { .. } => true,
            _ => false,
        }
    }
}

/// From the backend to the window.
#[allow(inconsistent_fields)]
#[derive(Debug)]
pub enum BackendEvent {
    /// An account was validated and can be added.
    AccountValidated { account: Box<Account>, encrypted_cookie: Option<String> },
    /// An account was prepared although its cookie was rejected.
    AccountForceAdded { account: Box<Account>, encrypted_cookie: Option<String> },
    AccountRemoved { user_id: u64 },
    AvatarsUpdated(Vec<(u64, String)>),
    AvatarImagesReady(Vec<(u64, Vec<u8>)>),
    PresencesUpdated(Vec<(u64, Presence)>),
    GameLaunched,
    StoreSaved,
    StoreUnlocked { store: Box<AccountStore>, session: StoreSession, legacy: bool },
    /// This device's key for the store is gone.
    DeviceKeyMissing,
    /// A re-key finished and is on disk.
    StoreRekeyed { store: Box<AccountStore>, session: StoreSession },
    Killed(usize),
    BulkLaunchProgress { launched: usize, total: usize },
    BulkLaunchComplete { launched: usize, failed: usize },
    /// A cookie was validated again. The names are those of a valid cookie's
    /// account: `None` where the cookie is no longer valid.
    AccountRevalidated {
        user_id: u64,
        names: Option<(String, String)>,
        moderation: Option<ModerationInfo>,
    },
    Error(String),
    /// The result of a sweep. The count includes clients of other launchers.
    InstancesUpdated { instances: Vec<TrackedInstance>, running_count: usize },
    WindowsArranged,
    UpdateAvailable { version: String, url: String },
    /// A place's name, where it is known, and icon.
    PlaceResolved {
        index: usize,
        place_name: Option<String>,
        place_id: u64,
        icon_bytes: Option<Vec<u8>>,
    },
    ShareLinkResolved {
        server_name: String,
        place_id: u64,
        universe_id: Option<u64>,
        link_code: String,
        access_code: String,
    },
    ShareLinkFailed(String),
    BrowseAsLaunched,
    /// The cookie of an account to add was rejected.
    AddAccountAuthFailed { cookie: String, moderation_message: Option<String> },
    /// The file was read and is going out.
    AssetUploadStarted { row_id: String, file_sha256: String, file_bytes: u64 },
    /// Roblox took the bytes and named an operation to ask about.
    AssetOperationCreated { row_id: String, operation: String, started_at: i64 },
    AssetOperationResolved { row_id: String, outcome: OperationOutcome },
    /// The upload failed before anything was created on Roblox.
    AssetUploadFailed { row_id: String, message: String, retryable: bool },
    AssetModerationResolved { row_id: String, status: ModerationStatus },
    AssetPollBatchDone,
    /// A universe was granted some assets. Roblox may still have refused
    /// others of the batch.
    AssetPermissionsGranted {
        universe_id: u64,
        row_ids: Vec<String>,
        granted: usize,
        refused: usize,
    },
    AssetPermissionsFailed { universe_id: u64, message: String },
    UniverseTargetsFetched {
        user_id: u64,
        universes: Vec<UniverseTarget>,
        resolved_place: Option<(u64, u64)>,
    },
    PublishGroupsFetched { user_id: u64, groups: Vec<GroupTarget> },
    CreationsFetched {
        creator: Creator,
        kind: AssetKind,
        /// Whether the page continues an earlier one.
        appended: bool,
        page: CreationPage,
        error: Option<String>,
    },
    /// Thumbnails that Roblox had ready, of those that were asked for.
    AssetThumbnailsReady { requested: Vec<u64>, images: Vec<(u64, Vec<u8>)> },
}

} // verus!
