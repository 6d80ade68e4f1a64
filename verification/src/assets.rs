//! Assets that were staged for upload, and what became of them.

use vstd::prelude::*;

use crate::lists::{first_where, first_where_is, first_where_none};
use crate::text::same;

verus! {

/// What an uploaded file becomes.
#[derive(Clone, Copy, Debug, PartialEq, Eq, Structural)]
pub enum AssetKind {
    Decal,
    Audio,
    Model,
    Animation,
    Video,
    Other,
}

/// Who an asset is published as.
#[derive(Clone, Copy, Debug, PartialEq, Eq, Structural)]
pub enum Creator {
    User(u64),
    Group(u64),
}

/// What Roblox says about a finished asset.
#[derive(Clone, Copy, Debug, PartialEq, Eq, Structural)]
pub enum ModerationStatus {
    InReview,
    Approved,
    Rejected,
}

/// What Roblox says about a running upload.
#[derive(Debug)]
pub enum OperationOutcome {
    StillPending,
    Approved { asset_id: u64, revision_id: Option<u64> },
    Rejected { reason: String },
    Failed { message: String, retryable: bool },
}

/// Where a row stands.
#[derive(Debug)]
pub enum AssetState {
    /// Waiting to be sent.
    Queued,
    /// Cannot be sent.
    Invalid { reason: String },
    /// The same file is already on Roblox.
    Duplicate { asset_id: u64 },
    /// Being sent.
    Uploading,
    /// Sent; Roblox is taking it in.
    Pending { operation: String, since: i64 },
    /// Taken in; waiting for a moderation verdict.
    InReview { asset_id: u64, revision_id: Option<u64>, since: i64 },
    Approved { asset_id: u64, revision_id: Option<u64> },
    Rejected { reason: String },
    Failed { message: String, retryable: bool },
    /// Roblox never answered.
    Expired { operation: String },
    Cancelled,
}

impl AssetState {
    /// The asset on Roblox that the row stands for, if there is one.
    pub open spec fn asset(self) -> Option<u64> {
        match self {
            AssetState::Duplicate { asset_id } => Some(asset_id),
            AssetState::InReview { asset_id, .. } => Some(asset_id),
            AssetState::Approved { asset_id, .. } => Some(asset_id),
            _ => None,
        }
    }

    /// The asset on Roblox that the row stands for, if there is one.
    pub fn asset_id(&self) -> (r: Option<u64>)
        ensures
            r == self.asset(),
    {
        match self {
            AssetState::Duplicate { asset_id } => Some(*asset_id),
            AssetState::InReview { asset_id, .. } => Some(*asset_id),
            AssetState::Approved { asset_id, .. } => Some(*asset_id),
            _ => None,
        }
    }

    pub fn is_queued(&self) -> (b: bool)
        ensures
            b == (*self is Queued),
    {
        match self {
            AssetState::Queued => true,
            _ => false,
        }
    }

    pub fn is_uploading(&self) -> (b: bool)
        ensures
            b == (*self is Uploading),
    {
        match self {
            AssetState::Uploading => true,
            _ => false,
        }
    }
}

/// One row of the asset index.
#[derive(Debug)]
pub struct AssetRecord {
    pub row_id: String,
    pub file_path: String,
    /// Empty until the file was read.
    pub file_sha256: String,
    pub file_bytes: u64,
    pub display_name: String,
    pub description: String,
    pub kind: AssetKind,
    pub creator: Creator,
    /// The account whose cookie signs the upload.
    pub uploaded_by: u64,
    pub state: AssetState,
    /// How often the file was sent.
    pub attempts: u32,
    /// Not before this instant, where a retry is held back.
    pub retry_at: Option<i64>,
    pub created_at: i64,
    pub updated_at: Option<i64>,
    /// Universes that were granted the use of the asset.
    pub granted_universes: Vec<u64>,
    /// A universe to grant the asset to once it is approved.
    pub auto_grant_universe: Option<u64>,
}

/// Every asset that was staged or uploaded.
#[derive(Debug)]
pub struct AssetIndex {
    pub records: Vec<AssetRecord>,
}

/// The rows with this identifier.
pub open spec fn identified(row_id: Seq<char>) -> spec_fn(AssetRecord) -> bool {
    |r: AssetRecord| r.row_id@ == row_id
}

/// The index of the row with this identifier, if there is one.
pub open spec fn row_in(records: Seq<AssetRecord>, row_id: Seq<char>) -> Option<int> {
    first_where(records, identified(row_id))
}

/// Whether the row is an upload of these bytes, published by this creator,
/// that has reached Roblox.
pub open spec fn landed(r: AssetRecord, sha256: Seq<char>, creator: Creator) -> bool {
    sha256.len() > 0 && r.file_sha256@ == sha256 && r.creator == creator && r.state.asset() is Some
}

/// The asset that these bytes became under this creator, if they were ever
/// uploaded.
pub open spec fn uploaded_as(
    records: Seq<AssetRecord>,
    sha256: Seq<char>,
    creator: Creator,
) -> Option<u64> {
    match first_where(records, |r: AssetRecord| landed(r, sha256, creator)) {
        Some(i) => records[i].state.asset(),
        None => None,
    }
}

impl AssetIndex {
    /// The index of the row with this identifier, if there is one.
    pub fn position(&self, row_id: &str) -> (r: Option<usize>)
        ensures
            match r {
                Some(i) => row_in(self.records@, row_id@) == Some(i as int) && i
                    < self.records@.len() && self.records@[i as int].row_id@ == row_id@,
                None => row_in(self.records@, row_id@) is None,
            },
    {
        let ghost p = identified(row_id@);
        let mut i: usize = 0;
        while i < self.records.len()
            invariant
                0 <= i <= self.records@.len(),
                p == identified(row_id@),
                forall|j: int| 0 <= j < i ==> !p(#[trigger] self.records@[j]),
            decreases self.records@.len() - i,
        {
            if same(&self.records[i].row_id, row_id) {
                proof {
                    first_where_is(self.records@, p, i as int);
                }
                return Some(i);
            }
            i += 1;
        }
        proof {
            first_where_none(self.records@, p);
        }
        None
    }

    /// The asset that these bytes became under this creator, if they were ever
    /// uploaded.
    pub fn find_uploaded(&self, sha256: &str, creator: Creator) -> (r: Option<u64>)
        ensures
            r == uploaded_as(self.records@, sha256@, creator),
    {
        let ghost p = |r: AssetRecord| landed(r, sha256@, creator);
        let mut i: usize = 0;
        while i < self.records.len()
            invariant
                0 <= i <= self.records@.len(),
                p == (|r: AssetRecord| landed(r, sha256@, creator)),
                forall|j: int| 0 <= j < i ==> !p(#[trigger] self.records@[j]),
            decreases self.records@.len() - i,
        {
            let asset: Option<u64> = self.records[i].state.asset_id();
            if !sha256.is_empty() && same(&self.records[i].file_sha256, sha256)
                && self.records[i].creator == creator && asset.is_some() {
                proof {
                    first_where_is(self.records@, p, i as int);
                }
                return asset;
            }
            i += 1;
        }
        proof {
            first_where_none(self.records@, p);
        }
        None
    }
}

} // verus!
