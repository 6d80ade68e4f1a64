//! A command from its first step to its last.
//!
//! What a command is for shows only over all its steps: what was asked for, the
//! answers that came on the way, and what is done and told in the end. A [`Run`]
//! holds such a course.

use vstd::prelude::*;

use super::add::AddStage;
use super::assets::AssetStage;
use super::launch::{BulkStage, LaunchStage, Preparation};
use super::misc::{MiscStage, RevalidateStage};
use super::upload::UploadStage;
use super::{begun, follows, CoreError, Next, Reply, Stage, TaskError, Then};
use crate::bridge::BackendCommand;

verus! {

/// The course of a command: its steps, and between each two of them the answer
/// to the question of the first, with the time it came at.
pub struct Run {
    pub steps: Seq<Next>,
    pub answers: Seq<(Reply, i64)>,
}

impl Run {
    /// Whether this is a course that a command can take, as far as it has come.
    pub open spec fn of(self, cmd: BackendCommand) -> bool {
        &&& self.steps.len() == self.answers.len() + 1
        &&& begun(cmd, self.steps[0])
        &&& forall|k: int| 0 <= k < self.answers.len() ==> #[trigger] self.moves(k)
    }

    /// Whether step `k` asks, and the answer leads to the step after it.
    pub open spec fn moves(self, k: int) -> bool {
        &&& self.steps[k].go is Ask
        &&& follows(self.steps[k].go->Ask_0, self.reply(k), self.time(k), self.steps[k + 1])
    }

    /// The answer to the question of step `k`.
    pub open spec fn reply(self, k: int) -> Reply {
        self.answers[k].0
    }

    /// When the answer to the question of step `k` came.
    pub open spec fn time(self, k: int) -> i64 {
        self.answers[k].1
    }

    /// Whether `k` is one of the steps.
    pub open spec fn has(self, k: int) -> bool {
        0 <= k < self.steps.len()
    }

    /// Whether step `k` asks the question of this stage.
    pub open spec fn asks(self, k: int, stage: Stage) -> bool {
        self.steps[k].go == Then::Ask(stage)
    }
}

/// The failure that an answer carries, if it is one.
pub open spec fn failure_in(reply: Reply) -> Option<CoreError> {
    match reply {
        Reply::Unit(Err(e)) => Some(e),
        Reply::Text(Err(e)) => Some(e),
        Reply::Cookie(Err(e)) => Some(e),
        Reply::Identity(Err(e)) => Some(e),
        Reply::Lookup(Err(e)) => Some(e),
        Reply::Moderation(Err(e)) => Some(e),
        Reply::Banned(Err(e)) => Some(e),
        Reply::Avatars(Err(e)) => Some(e),
        Reply::Presences(Err(e)) => Some(e),
        Reply::Server(Err(e)) => Some(e),
        Reply::Opened(Err(e)) => Some(e),
        Reply::Session(Err(e)) => Some(e),
        Reply::Killed(Err(e)) => Some(e),
        Reply::Update(Err(e)) => Some(e),
        Reply::Resolved(Err(e)) => Some(e),
        Reply::File(Err(e)) => Some(e),
        Reply::Uploaded(Err(e)) => Some(e),
        Reply::Outcome(Err(e)) => Some(e),
        Reply::Statuses(Err(e)) => Some(e),
        Reply::Granted(Err(e)) => Some(e),
        Reply::Universes(Err(e)) => Some(e),
        Reply::Universe(Err(e)) => Some(e),
        Reply::Groups(Err(e)) => Some(e),
        Reply::Page(Err(e)) => Some(e),
        _ => None,
    }
}

/// Whether an answer is of the sort that a stage of one launch asks for.
pub open spec fn fits_launch(stage: LaunchStage, reply: Reply) -> bool {
    match stage {
        LaunchStage::OpeningCookie { .. } => reply is Cookie,
        LaunchStage::Preparing { what, .. } => fits_preparation(what, reply),
        LaunchStage::Ticketing { .. } => reply is Text,
        LaunchStage::Noting { .. } => reply is Noted,
        LaunchStage::Starting { .. } => reply is Unit,
    }
}

/// Whether an answer is of the sort that a preparation asks for.
pub open spec fn fits_preparation(what: Preparation, reply: Reply) -> bool {
    if what == Preparation::EnableMultiInstance {
        reply is Unit
    } else {
        reply is Go
    }
}

/// Whether an answer is of the sort that a stage of a batch asks for.
pub open spec fn fits_bulk(stage: BulkStage, reply: Reply) -> bool {
    match stage {
        BulkStage::Preparing { what, .. } => fits_preparation(what, reply),
        BulkStage::OpeningFirst { .. } => reply is Cookie,
        BulkStage::FindingServer { .. } => reply is Server,
        BulkStage::Proceeding { .. } => reply is Go,
        BulkStage::OpeningCookie { .. } => reply is Cookie,
        BulkStage::Ticketing { .. } => reply is Text,
        BulkStage::Noting { .. } => reply is Noted,
        BulkStage::Starting { .. } => reply is Unit,
        BulkStage::Waiting { .. } => reply is Go,
        BulkStage::KillingTray { .. } => reply is Go,
    }
}

/// Whether an answer is of the sort that a stage of adding an account asks for.
pub open spec fn fits_add(stage: AddStage, reply: Reply) -> bool {
    match stage {
        AddStage::Validating { .. } => reply is Identity,
        AddStage::Probing { .. } => reply is Message,
        AddStage::LookingUp { .. } => reply is Lookup,
        AddStage::StoringCredential { .. } => reply is Unit,
        AddStage::Encrypting { .. } => reply is Text,
        AddStage::Moderating { .. } => reply is Moderation,
        AddStage::CheckingBan { .. } => reply is Banned,
        AddStage::Reasoning { .. } => reply is Message,
        AddStage::FindingAvatar { .. } => reply is Avatars,
        AddStage::FetchingAvatar { .. } => reply is Images,
    }
}

/// Whether an answer is of the sort that a stage of validating again asks for.
pub open spec fn fits_revalidate(stage: RevalidateStage, reply: Reply) -> bool {
    match stage {
        RevalidateStage::OpeningCookie { .. } => reply is Cookie,
        RevalidateStage::Validating { .. } => reply is Identity,
        RevalidateStage::Moderating { .. } => reply is Moderation,
        RevalidateStage::CheckingBan { .. } => reply is Banned,
        RevalidateStage::Reasoning { .. } => reply is Message,
    }
}

/// Whether an answer is of the sort that a stage of an upload asks for.
pub open spec fn fits_upload(stage: UploadStage, reply: Reply) -> bool {
    match stage {
        UploadStage::OpeningCookie { .. } => reply is Cookie,
        UploadStage::Reading { .. } => reply is File,
        UploadStage::Hashing { .. } => reply is Text,
        UploadStage::Sending { .. } => reply is Uploaded,
        UploadStage::Accepted { .. } => reply is Go,
        UploadStage::Waiting { .. } => reply is Go,
        UploadStage::Polling { .. } => reply is Outcome,
        UploadStage::FirstVerdict { .. } => reply is Statuses,
    }
}

/// Whether an answer is of the sort that a stage of an asset command asks for.
pub open spec fn fits_asset(stage: AssetStage, reply: Reply) -> bool {
    match stage {
        AssetStage::OpeningCookie { .. } => reply is Cookie,
        AssetStage::Polling { .. } => reply is Outcome,
        AssetStage::Pacing { .. } => reply is Go,
        AssetStage::AskingModeration { .. } => reply is Statuses,
        AssetStage::Verdicts { .. } => true,
        AssetStage::Granting { .. } => reply is Granted,
        AssetStage::ListingUniverses { .. } => reply is Universes,
        AssetStage::ResolvingPlace { .. } => reply is Universe,
        AssetStage::ListingGroups { .. } => reply is Groups,
        AssetStage::ListingCreations { .. } => reply is Page,
        AssetStage::FetchingThumbnails { .. } => reply is Images,
    }
}

/// Whether an answer is of the sort that a stage of a small command asks for.
pub open spec fn fits_misc(stage: MiscStage, reply: Reply) -> bool {
    match stage {
        MiscStage::OpeningCookie { .. } => reply is Cookie,
        MiscStage::Removing { .. } => reply is Go,
        MiscStage::Saving { .. } => reply is Unit,
        MiscStage::OpeningWithDevice { .. } => reply is Opened,
        MiscStage::OpeningWithPassword { .. } => reply is Opened,
        MiscStage::Upgrading { .. } => reply is Opened,
        MiscStage::Rewrapping { .. } => reply is Session,
        MiscStage::SavingRekeyed { .. } => reply is Unit,
        MiscStage::Killing => reply is Killed,
        MiscStage::FindingAvatars { .. } => reply is Avatars,
        MiscStage::FetchingAvatars { .. } => reply is Images,
        MiscStage::FetchingPresences { .. } => reply is Presences,
        MiscStage::Sweeping => reply is Swept,
        MiscStage::BeforeArranging { .. } => reply is Go,
        MiscStage::Arranging => reply is Go,
        MiscStage::CheckingForUpdates { .. } => reply is Update,
        MiscStage::NamingPlace { .. } => reply is Text,
        MiscStage::FetchingIcon { .. } => reply is Bytes,
        MiscStage::Browsing { .. } => reply is Unit,
        MiscStage::ResolvingLink { .. } => reply is Resolved,
    }
}

/// Whether an answer is of the sort that the question of a stage asks for.
pub open spec fn fits(stage: Stage, reply: Reply) -> bool {
    match stage {
        Stage::Add(s) => fits_add(s, reply),
        Stage::Launch(s) => fits_launch(s, reply),
        Stage::Bulk(s) => fits_bulk(s, reply),
        Stage::Upload(s) => fits_upload(s, reply),
        Stage::Asset(s) => fits_asset(s, reply),
        Stage::Revalidate(s) => fits_revalidate(s, reply),
        Stage::Misc(s) => fits_misc(s, reply),
    }
}

/// A command fails on the way only because of what was answered: with the
/// failure that the last answer carries, because nobody has the name that was
/// looked up, or because the answer was not of the sort that was asked for.
pub proof fn a_command_fails_only_by_its_last_answer(
    run: Run,
    cmd: BackendCommand,
    k: int,
    error: TaskError,
)
    requires
        run.of(cmd),
        0 < k < run.steps.len(),
        run.steps[k].go == Then::Failed(error),
        !(run.steps[k - 1].go matches Then::Ask(Stage::Bulk(_))),
    ensures
        match error {
            TaskError::Core(e) => failure_in(run.reply(k - 1)) == Some(e),
            TaskError::NoSuchUser(name) => {
                &&& run.reply(k - 1) matches Reply::Lookup(Ok(None))
                &&& run.steps[k - 1].go matches Then::Ask(
                    Stage::Add(AddStage::LookingUp { username, .. }),
                ) && username == name
            },
            TaskError::OutOfStep => !fits(run.steps[k - 1].go->Ask_0, run.reply(k - 1)),
            _ => false,
        },
{
    assert(run.moves(k - 1));
}

} // verus!
