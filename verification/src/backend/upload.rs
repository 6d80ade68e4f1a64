//! Sending one file, and the first look at what became of it.

use vstd::prelude::*;

use super::{ask, asking, done, ending, CookieUse, FileSort, Next, Reply, Stage, TaskError, Then};
use crate::assets::{AssetKind, ModerationStatus, OperationOutcome};
use crate::bridge::{BackendEvent, UploadJob};

verus! {

/// The seconds to wait before each look at a fresh operation. Audio takes
/// longest to be taken in, so it is given longer.
pub open spec fn burst(kind: AssetKind) -> Seq<u64> {
    if kind == AssetKind::Audio {
        seq![2u64, 3, 5, 8, 12]
    } else {
        seq![1u64, 2, 4]
    }
}

/// The seconds to wait before look number `turn`, if there is one.
pub fn burst_wait(kind: AssetKind, turn: usize) -> (r: Option<u64>)
    ensures
        r == (if turn < burst(kind).len() {
            Some(burst(kind)[turn as int])
        } else {
            None
        }),
{
    if kind == AssetKind::Audio {
        match turn {
            0 => Some(2),
            1 => Some(3),
            2 => Some(5),
            3 => Some(8),
            4 => Some(12),
            _ => None,
        }
    } else {
        match turn {
            0 => Some(1),
            1 => Some(2),
            2 => Some(4),
            _ => None,
        }
    }
}

/// How far an upload has come.
#[derive(Debug)]
pub enum UploadStage {
    /// Open the cookie. Answered by `Cookie`.
    OpeningCookie { job: Box<UploadJob> },
    /// Read the file. Answered by `File`.
    Reading { job: Box<UploadJob>, cookie: String },
    /// Hash these bytes of it. Answered by `Text`.
    Hashing { job: Box<UploadJob>, cookie: String, bytes: Vec<u8> },
    /// Send these bytes of it. Answered by `Uploaded`.
    Sending { job: Box<UploadJob>, cookie: String, bytes: Vec<u8> },
    /// Nothing to ask; look at what Roblox answered. Answered by `Go`.
    Accepted {
        row_id: String,
        cookie: String,
        kind: AssetKind,
        operation: String,
        outcome: OperationOutcome,
    },
    /// Wait before look number `turn`. Answered by `Go`.
    Waiting {
        row_id: String,
        cookie: String,
        kind: AssetKind,
        operation: String,
        turn: usize,
        secs: u64,
    },
    /// What became of the operation? Answered by `Outcome`.
    Polling { row_id: String, cookie: String, kind: AssetKind, operation: String, turn: usize },
    /// Has the asset cleared moderation? Answered by `Statuses`.
    FirstVerdict { row_id: String, cookie: String, asset_id: u64 },
}

/// The upload ends without anything created on Roblox.
pub open spec fn refused(row_id: String, error: TaskError) -> Next {
    Next {
        tell: None,
        go: Then::UploadFailed { row_id, error, retryable: error.passes_by_itself() },
    }
}

fn refusing(row_id: String, error: TaskError) -> (n: Next)
    ensures
        n == refused(row_id, error),
{
    let retryable: bool = error.retryable();
    Next { tell: None, go: Then::UploadFailed { row_id, error, retryable } }
}

/// The first question of an upload.
pub open spec fn upload_begun(job: Box<UploadJob>) -> Next {
    if super::has_cookie(job.credentials) {
        ask(Stage::Upload(UploadStage::OpeningCookie { job }))
    } else {
        refused(job.row_id, TaskError::NoCookie(CookieUse::Account))
    }
}

/// The first question of an upload.
pub fn begin_upload(job: Box<UploadJob>) -> (n: Next)
    ensures
        n == upload_begun(job),
{
    if super::cookie_at_hand(&job.credentials) {
        asking(Stage::Upload(UploadStage::OpeningCookie { job }))
    } else {
        let j: UploadJob = *job;
        refusing(j.row_id, TaskError::NoCookie(CookieUse::Account))
    }
}

/// The operation is over. An approval is told at once, so that the row is in
/// review before any verdict reaches it, and then moderation is asked once.
pub open spec fn concluded(row_id: String, cookie: String, outcome: OperationOutcome) -> Next {
    match outcome {
        OperationOutcome::Approved { asset_id, .. } => Next {
            tell: Some(BackendEvent::AssetOperationResolved { row_id, outcome }),
            go: Then::Ask(Stage::Upload(UploadStage::FirstVerdict { row_id, cookie, asset_id })),
        },
        _ => done(BackendEvent::AssetOperationResolved { row_id, outcome }),
    }
}

fn conclude(row_id: String, cookie: String, outcome: OperationOutcome) -> (n: Next)
    ensures
        n == concluded(row_id, cookie, outcome),
{
    match outcome {
        OperationOutcome::Approved { asset_id, revision_id } => {
            let outcome = OperationOutcome::Approved { asset_id, revision_id };
            Next {
                tell: Some(
                    BackendEvent::AssetOperationResolved { row_id: row_id.clone(), outcome },
                ),
                go: Then::Ask(
                    Stage::Upload(UploadStage::FirstVerdict { row_id, cookie, asset_id }),
                ),
            }
        },
        other => ending(BackendEvent::AssetOperationResolved { row_id, outcome: other }),
    }
}

/// The next look at a fresh operation, or its handover to the window's timer.
pub open spec fn look_again(
    row_id: String,
    cookie: String,
    kind: AssetKind,
    operation: String,
    turn: int,
) -> Next {
    if turn < burst(kind).len() {
        ask(
            Stage::Upload(
                UploadStage::Waiting {
                    row_id,
                    cookie,
                    kind,
                    operation,
                    turn: turn as usize,
                    secs: burst(kind)[turn],
                },
            ),
        )
    } else {
        left_pending(row_id)
    }
}

/// The operation is left to the window's timer.
pub open spec fn left_pending(row_id: String) -> Next {
    done(
        BackendEvent::AssetOperationResolved { row_id, outcome: OperationOutcome::StillPending },
    )
}

fn looking_again(
    row_id: String,
    cookie: String,
    kind: AssetKind,
    operation: String,
    turn: usize,
) -> (n: Next)
    ensures
        n == look_again(row_id, cookie, kind, operation, turn as int),
{
    match burst_wait(kind, turn) {
        Some(secs) => asking(
            Stage::Upload(UploadStage::Waiting { row_id, cookie, kind, operation, turn, secs }),
        ),
        None => leave_pending(row_id),
    }
}

fn leave_pending(row_id: String) -> (n: Next)
    ensures
        n == left_pending(row_id),
{
    ending(
        BackendEvent::AssetOperationResolved { row_id, outcome: OperationOutcome::StillPending },
    )
}

/// What a reply to a stage of an upload leads to.
pub open spec fn upload_step(stage: UploadStage, reply: Reply, now: i64) -> Next {
    match stage {
        UploadStage::OpeningCookie { job } => match reply {
            Reply::Cookie(Ok(cookie)) => ask(Stage::Upload(UploadStage::Reading { job, cookie })),
            Reply::Cookie(Err(e)) => refused(job.row_id, TaskError::Core(e)),
            _ => refused(job.row_id, TaskError::OutOfStep),
        },
        UploadStage::Reading { job, cookie } => match reply {
            Reply::File(Ok(file)) => match file.sort {
                FileSort::Supported => ask(
                    Stage::Upload(UploadStage::Hashing { job, cookie, bytes: file.bytes }),
                ),
                FileSort::Unsupported { retryable } => refused(
                    job.row_id,
                    TaskError::UnsupportedFile { retryable },
                ),
            },
            Reply::File(Err(e)) => refused(job.row_id, TaskError::Core(e)),
            _ => refused(job.row_id, TaskError::OutOfStep),
        },
        UploadStage::Hashing { job, cookie, bytes } => match reply {
            Reply::Text(Ok(file_sha256)) => Next {
                tell: Some(
                    BackendEvent::AssetUploadStarted {
                        row_id: job.row_id,
                        file_sha256,
                        file_bytes: bytes@.len() as u64,
                    },
                ),
                go: Then::Ask(Stage::Upload(UploadStage::Sending { job, cookie, bytes })),
            },
            Reply::Text(Err(e)) => refused(job.row_id, TaskError::Core(e)),
            _ => refused(job.row_id, TaskError::OutOfStep),
        },
        UploadStage::Sending { job, cookie, .. } => match reply {
            Reply::Uploaded(Ok(created)) => match created.operation {
                None => concluded(job.row_id, cookie, created.outcome),
                Some(operation) => Next {
                    tell: Some(
                        BackendEvent::AssetOperationCreated {
                            row_id: job.row_id,
                            operation,
                            started_at: now,
                        },
                    ),
                    go: Then::Ask(
                        Stage::Upload(
                            UploadStage::Accepted {
                                row_id: job.row_id,
                                cookie,
                                kind: job.kind,
                                operation,
                                outcome: created.outcome,
                            },
                        ),
                    ),
                },
            },
            Reply::Uploaded(Err(e)) => refused(job.row_id, TaskError::Core(e)),
            _ => refused(job.row_id, TaskError::OutOfStep),
        },
        UploadStage::Accepted { row_id, cookie, kind, operation, outcome } => match reply {
            Reply::Go => if outcome is StillPending {
                look_again(row_id, cookie, kind, operation, 0)
            } else {
                concluded(row_id, cookie, outcome)
            },
            _ => left_pending(row_id),
        },
        UploadStage::Waiting { row_id, cookie, kind, operation, turn, .. } => match reply {
            Reply::Go => ask(
                Stage::Upload(UploadStage::Polling { row_id, cookie, kind, operation, turn }),
            ),
            _ => left_pending(row_id),
        },
        UploadStage::Polling { row_id, cookie, kind, operation, turn } => match reply {
            Reply::Outcome(Ok(outcome)) => if outcome is StillPending {
                look_again(row_id, cookie, kind, operation, turn + 1)
            } else {
                concluded(row_id, cookie, outcome)
            },
            _ => left_pending(row_id),
        },
        UploadStage::FirstVerdict { row_id, .. } => match reply {
            Reply::Statuses(Ok(statuses)) => if statuses@.len() > 0 {
                done(BackendEvent::AssetModerationResolved { row_id, status: statuses@[0].1 })
            } else {
                done(BackendEvent::AssetPollBatchDone)
            },
            _ => done(BackendEvent::AssetPollBatchDone),
        },
    }
}

/// What can be relied on at a stage: the turn is one of the burst.
pub open spec fn upload_wf(stage: UploadStage) -> bool {
    match stage {
        UploadStage::Waiting { kind, turn, .. } => turn < burst(kind).len(),
        UploadStage::Polling { kind, turn, .. } => turn < burst(kind).len(),
        _ => true,
    }
}

/// The next step of an upload.
pub fn resume_upload(stage: UploadStage, reply: Reply, now: i64) -> (n: Next)
    requires
        upload_wf(stage),
    ensures
        n == upload_step(stage, reply, now),
        n.go matches Then::Ask(next) ==> super::stage_wf(next),
{
    match stage {
        UploadStage::OpeningCookie { job } => match reply {
            Reply::Cookie(Ok(cookie)) => asking(
                Stage::Upload(UploadStage::Reading { job, cookie }),
            ),
            Reply::Cookie(Err(e)) => refusing(unbox(job).row_id, TaskError::Core(e)),
            _ => refusing(unbox(job).row_id, TaskError::OutOfStep),
        },
        UploadStage::Reading { job, cookie } => match reply {
            Reply::File(Ok(file)) => match file.sort {
                FileSort::Supported => asking(
                    Stage::Upload(UploadStage::Hashing { job, cookie, bytes: file.bytes }),
                ),
                FileSort::Unsupported { retryable } => refusing(
                    unbox(job).row_id,
                    TaskError::UnsupportedFile { retryable },
                ),
            },
            Reply::File(Err(e)) => refusing(unbox(job).row_id, TaskError::Core(e)),
            _ => refusing(unbox(job).row_id, TaskError::OutOfStep),
        },
        UploadStage::Hashing { job, cookie, bytes } => match reply {
            Reply::Text(Ok(file_sha256)) => {
                let row_id: String = job.row_id.clone();
                let file_bytes: u64 = bytes.len() as u64;
                Next {
                    tell: Some(
                        BackendEvent::AssetUploadStarted { row_id, file_sha256, file_bytes },
                    ),
                    go: Then::Ask(Stage::Upload(UploadStage::Sending { job, cookie, bytes })),
                }
            },
            Reply::Text(Err(e)) => refusing(unbox(job).row_id, TaskError::Core(e)),
            _ => refusing(unbox(job).row_id, TaskError::OutOfStep),
        },
        UploadStage::Sending { job, cookie, .. } => match reply {
            Reply::Uploaded(Ok(created)) => {
                let j: UploadJob = *job;
                match created.operation {
                    None => conclude(j.row_id, cookie, created.outcome),
                    Some(operation) => Next {
                        tell: Some(
                            BackendEvent::AssetOperationCreated {
                                row_id: j.row_id.clone(),
                                operation: operation.clone(),
                                started_at: now,
                            },
                        ),
                        go: Then::Ask(
                            Stage::Upload(
                                UploadStage::Accepted {
                                    row_id: j.row_id,
                                    cookie,
                                    kind: j.kind,
                                    operation,
                                    outcome: created.outcome,
                                },
                            ),
                        ),
                    },
                }
            },
            Reply::Uploaded(Err(e)) => refusing(unbox(job).row_id, TaskError::Core(e)),
            _ => refusing(unbox(job).row_id, TaskError::OutOfStep),
        },
        UploadStage::Accepted { row_id, cookie, kind, operation, outcome } => match reply {
            Reply::Go => match outcome {
                OperationOutcome::StillPending => looking_again(
                    row_id,
                    cookie,
                    kind,
                    operation,
                    0,
                ),
                other => conclude(row_id, cookie, other),
            },
            _ => leave_pending(row_id),
        },
        UploadStage::Waiting { row_id, cookie, kind, operation, turn, .. } => match reply {
            Reply::Go => asking(
                Stage::Upload(UploadStage::Polling { row_id, cookie, kind, operation, turn }),
            ),
            _ => leave_pending(row_id),
        },
        UploadStage::Polling { row_id, cookie, kind, operation, turn } => match reply {
            Reply::Outcome(Ok(outcome)) => match outcome {
                OperationOutcome::StillPending => looking_again(
                    row_id,
                    cookie,
                    kind,
                    operation,
                    turn + 1,
                ),
                other => conclude(row_id, cookie, other),
            },
            _ => leave_pending(row_id),
        },
        UploadStage::FirstVerdict { row_id, .. } => match reply {
            Reply::Statuses(Ok(statuses)) => {
                if statuses.len() > 0 {
                    let status: ModerationStatus = statuses[0].1;
                    ending(BackendEvent::AssetModerationResolved { row_id, status })
                } else {
                    ending(BackendEvent::AssetPollBatchDone)
                }
            },
            _ => ending(BackendEvent::AssetPollBatchDone),
        },
    }
}

fn unbox(job: Box<UploadJob>) -> (j: UploadJob)
    ensures
        j == *job,
{
    *job
}

/// The name under which a file is sent: its own, or `upload` where it has
/// none that is text.
pub fn upload_file_name(name: Option<String>) -> (s: String)
    ensures
        s@ == (match name {
            Some(n) => n@,
            None => "upload"@,
        }),
{
    match name {
        Some(n) => n,
        None => "upload".to_owned(),
    }
}

/// What is sent is what was read: from the answer to `Reading` on, the same
/// bytes are hashed, counted and sent.
pub proof fn what_was_read_is_counted_and_sent(
    job: Box<UploadJob>,
    cookie: String,
    file: super::FileRead,
    file_sha256: String,
    read_at: i64,
    hashed_at: i64,
)
    requires
        file.sort == FileSort::Supported,
    ensures
        upload_step(
            UploadStage::Reading { job, cookie },
            Reply::File(Ok(file)),
            read_at,
        ).go matches Then::Ask(Stage::Upload(hashing)) && {
            let n = upload_step(hashing, Reply::Text(Ok(file_sha256)), hashed_at);
            &&& hashing == (UploadStage::Hashing { job, cookie, bytes: file.bytes })
            &&& n.tell matches Some(
                BackendEvent::AssetUploadStarted { row_id, file_sha256: told, file_bytes },
            ) && row_id == job.row_id && told == file_sha256 && file_bytes == file.bytes@.len()
            &&& n.go == Then::Ask(
                Stage::Upload(UploadStage::Sending { job, cookie, bytes: file.bytes }),
            )
        },
{
    assert(file.bytes.len() == file.bytes@.len());
}

/// Whether Roblox may already hold the asset at this stage.
pub open spec fn sent(stage: UploadStage) -> bool {
    match stage {
        UploadStage::OpeningCookie { .. } => false,
        UploadStage::Reading { .. } => false,
        UploadStage::Hashing { .. } => false,
        UploadStage::Sending { .. } => false,
        _ => true,
    }
}

/// Once Roblox has taken the bytes, nothing that happens is reported as a
/// failed upload: the file is not sent again on the strength of a lost answer.
pub proof fn a_sent_file_never_fails_as_unsent(stage: UploadStage, reply: Reply, now: i64)
    requires
        sent(stage),
    ensures
        upload_step(stage, reply, now).go !is UploadFailed,
        upload_step(stage, reply, now).go !is Failed,
        upload_step(stage, reply, now).go matches Then::Ask(s) ==> s matches Stage::Upload(next)
            && sent(next),
{
}

/// A failed look at an operation is not a failed upload: the row stays pending
/// and is left to the window's timer.
pub proof fn a_failed_poll_leaves_the_row_pending(
    row_id: String,
    cookie: String,
    kind: AssetKind,
    operation: String,
    turn: usize,
    e: super::CoreError,
    now: i64,
)
    ensures
        upload_step(
            UploadStage::Polling { row_id, cookie, kind, operation, turn },
            Reply::Outcome(Err(e)),
            now,
        ) == done(
            BackendEvent::AssetOperationResolved {
                row_id,
                outcome: OperationOutcome::StillPending,
            },
        ),
{
}

/// A verdict is asked for only after the approval was told.
pub proof fn an_approval_is_told_before_its_verdict(
    stage: UploadStage,
    reply: Reply,
    now: i64,
    row_id: String,
    cookie: String,
    asset_id: u64,
)
    requires
        upload_step(stage, reply, now).go == Then::Ask(
            Stage::Upload(UploadStage::FirstVerdict { row_id, cookie, asset_id }),
        ),
    ensures
        upload_step(stage, reply, now).tell matches Some(
            BackendEvent::AssetOperationResolved { row_id: told, outcome },
        ) && told == row_id && (outcome matches OperationOutcome::Approved { asset_id: a, .. } && a
            == asset_id),
{
}

} // verus!
