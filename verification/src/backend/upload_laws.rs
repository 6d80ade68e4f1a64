//! What an upload comes to, over all its steps.

use vstd::prelude::*;

use super::runs::{failure_in, fits_upload, Run};
use super::upload::{upload_step, upload_wf, UploadStage};
use super::{CookieUse, ErrorKind, FileSort, Reply, Stage, TaskError, Then};
use crate::assets::{AssetKind, OperationOutcome};
use crate::bridge::{BackendCommand, BackendEvent, UploadJob};

verus! {

/// The stage whose question step `k` asks.
pub open spec fn upload_stage(run: Run, k: int) -> UploadStage {
    run.steps[k].go->Ask_0->Upload_0
}

/// Whether a stage follows up on what Roblox has taken: about the row of the
/// job, with the cookie that was opened and the operation that Roblox named.
pub open spec fn follows_up(run: Run, stage: UploadStage, job: UploadJob) -> bool {
    &&& run.reply(3) matches Reply::Uploaded(Ok(created)) && match stage {
        UploadStage::Accepted { row_id, cookie, kind, operation, outcome } => {
            &&& row_id == job.row_id
            &&& run.reply(0) == Reply::Cookie(Ok(cookie))
            &&& kind == job.kind
            &&& created.operation == Some(operation)
            &&& outcome == created.outcome
        },
        UploadStage::Waiting { row_id, cookie, kind, operation, .. } => {
            &&& row_id == job.row_id
            &&& run.reply(0) == Reply::Cookie(Ok(cookie))
            &&& kind == job.kind
            &&& created.operation == Some(operation)
            &&& created.outcome is StillPending
        },
        UploadStage::Polling { row_id, cookie, kind, operation, .. } => {
            &&& row_id == job.row_id
            &&& run.reply(0) == Reply::Cookie(Ok(cookie))
            &&& kind == job.kind
            &&& created.operation == Some(operation)
            &&& created.outcome is StillPending
        },
        UploadStage::FirstVerdict { row_id, cookie, .. } => {
            &&& row_id == job.row_id
            &&& run.reply(0) == Reply::Cookie(Ok(cookie))
        },
        _ => false,
    }
}

/// The file that was read.
pub open spec fn was_read(run: Run, bytes: Vec<u8>) -> bool {
    run.reply(1) matches Reply::File(Ok(file)) && file.bytes == bytes && file.sort
        == FileSort::Supported
}

/// Whether the question of step `k` is about the job of the command: its cookie
/// is opened, its file is read once, the bytes that were read are hashed and
/// sent, and what Roblox took is followed up.
pub open spec fn upload_asks(run: Run, k: int, job: Box<UploadJob>) -> bool {
    match upload_stage(run, k) {
        UploadStage::OpeningCookie { job: j } => k == 0 && j == job,
        UploadStage::Reading { job: j, cookie } => {
            &&& k == 1
            &&& j == job
            &&& run.reply(0) == Reply::Cookie(Ok(cookie))
        },
        UploadStage::Hashing { job: j, cookie, bytes } => {
            &&& k == 2
            &&& j == job
            &&& run.reply(0) == Reply::Cookie(Ok(cookie))
            &&& was_read(run, bytes)
        },
        UploadStage::Sending { job: j, cookie, bytes } => {
            &&& k == 3
            &&& j == job
            &&& run.reply(0) == Reply::Cookie(Ok(cookie))
            &&& was_read(run, bytes)
        },
        stage => k >= 4 && (stage is Accepted ==> k == 4) && follows_up(run, stage, *job),
    }
}

/// An upload keeps to its job: what is sent is the file of the job, with its
/// cookie, and what follows is about its row.
pub proof fn an_upload_keeps_to_its_job(run: Run, job: Box<UploadJob>, k: int)
    requires
        run.of(BackendCommand::UploadAsset(job)),
        run.has(k),
    ensures
        run.steps[k].go matches Then::Ask(stage) ==> (stage matches Stage::Upload(s) && upload_wf(
            s,
        ) && upload_asks(run, k, job)),
        run.steps[k].go !is Failed,
        run.steps[k].go is UploadFailed ==> k <= 4,
        run.steps[k].go is Done ==> k >= 4,
    decreases k,
{
    if k > 0 {
        an_upload_keeps_to_its_job(run, job, k - 1);
        assert(run.moves(k - 1));
    }
}

/// The outcome that an answer gives of an operation.
pub open spec fn outcome_in(reply: Reply) -> Option<OperationOutcome> {
    match reply {
        Reply::Uploaded(Ok(created)) => Some(created.outcome),
        Reply::Outcome(Ok(outcome)) => Some(outcome),
        _ => None,
    }
}

/// The last outcome that was answered before step `k`: by the upload itself, or
/// by a later look.
pub open spec fn last_outcome(run: Run, k: int) -> Option<OperationOutcome>
    decreases k,
{
    if k <= 0 {
        None
    } else if outcome_in(run.reply(k - 1)) is Some {
        outcome_in(run.reply(k - 1))
    } else {
        last_outcome(run, k - 1)
    }
}

/// Whether an event that an upload tells at step `k` is about its row and says
/// what was answered.
pub open spec fn upload_says(run: Run, k: int, job: UploadJob, event: BackendEvent) -> bool {
    match event {
        BackendEvent::AssetUploadStarted { row_id, file_sha256, file_bytes } => {
            &&& k == 3
            &&& row_id == job.row_id
            &&& run.reply(2) == Reply::Text(Ok(file_sha256))
            &&& run.reply(1) matches Reply::File(Ok(file)) && file_bytes == file.bytes@.len()
        },
        BackendEvent::AssetOperationCreated { row_id, operation, started_at } => {
            &&& k == 4
            &&& row_id == job.row_id
            &&& run.reply(3) matches Reply::Uploaded(Ok(created)) && created.operation == Some(
                operation,
            )
            &&& started_at == run.time(3)
        },
        BackendEvent::AssetOperationResolved { row_id, outcome } => {
            &&& k >= 4
            &&& row_id == job.row_id
            &&& last_outcome(run, k) == Some(outcome) || outcome is StillPending
        },
        BackendEvent::AssetModerationResolved { row_id, status } => {
            &&& k >= 5
            &&& row_id == job.row_id
            &&& run.reply(k - 1) matches Reply::Statuses(Ok(statuses)) && statuses@.len() > 0
                && statuses@[0].1 == status
        },
        BackendEvent::AssetPollBatchDone => {
            &&& k >= 5
            &&& upload_stage(run, k - 1) is FirstVerdict
            &&& !(run.reply(k - 1) matches Reply::Statuses(Ok(statuses)) && statuses@.len() > 0)
        },
        _ => false,
    }
}

proof fn outcomes_are_remembered(run: Run, job: Box<UploadJob>, k: int)
    requires
        run.of(BackendCommand::UploadAsset(job)),
        run.has(k),
    ensures
        run.steps[k].go is Ask ==> match upload_stage(run, k) {
            UploadStage::Accepted { outcome, .. } => last_outcome(run, k) == Some(outcome),
            UploadStage::Waiting { .. } => last_outcome(run, k) matches Some(o)
                && o is StillPending,
            UploadStage::Polling { .. } => last_outcome(run, k) matches Some(o)
                && o is StillPending,
            UploadStage::FirstVerdict { asset_id, .. } => last_outcome(run, k) matches Some(
                OperationOutcome::Approved { asset_id: a, .. },
            ) && a == asset_id,
            _ => true,
        },
    decreases k,
{
    an_upload_keeps_to_its_job(run, job, k);
    if k > 0 {
        an_upload_keeps_to_its_job(run, job, k - 1);
        outcomes_are_remembered(run, job, k - 1);
        assert(run.moves(k - 1));
        reveal_with_fuel(last_outcome, 2);
    }
}

/// Everything that an upload tells is about its own row and is what was
/// answered: the hash and the size of the file, the operation that Roblox named,
/// what became of it, and the verdict. A verdict is asked for the very asset
/// that was approved.
pub proof fn an_upload_says_what_was_answered(run: Run, job: Box<UploadJob>, k: int)
    requires
        run.of(BackendCommand::UploadAsset(job)),
        run.has(k),
    ensures
        run.steps[k].tell matches Some(event) ==> upload_says(run, k, *job, event),
        run.steps[k].go matches Then::Done(event) ==> upload_says(run, k, *job, event),
        run.steps[k].go is Ask ==> (upload_stage(run, k) matches UploadStage::FirstVerdict {
            asset_id,
            ..
        } ==> last_outcome(run, k) matches Some(OperationOutcome::Approved { asset_id: a, .. }) && a
            == asset_id),
{
    an_upload_keeps_to_its_job(run, job, k);
    outcomes_are_remembered(run, job, k);
    if k > 0 {
        an_upload_keeps_to_its_job(run, job, k - 1);
        outcomes_are_remembered(run, job, k - 1);
        assert(run.moves(k - 1));
        reveal_with_fuel(last_outcome, 2);
        match upload_stage(run, k - 1) {
            UploadStage::Hashing { bytes, .. } => {
                assert(bytes.len() == bytes@.len());
            },
            _ => {},
        }
    }
}

/// What the window hears of an operation at step `k`.
pub open spec fn resolved_at(run: Run, k: int, row_id: String, outcome: OperationOutcome) -> bool {
    let event = BackendEvent::AssetOperationResolved { row_id, outcome };
    run.steps[k].tell == Some(event) || run.steps[k].go == Then::Done(event)
}

/// Once an outcome is answered that is not pending, it is told: at once by a
/// look at the operation, and after one step where the upload itself was
/// answered with it. For an approval the verdict is asked for next; everything
/// else ends the upload.
pub proof fn an_outcome_is_told(run: Run, job: Box<UploadJob>, k: int)
    requires
        run.of(BackendCommand::UploadAsset(job)),
        0 < k < run.steps.len(),
        run.steps[k - 1].go is Ask,
        outcome_in(run.reply(k - 1)) matches Some(o) && !(o is StillPending),
        fits_upload(upload_stage(run, k - 1), run.reply(k - 1)),
        run.reply(k - 1) matches Reply::Uploaded(Ok(created)) ==> created.operation is None,
    ensures
        resolved_at(run, k, job.row_id, outcome_in(run.reply(k - 1))->Some_0),
        run.steps[k].go is Ask <==> outcome_in(run.reply(k - 1)) matches Some(
            OperationOutcome::Approved { .. },
        ),
{
    an_upload_keeps_to_its_job(run, job, k - 1);
    assert(run.moves(k - 1));
}

/// An upload that Roblox has taken under an operation is told as such, with the
/// operation, and is then looked after until it is resolved.
pub proof fn a_taken_upload_is_told(run: Run, job: Box<UploadJob>)
    requires
        run.of(BackendCommand::UploadAsset(job)),
        run.steps.len() > 5,
        run.steps[3].go is Ask,
        run.reply(3) matches Reply::Uploaded(Ok(created)) && created.operation is Some,
        run.reply(4) is Go,
    ensures
        run.steps[4].tell matches Some(BackendEvent::AssetOperationCreated { row_id, operation, .. })
            && row_id == job.row_id && Some(operation)
            == run.reply(3)->Uploaded_0->Ok_0.operation,
        !(run.reply(3)->Uploaded_0->Ok_0.outcome is StillPending) ==> resolved_at(
            run,
            5,
            job.row_id,
            run.reply(3)->Uploaded_0->Ok_0.outcome,
        ),
        run.reply(3)->Uploaded_0->Ok_0.outcome is StillPending ==> run.steps[5].go is Ask
            && upload_stage(run, 5) is Waiting,
{
    an_upload_keeps_to_its_job(run, job, 3);
    an_upload_keeps_to_its_job(run, job, 4);
    assert(run.moves(3));
    assert(run.moves(4));
}

/// Whether a failure is one that passes by itself: too many requests, a lost
/// connection, a refused cookie or login, or a status that Roblox gives while it
/// is busy.
pub open spec fn passes(error: TaskError) -> bool {
    match error {
        TaskError::Core(e) => {
            ||| e.kind == ErrorKind::RateLimited
            ||| e.kind == ErrorKind::Http
            ||| e.kind == ErrorKind::CookieRejected
            ||| e.kind == ErrorKind::AuthFailed
            ||| e.kind == (ErrorKind::RobloxApi { retryable: true })
        },
        TaskError::UnsupportedFile { retryable } => retryable,
        _ => false,
    }
}

/// An upload fails only before Roblox has taken it, for its own row and for what
/// was answered last, and is worth another attempt exactly where the failure
/// passes by itself. While the answers are good it goes on.
pub proof fn an_upload_fails_for_what_was_answered(run: Run, job: Box<UploadJob>, k: int)
    requires
        run.of(BackendCommand::UploadAsset(job)),
        run.has(k),
    ensures
        run.steps[k].go matches Then::UploadFailed { row_id, error, retryable } ==> {
            &&& row_id == job.row_id
            &&& retryable == passes(error)
            &&& run.steps[k].tell is None
            &&& match error {
                TaskError::Core(e) => 0 < k <= 4 && failure_in(run.reply(k - 1)) == Some(e),
                TaskError::NoCookie(used_for) => k == 0 && used_for == CookieUse::Account
                    && !job.credentials.use_credential_manager
                    && job.credentials.encrypted_cookie is None,
                TaskError::UnsupportedFile { retryable: r } => k == 2 && (
                run.reply(1) matches Reply::File(Ok(file)) && file.sort
                    == FileSort::Unsupported { retryable: r }),
                TaskError::OutOfStep => 0 < k <= 4 && !fits_upload(
                    upload_stage(run, k - 1),
                    run.reply(k - 1),
                ),
                _ => false,
            }
        },
        0 < k <= 4 ==> (run.steps[k].go is UploadFailed) == (failure_in(run.reply(k - 1)) is Some
            || !fits_upload(upload_stage(run, k - 1), run.reply(k - 1)) || (k == 2 && (
        run.reply(1) matches Reply::File(Ok(file)) && file.sort is Unsupported))),
{
    an_upload_keeps_to_its_job(run, job, k);
    if k > 0 {
        an_upload_keeps_to_its_job(run, job, k - 1);
        assert(run.moves(k - 1));
    }
}

/// An operation is looked at after one, two and four seconds; for audio, which
/// takes longest, after two, three, five, eight and twelve. The next look is one
/// turn on, and it comes only while the operation is pending.
pub proof fn looks_come_at_growing_distances(run: Run, job: Box<UploadJob>, k: int)
    requires
        run.of(BackendCommand::UploadAsset(job)),
        run.has(k),
        run.steps[k].go is Ask,
    ensures
        upload_stage(run, k) matches UploadStage::Waiting { turn, secs, .. } ==> {
            &&& job.kind == AssetKind::Audio ==> turn < 5 && secs == seq![2u64, 3, 5, 8, 12][turn as int]
            &&& job.kind != AssetKind::Audio ==> turn < 3 && secs == seq![1u64, 2, 4][turn as int]
            &&& turn == 0 ==> k == 5
            &&& turn > 0 ==> k > 4 && (upload_stage(run, k - 1) matches UploadStage::Polling {
                turn: before,
                ..
            } && before + 1 == turn) && (run.reply(k - 1) matches Reply::Outcome(Ok(o)) && o
                is StillPending)
        },
        upload_stage(run, k) matches UploadStage::Polling { turn, .. } ==> k > 4 && (upload_stage(
            run,
            k - 1,
        ) matches UploadStage::Waiting { turn: waited, .. } && waited == turn),
{
    an_upload_keeps_to_its_job(run, job, k);
    if k > 0 {
        an_upload_keeps_to_its_job(run, job, k - 1);
        assert(run.moves(k - 1));
    }
}

/// How far a stage is at most from the first step.
pub open spec fn upload_distance(stage: UploadStage) -> int {
    match stage {
        UploadStage::OpeningCookie { .. } => 0,
        UploadStage::Reading { .. } => 1,
        UploadStage::Hashing { .. } => 2,
        UploadStage::Sending { .. } => 3,
        UploadStage::Accepted { .. } => 4,
        UploadStage::Waiting { turn, .. } => 5 + 2 * turn,
        UploadStage::Polling { turn, .. } => 6 + 2 * turn,
        UploadStage::FirstVerdict { .. } => 15,
    }
}

/// An upload comes to an end: its operation is looked at a few times, and then
/// it is left to the window.
pub proof fn an_upload_comes_to_an_end(run: Run, job: Box<UploadJob>, k: int)
    requires
        run.of(BackendCommand::UploadAsset(job)),
        run.has(k),
    ensures
        run.steps[k].go is Ask ==> k <= upload_distance(upload_stage(run, k)),
        k <= 16,
    decreases k,
{
    an_upload_keeps_to_its_job(run, job, k);
    if k > 0 {
        an_upload_keeps_to_its_job(run, job, k - 1);
        an_upload_comes_to_an_end(run, job, k - 1);
        assert(run.moves(k - 1));
        upload_moves_on(upload_stage(run, k - 1), run.reply(k - 1), run.time(k - 1));
    }
}

proof fn upload_moves_on(stage: UploadStage, reply: Reply, now: i64)
    requires
        upload_wf(stage),
    ensures
        upload_step(stage, reply, now).go matches Then::Ask(s) ==> (s matches Stage::Upload(next)
            && upload_distance(next) > upload_distance(stage)),
        upload_distance(stage) <= 15,
{
}

} // verus!
