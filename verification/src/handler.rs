//! The decisions of the job handler.
//!
//! A job is worked in three steps: the document is fetched and recognised,
//! the results are uploaded, and the working directory is removed. The first
//! step that fails ends the job with an error that tells which step it was.
//! To the queue the handler is one call that succeeds or fails.

use vstd::prelude::*;
use vstd::string::StringExecFns;

use crate::errors::Error;
use crate::message::Payload;
use crate::path::{joined, parent_of, path_join, path_parent};

verus! {

/// The folder that the results of a job are uploaded to: `Done` beside the
/// path of the job, or under it where the path has no parent.
pub open spec fn upload_path_spec(path: Seq<char>) -> Seq<char> {
    match parent_of(path) {
        Some(parent) => joined(parent, "Done"@),
        None => joined(path, "Done"@),
    }
}

/// The folder that the results of a job with the path `path` are uploaded
/// to.
pub fn upload_path(path: &str) -> (folder: String)
    ensures
        folder@ == upload_path_spec(path@),
{
    match path_parent(path) {
        Some(parent) => path_join(parent.as_str(), "Done"),
        None => path_join(path, "Done"),
    }
}

/// The directory to remove after a job: the one that holds the first of
/// its result files. There is none where the job left no file, or where the
/// first file has no parent.
pub open spec fn cleanup_folder_spec(files: Seq<Seq<char>>) -> Option<Seq<char>> {
    if files.len() == 0 {
        None
    } else {
        parent_of(files[0])
    }
}

/// The directory to remove after a job that left `files`.
pub fn cleanup_folder(files: &Vec<String>) -> (folder: Option<String>)
    ensures
        folder.deep_view() == cleanup_folder_spec(files.deep_view()),
{
    if files.len() == 0 {
        None
    } else {
        path_parent(files[0].as_str())
    }
}

/// Where a job stands.
#[derive(Debug, PartialEq, Eq)]
pub enum JobState {
    /// The document is being fetched and recognised.
    Processing,
    /// The results are being uploaded; `cleanup` is the directory to remove
    /// afterwards.
    Uploading { cleanup: Option<String> },
    /// The working directory is being removed.
    Cleaning,
    /// The job is over.
    Finished,
}

/// What the handler is told.
#[derive(Debug, PartialEq, Eq)]
pub enum JobEvent {
    /// The document was recognised into these files.
    Processed { files: Vec<String> },
    /// The document could not be fetched or recognised.
    ProcessFailed { cause: String },
    /// The files are on the drive.
    Uploaded,
    /// The files could not be uploaded.
    UploadFailed { cause: String },
    /// The working directory is gone.
    Cleaned,
    /// The working directory could not be removed.
    CleanupFailed { cause: String },
}

/// What the handler does next.
#[derive(Debug, PartialEq, Eq)]
pub enum JobAction {
    /// Upload `files` into the folder `upload_path` of the drive.
    Upload { files: Vec<String>, upload_path: String },
    /// Remove the directory `folder` with all that it holds.
    Remove { folder: String },
    /// The job is over, with this result.
    Finish(Result<(), Error>),
    /// The event was not one that the state waits for: nothing changes.
    Nothing,
}

/// Whether `next` and `action` are what follows when a job in `state`,
/// with the payload path `path`, is told `event`.
pub open spec fn follows(
    state: JobState,
    event: JobEvent,
    path: Seq<char>,
    next: JobState,
    action: JobAction,
) -> bool {
    match (state, event) {
        (JobState::Processing, JobEvent::Processed { files }) => {
            &&& next matches JobState::Uploading { cleanup }
            &&& cleanup.deep_view() == cleanup_folder_spec(files.deep_view())
            &&& action matches JobAction::Upload { files: sent, upload_path }
            &&& sent == files
            &&& upload_path@ == upload_path_spec(path)
        },
        (JobState::Processing, JobEvent::ProcessFailed { cause }) => {
            &&& next is Finished
            &&& action matches JobAction::Finish(Err(Error::Orc(reason)))
            &&& reason@ == cause@
        },
        (JobState::Uploading { cleanup: Some(folder) }, JobEvent::Uploaded) => {
            &&& next is Cleaning
            &&& action matches JobAction::Remove { folder: removed }
            &&& removed@ == folder@
        },
        (JobState::Uploading { cleanup: None }, JobEvent::Uploaded) => {
            &&& next is Finished
            &&& action matches JobAction::Finish(Ok(()))
        },
        (JobState::Uploading { cleanup }, JobEvent::UploadFailed { cause }) => {
            &&& next is Finished
            &&& action matches JobAction::Finish(Err(Error::Upload(reason)))
            &&& reason@ == cause@
        },
        (JobState::Cleaning, JobEvent::Cleaned) => {
            &&& next is Finished
            &&& action matches JobAction::Finish(Ok(()))
        },
        (JobState::Cleaning, JobEvent::CleanupFailed { cause }) => {
            &&& next is Finished
            &&& action matches JobAction::Finish(Err(Error::Cleanup(reason)))
            &&& reason@ == cause@
        },
        _ => next == state && action is Nothing,
    }
}

/// Decides what the handler of the job `payload` does when `event`
/// happens.
///
/// - The files of a recognised document are uploaded to the folder `Done`
///   beside the path of the payload.
/// - After the upload the directory of the first file is removed; where
///   there is no such directory the job is over at once.
/// - The job succeeds when the directory is gone. It fails with the first
///   step that fails: recognition, upload or cleanup, and nothing follows a
///   failure.
pub fn step(state: JobState, event: JobEvent, payload: &Payload) -> (next: (JobState, JobAction))
    ensures
        follows(state, event, payload.path@, next.0, next.1),
{
    match (state, event) {
        (JobState::Processing, JobEvent::Processed { files }) => {
            let cleanup = cleanup_folder(&files);
            let upload_path = upload_path(payload.path.as_str());
            (JobState::Uploading { cleanup }, JobAction::Upload { files, upload_path })
        },
        (JobState::Processing, JobEvent::ProcessFailed { cause }) => (
            JobState::Finished,
            JobAction::Finish(Err(Error::Orc(cause))),
        ),
        (JobState::Uploading { cleanup: Some(folder) }, JobEvent::Uploaded) => (
            JobState::Cleaning,
            JobAction::Remove { folder },
        ),
        (JobState::Uploading { cleanup: None }, JobEvent::Uploaded) => (
            JobState::Finished,
            JobAction::Finish(Ok(())),
        ),
        (JobState::Uploading { cleanup: _ }, JobEvent::UploadFailed { cause }) => (
            JobState::Finished,
            JobAction::Finish(Err(Error::Upload(cause))),
        ),
        (JobState::Cleaning, JobEvent::Cleaned) => (JobState::Finished, JobAction::Finish(Ok(()))),
        (JobState::Cleaning, JobEvent::CleanupFailed { cause }) => (
            JobState::Finished,
            JobAction::Finish(Err(Error::Cleanup(cause))),
        ),
        (state, _) => (state, JobAction::Nothing),
    }
}

} // verus!
