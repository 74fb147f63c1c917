//! What can go wrong between a webhook and a finished job.

use vstd::prelude::*;
use vstd::string::StringExecFns;

verus! {

/// The failures of the service. Each of the last four carries the cause as
/// text.
#[derive(Debug, PartialEq, Eq)]
pub enum Error {
    /// The bearer token of a webhook is not a claim signed with our key.
    AccessDenied,
    /// The document could not be fetched or recognised.
    Orc(String),
    /// The working directory of a job could not be removed.
    Cleanup(String),
    /// The results could not be delivered.
    Upload(String),
    /// The job could not be put into the queue.
    Queue(String),
}

impl Error {
    /// The text that describes the kind of failure.
    pub open spec fn message_spec(&self) -> Seq<char> {
        match self {
            Error::AccessDenied => "access denied"@,
            Error::Orc(_) => "failed to process the input file"@,
            Error::Cleanup(_) => "failed to cleanup"@,
            Error::Upload(_) => "failed to upload"@,
            Error::Queue(_) => "failed to save into the queue"@,
        }
    }

    /// The cause of the failure, where it has one.
    pub open spec fn cause_spec(&self) -> Option<Seq<char>> {
        match self {
            Error::AccessDenied => None,
            Error::Orc(cause) => Some(cause@),
            Error::Cleanup(cause) => Some(cause@),
            Error::Upload(cause) => Some(cause@),
            Error::Queue(cause) => Some(cause@),
        }
    }

    /// The text that describes the kind of failure.
    pub fn message(&self) -> (text: String)
        ensures
            text@ == self.message_spec(),
    {
        match self {
            Error::AccessDenied => String::from_str("access denied"),
            Error::Orc(_) => String::from_str("failed to process the input file"),
            Error::Cleanup(_) => String::from_str("failed to cleanup"),
            Error::Upload(_) => String::from_str("failed to upload"),
            Error::Queue(_) => String::from_str("failed to save into the queue"),
        }
    }

    /// The cause of the failure, where it has one.
    pub fn cause(&self) -> (cause: Option<String>)
        ensures
            cause.deep_view() == self.cause_spec(),
    {
        match self {
            Error::AccessDenied => None,
            Error::Orc(cause) => Some(cause.clone()),
            Error::Cleanup(cause) => Some(cause.clone()),
            Error::Upload(cause) => Some(cause.clone()),
            Error::Queue(cause) => Some(cause.clone()),
        }
    }
}

} // verus!
