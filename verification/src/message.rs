//! The job data that travels through the queue untouched.

use vstd::prelude::*;

verus! {

/// What a webhook asks for: a file to fetch and where its result belongs.
#[derive(Debug, PartialEq, Eq)]
pub struct Payload {
    pub filename: String,
    pub path: String,
    pub file_url: String,
}

/// The mathematical value of a [`Payload`].
pub struct PayloadView {
    pub filename: Seq<char>,
    pub path: Seq<char>,
    pub file_url: Seq<char>,
}

impl View for Payload {
    type V = PayloadView;

    open spec fn view(&self) -> PayloadView {
        PayloadView { filename: self.filename@, path: self.path@, file_url: self.file_url@ }
    }
}

impl Payload {
    /// A payload for the file `filename`, fetched from `file_url` and
    /// delivered relative to `path`.
    pub fn new(filename: String, path: String, file_url: String) -> (payload: Payload)
        ensures
            payload.filename == filename,
            payload.path == path,
            payload.file_url == file_url,
    {
        Payload { filename, path, file_url }
    }
}

impl Clone for Payload {
    fn clone(&self) -> (copy: Payload)
        ensures
            copy == *self,
    {
        Payload {
            filename: self.filename.clone(),
            path: self.path.clone(),
            file_url: self.file_url.clone(),
        }
    }
}

/// The identity under which a job runs: the id of the token that the caller
/// presented.
#[derive(Debug, Clone, Copy, PartialEq, Eq, Structural)]
pub struct Claim {
    pub token_id: u128,
}

} // verus!
