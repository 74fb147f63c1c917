//! Planning the delivery of the results into a folder of the remote drive.
//!
//! The drive knows folders by identifier, not by path: the folder of a path
//! is found by walking the path from the root, looking each component up
//! under the folder found before and creating it where it is missing. This
//! module decides what to ask the drive for; talking to the drive is left
//! to the caller.

use vstd::prelude::*;
use vstd::string::StringExecFns;

use crate::path::{
    components_of, extension_of, file_name_of, joined, path_components, path_extension,
    path_file_name, path_join,
};

verus! {

/// The media types that results are uploaded as.
#[derive(Debug, Clone, Copy, PartialEq, Eq, Structural)]
pub enum Mime {
    /// `application/pdf`
    ApplicationPdf,
    /// `text/plain`
    TextPlain,
    /// `application/octet-stream`
    ApplicationOctetStream,
}

/// The media type for a file extension: PDF for `pdf`, plain text for
/// `txt`, a stream of bytes for anything else and for no extension.
pub open spec fn mime_of(extension: Option<Seq<char>>) -> Mime {
    if extension == Some("pdf"@) {
        Mime::ApplicationPdf
    } else if extension == Some("txt"@) {
        Mime::TextPlain
    } else {
        Mime::ApplicationOctetStream
    }
}

/// The media type for a file extension.
pub fn mime_for_extension(extension: Option<&str>) -> (mime: Mime)
    ensures
        mime == mime_of(extension.deep_view()),
{
    match extension {
        Some(extension) => {
            let extension = String::from_str(extension);
            if extension == String::from_str("pdf") {
                Mime::ApplicationPdf
            } else if extension == String::from_str("txt") {
                Mime::TextPlain
            } else {
                Mime::ApplicationOctetStream
            }
        },
        None => Mime::ApplicationOctetStream,
    }
}

/// The media type to upload `file` as, judged by its extension.
pub fn guess_mime_from_file(file: &str) -> (mime: Mime)
    ensures
        mime == mime_of(extension_of(file@)),
{
    match path_extension(file) {
        Some(extension) => mime_for_extension(Some(extension.as_str())),
        None => mime_for_extension(None),
    }
}

impl Mime {
    /// The name of the media type.
    pub fn essence(&self) -> (name: String)
        ensures
            name@ == match self {
                Mime::ApplicationPdf => "application/pdf"@,
                Mime::TextPlain => "text/plain"@,
                Mime::ApplicationOctetStream => "application/octet-stream"@,
            },
    {
        match self {
            Mime::ApplicationPdf => String::from_str("application/pdf"),
            Mime::TextPlain => String::from_str("text/plain"),
            Mime::ApplicationOctetStream => String::from_str("application/octet-stream"),
        }
    }
}

/// The query that finds the folder `name`, under the folder `parent` where
/// one is given.
pub open spec fn folder_query_spec(name: Seq<char>, parent: Option<Seq<char>>) -> Seq<char> {
    "name='"@ + name + "' and mimeType='application/vnd.google-apps.folder' "@ + match parent {
        Some(parent) => " and '"@ + parent + "' in parents"@,
        None => Seq::<char>::empty(),
    }
}

/// The query that finds the folder `name`, under the folder `parent` where
/// one is given.
pub fn folder_query(name: &str, parent: Option<&str>) -> (query: String)
    ensures
        query@ == folder_query_spec(name@, parent.deep_view()),
{
    let mut query = String::from_str("name='");
    query.append(name);
    query.append("' and mimeType='application/vnd.google-apps.folder' ");
    match parent {
        Some(parent) => {
            query.append(" and '");
            query.append(parent);
            query.append("' in parents");
            proof {
                assert(query@ =~= folder_query_spec(name@, Some(parent@)));
            }
        },
        None => {
            proof {
                assert(query@ =~= folder_query_spec(name@, None));
            }
        },
    }
    query
}

/// One file to upload.
#[derive(Debug, PartialEq, Eq)]
pub struct Upload {
    /// The name of the file on the drive; `None` where the path names no
    /// file.
    pub name: Option<String>,
    /// The path of the file on the drive, for the log.
    pub full_path: String,
    /// The media type of the file.
    pub mime: Mime,
}

/// Plans the upload of the local file `file` into the folder `upload_path`.
///
/// The file keeps its name. A path without a file name is shown as `?` in
/// the folder.
pub fn plan_upload(file: &str, upload_path: &str) -> (upload: Upload)
    ensures
        UploadRun::planned(file@, upload_path@, upload),
{
    let name = path_file_name(file);
    let full_path = match &name {
        Some(name) => path_join(upload_path, name.as_str()),
        None => path_join(upload_path, "?"),
    };
    Upload { name, full_path, mime: guess_mime_from_file(file) }
}

/// The components of `parts` that name a folder: all but the root `/`.
pub open spec fn folder_names(parts: Seq<Seq<char>>) -> Seq<Seq<char>> {
    parts.filter(|part: Seq<char>| part != "/"@)
}

/// The names of the folders on the way to `path`, outermost first.
pub fn folders_of(path: &str) -> (names: Vec<String>)
    ensures
        names.deep_view() == folder_names(components_of(path@)),
{
    let parts = path_components(path);
    let mut names: Vec<String> = Vec::new();
    let root = String::from_str("/");
    let mut i: usize = 0;
    while i < parts.len()
        invariant
            i <= parts.len(),
            root@ == "/"@,
            names.deep_view() == folder_names(parts.deep_view().take(i as int)),
        decreases parts.len() - i,
    {
        let ghost before = names.deep_view();
        proof {
            let shorter = parts.deep_view().take(i as int);
            let longer = parts.deep_view().take(i as int + 1);
            assert(longer =~= shorter.push(parts.deep_view()[i as int]));
            assert(longer.drop_last() =~= shorter);
            reveal(Seq::filter);
        }
        if parts[i] != root {
            names.push(parts[i].clone());
            proof {
                assert(names.deep_view() =~= before.push(parts.deep_view()[i as int]));
            }
        }
        i += 1;
    }
    proof {
        assert(parts.deep_view().take(i as int) =~= parts.deep_view());
    }
    names
}

/// Why the folder of a path could not be found.
#[derive(Debug, PartialEq, Eq)]
pub enum WalkError {
    /// The drive could not list a folder; the cause is attached.
    ListFailed(String),
    /// The drive could not create a folder; the cause is attached.
    CreateFailed(String),
    /// The drive gave no identifier for the last folder of the path.
    NoFolderId,
}

/// What the walk waits for.
#[derive(Debug, Clone, Copy, PartialEq, Eq, Structural)]
pub enum WalkPhase {
    /// The listing of the folder that is looked for.
    Listing,
    /// The creation of the folder that was not found.
    Creating,
    /// Nothing: the walk is over.
    Done,
}

/// What the walk is told.
#[derive(Debug, PartialEq, Eq)]
pub enum WalkEvent {
    /// The drive listed the folders that match the query. `first` is the
    /// identifier of the first of them, if the drive gave it one; `None`
    /// where the listing is empty.
    Listed { first: Option<Option<String>> },
    /// The drive could not list.
    ListFailed { cause: String },
    /// The drive created the folder, under this identifier if it gave one.
    Created { id: Option<String> },
    /// The drive could not create the folder.
    CreateFailed { cause: String },
}

/// What the walk asks for next.
#[derive(Debug, PartialEq, Eq)]
pub enum WalkAction {
    /// List the folders that match `query`.
    List { query: String },
    /// Create the folder `name`, under the folder `parent` where one is
    /// given.
    Create { name: String, parent: Option<String> },
    /// The walk is over: this is the identifier of the folder, or the reason
    /// why there is none.
    Finish(Result<String, WalkError>),
    /// The event was not one that the walk waits for: nothing changes.
    Nothing,
}

/// A walk from the root of the drive along the folders of a path.
#[derive(Debug, PartialEq, Eq)]
pub struct FolderWalk {
    /// The names of the folders on the way, outermost first.
    pub names: Vec<String>,
    /// How many of them have been found or created.
    pub found: usize,
    /// The identifier of the innermost folder reached so far.
    pub parent: Option<String>,
    pub phase: WalkPhase,
}

impl FolderWalk {
    /// A walk that is not over has a folder left to look for.
    pub open spec fn well_formed(&self) -> bool {
        self.phase is Done || self.found < self.names@.len()
    }

    /// Whether `action` is what a walk asks for once it stands at `self`:
    /// the listing of the next folder under the one reached, or the end of
    /// the walk where no folder is left.
    pub open spec fn proceeds_with(&self, action: WalkAction) -> bool {
        if self.found < self.names@.len() {
            &&& self.phase == WalkPhase::Listing
            &&& action matches WalkAction::List { query } && query@ == folder_query_spec(
                self.names@[self.found as int]@,
                self.parent.deep_view(),
            )
        } else {
            &&& self.phase == WalkPhase::Done
            &&& match self.parent {
                Some(id) => action matches WalkAction::Finish(Ok(found)) && found@ == id@,
                None => action matches WalkAction::Finish(Err(WalkError::NoFolderId)),
            }
        }
    }

    /// Whether `next` and `action` are what follows from `self` once the
    /// folder that was looked for is known under `id`.
    pub open spec fn advances_to(&self, id: Option<String>, next: FolderWalk, action: WalkAction) -> bool {
        &&& next.names == self.names
        &&& next.found == self.found + 1
        &&& next.parent.deep_view() == id.deep_view()
        &&& next.proceeds_with(action)
    }

    /// Whether `next` and `action` are what follows from `self` when the
    /// walk fails: it is over and reports the failure.
    pub open spec fn stops_at(&self, next: FolderWalk, action: WalkAction) -> bool {
        &&& next.names == self.names
        &&& next.found == self.found
        &&& next.parent.deep_view() == self.parent.deep_view()
        &&& next.phase == WalkPhase::Done
        &&& action is Finish
    }

    /// Asks for the next folder, or ends the walk where none is left.
    fn proceed(self) -> (next: (FolderWalk, WalkAction))
        requires
            self.found <= self.names@.len(),
        ensures
            next.0.well_formed(),
            next.0.names == self.names,
            next.0.found == self.found,
            next.0.parent.deep_view() == self.parent.deep_view(),
            next.0.proceeds_with(next.1),
    {
        let parent = match &self.parent {
            Some(id) => Some(id.clone()),
            None => None,
        };
        if self.found < self.names.len() {
            let query = match &self.parent {
                Some(id) => folder_query(self.names[self.found].as_str(), Some(id.as_str())),
                None => folder_query(self.names[self.found].as_str(), None),
            };
            (
                FolderWalk {
                    names: self.names,
                    found: self.found,
                    parent,
                    phase: WalkPhase::Listing,
                },
                WalkAction::List { query },
            )
        } else {
            let result = match self.parent {
                Some(id) => Ok(id),
                None => Err(WalkError::NoFolderId),
            };
            (
                FolderWalk {
                    names: self.names,
                    found: self.found,
                    parent,
                    phase: WalkPhase::Done,
                },
                WalkAction::Finish(result),
            )
        }
    }

    /// Decides how the walk goes on when `event` happens.
    ///
    /// - A listing that holds a folder gives the folder reached; an empty
    ///   listing asks for the folder to be created under the one reached
    ///   before, and the created folder is the folder reached.
    /// - From the folder reached the walk lists the next name of the path
    ///   under it. With no name left the walk is over: the identifier of the
    ///   folder reached is the result, and its absence is an error.
    /// - A listing or a creation that fails ends the walk with that failure.
    /// - A walk that is over ignores every event.
    pub fn step(self, event: WalkEvent) -> (next: (FolderWalk, WalkAction))
        requires
            self.well_formed(),
        ensures
            next.0.well_formed(),
            match (self.phase, event) {
                (WalkPhase::Listing, WalkEvent::Listed { first: Some(id) }) => self.advances_to(
                    id,
                    next.0,
                    next.1,
                ),
                (WalkPhase::Listing, WalkEvent::Listed { first: None }) => {
                    &&& next.0.names == self.names
                    &&& next.0.found == self.found
                    &&& next.0.parent.deep_view() == self.parent.deep_view()
                    &&& next.0.phase == WalkPhase::Creating
                    &&& next.1 matches WalkAction::Create { name, parent }
                    &&& name@ == self.names@[self.found as int]@
                    &&& parent.deep_view() == self.parent.deep_view()
                },
                (WalkPhase::Listing, WalkEvent::ListFailed { cause }) => {
                    &&& self.stops_at(next.0, next.1)
                    &&& next.1 matches WalkAction::Finish(Err(WalkError::ListFailed(reason)))
                    &&& reason@ == cause@
                },
                (WalkPhase::Creating, WalkEvent::Created { id }) => self.advances_to(
                    id,
                    next.0,
                    next.1,
                ),
                (WalkPhase::Creating, WalkEvent::CreateFailed { cause }) => {
                    &&& self.stops_at(next.0, next.1)
                    &&& next.1 matches WalkAction::Finish(Err(WalkError::CreateFailed(reason)))
                    &&& reason@ == cause@
                },
                _ => next.0 == self && next.1 is Nothing,
            },
    {
        proof {
            assert(self.names.len() == self.names@.len());
        }
        match (self.phase, event) {
            (WalkPhase::Listing, WalkEvent::Listed { first: Some(id) }) => {
                FolderWalk {
                    names: self.names,
                    found: self.found + 1,
                    parent: id,
                    phase: WalkPhase::Listing,
                }.proceed()
            },
            (WalkPhase::Listing, WalkEvent::Listed { first: None }) => {
                let name = self.names[self.found].clone();
                let parent = match &self.parent {
                    Some(id) => Some(id.clone()),
                    None => None,
                };
                (
                    FolderWalk {
                        names: self.names,
                        found: self.found,
                        parent: self.parent,
                        phase: WalkPhase::Creating,
                    },
                    WalkAction::Create { name, parent },
                )
            },
            (WalkPhase::Listing, WalkEvent::ListFailed { cause }) => (
                FolderWalk {
                    names: self.names,
                    found: self.found,
                    parent: self.parent,
                    phase: WalkPhase::Done,
                },
                WalkAction::Finish(Err(WalkError::ListFailed(cause))),
            ),
            (WalkPhase::Creating, WalkEvent::Created { id }) => {
                FolderWalk {
                    names: self.names,
                    found: self.found + 1,
                    parent: id,
                    phase: WalkPhase::Listing,
                }.proceed()
            },
            (WalkPhase::Creating, WalkEvent::CreateFailed { cause }) => (
                FolderWalk {
                    names: self.names,
                    found: self.found,
                    parent: self.parent,
                    phase: WalkPhase::Done,
                },
                WalkAction::Finish(Err(WalkError::CreateFailed(cause))),
            ),
            _ => (self, WalkAction::Nothing),
        }
    }
}

/// Begins the walk to the folder of `path`, at the root of the drive.
///
/// A path without folders ends the walk at once, at the root; any other
/// path begins with the listing of its outermost folder under the root.
/// [`FolderWalk::step`] takes the walk on from there.
pub fn get_or_create_folder_id(path: &str) -> (begin: (FolderWalk, WalkAction))
    ensures
        begin.0.well_formed(),
        begin.0.names.deep_view() == folder_names(components_of(path@)),
        begin.0.found == 0,
        begin.0.parent.deep_view() == Some("root"@),
        begin.0.proceeds_with(begin.1),
{
    let walk = FolderWalk {
        names: folders_of(path),
        found: 0,
        parent: Some(String::from_str("root")),
        phase: WalkPhase::Listing,
    };
    walk.proceed()
}

/// What an upload run waits for.
#[derive(Debug, Clone, Copy, PartialEq, Eq, Structural)]
pub enum RunPhase {
    /// The identifier of the folder, for the file that is next.
    Seeking,
    /// The transfer of the file that is next.
    Sending,
    /// Nothing: the run is over.
    Over,
}

/// What an upload run is told.
#[derive(Debug, PartialEq, Eq)]
pub enum RunEvent {
    /// The folder is there, under this identifier.
    FolderFound { id: String },
    /// The folder could not be found or created.
    FolderFailed { cause: String },
    /// The file is on the drive.
    Sent,
    /// The file could not be read or transferred.
    SendFailed { cause: String },
}

/// What an upload run asks for next.
#[derive(Debug, PartialEq, Eq)]
pub enum RunAction {
    /// Find the folder `path` on the drive, creating what is missing.
    FindFolder { path: String },
    /// Transfer the local file `file` into the folder `folder_id`, as
    /// `upload` says.
    Send { file: String, upload: Upload, folder_id: String },
    /// The run is over: every file is on the drive, or this is the cause
    /// of the first failure.
    Finish(Result<(), String>),
    /// The event was not one that the run waits for: nothing changes.
    Nothing,
}

/// The upload of the result files of one job into one folder, file by
/// file.
#[derive(Debug, PartialEq, Eq)]
pub struct UploadRun {
    /// The local files, in the order in which they are uploaded.
    pub files: Vec<String>,
    /// The folder on the drive that receives them.
    pub upload_path: String,
    /// How many files are on the drive.
    pub sent: usize,
    pub phase: RunPhase,
}

impl UploadRun {
    /// A run that is not over has a file left to upload.
    pub open spec fn well_formed(&self) -> bool {
        self.phase is Over || self.sent < self.files@.len()
    }

    /// Whether `upload` is how the local file `file` goes into the folder
    /// `upload_path`.
    pub open spec fn planned(file: Seq<char>, upload_path: Seq<char>, upload: Upload) -> bool {
        &&& upload.name.deep_view() == file_name_of(file)
        &&& upload.full_path@ == joined(
            upload_path,
            match file_name_of(file) {
                Some(name) => name,
                None => "?"@,
            },
        )
        &&& upload.mime == mime_of(extension_of(file))
    }

    /// Whether `action` is what a run asks for once it stands at `self`: the
    /// folder for the next file, or the end of the run where no file is
    /// left.
    pub open spec fn proceeds_with(&self, action: RunAction) -> bool {
        if self.sent < self.files@.len() {
            &&& self.phase == RunPhase::Seeking
            &&& action matches RunAction::FindFolder { path } && path@ == self.upload_path@
        } else {
            &&& self.phase == RunPhase::Over
            &&& action == RunAction::Finish(Ok(()))
        }
    }

    /// Whether `next` holds the same files for the same folder as `self`.
    pub open spec fn same_job(&self, next: UploadRun) -> bool {
        next.files == self.files && next.upload_path == self.upload_path
    }

    /// Asks for the folder of the next file, or ends the run where no file
    /// is left.
    fn proceed(self) -> (next: (UploadRun, RunAction))
        requires
            self.sent <= self.files@.len(),
        ensures
            next.0.well_formed(),
            self.same_job(next.0),
            next.0.sent == self.sent,
            next.0.proceeds_with(next.1),
    {
        if self.sent < self.files.len() {
            let path = self.upload_path.clone();
            (
                UploadRun {
                    files: self.files,
                    upload_path: self.upload_path,
                    sent: self.sent,
                    phase: RunPhase::Seeking,
                },
                RunAction::FindFolder { path },
            )
        } else {
            (
                UploadRun {
                    files: self.files,
                    upload_path: self.upload_path,
                    sent: self.sent,
                    phase: RunPhase::Over,
                },
                RunAction::Finish(Ok(())),
            )
        }
    }

    /// Decides how the run goes on when `event` happens.
    ///
    /// - The folder is looked up anew for each file. Once it is found the
    ///   file is sent into it, under its own name and with the media type
    ///   that its extension tells.
    /// - After a file is sent the run turns to the next one, and is over
    ///   with success after the last.
    /// - The first failure ends the run; the files after it are not
    ///   uploaded.
    /// - A run that is over ignores every event.
    pub fn step(self, event: RunEvent) -> (next: (UploadRun, RunAction))
        requires
            self.well_formed(),
        ensures
            next.0.well_formed(),
            self.same_job(next.0),
            match (self.phase, event) {
                (RunPhase::Seeking, RunEvent::FolderFound { id }) => {
                    &&& next.0.sent == self.sent
                    &&& next.0.phase == RunPhase::Sending
                    &&& next.1 matches RunAction::Send { file, upload, folder_id }
                    &&& file@ == self.files@[self.sent as int]@
                    &&& Self::planned(file@, self.upload_path@, upload)
                    &&& folder_id == id
                },
                (RunPhase::Seeking, RunEvent::FolderFailed { cause }) => {
                    &&& next.0.sent == self.sent
                    &&& next.0.phase == RunPhase::Over
                    &&& next.1 == RunAction::Finish(Err(cause))
                },
                (RunPhase::Sending, RunEvent::Sent) => {
                    &&& next.0.sent == self.sent + 1
                    &&& next.0.proceeds_with(next.1)
                },
                (RunPhase::Sending, RunEvent::SendFailed { cause }) => {
                    &&& next.0.sent == self.sent
                    &&& next.0.phase == RunPhase::Over
                    &&& next.1 == RunAction::Finish(Err(cause))
                },
                _ => next.0 == self && next.1 is Nothing,
            },
    {
        proof {
            assert(self.files.len() == self.files@.len());
        }
        match (self.phase, event) {
            (RunPhase::Seeking, RunEvent::FolderFound { id }) => {
                let file = self.files[self.sent].clone();
                let upload = plan_upload(file.as_str(), self.upload_path.as_str());
                (
                    UploadRun {
                        files: self.files,
                        upload_path: self.upload_path,
                        sent: self.sent,
                        phase: RunPhase::Sending,
                    },
                    RunAction::Send { file, upload, folder_id: id },
                )
            },
            (RunPhase::Seeking, RunEvent::FolderFailed { cause }) => (
                UploadRun {
                    files: self.files,
                    upload_path: self.upload_path,
                    sent: self.sent,
                    phase: RunPhase::Over,
                },
                RunAction::Finish(Err(cause)),
            ),
            (RunPhase::Sending, RunEvent::Sent) => {
                UploadRun {
                    files: self.files,
                    upload_path: self.upload_path,
                    sent: self.sent + 1,
                    phase: RunPhase::Seeking,
                }.proceed()
            },
            (RunPhase::Sending, RunEvent::SendFailed { cause }) => (
                UploadRun {
                    files: self.files,
                    upload_path: self.upload_path,
                    sent: self.sent,
                    phase: RunPhase::Over,
                },
                RunAction::Finish(Err(cause)),
            ),
            _ => (self, RunAction::Nothing),
        }
    }
}

/// Begins the upload of `files` into the folder `upload_path`.
///
/// Without files the run is over at once; otherwise it begins with the
/// search for the folder. [`UploadRun::step`] takes the run on from there.
pub fn upload_files(files: Vec<String>, upload_path: String) -> (begin: (UploadRun, RunAction))
    ensures
        begin.0.well_formed(),
        begin.0.files == files,
        begin.0.upload_path == upload_path,
        begin.0.sent == 0,
        begin.0.proceeds_with(begin.1),
{
    UploadRun { files, upload_path, sent: 0, phase: RunPhase::Seeking }.proceed()
}

} // verus!
