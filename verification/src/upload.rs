//! Taking in an uploaded file: the decisions, one step at a time.
//!
//! The caller owns the request, the file system and the engine. It starts
//! with `UploadState::Start` and `UploadEvent::Started`, carries out each
//! action that `step` asks for, and hands back what came of it, until the
//! action is `Finish`, and shows the page that `report` makes of the
//! outcome. The bytes are written before the catalogue row is asked for;
//! nothing is undone when a later step fails.

use vstd::prelude::*;
use vstd::string::StringExecFns;
use crate::media::{classify, infer_media_kind};
use crate::statement::{Done, Statement, StatementView};

verus! {

/// One part of a multipart request.
#[derive(Debug, PartialEq, Eq)]
pub struct Part {
    /// The name of the attached file, if the part carries one.
    pub file_name: Option<String>,
    /// The content type that the part declares, if any.
    pub content_type: Option<String>,
    /// The part's bytes.
    pub data: Vec<u8>,
}

/// Why an upload failed; each reason holds the diagnostic of what failed.
#[derive(Debug, PartialEq, Eq)]
pub enum UploadError {
    /// The upload directory could not be created.
    CreateDirectory { diagnostic: String },
    /// The target file could not be created.
    CreateFile { filename: String, diagnostic: String },
    /// The bytes could not be written.
    WriteFile { filename: String, diagnostic: String },
    /// The catalogue row could not be inserted. The file stays.
    InsertRow { filename: String, diagnostic: String },
}

/// How an upload ended.
#[derive(Debug, PartialEq, Eq)]
pub enum UploadOutcome {
    /// The file is written and catalogued.
    Uploaded { filename: String },
    /// No part of the request carried a file name.
    NoFile,
    Failed(UploadError),
}

/// Where an upload stands: what it is waiting for, and what it keeps for
/// the steps to come.
#[derive(Debug, PartialEq, Eq)]
pub enum UploadState {
    Start,
    /// Waiting for the upload directory.
    Directory,
    /// Waiting for the next part of the request.
    Parts,
    /// Waiting for the target file to be created.
    File { filename: String, path: String, content_type: Option<String>, data: Vec<u8> },
    /// Waiting for the bytes to be written.
    Write { filename: String, path: String, content_type: Option<String> },
    /// Waiting for the catalogue row to be inserted.
    Row { filename: String },
    Finished,
}

/// What came of the action that was asked for last.
#[derive(Debug, PartialEq, Eq)]
pub enum UploadEvent {
    Started,
    DirectoryCreated(Result<(), String>),
    /// The next part of the request, or `None` at its end.
    NextPart(Option<Part>),
    FileCreated(Result<(), String>),
    Written(Result<(), String>),
    Inserted(Result<Done, String>),
}

/// What the caller is to do next.
#[derive(Debug, PartialEq, Eq)]
pub enum UploadAction {
    /// Create this directory, and those above it.
    CreateDirectory { path: String },
    /// Read the next part of the request.
    ReadPart,
    /// Create the file at this path.
    CreateFile { path: String },
    /// Write these bytes, all of them, to the file created at this path.
    WriteFile { path: String, data: Vec<u8> },
    /// Have the engine carry out this statement.
    Execute(Statement),
    /// Stop, and report this outcome.
    Finish(UploadOutcome),
}

/// The directory that uploads are written under.
pub open spec fn upload_root() -> Seq<char> {
    "uploads"@
}

/// The virtual folder that every upload is listed under.
pub open spec fn upload_folder() -> Seq<char> {
    "/uploads"@
}

/// Where the file named `filename` is written: the upload directory, a
/// slash, and the name as it came.
pub open spec fn upload_path(filename: Seq<char>) -> Seq<char> {
    "uploads"@ + "/"@ + filename
}

/// Whether `event` is an answer to what `state` is waiting for.
pub open spec fn answers(state: UploadState, event: UploadEvent) -> bool {
    match (state, event) {
        (UploadState::Start, UploadEvent::Started) => true,
        (UploadState::Directory, UploadEvent::DirectoryCreated(_)) => true,
        (UploadState::Parts, UploadEvent::NextPart(_)) => true,
        (UploadState::File { .. }, UploadEvent::FileCreated(_)) => true,
        (UploadState::Write { .. }, UploadEvent::Written(_)) => true,
        (UploadState::Row { .. }, UploadEvent::Inserted(_)) => true,
        _ => false,
    }
}

/// Whether an upload in `state` that learns of `event` goes on in `next` and
/// asks for `action`.
pub open spec fn transition(
    state: UploadState,
    event: UploadEvent,
    next: UploadState,
    action: UploadAction,
) -> bool {
    match (state, event) {
        (UploadState::Start, UploadEvent::Started) => {
            &&& next == UploadState::Directory
            &&& action matches UploadAction::CreateDirectory { path }
            &&& path@ == upload_root()
        },
        (UploadState::Directory, UploadEvent::DirectoryCreated(Ok(_))) => {
            &&& next == UploadState::Parts
            &&& action == UploadAction::ReadPart
        },
        (UploadState::Directory, UploadEvent::DirectoryCreated(Err(diagnostic))) => {
            &&& next == UploadState::Finished
            &&& action == UploadAction::Finish(
                UploadOutcome::Failed(UploadError::CreateDirectory { diagnostic }),
            )
        },
        (UploadState::Parts, UploadEvent::NextPart(None)) => {
            &&& next == UploadState::Finished
            &&& action == UploadAction::Finish(UploadOutcome::NoFile)
        },
        (UploadState::Parts, UploadEvent::NextPart(Some(part))) => match part.file_name {
            None => {
                &&& next == UploadState::Parts
                &&& action == UploadAction::ReadPart
            },
            Some(name) => {
                &&& next matches UploadState::File { filename, path, content_type, data }
                &&& filename == name
                &&& path@ == upload_path(name@)
                &&& content_type == part.content_type
                &&& data == part.data
                &&& action matches UploadAction::CreateFile { path: target }
                &&& target@ == upload_path(name@)
            },
        },
        (
            UploadState::File { filename, path, content_type, data },
            UploadEvent::FileCreated(Ok(_)),
        ) => {
            &&& next == UploadState::Write { filename, path, content_type }
            &&& action == UploadAction::WriteFile { path, data }
        },
        (UploadState::File { filename, .. }, UploadEvent::FileCreated(Err(diagnostic))) => {
            &&& next == UploadState::Finished
            &&& action == UploadAction::Finish(
                UploadOutcome::Failed(UploadError::CreateFile { filename, diagnostic }),
            )
        },
        (UploadState::Write { filename, path, content_type }, UploadEvent::Written(Ok(_))) => {
            &&& next == UploadState::Row { filename }
            &&& action matches UploadAction::Execute(statement)
            &&& statement@ == StatementView::InsertMedia {
                title: filename@,
                path: path@,
                kind: classify(content_type.deep_view()),
                conceptual_path: upload_folder(),
            }
        },
        (UploadState::Write { filename, .. }, UploadEvent::Written(Err(diagnostic))) => {
            &&& next == UploadState::Finished
            &&& action == UploadAction::Finish(
                UploadOutcome::Failed(UploadError::WriteFile { filename, diagnostic }),
            )
        },
        (UploadState::Row { filename }, UploadEvent::Inserted(Ok(_))) => {
            &&& next == UploadState::Finished
            &&& action == UploadAction::Finish(UploadOutcome::Uploaded { filename })
        },
        (UploadState::Row { filename }, UploadEvent::Inserted(Err(diagnostic))) => {
            &&& next == UploadState::Finished
            &&& action == UploadAction::Finish(
                UploadOutcome::Failed(UploadError::InsertRow { filename, diagnostic }),
            )
        },
        _ => false,
    }
}

/// The path under which the file named `filename` is written.
pub fn target_path(filename: &str) -> (path: String)
    ensures
        path@ == upload_path(filename@),
{
    String::from_str("uploads").concat("/").concat(filename)
}

/// One decision of an upload. Where `event` answers what `state` is waiting
/// for, the result is the state to go on in and the action to carry out
/// next; where it does not, and in `Finished`, the result is `None`.
pub fn step(state: UploadState, event: UploadEvent) -> (result: Option<(UploadState, UploadAction)>)
    ensures
        result is Some <==> answers(state, event),
        result matches Some((next, action)) ==> transition(state, event, next, action),
{
    match (state, event) {
        (UploadState::Start, UploadEvent::Started) => {
            let path = String::from_str("uploads");
            Some((UploadState::Directory, UploadAction::CreateDirectory { path }))
        },
        (UploadState::Directory, UploadEvent::DirectoryCreated(created)) => match created {
            Ok(_) => Some((UploadState::Parts, UploadAction::ReadPart)),
            Err(diagnostic) => Some(
                (
                    UploadState::Finished,
                    UploadAction::Finish(
                        UploadOutcome::Failed(UploadError::CreateDirectory { diagnostic }),
                    ),
                ),
            ),
        },
        (UploadState::Parts, UploadEvent::NextPart(part)) => match part {
            None => Some((UploadState::Finished, UploadAction::Finish(UploadOutcome::NoFile))),
            Some(part) => match part.file_name {
                None => Some((UploadState::Parts, UploadAction::ReadPart)),
                Some(filename) => {
                    let path = target_path(filename.as_str());
                    let target = path.clone();
                    Some(
                        (
                            UploadState::File {
                                filename,
                                path,
                                content_type: part.content_type,
                                data: part.data,
                            },
                            UploadAction::CreateFile { path: target },
                        ),
                    )
                },
            },
        },
        (
            UploadState::File { filename, path, content_type, data },
            UploadEvent::FileCreated(created),
        ) => match created {
            Ok(_) => {
                let target = path.clone();
                Some(
                    (
                        UploadState::Write { filename, path, content_type },
                        UploadAction::WriteFile { path: target, data },
                    ),
                )
            },
            Err(diagnostic) => Some(
                (
                    UploadState::Finished,
                    UploadAction::Finish(
                        UploadOutcome::Failed(UploadError::CreateFile { filename, diagnostic }),
                    ),
                ),
            ),
        },
        (UploadState::Write { filename, path, content_type }, UploadEvent::Written(written)) => {
            match written {
                Ok(_) => {
                    let kind = infer_media_kind(&content_type);
                    let statement = Statement::InsertMedia {
                        title: filename.clone(),
                        path,
                        kind,
                        conceptual_path: String::from_str("/uploads"),
                    };
                    Some((UploadState::Row { filename }, UploadAction::Execute(statement)))
                },
                Err(diagnostic) => Some(
                    (
                        UploadState::Finished,
                        UploadAction::Finish(
                            UploadOutcome::Failed(UploadError::WriteFile { filename, diagnostic }),
                        ),
                    ),
                ),
            }
        },
        (UploadState::Row { filename }, UploadEvent::Inserted(inserted)) => match inserted {
            Ok(_) => Some(
                (
                    UploadState::Finished,
                    UploadAction::Finish(UploadOutcome::Uploaded { filename }),
                ),
            ),
            Err(diagnostic) => Some(
                (
                    UploadState::Finished,
                    UploadAction::Finish(
                        UploadOutcome::Failed(UploadError::InsertRow { filename, diagnostic }),
                    ),
                ),
            ),
        },
        _ => None,
    }
}

/// The page that tells the user how an upload ended. A row that could not be
/// inserted is reported like bytes that could not be written.
pub open spec fn spec_report(outcome: UploadOutcome) -> Seq<char> {
    match outcome {
        UploadOutcome::Uploaded { filename } => "<h1>File uploaded successfully: "@ + filename@
            + "</h1>"@,
        UploadOutcome::NoFile => "<h1>No file uploaded.</h1>"@,
        UploadOutcome::Failed(UploadError::CreateDirectory { diagnostic }) =>
            "<h1>Error: Failed to create upload directory</h1><p>"@ + diagnostic@ + "</p>"@,
        UploadOutcome::Failed(UploadError::CreateFile { filename, diagnostic }) =>
            "<h1>Error creating file: "@ + filename@ + "</h1><p>"@ + diagnostic@ + "</p>"@,
        UploadOutcome::Failed(UploadError::WriteFile { filename, diagnostic }) =>
            "<h1>Error writing file: "@ + filename@ + "</h1><p>"@ + diagnostic@ + "</p>"@,
        UploadOutcome::Failed(UploadError::InsertRow { filename, diagnostic }) =>
            "<h1>Error writing file: "@ + filename@ + "</h1><p>"@ + diagnostic@ + "</p>"@,
    }
}

/// A heading that names a file, then a paragraph with a diagnostic.
fn failure_page(heading: &str, filename: &str, diagnostic: &str) -> (page: String)
    ensures
        page@ == heading@ + filename@ + "</h1><p>"@ + diagnostic@ + "</p>"@,
{
    String::from_str(heading).concat(filename).concat("</h1><p>").concat(diagnostic).concat("</p>")
}

/// The page that tells the user how an upload ended. The file name and the
/// diagnostic stand in it as they came.
pub fn report(outcome: &UploadOutcome) -> (page: String)
    ensures
        page@ == spec_report(*outcome),
{
    match outcome {
        UploadOutcome::Uploaded { filename } => String::from_str(
            "<h1>File uploaded successfully: ",
        ).concat(filename.as_str()).concat("</h1>"),
        UploadOutcome::NoFile => String::from_str("<h1>No file uploaded.</h1>"),
        UploadOutcome::Failed(UploadError::CreateDirectory { diagnostic }) => String::from_str(
            "<h1>Error: Failed to create upload directory</h1><p>",
        ).concat(diagnostic.as_str()).concat("</p>"),
        UploadOutcome::Failed(UploadError::CreateFile { filename, diagnostic }) => failure_page(
            "<h1>Error creating file: ",
            filename.as_str(),
            diagnostic.as_str(),
        ),
        UploadOutcome::Failed(UploadError::WriteFile { filename, diagnostic }) => failure_page(
            "<h1>Error writing file: ",
            filename.as_str(),
            diagnostic.as_str(),
        ),
        UploadOutcome::Failed(UploadError::InsertRow { filename, diagnostic }) => failure_page(
            "<h1>Error writing file: ",
            filename.as_str(),
            diagnostic.as_str(),
        ),
    }
}

/// How far an upload is from its end, in steps.
pub open spec fn steps_left(state: UploadState) -> nat {
    match state {
        UploadState::Start => 6,
        UploadState::Directory => 5,
        UploadState::Parts => 4,
        UploadState::File { .. } => 3,
        UploadState::Write { .. } => 2,
        UploadState::Row { .. } => 1,
        UploadState::Finished => 0,
    }
}

/// The catalogue row is asked for only once the bytes are written: the step
/// that asks for it is the one that learns that the write succeeded.
pub proof fn row_follows_write(
    state: UploadState,
    event: UploadEvent,
    next: UploadState,
    action: UploadAction,
)
    requires
        transition(state, event, next, action),
        action is Execute,
    ensures
        state is Write,
        event matches UploadEvent::Written(Ok(_)),
{
}

/// The part that is taken in is written as it came: for a part with a file
/// name, once its file is created, the bytes to write are the part's bytes
/// and the path is the upload directory, a slash and the part's file name.
pub proof fn bytes_are_written_as_they_came(
    part: Part,
    opened: UploadState,
    create: UploadAction,
    writing: UploadState,
    write: UploadAction,
)
    requires
        part.file_name is Some,
        transition(UploadState::Parts, UploadEvent::NextPart(Some(part)), opened, create),
        transition(opened, UploadEvent::FileCreated(Ok(())), writing, write),
    ensures
        write matches UploadAction::WriteFile { path, data } && data == part.data && path@
            == upload_path(part.file_name->Some_0@),
{
}

/// Only the first part with a file name is taken in: a step asks for
/// another part only while no such part has come.
pub proof fn one_part_is_taken(
    state: UploadState,
    event: UploadEvent,
    next: UploadState,
    action: UploadAction,
)
    requires
        transition(state, event, next, action),
        action is ReadPart,
    ensures
        next is Parts,
        state is Directory || state is Parts,
        state is Parts ==> event is NextPart && event->NextPart_0 is Some
            && event->NextPart_0->Some_0.file_name is None,
{
}

/// Every step brings the upload nearer to its end, but for the step that
/// passes over a part without a file name; and the action is `Finish`
/// exactly when the upload has ended.
pub proof fn steps_lead_to_the_end(
    state: UploadState,
    event: UploadEvent,
    next: UploadState,
    action: UploadAction,
)
    requires
        transition(state, event, next, action),
    ensures
        steps_left(next) < steps_left(state) || (state is Parts && next is Parts),
        action is Finish <==> next is Finished,
{
}

} // verus!
