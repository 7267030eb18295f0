//! How a file operation runs: which dialog or file access it asks for, in
//! which order, and the message it ends with.
//!
//! Nothing here touches a dialog or the filesystem. The host carries out one
//! request at a time and hands back the response; this module decides what
//! follows.
use crate::editor::{Message, Operation};
use crate::error::Error;
use vstd::pervasive::unreached;
use vstd::prelude::*;

verus! {

/// What the host is asked to do next.
#[derive(Debug)]
pub enum Request {
    /// Let the user pick a file to open.
    PickFile,
    /// Let the user pick where to save.
    PickSaveLocation,
    /// Read the whole file at `path` as text.
    Read { path: String },
    /// Write `contents` to the file at `path`, replacing what it held.
    Write { path: String, contents: String },
}

/// What came of a request.
#[derive(Debug)]
pub enum Response {
    /// The path that the user picked, or `None` if the dialog was closed.
    Picked(Option<String>),
    /// The text that was read, or why reading failed.
    Read(Result<String, std::io::ErrorKind>),
    /// That the text was written, or why writing failed.
    Written(Result<(), std::io::ErrorKind>),
}

/// A file operation that is under way, waiting for a response.
#[derive(Debug)]
pub enum Task {
    /// The user is picking a file to open.
    PickingToOpen { document: usize },
    /// The file at `path` is being read.
    Reading { document: usize, path: String },
    /// The user is picking where to save `contents`.
    PickingToSave { document: usize, contents: String },
    /// The file at `path` is being written.
    Writing { document: usize, path: String },
}

/// How a task goes on after a response.
#[derive(Debug)]
pub enum Progress {
    /// The task goes on, with this request.
    Continue(Task, Request),
    /// The operation has ended, and this message reports it to the editor.
    Finished(Message),
}

impl Task {
    /// Whether `response` answers the request that the task is waiting on.
    pub open spec fn expects(self, response: Response) -> bool {
        match self {
            Task::PickingToOpen { .. } | Task::PickingToSave { .. } => response is Picked,
            Task::Reading { .. } => response is Read,
            Task::Writing { .. } => response is Written,
        }
    }

    /// Whether `response` answers the request that the task is waiting on.
    pub fn accepts(&self, response: &Response) -> (accepted: bool)
        ensures
            accepted == self.expects(*response),
    {
        match self {
            Task::PickingToOpen { .. } | Task::PickingToSave { .. } => match response {
                Response::Picked(_) => true,
                _ => false,
            },
            Task::Reading { .. } => match response {
                Response::Read(_) => true,
                _ => false,
            },
            Task::Writing { .. } => match response {
                Response::Written(_) => true,
                _ => false,
            },
        }
    }
}

/// The task that `operation` starts as, and its first request.
///
/// A load reads its file. An open asks the user for the file first. A save
/// writes to the path of the document if it has one, and asks the user where
/// to save if it has none.
pub open spec fn first_step(operation: Operation) -> (Task, Request) {
    match operation {
        Operation::Load { document, path } => (
            Task::Reading { document, path },
            Request::Read { path },
        ),
        Operation::Open { document } => (Task::PickingToOpen { document }, Request::PickFile),
        Operation::Save { document, path: Some(path), contents } => (
            Task::Writing { document, path },
            Request::Write { path, contents },
        ),
        Operation::Save { document, path: None, contents } => (
            Task::PickingToSave { document, contents },
            Request::PickSaveLocation,
        ),
    }
}

/// How `task` goes on after `response`.
///
/// A picked file is read, and a picked location is written to; a closed
/// dialog ends the operation with `DialogClosed`. A read ends a load with the
/// path and the text, a write ends a save with the path, and a failure of
/// either ends the operation with the kind of the failure.
pub open spec fn next_step(task: Task, response: Response) -> Progress
    recommends
        task.expects(response),
{
    match task {
        Task::PickingToOpen { document } => match response->Picked_0 {
            Some(path) => Progress::Continue(
                Task::Reading { document, path },
                Request::Read { path },
            ),
            None => Progress::Finished(Message::FileOpened(document, Err(Error::DialogClosed))),
        },
        Task::Reading { document, path } => match response->Read_0 {
            Ok(contents) => Progress::Finished(
                Message::FileOpened(document, Ok((path, contents))),
            ),
            Err(kind) => Progress::Finished(
                Message::FileOpened(document, Err(Error::IoError(kind))),
            ),
        },
        Task::PickingToSave { document, contents } => match response->Picked_0 {
            Some(path) => Progress::Continue(
                Task::Writing { document, path },
                Request::Write { path, contents },
            ),
            None => Progress::Finished(Message::FileSaved(document, Err(Error::DialogClosed))),
        },
        Task::Writing { document, path } => match response->Written_0 {
            Ok(_) => Progress::Finished(Message::FileSaved(document, Ok(path))),
            Err(kind) => Progress::Finished(
                Message::FileSaved(document, Err(Error::IoError(kind))),
            ),
        },
    }
}

/// Starts `operation`: returns it as a task, with its first request.
pub fn start(operation: Operation) -> (started: (Task, Request))
    ensures
        started == first_step(operation),
{
    match operation {
        Operation::Load { document, path } => {
            let target = path.clone();
            (Task::Reading { document, path }, Request::Read { path: target })
        },
        Operation::Open { document } => (Task::PickingToOpen { document }, Request::PickFile),
        Operation::Save { document, path: Some(path), contents } => {
            let target = path.clone();
            (Task::Writing { document, path }, Request::Write { path: target, contents })
        },
        Operation::Save { document, path: None, contents } => (
            Task::PickingToSave { document, contents },
            Request::PickSaveLocation,
        ),
    }
}

/// Takes the response to the request that `task` is waiting on, and returns
/// how the task goes on.
pub fn advance(task: Task, response: Response) -> (progress: Progress)
    requires
        task.expects(response),
    ensures
        progress == next_step(task, response),
{
    match task {
        Task::PickingToOpen { document } => match response {
            Response::Picked(Some(path)) => {
                let target = path.clone();
                Progress::Continue(Task::Reading { document, path }, Request::Read { path: target })
            },
            Response::Picked(None) => Progress::Finished(
                Message::FileOpened(document, Err(Error::DialogClosed)),
            ),
            _ => unreached(),
        },
        Task::Reading { document, path } => match response {
            Response::Read(Ok(contents)) => Progress::Finished(
                Message::FileOpened(document, Ok((path, contents))),
            ),
            Response::Read(Err(kind)) => Progress::Finished(
                Message::FileOpened(document, Err(Error::IoError(kind))),
            ),
            _ => unreached(),
        },
        Task::PickingToSave { document, contents } => match response {
            Response::Picked(Some(path)) => {
                let target = path.clone();
                Progress::Continue(
                    Task::Writing { document, path },
                    Request::Write { path: target, contents },
                )
            },
            Response::Picked(None) => Progress::Finished(
                Message::FileSaved(document, Err(Error::DialogClosed)),
            ),
            _ => unreached(),
        },
        Task::Writing { document, path } => match response {
            Response::Written(Ok(_)) => Progress::Finished(Message::FileSaved(document, Ok(path))),
            Response::Written(Err(kind)) => Progress::Finished(
                Message::FileSaved(document, Err(Error::IoError(kind))),
            ),
            _ => unreached(),
        },
    }
}

} // verus!
