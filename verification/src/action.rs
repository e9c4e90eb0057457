//! What goes into the browser and what comes out of it: events from the
//! presentation layer and from finished outside work, and the actions the
//! browser asks its driver to perform.

use crate::entry::{items_view, DirItem, DirItemModel, IoError};
use crate::path::{DirectoryPath, PathModel};
use crate::session::{Delivery, DeliveryModel};
use vstd::prelude::*;

verus! {

/// A failed operation, for the driver to surface.
#[derive(Clone, Copy, Debug, PartialEq, Eq, Structural)]
pub enum Failure {
    /// The current directory could not be read.
    Listing(IoError),
    /// The rename was refused.
    Rename(IoError),
    /// The delete was refused.
    Delete(IoError),
}

/// The outside work that the browser asks for after an event.
#[derive(Debug, PartialEq, Eq)]
pub enum Action {
    /// Nothing is due.
    Idle,
    /// Find out whether `path`, the entry `name` of the current directory,
    /// is a directory, and answer with [`Event::EntryProbed`].
    ProbeEntry { name: String, path: DirectoryPath },
    /// Find out whether the search result `path` is a directory, and answer
    /// with [`Event::ResultProbed`].
    ProbeResult { path: DirectoryPath },
    /// Read the directory `path`, and answer with [`Event::DirectoryRead`].
    ReadDirectory { path: DirectoryPath },
    /// Rename `old_name` in `dir` to `new_name`, and answer with
    /// [`Event::RenameFinished`].
    Rename { dir: DirectoryPath, old_name: String, new_name: String },
    /// Delete `name` in `dir`, with everything below it if it is a
    /// directory, and answer with [`Event::DeleteFinished`]. Nothing asks
    /// for confirmation and nothing can be undone.
    Delete { dir: DirectoryPath, name: String },
    /// Walk the subtree at `start` on a worker, match it against
    /// `query_lower`, and deliver the result under `handle`.
    StartWalk { handle: u64, start: DirectoryPath, query_lower: String },
    /// Open the file with the system's default handler.
    OpenFile { path: DirectoryPath },
    /// Show the path in the system's file manager.
    Reveal { path: DirectoryPath },
    /// Surface a failure to the user.
    Report { failure: Failure },
}

/// The mathematical value of an [`Action`].
pub enum ActionModel {
    Idle,
    ProbeEntry { name: Seq<char>, path: PathModel },
    ProbeResult { path: PathModel },
    ReadDirectory { path: PathModel },
    Rename { dir: PathModel, old_name: Seq<char>, new_name: Seq<char> },
    Delete { dir: PathModel, name: Seq<char> },
    StartWalk { handle: u64, start: PathModel, query_lower: Seq<char> },
    OpenFile { path: PathModel },
    Reveal { path: PathModel },
    Report { failure: Failure },
}

impl View for Action {
    type V = ActionModel;

    open spec fn view(&self) -> ActionModel {
        match self {
            Action::Idle => ActionModel::Idle,
            Action::ProbeEntry { name, path } => ActionModel::ProbeEntry {
                name: name@,
                path: path@,
            },
            Action::ProbeResult { path } => ActionModel::ProbeResult { path: path@ },
            Action::ReadDirectory { path } => ActionModel::ReadDirectory { path: path@ },
            Action::Rename { dir, old_name, new_name } => ActionModel::Rename {
                dir: dir@,
                old_name: old_name@,
                new_name: new_name@,
            },
            Action::Delete { dir, name } => ActionModel::Delete { dir: dir@, name: name@ },
            Action::StartWalk { handle, start, query_lower } => ActionModel::StartWalk {
                handle: *handle,
                start: start@,
                query_lower: query_lower@,
            },
            Action::OpenFile { path } => ActionModel::OpenFile { path: path@ },
            Action::Reveal { path } => ActionModel::Reveal { path: path@ },
            Action::Report { failure } => ActionModel::Report { failure: *failure },
        }
    }
}

/// What happened: a gesture in the presentation layer, or the outcome of
/// outside work that an [`Action`] asked for.
#[derive(Debug, PartialEq, Eq)]
pub enum Event {
    /// "Up" in the navigation bar.
    UpPressed,
    /// Double click or "Open" on the entry at `index` of the directory view.
    EntryActivated { index: usize },
    /// "Delete" on the entry at `index` of the directory view.
    DeletePressed { index: usize },
    /// "Rename" on the entry at `index` of the directory view.
    RenamePressed { index: usize },
    /// The text of the rename editor changed.
    RenameEdited { text: String },
    /// Enter in the rename editor.
    RenameConfirmed,
    /// "Cancel" in the rename editor.
    RenameCancelled,
    /// "Search" in the directory view: the search popup opens.
    SearchPressed,
    /// The text of the search popup changed.
    QueryEdited { text: String },
    /// "Search" or Enter in the search popup.
    SearchSubmitted,
    /// "Cancel" in the search popup.
    SearchCancelled,
    /// Double click or "Open" on the search result at `index`.
    ResultActivated { index: usize },
    /// "Show in file manager" on the search result at `index`.
    ResultRevealed { index: usize },
    /// Answer to [`Action::ProbeEntry`].
    EntryProbed { name: String, is_dir: bool },
    /// Answer to [`Action::ProbeResult`].
    ResultProbed { path: DirectoryPath, is_dir: bool },
    /// Answer to [`Action::ReadDirectory`].
    DirectoryRead { read: Result<Vec<DirItem>, IoError> },
    /// Answer to [`Action::Rename`].
    RenameFinished { outcome: Result<(), IoError> },
    /// Answer to [`Action::Delete`].
    DeleteFinished { outcome: Result<(), IoError> },
    /// A non-blocking look at the delivery slot of the search `handle`.
    SearchPolled { handle: u64, delivery: Delivery },
}

/// The mathematical value of an [`Event`].
pub enum EventModel {
    UpPressed,
    EntryActivated { index: usize },
    DeletePressed { index: usize },
    RenamePressed { index: usize },
    RenameEdited { text: Seq<char> },
    RenameConfirmed,
    RenameCancelled,
    SearchPressed,
    QueryEdited { text: Seq<char> },
    SearchSubmitted,
    SearchCancelled,
    ResultActivated { index: usize },
    ResultRevealed { index: usize },
    EntryProbed { name: Seq<char>, is_dir: bool },
    ResultProbed { path: PathModel, is_dir: bool },
    DirectoryRead { read: Result<Seq<DirItemModel>, IoError> },
    RenameFinished { outcome: Result<(), IoError> },
    DeleteFinished { outcome: Result<(), IoError> },
    SearchPolled { handle: u64, delivery: DeliveryModel },
}

/// The value of the outcome of a directory read.
pub open spec fn read_view(read: Result<Vec<DirItem>, IoError>) -> Result<
    Seq<DirItemModel>,
    IoError,
> {
    match read {
        Ok(items) => Ok(items_view(items@)),
        Err(failure) => Err(failure),
    }
}

impl View for Event {
    type V = EventModel;

    open spec fn view(&self) -> EventModel {
        match self {
            Event::UpPressed => EventModel::UpPressed,
            Event::EntryActivated { index } => EventModel::EntryActivated { index: *index },
            Event::DeletePressed { index } => EventModel::DeletePressed { index: *index },
            Event::RenamePressed { index } => EventModel::RenamePressed { index: *index },
            Event::RenameEdited { text } => EventModel::RenameEdited { text: text@ },
            Event::RenameConfirmed => EventModel::RenameConfirmed,
            Event::RenameCancelled => EventModel::RenameCancelled,
            Event::SearchPressed => EventModel::SearchPressed,
            Event::QueryEdited { text } => EventModel::QueryEdited { text: text@ },
            Event::SearchSubmitted => EventModel::SearchSubmitted,
            Event::SearchCancelled => EventModel::SearchCancelled,
            Event::ResultActivated { index } => EventModel::ResultActivated { index: *index },
            Event::ResultRevealed { index } => EventModel::ResultRevealed { index: *index },
            Event::EntryProbed { name, is_dir } => EventModel::EntryProbed {
                name: name@,
                is_dir: *is_dir,
            },
            Event::ResultProbed { path, is_dir } => EventModel::ResultProbed {
                path: path@,
                is_dir: *is_dir,
            },
            Event::DirectoryRead { read } => EventModel::DirectoryRead { read: read_view(*read) },
            Event::RenameFinished { outcome } => EventModel::RenameFinished { outcome: *outcome },
            Event::DeleteFinished { outcome } => EventModel::DeleteFinished { outcome: *outcome },
            Event::SearchPolled { handle, delivery } => EventModel::SearchPolled {
                handle: *handle,
                delivery: delivery@,
            },
        }
    }
}

} // verus!
