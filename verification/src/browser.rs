//! The browser session: the current directory, its listing, the search in
//! flight and the rename in progress, advanced one event at a time.

use crate::action::{read_view, Action, Event, Failure};
use crate::entry::{entries_view, DirItem, Entry, IoError};
use crate::lister::{list, sorted_by_name};
use crate::model::{BrowserModel, RenameModel};
use crate::path::{paths_view, DirectoryPath, PathModel};
use crate::session::{Delivery, PollOutcome, SearchSession, SessionModel};
use crate::text::to_lowercase;
use vstd::prelude::*;

verus! {

/// An entry being renamed: the name it has and the name typed so far.
#[derive(Debug, PartialEq, Eq)]
pub struct RenameIntent {
    pub target: String,
    pub proposed: String,
}

impl View for RenameIntent {
    type V = RenameModel;

    open spec fn view(&self) -> RenameModel {
        RenameModel { target: self.target@, proposed: self.proposed@ }
    }
}

/// The value of a search result that may or may not be on display.
pub open spec fn results_view(results: Option<Vec<DirectoryPath>>) -> Option<Seq<PathModel>> {
    match results {
        Some(paths) => Some(paths_view(paths@)),
        None => None,
    }
}

/// The value of a rename that may or may not be in progress.
pub open spec fn rename_view(rename: Option<RenameIntent>) -> Option<RenameModel> {
    match rename {
        Some(intent) => Some(intent@),
        None => None,
    }
}

/// The value of a session record that may or may not exist.
pub open spec fn session_view(session: Option<SearchSession>) -> Option<SessionModel> {
    match session {
        Some(session) => Some(session@),
        None => None,
    }
}

/// A browser session. Its value is a [`BrowserModel`], which is well formed
/// at all times.
#[derive(Debug)]
pub struct MyExplorerApp {
    current_dir: DirectoryPath,
    entries: Vec<Entry>,
    recursive_search_results: Option<Vec<DirectoryPath>>,
    rename: Option<RenameIntent>,
    show_search_popup: bool,
    search_query: String,
    session: Option<SearchSession>,
    next_handle: u64,
}

impl View for MyExplorerApp {
    type V = BrowserModel;

    closed spec fn view(&self) -> BrowserModel {
        BrowserModel {
            current_dir: self.current_dir@,
            entries: entries_view(self.entries@),
            results: results_view(self.recursive_search_results),
            rename: rename_view(self.rename),
            show_search_popup: self.show_search_popup,
            search_query: self.search_query@,
            session: session_view(self.session),
            next_handle: self.next_handle,
        }
    }
}

impl Default for MyExplorerApp {
    /// A fresh session at the empty relative path.
    fn default() -> (app: MyExplorerApp)
        ensures
            app@ == BrowserModel::initial(PathModel { anchor: Seq::empty(), parts: Seq::empty() }),
    {
        MyExplorerApp::new(DirectoryPath::new(String::new()))
    }
}

impl MyExplorerApp {
    #[verifier::type_invariant]
    spec fn well_formed(self) -> bool {
        self@.well_formed()
    }

    /// A fresh session at `current_dir`. The listing is empty until the
    /// first directory read arrives.
    pub fn new(current_dir: DirectoryPath) -> (app: MyExplorerApp)
        ensures
            app@ == BrowserModel::initial(current_dir@),
            app@.well_formed(),
    {
        let entries: Vec<Entry> = Vec::new();
        assert(entries_view(entries@) =~= Seq::empty());
        MyExplorerApp {
            current_dir,
            entries,
            recursive_search_results: None,
            rename: None,
            show_search_popup: false,
            search_query: String::new(),
            session: None,
            next_handle: 0,
        }
    }

    /// The directory on display.
    pub fn current_dir(&self) -> (path: &DirectoryPath)
        ensures
            path@ == self@.current_dir,
    {
        &self.current_dir
    }

    /// The listing of the current directory, sorted by name.
    pub fn entries(&self) -> (entries: &Vec<Entry>)
        ensures
            entries_view(entries@) == self@.entries,
            sorted_by_name(entries_view(entries@)),
    {
        proof {
            use_type_invariant(self);
        }
        &self.entries
    }

    /// The search result on display, if any.
    pub fn recursive_search_results(&self) -> (results: &Option<Vec<DirectoryPath>>)
        ensures
            results_view(*results) == self@.results,
    {
        &self.recursive_search_results
    }

    /// The rename in progress, if any.
    pub fn rename_mode(&self) -> (rename: &Option<RenameIntent>)
        ensures
            rename_view(*rename) == self@.rename,
    {
        &self.rename
    }

    /// Whether the search popup is open.
    pub fn show_search_popup(&self) -> (shown: bool)
        ensures
            shown == self@.show_search_popup,
    {
        self.show_search_popup
    }

    /// The query as typed.
    pub fn search_query(&self) -> (query: &String)
        ensures
            query@ == self@.search_query,
    {
        &self.search_query
    }

    /// The latest search session, if any.
    pub fn session(&self) -> (session: &Option<SearchSession>)
        ensures
            session_view(*session) == self@.session,
    {
        &self.session
    }

    /// Whether a search is awaited.
    pub fn is_searching(&self) -> (searching: bool)
        ensures
            searching == self@.is_searching(),
            searching ==> self@.results is None,
    {
        proof {
            use_type_invariant(self);
        }
        match &self.session {
            Some(session) => session.is_running(),
            None => false,
        }
    }

    /// The handle to poll: that of the search that is awaited, if any.
    pub fn active_handle(&self) -> (handle: Option<u64>)
        ensures
            handle is Some == self@.is_searching(),
            handle matches Some(id) ==> self@.session->0.id == id,
    {
        match &self.session {
            Some(session) => {
                if session.is_running() {
                    Some(session.id())
                } else {
                    None
                }
            },
            None => None,
        }
    }

    /// The session record with interest in the search given up.
    fn abandoned_session(&self) -> (session: Option<SearchSession>)
        ensures
            session_view(session) == self@.abandoned_session(),
    {
        match &self.session {
            Some(session) => {
                let mut given_up = session.clone();
                given_up.cancel();
                Some(given_up)
            },
            None => None,
        }
    }

    /// Moves to `path`: empty listing, no search, no rename.
    fn enter(&mut self, path: DirectoryPath)
        ensures
            final(self)@ == old(self)@.entered(path@),
    {
        proof {
            use_type_invariant(&*self);
        }
        let session = self.abandoned_session();
        let entries: Vec<Entry> = Vec::new();
        assert(entries_view(entries@) =~= Seq::empty());
        self.recursive_search_results = None;
        self.session = session;
        self.rename = None;
        self.entries = entries;
        self.current_dir = path;
    }

    /// Takes the outcome of reading the current directory. On success the
    /// listing is rebuilt from the items, sorted by name; on failure it is
    /// emptied and the failure is handed back for reporting. Either way a
    /// rename in progress ends, and the search is left alone.
    pub fn read_current_directory_entries(&mut self, read: Result<Vec<DirItem>, IoError>) -> (action:
        Action)
        ensures
            old(self)@.directory_read(read_view(read), final(self)@, action@),
    {
        proof {
            use_type_invariant(&*self);
        }
        self.rename = None;
        match list(&read) {
            Ok(entries) => {
                self.entries = entries;
                Action::Idle
            },
            Err(failure) => {
                let entries: Vec<Entry> = Vec::new();
                assert(entries_view(entries@) =~= Seq::empty());
                self.entries = entries;
                Action::Report { failure: Failure::Listing(failure) }
            },
        }
    }

    /// Takes the outcome of probing the entry `entry_name` of the current
    /// directory. A directory is entered and its read is due; anything else
    /// changes nothing.
    pub fn navigate_to(&mut self, entry_name: &str, is_dir: bool) -> (action: Action)
        ensures
            (final(self)@, action@) == old(self)@.navigate_to(entry_name@, is_dir),
    {
        if is_dir {
            let target = self.current_dir.join(entry_name);
            let path = target.clone();
            self.enter(target);
            Action::ReadDirectory { path }
        } else {
            Action::Idle
        }
    }

    /// Goes to the parent directory, whose read is then due. Where the
    /// current directory has no parent nothing changes.
    pub fn navigate_up(&mut self) -> (action: Action)
        ensures
            (final(self)@, action@) == old(self)@.navigate_up(),
    {
        match self.current_dir.parent() {
            Some(up) => {
                let path = up.clone();
                self.enter(up);
                Action::ReadDirectory { path }
            },
            None => Action::Idle,
        }
    }

    /// Takes the outcome of probing a search result. A directory is entered,
    /// which takes the results off display; a file goes to the system and
    /// the results stay.
    pub fn open_search_result(&mut self, path: DirectoryPath, is_dir: bool) -> (action: Action)
        ensures
            (final(self)@, action@) == old(self)@.open_search_result(path@, is_dir),
    {
        if is_dir {
            let target = path.clone();
            self.enter(target);
            Action::ReadDirectory { path }
        } else {
            Action::OpenFile { path }
        }
    }

    /// Takes the outcome of a rename: a reload of the current directory is
    /// due on success, a report on failure. The state is not touched.
    pub fn rename_entry(&self, outcome: Result<(), IoError>) -> (action: Action)
        ensures
            action@ == self@.rename_entry(outcome),
    {
        match outcome {
            Ok(_) => Action::ReadDirectory { path: self.current_dir.clone() },
            Err(failure) => Action::Report { failure: Failure::Rename(failure) },
        }
    }

    /// Takes the outcome of a delete: a reload of the current directory is
    /// due on success, a report on failure. The state is not touched.
    pub fn delete_entry(&self, outcome: Result<(), IoError>) -> (action: Action)
        ensures
            action@ == self@.delete_entry(outcome),
    {
        match outcome {
            Ok(_) => Action::ReadDirectory { path: self.current_dir.clone() },
            Err(failure) => Action::Report { failure: Failure::Delete(failure) },
        }
    }

    /// Starts a search for the typed query over the current directory. The
    /// query is put in lowercase; if it is empty, before or after that, no
    /// search starts and none stays active. Otherwise the results on display
    /// are cleared, a session opens under a handle never used before,
    /// superseding the session before it, and the walk is due.
    pub fn execute_search(&mut self) -> (action: Action)
        ensures
            (final(self)@, action@) == old(self)@.execute_search(),
    {
        proof {
            use_type_invariant(&*self);
        }
        let query_lower = to_lowercase(self.search_query.as_str());
        if self.search_query.as_str().is_empty() || query_lower.as_str().is_empty() {
            let session = self.abandoned_session();
            self.recursive_search_results = None;
            self.session = session;
            Action::Idle
        } else if self.next_handle == u64::MAX {
            Action::Idle
        } else {
            let handle: u64 = self.next_handle;
            let session = SearchSession::start(handle, query_lower.clone());
            self.recursive_search_results = None;
            self.next_handle = handle + 1;
            self.session = Some(session);
            Action::StartWalk { handle, start: self.current_dir.clone(), query_lower }
        }
    }

    /// Takes a non-blocking look at the delivery slot of `handle`. While the
    /// session with that handle is awaited, an arrived result goes on
    /// display and the session becomes delivered; a worker that went away
    /// without sending counts as an empty result. A look under any other
    /// handle, or after delivery, changes nothing. Returns whether a result
    /// was handed over.
    pub fn poll_search(&mut self, handle: u64, delivery: Delivery) -> (delivered: bool)
        ensures
            final(self)@ == old(self)@.poll_search(handle, delivery@),
            delivered == old(self)@.delivers(handle, delivery@),
    {
        proof {
            use_type_invariant(&*self);
        }
        let mut polled: Option<SearchSession> = None;
        match &self.session {
            Some(session) => {
                if session.id() == handle {
                    polled = Some(session.clone());
                }
            },
            None => {},
        }
        match polled {
            Some(session) => {
                let mut session = session;
                match session.poll(delivery) {
                    PollOutcome::Ready(paths) => {
                        self.session = Some(session);
                        self.recursive_search_results = Some(paths);
                        true
                    },
                    PollOutcome::Pending => false,
                }
            },
            None => false,
        }
    }

    /// The search popup's "Cancel": results off display, interest in the
    /// search given up, popup closed.
    pub fn cancel_search(&mut self)
        ensures
            final(self)@ == old(self)@.cancel_search(),
    {
        proof {
            use_type_invariant(&*self);
        }
        let session = self.abandoned_session();
        self.recursive_search_results = None;
        self.session = session;
        self.show_search_popup = false;
    }

    /// The directory view's "Search": the popup opens with an empty query.
    pub fn open_search_popup(&mut self)
        ensures
            final(self)@ == old(self)@.open_search_popup(),
    {
        proof {
            use_type_invariant(&*self);
        }
        self.show_search_popup = true;
        self.search_query = String::new();
        self.recursive_search_results = None;
    }

    /// The popup's "Search": ignored while a search is awaited; otherwise
    /// the search starts and the popup closes.
    pub fn submit_search(&mut self) -> (action: Action)
        ensures
            (final(self)@, action@) == old(self)@.submit_search(),
    {
        if self.is_searching() {
            Action::Idle
        } else {
            let action = self.execute_search();
            proof {
                use_type_invariant(&*self);
            }
            self.show_search_popup = false;
            action
        }
    }

    /// Replaces the typed query.
    pub fn set_search_query(&mut self, text: String)
        ensures
            final(self)@ == old(self)@.edit_query(text@),
    {
        proof {
            use_type_invariant(&*self);
        }
        self.search_query = text;
    }

    /// Opens an entry of the directory view: a directory is to be probed, a
    /// file goes to the system. Nothing is due while results are on display
    /// or where `index` names no entry.
    pub fn activate_entry(&self, index: usize) -> (action: Action)
        ensures
            action@ == self@.activate_entry(index),
    {
        if self.recursive_search_results.is_none() && index < self.entries.len() {
            let entry = &self.entries[index];
            let path = self.current_dir.join(entry.name.as_str());
            if entry.is_directory() {
                Action::ProbeEntry { name: entry.name.clone(), path }
            } else {
                Action::OpenFile { path }
            }
        } else {
            Action::Idle
        }
    }

    /// Asks for the entry at `index` of the directory view to be deleted.
    pub fn request_delete(&self, index: usize) -> (action: Action)
        ensures
            action@ == self@.request_delete(index),
    {
        if self.recursive_search_results.is_none() && index < self.entries.len() {
            Action::Delete {
                dir: self.current_dir.clone(),
                name: self.entries[index].name.clone(),
            }
        } else {
            Action::Idle
        }
    }

    /// Starts renaming the entry at `index` of the directory view: the
    /// editor opens on the entry's name.
    pub fn begin_rename(&mut self, index: usize)
        ensures
            final(self)@ == old(self)@.begin_rename(index),
    {
        proof {
            use_type_invariant(&*self);
        }
        if self.recursive_search_results.is_none() && index < self.entries.len() {
            let target = self.entries[index].name.clone();
            let proposed = target.clone();
            self.rename = Some(RenameIntent { target, proposed });
        }
    }

    /// Replaces the text of the rename editor, while it is open.
    pub fn set_rename_input(&mut self, text: String)
        ensures
            final(self)@ == old(self)@.edit_rename(text@),
    {
        proof {
            use_type_invariant(&*self);
        }
        let mut edited: Option<RenameIntent> = None;
        match &self.rename {
            Some(intent) => {
                edited = Some(RenameIntent { target: intent.target.clone(), proposed: text });
            },
            None => {},
        }
        match edited {
            Some(intent) => {
                self.rename = Some(intent);
            },
            None => {},
        }
    }

    /// Enter in the rename editor: the editor closes, and a non-empty name
    /// is sent off to be applied.
    pub fn confirm_rename(&mut self) -> (action: Action)
        ensures
            (final(self)@, action@) == old(self)@.confirm_rename(),
    {
        proof {
            use_type_invariant(&*self);
        }
        let mut action = Action::Idle;
        match &self.rename {
            Some(intent) => {
                if !intent.proposed.as_str().is_empty() {
                    action =
                    Action::Rename {
                        dir: self.current_dir.clone(),
                        old_name: intent.target.clone(),
                        new_name: intent.proposed.clone(),
                    };
                }
            },
            None => {},
        }
        self.rename = None;
        action
    }

    /// "Cancel" in the rename editor.
    pub fn cancel_rename(&mut self)
        ensures
            final(self)@ == old(self)@.cancel_rename(),
    {
        proof {
            use_type_invariant(&*self);
        }
        self.rename = None;
    }

    /// Opens the search result at `index`: it is to be probed.
    pub fn activate_result(&self, index: usize) -> (action: Action)
        ensures
            action@ == self@.activate_result(index),
    {
        match &self.recursive_search_results {
            Some(paths) => {
                if index < paths.len() {
                    Action::ProbeResult { path: paths[index].clone() }
                } else {
                    Action::Idle
                }
            },
            None => Action::Idle,
        }
    }

    /// Shows the search result at `index` in the system's file manager.
    pub fn reveal_result(&self, index: usize) -> (action: Action)
        ensures
            action@ == self@.reveal_result(index),
    {
        match &self.recursive_search_results {
            Some(paths) => {
                if index < paths.len() {
                    Action::Reveal { path: paths[index].clone() }
                } else {
                    Action::Idle
                }
            },
            None => Action::Idle,
        }
    }

    /// Advances the session by one event and says what outside work is due.
    /// Gestures on the directory view are ignored while search results are
    /// on display, and gestures on results while none are.
    pub fn update(&mut self, event: Event) -> (action: Action)
        ensures
            old(self)@.steps_to(event@, final(self)@, action@),
            final(self)@.well_formed(),
    {
        let action = match event {
            Event::UpPressed => self.navigate_up(),
            Event::EntryActivated { index } => self.activate_entry(index),
            Event::DeletePressed { index } => self.request_delete(index),
            Event::RenamePressed { index } => {
                self.begin_rename(index);
                Action::Idle
            },
            Event::RenameEdited { text } => {
                self.set_rename_input(text);
                Action::Idle
            },
            Event::RenameConfirmed => self.confirm_rename(),
            Event::RenameCancelled => {
                self.cancel_rename();
                Action::Idle
            },
            Event::SearchPressed => {
                self.open_search_popup();
                Action::Idle
            },
            Event::QueryEdited { text } => {
                self.set_search_query(text);
                Action::Idle
            },
            Event::SearchSubmitted => self.submit_search(),
            Event::SearchCancelled => {
                self.cancel_search();
                Action::Idle
            },
            Event::ResultActivated { index } => self.activate_result(index),
            Event::ResultRevealed { index } => self.reveal_result(index),
            Event::EntryProbed { name, is_dir } => self.navigate_to(name.as_str(), is_dir),
            Event::ResultProbed { path, is_dir } => self.open_search_result(path, is_dir),
            Event::DirectoryRead { read } => self.read_current_directory_entries(read),
            Event::RenameFinished { outcome } => self.rename_entry(outcome),
            Event::DeleteFinished { outcome } => self.delete_entry(outcome),
            Event::SearchPolled { handle, delivery } => {
                self.poll_search(handle, delivery);
                Action::Idle
            },
        };
        proof {
            use_type_invariant(&*self);
        }
        action
    }
}

} // verus!
