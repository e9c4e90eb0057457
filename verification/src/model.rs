//! The browser session as a mathematical state machine: the state, one
//! function per transition, and the laws that hold of every run.

use crate::action::{ActionModel, EventModel, Failure};
use crate::entry::{DirItemModel, EntryModel, IoError};
use crate::lister::{is_listing_of, sorted_by_name};
use crate::path::PathModel;
use crate::session::{DeliveryModel, PollModel, SessionModel};
use crate::text::lowercase_of;
use vstd::prelude::*;

verus! {

/// An entry being renamed: the name it has and the name typed so far.
pub struct RenameModel {
    pub target: Seq<char>,
    pub proposed: Seq<char>,
}

/// The state of a browser session.
#[verifier::ext_equal]
pub struct BrowserModel {
    /// The directory on display.
    pub current_dir: PathModel,
    /// Its listing, as last read.
    pub entries: Seq<EntryModel>,
    /// The result of the last delivered search, while it is on display.
    pub results: Option<Seq<PathModel>>,
    /// The rename in progress, if any.
    pub rename: Option<RenameModel>,
    pub show_search_popup: bool,
    /// The query as typed.
    pub search_query: Seq<char>,
    /// The latest search session, if one was started since the last reset.
    pub session: Option<SessionModel>,
    /// The handle that the next search will get.
    pub next_handle: u64,
}

impl BrowserModel {
    /// A fresh session at `current_dir`, before its first directory read.
    pub open spec fn initial(current_dir: PathModel) -> BrowserModel {
        BrowserModel {
            current_dir,
            entries: Seq::empty(),
            results: None,
            rename: None,
            show_search_popup: false,
            search_query: Seq::empty(),
            session: None,
            next_handle: 0,
        }
    }

    /// A search is awaited.
    pub open spec fn is_searching(self) -> bool {
        self.session matches Some(session) && session.is_running()
    }

    /// Search results are on display, in place of the directory view.
    pub open spec fn shows_results(self) -> bool {
        self.results is Some
    }

    /// Whether the listing holds an entry called `name`.
    pub open spec fn lists(self, name: Seq<char>) -> bool {
        exists|i: int| 0 <= i < self.entries.len() && (#[trigger] self.entries[i]).name == name
    }

    /// What holds of every reachable state: the listing is sorted, every
    /// handle handed out so far lies below the next one, no session has an
    /// empty query, while a search is awaited no earlier result is on
    /// display, and a rename in progress is that of a listed entry.
    pub open spec fn well_formed(self) -> bool {
        &&& sorted_by_name(self.entries)
        &&& (self.session matches Some(session) ==> session.id < self.next_handle)
        &&& (self.session matches Some(session) ==> session.query.len() > 0)
        &&& (self.is_searching() ==> self.results is None)
        &&& (self.rename matches Some(intent) ==> self.lists(intent.target))
    }

    /// The session record after interest in the search was given up.
    pub open spec fn abandoned_session(self) -> Option<SessionModel> {
        match self.session {
            Some(session) => Some(session.cancelled()),
            None => None,
        }
    }

    /// The state after moving to `path`: the listing is empty until the
    /// directory is read, and search and rename are given up.
    pub open spec fn entered(self, path: PathModel) -> BrowserModel {
        BrowserModel {
            current_dir: path,
            entries: Seq::empty(),
            results: None,
            rename: None,
            session: self.abandoned_session(),
            ..self
        }
    }

    /// Go to the parent directory, where there is one.
    pub open spec fn navigate_up(self) -> (BrowserModel, ActionModel) {
        if self.current_dir.has_parent() {
            let up = self.current_dir.parent();
            (self.entered(up), ActionModel::ReadDirectory { path: up })
        } else {
            (self, ActionModel::Idle)
        }
    }

    /// Go into the entry `name` of the current directory, where the probe
    /// found it to be a directory.
    pub open spec fn navigate_to(self, name: Seq<char>, is_dir: bool) -> (
        BrowserModel,
        ActionModel,
    ) {
        if is_dir {
            let target = self.current_dir.child(name);
            (self.entered(target), ActionModel::ReadDirectory { path: target })
        } else {
            (self, ActionModel::Idle)
        }
    }

    /// Follow a search result: into it where the probe found a directory,
    /// else hand the file to the system and keep the results on display.
    pub open spec fn open_search_result(self, path: PathModel, is_dir: bool) -> (
        BrowserModel,
        ActionModel,
    ) {
        if is_dir {
            (self.entered(path), ActionModel::ReadDirectory { path })
        } else {
            (self, ActionModel::OpenFile { path })
        }
    }

    /// The state after a directory reload gave `entries`. A reload ends a
    /// rename in progress and leaves the search alone.
    pub open spec fn listed(self, entries: Seq<EntryModel>) -> BrowserModel {
        BrowserModel { entries, rename: None, ..self }
    }

    /// A directory read came back: on success the listing of its items is
    /// shown, on failure the empty listing, and the failure is reported.
    pub open spec fn directory_read(
        self,
        read: Result<Seq<DirItemModel>, IoError>,
        next: BrowserModel,
        action: ActionModel,
    ) -> bool {
        match read {
            Ok(items) => {
                &&& next == self.listed(next.entries)
                &&& is_listing_of(next.entries, items)
                &&& action == ActionModel::Idle
            },
            Err(failure) => {
                &&& next == self.listed(Seq::empty())
                &&& action == (ActionModel::Report { failure: Failure::Listing(failure) })
            },
        }
    }

    /// What follows a rename: a reload on success, a report on failure.
    pub open spec fn rename_entry(self, outcome: Result<(), IoError>) -> ActionModel {
        match outcome {
            Ok(_) => ActionModel::ReadDirectory { path: self.current_dir },
            Err(failure) => ActionModel::Report { failure: Failure::Rename(failure) },
        }
    }

    /// What follows a delete: a reload on success, a report on failure.
    pub open spec fn delete_entry(self, outcome: Result<(), IoError>) -> ActionModel {
        match outcome {
            Ok(_) => ActionModel::ReadDirectory { path: self.current_dir },
            Err(failure) => ActionModel::Report { failure: Failure::Delete(failure) },
        }
    }

    /// Start a search for the typed query, in lowercase. A query that is
    /// empty, as typed or in lowercase, starts nothing and leaves no search
    /// active. A new search supersedes the one before it and clears the
    /// results on display. At the end of the handle space nothing starts and
    /// nothing changes.
    pub open spec fn execute_search(self) -> (BrowserModel, ActionModel) {
        let query = lowercase_of(self.search_query);
        if self.search_query.len() == 0 || query.len() == 0 {
            (
                BrowserModel { results: None, session: self.abandoned_session(), ..self },
                ActionModel::Idle,
            )
        } else if self.next_handle == u64::MAX {
            (self, ActionModel::Idle)
        } else {
            (
                BrowserModel {
                    results: None,
                    session: Some(SessionModel::started(self.next_handle, query)),
                    next_handle: (self.next_handle + 1) as u64,
                    ..self
                },
                ActionModel::StartWalk {
                    handle: self.next_handle,
                    start: self.current_dir,
                    query_lower: query,
                },
            )
        }
    }

    /// Whether a look at the delivery slot of `handle` hands a result over:
    /// the session with that handle is awaited and something has arrived.
    pub open spec fn delivers(self, handle: u64, delivery: DeliveryModel) -> bool {
        self.session matches Some(session) && session.id == handle && session.poll_outcome(
            delivery,
        ) is Ready
    }

    /// A look at the delivery slot of `handle`. Only the running session's
    /// own handle is listened to: what it delivers goes on display and the
    /// session becomes delivered. Everything else is dropped.
    pub open spec fn poll_search(self, handle: u64, delivery: DeliveryModel) -> BrowserModel {
        match self.session {
            Some(session) => if session.id == handle {
                match session.poll_outcome(delivery) {
                    PollModel::Ready(paths) => BrowserModel {
                        results: Some(paths),
                        session: Some(session.polled(delivery)),
                        ..self
                    },
                    PollModel::Pending => self,
                }
            } else {
                self
            },
            None => self,
        }
    }

    /// The search popup's "Cancel": no results, no search, popup closed.
    pub open spec fn cancel_search(self) -> BrowserModel {
        BrowserModel {
            results: None,
            session: self.abandoned_session(),
            show_search_popup: false,
            ..self
        }
    }

    /// The directory view's "Search": the popup opens with an empty query.
    pub open spec fn open_search_popup(self) -> BrowserModel {
        BrowserModel { show_search_popup: true, search_query: Seq::empty(), results: None, ..self }
    }

    /// The popup's "Search": while a search is awaited nothing happens;
    /// otherwise the search starts and the popup closes.
    pub open spec fn submit_search(self) -> (BrowserModel, ActionModel) {
        if self.is_searching() {
            (self, ActionModel::Idle)
        } else {
            let (started, action) = self.execute_search();
            (BrowserModel { show_search_popup: false, ..started }, action)
        }
    }

    /// Whether `index` names an entry of the directory view.
    pub open spec fn has_entry(self, index: usize) -> bool {
        !self.shows_results() && index < self.entries.len()
    }

    /// Whether `index` names a search result on display.
    pub open spec fn has_result(self, index: usize) -> bool {
        self.results matches Some(paths) && index < paths.len()
    }

    /// Open an entry of the directory view: a directory is probed and then
    /// entered, a file goes to the system.
    pub open spec fn activate_entry(self, index: usize) -> ActionModel {
        if self.has_entry(index) {
            let entry = self.entries[index as int];
            let path = self.current_dir.child(entry.name);
            if entry.kind is Directory {
                ActionModel::ProbeEntry { name: entry.name, path }
            } else {
                ActionModel::OpenFile { path }
            }
        } else {
            ActionModel::Idle
        }
    }

    /// Ask for the entry at `index` to be deleted.
    pub open spec fn request_delete(self, index: usize) -> ActionModel {
        if self.has_entry(index) {
            ActionModel::Delete { dir: self.current_dir, name: self.entries[index as int].name }
        } else {
            ActionModel::Idle
        }
    }

    /// Start renaming the entry at `index`: the editor opens on its name.
    pub open spec fn begin_rename(self, index: usize) -> BrowserModel {
        if self.has_entry(index) {
            let name = self.entries[index as int].name;
            BrowserModel { rename: Some(RenameModel { target: name, proposed: name }), ..self }
        } else {
            self
        }
    }

    /// The rename editor's text changed.
    pub open spec fn edit_rename(self, text: Seq<char>) -> BrowserModel {
        match self.rename {
            Some(intent) => BrowserModel {
                rename: Some(RenameModel { proposed: text, ..intent }),
                ..self
            },
            None => self,
        }
    }

    /// Enter in the rename editor: the editor closes, and a non-empty name
    /// is sent off to be applied.
    pub open spec fn confirm_rename(self) -> (BrowserModel, ActionModel) {
        match self.rename {
            Some(intent) => (
                BrowserModel { rename: None, ..self },
                if intent.proposed.len() > 0 {
                    ActionModel::Rename {
                        dir: self.current_dir,
                        old_name: intent.target,
                        new_name: intent.proposed,
                    }
                } else {
                    ActionModel::Idle
                },
            ),
            None => (self, ActionModel::Idle),
        }
    }

    /// "Cancel" in the rename editor.
    pub open spec fn cancel_rename(self) -> BrowserModel {
        BrowserModel { rename: None, ..self }
    }

    /// The search popup's text changed.
    pub open spec fn edit_query(self, text: Seq<char>) -> BrowserModel {
        BrowserModel { search_query: text, ..self }
    }

    /// Open a search result: it is probed first.
    pub open spec fn activate_result(self, index: usize) -> ActionModel {
        match self.results {
            Some(paths) => if index < paths.len() {
                ActionModel::ProbeResult { path: paths[index as int] }
            } else {
                ActionModel::Idle
            },
            None => ActionModel::Idle,
        }
    }

    /// Show a search result in the system's file manager.
    pub open spec fn reveal_result(self, index: usize) -> ActionModel {
        match self.results {
            Some(paths) => if index < paths.len() {
                ActionModel::Reveal { path: paths[index as int] }
            } else {
                ActionModel::Idle
            },
            None => ActionModel::Idle,
        }
    }

    /// The transition relation: from this state, `event` may lead to `next`
    /// with `action` due. Every event but a successful directory read
    /// determines both; a directory read determines them up to the order of
    /// entries with equal names.
    pub open spec fn steps_to(self, event: EventModel, next: BrowserModel, action: ActionModel) -> bool {
        match event {
            EventModel::UpPressed => (next, action) == self.navigate_up(),
            EventModel::EntryActivated { index } => next == self && action == self.activate_entry(
                index,
            ),
            EventModel::DeletePressed { index } => next == self && action == self.request_delete(
                index,
            ),
            EventModel::RenamePressed { index } => next == self.begin_rename(index) && action
                == ActionModel::Idle,
            EventModel::RenameEdited { text } => next == self.edit_rename(text) && action
                == ActionModel::Idle,
            EventModel::RenameConfirmed => (next, action) == self.confirm_rename(),
            EventModel::RenameCancelled => next == self.cancel_rename() && action
                == ActionModel::Idle,
            EventModel::SearchPressed => next == self.open_search_popup() && action
                == ActionModel::Idle,
            EventModel::QueryEdited { text } => next == self.edit_query(text) && action
                == ActionModel::Idle,
            EventModel::SearchSubmitted => (next, action) == self.submit_search(),
            EventModel::SearchCancelled => next == self.cancel_search() && action
                == ActionModel::Idle,
            EventModel::ResultActivated { index } => next == self && action
                == self.activate_result(index),
            EventModel::ResultRevealed { index } => next == self && action == self.reveal_result(
                index,
            ),
            EventModel::EntryProbed { name, is_dir } => (next, action) == self.navigate_to(
                name,
                is_dir,
            ),
            EventModel::ResultProbed { path, is_dir } => (next, action)
                == self.open_search_result(path, is_dir),
            EventModel::DirectoryRead { read } => self.directory_read(read, next, action),
            EventModel::RenameFinished { outcome } => next == self && action == self.rename_entry(
                outcome,
            ),
            EventModel::DeleteFinished { outcome } => next == self && action == self.delete_entry(
                outcome,
            ),
            EventModel::SearchPolled { handle, delivery } => next == self.poll_search(
                handle,
                delivery,
            ) && action == ActionModel::Idle,
        }
    }

    /// A handle that the session does not listen to: one that was handed
    /// out before, and is not that of a search still awaited.
    pub open spec fn is_stale(self, handle: u64) -> bool {
        &&& handle < self.next_handle
        &&& !(self.session matches Some(session) && session.id == handle && session.is_running())
    }
}

/// A fresh session is well formed.
pub proof fn lemma_initial_is_well_formed(current_dir: PathModel)
    ensures
        BrowserModel::initial(current_dir).well_formed(),
        !BrowserModel::initial(current_dir).is_searching(),
        BrowserModel::initial(current_dir).current_dir == current_dir,
{
}

/// Every step keeps the state well formed, and handles are never reused:
/// the next handle only grows.
pub proof fn lemma_step_preserves_well_formed(
    state: BrowserModel,
    event: EventModel,
    next: BrowserModel,
    action: ActionModel,
)
    requires
        state.well_formed(),
        state.steps_to(event, next, action),
    ensures
        next.well_formed(),
        state.next_handle <= next.next_handle,
{
    assert(sorted_by_name(Seq::<EntryModel>::empty()));
}

/// A search is started only by a step that asks for its walk. The walk is
/// over the current directory, for the typed query in lowercase, which is
/// not empty, and under a handle above every handle handed out before.
pub proof fn lemma_search_starts_with_fresh_handle(
    state: BrowserModel,
    event: EventModel,
    next: BrowserModel,
    action: ActionModel,
)
    requires
        state.well_formed(),
        state.steps_to(event, next, action),
    ensures
        action matches ActionModel::StartWalk { handle, start, query_lower } ==> {
            &&& handle == state.next_handle
            &&& (state.session matches Some(earlier) ==> earlier.id < handle)
            &&& next.session == Some(SessionModel::started(handle, query_lower))
            &&& next.results is None
            &&& start == state.current_dir
            &&& query_lower == lowercase_of(state.search_query)
            &&& query_lower.len() > 0
        },
        (next.is_searching() && !state.is_searching()) ==> action is StartWalk,
{
}

/// The empty query starts no search: no walk is asked for, no search is
/// awaited afterwards, no result is on display, and the rest of the state is
/// as it was.
pub proof fn lemma_empty_query_starts_nothing(state: BrowserModel)
    requires
        state.search_query.len() == 0,
    ensures
        state.execute_search().1 == ActionModel::Idle,
        !state.execute_search().0.is_searching(),
        state.execute_search().0.results is None,
        state.execute_search().0 == (BrowserModel {
            results: None,
            session: state.abandoned_session(),
            ..state
        }),
        state.session is None && state.results is None ==> state.execute_search().0 == state,
{
}

/// A stale handle stays stale whatever happens next.
pub proof fn lemma_stale_handle_stays_stale(
    state: BrowserModel,
    handle: u64,
    event: EventModel,
    next: BrowserModel,
    action: ActionModel,
)
    requires
        state.well_formed(),
        state.is_stale(handle),
        state.steps_to(event, next, action),
    ensures
        next.is_stale(handle),
{
}

/// What arrives under a stale handle is dropped: the state does not change.
pub proof fn lemma_stale_delivery_is_dropped(
    state: BrowserModel,
    handle: u64,
    delivery: DeliveryModel,
)
    requires
        state.is_stale(handle),
    ensures
        !state.delivers(handle, delivery),
        state.poll_search(handle, delivery) == state,
{
}

/// When a search starts while another is awaited, the earlier one's handle
/// turns stale at once. Whatever the earlier worker delivers afterwards,
/// before or after the later search's own delivery, is dropped, and what is
/// on display in the end is the later search's result alone.
pub proof fn lemma_superseded_search_never_shows(
    state: BrowserModel,
    late: DeliveryModel,
    found: Seq<PathModel>,
)
    requires
        state.well_formed(),
        state.is_searching(),
    ensures
        state.execute_search().1 matches ActionModel::StartWalk { handle, .. } ==> {
            let earlier = state.session->0.id;
            let started = state.execute_search().0;
            let delivered = started.poll_search(handle, DeliveryModel::Ready(found));
            &&& handle != earlier
            &&& started.session->0.id == handle
            &&& started.is_searching()
            &&& started.is_stale(earlier)
            &&& started.poll_search(earlier, late) == started
            &&& delivered.results == Some(found)
            &&& delivered.poll_search(earlier, late) == delivered
            &&& started.poll_search(earlier, late).poll_search(
                handle,
                DeliveryModel::Ready(found),
            ).results == Some(found)
        },
{
}

/// A search delivers at most once: after the poll that put its result on
/// display, its handle is stale, and every further poll under it changes
/// nothing.
pub proof fn lemma_poll_delivers_once(
    state: BrowserModel,
    handle: u64,
    first: DeliveryModel,
    second: DeliveryModel,
)
    requires
        state.well_formed(),
        state.delivers(handle, first),
    ensures
        ({
            let delivered = state.poll_search(handle, first);
            &&& !delivered.delivers(handle, second)
            &&& state.is_searching()
            &&& state.session->0.id == handle
            &&& delivered.results == SessionModel::arrived(first)
            &&& !delivered.is_searching()
            &&& delivered.is_stale(handle)
            &&& delivered.poll_search(handle, second) == delivered
        }),
{
}

/// While nothing has arrived a poll changes nothing, and a worker that went
/// away without sending counts as an empty result.
pub proof fn lemma_poll_outcomes(state: BrowserModel, handle: u64)
    requires
        state.is_searching(),
        state.session->0.id == handle,
    ensures
        !state.delivers(handle, DeliveryModel::Pending),
        state.poll_search(handle, DeliveryModel::Pending) == state,
        state.delivers(handle, DeliveryModel::Disconnected),
        state.poll_search(handle, DeliveryModel::Disconnected).results == Some(
            Seq::<PathModel>::empty(),
        ),
        !state.poll_search(handle, DeliveryModel::Disconnected).is_searching(),
{
}

/// Navigation gives up the search: after entering a directory no search is
/// awaited, no result is on display, and the handle of the search that was
/// awaited is stale.
pub proof fn lemma_navigation_discards_search(state: BrowserModel, path: PathModel)
    requires
        state.well_formed(),
    ensures
        !state.entered(path).is_searching(),
        state.entered(path).results is None,
        state.entered(path).rename is None,
        state.entered(path).current_dir == path,
        state.session matches Some(session) ==> state.entered(path).is_stale(session.id),
{
}

} // verus!
