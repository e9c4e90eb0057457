//! The lifecycle of one search: started, polled without blocking, and
//! delivered at most once.

use crate::path::{paths_view, DirectoryPath, PathModel};
use vstd::prelude::*;

verus! {

/// Where a search session stands.
#[derive(Clone, Copy, Debug, PartialEq, Eq, Structural)]
pub enum SessionStatus {
    /// The walk is under way and its result is awaited.
    Running,
    /// The result was handed over; the session has nothing more to give.
    Delivered,
    /// Interest in the result was given up. The walk is not interrupted;
    /// whatever it sends later is dropped.
    Cancelled,
}

/// What a non-blocking look at a session's delivery slot found.
#[derive(Debug, PartialEq, Eq)]
pub enum Delivery {
    /// Nothing has arrived yet.
    Pending,
    /// The walk's complete result.
    Ready(Vec<DirectoryPath>),
    /// The worker ended without sending anything.
    Disconnected,
}

/// The mathematical value of a [`Delivery`].
pub enum DeliveryModel {
    Pending,
    Ready(Seq<PathModel>),
    Disconnected,
}

impl View for Delivery {
    type V = DeliveryModel;

    open spec fn view(&self) -> DeliveryModel {
        match self {
            Delivery::Pending => DeliveryModel::Pending,
            Delivery::Ready(paths) => DeliveryModel::Ready(paths_view(paths@)),
            Delivery::Disconnected => DeliveryModel::Disconnected,
        }
    }
}

/// What polling a session gives: still pending, or the result, once.
#[derive(Debug, PartialEq, Eq)]
pub enum PollOutcome {
    Pending,
    Ready(Vec<DirectoryPath>),
}

/// The mathematical value of a [`PollOutcome`].
pub enum PollModel {
    Pending,
    Ready(Seq<PathModel>),
}

impl View for PollOutcome {
    type V = PollModel;

    open spec fn view(&self) -> PollModel {
        match self {
            PollOutcome::Pending => PollModel::Pending,
            PollOutcome::Ready(paths) => PollModel::Ready(paths_view(paths@)),
        }
    }
}

/// One search request: its handle, its lowercase query and its status.
#[derive(Debug, PartialEq, Eq)]
pub struct SearchSession {
    id: u64,
    query: String,
    status: SessionStatus,
}

/// The mathematical value of a [`SearchSession`].
pub struct SessionModel {
    pub id: u64,
    pub query: Seq<char>,
    pub status: SessionStatus,
}

impl SessionModel {
    /// A session as it is right after its start.
    pub open spec fn started(id: u64, query: Seq<char>) -> SessionModel {
        SessionModel { id, query, status: SessionStatus::Running }
    }

    /// The result is still awaited.
    pub open spec fn is_running(self) -> bool {
        self.status is Running
    }

    /// What the result is once the slot has something to give: the paths
    /// that arrived, or no paths where the worker went away without sending.
    pub open spec fn arrived(delivery: DeliveryModel) -> Option<Seq<PathModel>> {
        match delivery {
            DeliveryModel::Pending => None,
            DeliveryModel::Ready(paths) => Some(paths),
            DeliveryModel::Disconnected => Some(Seq::empty()),
        }
    }

    /// What a poll returns: the arrived result while the session is
    /// running, and nothing in every other case.
    pub open spec fn poll_outcome(self, delivery: DeliveryModel) -> PollModel {
        match Self::arrived(delivery) {
            Some(paths) => if self.is_running() {
                PollModel::Ready(paths)
            } else {
                PollModel::Pending
            },
            None => PollModel::Pending,
        }
    }

    /// The session after a poll: delivered once a running session hands its
    /// result over, unchanged otherwise.
    pub open spec fn polled(self, delivery: DeliveryModel) -> SessionModel {
        if self.poll_outcome(delivery) is Ready {
            SessionModel { status: SessionStatus::Delivered, ..self }
        } else {
            self
        }
    }

    /// The session after interest in it was given up.
    pub open spec fn cancelled(self) -> SessionModel {
        if self.is_running() {
            SessionModel { status: SessionStatus::Cancelled, ..self }
        } else {
            self
        }
    }
}

/// A session delivers at most once: after a poll that handed the result
/// over, every further poll is pending and leaves the session as it is,
/// whatever the slot holds.
pub proof fn lemma_no_double_delivery(
    session: SessionModel,
    first: DeliveryModel,
    second: DeliveryModel,
)
    requires
        session.poll_outcome(first) is Ready,
    ensures
        session.polled(first).status is Delivered,
        session.polled(first).poll_outcome(second) is Pending,
        session.polled(first).polled(second) == session.polled(first),
{
}

/// A session that was given up never delivers.
pub proof fn lemma_cancelled_never_delivers(session: SessionModel, delivery: DeliveryModel)
    ensures
        session.cancelled().poll_outcome(delivery) is Pending,
        session.cancelled().polled(delivery) == session.cancelled(),
{
}

impl View for SearchSession {
    type V = SessionModel;

    closed spec fn view(&self) -> SessionModel {
        SessionModel { id: self.id, query: self.query@, status: self.status }
    }
}

impl Clone for SearchSession {
    fn clone(&self) -> (copy: Self)
        ensures
            copy@ == self@,
    {
        SearchSession { id: self.id, query: self.query.clone(), status: self.status }
    }
}

impl SearchSession {
    /// Opens a session for `query` under the handle `id`.
    pub fn start(id: u64, query: String) -> (session: SearchSession)
        ensures
            session@ == SessionModel::started(id, query@),
    {
        SearchSession { id, query, status: SessionStatus::Running }
    }

    /// The handle under which the session's deliveries arrive.
    pub fn id(&self) -> (id: u64)
        ensures
            id == self@.id,
    {
        self.id
    }

    /// The query, in lowercase.
    pub fn query(&self) -> (query: &String)
        ensures
            query@ == self@.query,
    {
        &self.query
    }

    /// Where the session stands.
    pub fn status(&self) -> (status: SessionStatus)
        ensures
            status == self@.status,
    {
        self.status
    }

    /// Whether the result is still awaited.
    pub fn is_running(&self) -> (running: bool)
        ensures
            running == self@.is_running(),
    {
        match self.status {
            SessionStatus::Running => true,
            _ => false,
        }
    }

    /// Takes the outcome of a non-blocking look at the delivery slot. A
    /// running session hands over what arrived and becomes delivered; a
    /// disconnected slot counts as an empty result. A session that is no
    /// longer running gives nothing.
    pub fn poll(&mut self, delivery: Delivery) -> (outcome: PollOutcome)
        ensures
            outcome@ == old(self)@.poll_outcome(delivery@),
            final(self)@ == old(self)@.polled(delivery@),
    {
        if !self.is_running() {
            return PollOutcome::Pending;
        }
        match delivery {
            Delivery::Pending => PollOutcome::Pending,
            Delivery::Ready(paths) => {
                self.status = SessionStatus::Delivered;
                PollOutcome::Ready(paths)
            },
            Delivery::Disconnected => {
                self.status = SessionStatus::Delivered;
                let paths: Vec<DirectoryPath> = Vec::new();
                assert(paths_view(paths@) =~= Seq::empty());
                PollOutcome::Ready(paths)
            },
        }
    }

    /// Gives up interest in the result of a running session.
    pub fn cancel(&mut self)
        ensures
            final(self)@ == old(self)@.cancelled(),
    {
        if self.is_running() {
            self.status = SessionStatus::Cancelled;
        }
    }
}

} // verus!
