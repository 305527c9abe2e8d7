//! The event vocabulary of the adapter: change kinds, delivered events, raw
//! notification batches, observation errors, the forwarding policy, and the
//! outcome of one non-blocking poll.

use vstd::prelude::*;

verus! {

/// Classification of a filesystem change, as reported by the notification
/// source. The classification is opaque to the adapter: it is carried along
/// and, at most, used by the filtering policy.
#[derive(Clone, Copy, PartialEq, Eq, Structural, Debug)]
pub enum EventKind {
    Create,
    Modify,
    Remove,
    Other,
}

/// Mathematical model of a delivered event: the affected path and its kind.
pub ghost struct EventModel {
    pub path: Seq<char>,
    pub kind: EventKind,
}

/// One change event handed to the consumer: the affected path and its kind.
#[derive(Clone, Debug)]
pub struct WatchEvent {
    pub path: String,
    pub kind: EventKind,
}

impl View for WatchEvent {
    type V = EventModel;

    open spec fn view(&self) -> EventModel {
        EventModel { path: self.path@, kind: self.kind }
    }
}

/// Mathematical model of one raw notification batch.
pub ghost struct NotificationModel {
    pub paths: Seq<Seq<char>>,
    pub kind: EventKind,
}

/// One raw notification batch from the source: the affected paths, in the
/// order the source reported them, and one kind for the whole batch.
#[derive(Debug)]
pub struct Notification {
    pub paths: Vec<String>,
    pub kind: EventKind,
}

impl View for Notification {
    type V = NotificationModel;

    open spec fn view(&self) -> NotificationModel {
        NotificationModel { paths: self.paths@.map_values(|p: String| p@), kind: self.kind }
    }
}

/// A failure of the observation mechanism itself, reported asynchronously
/// through the callback. It is never forwarded to the consumer.
#[derive(Debug)]
pub struct ObservationError {
    pub detail: String,
}

impl View for ObservationError {
    type V = Seq<char>;

    open spec fn view(&self) -> Seq<char> {
        self.detail@
    }
}

/// Model of the argument of one callback invocation: a notification batch, or
/// a source-level error.
pub open spec fn callback_model(res: Result<Notification, ObservationError>) -> Result<
    NotificationModel,
    Seq<char>,
> {
    match res {
        Ok(n) => Ok(n@),
        Err(e) => Err(e@),
    }
}

/// Which notification batches the adapter forwards onto the queue. The policy
/// is fixed when the adapter is constructed; forwarding everything and letting
/// the consumer filter keeps the most information.
#[derive(Clone, Copy, PartialEq, Eq, Structural, Debug)]
pub enum FilterPolicy {
    /// Forward batches of every kind unfiltered.
    ForwardAll,
    /// Forward only modify-classified batches; discard the rest.
    ModifyOnly,
}

impl FilterPolicy {
    /// Whether this policy lets a batch of the given kind through.
    pub open spec fn admits(self, kind: EventKind) -> bool {
        match self {
            FilterPolicy::ForwardAll => true,
            FilterPolicy::ModifyOnly => kind == EventKind::Modify,
        }
    }

    /// Executable form of `admits`.
    pub fn admits_exec(&self, kind: EventKind) -> (r: bool)
        ensures
            r == self.admits(kind),
    {
        match self {
            FilterPolicy::ForwardAll => true,
            FilterPolicy::ModifyOnly => kind == EventKind::Modify,
        }
    }
}

/// Mathematical model of one poll outcome.
pub ghost enum PollModel {
    Event(EventModel),
    Empty,
    Closed,
}

/// Outcome of one non-blocking poll of the consumer endpoint.
#[derive(Debug)]
pub enum Poll {
    /// One event was pending; it is removed from the queue and handed out.
    Event(WatchEvent),
    /// The queue is empty, but the producer side may still deliver.
    Empty,
    /// The queue is empty and the producer side is gone for good.
    Closed,
}

impl View for Poll {
    type V = PollModel;

    open spec fn view(&self) -> PollModel {
        match self {
            Poll::Event(e) => PollModel::Event(e@),
            Poll::Empty => PollModel::Empty,
            Poll::Closed => PollModel::Closed,
        }
    }
}

} // verus!
