//! Glue to the real notification source and queue: the watcher construction,
//! the callback that runs the verified forwarding logic, and the consumer
//! endpoint. Everything that touches the outside crate or the channel stands
//! behind a trusted declaration; the decision of what to forward is the
//! verified code of `forward`.

use vstd::prelude::*;

use crate::event::{EventKind, FilterPolicy, Notification, ObservationError, Poll, WatchEvent};
use crate::forward::forwarded_events;

verus! {

#[verifier::external_type_specification]
#[verifier::external_body]
pub struct ExRecommendedWatcher(notify::RecommendedWatcher);

#[verifier::external_type_specification]
#[verifier::external_body]
pub struct ExNotifyEvent(notify::Event);

#[verifier::external_type_specification]
#[verifier::external_body]
pub struct ExNotifyError(notify::Error);

#[verifier::external_type_specification]
#[verifier::external_body]
#[verifier::reject_recursive_types(T)]
pub struct ExSender<T>(std::sync::mpsc::Sender<T>);

#[verifier::external_type_specification]
#[verifier::external_body]
#[verifier::reject_recursive_types(T)]
pub struct ExReceiver<T>(std::sync::mpsc::Receiver<T>);

/// Relies on `std::sync::mpsc::Sender::send`: it delivers to the receiver
/// while one exists and returns an error once the receiver is gone; that
/// error is swallowed here, by design, so a consumer that went away never
/// disturbs the source's callback thread. Nothing is promised of the shared
/// channel state.
#[verifier::external_body]
fn send_event(tx: &std::sync::mpsc::Sender<WatchEvent>, ev: WatchEvent) {
    let _ = tx.send(ev);
}

/// Relies on the public fields of `notify::Event` (`paths`, `kind`) and on
/// `notify::Error`'s text rendering: converts one raw callback argument into
/// the library's form of it, classifying the kind and turning each path into
/// its text.
#[verifier::external_body]
fn convert_callback(res: Result<notify::Event, notify::Error>) -> (r: Result<
    Notification,
    ObservationError,
>) {
    match res {
        Ok(ev) => {
            let kind = match ev.kind {
                notify::EventKind::Create(_) => EventKind::Create,
                notify::EventKind::Modify(_) => EventKind::Modify,
                notify::EventKind::Remove(_) => EventKind::Remove,
                _ => EventKind::Other,
            };
            let paths = ev.paths.into_iter().map(|p| p.to_string_lossy().into_owned()).collect();
            Ok(Notification { paths, kind })
        },
        Err(e) => Err(ObservationError { detail: e.to_string() }),
    }
}

/// The adapter's callback body: compute the events the policy forwards for
/// this invocation and push each onto the queue, in batch order. A rejected
/// kind or a source-level error forwards nothing, and a send failure is
/// absorbed by `send_event`, so no input ever panics here or stops later
/// deliveries.
pub fn on_callback(
    res: &Result<Notification, ObservationError>,
    policy: FilterPolicy,
    tx: &std::sync::mpsc::Sender<WatchEvent>,
) {
    let evs = forwarded_events(res, policy);
    let mut i: usize = 0;
    while i < evs.len()
        decreases evs.len() - i,
    {
        send_event(tx, evs[i].clone());
        i += 1;
    }
}

/// The consumer endpoint of the adapter's queue.
pub struct EventReceiver {
    rx: std::sync::mpsc::Receiver<WatchEvent>,
}

impl EventReceiver {
    /// Relies on `std::sync::mpsc::Receiver::try_recv`: it never blocks, and
    /// it distinguishes a pending event, an empty queue with a live sender,
    /// and an empty queue whose senders are all gone. Which of the three
    /// comes back depends on the callback thread, so nothing is promised of
    /// the outcome.
    #[verifier::external_body]
    pub fn try_receive(&self) -> (r: Poll) {
        match self.rx.try_recv() {
            Ok(ev) => Poll::Event(ev),
            Err(std::sync::mpsc::TryRecvError::Empty) => Poll::Empty,
            Err(std::sync::mpsc::TryRecvError::Disconnected) => Poll::Closed,
        }
    }
}

/// Relies on `std::sync::mpsc::channel` and `notify::recommended_watcher`:
/// builds the queue, wires the watcher's callback to hand every raw
/// notification through `convert_callback` to the verified `on_callback`,
/// and returns the source handle together with the consumer endpoint.
/// Dropping the handle is the only way to stop delivery. As long as the
/// handle lives, paths are registered on it through `notify::Watcher::watch`.
/// A failure to construct the source at all aborts the process: that failure
/// has no recovery path here.
#[verifier::external_body]
pub fn make_watcher(policy: FilterPolicy) -> (r: (notify::RecommendedWatcher, EventReceiver)) {
    let (tx, rx) = std::sync::mpsc::channel();
    let watcher = notify::recommended_watcher(
        move |res: Result<notify::Event, notify::Error>| {
            on_callback(&convert_callback(res), policy, &tx)
        },
    ).unwrap();
    (watcher, EventReceiver { rx })
}

} // verus!
