//! What one callback invocation forwards: the forwarding decision of the
//! adapter, as a spec function and as verified executable code.

use vstd::prelude::*;

use crate::event::{
    EventModel, FilterPolicy, Notification, NotificationModel, ObservationError, WatchEvent,
    callback_model,
};

verus! {

/// The events one callback invocation forwards onto the queue: nothing for a
/// source-level error, nothing for a batch whose kind the policy rejects, and
/// otherwise one event per path of the batch, in batch order, all carrying
/// the batch's kind.
pub open spec fn forwarded_model(
    res: Result<NotificationModel, Seq<char>>,
    policy: FilterPolicy,
) -> Seq<EventModel> {
    match res {
        Ok(n) => if policy.admits(n.kind) {
            n.paths.map_values(|p: Seq<char>| EventModel { path: p, kind: n.kind })
        } else {
            Seq::empty()
        },
        Err(_) => Seq::empty(),
    }
}

/// Computes exactly the events that one callback invocation forwards.
pub fn forwarded_events(res: &Result<Notification, ObservationError>, policy: FilterPolicy) -> (r:
    Vec<WatchEvent>)
    ensures
        r@.map_values(|e: WatchEvent| e@) == forwarded_model(callback_model(*res), policy),
{
    let mut out: Vec<WatchEvent> = Vec::new();
    match res {
        Ok(n) => {
            if policy.admits_exec(n.kind) {
                let mut i: usize = 0;
                while i < n.paths.len()
                    invariant
                        i <= n.paths.len(),
                        out@.len() == i,
                        forall|j: int|
                            0 <= j < i ==> (#[trigger] out@[j])@ == (EventModel {
                                path: n.paths@[j]@,
                                kind: n.kind,
                            }),
                    decreases n.paths.len() - i,
                {
                    let path = n.paths[i].clone();
                    out.push(WatchEvent { path, kind: n.kind });
                    i += 1;
                }
            }
        },
        Err(_) => {},
    }
    proof {
        assert(out@.map_values(|e: WatchEvent| e@) =~= forwarded_model(
            callback_model(*res),
            policy,
        ));
    }
    out
}

} // verus!
