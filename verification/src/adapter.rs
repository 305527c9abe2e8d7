//! The adapter's state machine: the joint state of the source side and the
//! queue, its three transitions (a callback delivery, stopping the source,
//! one non-blocking poll), and the laws that hold of them.
//!
//! `Adapter` is the executable form of the machine; `AdapterModel` and the
//! transition functions on it are its mathematical form, and every method of
//! `Adapter` is proved to follow them exactly.

use vstd::prelude::*;

use crate::event::{
    EventKind, EventModel, FilterPolicy, Notification, NotificationModel, ObservationError, Poll,
    PollModel, WatchEvent, callback_model,
};
use crate::forward::{forwarded_events, forwarded_model};

verus! {

/// Joint state of one adapter instance: whether the source side is still
/// live (Active) or stopped, the forwarding policy fixed at construction,
/// and the FIFO queue of pending events.
pub ghost struct AdapterModel {
    pub live: bool,
    pub policy: FilterPolicy,
    pub queue: Seq<EventModel>,
}

/// One callback delivery: a live adapter appends exactly the events the
/// policy forwards for this invocation, in batch order; a stopped adapter
/// is left untouched.
pub open spec fn deliver_model(
    s: AdapterModel,
    res: Result<NotificationModel, Seq<char>>,
) -> AdapterModel {
    if s.live {
        AdapterModel { live: s.live, policy: s.policy, queue: s.queue + forwarded_model(res, s.policy) }
    } else {
        s
    }
}

/// Stopping the source: the one Active-to-Stopped transition. Pending events
/// are kept.
pub open spec fn stop_model(s: AdapterModel) -> AdapterModel {
    AdapterModel { live: false, policy: s.policy, queue: s.queue }
}

/// One non-blocking poll: the first pending event if there is one, `Empty`
/// on an empty queue whose source is still live, and `Closed` on an empty
/// queue whose source is stopped.
pub open spec fn receive_model(s: AdapterModel) -> (PollModel, AdapterModel) {
    if s.queue.len() > 0 {
        (
            PollModel::Event(s.queue.first()),
            AdapterModel { live: s.live, policy: s.policy, queue: s.queue.drop_first() },
        )
    } else if s.live {
        (PollModel::Empty, s)
    } else {
        (PollModel::Closed, s)
    }
}

/// A sequence of callback deliveries, oldest first.
pub open spec fn deliver_seq_model(
    s: AdapterModel,
    inputs: Seq<Result<NotificationModel, Seq<char>>>,
) -> AdapterModel
    decreases inputs.len(),
{
    if inputs.len() == 0 {
        s
    } else {
        deliver_seq_model(deliver_model(s, inputs.first()), inputs.drop_first())
    }
}

/// Everything a consumer that polls until the queue is exhausted receives,
/// in order.
pub open spec fn drain_model(s: AdapterModel) -> Seq<EventModel>
    decreases s.queue.len(),
{
    if s.queue.len() > 0 {
        seq![s.queue.first()] + drain_model(receive_model(s).1)
    } else {
        Seq::empty()
    }
}

/// Every event still queued was admitted by the adapter's policy.
pub open spec fn wf_model(s: AdapterModel) -> bool {
    forall|i: int| 0 <= i < s.queue.len() ==> s.policy.admits(#[trigger] s.queue[i].kind)
}

/// Draining yields exactly the queued events, in queue order.
pub proof fn lemma_drain_is_queue(s: AdapterModel)
    ensures
        drain_model(s) == s.queue,
    decreases s.queue.len(),
{
    if s.queue.len() > 0 {
        lemma_drain_is_queue(receive_model(s).1);
        assert(drain_model(s) =~= s.queue);
    } else {
        assert(drain_model(s) =~= s.queue);
    }
}

/// Deliveries never rewrite history: they keep the source state and the
/// policy, and only append to the queue.
pub proof fn lemma_deliver_seq_extends(
    s: AdapterModel,
    inputs: Seq<Result<NotificationModel, Seq<char>>>,
)
    ensures
        deliver_seq_model(s, inputs).live == s.live,
        deliver_seq_model(s, inputs).policy == s.policy,
        deliver_seq_model(s, inputs).queue.len() >= s.queue.len(),
        forall|k: int|
            0 <= k < s.queue.len() ==> deliver_seq_model(s, inputs).queue[k] == s.queue[k],
    decreases inputs.len(),
{
    if inputs.len() > 0 {
        let s1 = deliver_model(s, inputs.first());
        lemma_deliver_seq_extends(s1, inputs.drop_first());
        assert forall|k: int| 0 <= k < s.queue.len() implies deliver_seq_model(s, inputs).queue[k]
            == s.queue[k] by {
            assert(s1.queue[k] == s.queue[k]);
            assert(deliver_seq_model(s1, inputs.drop_first()).queue[k] == s1.queue[k]);
        }
    }
}

/// Coverage: if a live adapter is handed a batch whose kind its policy
/// admits, then, whatever else is delivered before or after, every path of
/// that batch is among the events a full drain yields.
pub proof fn lemma_coverage(
    s: AdapterModel,
    inputs: Seq<Result<NotificationModel, Seq<char>>>,
    i: int,
    j: int,
)
    requires
        s.live,
        0 <= i < inputs.len(),
        inputs[i] is Ok,
        s.policy.admits(inputs[i]->Ok_0.kind),
        0 <= j < inputs[i]->Ok_0.paths.len(),
    ensures
        drain_model(deliver_seq_model(s, inputs)).contains(
            EventModel { path: inputs[i]->Ok_0.paths[j], kind: inputs[i]->Ok_0.kind },
        ),
    decreases inputs.len(),
{
    let target = EventModel { path: inputs[i]->Ok_0.paths[j], kind: inputs[i]->Ok_0.kind };
    let s1 = deliver_model(s, inputs.first());
    lemma_drain_is_queue(deliver_seq_model(s, inputs));
    if i == 0 {
        let fwd = forwarded_model(inputs.first(), s.policy);
        assert(fwd[j] == target);
        assert(s1.queue[s.queue.len() + j] == target);
        lemma_deliver_seq_extends(s1, inputs.drop_first());
        assert(deliver_seq_model(s, inputs).queue[s.queue.len() + j] == target);
    } else {
        lemma_coverage(s1, inputs.drop_first(), i - 1, j);
        lemma_drain_is_queue(deliver_seq_model(s1, inputs.drop_first()));
        assert(inputs.drop_first()[i - 1] == inputs[i]);
    }
}

/// Post-cancellation silence: once the source is stopped, no delivery
/// changes the state at all, and a full drain still yields exactly the
/// events that were pending when the source was stopped.
pub proof fn lemma_post_cancellation_silence(
    s: AdapterModel,
    inputs: Seq<Result<NotificationModel, Seq<char>>>,
)
    ensures
        deliver_seq_model(stop_model(s), inputs) == stop_model(s),
        drain_model(deliver_seq_model(stop_model(s), inputs)) == s.queue,
    decreases inputs.len(),
{
    if inputs.len() > 0 {
        assert(deliver_model(stop_model(s), inputs.first()) == stop_model(s));
        lemma_post_cancellation_silence(s, inputs.drop_first());
        assert(deliver_seq_model(stop_model(s), inputs.drop_first()) == stop_model(s));
    }
    lemma_drain_is_queue(stop_model(s));
}

/// Non-blocking drain termination: a poll of an empty queue whose source is
/// still live reports `Empty` and leaves the state exactly as it was — so
/// any number of repeated polls does the same, and none of them can suspend
/// the caller on more than this one total transition.
pub proof fn lemma_empty_open_poll(s: AdapterModel)
    requires
        s.live,
        s.queue.len() == 0,
    ensures
        receive_model(s).0 == PollModel::Empty,
        receive_model(s).1 == s,
{
}

/// A delivery only appends admitted events, so it preserves `wf_model`.
pub proof fn lemma_deliver_preserves_wf(
    s: AdapterModel,
    res: Result<NotificationModel, Seq<char>>,
)
    requires
        wf_model(s),
    ensures
        wf_model(deliver_model(s, res)),
{
}

/// A sequence of deliveries preserves `wf_model`.
pub proof fn lemma_deliver_seq_preserves_wf(
    s: AdapterModel,
    inputs: Seq<Result<NotificationModel, Seq<char>>>,
)
    requires
        wf_model(s),
    ensures
        wf_model(deliver_seq_model(s, inputs)),
    decreases inputs.len(),
{
    if inputs.len() > 0 {
        lemma_deliver_preserves_wf(s, inputs.first());
        lemma_deliver_seq_preserves_wf(deliver_model(s, inputs.first()), inputs.drop_first());
    }
}

/// No false positives under the modify-only policy: whatever is delivered to
/// a well-formed modify-only adapter, every event a full drain yields is
/// modify-classified.
pub proof fn lemma_modify_only_no_false_positives(
    s: AdapterModel,
    inputs: Seq<Result<NotificationModel, Seq<char>>>,
    k: int,
)
    requires
        s.policy == FilterPolicy::ModifyOnly,
        wf_model(s),
        0 <= k < drain_model(deliver_seq_model(s, inputs)).len(),
    ensures
        drain_model(deliver_seq_model(s, inputs))[k].kind == EventKind::Modify,
{
    lemma_deliver_seq_preserves_wf(s, inputs);
    lemma_deliver_seq_extends(s, inputs);
    lemma_drain_is_queue(deliver_seq_model(s, inputs));
}

/// In-process executable form of the adapter machine, used to exercise the
/// model on concrete values: one producer side (callback deliveries), one
/// consumer side (non-blocking polls), and a FIFO queue in between.
pub struct Adapter {
    live: bool,
    policy: FilterPolicy,
    queue: Vec<WatchEvent>,
}

impl View for Adapter {
    type V = AdapterModel;

    closed spec fn view(&self) -> AdapterModel {
        AdapterModel {
            live: self.live,
            policy: self.policy,
            queue: self.queue@.map_values(|e: WatchEvent| e@),
        }
    }
}

impl Adapter {
    /// A fresh adapter: live, with the given policy and an empty queue.
    pub fn new(policy: FilterPolicy) -> (r: Adapter)
        ensures
            r@ == (AdapterModel { live: true, policy, queue: Seq::<EventModel>::empty() }),
    {
        let r = Adapter { live: true, policy, queue: Vec::new() };
        proof {
            assert(r@.queue =~= Seq::<EventModel>::empty());
        }
        r
    }

    /// One callback delivery, exactly as `deliver_model` has it.
    pub fn deliver(&mut self, res: &Result<Notification, ObservationError>)
        ensures
            final(self)@ == deliver_model(old(self)@, callback_model(*res)),
    {
        if self.live {
            let mut fwd = forwarded_events(res, self.policy);
            let ghost fwd_model = fwd@.map_values(|e: WatchEvent| e@);
            self.queue.append(&mut fwd);
            proof {
                assert(self@.queue =~= old(self)@.queue + fwd_model);
            }
        }
    }

    /// Stopping the source, exactly as `stop_model` has it.
    pub fn stop(&mut self)
        ensures
            final(self)@ == stop_model(old(self)@),
    {
        self.live = false;
    }

    /// One non-blocking poll, exactly as `receive_model` has it. It returns
    /// in every state; in particular, on an empty, still-live queue it
    /// reports `Empty` at once rather than suspending the caller.
    pub fn try_receive(&mut self) -> (r: Poll)
        ensures
            r@ == receive_model(old(self)@).0,
            final(self)@ == receive_model(old(self)@).1,
    {
        if self.queue.len() > 0 {
            let e = self.queue.remove(0);
            proof {
                assert(self@.queue =~= old(self)@.queue.drop_first());
            }
            Poll::Event(e)
        } else if self.live {
            Poll::Empty
        } else {
            Poll::Closed
        }
    }
}

} // verus!
