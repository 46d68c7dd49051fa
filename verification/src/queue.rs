//! A queue of items, each with a delay, handed one at a time to a broadcast
//! channel: an item is sent, then the queue waits for that item's delay
//! before the next one goes out.

use crate::broadcast::{broadcast_channel, broadcast_send, broadcast_subscribe, BroadcastChannel, BroadcastReceiver};
use core::time::Duration;
use std::collections::VecDeque;
use vstd::prelude::*;

verus! {

/// `core::time::Duration::from_millis(millis)`: the duration of `millis`
/// milliseconds. `Duration` is opaque here, so the result is only named.
pub uninterp spec fn duration_from_millis(millis: u64) -> Duration;

/// `core::time::Duration::from_millis`: its result is the duration named
/// `duration_from_millis(millis)`; it cannot fail.
pub assume_specification[ core::time::Duration::from_millis ](millis: u64) -> (d: Duration)
    ensures
        d == duration_from_millis(millis),
;

/// The capacity asked for the channel the queue sends on.
pub const QUEUE_CHANNEL_CAPACITY: usize = 100;

/// How long to wait before looking at an empty queue again, in milliseconds.
pub const IDLE_POLL_MS: u64 = 100;

/// What the queue's worker does after one step.
#[derive(Debug, Clone, Copy, PartialEq, Eq)]
pub enum QueueAction {
    /// Sleep this long, then take the next step.
    Wait(Duration),
    /// Nobody listens any more: the worker ends.
    Stop,
}

/// Items waiting to be sent, each with the delay that follows its sending,
/// and the channel they are sent on.
#[verifier::reject_recursive_types(T)]
pub struct TimedQueue<T> {
    queue: VecDeque<(T, Duration)>,
    channel: BroadcastChannel<T>,
}

impl<T> TimedQueue<T> {
    /// Every item this queue has sent on its channel, oldest first, each
    /// with whether a receiver was there to take it.
    pub closed spec fn sent(&self) -> Seq<(T, bool)> {
        self.channel.log()
    }

    /// The capacity asked for the queue's channel.
    pub closed spec fn capacity(&self) -> nat {
        self.channel.capacity()
    }
}

impl<T> View for TimedQueue<T> {
    type V = Seq<(T, Duration)>;

    /// The pending items, oldest first.
    closed spec fn view(&self) -> Seq<(T, Duration)> {
        self.queue@
    }
}

/// The pending items after one step of the worker: the oldest leaves, if any.
pub open spec fn after_step<T>(pending: Seq<(T, Duration)>) -> Seq<(T, Duration)> {
    if pending.len() == 0 {
        pending
    } else {
        pending.drop_first()
    }
}

/// The pending items after `items` are added, one after the other, to
/// `pending`.
pub open spec fn after_adds<T>(pending: Seq<(T, Duration)>, items: Seq<(T, Duration)>) -> Seq<(T, Duration)>
    decreases items.len(),
{
    if items.len() == 0 {
        pending
    } else {
        after_adds(pending.push(items[0]), items.drop_first())
    }
}

/// The items that `steps` steps of the worker send on the channel, in that
/// order, when the queue holds `pending` and nothing is added in between.
pub open spec fn departures<T>(pending: Seq<(T, Duration)>, steps: nat) -> Seq<T>
    decreases steps,
{
    if steps == 0 || pending.len() == 0 {
        Seq::empty()
    } else {
        seq![pending[0].0] + departures(after_step(pending), (steps - 1) as nat)
    }
}

/// The entries at the front of the queue on each of `steps` steps of the
/// worker, when it holds `pending` and nothing is added in between: each
/// step sends the item of its entry and then waits the entry's delay.
pub open spec fn front_entries<T>(pending: Seq<(T, Duration)>, steps: nat) -> Seq<(T, Duration)>
    decreases steps,
{
    if steps == 0 || pending.len() == 0 {
        Seq::empty()
    } else {
        seq![pending[0]] + front_entries(after_step(pending), (steps - 1) as nat)
    }
}

/// The items of `entries`, without their delays.
pub open spec fn items_of<T>(entries: Seq<(T, Duration)>) -> Seq<T> {
    entries.map_values(|e: (T, Duration)| e.0)
}

/// The pending items after `steps` steps of the worker when nothing is
/// added in between.
pub open spec fn after_steps<T>(pending: Seq<(T, Duration)>, steps: nat) -> Seq<(T, Duration)>
    decreases steps,
{
    if steps == 0 {
        pending
    } else {
        after_steps(after_step(pending), (steps - 1) as nat)
    }
}

proof fn lemma_after_adds_appends<T>(pending: Seq<(T, Duration)>, items: Seq<(T, Duration)>)
    ensures
        after_adds(pending, items) == pending + items,
    decreases items.len(),
{
    if items.len() > 0 {
        lemma_after_adds_appends(pending.push(items[0]), items.drop_first());
        assert(pending.push(items[0]) + items.drop_first() =~= pending + items);
    } else {
        assert(pending + items =~= pending);
    }
}

proof fn lemma_drain_in_order<T>(pending: Seq<(T, Duration)>)
    ensures
        departures(pending, pending.len()) == items_of(pending),
        front_entries(pending, pending.len()) == pending,
        after_steps(pending, pending.len()) == Seq::<(T, Duration)>::empty(),
    decreases pending.len(),
{
    if pending.len() > 0 {
        lemma_drain_in_order(pending.drop_first());
        assert(seq![pending[0]] + pending.drop_first() =~= pending);
        assert(seq![pending[0].0] + items_of(pending.drop_first()) =~= items_of(pending));
    } else {
        assert(pending =~= Seq::<(T, Duration)>::empty());
    }
}

/// First in, first out: when `items` are added to a queue holding
/// `pending`, as many worker steps as there are entries send on the channel
/// exactly the pending items and then the added ones, each in the order it
/// came and each followed by the very delay it was added with, and leave
/// the queue empty.
pub proof fn lemma_first_in_first_out<T>(pending: Seq<(T, Duration)>, items: Seq<(T, Duration)>)
    ensures
        departures(after_adds(pending, items), pending.len() + items.len()) == items_of(
            pending + items,
        ),
        front_entries(after_adds(pending, items), pending.len() + items.len()) == pending + items,
        after_steps(after_adds(pending, items), pending.len() + items.len()) == Seq::<
            (T, Duration),
        >::empty(),
{
    lemma_after_adds_appends(pending, items);
    lemma_drain_in_order(pending + items);
}

/// A step of the worker on a non-empty queue removes the oldest entry and
/// nothing else: every later entry keeps its place in line and its delay,
/// and the oldest entry followed by what is left is what was pending.
pub proof fn lemma_step_removes_only_the_oldest<T>(pending: Seq<(T, Duration)>)
    requires
        pending.len() > 0,
    ensures
        after_step(pending).len() == pending.len() - 1,
        forall|i: int| 0 <= i < pending.len() - 1 ==> #[trigger] after_step(pending)[i] == pending[i + 1],
        seq![pending[0]] + after_step(pending) == pending,
{
    assert(seq![pending[0]] + pending.drop_first() =~= pending);
}

/// The items of a record of sends, without their outcomes.
pub open spec fn sent_items<T>(log: Seq<(T, bool)>) -> Seq<T> {
    log.map_values(|e: (T, bool)| e.0)
}

/// The record of sends after one step of the worker on `pending`, when the
/// send (if one is made) has outcome `delivered`.
pub open spec fn sent_after_step<T>(
    pending: Seq<(T, Duration)>,
    sent: Seq<(T, bool)>,
    delivered: bool,
) -> Seq<(T, bool)> {
    if pending.len() == 0 {
        sent
    } else {
        sent.push((pending[0].0, delivered))
    }
}

/// No item is lost, sent twice or reordered: across a step of the worker,
/// whatever its send's outcome, the items sent so far followed by the items
/// still pending form the same sequence.
pub proof fn lemma_step_keeps_every_item<T>(
    pending: Seq<(T, Duration)>,
    sent: Seq<(T, bool)>,
    delivered: bool,
)
    ensures
        sent_items(sent_after_step(pending, sent, delivered)) + items_of(after_step(pending))
            == sent_items(sent) + items_of(pending),
{
    if pending.len() > 0 {
        assert(sent_items(sent.push((pending[0].0, delivered))) =~= sent_items(sent).push(
            pending[0].0,
        ));
        assert(items_of(pending) =~= seq![pending[0].0] + items_of(pending.drop_first()));
        assert(sent_items(sent).push(pending[0].0) + items_of(pending.drop_first()) =~= sent_items(
            sent,
        ) + (seq![pending[0].0] + items_of(pending.drop_first())));
    }
}

/// What the worker does once the channel took (`delivered`) or refused an
/// item whose delay is `delay_ms`.
pub open spec fn spec_action_after_send(delivered: bool, delay: Duration) -> QueueAction {
    if delivered {
        QueueAction::Wait(delay)
    } else {
        QueueAction::Stop
    }
}

/// The worker's next move once the channel has taken (`delivered`) or
/// refused an item whose delay is `delay`: wait out the delay, or end
/// because no receiver is left.
pub fn action_after_send(delivered: bool, delay: Duration) -> (a: QueueAction)
    ensures
        a == spec_action_after_send(delivered, delay),
{
    if delivered {
        QueueAction::Wait(delay)
    } else {
        QueueAction::Stop
    }
}

impl<T: Clone> TimedQueue<T> {
    /// An empty queue on a fresh channel asked for `QUEUE_CHANNEL_CAPACITY`
    /// items, on which nothing has been sent; the channel's first receiver
    /// is dropped. The worker that drains the queue is started by the
    /// caller, which calls `process_queue` in a loop.
    pub fn new() -> (q: Self)
        ensures
            q@ == Seq::<(T, Duration)>::empty(),
            q.sent() == Seq::<(T, bool)>::empty(),
            q.capacity() == QUEUE_CHANNEL_CAPACITY,
    {
        let (channel, _receiver) = broadcast_channel(QUEUE_CHANNEL_CAPACITY);
        TimedQueue { queue: VecDeque::new(), channel }
    }
}

impl<T> TimedQueue<T> {
    /// Puts `item` at the back of the queue; once sent, it is followed by a
    /// pause of `delay`.
    pub fn add(&mut self, item: T, delay: Duration)
        ensures
            final(self)@ == old(self)@.push((item, delay)),
            final(self).sent() == old(self).sent(),
            final(self).capacity() == old(self).capacity(),
    {
        self.queue.push_back((item, delay));
    }

    /// A receiver of every item sent from now on.
    pub fn subscribe(&self) -> (r: BroadcastReceiver<T>)
        ensures
            r.from() == self.sent().len(),
    {
        broadcast_subscribe(&self.channel)
    }

    /// One step of the worker. An empty queue is left as it is, nothing is
    /// sent, and the worker polls again after `IDLE_POLL_MS` milliseconds.
    /// Otherwise the oldest item leaves the queue and is sent at once,
    /// before its delay; the worker then waits that item's delay if a
    /// receiver took it, and ends if none was there.
    pub fn process_queue(&mut self) -> (a: QueueAction)
        ensures
            final(self)@ == after_step(old(self)@),
            old(self)@.len() == 0 ==> final(self)@ == old(self)@,
            old(self)@.len() > 0 ==> final(self)@.len() == old(self)@.len() - 1,
            old(self)@.len() > 0 ==> forall|i: int|
                0 <= i < final(self)@.len() ==> #[trigger] final(self)@[i] == old(self)@[i + 1],
            final(self).capacity() == old(self).capacity(),
            old(self)@.len() == 0 ==> final(self).sent() == old(self).sent() && a == QueueAction::Wait(
                duration_from_millis(IDLE_POLL_MS),
            ),
            old(self)@.len() > 0 ==> {
                &&& final(self).sent().len() == old(self).sent().len() + 1
                &&& final(self).sent() == sent_after_step(
                    old(self)@,
                    old(self).sent(),
                    final(self).sent().last().1,
                )
                &&& a == spec_action_after_send(final(self).sent().last().1, old(self)@[0].1)
            },
    {
        match self.queue.pop_front() {
            Some((item, delay)) => {
                let sent = broadcast_send(&mut self.channel, item);
                let delivered: bool = match sent {
                    Ok(_) => true,
                    Err(_) => false,
                };
                action_after_send(delivered, delay)
            },
            None => QueueAction::Wait(Duration::from_millis(IDLE_POLL_MS)),
        }
    }
}

} // verus!
