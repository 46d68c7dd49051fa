//! A tokio broadcast channel, seen through what the library hands to it.
//! The record of sends is set only by the trusted calls in this module, so
//! what it says is what went to tokio.

use tokio::sync::broadcast;
use vstd::prelude::*;

verus! {

#[verifier::external_type_specification]
#[verifier::external_body]
#[verifier::reject_recursive_types(T)]
pub struct ExBroadcastSender<T>(broadcast::Sender<T>);

#[verifier::external_type_specification]
#[verifier::external_body]
#[verifier::reject_recursive_types(T)]
pub struct ExBroadcastReceiver<T>(broadcast::Receiver<T>);

/// The sending half of a broadcast channel, with the record of every value
/// handed to it and the capacity it was made with.
#[verifier::reject_recursive_types(T)]
pub struct BroadcastChannel<T> {
    sender: broadcast::Sender<T>,
    log: Ghost<Seq<(T, bool)>>,
    capacity: Ghost<nat>,
}

impl<T> BroadcastChannel<T> {
    /// Every value handed to `send`, oldest first, each with whether a
    /// receiver was subscribed to take it (`true`) or the send was refused.
    pub closed spec fn log(&self) -> Seq<(T, bool)> {
        self.log@
    }

    /// The capacity the channel was asked for (tokio rounds it up to a
    /// power of two).
    pub closed spec fn capacity(&self) -> nat {
        self.capacity@
    }
}

/// A receiving half of a broadcast channel. It is handed the values sent
/// from position `from()` of the sender's record on.
#[verifier::reject_recursive_types(T)]
pub struct BroadcastReceiver<T> {
    pub receiver: broadcast::Receiver<T>,
    from: Ghost<nat>,
}

impl<T> BroadcastReceiver<T> {
    /// The length of the sender's record when this receiver subscribed.
    pub closed spec fn from(&self) -> nat {
        self.from@
    }
}

/// `tokio::sync::broadcast::channel(capacity)`: a new channel asked for
/// room for `capacity` values, its sending half with nothing sent yet, and
/// a first receiver, which listens from the start. It panics when
/// `capacity` is zero or above `usize::MAX / 2`, so those inputs are
/// excluded.
#[verifier::external_body]
pub(crate) fn broadcast_channel<T: Clone>(capacity: usize) -> (r: (
    BroadcastChannel<T>,
    BroadcastReceiver<T>,
))
    requires
        0 < capacity <= usize::MAX / 2,
    ensures
        r.0.log() == Seq::<(T, bool)>::empty(),
        r.0.capacity() == capacity,
        r.1.from() == 0,
{
    let (sender, receiver) = broadcast::channel(capacity);
    (
        BroadcastChannel { sender, log: Ghost(Seq::empty()), capacity: Ghost(capacity as nat) },
        BroadcastReceiver { receiver, from: Ghost(0) },
    )
}

/// `tokio::sync::broadcast::Sender::subscribe`: a new receiver, handed the
/// values sent from now on. The call panics only once `usize::MAX / 4`
/// receivers are alive, which no input here can rule out.
#[verifier::external_body]
pub(crate) fn broadcast_subscribe<T>(channel: &BroadcastChannel<T>) -> (r: BroadcastReceiver<T>)
    ensures
        r.from() == channel.log().len(),
{
    BroadcastReceiver { receiver: channel.sender.subscribe(), from: Ghost(channel.log@.len()) }
}

/// `tokio::sync::broadcast::Sender::send`: hands `value` to every
/// subscribed receiver. On success it returns how many receivers were
/// subscribed, at least one; when none is, it fails and hands `value` back
/// unchanged. The record gains `value` with the outcome. Which outcome
/// comes depends on the receivers alive at that moment, which no argument
/// determines, so that is left open.
#[verifier::external_body]
pub(crate) fn broadcast_send<T>(channel: &mut BroadcastChannel<T>, value: T) -> (r: Result<usize, T>)
    ensures
        final(channel).log() == old(channel).log().push((value, r is Ok)),
        final(channel).capacity() == old(channel).capacity(),
        r matches Ok(n) ==> n >= 1,
        r matches Err(v) ==> v == value,
{
    match channel.sender.send(value) {
        Ok(n) => Ok(n),
        Err(broadcast::error::SendError(v)) => Err(v),
    }
}

} // verus!
