//! The reload signal, which is `tokio`'s `Notify`, the broadcast channel
//! whose sending ends tell that a signal can still come, and what it takes
//! to wait for the signal. Nothing in this file is proved, and nothing is
//! promised of what a wait comes to: that depends on who fires the signal,
//! and when.

use std::pin::Pin;
use std::sync::Arc;
use std::task::Context;
use tokio::sync::broadcast::{Receiver, Sender};
use tokio::sync::futures::OwnedNotified;
use tokio::sync::Notify;
use vstd::prelude::*;

verus! {

/// `tokio::sync::Notify`, the signal. Nothing is said of what is inside.
#[verifier::external_type_specification]
#[verifier::external_body]
pub struct ExNotify(Notify);

/// `tokio::sync::futures::OwnedNotified`, one wait for the signal.
#[verifier::external_type_specification]
#[verifier::external_body]
pub struct ExOwnedNotified(OwnedNotified);

/// `tokio::sync::broadcast::Receiver`, the receiving end of a broadcast
/// channel.
#[verifier::external_type_specification]
#[verifier::external_body]
#[verifier::reject_recursive_types(T)]
pub struct ExReceiver<T>(Receiver<T>);

/// `std::task::Context`, which names the task to wake. It is only carried
/// along.
#[verifier::external_type_specification]
#[verifier::external_body]
pub struct ExContext<'a>(Context<'a>);

/// `std::pin::Pin`, a pointer to a value that stays where it is.
#[verifier::external_type_specification]
#[verifier::external_body]
#[verifier::reject_recursive_types(P)]
pub struct ExPin<P>(Pin<P>);

/// `tokio::sync::broadcast::Sender`, the sending end of a broadcast channel.
/// The channel is open for as long as one sending end is held.
#[verifier::external_type_specification]
#[verifier::external_body]
#[verifier::reject_recursive_types(T)]
pub struct ExSender<T>(Sender<T>);

/// The sending end of the channel that a receiver belongs to.
pub uninterp spec fn watched(receiver: Receiver<()>) -> Sender<()>;

/// The signal that a wait waits for.
pub uninterp spec fn waited_signal(wait: Pin<Box<OwnedNotified>>) -> Arc<Notify>;

/// `Notify::new`: a signal that nobody waits for yet.
pub assume_specification[ Notify::new ]() -> Notify
;

/// `Notify::notify_waiters`: wakes every waiter that is registered now. It
/// returns at once, with or without waiters.
pub assume_specification[ Notify::notify_waiters ](notify: &Notify)
;

/// `broadcast::Sender::new`: the sending end of a new channel, which no
/// receiver belongs to yet. The capacity must be one that the channel takes.
#[verifier::external_body]
pub(crate) fn open(capacity: usize) -> Sender<()>
    requires
        0 < capacity <= usize::MAX / 2,
{
    Sender::new(capacity)
}

/// `broadcast::Sender::clone`: another sending end of the same channel.
pub assume_specification<T>[ <Sender<T> as Clone>::clone ](sender: &Sender<T>) -> (copy: Sender<T>)
    ensures
        copy == *sender,
;

/// `broadcast::Sender::subscribe`: a receiver that belongs to the sender's
/// channel. A channel takes more receivers than a machine's memory holds.
#[verifier::external_body]
pub(crate) fn watch(sender: &Sender<()>) -> (receiver: Receiver<()>)
    ensures
        watched(receiver) == *sender,
{
    sender.subscribe()
}

/// `broadcast::Receiver::is_closed`: whether no sending end of the channel
/// is held any more. That rests with those who hold them.
#[verifier::external_body]
pub(crate) fn is_closed(receiver: &Receiver<()>) -> bool {
    receiver.is_closed()
}

/// `Arc::clone`: another handle on the same value.
#[verifier::external_body]
pub(crate) fn share<T>(value: &Arc<T>) -> (handle: Arc<T>)
    ensures
        handle == *value,
{
    value.clone()
}

/// `Notify::notified_owned`, pinned on the heap: a wait for the next firing
/// of the signal. The wait counts every firing from now on, polled or not.
#[verifier::external_body]
pub(crate) fn subscribe(signal: Arc<Notify>) -> (wait: Pin<Box<OwnedNotified>>)
    ensures
        waited_signal(wait) == signal,
{
    Box::pin(signal.notified_owned())
}

/// `Future::poll` on a wait: whether the signal has fired since the wait was
/// made. Where it has not, the task behind `cx` is woken when it does. The
/// wait stays a wait for the same signal.
#[verifier::external_body]
pub(crate) fn poll_fired(wait: &mut Pin<Box<OwnedNotified>>, cx: &mut Context<'_>) -> (fired: bool)
    ensures
        waited_signal(*final(wait)) == waited_signal(*old(wait)),
{
    std::future::Future::poll(wait.as_mut(), cx).is_ready()
}

} // verus!
