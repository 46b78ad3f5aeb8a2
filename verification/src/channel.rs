//! The bounded channel from the text service's callbacks to the I/O thread:
//! callbacks enqueue without blocking, and the receiving half is handed out
//! once, to the thread.

use std::sync::mpsc::{sync_channel, Receiver, SyncSender, TrySendError};
use vstd::prelude::*;

verus! {

#[verifier::external_type_specification]
#[verifier::external_body]
#[verifier::reject_recursive_types(T)]
pub struct ExSyncSender<T>(SyncSender<T>);

#[verifier::external_type_specification]
#[verifier::external_body]
#[verifier::reject_recursive_types(T)]
pub struct ExReceiver<T>(Receiver<T>);

/// Why a message was not enqueued; either way the message comes back.
#[derive(Debug, PartialEq, Eq)]
pub enum SendRefused<T> {
    /// The queue is full.
    Full(T),
    /// The receiving half is gone.
    Disconnected(T),
}

impl<T> SendRefused<T> {
    /// The message that was not sent.
    pub open spec fn message(self) -> T {
        match self {
            SendRefused::Full(m) => m,
            SendRefused::Disconnected(m) => m,
        }
    }

    /// The message that was not sent, handed back.
    pub fn into_inner(self) -> (m: T)
        ensures
            m == self.message(),
    {
        match self {
            SendRefused::Full(m) => m,
            SendRefused::Disconnected(m) => m,
        }
    }
}

/// Calls `std::sync::mpsc::sync_channel`: a connected sender and receiver
/// with room for `bound` messages. Nothing is claimed of the result.
#[verifier::external_body]
fn new_sync_channel<T>(bound: usize) -> (SyncSender<T>, Receiver<T>) {
    sync_channel(bound)
}

/// Calls `SyncSender::try_send` and tells its two errors apart. Claimed:
/// a refused message comes back unchanged in the error (`TrySendError::Full`
/// and `TrySendError::Disconnected` both return the data to the caller).
/// Whether the call succeeds depends on the queue's state and on the
/// receiver at the time of the call, so that is left unsaid.
#[verifier::external_body]
fn sender_try_send<T>(sender: &SyncSender<T>, msg: T) -> (r: Result<(), SendRefused<T>>)
    ensures
        r matches Err(e) ==> e.message() == msg,
{
    match sender.try_send(msg) {
        Ok(()) => Ok(()),
        Err(TrySendError::Full(m)) => Err(SendRefused::Full(m)),
        Err(TrySendError::Disconnected(m)) => Err(SendRefused::Disconnected(m)),
    }
}

/// Calls `SyncSender::clone`: another sender into the same queue. That it
/// feeds the same queue is not stated: the sender is opaque here, so
/// nothing is claimed of the result.
#[verifier::external_body]
fn sender_clone<T>(sender: &SyncSender<T>) -> SyncSender<T> {
    sender.clone()
}

/// A bounded channel whose receiving half is handed out at most once.
#[verifier::reject_recursive_types(T)]
pub struct TipChannel<T> {
    sender: SyncSender<T>,
    receiver: Option<Receiver<T>>,
    offered: Ghost<Seq<T>>,
    accepted: Ghost<Seq<T>>,
}

impl<T> TipChannel<T> {
    /// Whether the receiving half is still here to be taken.
    pub closed spec fn holds_receiver(&self) -> bool {
        self.receiver is Some
    }

    /// Every message handed to `try_send`, in order.
    pub closed spec fn offered(&self) -> Seq<T> {
        self.offered@
    }

    /// The messages that `try_send` enqueued, in order.
    pub closed spec fn accepted(&self) -> Seq<T> {
        self.accepted@
    }

    /// A channel with room for `bound` messages.
    pub fn new(bound: usize) -> (c: Self)
        ensures
            c.holds_receiver(),
            c.offered() == Seq::<T>::empty(),
            c.accepted() == Seq::<T>::empty(),
    {
        let (sender, receiver) = new_sync_channel(bound);
        TipChannel { sender, receiver: Some(receiver), offered: Ghost(Seq::empty()), accepted: Ghost(Seq::empty()) }
    }

    /// Enqueue a message without blocking; fails when the queue is full or
    /// the receiver is gone, and then hands the message back.
    /// The message is recorded as offered, and as accepted when it was
    /// enqueued.
    pub fn try_send(&mut self, msg: T) -> (r: Result<(), SendRefused<T>>)
        ensures
            final(self).offered() == old(self).offered().push(msg),
            r is Ok ==> final(self).accepted() == old(self).accepted().push(msg),
            r matches Err(e) ==> e.message() == msg && final(self).accepted() == old(
                self,
            ).accepted(),
            final(self).holds_receiver() == old(self).holds_receiver(),
    {
        let ghost m = msg;
        let r = sender_try_send(&self.sender, msg);
        proof {
            self.offered@ = self.offered@.push(m);
            if r is Ok {
                self.accepted@ = self.accepted@.push(m);
            }
        }
        r
    }

    /// Another sender into the same queue.
    pub fn clone_sender(&self) -> SyncSender<T> {
        sender_clone(&self.sender)
    }

    /// The receiving half, the first time; `None` afterwards.
    pub fn take_receiver(&mut self) -> (r: Option<Receiver<T>>)
        ensures
            r is Some <==> old(self).holds_receiver(),
            !final(self).holds_receiver(),
            final(self).offered() == old(self).offered(),
            final(self).accepted() == old(self).accepted(),
    {
        self.receiver.take()
    }
}

} // verus!
