//! Sending ends of `futures::channel::mpsc` channels, each with a record of what was handed
//! to it.
//!
//! A channel is shared with whoever holds its receiving end, so nothing can be known here of
//! what a channel holds at a given moment. What this module keeps exact is the sequence of
//! values that a sending end was given, in order: the `posted` and `offered` records.

use vstd::prelude::*;
use futures::channel::mpsc::{Receiver, Sender, TrySendError, UnboundedReceiver, UnboundedSender};

verus! {

/// `futures::channel::mpsc::Sender`, the sending end of a bounded channel. Opaque.
#[verifier::external_type_specification]
#[verifier::external_body]
#[verifier::reject_recursive_types(T)]
pub struct ExSender<T>(Sender<T>);

/// `futures::channel::mpsc::Receiver`, the receiving end of a bounded channel. Opaque.
#[verifier::external_type_specification]
#[verifier::external_body]
#[verifier::reject_recursive_types(T)]
pub struct ExReceiver<T>(Receiver<T>);

/// `futures::channel::mpsc::UnboundedSender`, the sending end of an unbounded channel. Opaque.
#[verifier::external_type_specification]
#[verifier::external_body]
#[verifier::reject_recursive_types(T)]
pub struct ExUnboundedSender<T>(UnboundedSender<T>);

/// `futures::channel::mpsc::UnboundedReceiver`, the receiving end of an unbounded channel.
/// Opaque.
#[verifier::external_type_specification]
#[verifier::external_body]
#[verifier::reject_recursive_types(T)]
pub struct ExUnboundedReceiver<T>(UnboundedReceiver<T>);

/// `futures::channel::mpsc::TrySendError`, the refusal of a send together with the value that
/// was refused. Opaque.
#[verifier::external_type_specification]
#[verifier::external_body]
#[verifier::reject_recursive_types(T)]
pub struct ExTrySendError<T>(TrySendError<T>);

/// `futures::channel::mpsc::unbounded` creates a channel and returns its two ends. Nothing is
/// claimed of them.
pub assume_specification<T>[ futures::channel::mpsc::unbounded::<T> ]() -> (ends: (
    UnboundedSender<T>,
    UnboundedReceiver<T>,
));

/// `futures::channel::mpsc::channel` creates a bounded channel and returns its two ends. It
/// panics unless `buffer` is below its `MAX_BUFFER`, a quarter of the `usize` range; nothing
/// is claimed of the ends.
pub assume_specification<T>[ futures::channel::mpsc::channel::<T> ](buffer: usize) -> (ends: (
    Sender<T>,
    Receiver<T>,
))
    requires
        buffer < MAX_BUFFER,
;

/// `UnboundedSender::unbounded_send` queues `msg` unless the channel is closed. Nothing is
/// claimed of the outcome. (It would panic with `usize::MAX / 2` messages waiting in the
/// channel, which memory does not allow.)
pub assume_specification<T>[ UnboundedSender::<T>::unbounded_send ](
    sender: &UnboundedSender<T>,
    msg: T,
) -> (outcome: Result<(), TrySendError<T>>);

/// `Sender::try_send` queues `msg` unless the channel is closed or this sender has used up
/// its room. It does not wait. Nothing is claimed of the outcome. (It would panic with
/// `usize::MAX / 2` messages waiting in the channel, or once a waker has panicked while the
/// channel woke this sender.)
pub assume_specification<T>[ Sender::<T>::try_send ](sender: &mut Sender<T>, msg: T) -> (outcome:
    Result<(), TrySendError<T>>);

/// `TrySendError::is_disconnected` tells a closed channel from a full one. Nothing is claimed
/// of the answer.
pub assume_specification<T>[ TrySendError::<T>::is_disconnected ](error: &TrySendError<T>) -> (gone:
    bool);

/// `Sender::close_channel` closes the channel for all its senders; what is queued stays
/// readable. Nothing is claimed of it.
pub assume_specification<T>[ Sender::<T>::close_channel ](sender: &mut Sender<T>);

/// `Clone` for `UnboundedSender` gives one more sending end of the same channel. Nothing is
/// claimed of it. (It would panic at `usize::MAX / 4` sending ends of one channel.)
pub assume_specification<T>[ <UnboundedSender<T> as Clone>::clone ](
    sender: &UnboundedSender<T>,
) -> (copy: UnboundedSender<T>);

/// The least buffer size that a bounded channel refuses.
pub const MAX_BUFFER: usize = usize::MAX / 4;

/// What a bounded channel was handed: a value, or the request to close.
pub enum Signal<T> {
    Item(T),
    Close,
}

/// How a bounded channel answered an offer.
#[derive(Clone, Copy, Debug, PartialEq, Eq, Structural)]
pub enum Offer {
    /// The value was queued.
    Accepted,
    /// The sending end has used up its room; the value was dropped.
    Full,
    /// The channel is closed; the value was dropped.
    Disconnected,
}

/// The sending end of an unbounded channel, with the values that were posted through it.
#[verifier::reject_recursive_types(T)]
pub struct Outbox<T> {
    sender: UnboundedSender<T>,
    posted: Ghost<Seq<T>>,
}

impl<T> Outbox<T> {
    /// Every value that was posted through this end, oldest first.
    pub closed spec fn posted(&self) -> Seq<T> {
        self.posted@
    }

    /// Creates a channel. Nothing has been posted through its sending end.
    pub fn open() -> (ends: (Outbox<T>, UnboundedReceiver<T>))
        ensures
            ends.0.posted() == Seq::<T>::empty(),
    {
        let (sender, receiver) = futures::channel::mpsc::unbounded();
        (Outbox { sender, posted: Ghost(Seq::empty()) }, receiver)
    }

    /// Hands `msg` to the channel and records it. Returns whether the channel took it: a
    /// channel whose receiving end is gone takes nothing.
    pub fn post(&mut self, msg: T) -> (taken: bool)
        ensures
            final(self).posted() == old(self).posted().push(msg),
    {
        let ghost handed = msg;
        let outcome = self.sender.unbounded_send(msg);
        proof {
            self.posted@ = self.posted@.push(handed);
        }
        outcome.is_ok()
    }

    /// One more sending end of the same channel, through which nothing has been posted yet.
    pub fn fork(&self) -> (copy: Outbox<T>)
        ensures
            copy.posted() == Seq::<T>::empty(),
    {
        Outbox { sender: self.sender.clone(), posted: Ghost(Seq::empty()) }
    }
}

/// What is known of the sending end of a bounded channel.
pub struct FeedView<T> {
    /// The number of values that the channel was created to queue, beside one more for
    /// each sending end.
    pub room: usize,
    /// Every value that was offered through this end, and each request to close, oldest
    /// first.
    pub offered: Seq<Signal<T>>,
}

/// A sending end of a channel with room for `room` values, through which nothing has been
/// offered.
pub open spec fn untouched<T>(room: usize) -> FeedView<T> {
    FeedView { room, offered: Seq::empty() }
}

/// The sending end of a bounded channel, with what was offered to it.
#[verifier::reject_recursive_types(T)]
pub struct Feed<T> {
    sender: Sender<T>,
    room: Ghost<usize>,
    offered: Ghost<Seq<Signal<T>>>,
}

impl<T> View for Feed<T> {
    type V = FeedView<T>;

    closed spec fn view(&self) -> FeedView<T> {
        FeedView { room: self.room@, offered: self.offered@ }
    }
}

impl<T> Feed<T> {
    /// Creates a channel that queues `buffer` values and one more for each sending end.
    pub fn open(buffer: usize) -> (ends: (Feed<T>, Receiver<T>))
        requires
            buffer < MAX_BUFFER,
        ensures
            ends.0@ == untouched::<T>(buffer),
    {
        let (sender, receiver) = futures::channel::mpsc::channel(buffer);
        (Feed { sender, room: Ghost(buffer), offered: Ghost(Seq::empty()) }, receiver)
    }

    /// Offers `item` to the channel without waiting and records the offer. A value that the
    /// channel does not take is dropped.
    pub fn offer(&mut self, item: T) -> (answer: Offer)
        ensures
            final(self)@ == (FeedView {
                offered: old(self)@.offered.push(Signal::Item(item)),
                ..old(self)@
            }),
    {
        let ghost handed = item;
        let outcome = self.sender.try_send(item);
        proof {
            self.offered@ = self.offered@.push(Signal::Item(handed));
        }
        match outcome {
            Ok(()) => Offer::Accepted,
            Err(refusal) => {
                if refusal.is_disconnected() {
                    Offer::Disconnected
                } else {
                    Offer::Full
                }
            },
        }
    }

    /// Closes the channel and records it. The receiving end still yields what is queued, and
    /// then ends.
    pub fn close(&mut self)
        ensures
            final(self)@ == (FeedView {
                offered: old(self)@.offered.push(Signal::Close),
                ..old(self)@
            }),
    {
        self.sender.close_channel();
        proof {
            self.offered@ = self.offered@.push(Signal::Close);
        }
    }
}

} // verus!
