//! Multi-producer, single-consumer channels between actor threads and the
//! orchestrator, over `std::sync::mpsc`.
//!
//! Each end carries the identity of its channel, and each sender the
//! messages handed to it so far, so that contracts can say which channel a
//! message went into. What a receive returns depends on other threads, so
//! those contracts say only what holds of every outcome.

use vstd::prelude::*;

verus! {

#[verifier::external_type_specification]
#[verifier::external_body]
#[verifier::reject_recursive_types(T)]
pub struct ExSender<T>(std::sync::mpsc::Sender<T>);

#[verifier::external_type_specification]
#[verifier::external_body]
#[verifier::reject_recursive_types(T)]
pub struct ExReceiver<T>(std::sync::mpsc::Receiver<T>);

/// The sending end of a channel.
#[verifier::reject_recursive_types(T)]
pub struct ChannelSender<T> {
    sender: std::sync::mpsc::Sender<T>,
    channel: Ghost<int>,
    log: Ghost<Seq<T>>,
}

impl<T> ChannelSender<T> {
    /// The channel this end sends into.
    pub closed spec fn channel_id(&self) -> int {
        self.channel@
    }

    /// Every message handed to this end for sending, in order.
    pub closed spec fn log(&self) -> Seq<T> {
        self.log@
    }
}

/// The receiving end of a channel; it is never cloned.
#[verifier::reject_recursive_types(T)]
pub struct ChannelReceiver<T> {
    receiver: std::sync::mpsc::Receiver<T>,
    channel: Ghost<int>,
}

impl<T> ChannelReceiver<T> {
    /// The channel this end receives from.
    pub closed spec fn channel_id(&self) -> int {
        self.channel@
    }
}

/// Why a receive returned no message.
#[derive(Clone, Copy, Debug, PartialEq, Eq, Structural)]
pub enum ChannelError {
    /// Nothing is waiting (non-blocking receive).
    Empty,
    /// The wait timed out.
    Timeout,
    /// Every sender, or the receiver, is gone.
    Disconnected,
}

/// Relies on `std::sync::mpsc::channel`: the two ends of one new channel.
#[verifier::external_body]
pub(crate) fn channel<T>() -> (r: (ChannelSender<T>, ChannelReceiver<T>))
    ensures
        r.0.channel_id() == r.1.channel_id(),
        r.0.log() == Seq::<T>::empty(),
{
    let (sender, receiver) = std::sync::mpsc::channel();
    (
        ChannelSender { sender, channel: Ghost(arbitrary()), log: Ghost(Seq::empty()) },
        ChannelReceiver { receiver, channel: Ghost(arbitrary()) },
    )
}

/// Relies on `Sender::clone`: another sender into the same channel.
#[verifier::external_body]
pub(crate) fn clone_sender<T>(sender: &ChannelSender<T>) -> (r: ChannelSender<T>)
    ensures
        r.channel_id() == sender.channel_id(),
        r.log() == Seq::<T>::empty(),
{
    ChannelSender {
        sender: sender.sender.clone(),
        channel: Ghost(sender.channel@),
        log: Ghost(Seq::empty()),
    }
}

/// Relies on `Sender::send`, which is handed `msg`, never blocks, and fails
/// only when the receiver is gone, handing the message back in its
/// `SendError`.
#[verifier::external_body]
pub(crate) fn send<T>(sender: &mut ChannelSender<T>, msg: T) -> (r: Result<(), T>)
    ensures
        final(sender).channel_id() == old(sender).channel_id(),
        final(sender).log() == old(sender).log().push(msg),
        r matches Err(m) ==> m == msg,
{
    match sender.sender.send(msg) {
        Ok(()) => Ok(()),
        Err(e) => Err(e.0),
    }
}

/// Relies on `Receiver::try_recv`: a waiting message, or `Empty`, or
/// `Disconnected`; it never blocks.
#[verifier::external_body]
pub(crate) fn try_recv<T>(receiver: &ChannelReceiver<T>) -> (r: Result<T, ChannelError>)
    ensures
        r matches Err(e) ==> e is Empty || e is Disconnected,
{
    match receiver.receiver.try_recv() {
        Ok(m) => Ok(m),
        Err(std::sync::mpsc::TryRecvError::Empty) => Err(ChannelError::Empty),
        Err(std::sync::mpsc::TryRecvError::Disconnected) => Err(ChannelError::Disconnected),
    }
}

/// Relies on `Receiver::recv`: blocks until a message comes, or fails with
/// `Disconnected` once every sender is gone.
#[verifier::external_body]
pub(crate) fn recv<T>(receiver: &ChannelReceiver<T>) -> (r: Result<T, ChannelError>)
    ensures
        r matches Err(e) ==> e is Disconnected,
{
    match receiver.receiver.recv() {
        Ok(m) => Ok(m),
        Err(_) => Err(ChannelError::Disconnected),
    }
}

/// Relies on `Receiver::recv_timeout`: a message, or `Timeout`, or
/// `Disconnected`.
#[verifier::external_body]
pub(crate) fn recv_timeout<T>(receiver: &ChannelReceiver<T>, timeout: std::time::Duration) -> (r:
    Result<T, ChannelError>)
    ensures
        r matches Err(e) ==> e is Timeout || e is Disconnected,
{
    match receiver.receiver.recv_timeout(timeout) {
        Ok(m) => Ok(m),
        Err(std::sync::mpsc::RecvTimeoutError::Timeout) => Err(ChannelError::Timeout),
        Err(std::sync::mpsc::RecvTimeoutError::Disconnected) => Err(ChannelError::Disconnected),
    }
}

} // verus!
