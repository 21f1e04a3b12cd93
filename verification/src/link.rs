//! What travels between a handle and a process: the channel that carries
//! messages from one thread to another, the single-use channel that carries
//! the reply to a request back, and the errors of a send and of a reply.

use vstd::prelude::*;
use std::marker::PhantomData;
use crate::erl::mailbox::{Mailbox, Received};

verus! {

/// A message could not be sent because the receiving end is gone: the actor no
/// longer exists. The message comes back in the error.
pub struct SendError<Msg> {
    pub message: Msg,
}

/// No reply arrived: the sender was dropped without sending, or nothing has
/// been sent by the time the caller looked.
#[derive(PartialEq, Eq, Copy, Clone, Debug, Structural)]
pub struct RecvError;

/// `tokio::sync::oneshot::Sender`: the sending end of a channel for one
/// value. It is carried through, never looked into.
#[verifier::external_type_specification]
#[verifier::external_body]
#[verifier::reject_recursive_types(T)]
pub struct ExOneshotSender<T>(tokio::sync::oneshot::Sender<T>);

/// `tokio::sync::oneshot::channel`: a new channel for one value, as its two
/// ends. Nothing is claimed of them.
#[verifier::external_body]
fn reply_channel<T>() -> (ends: (tokio::sync::oneshot::Sender<T>, ReplyReceiver<T>)) {
    let (sender, receiver) = tokio::sync::oneshot::channel();
    (sender, ReplyReceiver(receiver))
}

/// `oneshot::Sender::send` of tokio. It consumes the sender and never waits.
/// Whether the value was taken depends on whether the receiving end is still
/// there, which its holder decides; all that is claimed is that a refused
/// value is the one that was passed in, handed back untouched.
pub assume_specification<T>[ tokio::sync::oneshot::Sender::<T>::send ](
    sender: tokio::sync::oneshot::Sender<T>,
    t: T,
) -> (r: Result<(), T>)
    ensures
        r is Err ==> r->Err_0 == t,
;

/// `oneshot::Receiver::try_recv` of tokio. It never waits: it gives the value
/// if one was sent, or says that none has been sent yet, or that none will
/// come any more. Which of the three depends on what the holder of the sender
/// did, so nothing is claimed of the result.
#[verifier::external_body]
fn reply_try_recv<T>(receiver: &mut ReplyReceiver<T>) -> (r: Received<T>) {
    match receiver.0.try_recv() {
        Ok(value) => Received::Message(value),
        Err(tokio::sync::oneshot::error::TryRecvError::Empty) => Received::Empty,
        Err(tokio::sync::oneshot::error::TryRecvError::Closed) => Received::Closed,
    }
}

/// The sending half of a reply handoff. It travels with the request to the
/// process, and the visitor that gets it decides whether and when to send:
/// at most one value is ever sent, since sending gives the sender up.
#[verifier::reject_recursive_types(Reply)]
pub struct ReplySender<Reply>(tokio::sync::oneshot::Sender<Reply>);

/// The receiving half of a reply handoff, kept by the caller: the receiving
/// end of a oneshot channel of tokio. Whether it holds a value depends on what
/// the holder of the sender did, so it has no value that a contract could
/// speak of. The end itself is open to the task that waits on it.
#[verifier::external_body]
#[verifier::reject_recursive_types(Reply)]
pub struct ReplyReceiver<Reply>(pub tokio::sync::oneshot::Receiver<Reply>);

/// The two halves are the two ends that one call for a new channel returned.
pub closed spec fn reply_pair<Reply>(
    sender: ReplySender<Reply>,
    receiver: ReplyReceiver<Reply>,
) -> bool {
    call_ensures(reply_channel::<Reply>, (), (sender.end(), receiver))
}

/// A fresh reply handoff: the two halves of one new channel for one value.
pub fn new_reply<Reply>() -> (pair: (ReplySender<Reply>, ReplyReceiver<Reply>))
    ensures
        reply_pair(pair.0, pair.1),
{
    let (sender, receiver) = reply_channel();
    (ReplySender(sender), receiver)
}

impl<Reply> ReplySender<Reply> {
    /// The end of the channel that this half holds.
    pub closed spec fn end(&self) -> tokio::sync::oneshot::Sender<Reply> {
        self.0
    }

    /// Sends the reply and gives the sender up: the result is what the send
    /// of `reply` on the end that this half holds gave. Where the receiving
    /// half is gone the reply comes back as the error.
    pub fn send(self, reply: Reply) -> (r: Result<(), Reply>)
        ensures
            call_ensures(tokio::sync::oneshot::Sender::<Reply>::send, (self.end(), reply), r),
            r is Err ==> r->Err_0 == reply,
    {
        self.0.send(reply)
    }
}

impl RecvError {
    /// The reply after the receiving end found `found`: a value that was sent
    /// is the reply; none yet, or none any more, is the error.
    pub open spec fn after<Reply>(found: Received<Reply>) -> Result<Reply, RecvError> {
        match found {
            Received::Message(reply) => Ok(reply),
            _ => Err(RecvError),
        }
    }

    /// The reply for a caller that cannot wait any longer, from what the
    /// receiving end found: a value that was sent is the reply; none yet, or
    /// none any more, is the error.
    pub fn arrived<Reply>(found: Received<Reply>) -> (r: Result<Reply, RecvError>)
        ensures
            r == Self::after(found),
    {
        match found {
            Received::Message(reply) => Ok(reply),
            Received::Empty => Err(RecvError),
            Received::Closed => Err(RecvError),
        }
    }
}

impl<Reply> ReplyReceiver<Reply> {
    /// Looks for the reply without waiting: the reply, or the news that none
    /// has been sent yet, or that none will come any more. A task that can
    /// wait takes the end itself and waits on it.
    pub fn try_recv(&mut self) -> (found: Received<Reply>)
        ensures
            old(self).asked(found),
    {
        reply_try_recv(self)
    }

    /// The channel was asked on this end, and gave `found`.
    pub closed spec fn asked(&self, found: Received<Reply>) -> bool {
        exists|end: &mut Self| *end == *self && call_ensures(reply_try_recv::<Reply>, (end,), found)
    }
}

/// A kind of channel: how to make one, and the types of its two ends.
pub trait Link {
    type Message;

    type Sender: LinkSender<Message = Self::Message>;

    type Receiver: LinkReceiver<Message = Self::Message>;

    fn new() -> (Self::Sender, Self::Receiver);
}

/// The receiving end of a channel.
pub trait LinkReceiver {
    type Message;
}

/// A sending end of a channel.
pub trait LinkSender {
    type Message;
}

/// `tokio::sync::mpsc::unbounded_channel`: a new channel without a bound, as
/// its two ends. Nothing is claimed of them.
#[verifier::external_body]
fn channel<T>() -> (ends: (UnboundedSender<T>, UnboundedReceiver<T>)) {
    let (sender, receiver) = tokio::sync::mpsc::unbounded_channel();
    (UnboundedSender(sender), UnboundedReceiver(receiver))
}

/// `UnboundedSender::send` of tokio. It never waits. Whether the message was
/// taken depends on whether the receiving end is still there, which another
/// thread decides; all that is claimed is that a refused message is the one
/// that was passed in, handed back untouched.
#[verifier::external_body]
fn channel_send<T>(sender: &UnboundedSender<T>, msg: T) -> (r: Result<(), T>)
    ensures
        r is Err ==> r->Err_0 == msg,
{
    match sender.0.send(msg) {
        Ok(()) => Ok(()),
        Err(refused) => Err(refused.0),
    }
}

/// `Clone::clone` of tokio's `UnboundedSender`: one more sender for the same
/// channel. A sender is nothing but the channel it sends into, and the clone
/// holds that same channel: it is claimed to be the same sending end.
#[verifier::external_body]
fn channel_clone<T>(sender: &UnboundedSender<T>) -> (cloned: UnboundedSender<T>)
    ensures
        cloned == *sender,
{
    UnboundedSender(sender.0.clone())
}

/// `UnboundedReceiver::try_recv` of tokio. It never waits: it gives the next
/// message, or says that the channel is empty for now, or that it is empty and
/// every sender is gone. Which of the three depends on what other threads
/// have sent, so nothing is claimed of the result.
#[verifier::external_body]
fn channel_try_recv<T>(receiver: &mut UnboundedReceiver<T>) -> (r: Received<T>) {
    match receiver.0.try_recv() {
        Ok(msg) => Received::Message(msg),
        Err(tokio::sync::mpsc::error::TryRecvError::Empty) => Received::Empty,
        Err(tokio::sync::mpsc::error::TryRecvError::Disconnected) => Received::Closed,
    }
}

/// The channel without a bound: a send never waits.
pub struct UnboundedLink<Msg> {
    _msg: PhantomData<Msg>,
}

impl<Msg> Link for UnboundedLink<Msg> {
    type Message = Msg;

    type Sender = UnboundedSender<Msg>;

    type Receiver = UnboundedReceiver<Msg>;

    fn new() -> (ends: (Self::Sender, Self::Receiver))
        ensures
            Self::ends_of_one(ends.0, ends.1),
    {
        channel()
    }
}

impl<Msg> UnboundedLink<Msg> {
    /// The two are the two ends that one call for a new channel returned.
    pub closed spec fn ends_of_one(
        sender: UnboundedSender<Msg>,
        receiver: UnboundedReceiver<Msg>,
    ) -> bool {
        call_ensures(channel::<Msg>, (), (sender, receiver))
    }
}

/// The receiving end of an unbounded channel of tokio. There is one, and the
/// process owns it. What it holds changes whenever another thread sends, so
/// it has no value that a contract could speak of. The end itself is open to
/// the task that waits on it.
#[verifier::external_body]
#[verifier::reject_recursive_types(Msg)]
pub struct UnboundedReceiver<Msg>(pub tokio::sync::mpsc::UnboundedReceiver<Msg>);

impl<Msg> LinkReceiver for UnboundedReceiver<Msg> {
    type Message = Msg;
}

impl<Msg> UnboundedReceiver<Msg> {
    /// Looks for the next message without waiting: the result is what the
    /// channel gave when it was asked on this end.
    pub fn try_recv(&mut self) -> (r: Received<Msg>)
        ensures
            old(self).asked(r),
    {
        channel_try_recv(self)
    }

    /// The channel was asked on this end, and gave `found`.
    pub closed spec fn asked(&self, found: Received<Msg>) -> bool {
        exists|end: &mut Self| *end == *self && call_ensures(channel_try_recv::<Msg>, (end,), found)
    }

    /// Moves what the channel has for now into the mailbox: the channel is
    /// asked once on this end, and the mailbox takes what it gave. The next
    /// message goes last in the queue, and the news that every sender is gone
    /// sets the mailbox's count of senders to none. The result tells which it
    /// was.
    pub fn deliver(&mut self, mailbox: &mut Mailbox<Msg>) -> (r: Received<()>)
        requires
            old(mailbox).wf(),
        ensures
            final(mailbox).wf(),
            exists|received: Received<Msg>|
                {
                    &&& old(self).asked(received)
                    &&& final(mailbox)@ == old(mailbox)@.accept(received)
                    &&& r == received.kind()
                },
    {
        let received = self.try_recv();
        mailbox.accept(received)
    }
}

/// A sending end of an unbounded channel of tokio. It can be cloned, and every
/// clone can be used from a thread of its own.
#[verifier::external_body]
#[verifier::reject_recursive_types(Msg)]
pub struct UnboundedSender<Msg>(tokio::sync::mpsc::UnboundedSender<Msg>);

impl<Msg> UnboundedSender<Msg> {
    /// Sends without waiting. Where the receiving end is gone the message
    /// comes back in the error: the actor no longer exists.
    pub fn send(&self, msg: Msg) -> (r: Result<(), SendError<Msg>>)
        ensures
            exists|answer: Result<(), Msg>|
                self.answered(msg, answer) && r == SendError::after(answer),
            r is Err ==> r->Err_0.message == msg,
    {
        SendError::refused(channel_send(self, msg))
    }

    /// The channel was handed `msg` on this sender, and answered `answer`.
    pub closed spec fn answered(&self, msg: Msg, answer: Result<(), Msg>) -> bool {
        call_ensures(channel_send::<Msg>, (self, msg), answer)
    }
}

impl<Msg> SendError<Msg> {
    /// The result of a send after the channel answered `answer`: a message
    /// that the channel gave back stands in the error.
    pub open spec fn after(answer: Result<(), Msg>) -> Result<(), SendError<Msg>> {
        match answer {
            Ok(x) => Ok(x),
            Err(message) => Err(SendError { message }),
        }
    }

    /// The result of a send, from what the channel answered: a channel that
    /// took the message answers nothing, and one that did not gives the
    /// message back, which then stands in the error.
    pub fn refused(answer: Result<(), Msg>) -> (r: Result<(), SendError<Msg>>)
        ensures
            r == Self::after(answer),
    {
        match answer {
            Ok(x) => Ok(x),
            Err(message) => Err(SendError { message }),
        }
    }
}

impl<Msg> LinkSender for UnboundedSender<Msg> {
    type Message = Msg;
}

impl<Msg> Clone for UnboundedSender<Msg> {
    /// One more sender for the same channel.
    fn clone(&self) -> (cloned: Self)
        ensures
            cloned == *self,
    {
        channel_clone(self)
    }
}

} // verus!
