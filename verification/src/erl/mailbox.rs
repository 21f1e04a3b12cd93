//! The mailbox of a process: what has arrived for it and waits to be taken,
//! oldest first. Whatever carries messages to the process, a handle next to it
//! or a channel from another thread, puts them here; the process alone takes
//! them out. The mailbox also knows how many senders are left, which is how the
//! process learns that nothing more will come.

use vstd::prelude::*;
use std::collections::VecDeque;
use crate::link::SendError;

verus! {

/// What a receive attempt finds.
pub enum Received<T> {
    /// The oldest message in the mailbox.
    Message(T),
    /// Nothing yet, but a sender is still there: the receiver has to wait.
    Empty,
    /// Nothing, and nothing will come: every sender is gone, or the mailbox
    /// was closed.
    Closed,
}

impl<T> Received<T> {
    /// Which of the three it is, without the message.
    pub open spec fn kind(self) -> Received<()> {
        match self {
            Received::Message(_) => Received::Message(()),
            Received::Empty => Received::Empty,
            Received::Closed => Received::Closed,
        }
    }
}

/// A mailbox as a mathematical value.
pub struct MailboxView<T> {
    /// The messages that wait, oldest first.
    pub queue: Seq<T>,
    /// How many senders are alive.
    pub senders: nat,
    /// Whether the receiving end is still there.
    pub open: bool,
}

impl<T> MailboxView<T> {
    /// A closed mailbox holds nothing.
    pub open spec fn wf(self) -> bool {
        !self.open ==> self.queue.len() == 0
    }

    /// The mailbox after a send: the message is last in the queue if the
    /// mailbox is open; a closed mailbox takes nothing.
    pub open spec fn send(self, msg: T) -> MailboxView<T> {
        if self.open {
            MailboxView { queue: self.queue.push(msg), ..self }
        } else {
            self
        }
    }

    /// What a receive attempt finds.
    pub open spec fn front(self) -> Received<T> {
        if !self.open {
            Received::Closed
        } else if self.queue.len() > 0 {
            Received::Message(self.queue[0])
        } else if self.senders > 0 {
            Received::Empty
        } else {
            Received::Closed
        }
    }

    /// The mailbox after a receive attempt.
    pub open spec fn recv(self) -> MailboxView<T> {
        if self.open && self.queue.len() > 0 {
            MailboxView { queue: self.queue.drop_first(), ..self }
        } else {
            self
        }
    }

    /// The mailbox after one more sender was counted; the count stops at the
    /// largest number that fits.
    pub open spec fn attach(self) -> MailboxView<T> {
        MailboxView {
            senders: if self.senders < usize::MAX {
                self.senders + 1
            } else {
                self.senders
            },
            ..self
        }
    }

    /// The mailbox after one sender less was counted.
    pub open spec fn detach(self) -> MailboxView<T> {
        MailboxView {
            senders: if self.senders > 0 {
                (self.senders - 1) as nat
            } else {
                0
            },
            ..self
        }
    }

    /// The mailbox after the news that every sender is gone.
    pub open spec fn disconnect(self) -> MailboxView<T> {
        MailboxView { senders: 0, ..self }
    }

    /// The mailbox after it was told what a channel had for it.
    pub open spec fn accept(self, received: Received<T>) -> MailboxView<T> {
        match received {
            Received::Message(msg) => self.send(msg),
            Received::Empty => self,
            Received::Closed => self.disconnect(),
        }
    }

    /// The mailbox after its receiving end was dropped.
    pub open spec fn close(self) -> MailboxView<T> {
        MailboxView { queue: Seq::empty(), open: false, ..self }
    }
}

/// Mailbox can hold messages of type T
pub struct Mailbox<T> {
    queue: VecDeque<T>,
    senders: usize,
    open: bool,
}

impl<T> View for Mailbox<T> {
    type V = MailboxView<T>;

    closed spec fn view(&self) -> MailboxView<T> {
        MailboxView { queue: self.queue@, senders: self.senders as nat, open: self.open }
    }
}

impl<T> Mailbox<T> {
    /// The mailbox is a valid one: see [`MailboxView::wf`].
    pub open spec fn wf(&self) -> bool {
        self@.wf()
    }

    /// An open, empty mailbox with one sender.
    pub fn new() -> (mailbox: Mailbox<T>)
        ensures
            mailbox.wf(),
            mailbox@ == (MailboxView::<T> { queue: Seq::empty(), senders: 1, open: true }),
    {
        Mailbox { queue: VecDeque::new(), senders: 1, open: true }
    }

    /// Puts `msg` last in the queue. A closed mailbox hands it back in the
    /// error: the actor is gone.
    pub fn send(&mut self, msg: T) -> (r: Result<(), SendError<T>>)
        requires
            old(self).wf(),
        ensures
            final(self).wf(),
            final(self)@ == old(self)@.send(msg),
            old(self)@.open ==> r is Ok,
            !old(self)@.open ==> r == Err::<(), SendError<T>>(SendError { message: msg }),
    {
        if self.open {
            self.queue.push_back(msg);
            Ok(())
        } else {
            Err(SendError { message: msg })
        }
    }

    /// Takes the oldest message out, or says why there is none.
    pub fn recv(&mut self) -> (r: Received<T>)
        requires
            old(self).wf(),
        ensures
            final(self).wf(),
            final(self)@ == old(self)@.recv(),
            r == old(self)@.front(),
    {
        if !self.open {
            return Received::Closed;
        }
        match self.queue.pop_front() {
            Some(msg) => {
                assert(self.queue@ =~= old(self).queue@.drop_first());
                Received::Message(msg)
            },
            None => {
                if self.senders > 0 {
                    Received::Empty
                } else {
                    Received::Closed
                }
            },
        }
    }

    /// Counts one more sender; the count stops at the largest number.
    pub fn attach(&mut self)
        requires
            old(self).wf(),
        ensures
            final(self).wf(),
            final(self)@ == old(self)@.attach(),
    {
        if self.senders < usize::MAX {
            self.senders = self.senders + 1;
        }
    }

    /// Counts one sender less.
    pub fn detach(&mut self)
        requires
            old(self).wf(),
        ensures
            final(self).wf(),
            final(self)@ == old(self)@.detach(),
    {
        if self.senders > 0 {
            self.senders = self.senders - 1;
        }
    }

    /// Takes what a channel had for this mailbox: a message goes last in the
    /// queue (a closed mailbox drops it), and the news that every sender is
    /// gone sets the count of senders to none. The result tells which it was.
    pub fn accept(&mut self, received: Received<T>) -> (kind: Received<()>)
        requires
            old(self).wf(),
        ensures
            final(self).wf(),
            final(self)@ == old(self)@.accept(received),
            kind == received.kind(),
    {
        match received {
            Received::Message(msg) => {
                let _ = self.send(msg);
                Received::Message(())
            },
            Received::Empty => Received::Empty,
            Received::Closed => {
                self.senders = 0;
                Received::Closed
            },
        }
    }

    /// Drops the receiving end: what waits is discarded, later sends fail.
    pub fn close(&mut self)
        ensures
            final(self).wf(),
            final(self)@ == old(self)@.close(),
    {
        self.queue = VecDeque::new();
        self.open = false;
    }

    pub fn is_open(&self) -> (r: bool)
        ensures
            r == self@.open,
    {
        self.open
    }

    /// The number of messages that wait.
    pub fn len(&self) -> (n: usize)
        ensures
            n == self@.queue.len(),
    {
        self.queue.len()
    }

    /// The number of senders that are alive.
    pub fn senders(&self) -> (n: usize)
        ensures
            n == self@.senders,
    {
        self.senders
    }
}

/// A stock of memory from which room for messages is set aside.
#[derive(PartialEq, Eq, Copy, Clone, Debug, Structural)]
pub struct Memory;

/// The stock of memory that there is.
pub const MEM: Memory = Memory;

impl Memory {
    /// Reserves capacity for `count` of T
    pub fn reserve<T>(self, count: usize) -> (memory: Self)
        ensures
            memory == self,
    {
        self
    }

    /// Executes the closure `f` and consumes self
    pub fn with<F: Fn(Self)>(self, f: F)
        requires
            call_requires(f, (self,)),
        ensures
            call_ensures(f, (self,), ()),
    {
        f(self)
    }
}

} // verus!
