//! Processes in the manner of Erlang: a process function is given its own
//! process, with a pid to send to and a mailbox to receive from, and runs
//! beside its caller until it answers how it ended.

use vstd::prelude::*;
use std::future::Future;
use crate::runtime::{detach, handed_over};

verus! {

/// `smol::channel::Sender` (async-channel's `Sender`): a sending end of a
/// channel. It is carried through, never looked into.
#[verifier::external_type_specification]
#[verifier::external_body]
#[verifier::reject_recursive_types(T)]
pub struct ExChannelSender<T>(smol::channel::Sender<T>);

/// `smol::channel::Receiver` (async-channel's `Receiver`): the receiving end
/// of a channel. It is carried through, never looked into.
#[verifier::external_type_specification]
#[verifier::external_body]
#[verifier::reject_recursive_types(T)]
pub struct ExChannelReceiver<T>(smol::channel::Receiver<T>);

/// `smol::channel::unbounded` (async-channel's `unbounded`): a new channel
/// without a bound, as its two ends. Nothing is claimed of them.
pub assume_specification<T>[ smol::channel::unbounded::<T> ]() -> (ends: (
    smol::channel::Sender<T>,
    smol::channel::Receiver<T>,
));

/// `Clone::clone` of async-channel's `Sender`: one more sender for the same
/// channel. A sender is nothing but the channel it sends into, and the clone
/// holds that same channel: it is claimed to be the same sending end.
#[verifier::external_body]
fn sender_clone<T>(sender: &smol::channel::Sender<T>) -> (cloned: smol::channel::Sender<T>)
    ensures
        cloned == *sender,
{
    sender.clone()
}

/// How a process ended.
#[derive(PartialEq, Eq, Copy, Clone, Debug, Structural)]
pub enum Exit {
    Normal,
}

/// Some kind of message
#[derive(PartialEq, Eq, Copy, Clone, Debug, Structural)]
pub struct Msg;

/// Process Handle
pub struct Pid {
    sender: smol::channel::Sender<Msg>,
}

impl Pid {
    /// The sending end that the handle holds.
    pub closed spec fn sender(&self) -> smol::channel::Sender<Msg> {
        self.sender
    }

    pub fn new(sender: smol::channel::Sender<Msg>) -> (pid: Self)
        ensures
            pid.sender() == sender,
    {
        Pid { sender }
    }

    /// The sending end, for whoever does the sending.
    pub fn as_sender(&self) -> (sender: &smol::channel::Sender<Msg>)
        ensures
            *sender == self.sender(),
    {
        &self.sender
    }
}

impl Clone for Pid {
    /// A handle for the same process.
    fn clone(&self) -> (cloned: Self)
        ensures
            cloned.sender() == self.sender(),
    {
        Pid { sender: sender_clone(&self.sender) }
    }
}

/// In some kind of mailbox
pub struct Mailbox {
    receiver: smol::channel::Receiver<Msg>,
}

impl Mailbox {
    /// The receiving end that the mailbox holds.
    pub closed spec fn receiver(&self) -> smol::channel::Receiver<Msg> {
        self.receiver
    }

    pub fn new(receiver: smol::channel::Receiver<Msg>) -> (mailbox: Self)
        ensures
            mailbox.receiver() == receiver,
    {
        Mailbox { receiver }
    }

    /// The receiving end, for whoever does the waiting.
    pub fn as_receiver(&self) -> (receiver: &smol::channel::Receiver<Msg>)
        ensures
            *receiver == self.receiver(),
    {
        &self.receiver
    }
}

/// What a process function is given: the two ends of the process's own
/// channel.
pub struct Process {
    /// storing Pid allows sending to self
    pub pid: Pid,
    /// incoming messages
    pub mailbox: Mailbox,
}

impl Process {
    /// A process with a channel of its own: its pid and its mailbox are the
    /// two ends that one call of `unbounded` returned.
    pub fn new() -> (process: Self)
        ensures
            process.is_new(),
    {
        let channel = smol::channel::unbounded();
        Process::from_ends(channel.0, channel.1)
    }
}

/// Spawns a new process from the provided process function: the function is
/// called with a process of its own, the future it returns is handed to the
/// runtime, and the handle returned sends into the mailbox of that process.
pub fn spawn<F, Fut>(process_fn: F) -> (pid: Pid) where
    F: Fn(Process) -> Fut,
    Fut: Future<Output = Exit> + Send + 'static,

    requires
        forall|process: Process| process.is_new() ==> call_requires(process_fn, (process,)),
    ensures
        exists|process: Process, fut: Fut|
            {
                &&& process.is_new()
                &&& call_ensures(process_fn, (process,), fut)
                &&& handed_over::<Exit, Fut>(fut)
                &&& pid.sender() == process.pid.sender()
            },
{
    let process = Process::new();
    let pid = process.pid.clone();
    detach(process_fn(process));
    pid
}

impl Process {
    /// The pid and the mailbox of the process are the two ends that one call
    /// of `unbounded` returned: a channel of its own, with nothing in it.
    pub open spec fn is_new(&self) -> bool {
        call_ensures(
            smol::channel::unbounded::<Msg>,
            (),
            (self.pid.sender(), self.mailbox.receiver()),
        )
    }

    /// The process that has the two ends of a channel for its pid and its
    /// mailbox.
    pub fn from_ends(
        sender: smol::channel::Sender<Msg>,
        receiver: smol::channel::Receiver<Msg>,
    ) -> (process: Self)
        ensures
            process.pid.sender() == sender,
            process.mailbox.receiver() == receiver,
    {
        Process { pid: Pid::new(sender), mailbox: Mailbox::new(receiver) }
    }
}

} // verus!
