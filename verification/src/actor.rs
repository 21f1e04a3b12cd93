//! The actor handle, through which a caller schedules operations against the
//! state of a process, and the reusable definition from which actors are
//! spawned.

use vstd::prelude::*;
use std::future::Future;
use crate::erl::mailbox::Received;
use crate::link::{new_reply, reply_pair, RecvError, ReplyReceiver, ReplySender, SendError};
use crate::process::{Process, ProcessView, Visitor};
use crate::runtime::{detach, handed_over};
use crate::supervision::{Exit, UntypedPid};

verus! {

/// The execution context that a new actor is given.
pub struct Context {}

/// An actor whose body is being run.
pub struct Running {}

/// Why an actor ended.
#[derive(PartialEq, Eq, Copy, Clone, Debug, Structural)]
pub enum Reason {
    Normal,
    Fault,
}

impl Reason {
    /// The exit reason that supervision knows this reason by.
    pub open spec fn as_exit(self) -> Exit {
        match self {
            Reason::Normal => Exit::Normal,
            Reason::Fault => Exit::Error,
        }
    }

    /// The exit reason that supervision knows this reason by: always a
    /// terminal one, abnormal for a fault.
    pub fn exit(&self) -> (exit: Exit)
        ensures
            exit == self.as_exit(),
            exit.terminal(),
    {
        match self {
            Reason::Normal => Exit::Normal,
            Reason::Fault => Exit::Error,
        }
    }
}

/// An actor whose body has ended.
pub struct Exited {
    reason: Reason,
}

impl Running {
    pub fn new() -> Running {
        Running {  }
    }

    /// Ends the run with the reason that the body gave.
    pub fn exited(self, reason: Reason) -> (exited: Exited)
        ensures
            exited.reason() == reason,
    {
        Exited::new(reason)
    }
}

impl Exited {
    pub closed spec fn reason(&self) -> Reason {
        self.reason
    }

    pub fn new(reason: Reason) -> (exited: Exited)
        ensures
            exited.reason() == reason,
    {
        Exited { reason }
    }

    /// Why the actor ended.
    pub fn why(&self) -> (reason: Reason)
        ensures
            reason == self.reason(),
    {
        self.reason
    }
}

/// A handle on one process. It names the process and nothing else: whoever
/// holds it can have operations queued for the process, and cannot touch the
/// state.
pub struct Actor {
    pid: UntypedPid,
}

impl Actor {
    /// The process that this handle is for.
    pub closed spec fn target(&self) -> UntypedPid {
        self.pid
    }

    /// The handle reaches the process: it is the one the handle is for, and it
    /// still runs. A handle may outlive its process; its calls then fail as on
    /// a closed channel.
    pub open spec fn reaches<State, Msg>(&self, process: ProcessView<State, Msg>) -> bool {
        process.running() && process.lifecycle.pid == self.target()
    }

    /// A handle for the process with the given identity.
    pub(crate) fn new(pid: UntypedPid) -> (actor: Actor)
        ensures
            actor.target() == pid,
    {
        Actor { pid }
    }

    pub fn pid(&self) -> (pid: UntypedPid)
        ensures
            pid == self.target(),
    {
        self.pid
    }

    /// Starts one actor: `actor_fn` is given a fresh context, and the future
    /// it returns is handed to the runtime, which runs it to its end beside
    /// the caller. The call does not wait for the actor to begin.
    fn spawn<ActorFn, Fut>(actor_fn: &ActorFn) -> (actor: Actor) where
        ActorFn: Fn(Context) -> Fut,
        Fut: Future<Output = Reason> + Send + 'static,

        requires
            call_requires(*actor_fn, (Context {  },)),
        ensures
            actor.target() == (UntypedPid { id: 0 }),
            exists|fut: Fut|
                call_ensures(*actor_fn, (Context {  },), fut) && handed_over::<Reason, Fut>(fut),
    {
        let context = Context {  };
        let actor_fut = actor_fn(context);
        detach(actor_fut);
        Actor { pid: UntypedPid { id: 0 } }
    }

    fn connected<State, Reply, FR, FM, FRR, FMR>(
        &self,
        process: &Process<State, Reply, FR, FM, FRR, FMR>,
    ) -> (r: bool) where
        FR: Fn(&State),
        FM: Fn(State) -> State,
        FRR: Fn(&State, ReplySender<Reply>),
        FMR: Fn(State, ReplySender<Reply>) -> State,

        ensures
            r == self.reaches(process@),
    {
        process.is_running() && process.pid() == self.pid
    }

    /// A second handle for the same process. The process counts it, if the
    /// handle reaches it.
    pub fn duplicate<State, Reply, FR, FM, FRR, FMR>(
        &self,
        process: &mut Process<State, Reply, FR, FM, FRR, FMR>,
    ) -> (actor: Actor) where
        FR: Fn(&State),
        FM: Fn(State) -> State,
        FRR: Fn(&State, ReplySender<Reply>),
        FMR: Fn(State, ReplySender<Reply>) -> State,

        requires
            old(process).wf(),
        ensures
            actor.target() == self.target(),
            final(process).wf(),
            self.reaches(old(process)@) ==> final(process)@ == old(process)@.attached(),
            !self.reaches(old(process)@) ==> final(process)@ == old(process)@,
    {
        if self.connected(process) {
            process.attach();
        }
        Actor { pid: self.pid }
    }

    /// Gives the handle up. The process counts one handle less, if the handle
    /// reaches it; once none is left, its loop ends the next time it has taken
    /// what waits.
    pub fn release<State, Reply, FR, FM, FRR, FMR>(
        self,
        process: &mut Process<State, Reply, FR, FM, FRR, FMR>,
    ) where
        FR: Fn(&State),
        FM: Fn(State) -> State,
        FRR: Fn(&State, ReplySender<Reply>),
        FMR: Fn(State, ReplySender<Reply>) -> State,

        requires
            old(process).wf(),
        ensures
            final(process).wf(),
            self.reaches(old(process)@) ==> final(process)@ == old(process)@.detached(),
            !self.reaches(old(process)@) ==> final(process)@ == old(process)@,
    {
        if self.connected(process) {
            process.detach();
        }
    }

    /// Queues `f` to look at the state. Nothing comes back; where the handle
    /// does not reach the process, `f` is returned in the error and nothing is
    /// queued.
    pub fn call_ref<State, Reply, FR, FM, FRR, FMR>(
        &self,
        process: &mut Process<State, Reply, FR, FM, FRR, FMR>,
        f: FR,
    ) -> (r: Result<(), SendError<FR>>) where
        FR: Fn(&State),
        FM: Fn(State) -> State,
        FRR: Fn(&State, ReplySender<Reply>),
        FMR: Fn(State, ReplySender<Reply>) -> State,

        requires
            old(process).wf(),
            forall|s: State| call_requires(f, (&s,)),
        ensures
            final(process).wf(),
            self.reaches(old(process)@) ==> r is Ok && final(process)@ == old(process)@.queued(
                Visitor::ReadOnly(f),
            ),
            !self.reaches(old(process)@) ==> r == Err::<(), SendError<FR>>(
                SendError { message: f },
            ) && final(process)@ == old(process)@,
    {
        if self.connected(process) {
            let _ = process.send(Visitor::ReadOnly(f));
            Ok(())
        } else {
            Err(SendError { message: f })
        }
    }

    /// Queues `f` to replace the state. Nothing comes back; where the handle
    /// does not reach the process, `f` is returned in the error and nothing is
    /// queued.
    pub fn call_ref_mut<State, Reply, FR, FM, FRR, FMR>(
        &self,
        process: &mut Process<State, Reply, FR, FM, FRR, FMR>,
        f: FM,
    ) -> (r: Result<(), SendError<FM>>) where
        FR: Fn(&State),
        FM: Fn(State) -> State,
        FRR: Fn(&State, ReplySender<Reply>),
        FMR: Fn(State, ReplySender<Reply>) -> State,

        requires
            old(process).wf(),
            forall|s: State| call_requires(f, (s,)),
        ensures
            final(process).wf(),
            self.reaches(old(process)@) ==> r is Ok && final(process)@ == old(process)@.queued(
                Visitor::Mutate(f),
            ),
            !self.reaches(old(process)@) ==> r == Err::<(), SendError<FM>>(
                SendError { message: f },
            ) && final(process)@ == old(process)@,
    {
        if self.connected(process) {
            let _ = process.send(Visitor::Mutate(f));
            Ok(())
        } else {
            Err(SendError { message: f })
        }
    }

    /// Queues `f` with the sender of a fresh reply and takes the answer: the
    /// process runs everything that waits, `f` last, the receiving half of
    /// the reply is then asked once, and the call returns what it gave. It
    /// fails where the handle does not reach the process, and where `f` has
    /// dropped the sender or kept it for later.
    pub fn call_ref_reply<State, Reply, FR, FM, FRR, FMR>(
        &self,
        process: &mut Process<State, Reply, FR, FM, FRR, FMR>,
        f: FRR,
    ) -> (r: Result<Reply, RecvError>) where
        FR: Fn(&State),
        FM: Fn(State) -> State,
        FRR: Fn(&State, ReplySender<Reply>),
        FMR: Fn(State, ReplySender<Reply>) -> State,

        requires
            old(process).wf(),
            forall|s: State, tx: ReplySender<Reply>| call_requires(f, (&s, tx)),
        ensures
            final(process).wf(),
            !self.reaches(old(process)@) ==> {
                &&& r == Err::<Reply, RecvError>(RecvError)
                &&& final(process)@ == old(process)@
            },
            self.reaches(old(process)@) ==> exists|
                tx: ReplySender<Reply>,
                rx: ReplyReceiver<Reply>,
                states: Seq<State>,
                found: Received<Reply>,
            |
                {
                    &&& reply_pair(tx, rx)
                    &&& Process::<State, Reply, FR, FM, FRR, FMR>::ran(
                        old(process)@.mailbox.queue.push(Visitor::ReadOnlyReply(f, tx)),
                        states,
                    )
                    &&& states[0] == old(process)@.state->0
                    &&& final(process)@ == old(process)@.drained(states.last())
                    &&& rx.asked(found)
                    &&& r == RecvError::after(found)
                },
    {
        if !self.connected(process) {
            return Err(RecvError);
        }
        let (tx, rx) = new_reply();
        let _ = process.send(Visitor::ReadOnlyReply(f, tx));
        let ghost sent = process@;
        process.start();
        proof {
            let states = choose|states: Seq<State>|
                {
                    &&& Process::<State, Reply, FR, FM, FRR, FMR>::ran(sent.mailbox.queue, states)
                    &&& states[0] == sent.state->0
                    &&& process@ == sent.drained(states.last())
                };
            assert(process@ =~= old(process)@.drained(states.last()));
        }
        let mut rx = rx;
        RecvError::arrived(rx.try_recv())
    }

    /// Queues `f` with the sender of a fresh reply and takes the answer, as
    /// [`Actor::call_ref_reply`] does, for a visitor that replaces the state.
    pub fn call_ref_mut_reply<State, Reply, FR, FM, FRR, FMR>(
        &self,
        process: &mut Process<State, Reply, FR, FM, FRR, FMR>,
        f: FMR,
    ) -> (r: Result<Reply, RecvError>) where
        FR: Fn(&State),
        FM: Fn(State) -> State,
        FRR: Fn(&State, ReplySender<Reply>),
        FMR: Fn(State, ReplySender<Reply>) -> State,

        requires
            old(process).wf(),
            forall|s: State, tx: ReplySender<Reply>| call_requires(f, (s, tx)),
        ensures
            final(process).wf(),
            !self.reaches(old(process)@) ==> {
                &&& r == Err::<Reply, RecvError>(RecvError)
                &&& final(process)@ == old(process)@
            },
            self.reaches(old(process)@) ==> exists|
                tx: ReplySender<Reply>,
                rx: ReplyReceiver<Reply>,
                states: Seq<State>,
                found: Received<Reply>,
            |
                {
                    &&& reply_pair(tx, rx)
                    &&& Process::<State, Reply, FR, FM, FRR, FMR>::ran(
                        old(process)@.mailbox.queue.push(Visitor::MutateReply(f, tx)),
                        states,
                    )
                    &&& states[0] == old(process)@.state->0
                    &&& final(process)@ == old(process)@.drained(states.last())
                    &&& rx.asked(found)
                    &&& r == RecvError::after(found)
                },
    {
        if !self.connected(process) {
            return Err(RecvError);
        }
        let (tx, rx) = new_reply();
        let _ = process.send(Visitor::MutateReply(f, tx));
        let ghost sent = process@;
        process.start();
        proof {
            let states = choose|states: Seq<State>|
                {
                    &&& Process::<State, Reply, FR, FM, FRR, FMR>::ran(sent.mailbox.queue, states)
                    &&& states[0] == sent.state->0
                    &&& process@ == sent.drained(states.last())
                };
            assert(process@ =~= old(process)@.drained(states.last()));
        }
        let mut rx = rx;
        RecvError::arrived(rx.try_recv())
    }
}

/// A process that owns `initial_state`, and the first handle on it. The
/// process stands alone, under the identity zero, which no stage gives out;
/// it does not trap exits. Every process that stands alone has this one
/// identity: their handles are told apart only by the process that a call is
/// made on. Processes that are to be told apart come from a stage.
pub fn new_with_state<State, Reply, FR, FM, FRR, FMR>(initial_state: State) -> (pair: (
    Process<State, Reply, FR, FM, FRR, FMR>,
    Actor,
)) where
    FR: Fn(&State),
    FM: Fn(State) -> State,
    FRR: Fn(&State, ReplySender<Reply>),
    FMR: Fn(State, ReplySender<Reply>) -> State,

    ensures
        pair.0.wf(),
        pair.0@ == Process::<State, Reply, FR, FM, FRR, FMR>::fresh(
            UntypedPid { id: 0 },
            initial_state,
            false,
        ),
        pair.1.reaches(pair.0@),
{
    let pid = UntypedPid { id: 0 };
    (Process::new(pid, initial_state, false), Actor::new(pid))
}

/// A reusable definition of an actor: any number of actors can be spawned
/// from it, each on its own.
pub struct Spec<ActorFn> {
    actor_fn: ActorFn,
}

impl<ActorFn, Fut> Spec<ActorFn> where
    ActorFn: Fn(Context) -> Fut + 'static,
    Fut: Future<Output = Reason> + Send + 'static,
 {
    /// The function from a context to the future that is the actor's body.
    pub closed spec fn definition(&self) -> ActorFn {
        self.actor_fn
    }

    /// Creates a new Spec, which spawns actors from the ActorFn.
    pub fn new(actor_fn: ActorFn) -> (spec: Self)
        ensures
            spec.definition() == actor_fn,
    {
        Spec { actor_fn }
    }

    /// Spawns an Actor defined by this Spec: the definition is called once
    /// with a fresh context, and the future it gives is handed to the runtime.
    pub fn spawn(&self)
        requires
            call_requires(self.definition(), (Context {  },)),
        ensures
            exists|fut: Fut|
                call_ensures(self.definition(), (Context {  },), fut) && handed_over::<
                    Reason,
                    Fut,
                >(fut),
    {
        let _ = Actor::spawn(&self.actor_fn);
    }
}

} // verus!
