//! The process: the one owner of an actor's state, and the loop that takes
//! visitor operations out of the mailbox and applies them, one at a time.

use vstd::prelude::*;
use crate::erl::mailbox::{Mailbox, MailboxView, Received};
use crate::link::{ReplySender, SendError, UnboundedSender};
use crate::supervision::{Effect, Exit, Lifecycle, LifecycleView, Signal, SystemMsg, UntypedPid};

verus! {

/// An operation that is sent to a process and run there against its state.
///
/// The function in it is a plain function value. One that changes the state
/// takes it and gives back the state that is to stand in its place. One that
/// answers is given the sender of the reply as well, and decides itself
/// whether and when to send.
#[verifier::reject_recursive_types(Reply)]
pub enum Visitor<Reply, FR, FM, FRR, FMR> {
    /// Looks at the state.
    ReadOnly(FR),
    /// Replaces the state by the one it returns.
    Mutate(FM),
    /// Looks at the state, and is given the sender of the reply.
    ReadOnlyReply(FRR, ReplySender<Reply>),
    /// Replaces the state, and is given the sender of the reply.
    MutateReply(FMR, ReplySender<Reply>),
}

/// A process as a mathematical value.
pub struct ProcessView<State, Msg> {
    /// The state that the process owns; `None` once it has terminated.
    pub state: Option<State>,
    pub mailbox: MailboxView<Msg>,
    pub lifecycle: LifecycleView,
}

impl<State, Msg> ProcessView<State, Msg> {
    pub open spec fn running(self) -> bool {
        self.lifecycle.running()
    }

    /// The process after it terminated with `reason`: the state is released
    /// and the mailbox closed.
    pub open spec fn terminated(self, reason: Exit) -> ProcessView<State, Msg> {
        ProcessView {
            state: None,
            mailbox: self.mailbox.close(),
            lifecycle: self.lifecycle.terminated(reason),
        }
    }

    /// The process after its loop has taken every message that waited and left
    /// the state `last`. With a sender still alive it waits for more; with
    /// none the stream has ended, and the process terminates normally.
    pub open spec fn drained(self, last: State) -> ProcessView<State, Msg> {
        if self.mailbox.senders > 0 {
            ProcessView {
                state: Some(last),
                mailbox: MailboxView { queue: Seq::empty(), ..self.mailbox },
                lifecycle: self.lifecycle,
            }
        } else {
            self.terminated(Exit::Normal)
        }
    }

    /// The process after `msg` was put last in its mailbox.
    pub open spec fn queued(self, msg: Msg) -> ProcessView<State, Msg> {
        ProcessView { mailbox: self.mailbox.send(msg), ..self }
    }

    /// The process after one more handle was counted.
    pub open spec fn attached(self) -> ProcessView<State, Msg> {
        ProcessView { mailbox: self.mailbox.attach(), ..self }
    }

    /// The process after one handle less was counted.
    pub open spec fn detached(self) -> ProcessView<State, Msg> {
        ProcessView { mailbox: self.mailbox.detach(), ..self }
    }

    /// The process after it was told what a channel had for it.
    pub open spec fn accept(self, received: Received<Msg>) -> ProcessView<State, Msg> {
        ProcessView { mailbox: self.mailbox.accept(received), ..self }
    }

    /// The process after a signal: it takes the system message if the signal
    /// is addressed to it, and is left alone if not.
    pub open spec fn receive(self, signal: Signal) -> ProcessView<State, Msg> {
        if signal.to == self.lifecycle.pid {
            self.handle(signal.msg)
        } else {
            self
        }
    }

    /// The process after a system message.
    pub open spec fn handle(self, msg: SystemMsg) -> ProcessView<State, Msg> {
        if self.lifecycle.handle(msg).running() {
            ProcessView { lifecycle: self.lifecycle.handle(msg), ..self }
        } else if self.running() {
            ProcessView {
                state: None,
                mailbox: self.mailbox.close(),
                lifecycle: self.lifecycle.handle(msg),
            }
        } else {
            self
        }
    }

    /// The process after its body ended with `reason`.
    pub open spec fn stop(self, reason: Exit) -> ProcessView<State, Msg> {
        if self.running() && reason.terminal() {
            self.terminated(reason)
        } else {
            self
        }
    }
}

/// The process: exclusive owner of the state, single consumer of the mailbox.
#[verifier::reject_recursive_types(Reply)]
pub struct Process<State, Reply, FR, FM, FRR, FMR> {
    state: Option<State>,
    mailbox: Mailbox<Visitor<Reply, FR, FM, FRR, FMR>>,
    lifecycle: Lifecycle,
}

impl<State, Reply, FR, FM, FRR, FMR> View for Process<State, Reply, FR, FM, FRR, FMR> {
    type V = ProcessView<State, Visitor<Reply, FR, FM, FRR, FMR>>;

    closed spec fn view(&self) -> Self::V {
        ProcessView { state: self.state, mailbox: self.mailbox@, lifecycle: self.lifecycle@ }
    }
}

impl<State, Reply, FR, FM, FRR, FMR> Process<State, Reply, FR, FM, FRR, FMR> where
    FR: Fn(&State),
    FM: Fn(State) -> State,
    FRR: Fn(&State, ReplySender<Reply>),
    FMR: Fn(State, ReplySender<Reply>) -> State,
 {
    /// The visitor can be run against every state.
    pub open spec fn callable(visitor: Visitor<Reply, FR, FM, FRR, FMR>) -> bool {
        match visitor {
            Visitor::ReadOnly(f) => forall|s: State| call_requires(f, (&s,)),
            Visitor::Mutate(f) => forall|s: State| call_requires(f, (s,)),
            Visitor::ReadOnlyReply(f, tx) => forall|s: State| call_requires(f, (&s, tx)),
            Visitor::MutateReply(f, tx) => forall|s: State| call_requires(f, (s, tx)),
        }
    }

    /// Running `visitor` against the state `pre` can leave the state `post`:
    /// its function was called once, with the state and, where it answers,
    /// with the sender of the reply that came with it. A visitor that only
    /// reads leaves the state as it was.
    pub open spec fn visits(
        visitor: Visitor<Reply, FR, FM, FRR, FMR>,
        pre: State,
        post: State,
    ) -> bool {
        match visitor {
            Visitor::ReadOnly(f) => call_ensures(f, (&pre,), ()) && post == pre,
            Visitor::Mutate(f) => call_ensures(f, (pre,), post),
            Visitor::ReadOnlyReply(f, tx) => call_ensures(f, (&pre, tx), ()) && post == pre,
            Visitor::MutateReply(f, tx) => call_ensures(f, (pre, tx), post),
        }
    }

    /// The visitors `msgs` were run in their order, one after the other:
    /// `states[i]` is the state that the visitor `msgs[i]` found, and
    /// `states[i + 1]` the one it left.
    pub open spec fn ran(msgs: Seq<Visitor<Reply, FR, FM, FRR, FMR>>, states: Seq<State>) -> bool {
        &&& states.len() == msgs.len() + 1
        &&& forall|i: int|
            0 <= i < msgs.len() ==> Self::visits(msgs[i], states[i], #[trigger] states[i + 1])
    }

    /// A running process owns a state and has an open mailbox, a terminated
    /// one has neither; and every visitor that waits can be run.
    pub open spec fn wf(&self) -> bool {
        &&& self@.lifecycle.wf()
        &&& self@.mailbox.wf()
        &&& self@.running() <==> self@.state is Some
        &&& self@.running() <==> self@.mailbox.open
        &&& forall|i: int|
            0 <= i < self@.mailbox.queue.len() ==> Self::callable(#[trigger] self@.mailbox.queue[i])
    }

    /// A running process with the given identity and state, an empty mailbox
    /// with one sender, and no links.
    pub open spec fn fresh(pid: UntypedPid, state: State, trap_exit: bool) -> ProcessView<
        State,
        Visitor<Reply, FR, FM, FRR, FMR>,
    > {
        ProcessView {
            state: Some(state),
            mailbox: MailboxView { queue: Seq::empty(), senders: 1, open: true },
            lifecycle: LifecycleView { pid, links: Seq::empty(), trap_exit, exit: Exit::Continue },
        }
    }

    /// A running process with the given identity and state, an empty mailbox
    /// with one sender, and no links.
    pub fn new(pid: UntypedPid, state: State, trap_exit: bool) -> (process: Self)
        ensures
            process.wf(),
            process@ == Self::fresh(pid, state, trap_exit),
    {
        Process {
            state: Some(state),
            mailbox: Mailbox::new(),
            lifecycle: Lifecycle::new(pid, trap_exit),
        }
    }

    pub fn pid(&self) -> (pid: UntypedPid)
        ensures
            pid == self@.lifecycle.pid,
    {
        self.lifecycle.pid()
    }

    pub fn is_running(&self) -> (r: bool)
        ensures
            r == self@.running(),
    {
        self.lifecycle.is_running()
    }

    /// `Continue` while the process runs, else the reason it ended with.
    pub fn exit(&self) -> (reason: Exit)
        ensures
            reason == self@.lifecycle.exit,
    {
        self.lifecycle.exit()
    }

    /// The number of visitors that wait in the mailbox.
    pub fn pending(&self) -> (n: usize)
        ensures
            n == self@.mailbox.queue.len(),
    {
        self.mailbox.len()
    }

    /// Puts a visitor last in the mailbox. A terminated process takes none:
    /// the visitor comes back in the error.
    pub fn send(&mut self, msg: Visitor<Reply, FR, FM, FRR, FMR>) -> (r: Result<
        (),
        SendError<Visitor<Reply, FR, FM, FRR, FMR>>,
    >)
        requires
            old(self).wf(),
            Self::callable(msg),
        ensures
            final(self).wf(),
            final(self)@ == old(self)@.queued(msg),
            old(self)@.running() ==> r is Ok,
            !old(self)@.running() ==> r == Err::<(), SendError<Visitor<Reply, FR, FM, FRR, FMR>>>(
                SendError { message: msg },
            ),
    {
        self.mailbox.send(msg)
    }

    /// Takes what a channel had for this process: a visitor goes last in the
    /// mailbox, and the news that every sender is gone sets the count of
    /// handles to none, so that the loop ends once the mailbox is empty.
    pub fn accept(&mut self, received: Received<Visitor<Reply, FR, FM, FRR, FMR>>)
        requires
            old(self).wf(),
            received matches Received::Message(msg) ==> Self::callable(msg),
        ensures
            final(self).wf(),
            final(self)@ == old(self)@.accept(received),
    {
        let _ = self.mailbox.accept(received);
    }

    /// Runs one visitor against the state.
    fn dispatch(&mut self, msg: Visitor<Reply, FR, FM, FRR, FMR>)
        requires
            old(self).wf(),
            old(self)@.running(),
            Self::callable(msg),
        ensures
            final(self).wf(),
            final(self)@.state is Some,
            final(self)@ == (ProcessView { state: final(self)@.state, ..old(self)@ }),
            Self::visits(msg, old(self)@.state->0, final(self)@.state->0),
    {
        let state = self.state.take().unwrap();
        match msg {
            Visitor::ReadOnly(f) => {
                f(&state);
                self.state = Some(state);
            },
            Visitor::Mutate(f) => {
                let next = f(state);
                self.state = Some(next);
            },
            Visitor::ReadOnlyReply(f, tx) => {
                f(&state, tx);
                self.state = Some(state);
            },
            Visitor::MutateReply(f, tx) => {
                let next = f(state, tx);
                self.state = Some(next);
            },
        }
    }

    /// The process loop. It takes the visitors that wait out of the mailbox,
    /// oldest first, and runs each against the state that the one before left;
    /// the next one is not begun before the last has returned. It ends when the
    /// mailbox has nothing more: to wait, if a sender is still alive, or else
    /// for good, since the stream has ended.
    pub fn start(&mut self)
        requires
            old(self).wf(),
        ensures
            final(self).wf(),
            !old(self)@.running() ==> final(self)@ == old(self)@,
            old(self)@.running() ==> exists|states: Seq<State>|
                {
                    &&& Self::ran(old(self)@.mailbox.queue, states)
                    &&& states[0] == old(self)@.state->0
                    &&& final(self)@ == old(self)@.drained(states.last())
                },
    {
        if !self.lifecycle.is_running() {
            return ;
        }
        let ghost msgs = self@.mailbox.queue;
        let ghost mut states: Seq<State> = seq![self@.state->0];
        assert(msgs.subrange(0, 0) =~= Seq::empty());
        assert(msgs.subrange(0, msgs.len() as int) =~= msgs);
        loop
            invariant
                self.wf(),
                self@.running(),
                msgs == old(self)@.mailbox.queue,
                old(self)@.running(),
                old(self)@.mailbox.open,
                self@.lifecycle == old(self)@.lifecycle,
                self@.mailbox.senders == old(self)@.mailbox.senders,
                1 <= states.len() <= msgs.len() + 1,
                self@.mailbox.queue == msgs.subrange(states.len() - 1, msgs.len() as int),
                Self::ran(msgs.subrange(0, states.len() - 1), states),
                states[0] == old(self)@.state->0,
                states.last() == self@.state->0,
            decreases self@.mailbox.queue.len(),
        {
            match self.mailbox.recv() {
                Received::Message(msg) => {
                    let ghost done = states.len() - 1;
                    let ghost before = states;
                    assert(msg == msgs[done]);
                    assert(self@.mailbox.queue =~= msgs.subrange(done + 1, msgs.len() as int));
                    self.dispatch(msg);
                    proof {
                        states = states.push(self@.state->0);
                        assert forall|i: int| 0 <= i < done + 1 implies Self::visits(
                            msgs.subrange(0, done + 1)[i],
                            states[i],
                            #[trigger] states[i + 1],
                        ) by {
                            if i < done {
                                assert(msgs.subrange(0, done)[i] == msgs.subrange(0, done + 1)[i]);
                                assert(Self::visits(
                                    msgs.subrange(0, done)[i],
                                    before[i],
                                    before[i + 1],
                                ));
                            }
                        }
                    }
                },
                Received::Empty => {
                    assert(msgs.subrange(0, states.len() - 1) =~= msgs);
                    assert(self@.mailbox.queue =~= Seq::empty());
                    return ;
                },
                Received::Closed => {
                    assert(msgs.subrange(0, states.len() - 1) =~= msgs);
                    self.state = None;
                    self.mailbox.close();
                    let _ = self.lifecycle.finish(Exit::Normal);
                    return ;
                },
            }
        }
    }

    /// Takes one system message. The link set and the reaction to the exit of
    /// a peer are those of [`Lifecycle::handle`]; a process that this
    /// terminates releases its state and closes its mailbox.
    pub fn handle(&mut self, msg: SystemMsg) -> (effect: Effect)
        requires
            old(self).wf(),
        ensures
            final(self).wf(),
            final(self)@ == old(self)@.handle(msg),
            effect@ == old(self)@.lifecycle.effect(msg),
    {
        let was_running = self.lifecycle.is_running();
        let effect = self.lifecycle.handle(msg);
        if was_running && !self.lifecycle.is_running() {
            self.state = None;
            self.mailbox.close();
        }
        effect
    }

    /// Takes a signal: the system message in it is handled if the signal is
    /// addressed to this process, and dropped if it is not.
    pub fn receive(&mut self, signal: Signal) -> (effect: Effect)
        requires
            old(self).wf(),
        ensures
            final(self).wf(),
            final(self)@ == old(self)@.receive(signal),
            effect@ == if signal.to == old(self)@.lifecycle.pid {
                old(self)@.lifecycle.effect(signal.msg)
            } else {
                crate::supervision::EffectView::Proceed
            },
    {
        if signal.to == self.lifecycle.pid() {
            self.handle(signal.msg)
        } else {
            Effect::Proceed
        }
    }

    /// Ends the process with the reason that its body gave. A terminal reason
    /// ends a running process: the state is released, the mailbox closed, and
    /// the exit signals owed to the peers are returned. `Continue` ends
    /// nothing, and a terminated process stays as it is.
    pub fn stop(&mut self, reason: Exit) -> (signals: Vec<Signal>)
        requires
            old(self).wf(),
        ensures
            final(self).wf(),
            final(self)@ == old(self)@.stop(reason),
            signals@ == old(self)@.lifecycle.finish_signals(reason),
    {
        let was_running = self.lifecycle.is_running();
        let signals = self.lifecycle.finish(reason);
        if was_running && !self.lifecycle.is_running() {
            self.state = None;
            self.mailbox.close();
        }
        signals
    }

    /// Counts one more handle on this process.
    pub fn attach(&mut self)
        requires
            old(self).wf(),
        ensures
            final(self).wf(),
            final(self)@ == old(self)@.attached(),
    {
        self.mailbox.attach();
    }

    /// Counts one handle less on this process.
    pub fn detach(&mut self)
        requires
            old(self).wf(),
        ensures
            final(self).wf(),
            final(self)@ == old(self)@.detached(),
    {
        self.mailbox.detach();
    }

    /// Whatever state the visitor finds, it leaves the state `step` gives.
    pub open spec fn mutates_as(
        visitor: Visitor<Reply, FR, FM, FRR, FMR>,
        step: spec_fn(State) -> State,
    ) -> bool {
        match visitor {
            Visitor::Mutate(f) => forall|pre: State, post: State|
                call_ensures(f, (pre,), post) ==> post == step(pre),
            _ => false,
        }
    }

    /// Whatever state the visitor finds, it leaves the state `step` gives. For
    /// a visitor that only reads, the step leaves every state as it is.
    pub open spec fn acts_as(
        visitor: Visitor<Reply, FR, FM, FRR, FMR>,
        step: spec_fn(State) -> State,
    ) -> bool {
        match visitor {
            Visitor::ReadOnly(f) => forall|s: State| #[trigger] step(s) == s,
            Visitor::Mutate(f) => forall|pre: State, post: State|
                call_ensures(f, (pre,), post) ==> post == step(pre),
            Visitor::ReadOnlyReply(f, tx) => forall|s: State| #[trigger] step(s) == s,
            Visitor::MutateReply(f, tx) => forall|pre: State, post: State|
                call_ensures(f, (pre, tx), post) ==> post == step(pre),
        }
    }

    /// The left-to-right fold of `steps` over `first`: every step is applied to
    /// what the one before it gave.
    pub open spec fn fold(steps: Seq<spec_fn(State) -> State>, first: State) -> State {
        steps.fold_left(first, |s: State, step: spec_fn(State) -> State| step(s))
    }

    /// A run that is cut short after its first `n` visitors is a run.
    pub proof fn lemma_ran_prefix(
        msgs: Seq<Visitor<Reply, FR, FM, FRR, FMR>>,
        states: Seq<State>,
        n: int,
    )
        requires
            Self::ran(msgs, states),
            0 <= n <= msgs.len(),
        ensures
            Self::ran(msgs.subrange(0, n), states.subrange(0, n + 1)),
    {
        let (m, s) = (msgs.subrange(0, n), states.subrange(0, n + 1));
        assert forall|i: int| 0 <= i < m.len() implies Self::visits(
            m[i],
            s[i],
            #[trigger] s[i + 1],
        ) by {
            assert(Self::visits(msgs[i], states[i], states[i + 1]));
        }
    }

    /// Whatever the visitors of a run are, the state that the last one leaves
    /// is the left-to-right fold of their steps over the first state.
    pub proof fn law_run_folds(
        msgs: Seq<Visitor<Reply, FR, FM, FRR, FMR>>,
        states: Seq<State>,
        steps: Seq<spec_fn(State) -> State>,
    )
        requires
            Self::ran(msgs, states),
            steps.len() == msgs.len(),
            forall|i: int| 0 <= i < msgs.len() ==> Self::acts_as(msgs[i], #[trigger] steps[i]),
        ensures
            states.last() == Self::fold(steps, states[0]),
        decreases msgs.len(),
    {
        if msgs.len() > 0 {
            let n = msgs.len() as int;
            let (m, s, t) = (msgs.drop_last(), states.drop_last(), steps.drop_last());
            Self::lemma_ran_prefix(msgs, states, n - 1);
            assert(m =~= msgs.subrange(0, n - 1));
            assert(s =~= states.subrange(0, n));
            assert forall|i: int| 0 <= i < m.len() implies Self::acts_as(
                m[i],
                #[trigger] t[i],
            ) by {
                assert(Self::acts_as(msgs[i], steps[i]));
            }
            Self::law_run_folds(m, s, t);
            assert(Self::visits(msgs[n - 1], states[n - 1], states[n]));
            assert(Self::acts_as(msgs[n - 1], steps[n - 1]));
            assert(s.last() == states[n - 1]);
        }
    }

    /// Single-writer serialization. Whatever the first state and however many
    /// mutations are run one after the other, the state that the last one
    /// leaves is the left-to-right fold of the mutations over the first state.
    pub proof fn law_mutations_fold(
        msgs: Seq<Visitor<Reply, FR, FM, FRR, FMR>>,
        states: Seq<State>,
        steps: Seq<spec_fn(State) -> State>,
    )
        requires
            Self::ran(msgs, states),
            steps.len() == msgs.len(),
            forall|i: int| 0 <= i < msgs.len() ==> Self::mutates_as(msgs[i], #[trigger] steps[i]),
        ensures
            states.last() == Self::fold(steps, states[0]),
    {
        assert forall|i: int| 0 <= i < msgs.len() implies Self::acts_as(
            msgs[i],
            #[trigger] steps[i],
        ) by {
            assert(Self::mutates_as(msgs[i], steps[i]));
        }
        Self::law_run_folds(msgs, states, steps);
    }

    /// Every request is served once, on the state at the moment its visitor
    /// ran. In any run, whatever the visitors are and whatever the order in
    /// which the requests of different handles came to stand in the mailbox,
    /// the function of the request at place `i` was called exactly with the
    /// sender of the reply that came with that request and with the state that
    /// the visitors before it left, not the state at the time the request was
    /// made: that state is the fold of their steps over the first state. A
    /// request that only reads leaves the state as it found it.
    pub proof fn law_reply_from_state_at_run(
        msgs: Seq<Visitor<Reply, FR, FM, FRR, FMR>>,
        states: Seq<State>,
        i: int,
        steps: Seq<spec_fn(State) -> State>,
    )
        requires
            Self::ran(msgs, states),
            0 <= i < msgs.len(),
            steps.len() == i,
            forall|j: int| 0 <= j < i ==> Self::acts_as(msgs[j], #[trigger] steps[j]),
        ensures
            states[i] == Self::fold(steps, states[0]),
            msgs[i] matches Visitor::ReadOnlyReply(f, tx) ==> call_ensures(
                f,
                (&Self::fold(steps, states[0]), tx),
                (),
            ) && states[i + 1] == states[i],
            msgs[i] matches Visitor::MutateReply(f, tx) ==> call_ensures(
                f,
                (Self::fold(steps, states[0]), tx),
                states[i + 1],
            ),
    {
        Self::lemma_ran_prefix(msgs, states, i);
        let (m, s) = (msgs.subrange(0, i), states.subrange(0, i + 1));
        assert forall|j: int| 0 <= j < m.len() implies Self::acts_as(
            m[j],
            #[trigger] steps[j],
        ) by {
            assert(Self::acts_as(msgs[j], steps[j]));
        }
        Self::law_run_folds(m, s, steps);
        assert(s.last() == states[i]);
        assert(Self::visits(msgs[i], states[i], states[i + 1]));
    }

    /// Once every handle is gone, the loop ends for good: a running process
    /// without senders that has taken what waited terminates normally, gives
    /// up its state and closes its mailbox.
    pub proof fn law_end_of_stream_terminates(
        process: ProcessView<State, Visitor<Reply, FR, FM, FRR, FMR>>,
        last: State,
    )
        requires
            process.running(),
            process.mailbox.senders == 0,
        ensures
            !process.drained(last).running(),
            process.drained(last).lifecycle.exit == Exit::Normal,
            process.drained(last).state is None,
            !process.drained(last).mailbox.open,
    {
    }
}

/// The types that make up a kind of process.
pub trait ProcessType {
    /// The state that the process owns.
    type State;

    /// What its visitors reply with.
    type Reply;

    /// What its mailbox holds.
    type Msg;
}

impl<State, Reply, FR, FM, FRR, FMR> ProcessType for Process<State, Reply, FR, FM, FRR, FMR> {
    type State = State;

    type Reply = Reply;

    type Msg = Visitor<Reply, FR, FM, FRR, FMR>;
}

/// A handle that carries messages of one type across threads to the process
/// that holds the other end of the channel.
#[verifier::reject_recursive_types(Msg)]
pub struct Pid<Msg> {
    sender: UnboundedSender<Msg>,
}

impl<Msg> Pid<Msg> {
    pub fn new(sender: UnboundedSender<Msg>) -> (pid: Pid<Msg>)
        ensures pid.sender() == sender,
    { Pid { sender } }

    /// Sends without waiting. Where the process is gone the message comes
    /// back in the error.
    pub fn send(&self, msg: Msg) -> (r: Result<(), SendError<Msg>>)
        ensures
            exists|answer: Result<(), Msg>|
                self.sender().answered(msg, answer) && r == SendError::after(answer),
            r is Err ==> r->Err_0.message == msg,
    {
        self.sender.send(msg)
    }

    /// The sending end that the handle holds.
    pub closed spec fn sender(&self) -> UnboundedSender<Msg> {
        self.sender
    }
}

} // verus!
