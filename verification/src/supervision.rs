//! Exit reasons, system messages and the link set of one process.
//!
//! Everything here is untyped: a process is known by its [`UntypedPid`] only,
//! and the only thing that can be addressed to it is a [`SystemMsg`].

use vstd::prelude::*;

verus! {

/// What an actor body answers after a message, and how a process ended.
#[derive(PartialEq, Eq, Copy, Clone, Debug, Structural)]
pub enum Exit {
    /// Keep running. Never the reason of a termination.
    Continue,
    /// Clean termination: linked processes keep running.
    Normal,
    /// Termination with a failure: linked processes are told.
    Error,
}

impl Exit {
    /// A reason that ends the process.
    pub open spec fn terminal(self) -> bool {
        self != Exit::Continue
    }

    /// A reason that is propagated to linked processes.
    pub open spec fn abnormal(self) -> bool {
        self == Exit::Error
    }

    pub fn is_terminal(&self) -> (r: bool)
        ensures
            r == self.terminal(),
    {
        *self != Exit::Continue
    }

    pub fn is_abnormal(&self) -> (r: bool)
        ensures
            r == self.abnormal(),
    {
        *self == Exit::Error
    }
}

/// The identity of a process, able to carry system messages only.
#[derive(PartialEq, Eq, Copy, Clone, Debug, Structural)]
pub struct UntypedPid {
    pub id: u64,
}

/// Messages that every process handles itself, whatever its state type.
#[derive(PartialEq, Eq, Copy, Clone, Debug, Structural)]
pub enum SystemMsg {
    /// Register the peer in the link set.
    Link(UntypedPid),
    /// Remove the peer from the link set.
    Unlink(UntypedPid),
    /// A linked process terminated with this reason.
    LinkExit(Exit),
}

/// What arrives at a process loop: a system message or one of its own.
pub enum ProcessMsg<P> {
    System(SystemMsg),
    Process(P),
}

/// A system message together with the process it is meant for.
#[derive(PartialEq, Eq, Copy, Clone, Debug, Structural)]
pub struct Signal {
    pub to: UntypedPid,
    pub msg: SystemMsg,
}

impl UntypedPid {
    /// Addresses `msg` to this process.
    pub fn send(&self, msg: SystemMsg) -> (signal: Signal)
        ensures
            signal == (Signal { to: *self, msg }),
    {
        Signal { to: *self, msg }
    }

    /// The two registrations that link `self` and `other`: each is told of the
    /// other. The link stands once both have been handled.
    pub fn link(&self, other_pid: &UntypedPid) -> (signals: (Signal, Signal))
        ensures
            signals.0 == (Signal { to: *self, msg: SystemMsg::Link(*other_pid) }),
            signals.1 == (Signal { to: *other_pid, msg: SystemMsg::Link(*self) }),
    {
        (self.send(SystemMsg::Link(*other_pid)), other_pid.send(SystemMsg::Link(*self)))
    }

    /// The two removals that undo a link between `self` and `other`.
    pub fn unlink(&self, other_pid: &UntypedPid) -> (signals: (Signal, Signal))
        ensures
            signals.0 == (Signal { to: *self, msg: SystemMsg::Unlink(*other_pid) }),
            signals.1 == (Signal { to: *other_pid, msg: SystemMsg::Unlink(*self) }),
    {
        (self.send(SystemMsg::Unlink(*other_pid)), other_pid.send(SystemMsg::Unlink(*self)))
    }
}

/// What the driver of a process has to do after the process took a message.
pub enum Effect {
    /// Nothing: the process goes on.
    Proceed,
    /// The process traps exits: the reason goes to the actor body as an
    /// ordinary message.
    Trapped(Exit),
    /// The process has terminated: these signals go out to its former peers.
    Exited(Vec<Signal>),
}

/// The mathematical value of an [`Effect`].
pub enum EffectView {
    Proceed,
    Trapped(Exit),
    Exited(Seq<Signal>),
}

impl View for Effect {
    type V = EffectView;

    open spec fn view(&self) -> EffectView {
        match *self {
            Effect::Proceed => EffectView::Proceed,
            Effect::Trapped(reason) => EffectView::Trapped(reason),
            Effect::Exited(signals) => EffectView::Exited(signals@),
        }
    }
}

/// The supervision state of one process as a mathematical value.
pub struct LifecycleView {
    pub pid: UntypedPid,
    /// The link set, in the order in which the peers were registered.
    pub links: Seq<UntypedPid>,
    pub trap_exit: bool,
    /// `Continue` while the process runs, its reason once it has terminated.
    pub exit: Exit,
}

impl LifecycleView {
    /// No peer stands twice in the link set, and a terminated process has none.
    pub open spec fn wf(self) -> bool {
        &&& self.links.no_duplicates()
        &&& !self.running() ==> self.links.len() == 0
    }

    pub open spec fn running(self) -> bool {
        self.exit == Exit::Continue
    }

    pub open spec fn linked(self, peer: UntypedPid) -> bool {
        self.links.contains(peer)
    }

    /// The state after `Link(peer)`: the peer is in the link set, once.
    pub open spec fn link(self, peer: UntypedPid) -> LifecycleView {
        if self.linked(peer) {
            self
        } else {
            LifecycleView { links: self.links.push(peer), ..self }
        }
    }

    /// The state after `Unlink(peer)`: the peer is gone from the link set.
    pub open spec fn unlink(self, peer: UntypedPid) -> LifecycleView {
        LifecycleView { links: self.links.filter(Self::other_than(peer)), ..self }
    }

    /// The test that keeps every peer but `peer`.
    pub open spec fn other_than(peer: UntypedPid) -> spec_fn(UntypedPid) -> bool {
        |p: UntypedPid| p != peer
    }

    /// The exit signals that go out when the process ends with `reason`: for
    /// an abnormal reason one `LinkExit(reason)` for each peer, in the order of
    /// the link set, and none at all after a clean end.
    pub open spec fn exit_signals(self, reason: Exit) -> Seq<Signal> {
        if reason.abnormal() {
            Seq::new(
                self.links.len(),
                |i: int| Signal { to: self.links[i], msg: SystemMsg::LinkExit(reason) },
            )
        } else {
            Seq::empty()
        }
    }

    /// The terminated state: the reason is recorded and the link set released.
    pub open spec fn terminated(self, reason: Exit) -> LifecycleView {
        LifecycleView { links: Seq::empty(), exit: reason, ..self }
    }

    /// Whether `LinkExit(reason)` forces this process to terminate.
    pub open spec fn forced_by(self, reason: Exit) -> bool {
        self.running() && reason.abnormal() && !self.trap_exit
    }

    /// The state after a system message. A terminated process takes none.
    pub open spec fn handle(self, msg: SystemMsg) -> LifecycleView {
        if !self.running() {
            self
        } else {
            match msg {
                SystemMsg::Link(peer) => self.link(peer),
                SystemMsg::Unlink(peer) => self.unlink(peer),
                SystemMsg::LinkExit(reason) => if self.forced_by(reason) {
                    self.terminated(reason)
                } else {
                    self
                },
            }
        }
    }

    /// What the driver has to do after a system message.
    pub open spec fn effect(self, msg: SystemMsg) -> EffectView {
        if !self.running() {
            EffectView::Proceed
        } else {
            match msg {
                SystemMsg::LinkExit(reason) => if self.trap_exit {
                    EffectView::Trapped(reason)
                } else if reason.abnormal() {
                    EffectView::Exited(self.exit_signals(reason))
                } else {
                    EffectView::Proceed
                },
                _ => EffectView::Proceed,
            }
        }
    }

    /// The state after the actor body answered `reason`.
    pub open spec fn finish(self, reason: Exit) -> LifecycleView {
        if self.running() && reason.terminal() {
            self.terminated(reason)
        } else {
            self
        }
    }

    /// The signals that go out after the actor body answered `reason`.
    pub open spec fn finish_signals(self, reason: Exit) -> Seq<Signal> {
        if self.running() && reason.terminal() {
            self.exit_signals(reason)
        } else {
            Seq::empty()
        }
    }
}

/// The supervision state of one process: who it is, whether it still runs,
/// whether it traps exits, and the peers it is linked to.
pub struct Lifecycle {
    pid: UntypedPid,
    links: Vec<UntypedPid>,
    trap_exit: bool,
    exit: Exit,
}

impl View for Lifecycle {
    type V = LifecycleView;

    closed spec fn view(&self) -> LifecycleView {
        LifecycleView {
            pid: self.pid,
            links: self.links@,
            trap_exit: self.trap_exit,
            exit: self.exit,
        }
    }
}

impl Lifecycle {
    /// The state is a valid one: see [`LifecycleView::wf`].
    pub open spec fn wf(&self) -> bool {
        self@.wf()
    }

    /// A running process without links.
    pub fn new(pid: UntypedPid, trap_exit: bool) -> (lifecycle: Lifecycle)
        ensures
            lifecycle.wf(),
            lifecycle@ == (LifecycleView {
                pid,
                links: Seq::empty(),
                trap_exit,
                exit: Exit::Continue,
            }),
    {
        Lifecycle { pid, links: Vec::new(), trap_exit, exit: Exit::Continue }
    }

    pub fn pid(&self) -> (pid: UntypedPid)
        ensures
            pid == self@.pid,
    {
        self.pid
    }

    pub fn is_running(&self) -> (r: bool)
        ensures
            r == self@.running(),
    {
        self.exit == Exit::Continue
    }

    /// `Continue` while the process runs, else the reason it ended with.
    pub fn exit(&self) -> (reason: Exit)
        ensures
            reason == self@.exit,
    {
        self.exit
    }

    pub fn traps_exits(&self) -> (r: bool)
        ensures
            r == self@.trap_exit,
    {
        self.trap_exit
    }

    /// Switches trap-exit mode on or off.
    pub fn set_trap_exit(&mut self, trap_exit: bool)
        ensures
            final(self)@ == (LifecycleView { trap_exit, ..old(self)@ }),
    {
        self.trap_exit = trap_exit;
    }

    pub fn is_linked(&self, peer: UntypedPid) -> (r: bool)
        ensures
            r == self@.linked(peer),
    {
        let mut i: usize = 0;
        while i < self.links.len()
            invariant
                i <= self.links.len(),
                forall|j: int| 0 <= j < i ==> self.links@[j] != peer,
            decreases self.links.len() - i,
        {
            if self.links[i] == peer {
                return true;
            }
            i += 1;
        }
        false
    }

    /// The number of peers in the link set.
    pub fn link_count(&self) -> (n: usize)
        ensures
            n == self@.links.len(),
    {
        self.links.len()
    }

    fn link(&mut self, peer: UntypedPid)
        requires
            old(self).wf(),
            old(self)@.running(),
        ensures
            final(self).wf(),
            final(self)@ == old(self)@.link(peer),
    {
        if !self.is_linked(peer) {
            self.links.push(peer);
        }
    }

    fn unlink(&mut self, peer: UntypedPid)
        requires
            old(self).wf(),
        ensures
            final(self).wf(),
            final(self)@ == old(self)@.unlink(peer),
    {
        let ghost keep = LifecycleView::other_than(peer);
        let mut kept: Vec<UntypedPid> = Vec::new();
        let mut i: usize = 0;
        while i < self.links.len()
            invariant
                i <= self.links.len(),
                keep == LifecycleView::other_than(peer),
                self.links@.no_duplicates(),
                kept@ == self.links@.subrange(0, i as int).filter(keep),
                kept@.no_duplicates(),
                forall|k: int|
                    0 <= k < kept@.len() ==> exists|j: int|
                        0 <= j < i && self.links@[j] == #[trigger] kept@[k],
            decreases self.links.len() - i,
        {
            proof {
                let prefix = self.links@.subrange(0, i + 1);
                assert(prefix.drop_last() =~= self.links@.subrange(0, i as int));
                reveal(Seq::filter);
            }
            if self.links[i] != peer {
                kept.push(self.links[i]);
            }
            i += 1;
        }
        proof {
            assert(self.links@.subrange(0, i as int) =~= self.links@);
        }
        self.links = kept;
    }

    fn exit_signals(&self, reason: Exit) -> (signals: Vec<Signal>)
        ensures
            signals@ == self@.exit_signals(reason),
    {
        let mut signals: Vec<Signal> = Vec::new();
        if !reason.is_abnormal() {
            assert(signals@ =~= self@.exit_signals(reason));
            return signals;
        }
        let mut i: usize = 0;
        while i < self.links.len()
            invariant
                i <= self.links.len(),
                reason.abnormal(),
                signals@.len() == i,
                forall|j: int| 0 <= j < i ==> signals@[j] == self@.exit_signals(reason)[j],
            decreases self.links.len() - i,
        {
            signals.push(self.links[i].send(SystemMsg::LinkExit(reason)));
            i += 1;
        }
        assert(signals@ =~= self@.exit_signals(reason));
        signals
    }

    fn terminate(&mut self, reason: Exit) -> (signals: Vec<Signal>)
        requires
            reason.terminal(),
        ensures
            final(self).wf(),
            final(self)@ == old(self)@.terminated(reason),
            signals@ == old(self)@.exit_signals(reason),
    {
        let signals = self.exit_signals(reason);
        self.links = Vec::new();
        self.exit = reason;
        signals
    }

    /// Takes one system message: registers or removes a peer, or reacts to the
    /// exit of a linked process. An abnormal exit ends a process that does not
    /// trap exits, with the same reason, and is passed on to its own peers; a
    /// process that traps exits goes on and gets the reason as a message.
    pub fn handle(&mut self, msg: SystemMsg) -> (effect: Effect)
        requires
            old(self).wf(),
        ensures
            final(self).wf(),
            final(self)@ == old(self)@.handle(msg),
            effect@ == old(self)@.effect(msg),
    {
        if !self.is_running() {
            return Effect::Proceed;
        }
        match msg {
            SystemMsg::Link(peer) => {
                self.link(peer);
                Effect::Proceed
            },
            SystemMsg::Unlink(peer) => {
                self.unlink(peer);
                Effect::Proceed
            },
            SystemMsg::LinkExit(reason) => {
                if self.trap_exit {
                    Effect::Trapped(reason)
                } else if reason.is_abnormal() {
                    Effect::Exited(self.terminate(reason))
                } else {
                    Effect::Proceed
                }
            },
        }
    }

    /// Records what the actor body answered. A terminal reason ends a running
    /// process; the signals returned are the exit signals owed to its peers.
    pub fn finish(&mut self, reason: Exit) -> (signals: Vec<Signal>)
        requires
            old(self).wf(),
        ensures
            final(self).wf(),
            final(self)@ == old(self)@.finish(reason),
            signals@ == old(self)@.finish_signals(reason),
    {
        if self.is_running() && reason.is_terminal() {
            self.terminate(reason)
        } else {
            Vec::new()
        }
    }

    /// The stream of the process's own messages has ended: every sender is
    /// gone. A running process terminates normally, which tells no peer.
    pub fn closed(&mut self) -> (effect: Effect)
        requires
            old(self).wf(),
        ensures
            final(self).wf(),
            final(self)@ == old(self)@.finish(Exit::Normal),
            effect@ == old(self)@.step_effect(ProcessMsg::Process(Exit::Normal)),
    {
        self.step(ProcessMsg::Process(Exit::Normal))
    }

    /// One turn of the process loop: a system message is handled here, the
    /// answer of the actor body to one of its own messages is recorded.
    pub fn step(&mut self, event: ProcessMsg<Exit>) -> (effect: Effect)
        requires
            old(self).wf(),
        ensures
            final(self).wf(),
            final(self)@ == old(self)@.step(event),
            effect@ == old(self)@.step_effect(event),
    {
        match event {
            ProcessMsg::System(msg) => self.handle(msg),
            ProcessMsg::Process(reason) => {
                if self.is_running() && reason.is_terminal() {
                    Effect::Exited(self.terminate(reason))
                } else {
                    Effect::Proceed
                }
            },
        }
    }
}

impl LifecycleView {
    /// The state after one turn of the process loop.
    pub open spec fn step(self, event: ProcessMsg<Exit>) -> LifecycleView {
        match event {
            ProcessMsg::System(msg) => self.handle(msg),
            ProcessMsg::Process(reason) => self.finish(reason),
        }
    }

    /// What the driver has to do after one turn of the process loop.
    pub open spec fn step_effect(self, event: ProcessMsg<Exit>) -> EffectView {
        match event {
            ProcessMsg::System(msg) => self.effect(msg),
            ProcessMsg::Process(reason) => if self.running() && reason.terminal() {
                EffectView::Exited(self.exit_signals(reason))
            } else {
                EffectView::Proceed
            },
        }
    }
}

/// The exit signal that `from` owes to `peer` when it ends with `reason`.
pub open spec fn exit_signal(peer: UntypedPid, reason: Exit) -> Signal {
    Signal { to: peer, msg: SystemMsg::LinkExit(reason) }
}

/// A running process that takes `Link(peer)` has the peer in its link set, and
/// keeps it there over every later message but `Unlink(peer)` for as long as
/// it runs.
pub proof fn lemma_link_registers(a: LifecycleView, peer: UntypedPid, later: SystemMsg)
    requires
        a.running(),
    ensures
        a.handle(SystemMsg::Link(peer)).linked(peer),
        a.linked(peer) && later != SystemMsg::Unlink(peer) && a.handle(later).running()
            ==> a.handle(later).linked(peer),
{
    let linked = a.handle(SystemMsg::Link(peer));
    if !a.linked(peer) {
        assert(linked.links[a.links.len() as int] == peer);
    }
    if a.linked(peer) && later != SystemMsg::Unlink(peer) && a.handle(later).running() {
        match later {
            SystemMsg::Link(other) => {
                let i = choose|i: int| 0 <= i < a.links.len() && a.links[i] == peer;
                assert(a.handle(later).links[i] == peer);
            },
            SystemMsg::Unlink(other) => {
                let i = choose|i: int| 0 <= i < a.links.len() && a.links[i] == peer;
                a.links.lemma_filter_contains(LifecycleView::other_than(other), i);
            },
            SystemMsg::LinkExit(reason) => {},
        }
    }
}

/// No sequence that was filtered by [`LifecycleView::other_than`] holds the
/// peer that the filter leaves out.
proof fn lemma_filtered_out(links: Seq<UntypedPid>, peer: UntypedPid)
    ensures
        !links.filter(LifecycleView::other_than(peer)).contains(peer),
{
    let kept = links.filter(LifecycleView::other_than(peer));
    if kept.contains(peer) {
        let i = choose|i: int| 0 <= i < kept.len() && kept[i] == peer;
        links.lemma_filter_pred(LifecycleView::other_than(peer), i);
    }
}

/// A process that takes `Unlink(peer)` no longer has the peer in its link set,
/// and does not get it back but by `Link(peer)`.
pub proof fn lemma_unlink_removes(a: LifecycleView, peer: UntypedPid, later: SystemMsg)
    requires
        a.running(),
    ensures
        !a.handle(SystemMsg::Unlink(peer)).linked(peer),
        !a.linked(peer) && later != SystemMsg::Link(peer) ==> !a.handle(later).linked(peer),
{
    lemma_filtered_out(a.links, peer);
    if !a.linked(peer) && later != SystemMsg::Link(peer) {
        let after = a.handle(later);
        match later {
            SystemMsg::Link(other) => {
                if after.linked(peer) {
                    let i = choose|i: int| 0 <= i < after.links.len() && after.links[i] == peer;
                    if i < a.links.len() {
                        assert(a.links[i] == peer);
                    }
                }
            },
            SystemMsg::Unlink(other) => {
                if after.linked(peer) {
                    a.links.lemma_filter_contains_rev(LifecycleView::other_than(other), peer);
                }
            },
            SystemMsg::LinkExit(reason) => {},
        }
    }
}

/// Exit propagation over a link. While `b` stands in the link set of the
/// running process `a`, an end of `a` with the abnormal reason sends
/// `LinkExit(reason)` to `b`. A running `b` that does not trap exits then
/// terminates with that same reason; one that traps exits stays as it was and
/// gets the reason as a message.
pub proof fn law_linked_exit_propagates(a: LifecycleView, b: LifecycleView, reason: Exit)
    requires
        a.running(),
        a.linked(b.pid),
        b.running(),
        reason.abnormal(),
    ensures
        a.finish(reason).exit == reason,
        a.finish_signals(reason).contains(exit_signal(b.pid, reason)),
        !b.trap_exit ==> {
            &&& b.handle(SystemMsg::LinkExit(reason)).exit == reason
            &&& b.effect(SystemMsg::LinkExit(reason)) == EffectView::Exited(
                b.exit_signals(reason),
            )
        },
        b.trap_exit ==> {
            &&& b.handle(SystemMsg::LinkExit(reason)) == b
            &&& b.effect(SystemMsg::LinkExit(reason)) == EffectView::Trapped(reason)
        },
{
    let i = choose|i: int| 0 <= i < a.links.len() && a.links[i] == b.pid;
    assert(a.finish_signals(reason)[i] == exit_signal(b.pid, reason));
}

/// No exit reaches a process that is not linked. Whatever the reason with
/// which `a` ends, by its own body or forced by a peer, none of the signals
/// that go out is addressed to a process outside its link set; so after
/// `Unlink(b)` the end of `a` leaves `b` alone.
pub proof fn law_unlinked_exit_is_contained(a: LifecycleView, b: UntypedPid, reason: Exit)
    requires
        a.running(),
        !a.linked(b),
    ensures
        forall|i: int|
            0 <= i < a.finish_signals(reason).len() ==> (#[trigger] a.finish_signals(
                reason,
            )[i]).to != b,
        forall|i: int|
            0 <= i < a.exit_signals(reason).len() ==> (#[trigger] a.exit_signals(reason)[i]).to
                != b,
        !a.handle(SystemMsg::Unlink(b)).linked(b),
{
    lemma_filtered_out(a.links, b);
    assert forall|i: int| 0 <= i < a.exit_signals(reason).len() implies (#[trigger] a.exit_signals(
        reason,
    )[i]).to != b by {
        assert(a.links[i] != b);
    }
}

} // verus!
