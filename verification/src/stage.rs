//! The stage: where processes are set up, each under an identity of its own,
//! and where the signals that they send to each other are delivered.

use vstd::prelude::*;
use crate::actor::Actor;
use crate::link::ReplySender;
use crate::process::{Process, ProcessView, Visitor};
use crate::supervision::{exit_signal, Effect, EffectView, Exit, Signal, SystemMsg, UntypedPid};

verus! {

/// What a stage can be asked to do.
#[derive(PartialEq, Eq, Copy, Clone, Debug, Structural)]
pub enum StageMsg {
    /// Make room for one more process.
    Spawn,
}

/// Where processes are set up: the stage gives each one an identity that no
/// other process of the stage has.
pub struct Stage {
    next: u64,
}

impl Stage {
    /// The identity that the next process gets.
    pub closed spec fn next_id(&self) -> u64 {
        self.next
    }

    /// A stage that has set up no process yet.
    pub fn new() -> (stage: Self)
        ensures
            stage.next_id() == 1,
    {
        Self { next: 1 }
    }

    /// Takes a request. `Spawn` reserves the next identity; there is none
    /// left once the largest number has been given out.
    pub fn handle(&mut self, msg: StageMsg) -> (pid: Option<UntypedPid>)
        ensures
            old(self).next_id() < u64::MAX ==> pid == Some(UntypedPid { id: old(self).next_id() })
                && final(self).next_id() == old(self).next_id() + 1,
            old(self).next_id() == u64::MAX ==> pid is None && final(self).next_id()
                == u64::MAX,
    {
        match msg {
            StageMsg::Spawn => {
                if self.next < u64::MAX {
                    let id = self.next;
                    self.next = self.next + 1;
                    Some(UntypedPid { id })
                } else {
                    None
                }
            },
        }
    }

    /// Sets up a process that owns `initial_state`, under an identity of its
    /// own, and the first handle on it. `None` once the stage has given out
    /// every identity.
    pub fn spawn<State, Reply, FR, FM, FRR, FMR>(
        &mut self,
        initial_state: State,
        trap_exit: bool,
    ) -> (pair: Option<(Process<State, Reply, FR, FM, FRR, FMR>, Actor)>) where
        FR: Fn(&State),
        FM: Fn(State) -> State,
        FRR: Fn(&State, ReplySender<Reply>),
        FMR: Fn(State, ReplySender<Reply>) -> State,

        ensures
            pair is Some <==> old(self).next_id() < u64::MAX,
            pair is None ==> final(self).next_id() == old(self).next_id(),
            pair matches Some((process, actor)) ==> {
                &&& final(self).next_id() == old(self).next_id() + 1
                &&& process.wf()
                &&& process@ == Process::<State, Reply, FR, FM, FRR, FMR>::fresh(
                    UntypedPid { id: old(self).next_id() },
                    initial_state,
                    trap_exit,
                )
                &&& actor.reaches(process@)
            },
    {
        match self.handle(StageMsg::Spawn) {
            Some(pid) => Some((Process::new(pid, initial_state, trap_exit), Actor::new(pid))),
            None => None,
        }
    }
}

/// What the delivery of signals leaves behind.
pub struct Routed<State, Msg> {
    /// The processes once every signal has been delivered.
    pub processes: Seq<ProcessView<State, Msg>>,
    /// The exit signals that a process trapped, in the order of their
    /// delivery: each is owed to the body of the process it is addressed to,
    /// as an ordinary message.
    pub trapped: Seq<Signal>,
}

/// The signals that the process sends out in answer to `signal`: its own exit
/// signals, where the signal is addressed to it and ends it, and none
/// otherwise.
pub open spec fn answer<State, Msg>(process: ProcessView<State, Msg>, signal: Signal) -> Seq<
    Signal,
> {
    if signal.to == process.lifecycle.pid {
        match process.lifecycle.effect(signal.msg) {
            EffectView::Exited(signals) => signals,
            _ => Seq::empty(),
        }
    } else {
        Seq::empty()
    }
}

/// Whether the process traps `signal`: it is addressed to it, and it is the
/// exit of a peer that the process takes as a message.
pub open spec fn traps<State, Msg>(process: ProcessView<State, Msg>, signal: Signal) -> bool {
    signal.to == process.lifecycle.pid && process.lifecycle.effect(signal.msg) is Trapped
}

/// How many of the processes run.
pub open spec fn running_count<State, Msg>(processes: Seq<ProcessView<State, Msg>>) -> nat
    decreases processes.len(),
{
    if processes.len() == 0 {
        0
    } else {
        running_count(processes.drop_last()) + if processes.last().running() {
            1nat
        } else {
            0nat
        }
    }
}

/// The processes after `signal` was brought to each of them.
pub open spec fn delivered<State, Msg>(
    processes: Seq<ProcessView<State, Msg>>,
    signal: Signal,
) -> Seq<ProcessView<State, Msg>> {
    Seq::new(processes.len(), |i: int| processes[i].receive(signal))
}

/// The signals that the processes send out in answer to `signal`, in the
/// order of the processes.
pub open spec fn answers<State, Msg>(
    processes: Seq<ProcessView<State, Msg>>,
    signal: Signal,
) -> Seq<Signal>
    decreases processes.len(),
{
    if processes.len() == 0 {
        Seq::empty()
    } else {
        answers(processes.drop_last(), signal) + answer(processes.last(), signal)
    }
}

/// `signal` once for each process that traps it.
pub open spec fn trapped<State, Msg>(
    processes: Seq<ProcessView<State, Msg>>,
    signal: Signal,
) -> Seq<Signal>
    decreases processes.len(),
{
    if processes.len() == 0 {
        Seq::empty()
    } else {
        trapped(processes.drop_last(), signal) + if traps(processes.last(), signal) {
            seq![signal]
        } else {
            Seq::empty()
        }
    }
}

/// What is left once the signals `pending` have been delivered, oldest first,
/// together with every signal that a process sent out in answer: the exits
/// cascade along the links until nothing is pending.
pub open spec fn routed<State, Msg>(
    processes: Seq<ProcessView<State, Msg>>,
    pending: Seq<Signal>,
) -> Routed<State, Msg>
    decreases running_count(processes), pending.len(),
    via routed_decreases::<State, Msg>
{
    if pending.len() == 0 {
        Routed { processes, trapped: Seq::empty() }
    } else {
        let rest = routed(
            delivered(processes, pending[0]),
            pending.drop_first() + answers(processes, pending[0]),
        );
        Routed {
            processes: rest.processes,
            trapped: trapped(processes, pending[0]) + rest.trapped,
        }
    }
}

#[via_fn]
proof fn routed_decreases<State, Msg>(
    processes: Seq<ProcessView<State, Msg>>,
    pending: Seq<Signal>,
) {
    if pending.len() > 0 {
        lemma_delivery_ends_or_shrinks(processes, pending[0]);
    }
}

/// A delivery never brings a process back to life, and a delivery that is
/// answered has ended a process.
pub proof fn lemma_delivery_ends_or_shrinks<State, Msg>(
    processes: Seq<ProcessView<State, Msg>>,
    signal: Signal,
)
    ensures
        running_count(delivered(processes, signal)) <= running_count(processes),
        answers(processes, signal).len() > 0 ==> running_count(delivered(processes, signal))
            < running_count(processes),
    decreases processes.len(),
{
    if processes.len() > 0 {
        let after = delivered(processes, signal);
        assert(after.drop_last() =~= delivered(processes.drop_last(), signal));
        lemma_delivery_ends_or_shrinks(processes.drop_last(), signal);
    }
}

/// The processes as mathematical values.
pub open spec fn views<State, Reply, FR, FM, FRR, FMR>(
    processes: Seq<Process<State, Reply, FR, FM, FRR, FMR>>,
) -> Seq<ProcessView<State, Visitor<Reply, FR, FM, FRR, FMR>>> {
    Seq::new(processes.len(), |i: int| processes[i]@)
}

impl Stage {
    /// Delivers `signals` to the processes, oldest first, and with them every
    /// exit signal that a process sends out because a delivery ended it: each
    /// signal is brought to the process it is addressed to, and dropped if
    /// there is none. When the call returns nothing is pending any more. The
    /// result holds the exit signals that were trapped, in the order of their
    /// delivery.
    pub fn route<State, Reply, FR, FM, FRR, FMR>(
        processes: &mut Vec<Process<State, Reply, FR, FM, FRR, FMR>>,
        signals: Vec<Signal>,
    ) -> (trapped: Vec<Signal>) where
        FR: Fn(&State),
        FM: Fn(State) -> State,
        FRR: Fn(&State, ReplySender<Reply>),
        FMR: Fn(State, ReplySender<Reply>) -> State,

        requires
            forall|i: int| 0 <= i < old(processes)@.len() ==> old(processes)@[i].wf(),
        ensures
            forall|i: int| 0 <= i < final(processes)@.len() ==> final(processes)@[i].wf(),
            views(final(processes)@) == routed(views(old(processes)@), signals@).processes,
            trapped@ == routed(views(old(processes)@), signals@).trapped,
    {
        let mut pending = signals;
        let mut trapped: Vec<Signal> = Vec::new();
        let mut next: usize = 0;
        let ghost whole = routed(views(processes@), pending@);
        assert(pending@.subrange(0, pending@.len() as int) =~= pending@);
        assert(trapped@ + whole.trapped =~= whole.trapped);
        while next < pending.len()
            invariant
                next <= pending.len(),
                forall|i: int| 0 <= i < processes@.len() ==> processes@[i].wf(),
                whole == routed(views(old(processes)@), signals@),
                whole.processes == routed(
                    views(processes@),
                    pending@.subrange(next as int, pending@.len() as int),
                ).processes,
                whole.trapped == trapped@ + routed(
                    views(processes@),
                    pending@.subrange(next as int, pending@.len() as int),
                ).trapped,
            decreases running_count(views(processes@)), pending.len() - next,
        {
            let signal = pending[next];
            let ghost before = views(processes@);
            let ghost waiting = pending@.subrange(next as int, pending@.len() as int);
            let ghost pending_before = pending@;
            let ghost trapped_before = trapped@;
            next += 1;
            let mut i: usize = 0;
            assert(before.subrange(0, 0) =~= Seq::empty());
            assert(pending@ =~= pending_before + answers(before.subrange(0, 0), signal));
            assert(trapped@ =~= trapped_before + self::trapped(before.subrange(0, 0), signal));
            while i < processes.len()
                invariant
                    i <= processes.len(),
                    processes@.len() == before.len(),
                    forall|j: int| 0 <= j < processes@.len() ==> processes@[j].wf(),
                    forall|j: int| 0 <= j < i ==> processes@[j]@ == before[j].receive(signal),
                    forall|j: int| i <= j < processes@.len() ==> processes@[j]@ == before[j],
                    pending@ == pending_before + answers(before.subrange(0, i as int), signal),
                    trapped@ == trapped_before + self::trapped(
                        before.subrange(0, i as int),
                        signal,
                    ),
                decreases processes.len() - i,
            {
                let ghost pending_so_far = pending@;
                let ghost trapped_so_far = trapped@;
                match processes[i].receive(signal) {
                    Effect::Proceed => {},
                    Effect::Trapped(reason) => {
                        trapped.push(signal);
                    },
                    Effect::Exited(out) => {
                        let mut out = out;
                        pending.append(&mut out);
                    },
                }
                proof {
                    let upto = before.subrange(0, i + 1);
                    assert(upto.drop_last() =~= before.subrange(0, i as int));
                    assert(upto.last() == before[i as int]);
                    assert(pending@ =~= pending_so_far + answer(before[i as int], signal));
                    assert(trapped@ =~= trapped_so_far + if traps(before[i as int], signal) {
                        seq![signal]
                    } else {
                        Seq::empty()
                    });
                    assert(pending@ =~= pending_before + answers(upto, signal));
                    assert(trapped@ =~= trapped_before + self::trapped(upto, signal));
                }
                i += 1;
            }
            proof {
                assert(before.subrange(0, i as int) =~= before);
                assert(views(processes@) =~= delivered(before, signal));
                lemma_delivery_ends_or_shrinks(before, signal);
                assert(waiting[0] == signal);
                assert(pending@.subrange(next as int, pending@.len() as int)
                    =~= waiting.drop_first() + answers(before, signal));
                let rest = routed(
                    delivered(before, signal),
                    waiting.drop_first() + answers(before, signal),
                );
                assert(routed(before, waiting).processes == rest.processes);
                assert(routed(before, waiting).trapped == self::trapped(before, signal)
                    + rest.trapped);
                assert(trapped@ + rest.trapped =~= trapped_before + (self::trapped(
                    before,
                    signal,
                ) + rest.trapped));
            }
        }
        proof {
            assert(pending@.subrange(next as int, pending@.len() as int) =~= Seq::empty());
            assert(trapped@ + Seq::<Signal>::empty() =~= trapped@);
        }
        trapped
    }
}

/// Terminated is absorbing: whatever is delivered, a process that has
/// terminated stays exactly as it is, and no process is added or lost.
pub proof fn law_terminated_stays<State, Msg>(
    processes: Seq<ProcessView<State, Msg>>,
    pending: Seq<Signal>,
    k: int,
)
    requires
        0 <= k < processes.len(),
        !processes[k].running(),
    ensures
        routed(processes, pending).processes.len() == processes.len(),
        routed(processes, pending).processes[k] == processes[k],
    decreases running_count(processes), pending.len(),
{
    if pending.len() > 0 {
        lemma_delivery_ends_or_shrinks(processes, pending[0]);
        law_terminated_stays(
            delivered(processes, pending[0]),
            pending.drop_first() + answers(processes, pending[0]),
            k,
        );
    }
}

/// An abnormal exit that is on its way ends its addressee. Where an exit
/// signal with an abnormal reason is pending for a running process that does
/// not trap exits, delivery leaves that process terminated with the same
/// reason, whatever else is pending and in whatever order.
pub proof fn law_routed_exit_ends_peer<State, Msg>(
    processes: Seq<ProcessView<State, Msg>>,
    pending: Seq<Signal>,
    k: int,
    j: int,
    reason: Exit,
)
    requires
        0 <= k < processes.len(),
        0 <= j < pending.len(),
        reason.abnormal(),
        pending[j] == exit_signal(processes[k].lifecycle.pid, reason),
        !processes[k].lifecycle.trap_exit,
        processes[k].running() || processes[k].lifecycle.exit == reason,
    ensures
        routed(processes, pending).processes.len() == processes.len(),
        routed(processes, pending).processes[k].lifecycle.exit == reason,
    decreases running_count(processes), pending.len(),
{
    let first = pending[0];
    let after = delivered(processes, first);
    let waiting = pending.drop_first() + answers(processes, first);
    lemma_delivery_ends_or_shrinks(processes, first);
    if j == 0 {
        law_terminated_stays(after, waiting, k);
    } else {
        assert(waiting[j - 1] == pending[j]);
        law_routed_exit_ends_peer(after, waiting, k, j - 1, reason);
    }
}

/// A process that traps exits is never ended by a delivery, and gets every
/// exit that is on its way to it as a message: where an exit signal is
/// pending for a running process that traps exits, the process still runs
/// once all is delivered, and the signal is among the trapped ones.
pub proof fn law_routed_exit_is_trapped<State, Msg>(
    processes: Seq<ProcessView<State, Msg>>,
    pending: Seq<Signal>,
    k: int,
    j: int,
    reason: Exit,
)
    requires
        0 <= k < processes.len(),
        0 <= j < pending.len(),
        pending[j] == exit_signal(processes[k].lifecycle.pid, reason),
        processes[k].lifecycle.trap_exit,
        processes[k].running(),
    ensures
        routed(processes, pending).processes.len() == processes.len(),
        routed(processes, pending).processes[k].running(),
        routed(processes, pending).trapped.contains(pending[j]),
    decreases running_count(processes), pending.len(),
{
    let first = pending[0];
    let after = delivered(processes, first);
    let waiting = pending.drop_first() + answers(processes, first);
    let rest = routed(after, waiting);
    let now = trapped(processes, first);
    lemma_delivery_ends_or_shrinks(processes, first);
    if j == 0 {
        lemma_trapped_by(processes, first, k);
        let at = choose|i: int| 0 <= i < now.len() && now[i] == first;
        assert((now + rest.trapped)[at] == first);
        lemma_trapping_keeps_running(after, waiting, k);
    } else {
        assert(waiting[j - 1] == pending[j]);
        law_routed_exit_is_trapped(after, waiting, k, j - 1, reason);
        let at = choose|i: int| 0 <= i < rest.trapped.len() && rest.trapped[i] == pending[j];
        assert((now + rest.trapped)[now.len() + at] == pending[j]);
    }
}

/// From the end of one process to the end of its peer. A running process that
/// has a peer in its link set ends with an abnormal reason, and the exit
/// signals that it owes are delivered. A running peer that does not trap
/// exits is then terminated with the same reason; one that traps exits still
/// runs, and the exit is among the trapped signals, owed to its body as a
/// message.
pub proof fn law_abnormal_exit_cascades<State, Msg>(
    processes: Seq<ProcessView<State, Msg>>,
    a: int,
    b: int,
    reason: Exit,
)
    requires
        0 <= a < processes.len(),
        0 <= b < processes.len(),
        a != b,
        processes[a].running(),
        processes[b].running(),
        processes[a].lifecycle.linked(processes[b].lifecycle.pid),
        reason.abnormal(),
    ensures
        ({
            let stopped = processes.update(a, processes[a].stop(reason));
            let after = routed(stopped, processes[a].lifecycle.finish_signals(reason));
            &&& after.processes.len() == processes.len()
            &&& after.processes[a].lifecycle.exit == reason
            &&& !processes[b].lifecycle.trap_exit ==> after.processes[b].lifecycle.exit == reason
            &&& processes[b].lifecycle.trap_exit ==> after.processes[b].running()
                && after.trapped.contains(exit_signal(processes[b].lifecycle.pid, reason))
        }),
{
    let stopped = processes.update(a, processes[a].stop(reason));
    let signals = processes[a].lifecycle.finish_signals(reason);
    let peer = processes[b].lifecycle.pid;
    crate::supervision::law_linked_exit_propagates(
        processes[a].lifecycle,
        processes[b].lifecycle,
        reason,
    );
    let j = choose|j: int| 0 <= j < signals.len() && signals[j] == exit_signal(peer, reason);
    law_terminated_stays(stopped, signals, a);
    if processes[b].lifecycle.trap_exit {
        law_routed_exit_is_trapped(stopped, signals, b, j, reason);
    } else {
        law_routed_exit_ends_peer(stopped, signals, b, j, reason);
    }
}

/// A signal is among those trapped at its delivery if one of the processes
/// traps it.
proof fn lemma_trapped_by<State, Msg>(
    processes: Seq<ProcessView<State, Msg>>,
    signal: Signal,
    k: int,
)
    requires
        0 <= k < processes.len(),
        traps(processes[k], signal),
    ensures
        trapped(processes, signal).contains(signal),
    decreases processes.len(),
{
    let before = trapped(processes.drop_last(), signal);
    if k == processes.len() - 1 {
        assert(trapped(processes, signal)[before.len() as int] == signal);
    } else {
        lemma_trapped_by(processes.drop_last(), signal, k);
        let at = choose|i: int| 0 <= i < before.len() && before[i] == signal;
        assert(trapped(processes, signal)[at] == signal);
    }
}

/// No delivery ends a running process that traps exits.
proof fn lemma_trapping_keeps_running<State, Msg>(
    processes: Seq<ProcessView<State, Msg>>,
    pending: Seq<Signal>,
    k: int,
)
    requires
        0 <= k < processes.len(),
        processes[k].lifecycle.trap_exit,
        processes[k].running(),
    ensures
        routed(processes, pending).processes.len() == processes.len(),
        routed(processes, pending).processes[k].running(),
    decreases running_count(processes), pending.len(),
{
    if pending.len() > 0 {
        lemma_delivery_ends_or_shrinks(processes, pending[0]);
        lemma_trapping_keeps_running(
            delivered(processes, pending[0]),
            pending.drop_first() + answers(processes, pending[0]),
            k,
        );
    }
}

/// Nothing reaches `peer`: no process has it in its link set, and no signal
/// is addressed to it or asks for a link to it.
pub open spec fn out_of_reach<State, Msg>(
    processes: Seq<ProcessView<State, Msg>>,
    pending: Seq<Signal>,
    peer: UntypedPid,
) -> bool {
    &&& forall|i: int| 0 <= i < processes.len() ==> !(#[trigger] processes[i]).lifecycle.linked(peer)
    &&& forall|j: int|
        0 <= j < pending.len() ==> (#[trigger] pending[j]).to != peer && pending[j].msg
            != SystemMsg::Link(peer)
}

/// An exit stays among the linked. A process that no other process is linked
/// to, and for which no signal is pending, is left exactly as it is by every
/// exit that cascades among the others: after an unlink, the end of the
/// former peer does not reach it.
pub proof fn law_routed_spares_unlinked<State, Msg>(
    processes: Seq<ProcessView<State, Msg>>,
    pending: Seq<Signal>,
    k: int,
)
    requires
        0 <= k < processes.len(),
        out_of_reach(processes, pending, processes[k].lifecycle.pid),
    ensures
        routed(processes, pending).processes.len() == processes.len(),
        routed(processes, pending).processes[k] == processes[k],
    decreases running_count(processes), pending.len(),
{
    if pending.len() > 0 {
        let peer = processes[k].lifecycle.pid;
        let first = pending[0];
        let after = delivered(processes, first);
        let waiting = pending.drop_first() + answers(processes, first);
        lemma_delivery_ends_or_shrinks(processes, first);
        assert(after[k] == processes[k]);
        assert forall|i: int| 0 <= i < after.len() implies !(#[trigger] after[i]).lifecycle.linked(
            peer,
        ) by {
            assert(!processes[i].lifecycle.linked(peer));
            if processes[i].running() {
                crate::supervision::lemma_unlink_removes(processes[i].lifecycle, peer, first.msg);
            }
        }
        lemma_answers_stay_among_linked(processes, first, peer);
        assert forall|j: int| 0 <= j < waiting.len() implies (#[trigger] waiting[j]).to != peer
            && waiting[j].msg != SystemMsg::Link(peer) by {
            if j < pending.len() - 1 {
                assert(waiting[j] == pending[j + 1]);
            } else {
                assert(waiting[j] == answers(processes, first)[j - (pending.len() - 1)]);
            }
        }
        law_routed_spares_unlinked(after, waiting, k);
    }
}

/// The signals that processes send out in answer to a delivery are exit
/// signals for their peers: none goes to a process that none is linked to.
proof fn lemma_answers_stay_among_linked<State, Msg>(
    processes: Seq<ProcessView<State, Msg>>,
    signal: Signal,
    peer: UntypedPid,
)
    requires
        forall|i: int| 0 <= i < processes.len() ==> !(#[trigger] processes[i]).lifecycle.linked(peer),
    ensures
        forall|j: int|
            0 <= j < answers(processes, signal).len() ==> (#[trigger] answers(
                processes,
                signal,
            )[j]).to != peer && answers(processes, signal)[j].msg != SystemMsg::Link(peer),
    decreases processes.len(),
{
    if processes.len() > 0 {
        let front = processes.drop_last();
        let last = processes.last();
        assert forall|i: int| 0 <= i < front.len() implies !(#[trigger] front[i]).lifecycle.linked(
            peer,
        ) by {
            assert(front[i] == processes[i]);
        }
        lemma_answers_stay_among_linked(front, signal, peer);
        assert(!processes[processes.len() - 1].lifecycle.linked(peer));
        let from_last = answer(last, signal);
        assert forall|j: int| 0 <= j < from_last.len() implies (#[trigger] from_last[j]).to != peer
            && from_last[j].msg != SystemMsg::Link(peer) by {
            if last.lifecycle.running() {
                match signal.msg {
                    SystemMsg::LinkExit(reason) => {
                        crate::supervision::law_unlinked_exit_is_contained(
                            last.lifecycle,
                            peer,
                            reason,
                        );
                    },
                    _ => {},
                }
            }
        }
        assert forall|j: int| 0 <= j < answers(processes, signal).len() implies (#[trigger] answers(
            processes,
            signal,
        )[j]).to != peer && answers(processes, signal)[j].msg != SystemMsg::Link(peer) by {
            let n = answers(front, signal).len();
            if j < n {
                assert(answers(processes, signal)[j] == answers(front, signal)[j]);
            } else {
                assert(answers(processes, signal)[j] == from_last[j - n]);
            }
        }
    }
}

/// A running process among `processes` has the identity `pid`.
pub open spec fn has_running<State, Msg>(
    processes: Seq<ProcessView<State, Msg>>,
    pid: UntypedPid,
) -> bool {
    exists|i: int|
        0 <= i < processes.len() && (#[trigger] processes[i]).lifecycle.pid == pid
            && processes[i].running()
}

/// The two registrations that link `a` and `b`, as [`UntypedPid::link`] gives
/// them.
pub open spec fn link_signals(a: UntypedPid, b: UntypedPid) -> Seq<Signal> {
    seq![Signal { to: a, msg: SystemMsg::Link(b) }, Signal { to: b, msg: SystemMsg::Link(a) }]
}

/// No process answers a signal that is not the exit of a peer.
proof fn lemma_registration_is_not_answered<State, Msg>(
    processes: Seq<ProcessView<State, Msg>>,
    signal: Signal,
)
    requires
        !(signal.msg is LinkExit),
    ensures
        answers(processes, signal) == Seq::<Signal>::empty(),
        trapped(processes, signal) == Seq::<Signal>::empty(),
    decreases processes.len(),
{
    if processes.len() > 0 {
        lemma_registration_is_not_answered(processes.drop_last(), signal);
        assert(answers(processes, signal) =~= Seq::<Signal>::empty());
        assert(trapped(processes, signal) =~= Seq::<Signal>::empty());
    }
}

/// The delivery of two signals of which neither is the exit of a peer brings
/// each of them to every process, one after the other, and nothing else.
proof fn lemma_pair_routed<State, Msg>(
    processes: Seq<ProcessView<State, Msg>>,
    first: Signal,
    second: Signal,
)
    requires
        !(first.msg is LinkExit),
        !(second.msg is LinkExit),
    ensures
        routed(processes, seq![first, second]).processes == delivered(
            delivered(processes, first),
            second,
        ),
        routed(processes, seq![first, second]).trapped == Seq::<Signal>::empty(),
{
    let signals = seq![first, second];
    let once = delivered(processes, first);
    lemma_registration_is_not_answered(processes, first);
    lemma_registration_is_not_answered(once, second);
    lemma_delivery_ends_or_shrinks(processes, first);
    lemma_delivery_ends_or_shrinks(once, second);
    let rest = signals.drop_first() + answers(processes, signals[0]);
    assert(rest =~= seq![second]);
    let last = rest.drop_first() + answers(once, rest[0]);
    assert(last =~= Seq::<Signal>::empty());
    assert(routed(delivered(once, second), last).processes == delivered(once, second));
    assert(routed(once, rest).processes == delivered(once, second));
    assert(routed(once, rest).trapped =~= Seq::<Signal>::empty());
    assert(routed(processes, signals).trapped =~= Seq::<Signal>::empty());
}

impl Stage {
    /// Whether a running process among `processes` has the identity `pid`.
    pub fn runs<State, Reply, FR, FM, FRR, FMR>(
        processes: &Vec<Process<State, Reply, FR, FM, FRR, FMR>>,
        pid: UntypedPid,
    ) -> (r: bool) where
        FR: Fn(&State),
        FM: Fn(State) -> State,
        FRR: Fn(&State, ReplySender<Reply>),
        FMR: Fn(State, ReplySender<Reply>) -> State,

        ensures
            r == has_running(views(processes@), pid),
    {
        let mut i: usize = 0;
        while i < processes.len()
            invariant
                i <= processes.len(),
                forall|j: int|
                    0 <= j < i ==> !((#[trigger] views(processes@)[j]).lifecycle.pid == pid
                        && views(processes@)[j].running()),
            decreases processes.len() - i,
        {
            if processes[i].pid() == pid && processes[i].is_running() {
                assert(views(processes@)[i as int].lifecycle.pid == pid);
                return true;
            }
            i += 1;
        }
        false
    }

    /// Links `a` and `b`: each is told of the other, and both registrations
    /// are taken. The link is established only if both name a running
    /// process; where one of them is gone nothing is registered at all, and
    /// the answer is `false`. Once established, every running process under
    /// the one identity has the other in its link set.
    pub fn link<State, Reply, FR, FM, FRR, FMR>(
        processes: &mut Vec<Process<State, Reply, FR, FM, FRR, FMR>>,
        a: UntypedPid,
        b: UntypedPid,
    ) -> (established: bool) where
        FR: Fn(&State),
        FM: Fn(State) -> State,
        FRR: Fn(&State, ReplySender<Reply>),
        FMR: Fn(State, ReplySender<Reply>) -> State,

        requires
            forall|i: int| 0 <= i < old(processes)@.len() ==> old(processes)@[i].wf(),
        ensures
            forall|i: int| 0 <= i < final(processes)@.len() ==> final(processes)@[i].wf(),
            established == (has_running(views(old(processes)@), a) && has_running(
                views(old(processes)@),
                b,
            )),
            !established ==> final(processes)@ == old(processes)@,
            established ==> views(final(processes)@) == routed(
                views(old(processes)@),
                link_signals(a, b),
            ).processes,
            established ==> forall|i: int|
                #![trigger views(final(processes)@)[i]]
                0 <= i < old(processes)@.len() && views(old(processes)@)[i].running() ==> {
                    &&& views(final(processes)@)[i].running()
                    &&& views(old(processes)@)[i].lifecycle.pid == a ==> views(
                        final(processes)@,
                    )[i].lifecycle.linked(b)
                    &&& views(old(processes)@)[i].lifecycle.pid == b ==> views(
                        final(processes)@,
                    )[i].lifecycle.linked(a)
                },
    {
        if !(Self::runs(processes, a) && Self::runs(processes, b)) {
            return false;
        }
        let (to_a, to_b) = a.link(&b);
        let mut signals: Vec<Signal> = Vec::new();
        signals.push(to_a);
        signals.push(to_b);
        assert(signals@ =~= link_signals(a, b));
        let ghost before = views(processes@);
        let _ = Self::route(processes, signals);
        proof {
            lemma_pair_routed(before, link_signals(a, b)[0], link_signals(a, b)[1]);
            assert(link_signals(a, b) =~= seq![link_signals(a, b)[0], link_signals(a, b)[1]]);
            let first = delivered(before, link_signals(a, b)[0]);
            assert forall|i: int|
                #![trigger views(processes@)[i]]
                0 <= i < before.len() && before[i].running() implies {
                &&& views(processes@)[i].running()
                &&& before[i].lifecycle.pid == a ==> views(processes@)[i].lifecycle.linked(b)
                &&& before[i].lifecycle.pid == b ==> views(processes@)[i].lifecycle.linked(a)
            } by {
                let p = before[i].lifecycle;
                assert(first[i] == before[i].receive(link_signals(a, b)[0]));
                assert(views(processes@)[i] == first[i].receive(link_signals(a, b)[1]));
                crate::supervision::lemma_link_registers(p, b, SystemMsg::Link(a));
                crate::supervision::lemma_link_registers(p, a, SystemMsg::Link(a));
                crate::supervision::lemma_link_registers(p.handle(SystemMsg::Link(b)), b, SystemMsg::Link(a));
                crate::supervision::lemma_link_registers(first[i].lifecycle, a, SystemMsg::Link(a));
            }
        }
        true
    }
}

/// The two removals that undo a link between `a` and `b`, as
/// [`UntypedPid::unlink`] gives them.
pub open spec fn unlink_signals(a: UntypedPid, b: UntypedPid) -> Seq<Signal> {
    seq![Signal { to: a, msg: SystemMsg::Unlink(b) }, Signal { to: b, msg: SystemMsg::Unlink(a) }]
}

impl Stage {
    /// Unlinks `a` and `b`: each is told to drop the other, and both removals
    /// are taken before the call returns. After it no process under the one
    /// identity has the other in its link set, so that the end of the one no
    /// longer reaches the other.
    pub fn unlink<State, Reply, FR, FM, FRR, FMR>(
        processes: &mut Vec<Process<State, Reply, FR, FM, FRR, FMR>>,
        a: UntypedPid,
        b: UntypedPid,
    ) where
        FR: Fn(&State),
        FM: Fn(State) -> State,
        FRR: Fn(&State, ReplySender<Reply>),
        FMR: Fn(State, ReplySender<Reply>) -> State,

        requires
            forall|i: int| 0 <= i < old(processes)@.len() ==> old(processes)@[i].wf(),
        ensures
            forall|i: int| 0 <= i < final(processes)@.len() ==> final(processes)@[i].wf(),
            views(final(processes)@) == routed(
                views(old(processes)@),
                unlink_signals(a, b),
            ).processes,
            forall|i: int|
                #![trigger views(final(processes)@)[i]]
                0 <= i < old(processes)@.len() ==> {
                    &&& views(final(processes)@)[i].running() == views(old(processes)@)[i].running()
                    &&& views(old(processes)@)[i].lifecycle.pid == a ==> !views(
                        final(processes)@,
                    )[i].lifecycle.linked(b)
                    &&& views(old(processes)@)[i].lifecycle.pid == b ==> !views(
                        final(processes)@,
                    )[i].lifecycle.linked(a)
                },
    {
        let (to_a, to_b) = a.unlink(&b);
        let mut signals: Vec<Signal> = Vec::new();
        signals.push(to_a);
        signals.push(to_b);
        assert(signals@ =~= unlink_signals(a, b));
        let ghost before = views(processes@);
        let _ = Self::route(processes, signals);
        proof {
            lemma_pair_routed(before, unlink_signals(a, b)[0], unlink_signals(a, b)[1]);
            assert(unlink_signals(a, b) =~= seq![unlink_signals(a, b)[0], unlink_signals(a, b)[1]]);
            let first = delivered(before, unlink_signals(a, b)[0]);
            assert forall|i: int|
                #![trigger views(processes@)[i]]
                0 <= i < before.len() implies {
                &&& views(processes@)[i].running() == before[i].running()
                &&& before[i].lifecycle.pid == a ==> !views(processes@)[i].lifecycle.linked(b)
                &&& before[i].lifecycle.pid == b ==> !views(processes@)[i].lifecycle.linked(a)
            } by {
                let p = before[i].lifecycle;
                assert(first[i] == before[i].receive(unlink_signals(a, b)[0]));
                assert(views(processes@)[i] == first[i].receive(unlink_signals(a, b)[1]));
                if p.running() {
                    crate::supervision::lemma_unlink_removes(p, b, SystemMsg::Unlink(a));
                    crate::supervision::lemma_unlink_removes(p, a, SystemMsg::Unlink(a));
                    crate::supervision::lemma_unlink_removes(
                        p.handle(SystemMsg::Unlink(b)),
                        b,
                        SystemMsg::Unlink(a),
                    );
                    crate::supervision::lemma_unlink_removes(
                        first[i].lifecycle,
                        a,
                        SystemMsg::Unlink(a),
                    );
                }
            }
        }
    }
}

} // verus!
