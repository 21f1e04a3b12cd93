use thespian::actor::{Actor, Reason};
use thespian::link::ReplySender;
use thespian::process::Process;
use thespian::stage::{Stage, StageMsg};
use thespian::supervision::{Effect, Exit, Lifecycle, ProcessMsg, Signal, SystemMsg, UntypedPid};

type ReadFn = fn(&u32);
type MutFn = fn(u32) -> u32;
type ReadReplyFn = fn(&u32, ReplySender<u32>);
type MutReplyFn = fn(u32, ReplySender<u32>) -> u32;
type Worker = Process<u32, u32, ReadFn, MutFn, ReadReplyFn, MutReplyFn>;

fn look(_state: &u32) {}

fn increment(state: u32) -> u32 {
    state + 1
}

fn read(state: &u32, reply: ReplySender<u32>) {
    let _ = reply.send(*state);
}

fn pid(id: u64) -> UntypedPid {
    UntypedPid { id }
}

fn exit_to(id: u64, reason: Exit) -> Signal {
    Signal { to: pid(id), msg: SystemMsg::LinkExit(reason) }
}

fn signals_of(effect: Effect) -> Vec<Signal> {
    match effect {
        Effect::Exited(signals) => signals,
        _ => panic!("the process did not exit"),
    }
}

fn spawn_pair(stage: &mut Stage, trap_exit: bool) -> (Worker, Actor) {
    stage.spawn(0, trap_exit).unwrap()
}

#[test]
fn exit_reasons_are_classified() {
    assert!(!Exit::Continue.is_terminal());
    assert!(Exit::Normal.is_terminal());
    assert!(Exit::Error.is_terminal());
    assert!(!Exit::Continue.is_abnormal());
    assert!(!Exit::Normal.is_abnormal());
    assert!(Exit::Error.is_abnormal());
    assert_eq!(Reason::Normal.exit(), Exit::Normal);
    assert_eq!(Reason::Fault.exit(), Exit::Error);
}

#[test]
fn link_and_unlink_address_both_sides() {
    let (a, b) = (pid(1), pid(2));
    assert_eq!(
        a.link(&b),
        (
            Signal { to: a, msg: SystemMsg::Link(b) },
            Signal { to: b, msg: SystemMsg::Link(a) }
        )
    );
    assert_eq!(
        a.unlink(&b),
        (
            Signal { to: a, msg: SystemMsg::Unlink(b) },
            Signal { to: b, msg: SystemMsg::Unlink(a) }
        )
    );
    assert_eq!(a.send(SystemMsg::LinkExit(Exit::Error)), exit_to(1, Exit::Error));
}

#[test]
fn a_peer_is_registered_once() {
    let mut a = Lifecycle::new(pid(1), false);
    assert_eq!(a.pid(), pid(1));
    assert!(a.is_running());
    assert_eq!(a.exit(), Exit::Continue);
    assert_eq!(a.link_count(), 0);
    assert!(matches!(a.handle(SystemMsg::Link(pid(2))), Effect::Proceed));
    assert!(matches!(a.handle(SystemMsg::Link(pid(2))), Effect::Proceed));
    assert!(matches!(a.handle(SystemMsg::Link(pid(3))), Effect::Proceed));
    assert_eq!(a.link_count(), 2);
    assert!(a.is_linked(pid(2)));
    assert!(a.is_linked(pid(3)));
    assert!(!a.is_linked(pid(4)));
    assert!(matches!(a.handle(SystemMsg::Unlink(pid(2))), Effect::Proceed));
    assert!(!a.is_linked(pid(2)));
    assert!(a.is_linked(pid(3)));
    assert_eq!(a.link_count(), 1);
    assert!(matches!(a.handle(SystemMsg::Unlink(pid(9))), Effect::Proceed));
    assert_eq!(a.link_count(), 1);
}

#[test]
fn abnormal_end_signals_every_peer_in_order() {
    let mut a = Lifecycle::new(pid(1), false);
    a.handle(SystemMsg::Link(pid(5)));
    a.handle(SystemMsg::Link(pid(3)));
    a.handle(SystemMsg::Link(pid(4)));
    a.handle(SystemMsg::Unlink(pid(3)));
    let signals = a.finish(Exit::Error);
    assert_eq!(signals, vec![exit_to(5, Exit::Error), exit_to(4, Exit::Error)]);
    assert!(!a.is_running());
    assert_eq!(a.exit(), Exit::Error);
    assert_eq!(a.link_count(), 0);
}

#[test]
fn normal_end_signals_nobody() {
    let mut a = Lifecycle::new(pid(1), false);
    a.handle(SystemMsg::Link(pid(2)));
    assert!(a.finish(Exit::Normal).is_empty());
    assert_eq!(a.exit(), Exit::Normal);
    assert_eq!(a.link_count(), 0);
}

#[test]
fn continue_ends_nothing() {
    let mut a = Lifecycle::new(pid(1), false);
    a.handle(SystemMsg::Link(pid(2)));
    assert!(a.finish(Exit::Continue).is_empty());
    assert!(a.is_running());
    assert!(a.is_linked(pid(2)));
    assert!(matches!(a.step(ProcessMsg::Process(Exit::Continue)), Effect::Proceed));
    assert!(a.is_running());
}

#[test]
fn terminated_is_absorbing() {
    let mut a = Lifecycle::new(pid(1), false);
    a.finish(Exit::Normal);
    assert!(matches!(a.handle(SystemMsg::Link(pid(2))), Effect::Proceed));
    assert_eq!(a.link_count(), 0);
    assert!(matches!(a.handle(SystemMsg::LinkExit(Exit::Error)), Effect::Proceed));
    assert_eq!(a.exit(), Exit::Normal);
    assert!(a.finish(Exit::Error).is_empty());
    assert_eq!(a.exit(), Exit::Normal);
    assert!(matches!(a.step(ProcessMsg::Process(Exit::Error)), Effect::Proceed));
    assert_eq!(a.exit(), Exit::Normal);
}

#[test]
fn linked_exit_ends_a_peer_that_does_not_trap() {
    let (a, b) = (pid(1), pid(2));
    let mut la = Lifecycle::new(a, false);
    let mut lb = Lifecycle::new(b, false);
    let (to_a, to_b) = a.link(&b);
    la.handle(to_a.msg);
    lb.handle(to_b.msg);
    lb.handle(SystemMsg::Link(pid(7)));

    let signals = la.finish(Exit::Error);
    assert_eq!(signals, vec![exit_to(2, Exit::Error)]);

    let cascade = signals_of(lb.handle(signals[0].msg));
    assert_eq!(lb.exit(), Exit::Error);
    assert_eq!(cascade, vec![exit_to(1, Exit::Error), exit_to(7, Exit::Error)]);
}

#[test]
fn linked_exit_is_a_message_for_a_peer_that_traps() {
    let (a, b) = (pid(1), pid(2));
    let mut la = Lifecycle::new(a, false);
    let mut lb = Lifecycle::new(b, true);
    assert!(lb.traps_exits());
    let (to_a, to_b) = a.link(&b);
    la.handle(to_a.msg);
    lb.handle(to_b.msg);

    let signals = la.finish(Exit::Error);
    assert!(matches!(lb.handle(signals[0].msg), Effect::Trapped(Exit::Error)));
    assert!(lb.is_running());
    assert!(lb.is_linked(a));

    lb.set_trap_exit(false);
    assert!(!lb.traps_exits());
    assert!(matches!(lb.handle(SystemMsg::LinkExit(Exit::Normal)), Effect::Proceed));
    assert!(lb.is_running());
}

#[test]
fn unlinked_peer_is_left_alone() {
    let (a, b) = (pid(1), pid(2));
    let mut la = Lifecycle::new(a, false);
    let mut lb = Lifecycle::new(b, false);
    let (to_a, to_b) = a.link(&b);
    la.handle(to_a.msg);
    lb.handle(to_b.msg);
    let (to_a, to_b) = a.unlink(&b);
    la.handle(to_a.msg);
    lb.handle(to_b.msg);

    let signals = la.finish(Exit::Error);
    assert!(signals.is_empty());
    assert!(lb.is_running());
    assert_eq!(lb.link_count(), 0);
}

#[test]
fn step_handles_system_messages_and_body_answers() {
    let mut a = Lifecycle::new(pid(1), false);
    assert!(matches!(a.step(ProcessMsg::System(SystemMsg::Link(pid(2)))), Effect::Proceed));
    assert!(a.is_linked(pid(2)));
    let signals = signals_of(a.step(ProcessMsg::Process(Exit::Error)));
    assert_eq!(signals, vec![exit_to(2, Exit::Error)]);
    assert_eq!(a.exit(), Exit::Error);

    let mut b = Lifecycle::new(pid(2), false);
    b.step(ProcessMsg::System(SystemMsg::Link(pid(1))));
    let signals = signals_of(b.step(ProcessMsg::Process(Exit::Normal)));
    assert!(signals.is_empty());
    assert_eq!(b.exit(), Exit::Normal);
}

#[test]
fn stage_gives_each_process_its_own_identity() {
    let mut stage = Stage::new();
    let (first, first_handle) = spawn_pair(&mut stage, false);
    let (second, second_handle) = spawn_pair(&mut stage, true);
    assert_eq!(first.pid(), pid(1));
    assert_eq!(second.pid(), pid(2));
    assert_eq!(first_handle.pid(), pid(1));
    assert_eq!(second_handle.pid(), pid(2));
    assert_eq!(stage.handle(StageMsg::Spawn), Some(pid(3)));
    assert_eq!(stage.handle(StageMsg::Spawn), Some(pid(4)));
}

#[test]
fn a_handle_reaches_only_its_own_process() {
    let mut stage = Stage::new();
    let (mut first, first_handle) = spawn_pair(&mut stage, false);
    let (mut second, second_handle) = spawn_pair(&mut stage, false);
    assert!(first_handle.call_ref_mut(&mut second, increment as MutFn).is_err());
    assert_eq!(second.pending(), 0);
    assert!(second_handle.call_ref_mut(&mut second, increment as MutFn).is_ok());
    assert_eq!(second_handle.call_ref_reply(&mut second, read as ReadReplyFn), Ok(1));
    assert_eq!(first_handle.call_ref_reply(&mut first, read as ReadReplyFn), Ok(0));
}

#[test]
fn linked_actor_dies_with_its_peer() {
    let mut stage = Stage::new();
    let (mut echo, echo_handle) = spawn_pair(&mut stage, false);
    let (mut counter, counter_handle) = spawn_pair(&mut stage, false);

    let (to_echo, to_counter) = echo.pid().link(&counter.pid());
    for signal in [to_echo, to_counter] {
        echo.receive(signal);
        counter.receive(signal);
    }
    assert!(counter_handle.call_ref(&mut counter, look as ReadFn).is_ok());

    let signals = echo.stop(Exit::Error);
    assert_eq!(signals, vec![exit_to(2, Exit::Error)]);
    for signal in signals {
        let cascade = signals_of(counter.receive(signal));
        assert_eq!(cascade, vec![exit_to(1, Exit::Error)]);
    }

    assert!(!counter.is_running());
    assert_eq!(counter.exit(), Exit::Error);
    assert_eq!(counter.pending(), 0);
    assert!(counter_handle.call_ref(&mut counter, look as ReadFn).is_err());
    assert!(echo_handle.call_ref(&mut echo, look as ReadFn).is_err());
}

#[test]
fn trapping_actor_outlives_its_peer() {
    let mut stage = Stage::new();
    let (mut echo, _echo_handle) = spawn_pair(&mut stage, false);
    let (mut counter, counter_handle) = spawn_pair(&mut stage, true);

    let (to_echo, to_counter) = echo.pid().link(&counter.pid());
    for signal in [to_echo, to_counter] {
        echo.receive(signal);
        counter.receive(signal);
    }

    let signals = echo.stop(Exit::Error);
    assert_eq!(signals.len(), 1);
    assert!(matches!(counter.receive(signals[0]), Effect::Trapped(Exit::Error)));
    assert!(counter.is_running());
    assert!(counter_handle.call_ref_mut(&mut counter, increment as MutFn).is_ok());
    assert_eq!(counter_handle.call_ref_reply(&mut counter, read as ReadReplyFn), Ok(1));
}

#[test]
fn unlinked_actor_survives_its_former_peer() {
    let mut stage = Stage::new();
    let (mut echo, _echo_handle) = spawn_pair(&mut stage, false);
    let (mut counter, counter_handle) = spawn_pair(&mut stage, false);

    let (to_echo, to_counter) = echo.pid().link(&counter.pid());
    for signal in [to_echo, to_counter] {
        echo.receive(signal);
        counter.receive(signal);
    }
    let (to_echo, to_counter) = echo.pid().unlink(&counter.pid());
    for signal in [to_echo, to_counter] {
        echo.receive(signal);
        counter.receive(signal);
    }

    assert!(echo.stop(Exit::Error).is_empty());
    assert!(counter.is_running());
    assert_eq!(counter_handle.call_ref_reply(&mut counter, read as ReadReplyFn), Ok(0));
}

#[test]
fn a_signal_for_another_process_is_dropped() {
    let mut stage = Stage::new();
    let (mut worker, _handle) = spawn_pair(&mut stage, false);
    assert!(matches!(worker.receive(exit_to(9, Exit::Error)), Effect::Proceed));
    assert!(worker.is_running());
    assert!(matches!(worker.handle(SystemMsg::LinkExit(Exit::Error)), Effect::Exited(_)));
    assert!(!worker.is_running());
}

fn troupe(stage: &mut Stage, traps: &[bool]) -> Vec<Worker> {
    traps.iter().map(|&trap_exit| spawn_pair(stage, trap_exit).0).collect()
}

fn link_all(processes: &mut Vec<Worker>, pairs: &[(u64, u64)]) {
    let mut signals = Vec::new();
    for &(a, b) in pairs {
        let (to_a, to_b) = pid(a).link(&pid(b));
        signals.push(to_a);
        signals.push(to_b);
    }
    assert!(Stage::route(processes, signals).is_empty());
}

#[test]
fn exit_cascades_along_the_links() {
    let mut stage = Stage::new();
    // pids 1 to 5; 5 traps exits
    let mut processes = troupe(&mut stage, &[false, false, false, false, true]);
    link_all(&mut processes, &[(1, 2), (2, 3), (3, 5)]);

    let signals = processes[0].stop(Exit::Error);
    assert_eq!(signals, vec![exit_to(2, Exit::Error)]);
    let trapped = Stage::route(&mut processes, signals);

    assert_eq!(trapped, vec![exit_to(5, Exit::Error)]);
    let exits: Vec<Exit> = processes.iter().map(|p| p.exit()).collect();
    assert_eq!(
        exits,
        vec![Exit::Error, Exit::Error, Exit::Error, Exit::Continue, Exit::Continue]
    );
}

#[test]
fn normal_exit_does_not_cascade() {
    let mut stage = Stage::new();
    let mut processes = troupe(&mut stage, &[false, false]);
    link_all(&mut processes, &[(1, 2)]);

    let signals = processes[0].stop(Exit::Normal);
    assert!(signals.is_empty());
    assert!(Stage::route(&mut processes, signals).is_empty());
    assert_eq!(processes[0].exit(), Exit::Normal);
    assert!(processes[1].is_running());
}

#[test]
fn unlink_before_exit_stops_the_cascade() {
    let mut stage = Stage::new();
    let mut processes = troupe(&mut stage, &[false, false, false]);
    link_all(&mut processes, &[(1, 2), (2, 3)]);
    let (to_a, to_b) = pid(2).unlink(&pid(3));
    assert!(Stage::route(&mut processes, vec![to_a, to_b]).is_empty());

    let signals = processes[0].stop(Exit::Error);
    assert!(Stage::route(&mut processes, signals).is_empty());
    assert_eq!(processes[1].exit(), Exit::Error);
    assert!(processes[2].is_running());
}

#[test]
fn signals_for_nobody_are_dropped() {
    let mut stage = Stage::new();
    let mut processes = troupe(&mut stage, &[false, true]);
    let signals = vec![exit_to(9, Exit::Error), exit_to(2, Exit::Normal), exit_to(1, Exit::Normal)];
    let trapped = Stage::route(&mut processes, signals);
    assert_eq!(trapped, vec![exit_to(2, Exit::Normal)]);
    assert!(processes[0].is_running());
    assert!(processes[1].is_running());
    assert!(Stage::route(&mut processes, Vec::new()).is_empty());
}

#[test]
fn cycle_of_links_terminates() {
    let mut stage = Stage::new();
    let mut processes = troupe(&mut stage, &[false, false, false]);
    link_all(&mut processes, &[(1, 2), (2, 3), (3, 1)]);
    let trapped = Stage::route(&mut processes, vec![exit_to(3, Exit::Error)]);
    assert!(trapped.is_empty());
    assert!(processes.iter().all(|p| p.exit() == Exit::Error));
}

enum Foo {
    A,
    B,
    Stop,
}

fn foo(msg: Foo) -> Exit {
    match msg {
        Foo::A => {
            println!("A!");
            Exit::Continue
        }
        Foo::B => {
            println!("B!");
            Exit::Continue
        }
        Foo::Stop => {
            println!("Stop!");
            Exit::Normal
        }
    }
}

#[test]
fn mod_example() {
    println!("test start");
    let mut lifecycle = Lifecycle::new(pid(1), false);
    println!("received pid");

    assert!(matches!(lifecycle.step(ProcessMsg::Process(foo(Foo::A))), Effect::Proceed));
    println!("sent A");
    assert!(matches!(lifecycle.step(ProcessMsg::Process(foo(Foo::B))), Effect::Proceed));
    println!("sent B");
    assert!(lifecycle.is_running());

    let signals = signals_of(lifecycle.step(ProcessMsg::Process(foo(Foo::Stop))));
    assert!(signals.is_empty());
    assert_eq!(lifecycle.exit(), Exit::Normal);
}

#[test]
fn link_is_established_only_between_running_processes() {
    let mut stage = Stage::new();
    let mut processes = troupe(&mut stage, &[false, false, false]);
    assert!(Stage::runs(&processes, pid(1)));
    assert!(!Stage::runs(&processes, pid(9)));

    assert!(Stage::link(&mut processes, pid(1), pid(2)));
    let signals = processes[2].stop(Exit::Normal);
    assert!(signals.is_empty());
    assert!(!Stage::runs(&processes, pid(3)));

    // one side is gone: nothing is registered on the other
    assert!(!Stage::link(&mut processes, pid(1), pid(3)));
    assert!(!Stage::link(&mut processes, pid(3), pid(2)));
    assert!(!Stage::link(&mut processes, pid(1), pid(9)));

    // only the established link carries the exit
    let signals = processes[0].stop(Exit::Error);
    assert_eq!(signals, vec![exit_to(2, Exit::Error)]);
    assert!(Stage::route(&mut processes, signals).is_empty());
    assert_eq!(processes[1].exit(), Exit::Error);
}

#[test]
fn end_of_stream_is_a_normal_end() {
    let mut lifecycle = Lifecycle::new(pid(1), false);
    lifecycle.handle(SystemMsg::Link(pid(2)));
    assert!(signals_of(lifecycle.closed()).is_empty());
    assert_eq!(lifecycle.exit(), Exit::Normal);
    assert!(matches!(lifecycle.closed(), Effect::Proceed));
    assert_eq!(lifecycle.exit(), Exit::Normal);
}

#[test]
fn stage_unlink_removes_both_registrations() {
    let mut stage = Stage::new();
    let mut processes = troupe(&mut stage, &[false, false, false]);
    assert!(Stage::link(&mut processes, pid(1), pid(2)));
    assert!(Stage::link(&mut processes, pid(2), pid(3)));
    Stage::unlink(&mut processes, pid(2), pid(1));

    let signals = processes[0].stop(Exit::Error);
    assert!(signals.is_empty());
    assert!(Stage::route(&mut processes, signals).is_empty());
    assert!(processes[1].is_running());

    let signals = processes[1].stop(Exit::Error);
    assert_eq!(signals, vec![exit_to(3, Exit::Error)]);
    assert!(Stage::route(&mut processes, signals).is_empty());
    assert_eq!(processes[2].exit(), Exit::Error);
}
