use thespian::actor::{new_with_state, Actor};
use thespian::erl::mailbox::Received;
use thespian::link::{new_reply, RecvError, ReplySender};
use thespian::process::{Process, Visitor};
use thespian::supervision::Exit;

type ReadFn = fn(&u32);
type MutFn = fn(u32) -> u32;
type ReadReplyFn = fn(&u32, ReplySender<u32>);
type MutReplyFn = fn(u32, ReplySender<u32>) -> u32;
type Counter = Process<u32, u32, ReadFn, MutFn, ReadReplyFn, MutReplyFn>;

fn look(_state: &u32) {}

fn increment(state: u32) -> u32 {
    state + 1
}

fn double(state: u32) -> u32 {
    state * 2
}

fn read(state: &u32, reply: ReplySender<u32>) {
    let _ = reply.send(*state);
}

fn silent(_state: &u32, _reply: ReplySender<u32>) {}

fn take(state: u32, reply: ReplySender<u32>) -> u32 {
    let _ = reply.send(state);
    0
}

fn counter(initial: u32) -> (Counter, Actor) {
    new_with_state(initial)
}

#[test]
fn three_increments_then_read_replies_three() {
    let (mut process, actor) = counter(0);
    assert!(actor.call_ref_mut(&mut process, increment as MutFn).is_ok());
    assert!(actor.call_ref_mut(&mut process, increment as MutFn).is_ok());
    assert!(actor.call_ref_mut(&mut process, increment as MutFn).is_ok());
    assert_eq!(process.pending(), 3);
    assert_eq!(actor.call_ref_reply(&mut process, read as ReadReplyFn), Ok(3));
    assert_eq!(process.pending(), 0);
}

#[test]
fn mutations_apply_left_to_right() {
    let (mut process, actor) = counter(5);
    assert!(actor.call_ref_mut(&mut process, increment as MutFn).is_ok());
    assert!(actor.call_ref_mut(&mut process, double as MutFn).is_ok());
    assert!(actor.call_ref_mut(&mut process, increment as MutFn).is_ok());
    // ((5 + 1) * 2) + 1
    assert_eq!(actor.call_ref_reply(&mut process, read as ReadReplyFn), Ok(13));
}

#[test]
fn reply_shows_state_at_the_moment_the_visitor_ran() {
    let (mut process, actor) = counter(1);
    let other = actor.duplicate(&mut process);
    assert_eq!(actor.call_ref_reply(&mut process, read as ReadReplyFn), Ok(1));
    assert!(other.call_ref_mut(&mut process, double as MutFn).is_ok());
    assert_eq!(other.call_ref_reply(&mut process, read as ReadReplyFn), Ok(2));
    assert!(actor.call_ref_mut(&mut process, double as MutFn).is_ok());
    assert_eq!(actor.call_ref_reply(&mut process, read as ReadReplyFn), Ok(4));
}

#[test]
fn read_only_visitor_leaves_state_alone() {
    let (mut process, actor) = counter(7);
    assert!(actor.call_ref(&mut process, look as ReadFn).is_ok());
    assert_eq!(actor.call_ref_reply(&mut process, read as ReadReplyFn), Ok(7));
}

#[test]
fn mutating_reply_returns_old_state_and_resets() {
    let (mut process, actor) = counter(9);
    assert_eq!(actor.call_ref_mut_reply(&mut process, take as MutReplyFn), Ok(9));
    assert_eq!(actor.call_ref_reply(&mut process, read as ReadReplyFn), Ok(0));
}

#[test]
fn visitor_that_does_not_reply_fails_the_call() {
    let (mut process, actor) = counter(3);
    assert_eq!(actor.call_ref_reply(&mut process, silent as ReadReplyFn), Err(RecvError));
    assert!(process.is_running());
}

#[test]
fn calls_on_a_terminated_process_fail_as_closed() {
    let (mut process, actor) = counter(3);
    let signals = process.stop(Exit::Error);
    assert!(signals.is_empty());
    assert!(!process.is_running());
    assert_eq!(process.exit(), Exit::Error);
    assert!(actor.call_ref(&mut process, look as ReadFn).is_err());
    assert!(actor.call_ref_mut(&mut process, increment as MutFn).is_err());
    assert_eq!(actor.call_ref_reply(&mut process, read as ReadReplyFn), Err(RecvError));
    assert_eq!(actor.call_ref_mut_reply(&mut process, take as MutReplyFn), Err(RecvError));
    assert_eq!(process.pending(), 0);
}

#[test]
fn dropping_every_handle_ends_the_loop() {
    let (mut process, actor) = counter(0);
    let second = actor.duplicate(&mut process);
    assert!(second.call_ref_mut(&mut process, increment as MutFn).is_ok());
    actor.release(&mut process);
    assert_eq!(process.pending(), 1);
    process.start();
    assert_eq!(process.pending(), 0);
    assert!(process.is_running());
    second.release(&mut process);
    process.start();
    assert!(!process.is_running());
    assert_eq!(process.exit(), Exit::Normal);
}

#[test]
fn stop_with_continue_ends_nothing() {
    let (mut process, actor) = counter(4);
    assert!(process.stop(Exit::Continue).is_empty());
    assert!(process.is_running());
    assert_eq!(actor.call_ref_reply(&mut process, read as ReadReplyFn), Ok(4));
}

type Keeper = Process<
    Option<ReplySender<u32>>,
    u32,
    fn(&Option<ReplySender<u32>>),
    fn(Option<ReplySender<u32>>) -> Option<ReplySender<u32>>,
    fn(&Option<ReplySender<u32>>, ReplySender<u32>),
    fn(Option<ReplySender<u32>>, ReplySender<u32>) -> Option<ReplySender<u32>>,
>;

fn keep(_state: Option<ReplySender<u32>>, reply: ReplySender<u32>) -> Option<ReplySender<u32>> {
    Some(reply)
}

fn answer(state: Option<ReplySender<u32>>) -> Option<ReplySender<u32>> {
    if let Some(reply) = state {
        let _ = reply.send(42);
    }
    None
}

#[test]
fn visitor_may_keep_the_sender_and_reply_later() {
    let (mut process, actor): (Keeper, Actor) = new_with_state(None);
    let (sender, mut receiver) = new_reply::<u32>();
    assert!(process.send(Visitor::MutateReply(keep, sender)).is_ok());
    process.start();
    assert!(matches!(receiver.try_recv(), Received::Empty));

    assert!(actor.call_ref_mut(&mut process, answer).is_ok());
    process.start();
    assert!(matches!(receiver.try_recv(), Received::Message(42)));
}

#[test]
fn reply_to_a_caller_that_is_gone_comes_back() {
    let (sender, receiver) = new_reply::<u32>();
    drop(receiver);
    assert_eq!(sender.send(5), Err(5));
}
