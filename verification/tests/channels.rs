use thespian::erl::mailbox::{Mailbox, Memory, Received, MEM};
use thespian::erl::process::{Msg, Process};
use thespian::link::{new_reply, Link, RecvError, ReplyReceiver, SendError, UnboundedLink};
use thespian::process::Pid;

fn message<T>(received: Received<T>) -> T {
    match received {
        Received::Message(msg) => msg,
        Received::Empty => panic!("the mailbox is empty"),
        Received::Closed => panic!("the mailbox is closed"),
    }
}

#[test]
fn mailbox_is_first_in_first_out() {
    let mut mailbox = Mailbox::new();
    assert!(mailbox.is_open());
    assert_eq!(mailbox.senders(), 1);
    assert!(mailbox.send(1).is_ok());
    assert!(mailbox.send(2).is_ok());
    assert!(mailbox.send(3).is_ok());
    assert_eq!(mailbox.len(), 3);
    assert_eq!(message(mailbox.recv()), 1);
    assert_eq!(message(mailbox.recv()), 2);
    assert!(mailbox.send(4).is_ok());
    assert_eq!(message(mailbox.recv()), 3);
    assert_eq!(message(mailbox.recv()), 4);
    assert!(matches!(mailbox.recv(), Received::Empty));
    assert_eq!(mailbox.len(), 0);
}

#[test]
fn empty_mailbox_waits_while_a_sender_lives() {
    let mut mailbox: Mailbox<u8> = Mailbox::new();
    mailbox.attach();
    assert_eq!(mailbox.senders(), 2);
    mailbox.detach();
    assert!(matches!(mailbox.recv(), Received::Empty));
    assert!(mailbox.send(7).is_ok());
    mailbox.detach();
    assert_eq!(mailbox.senders(), 0);
    mailbox.detach();
    assert_eq!(mailbox.senders(), 0);
    assert_eq!(message(mailbox.recv()), 7);
    assert!(matches!(mailbox.recv(), Received::Closed));
}

#[test]
fn closed_mailbox_hands_the_message_back() {
    let mut mailbox = Mailbox::new();
    assert!(mailbox.send("kept").is_ok());
    mailbox.close();
    assert!(!mailbox.is_open());
    assert_eq!(mailbox.len(), 0);
    match mailbox.send("late") {
        Err(error) => assert_eq!(error.message, "late"),
        Ok(()) => panic!("a closed mailbox took a message"),
    }
    assert_eq!(mailbox.len(), 0);
    assert!(matches!(mailbox.recv(), Received::Closed));
}

#[test]
fn mailbox_accepts_what_a_channel_had() {
    let mut mailbox = Mailbox::new();
    assert!(matches!(mailbox.accept(Received::Message(5)), Received::Message(())));
    assert!(matches!(mailbox.accept(Received::Empty), Received::Empty));
    assert_eq!(mailbox.len(), 1);
    assert_eq!(mailbox.senders(), 1);
    assert!(matches!(mailbox.accept(Received::Closed), Received::Closed));
    assert_eq!(mailbox.senders(), 0);
    assert_eq!(message(mailbox.recv()), 5);
    assert!(matches!(mailbox.recv(), Received::Closed));
}

#[test]
fn memory_is_handed_on() {
    struct A;
    struct B;
    let memory = MEM.reserve::<A>(5).reserve::<B>(5);
    assert_eq!(memory, Memory {});
    let seen = std::cell::Cell::new(false);
    memory.with(|inner| seen.set(inner == Memory {}));
    assert!(seen.get());
}

#[test]
fn reply_carries_one_value() {
    let (sender, mut receiver) = new_reply::<u32>();
    assert!(matches!(receiver.try_recv(), Received::Empty));
    assert_eq!(sender.send(3), Ok(()));
    assert_eq!(message(receiver.try_recv()), 3);
    assert!(matches!(receiver.try_recv(), Received::Closed));

    let (sender, receiver) = new_reply::<u32>();
    let (sender, mut receiver) = (sender, receiver);
    assert_eq!(sender.send(4), Ok(()));
    assert_eq!(RecvError::arrived(receiver.try_recv()), Ok(4));
}

#[test]
fn reply_never_delivered() {
    let (sender, mut receiver) = new_reply::<u32>();
    drop(sender);
    assert!(matches!(receiver.try_recv(), Received::Closed));

    let (_sender, mut receiver): (_, ReplyReceiver<u32>) = new_reply();
    assert!(matches!(receiver.try_recv(), Received::Empty));
    assert_eq!(RecvError::arrived(receiver.try_recv()), Err(RecvError));

    let (sender, receiver) = new_reply::<u32>();
    drop(receiver);
    assert_eq!(sender.send(5), Err(5));
}

#[test]
fn reply_is_what_the_receiving_end_found() {
    assert_eq!(RecvError::arrived(Received::Message(7u32)), Ok(7));
    assert_eq!(RecvError::arrived(Received::<u32>::Empty), Err(RecvError));
    assert_eq!(RecvError::arrived(Received::<u32>::Closed), Err(RecvError));
}

#[test]
fn channel_carries_messages_in_order() {
    let (sender, mut receiver) = UnboundedLink::<u32>::new();
    assert!(matches!(receiver.try_recv(), Received::Empty));
    assert!(sender.send(1).is_ok());
    let second = sender.clone();
    assert!(second.send(2).is_ok());
    assert!(sender.send(3).is_ok());
    assert_eq!(message(receiver.try_recv()), 1);
    assert_eq!(message(receiver.try_recv()), 2);
    assert_eq!(message(receiver.try_recv()), 3);
    assert!(matches!(receiver.try_recv(), Received::Empty));
    drop(sender);
    assert!(matches!(receiver.try_recv(), Received::Empty));
    assert!(second.send(4).is_ok());
    drop(second);
    assert_eq!(message(receiver.try_recv()), 4);
    assert!(matches!(receiver.try_recv(), Received::Closed));
}

#[test]
fn channel_without_receiver_hands_the_message_back() {
    let (sender, receiver) = UnboundedLink::<String>::new();
    drop(receiver);
    match sender.send("late".to_string()) {
        Err(error) => assert_eq!(error.message, "late"),
        Ok(()) => panic!("a channel without receiver took a message"),
    }
    let pid = Pid::new(sender);
    match pid.send("later".to_string()) {
        Err(error) => assert_eq!(error.message, "later"),
        Ok(()) => panic!("a channel without receiver took a message"),
    }
}

#[test]
fn pid_sends_from_another_task() {
    let (sender, mut receiver) = UnboundedLink::<u32>::new();
    let pid = Pid::new(sender);
    let task = smol::spawn(async move {
        for n in 0..10 {
            assert!(pid.send(n).is_ok());
        }
    });
    smol::block_on(task);
    for n in 0..10 {
        assert_eq!(message(receiver.try_recv()), n);
    }
    assert!(matches!(receiver.try_recv(), Received::Closed));
}

#[test]
fn channel_delivers_into_the_mailbox() {
    let (sender, mut receiver) = UnboundedLink::<u32>::new();
    let mut mailbox = Mailbox::new();
    assert!(matches!(receiver.deliver(&mut mailbox), Received::Empty));
    assert!(sender.send(8).is_ok());
    assert!(sender.send(9).is_ok());
    assert!(matches!(receiver.deliver(&mut mailbox), Received::Message(())));
    assert!(matches!(receiver.deliver(&mut mailbox), Received::Message(())));
    assert_eq!(mailbox.len(), 2);
    drop(sender);
    assert!(matches!(receiver.deliver(&mut mailbox), Received::Closed));
    assert_eq!(mailbox.senders(), 0);
    assert_eq!(message(mailbox.recv()), 8);
    assert_eq!(message(mailbox.recv()), 9);
    assert!(matches!(mailbox.recv(), Received::Closed));
}

#[test]
fn process_pid_reaches_its_own_mailbox() {
    let process = Process::new();
    let pid = process.pid.clone();
    assert!(process.mailbox.as_receiver().try_recv().is_err());
    assert!(pid.as_sender().try_send(Msg).is_ok());
    assert!(process.pid.as_sender().try_send(Msg).is_ok());
    assert_eq!(process.mailbox.as_receiver().try_recv(), Ok(Msg));
    assert_eq!(process.mailbox.as_receiver().try_recv(), Ok(Msg));
    assert!(process.mailbox.as_receiver().try_recv().is_err());
}

#[test]
fn with_a_stage() {
    let (sender, mut receiver) = UnboundedLink::<&'static str>::new();
    let pid = Pid::new(sender);
    let mut mailbox = Mailbox::new();

    assert!(pid.send("first").is_ok());
    assert!(pid.send("second").is_ok());
    assert!(pid.send("third").is_ok());

    while let Received::Message(()) = receiver.deliver(&mut mailbox) {}
    let mut seen = Vec::new();
    while let Received::Message(msg) = mailbox.recv() {
        println!("process {}...", msg);
        seen.push(msg);
    }
    assert_eq!(seen, vec!["first", "second", "third"]);
}

#[test]
fn send_result_follows_the_answer_of_the_channel() {
    assert!(SendError::<u32>::refused(Ok(())).is_ok());
    match SendError::refused(Err(5u32)) {
        Err(error) => assert_eq!(error.message, 5),
        Ok(()) => panic!("a refused message was taken"),
    }
}

#[test]
fn process_is_made_of_the_ends_it_is_given() {
    let (sender, receiver) = smol::channel::unbounded::<Msg>();
    let other_end = receiver.clone();
    let process = Process::from_ends(sender, receiver);
    assert!(process.pid.as_sender().try_send(Msg).is_ok());
    assert_eq!(other_end.try_recv(), Ok(Msg));
    assert!(process.mailbox.as_receiver().try_recv().is_err());
    assert!(process.pid.as_sender().try_send(Msg).is_ok());
    assert_eq!(process.mailbox.as_receiver().try_recv(), Ok(Msg));
}
