use std::future::Future;
use std::pin::Pin;
use std::time::Duration;
use thespian::actor::{Reason, Spec};
use thespian::erl::atom::Atom;
use thespian::erl::process::{spawn, Exit};
use thespian::next::fsm::MatchCell;
use thespian::next::proc::{AsyncProc, Proc, ProcDef, StartError};

#[test]
fn spawn_actor() {
    let spec = Spec::new(|_context| async move { Reason::Normal });

    spec.spawn();
    spec.spawn();

    smol::block_on(async {
        smol::Timer::after(Duration::from_secs(1)).await;
    });
}

#[test]
fn spawned_actor_body_is_run() {
    let (done, wait) = std::sync::mpsc::channel::<u32>();
    let spec = Spec::new(move |_context| {
        let done = done.clone();
        async move {
            done.send(7).unwrap();
            Reason::Normal
        }
    });

    spec.spawn();
    spec.spawn();

    assert_eq!(wait.recv_timeout(Duration::from_secs(10)), Ok(7));
    assert_eq!(wait.recv_timeout(Duration::from_secs(10)), Ok(7));
}

#[test]
fn spawned_process_can_be_sent_to() {
    let (done, wait) = std::sync::mpsc::channel::<bool>();
    let pid = spawn(move |process| {
        let done = done.clone();
        async move {
            let got = process.mailbox.as_receiver().recv().await;
            done.send(got.is_ok()).unwrap();
            Exit::Normal
        }
    });
    assert!(pid.as_sender().try_send(thespian::erl::process::Msg).is_ok());
    assert_eq!(wait.recv_timeout(Duration::from_secs(10)), Ok(true));
}

#[test]
fn started_proc_runs_its_body() {
    struct Beta {
        done: std::sync::mpsc::Sender<u32>,
    }

    impl ProcDef for Beta {
        type Output = u32;
        type Body = Pin<Box<dyn Future<Output = u32> + Send>>;

        fn proc(self) -> AsyncProc<Self::Body> {
            AsyncProc::new(Box::pin(async move {
                self.done.send(11).unwrap();
                11
            }))
        }
    }

    let (done, wait) = std::sync::mpsc::channel::<u32>();
    let mut beta = Proc::new(Beta { done });
    assert_eq!(beta.start(), Ok(()));
    assert_eq!(wait.recv_timeout(Duration::from_secs(10)), Ok(11));
    assert_eq!(beta.start(), Err(StartError::AlreadyRun));
}

#[test]
fn spawn_process() {
    spawn(|_process| async move { Exit::Normal });
}

#[test]
fn receive_message() {
    let _pid = spawn(|process| async move {
        match process.mailbox.as_receiver().recv().await {
            _ => Exit::Normal,
        }
    });
}

#[test]
fn copying() {
    let a = Atom::new(1);
    let a_clone = a.clone();
    assert_eq!(a_clone, a);
    assert!(a.same(&a_clone));
    assert_ne!(a, Atom::new(2));
}

#[derive(Debug)]
enum Phase {
    A,
    B,
    C,
}

#[test]
fn fsm_example() {
    let _cell = MatchCell::new(Phase::A);
    let _cells = [MatchCell::new(Phase::B), MatchCell::new(Phase::C)];
}

#[derive(Default)]
struct Alpha {
    x: u32,
}

impl ProcDef for Alpha {
    type Output = ();
    type Body = Pin<Box<dyn Future<Output = ()> + Send>>;

    fn proc(mut self) -> AsyncProc<Self::Body> {
        AsyncProc::new(Box::pin(async move {
            self.x += 1;

            println!("x = {}", self.x);
        }))
    }
}

#[test]
fn proc_example() {
    // a proc can be created
    let mut alpha: Proc<Alpha> = Proc::new(Alpha::default());
    let alpha2: Proc<Alpha> = Proc::default();
    assert!(alpha.is_init());
    assert!(alpha2.is_init());

    // and started
    assert!(alpha.start().is_ok());
    assert!(!alpha.is_init());

    // but not started again
    assert_eq!(alpha.start(), Err(StartError::AlreadyRun));
    assert!(alpha.start().is_err());
}

/// An atom equals itself but no others.
#[test]
fn equality() {
    let a = Atom::new(1);
    let other_a = Atom { id: 1 };
    let b = Atom::new(2);
    let long = Atom::new(usize::MAX);

    // Reflexive
    assert_eq!(a, a);

    // Equality between instances
    assert_eq!(a, other_a);

    // The largest atom
    assert_eq!(long, Atom::new(usize::MAX));

    // Disjoint
    assert_ne!(a, b);
    assert!(!a.same(&b));
}

#[test]
fn cell_follows_the_answer_of_its_queue() {
    let queue = concurrent_queue::ConcurrentQueue::<u32>::bounded(1);
    assert!(queue.push(1).is_ok());
    assert!(MatchCell::filled(queue, Ok(())).is_ok());

    let queue = concurrent_queue::ConcurrentQueue::<u32>::bounded(1);
    assert!(matches!(MatchCell::filled(queue, Err(3)), Err(3)));
}
